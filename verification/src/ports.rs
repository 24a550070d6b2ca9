//! Capabilities the core is constructed with: a key query and a
//! random-byte draw. Injecting them keeps the core deterministic and
//! side-effect free for every host, and lets tests substitute fixed
//! sequences.

use vstd::prelude::*;

verus! {

/// The external behaviors an emulator draws on while executing: the
/// currently pressed key code (or a sentinel meaning none), queried by
/// key-test instructions, and a fresh random byte, drawn by the random
/// instruction. Implementations promise nothing about the values
/// returned; the core's contracts hold whatever comes back.
pub trait Port {
    /// The currently pressed key code, or a host-chosen sentinel when
    /// no key is down.
    fn key(&mut self) -> u8;

    /// A freshly drawn random byte.
    fn random_byte(&mut self) -> u8;
}

/// Relies on rand::random: draws a value from the thread-local
/// generator; nothing is assumed of the value.
#[verifier::external_body]
fn draw_random_byte() -> u8 {
    rand::random::<u8>()
}

/// A port for hosts without keyboard input: it reports key code 0 and
/// draws random bytes from the process's random number generator.
pub struct SystemPort;

impl Port for SystemPort {
    fn key(&mut self) -> u8 {
        0
    }

    fn random_byte(&mut self) -> u8 {
        draw_random_byte()
    }
}

} // verus!
