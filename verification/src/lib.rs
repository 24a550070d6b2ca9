//! Execution core of a CHIP-8-style 8-bit virtual machine: a 4096-byte
//! memory, sixteen 8-bit registers, a 16-bit address register, a call
//! stack of return addresses, and an instruction pointer, driven by a
//! fetch-decode-execute cycle under run/pause/step control.

pub mod decode;
pub mod laws;
pub mod machine;
pub mod ports;

pub use decode::Instruction;
pub use machine::Emulator;
pub use machine::EmuView;
pub use machine::Fault;
pub use machine::Register;
pub use ports::Port;
pub use ports::SystemPort;
