//! Instruction decoding: a 16-bit big-endian instruction word is
//! classified by its high nibble (and, for some classes, its low byte)
//! into a closed set of instructions.
//!
//! Sub-fields of a word `0xKXNN`: the register index `x` is bits 8-11,
//! the immediate `nn` is the low byte, and an address payload is the
//! low 12 bits.

use vstd::prelude::*;

verus! {

/// One decoded instruction of the narrow instruction subset this core
/// implements. Every word outside the subset decodes to `Unimplemented`
/// carrying the raw word, so unhandled opcodes are explicit by
/// construction rather than undefined.
#[derive(Clone, Copy, Debug, PartialEq, Eq, Structural)]
pub enum Instruction {
    /// `0x00EE`: pop a return address into the instruction pointer.
    Ret,
    /// `0x1NNN`: set the instruction pointer to the address.
    Jump(u16),
    /// `0x2NNN`: push the instruction pointer, then jump to the address.
    Call(u16),
    /// `0x3XNN`: skip the next instruction if register X equals `nn`.
    SkipEqual(u8, u8),
    /// `0x4XNN`: skip the next instruction if register X differs from `nn`.
    SkipNotEqual(u8, u8),
    /// `0x6XNN`: load `nn` into register X.
    LoadConst(u8, u8),
    /// `0x7XNN`: add `nn` to register X, wrapping on 8-bit overflow,
    /// with no carry flag side effect.
    AddConst(u8, u8),
    /// `0xANNN`: load the address into the address register.
    LoadAddress(u16),
    /// `0xCXNN`: load `nn` AND a freshly drawn random byte into register X.
    Random(u8, u8),
    /// `0xDXYN`: draw; accepted and deliberately a no-op, since display
    /// state is outside this core.
    Draw,
    /// `0xEXA1`: skip the next instruction if the currently pressed key
    /// differs from register X.
    SkipKeyNotPressed(u8),
    /// `0xFX1E`: add register X to the address register.
    AddAddress(u8),
    /// Any other word: executing it is a fatal fault reporting the raw word.
    Unimplemented(u16),
}

/// What `decode` returns for each instruction word.
pub open spec fn spec_decode(word: u16) -> Instruction {
    let address = word & 0x0FFF;
    let x = ((word >> 8) & 0xF) as u8;
    let nn = (word & 0xFF) as u8;
    if word == 0x00EE {
        Instruction::Ret
    } else if word >> 12 == 0x1 {
        Instruction::Jump(address)
    } else if word >> 12 == 0x2 {
        Instruction::Call(address)
    } else if word >> 12 == 0x3 {
        Instruction::SkipEqual(x, nn)
    } else if word >> 12 == 0x4 {
        Instruction::SkipNotEqual(x, nn)
    } else if word >> 12 == 0x6 {
        Instruction::LoadConst(x, nn)
    } else if word >> 12 == 0x7 {
        Instruction::AddConst(x, nn)
    } else if word >> 12 == 0xA {
        Instruction::LoadAddress(address)
    } else if word >> 12 == 0xC {
        Instruction::Random(x, nn)
    } else if word >> 12 == 0xD {
        Instruction::Draw
    } else if word >> 12 == 0xE && nn == 0xA1 {
        Instruction::SkipKeyNotPressed(x)
    } else if word >> 12 == 0xF && nn == 0x1E {
        Instruction::AddAddress(x)
    } else {
        Instruction::Unimplemented(word)
    }
}

/// The decoded sub-fields lie in range: address payloads fit the
/// 4096-byte memory and register indices name one of the 16 registers.
pub open spec fn instruction_wf(inst: Instruction) -> bool {
    match inst {
        Instruction::Ret => true,
        Instruction::Jump(address) => address < 4096,
        Instruction::Call(address) => address < 4096,
        Instruction::SkipEqual(x, _nn) => x < 16,
        Instruction::SkipNotEqual(x, _nn) => x < 16,
        Instruction::LoadConst(x, _nn) => x < 16,
        Instruction::AddConst(x, _nn) => x < 16,
        Instruction::LoadAddress(address) => address < 4096,
        Instruction::Random(x, _nn) => x < 16,
        Instruction::Draw => true,
        Instruction::SkipKeyNotPressed(x) => x < 16,
        Instruction::AddAddress(x) => x < 16,
        Instruction::Unimplemented(_word) => true,
    }
}

/// Decoding only ever yields in-range sub-fields.
pub proof fn lemma_decode_wf(word: u16)
    ensures
        instruction_wf(spec_decode(word)),
{
    assert(word & 0x0FFF < 4096) by (bit_vector);
    assert((((word >> 8) & 0xF) as u8) < 16) by (bit_vector);
}

/// Classify an instruction word.
pub fn decode(word: u16) -> (inst: Instruction)
    ensures
        inst == spec_decode(word),
        instruction_wf(inst),
{
    proof {
        lemma_decode_wf(word);
    }
    let address: u16 = word & 0x0FFF;
    let x: u8 = ((word >> 8) & 0xF) as u8;
    let nn: u8 = (word & 0xFF) as u8;
    if word == 0x00EE {
        Instruction::Ret
    } else if word >> 12 == 0x1 {
        Instruction::Jump(address)
    } else if word >> 12 == 0x2 {
        Instruction::Call(address)
    } else if word >> 12 == 0x3 {
        Instruction::SkipEqual(x, nn)
    } else if word >> 12 == 0x4 {
        Instruction::SkipNotEqual(x, nn)
    } else if word >> 12 == 0x6 {
        Instruction::LoadConst(x, nn)
    } else if word >> 12 == 0x7 {
        Instruction::AddConst(x, nn)
    } else if word >> 12 == 0xA {
        Instruction::LoadAddress(address)
    } else if word >> 12 == 0xC {
        Instruction::Random(x, nn)
    } else if word >> 12 == 0xD {
        Instruction::Draw
    } else if word >> 12 == 0xE && nn == 0xA1 {
        Instruction::SkipKeyNotPressed(x)
    } else if word >> 12 == 0xF && nn == 0x1E {
        Instruction::AddAddress(x)
    } else {
        Instruction::Unimplemented(word)
    }
}

} // verus!
