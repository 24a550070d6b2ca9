//! Behavioral tests of the virtual machine core, driven through its
//! public surface with scripted ports in place of real key and random
//! sources.

use chippy::Emulator;
use chippy::Fault;
use chippy::Instruction;
use chippy::Port;
use chippy::Register;
use chippy::SystemPort;

/// A port that reports a fixed key code and a fixed random byte.
struct ScriptedPort {
    key: u8,
    random: u8,
}

impl Port for ScriptedPort {
    fn key(&mut self) -> u8 {
        self.key
    }

    fn random_byte(&mut self) -> u8 {
        self.random
    }
}

fn scripted(key: u8, random: u8) -> Emulator<ScriptedPort> {
    Emulator::new(ScriptedPort { key, random })
}

#[test]
fn loaded_program_reads_back() {
    let mut emu = Emulator::new(SystemPort);
    emu.load(&[1, 2, 3]).unwrap();
    assert_eq!(emu.read_memory(0x200), 1);
    assert_eq!(emu.read_memory(0x201), 2);
    assert_eq!(emu.read_memory(0x202), 3);
    // Every byte outside the loaded region is still zero.
    assert_eq!(emu.read_memory(0x1FF), 0);
    assert_eq!(emu.read_memory(0x203), 0);
    assert_eq!(emu.read_memory(0x000), 0);
    assert_eq!(emu.read_memory(0xFFF), 0);
}

#[test]
fn fresh_state_is_zeroed() {
    let emu = Emulator::new(SystemPort);
    assert_eq!(emu.instruction_pointer(), 0x200);
    assert_eq!(emu.read_address_register(), 0);
    for a in 0..4096u16 {
        assert_eq!(emu.read_memory(a), 0);
    }
    assert_eq!(emu.read_register(Register::V0), 0);
    assert_eq!(emu.read_register(Register::VF), 0);
}

#[test]
fn paused_clock_is_noop() {
    let mut emu = Emulator::new(SystemPort);
    emu.load(&[0x60, 0x05]).unwrap();
    emu.pause();
    emu.clock().unwrap();
    emu.clock().unwrap();
    assert_eq!(emu.instruction_pointer(), 0x200);
    assert_eq!(emu.read_register(Register::V0), 0);
}

#[test]
fn step_runs_one_cycle_while_paused() {
    let mut emu = Emulator::new(SystemPort);
    emu.load(&[0x60, 0x05, 0x70, 0x03]).unwrap();
    emu.pause();
    emu.step().unwrap();
    assert_eq!(emu.read_register(Register::V0), 0x05);
    assert_eq!(emu.instruction_pointer(), 0x202);
    // The pause flag was restored: a plain clock stays a no-op.
    emu.clock().unwrap();
    assert_eq!(emu.instruction_pointer(), 0x202);
    emu.step().unwrap();
    assert_eq!(emu.read_register(Register::V0), 0x08);
    assert_eq!(emu.instruction_pointer(), 0x204);
}

#[test]
fn step_keeps_a_running_core_running() {
    let mut emu = Emulator::new(SystemPort);
    emu.load(&[0x60, 0x05, 0x70, 0x03]).unwrap();
    emu.step().unwrap();
    assert_eq!(emu.instruction_pointer(), 0x202);
    // The core was running before the step and still is.
    emu.clock().unwrap();
    assert_eq!(emu.instruction_pointer(), 0x204);
    assert_eq!(emu.read_register(Register::V0), 0x08);
}

#[test]
fn call_ret_round_trip() {
    // CALL 0x204 at 0x200, RET at 0x204.
    let mut emu = Emulator::new(SystemPort);
    emu.load(&[0x22, 0x04, 0x00, 0x00, 0x00, 0xEE]).unwrap();
    emu.clock().unwrap();
    assert_eq!(emu.instruction_pointer(), 0x204);
    emu.clock().unwrap();
    // Back at the address just past the CALL, not the CALL's own.
    assert_eq!(emu.instruction_pointer(), 0x202);
}

#[test]
fn skip_equal_widths() {
    let mut emu = Emulator::new(SystemPort);
    emu.load(&[0x30, 0x00]).unwrap();
    emu.clock().unwrap();
    // V0 == 0: the condition holds, four bytes of advance in total.
    assert_eq!(emu.instruction_pointer(), 0x204);

    let mut emu = Emulator::new(SystemPort);
    emu.load(&[0x30, 0x01]).unwrap();
    emu.clock().unwrap();
    // V0 != 1: the normal width.
    assert_eq!(emu.instruction_pointer(), 0x202);
}

#[test]
fn skip_not_equal_widths() {
    let mut emu = Emulator::new(SystemPort);
    emu.load(&[0x40, 0x01]).unwrap();
    emu.clock().unwrap();
    assert_eq!(emu.instruction_pointer(), 0x204);

    let mut emu = Emulator::new(SystemPort);
    emu.load(&[0x40, 0x00]).unwrap();
    emu.clock().unwrap();
    assert_eq!(emu.instruction_pointer(), 0x202);
}

#[test]
fn add_wraps_modulo_256() {
    let mut emu = Emulator::new(SystemPort);
    emu.load(&[0x60, 0xFF, 0x70, 0x03]).unwrap();
    emu.clock().unwrap();
    emu.clock().unwrap();
    assert_eq!(emu.read_register(Register::V0), 0x02);
    // No carry-out lands anywhere: VF is untouched.
    assert_eq!(emu.read_register(Register::VF), 0);
}

#[test]
fn random_never_escapes_mask() {
    for draw in 0..=255u8 {
        let mut emu = scripted(0, draw);
        emu.load(&[0xC0, 0x0F]).unwrap();
        emu.clock().unwrap();
        let value = emu.read_register(Register::V0);
        assert_eq!(value, 0x0F & draw);
        assert_eq!(value & !0x0F, 0);
    }
}

#[test]
fn random_from_system_port_is_masked() {
    // Whatever the process generator draws, the mask holds.
    for _ in 0..32 {
        let mut emu = Emulator::new(SystemPort);
        emu.load(&[0xC0, 0x31]).unwrap();
        emu.clock().unwrap();
        assert_eq!(emu.read_register(Register::V0) & !0x31, 0);
    }
}

#[test]
fn two_loads_scenario() {
    let mut emu = Emulator::new(SystemPort);
    emu.load(&[0x60, 0x05, 0x70, 0x03]).unwrap();
    emu.clock().unwrap();
    emu.clock().unwrap();
    assert_eq!(emu.read_register(Register::V0), 0x08);
    assert_eq!(emu.instruction_pointer(), 0x204);
}

#[test]
fn ret_on_empty_stack_faults() {
    let mut emu = Emulator::new(SystemPort);
    emu.load(&[0x00, 0xEE]).unwrap();
    let r = emu.clock();
    assert_eq!(r, Err(Fault::StackUnderflow));
    // Not a silent no-op: the fault was reported, with the pointer
    // already past the faulting word.
    assert_eq!(emu.instruction_pointer(), 0x202);
}

#[test]
fn unimplemented_opcode_faults() {
    let mut emu = Emulator::new(SystemPort);
    emu.load(&[0x8A, 0xBC]).unwrap();
    let r = emu.clock();
    assert_eq!(r, Err(Fault::UnimplementedInstruction(0x8ABC)));
}

#[test]
fn jump_sets_pointer() {
    let mut emu = Emulator::new(SystemPort);
    emu.load(&[0x13, 0x00]).unwrap();
    emu.clock().unwrap();
    assert_eq!(emu.instruction_pointer(), 0x300);
}

#[test]
fn address_register_load_and_add() {
    let mut emu = Emulator::new(SystemPort);
    emu.load(&[0xA1, 0x23, 0x60, 0x10, 0xF0, 0x1E]).unwrap();
    emu.clock().unwrap();
    assert_eq!(emu.read_address_register(), 0x123);
    emu.clock().unwrap();
    emu.clock().unwrap();
    assert_eq!(emu.read_address_register(), 0x133);
}

#[test]
fn skip_key_not_pressed() {
    // The pressed key equals V0: no skip.
    let mut emu = scripted(5, 0);
    emu.load(&[0x60, 0x05, 0xE0, 0xA1]).unwrap();
    emu.clock().unwrap();
    emu.clock().unwrap();
    assert_eq!(emu.instruction_pointer(), 0x204);

    // A different key is down: one extra width.
    let mut emu = scripted(6, 0);
    emu.load(&[0x60, 0x05, 0xE0, 0xA1]).unwrap();
    emu.clock().unwrap();
    emu.clock().unwrap();
    assert_eq!(emu.instruction_pointer(), 0x206);
}

#[test]
fn draw_is_accepted_as_noop() {
    let mut emu = Emulator::new(SystemPort);
    emu.load(&[0xD0, 0x12]).unwrap();
    emu.clock().unwrap();
    assert_eq!(emu.instruction_pointer(), 0x202);
    assert_eq!(emu.read_register(Register::V0), 0);
    assert_eq!(emu.read_register(Register::V1), 0);
}

#[test]
fn register_accessors() {
    let mut emu = Emulator::new(SystemPort);
    emu.write_register(Register::V3, 7);
    assert_eq!(emu.read_register(Register::V3), 7);
    assert_eq!(emu.read_register(Register::V2), 0);
    emu.write_address_register(0xBEE);
    assert_eq!(emu.read_address_register(), 0xBEE);
    emu.skip_instruction();
    assert_eq!(emu.instruction_pointer(), 0x202);
}

#[test]
fn register_indices_round_trip() {
    for i in 0..16u8 {
        let r = Register::from_index(i);
        assert_eq!(r.index(), i as usize);
    }
    assert_eq!(Register::from_index(0xF), Register::VF);
}

#[test]
fn get_key_reads_the_port() {
    let mut emu = scripted(9, 0);
    assert_eq!(emu.get_key(), 9);
}

#[test]
fn toggle_pause_flips_running() {
    let mut emu = Emulator::new(SystemPort);
    emu.load(&[0x60, 0x05, 0x70, 0x03]).unwrap();
    emu.toggle_pause();
    emu.clock().unwrap();
    assert_eq!(emu.instruction_pointer(), 0x200);
    emu.toggle_pause();
    emu.clock().unwrap();
    assert_eq!(emu.instruction_pointer(), 0x202);
    emu.pause();
    emu.clock().unwrap();
    assert_eq!(emu.instruction_pointer(), 0x202);
    emu.unpause();
    emu.clock().unwrap();
    assert_eq!(emu.instruction_pointer(), 0x204);
}

#[test]
fn load_overwrites_a_prior_program() {
    let mut emu = Emulator::new(SystemPort);
    emu.load(&[0x11, 0x22, 0x33]).unwrap();
    emu.load(&[0x44, 0x55]).unwrap();
    assert_eq!(emu.read_memory(0x200), 0x44);
    assert_eq!(emu.read_memory(0x201), 0x55);
    // A byte past the new program keeps what the first load put there.
    assert_eq!(emu.read_memory(0x202), 0x33);
}

#[test]
fn decode_classifies_words() {
    assert_eq!(chippy::decode::decode(0x00EE), Instruction::Ret);
    assert_eq!(chippy::decode::decode(0x1ABC), Instruction::Jump(0xABC));
    assert_eq!(chippy::decode::decode(0x2ABC), Instruction::Call(0xABC));
    assert_eq!(chippy::decode::decode(0x3A12), Instruction::SkipEqual(0xA, 0x12));
    assert_eq!(chippy::decode::decode(0x4A12), Instruction::SkipNotEqual(0xA, 0x12));
    assert_eq!(chippy::decode::decode(0x6005), Instruction::LoadConst(0, 5));
    assert_eq!(chippy::decode::decode(0x7103), Instruction::AddConst(1, 3));
    assert_eq!(chippy::decode::decode(0xA123), Instruction::LoadAddress(0x123));
    assert_eq!(chippy::decode::decode(0xC20F), Instruction::Random(2, 0x0F));
    assert_eq!(chippy::decode::decode(0xD012), Instruction::Draw);
    assert_eq!(chippy::decode::decode(0xE3A1), Instruction::SkipKeyNotPressed(3));
    assert_eq!(chippy::decode::decode(0xF41E), Instruction::AddAddress(4));
    // Near misses of the keyed low bytes stay unimplemented.
    assert_eq!(chippy::decode::decode(0xE3A2), Instruction::Unimplemented(0xE3A2));
    assert_eq!(chippy::decode::decode(0xF41F), Instruction::Unimplemented(0xF41F));
    assert_eq!(chippy::decode::decode(0x00EF), Instruction::Unimplemented(0x00EF));
    assert_eq!(chippy::decode::decode(0x5123), Instruction::Unimplemented(0x5123));
}
