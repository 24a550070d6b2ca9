//! The virtual machine core: memory, register file, address register,
//! call stack, instruction pointer and run/pause flag, together with
//! the fetch-decode-execute cycle that drives them.
//!
//! The abstract state is `EmuView`; `spec_clock` is the mathematical
//! transition of one cycle, parameterized by the random byte and key
//! code the cycle may draw, and every operation's contract is stated
//! against it.

use vstd::prelude::*;

use crate::decode::Instruction;
use crate::decode::decode;
use crate::decode::instruction_wf;
use crate::decode::spec_decode;
use crate::ports::Port;

verus! {

/// A fatal fault that terminates the triggering cycle. The faulting
/// cycle reports it to the host instead of crashing; no fault is ever
/// silently swallowed.
#[derive(Clone, Copy, Debug, PartialEq, Eq, Structural)]
pub enum Fault {
    /// A return instruction ran with no return address on the stack.
    StackUnderflow,
    /// An instruction word outside the implemented subset was fetched;
    /// the raw word is carried for the host to report.
    UnimplementedInstruction(u16),
}

/// One of the sixteen 8-bit registers V0 through VF. VF is an ordinary
/// data register in this core: no instruction gives it carry or borrow
/// side effects.
#[derive(Clone, Copy, Debug, PartialEq, Eq, Structural)]
pub enum Register {
    V0,
    V1,
    V2,
    V3,
    V4,
    V5,
    V6,
    V7,
    V8,
    V9,
    VA,
    VB,
    VC,
    VD,
    VE,
    VF,
}

impl Register {
    /// The position of this register in the register file.
    pub open spec fn index_spec(self) -> int {
        match self {
            Register::V0 => 0,
            Register::V1 => 1,
            Register::V2 => 2,
            Register::V3 => 3,
            Register::V4 => 4,
            Register::V5 => 5,
            Register::V6 => 6,
            Register::V7 => 7,
            Register::V8 => 8,
            Register::V9 => 9,
            Register::VA => 10,
            Register::VB => 11,
            Register::VC => 12,
            Register::VD => 13,
            Register::VE => 14,
            Register::VF => 15,
        }
    }

    /// The position of this register in the register file.
    pub fn index(self) -> (i: usize)
        ensures
            i == self.index_spec(),
            i < 16,
    {
        match self {
            Register::V0 => 0,
            Register::V1 => 1,
            Register::V2 => 2,
            Register::V3 => 3,
            Register::V4 => 4,
            Register::V5 => 5,
            Register::V6 => 6,
            Register::V7 => 7,
            Register::V8 => 8,
            Register::V9 => 9,
            Register::VA => 10,
            Register::VB => 11,
            Register::VC => 12,
            Register::VD => 13,
            Register::VE => 14,
            Register::VF => 15,
        }
    }

    /// The register at a position in the register file.
    pub fn from_index(i: u8) -> (register: Register)
        requires
            i < 16,
        ensures
            register.index_spec() == i,
    {
        match i {
            0 => Register::V0,
            1 => Register::V1,
            2 => Register::V2,
            3 => Register::V3,
            4 => Register::V4,
            5 => Register::V5,
            6 => Register::V6,
            7 => Register::V7,
            8 => Register::V8,
            9 => Register::V9,
            10 => Register::VA,
            11 => Register::VB,
            12 => Register::VC,
            13 => Register::VD,
            14 => Register::VE,
            _ => Register::VF,
        }
    }
}

/// The abstract state of the core: the 4096 memory bytes, the sixteen
/// register bytes, the address register, the stack of return
/// addresses, the instruction pointer and the paused flag.
#[verifier::ext_equal]
pub ghost struct EmuView {
    pub mem: Seq<u8>,
    pub regs: Seq<u8>,
    pub addr: u16,
    pub stack: Seq<u16>,
    pub ip: u16,
    pub paused: bool,
}

impl EmuView {
    /// The fixed shape of the state: 4096 memory bytes and 16 registers.
    pub open spec fn wf(self) -> bool {
        &&& self.mem.len() == 4096
        &&& self.regs.len() == 16
    }
}

/// The state of a freshly constructed core: zeroed memory and
/// registers, an empty stack, the instruction pointer at the program
/// start offset 0x200, and running.
pub open spec fn fresh_view() -> EmuView {
    EmuView {
        mem: Seq::new(4096, |i: int| 0u8),
        regs: Seq::new(16, |i: int| 0u8),
        addr: 0u16,
        stack: Seq::empty(),
        ip: 0x200u16,
        paused: false,
    }
}

/// The memory after a program is copied in at offset 0x200: the
/// program bytes in place, every other byte as it was.
pub open spec fn loaded_mem(mem: Seq<u8>, rom: Seq<u8>) -> Seq<u8> {
    Seq::new(
        mem.len(),
        |i: int|
            if 0x200 <= i && i < 0x200 + rom.len() {
                rom[i - 0x200]
            } else {
                mem[i]
            },
    )
}

/// The state with the instruction pointer advanced by one instruction
/// width.
pub open spec fn advanced(v: EmuView) -> EmuView {
    EmuView { ip: ((v.ip + 2) as u16), ..v }
}

/// The state with the paused flag set to `paused`.
pub open spec fn set_paused(v: EmuView, paused: bool) -> EmuView {
    EmuView { paused, ..v }
}

/// The 16-bit big-endian instruction word at address `address`.
pub open spec fn word_at(mem: Seq<u8>, address: u16) -> u16 {
    ((mem[address as int] as u16) << 8) | (mem[address as int + 1] as u16)
}

/// The instruction word under the instruction pointer.
pub open spec fn fetch_word(v: EmuView) -> u16 {
    word_at(v.mem, v.ip)
}

/// The effect of one instruction on a state whose instruction pointer
/// has already been advanced past it. `rb` is the random byte and `k`
/// the key code the instruction draws if it needs them; instructions
/// that draw neither ignore them.
pub open spec fn spec_execute(pre: EmuView, inst: Instruction, rb: u8, k: u8) -> Result<
    EmuView,
    Fault,
> {
    match inst {
        Instruction::Ret => if pre.stack.len() == 0 {
            Err(Fault::StackUnderflow)
        } else {
            Ok(EmuView { ip: pre.stack.last(), stack: pre.stack.drop_last(), ..pre })
        },
        Instruction::Jump(address) => Ok(EmuView { ip: address, ..pre }),
        Instruction::Call(address) => Ok(
            EmuView { stack: pre.stack.push(pre.ip), ip: address, ..pre },
        ),
        Instruction::SkipEqual(x, nn) => if pre.regs[x as int] == nn {
            Ok(advanced(pre))
        } else {
            Ok(pre)
        },
        Instruction::SkipNotEqual(x, nn) => if pre.regs[x as int] != nn {
            Ok(advanced(pre))
        } else {
            Ok(pre)
        },
        Instruction::LoadConst(x, nn) => Ok(
            EmuView { regs: pre.regs.update(x as int, nn), ..pre },
        ),
        Instruction::AddConst(x, nn) => Ok(
            EmuView {
                regs: pre.regs.update(x as int, (((pre.regs[x as int] + nn) % 256) as u8)),
                ..pre
            },
        ),
        Instruction::LoadAddress(address) => Ok(EmuView { addr: address, ..pre }),
        Instruction::Random(x, nn) => Ok(
            EmuView { regs: pre.regs.update(x as int, nn & rb), ..pre },
        ),
        Instruction::Draw => Ok(pre),
        Instruction::SkipKeyNotPressed(x) => if pre.regs[x as int] != k {
            Ok(advanced(pre))
        } else {
            Ok(pre)
        },
        Instruction::AddAddress(x) => Ok(
            EmuView { addr: (((pre.addr + pre.regs[x as int]) % 0x10000) as u16), ..pre },
        ),
        Instruction::Unimplemented(word) => Err(Fault::UnimplementedInstruction(word)),
    }
}

/// One full cycle from a running state: fetch the word under the
/// instruction pointer, advance past it, then execute it.
pub open spec fn spec_clock(pre: EmuView, rb: u8, k: u8) -> Result<EmuView, Fault> {
    spec_execute(advanced(pre), spec_decode(fetch_word(pre)), rb, k)
}

/// How a state, result pair relates to the outcome of one instruction:
/// on success the state is the instruction's effect, on a fault the
/// fault is reported and the state is untouched.
pub open spec fn execute_post(
    pre: EmuView,
    post: EmuView,
    r: Result<(), Fault>,
    inst: Instruction,
    rb: u8,
    k: u8,
) -> bool {
    match spec_execute(pre, inst, rb, k) {
        Ok(v) => r is Ok && post == v,
        Err(f) => r == Err::<(), Fault>(f) && post == pre,
    }
}

/// How a state, result pair relates to the outcome of one full cycle:
/// on success the state is the cycle's effect, on a fault the fault is
/// reported and only the instruction pointer has advanced past the
/// faulting word.
pub open spec fn clock_post(
    pre: EmuView,
    post: EmuView,
    r: Result<(), Fault>,
    rb: u8,
    k: u8,
) -> bool {
    match spec_clock(pre, rb, k) {
        Ok(v) => r is Ok && post == v,
        Err(f) => r == Err::<(), Fault>(f) && post == advanced(pre),
    }
}

/// The virtual machine core. It is constructed once with zeroed state
/// and a port supplying the key query and random draw; a program is
/// then loaded at offset 0x200 and the host drives the cycle through
/// `clock` and `step`.
pub struct Emulator<P: Port> {
    memory: Vec<u8>,
    registers: Vec<u8>,
    address_register: u16,
    stack: Vec<u16>,
    instruction_pointer: u16,
    paused: bool,
    port: P,
}

impl<P: Port> View for Emulator<P> {
    type V = EmuView;

    closed spec fn view(&self) -> EmuView {
        EmuView {
            mem: self.memory@,
            regs: self.registers@,
            addr: self.address_register,
            stack: self.stack@,
            ip: self.instruction_pointer,
            paused: self.paused,
        }
    }
}

impl<P: Port> Emulator<P> {
    /// The state has its fixed shape; established by `new` and kept by
    /// every operation.
    pub open spec fn wf(&self) -> bool {
        self@.wf()
    }

    /// Construct a core with zeroed state and the given port.
    pub fn new(port: P) -> (emu: Self)
        ensures
            emu.wf(),
            emu@ == fresh_view(),
    {
        let mut memory: Vec<u8> = Vec::new();
        while memory.len() < 4096
            invariant
                memory@.len() <= 4096,
                forall|i: int| 0 <= i < memory@.len() ==> memory@[i] == 0u8,
            decreases 4096 - memory@.len(),
        {
            memory.push(0);
        }
        let mut registers: Vec<u8> = Vec::new();
        while registers.len() < 16
            invariant
                registers@.len() <= 16,
                forall|i: int| 0 <= i < registers@.len() ==> registers@[i] == 0u8,
            decreases 16 - registers@.len(),
        {
            registers.push(0);
        }
        let emu = Emulator {
            memory,
            registers,
            address_register: 0,
            stack: Vec::new(),
            instruction_pointer: 0x200,
            paused: false,
            port,
        };
        proof {
            assert(emu@ =~~= fresh_view());
        }
        emu
    }

    /// Halt the cycle: `clock` becomes a no-op until the core resumes.
    pub fn pause(&mut self)
        ensures
            final(self)@ == set_paused(old(self)@, true),
    {
        self.paused = true;
    }

    /// Resume the cycle.
    pub fn unpause(&mut self)
        ensures
            final(self)@ == set_paused(old(self)@, false),
    {
        self.paused = false;
    }

    /// Flip between running and paused.
    pub fn toggle_pause(&mut self)
        ensures
            final(self)@ == set_paused(old(self)@, !old(self)@.paused),
    {
        self.paused = !self.paused;
    }

    /// Copy a program into memory starting at offset 0x200, byte for
    /// byte; every other byte keeps its value. Memory holds 3584 bytes
    /// from that offset on, so longer programs do not fit.
    pub fn load(&mut self, rom: &[u8]) -> (r: Result<(), Fault>)
        requires
            old(self).wf(),
            rom@.len() <= 3584,
        ensures
            final(self).wf(),
            r is Ok,
            final(self)@ == (EmuView { mem: loaded_mem(old(self)@.mem, rom@), ..old(self)@ }),
    {
        let mut i: usize = 0;
        while i < rom.len()
            invariant
                old(self).wf(),
                self.wf(),
                rom@.len() <= 3584,
                i <= rom@.len(),
                forall|j: int| 0 <= j < i ==> self@.mem[0x200 + j] == rom@[j],
                forall|j: int|
                    0 <= j < 4096 && !(0x200 <= j < 0x200 + i) ==> self@.mem[j] == old(
                        self,
                    )@.mem[j],
                self@.regs == old(self)@.regs,
                self@.addr == old(self)@.addr,
                self@.stack == old(self)@.stack,
                self@.ip == old(self)@.ip,
                self@.paused == old(self)@.paused,
            decreases rom@.len() - i,
        {
            self.memory[0x200 + i] = rom[i];
            i = i + 1;
        }
        proof {
            assert(self@.mem =~= loaded_mem(old(self)@.mem, rom@));
            assert(self@ =~~= (EmuView { mem: loaded_mem(old(self)@.mem, rom@), ..old(self)@ }));
        }
        Ok(())
    }

    /// The address of the next instruction to fetch.
    pub fn instruction_pointer(&self) -> (ip: u16)
        ensures
            ip == self@.ip,
    {
        self.instruction_pointer
    }

    /// The byte at a memory address.
    pub fn read_memory(&self, address: u16) -> (b: u8)
        requires
            self.wf(),
            address < 4096,
        ensures
            b == self@.mem[address as int],
    {
        self.memory[address as usize]
    }

    /// The address register's value.
    pub fn read_address_register(&self) -> (value: u16)
        ensures
            value == self@.addr,
    {
        self.address_register
    }

    /// Set the address register.
    pub fn write_address_register(&mut self, value: u16)
        ensures
            final(self)@ == (EmuView { addr: value, ..old(self)@ }),
    {
        self.address_register = value;
    }

    /// The value of a register.
    pub fn read_register(&self, register: Register) -> (value: u8)
        requires
            self.wf(),
        ensures
            value == self@.regs[register.index_spec()],
    {
        let i: usize = register.index();
        self.registers[i]
    }

    /// Set a register.
    pub fn write_register(&mut self, register: Register, value: u8)
        requires
            old(self).wf(),
        ensures
            final(self).wf(),
            final(self)@ == (EmuView {
                regs: old(self)@.regs.update(register.index_spec(), value),
                ..old(self)@
            }),
    {
        let i: usize = register.index();
        self.registers[i] = value;
    }

    /// Advance the instruction pointer by one instruction width.
    pub fn skip_instruction(&mut self)
        requires
            old(self)@.ip + 2 <= 65535,
        ensures
            final(self)@ == advanced(old(self)@),
    {
        self.instruction_pointer = self.instruction_pointer + 2;
    }

    /// The currently pressed key code, drawn from the port.
    pub fn get_key(&mut self) -> (k: u8)
        ensures
            final(self)@ == old(self)@,
    {
        self.port.key()
    }

    /// Fetch the two bytes under the instruction pointer as one 16-bit
    /// big-endian instruction word.
    fn read_instruction(&self) -> (word: u16)
        requires
            self.wf(),
            self@.ip < 4095,
        ensures
            word == fetch_word(self@),
    {
        let hi: u8 = self.memory[self.instruction_pointer as usize];
        let lo: u8 = self.memory[(self.instruction_pointer + 1) as usize];
        ((hi as u16) << 8) | (lo as u16)
    }

    /// Run one decoded instruction against the state. The port is
    /// consulted only by the instructions that need it; the contract
    /// holds for every value the port returns.
    fn execute(&mut self, inst: Instruction) -> (r: Result<(), Fault>)
        requires
            old(self).wf(),
            instruction_wf(inst),
            old(self)@.ip + 2 <= 65535,
        ensures
            final(self).wf(),
            exists|rb: u8, k: u8| #[trigger] execute_post(old(self)@, final(self)@, r, inst, rb, k),
    {
        match inst {
            Instruction::Ret => {
                match self.stack.pop() {
                    Some(address) => {
                        self.instruction_pointer = address;
                        proof {
                            assert(self@.stack =~= old(self)@.stack.drop_last());
                            assert(execute_post(
                                old(self)@,
                                self@,
                                Ok::<(), Fault>(()),
                                inst,
                                0u8,
                                0u8,
                            ));
                        }
                        Ok(())
                    },
                    None => {
                        proof {
                            assert(execute_post(
                                old(self)@,
                                self@,
                                Err::<(), Fault>(Fault::StackUnderflow),
                                inst,
                                0u8,
                                0u8,
                            ));
                        }
                        Err(Fault::StackUnderflow)
                    },
                }
            },
            Instruction::Jump(address) => {
                self.instruction_pointer = address;
                proof {
                    assert(execute_post(old(self)@, self@, Ok::<(), Fault>(()), inst, 0u8, 0u8));
                }
                Ok(())
            },
            Instruction::Call(address) => {
                self.stack.push(self.instruction_pointer);
                self.instruction_pointer = address;
                proof {
                    assert(execute_post(old(self)@, self@, Ok::<(), Fault>(()), inst, 0u8, 0u8));
                }
                Ok(())
            },
            Instruction::SkipEqual(x, nn) => {
                if self.registers[x as usize] == nn {
                    self.skip_instruction();
                }
                proof {
                    assert(execute_post(old(self)@, self@, Ok::<(), Fault>(()), inst, 0u8, 0u8));
                }
                Ok(())
            },
            Instruction::SkipNotEqual(x, nn) => {
                if self.registers[x as usize] != nn {
                    self.skip_instruction();
                }
                proof {
                    assert(execute_post(old(self)@, self@, Ok::<(), Fault>(()), inst, 0u8, 0u8));
                }
                Ok(())
            },
            Instruction::LoadConst(x, nn) => {
                self.registers[x as usize] = nn;
                proof {
                    assert(execute_post(old(self)@, self@, Ok::<(), Fault>(()), inst, 0u8, 0u8));
                }
                Ok(())
            },
            Instruction::AddConst(x, nn) => {
                let old_value: u8 = self.registers[x as usize];
                let sum: u16 = old_value as u16 + nn as u16;
                self.registers[x as usize] = (sum % 256) as u8;
                proof {
                    assert(execute_post(old(self)@, self@, Ok::<(), Fault>(()), inst, 0u8, 0u8));
                }
                Ok(())
            },
            Instruction::LoadAddress(address) => {
                self.address_register = address;
                proof {
                    assert(execute_post(old(self)@, self@, Ok::<(), Fault>(()), inst, 0u8, 0u8));
                }
                Ok(())
            },
            Instruction::Random(x, nn) => {
                let rb: u8 = self.port.random_byte();
                self.registers[x as usize] = nn & rb;
                proof {
                    assert(execute_post(old(self)@, self@, Ok::<(), Fault>(()), inst, rb, 0u8));
                }
                Ok(())
            },
            Instruction::Draw => {
                proof {
                    assert(execute_post(old(self)@, self@, Ok::<(), Fault>(()), inst, 0u8, 0u8));
                }
                Ok(())
            },
            Instruction::SkipKeyNotPressed(x) => {
                let k: u8 = self.port.key();
                if self.registers[x as usize] != k {
                    self.skip_instruction();
                }
                proof {
                    assert(execute_post(old(self)@, self@, Ok::<(), Fault>(()), inst, 0u8, k));
                }
                Ok(())
            },
            Instruction::AddAddress(x) => {
                let value: u8 = self.registers[x as usize];
                let sum: u32 = self.address_register as u32 + value as u32;
                self.address_register = (sum % 0x10000) as u16;
                proof {
                    assert(execute_post(old(self)@, self@, Ok::<(), Fault>(()), inst, 0u8, 0u8));
                }
                Ok(())
            },
            Instruction::Unimplemented(word) => {
                proof {
                    assert(execute_post(
                        old(self)@,
                        self@,
                        Err::<(), Fault>(Fault::UnimplementedInstruction(word)),
                        inst,
                        0u8,
                        0u8,
                    ));
                }
                Err(Fault::UnimplementedInstruction(word))
            },
        }
    }

    /// Advance one cycle if running; a no-op while paused. A running
    /// cycle fetches the word under the instruction pointer, advances
    /// past it, and executes it; a fault is reported with the pointer
    /// already advanced and the rest of the state untouched.
    pub fn clock(&mut self) -> (r: Result<(), Fault>)
        requires
            old(self).wf(),
            !old(self)@.paused ==> old(self)@.ip < 4095,
        ensures
            final(self).wf(),
            old(self)@.paused ==> r is Ok && final(self)@ == old(self)@,
            !old(self)@.paused ==> exists|rb: u8, k: u8|
                #[trigger] clock_post(old(self)@, final(self)@, r, rb, k),
    {
        if self.paused {
            return Ok(());
        }
        let word: u16 = self.read_instruction();
        self.skip_instruction();
        let inst: Instruction = decode(word);
        let r: Result<(), Fault> = self.execute(inst);
        proof {
            let (rb, k): (u8, u8) = choose|rb: u8, k: u8|
                execute_post(advanced(old(self)@), self@, r, inst, rb, k);
            assert(clock_post(old(self)@, self@, r, rb, k));
        }
        r
    }

    /// Run exactly one cycle whether paused or not, and leave the
    /// paused flag exactly as it was before the call.
    pub fn step(&mut self) -> (r: Result<(), Fault>)
        requires
            old(self).wf(),
            old(self)@.ip < 4095,
        ensures
            final(self).wf(),
            final(self)@.paused == old(self)@.paused,
            exists|rb: u8, k: u8|
                #[trigger] clock_post(
                    set_paused(old(self)@, false),
                    set_paused(final(self)@, false),
                    r,
                    rb,
                    k,
                ),
    {
        let was_paused: bool = self.paused;
        self.paused = false;
        let r: Result<(), Fault> = self.clock();
        let ghost mid: EmuView = self@;
        self.paused = was_paused;
        proof {
            let (rb, k): (u8, u8) = choose|rb: u8, k: u8|
                clock_post(set_paused(old(self)@, false), mid, r, rb, k);
            assert(mid.paused == false);
            assert(set_paused(self@, false) =~~= mid);
            assert(clock_post(set_paused(old(self)@, false), set_paused(self@, false), r, rb, k));
        }
        r
    }
}

} // verus!
