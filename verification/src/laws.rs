//! Laws of the core, stated over the abstract state and the cycle
//! transition `spec_clock` and proved once for every state they speak
//! of. Two further laws live directly on the operations' contracts: a
//! paused `clock` leaves the state untouched, and `step` runs exactly
//! one cycle and restores the paused flag.

use vstd::prelude::*;

use crate::decode::Instruction;
use crate::decode::lemma_decode_wf;
use crate::decode::spec_decode;
use crate::machine::EmuView;
use crate::machine::fetch_word;
use crate::machine::fresh_view;
use crate::machine::loaded_mem;
use crate::machine::spec_clock;
use crate::machine::word_at;

verus! {

/// Loading a program into a freshly constructed core puts its i-th
/// byte at offset 0x200 + i and leaves every other memory byte zero.
pub proof fn lemma_fresh_load_memory(rom: Seq<u8>, i: int)
    requires
        rom.len() <= 3584,
    ensures
        0 <= i < rom.len() ==> loaded_mem(fresh_view().mem, rom)[0x200 + i] == rom[i],
        0 <= i < 4096 && !(0x200 <= i < 0x200 + rom.len()) ==> loaded_mem(
            fresh_view().mem,
            rom,
        )[i] == 0,
{
}

/// A call followed by a return comes back: after a cycle that runs
/// `CALL a` and a second cycle that runs the `RET` at `a`, the
/// instruction pointer is the address just past the call instruction
/// and the stack is as it was.
pub proof fn lemma_call_ret_round_trip(pre: EmuView, a: u16, rb1: u8, k1: u8, rb2: u8, k2: u8)
    requires
        pre.wf(),
        pre.ip < 4095,
        a < 4095,
        spec_decode(fetch_word(pre)) == Instruction::Call(a),
        spec_decode(word_at(pre.mem, a)) == Instruction::Ret,
    ensures
        spec_clock(pre, rb1, k1) is Ok,
        ({
            let v1 = spec_clock(pre, rb1, k1)->Ok_0;
            &&& spec_clock(v1, rb2, k2) is Ok
            &&& spec_clock(v1, rb2, k2)->Ok_0.ip == pre.ip + 2
            &&& spec_clock(v1, rb2, k2)->Ok_0.stack == pre.stack
        }),
{
    let v1 = spec_clock(pre, rb1, k1)->Ok_0;
    assert(v1.ip == a);
    assert(v1.stack == pre.stack.push((pre.ip + 2) as u16));
    assert(fetch_word(v1) == word_at(pre.mem, a));
    assert(v1.stack.len() > 0);
    let v2 = spec_clock(v1, rb2, k2)->Ok_0;
    assert(v2.ip == (pre.ip + 2) as u16);
    assert(v2.stack =~= pre.stack);
}

/// A skip-if-equal cycle advances the instruction pointer by two
/// instruction widths when the register equals the immediate, and by
/// one width otherwise; nothing else changes either way.
pub proof fn lemma_skip_equal_width(pre: EmuView, x: u8, nn: u8, rb: u8, k: u8)
    requires
        pre.wf(),
        pre.ip < 4095,
        spec_decode(fetch_word(pre)) == Instruction::SkipEqual(x, nn),
    ensures
        spec_clock(pre, rb, k) is Ok,
        ({
            let v = spec_clock(pre, rb, k)->Ok_0;
            &&& pre.regs[x as int] == nn ==> v.ip == pre.ip + 4
            &&& pre.regs[x as int] != nn ==> v.ip == pre.ip + 2
            &&& v.regs == pre.regs
            &&& v.mem == pre.mem
            &&& v.stack == pre.stack
        }),
{
}

/// A skip-if-not-equal cycle advances the instruction pointer by two
/// instruction widths when the register differs from the immediate,
/// and by one width otherwise; nothing else changes either way.
pub proof fn lemma_skip_not_equal_width(pre: EmuView, x: u8, nn: u8, rb: u8, k: u8)
    requires
        pre.wf(),
        pre.ip < 4095,
        spec_decode(fetch_word(pre)) == Instruction::SkipNotEqual(x, nn),
    ensures
        spec_clock(pre, rb, k) is Ok,
        ({
            let v = spec_clock(pre, rb, k)->Ok_0;
            &&& pre.regs[x as int] != nn ==> v.ip == pre.ip + 4
            &&& pre.regs[x as int] == nn ==> v.ip == pre.ip + 2
            &&& v.regs == pre.regs
            &&& v.mem == pre.mem
            &&& v.stack == pre.stack
        }),
{
}

/// An add-immediate cycle sets its register to the sum modulo 256 and
/// changes no other register: in particular VF never picks up a
/// carry-out.
pub proof fn lemma_add_const_wraps(pre: EmuView, x: u8, nn: u8, rb: u8, k: u8)
    requires
        pre.wf(),
        pre.ip < 4095,
        spec_decode(fetch_word(pre)) == Instruction::AddConst(x, nn),
    ensures
        spec_clock(pre, rb, k) is Ok,
        ({
            let v = spec_clock(pre, rb, k)->Ok_0;
            &&& v.regs[x as int] == ((pre.regs[x as int] + nn) % 256) as u8
            &&& forall|j: int| 0 <= j < 16 && j != x ==> v.regs[j] == pre.regs[j]
        }),
{
    lemma_decode_wf(fetch_word(pre));
}

/// A random cycle leaves in its register the drawn byte masked by the
/// immediate, so for every possible draw no bit outside the
/// immediate's mask is ever set.
pub proof fn lemma_random_within_mask(pre: EmuView, x: u8, nn: u8, rb: u8, k: u8)
    requires
        pre.wf(),
        pre.ip < 4095,
        spec_decode(fetch_word(pre)) == Instruction::Random(x, nn),
    ensures
        spec_clock(pre, rb, k) is Ok,
        spec_clock(pre, rb, k)->Ok_0.regs[x as int] == (nn & rb),
        spec_clock(pre, rb, k)->Ok_0.regs[x as int] & !nn == 0,
{
    lemma_decode_wf(fetch_word(pre));
    assert((nn & rb) & !nn == 0) by (bit_vector);
}

} // verus!
