//! Properties of the machine model, stated and proved once for every
//! state: the arithmetic flag conventions, the shift flag discipline, the
//! effect of clearing the display, straight-line program-counter motion,
//! and the call/return round trip.

use vstd::prelude::*;
use crate::instr::{Instr, spec_parse};
use crate::state::{
    State, StepOutcome, instr_effect, step_effect, opcode_at, spec_pixel, RAM_SIZE, STACK_LIMIT,
};

verus! {

/// `8xy4` leaves in `VF` the carry of the true sum: 1 exactly when
/// `Vx + Vy` exceeds 255, however the registers wrap.
pub proof fn lemma_add_sets_carry(pre: State, x: u8, y: u8, rnd: u8)
    requires
        pre.wf(),
        x < 16,
        y < 16,
    ensures
        ({
            let done = instr_effect(pre, Instr::Add { x, y }, rnd);
            &&& done.0.regs[15] == (if pre.regs[x as int] + pre.regs[y as int] > 255 {
                1u8
            } else {
                0u8
            })
            &&& done.1 is Continuing
        }),
{
}

/// `8xy5` leaves in `VF` the no-borrow flag of the 16-bit difference:
/// 1 exactly when `Vx >= Vy`, never an artifact of 8-bit wraparound.
pub proof fn lemma_sub_sets_no_borrow(pre: State, x: u8, y: u8, rnd: u8)
    requires
        pre.wf(),
        x < 16,
        y < 16,
    ensures
        ({
            let done = instr_effect(pre, Instr::Sub { x, y }, rnd);
            &&& done.0.regs[15] == (if pre.regs[x as int] >= pre.regs[y as int] {
                1u8
            } else {
                0u8
            })
            &&& done.1 is Continuing
        }),
{
}

/// `8xy7` leaves in `VF` the no-borrow flag of the reversed 16-bit
/// difference: 1 exactly when `Vy >= Vx`.
pub proof fn lemma_subrev_sets_no_borrow(pre: State, x: u8, y: u8, rnd: u8)
    requires
        pre.wf(),
        x < 16,
        y < 16,
    ensures
        ({
            let done = instr_effect(pre, Instr::SubRev { x, y }, rnd);
            &&& done.0.regs[15] == (if pre.regs[y as int] >= pre.regs[x as int] {
                1u8
            } else {
                0u8
            })
            &&& done.1 is Continuing
        }),
{
}

/// The shifted-out bit reaches `VF` before `Vx` moves: a right shift puts
/// the old low bit of `Vx` in `VF` and halves `Vx`; when `Vx` is `VF`
/// itself, the flag stored first is what gets shifted.
pub proof fn lemma_shift_right_flag(pre: State, x: u8, rnd: u8)
    requires
        pre.wf(),
        x < 16,
    ensures
        ({
            let done = instr_effect(pre, Instr::ShiftRight { x }, rnd);
            &&& x != 15 ==> done.0.regs[15] == pre.regs[x as int] & 1 && done.0.regs[x as int]
                == pre.regs[x as int] >> 1u8
            &&& x == 15 ==> done.0.regs[15] == (pre.regs[15] & 1) >> 1u8
            &&& done.1 is Continuing
        }),
{
}

/// The shifted-out bit reaches `VF` before `Vx` moves: a left shift puts
/// the old high bit of `Vx` in `VF` as 0 or 1 and doubles `Vx` modulo 256.
pub proof fn lemma_shift_left_flag(pre: State, x: u8, rnd: u8)
    requires
        pre.wf(),
        x < 16,
    ensures
        ({
            let done = instr_effect(pre, Instr::ShiftLeft { x }, rnd);
            &&& x != 15 ==> done.0.regs[15] == pre.regs[x as int] >> 7u8 && done.0.regs[x as int]
                == pre.regs[x as int] << 1u8
            &&& x == 15 ==> done.0.regs[15] == (pre.regs[15] >> 7u8) << 1u8
            &&& done.1 is Continuing
        }),
{
}

/// Shifts never read `VF` as an operand: two states that differ only in
/// `VF` shift `Vx` to the same value.
pub proof fn lemma_shift_ignores_flag(pre: State, v: u8, x: u8, rnd: u8)
    requires
        pre.wf(),
        x < 15,
    ensures
        ({
            let other = State { regs: pre.regs.update(15, v), ..pre };
            &&& instr_effect(pre, Instr::ShiftRight { x }, rnd).0.regs[x as int] == instr_effect(
                other,
                Instr::ShiftRight { x },
                rnd,
            ).0.regs[x as int]
            &&& instr_effect(pre, Instr::ShiftLeft { x }, rnd).0.regs[x as int] == instr_effect(
                other,
                Instr::ShiftLeft { x },
                rnd,
            ).0.regs[x as int]
        }),
{
}

/// After `00E0`, every pixel of the display reads dark.
pub proof fn lemma_cls_blanks_display(pre: State, rnd: u8, x: u8, y: u8)
    requires
        pre.wf(),
        x < 64,
        y < 32,
    ensures
        !spec_pixel(instr_effect(pre, Instr::Cls, rnd).0.vbuf, x, y),
{
    let vb = instr_effect(pre, Instr::Cls, rnd).0.vbuf;
    assert(vb[x as int / 8 + 8 * (y as int)] == 0u8);
    assert(0u8 & (0x80u8 >> (x % 8)) == 0) by (bit_vector);
}

/// One cycle whose instruction neither jumps, calls, returns nor takes a
/// skip: the straight-line case.
pub open spec fn plain_cycle(pre: State) -> bool {
    &&& pre.wf()
    &&& pre.pc < RAM_SIZE - 1
    &&& match spec_parse(opcode_at(pre.ram, pre.pc as int)) {
        Instr::Jump { .. } | Instr::Call { .. } | Instr::Ret | Instr::JumpPlus { .. } => false,
        Instr::SkipEqImm { x, kk } => pre.regs[x as int] != kk,
        Instr::SkipNeImm { x, kk } => pre.regs[x as int] == kk,
        Instr::SkipEqReg { x, y } => pre.regs[x as int] != pre.regs[y as int],
        Instr::SkipNeReg { x, y } => pre.regs[x as int] == pre.regs[y as int],
        _ => true,
    }
}

/// `post` is reachable from `pre` by `n` straight-line cycles.
pub open spec fn plain_cycles(pre: State, post: State, n: nat) -> bool
    decreases n,
{
    if n == 0 {
        post == pre
    } else {
        plain_cycle(pre) && exists|b: u8|
            plain_cycles(#[trigger] step_effect(pre, b).0, post, (n - 1) as nat)
    }
}

/// Single-stepping through `n` straight-line instructions advances the
/// program counter by exactly `2n`.
pub proof fn lemma_plain_cycles_advance_pc(pre: State, post: State, n: nat)
    requires
        plain_cycles(pre, post, n),
    ensures
        post.pc == pre.pc + 2 * n,
    decreases n,
{
    if n > 0 {
        let b = choose|b: u8| plain_cycles(#[trigger] step_effect(pre, b).0, post, (n - 1) as nat);
        let mid = step_effect(pre, b).0;
        assert(mid.pc == pre.pc + 2);
        lemma_plain_cycles_advance_pc(mid, post, (n - 1) as nat);
    }
}

/// `2nnn` then `00EE` returns the program counter to the instruction
/// right after the call site and restores the call stack.
pub proof fn lemma_call_then_ret(s0: State, nnn: u16, b1: u8, b2: u8)
    requires
        s0.wf(),
        s0.pc < RAM_SIZE - 1,
        spec_parse(opcode_at(s0.ram, s0.pc as int)) == (Instr::Call { nnn }),
        s0.stack.len() < STACK_LIMIT,
        nnn < RAM_SIZE - 1,
        spec_parse(opcode_at(s0.ram, nnn as int)) == Instr::Ret,
    ensures
        ({
            let first = step_effect(s0, b1);
            let second = step_effect(first.0, b2);
            &&& first.1 is Continuing
            &&& second.1 is Continuing
            &&& second.0.pc == s0.pc + 2
            &&& second.0.stack == s0.stack
        }),
{
    let first = step_effect(s0, b1);
    assert(first.0.stack == s0.stack.push((s0.pc + 2) as u16));
    assert(first.0.pc == nnn);
    let second = step_effect(first.0, b2);
    assert(second.0.stack =~= s0.stack);
}

} // verus!
