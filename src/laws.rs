//! Properties of one execution step, proved from `isa::step`, which
//! `emulate_8080_op` is proved to follow.

use vstd::prelude::*;
use crate::isa::{
    Cond, Instruction, Pair, Reg, StepOutcome, PROGRAM_LIMIT, cond_holds, dcr_flags, decode,
    get_pair, get_reg, high_byte, inr_flags, lemma_get_set_pair, lemma_get_set_reg, execute, set_pair, low_byte, mem_index, offset, read_mem, set_reg, step,
    word,
};
use crate::state::{CpuView, MEMORY_SIZE};

verus! {

/// Splitting a 16-bit value into its high and low bytes and joining them again
/// gives the value back; joining two bytes and splitting gives the bytes back.
pub proof fn lemma_byte_pair_round_trip(v: u16, hi: u8, lo: u8)
    ensures
        word(high_byte(v), low_byte(v)) == v,
        high_byte(word(hi, lo)) == hi,
        low_byte(word(hi, lo)) == lo,
{
}

/// An implemented opcode below `PROGRAM_LIMIT` is executed on the state with
/// `pc` moved past it, with the two bytes that follow it as operands.
pub proof fn lemma_step_executes(s: CpuView)
    requires
        s.pc < PROGRAM_LIMIT,
        decode(read_mem(s, s.pc)) != Instruction::Unimplemented,
    ensures
        offset(s.pc, 1) == s.pc + 1,
        offset(s.pc, 2) == s.pc + 2,
        step(s) == (
            execute(
                CpuView { pc: offset(s.pc, 1), ..s },
                decode(read_mem(s, s.pc)),
                read_mem(s, offset(s.pc, 1)),
                read_mem(s, offset(s.pc, 2)),
            ),
            StepOutcome::Continue,
        ),
{
    reveal(step);
}

/// A register-pair increment leaves the pair holding its previous value plus
/// one, modulo 65536, and touches no flag.
pub proof fn lemma_inx_increments_pair(s: CpuView, p: Pair)
    requires
        s.pc < PROGRAM_LIMIT,
        decode(read_mem(s, s.pc)) == Instruction::Inx(p),
    ensures
        step(s).1 == StepOutcome::Continue,
        get_pair(step(s).0, p) == (get_pair(s, p) + 1) % 65536,
        step(s).0.cc == s.cc,
        step(s).0.pc == s.pc + 1,
{
    reveal(execute);
    lemma_step_executes(s);
    let t = CpuView { pc: offset(s.pc, 1), ..s };
    assert(step(s).0 == set_pair(t, p, offset(get_pair(t, p), 1)));
    lemma_get_set_pair(t, p, offset(get_pair(t, p), 1));
}

/// After a single-register increment or decrement, the operand holds its
/// previous value plus or minus one modulo 256, the zero flag is set exactly
/// when it is 0, and the sign flag exactly when its bit 7 is set.
pub proof fn lemma_inr_dcr_flags(s: CpuView, r: Reg)
    requires
        s.wf(),
        s.pc < PROGRAM_LIMIT,
        decode(read_mem(s, s.pc)) == Instruction::Inr(r) || decode(read_mem(s, s.pc))
            == Instruction::Dcr(r),
    ensures
        step(s).1 == StepOutcome::Continue,
        decode(read_mem(s, s.pc)) == Instruction::Inr(r) ==> get_reg(step(s).0, r) == (get_reg(
            s,
            r,
        ) + 1) % 256,
        decode(read_mem(s, s.pc)) == Instruction::Dcr(r) ==> get_reg(step(s).0, r) == (get_reg(
            s,
            r,
        ) + 255) % 256,
        step(s).0.cc.z == (get_reg(step(s).0, r) == 0),
        step(s).0.cc.s == (get_reg(step(s).0, r) & 0x80 == 0x80),
        step(s).0.cc.cy == s.cc.cy,
{
    reveal(execute);
    lemma_step_executes(s);
    let t = CpuView { pc: offset(s.pc, 1), ..s };
    let v = get_reg(t, r);
    let i = decode(read_mem(s, s.pc));
    let flags = if i == Instruction::Inr(r) {
        inr_flags(t.cc, v)
    } else {
        dcr_flags(t.cc, v)
    };
    let n: u8 = if i == Instruction::Inr(r) {
        ((v + 1) % 256) as u8
    } else {
        ((v + 255) % 256) as u8
    };
    lemma_get_set_reg(CpuView { cc: flags, ..t }, r, n);
    assert(step(s).0 == set_reg(CpuView { cc: flags, ..t }, r, n));
    assert((n & 0x80 == 0x80) == (n >= 0x80)) by (bit_vector);
}

/// A register-pair immediate load advances `pc` by three and leaves the pair
/// holding the second byte after the opcode as its high byte and the first as
/// its low byte.
pub proof fn lemma_lxi_loads_pair(s: CpuView, p: Pair)
    requires
        s.pc < PROGRAM_LIMIT,
        decode(read_mem(s, s.pc)) == Instruction::Lxi(p),
    ensures
        step(s).1 == StepOutcome::Continue,
        step(s).0.pc == s.pc + 3,
        get_pair(step(s).0, p) == word(
            read_mem(s, offset(s.pc, 2)),
            read_mem(s, offset(s.pc, 1)),
        ),
{
    reveal(execute);
    lemma_step_executes(s);
}

/// A single-register immediate load advances `pc` by two and leaves the
/// operand holding the byte after the opcode.
pub proof fn lemma_mvi_loads_register(s: CpuView, r: Reg)
    requires
        s.wf(),
        s.pc < PROGRAM_LIMIT,
        decode(read_mem(s, s.pc)) == Instruction::Mvi(r),
    ensures
        step(s).1 == StepOutcome::Continue,
        step(s).0.pc == s.pc + 2,
        get_reg(step(s).0, r) == read_mem(s, offset(s.pc, 1)),
{
    reveal(execute);
    lemma_step_executes(s);
    let t = CpuView { pc: offset(s.pc, 2), ..s };
    lemma_get_set_reg(t, r, read_mem(s, offset(s.pc, 1)));
}

/// The two stack slots below `sp` are distinct places of the memory image,
/// and two pushes from `sp` followed by two pops come back to `sp`.
proof fn lemma_stack_slots(sp: u16)
    ensures
        0 <= mem_index(offset(sp, -1)) < MEMORY_SIZE,
        0 <= mem_index(offset(sp, -2)) < MEMORY_SIZE,
        mem_index(offset(sp, -1)) != mem_index(offset(sp, -2)),
        offset(offset(sp, -2), 1) == offset(sp, -1),
        offset(offset(sp, -2), 2) == sp,
{
    if sp == 0 {
        assert(offset(sp, -1) == 0xffff);
        assert(offset(sp, -2) == 0xfffe);
    } else if sp == 1 {
        assert(offset(sp, -1) == 0);
        assert(offset(sp, -2) == 0xffff);
    } else {
        assert(offset(sp, -1) == sp - 1);
        assert(offset(sp, -2) == sp - 2);
    }
}

/// A call leaves the return address (the call's address plus three) at
/// `sp - 1` (high byte) and `sp - 2` (low byte); a return executed right
/// after it brings `pc` back to that address and `sp` back to its value
/// before the call.
pub proof fn lemma_call_then_return(s: CpuView)
    requires
        s.wf(),
        s.pc < PROGRAM_LIMIT,
        decode(read_mem(s, s.pc)) == Instruction::Call,
    ensures
        step(s).1 == StepOutcome::Continue,
        read_mem(step(s).0, offset(s.sp, -1)) == high_byte((s.pc + 3) as u16),
        read_mem(step(s).0, offset(s.sp, -2)) == low_byte((s.pc + 3) as u16),
        step(s).0.sp == offset(s.sp, -2),
        ({
            let t = step(s).0;
            t.pc < PROGRAM_LIMIT && decode(read_mem(t, t.pc)) == Instruction::Ret ==> {
                &&& step(t).1 == StepOutcome::Continue
                &&& step(t).0.pc == s.pc + 3
                &&& step(t).0.sp == s.sp
            }
        }),
{
    lemma_step_executes(s);
    let ret = offset(offset(s.pc, 1), 2);
    let i1 = mem_index(offset(s.sp, -1));
    let i2 = mem_index(offset(s.sp, -2));
    lemma_stack_slots(s.sp);
    let t = step(s).0;
    assert(t == CpuView {
        mem: s.mem.update(i1, high_byte(ret)).update(i2, low_byte(ret)),
        sp: offset(s.sp, -2),
        pc: word(read_mem(s, offset(s.pc, 2)), read_mem(s, offset(s.pc, 1))),
        ..s
    }) by {
        reveal(execute);
    }
    if t.pc < PROGRAM_LIMIT && decode(read_mem(t, t.pc)) == Instruction::Ret {
        lemma_step_executes(t);
        assert(step(t).0.pc == word(t.mem[i1], t.mem[i2]) && step(t).0.sp == s.sp) by {
            reveal(execute);
        }
    }
}

/// A conditional jump touches nothing but `pc`: it goes to the address
/// formed from the two bytes after the opcode when the condition holds, and
/// past those two bytes when it does not.
pub proof fn lemma_conditional_jump(s: CpuView, c: Cond)
    requires
        s.pc < PROGRAM_LIMIT,
        decode(read_mem(s, s.pc)) == Instruction::Jcond(c),
    ensures
        step(s).1 == StepOutcome::Continue,
        step(s).0 == (CpuView {
            pc: if cond_holds(s.cc, c) {
                word(read_mem(s, offset(s.pc, 2)), read_mem(s, offset(s.pc, 1)))
            } else {
                (s.pc + 3) as u16
            },
            ..s
        }),
{
    reveal(execute);
    lemma_step_executes(s);
}

/// A step that does not execute leaves the whole state as it was: at or past
/// `PROGRAM_LIMIT` the run is over, and an opcode without a defined action is
/// reported with its value and its address.
pub proof fn lemma_no_execution_keeps_state(s: CpuView)
    requires
        s.pc >= PROGRAM_LIMIT || decode(read_mem(s, s.pc)) == Instruction::Unimplemented,
    ensures
        step(s).0 == s,
        s.pc >= PROGRAM_LIMIT ==> step(s).1 == StepOutcome::Halted,
        s.pc < PROGRAM_LIMIT ==> step(s).1 == (StepOutcome::Fault {
            opcode: read_mem(s, s.pc),
            address: s.pc,
        }),
{
    reveal(step);
}

} // verus!
