//! The instruction set: operand encodings, decoding of opcode bytes, and the
//! meaning of one execution step over `CpuView`.

use vstd::prelude::*;
use crate::state::{ConditionCodes, CpuView, MEMORY_SIZE};

verus! {

/// Addresses at or above this bound end the run: the program is finished.
pub const PROGRAM_LIMIT: u16 = 0x2000;

/// An 8-bit operand, in the order of its 3-bit encoding.
/// `M` is the memory byte addressed by the pair H,L.
#[derive(Clone, Copy, Debug, PartialEq, Eq)]
pub enum Reg {
    B,
    C,
    D,
    E,
    H,
    L,
    M,
    A,
}

/// A 16-bit register pair, in the order of its 2-bit encoding.
#[derive(Clone, Copy, Debug, PartialEq, Eq)]
pub enum Pair {
    BC,
    DE,
    HL,
    SP,
}

/// The condition tested by a conditional jump, in the order of its encoding.
#[derive(Clone, Copy, Debug, PartialEq, Eq)]
pub enum Cond {
    NotZero,
    Zero,
    NoCarry,
    Carry,
    ParityOdd,
    ParityEven,
    Plus,
    Minus,
}

/// What an opcode byte selects.
#[derive(Clone, Copy, Debug, PartialEq, Eq)]
pub enum Instruction {
    Nop,
    Lxi(Pair),
    Mvi(Reg),
    Inx(Pair),
    Inr(Reg),
    Dcr(Reg),
    Mov(Reg, Reg),
    Ldax(Pair),
    Jmp,
    Jcond(Cond),
    Call,
    Ret,
    Unimplemented,
}

/// What one engine step reports to the run loop.
#[derive(Clone, Copy, Debug, PartialEq, Eq)]
pub enum StepOutcome {
    /// The instruction was executed.
    Continue,
    /// The program counter has reached `PROGRAM_LIMIT`: the program is finished.
    Halted,
    /// The opcode at `address` has no defined action; the state is unchanged.
    Fault { opcode: u8, address: u16 },
}

pub open spec fn reg_of(code: u8) -> Reg {
    if code == 0 {
        Reg::B
    } else if code == 1 {
        Reg::C
    } else if code == 2 {
        Reg::D
    } else if code == 3 {
        Reg::E
    } else if code == 4 {
        Reg::H
    } else if code == 5 {
        Reg::L
    } else if code == 6 {
        Reg::M
    } else {
        Reg::A
    }
}

pub open spec fn pair_of(code: u8) -> Pair {
    if code == 0 {
        Pair::BC
    } else if code == 1 {
        Pair::DE
    } else if code == 2 {
        Pair::HL
    } else {
        Pair::SP
    }
}

pub open spec fn cond_of(code: u8) -> Cond {
    if code == 0 {
        Cond::NotZero
    } else if code == 1 {
        Cond::Zero
    } else if code == 2 {
        Cond::NoCarry
    } else if code == 3 {
        Cond::Carry
    } else if code == 4 {
        Cond::ParityOdd
    } else if code == 5 {
        Cond::ParityEven
    } else if code == 6 {
        Cond::Plus
    } else {
        Cond::Minus
    }
}

/// The instruction an opcode byte selects. An opcode is read as `gg mmm lll`:
/// two group bits, a middle field and a low field.
#[verifier::opaque]
pub open spec fn decode(op: u8) -> Instruction {
    let group = op / 64;
    let mid = (op / 8) % 8;
    let low = op % 8;
    if group == 0 {
        if op == 0 {
            Instruction::Nop
        } else if low == 1 && mid % 2 == 0 {
            Instruction::Lxi(pair_of(mid / 2))
        } else if low == 2 && (mid == 1 || mid == 3) {
            Instruction::Ldax(pair_of(mid / 2))
        } else if low == 3 && mid % 2 == 0 {
            Instruction::Inx(pair_of(mid / 2))
        } else if low == 4 {
            Instruction::Inr(reg_of(mid))
        } else if low == 5 {
            Instruction::Dcr(reg_of(mid))
        } else if low == 6 {
            Instruction::Mvi(reg_of(mid))
        } else {
            Instruction::Unimplemented
        }
    } else if group == 1 {
        if op == 0x76 {
            Instruction::Unimplemented
        } else {
            Instruction::Mov(reg_of(mid), reg_of(low))
        }
    } else if group == 3 {
        if low == 2 {
            Instruction::Jcond(cond_of(mid))
        } else if op == 0xc3 {
            Instruction::Jmp
        } else if op == 0xc9 {
            Instruction::Ret
        } else if op == 0xcd {
            Instruction::Call
        } else {
            Instruction::Unimplemented
        }
    } else {
        Instruction::Unimplemented
    }
}

/// The 16-bit value with `hi` in bits 8 to 15 and `lo` in bits 0 to 7.
pub open spec fn word(hi: u8, lo: u8) -> u16 {
    (hi as int * 256 + lo as int) as u16
}

/// The high byte of a 16-bit value.
pub open spec fn high_byte(v: u16) -> u8 {
    (v / 256) as u8
}

/// The low byte of a 16-bit value.
pub open spec fn low_byte(v: u16) -> u8 {
    (v % 256) as u8
}

/// The memory index a 16-bit address stands for: the address wrapped to the
/// size of the memory image.
pub open spec fn mem_index(addr: u16) -> int {
    addr as int % MEMORY_SIZE as int
}

/// A 16-bit address plus a signed offset, wrapped at 16 bits.
pub open spec fn offset(addr: u16, k: int) -> u16 {
    ((addr as int + k) % 0x10000) as u16
}

pub open spec fn read_mem(s: CpuView, addr: u16) -> u8 {
    s.mem[mem_index(addr)]
}

pub open spec fn write_mem(s: CpuView, addr: u16, v: u8) -> CpuView {
    CpuView { mem: s.mem.update(mem_index(addr), v), ..s }
}

pub open spec fn get_reg(s: CpuView, r: Reg) -> u8 {
    match r {
        Reg::B => s.b,
        Reg::C => s.c,
        Reg::D => s.d,
        Reg::E => s.e,
        Reg::H => s.h,
        Reg::L => s.l,
        Reg::M => read_mem(s, word(s.h, s.l)),
        Reg::A => s.a,
    }
}

pub open spec fn set_reg(s: CpuView, r: Reg, v: u8) -> CpuView {
    match r {
        Reg::B => CpuView { b: v, ..s },
        Reg::C => CpuView { c: v, ..s },
        Reg::D => CpuView { d: v, ..s },
        Reg::E => CpuView { e: v, ..s },
        Reg::H => CpuView { h: v, ..s },
        Reg::L => CpuView { l: v, ..s },
        Reg::M => write_mem(s, word(s.h, s.l), v),
        Reg::A => CpuView { a: v, ..s },
    }
}

/// Writing an 8-bit operand and reading it back gives the written value,
/// and keeps the memory image well formed.
pub proof fn lemma_get_set_reg(s: CpuView, r: Reg, v: u8)
    requires
        s.wf(),
    ensures
        get_reg(set_reg(s, r, v), r) == v,
        set_reg(s, r, v).wf(),
{
}

pub open spec fn get_pair(s: CpuView, p: Pair) -> u16 {
    match p {
        Pair::BC => word(s.b, s.c),
        Pair::DE => word(s.d, s.e),
        Pair::HL => word(s.h, s.l),
        Pair::SP => s.sp,
    }
}

/// Writing a register pair and reading it back gives the written value.
pub proof fn lemma_get_set_pair(s: CpuView, p: Pair, v: u16)
    ensures
        get_pair(set_pair(s, p, v), p) == v,
{
}

pub open spec fn set_pair(s: CpuView, p: Pair, v: u16) -> CpuView {
    match p {
        Pair::BC => CpuView { b: high_byte(v), c: low_byte(v), ..s },
        Pair::DE => CpuView { d: high_byte(v), e: low_byte(v), ..s },
        Pair::HL => CpuView { h: high_byte(v), l: low_byte(v), ..s },
        Pair::SP => CpuView { sp: v, ..s },
    }
}

/// The number of set bits of a byte.
pub open spec fn bit_count(v: u8) -> nat
    decreases v,
{
    if v == 0 {
        0
    } else {
        (v % 2) as nat + bit_count(v / 2)
    }
}

/// The parity flag of a result: 1 when its number of set bits is even.
pub open spec fn parity_of(v: u8) -> u8 {
    if bit_count(v) % 2 == 0 {
        1
    } else {
        0
    }
}

/// Zero, sign and parity of a result, with the given auxiliary carry;
/// carry and padding are kept.
pub open spec fn result_flags(cc: ConditionCodes, v: u8, ac: u8) -> ConditionCodes {
    ConditionCodes { z: v == 0, s: v >= 0x80, p: parity_of(v), ac, ..cc }
}

/// An increment carries out of bit 3 when the low nibble was all ones.
pub open spec fn inr_flags(cc: ConditionCodes, old: u8) -> ConditionCodes {
    result_flags(cc, ((old + 1) % 256) as u8, if old % 16 == 15 { 1 } else { 0 })
}

/// A decrement adds the complement of one; it carries out of bit 3 unless
/// the low nibble was zero.
pub open spec fn dcr_flags(cc: ConditionCodes, old: u8) -> ConditionCodes {
    result_flags(cc, ((old + 255) % 256) as u8, if old % 16 != 0 { 1 } else { 0 })
}

pub open spec fn cond_holds(cc: ConditionCodes, c: Cond) -> bool {
    match c {
        Cond::NotZero => !cc.z,
        Cond::Zero => cc.z,
        Cond::NoCarry => cc.cy == 0,
        Cond::Carry => cc.cy != 0,
        Cond::ParityOdd => cc.p == 0,
        Cond::ParityEven => cc.p != 0,
        Cond::Plus => !cc.s,
        Cond::Minus => cc.s,
    }
}

/// The effect of an implemented instruction on a state whose `pc` already
/// points past the opcode byte; `lo` and `hi` are the two bytes that follow
/// the opcode.
#[verifier::opaque]
pub open spec fn execute(s: CpuView, i: Instruction, lo: u8, hi: u8) -> CpuView {
    match i {
        Instruction::Lxi(p) => set_pair(CpuView { pc: offset(s.pc, 2), ..s }, p, word(hi, lo)),
        Instruction::Mvi(r) => set_reg(CpuView { pc: offset(s.pc, 1), ..s }, r, lo),
        Instruction::Inx(p) => set_pair(s, p, offset(get_pair(s, p), 1)),
        Instruction::Inr(r) => {
            let v = get_reg(s, r);
            set_reg(CpuView { cc: inr_flags(s.cc, v), ..s }, r, ((v + 1) % 256) as u8)
        },
        Instruction::Dcr(r) => {
            let v = get_reg(s, r);
            set_reg(CpuView { cc: dcr_flags(s.cc, v), ..s }, r, ((v + 255) % 256) as u8)
        },
        Instruction::Mov(d, src) => set_reg(s, d, get_reg(s, src)),
        Instruction::Ldax(p) => CpuView { a: read_mem(s, get_pair(s, p)), ..s },
        Instruction::Jmp => CpuView { pc: word(hi, lo), ..s },
        Instruction::Jcond(c) => if cond_holds(s.cc, c) {
            CpuView { pc: word(hi, lo), ..s }
        } else {
            CpuView { pc: offset(s.pc, 2), ..s }
        },
        Instruction::Call => {
            let ret = offset(s.pc, 2);
            let pushed = write_mem(
                write_mem(s, offset(s.sp, -1), high_byte(ret)),
                offset(s.sp, -2),
                low_byte(ret),
            );
            CpuView { sp: offset(s.sp, -2), pc: word(hi, lo), ..pushed }
        },
        Instruction::Ret => CpuView {
            pc: word(read_mem(s, offset(s.sp, 1)), read_mem(s, s.sp)),
            sp: offset(s.sp, 2),
            ..s
        },
        _ => s,
    }
}

/// One fetch-decode-execute cycle. At or past `PROGRAM_LIMIT` the state is
/// kept and the run is over; an opcode without a defined action is reported
/// with its address and the state is kept; any other advances `pc` past the
/// opcode and executes it.
#[verifier::opaque]
pub open spec fn step(s: CpuView) -> (CpuView, StepOutcome) {
    if s.pc >= PROGRAM_LIMIT {
        (s, StepOutcome::Halted)
    } else {
        let op = read_mem(s, s.pc);
        let i = decode(op);
        if i == Instruction::Unimplemented {
            (s, StepOutcome::Fault { opcode: op, address: s.pc })
        } else {
            let lo = read_mem(s, offset(s.pc, 1));
            let hi = read_mem(s, offset(s.pc, 2));
            (execute(CpuView { pc: offset(s.pc, 1), ..s }, i, lo, hi), StepOutcome::Continue)
        }
    }
}

} // verus!
