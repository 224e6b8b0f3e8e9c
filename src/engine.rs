//! The instruction engine: one fetch-decode-execute cycle per call, proved
//! to follow `isa::step`.

use vstd::prelude::*;
use crate::isa::{
    Cond, Instruction, Pair, Reg, StepOutcome, PROGRAM_LIMIT, bit_count, cond_holds, cond_of,
    dcr_flags, decode, execute, get_pair, get_reg, high_byte, inr_flags, low_byte,
    offset, pair_of, parity_of, read_mem, reg_of, set_pair, set_reg, step, word, write_mem,
};
use crate::state::{ConditionCodes, State8080, MEMORY_SIZE};

verus! {

/// The 16-bit value with `shift1` as its high byte and `shift2` as its low byte.
pub fn shift_nn(shift1: u8, shift2: u8) -> (r: u16)
    ensures
        r == word(shift1, shift2),
        r as int == shift1 as int * 256 + shift2 as int,
{
    let hi: u16 = shift1 as u16;
    let lo: u16 = shift2 as u16;
    assert(hi < 256 && lo < 256 ==> (hi << 8u16) | lo == hi * 256 + lo) by (bit_vector);
    (hi << 8u16) | lo
}

/// `addr + k`, wrapped at 16 bits.
fn add_wrapping(addr: u16, k: u16) -> (r: u16)
    ensures
        r == offset(addr, k as int),
{
    addr.wrapping_add(k)
}

/// `addr - k`, wrapped at 16 bits.
fn sub_wrapping(addr: u16, k: u16) -> (r: u16)
    ensures
        r == offset(addr, -(k as int)),
{
    addr.wrapping_sub(k)
}

proof fn lemma_bit_count_le(v: u8)
    ensures
        bit_count(v) <= v,
    decreases v,
{
    if v != 0 {
        lemma_bit_count_le(v / 2);
    }
}

/// The parity flag of `v`: 1 when `v` has an even number of set bits.
pub fn parity(v: u8) -> (r: u8)
    ensures
        r == parity_of(v),
{
    let mut x: u8 = v;
    let mut ones: u8 = 0;
    while x > 0
        invariant
            ones as nat + bit_count(x) == bit_count(v),
        decreases x,
    {
        proof {
            lemma_bit_count_le(v);
        }
        assert(x & 1 == x % 2 && x >> 1u8 == x / 2) by (bit_vector);
        ones = ones + (x & 1);
        x = x >> 1;
    }
    if ones % 2 == 0 {
        1
    } else {
        0
    }
}

/// The instruction that an opcode byte selects.
pub fn decode_opcode(op: u8) -> (r: Instruction)
    ensures
        r == decode(op),
{
    let group: u8 = op / 64;
    let mid: u8 = (op / 8) % 8;
    let low: u8 = op % 8;
    reveal(decode);
    if group == 0 {
        if op == 0 {
            Instruction::Nop
        } else if low == 1 && mid % 2 == 0 {
            Instruction::Lxi(pair_code(mid / 2))
        } else if low == 2 && (mid == 1 || mid == 3) {
            Instruction::Ldax(pair_code(mid / 2))
        } else if low == 3 && mid % 2 == 0 {
            Instruction::Inx(pair_code(mid / 2))
        } else if low == 4 {
            Instruction::Inr(reg_code(mid))
        } else if low == 5 {
            Instruction::Dcr(reg_code(mid))
        } else if low == 6 {
            Instruction::Mvi(reg_code(mid))
        } else {
            Instruction::Unimplemented
        }
    } else if group == 1 {
        if op == 0x76 {
            Instruction::Unimplemented
        } else {
            Instruction::Mov(reg_code(mid), reg_code(low))
        }
    } else if group == 3 {
        if low == 2 {
            Instruction::Jcond(cond_code(mid))
        } else if op == 0xc3 {
            Instruction::Jmp
        } else if op == 0xc9 {
            Instruction::Ret
        } else if op == 0xcd {
            Instruction::Call
        } else {
            Instruction::Unimplemented
        }
    } else {
        Instruction::Unimplemented
    }
}

fn reg_code(code: u8) -> (r: Reg)
    ensures
        r == reg_of(code),
{
    match code {
        0 => Reg::B,
        1 => Reg::C,
        2 => Reg::D,
        3 => Reg::E,
        4 => Reg::H,
        5 => Reg::L,
        6 => Reg::M,
        _ => Reg::A,
    }
}

fn pair_code(code: u8) -> (r: Pair)
    ensures
        r == pair_of(code),
{
    match code {
        0 => Pair::BC,
        1 => Pair::DE,
        2 => Pair::HL,
        _ => Pair::SP,
    }
}

fn cond_code(code: u8) -> (r: Cond)
    ensures
        r == cond_of(code),
{
    match code {
        0 => Cond::NotZero,
        1 => Cond::Zero,
        2 => Cond::NoCarry,
        3 => Cond::Carry,
        4 => Cond::ParityOdd,
        5 => Cond::ParityEven,
        6 => Cond::Plus,
        _ => Cond::Minus,
    }
}

/// Whether a conditional jump on `c` is taken under the flags `cc`.
pub fn condition_holds(cc: &ConditionCodes, c: Cond) -> (r: bool)
    ensures
        r == cond_holds(*cc, c),
{
    match c {
        Cond::NotZero => !cc.z,
        Cond::Zero => cc.z,
        Cond::NoCarry => cc.cy == 0,
        Cond::Carry => cc.cy != 0,
        Cond::ParityOdd => cc.p == 0,
        Cond::ParityEven => cc.p != 0,
        Cond::Plus => !cc.s,
        Cond::Minus => cc.s,
    }
}

impl State8080 {
    /// The memory byte at a 16-bit address, wrapped to the image.
    pub fn read_byte(&self, addr: u16) -> (r: u8)
        ensures
            r == read_mem(self@, addr),
    {
        self.memory[(addr as usize) % MEMORY_SIZE]
    }

    /// Stores `v` at a 16-bit address, wrapped to the image.
    pub fn write_byte(&mut self, addr: u16, v: u8)
        ensures
            final(self)@ == write_mem(old(self)@, addr, v),
    {
        self.memory[(addr as usize) % MEMORY_SIZE] = v;
    }

    /// The value of an 8-bit operand.
    pub fn read_reg(&self, r: Reg) -> (v: u8)
        ensures
            v == get_reg(self@, r),
    {
        match r {
            Reg::B => self.b,
            Reg::C => self.c,
            Reg::D => self.d,
            Reg::E => self.e,
            Reg::H => self.h,
            Reg::L => self.l,
            Reg::M => self.read_byte(shift_nn(self.h, self.l)),
            Reg::A => self.a,
        }
    }

    /// Sets an 8-bit operand to `v`.
    pub fn write_reg(&mut self, r: Reg, v: u8)
        ensures
            final(self)@ == set_reg(old(self)@, r, v),
    {
        match r {
            Reg::B => self.b = v,
            Reg::C => self.c = v,
            Reg::D => self.d = v,
            Reg::E => self.e = v,
            Reg::H => self.h = v,
            Reg::L => self.l = v,
            Reg::M => {
                let hl = shift_nn(self.h, self.l);
                self.write_byte(hl, v);
            },
            Reg::A => self.a = v,
        }
    }

    /// The value of a register pair.
    pub fn read_pair(&self, p: Pair) -> (v: u16)
        ensures
            v == get_pair(self@, p),
    {
        match p {
            Pair::BC => shift_nn(self.b, self.c),
            Pair::DE => shift_nn(self.d, self.e),
            Pair::HL => shift_nn(self.h, self.l),
            Pair::SP => self.sp,
        }
    }

    /// Sets a register pair to `v`: the high byte to the first-named register.
    pub fn write_pair(&mut self, p: Pair, v: u16)
        ensures
            final(self)@ == set_pair(old(self)@, p, v),
    {
        let hi: u8 = (v >> 8u16) as u8;
        let lo: u8 = (v & 0xffu16) as u8;
        assert(v >> 8u16 == v / 256 && v & 0xffu16 == v % 256) by (bit_vector);
        match p {
            Pair::BC => {
                self.b = hi;
                self.c = lo;
            },
            Pair::DE => {
                self.d = hi;
                self.e = lo;
            },
            Pair::HL => {
                self.h = hi;
                self.l = lo;
            },
            Pair::SP => self.sp = v,
        }
    }

    /// Adds one to an 8-bit operand, wrapping at 8 bits, and sets zero, sign,
    /// parity and auxiliary carry from the result.
    pub fn increment(&mut self, r: Reg)
        ensures
            final(self)@ == execute(old(self)@, Instruction::Inr(r), 0, 0),
    {
        reveal(execute);
        let v = self.read_reg(r);
        let n = v.wrapping_add(1);
        self.cc.z = n == 0;
        self.cc.s = n >= 0x80;
        self.cc.p = parity(n);
        self.cc.ac = if v % 16 == 15 {
            1
        } else {
            0
        };
        assert(self.cc == inr_flags(old(self).cc, v));
        self.write_reg(r, n);
    }

    /// Subtracts one from an 8-bit operand, wrapping at 8 bits, and sets zero,
    /// sign, parity and auxiliary carry from the result.
    pub fn decrement(&mut self, r: Reg)
        ensures
            final(self)@ == execute(old(self)@, Instruction::Dcr(r), 0, 0),
    {
        reveal(execute);
        let v = self.read_reg(r);
        let n = v.wrapping_sub(1);
        self.cc.z = n == 0;
        self.cc.s = n >= 0x80;
        self.cc.p = parity(n);
        self.cc.ac = if v % 16 != 0 {
            1
        } else {
            0
        };
        assert(self.cc == dcr_flags(old(self).cc, v));
        self.write_reg(r, n);
    }

    /// Pushes the address two bytes past `pc` (high byte at `sp - 1`, low
    /// byte at `sp - 2`), lowers `sp` by two and jumps to `target`.
    pub fn call(&mut self, target: u16)
        ensures
            final(self)@ == execute(old(self)@, Instruction::Call, low_byte(target), high_byte(target)),
    {
        reveal(execute);
        let ret = add_wrapping(self.pc, 2);
        assert(ret >> 8u16 == ret / 256 && ret & 0xffu16 == ret % 256) by (bit_vector);
        let sp1 = sub_wrapping(self.sp, 1);
        let sp2 = sub_wrapping(self.sp, 2);
        self.write_byte(sp1, (ret >> 8u16) as u8);
        self.write_byte(sp2, (ret & 0xffu16) as u8);
        self.sp = sp2;
        self.pc = target;
    }

    /// Pops the return address (low byte at `sp`, high byte at `sp + 1`)
    /// into `pc` and raises `sp` by two.
    pub fn ret(&mut self)
        ensures
            final(self)@ == execute(old(self)@, Instruction::Ret, 0, 0),
    {
        reveal(execute);
        let lo_ret = self.read_byte(self.sp);
        let hi_ret = self.read_byte(add_wrapping(self.sp, 1));
        self.pc = shift_nn(hi_ret, lo_ret);
        self.sp = add_wrapping(self.sp, 2);
    }

    /// Executes an implemented instruction; `pc` already points past its
    /// opcode, and `lo`, `hi` are the two bytes that followed the opcode.
    pub fn execute_instruction(&mut self, i: Instruction, lo: u8, hi: u8)
        requires
            i != Instruction::Unimplemented,
        ensures
            final(self)@ == execute(old(self)@, i, lo, hi),
    {
        reveal(execute);
        match i {
            Instruction::Nop => {},
            Instruction::Lxi(p) => {
                self.pc = add_wrapping(self.pc, 2);
                self.write_pair(p, shift_nn(hi, lo));
            },
            Instruction::Mvi(r) => {
                self.pc = add_wrapping(self.pc, 1);
                self.write_reg(r, lo);
            },
            Instruction::Inx(p) => {
                let v = self.read_pair(p);
                self.write_pair(p, add_wrapping(v, 1));
            },
            Instruction::Inr(r) => self.increment(r),
            Instruction::Dcr(r) => self.decrement(r),
            Instruction::Mov(d, src) => {
                let v = self.read_reg(src);
                self.write_reg(d, v);
            },
            Instruction::Ldax(p) => {
                let at = self.read_pair(p);
                self.a = self.read_byte(at);
            },
            Instruction::Jmp => {
                self.pc = shift_nn(hi, lo);
            },
            Instruction::Jcond(c) => {
                if condition_holds(&self.cc, c) {
                    self.pc = shift_nn(hi, lo);
                } else {
                    self.pc = add_wrapping(self.pc, 2);
                }
            },
            Instruction::Call => self.call(shift_nn(hi, lo)),
            Instruction::Ret => self.ret(),
            Instruction::Unimplemented => {},
        }
    }
}

/// Performs one fetch-decode-execute cycle on `state` and reports what
/// happened: the run is over once `pc` reaches `PROGRAM_LIMIT`, an opcode
/// without a defined action is reported with its address and leaves the
/// state unchanged, and any other opcode is executed.
pub fn emulate_8080_op(state: &mut State8080) -> (r: StepOutcome)
    ensures
        (final(state)@, r) == step(old(state)@),
{
    reveal(step);
    if state.pc >= PROGRAM_LIMIT {
        return StepOutcome::Halted;
    }
    let op = state.read_byte(state.pc);
    let lo = state.read_byte(add_wrapping(state.pc, 1));
    let hi = state.read_byte(add_wrapping(state.pc, 2));
    let i = decode_opcode(op);
    if let Instruction::Unimplemented = i {
        return StepOutcome::Fault { opcode: op, address: state.pc };
    }
    state.pc = add_wrapping(state.pc, 1);
    state.execute_instruction(i, lo, hi);
    StepOutcome::Continue
}

} // verus!
