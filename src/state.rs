//! The machine-visible state of one 8080 processor.

use vstd::prelude::*;

verus! {

/// Size in bytes of the memory image.
pub const MEMORY_SIZE: usize = 0x4000;

/// The condition-code record: zero, sign, parity, carry and auxiliary carry,
/// with the reserved padding bits.
#[derive(Clone, Copy, Debug, PartialEq, Eq, Structural)]
pub struct ConditionCodes {
    pub z: bool,
    pub s: bool,
    pub p: u8,
    pub cy: u8,
    pub ac: u8,
    pub pad: u8,
}

impl ConditionCodes {
    /// The reset pattern: zero, sign, carry and auxiliary carry asserted,
    /// parity set, both reserved bits set.
    pub open spec fn reset() -> ConditionCodes {
        ConditionCodes { z: true, s: true, p: 1, cy: 1, ac: 1, pad: 3 }
    }

    pub fn new() -> (r: ConditionCodes)
        ensures
            r == ConditionCodes::reset(),
    {
        ConditionCodes { z: true, s: true, p: 1, cy: 1, ac: 1, pad: 3 }
    }
}


/// The register file, flags, pointers and memory image of one processor.
pub struct State8080 {
    pub a: u8,
    pub b: u8,
    pub c: u8,
    pub d: u8,
    pub e: u8,
    pub h: u8,
    pub l: u8,
    pub sp: u16,
    pub pc: u16,
    pub memory: [u8; 0x4000],
    pub cc: ConditionCodes,
    pub int_enable: bool,
}

/// The mathematical picture of a `State8080`: the memory image as a sequence.
pub struct CpuView {
    pub a: u8,
    pub b: u8,
    pub c: u8,
    pub d: u8,
    pub e: u8,
    pub h: u8,
    pub l: u8,
    pub sp: u16,
    pub pc: u16,
    pub mem: Seq<u8>,
    pub cc: ConditionCodes,
    pub int_enable: bool,
}

impl View for State8080 {
    type V = CpuView;

    open spec fn view(&self) -> CpuView {
        CpuView {
            a: self.a,
            b: self.b,
            c: self.c,
            d: self.d,
            e: self.e,
            h: self.h,
            l: self.l,
            sp: self.sp,
            pc: self.pc,
            mem: self.memory@,
            cc: self.cc,
            int_enable: self.int_enable,
        }
    }
}

impl CpuView {
    /// A memory image of the right size.
    pub open spec fn wf(self) -> bool {
        self.mem.len() == MEMORY_SIZE
    }
}

/// Every processor state has a memory image of the right size, so the
/// properties stated over well-formed views hold of it.
pub proof fn lemma_state_view_wf(s: State8080)
    ensures
        s@.wf(),
{
}

impl State8080 {
    pub fn new() -> (r: State8080)
        ensures
            r@.a == 0 && r@.b == 0 && r@.c == 0 && r@.d == 0,
            r@.e == 0 && r@.h == 0 && r@.l == 0,
            r@.sp == 0 && r@.pc == 0,
            r@.mem == Seq::new(MEMORY_SIZE as nat, |i: int| 0u8),
            r@.cc == ConditionCodes::reset(),
            r@.int_enable,
    {
        let r = State8080 {
            a: 0,
            b: 0,
            c: 0,
            d: 0,
            e: 0,
            h: 0,
            l: 0,
            sp: 0,
            pc: 0,
            memory: [0u8; 0x4000],
            cc: ConditionCodes::new(),
            int_enable: true,
        };
        assert(r.memory@ =~= Seq::new(MEMORY_SIZE as nat, |i: int| 0u8));
        r
    }

    /// Copies a program image into memory from offset 0. An image longer than
    /// the memory is refused and leaves the state unchanged.
    pub fn load_program(&mut self, image: &[u8]) -> (r: Result<(), ImageTooLarge>)
        ensures
            r is Ok <==> image@.len() <= MEMORY_SIZE,
            r is Ok ==> final(self)@ == (CpuView {
                mem: image@ + old(self)@.mem.subrange(image@.len() as int, MEMORY_SIZE as int),
                ..old(self)@
            }),
            r is Err ==> final(self)@ == old(self)@ && r == Err::<(), ImageTooLarge>(
                ImageTooLarge { len: image@.len() as usize },
            ),
    {
        if image.len() > MEMORY_SIZE {
            return Err(ImageTooLarge { len: image.len() });
        }
        let mut i: usize = 0;
        while i < image.len()
            invariant
                i <= image@.len() <= MEMORY_SIZE,
                self.memory@.len() == MEMORY_SIZE,
                forall|j: int| 0 <= j < i ==> self.memory@[j] == image@[j],
                forall|j: int| i <= j < MEMORY_SIZE ==> self.memory@[j] == old(self).memory@[j],
                self@ == (CpuView { mem: self.memory@, ..old(self)@ }),
            decreases image@.len() - i,
        {
            self.memory[i] = image[i];
            i = i + 1;
        }
        assert(self.memory@ =~= image@ + old(self)@.mem.subrange(
            image@.len() as int,
            MEMORY_SIZE as int,
        ));
        Ok(())
    }
}

/// A program image that does not fit in the memory: its length in bytes.
#[derive(Clone, Copy, Debug, PartialEq, Eq, Structural)]
pub struct ImageTooLarge {
    pub len: usize,
}

} // verus!
