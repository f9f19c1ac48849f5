use vstd::prelude::*;

use crate::mmu::zeroed;

verus! {

/// Number of bytes of high RAM.
pub const HRAM_SIZE: usize = 0x7F;

/// High RAM: a small fixed store just below the interrupt-enable byte.
#[derive(Debug)]
pub struct HRAM {
    data: Vec<u8>,
}

impl View for HRAM {
    type V = Seq<u8>;

    closed spec fn view(&self) -> Seq<u8> {
        self.data@
    }
}

impl HRAM {
    pub open spec fn wf(&self) -> bool {
        self@.len() == HRAM_SIZE
    }

    pub fn new() -> (r: Self)
        ensures
            r.wf(),
            forall|i: int| 0 <= i < HRAM_SIZE ==> r@[i] == 0,
    {
        HRAM { data: zeroed(HRAM_SIZE) }
    }

    pub fn get(&self, index: usize) -> (r: u8)
        requires
            self.wf(),
            index < HRAM_SIZE,
        ensures
            r == self@[index as int],
    {
        self.data[index]
    }

    pub fn set(&mut self, index: usize, value: u8)
        requires
            old(self).wf(),
            index < HRAM_SIZE,
        ensures
            final(self).wf(),
            final(self)@ == old(self)@.update(index as int, value),
    {
        self.data.set(index, value);
    }
}

} // verus!
