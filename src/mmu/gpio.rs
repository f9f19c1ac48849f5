use vstd::prelude::*;

use crate::mmu::zeroed;

verus! {

/// Number of bytes of I/O registers.
pub const GPIO_SIZE: usize = 0x80;

/// I/O register block: one byte per memory-mapped hardware register.
#[derive(Debug)]
pub struct GPIO {
    data: Vec<u8>,
}

impl View for GPIO {
    type V = Seq<u8>;

    closed spec fn view(&self) -> Seq<u8> {
        self.data@
    }
}

impl GPIO {
    pub open spec fn wf(&self) -> bool {
        self@.len() == GPIO_SIZE
    }

    pub fn new() -> (r: Self)
        ensures
            r.wf(),
            forall|i: int| 0 <= i < GPIO_SIZE ==> r@[i] == 0,
    {
        GPIO { data: zeroed(GPIO_SIZE) }
    }

    pub fn get(&self, index: usize) -> (r: u8)
        requires
            self.wf(),
            index < GPIO_SIZE,
        ensures
            r == self@[index as int],
    {
        self.data[index]
    }

    pub fn set(&mut self, index: usize, value: u8)
        requires
            old(self).wf(),
            index < GPIO_SIZE,
        ensures
            final(self).wf(),
            final(self)@ == old(self)@.update(index as int, value),
    {
        self.data.set(index, value);
    }
}

} // verus!
