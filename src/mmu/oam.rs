use vstd::prelude::*;

use crate::mmu::zeroed;

verus! {

/// Object attribute memory size.
pub const OAM_SIZE: usize = 0xA0;
/// Width of one video-RAM bank, which is also the logical window.
pub const OAM_BANK_WIDTH: usize = 0xA0;

/// Object attribute memory: sprite descriptors, seen through a one-bank window.
#[derive(Debug)]
pub struct OAM {
    data: Vec<u8>,
    bank: u8,
}

impl View for OAM {
    type V = Seq<u8>;

    /// The bytes visible through the logical window.
    closed spec fn view(&self) -> Seq<u8> {
        Seq::new(OAM_BANK_WIDTH as nat, |i: int| self.data@[i + self.bank * OAM_BANK_WIDTH])
    }
}

impl OAM {
    pub open spec fn wf(&self) -> bool {
        self@.len() == OAM_BANK_WIDTH && self.inv()
    }

    pub closed spec fn inv(&self) -> bool {
        self.bank * OAM_BANK_WIDTH + OAM_BANK_WIDTH <= self.data.len()
    }

    /// The whole backing store.
    pub closed spec fn backing(&self) -> Seq<u8> {
        self.data@
    }

    /// The selected bank.
    pub closed spec fn bank(&self) -> u8 {
        self.bank
    }

    pub fn new() -> (r: Self)
        ensures
            r.wf(),
            r.backing().len() == OAM_SIZE,
            forall|i: int| 0 <= i < r.backing().len() ==> r.backing()[i] == 0,
            r.bank() == 0,
            forall|i: int| 0 <= i < OAM_BANK_WIDTH ==> r@[i] == 0,
    {
        OAM { data: zeroed(OAM_SIZE), bank: 0 }
    }

    pub fn get(&self, index: usize) -> (r: u8)
        requires
            self.wf(),
            index < OAM_BANK_WIDTH,
        ensures
            r == self@[index as int],
    {
        self.data[index + self.bank as usize * OAM_BANK_WIDTH]
    }

    pub fn set(&mut self, index: usize, value: u8)
        requires
            old(self).wf(),
            index < OAM_BANK_WIDTH,
        ensures
            final(self).wf(),
            final(self)@ == old(self)@.update(index as int, value),
    {
        let p = index + self.bank as usize * OAM_BANK_WIDTH;
        self.data.set(p, value);
        assert(self@ =~= old(self)@.update(index as int, value));
    }
}

} // verus!
