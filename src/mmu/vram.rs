use vstd::prelude::*;

use crate::mmu::zeroed;

verus! {

/// Video RAM size in base mode (one bank).
pub const DMG_VRAM_SIZE: usize = 0x2000;
/// Video RAM size in enhanced mode (two banks).
pub const CBG_VRAM_SIZE: usize = 0x4000;
/// Width of one video-RAM bank, which is also the logical window.
pub const VRAM_BANK_WIDTH: usize = 0x2000;

/// Video RAM: the logical window shows the selected bank.
#[derive(Debug)]
pub struct VRAM {
    data: Vec<u8>,
    bank: u8,
}

impl View for VRAM {
    type V = Seq<u8>;

    /// The bytes visible through the logical window.
    closed spec fn view(&self) -> Seq<u8> {
        Seq::new(VRAM_BANK_WIDTH as nat, |i: int| self.data@[i + self.bank * VRAM_BANK_WIDTH])
    }
}

impl VRAM {
    pub open spec fn wf(&self) -> bool {
        self@.len() == VRAM_BANK_WIDTH && self.inv()
    }

    pub closed spec fn inv(&self) -> bool {
        self.bank * VRAM_BANK_WIDTH + VRAM_BANK_WIDTH <= self.data.len()
    }

    /// The whole backing store, every bank.
    pub closed spec fn backing(&self) -> Seq<u8> {
        self.data@
    }

    /// The selected bank.
    pub closed spec fn bank(&self) -> u8 {
        self.bank
    }

    pub fn new(cbg_mode: bool) -> (r: Self)
        ensures
            r.wf(),
            r.backing().len() == (if cbg_mode {
                CBG_VRAM_SIZE
            } else {
                DMG_VRAM_SIZE
            }),
            forall|i: int| 0 <= i < r.backing().len() ==> r.backing()[i] == 0,
            r.bank() == 0,
            forall|i: int| 0 <= i < VRAM_BANK_WIDTH ==> r@[i] == 0,
    {
        let data = if cbg_mode {
            zeroed(CBG_VRAM_SIZE)
        } else {
            zeroed(DMG_VRAM_SIZE)
        };
        VRAM { data, bank: 0 }
    }

    pub fn get(&self, index: usize) -> (r: u8)
        requires
            self.wf(),
            index < VRAM_BANK_WIDTH,
        ensures
            r == self@[index as int],
    {
        self.data[index + self.bank as usize * VRAM_BANK_WIDTH]
    }

    pub fn set(&mut self, index: usize, value: u8)
        requires
            old(self).wf(),
            index < VRAM_BANK_WIDTH,
        ensures
            final(self).wf(),
            final(self)@ == old(self)@.update(index as int, value),
    {
        let p = index + self.bank as usize * VRAM_BANK_WIDTH;
        self.data.set(p, value);
        assert(self@ =~= old(self)@.update(index as int, value));
    }
}

} // verus!
