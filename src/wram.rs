use vstd::prelude::*;

use crate::mmu::zeroed;

verus! {

/// Working RAM size in base mode (two banks).
pub const DMG_WRAM_SIZE: usize = 0x2000;
/// Working RAM size in enhanced mode (eight banks).
pub const CBG_WRAM_SIZE: usize = 0x8000;
/// Width of one working-RAM bank.
pub const WRAM_BANK_WIDTH: usize = 0x1000;
/// Width of the logical window through which working RAM is seen.
pub const WRAM_WINDOW: usize = 0x2000;

/// Working RAM: bank 0 is fixed at the start of the window, the upper half of
/// the window shows the selected bank (1 or above).
#[derive(Debug)]
pub struct WRAM {
    data: Vec<u8>,
    bank: u8,
}

impl View for WRAM {
    type V = Seq<u8>;

    /// The bytes visible through the logical window.
    closed spec fn view(&self) -> Seq<u8> {
        Seq::new(WRAM_WINDOW as nat, |i: int| self.data@[self.physical(i)])
    }
}

impl WRAM {
    /// Where offset `i` of the window lives in the backing store.
    pub closed spec fn physical(&self, i: int) -> int {
        if i < WRAM_BANK_WIDTH {
            i
        } else {
            i + (self.bank - 1) * WRAM_BANK_WIDTH
        }
    }

    pub open spec fn wf(&self) -> bool {
        self@.len() == WRAM_WINDOW && self.inv()
    }

    pub closed spec fn inv(&self) -> bool {
        &&& 1 <= self.bank
        &&& self.bank * WRAM_BANK_WIDTH + WRAM_BANK_WIDTH <= self.data.len()
    }

    /// The whole backing store, every bank.
    pub closed spec fn backing(&self) -> Seq<u8> {
        self.data@
    }

    /// The selected bank.
    pub closed spec fn bank(&self) -> u8 {
        self.bank
    }

    pub fn new(cbg_mode: bool) -> (r: Self)
        ensures
            r.wf(),
            r.backing().len() == (if cbg_mode {
                CBG_WRAM_SIZE
            } else {
                DMG_WRAM_SIZE
            }),
            forall|i: int| 0 <= i < r.backing().len() ==> r.backing()[i] == 0,
            r.bank() == 1,
            forall|i: int| 0 <= i < WRAM_WINDOW ==> r@[i] == 0,
    {
        let data = if cbg_mode {
            zeroed(CBG_WRAM_SIZE)
        } else {
            zeroed(DMG_WRAM_SIZE)
        };
        WRAM { data, bank: 1 }
    }

    fn physical_index(&self, index: usize) -> (r: usize)
        requires
            self.wf(),
            index < WRAM_WINDOW,
        ensures
            r == self.physical(index as int),
            r < self.data.len(),
    {
        if index < WRAM_BANK_WIDTH {
            index
        } else {
            index + (self.bank - 1) as usize * WRAM_BANK_WIDTH
        }
    }

    pub fn get(&self, index: usize) -> (r: u8)
        requires
            self.wf(),
            index < WRAM_WINDOW,
        ensures
            r == self@[index as int],
    {
        self.data[self.physical_index(index)]
    }

    pub fn set(&mut self, index: usize, value: u8)
        requires
            old(self).wf(),
            index < WRAM_WINDOW,
        ensures
            final(self).wf(),
            final(self)@ == old(self)@.update(index as int, value),
    {
        let p = self.physical_index(index);
        self.data.set(p, value);
        assert(self@ =~= old(self)@.update(index as int, value));
    }
}

} // verus!
