use vstd::prelude::*;

use crate::cpu::instructions::prefix::{bit_mask, bit_mask_spec};
use crate::error::Error;
use crate::mmu::{read8, write8, MMU};

verus! {

/// The register that holds the line being drawn.
pub const LY_REGISTER: usize = 0xFF44;
/// Ticks per line.
pub const LINE_CYCLES: u32 = 456;
/// Lines per frame, the blanking lines included.
pub const LINES: u8 = 154;

/// The ASCII character that stands for a shade: space, '.', '#', '@' from
/// lightest to darkest.
pub open spec fn shade_char(shade: int) -> u8 {
    if shade == 0 {
        0x20
    } else if shade == 1 {
        0x2E
    } else if shade == 2 {
        0x23
    } else {
        0x40
    }
}

/// The line that follows `ly`.
pub open spec fn next_line(ly: u8) -> u8 {
    if (ly + 1) % 256 == LINES {
        0
    } else {
        ((ly + 1) % 256) as u8
    }
}

/// The shade (0 to 3) of pixel `j` (0 leftmost) of a tile row whose low
/// bit-plane byte is `lo` and high bit-plane byte is `hi`.
pub open spec fn shade(lo: u8, hi: u8, j: int) -> int {
    (if lo & bit_mask_spec((7 - j) as u8) != 0 {
        1int
    } else {
        0
    }) + (if hi & bit_mask_spec((7 - j) as u8) != 0 {
        2int
    } else {
        0
    })
}

/// The picture timing: a tick counter, the current line advancing once every
/// `LINE_CYCLES` ticks.
#[derive(Debug)]
pub struct PPU {
    pub cycle: u32,
}

impl PPU {
    pub open spec fn wf(&self) -> bool {
        self.cycle <= LINE_CYCLES
    }

    pub fn new() -> (r: Self)
        ensures
            r.wf(),
            r.cycle == 0,
    {
        PPU { cycle: 0 }
    }

    /// One tick. At the start of a line the line register moves to the next
    /// line, wrapping after the last, and the result is `true`.
    pub fn run(&mut self, mmu: &mut MMU) -> (r: Result<bool, Error>)
        requires
            old(self).wf(),
            old(mmu).wf(),
        ensures
            final(self).wf(),
            final(mmu).wf(),
            old(self).cycle % LINE_CYCLES != 0 ==> r == Ok::<bool, Error>(false) && final(self).cycle
                == old(self).cycle + 1 && final(mmu)@ == old(mmu)@,
            old(self).cycle % LINE_CYCLES == 0 ==> match read8(old(mmu)@, LY_REGISTER as int) {
                Ok(ly) => match write8(old(mmu)@, LY_REGISTER as int, next_line(ly)) {
                    Ok(m) => r == Ok::<bool, Error>(true) && final(self).cycle == 1 && final(mmu)@
                        == m,
                    Err(e) => r == Err::<bool, Error>(e),
                },
                Err(e) => r == Err::<bool, Error>(e),
            },
    {
        if self.cycle % LINE_CYCLES == 0 {
            let ly = mmu.get_word(LY_REGISTER)?;
            let next = if ly == 255 {
                0
            } else {
                ly + 1
            };
            if next == LINES {
                mmu.set_word(LY_REGISTER, 0)?;
            } else {
                mmu.set_word(LY_REGISTER, next)?;
            }
            self.cycle = 1;
            return Ok(true);
        }
        self.cycle = self.cycle + 1;
        Ok(false)
    }
}

/// The eight pixels of a tile row, as the characters of their shades. The
/// high byte of `tile_line` is the high bit-plane, its low byte the low one.
pub fn tile_row(tile_line: u16) -> (r: Vec<u8>)
    ensures
        r@.len() == 8,
        forall|j: int|
            0 <= j < 8 ==> r@[j] == shade_char(shade((tile_line % 256) as u8, (tile_line / 256) as u8, j)),
{
    let lo = (tile_line % 256) as u8;
    let hi = (tile_line / 256) as u8;
    let mut r: Vec<u8> = Vec::with_capacity(8);
    let mut j: usize = 0;
    while j < 8
        invariant
            j <= 8,
            r@.len() == j,
            forall|k: int| 0 <= k < j ==> r@[k] == shade_char(shade(lo, hi, k)),
        decreases 8 - j,
    {
        let mask = bit_mask((7 - j) as u8);
        let c: u8 = if lo & mask != 0 {
            if hi & mask != 0 {
                0x40
            } else {
                0x2E
            }
        } else if hi & mask != 0 {
            0x23
        } else {
            0x20
        };
        r.push(c);
        j = j + 1;
    }
    r
}

} // verus!
