use vstd::prelude::*;

use crate::cartridge::mbc0::MBC0;
use crate::error::Error;
use crate::hram::{HRAM, HRAM_SIZE};
use crate::wram::{WRAM, WRAM_WINDOW};
use gpio::{GPIO, GPIO_SIZE};
use oam::{OAM, OAM_BANK_WIDTH};
use vram::{VRAM, VRAM_BANK_WIDTH};

pub mod gpio;
pub mod oam;
pub mod vram;

verus! {

pub const ROM_START: usize = 0x0000;
pub const ROM_END: usize = 0x7FFF;
pub const VRAM_START: usize = 0x8000;
pub const VRAM_END: usize = 0x9FFF;
pub const EXRAM_START: usize = 0xA000;
pub const EXRAM_END: usize = 0xBFFF;
pub const WRAM_START: usize = 0xC000;
pub const WRAM_END: usize = 0xDFFF;
pub const ECHO_START: usize = 0xE000;
pub const ECHO_END: usize = 0xFDFF;
pub const OAM_START: usize = 0xFE00;
pub const OAM_END: usize = 0xFE9F;
pub const UNUSABLE_START: usize = 0xFEA0;
pub const UNUSABLE_END: usize = 0xFEFF;
pub const GPIO_START: usize = 0xFF00;
pub const GPIO_END: usize = 0xFF7F;
pub const HRAM_START: usize = 0xFF80;
pub const HRAM_END: usize = 0xFFFE;
pub const IE_REGISTER: usize = 0xFFFF;

/// The contents of the address space: each backed address and its byte.
pub type Memory = Map<int, u8>;

/// The ranges into which the 16-bit address space is divided, in address order.
#[derive(Debug, Clone, Copy, PartialEq, Eq, Structural)]
pub enum Region {
    Cartridge,
    VideoRam,
    ExternalRam,
    WorkRam,
    EchoRam,
    ObjectMemory,
    Unusable,
    Io,
    HighRam,
    InterruptEnable,
}

/// The region that holds address `a`, if `a` is a 16-bit address.
pub open spec fn region_of(a: int) -> Option<Region> {
    if a < 0 {
        None
    } else if a <= ROM_END {
        Some(Region::Cartridge)
    } else if a <= VRAM_END {
        Some(Region::VideoRam)
    } else if a <= EXRAM_END {
        Some(Region::ExternalRam)
    } else if a <= WRAM_END {
        Some(Region::WorkRam)
    } else if a <= ECHO_END {
        Some(Region::EchoRam)
    } else if a <= OAM_END {
        Some(Region::ObjectMemory)
    } else if a <= UNUSABLE_END {
        Some(Region::Unusable)
    } else if a <= GPIO_END {
        Some(Region::Io)
    } else if a <= HRAM_END {
        Some(Region::HighRam)
    } else if a == IE_REGISTER {
        Some(Region::InterruptEnable)
    } else {
        None
    }
}

impl Region {
    /// First address of the region.
    pub open spec fn start(self) -> int {
        match self {
            Region::Cartridge => ROM_START as int,
            Region::VideoRam => VRAM_START as int,
            Region::ExternalRam => EXRAM_START as int,
            Region::WorkRam => WRAM_START as int,
            Region::EchoRam => ECHO_START as int,
            Region::ObjectMemory => OAM_START as int,
            Region::Unusable => UNUSABLE_START as int,
            Region::Io => GPIO_START as int,
            Region::HighRam => HRAM_START as int,
            Region::InterruptEnable => IE_REGISTER as int,
        }
    }

    /// Last address of the region.
    pub open spec fn end(self) -> int {
        match self {
            Region::Cartridge => ROM_END as int,
            Region::VideoRam => VRAM_END as int,
            Region::ExternalRam => EXRAM_END as int,
            Region::WorkRam => WRAM_END as int,
            Region::EchoRam => ECHO_END as int,
            Region::ObjectMemory => OAM_END as int,
            Region::Unusable => UNUSABLE_END as int,
            Region::Io => GPIO_END as int,
            Region::HighRam => HRAM_END as int,
            Region::InterruptEnable => IE_REGISTER as int,
        }
    }

    /// The region that follows this one in the address space.
    pub open spec fn next(self) -> Option<Region> {
        match self {
            Region::Cartridge => Some(Region::VideoRam),
            Region::VideoRam => Some(Region::ExternalRam),
            Region::ExternalRam => Some(Region::WorkRam),
            Region::WorkRam => Some(Region::EchoRam),
            Region::EchoRam => Some(Region::ObjectMemory),
            Region::ObjectMemory => Some(Region::Unusable),
            Region::Unusable => Some(Region::Io),
            Region::Io => Some(Region::HighRam),
            Region::HighRam => Some(Region::InterruptEnable),
            Region::InterruptEnable => None,
        }
    }

    /// Whether a byte store stands behind the region. External RAM is
    /// reserved for cartridge RAM and not yet backed; the echo and unusable
    /// ranges have no store.
    pub open spec fn is_backed(self) -> bool {
        !(self is ExternalRam || self is EchoRam || self is Unusable)
    }
}

/// Reading one byte of `mem`.
pub open spec fn read8(mem: Memory, a: int) -> Result<u8, Error> {
    if mem.contains_key(a) {
        Ok(mem[a])
    } else {
        Err(Error::UnmappedAddress(a as usize))
    }
}

/// Writing one byte of `mem`.
pub open spec fn write8(mem: Memory, a: int, v: u8) -> Result<Memory, Error> {
    if mem.contains_key(a) {
        Ok(mem.insert(a, v))
    } else {
        Err(Error::UnmappedAddress(a as usize))
    }
}

/// Little-endian 16-bit value of a low and a high byte.
pub open spec fn le16(lo: u8, hi: u8) -> u16 {
    (hi as int * 256 + lo as int) as u16
}

/// Reading a little-endian 16-bit value at `a` and `a + 1`.
pub open spec fn read16(mem: Memory, a: int) -> Result<u16, Error> {
    match read8(mem, a) {
        Err(e) => Err(e),
        Ok(lo) => match read8(mem, a + 1) {
            Err(e) => Err(e),
            Ok(hi) => Ok(le16(lo, hi)),
        },
    }
}

/// Writing `v` little-endian at `a` and `a + 1`; nothing is written unless
/// both addresses are backed.
pub open spec fn write16(mem: Memory, a: int, v: u16) -> Result<Memory, Error> {
    if !mem.contains_key(a) {
        Err(Error::UnmappedAddress(a as usize))
    } else if !mem.contains_key(a + 1) {
        Err(Error::UnmappedAddress((a + 1) as usize))
    } else {
        Ok(mem.insert(a, (v % 256) as u8).insert(a + 1, (v / 256) as u8))
    }
}

/// A vector of `n` zero bytes.
pub fn zeroed(n: usize) -> (r: Vec<u8>)
    ensures
        r.len() == n,
        forall|i: int| 0 <= i < n ==> r@[i] == 0,
{
    let mut r: Vec<u8> = Vec::with_capacity(n);
    let mut i: usize = 0;
    while i < n
        invariant
            i <= n,
            r.len() == i,
            forall|j: int| 0 <= j < i ==> r@[j] == 0,
        decreases n - i,
    {
        r.push(0);
        i = i + 1;
    }
    r
}

/// The memory routing unit: owns every region and routes each logical
/// address to the region that backs it.
#[derive(Debug)]
pub struct MMU {
    mbc: MBC0,
    wram: WRAM,
    hram: HRAM,
    gpio: GPIO,
    vram: VRAM,
    oam: OAM,
    ie: u8,
}

impl View for MMU {
    type V = Memory;

    open spec fn view(&self) -> Memory {
        Map::new(|a: int| self.backs(a), |a: int| self.byte_at(a))
    }
}

impl MMU {
    /// Number of bytes in the cartridge image.
    pub closed spec fn cartridge_len(&self) -> nat {
        self.mbc@.len()
    }

    /// Whether a byte store backs address `a`.
    pub open spec fn backs(&self, a: int) -> bool {
        match region_of(a) {
            Some(Region::Cartridge) => a < self.cartridge_len(),
            Some(r) => r.is_backed(),
            None => false,
        }
    }

    /// The byte at a backed address.
    pub closed spec fn byte_at(&self, a: int) -> u8 {
        match region_of(a) {
            Some(Region::Cartridge) => self.mbc@[a],
            Some(Region::VideoRam) => self.vram@[a - VRAM_START],
            Some(Region::WorkRam) => self.wram@[a - WRAM_START],
            Some(Region::ObjectMemory) => self.oam@[a - OAM_START],
            Some(Region::Io) => self.gpio@[a - GPIO_START],
            Some(Region::HighRam) => self.hram@[a - HRAM_START],
            _ => self.ie,
        }
    }

    pub closed spec fn wf(&self) -> bool {
        &&& self.wram.wf()
        &&& self.hram.wf()
        &&& self.gpio.wf()
        &&& self.vram.wf()
        &&& self.oam.wf()
    }

    /// A fresh address space over the cartridge `mbc`: every RAM byte and the
    /// interrupt-enable byte are zero; `cbg_mode` sizes the banked stores.
    pub fn new(mbc: MBC0, cbg_mode: bool) -> (r: Self)
        ensures
            r.wf(),
            r.cartridge_len() == mbc@.len(),
            forall|a: int| 0 <= a < mbc@.len() && a <= ROM_END ==> r@[a] == mbc@[a],
            forall|a: int| #[trigger] r.backs(a) && a > ROM_END ==> r@[a] == 0,
    {
        let wram = WRAM::new(cbg_mode);
        let hram = HRAM::new();
        let gpio = GPIO::new();
        let vram = VRAM::new(cbg_mode);
        let oam = OAM::new();
        MMU { mbc, wram, hram, gpio, vram, oam, ie: 0 }
    }

    /// The cartridge controller, for inspection.
    pub fn mbc(&self) -> (r: &MBC0)
        ensures
            r@.len() == self.cartridge_len(),
            forall|a: int| 0 <= a < r@.len() && a <= ROM_END ==> r@[a] == self@[a],
    {
        &self.mbc
    }

    /// Reads the byte at `address`.
    pub fn get_word(&self, address: usize) -> (r: Result<u8, Error>)
        requires
            self.wf(),
        ensures
            r == read8(self@, address as int),
    {
        if address <= ROM_END {
            if address < self.mbc.len() {
                Ok(self.mbc.get(address))
            } else {
                Err(Error::UnmappedAddress(address))
            }
        } else if address <= VRAM_END {
            Ok(self.vram.get(address - VRAM_START))
        } else if address <= EXRAM_END {
            Err(Error::UnmappedAddress(address))
        } else if address <= WRAM_END {
            Ok(self.wram.get(address - WRAM_START))
        } else if address < OAM_START {
            Err(Error::UnmappedAddress(address))
        } else if address <= OAM_END {
            Ok(self.oam.get(address - OAM_START))
        } else if address < GPIO_START {
            Err(Error::UnmappedAddress(address))
        } else if address <= GPIO_END {
            Ok(self.gpio.get(address - GPIO_START))
        } else if address <= HRAM_END {
            Ok(self.hram.get(address - HRAM_START))
        } else if address == IE_REGISTER {
            Ok(self.ie)
        } else {
            Err(Error::UnmappedAddress(address))
        }
    }

    /// Writes `value` at `address`; an unbacked address changes nothing.
    pub fn set_word(&mut self, address: usize, value: u8) -> (r: Result<(), Error>)
        requires
            old(self).wf(),
        ensures
            final(self).wf(),
            match write8(old(self)@, address as int, value) {
                Ok(m) => r is Ok && final(self)@ == m,
                Err(e) => r == Err::<(), Error>(e) && final(self)@ == old(self)@,
            },
    {
        let ghost a = address as int;
        if address <= ROM_END {
            if address < self.mbc.len() {
                self.mbc.set(address, value);
            } else {
                return Err(Error::UnmappedAddress(address));
            }
        } else if address <= VRAM_END {
            self.vram.set(address - VRAM_START, value);
        } else if address <= EXRAM_END {
            return Err(Error::UnmappedAddress(address));
        } else if address <= WRAM_END {
            self.wram.set(address - WRAM_START, value);
        } else if address < OAM_START {
            return Err(Error::UnmappedAddress(address));
        } else if address <= OAM_END {
            self.oam.set(address - OAM_START, value);
        } else if address < GPIO_START {
            return Err(Error::UnmappedAddress(address));
        } else if address <= GPIO_END {
            self.gpio.set(address - GPIO_START, value);
        } else if address <= HRAM_END {
            self.hram.set(address - HRAM_START, value);
        } else if address == IE_REGISTER {
            self.ie = value;
        } else {
            return Err(Error::UnmappedAddress(address));
        }
        assert(self@ =~= old(self)@.insert(a, value));
        Ok(())
    }

    /// Whether a byte store backs `address`.
    pub fn is_mapped(&self, address: usize) -> (r: bool)
        requires
            self.wf(),
        ensures
            r == self@.contains_key(address as int),
    {
        self.get_word(address).is_ok()
    }

    /// Reads the little-endian 16-bit value at `address` and `address + 1`.
    pub fn get_dword(&self, address: usize) -> (r: Result<u16, Error>)
        requires
            self.wf(),
        ensures
            r == read16(self@, address as int),
    {
        let lo = self.get_word(address)?;
        let hi = self.get_word(address + 1)?;
        Ok(hi as u16 * 256 + lo as u16)
    }

    /// Writes `value` little-endian at `address` (low byte) and `address + 1`
    /// (high byte); nothing is written unless both addresses are backed.
    pub fn set_dword(&mut self, address: usize, value: u16) -> (r: Result<(), Error>)
        requires
            old(self).wf(),
        ensures
            final(self).wf(),
            match write16(old(self)@, address as int, value) {
                Ok(m) => r is Ok && final(self)@ == m,
                Err(e) => r == Err::<(), Error>(e) && final(self)@ == old(self)@,
            },
    {
        if !self.is_mapped(address) {
            return Err(Error::UnmappedAddress(address));
        }
        if !self.is_mapped(address + 1) {
            return Err(Error::UnmappedAddress(address + 1));
        }
        let _ = self.set_word(address, (value % 256) as u8);
        let _ = self.set_word(address + 1, (value / 256) as u8);
        Ok(())
    }
}

/// The regions tile the 16-bit address space in order: each starts one past
/// the end of the one before, holds every address between its start and its
/// end, and nothing lies past the last one.
pub proof fn lemma_region_layout(region: Region, a: int)
    ensures
        region_of(a) == Some(region) <==> region.start() <= a <= region.end(),
        region.next() matches Some(n) ==> n.start() == region.end() + 1 && region_of(
            region.end() + 1,
        ) == Some(n),
        region.next() is None ==> region_of(region.end() + 1) is None,
        0 <= a <= 0xFFFF <==> region_of(a) is Some,
        region.start() == 0 <==> region == Region::Cartridge,
{
}

/// Routing: every address of a backed region (within the image, for the
/// cartridge) can be written, and reading it back gives the byte written while
/// every other address keeps its byte; the reserved regions are unbacked.
pub proof fn lemma_write_read(mmu: &MMU, a: int, v: u8)
    requires
        mmu.wf(),
    ensures
        (region_of(a) matches Some(r) && r.is_backed() && (r == Region::Cartridge ==> a
            < mmu.cartridge_len())) <==> mmu@.contains_key(a),
        mmu@.contains_key(a) ==> (write8(mmu@, a, v) matches Ok(m) && read8(m, a) == Ok::<
            u8,
            Error,
        >(v) && forall|b: int| b != a ==> #[trigger] read8(m, b) == read8(mmu@, b)),
        !mmu@.contains_key(a) ==> write8(mmu@, a, v) == Err::<Memory, Error>(
            Error::UnmappedAddress(a as usize),
        ),
{
}

} // verus!
