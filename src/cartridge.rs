pub mod header;
pub mod mbc0;

use vstd::prelude::*;

use crate::error::Error;
use header::{CartridgeHeader, CARTRIDGE_TYPE_OFFSET, HEADER_END, HEADER_OFFSET, HEADER_SIZE};
use mbc0::MBC0;

verus! {

/// A loaded cartridge: its header and the controller over its ROM.
#[derive(Debug)]
pub struct Cartridge {
    pub header: CartridgeHeader,
    pub mbc: MBC0,
}

/// The ROM once the boot program has been laid over its start.
pub open spec fn overlaid(boot: Seq<u8>, rom: Seq<u8>) -> Seq<u8> {
    boot + rom.subrange(boot.len() as int, rom.len() as int)
}

impl Cartridge {
    /// The controller for `cartridge_type`. Only the fixed-mapping controller
    /// exists, so every type gets it.
    pub fn load_mbc(cartridge_type: u8, data: Vec<u8>) -> (r: MBC0)
        ensures
            r@ == data@,
    {
        match cartridge_type {
            0x00 => MBC0::new(data),
            _ => MBC0::new(data),
        }
    }

    /// Lays the power-up program `boot` over the start of `rom`; fails when
    /// `rom` is shorter than `boot`, leaving it unchanged.
    pub fn load_power_up(boot: &Vec<u8>, rom: &mut Vec<u8>) -> (r: Result<(), Error>)
        ensures
            old(rom)@.len() < boot@.len() ==> r == Err::<(), Error>(Error::InvalidRomSize)
                && final(rom)@ == old(rom)@,
            old(rom)@.len() >= boot@.len() ==> r is Ok && final(rom)@ == overlaid(
                boot@,
                old(rom)@,
            ),
    {
        if rom.len() < boot.len() {
            return Err(Error::InvalidRomSize);
        }
        let mut i: usize = 0;
        while i < boot.len()
            invariant
                i <= boot@.len() <= rom@.len(),
                rom@.len() == old(rom)@.len(),
                forall|j: int| 0 <= j < i ==> rom@[j] == boot@[j],
                forall|j: int| i <= j < rom@.len() ==> rom@[j] == old(rom)@[j],
            decreases boot.len() - i,
        {
            rom.set(i, boot[i]);
            i = i + 1;
        }
        assert(rom@ =~= overlaid(boot@, old(rom)@));
        Ok(())
    }

    /// A cartridge from a ROM image with the power-up program `boot` laid over
    /// its start; the header is read from the image.
    pub fn load_rom(rom: Vec<u8>, boot: &Vec<u8>) -> (r: Result<Cartridge, Error>)
        ensures
            rom@.len() < boot@.len() ==> r == Err::<Cartridge, Error>(Error::InvalidRomSize),
            boot@.len() <= rom@.len() <= HEADER_END ==> r == Err::<Cartridge, Error>(
                Error::TruncatedHeader,
            ),
            boot@.len() <= rom@.len() && rom@.len() > HEADER_END ==> (r matches Ok(c) && c.mbc@
                == overlaid(boot@, rom@) && c.header.parsed_from(
                overlaid(boot@, rom@).subrange(HEADER_OFFSET as int, rom@.len() as int),
            )),
    {
        let mut buffer = rom;
        Self::load_power_up(boot, &mut buffer)?;
        if buffer.len() <= HEADER_END {
            return Err(Error::TruncatedHeader);
        }
        let header = CartridgeHeader::from_bytes(slice_from(&buffer, HEADER_OFFSET))?;
        let cartridge_type = buffer[HEADER_OFFSET + CARTRIDGE_TYPE_OFFSET];
        Ok(Cartridge { header, mbc: Self::load_mbc(cartridge_type, buffer) })
    }
}

/// The bytes of `v` from `start` on.
fn slice_from(v: &Vec<u8>, start: usize) -> (r: &[u8])
    requires
        start <= v@.len(),
    ensures
        r@ == v@.subrange(start as int, v@.len() as int),
{
    vstd::slice::slice_subrange(v.as_slice(), start, v.len())
}

} // verus!
