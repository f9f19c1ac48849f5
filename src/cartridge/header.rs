use vstd::prelude::*;

use crate::error::Error;

verus! {

/// Offset of the header in the ROM image.
pub const HEADER_OFFSET: usize = 0x100;
/// Last byte of the header in the ROM image.
pub const HEADER_END: usize = 0x14F;
/// Number of bytes of the header.
pub const HEADER_SIZE: usize = 0x50;

// Offsets relative to the start of the header, and widths.
pub const ENTRY_POINT_OFFSET: usize = 0x0;
pub const ENTRY_POINT_WIDTH: usize = 0x4;
pub const NINTENDO_LOGO_OFFSET: usize = 0x4;
pub const NINTENDO_LOGO_WIDTH: usize = 0x30;
pub const TITLE_OFFSET: usize = 0x34;
pub const TITLE_WIDTH: usize = 0x10;
pub const MANUFACTURER_CODE_OFFSET: usize = 0x3F;
pub const MANUFACTURER_CODE_WIDTH: usize = 0x1;
pub const CGB_FLAG_OFFSET: usize = 0x43;
pub const CGB_FLAG_WIDTH: usize = 0x1;
pub const NEW_LICENSEE_CODE_OFFSET: usize = 0x44;
pub const NEW_LICENSEE_CODE_WIDTH: usize = 0x2;
pub const SGB_FLAG_OFFSET: usize = 0x46;
pub const SGB_FLAG_WIDTH: usize = 0x1;
pub const CARTRIDGE_TYPE_OFFSET: usize = 0x47;
pub const CARTRIDGE_TYPE_WIDTH: usize = 0x1;
pub const ROM_SIZE_OFFSET: usize = 0x48;
pub const ROM_SIZE_WIDTH: usize = 0x1;
pub const RAM_SIZE_OFFSET: usize = 0x49;
pub const RAM_SIZE_WIDTH: usize = 0x1;
pub const DESTINATION_CODE_OFFSET: usize = 0x4A;
pub const DESTINATION_CODE_WIDTH: usize = 0x1;
pub const OLD_LICENSEE_CODE_OFFSET: usize = 0x4B;
pub const OLD_LICENSEE_CODE_WIDTH: usize = 0x1;
pub const MASK_ROM_VERSION_OFFSET: usize = 0x4C;
pub const MASK_ROM_VERSION_WIDTH: usize = 0x1;
pub const HEADER_CHECKSUM_OFFSET: usize = 0x4D;
pub const HEADER_CHECKSUM_WIDTH: usize = 0x1;
pub const GLOBAL_CHECKSUM_OFFSET: usize = 0x4E;
pub const GLOBAL_CHECKSUM_WIDTH: usize = 0x2;

/// The cartridge header, field by field, as raw bytes. The title field spans
/// the manufacturer code and the enhanced-mode flag.
#[derive(Debug)]
pub struct CartridgeHeader {
    pub entry_point: Vec<u8>,
    pub nintendo_logo: Vec<u8>,
    pub title: Vec<u8>,
    pub new_licensee_code: Vec<u8>,
    pub sgb_flag: Vec<u8>,
    pub cartridge_type: Vec<u8>,
    pub rom_size: Vec<u8>,
    pub ram_size: Vec<u8>,
    pub destination_code: Vec<u8>,
    pub old_licensee_code: Vec<u8>,
    pub mask_rom_version: Vec<u8>,
    pub header_checksum: Vec<u8>,
    pub global_checksum: Vec<u8>,
}

/// The `width` bytes of `bytes` from `offset`.
pub open spec fn field(bytes: Seq<u8>, offset: usize, width: usize) -> Seq<u8> {
    bytes.subrange(offset as int, offset + width)
}

impl CartridgeHeader {
    /// Every field holds the bytes at its offset in `bytes`.
    pub open spec fn parsed_from(&self, bytes: Seq<u8>) -> bool {
        &&& self.entry_point@ == field(bytes, ENTRY_POINT_OFFSET, ENTRY_POINT_WIDTH)
        &&& self.nintendo_logo@ == field(bytes, NINTENDO_LOGO_OFFSET, NINTENDO_LOGO_WIDTH)
        &&& self.title@ == field(bytes, TITLE_OFFSET, TITLE_WIDTH)
        &&& self.new_licensee_code@ == field(
            bytes,
            NEW_LICENSEE_CODE_OFFSET,
            NEW_LICENSEE_CODE_WIDTH,
        )
        &&& self.sgb_flag@ == field(bytes, SGB_FLAG_OFFSET, SGB_FLAG_WIDTH)
        &&& self.cartridge_type@ == field(bytes, CARTRIDGE_TYPE_OFFSET, CARTRIDGE_TYPE_WIDTH)
        &&& self.rom_size@ == field(bytes, ROM_SIZE_OFFSET, ROM_SIZE_WIDTH)
        &&& self.ram_size@ == field(bytes, RAM_SIZE_OFFSET, RAM_SIZE_WIDTH)
        &&& self.destination_code@ == field(bytes, DESTINATION_CODE_OFFSET, DESTINATION_CODE_WIDTH)
        &&& self.old_licensee_code@ == field(
            bytes,
            OLD_LICENSEE_CODE_OFFSET,
            OLD_LICENSEE_CODE_WIDTH,
        )
        &&& self.mask_rom_version@ == field(bytes, MASK_ROM_VERSION_OFFSET, MASK_ROM_VERSION_WIDTH)
        &&& self.header_checksum@ == field(bytes, HEADER_CHECKSUM_OFFSET, HEADER_CHECKSUM_WIDTH)
        &&& self.global_checksum@ == field(bytes, GLOBAL_CHECKSUM_OFFSET, GLOBAL_CHECKSUM_WIDTH)
    }

    /// Reads a header laid out at the start of `bytes`; fails when fewer than
    /// `HEADER_SIZE` bytes are given.
    pub fn from_bytes(bytes: &[u8]) -> (r: Result<Self, Error>)
        ensures
            bytes@.len() < HEADER_SIZE ==> r == Err::<Self, Error>(Error::TruncatedHeader),
            bytes@.len() >= HEADER_SIZE ==> (r matches Ok(h) && h.parsed_from(bytes@)),
    {
        if bytes.len() < HEADER_SIZE {
            return Err(Error::TruncatedHeader);
        }
        Ok(CartridgeHeader {
            entry_point: copy_field(bytes, ENTRY_POINT_OFFSET, ENTRY_POINT_WIDTH),
            nintendo_logo: copy_field(bytes, NINTENDO_LOGO_OFFSET, NINTENDO_LOGO_WIDTH),
            title: copy_field(bytes, TITLE_OFFSET, TITLE_WIDTH),
            new_licensee_code: copy_field(bytes, NEW_LICENSEE_CODE_OFFSET, NEW_LICENSEE_CODE_WIDTH),
            sgb_flag: copy_field(bytes, SGB_FLAG_OFFSET, SGB_FLAG_WIDTH),
            cartridge_type: copy_field(bytes, CARTRIDGE_TYPE_OFFSET, CARTRIDGE_TYPE_WIDTH),
            rom_size: copy_field(bytes, ROM_SIZE_OFFSET, ROM_SIZE_WIDTH),
            ram_size: copy_field(bytes, RAM_SIZE_OFFSET, RAM_SIZE_WIDTH),
            destination_code: copy_field(bytes, DESTINATION_CODE_OFFSET, DESTINATION_CODE_WIDTH),
            old_licensee_code: copy_field(bytes, OLD_LICENSEE_CODE_OFFSET, OLD_LICENSEE_CODE_WIDTH),
            mask_rom_version: copy_field(bytes, MASK_ROM_VERSION_OFFSET, MASK_ROM_VERSION_WIDTH),
            header_checksum: copy_field(bytes, HEADER_CHECKSUM_OFFSET, HEADER_CHECKSUM_WIDTH),
            global_checksum: copy_field(bytes, GLOBAL_CHECKSUM_OFFSET, GLOBAL_CHECKSUM_WIDTH),
        })
    }
}

/// A copy of the `width` bytes of `bytes` from `offset`.
fn copy_field(bytes: &[u8], offset: usize, width: usize) -> (r: Vec<u8>)
    requires
        offset + width <= bytes@.len(),
    ensures
        r@ == field(bytes@, offset, width),
{
    let mut r: Vec<u8> = Vec::with_capacity(width);
    let mut i: usize = 0;
    let len = bytes.len();
    while i < width
        invariant
            i <= width,
            offset + width <= bytes@.len(),
            len == bytes@.len(),
            r@ == bytes@.subrange(offset as int, offset + i),
        decreases width - i,
    {
        r.push(bytes[offset + i]);
        i = i + 1;
        assert(r@ =~= bytes@.subrange(offset as int, offset + i));
    }
    r
}

} // verus!
