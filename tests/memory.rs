use gbmu::cartridge::mbc0::MBC0;
use gbmu::error::Error;
use gbmu::mmu::MMU;

fn mmu() -> MMU {
    MMU::new(MBC0::new(vec![0u8; 0x8000]), false)
}

#[test]
fn write_then_read_in_every_region() {
    let mut m = mmu();
    for (start, end) in [
        (0x0000usize, 0x7FFFusize),
        (0x8000, 0x9FFF),
        (0xC000, 0xDFFF),
        (0xFE00, 0xFE9F),
        (0xFF00, 0xFF7F),
        (0xFF80, 0xFFFE),
        (0xFFFF, 0xFFFF),
    ] {
        for address in [start, start + (end - start) / 2, end] {
            let value = (address % 251) as u8 + 1;
            m.set_word(address, value).unwrap();
            assert_eq!(m.get_word(address), Ok(value), "address {:#x}", address);
        }
    }
}

#[test]
fn a_write_changes_only_its_address() {
    let mut m = mmu();
    m.set_word(0xC000, 7).unwrap();
    m.set_word(0xD000, 9).unwrap();
    assert_eq!(m.get_word(0xC000), Ok(7));
    assert_eq!(m.get_word(0xC001), Ok(0));
    assert_eq!(m.get_word(0xD000), Ok(9));
    assert_eq!(m.get_word(0x9000), Ok(0));
}

#[test]
fn region_boundaries_have_no_gap_but_reserved_ranges() {
    let mut m = mmu();
    for address in [0x7FFFusize, 0x8000, 0x9FFF, 0xC000, 0xDFFF, 0xFE00, 0xFE9F, 0xFF00, 0xFF7F, 0xFF80, 0xFFFE, 0xFFFF] {
        assert!(m.is_mapped(address), "address {:#x}", address);
    }
    for address in [0xA000usize, 0xBFFF, 0xE000, 0xFDFF, 0xFEA0, 0xFEFF, 0x10000] {
        assert!(!m.is_mapped(address), "address {:#x}", address);
        assert_eq!(m.get_word(address), Err(Error::UnmappedAddress(address)));
        assert_eq!(m.set_word(address, 1), Err(Error::UnmappedAddress(address)));
    }
}

#[test]
fn short_cartridge_leaves_the_rest_of_rom_unbacked() {
    let m = MMU::new(MBC0::new(vec![0xAB; 0x10]), false);
    assert_eq!(m.get_word(0x0F), Ok(0xAB));
    assert_eq!(m.get_word(0x10), Err(Error::UnmappedAddress(0x10)));
}

#[test]
fn sixteen_bit_access_is_little_endian() {
    let mut m = mmu();
    m.set_dword(0xC100, 0xBEEF).unwrap();
    assert_eq!(m.get_word(0xC100), Ok(0xEF));
    assert_eq!(m.get_word(0xC101), Ok(0xBE));
    assert_eq!(m.get_dword(0xC100), Ok(0xBEEF));
}

#[test]
fn sixteen_bit_write_across_the_end_writes_nothing() {
    let mut m = mmu();
    assert_eq!(m.set_dword(0xFFFF, 0x1234), Err(Error::UnmappedAddress(0x10000)));
    assert_eq!(m.get_word(0xFFFF), Ok(0));
    assert_eq!(m.set_dword(0xDFFF, 0x1234), Err(Error::UnmappedAddress(0xE000)));
    assert_eq!(m.get_word(0xDFFF), Ok(0));
    assert_eq!(m.get_dword(0x9FFF), Err(Error::UnmappedAddress(0xA000)));
}

#[test]
fn enhanced_mode_sizes_the_same_window() {
    let mut m = MMU::new(MBC0::new(vec![0u8; 0x8000]), true);
    m.set_word(0xDFFF, 5).unwrap();
    assert_eq!(m.get_word(0xDFFF), Ok(5));
    m.set_word(0x9FFF, 6).unwrap();
    assert_eq!(m.get_word(0x9FFF), Ok(6));
}
