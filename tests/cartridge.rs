use gbmu::cartridge::header::CartridgeHeader;
use gbmu::cartridge::Cartridge;
use gbmu::error::Error;

fn rom_with_header() -> Vec<u8> {
    let mut rom = vec![0u8; 0x8000];
    rom[0x100..0x104].copy_from_slice(&[0x00, 0xC3, 0x50, 0x01]);
    rom[0x134..0x139].copy_from_slice(b"TETRI");
    rom[0x147] = 0x00;
    rom[0x148] = 0x01;
    rom[0x14D] = 0x42;
    rom[0x14E] = 0xAA;
    rom[0x14F] = 0xBB;
    rom
}

#[test]
fn header_fields_are_read_at_their_offsets() {
    let rom = rom_with_header();
    let h = CartridgeHeader::from_bytes(&rom[0x100..0x150]).unwrap();
    assert_eq!(h.entry_point, vec![0x00, 0xC3, 0x50, 0x01]);
    assert_eq!(&h.title[0..5], b"TETRI");
    assert_eq!(h.title.len(), 16);
    assert_eq!(h.nintendo_logo.len(), 0x30);
    assert_eq!(h.cartridge_type, vec![0x00]);
    assert_eq!(h.rom_size, vec![0x01]);
    assert_eq!(h.header_checksum, vec![0x42]);
    assert_eq!(h.global_checksum, vec![0xAA, 0xBB]);
}

#[test]
fn short_header_is_refused() {
    let bytes = vec![0u8; 0x4F];
    assert!(matches!(CartridgeHeader::from_bytes(&bytes), Err(Error::TruncatedHeader)));
}

#[test]
fn power_up_program_is_laid_over_the_rom() {
    let boot = vec![0x31u8, 0xFE, 0xFF];
    let mut rom = vec![0x11u8; 8];
    assert_eq!(Cartridge::load_power_up(&boot, &mut rom), Ok(()));
    assert_eq!(rom, vec![0x31, 0xFE, 0xFF, 0x11, 0x11, 0x11, 0x11, 0x11]);
}

#[test]
fn power_up_program_longer_than_rom_is_refused() {
    let boot = vec![1u8; 4];
    let mut rom = vec![0u8; 3];
    assert_eq!(Cartridge::load_power_up(&boot, &mut rom), Err(Error::InvalidRomSize));
    assert_eq!(rom, vec![0u8; 3]);
}

#[test]
fn load_rom_builds_header_and_controller() {
    let boot = vec![0xAAu8; 0x100];
    let c = Cartridge::load_rom(rom_with_header(), &boot).unwrap();
    assert_eq!(c.mbc.len(), 0x8000);
    assert_eq!(c.mbc.get(0x00), 0xAA);
    assert_eq!(c.mbc.get(0x101), 0xC3);
    assert_eq!(c.header.rom_size, vec![0x01]);
}

#[test]
fn load_rom_refuses_truncated_images() {
    let boot = vec![0u8; 0x100];
    assert!(matches!(Cartridge::load_rom(vec![0u8; 0x120], &boot), Err(Error::TruncatedHeader)));
    assert!(matches!(Cartridge::load_rom(vec![0u8; 0x20], &boot), Err(Error::InvalidRomSize)));
}

#[test]
fn every_cartridge_type_gets_the_fixed_controller() {
    let m = Cartridge::load_mbc(0x13, vec![1, 2, 3]);
    assert_eq!(m.rom(), &vec![1u8, 2, 3]);
}
