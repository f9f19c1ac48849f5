use gbmu::cartridge::mbc0::MBC0;
use gbmu::cartridge::Cartridge;
use gbmu::error;
use gbmu::error::Error;
use gbmu::game_data::{
    create_instructions_list, instruction_size, parse_opcode_key, printable, GameData, RunStatus,
};
use gbmu::gameboy::Gameboy;
use gbmu::lcd::{LCD, GAMEBOY_SCREEN_HEIGHT, GAMEBOY_SCREEN_WIDTH};
use gbmu::mmu::MMU;
use gbmu::ppu::{tile_row, LY_REGISTER, PPU};

fn gameboy(program: &[u8]) -> Gameboy {
    let mut rom = vec![0u8; 0x8000];
    rom[0x100..0x100 + program.len()].copy_from_slice(program);
    let boot = vec![0u8; 0x100];
    let mut image = rom;
    image[0x147] = 0;
    Gameboy::new(Cartridge::load_rom(image, &boot).unwrap())
}

#[test]
fn breakpoints_toggle() {
    let mut g = GameData::new(gameboy(&[]));
    g.toggle_breakpoint(0x150);
    assert!(g.breakpoints.contains(&0x150));
    g.toggle_breakpoint(0x150);
    assert!(!g.breakpoints.contains(&0x150));
}

#[test]
fn waiting_session_does_nothing() {
    let mut g = GameData::new(gameboy(&[0x00]));
    assert_eq!(g.update(10), Ok(()));
    assert_eq!(g.gameboy.cpu.registers.pc, 0x100);
    assert_eq!(g.run_status, RunStatus::Waiting);
}

#[test]
fn running_session_stops_at_breakpoint() {
    let mut g = GameData::new(gameboy(&[0x00, 0x00, 0x00]));
    g.toggle_breakpoint(0x102);
    g.start();
    assert_eq!(g.update(1), Ok(()));
    assert_eq!(g.run_status, RunStatus::Running);
    assert_eq!(g.update(100), Ok(()));
    assert_eq!(g.gameboy.cpu.registers.pc, 0x102);
    assert_eq!(g.run_status, RunStatus::Waiting);
    assert_eq!(g.step_once(), Ok(()));
    assert_eq!(g.gameboy.cpu.registers.pc, 0x103);
}

#[test]
fn failing_session_goes_back_to_waiting() {
    let mut g = GameData::new(gameboy(&[0xFC]));
    g.start();
    assert_eq!(g.update(5), Err(Error::UnsupportedInstruction(0xFC)));
    assert_eq!(g.run_status, RunStatus::Waiting);
}

#[test]
fn line_register_advances_once_per_line_and_wraps() {
    let mut mmu = MMU::new(MBC0::new(vec![0u8; 0x8000]), false);
    let mut ppu = PPU::new();
    assert_eq!(ppu.run(&mut mmu), Ok(true));
    assert_eq!(mmu.get_word(LY_REGISTER), Ok(1));
    for _ in 0..455 {
        assert_eq!(ppu.run(&mut mmu), Ok(false));
    }
    assert_eq!(ppu.run(&mut mmu), Ok(true));
    assert_eq!(mmu.get_word(LY_REGISTER), Ok(2));
    mmu.set_word(LY_REGISTER, 153).unwrap();
    for _ in 0..455 {
        ppu.run(&mut mmu).unwrap();
    }
    assert_eq!(ppu.run(&mut mmu), Ok(true));
    assert_eq!(mmu.get_word(LY_REGISTER), Ok(0));
}

#[test]
fn tile_row_shades() {
    assert_eq!(tile_row(0xFF00), b"########".to_vec());
    assert_eq!(tile_row(0x00FF), b"........".to_vec());
    assert_eq!(tile_row(0x8001), b"#      .".to_vec());
    assert_eq!(tile_row(0xC0C0), b"@@      ".to_vec());
}

#[test]
fn blank_screen() {
    let lcd = LCD::new();
    assert_eq!(lcd.pixel(0, 0), (0, 0, 0));
    assert_eq!(lcd.pixel(GAMEBOY_SCREEN_WIDTH - 1, GAMEBOY_SCREEN_HEIGHT - 1), (0, 0, 0));
    assert_eq!(lcd.image.len(), GAMEBOY_SCREEN_WIDTH);
    assert!(lcd.image.iter().all(|column| column.len() == GAMEBOY_SCREEN_HEIGHT));
}

#[test]
fn error_constructors() {
    assert_eq!(error::invalid_argument(), Error::InvalidArgument);
    assert_eq!(error::unsupported_instruction(0xD3), Error::UnsupportedInstruction(0xD3));
    assert_eq!(error::invalid_r8_code(8), Error::InvalidRegisterCode(8));
    assert_eq!(error::invalid_r16_code(4), Error::InvalidPairCode(4));
    assert_eq!(error::invalid_instruction_type(), Error::InvalidInstructionType);
    assert_eq!(error::invalid_condition_code(4), Error::InvalidConditionCode(4));
    assert_eq!(error::invalid_flag(), Error::InvalidFlag);
    assert_eq!(error::invalid_opcode(0xFF), Error::InvalidOpcode(0xFF));
    assert_eq!(error::invalid_address(0xE000), Error::UnmappedAddress(0xE000));
    assert_eq!(error::invalid_rom_size(), Error::InvalidRomSize);
}

#[test]
fn instruction_sizes_follow_the_opcode_layout() {
    assert_eq!(instruction_size(0x00), 1);
    assert_eq!(instruction_size(0x01), 3);
    assert_eq!(instruction_size(0x08), 3);
    assert_eq!(instruction_size(0x3E), 2);
    assert_eq!(instruction_size(0x18), 2);
    assert_eq!(instruction_size(0x28), 2);
    assert_eq!(instruction_size(0x41), 1);
    assert_eq!(instruction_size(0x86), 1);
    assert_eq!(instruction_size(0xC3), 3);
    assert_eq!(instruction_size(0xCA), 3);
    assert_eq!(instruction_size(0xCD), 3);
    assert_eq!(instruction_size(0xCB), 2);
    assert_eq!(instruction_size(0xE0), 2);
    assert_eq!(instruction_size(0xE2), 1);
    assert_eq!(instruction_size(0xEA), 3);
    assert_eq!(instruction_size(0xFE), 2);
    assert_eq!(instruction_size(0xC9), 1);
}

#[test]
fn instruction_list_walks_the_rom() {
    let rom = vec![0x3E, 0x05, 0xC6, 0x03, 0x28, 0x90, 0xCB, 0x11, 0x00, 0xC3, 0x00];
    assert_eq!(create_instructions_list(&rom), vec![0, 2, 4, 6, 8, 9]);
    assert_eq!(create_instructions_list(&Vec::new()), Vec::<usize>::new());
}

#[test]
fn ram_dump_line() {
    let mut g = GameData::new(gameboy(&[0x41, 0x00, 0x7E]));
    let line = g.ram_line(0x100).unwrap();
    assert_eq!(line.len(), 16);
    assert_eq!(&line[0..3], &[0x41, 0x00, 0x7E]);
    assert_eq!(printable(line[0]), b'A');
    assert_eq!(printable(line[1]), b'.');
    assert_eq!(printable(b' '), b'.');
    assert_eq!(printable(0x7F), b'.');
    assert!(g.ram_line(0x9FF8).is_none());
    g.gameboy.mmu.set_word(0xC000, 0x5A).unwrap();
    assert_eq!(g.ram_line(0xC000).unwrap()[0], 0x5A);
}

#[test]
fn opcode_table_keys() {
    assert_eq!(parse_opcode_key(b"0x3E"), Some(0x3E));
    assert_eq!(parse_opcode_key(b"0xcb"), Some(0xCB));
    assert_eq!(parse_opcode_key(b"0X00"), Some(0x00));
    assert_eq!(parse_opcode_key(b"0xG0"), None);
    assert_eq!(parse_opcode_key(b"3E"), None);
    assert_eq!(parse_opcode_key(b"0x3E0"), None);
}
