use gbmu::cartridge::mbc0::MBC0;
use gbmu::cpu::instructions::alu::alu;
use gbmu::cpu::registers::{Flags, Registers};
use gbmu::error::Error;
use gbmu::mmu::MMU;

fn mmu() -> MMU {
    MMU::new(MBC0::new(vec![0u8; 0x8000]), false)
}

#[test]
fn power_on_state() {
    let r = Registers::new();
    assert_eq!(r.pc, 0x0100);
    assert_eq!(r.sp, 0);
    assert_eq!(r.get_af(), 0);
    assert_eq!(r.get_bc(), 0);
}

#[test]
fn pair_round_trip_general_table() {
    for code in 0..4u8 {
        for v in [0u16, 1, 0x00FF, 0x1234, 0xFF00, 0xFFFF] {
            let mut r = Registers::new();
            r.set_dword(code, v).unwrap();
            assert_eq!(r.get_dword(code), Ok(v));
        }
    }
}

#[test]
fn pair_round_trip_stack_table() {
    for code in 0..3u8 {
        let mut r = Registers::new();
        r.set_dword_stk(code, 0xBEEF).unwrap();
        assert_eq!(r.get_dword_stk(code), Ok(0xBEEF));
    }
    let mut r = Registers::new();
    r.set_dword_stk(3, 0x12FF).unwrap();
    assert_eq!(r.get_dword_stk(3), Ok(0x12F0));
    assert_eq!(r.a, 0x12);
    assert!(r.zero && r.subtract && r.half_carry && r.carry);
}

#[test]
fn pair_halves() {
    let mut r = Registers::new();
    r.set_bc(0xABCD);
    assert_eq!((r.b, r.c), (0xAB, 0xCD));
    r.set_de(0x0102);
    assert_eq!((r.d, r.e), (0x01, 0x02));
    r.set_hl(0xFF00);
    assert_eq!((r.h, r.l), (0xFF, 0x00));
    let mut m = mmu();
    r.set_word(0, 0x12, &mut m).unwrap();
    r.set_word(1, 0x34, &mut m).unwrap();
    assert_eq!(r.get_bc(), 0x1234);
}

#[test]
fn byte_round_trip_and_memory_operand() {
    let mut m = mmu();
    let mut r = Registers::new();
    for code in [0u8, 1, 2, 3, 4, 5, 7] {
        r.set_word(code, 0x40 + code, &mut m).unwrap();
        assert_eq!(r.get_word(code, &m), Ok(0x40 + code));
    }
    r.set_hl(0xC123);
    r.set_word(6, 0x99, &mut m).unwrap();
    assert_eq!(m.get_word(0xC123), Ok(0x99));
    assert_eq!(r.get_word(6, &m), Ok(0x99));
}

#[test]
fn invalid_codes() {
    let mut m = mmu();
    let mut r = Registers::new();
    assert_eq!(r.get_word(8, &m), Err(Error::InvalidRegisterCode(8)));
    assert_eq!(r.set_word(9, 1, &mut m), Err(Error::InvalidRegisterCode(9)));
    assert_eq!(r.get_dword(4), Err(Error::InvalidPairCode(4)));
    assert_eq!(r.set_dword(4, 1), Err(Error::InvalidPairCode(4)));
    assert_eq!(r.get_dword_stk(5), Err(Error::InvalidPairCode(5)));
    assert_eq!(r.set_dword_stk(5, 1), Err(Error::InvalidPairCode(5)));
}

#[test]
fn memory_operand_at_unbacked_address() {
    let mut m = mmu();
    let mut r = Registers::new();
    r.set_hl(0xE000);
    assert_eq!(r.get_word(6, &m), Err(Error::UnmappedAddress(0xE000)));
    assert_eq!(r.set_word(6, 1, &mut m), Err(Error::UnmappedAddress(0xE000)));
}

#[test]
fn flags_and_half_carry_helper() {
    let mut r = Registers::new();
    r.set_flags(Flags::C, true);
    r.set_flags(Flags::Z, true);
    assert!(r.get_flag(Flags::C) && r.get_flag(Flags::Z));
    assert_eq!(r.get_f(), 0x90);
    r.set_h_flag(0x0F, 0x01);
    assert!(r.get_flag(Flags::H));
    r.set_h_flag(0x07, 0x08);
    assert!(!r.get_flag(Flags::H));
    r.reset_flags();
    assert_eq!(r.get_f(), 0);
}

fn alu_on(opcode: u8, a: u8, operand: u8, carry: bool) -> Registers {
    let mut r = Registers::new();
    r.a = a;
    r.carry = carry;
    alu(opcode, operand, &mut r).unwrap();
    r
}

#[test]
fn add_family_results_and_flags() {
    let r = alu_on(0x80, 0x3A, 0xC6, false);
    assert_eq!(r.a, 0x00);
    assert!(r.zero && r.half_carry && r.carry && !r.subtract);
    let r = alu_on(0x88, 0xE1, 0x0F, true);
    assert_eq!(r.a, 0xF1);
    assert!(!r.zero && r.half_carry && !r.carry && !r.subtract);
    let r = alu_on(0x80, 0x01, 0x02, true);
    assert_eq!(r.a, 0x03);
    assert!(!r.carry);
}

#[test]
fn sub_family_results_and_flags() {
    let r = alu_on(0x90, 0x3E, 0x3E, false);
    assert_eq!(r.a, 0);
    assert!(r.zero && r.subtract && !r.half_carry && !r.carry);
    let r = alu_on(0x90, 0x3E, 0x40, false);
    assert_eq!(r.a, 0xFE);
    assert!(!r.zero && r.subtract && !r.half_carry && r.carry);
    let r = alu_on(0x98, 0x3B, 0x2A, true);
    assert_eq!(r.a, 0x10);
    assert!(!r.zero && r.subtract && !r.half_carry && !r.carry);
    let r = alu_on(0x98, 0x00, 0x00, true);
    assert_eq!(r.a, 0xFF);
    assert!(r.half_carry && r.carry);
}

#[test]
fn compare_keeps_accumulator() {
    for (a, b) in [(0x3Cu8, 0x2Fu8), (0x3C, 0x3C), (0x3C, 0x40)] {
        let cp = alu_on(0xB8, a, b, true);
        let sub = alu_on(0x90, a, b, true);
        assert_eq!(cp.a, a);
        assert_eq!(cp.get_f(), sub.get_f());
    }
}

#[test]
fn bitwise_operations() {
    let r = alu_on(0xA0, 0x5A, 0x3F, true);
    assert_eq!(r.a, 0x1A);
    assert_eq!(r.get_f(), 0x20);
    let r = alu_on(0xA8, 0x5A, 0x5A, true);
    assert_eq!(r.a, 0);
    assert_eq!(r.get_f(), 0x80);
    let r = alu_on(0xB0, 0x50, 0x0A, true);
    assert_eq!(r.a, 0x5A);
    assert_eq!(r.get_f(), 0x00);
}
