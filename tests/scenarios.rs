use gbmu::cartridge::mbc0::MBC0;
use gbmu::cpu::CPU;
use gbmu::error::Error;
use gbmu::mmu::MMU;

fn machine(program: &[u8]) -> (CPU, MMU) {
    let mut rom = vec![0u8; 0x8000];
    rom[0x100..0x100 + program.len()].copy_from_slice(program);
    (CPU::new(), MMU::new(MBC0::new(rom), false))
}

fn run(cpu: &mut CPU, mmu: &mut MMU, steps: usize) {
    for _ in 0..steps {
        cpu.step(mmu).unwrap();
    }
}

#[test]
fn load_add_then_jump_if_zero_not_taken() {
    let (mut cpu, mut mmu) = machine(&[0x3E, 0x05, 0xC6, 0x03, 0x28, 0x90]);
    run(&mut cpu, &mut mmu, 3);
    assert_eq!(cpu.registers.a, 8);
    assert!(!cpu.registers.zero);
    assert_eq!(cpu.registers.pc, 0x106);
}

#[test]
fn xor_a_clears_accumulator_and_sets_only_zero() {
    let (mut cpu, mut mmu) = machine(&[0x3E, 0x5A, 0x37, 0xAF]);
    run(&mut cpu, &mut mmu, 3);
    assert_eq!(cpu.registers.a, 0);
    assert!(cpu.registers.zero);
    assert!(!cpu.registers.subtract);
    assert!(!cpu.registers.half_carry);
    assert!(!cpu.registers.carry);
    assert_eq!(cpu.registers.get_f(), 0x80);
}

#[test]
fn push_bc_pop_de_copies_pair() {
    // LD SP, 0xFFFE; LD BC, 0x1234; PUSH BC; POP DE
    let (mut cpu, mut mmu) = machine(&[0x31, 0xFE, 0xFF, 0x01, 0x34, 0x12, 0xC5, 0xD1]);
    run(&mut cpu, &mut mmu, 2);
    let sp_before = cpu.registers.sp;
    run(&mut cpu, &mut mmu, 1);
    assert_eq!(cpu.registers.sp, sp_before - 2);
    run(&mut cpu, &mut mmu, 1);
    assert_eq!(cpu.registers.get_de(), 0x1234);
    assert_eq!(cpu.registers.get_bc(), 0x1234);
    assert_eq!(cpu.registers.sp, sp_before);
}

#[test]
fn relative_jump_taken_moves_by_displacement_minus_128() {
    // XOR A sets zero; JR Z with byte 0x85 jumps 5 past the operand.
    let (mut cpu, mut mmu) = machine(&[0xAF, 0x28, 0x85]);
    run(&mut cpu, &mut mmu, 2);
    assert_eq!(cpu.registers.pc, 0x103 + 5);
}

#[test]
fn relative_jump_backwards_and_unconditional() {
    let (mut cpu, mut mmu) = machine(&[0x18, 0x7E]);
    run(&mut cpu, &mut mmu, 1);
    assert_eq!(cpu.registers.pc, 0x102 - 2);
}

#[test]
fn relative_jump_not_taken_consumes_operand() {
    for opcode in [0x20u8, 0x28, 0x30, 0x38] {
        let (mut cpu, mut mmu) = machine(&[0x37, opcode, 0xFF]);
        // SCF sets carry; zero is clear.
        run(&mut cpu, &mut mmu, 2);
        let taken = match opcode {
            0x20 => true,
            0x28 => false,
            0x30 => false,
            _ => true,
        };
        let expected: u16 = if taken { 0x103 + 0x7F } else { 0x103 };
        assert_eq!(cpu.registers.pc, expected, "opcode {:#x}", opcode);
    }
}

#[test]
fn call_and_return() {
    // LD SP, 0xFFFE; CALL 0x0200; at 0x200: LD A, 0x42; RET
    let mut rom = vec![0u8; 0x8000];
    rom[0x100..0x106].copy_from_slice(&[0x31, 0xFE, 0xFF, 0xCD, 0x00, 0x02]);
    rom[0x200..0x203].copy_from_slice(&[0x3E, 0x42, 0xC9]);
    let mut mmu = MMU::new(MBC0::new(rom), false);
    let mut cpu = CPU::new();
    run(&mut cpu, &mut mmu, 2);
    assert_eq!(cpu.registers.pc, 0x200);
    assert_eq!(cpu.registers.sp, 0xFFFC);
    assert_eq!(mmu.get_dword(0xFFFC), Ok(0x106));
    run(&mut cpu, &mut mmu, 2);
    assert_eq!(cpu.registers.a, 0x42);
    assert_eq!(cpu.registers.pc, 0x106);
    assert_eq!(cpu.registers.sp, 0xFFFE);
}

#[test]
fn reti_enables_interrupts_and_ei_di_toggle() {
    // LD SP, 0xFFFC; DI; EI; DI; and at 0xFFFC the return address 0x0150.
    let (mut cpu, mut mmu) = machine(&[0x31, 0xFC, 0xFF, 0xFB, 0xF3, 0xD9]);
    mmu.set_dword(0xFFFC, 0x0150).unwrap();
    run(&mut cpu, &mut mmu, 2);
    assert!(cpu.ime);
    run(&mut cpu, &mut mmu, 1);
    assert!(!cpu.ime);
    run(&mut cpu, &mut mmu, 1);
    assert!(cpu.ime);
    assert_eq!(cpu.registers.pc, 0x150);
    assert_eq!(cpu.registers.sp, 0xFFFE);
}

#[test]
fn unsupported_opcode_is_an_error() {
    let (mut cpu, mut mmu) = machine(&[0xD3]);
    assert_eq!(cpu.step(&mut mmu), Err(Error::UnsupportedInstruction(0xD3)));
    let (mut cpu, mut mmu) = machine(&[0x76]);
    assert_eq!(cpu.step(&mut mmu), Err(Error::UnsupportedInstruction(0x76)));
    let (mut cpu, mut mmu) = machine(&[0x10]);
    assert_eq!(cpu.step(&mut mmu), Err(Error::UnsupportedInstruction(0x10)));
}

#[test]
fn fetch_from_unbacked_address_fails() {
    let (mut cpu, mut mmu) = machine(&[]);
    cpu.registers.pc = 0xA000;
    assert_eq!(cpu.step(&mut mmu), Err(Error::UnmappedAddress(0xA000)));
}

#[test]
fn run_stops_at_breakpoint() {
    let (mut cpu, mut mmu) = machine(&[0x00, 0x00, 0x00, 0x00, 0x00]);
    let mut breakpoints = std::collections::HashSet::new();
    breakpoints.insert(0x103u16);
    assert_eq!(cpu.run(&mut mmu, &breakpoints, 100), Ok(3));
    assert_eq!(cpu.registers.pc, 0x103);
    assert_eq!(cpu.run(&mut mmu, &std::collections::HashSet::new(), 2), Ok(2));
    assert_eq!(cpu.registers.pc, 0x105);
}

#[test]
fn run_reports_failure() {
    let (mut cpu, mut mmu) = machine(&[0x00, 0xDB]);
    let breakpoints = std::collections::HashSet::new();
    assert_eq!(cpu.run(&mut mmu, &breakpoints, 10), Err(Error::UnsupportedInstruction(0xDB)));
}

#[test]
fn sixteen_bit_loads_and_memory_through_pointers() {
    // LD HL, 0xC000; LD A, 0x11; LD (HL+), A; LD (HL-), A; LD A, (HL+)
    let (mut cpu, mut mmu) = machine(&[0x21, 0x00, 0xC0, 0x3E, 0x11, 0x22, 0x32, 0x2A]);
    run(&mut cpu, &mut mmu, 3);
    assert_eq!(mmu.get_word(0xC000), Ok(0x11));
    assert_eq!(cpu.registers.get_hl(), 0xC001);
    run(&mut cpu, &mut mmu, 1);
    assert_eq!(mmu.get_word(0xC001), Ok(0x11));
    assert_eq!(cpu.registers.get_hl(), 0xC000);
    run(&mut cpu, &mut mmu, 1);
    assert_eq!(cpu.registers.a, 0x11);
    assert_eq!(cpu.registers.get_hl(), 0xC001);
}

#[test]
fn store_stack_pointer_and_high_page_loads() {
    // LD SP, 0xBEEF; LD (0xC010), SP; LD A, 0x77; LDH (0x80), A; LD C, 0x81; LDH (C), A; LDH A, (0x80)
    let (mut cpu, mut mmu) = machine(&[
        0x31, 0xEF, 0xBE, 0x08, 0x10, 0xC0, 0x3E, 0x77, 0xE0, 0x80, 0x0E, 0x81, 0xE2, 0x3E, 0x00,
        0xF0, 0x80,
    ]);
    run(&mut cpu, &mut mmu, 2);
    assert_eq!(mmu.get_word(0xC010), Ok(0xEF));
    assert_eq!(mmu.get_word(0xC011), Ok(0xBE));
    run(&mut cpu, &mut mmu, 4);
    assert_eq!(mmu.get_word(0xFF80), Ok(0x77));
    assert_eq!(mmu.get_word(0xFF81), Ok(0x77));
    run(&mut cpu, &mut mmu, 2);
    assert_eq!(cpu.registers.a, 0x77);
}

#[test]
fn inc_dec_r8_flags() {
    // LD B, 0x0F; INC B; LD C, 0x01; DEC C
    let (mut cpu, mut mmu) = machine(&[0x06, 0x0F, 0x04, 0x0E, 0x01, 0x0D]);
    run(&mut cpu, &mut mmu, 2);
    assert_eq!(cpu.registers.b, 0x10);
    assert!(cpu.registers.half_carry);
    assert!(!cpu.registers.subtract);
    run(&mut cpu, &mut mmu, 2);
    assert_eq!(cpu.registers.c, 0);
    assert!(cpu.registers.zero);
    assert!(cpu.registers.subtract);
    assert!(!cpu.registers.half_carry);
}

#[test]
fn inc_dec_r16_wrap_and_add_hl() {
    // LD BC, 0xFFFF; INC BC; DEC BC; LD HL, 0x0FFF; LD DE, 0x0001; ADD HL, DE
    let (mut cpu, mut mmu) =
        machine(&[0x01, 0xFF, 0xFF, 0x03, 0x0B, 0x21, 0xFF, 0x0F, 0x11, 0x01, 0x00, 0x19]);
    run(&mut cpu, &mut mmu, 2);
    assert_eq!(cpu.registers.get_bc(), 0);
    run(&mut cpu, &mut mmu, 1);
    assert_eq!(cpu.registers.get_bc(), 0xFFFF);
    run(&mut cpu, &mut mmu, 3);
    assert_eq!(cpu.registers.get_hl(), 0x1000);
    assert!(cpu.registers.half_carry);
    assert!(!cpu.registers.carry);
}

#[test]
fn decimal_adjust_after_addition_and_subtraction() {
    // LD A, 0x15; ADD A, 0x27; DAA  => 0x42
    let (mut cpu, mut mmu) = machine(&[0x3E, 0x15, 0xC6, 0x27, 0x27]);
    run(&mut cpu, &mut mmu, 3);
    assert_eq!(cpu.registers.a, 0x42);
    assert!(!cpu.registers.carry);
    // LD A, 0x42; SUB A, 0x15; DAA  => 0x27
    let (mut cpu, mut mmu) = machine(&[0x3E, 0x42, 0xD6, 0x15, 0x27]);
    run(&mut cpu, &mut mmu, 3);
    assert_eq!(cpu.registers.a, 0x27);
    // LD A, 0x99; ADD A, 0x01; DAA  => 0x00 with carry
    let (mut cpu, mut mmu) = machine(&[0x3E, 0x99, 0xC6, 0x01, 0x27]);
    run(&mut cpu, &mut mmu, 3);
    assert_eq!(cpu.registers.a, 0x00);
    assert!(cpu.registers.carry);
    assert!(cpu.registers.zero);
}

#[test]
fn accumulator_rotates_and_flag_ops() {
    // LD A, 0x81; RLCA
    let (mut cpu, mut mmu) = machine(&[0x3E, 0x81, 0x07, 0x0F, 0x17, 0x1F, 0x2F, 0x37, 0x3F]);
    run(&mut cpu, &mut mmu, 2);
    assert_eq!(cpu.registers.a, 0x03);
    assert!(cpu.registers.carry);
    run(&mut cpu, &mut mmu, 1); // RRCA
    assert_eq!(cpu.registers.a, 0x81);
    assert!(cpu.registers.carry);
    run(&mut cpu, &mut mmu, 1); // RLA, carry in 1
    assert_eq!(cpu.registers.a, 0x03);
    assert!(cpu.registers.carry);
    run(&mut cpu, &mut mmu, 1); // RRA, carry in 1
    assert_eq!(cpu.registers.a, 0x81);
    assert!(cpu.registers.carry);
    run(&mut cpu, &mut mmu, 1); // CPL
    assert_eq!(cpu.registers.a, 0x7E);
    assert!(cpu.registers.subtract && cpu.registers.half_carry);
    run(&mut cpu, &mut mmu, 1); // SCF
    assert!(cpu.registers.carry && !cpu.registers.subtract && !cpu.registers.half_carry);
    run(&mut cpu, &mut mmu, 1); // CCF
    assert!(!cpu.registers.carry);
}

#[test]
fn prefixed_operations() {
    // LD B, 0x80; RLC B; SWAP B; BIT 0, B; SET 7, B; RES 0, B; SRL B; SRA B
    let (mut cpu, mut mmu) = machine(&[
        0x06, 0x80, 0xCB, 0x00, 0xCB, 0x30, 0xCB, 0x40, 0xCB, 0xF8, 0xCB, 0x80, 0xCB, 0x38, 0xCB,
        0x28,
    ]);
    run(&mut cpu, &mut mmu, 2);
    assert_eq!(cpu.registers.b, 0x01);
    assert!(cpu.registers.carry);
    run(&mut cpu, &mut mmu, 1);
    assert_eq!(cpu.registers.b, 0x10);
    assert!(!cpu.registers.carry);
    run(&mut cpu, &mut mmu, 1);
    assert!(cpu.registers.zero);
    assert!(cpu.registers.half_carry);
    assert_eq!(cpu.registers.b, 0x10);
    run(&mut cpu, &mut mmu, 1);
    assert_eq!(cpu.registers.b, 0x90);
    run(&mut cpu, &mut mmu, 1);
    assert_eq!(cpu.registers.b, 0x90);
    run(&mut cpu, &mut mmu, 1);
    assert_eq!(cpu.registers.b, 0x48);
    assert!(!cpu.registers.carry);
    run(&mut cpu, &mut mmu, 1);
    assert_eq!(cpu.registers.b, 0x24);
}

#[test]
fn stack_pointer_offset() {
    // LD SP, 0xC00F; ADD SP, -1 (0xFF); LD HL, SP+2
    let (mut cpu, mut mmu) = machine(&[0x31, 0x0F, 0xC0, 0xE8, 0xFF, 0xF8, 0x02, 0xF9]);
    run(&mut cpu, &mut mmu, 2);
    assert_eq!(cpu.registers.sp, 0xC00E);
    assert!(cpu.registers.carry);
    assert!(cpu.registers.half_carry);
    run(&mut cpu, &mut mmu, 1);
    assert_eq!(cpu.registers.get_hl(), 0xC010);
    assert_eq!(cpu.registers.sp, 0xC00E);
    run(&mut cpu, &mut mmu, 1);
    assert_eq!(cpu.registers.sp, 0xC010);
}

#[test]
fn restart_pushes_return_address() {
    let (mut cpu, mut mmu) = machine(&[0x31, 0xFE, 0xFF, 0xEF]);
    run(&mut cpu, &mut mmu, 2);
    assert_eq!(cpu.registers.pc, 0x28);
    assert_eq!(mmu.get_dword(0xFFFC), Ok(0x104));
}

#[test]
fn program_counter_wraps_after_the_last_address() {
    let (mut cpu, mut mmu) = machine(&[]);
    cpu.registers.pc = 0xFFFF;
    mmu.set_word(0xFFFF, 0x00).unwrap();
    cpu.step(&mut mmu).unwrap();
    assert_eq!(cpu.registers.pc, 0x0000);
}

#[test]
fn push_below_address_zero_wraps_and_fails_past_the_end() {
    // LD SP, 0x0001; PUSH BC: the pair would land at 0xFFFF and 0x10000.
    let (mut cpu, mut mmu) = machine(&[0x31, 0x01, 0x00, 0xC5]);
    run(&mut cpu, &mut mmu, 1);
    assert_eq!(cpu.step(&mut mmu), Err(Error::UnmappedAddress(0x10000)));
}

#[test]
fn unsupported_opcode_leaves_core_unchanged() {
    for opcode in [0xD3u8, 0xDB, 0xDD, 0xE3, 0xE4, 0xEB, 0xEC, 0xED, 0xF4, 0xFC, 0xFD] {
        let (mut cpu, mut mmu) = machine(&[0x3E, 0x5A, 0xFB, opcode]);
        run(&mut cpu, &mut mmu, 2);
        // Only the opcode fetch has happened when the opcode is refused.
        let mut expected = cpu;
        expected.registers.pc += 1;
        assert_eq!(cpu.step(&mut mmu), Err(Error::UnsupportedInstruction(opcode)));
        assert_eq!(cpu, expected);
        assert_eq!(cpu.registers.a, 0x5A);
        assert!(cpu.ime);
    }
}

#[test]
fn failed_store_after_operand_fetch_keeps_pc_past_operand() {
    // LD A, 0x77; LD (0xA000), A: the address is unbacked.
    let (mut cpu, mut mmu) = machine(&[0x3E, 0x77, 0xEA, 0x00, 0xA0]);
    run(&mut cpu, &mut mmu, 1);
    assert_eq!(cpu.step(&mut mmu), Err(Error::UnmappedAddress(0xA000)));
    assert_eq!(cpu.registers.pc, 0x105);
    assert_eq!(cpu.registers.a, 0x77);
}

#[test]
fn failed_push_leaves_stack_pointer() {
    let (mut cpu, mut mmu) = machine(&[0x31, 0x01, 0x00, 0xC5]);
    run(&mut cpu, &mut mmu, 1);
    assert!(cpu.step(&mut mmu).is_err());
    assert_eq!(cpu.registers.sp, 0x0001);
    assert_eq!(cpu.registers.pc, 0x104);
}

#[test]
fn run_stops_at_the_failing_instruction() {
    let (mut cpu, mut mmu) = machine(&[0x00, 0x3C, 0xDB, 0x3C]);
    let breakpoints = std::collections::HashSet::new();
    assert_eq!(cpu.run(&mut mmu, &breakpoints, 10), Err(Error::UnsupportedInstruction(0xDB)));
    assert_eq!(cpu.registers.pc, 0x103);
    assert_eq!(cpu.registers.a, 1);
}
