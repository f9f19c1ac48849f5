use vstd::prelude::*;

use crate::cpu::instructions::{
    store_r8, cond_holds, get_r16_code, get_r8_code, lift, r16_field, r8_field, RegStep, C_CC, NC_CC, NZ_CC, Z_CC,
};
use crate::cpu::registers::{
    read_r8, Flags, Registers, HL_DEC_REGISTER_CODE, HL_INC_REGISTER_CODE,
    BC_MEM_REGISTER_CODE, DE_MEM_REGISTER_CODE,
};
use crate::cpu::{fetch16, fetch8, outcome, pc_plus, Step, CPU};
use crate::error::Error;
use crate::mmu::{read8, write16, write8, Memory, MMU};

verus! {

pub const NOP_OPCODE: u8 = 0x00;
pub const LD_IMM16MEM_SP_OPCODE: u8 = 0x08;
pub const STOP_OPCODE: u8 = 0x10;
pub const RLCA_OPCODE: u8 = 0x07;
pub const RRCA_OPCODE: u8 = 0x0F;
pub const RLA_OPCODE: u8 = 0x17;
pub const RRA_OPCODE: u8 = 0x1F;
pub const DAA_OPCODE: u8 = 0x27;
pub const CPL_OPCODE: u8 = 0x2F;
pub const SCF_OPCODE: u8 = 0x37;
pub const CCF_OPCODE: u8 = 0x3F;
pub const JR_IMM8_OPCODE: u8 = 0x18;
pub const JR_NZ_IMM8_OPCODE: u8 = 0x20;
pub const JR_Z_IMM8_OPCODE: u8 = 0x28;
pub const JR_NC_IMM8_OPCODE: u8 = 0x30;
pub const JR_C_IMM8_OPCODE: u8 = 0x38;

// Patterns on the low nibble.
pub const LD_R16_IMM16_TYPE: u8 = 0x1;
pub const LD_R16MEM_A_TYPE: u8 = 0x2;
pub const INC_R16_TYPE: u8 = 0x3;
pub const ADD_HL_R16_TYPE: u8 = 0x9;
pub const LD_A_R16MEM_TYPE: u8 = 0xA;
pub const DEC_R16_TYPE: u8 = 0xB;

// Patterns on the low three bits.
pub const INC_R8_TYPE: u8 = 0x4;
pub const DEC_R8_TYPE: u8 = 0x5;
pub const LD_R8_IMM8_TYPE: u8 = 0x6;

/// Lifts a change of the registers alone to a whole step.
pub open spec fn regs_step(cpu: CPU, mem: Memory, regs: Registers) -> Step {
    Ok((cpu.with_registers(regs), mem))
}

/// Target of a relative jump: the displacement byte encodes `d - 128`.
pub open spec fn jr_target(pc: u16, d: u8) -> u16 {
    pc_plus(pc, d - 128)
}

pub open spec fn inc_r16_spec(opcode: u8, r: Registers) -> Registers {
    let code = r16_field(opcode);
    r.with_r16(code, ((r.r16(code) + 1) % 0x10000) as u16)
}

pub open spec fn dec_r16_spec(opcode: u8, r: Registers) -> Registers {
    let code = r16_field(opcode);
    r.with_r16(code, ((r.r16(code) - 1) % 0x10000) as u16)
}

/// HL += pair: subtract cleared, half-carry out of bit 11, carry out of bit
/// 15, zero unaffected.
pub open spec fn add_hl_r16_spec(opcode: u8, r: Registers) -> Registers {
    let x = r.r16(r16_field(opcode)) as int;
    let hl = r.hl() as int;
    let sum = hl + x;
    r.with_hl((sum % 0x10000) as u16).with_flags(
        r.zero,
        false,
        hl % 0x1000 + x % 0x1000 > 0xFFF,
        sum > 0xFFFF,
    )
}

/// INC r8: zero from the result, subtract cleared, half-carry when the low
/// nibble was 0xF, carry unaffected.
pub open spec fn inc_r8_spec(opcode: u8, r: Registers, mem: Memory) -> RegStep {
    let code = r8_field(opcode);
    match read_r8(r, mem, code) {
        Err(e) => Err((e, r, mem)),
        Ok(v) => {
            let res = ((v + 1) % 256) as u8;
            match store_r8(r, mem, code, res) {
                Err(x) => Err(x),
                Ok((r2, m2)) => Ok((r2.with_flags(res == 0, false, v % 16 == 15, r.carry), m2)),
            }
        },
    }
}

/// DEC r8: zero from the result, subtract set, half-carry when the low
/// nibble was 0, carry unaffected.
pub open spec fn dec_r8_spec(opcode: u8, r: Registers, mem: Memory) -> RegStep {
    let code = r8_field(opcode);
    match read_r8(r, mem, code) {
        Err(e) => Err((e, r, mem)),
        Ok(v) => {
            let res = ((v - 1) % 256) as u8;
            match store_r8(r, mem, code, res) {
                Err(x) => Err(x),
                Ok((r2, m2)) => Ok((r2.with_flags(res == 0, true, v % 16 == 0, r.carry), m2)),
            }
        },
    }
}

/// The address that a pointer code names: BC, DE, or HL for both HL+ and HL-.
pub open spec fn r16mem_address(r: Registers, code: u8) -> u16 {
    if code == BC_MEM_REGISTER_CODE {
        r.bc()
    } else if code == DE_MEM_REGISTER_CODE {
        r.de()
    } else {
        r.hl()
    }
}

/// The registers after the pointer's post-increment or post-decrement.
pub open spec fn r16mem_adjust(r: Registers, code: u8) -> Registers {
    if code == HL_INC_REGISTER_CODE {
        r.with_hl(((r.hl() + 1) % 0x10000) as u16)
    } else if code == HL_DEC_REGISTER_CODE {
        r.with_hl(((r.hl() - 1) % 0x10000) as u16)
    } else {
        r
    }
}

pub open spec fn ld_r16mem_a_spec(opcode: u8, r: Registers, mem: Memory) -> RegStep {
    let code = r16_field(opcode);
    match write8(mem, r16mem_address(r, code) as int, r.a) {
        Err(e) => Err((e, r, mem)),
        Ok(m) => Ok((r16mem_adjust(r, code), m)),
    }
}

pub open spec fn ld_a_r16mem_spec(opcode: u8, r: Registers, mem: Memory) -> RegStep {
    let code = r16_field(opcode);
    match read8(mem, r16mem_address(r, code) as int) {
        Err(e) => Err((e, r, mem)),
        Ok(v) => Ok((Registers { a: v, ..r16mem_adjust(r, code) }, mem)),
    }
}

pub open spec fn ld_r16_imm16_spec(opcode: u8, cpu: CPU, mem: Memory) -> Step {
    match fetch16(cpu, mem) {
        Err(e) => Err((e, cpu, mem)),
        Ok((v, c)) => Ok((c.with_registers(c.registers.with_r16(r16_field(opcode), v)), mem)),
    }
}

pub open spec fn ld_r8_imm8_spec(opcode: u8, cpu: CPU, mem: Memory) -> Step {
    match fetch8(cpu, mem) {
        Err(e) => Err((e, cpu, mem)),
        Ok((v, c)) => lift(c, store_r8(c.registers, mem, r8_field(opcode), v)),
    }
}

pub open spec fn ld_imm16mem_sp_spec(cpu: CPU, mem: Memory) -> Step {
    match fetch16(cpu, mem) {
        Err(e) => Err((e, cpu, mem)),
        Ok((address, c)) => match write16(mem, address as int, c.registers.sp) {
            Err(e) => Err((e, c, mem)),
            Ok(m) => Ok((c, m)),
        },
    }
}

/// Rotates `a` left; bit 7 goes to carry and to bit 0. Zero, subtract and
/// half-carry are cleared.
pub open spec fn rlca_spec(r: Registers) -> Registers {
    Registers { a: ((r.a * 2) % 256 + r.a / 128) as u8, ..r }.with_flags(
        false,
        false,
        false,
        r.a >= 128,
    )
}

/// Rotates `a` right; bit 0 goes to carry and to bit 7.
pub open spec fn rrca_spec(r: Registers) -> Registers {
    Registers { a: (r.a / 2 + (r.a % 2) * 128) as u8, ..r }.with_flags(
        false,
        false,
        false,
        r.a % 2 == 1,
    )
}

/// Rotates `a` left through carry.
pub open spec fn rla_spec(r: Registers) -> Registers {
    Registers { a: ((r.a * 2) % 256 + (if r.carry { 1int } else { 0 })) as u8, ..r }.with_flags(
        false,
        false,
        false,
        r.a >= 128,
    )
}

/// Rotates `a` right through carry.
pub open spec fn rra_spec(r: Registers) -> Registers {
    Registers { a: (r.a / 2 + (if r.carry { 128int } else { 0 })) as u8, ..r }.with_flags(
        false,
        false,
        false,
        r.a % 2 == 1,
    )
}

/// The correction that decimal adjust adds (after an addition) or subtracts
/// (after a subtraction), and the carry it leaves.
pub open spec fn daa_correction(r: Registers) -> (int, bool) {
    if r.subtract {
        ((if r.carry { 0x60int } else { 0 }) + (if r.half_carry { 0x06int } else { 0 }), r.carry)
    } else {
        let high = r.carry || r.a > 0x99;
        let low = r.half_carry || r.a % 16 > 9;
        ((if high { 0x60int } else { 0 }) + (if low { 0x06int } else { 0 }), high)
    }
}

/// Decimal adjust: brings `a` back to two packed-decimal digits after an
/// addition or subtraction of packed-decimal values. Subtract is unaffected,
/// half-carry cleared, zero from the result.
pub open spec fn daa_spec(r: Registers) -> Registers {
    let (adj, carry) = daa_correction(r);
    let res = (if r.subtract { (r.a - adj) % 256 } else { (r.a + adj) % 256 }) as u8;
    Registers { a: res, ..r }.with_flags(res == 0, r.subtract, false, carry)
}

pub open spec fn cpl_spec(r: Registers) -> Registers {
    Registers { a: (255 - r.a) as u8, ..r }.with_flags(r.zero, true, true, r.carry)
}

pub open spec fn scf_spec(r: Registers) -> Registers {
    r.with_flags(r.zero, false, false, true)
}

pub open spec fn ccf_spec(r: Registers) -> Registers {
    r.with_flags(r.zero, false, false, !r.carry)
}

/// A relative jump: the displacement byte is always consumed; `pc` moves by
/// it only when `cc` holds.
pub open spec fn jr_cc_imm8_spec(cpu: CPU, mem: Memory, cc: bool) -> Step {
    match fetch8(cpu, mem) {
        Err(e) => Err((e, cpu, mem)),
        Ok((d, c)) => if cc {
            Ok((c.with_pc(jr_target(c.registers.pc, d)), mem))
        } else {
            Ok((c, mem))
        },
    }
}

/// The effect of a block-0 opcode, `pc` already past it.
#[verifier::opaque]
pub open spec fn block_0_spec(opcode: u8, cpu: CPU, mem: Memory) -> Step {
    let r = cpu.registers;
    if opcode == NOP_OPCODE {
        Ok((cpu, mem))
    } else if opcode == LD_IMM16MEM_SP_OPCODE {
        ld_imm16mem_sp_spec(cpu, mem)
    } else if opcode == STOP_OPCODE {
        Err((Error::UnsupportedInstruction(opcode), cpu, mem))
    } else if opcode % 16 == LD_R16_IMM16_TYPE {
        ld_r16_imm16_spec(opcode, cpu, mem)
    } else if opcode % 16 == LD_R16MEM_A_TYPE {
        lift(cpu, ld_r16mem_a_spec(opcode, r, mem))
    } else if opcode % 16 == INC_R16_TYPE {
        regs_step(cpu, mem, inc_r16_spec(opcode, r))
    } else if opcode % 16 == ADD_HL_R16_TYPE {
        regs_step(cpu, mem, add_hl_r16_spec(opcode, r))
    } else if opcode % 16 == LD_A_R16MEM_TYPE {
        lift(cpu, ld_a_r16mem_spec(opcode, r, mem))
    } else if opcode % 16 == DEC_R16_TYPE {
        regs_step(cpu, mem, dec_r16_spec(opcode, r))
    } else if opcode % 8 == INC_R8_TYPE {
        lift(cpu, inc_r8_spec(opcode, r, mem))
    } else if opcode % 8 == DEC_R8_TYPE {
        lift(cpu, dec_r8_spec(opcode, r, mem))
    } else if opcode % 8 == LD_R8_IMM8_TYPE {
        ld_r8_imm8_spec(opcode, cpu, mem)
    } else if opcode == RLCA_OPCODE {
        regs_step(cpu, mem, rlca_spec(r))
    } else if opcode == RRCA_OPCODE {
        regs_step(cpu, mem, rrca_spec(r))
    } else if opcode == RLA_OPCODE {
        regs_step(cpu, mem, rla_spec(r))
    } else if opcode == RRA_OPCODE {
        regs_step(cpu, mem, rra_spec(r))
    } else if opcode == DAA_OPCODE {
        regs_step(cpu, mem, daa_spec(r))
    } else if opcode == CPL_OPCODE {
        regs_step(cpu, mem, cpl_spec(r))
    } else if opcode == SCF_OPCODE {
        regs_step(cpu, mem, scf_spec(r))
    } else if opcode == CCF_OPCODE {
        regs_step(cpu, mem, ccf_spec(r))
    } else if opcode == JR_IMM8_OPCODE {
        jr_cc_imm8_spec(cpu, mem, true)
    } else if opcode == JR_NZ_IMM8_OPCODE {
        jr_cc_imm8_spec(cpu, mem, cond_holds(r, NZ_CC))
    } else if opcode == JR_Z_IMM8_OPCODE {
        jr_cc_imm8_spec(cpu, mem, cond_holds(r, Z_CC))
    } else if opcode == JR_NC_IMM8_OPCODE {
        jr_cc_imm8_spec(cpu, mem, cond_holds(r, NC_CC))
    } else if opcode == JR_C_IMM8_OPCODE {
        jr_cc_imm8_spec(cpu, mem, cond_holds(r, C_CC))
    } else {
        Err((Error::UnsupportedInstruction(opcode), cpu, mem))
    }
}

/// Executes a block-0 opcode (`00xxxxxx`), `pc` already past it.
pub fn execute(opcode: u8, cpu: &mut CPU, mmu: &mut MMU) -> (r: Result<(), Error>)
    requires
        opcode < 0x40,
        old(mmu).wf(),
    ensures
        final(mmu).wf(),
        outcome(r, *final(cpu), final(mmu)@, block_0_spec(opcode, *old(cpu), old(mmu)@)),
{
    reveal(block_0_spec);
    if opcode == NOP_OPCODE {
        return Ok(());
    } else if opcode == LD_IMM16MEM_SP_OPCODE {
        return ld_imm16mem_sp(cpu, mmu);
    } else if opcode == STOP_OPCODE {
        return Err(Error::UnsupportedInstruction(opcode));
    }
    let low4 = opcode % 16;
    if low4 == LD_R16_IMM16_TYPE {
        return ld_r16_imm16(opcode, cpu, mmu);
    } else if low4 == LD_R16MEM_A_TYPE {
        return ld_r16mem_a(opcode, &mut cpu.registers, mmu);
    } else if low4 == INC_R16_TYPE {
        inc_r16(opcode, &mut cpu.registers);
        return Ok(());
    } else if low4 == ADD_HL_R16_TYPE {
        add_hl_r16(opcode, &mut cpu.registers);
        return Ok(());
    } else if low4 == LD_A_R16MEM_TYPE {
        return ld_a_r16mem(opcode, &mut cpu.registers, mmu);
    } else if low4 == DEC_R16_TYPE {
        dec_r16(opcode, &mut cpu.registers);
        return Ok(());
    }
    let low3 = opcode % 8;
    if low3 == INC_R8_TYPE {
        return inc_r8(opcode, &mut cpu.registers, mmu);
    } else if low3 == DEC_R8_TYPE {
        return dec_r8(opcode, &mut cpu.registers, mmu);
    } else if low3 == LD_R8_IMM8_TYPE {
        return ld_r8_imm8(opcode, cpu, mmu);
    }
    match opcode {
        RLCA_OPCODE => rlca(&mut cpu.registers),
        RRCA_OPCODE => rrca(&mut cpu.registers),
        RLA_OPCODE => rla(&mut cpu.registers),
        RRA_OPCODE => rra(&mut cpu.registers),
        DAA_OPCODE => daa(&mut cpu.registers),
        CPL_OPCODE => cpl(&mut cpu.registers),
        SCF_OPCODE => scf(&mut cpu.registers),
        CCF_OPCODE => ccf(&mut cpu.registers),
        JR_IMM8_OPCODE => return jr_imm8(cpu, mmu),
        JR_NZ_IMM8_OPCODE => {
            let cc = !cpu.registers.get_flag(Flags::Z);
            return jr_cc_imm8(cpu, mmu, cc);
        },
        JR_Z_IMM8_OPCODE => {
            let cc = cpu.registers.get_flag(Flags::Z);
            return jr_cc_imm8(cpu, mmu, cc);
        },
        JR_NC_IMM8_OPCODE => {
            let cc = !cpu.registers.get_flag(Flags::C);
            return jr_cc_imm8(cpu, mmu, cc);
        },
        JR_C_IMM8_OPCODE => {
            let cc = cpu.registers.get_flag(Flags::C);
            return jr_cc_imm8(cpu, mmu, cc);
        },
        _ => return Err(Error::UnsupportedInstruction(opcode)),
    }
    Ok(())
}

pub fn inc_r16(opcode: u8, registers: &mut Registers)
    ensures
        *final(registers) == inc_r16_spec(opcode, *old(registers)),
{
    let register = get_r16_code(opcode);
    let value = registers.get_dword(register).unwrap();
    let next = if value == 0xFFFF {
        0
    } else {
        value + 1
    };
    let _ = registers.set_dword(register, next);
}

pub fn dec_r16(opcode: u8, registers: &mut Registers)
    ensures
        *final(registers) == dec_r16_spec(opcode, *old(registers)),
{
    let register = get_r16_code(opcode);
    let value = registers.get_dword(register).unwrap();
    let next = if value == 0 {
        0xFFFF
    } else {
        value - 1
    };
    let _ = registers.set_dword(register, next);
}

pub fn add_hl_r16(opcode: u8, registers: &mut Registers)
    ensures
        *final(registers) == add_hl_r16_spec(opcode, *old(registers)),
{
    let register = get_r16_code(opcode);
    let value = registers.get_dword(register).unwrap();
    let hl = registers.get_hl();
    let sum: u32 = hl as u32 + value as u32;
    registers.set_hl((sum % 0x10000) as u16);
    registers.set_flags(Flags::N, false);
    registers.set_flags(Flags::H, hl % 0x1000 + value % 0x1000 > 0xFFF);
    registers.set_flags(Flags::C, sum > 0xFFFF);
}

pub fn inc_r8(opcode: u8, registers: &mut Registers, mmu: &mut MMU) -> (r: Result<(), Error>)
    requires
        old(mmu).wf(),
    ensures
        final(mmu).wf(),
        outcome(
            r,
            *final(registers),
            final(mmu)@,
            inc_r8_spec(opcode, *old(registers), old(mmu)@),
        ),
{
    let register = get_r8_code(opcode);
    let value = registers.get_word(register, mmu)?;
    let result = if value == 0xFF {
        0
    } else {
        value + 1
    };
    registers.set_word(register, result, mmu)?;
    registers.set_flags(Flags::Z, result == 0);
    registers.set_flags(Flags::N, false);
    registers.set_flags(Flags::H, value % 16 == 15);
    Ok(())
}

pub fn dec_r8(opcode: u8, registers: &mut Registers, mmu: &mut MMU) -> (r: Result<(), Error>)
    requires
        old(mmu).wf(),
    ensures
        final(mmu).wf(),
        outcome(
            r,
            *final(registers),
            final(mmu)@,
            dec_r8_spec(opcode, *old(registers), old(mmu)@),
        ),
{
    let register = get_r8_code(opcode);
    let value = registers.get_word(register, mmu)?;
    let result = if value == 0 {
        0xFF
    } else {
        value - 1
    };
    registers.set_word(register, result, mmu)?;
    registers.set_flags(Flags::Z, result == 0);
    registers.set_flags(Flags::N, true);
    registers.set_flags(Flags::H, value % 16 == 0);
    Ok(())
}

/// Address named by a pointer code.
fn r16mem_get(code: u8, registers: &Registers) -> (address: u16)
    ensures
        address == r16mem_address(*registers, code),
{
    if code == BC_MEM_REGISTER_CODE {
        registers.get_bc()
    } else if code == DE_MEM_REGISTER_CODE {
        registers.get_de()
    } else {
        registers.get_hl()
    }
}

/// Applies HL's post-increment or post-decrement for a pointer code.
fn r16mem_step(code: u8, registers: &mut Registers)
    ensures
        *final(registers) == r16mem_adjust(*old(registers), code),
{
    let hl = registers.get_hl();
    if code == HL_INC_REGISTER_CODE {
        registers.set_hl(if hl == 0xFFFF { 0 } else { hl + 1 });
    } else if code == HL_DEC_REGISTER_CODE {
        registers.set_hl(if hl == 0 { 0xFFFF } else { hl - 1 });
    }
}

pub fn ld_r16mem_a(opcode: u8, registers: &mut Registers, mmu: &mut MMU) -> (r: Result<(), Error>)
    requires
        old(mmu).wf(),
    ensures
        final(mmu).wf(),
        outcome(
            r,
            *final(registers),
            final(mmu)@,
            ld_r16mem_a_spec(opcode, *old(registers), old(mmu)@),
        ),
{
    let r16_code = get_r16_code(opcode);
    let address = r16mem_get(r16_code, registers);
    mmu.set_word(address as usize, registers.a)?;
    r16mem_step(r16_code, registers);
    Ok(())
}

pub fn ld_a_r16mem(opcode: u8, registers: &mut Registers, mmu: &MMU) -> (r: Result<(), Error>)
    requires
        mmu.wf(),
    ensures
        outcome(
            r,
            *final(registers),
            mmu@,
            ld_a_r16mem_spec(opcode, *old(registers), mmu@),
        ),
{
    let r16_code = get_r16_code(opcode);
    let address = r16mem_get(r16_code, registers);
    let value = mmu.get_word(address as usize)?;
    r16mem_step(r16_code, registers);
    registers.a = value;
    Ok(())
}

pub fn ld_r16_imm16(opcode: u8, cpu: &mut CPU, mmu: &MMU) -> (r: Result<(), Error>)
    requires
        mmu.wf(),
    ensures
        outcome(r, *final(cpu), mmu@, ld_r16_imm16_spec(opcode, *old(cpu), mmu@)),
{
    let register = get_r16_code(opcode);
    let imm16 = cpu.fetch_next_dword(mmu)?;
    cpu.registers.set_dword(register, imm16)
}

pub fn ld_r8_imm8(opcode: u8, cpu: &mut CPU, mmu: &mut MMU) -> (r: Result<(), Error>)
    requires
        old(mmu).wf(),
    ensures
        final(mmu).wf(),
        outcome(r, *final(cpu), final(mmu)@, ld_r8_imm8_spec(opcode, *old(cpu), old(mmu)@)),
{
    let register = get_r8_code(opcode);
    let imm8 = cpu.fetch_next_word(mmu)?;
    cpu.registers.set_word(register, imm8, mmu)
}

pub fn ld_imm16mem_sp(cpu: &mut CPU, mmu: &mut MMU) -> (r: Result<(), Error>)
    requires
        old(mmu).wf(),
    ensures
        final(mmu).wf(),
        outcome(r, *final(cpu), final(mmu)@, ld_imm16mem_sp_spec(*old(cpu), old(mmu)@)),
{
    let address = cpu.fetch_next_dword(mmu)?;
    mmu.set_dword(address as usize, cpu.registers.sp)
}

pub fn rlca(registers: &mut Registers)
    ensures
        *final(registers) == rlca_spec(*old(registers)),
{
    let a = registers.a;
    registers.reset_flags();
    registers.set_flags(Flags::C, a >= 128);
    registers.a = ((a as u16 * 2) % 256) as u8 + a / 128;
}

pub fn rrca(registers: &mut Registers)
    ensures
        *final(registers) == rrca_spec(*old(registers)),
{
    let a = registers.a;
    registers.reset_flags();
    registers.set_flags(Flags::C, a % 2 == 1);
    registers.a = a / 2 + (a % 2) * 128;
}

pub fn rla(registers: &mut Registers)
    ensures
        *final(registers) == rla_spec(*old(registers)),
{
    let a = registers.a;
    let carry: u8 = if registers.get_flag(Flags::C) {
        1
    } else {
        0
    };
    registers.reset_flags();
    registers.set_flags(Flags::C, a >= 128);
    registers.a = ((a as u16 * 2) % 256) as u8 + carry;
}

pub fn rra(registers: &mut Registers)
    ensures
        *final(registers) == rra_spec(*old(registers)),
{
    let a = registers.a;
    let carry: u8 = if registers.get_flag(Flags::C) {
        128
    } else {
        0
    };
    registers.reset_flags();
    registers.set_flags(Flags::C, a % 2 == 1);
    registers.a = a / 2 + carry;
}

pub fn daa(registers: &mut Registers)
    ensures
        *final(registers) == daa_spec(*old(registers)),
{
    let a = registers.a;
    let mut correction: u8 = 0;
    let mut carry = registers.get_flag(Flags::C);
    if registers.get_flag(Flags::N) {
        if registers.get_flag(Flags::C) {
            correction = correction + 0x60;
        }
        if registers.get_flag(Flags::H) {
            correction = correction + 0x06;
        }
        registers.a = if a >= correction {
            a - correction
        } else {
            (a as u16 + 256 - correction as u16) as u8
        };
    } else {
        if registers.get_flag(Flags::C) || a > 0x99 {
            correction = correction + 0x60;
            carry = true;
        }
        if registers.get_flag(Flags::H) || a % 16 > 9 {
            correction = correction + 0x06;
        }
        registers.a = ((a as u16 + correction as u16) % 256) as u8;
    }
    let result = registers.a;
    registers.set_flags(Flags::Z, result == 0);
    registers.set_flags(Flags::H, false);
    registers.set_flags(Flags::C, carry);
}

pub fn cpl(registers: &mut Registers)
    ensures
        *final(registers) == cpl_spec(*old(registers)),
{
    registers.set_flags(Flags::N, true);
    registers.set_flags(Flags::H, true);
    registers.a = 255 - registers.a;
}

pub fn scf(registers: &mut Registers)
    ensures
        *final(registers) == scf_spec(*old(registers)),
{
    registers.set_flags(Flags::N, false);
    registers.set_flags(Flags::H, false);
    registers.set_flags(Flags::C, true);
}

pub fn ccf(registers: &mut Registers)
    ensures
        *final(registers) == ccf_spec(*old(registers)),
{
    let carry = registers.get_flag(Flags::C);
    registers.set_flags(Flags::N, false);
    registers.set_flags(Flags::H, false);
    registers.set_flags(Flags::C, !carry);
}

pub fn jr_imm8(cpu: &mut CPU, mmu: &MMU) -> (r: Result<(), Error>)
    requires
        mmu.wf(),
    ensures
        outcome(r, *final(cpu), mmu@, jr_cc_imm8_spec(*old(cpu), mmu@, true)),
{
    jr_cc_imm8(cpu, mmu, true)
}

pub fn jr_cc_imm8(cpu: &mut CPU, mmu: &MMU, cc: bool) -> (r: Result<(), Error>)
    requires
        mmu.wf(),
    ensures
        outcome(r, *final(cpu), mmu@, jr_cc_imm8_spec(*old(cpu), mmu@, cc)),
{
    let displacement = cpu.fetch_next_word(mmu)?;
    if cc {
        cpu.registers.pc = imm8_to_jr(cpu.registers.pc, displacement);
    }
    Ok(())
}

/// Applies the displacement byte `imm8`, which encodes `imm8 - 128`, to `pc`.
pub fn imm8_to_jr(pc: u16, imm8: u8) -> (r: u16)
    ensures
        r == jr_target(pc, imm8),
{
    let target: u32 = pc as u32 + 0x10000 + imm8 as u32 - 128;
    (target % 0x10000) as u16
}

} // verus!
