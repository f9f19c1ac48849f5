use vstd::prelude::*;

use crate::cpu::instructions::alu::{alu, alu_spec};
use crate::cpu::instructions::prefix::{self, prefix_spec};
use crate::cpu::instructions::{
    cond_holds, get_r16_code, lift, r16_field, r8_field, RegStep, C_CC, NC_CC, NZ_CC, Z_CC,
};
use crate::cpu::registers::{Flags, Registers};
use crate::cpu::{fetch16, fetch8, outcome, Step, CPU};
use crate::error::Error;
use crate::mmu::{read16, read8, write16, write8, Memory, MMU};

verus! {

pub const LDH_ADDRESS_START: usize = 0xFF00;

pub const RET_OPCODE: u8 = 0xC9;
pub const RETI_OPCODE: u8 = 0xD9;
pub const JP_IMM16_OPCODE: u8 = 0xC3;
pub const JP_HL_OPCODE: u8 = 0xE9;
pub const CALL_IMM16_OPCODE: u8 = 0xCD;
pub const PREFIX_OPCODE: u8 = 0xCB;
pub const LDH_CMEM_A_OPCODE: u8 = 0xE2;
pub const LDH_IMM8_A_OPCODE: u8 = 0xE0;
pub const LD_IMM16_A_OPCODE: u8 = 0xEA;
pub const LDH_A_CMEM_OPCODE: u8 = 0xF2;
pub const LDH_A_IMM8_OPCODE: u8 = 0xF0;
pub const LD_A_IMM16_OPCODE: u8 = 0xFA;
pub const ADD_SP_IMM8_OPCODE: u8 = 0xE8;
pub const LD_HL_SP_IMM8_OPCODE: u8 = 0xF8;
pub const LD_SP_HL_OPCODE: u8 = 0xF9;
pub const DI_OPCODE: u8 = 0xF3;
pub const EI_OPCODE: u8 = 0xFB;

// Patterns on the low three bits, for opcodes below 0xE0 where marked.
pub const RET_CC_TYPE: u8 = 0b000;
pub const JP_CC_IMM16_TYPE: u8 = 0b010;
pub const CALL_CC_IMM16_TYPE: u8 = 0b100;
pub const ALU_IMM8_TYPE: u8 = 0b110;
pub const RST_TYPE: u8 = 0b111;
pub const CONDITIONAL_LIMIT: u8 = 0xE0;

// Patterns on the low nibble.
pub const POP_TYPE: u8 = 0b0001;
pub const PUSH_TYPE: u8 = 0b0101;

/// Bits 4..3 of an opcode: a condition code.
pub open spec fn cc_field(opcode: u8) -> u8 {
    (opcode / 8) % 4
}

/// Pushing `v`: `sp` drops by two and `v` is stored little-endian there.
pub open spec fn push_spec(r: Registers, mem: Memory, v: u16) -> RegStep {
    let sp = ((r.sp - 2) % 0x10000) as u16;
    match write16(mem, sp as int, v) {
        Err(e) => Err((e, r, mem)),
        Ok(m) => Ok((Registers { sp, ..r }, m)),
    }
}

/// Popping: the value stored at `sp`, and the registers with `sp` two higher.
pub open spec fn pop_spec(r: Registers, mem: Memory) -> Result<(u16, Registers), Error> {
    match read16(mem, r.sp as int) {
        Err(e) => Err(e),
        Ok(v) => Ok((v, Registers { sp: ((r.sp + 2) % 0x10000) as u16, ..r })),
    }
}

pub open spec fn ret_spec(r: Registers, mem: Memory) -> RegStep {
    match pop_spec(r, mem) {
        Err(e) => Err((e, r, mem)),
        Ok((v, r2)) => Ok((Registers { pc: v, ..r2 }, mem)),
    }
}

/// Returning from an interrupt: a return that also enables interrupts.
pub open spec fn reti_spec(cpu: CPU, mem: Memory) -> Step {
    match lift(cpu, ret_spec(cpu.registers, mem)) {
        Ok((c, m)) => Ok((CPU { ime: true, ..c }, m)),
        Err(x) => Err(x),
    }
}

/// Calling `target`: the return address (`pc`) is pushed.
pub open spec fn call_spec(r: Registers, mem: Memory, target: u16) -> RegStep {
    match push_spec(r, mem, r.pc) {
        Err(x) => Err(x),
        Ok((r2, m)) => Ok((Registers { pc: target, ..r2 }, m)),
    }
}

pub open spec fn ret_cc_spec(opcode: u8, r: Registers, mem: Memory) -> RegStep {
    if cond_holds(r, cc_field(opcode)) {
        ret_spec(r, mem)
    } else {
        Ok((r, mem))
    }
}

pub open spec fn jp_cc_imm16_spec(cpu: CPU, mem: Memory, cc: bool) -> Step {
    match fetch16(cpu, mem) {
        Err(e) => Err((e, cpu, mem)),
        Ok((v, c)) => if cc {
            Ok((c.with_pc(v), mem))
        } else {
            Ok((c, mem))
        },
    }
}

pub open spec fn call_cc_imm16_spec(cpu: CPU, mem: Memory, cc: bool) -> Step {
    match fetch16(cpu, mem) {
        Err(e) => Err((e, cpu, mem)),
        Ok((v, c)) => if cc {
            lift(c, call_spec(c.registers, mem, v))
        } else {
            Ok((c, mem))
        },
    }
}

pub open spec fn alu_imm8_spec(opcode: u8, cpu: CPU, mem: Memory) -> Step {
    match fetch8(cpu, mem) {
        Err(e) => Err((e, cpu, mem)),
        Ok((v, c)) => Ok((c.with_registers(alu_spec(r8_field(opcode), c.registers, v)), mem)),
    }
}

pub open spec fn prefix_step_spec(cpu: CPU, mem: Memory) -> Step {
    match fetch8(cpu, mem) {
        Err(e) => Err((e, cpu, mem)),
        Ok((opcode, c)) => lift(c, prefix_spec(opcode, c.registers, mem)),
    }
}

pub open spec fn push_r16stk_spec(opcode: u8, r: Registers, mem: Memory) -> RegStep {
    push_spec(r, mem, r.r16stk(r16_field(opcode)))
}

pub open spec fn pop_r16stk_spec(opcode: u8, r: Registers, mem: Memory) -> RegStep {
    match pop_spec(r, mem) {
        Err(e) => Err((e, r, mem)),
        Ok((v, r2)) => Ok((r2.with_r16stk(r16_field(opcode), v), mem)),
    }
}

/// Storing `a` at an address.
pub open spec fn store_a_spec(r: Registers, mem: Memory, address: int) -> RegStep {
    match write8(mem, address, r.a) {
        Err(e) => Err((e, r, mem)),
        Ok(m) => Ok((r, m)),
    }
}

/// Loading `a` from an address.
pub open spec fn load_a_spec(r: Registers, mem: Memory, address: int) -> RegStep {
    match read8(mem, address) {
        Err(e) => Err((e, r, mem)),
        Ok(v) => Ok((Registers { a: v, ..r }, mem)),
    }
}

/// Fetches an 8-bit offset into the high page, then stores or loads `a` there.
pub open spec fn ldh_imm8_spec(cpu: CPU, mem: Memory, store: bool) -> Step {
    match fetch8(cpu, mem) {
        Err(e) => Err((e, cpu, mem)),
        Ok((n, c)) => {
            let address = LDH_ADDRESS_START + n;
            lift(
                c,
                if store {
                    store_a_spec(c.registers, mem, address)
                } else {
                    load_a_spec(c.registers, mem, address)
                },
            )
        },
    }
}

/// Fetches a 16-bit address, then stores or loads `a` there.
pub open spec fn ld_imm16_spec(cpu: CPU, mem: Memory, store: bool) -> Step {
    match fetch16(cpu, mem) {
        Err(e) => Err((e, cpu, mem)),
        Ok((address, c)) => lift(
            c,
            if store {
                store_a_spec(c.registers, mem, address as int)
            } else {
                load_a_spec(c.registers, mem, address as int)
            },
        ),
    }
}

/// `sp` plus the two's-complement byte `e`, with the flags of that sum:
/// zero and subtract cleared, half-carry and carry out of bits 3 and 7.
pub open spec fn sp_offset_spec(r: Registers, e: u8) -> (u16, Registers) {
    let offset: int = if e >= 128 {
        e - 256
    } else {
        e as int
    };
    (
        ((r.sp + offset) % 0x10000) as u16,
        r.with_flags(false, false, r.sp % 16 + e % 16 > 15, r.sp % 256 + e > 255),
    )
}

/// ADD SP, e8 (`to_hl` false) or LD HL, SP + e8 (`to_hl` true).
pub open spec fn sp_imm8_spec(cpu: CPU, mem: Memory, to_hl: bool) -> Step {
    match fetch8(cpu, mem) {
        Err(e) => Err((e, cpu, mem)),
        Ok((e, c)) => {
            let (v, r) = sp_offset_spec(c.registers, e);
            Ok(
                (
                    c.with_registers(
                        if to_hl {
                            r.with_hl(v)
                        } else {
                            Registers { sp: v, ..r }
                        },
                    ),
                    mem,
                ),
            )
        },
    }
}

/// The effect of a block-3 opcode, `pc` already past it.
#[verifier::opaque]
pub open spec fn block_3_spec(opcode: u8, cpu: CPU, mem: Memory) -> Step {
    let r = cpu.registers;
    if opcode % 8 == RST_TYPE {
        lift(cpu, call_spec(r, mem, (opcode - 0xC7) as u16))
    } else if opcode % 8 == RET_CC_TYPE && opcode < CONDITIONAL_LIMIT {
        lift(cpu, ret_cc_spec(opcode, r, mem))
    } else if opcode % 8 == JP_CC_IMM16_TYPE && opcode < CONDITIONAL_LIMIT {
        jp_cc_imm16_spec(cpu, mem, cond_holds(r, cc_field(opcode)))
    } else if opcode % 8 == CALL_CC_IMM16_TYPE && opcode < CONDITIONAL_LIMIT {
        call_cc_imm16_spec(cpu, mem, cond_holds(r, cc_field(opcode)))
    } else if opcode % 8 == ALU_IMM8_TYPE {
        alu_imm8_spec(opcode, cpu, mem)
    } else if opcode % 16 == POP_TYPE {
        lift(cpu, pop_r16stk_spec(opcode, r, mem))
    } else if opcode % 16 == PUSH_TYPE {
        lift(cpu, push_r16stk_spec(opcode, r, mem))
    } else if opcode == RET_OPCODE {
        lift(cpu, ret_spec(r, mem))
    } else if opcode == RETI_OPCODE {
        reti_spec(cpu, mem)
    } else if opcode == JP_IMM16_OPCODE {
        jp_cc_imm16_spec(cpu, mem, true)
    } else if opcode == JP_HL_OPCODE {
        Ok((cpu.with_pc(r.hl()), mem))
    } else if opcode == CALL_IMM16_OPCODE {
        call_cc_imm16_spec(cpu, mem, true)
    } else if opcode == PREFIX_OPCODE {
        prefix_step_spec(cpu, mem)
    } else if opcode == LDH_CMEM_A_OPCODE {
        lift(cpu, store_a_spec(r, mem, LDH_ADDRESS_START + r.c))
    } else if opcode == LDH_IMM8_A_OPCODE {
        ldh_imm8_spec(cpu, mem, true)
    } else if opcode == LD_IMM16_A_OPCODE {
        ld_imm16_spec(cpu, mem, true)
    } else if opcode == LDH_A_CMEM_OPCODE {
        lift(cpu, load_a_spec(r, mem, LDH_ADDRESS_START + r.c))
    } else if opcode == LDH_A_IMM8_OPCODE {
        ldh_imm8_spec(cpu, mem, false)
    } else if opcode == LD_A_IMM16_OPCODE {
        ld_imm16_spec(cpu, mem, false)
    } else if opcode == ADD_SP_IMM8_OPCODE {
        sp_imm8_spec(cpu, mem, false)
    } else if opcode == LD_HL_SP_IMM8_OPCODE {
        sp_imm8_spec(cpu, mem, true)
    } else if opcode == LD_SP_HL_OPCODE {
        Ok((cpu.with_registers(Registers { sp: r.hl(), ..r }), mem))
    } else if opcode == DI_OPCODE {
        Ok((CPU { ime: false, ..cpu }, mem))
    } else if opcode == EI_OPCODE {
        Ok((CPU { ime: true, ..cpu }, mem))
    } else {
        Err((Error::UnsupportedInstruction(opcode), cpu, mem))
    }
}

/// Executes a block-3 opcode (`11xxxxxx`), `pc` already past it.
pub fn execute(opcode: u8, cpu: &mut CPU, mmu: &mut MMU) -> (r: Result<(), Error>)
    requires
        old(mmu).wf(),
        opcode >= 0xC0,
    ensures
        final(mmu).wf(),
        outcome(r, *final(cpu), final(mmu)@, block_3_spec(opcode, *old(cpu), old(mmu)@)),
{
    reveal(block_3_spec);
    let low3 = opcode % 8;
    if low3 == RST_TYPE {
        return rst_tgt3(opcode, &mut cpu.registers, mmu);
    }
    if opcode < CONDITIONAL_LIMIT {
        if low3 == RET_CC_TYPE {
            return ret_cc(opcode, &mut cpu.registers, mmu);
        } else if low3 == JP_CC_IMM16_TYPE {
            return jp_cc_imm16(opcode, cpu, mmu);
        } else if low3 == CALL_CC_IMM16_TYPE {
            return call_cc_imm16(opcode, cpu, mmu);
        }
    }
    if low3 == ALU_IMM8_TYPE {
        return alu_imm8(opcode, cpu, mmu);
    }
    let low4 = opcode % 16;
    if low4 == POP_TYPE {
        return pop_r16stk(opcode, &mut cpu.registers, mmu);
    } else if low4 == PUSH_TYPE {
        return push_r16stk(opcode, &mut cpu.registers, mmu);
    }
    match opcode {
        RET_OPCODE => ret(&mut cpu.registers, mmu),
        RETI_OPCODE => reti(cpu, mmu),
        JP_IMM16_OPCODE => jp_imm16(cpu, mmu),
        JP_HL_OPCODE => {
            jp_hl(cpu);
            Ok(())
        },
        CALL_IMM16_OPCODE => call_imm16(cpu, mmu),
        PREFIX_OPCODE => prefix(cpu, mmu),
        LDH_CMEM_A_OPCODE => ldh_cmem_a(&mut cpu.registers, mmu),
        LDH_IMM8_A_OPCODE => ldh_imm8_a(cpu, mmu),
        LD_IMM16_A_OPCODE => ld_imm16_a(cpu, mmu),
        LDH_A_CMEM_OPCODE => ldh_a_cmem(&mut cpu.registers, mmu),
        LDH_A_IMM8_OPCODE => ldh_a_imm8(cpu, mmu),
        LD_A_IMM16_OPCODE => ld_a_imm16(cpu, mmu),
        ADD_SP_IMM8_OPCODE => add_sp_imm8(cpu, mmu),
        LD_HL_SP_IMM8_OPCODE => ld_hl_sp_imm8(cpu, mmu),
        LD_SP_HL_OPCODE => {
            ld_sp_hl(&mut cpu.registers);
            Ok(())
        },
        DI_OPCODE => {
            di(cpu);
            Ok(())
        },
        EI_OPCODE => {
            ei(cpu);
            Ok(())
        },
        _ => Err(Error::UnsupportedInstruction(opcode)),
    }
}

fn alu_imm8(opcode: u8, cpu: &mut CPU, mmu: &MMU) -> (r: Result<(), Error>)
    requires
        mmu.wf(),
    ensures
        outcome(r, *final(cpu), mmu@, alu_imm8_spec(opcode, *old(cpu), mmu@)),
{
    let operand = cpu.fetch_next_word(mmu)?;
    alu(opcode, operand, &mut cpu.registers)
}

fn prefix(cpu: &mut CPU, mmu: &mut MMU) -> (r: Result<(), Error>)
    requires
        old(mmu).wf(),
    ensures
        final(mmu).wf(),
        outcome(r, *final(cpu), final(mmu)@, prefix_step_spec(*old(cpu), old(mmu)@)),
{
    let opcode = cpu.fetch_next_word(mmu)?;
    prefix::execute(opcode, &mut cpu.registers, mmu)
}

/// Pushes `value` onto the stack.
pub fn push(value: u16, registers: &mut Registers, mmu: &mut MMU) -> (r: Result<(), Error>)
    requires
        old(mmu).wf(),
    ensures
        final(mmu).wf(),
        outcome(r, *final(registers), final(mmu)@, push_spec(*old(registers), old(mmu)@, value)),
{
    let sp = if registers.sp < 2 {
        registers.sp + 0xFFFE
    } else {
        registers.sp - 2
    };
    mmu.set_dword(sp as usize, value)?;
    registers.sp = sp;
    Ok(())
}

/// Pops a value off the stack.
pub fn pop(registers: &mut Registers, mmu: &MMU) -> (r: Result<u16, Error>)
    requires
        mmu.wf(),
    ensures
        match pop_spec(*old(registers), mmu@) {
            Ok((v, r2)) => r == Ok::<u16, Error>(v) && *final(registers) == r2,
            Err(e) => r == Err::<u16, Error>(e) && *final(registers) == *old(registers),
        },
{
    let result = mmu.get_dword(registers.sp as usize)?;
    registers.sp = if registers.sp >= 0xFFFE {
        registers.sp - 0xFFFE
    } else {
        registers.sp + 2
    };
    Ok(result)
}

fn push_r16stk(opcode: u8, registers: &mut Registers, mmu: &mut MMU) -> (r: Result<(), Error>)
    requires
        old(mmu).wf(),
    ensures
        final(mmu).wf(),
        outcome(r, *final(registers), final(mmu)@, push_r16stk_spec(opcode, *old(registers), old(mmu)@)),
{
    let register = get_r16_code(opcode);
    let value = registers.get_dword_stk(register)?;
    push(value, registers, mmu)
}

fn pop_r16stk(opcode: u8, registers: &mut Registers, mmu: &MMU) -> (r: Result<(), Error>)
    requires
        mmu.wf(),
    ensures
        outcome(r, *final(registers), mmu@, pop_r16stk_spec(opcode, *old(registers), mmu@)),
{
    let register = get_r16_code(opcode);
    let value = pop(registers, mmu)?;
    registers.set_dword_stk(register, value)
}

fn ret(registers: &mut Registers, mmu: &MMU) -> (r: Result<(), Error>)
    requires
        mmu.wf(),
    ensures
        outcome(r, *final(registers), mmu@, ret_spec(*old(registers), mmu@)),
{
    let value = pop(registers, mmu)?;
    registers.pc = value;
    Ok(())
}

fn reti(cpu: &mut CPU, mmu: &MMU) -> (r: Result<(), Error>)
    requires
        mmu.wf(),
    ensures
        outcome(r, *final(cpu), mmu@, reti_spec(*old(cpu), mmu@)),
{
    ret(&mut cpu.registers, mmu)?;
    cpu.ime = true;
    Ok(())
}

fn ret_cc(opcode: u8, registers: &mut Registers, mmu: &MMU) -> (r: Result<(), Error>)
    requires
        mmu.wf(),
    ensures
        outcome(r, *final(registers), mmu@, ret_cc_spec(opcode, *old(registers), mmu@)),
{
    if check_cc(opcode, registers)? {
        ret(registers, mmu)?;
    }
    Ok(())
}

/// Evaluates the condition code in bits 4..3 of `opcode`.
pub fn check_cc(opcode: u8, registers: &Registers) -> (r: Result<bool, Error>)
    ensures
        r == Ok::<bool, Error>(cond_holds(*registers, cc_field(opcode))),
{
    match (opcode / 8) % 4 {
        NZ_CC => Ok(!registers.get_flag(Flags::Z)),
        Z_CC => Ok(registers.get_flag(Flags::Z)),
        NC_CC => Ok(!registers.get_flag(Flags::C)),
        C_CC => Ok(registers.get_flag(Flags::C)),
        _ => Err(Error::InvalidConditionCode(opcode)),
    }
}

fn jp_imm16(cpu: &mut CPU, mmu: &MMU) -> (r: Result<(), Error>)
    requires
        mmu.wf(),
    ensures
        outcome(r, *final(cpu), mmu@, jp_cc_imm16_spec(*old(cpu), mmu@, true)),
{
    let imm16 = cpu.fetch_next_dword(mmu)?;
    cpu.registers.pc = imm16;
    Ok(())
}

fn jp_cc_imm16(opcode: u8, cpu: &mut CPU, mmu: &MMU) -> (r: Result<(), Error>)
    requires
        mmu.wf(),
    ensures
        outcome(
            r,
            *final(cpu),
            mmu@,
            jp_cc_imm16_spec(*old(cpu), mmu@, cond_holds(old(cpu).registers, cc_field(opcode))),
        ),
{
    let cc = check_cc(opcode, &cpu.registers)?;
    let imm16 = cpu.fetch_next_dword(mmu)?;
    if cc {
        cpu.registers.pc = imm16;
    }
    Ok(())
}

fn jp_hl(cpu: &mut CPU)
    ensures
        *final(cpu) == old(cpu).with_pc(old(cpu).registers.hl()),
{
    let hl = cpu.registers.get_hl();
    cpu.registers.pc = hl;
}

fn call(fn_address: u16, registers: &mut Registers, mmu: &mut MMU) -> (r: Result<(), Error>)
    requires
        old(mmu).wf(),
    ensures
        final(mmu).wf(),
        outcome(r, *final(registers), final(mmu)@, call_spec(*old(registers), old(mmu)@, fn_address)),
{
    let pc = registers.pc;
    push(pc, registers, mmu)?;
    registers.pc = fn_address;
    Ok(())
}

fn call_imm16(cpu: &mut CPU, mmu: &mut MMU) -> (r: Result<(), Error>)
    requires
        old(mmu).wf(),
    ensures
        final(mmu).wf(),
        outcome(r, *final(cpu), final(mmu)@, call_cc_imm16_spec(*old(cpu), old(mmu)@, true)),
{
    let imm16 = cpu.fetch_next_dword(mmu)?;
    call(imm16, &mut cpu.registers, mmu)
}

fn call_cc_imm16(opcode: u8, cpu: &mut CPU, mmu: &mut MMU) -> (r: Result<(), Error>)
    requires
        old(mmu).wf(),
    ensures
        final(mmu).wf(),
        outcome(
            r,
            *final(cpu),
            final(mmu)@,
            call_cc_imm16_spec(*old(cpu), old(mmu)@, cond_holds(old(cpu).registers, cc_field(opcode))),
        ),
{
    let cc = check_cc(opcode, &cpu.registers)?;
    let imm16 = cpu.fetch_next_dword(mmu)?;
    if cc {
        call(imm16, &mut cpu.registers, mmu)?;
    }
    Ok(())
}

fn rst_tgt3(opcode: u8, registers: &mut Registers, mmu: &mut MMU) -> (r: Result<(), Error>)
    requires
        old(mmu).wf(),
        opcode >= 0xC0,
        opcode % 8 == RST_TYPE,
    ensures
        final(mmu).wf(),
        outcome(r, *final(registers), final(mmu)@, call_spec(*old(registers), old(mmu)@, (opcode - 0xC7) as u16)),
{
    let target = opcode - 0xC7;
    call(target as u16, registers, mmu)
}

fn ldh_cmem_a(registers: &mut Registers, mmu: &mut MMU) -> (r: Result<(), Error>)
    requires
        old(mmu).wf(),
    ensures
        final(mmu).wf(),
        outcome(r, *final(registers), final(mmu)@, store_a_spec(*old(registers), old(mmu)@, LDH_ADDRESS_START + old(registers).c)),
{
    let address = LDH_ADDRESS_START + registers.c as usize;
    mmu.set_word(address, registers.a)
}

fn ldh_a_cmem(registers: &mut Registers, mmu: &MMU) -> (r: Result<(), Error>)
    requires
        mmu.wf(),
    ensures
        outcome(r, *final(registers), mmu@, load_a_spec(*old(registers), mmu@, LDH_ADDRESS_START + old(registers).c)),
{
    let address = LDH_ADDRESS_START + registers.c as usize;
    registers.a = mmu.get_word(address)?;
    Ok(())
}

fn ldh_imm8_a(cpu: &mut CPU, mmu: &mut MMU) -> (r: Result<(), Error>)
    requires
        old(mmu).wf(),
    ensures
        final(mmu).wf(),
        outcome(r, *final(cpu), final(mmu)@, ldh_imm8_spec(*old(cpu), old(mmu)@, true)),
{
    let address = LDH_ADDRESS_START + cpu.fetch_next_word(mmu)? as usize;
    mmu.set_word(address, cpu.registers.a)
}

fn ldh_a_imm8(cpu: &mut CPU, mmu: &MMU) -> (r: Result<(), Error>)
    requires
        mmu.wf(),
    ensures
        outcome(r, *final(cpu), mmu@, ldh_imm8_spec(*old(cpu), mmu@, false)),
{
    let address = LDH_ADDRESS_START + cpu.fetch_next_word(mmu)? as usize;
    cpu.registers.a = mmu.get_word(address)?;
    Ok(())
}

fn ld_imm16_a(cpu: &mut CPU, mmu: &mut MMU) -> (r: Result<(), Error>)
    requires
        old(mmu).wf(),
    ensures
        final(mmu).wf(),
        outcome(r, *final(cpu), final(mmu)@, ld_imm16_spec(*old(cpu), old(mmu)@, true)),
{
    let address = cpu.fetch_next_dword(mmu)?;
    mmu.set_word(address as usize, cpu.registers.a)
}

fn ld_a_imm16(cpu: &mut CPU, mmu: &MMU) -> (r: Result<(), Error>)
    requires
        mmu.wf(),
    ensures
        outcome(r, *final(cpu), mmu@, ld_imm16_spec(*old(cpu), mmu@, false)),
{
    let address = cpu.fetch_next_dword(mmu)?;
    cpu.registers.a = mmu.get_word(address as usize)?;
    Ok(())
}

/// `sp` plus the two's-complement byte `value`, setting the flags of the sum.
fn sp_offset(value: u8, registers: &mut Registers) -> (r: u16)
    ensures
        (r, *final(registers)) == sp_offset_spec(*old(registers), value),
{
    let sp = registers.sp;
    registers.reset_flags();
    registers.set_flags(Flags::H, sp % 16 + value as u16 % 16 > 15);
    registers.set_flags(Flags::C, sp % 256 + value as u16 > 255);
    let wide: u32 = if value >= 128 {
        sp as u32 + value as u32 + 0xFF00
    } else {
        sp as u32 + value as u32
    };
    (wide % 0x10000) as u16
}

fn add_sp_imm8(cpu: &mut CPU, mmu: &MMU) -> (r: Result<(), Error>)
    requires
        mmu.wf(),
    ensures
        outcome(r, *final(cpu), mmu@, sp_imm8_spec(*old(cpu), mmu@, false)),
{
    let value = cpu.fetch_next_word(mmu)?;
    let result = sp_offset(value, &mut cpu.registers);
    cpu.registers.sp = result;
    Ok(())
}

fn ld_hl_sp_imm8(cpu: &mut CPU, mmu: &MMU) -> (r: Result<(), Error>)
    requires
        mmu.wf(),
    ensures
        outcome(r, *final(cpu), mmu@, sp_imm8_spec(*old(cpu), mmu@, true)),
{
    let value = cpu.fetch_next_word(mmu)?;
    let result = sp_offset(value, &mut cpu.registers);
    cpu.registers.set_hl(result);
    Ok(())
}

fn ld_sp_hl(registers: &mut Registers)
    ensures
        *final(registers) == (Registers { sp: old(registers).hl(), ..*old(registers) }),
{
    registers.sp = registers.get_hl();
}

fn di(cpu: &mut CPU)
    ensures
        *final(cpu) == (CPU { ime: false, ..*old(cpu) }),
{
    cpu.ime = false;
}

fn ei(cpu: &mut CPU)
    ensures
        *final(cpu) == (CPU { ime: true, ..*old(cpu) }),
{
    cpu.ime = true;
}

/// Stack discipline: a push moves `sp` down by two; a pop right after it
/// returns the value pushed and leaves every register, `sp` included, as it
/// was before the push.
pub proof fn lemma_push_pop(r: Registers, mem: Memory, v: u16)
    requires
        push_spec(r, mem, v) is Ok,
    ensures
        push_spec(r, mem, v) matches Ok((r2, m2)) && r2.sp == (r.sp - 2) % 0x10000 && pop_spec(
            r2,
            m2,
        ) == Ok::<(u16, Registers), Error>((v, r)),
{
    let sp = ((r.sp - 2) % 0x10000) as u16;
    let m2 = mem.insert(sp as int, (v % 256) as u8).insert(sp + 1, (v / 256) as u8);
    assert(m2[sp as int] == (v % 256) as u8);
    assert(m2[sp + 1] == (v / 256) as u8);
}

/// A pop moves `sp` up by two.
pub proof fn lemma_pop_moves_sp(r: Registers, mem: Memory)
    requires
        pop_spec(r, mem) is Ok,
    ensures
        pop_spec(r, mem) matches Ok((v, r2)) && r2.sp == (r.sp + 2) % 0x10000 && r2 == (Registers {
            sp: r2.sp,
            ..r
        }),
{
}

} // verus!
