use vstd::prelude::*;

use crate::cpu::instructions::{get_r8_code, get_src_code, r8_field, src_field, store_r8, RegStep};
use crate::cpu::outcome;
use crate::cpu::registers::{read_r8, Flags, Registers};
use crate::error::Error;
use crate::mmu::{Memory, MMU};

verus! {

pub const SHIFT_OPCODE: u8 = 0b00;
pub const BIT_OPCODE: u8 = 0b01;
pub const RES_OPCODE: u8 = 0b10;
pub const SET_OPCODE: u8 = 0b11;

pub const RLC_OPCODE: u8 = 0b000;
pub const RRC_OPCODE: u8 = 0b001;
pub const RL_OPCODE: u8 = 0b010;
pub const RR_OPCODE: u8 = 0b011;
pub const SLA_OPCODE: u8 = 0b100;
pub const SRA_OPCODE: u8 = 0b101;
pub const SWAP_OPCODE: u8 = 0b110;
pub const SRL_OPCODE: u8 = 0b111;

/// The byte with only bit `index` set.
pub open spec fn bit_mask_spec(index: u8) -> u8 {
    if index == 0 {
        1
    } else if index == 1 {
        2
    } else if index == 2 {
        4
    } else if index == 3 {
        8
    } else if index == 4 {
        16
    } else if index == 5 {
        32
    } else if index == 6 {
        64
    } else {
        128
    }
}

/// The rotate or shift `kind` applied to `v` with carry flag `carry`: the
/// result and the bit shifted out.
pub open spec fn shift_spec(kind: u8, v: u8, carry: bool) -> (u8, bool) {
    let cin: int = if carry {
        1
    } else {
        0
    };
    if kind == RLC_OPCODE {
        (((v * 2) % 256 + v / 128) as u8, v >= 128)
    } else if kind == RRC_OPCODE {
        ((v / 2 + (v % 2) * 128) as u8, v % 2 == 1)
    } else if kind == RL_OPCODE {
        (((v * 2) % 256 + cin) as u8, v >= 128)
    } else if kind == RR_OPCODE {
        ((v / 2 + cin * 128) as u8, v % 2 == 1)
    } else if kind == SLA_OPCODE {
        (((v * 2) % 256) as u8, v >= 128)
    } else if kind == SRA_OPCODE {
        ((v / 2 + (v / 128) * 128) as u8, v % 2 == 1)
    } else if kind == SWAP_OPCODE {
        (((v % 16) * 16 + v / 16) as u8, false)
    } else {
        ((v / 2) as u8, v % 2 == 1)
    }
}

/// Storing the result `res` of a rotate or shift, then setting zero from it
/// and carry to `carry` after resetting the flags.
pub open spec fn shift_result(r: Registers, mem: Memory, code: u8, res: u8, carry: bool) -> RegStep {
    match store_r8(r, mem, code, res) {
        Err(x) => Err(x),
        Ok((r2, m2)) => Ok((r2.with_flags(res == 0, false, false, carry), m2)),
    }
}

/// The effect of the prefixed opcode `opcode` on the operand named by its bits
/// 2..0. Rotates and shifts reset the flags, then set zero from the result
/// and carry from the bit shifted out. BIT sets zero when the tested bit is
/// clear, clears subtract, sets half-carry and leaves carry and the operand.
/// RES and SET change only the targeted bit and no flag.
pub open spec fn prefix_spec(opcode: u8, r: Registers, mem: Memory) -> RegStep {
    let code = src_field(opcode);
    let field = r8_field(opcode);
    match read_r8(r, mem, code) {
        Err(e) => Err((e, r, mem)),
        Ok(v) => if opcode / 64 == SHIFT_OPCODE {
            let (res, c) = shift_spec(field, v, r.carry);
            shift_result(r, mem, code, res, c)
        } else if opcode / 64 == BIT_OPCODE {
            Ok((r.with_flags(v & bit_mask_spec(field) == 0, false, true, r.carry), mem))
        } else if opcode / 64 == RES_OPCODE {
            store_r8(r, mem, code, v & !bit_mask_spec(field))
        } else {
            store_r8(r, mem, code, v | bit_mask_spec(field))
        },
    }
}

/// Executes an opcode of the prefixed table.
pub fn execute(opcode: u8, registers: &mut Registers, mmu: &mut MMU) -> (r: Result<(), Error>)
    requires
        old(mmu).wf(),
    ensures
        final(mmu).wf(),
        outcome(r, *final(registers), final(mmu)@, prefix_spec(opcode, *old(registers), old(mmu)@)),
{
    match opcode / 64 {
        BIT_OPCODE => return bit_b3_r8(opcode, registers, mmu),
        RES_OPCODE => return res_b3_r8(opcode, registers, mmu),
        SET_OPCODE => return set_b3_r8(opcode, registers, mmu),
        _ => {},
    }
    match get_r8_code(opcode) {
        RLC_OPCODE => rlc_r8(opcode, registers, mmu),
        RRC_OPCODE => rrc_r8(opcode, registers, mmu),
        RL_OPCODE => rl_r8(opcode, registers, mmu),
        RR_OPCODE => rr_r8(opcode, registers, mmu),
        SLA_OPCODE => sla_r8(opcode, registers, mmu),
        SRA_OPCODE => sra_r8(opcode, registers, mmu),
        SWAP_OPCODE => swap_r8(opcode, registers, mmu),
        _ => srl_r8(opcode, registers, mmu),
    }
}

/// The byte with only bit `index` set.
pub fn bit_mask(index: u8) -> (r: u8)
    ensures
        r == bit_mask_spec(index),
{
    match index {
        0 => 1,
        1 => 2,
        2 => 4,
        3 => 8,
        4 => 16,
        5 => 32,
        6 => 64,
        _ => 128,
    }
}

/// Writes back the result of a rotate or shift with its flags.
fn finish_shift(
    register: u8,
    result: u8,
    carry: bool,
    registers: &mut Registers,
    mmu: &mut MMU,
) -> (r: Result<(), Error>)
    requires
        old(mmu).wf(),
    ensures
        final(mmu).wf(),
        outcome(
            r,
            *final(registers),
            final(mmu)@,
            shift_result(*old(registers), old(mmu)@, register, result, carry),
        ),
{
    registers.set_word(register, result, mmu)?;
    registers.reset_flags();
    registers.set_flags(Flags::Z, result == 0);
    registers.set_flags(Flags::C, carry);
    Ok(())
}

fn rlc_r8(opcode: u8, registers: &mut Registers, mmu: &mut MMU) -> (r: Result<(), Error>)
    requires
        old(mmu).wf(),
        opcode / 64 == SHIFT_OPCODE,
        r8_field(opcode) == RLC_OPCODE,
    ensures
        final(mmu).wf(),
        outcome(r, *final(registers), final(mmu)@, prefix_spec(opcode, *old(registers), old(mmu)@)),
{
    let register = get_src_code(opcode);
    let value = registers.get_word(register, mmu)?;
    let shifted = ((value as u16 * 2) % 256) as u8 + value / 128;
    finish_shift(register, shifted, value >= 128, registers, mmu)
}

fn rrc_r8(opcode: u8, registers: &mut Registers, mmu: &mut MMU) -> (r: Result<(), Error>)
    requires
        old(mmu).wf(),
        opcode / 64 == SHIFT_OPCODE,
        r8_field(opcode) == RRC_OPCODE,
    ensures
        final(mmu).wf(),
        outcome(r, *final(registers), final(mmu)@, prefix_spec(opcode, *old(registers), old(mmu)@)),
{
    let register = get_src_code(opcode);
    let value = registers.get_word(register, mmu)?;
    let shifted = value / 2 + (value % 2) * 128;
    finish_shift(register, shifted, value % 2 == 1, registers, mmu)
}

fn rl_r8(opcode: u8, registers: &mut Registers, mmu: &mut MMU) -> (r: Result<(), Error>)
    requires
        old(mmu).wf(),
        opcode / 64 == SHIFT_OPCODE,
        r8_field(opcode) == RL_OPCODE,
    ensures
        final(mmu).wf(),
        outcome(r, *final(registers), final(mmu)@, prefix_spec(opcode, *old(registers), old(mmu)@)),
{
    let register = get_src_code(opcode);
    let value = registers.get_word(register, mmu)?;
    let carry: u8 = if registers.get_flag(Flags::C) {
        1
    } else {
        0
    };
    let shifted = ((value as u16 * 2) % 256) as u8 + carry;
    finish_shift(register, shifted, value >= 128, registers, mmu)
}

fn rr_r8(opcode: u8, registers: &mut Registers, mmu: &mut MMU) -> (r: Result<(), Error>)
    requires
        old(mmu).wf(),
        opcode / 64 == SHIFT_OPCODE,
        r8_field(opcode) == RR_OPCODE,
    ensures
        final(mmu).wf(),
        outcome(r, *final(registers), final(mmu)@, prefix_spec(opcode, *old(registers), old(mmu)@)),
{
    let register = get_src_code(opcode);
    let value = registers.get_word(register, mmu)?;
    let carry: u8 = if registers.get_flag(Flags::C) {
        128
    } else {
        0
    };
    let shifted = value / 2 + carry;
    finish_shift(register, shifted, value % 2 == 1, registers, mmu)
}

fn sla_r8(opcode: u8, registers: &mut Registers, mmu: &mut MMU) -> (r: Result<(), Error>)
    requires
        old(mmu).wf(),
        opcode / 64 == SHIFT_OPCODE,
        r8_field(opcode) == SLA_OPCODE,
    ensures
        final(mmu).wf(),
        outcome(r, *final(registers), final(mmu)@, prefix_spec(opcode, *old(registers), old(mmu)@)),
{
    let register = get_src_code(opcode);
    let value = registers.get_word(register, mmu)?;
    let shifted = ((value as u16 * 2) % 256) as u8;
    finish_shift(register, shifted, value >= 128, registers, mmu)
}

fn sra_r8(opcode: u8, registers: &mut Registers, mmu: &mut MMU) -> (r: Result<(), Error>)
    requires
        old(mmu).wf(),
        opcode / 64 == SHIFT_OPCODE,
        r8_field(opcode) == SRA_OPCODE,
    ensures
        final(mmu).wf(),
        outcome(r, *final(registers), final(mmu)@, prefix_spec(opcode, *old(registers), old(mmu)@)),
{
    let register = get_src_code(opcode);
    let value = registers.get_word(register, mmu)?;
    let shifted = value / 2 + (value / 128) * 128;
    finish_shift(register, shifted, value % 2 == 1, registers, mmu)
}

fn swap_r8(opcode: u8, registers: &mut Registers, mmu: &mut MMU) -> (r: Result<(), Error>)
    requires
        old(mmu).wf(),
        opcode / 64 == SHIFT_OPCODE,
        r8_field(opcode) == SWAP_OPCODE,
    ensures
        final(mmu).wf(),
        outcome(r, *final(registers), final(mmu)@, prefix_spec(opcode, *old(registers), old(mmu)@)),
{
    let register = get_src_code(opcode);
    let value = registers.get_word(register, mmu)?;
    let swapped = (value % 16) * 16 + value / 16;
    finish_shift(register, swapped, false, registers, mmu)
}

fn srl_r8(opcode: u8, registers: &mut Registers, mmu: &mut MMU) -> (r: Result<(), Error>)
    requires
        old(mmu).wf(),
        opcode / 64 == SHIFT_OPCODE,
        r8_field(opcode) == SRL_OPCODE,
    ensures
        final(mmu).wf(),
        outcome(r, *final(registers), final(mmu)@, prefix_spec(opcode, *old(registers), old(mmu)@)),
{
    let register = get_src_code(opcode);
    let value = registers.get_word(register, mmu)?;
    let shifted = value / 2;
    finish_shift(register, shifted, value % 2 == 1, registers, mmu)
}

fn bit_b3_r8(opcode: u8, registers: &mut Registers, mmu: &MMU) -> (r: Result<(), Error>)
    requires
        mmu.wf(),
        opcode / 64 == BIT_OPCODE,
    ensures
        outcome(r, *final(registers), mmu@, prefix_spec(opcode, *old(registers), mmu@)),
{
    let register = get_src_code(opcode);
    let value = registers.get_word(register, mmu)?;
    let mask = bit_mask(get_r8_code(opcode));
    registers.set_flags(Flags::Z, value & mask == 0);
    registers.set_flags(Flags::N, false);
    registers.set_flags(Flags::H, true);
    Ok(())
}

fn res_b3_r8(opcode: u8, registers: &mut Registers, mmu: &mut MMU) -> (r: Result<(), Error>)
    requires
        old(mmu).wf(),
        opcode / 64 == RES_OPCODE,
    ensures
        final(mmu).wf(),
        outcome(r, *final(registers), final(mmu)@, prefix_spec(opcode, *old(registers), old(mmu)@)),
{
    let register = get_src_code(opcode);
    let value = registers.get_word(register, mmu)?;
    let mask = bit_mask(get_r8_code(opcode));
    registers.set_word(register, value & !mask, mmu)
}

fn set_b3_r8(opcode: u8, registers: &mut Registers, mmu: &mut MMU) -> (r: Result<(), Error>)
    requires
        old(mmu).wf(),
        opcode / 64 == SET_OPCODE,
    ensures
        final(mmu).wf(),
        outcome(r, *final(registers), final(mmu)@, prefix_spec(opcode, *old(registers), old(mmu)@)),
{
    let register = get_src_code(opcode);
    let value = registers.get_word(register, mmu)?;
    let mask = bit_mask(get_r8_code(opcode));
    registers.set_word(register, value | mask, mmu)
}

} // verus!
