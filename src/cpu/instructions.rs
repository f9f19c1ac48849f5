pub mod alu;
pub mod block_0;
pub mod block_1;
pub mod block_2;
pub mod block_3;
pub mod loader;
pub mod prefix;

use vstd::prelude::*;

use crate::cpu::registers::{write_r8, Registers};
use crate::cpu::{outcome, Step, BLOCK_0, BLOCK_1, BLOCK_2, CPU};
use crate::error::Error;
use crate::mmu::{Memory, MMU};

verus! {

pub const NZ_CC: u8 = 0;
pub const Z_CC: u8 = 1;
pub const NC_CC: u8 = 2;
pub const C_CC: u8 = 3;

/// What an instruction that touches only registers and memory leaves behind,
/// on success or with its error.
pub type RegStep = Result<(Registers, Memory), (Error, Registers, Memory)>;

/// Lifts a register-and-memory outcome to the whole core.
pub open spec fn lift(cpu: CPU, s: RegStep) -> Step {
    match s {
        Ok((r, m)) => Ok((cpu.with_registers(r), m)),
        Err((e, r, m)) => Err((e, cpu.with_registers(r), m)),
    }
}

/// Writing an 8-bit operand as a step: a failed write changes nothing.
pub open spec fn store_r8(r: Registers, mem: Memory, code: u8, v: u8) -> RegStep {
    match write_r8(r, mem, code, v) {
        Ok((r2, m2)) => Ok((r2, m2)),
        Err(e) => Err((e, r, mem)),
    }
}

/// Bits 5..4 of an opcode: a register-pair code.
pub open spec fn r16_field(opcode: u8) -> u8 {
    (opcode / 16) % 4
}

/// Bits 5..3 of an opcode: a destination register, an operation, a bit index
/// or a condition code (bits 4..3).
pub open spec fn r8_field(opcode: u8) -> u8 {
    (opcode / 8) % 8
}

/// Bits 2..0 of an opcode: a source register code.
pub open spec fn src_field(opcode: u8) -> u8 {
    opcode % 8
}

/// Whether condition code `cc` (NZ, Z, NC, C) holds.
pub open spec fn cond_holds(r: Registers, cc: u8) -> bool {
    if cc == NZ_CC {
        !r.zero
    } else if cc == Z_CC {
        r.zero
    } else if cc == NC_CC {
        !r.carry
    } else {
        r.carry
    }
}

pub fn get_r16_code(opcode: u8) -> (r: u8)
    ensures
        r == r16_field(opcode),
        r < 4,
{
    (opcode / 16) % 4
}

pub fn get_r8_code(opcode: u8) -> (r: u8)
    ensures
        r == r8_field(opcode),
        r < 8,
{
    (opcode / 8) % 8
}

pub fn get_src_code(opcode: u8) -> (r: u8)
    ensures
        r == src_field(opcode),
        r < 8,
{
    opcode % 8
}

/// The effect of executing `opcode`, `pc` already past it: the two high
/// bits select the block.
pub open spec fn execute_spec(opcode: u8, cpu: CPU, mem: Memory) -> Step {
    if opcode / 64 == BLOCK_0 {
        block_0::block_0_spec(opcode, cpu, mem)
    } else if opcode / 64 == BLOCK_1 {
        lift(cpu, block_1::block_1_spec(opcode, cpu.registers, mem))
    } else if opcode / 64 == BLOCK_2 {
        lift(cpu, block_2::block_2_spec(opcode, cpu.registers, mem))
    } else {
        block_3::block_3_spec(opcode, cpu, mem)
    }
}

/// Executes `opcode`, whose byte has already been fetched.
pub fn execute(opcode: u8, cpu: &mut CPU, mmu: &mut MMU) -> (r: Result<(), Error>)
    requires
        old(mmu).wf(),
    ensures
        final(mmu).wf(),
        outcome(r, *final(cpu), final(mmu)@, execute_spec(opcode, *old(cpu), old(mmu)@)),
{
    match opcode / 64 {
        BLOCK_0 => block_0::execute(opcode, cpu, mmu),
        BLOCK_1 => block_1::execute(opcode, &mut cpu.registers, mmu),
        BLOCK_2 => block_2::execute(opcode, &mut cpu.registers, mmu),
        _ => block_3::execute(opcode, cpu, mmu),
    }
}

/// The opcodes that match no instruction: STOP, HALT and the eleven unused
/// encodings of block 3.
pub open spec fn is_unsupported(opcode: u8) -> bool {
    opcode == 0x10 || opcode == 0x76 || opcode == 0xD3 || opcode == 0xDB || opcode == 0xDD
        || opcode == 0xE3 || opcode == 0xE4 || opcode == 0xEB || opcode == 0xEC || opcode == 0xED
        || opcode == 0xF4 || opcode == 0xFC || opcode == 0xFD
}

/// An opcode that matches no instruction fails with `UnsupportedInstruction`
/// and leaves the core and memory exactly as they were.
pub proof fn lemma_unsupported_changes_nothing(opcode: u8, cpu: CPU, mem: Memory)
    requires
        is_unsupported(opcode),
    ensures
        execute_spec(opcode, cpu, mem) == Step::Err((Error::UnsupportedInstruction(opcode), cpu, mem)),
{
    reveal(block_0::block_0_spec);
    reveal(block_3::block_3_spec);
}

} // verus!
