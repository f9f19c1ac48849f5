use vstd::prelude::*;

use crate::cpu::instructions::loader::{load, load_spec};
use crate::cpu::instructions::RegStep;
use crate::cpu::outcome;
use crate::cpu::registers::Registers;
use crate::error::Error;
use crate::mmu::{Memory, MMU};

verus! {

/// The encoding that would load the byte at HL into itself halts the core
/// instead; halting is not modelled, so it is refused.
pub const HALT_OPCODE: u8 = 0x76;

pub open spec fn block_1_spec(opcode: u8, r: Registers, mem: Memory) -> RegStep {
    if opcode == HALT_OPCODE {
        Err((Error::UnsupportedInstruction(opcode), r, mem))
    } else {
        load_spec(opcode, r, mem)
    }
}

/// Executes a block-1 opcode (`01xxxxxx`): an 8-bit load.
pub fn execute(opcode: u8, registers: &mut Registers, mmu: &mut MMU) -> (r: Result<(), Error>)
    requires
        old(mmu).wf(),
    ensures
        final(mmu).wf(),
        outcome(r, *final(registers), final(mmu)@, block_1_spec(opcode, *old(registers), old(mmu)@)),
{
    if opcode == HALT_OPCODE {
        return Err(Error::UnsupportedInstruction(opcode));
    }
    load(opcode, registers, mmu)
}

} // verus!
