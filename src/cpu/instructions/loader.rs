use vstd::prelude::*;

use crate::cpu::instructions::{get_r8_code, get_src_code, r8_field, src_field, store_r8, RegStep};
use crate::cpu::outcome;
use crate::cpu::registers::{read_r8, Registers};
use crate::error::Error;
use crate::mmu::{Memory, MMU};

verus! {

/// Copies the operand named by bits 2..0 into the one named by bits 5..3.
pub open spec fn load_spec(opcode: u8, r: Registers, mem: Memory) -> RegStep {
    match read_r8(r, mem, src_field(opcode)) {
        Err(e) => Err((e, r, mem)),
        Ok(v) => store_r8(r, mem, r8_field(opcode), v),
    }
}

pub fn load(opcode: u8, registers: &mut Registers, mmu: &mut MMU) -> (r: Result<(), Error>)
    requires
        old(mmu).wf(),
    ensures
        final(mmu).wf(),
        outcome(r, *final(registers), final(mmu)@, load_spec(opcode, *old(registers), old(mmu)@)),
{
    let dest_register = get_r8_code(opcode);
    let src_register = get_src_code(opcode);
    let src_value = registers.get_word(src_register, mmu)?;
    registers.set_word(dest_register, src_value, mmu)
}

} // verus!
