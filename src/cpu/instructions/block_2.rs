use vstd::prelude::*;

use crate::cpu::instructions::alu::{alu_register, alu_spec, CP_OPERATION, SUB_OPERATION};
use crate::cpu::instructions::{r8_field, src_field, RegStep};
use crate::cpu::outcome;
use crate::cpu::registers::{read_r8, Registers};
use crate::error::Error;
use crate::mmu::{Memory, MMU};

verus! {

pub open spec fn block_2_spec(opcode: u8, r: Registers, mem: Memory) -> RegStep {
    match read_r8(r, mem, src_field(opcode)) {
        Err(e) => Err((e, r, mem)),
        Ok(v) => Ok((alu_spec(r8_field(opcode), r, v), mem)),
    }
}

/// Executes a block-2 opcode (`10xxxxxx`): an accumulator operation on a
/// register or the byte at HL.
pub fn execute(opcode: u8, registers: &mut Registers, mmu: &mut MMU) -> (r: Result<(), Error>)
    requires
        old(mmu).wf(),
    ensures
        final(mmu).wf(),
        outcome(r, *final(registers), final(mmu)@, block_2_spec(opcode, *old(registers), old(mmu)@)),
{
    alu_register(opcode, registers, mmu)
}

/// Addition and subtraction on the accumulator (opcodes 0x80 to 0x9F), for
/// every source operand, the byte at HL included: the result is `a ± operand
/// ± carry-in` modulo 256 (carry-in only for ADC and SBC); carry is set
/// exactly when the unsigned operation overflows or borrows, half-carry
/// exactly when the low nibble carries or borrows, zero exactly when the
/// result is 0, and subtract exactly for SUB and SBC. Nothing else changes.
pub proof fn lemma_add_sub_family(opcode: u8, r: Registers, mem: Memory)
    requires
        0x80 <= opcode < 0xA0,
        read_r8(r, mem, src_field(opcode)) is Ok,
    ensures
        read_r8(r, mem, src_field(opcode)) matches Ok(operand) && block_2_spec(
            opcode,
            r,
            mem,
        ) matches Ok((r2, m)) && m == mem && ({
            let sub = opcode >= 0x90;
            let cin: int = if opcode % 16 >= 8 && r.carry {
                1
            } else {
                0
            };
            let total: int = if sub {
                r.a - operand - cin
            } else {
                r.a + operand + cin
            };
            let low: int = if sub {
                r.a % 16 - operand % 16 - cin
            } else {
                r.a % 16 + operand % 16 + cin
            };
            &&& r2.a as int == total % 256
            &&& r2.carry == (total < 0 || total > 255)
            &&& r2.half_carry == (low < 0 || low > 15)
            &&& r2.zero == (r2.a == 0)
            &&& r2.subtract == sub
            &&& r2 == Registers {
                a: r2.a,
                zero: r2.zero,
                subtract: r2.subtract,
                half_carry: r2.half_carry,
                carry: r2.carry,
                ..r
            }
        }),
{
}

/// Compare (opcodes 0xB8 to 0xBF) leaves the accumulator as it was and sets
/// the flags exactly as the subtraction of the same operand (opcode - 0x28)
/// does.
pub proof fn lemma_compare_is_subtract_without_store(opcode: u8, r: Registers, mem: Memory)
    requires
        0xB8 <= opcode <= 0xBF,
        read_r8(r, mem, src_field(opcode)) is Ok,
    ensures
        block_2_spec(opcode, r, mem) matches Ok((r2, m2)) && block_2_spec(
            (opcode - 0x28) as u8,
            r,
            mem,
        ) matches Ok((r3, m3)) && r2.a == r.a && r2 == (Registers { a: r.a, ..r3 }) && m2 == mem
            && m3 == mem,
{
    let sub_opcode = (opcode - 0x28) as u8;
    assert(opcode / 8 == 23 && sub_opcode / 8 == 18);
    assert(opcode % 8 == sub_opcode % 8);
    assert(r8_field(opcode) == CP_OPERATION);
    assert(r8_field(sub_opcode) == SUB_OPERATION);
    assert(src_field(sub_opcode) == src_field(opcode));
}

} // verus!
