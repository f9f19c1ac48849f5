use vstd::prelude::*;

use crate::cpu::instructions::{get_r8_code, get_src_code, r8_field, src_field};
use crate::cpu::registers::{read_r8, Flags, Registers};
use crate::error::Error;
use crate::mmu::MMU;

verus! {

pub const ADD_OPERATION: u8 = 0b000;
pub const ADC_OPERATION: u8 = 0b001;
pub const SUB_OPERATION: u8 = 0b010;
pub const SBC_OPERATION: u8 = 0b011;
pub const AND_OPERATION: u8 = 0b100;
pub const XOR_OPERATION: u8 = 0b101;
pub const OR_OPERATION: u8 = 0b110;
pub const CP_OPERATION: u8 = 0b111;

/// The carry that an operation takes in: the carry flag for ADC and SBC.
pub open spec fn carry_in(operation: u8, r: Registers) -> int {
    if (operation == ADC_OPERATION || operation == SBC_OPERATION) && r.carry {
        1
    } else {
        0
    }
}

/// `a + x + cin` modulo 256.
pub open spec fn add_result(a: u8, x: u8, cin: int) -> u8 {
    ((a + x + cin) % 256) as u8
}

/// `a - x - cin` modulo 256.
pub open spec fn sub_result(a: u8, x: u8, cin: int) -> u8 {
    ((a - x - cin) % 256) as u8
}

/// The accumulator operation `operation` (bits 5..3 of the opcode) with
/// `operand`. Flags are reset first, then: add and subtract set carry on
/// unsigned overflow or borrow, half-carry on a carry or borrow out of the low
/// nibble, and subtract for the subtract family; and sets half-carry; all set
/// zero from the result. Compare computes a subtraction and keeps `a`.
pub open spec fn alu_spec(operation: u8, r: Registers, operand: u8) -> Registers {
    let a = r.a;
    let cin = carry_in(operation, r);
    if operation == ADD_OPERATION || operation == ADC_OPERATION {
        let res = add_result(a, operand, cin);
        Registers { a: res, ..r }.with_flags(
            res == 0,
            false,
            a % 16 + operand % 16 + cin > 15,
            a + operand + cin > 255,
        )
    } else if operation == SUB_OPERATION || operation == SBC_OPERATION || operation
        == CP_OPERATION {
        let res = sub_result(a, operand, cin);
        let kept = if operation == CP_OPERATION {
            a
        } else {
            res
        };
        Registers { a: kept, ..r }.with_flags(
            res == 0,
            true,
            a % 16 < operand % 16 + cin,
            a < operand + cin,
        )
    } else if operation == AND_OPERATION {
        let res = a & operand;
        Registers { a: res, ..r }.with_flags(res == 0, false, true, false)
    } else if operation == XOR_OPERATION {
        let res = a ^ operand;
        Registers { a: res, ..r }.with_flags(res == 0, false, false, false)
    } else {
        let res = a | operand;
        Registers { a: res, ..r }.with_flags(res == 0, false, false, false)
    }
}

/// Applies the operation in bits 5..3 of `opcode` to the accumulator and
/// `operand`.
pub fn alu(opcode: u8, operand: u8, registers: &mut Registers) -> (r: Result<(), Error>)
    ensures
        r is Ok,
        *final(registers) == alu_spec(r8_field(opcode), *old(registers), operand),
{
    let operation = get_r8_code(opcode);
    let cin: u8 = if (operation == ADC_OPERATION || operation == SBC_OPERATION)
        && registers.get_flag(Flags::C) {
        1
    } else {
        0
    };
    let a = registers.a;
    registers.reset_flags();
    let result = if operation <= SBC_OPERATION || operation == CP_OPERATION {
        sum_operation(operation, a, operand, cin, registers)
    } else {
        bitwise_operation(operation, a, operand, registers)
    };
    alu_post_process(operation, result, registers);
    Ok(())
}

/// Reads the operand named by bits 2..0 of `opcode` and applies the
/// operation.
pub fn alu_register(opcode: u8, registers: &mut Registers, mmu: &MMU) -> (r: Result<(), Error>)
    requires
        mmu.wf(),
    ensures
        match read_r8(*old(registers), mmu@, src_field(opcode)) {
            Ok(v) => r is Ok && *final(registers) == alu_spec(r8_field(opcode), *old(registers), v),
            Err(e) => r == Err::<(), Error>(e) && *final(registers) == *old(registers),
        },
{
    let src_register = get_src_code(opcode);
    let src_value = registers.get_word(src_register, mmu)?;
    alu(opcode, src_value, registers)
}

fn alu_post_process(operation: u8, result: u8, registers: &mut Registers)
    ensures
        *final(registers) == (if operation == CP_OPERATION {
            old(registers).with_flag(Flags::Z, result == 0)
        } else {
            Registers { a: result, ..old(registers).with_flag(Flags::Z, result == 0) }
        }),
{
    registers.set_flags(Flags::Z, result == 0);
    if operation != CP_OPERATION {
        registers.a = result;
    }
}

fn sum_operation(operation: u8, a: u8, operand: u8, cin: u8, registers: &mut Registers) -> (r: u8)
    requires
        cin <= 1,
        operation <= SBC_OPERATION || operation == CP_OPERATION,
    ensures
        operation <= ADC_OPERATION ==> r == add_result(a, operand, cin as int) && *final(registers)
            == old(registers).with_flag(Flags::H, a % 16 + operand % 16 + cin > 15).with_flag(
            Flags::C,
            a + operand + cin > 255,
        ),
        operation > ADC_OPERATION ==> r == sub_result(a, operand, cin as int) && *final(registers)
            == old(registers).with_flag(Flags::N, true).with_flag(
            Flags::H,
            a % 16 < operand % 16 + cin,
        ).with_flag(Flags::C, a < operand + cin),
{
    if operation <= ADC_OPERATION {
        self::add(a, operand, cin, registers)
    } else {
        self::sub(a, operand, cin, registers)
    }
}

fn bitwise_operation(operation: u8, a: u8, operand: u8, registers: &mut Registers) -> (r: u8)
    requires
        AND_OPERATION <= operation <= OR_OPERATION,
    ensures
        operation == AND_OPERATION ==> r == a & operand && *final(registers) == old(
            registers,
        ).with_flag(Flags::H, true),
        operation == XOR_OPERATION ==> r == a ^ operand && *final(registers) == *old(registers),
        operation == OR_OPERATION ==> r == a | operand && *final(registers) == *old(registers),
{
    match operation {
        AND_OPERATION => and(a, operand, registers),
        XOR_OPERATION => a ^ operand,
        _ => a | operand,
    }
}

fn add(a: u8, operand: u8, cin: u8, registers: &mut Registers) -> (r: u8)
    requires
        cin <= 1,
    ensures
        r == add_result(a, operand, cin as int),
        *final(registers) == old(registers).with_flag(
            Flags::H,
            a % 16 + operand % 16 + cin > 15,
        ).with_flag(Flags::C, a + operand + cin > 255),
{
    let sum: u16 = a as u16 + operand as u16 + cin as u16;
    registers.set_flags(Flags::H, a % 16 + operand % 16 + cin > 15);
    registers.set_flags(Flags::C, sum > 255);
    (sum % 256) as u8
}

fn sub(a: u8, operand: u8, cin: u8, registers: &mut Registers) -> (r: u8)
    requires
        cin <= 1,
    ensures
        r == sub_result(a, operand, cin as int),
        *final(registers) == old(registers).with_flag(Flags::N, true).with_flag(
            Flags::H,
            a % 16 < operand % 16 + cin,
        ).with_flag(Flags::C, a < operand + cin),
{
    let total: u16 = operand as u16 + cin as u16;
    let borrow = (a as u16) < total;
    registers.set_flags(Flags::N, true);
    registers.set_flags(Flags::H, a % 16 < operand % 16 + cin);
    registers.set_flags(Flags::C, borrow);
    if borrow {
        (a as u16 + 256 - total) as u8
    } else {
        (a as u16 - total) as u8
    }
}

fn and(a: u8, operand: u8, registers: &mut Registers) -> (r: u8)
    ensures
        r == a & operand,
        *final(registers) == old(registers).with_flag(Flags::H, true),
{
    registers.set_flags(Flags::H, true);
    a & operand
}

} // verus!
