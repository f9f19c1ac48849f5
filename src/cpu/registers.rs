use vstd::prelude::*;

use crate::error::Error;
use crate::mmu::{read8, write8, Memory, MMU};

verus! {

pub const B_REGISTER_CODE: u8 = 0x0;
pub const C_REGISTER_CODE: u8 = 0x1;
pub const D_REGISTER_CODE: u8 = 0x2;
pub const E_REGISTER_CODE: u8 = 0x3;
pub const H_REGISTER_CODE: u8 = 0x4;
pub const L_REGISTER_CODE: u8 = 0x5;
pub const HL_MEM_REGISTER_CODE: u8 = 0x6;
pub const A_REGISTER_CODE: u8 = 0x7;
pub const BC_REGISTER_CODE: u8 = 0x0;
pub const DE_REGISTER_CODE: u8 = 0x1;
pub const HL_REGISTER_CODE: u8 = 0x2;
pub const SP_REGISTER_CODE: u8 = 0x3;
pub const AF_REGISTER_CODE: u8 = 0x3;
pub const BC_MEM_REGISTER_CODE: u8 = 0x0;
pub const DE_MEM_REGISTER_CODE: u8 = 0x1;
pub const HL_INC_REGISTER_CODE: u8 = 0x2;
pub const HL_DEC_REGISTER_CODE: u8 = 0x3;

/// Address at which execution starts after power-on.
pub const ENTRY_POINT: u16 = 0x0100;

/// The register file. The flag register `f` is held as its four meaningful
/// bits, so its low nibble is zero by construction; the 16-bit pairs are
/// computed from their halves.
#[derive(Debug, Clone, Copy, PartialEq, Eq, Structural)]
pub struct Registers {
    pub a: u8,
    pub b: u8,
    pub c: u8,
    pub d: u8,
    pub e: u8,
    pub h: u8,
    pub l: u8,
    pub pc: u16,
    pub sp: u16,
    /// Zero flag (bit 7 of `f`).
    pub zero: bool,
    /// Subtract flag (bit 6 of `f`).
    pub subtract: bool,
    /// Half-carry flag (bit 5 of `f`).
    pub half_carry: bool,
    /// Carry flag (bit 4 of `f`).
    pub carry: bool,
}

/// The four flags of the flag register.
#[derive(Debug, Clone, Copy, PartialEq, Eq, Structural)]
pub enum Flags {
    Z,
    N,
    H,
    C,
}

/// The 16-bit value whose high byte is `hi` and low byte is `lo`.
pub open spec fn pair(hi: u8, lo: u8) -> u16 {
    (hi as int * 256 + lo as int) as u16
}

/// High byte of a 16-bit value.
pub open spec fn hi_byte(v: u16) -> u8 {
    (v / 256) as u8
}

/// Low byte of a 16-bit value.
pub open spec fn lo_byte(v: u16) -> u8 {
    (v % 256) as u8
}

/// Reading the 8-bit operand named by `code`; code 6 is the byte at `HL`.
pub open spec fn read_r8(regs: Registers, mem: Memory, code: u8) -> Result<u8, Error> {
    if code == HL_MEM_REGISTER_CODE {
        read8(mem, regs.hl() as int)
    } else if code <= A_REGISTER_CODE {
        Ok(regs.r8(code))
    } else {
        Err(Error::InvalidRegisterCode(code))
    }
}

/// Writing the 8-bit operand named by `code`; code 6 is the byte at `HL`.
pub open spec fn write_r8(regs: Registers, mem: Memory, code: u8, v: u8) -> Result<
    (Registers, Memory),
    Error,
> {
    if code == HL_MEM_REGISTER_CODE {
        match write8(mem, regs.hl() as int, v) {
            Ok(m) => Ok((regs, m)),
            Err(e) => Err(e),
        }
    } else if code <= A_REGISTER_CODE {
        Ok((regs.with_r8(code, v), mem))
    } else {
        Err(Error::InvalidRegisterCode(code))
    }
}

impl Registers {
    pub open spec fn bc(self) -> u16 {
        pair(self.b, self.c)
    }

    pub open spec fn de(self) -> u16 {
        pair(self.d, self.e)
    }

    pub open spec fn hl(self) -> u16 {
        pair(self.h, self.l)
    }

    /// The flag byte: zero, subtract, half-carry and carry in bits 7 to 4.
    pub open spec fn f(self) -> u8 {
        ((if self.zero { 0x80int } else { 0 }) + (if self.subtract { 0x40int } else { 0 }) + (
        if self.half_carry {
            0x20int
        } else {
            0
        }) + (if self.carry { 0x10int } else { 0 })) as u8
    }

    pub open spec fn af(self) -> u16 {
        pair(self.a, self.f())
    }

    pub open spec fn flag(self, flag: Flags) -> bool {
        match flag {
            Flags::Z => self.zero,
            Flags::N => self.subtract,
            Flags::H => self.half_carry,
            Flags::C => self.carry,
        }
    }

    pub open spec fn with_flag(self, flag: Flags, v: bool) -> Registers {
        match flag {
            Flags::Z => Registers { zero: v, ..self },
            Flags::N => Registers { subtract: v, ..self },
            Flags::H => Registers { half_carry: v, ..self },
            Flags::C => Registers { carry: v, ..self },
        }
    }

    /// All four flags at once.
    pub open spec fn with_flags(self, z: bool, n: bool, h: bool, c: bool) -> Registers {
        Registers { zero: z, subtract: n, half_carry: h, carry: c, ..self }
    }

    /// The plain 8-bit register named by `code` (not 6, the memory operand).
    pub open spec fn r8(self, code: u8) -> u8 {
        if code == B_REGISTER_CODE {
            self.b
        } else if code == C_REGISTER_CODE {
            self.c
        } else if code == D_REGISTER_CODE {
            self.d
        } else if code == E_REGISTER_CODE {
            self.e
        } else if code == H_REGISTER_CODE {
            self.h
        } else if code == L_REGISTER_CODE {
            self.l
        } else {
            self.a
        }
    }

    pub open spec fn with_r8(self, code: u8, v: u8) -> Registers {
        if code == B_REGISTER_CODE {
            Registers { b: v, ..self }
        } else if code == C_REGISTER_CODE {
            Registers { c: v, ..self }
        } else if code == D_REGISTER_CODE {
            Registers { d: v, ..self }
        } else if code == E_REGISTER_CODE {
            Registers { e: v, ..self }
        } else if code == H_REGISTER_CODE {
            Registers { h: v, ..self }
        } else if code == L_REGISTER_CODE {
            Registers { l: v, ..self }
        } else {
            Registers { a: v, ..self }
        }
    }

    pub open spec fn with_bc(self, v: u16) -> Registers {
        Registers { b: hi_byte(v), c: lo_byte(v), ..self }
    }

    pub open spec fn with_de(self, v: u16) -> Registers {
        Registers { d: hi_byte(v), e: lo_byte(v), ..self }
    }

    pub open spec fn with_hl(self, v: u16) -> Registers {
        Registers { h: hi_byte(v), l: lo_byte(v), ..self }
    }

    /// Loads `a` from the high byte and the flags from bits 7 to 4 of the low
    /// byte; bits 3 to 0 are dropped.
    pub open spec fn with_af(self, v: u16) -> Registers {
        let lo = lo_byte(v);
        Registers {
            a: hi_byte(v),
            zero: (lo / 128) % 2 == 1,
            subtract: (lo / 64) % 2 == 1,
            half_carry: (lo / 32) % 2 == 1,
            carry: (lo / 16) % 2 == 1,
            ..self
        }
    }

    /// The pair named by `code` in the general table: BC, DE, HL, SP.
    pub open spec fn r16(self, code: u8) -> u16 {
        if code == BC_REGISTER_CODE {
            self.bc()
        } else if code == DE_REGISTER_CODE {
            self.de()
        } else if code == HL_REGISTER_CODE {
            self.hl()
        } else {
            self.sp
        }
    }

    pub open spec fn with_r16(self, code: u8, v: u16) -> Registers {
        if code == BC_REGISTER_CODE {
            self.with_bc(v)
        } else if code == DE_REGISTER_CODE {
            self.with_de(v)
        } else if code == HL_REGISTER_CODE {
            self.with_hl(v)
        } else {
            Registers { sp: v, ..self }
        }
    }

    /// The pair named by `code` in the stack table: BC, DE, HL, AF.
    pub open spec fn r16stk(self, code: u8) -> u16 {
        if code == AF_REGISTER_CODE {
            self.af()
        } else {
            self.r16(code)
        }
    }

    pub open spec fn with_r16stk(self, code: u8, v: u16) -> Registers {
        if code == AF_REGISTER_CODE {
            self.with_af(v)
        } else {
            self.with_r16(code, v)
        }
    }

    /// Power-on state: everything zero but the program counter, which holds
    /// the entry point.
    pub open spec fn new_spec() -> Registers {
        Registers {
            a: 0,
            b: 0,
            c: 0,
            d: 0,
            e: 0,
            h: 0,
            l: 0,
            pc: ENTRY_POINT,
            sp: 0,
            zero: false,
            subtract: false,
            half_carry: false,
            carry: false,
        }
    }

    pub fn new() -> (r: Self)
        ensures
            r == Self::new_spec(),
    {
        Registers {
            a: 0,
            b: 0,
            c: 0,
            d: 0,
            e: 0,
            h: 0,
            l: 0,
            pc: ENTRY_POINT,
            sp: 0,
            zero: false,
            subtract: false,
            half_carry: false,
            carry: false,
        }
    }

    pub fn set_bc(&mut self, value: u16)
        ensures
            *final(self) == old(self).with_bc(value),
    {
        self.b = (value / 256) as u8;
        self.c = (value % 256) as u8;
    }

    pub fn get_bc(&self) -> (r: u16)
        ensures
            r == self.bc(),
    {
        self.b as u16 * 256 + self.c as u16
    }

    pub fn set_de(&mut self, value: u16)
        ensures
            *final(self) == old(self).with_de(value),
    {
        self.d = (value / 256) as u8;
        self.e = (value % 256) as u8;
    }

    pub fn get_de(&self) -> (r: u16)
        ensures
            r == self.de(),
    {
        self.d as u16 * 256 + self.e as u16
    }

    pub fn set_hl(&mut self, value: u16)
        ensures
            *final(self) == old(self).with_hl(value),
    {
        self.h = (value / 256) as u8;
        self.l = (value % 256) as u8;
    }

    pub fn get_hl(&self) -> (r: u16)
        ensures
            r == self.hl(),
    {
        self.h as u16 * 256 + self.l as u16
    }

    pub fn set_sp(&mut self, value: u16)
        ensures
            *final(self) == (Registers { sp: value, ..*old(self) }),
    {
        self.sp = value;
    }

    pub fn get_sp(&self) -> (r: u16)
        ensures
            r == self.sp,
    {
        self.sp
    }

    /// The flag byte.
    pub fn get_f(&self) -> (r: u8)
        ensures
            r == self.f(),
    {
        let mut f: u8 = 0;
        if self.zero {
            f = f + 0x80;
        }
        if self.subtract {
            f = f + 0x40;
        }
        if self.half_carry {
            f = f + 0x20;
        }
        if self.carry {
            f = f + 0x10;
        }
        f
    }

    pub fn set_af(&mut self, value: u16)
        ensures
            *final(self) == old(self).with_af(value),
    {
        let lo = value % 256;
        self.a = (value / 256) as u8;
        self.zero = (lo / 128) % 2 == 1;
        self.subtract = (lo / 64) % 2 == 1;
        self.half_carry = (lo / 32) % 2 == 1;
        self.carry = (lo / 16) % 2 == 1;
    }

    pub fn get_af(&self) -> (r: u16)
        ensures
            r == self.af(),
    {
        self.a as u16 * 256 + self.get_f() as u16
    }

    pub fn set_flags(&mut self, flag: Flags, value: bool)
        ensures
            *final(self) == old(self).with_flag(flag, value),
    {
        match flag {
            Flags::Z => self.zero = value,
            Flags::N => self.subtract = value,
            Flags::H => self.half_carry = value,
            Flags::C => self.carry = value,
        }
    }

    pub fn reset_flags(&mut self)
        ensures
            *final(self) == old(self).with_flags(false, false, false, false),
    {
        self.zero = false;
        self.subtract = false;
        self.half_carry = false;
        self.carry = false;
    }

    pub fn get_flag(&self, flag: Flags) -> (r: bool)
        ensures
            r == self.flag(flag),
    {
        match flag {
            Flags::Z => self.zero,
            Flags::N => self.subtract,
            Flags::H => self.half_carry,
            Flags::C => self.carry,
        }
    }

    /// Sets the half-carry flag from the carry out of the sum of the low
    /// nibbles of `rhs` and `lhs`.
    pub fn set_h_flag(&mut self, rhs: u8, lhs: u8)
        ensures
            *final(self) == old(self).with_flag(Flags::H, lhs % 16 + rhs % 16 > 15),
    {
        self.half_carry = lhs % 16 + rhs % 16 > 15;
    }

    /// Reads the 8-bit operand named by `r8_code`.
    pub fn get_word(&self, r8_code: u8, mmu: &MMU) -> (r: Result<u8, Error>)
        requires
            mmu.wf(),
        ensures
            r == read_r8(*self, mmu@, r8_code),
    {
        match r8_code {
            A_REGISTER_CODE => Ok(self.a),
            B_REGISTER_CODE => Ok(self.b),
            C_REGISTER_CODE => Ok(self.c),
            D_REGISTER_CODE => Ok(self.d),
            E_REGISTER_CODE => Ok(self.e),
            H_REGISTER_CODE => Ok(self.h),
            L_REGISTER_CODE => Ok(self.l),
            HL_MEM_REGISTER_CODE => mmu.get_word(self.get_hl() as usize),
            _ => Err(Error::InvalidRegisterCode(r8_code)),
        }
    }

    /// Writes the 8-bit operand named by `r8_code`; on failure nothing changes.
    pub fn set_word(&mut self, r8_code: u8, value: u8, mmu: &mut MMU) -> (r: Result<(), Error>)
        requires
            old(mmu).wf(),
        ensures
            final(mmu).wf(),
            match write_r8(*old(self), old(mmu)@, r8_code, value) {
                Ok((regs, m)) => r is Ok && *final(self) == regs && final(mmu)@ == m,
                Err(e) => r == Err::<(), Error>(e) && *final(self) == *old(self) && final(mmu)@
                    == old(mmu)@,
            },
    {
        match r8_code {
            A_REGISTER_CODE => self.a = value,
            B_REGISTER_CODE => self.b = value,
            C_REGISTER_CODE => self.c = value,
            D_REGISTER_CODE => self.d = value,
            E_REGISTER_CODE => self.e = value,
            H_REGISTER_CODE => self.h = value,
            L_REGISTER_CODE => self.l = value,
            HL_MEM_REGISTER_CODE => return mmu.set_word(self.get_hl() as usize, value),
            _ => return Err(Error::InvalidRegisterCode(r8_code)),
        }
        Ok(())
    }

    /// Reads the pair named by `r16_code` in the general table.
    pub fn get_dword(&self, r16_code: u8) -> (r: Result<u16, Error>)
        ensures
            r == (if r16_code <= SP_REGISTER_CODE {
                Ok(self.r16(r16_code))
            } else {
                Err(Error::InvalidPairCode(r16_code))
            }),
    {
        match r16_code {
            BC_REGISTER_CODE => Ok(self.get_bc()),
            HL_REGISTER_CODE => Ok(self.get_hl()),
            DE_REGISTER_CODE => Ok(self.get_de()),
            SP_REGISTER_CODE => Ok(self.get_sp()),
            _ => Err(Error::InvalidPairCode(r16_code)),
        }
    }

    /// Reads the pair named by `r16_code` in the stack table.
    pub fn get_dword_stk(&self, r16_code: u8) -> (r: Result<u16, Error>)
        ensures
            r == (if r16_code <= AF_REGISTER_CODE {
                Ok(self.r16stk(r16_code))
            } else {
                Err(Error::InvalidPairCode(r16_code))
            }),
    {
        match r16_code {
            BC_REGISTER_CODE => Ok(self.get_bc()),
            HL_REGISTER_CODE => Ok(self.get_hl()),
            DE_REGISTER_CODE => Ok(self.get_de()),
            AF_REGISTER_CODE => Ok(self.get_af()),
            _ => Err(Error::InvalidPairCode(r16_code)),
        }
    }

    /// Writes the pair named by `binary_register` in the general table.
    pub fn set_dword(&mut self, binary_register: u8, value: u16) -> (r: Result<(), Error>)
        ensures
            binary_register <= SP_REGISTER_CODE ==> r is Ok && *final(self) == old(
                self,
            ).with_r16(binary_register, value),
            binary_register > SP_REGISTER_CODE ==> r == Err::<(), Error>(
                Error::InvalidPairCode(binary_register),
            ) && *final(self) == *old(self),
    {
        match binary_register {
            BC_REGISTER_CODE => self.set_bc(value),
            HL_REGISTER_CODE => self.set_hl(value),
            DE_REGISTER_CODE => self.set_de(value),
            SP_REGISTER_CODE => self.set_sp(value),
            _ => return Err(Error::InvalidPairCode(binary_register)),
        }
        Ok(())
    }

    /// Writes the pair named by `binary_register` in the stack table.
    pub fn set_dword_stk(&mut self, binary_register: u8, value: u16) -> (r: Result<(), Error>)
        ensures
            binary_register <= AF_REGISTER_CODE ==> r is Ok && *final(self) == old(
                self,
            ).with_r16stk(binary_register, value),
            binary_register > AF_REGISTER_CODE ==> r == Err::<(), Error>(
                Error::InvalidPairCode(binary_register),
            ) && *final(self) == *old(self),
    {
        match binary_register {
            BC_REGISTER_CODE => self.set_bc(value),
            HL_REGISTER_CODE => self.set_hl(value),
            DE_REGISTER_CODE => self.set_de(value),
            AF_REGISTER_CODE => self.set_af(value),
            _ => return Err(Error::InvalidPairCode(binary_register)),
        }
        Ok(())
    }
}

/// Writing a pair and reading it back gives the value written, for every pair
/// code of the general table and BC, DE, HL of the stack table; AF gives the
/// value with the low nibble of the flag byte cleared.
pub proof fn lemma_pair_round_trip(r: Registers, code: u8, v: u16)
    requires
        code <= SP_REGISTER_CODE,
    ensures
        r.with_r16(code, v).r16(code) == v,
        code != AF_REGISTER_CODE ==> r.with_r16stk(code, v).r16stk(code) == v,
        r.with_r16stk(AF_REGISTER_CODE, v).r16stk(AF_REGISTER_CODE) == v - v % 16,
{
    let lo = lo_byte(v);
    let f = r.with_af(v).f();
    assert(f == lo - lo % 16) by (nonlinear_arith)
        requires
            f == ((if (lo / 128) % 2 == 1 { 0x80int } else { 0 }) + (if (lo / 64) % 2 == 1 {
                0x40int
            } else {
                0
            }) + (if (lo / 32) % 2 == 1 { 0x20int } else { 0 }) + (if (lo / 16) % 2 == 1 {
                0x10int
            } else {
                0
            })) as u8,
            0 <= lo < 256,
    ;
}

/// A pair is the concatenation of its halves: writing the pair sets the high
/// and low registers to its high and low bytes, and writing the halves gives
/// the pair `hi * 256 + lo`.
pub proof fn lemma_pair_halves(r: Registers, v: u16, hi: u8, lo: u8)
    ensures
        r.with_bc(v).b == v / 256 && r.with_bc(v).c == v % 256,
        r.with_de(v).d == v / 256 && r.with_de(v).e == v % 256,
        r.with_hl(v).h == v / 256 && r.with_hl(v).l == v % 256,
        (Registers { b: hi, c: lo, ..r }).bc() == hi * 256 + lo,
        (Registers { d: hi, e: lo, ..r }).de() == hi * 256 + lo,
        (Registers { h: hi, l: lo, ..r }).hl() == hi * 256 + lo,
        r.with_r8(B_REGISTER_CODE, hi).with_r8(C_REGISTER_CODE, lo).bc() == hi * 256 + lo,
{
}

/// Writing a plain 8-bit register and reading it back gives the byte written.
pub proof fn lemma_byte_round_trip(r: Registers, mem: Memory, code: u8, v: u8)
    requires
        code <= A_REGISTER_CODE,
        code != HL_MEM_REGISTER_CODE,
    ensures
        write_r8(r, mem, code, v) == Ok::<(Registers, Memory), Error>((r.with_r8(code, v), mem)),
        read_r8(r.with_r8(code, v), mem, code) == Ok::<u8, Error>(v),
{
}

} // verus!
