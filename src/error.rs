use vstd::prelude::*;

verus! {

/// Every way in which a single step of the core can fail.
#[derive(Debug, Clone, Copy, PartialEq, Eq, Structural)]
pub enum Error {
    /// A command-line or caller argument was missing or malformed.
    InvalidArgument,
    /// The opcode (or prefixed opcode) matches no instruction.
    UnsupportedInstruction(u8),
    /// An 8-bit register code outside `0..=7`.
    InvalidRegisterCode(u8),
    /// A 16-bit register-pair code outside `0..=3`.
    InvalidPairCode(u8),
    /// An instruction family that the decoder cannot classify.
    InvalidInstructionType,
    /// A condition code outside `0..=3`.
    InvalidConditionCode(u8),
    /// A flag that the flag register does not hold.
    InvalidFlag,
    /// An opcode whose operation field is out of range.
    InvalidOpcode(u8),
    /// A logical address that no memory region backs.
    UnmappedAddress(usize),
    /// A ROM image smaller than what must be laid over it.
    InvalidRomSize,
    /// Fewer bytes than a cartridge header occupies.
    TruncatedHeader,
}

pub fn invalid_argument() -> (r: Error)
    ensures
        r == Error::InvalidArgument,
{
    Error::InvalidArgument
}

pub fn unsupported_instruction(opcode: u8) -> (r: Error)
    ensures
        r == Error::UnsupportedInstruction(opcode),
{
    Error::UnsupportedInstruction(opcode)
}

pub fn invalid_r8_code(code: u8) -> (r: Error)
    ensures
        r == Error::InvalidRegisterCode(code),
{
    Error::InvalidRegisterCode(code)
}

pub fn invalid_r16_code(code: u8) -> (r: Error)
    ensures
        r == Error::InvalidPairCode(code),
{
    Error::InvalidPairCode(code)
}

pub fn invalid_instruction_type() -> (r: Error)
    ensures
        r == Error::InvalidInstructionType,
{
    Error::InvalidInstructionType
}

pub fn invalid_condition_code(code: u8) -> (r: Error)
    ensures
        r == Error::InvalidConditionCode(code),
{
    Error::InvalidConditionCode(code)
}

pub fn invalid_flag() -> (r: Error)
    ensures
        r == Error::InvalidFlag,
{
    Error::InvalidFlag
}

pub fn invalid_opcode(opcode: u8) -> (r: Error)
    ensures
        r == Error::InvalidOpcode(opcode),
{
    Error::InvalidOpcode(opcode)
}

pub fn invalid_address(address: usize) -> (r: Error)
    ensures
        r == Error::UnmappedAddress(address),
{
    Error::UnmappedAddress(address)
}

pub fn invalid_rom_size() -> (r: Error)
    ensures
        r == Error::InvalidRomSize,
{
    Error::InvalidRomSize
}

} // verus!
