use vstd::prelude::*;

use crate::error::RISCVError;
use crate::opcode_binary::TryFromOpcodeBinary;

verus! {

/// The six layouts of a 32-bit instruction word.
#[derive(Debug, PartialEq, Eq, Clone, Copy, Structural)]
pub enum InstructionFormat {
    B,
    I,
    J,
    R,
    S,
    U,
}

/// The format that the five opcode bits `key` (the opcode shifted right by
/// two) select, or none for a pattern that selects no format.
pub open spec fn format_of_key(key: u8) -> Option<InstructionFormat> {
    match key {
        0b11000 => Some(InstructionFormat::B),
        0b00100 | 0b00000 | 0b11001 | 0b11100 => Some(InstructionFormat::I),
        0b11011 => Some(InstructionFormat::J),
        0b01100 | 0b01011 | 0b01110 => Some(InstructionFormat::R),
        0b01000 => Some(InstructionFormat::S),
        0b01101 => Some(InstructionFormat::U),
        _ => None,
    }
}

/// The classification of an opcode byte: its format, or the error for a
/// pattern that selects none.
pub open spec fn format_result(opcode: u8) -> Result<InstructionFormat, RISCVError> {
    match format_of_key(opcode >> 2u8) {
        Some(f) => Ok(f),
        None => Err(RISCVError::UnrecognizedInstructionFormat),
    }
}

/// The format of an opcode byte is decided by its five bits above the two
/// low ones alone: two bytes that agree there get the same answer, and a
/// pattern outside the table always fails, with no format guessed.
pub proof fn lemma_format_by_key(a: u8, b: u8)
    requires
        a >> 2u8 == b >> 2u8,
    ensures
        format_result(a) == format_result(b),
        format_of_key(a >> 2u8) is None ==> format_result(a) == Err::<
            InstructionFormat,
            RISCVError,
        >(RISCVError::UnrecognizedInstructionFormat),
        format_of_key(a >> 2u8) is Some ==> format_result(a) == Ok::<InstructionFormat, RISCVError>(
            format_of_key(a >> 2u8).unwrap(),
        ),
{
}

impl InstructionFormat {
    /// The format's name as it is displayed, such as `B-Type`.
    pub fn name(&self) -> (r: &'static str)
        ensures
            r == format_name(*self),
    {
        match self {
            InstructionFormat::B => "B-Type",
            InstructionFormat::I => "I-Type",
            InstructionFormat::J => "J-Type",
            InstructionFormat::R => "R-Type",
            InstructionFormat::S => "S-Type",
            InstructionFormat::U => "U-Type",
        }
    }
}

/// The displayed name of each format.
pub open spec fn format_name(f: InstructionFormat) -> &'static str {
    match f {
        InstructionFormat::B => "B-Type",
        InstructionFormat::I => "I-Type",
        InstructionFormat::J => "J-Type",
        InstructionFormat::R => "R-Type",
        InstructionFormat::S => "S-Type",
        InstructionFormat::U => "U-Type",
    }
}

impl TryFromOpcodeBinary for InstructionFormat {
    open spec fn spec_try_from_opcode_binary(bits: u8) -> Result<Self, RISCVError> {
        format_result(bits)
    }

    fn try_from_opcode_binary(opcode: u8) -> (r: Result<Self, RISCVError>) {
        match opcode >> 2 {
            0b11000 => Ok(InstructionFormat::B),
            0b00100 | 0b00000 | 0b11001 | 0b11100 => Ok(InstructionFormat::I),
            0b11011 => Ok(InstructionFormat::J),
            0b01100 | 0b01011 | 0b01110 => Ok(InstructionFormat::R),
            0b01000 => Ok(InstructionFormat::S),
            0b01101 => Ok(InstructionFormat::U),
            _ => Err(RISCVError::UnrecognizedInstructionFormat),
        }
    }
}

impl TryFrom<u32> for InstructionFormat {
    type Error = RISCVError;

    /// The format of an instruction word, read from its opcode bits.
    fn try_from(bits: u32) -> (r: Result<Self, RISCVError>) {
        let opcode = (bits & 0x7f) as u8;
        InstructionFormat::try_from_opcode_binary(opcode)
    }
}

impl vstd::std_specs::convert::TryFromSpecImpl<u32> for InstructionFormat {
    open spec fn obeys_try_from_spec() -> bool {
        true
    }

    open spec fn try_from_spec(bits: u32) -> Result<Self, RISCVError> {
        format_result((bits & 0x7f) as u8)
    }
}

} // verus!
