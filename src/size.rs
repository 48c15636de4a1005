use vstd::prelude::*;

use crate::error::RISCVError;
use crate::opcode_binary::TryFromOpcodeBinary;

verus! {

/// The length of an instruction, as its opcode byte announces it.
#[derive(Debug, PartialEq, Eq, Clone, Copy, Structural)]
#[non_exhaustive]
pub enum InstructionSize {
    Size16,
    Size32,
    Size48,
    Size64,
}

/// The size that an opcode byte announces: 16 bits unless its two low bits
/// are both set; then 32 bits unless bits 2..5 are all set, 48 bits when
/// bit 5 is clear, 64 bits when bit 5 is set and bit 6 clear; none otherwise.
pub open spec fn size_of_opcode(bits: u8) -> Option<InstructionSize> {
    let key = bits >> 2u8;
    if bits & 0b11 != 0b11 {
        Some(InstructionSize::Size16)
    } else if key & 0b111 != 0b111 {
        Some(InstructionSize::Size32)
    } else if key & 0b1111 == 0b0111 {
        Some(InstructionSize::Size48)
    } else if key & 0b11111 == 0b01111 {
        Some(InstructionSize::Size64)
    } else {
        None
    }
}

/// The length in bits of each size.
pub open spec fn size_bits(s: InstructionSize) -> usize {
    match s {
        InstructionSize::Size16 => 16,
        InstructionSize::Size32 => 32,
        InstructionSize::Size48 => 48,
        InstructionSize::Size64 => 64,
    }
}

impl InstructionSize {
    /// The length in bits.
    pub fn bits(&self) -> (r: usize)
        ensures
            r == size_bits(*self),
    {
        match self {
            InstructionSize::Size16 => 16,
            InstructionSize::Size32 => 32,
            InstructionSize::Size48 => 48,
            InstructionSize::Size64 => 64,
        }
    }
}

impl TryFromOpcodeBinary for InstructionSize {
    open spec fn spec_try_from_opcode_binary(bits: u8) -> Result<Self, RISCVError> {
        match size_of_opcode(bits) {
            Some(s) => Ok(s),
            None => Err(RISCVError::UnrecognizedInstructionSize),
        }
    }

    fn try_from_opcode_binary(bits: u8) -> (r: Result<Self, RISCVError>) {
        if bits & 0b11 != 0b11 {
            return Ok(InstructionSize::Size16);
        }
        let key = bits >> 2;
        if key & 0b111 != 0b111 {
            Ok(InstructionSize::Size32)
        } else if key & 0b1111 == 0b0111 {
            Ok(InstructionSize::Size48)
        } else if key & 0b11111 == 0b01111 {
            Ok(InstructionSize::Size64)
        } else {
            Err(RISCVError::UnrecognizedInstructionSize)
        }
    }
}

impl From<&InstructionSize> for usize {
    fn from(size: &InstructionSize) -> (r: usize) {
        size.bits()
    }
}

impl vstd::std_specs::convert::FromSpecImpl<&InstructionSize> for usize {
    open spec fn obeys_from_spec() -> bool {
        true
    }

    open spec fn from_spec(size: &InstructionSize) -> usize {
        size_bits(*size)
    }
}

impl TryFrom<usize> for InstructionSize {
    type Error = RISCVError;

    fn try_from(size: usize) -> (r: Result<Self, RISCVError>) {
        match size {
            16 => Ok(InstructionSize::Size16),
            32 => Ok(InstructionSize::Size32),
            48 => Ok(InstructionSize::Size48),
            64 => Ok(InstructionSize::Size64),
            _ => Err(RISCVError::UnrecognizedInstructionSize),
        }
    }
}

impl vstd::std_specs::convert::TryFromSpecImpl<usize> for InstructionSize {
    open spec fn obeys_try_from_spec() -> bool {
        true
    }

    open spec fn try_from_spec(size: usize) -> Result<Self, RISCVError> {
        if size == 16 {
            Ok(InstructionSize::Size16)
        } else if size == 32 {
            Ok(InstructionSize::Size32)
        } else if size == 48 {
            Ok(InstructionSize::Size48)
        } else if size == 64 {
            Ok(InstructionSize::Size64)
        } else {
            Err(RISCVError::UnrecognizedInstructionSize)
        }
    }
}

} // verus!
