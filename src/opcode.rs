use vstd::prelude::*;

use crate::error::RISCVError;
use crate::format::{format_of_key, format_result, InstructionFormat};
use crate::opcode_binary::TryFromOpcodeBinary;
use crate::size::{size_of_opcode, InstructionSize};

verus! {

/// The mask of the opcode bits in an instruction word.
pub const OPCODE_MASK: u32 = 0b1111111;

/// Whether `bits` is a legal opcode: bit 7 clear, and a known size and a
/// known format.
pub open spec fn is_valid_opcode(bits: u8) -> bool {
    &&& bits < 128
    &&& size_of_opcode(bits).is_some()
    &&& format_of_key(bits >> 2u8).is_some()
}

/// What `Opcode::try_from` gives for a byte: `InvalidOpcode` when bit 7 is
/// set, then `UnrecognizedInstructionSize` when no size is known, then
/// `UnrecognizedInstructionFormat` when no format is known.
pub open spec fn opcode_error(bits: u8) -> RISCVError {
    if bits >= 128 {
        RISCVError::InvalidOpcode
    } else if size_of_opcode(bits).is_none() {
        RISCVError::UnrecognizedInstructionSize
    } else {
        RISCVError::UnrecognizedInstructionFormat
    }
}

/// The seven opcode bits of an instruction, with a known format and size.
#[derive(Debug, Clone, Copy, PartialEq, Eq, Structural)]
pub struct Opcode(pub(crate) u8);

impl Opcode {
    #[verifier::type_invariant]
    pub(crate) open spec fn inv(self) -> bool {
        is_valid_opcode(self.0)
    }

    /// The opcode bits.
    pub open(crate) spec fn value(self) -> u8 {
        self.0
    }

    /// The opcode's format.
    pub open(crate) spec fn spec_format(self) -> InstructionFormat {
        format_of_key(self.0 >> 2u8).unwrap()
    }

    /// The opcode's size.
    pub open(crate) spec fn spec_size(self) -> InstructionSize {
        size_of_opcode(self.0).unwrap()
    }

    /// What `try_from_u8` gives for a byte.
    pub open(crate) spec fn spec_try_from_u8(opcode: u8) -> Result<Opcode, RISCVError> {
        if is_valid_opcode(opcode) {
            Ok(Opcode(opcode))
        } else {
            Err(opcode_error(opcode))
        }
    }

    /// Builds an opcode from its byte.
    pub fn try_from_u8(opcode: u8) -> (r: Result<Opcode, RISCVError>)
        ensures
            r == Opcode::spec_try_from_u8(opcode),
            is_valid_opcode(opcode) ==> r is Ok && r->Ok_0.value() == opcode,
            !is_valid_opcode(opcode) ==> r == Err::<Opcode, RISCVError>(opcode_error(opcode)),
    {
        assert(((opcode & (1u8 << 7u8)) > 0) <==> opcode >= 128) by (bit_vector);
        if (opcode & (1u8 << 7u8)) > 0 {
            return Err(RISCVError::InvalidOpcode);
        }
        let size = InstructionSize::try_from_opcode_binary(opcode);
        if let Err(e) = size {
            assert(size_of_opcode(opcode).is_none());
            return Err(e);
        }
        let format = InstructionFormat::try_from_opcode_binary(opcode);
        if let Err(e) = format {
            assert(format_of_key(opcode >> 2u8).is_none());
            return Err(e);
        }
        Ok(Opcode(opcode))
    }

    /// Reads the opcode of an instruction word.
    pub fn try_from_word(instr: u32) -> (r: Result<Opcode, RISCVError>)
        ensures
            r == Opcode::spec_try_from_word(instr),
    {
        let opcode = (instr & OPCODE_MASK) as u8;
        Opcode::try_from_u8(opcode)
    }

    /// What `try_from_word` gives for a word.
    pub open(crate) spec fn spec_try_from_word(instr: u32) -> Result<Opcode, RISCVError> {
        let bits = (instr & 0x7f) as u8;
        if is_valid_opcode(bits) {
            Ok(Opcode(bits))
        } else {
            Err(opcode_error(bits))
        }
    }

    /// The opcode's format.
    pub fn format(&self) -> (r: InstructionFormat)
        ensures
            r == self.spec_format(),
            format_result(self.value()) == Ok::<InstructionFormat, RISCVError>(r),
    {
        proof {
            use_type_invariant(self);
        }
        match InstructionFormat::try_from_opcode_binary(self.0) {
            Ok(format) => format,
            Err(_) => {
                proof {
                    assert(false);
                }
                InstructionFormat::R
            },
        }
    }

    /// The opcode's instruction size.
    pub fn instruction_size(&self) -> (r: InstructionSize)
        ensures
            r == self.spec_size(),
    {
        proof {
            use_type_invariant(self);
        }
        match InstructionSize::try_from_opcode_binary(self.0) {
            Ok(size) => size,
            Err(_) => {
                proof {
                    assert(false);
                }
                InstructionSize::Size32
            },
        }
    }

    /// The opcode bits.
    pub fn bits(&self) -> (r: u8)
        ensures
            r == self.value(),
            r < 128,
    {
        proof {
            use_type_invariant(self);
        }
        self.0
    }
}

impl TryFrom<u8> for Opcode {
    type Error = RISCVError;

    fn try_from(opcode: u8) -> (r: Result<Self, RISCVError>) {
        Opcode::try_from_u8(opcode)
    }
}

impl vstd::std_specs::convert::TryFromSpecImpl<u8> for Opcode {
    open spec fn obeys_try_from_spec() -> bool {
        true
    }

    open spec fn try_from_spec(opcode: u8) -> Result<Self, RISCVError> {
        Opcode::spec_try_from_u8(opcode)
    }
}

impl TryFrom<u32> for Opcode {
    type Error = RISCVError;

    fn try_from(instr: u32) -> (r: Result<Self, RISCVError>) {
        Opcode::try_from_word(instr)
    }
}

impl vstd::std_specs::convert::TryFromSpecImpl<u32> for Opcode {
    open spec fn obeys_try_from_spec() -> bool {
        true
    }

    open spec fn try_from_spec(instr: u32) -> Result<Self, RISCVError> {
        Opcode::spec_try_from_word(instr)
    }
}

impl From<Opcode> for u8 {
    fn from(opcode: Opcode) -> (r: u8) {
        opcode.bits()
    }
}

impl vstd::std_specs::convert::FromSpecImpl<Opcode> for u8 {
    open spec fn obeys_from_spec() -> bool {
        true
    }

    open spec fn from_spec(opcode: Opcode) -> u8 {
        opcode.value()
    }
}

impl From<Opcode> for u32 {
    fn from(opcode: Opcode) -> (r: u32) {
        opcode.bits() as u32
    }
}

impl vstd::std_specs::convert::FromSpecImpl<Opcode> for u32 {
    open spec fn obeys_from_spec() -> bool {
        true
    }

    open spec fn from_spec(opcode: Opcode) -> u32 {
        opcode.value() as u32
    }
}

} // verus!
