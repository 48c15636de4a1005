use vstd::prelude::*;

use crate::error::RISCVError;

verus! {

/// An unsigned field of `BITS` bits that stands at bit `SHIFT` of an
/// instruction word.
#[derive(Debug, Clone, Copy, PartialEq, Eq)]
pub struct FunctField<const BITS: u8, const SHIFT: u8>(pub(crate) u8);

/// Whether a field of `bits` bits at bit `shift` fits in a byte and in a word.
pub open spec fn field_shape_ok(bits: u8, shift: u8) -> bool {
    1 <= bits <= 8 && bits + shift <= 32
}

impl<const BITS: u8, const SHIFT: u8> FunctField<BITS, SHIFT> {
    #[verifier::type_invariant]
    pub(crate) open spec fn inv(self) -> bool {
        &&& field_shape_ok(BITS, SHIFT)
        &&& (self.0 as u32) < (1u32 << BITS)
    }

    /// The field's value.
    pub open(crate) spec fn value(self) -> u8 {
        self.0
    }

    /// What `try_from_u8` gives for `bits`.
    pub open(crate) spec fn spec_try_from_u8(bits: u8) -> Result<Self, RISCVError> {
        if (bits as u32) < (1u32 << BITS) {
            Ok(FunctField(bits))
        } else {
            Err(RISCVError::InvalidFunctValue(BITS))
        }
    }

    /// The field that stands at bits `SHIFT..SHIFT + BITS` of `instr`.
    pub open(crate) spec fn spec_from_word(instr: u32) -> Self {
        FunctField(((instr >> SHIFT) & ((1u32 << BITS) - 1) as u32) as u8)
    }

    /// The field with value `bits`; `InvalidFunctValue(BITS)` when `bits`
    /// does not fit in `BITS` bits.
    pub fn try_from_u8(bits: u8) -> (r: Result<Self, RISCVError>)
        requires
            field_shape_ok(BITS, SHIFT),
        ensures
            r == Self::spec_try_from_u8(bits),
            (bits as u32) < (1u32 << BITS) ==> r is Ok && r->Ok_0.value() == bits,
            (bits as u32) >= (1u32 << BITS) ==> r == Err::<Self, RISCVError>(
                RISCVError::InvalidFunctValue(BITS),
            ),
    {
        let b = BITS as u32;
        assert(1u32 <= (1u32 << b)) by (bit_vector)
            requires
                1 <= b <= 8,
        ;
        let max_value: u32 = (1u32 << BITS) - 1;
        if bits as u32 > max_value {
            Err(RISCVError::InvalidFunctValue(BITS))
        } else {
            Ok(FunctField(bits))
        }
    }

    /// The field as it stands in an instruction word.
    pub fn from_word(instr: u32) -> (r: Self)
        requires
            field_shape_ok(BITS, SHIFT),
        ensures
            r == Self::spec_from_word(instr),
            r.value() as u32 == (instr >> SHIFT) & ((1u32 << BITS) - 1) as u32,
    {
        let b0 = BITS as u32;
        assert(1u32 <= (1u32 << b0)) by (bit_vector)
            requires
                1 <= b0 <= 8,
        ;
        let mask: u32 = (1u32 << BITS) - 1;
        let v = (instr >> SHIFT) & mask;
        let b = BITS as u32;
        let sh = SHIFT as u32;
        assert(((instr >> sh) & ((1u32 << b) - 1) as u32) < (1u32 << b)) by (bit_vector)
            requires
                1 <= b <= 8,
        ;
        assert((1u32 << b) <= 256u32) by (bit_vector)
            requires
                1 <= b <= 8,
        ;
        FunctField(v as u8)
    }

    /// The field placed at its bits of a word.
    pub fn into_bits(&self) -> (r: u32)
        ensures
            r == (self.value() as u32) << SHIFT,
    {
        proof {
            use_type_invariant(self);
        }
        (self.0 as u32) << SHIFT
    }

    /// The field's value.
    pub fn bits(&self) -> (r: u8)
        ensures
            r == self.value(),
            (r as u32) < (1u32 << BITS),
            field_shape_ok(BITS, SHIFT),
    {
        proof {
            use_type_invariant(self);
        }
        self.0
    }
}

/// The three-bit field at bits 12..15.
pub type Funct3 = FunctField<3, 12>;

/// The seven-bit field at bits 25..32.
pub type Funct7 = FunctField<7, 25>;

impl TryFrom<u8> for Funct3 {
    type Error = RISCVError;

    fn try_from(bits: u8) -> (r: Result<Self, RISCVError>) {
        Funct3::try_from_u8(bits)
    }
}

impl vstd::std_specs::convert::TryFromSpecImpl<u8> for Funct3 {
    open spec fn obeys_try_from_spec() -> bool {
        true
    }

    open spec fn try_from_spec(bits: u8) -> Result<Self, RISCVError> {
        Self::spec_try_from_u8(bits)
    }
}

impl From<u32> for Funct3 {
    fn from(instr: u32) -> (r: Self) {
        Funct3::from_word(instr)
    }
}

impl vstd::std_specs::convert::FromSpecImpl<u32> for Funct3 {
    open spec fn obeys_from_spec() -> bool {
        true
    }

    open spec fn from_spec(instr: u32) -> Self {
        Self::spec_from_word(instr)
    }
}

impl From<Funct3> for u32 {
    fn from(field: Funct3) -> (r: u32) {
        field.into_bits()
    }
}

impl vstd::std_specs::convert::FromSpecImpl<Funct3> for u32 {
    open spec fn obeys_from_spec() -> bool {
        true
    }

    open spec fn from_spec(field: Funct3) -> u32 {
        (field.value() as u32) << 12u32
    }
}

impl From<Funct3> for u8 {
    fn from(field: Funct3) -> (r: u8) {
        field.bits()
    }
}

impl vstd::std_specs::convert::FromSpecImpl<Funct3> for u8 {
    open spec fn obeys_from_spec() -> bool {
        true
    }

    open spec fn from_spec(field: Funct3) -> u8 {
        field.value()
    }
}

impl TryFrom<u8> for Funct7 {
    type Error = RISCVError;

    fn try_from(bits: u8) -> (r: Result<Self, RISCVError>) {
        Funct7::try_from_u8(bits)
    }
}

impl vstd::std_specs::convert::TryFromSpecImpl<u8> for Funct7 {
    open spec fn obeys_try_from_spec() -> bool {
        true
    }

    open spec fn try_from_spec(bits: u8) -> Result<Self, RISCVError> {
        Self::spec_try_from_u8(bits)
    }
}

impl From<u32> for Funct7 {
    fn from(instr: u32) -> (r: Self) {
        Funct7::from_word(instr)
    }
}

impl vstd::std_specs::convert::FromSpecImpl<u32> for Funct7 {
    open spec fn obeys_from_spec() -> bool {
        true
    }

    open spec fn from_spec(instr: u32) -> Self {
        Self::spec_from_word(instr)
    }
}

impl From<Funct7> for u32 {
    fn from(field: Funct7) -> (r: u32) {
        field.into_bits()
    }
}

impl vstd::std_specs::convert::FromSpecImpl<Funct7> for u32 {
    open spec fn obeys_from_spec() -> bool {
        true
    }

    open spec fn from_spec(field: Funct7) -> u32 {
        (field.value() as u32) << 25u32
    }
}

impl From<Funct7> for u8 {
    fn from(field: Funct7) -> (r: u8) {
        field.bits()
    }
}

impl vstd::std_specs::convert::FromSpecImpl<Funct7> for u8 {
    open spec fn obeys_from_spec() -> bool {
        true
    }

    open spec fn from_spec(field: Funct7) -> u8 {
        field.value()
    }
}

} // verus!
