use vstd::prelude::*;

use crate::error::RISCVError;

verus! {

/// Conversion between a value and the bit pattern that stores it.
pub trait RawBitsConverter: Sized {
    type BitsData;

    type Error;

    /// What `try_from_raw_bits` returns for `bits`.
    spec fn spec_try_from_raw_bits(bits: Self::BitsData) -> Result<Self, Self::Error>;

    /// The bit pattern of a value.
    spec fn spec_raw_bits(&self) -> Self::BitsData;

    fn try_from_raw_bits(bits: Self::BitsData) -> (r: Result<Self, Self::Error>)
        ensures
            r == Self::spec_try_from_raw_bits(bits),
    ;

    fn into_raw_bits(&self) -> (r: Self::BitsData)
        ensures
            r == self.spec_raw_bits(),
    ;
}

/// Whether bits `start..=end` describe a field of a 32-bit value.
pub open spec fn shape_ok(start: u8, end: u8) -> bool {
    start <= end < 32
}

/// The mask of the low `width` bits of a word (all bits for 32 or more).
pub open spec fn low_mask(width: u32) -> u32 {
    if width >= 32 {
        0xffff_ffffu32
    } else {
        ((1u32 << width) - 1) as u32
    }
}

/// Whether `bits` fits in a field of bits `start..=end`.
pub open spec fn fits_field(bits: u32, start: u32, end: u32) -> bool {
    bits & !low_mask((end - start + 1) as u32) == 0
}

/// The signed value that a field of bits `start..=end` holding `bits`
/// stands for: `bits` placed at bit `start`, zeros below it, and bit `end`
/// copied into every bit above it.
pub open spec fn signed_of(bits: u32, start: u32, end: u32) -> i32 {
    (((bits << ((31 - end + start) as u32)) as i32) >> ((31 - end) as u32))
}

/// The least value that the field holds: `-2^end`.
pub open spec fn imm_min(start: u32, end: u32) -> i32 {
    if end == 31 {
        i32::MIN
    } else {
        (!0i32) << end
    }
}

/// The greatest value that the field holds: `2^end - 2^start`, and
/// `i32::MAX` for a field that reaches bit 31.
pub open spec fn imm_max(start: u32, end: u32) -> i32 {
    if end == 31 {
        i32::MAX
    } else {
        ((1i32 << end) - (1i32 << start)) as i32
    }
}

/// Whether `v` lies in the range of a field of bits `start..=end`.
pub open spec fn in_range(v: i32, start: u32, end: u32) -> bool {
    imm_min(start, end) <= v <= imm_max(start, end)
}

/// Whether the `start` low bits of `v` are all zero.
pub open spec fn low_bits_clear(v: i32, start: u32) -> bool {
    (v as u32) & (((1u32 << start) - 1) as u32) == 0
}

/// The field bits that store `v`: `v` shifted down by `start`, cut to the
/// field's width.
pub open spec fn normalized(v: i32, start: u32, end: u32) -> u32 {
    ((v >> start) as u32) & low_mask((end - start + 1) as u32)
}

/// Storing a value in range with clear low bits, and reading it back, gives
/// the value.
pub proof fn lemma_signed_round_trip(v: i32, start: u32, end: u32)
    requires
        start <= end < 32,
        in_range(v, start, end),
        low_bits_clear(v, start),
    ensures
        fits_field(normalized(v, start, end), start, end),
        signed_of(normalized(v, start, end), start, end) == v,
{
    assert(fits_field(normalized(v, start, end), start, end) && signed_of(
        normalized(v, start, end),
        start,
        end,
    ) == v) by (bit_vector)
        requires
            start <= end < 32,
            in_range(v, start, end),
            low_bits_clear(v, start),
    ;
}

/// A signed immediate that stands for bits `START..=END` of a value whose
/// bits below `START` are zero. It keeps the field bits alone, shifted down
/// to bit 0.
#[derive(Debug, Copy, Clone, PartialEq, Eq)]
pub struct Immediate<const START: u8, const END: u8>(pub(crate) u32);

impl<const START: u8, const END: u8> Immediate<START, END> {
    #[verifier::type_invariant]
    pub(crate) open spec fn inv(self) -> bool {
        &&& shape_ok(START, END)
        &&& fits_field(self.0, START as u32, END as u32)
    }

    /// The field bits.
    pub open(crate) spec fn bits(self) -> u32 {
        self.0
    }

    /// The signed value that the immediate stands for.
    pub open(crate) spec fn signed(self) -> i32 {
        signed_of(self.0, START as u32, END as u32)
    }

    /// What `from_signed` gives for `imm`.
    pub open(crate) spec fn spec_from_signed(imm: i32) -> Result<Self, RISCVError> {
        let (s, e) = (START as u32, END as u32);
        if !shape_ok(START, END) {
            Err(RISCVError::ImmediateOutOfRange(0, 0))
        } else if !in_range(imm, s, e) {
            Err(RISCVError::ImmediateOutOfRange(imm_min(s, e), imm_max(s, e)))
        } else if !low_bits_clear(imm, s) {
            Err(RISCVError::ImmediateBitsBeforeStart(START))
        } else {
            Ok(Immediate(normalized(imm, s, e)))
        }
    }

    /// What `from_raw_bits` gives for `bits`.
    pub open(crate) spec fn spec_from_raw_bits(bits: u32) -> Result<Self, RISCVError> {
        if shape_ok(START, END) && fits_field(bits, START as u32, END as u32) {
            Ok(Immediate(bits))
        } else {
            Err(RISCVError::ImmediateOutOfRange(0, 0))
        }
    }

    /// The immediate that stands for `imm`. Fails with
    /// `ImmediateOutOfRange(min, max)` when `imm` is out of the field's range,
    /// else with `ImmediateBitsBeforeStart(START)` when a bit below `START`
    /// is set.
    pub fn from_signed(imm: i32) -> (r: Result<Self, RISCVError>)
        requires
            shape_ok(START, END),
        ensures
            r == Self::spec_from_signed(imm),
            !in_range(imm, START as u32, END as u32) ==> r == Err::<Self, RISCVError>(
                RISCVError::ImmediateOutOfRange(
                    imm_min(START as u32, END as u32),
                    imm_max(START as u32, END as u32),
                ),
            ),
            in_range(imm, START as u32, END as u32) && !low_bits_clear(imm, START as u32) ==> r
                == Err::<Self, RISCVError>(RISCVError::ImmediateBitsBeforeStart(START)),
            in_range(imm, START as u32, END as u32) && low_bits_clear(imm, START as u32) ==> r is Ok
                && r->Ok_0.signed() == imm,
    {
        let s = START as u32;
        let e = END as u32;
        let field_width = e - s + 1;
        assert(1u32 <= (1u32 << s) && (e < 31 ==> (1i32 << s) <= (1i32 << e) && 1i32 <= (1i32 << s)))
            by (bit_vector)
            requires
                s <= e < 32,
        ;
        let (max, min) = if e == 31 {
            (i32::MAX, i32::MIN)
        } else {
            ((1i32 << e) - (1i32 << s), !0i32 << e)
        };
        assert(max == imm_max(s, e) && min == imm_min(s, e));
        if imm > max || imm < min {
            return Err(RISCVError::ImmediateOutOfRange(min, max));
        }
        assert(in_range(imm, s, e));
        let low_mask_start: u32 = (1u32 << s) - 1;
        if s > 0 && (#[verifier::truncate] (imm as u32) & low_mask_start) != 0 {
            return Err(RISCVError::ImmediateBitsBeforeStart(START));
        }
        assert(s == 0 ==> low_bits_clear(imm, s)) by (bit_vector);
        let mut result = #[verifier::truncate] ((imm >> s) as u32);
        let mask = if field_width < 32 {
            assert(1u32 <= (1u32 << field_width)) by (bit_vector)
                requires
                    field_width < 32,
            ;
            (1u32 << field_width) - 1
        } else {
            assert(!0u32 == 0xffff_ffffu32) by (bit_vector);
            !0u32
        };
        result = result & mask;
        assert(mask == low_mask(field_width));
        assert(result == normalized(imm, s, e));
        assert(low_bits_clear(imm, s));
        proof {
            lemma_signed_round_trip(imm, s, e);
        }
        Ok(Immediate(result))
    }

    /// The signed value that the immediate stands for: the field bits moved
    /// up to `START`, with bit `END` copied into the bits above it.
    pub fn to_signed(&self) -> (r: i32)
        ensures
            r == self.signed(),
    {
        proof {
            use_type_invariant(self);
        }
        let s = START as u32;
        let e = END as u32;
        let bits = self.0;
        let mut val = #[verifier::truncate] ((bits << s) as i32);
        if e < 31 && (val & (1i32 << e)) != 0 {
            assert(1i32 <= (1i32 << e)) by (bit_vector)
                requires
                    e < 31,
            ;
            val = val | !((1i32 << e) - 1);
        }
        assert(val == signed_of(bits, s, e)) by (bit_vector)
            requires
                s <= e < 32,
                fits_field(bits, s, e),
                val == (if e < 31 && (((bits << s) as i32) & (1i32 << e)) != 0 {
                    ((bits << s) as i32) | !(((1i32 << e) - 1) as i32)
                } else {
                    (bits << s) as i32
                }),
        ;
        val
    }

    /// The immediate whose field bits are `bits`; `ImmediateOutOfRange(0, 0)`
    /// when `bits` does not fit in the field's width.
    pub fn from_raw_bits(bits: u32) -> (r: Result<Self, RISCVError>)
        requires
            shape_ok(START, END),
        ensures
            r == Self::spec_from_raw_bits(bits),
            fits_field(bits, START as u32, END as u32) ==> r is Ok && r->Ok_0.bits() == bits,
    {
        let s = START as u32;
        let e = END as u32;
        let width = e - s + 1;
        assert(fits_field(bits, s, e) <==> (width >= 32 || bits <= ((1u32 << width) - 1) as u32))
            by (bit_vector)
            requires
                s <= e < 32,
                width == e - s + 1,
        ;
        assert(width < 32 ==> 1u32 <= (1u32 << width)) by (bit_vector);
        if width < 32 && bits > (1u32 << width) - 1 {
            return Err(RISCVError::ImmediateOutOfRange(0, 0));
        }
        Ok(Immediate(bits))
    }

    /// The field bits, shifted down to bit 0.
    pub fn raw_bits(&self) -> (r: u32)
        ensures
            r == self.bits(),
            fits_field(r, START as u32, END as u32),
            shape_ok(START, END),
    {
        proof {
            use_type_invariant(self);
        }
        self.0
    }
}

/// A field whose bit positions are not `START <= END < 32` holds no value:
/// every conversion into it fails with `ImmediateOutOfRange(0, 0)`.
impl<const START: u8, const END: u8> TryFrom<i32> for Immediate<START, END> {
    type Error = RISCVError;

    fn try_from(imm: i32) -> (r: Result<Self, RISCVError>) {
        if START <= END && END < 32 {
            Self::from_signed(imm)
        } else {
            Err(RISCVError::ImmediateOutOfRange(0, 0))
        }
    }
}

impl<const START: u8, const END: u8> vstd::std_specs::convert::TryFromSpecImpl<i32> for Immediate<START, END> {
    open spec fn obeys_try_from_spec() -> bool {
        true
    }

    open spec fn try_from_spec(imm: i32) -> Result<Self, RISCVError> {
        Self::spec_from_signed(imm)
    }
}

impl<const START: u8, const END: u8> From<Immediate<START, END>> for i32 {
    fn from(imm: Immediate<START, END>) -> (r: i32) {
        imm.to_signed()
    }
}

impl<const START: u8, const END: u8> vstd::std_specs::convert::FromSpecImpl<Immediate<START, END>> for i32 {
    open spec fn obeys_from_spec() -> bool {
        true
    }

    open spec fn from_spec(imm: Immediate<START, END>) -> i32 {
        imm.signed()
    }
}

impl<const START: u8, const END: u8> From<&Immediate<START, END>> for i32 {
    fn from(imm: &Immediate<START, END>) -> (r: i32) {
        imm.to_signed()
    }
}

impl<const START: u8, const END: u8> vstd::std_specs::convert::FromSpecImpl<&Immediate<START, END>> for i32 {
    open spec fn obeys_from_spec() -> bool {
        true
    }

    open spec fn from_spec(imm: &Immediate<START, END>) -> i32 {
        imm.signed()
    }
}

impl<const START: u8, const END: u8> RawBitsConverter for Immediate<START, END> {
    type BitsData = u32;

    type Error = RISCVError;

    open spec fn spec_try_from_raw_bits(bits: u32) -> Result<Self, RISCVError> {
        Self::spec_from_raw_bits(bits)
    }

    open spec fn spec_raw_bits(&self) -> u32 {
        self.bits()
    }

    fn try_from_raw_bits(bits: u32) -> (r: Result<Self, RISCVError>) {
        if START <= END && END < 32 {
            Self::from_raw_bits(bits)
        } else {
            Err(RISCVError::ImmediateOutOfRange(0, 0))
        }
    }

    fn into_raw_bits(&self) -> (r: u32) {
        self.raw_bits()
    }
}

} // verus!
