use vstd::prelude::*;

use crate::bit::{copy_bit, copy_bits, spliced};
use crate::bit::{lemma_field_shifts, lemma_word_fields_fit};
use crate::data::get_mnemonic;
use crate::data::spec_get_mnemonic;
use crate::error::RISCVError;
use crate::format::InstructionFormat;
use crate::funct::{FunctField, Funct3};
use crate::immediate::{fits_field, Immediate};
use crate::instr_trait::InstructionTrait;
use crate::mnemonic::Mnemonic;
use crate::opcode::{is_valid_opcode, Opcode};
use crate::register::Register;

verus! {

/// The immediate field bits of a B-type word, gathered from where they
/// stand in the word.
pub open spec fn b_gather(w: u32) -> u32 {
    ((w >> 8u32) & 0xfu32)
        | (((w >> 25u32) & 0x3fu32) << 4u32)
        | (((w >> 7u32) & 1u32) << 10u32)
        | (((w >> 31u32) & 1u32) << 11u32)
}

/// The immediate field bits `b`, scattered to where they stand in a
/// B-type word.
pub open spec fn b_scatter(b: u32) -> u32 {
    ((b & 0xfu32) << 8u32)
        | (((b >> 4u32) & 0x3fu32) << 25u32)
        | (((b >> 10u32) & 1u32) << 7u32)
        | (((b >> 11u32) & 1u32) << 31u32)
}

/// The B-type word with the given opcode and fields.
pub open spec fn b_word(opcode: u32, rs1: u32, rs2: u32, funct3: u32, imm: u32) -> u32 {
    opcode | (rs1 << 15u32) | (rs2 << 20u32) | (funct3 << 12u32) | b_scatter(imm)
}

/// The fields of a B-type word read back from it are the ones it was
/// built from.
pub proof fn lemma_b_word_fields(opcode: u32, rs1: u32, rs2: u32, funct3: u32, imm: u32)
    requires
        opcode < 128,
        rs1 < 32,
        rs2 < 32,
        funct3 < 8,
        fits_field(imm, 1, 12),
    ensures
        b_word(opcode, rs1, rs2, funct3, imm) & 0x7fu32 == opcode,
        (b_word(opcode, rs1, rs2, funct3, imm) >> 15u32) & 31u32 == rs1,
        (b_word(opcode, rs1, rs2, funct3, imm) >> 20u32) & 31u32 == rs2,
        (b_word(opcode, rs1, rs2, funct3, imm) >> 12u32) & 7u32 == funct3,
        b_gather(b_word(opcode, rs1, rs2, funct3, imm)) == imm,
{
    assert(b_word(opcode, rs1, rs2, funct3, imm) & 0x7fu32 == opcode
        && (b_word(opcode, rs1, rs2, funct3, imm) >> 15u32) & 31u32 == rs1
        && (b_word(opcode, rs1, rs2, funct3, imm) >> 20u32) & 31u32 == rs2
        && (b_word(opcode, rs1, rs2, funct3, imm) >> 12u32) & 7u32 == funct3
        && b_gather(b_word(opcode, rs1, rs2, funct3, imm)) == imm) by (bit_vector)
        requires
            opcode < 128,
            rs1 < 32,
            rs2 < 32,
            funct3 < 8,
            fits_field(imm, 1, 12),
    ;
}

/// Every bit of a B-type word belongs to one of its fields, so the word
/// built from the fields read out of `w` is `w`.
pub proof fn lemma_b_word_covers(w: u32)
    ensures
        b_word(w & 0x7fu32, (w >> 15u32) & 31u32, (w >> 20u32) & 31u32, (w >> 12u32) & 7u32, b_gather(w)) == w,
        fits_field(b_gather(w), 1, 12),
{
    assert(b_word(w & 0x7fu32, (w >> 15u32) & 31u32, (w >> 20u32) & 31u32, (w >> 12u32) & 7u32, b_gather(w)) == w
        && fits_field(b_gather(w), 1, 12)) by (bit_vector);
}

/// A B-type instruction.
#[derive(Debug, PartialEq, Copy, Clone)]
pub struct BInstruction {
    pub(crate) opcode: Opcode,
    pub(crate) rs1: Register,
    pub(crate) rs2: Register,
    pub(crate) funct3: Funct3,
    pub(crate) imm: Immediate<1, 12>,
}

impl BInstruction {
    #[verifier::type_invariant]
    spec fn inv(self) -> bool {
        self.opcode.spec_format() == InstructionFormat::B
    }

    /// Whether the opcode has the B format and every field holds a legal
    /// value.
    pub open(crate) spec fn wf(self) -> bool {
        &&& is_valid_opcode(self.opcode.value())
        &&& self.opcode.spec_format() == InstructionFormat::B
        &&& self.rs1.value() < 32
        &&& self.rs2.value() < 32
        &&& (self.funct3.value() as u32) < 8
        &&& fits_field(self.imm.bits(), 1, 12)
    }

    /// The `rs1` field.
    pub open(crate) spec fn spec_rs1(self) -> Register {
        self.rs1
    }

    /// The `rs2` field.
    pub open(crate) spec fn spec_rs2(self) -> Register {
        self.rs2
    }

    /// The `funct3` field.
    pub open(crate) spec fn spec_funct3(self) -> Funct3 {
        self.funct3
    }

    /// The `imm` field.
    pub open(crate) spec fn spec_imm(self) -> Immediate<1, 12> {
        self.imm
    }

    /// The opcode.
    pub open(crate) spec fn spec_opcode_field(self) -> Opcode {
        self.opcode
    }

    /// The mnemonic that the table files under the instruction's fields.
    pub open(crate) spec fn spec_mnemonic_fields(self) -> Option<Mnemonic> {
        spec_get_mnemonic(self.opcode, Some(self.funct3), None)
    }

    /// The word that encodes the instruction.
    pub open(crate) spec fn spec_encode(self) -> u32 {
        b_word(self.opcode.value() as u32, self.rs1.value() as u32, self.rs2.value() as u32, self.funct3.value() as u32, self.imm.bits())
    }

    /// What decoding the word `w` as a B-type instruction gives.
    pub open(crate) spec fn spec_decode(w: u32) -> Result<BInstruction, RISCVError> {
        match Opcode::spec_try_from_word(w) {
            Err(e) => Err(e),
            Ok(opcode) => if opcode.spec_format() != InstructionFormat::B {
                Err(RISCVError::UnexpectedFormat(opcode.spec_format()))
            } else {
                Ok(
                    BInstruction {
                        opcode,
                        rs1: Register(((w >> 15u32) & 31u32) as u8),
                        rs2: Register(((w >> 20u32) & 31u32) as u8),
                        funct3: FunctField(((w >> 12u32) & 7u32) as u8),
                        imm: Immediate(b_gather(w)),
                    },
                )
            },
        }
    }

    /// What `new` gives for these fields.
    pub open(crate) spec fn spec_new(
        opcode: Opcode,
        rs1: Register,
        rs2: Register,
        funct3: Funct3,
        imm: Immediate<1,
        12>,
    ) -> Result<BInstruction, RISCVError> {
        if opcode.spec_format() == InstructionFormat::B {
            Ok(BInstruction { opcode, rs1, rs2, funct3, imm })
        } else {
            Err(RISCVError::UnexpectedFormat(opcode.spec_format()))
        }
    }

    /// Builds a B-type instruction; `UnexpectedFormat` with the opcode's
    /// format when that format is not B.
    pub fn new(
        opcode: Opcode,
        rs1: Register,
        rs2: Register,
        funct3: Funct3,
        imm: Immediate<1,
        12>,
    ) -> (r: Result<Self, RISCVError>)
        ensures
            r == Self::spec_new(opcode, rs1, rs2, funct3, imm),
            r is Ok <==> opcode.spec_format() == InstructionFormat::B,
            r is Err ==> r == Err::<Self, RISCVError>(RISCVError::UnexpectedFormat(opcode.spec_format())),
            r is Ok ==> r->Ok_0.spec_opcode_field() == opcode
                && r->Ok_0.spec_rs1() == rs1
                && r->Ok_0.spec_rs2() == rs2
                && r->Ok_0.spec_funct3() == funct3
                && r->Ok_0.spec_imm() == imm,
    {
        let format = opcode.format();
        if format != InstructionFormat::B {
            return Err(RISCVError::UnexpectedFormat(format));
        }
        Ok(BInstruction { opcode, rs1, rs2, funct3, imm })
    }

    /// The `rs1` field.
    pub fn rs1(&self) -> (r: Register)
        ensures
            r == self.spec_rs1(),
    {
        self.rs1
    }

    /// The `rs2` field.
    pub fn rs2(&self) -> (r: Register)
        ensures
            r == self.spec_rs2(),
    {
        self.rs2
    }

    /// The `funct3` field.
    pub fn funct3(&self) -> (r: Funct3)
        ensures
            r == self.spec_funct3(),
    {
        self.funct3
    }

    /// The `imm` field.
    pub fn imm(&self) -> (r: Immediate<1, 12>)
        ensures
            r == self.spec_imm(),
    {
        self.imm
    }

    /// Decodes a word as a B-type instruction. Fails as `Opcode` does on
    /// the opcode bits, then with `UnexpectedFormat` when the opcode's format
    /// is not B. Re-encoding what it gives yields `instr`.
    pub fn try_from_word(instr: u32) -> (r: Result<Self, RISCVError>)
        ensures
            r == Self::spec_decode(instr),
            r is Ok ==> r->Ok_0.spec_encode() == instr,
    {
        let opcode = match Opcode::try_from_word(instr) {
            Ok(o) => o,
            Err(e) => return Err(e),
        };
        let format = opcode.format();
        if format != InstructionFormat::B {
            return Err(RISCVError::UnexpectedFormat(format));
        }
        proof {
            lemma_b_word_covers(instr);
        }
        let imm_val = b_raw_imm(&instr);
        let imm = match Immediate::<1, 12>::from_raw_bits(imm_val) {
            Ok(i) => i,
            Err(e) => return Err(e),
        };
        let r = BInstruction {
            opcode,
            rs1: Register::from_rs1_bits(instr),
            rs2: Register::from_rs2_bits(instr),
            funct3: Funct3::from_word(instr),
            imm,
        };
        proof {
            lemma_word_fields_fit(instr);
        }
        Ok(r)
    }

    /// Decoding the word of a well-formed B-type instruction gives the
    /// instruction back.
    pub proof fn lemma_decode_encode(x: BInstruction)
        requires
            x.wf(),
        ensures
            BInstruction::spec_decode(x.spec_encode()) == Ok::<BInstruction, RISCVError>(x),
            x.spec_encode() & 0x7fu32 == x.spec_opcode_field().value() as u32,
    {
        lemma_b_word_fields(
            x.opcode.value() as u32,
            x.rs1.value() as u32,
            x.rs2.value() as u32,
            x.funct3.value() as u32,
            x.imm.bits(),
        );
    }

    /// Encoding what a word decodes to as a B-type instruction gives the
    /// word back.
    pub proof fn lemma_encode_decode(w: u32)
        requires
            BInstruction::spec_decode(w) is Ok,
        ensures
            BInstruction::spec_decode(w)->Ok_0.spec_encode() == w,
    {
        lemma_b_word_covers(w);
        lemma_word_fields_fit(w);
    }

    /// Encodes the instruction as a word. Decoding the word gives the
    /// instruction back.
    pub fn to_word(&self) -> (r: u32)
        ensures
            r == self.spec_encode(),
            Self::spec_decode(r) == Ok::<Self, RISCVError>(*self),
    {
        proof {
            lemma_field_shifts(0);
            use_type_invariant(self);
            use_type_invariant(&self.opcode);
            use_type_invariant(&self.rs1);
            use_type_invariant(&self.rs2);
            use_type_invariant(&self.funct3);
            use_type_invariant(&self.imm);
        }
        let r = (self.opcode.bits() as u32)
            | self.rs1.into_rs1_bits()
            | self.rs2.into_rs2_bits()
            | self.funct3.into_bits()
            | self.immediate_bits();
        proof {
            lemma_field_shifts(self.funct3.value() as u32);
            BInstruction::lemma_decode_encode(*self);
        }
        r
    }
}

/// Gathers the immediate field bits of a B-type word.
fn b_raw_imm(instr: &u32) -> (r: u32)
    ensures
        r == b_gather(*instr),
{
    let mut res = 0u32;
    copy_bits(instr, 8, &mut res, 0, 4);
    copy_bits(instr, 25, &mut res, 4, 6);
    copy_bit(instr, 7, &mut res, 10);
    copy_bit(instr, 31, &mut res, 11);
    let w = *instr;
    assert(res == b_gather(w)) by (bit_vector)
        requires
            res == spliced(w, 31, spliced(w, 7, spliced(w, 25, spliced(w, 8, 0u32, 0, 4), 4, 6), 10, 1), 11, 1),
    ;
    res
}

impl InstructionTrait for BInstruction {
    open spec fn spec_opcode(&self) -> Opcode {
        self.spec_opcode_field()
    }

    open spec fn spec_immediate_bits(&self) -> u32 {
        b_scatter(self.spec_imm().bits())
    }

    open spec fn spec_mnemonic(&self) -> Option<Mnemonic> {
        self.spec_mnemonic_fields()
    }

    fn opcode(&self) -> (r: &Opcode) {
        &self.opcode
    }

    fn format(&self) -> (r: InstructionFormat) {
        proof {
            use_type_invariant(self);
        }
        InstructionFormat::B
    }

    fn mnemonic(&self) -> (r: Option<Mnemonic>) {
        get_mnemonic(self.opcode, Some(self.funct3), None)
    }

    fn immediate_bits(&self) -> (r: u32) {
        let imm = self.imm.raw_bits();
        let mut res = 0u32;
        copy_bits(&imm, 0, &mut res, 8, 4);
        copy_bits(&imm, 4, &mut res, 25, 6);
        copy_bit(&imm, 10, &mut res, 7);
        copy_bit(&imm, 11, &mut res, 31);
        assert(res == b_scatter(imm)) by (bit_vector)
            requires
                res == spliced(imm, 11, spliced(imm, 10, spliced(imm, 4, spliced(imm, 0, 0u32, 8, 4), 25, 6), 7, 1), 31, 1),
        ;
        res
    }
}

impl TryFrom<u32> for BInstruction {
    type Error = RISCVError;

    fn try_from(instr: u32) -> (r: Result<Self, RISCVError>) {
        BInstruction::try_from_word(instr)
    }
}

impl vstd::std_specs::convert::TryFromSpecImpl<u32> for BInstruction {
    open spec fn obeys_try_from_spec() -> bool {
        true
    }

    open spec fn try_from_spec(instr: u32) -> Result<Self, RISCVError> {
        BInstruction::spec_decode(instr)
    }
}

impl From<BInstruction> for u32 {
    fn from(instr: BInstruction) -> (r: u32) {
        instr.to_word()
    }
}

impl vstd::std_specs::convert::FromSpecImpl<BInstruction> for u32 {
    open spec fn obeys_from_spec() -> bool {
        true
    }

    open spec fn from_spec(instr: BInstruction) -> u32 {
        instr.spec_encode()
    }
}

impl From<&BInstruction> for u32 {
    fn from(instr: &BInstruction) -> (r: u32) {
        instr.to_word()
    }
}

impl vstd::std_specs::convert::FromSpecImpl<&BInstruction> for u32 {
    open spec fn obeys_from_spec() -> bool {
        true
    }

    open spec fn from_spec(instr: &BInstruction) -> u32 {
        instr.spec_encode()
    }
}

} // verus!
