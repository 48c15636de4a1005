use vstd::prelude::*;

use crate::bit::{lemma_field_shifts, lemma_word_fields_fit};
use crate::data::get_mnemonic;
use crate::data::spec_get_mnemonic;
use crate::error::RISCVError;
use crate::format::InstructionFormat;
use crate::funct::{FunctField, Funct3};
use crate::immediate::{fits_field, Immediate};
use crate::instr_trait::InstructionTrait;
use crate::mnemonic::Mnemonic;
use crate::opcode::{is_valid_opcode, Opcode};
use crate::register::Register;

verus! {

/// The immediate field bits of an S-type word, gathered from where they
/// stand in the word.
pub open spec fn s_gather(w: u32) -> u32 {
    ((w >> 7u32) & 0x1fu32) | ((w >> 25u32) << 5u32)
}

/// The immediate field bits `b`, scattered to where they stand in an
/// S-type word.
pub open spec fn s_scatter(b: u32) -> u32 {
    ((b & 0x1fu32) << 7u32) | ((b >> 5u32) << 25u32)
}

/// The S-type word with the given opcode and fields.
pub open spec fn s_word(opcode: u32, rs1: u32, rs2: u32, funct3: u32, imm: u32) -> u32 {
    opcode | (rs1 << 15u32) | (rs2 << 20u32) | (funct3 << 12u32) | s_scatter(imm)
}

/// The fields of an S-type word read back from it are the ones it was
/// built from.
pub proof fn lemma_s_word_fields(opcode: u32, rs1: u32, rs2: u32, funct3: u32, imm: u32)
    requires
        opcode < 128,
        rs1 < 32,
        rs2 < 32,
        funct3 < 8,
        fits_field(imm, 0, 11),
    ensures
        s_word(opcode, rs1, rs2, funct3, imm) & 0x7fu32 == opcode,
        (s_word(opcode, rs1, rs2, funct3, imm) >> 15u32) & 31u32 == rs1,
        (s_word(opcode, rs1, rs2, funct3, imm) >> 20u32) & 31u32 == rs2,
        (s_word(opcode, rs1, rs2, funct3, imm) >> 12u32) & 7u32 == funct3,
        s_gather(s_word(opcode, rs1, rs2, funct3, imm)) == imm,
{
    assert(s_word(opcode, rs1, rs2, funct3, imm) & 0x7fu32 == opcode
        && (s_word(opcode, rs1, rs2, funct3, imm) >> 15u32) & 31u32 == rs1
        && (s_word(opcode, rs1, rs2, funct3, imm) >> 20u32) & 31u32 == rs2
        && (s_word(opcode, rs1, rs2, funct3, imm) >> 12u32) & 7u32 == funct3
        && s_gather(s_word(opcode, rs1, rs2, funct3, imm)) == imm) by (bit_vector)
        requires
            opcode < 128,
            rs1 < 32,
            rs2 < 32,
            funct3 < 8,
            fits_field(imm, 0, 11),
    ;
}

/// Every bit of an S-type word belongs to one of its fields, so the word
/// built from the fields read out of `w` is `w`.
pub proof fn lemma_s_word_covers(w: u32)
    ensures
        s_word(w & 0x7fu32, (w >> 15u32) & 31u32, (w >> 20u32) & 31u32, (w >> 12u32) & 7u32, s_gather(w)) == w,
        fits_field(s_gather(w), 0, 11),
{
    assert(s_word(w & 0x7fu32, (w >> 15u32) & 31u32, (w >> 20u32) & 31u32, (w >> 12u32) & 7u32, s_gather(w)) == w
        && fits_field(s_gather(w), 0, 11)) by (bit_vector);
}

/// An S-type instruction.
#[derive(Debug, PartialEq, Copy, Clone)]
pub struct SInstruction {
    pub(crate) opcode: Opcode,
    pub(crate) rs1: Register,
    pub(crate) rs2: Register,
    pub(crate) funct3: Funct3,
    pub(crate) imm: Immediate<0, 11>,
}

impl SInstruction {
    #[verifier::type_invariant]
    spec fn inv(self) -> bool {
        self.opcode.spec_format() == InstructionFormat::S
    }

    /// Whether the opcode has the S format and every field holds a legal
    /// value.
    pub open(crate) spec fn wf(self) -> bool {
        &&& is_valid_opcode(self.opcode.value())
        &&& self.opcode.spec_format() == InstructionFormat::S
        &&& self.rs1.value() < 32
        &&& self.rs2.value() < 32
        &&& (self.funct3.value() as u32) < 8
        &&& fits_field(self.imm.bits(), 0, 11)
    }

    /// The `rs1` field.
    pub open(crate) spec fn spec_rs1(self) -> Register {
        self.rs1
    }

    /// The `rs2` field.
    pub open(crate) spec fn spec_rs2(self) -> Register {
        self.rs2
    }

    /// The `funct3` field.
    pub open(crate) spec fn spec_funct3(self) -> Funct3 {
        self.funct3
    }

    /// The `imm` field.
    pub open(crate) spec fn spec_imm(self) -> Immediate<0, 11> {
        self.imm
    }

    /// The opcode.
    pub open(crate) spec fn spec_opcode_field(self) -> Opcode {
        self.opcode
    }

    /// The mnemonic that the table files under the instruction's fields.
    pub open(crate) spec fn spec_mnemonic_fields(self) -> Option<Mnemonic> {
        spec_get_mnemonic(self.opcode, Some(self.funct3), None)
    }

    /// The word that encodes the instruction.
    pub open(crate) spec fn spec_encode(self) -> u32 {
        s_word(self.opcode.value() as u32, self.rs1.value() as u32, self.rs2.value() as u32, self.funct3.value() as u32, self.imm.bits())
    }

    /// What decoding the word `w` as an S-type instruction gives.
    pub open(crate) spec fn spec_decode(w: u32) -> Result<SInstruction, RISCVError> {
        match Opcode::spec_try_from_word(w) {
            Err(e) => Err(e),
            Ok(opcode) => if opcode.spec_format() != InstructionFormat::S {
                Err(RISCVError::UnexpectedFormat(opcode.spec_format()))
            } else {
                Ok(
                    SInstruction {
                        opcode,
                        rs1: Register(((w >> 15u32) & 31u32) as u8),
                        rs2: Register(((w >> 20u32) & 31u32) as u8),
                        funct3: FunctField(((w >> 12u32) & 7u32) as u8),
                        imm: Immediate(s_gather(w)),
                    },
                )
            },
        }
    }

    /// What `new` gives for these fields.
    pub open(crate) spec fn spec_new(
        opcode: Opcode,
        rs1: Register,
        rs2: Register,
        funct3: Funct3,
        imm: Immediate<0,
        11>,
    ) -> Result<SInstruction, RISCVError> {
        if opcode.spec_format() == InstructionFormat::S {
            Ok(SInstruction { opcode, rs1, rs2, funct3, imm })
        } else {
            Err(RISCVError::UnexpectedFormat(opcode.spec_format()))
        }
    }

    /// Builds an S-type instruction; `UnexpectedFormat` with the opcode's
    /// format when that format is not S.
    pub fn new(
        opcode: Opcode,
        rs1: Register,
        rs2: Register,
        funct3: Funct3,
        imm: Immediate<0,
        11>,
    ) -> (r: Result<Self, RISCVError>)
        ensures
            r == Self::spec_new(opcode, rs1, rs2, funct3, imm),
            r is Ok <==> opcode.spec_format() == InstructionFormat::S,
            r is Err ==> r == Err::<Self, RISCVError>(RISCVError::UnexpectedFormat(opcode.spec_format())),
            r is Ok ==> r->Ok_0.spec_opcode_field() == opcode
                && r->Ok_0.spec_rs1() == rs1
                && r->Ok_0.spec_rs2() == rs2
                && r->Ok_0.spec_funct3() == funct3
                && r->Ok_0.spec_imm() == imm,
    {
        let format = opcode.format();
        if format != InstructionFormat::S {
            return Err(RISCVError::UnexpectedFormat(format));
        }
        Ok(SInstruction { opcode, rs1, rs2, funct3, imm })
    }

    /// The `rs1` field.
    pub fn rs1(&self) -> (r: Register)
        ensures
            r == self.spec_rs1(),
    {
        self.rs1
    }

    /// The `rs2` field.
    pub fn rs2(&self) -> (r: Register)
        ensures
            r == self.spec_rs2(),
    {
        self.rs2
    }

    /// The `funct3` field.
    pub fn funct3(&self) -> (r: Funct3)
        ensures
            r == self.spec_funct3(),
    {
        self.funct3
    }

    /// The `imm` field.
    pub fn imm(&self) -> (r: Immediate<0, 11>)
        ensures
            r == self.spec_imm(),
    {
        self.imm
    }

    /// Decodes a word as an S-type instruction. Fails as `Opcode` does on
    /// the opcode bits, then with `UnexpectedFormat` when the opcode's format
    /// is not S. Re-encoding what it gives yields `instr`.
    pub fn try_from_word(instr: u32) -> (r: Result<Self, RISCVError>)
        ensures
            r == Self::spec_decode(instr),
            r is Ok ==> r->Ok_0.spec_encode() == instr,
    {
        let opcode = match Opcode::try_from_word(instr) {
            Ok(o) => o,
            Err(e) => return Err(e),
        };
        let format = opcode.format();
        if format != InstructionFormat::S {
            return Err(RISCVError::UnexpectedFormat(format));
        }
        proof {
            lemma_s_word_covers(instr);
        }
        let imm_val = s_raw_imm(&instr);
        let imm = match Immediate::<0, 11>::from_raw_bits(imm_val) {
            Ok(i) => i,
            Err(e) => return Err(e),
        };
        let r = SInstruction {
            opcode,
            rs1: Register::from_rs1_bits(instr),
            rs2: Register::from_rs2_bits(instr),
            funct3: Funct3::from_word(instr),
            imm,
        };
        proof {
            lemma_word_fields_fit(instr);
        }
        Ok(r)
    }

    /// Decoding the word of a well-formed S-type instruction gives the
    /// instruction back.
    pub proof fn lemma_decode_encode(x: SInstruction)
        requires
            x.wf(),
        ensures
            SInstruction::spec_decode(x.spec_encode()) == Ok::<SInstruction, RISCVError>(x),
            x.spec_encode() & 0x7fu32 == x.spec_opcode_field().value() as u32,
    {
        lemma_s_word_fields(
            x.opcode.value() as u32,
            x.rs1.value() as u32,
            x.rs2.value() as u32,
            x.funct3.value() as u32,
            x.imm.bits(),
        );
    }

    /// Encoding what a word decodes to as an S-type instruction gives the
    /// word back.
    pub proof fn lemma_encode_decode(w: u32)
        requires
            SInstruction::spec_decode(w) is Ok,
        ensures
            SInstruction::spec_decode(w)->Ok_0.spec_encode() == w,
    {
        lemma_s_word_covers(w);
        lemma_word_fields_fit(w);
    }

    /// Encodes the instruction as a word. Decoding the word gives the
    /// instruction back.
    pub fn to_word(&self) -> (r: u32)
        ensures
            r == self.spec_encode(),
            Self::spec_decode(r) == Ok::<Self, RISCVError>(*self),
    {
        proof {
            lemma_field_shifts(0);
            use_type_invariant(self);
            use_type_invariant(&self.opcode);
            use_type_invariant(&self.rs1);
            use_type_invariant(&self.rs2);
            use_type_invariant(&self.funct3);
            use_type_invariant(&self.imm);
        }
        let r = (self.opcode.bits() as u32)
            | self.rs1.into_rs1_bits()
            | self.rs2.into_rs2_bits()
            | self.funct3.into_bits()
            | self.immediate_bits();
        proof {
            lemma_field_shifts(self.funct3.value() as u32);
            SInstruction::lemma_decode_encode(*self);
        }
        r
    }
}

/// Gathers the immediate field bits of an S-type word.
fn s_raw_imm(instr: &u32) -> (r: u32)
    ensures
        r == s_gather(*instr),
{
    ((*instr >> 7) & 0b11111) | ((*instr >> 25) << 5)
}

impl InstructionTrait for SInstruction {
    open spec fn spec_opcode(&self) -> Opcode {
        self.spec_opcode_field()
    }

    open spec fn spec_immediate_bits(&self) -> u32 {
        s_scatter(self.spec_imm().bits())
    }

    open spec fn spec_mnemonic(&self) -> Option<Mnemonic> {
        self.spec_mnemonic_fields()
    }

    fn opcode(&self) -> (r: &Opcode) {
        &self.opcode
    }

    fn format(&self) -> (r: InstructionFormat) {
        proof {
            use_type_invariant(self);
        }
        InstructionFormat::S
    }

    fn mnemonic(&self) -> (r: Option<Mnemonic>) {
        get_mnemonic(self.opcode, Some(self.funct3), None)
    }

    fn immediate_bits(&self) -> (r: u32) {
        let bits = self.imm.raw_bits();
        ((bits & 0b11111) << 7) | ((bits >> 5) << 25)
    }
}

impl TryFrom<u32> for SInstruction {
    type Error = RISCVError;

    fn try_from(instr: u32) -> (r: Result<Self, RISCVError>) {
        SInstruction::try_from_word(instr)
    }
}

impl vstd::std_specs::convert::TryFromSpecImpl<u32> for SInstruction {
    open spec fn obeys_try_from_spec() -> bool {
        true
    }

    open spec fn try_from_spec(instr: u32) -> Result<Self, RISCVError> {
        SInstruction::spec_decode(instr)
    }
}

impl From<SInstruction> for u32 {
    fn from(instr: SInstruction) -> (r: u32) {
        instr.to_word()
    }
}

impl vstd::std_specs::convert::FromSpecImpl<SInstruction> for u32 {
    open spec fn obeys_from_spec() -> bool {
        true
    }

    open spec fn from_spec(instr: SInstruction) -> u32 {
        instr.spec_encode()
    }
}

impl From<&SInstruction> for u32 {
    fn from(instr: &SInstruction) -> (r: u32) {
        instr.to_word()
    }
}

impl vstd::std_specs::convert::FromSpecImpl<&SInstruction> for u32 {
    open spec fn obeys_from_spec() -> bool {
        true
    }

    open spec fn from_spec(instr: &SInstruction) -> u32 {
        instr.spec_encode()
    }
}

} // verus!
