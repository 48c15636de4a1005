use vstd::prelude::*;

use crate::bit::{lemma_field_shifts, lemma_word_fields_fit};
use crate::data::get_mnemonic;
use crate::data::spec_get_mnemonic;
use crate::error::RISCVError;
use crate::format::InstructionFormat;
use crate::funct::{FunctField, Funct3, Funct7};
use crate::instr_trait::InstructionTrait;
use crate::mnemonic::Mnemonic;
use crate::opcode::{is_valid_opcode, Opcode};
use crate::register::Register;

verus! {

/// The R-type word with the given opcode and fields.
pub open spec fn r_word(opcode: u32, rs1: u32, rs2: u32, rd: u32, funct3: u32, funct7: u32) -> u32 {
    opcode | (rs1 << 15u32) | (rs2 << 20u32) | (rd << 7u32) | (funct3 << 12u32) | (funct7 << 25u32)
}

/// The fields of an R-type word read back from it are the ones it was
/// built from.
pub proof fn lemma_r_word_fields(opcode: u32, rs1: u32, rs2: u32, rd: u32, funct3: u32, funct7: u32)
    requires
        opcode < 128,
        rs1 < 32,
        rs2 < 32,
        rd < 32,
        funct3 < 8,
        funct7 < 128,
    ensures
        r_word(opcode, rs1, rs2, rd, funct3, funct7) & 0x7fu32 == opcode,
        (r_word(opcode, rs1, rs2, rd, funct3, funct7) >> 15u32) & 31u32 == rs1,
        (r_word(opcode, rs1, rs2, rd, funct3, funct7) >> 20u32) & 31u32 == rs2,
        (r_word(opcode, rs1, rs2, rd, funct3, funct7) >> 7u32) & 31u32 == rd,
        (r_word(opcode, rs1, rs2, rd, funct3, funct7) >> 12u32) & 7u32 == funct3,
        (r_word(opcode, rs1, rs2, rd, funct3, funct7) >> 25u32) & 127u32 == funct7,
{
    assert(r_word(opcode, rs1, rs2, rd, funct3, funct7) & 0x7fu32 == opcode
        && (r_word(opcode, rs1, rs2, rd, funct3, funct7) >> 15u32) & 31u32 == rs1
        && (r_word(opcode, rs1, rs2, rd, funct3, funct7) >> 20u32) & 31u32 == rs2
        && (r_word(opcode, rs1, rs2, rd, funct3, funct7) >> 7u32) & 31u32 == rd
        && (r_word(opcode, rs1, rs2, rd, funct3, funct7) >> 12u32) & 7u32 == funct3
        && (r_word(opcode, rs1, rs2, rd, funct3, funct7) >> 25u32) & 127u32 == funct7) by (bit_vector)
        requires
            opcode < 128,
            rs1 < 32,
            rs2 < 32,
            rd < 32,
            funct3 < 8,
            funct7 < 128,
    ;
}

/// Every bit of an R-type word belongs to one of its fields, so the word
/// built from the fields read out of `w` is `w`.
pub proof fn lemma_r_word_covers(w: u32)
    ensures
        r_word(w & 0x7fu32, (w >> 15u32) & 31u32, (w >> 20u32) & 31u32, (w >> 7u32) & 31u32, (w >> 12u32) & 7u32, (w >> 25u32) & 127u32) == w,
{
    assert(r_word(w & 0x7fu32, (w >> 15u32) & 31u32, (w >> 20u32) & 31u32, (w >> 7u32) & 31u32, (w >> 12u32) & 7u32, (w >> 25u32) & 127u32) == w) by (bit_vector);
}

/// An R-type instruction.
#[derive(Debug, PartialEq, Copy, Clone)]
pub struct RInstruction {
    pub(crate) opcode: Opcode,
    pub(crate) rs1: Register,
    pub(crate) rs2: Register,
    pub(crate) rd: Register,
    pub(crate) funct3: Funct3,
    pub(crate) funct7: Funct7,
}

impl RInstruction {
    #[verifier::type_invariant]
    spec fn inv(self) -> bool {
        self.opcode.spec_format() == InstructionFormat::R
    }

    /// Whether the opcode has the R format and every field holds a legal
    /// value.
    pub open(crate) spec fn wf(self) -> bool {
        &&& is_valid_opcode(self.opcode.value())
        &&& self.opcode.spec_format() == InstructionFormat::R
        &&& self.rs1.value() < 32
        &&& self.rs2.value() < 32
        &&& self.rd.value() < 32
        &&& (self.funct3.value() as u32) < 8
        &&& (self.funct7.value() as u32) < 128
    }

    /// The `rs1` field.
    pub open(crate) spec fn spec_rs1(self) -> Register {
        self.rs1
    }

    /// The `rs2` field.
    pub open(crate) spec fn spec_rs2(self) -> Register {
        self.rs2
    }

    /// The `rd` field.
    pub open(crate) spec fn spec_rd(self) -> Register {
        self.rd
    }

    /// The `funct3` field.
    pub open(crate) spec fn spec_funct3(self) -> Funct3 {
        self.funct3
    }

    /// The `funct7` field.
    pub open(crate) spec fn spec_funct7(self) -> Funct7 {
        self.funct7
    }

    /// The opcode.
    pub open(crate) spec fn spec_opcode_field(self) -> Opcode {
        self.opcode
    }

    /// The mnemonic that the table files under the instruction's fields.
    pub open(crate) spec fn spec_mnemonic_fields(self) -> Option<Mnemonic> {
        spec_get_mnemonic(self.opcode, Some(self.funct3), Some(self.funct7))
    }

    /// The word that encodes the instruction.
    pub open(crate) spec fn spec_encode(self) -> u32 {
        r_word(self.opcode.value() as u32, self.rs1.value() as u32, self.rs2.value() as u32, self.rd.value() as u32, self.funct3.value() as u32, self.funct7.value() as u32)
    }

    /// What decoding the word `w` as an R-type instruction gives.
    pub open(crate) spec fn spec_decode(w: u32) -> Result<RInstruction, RISCVError> {
        match Opcode::spec_try_from_word(w) {
            Err(e) => Err(e),
            Ok(opcode) => if opcode.spec_format() != InstructionFormat::R {
                Err(RISCVError::UnexpectedFormat(opcode.spec_format()))
            } else {
                Ok(
                    RInstruction {
                        opcode,
                        rs1: Register(((w >> 15u32) & 31u32) as u8),
                        rs2: Register(((w >> 20u32) & 31u32) as u8),
                        rd: Register(((w >> 7u32) & 31u32) as u8),
                        funct3: FunctField(((w >> 12u32) & 7u32) as u8),
                        funct7: FunctField(((w >> 25u32) & 127u32) as u8),
                    },
                )
            },
        }
    }

    /// What `new` gives for these fields.
    pub open(crate) spec fn spec_new(
        opcode: Opcode,
        rs1: Register,
        rs2: Register,
        rd: Register,
        funct3: Funct3,
        funct7: Funct7,
    ) -> Result<RInstruction, RISCVError> {
        if opcode.spec_format() == InstructionFormat::R {
            Ok(RInstruction { opcode, rs1, rs2, rd, funct3, funct7 })
        } else {
            Err(RISCVError::UnexpectedFormat(opcode.spec_format()))
        }
    }

    /// Builds an R-type instruction; `UnexpectedFormat` with the opcode's
    /// format when that format is not R.
    pub fn new(
        opcode: Opcode,
        rs1: Register,
        rs2: Register,
        rd: Register,
        funct3: Funct3,
        funct7: Funct7,
    ) -> (r: Result<Self, RISCVError>)
        ensures
            r == Self::spec_new(opcode, rs1, rs2, rd, funct3, funct7),
            r is Ok <==> opcode.spec_format() == InstructionFormat::R,
            r is Err ==> r == Err::<Self, RISCVError>(RISCVError::UnexpectedFormat(opcode.spec_format())),
            r is Ok ==> r->Ok_0.spec_opcode_field() == opcode
                && r->Ok_0.spec_rs1() == rs1
                && r->Ok_0.spec_rs2() == rs2
                && r->Ok_0.spec_rd() == rd
                && r->Ok_0.spec_funct3() == funct3
                && r->Ok_0.spec_funct7() == funct7,
    {
        let format = opcode.format();
        if format != InstructionFormat::R {
            return Err(RISCVError::UnexpectedFormat(format));
        }
        Ok(RInstruction { opcode, rs1, rs2, rd, funct3, funct7 })
    }

    /// The `rs1` field.
    pub fn rs1(&self) -> (r: Register)
        ensures
            r == self.spec_rs1(),
    {
        self.rs1
    }

    /// The `rs2` field.
    pub fn rs2(&self) -> (r: Register)
        ensures
            r == self.spec_rs2(),
    {
        self.rs2
    }

    /// The `rd` field.
    pub fn rd(&self) -> (r: Register)
        ensures
            r == self.spec_rd(),
    {
        self.rd
    }

    /// The `funct3` field.
    pub fn funct3(&self) -> (r: Funct3)
        ensures
            r == self.spec_funct3(),
    {
        self.funct3
    }

    /// The `funct7` field.
    pub fn funct7(&self) -> (r: Funct7)
        ensures
            r == self.spec_funct7(),
    {
        self.funct7
    }

    /// Decodes a word as an R-type instruction. Fails as `Opcode` does on
    /// the opcode bits, then with `UnexpectedFormat` when the opcode's format
    /// is not R. Re-encoding what it gives yields `instr`.
    pub fn try_from_word(instr: u32) -> (r: Result<Self, RISCVError>)
        ensures
            r == Self::spec_decode(instr),
            r is Ok ==> r->Ok_0.spec_encode() == instr,
    {
        let opcode = match Opcode::try_from_word(instr) {
            Ok(o) => o,
            Err(e) => return Err(e),
        };
        let format = opcode.format();
        if format != InstructionFormat::R {
            return Err(RISCVError::UnexpectedFormat(format));
        }
        proof {
            lemma_r_word_covers(instr);
        }
        let r = RInstruction {
            opcode,
            rs1: Register::from_rs1_bits(instr),
            rs2: Register::from_rs2_bits(instr),
            rd: Register::from_rd_bits(instr),
            funct3: Funct3::from_word(instr),
            funct7: Funct7::from_word(instr),
        };
        proof {
            lemma_word_fields_fit(instr);
        }
        Ok(r)
    }

    /// Decoding the word of a well-formed R-type instruction gives the
    /// instruction back.
    pub proof fn lemma_decode_encode(x: RInstruction)
        requires
            x.wf(),
        ensures
            RInstruction::spec_decode(x.spec_encode()) == Ok::<RInstruction, RISCVError>(x),
            x.spec_encode() & 0x7fu32 == x.spec_opcode_field().value() as u32,
    {
        lemma_r_word_fields(
            x.opcode.value() as u32,
            x.rs1.value() as u32,
            x.rs2.value() as u32,
            x.rd.value() as u32,
            x.funct3.value() as u32,
            x.funct7.value() as u32,
        );
    }

    /// Encoding what a word decodes to as an R-type instruction gives the
    /// word back.
    pub proof fn lemma_encode_decode(w: u32)
        requires
            RInstruction::spec_decode(w) is Ok,
        ensures
            RInstruction::spec_decode(w)->Ok_0.spec_encode() == w,
    {
        lemma_r_word_covers(w);
        lemma_word_fields_fit(w);
    }

    /// Encodes the instruction as a word. Decoding the word gives the
    /// instruction back.
    pub fn to_word(&self) -> (r: u32)
        ensures
            r == self.spec_encode(),
            Self::spec_decode(r) == Ok::<Self, RISCVError>(*self),
    {
        proof {
            lemma_field_shifts(0);
            use_type_invariant(self);
            use_type_invariant(&self.opcode);
            use_type_invariant(&self.rs1);
            use_type_invariant(&self.rs2);
            use_type_invariant(&self.rd);
            use_type_invariant(&self.funct3);
            use_type_invariant(&self.funct7);
        }
        let r = (self.opcode.bits() as u32)
            | self.rs1.into_rs1_bits()
            | self.rs2.into_rs2_bits()
            | self.rd.into_rd_bits()
            | self.funct3.into_bits()
            | self.funct7.into_bits();
        proof {
            lemma_field_shifts(self.funct3.value() as u32);
            lemma_field_shifts(self.funct7.value() as u32);
            RInstruction::lemma_decode_encode(*self);
        }
        r
    }
}

impl InstructionTrait for RInstruction {
    open spec fn spec_opcode(&self) -> Opcode {
        self.spec_opcode_field()
    }

    open spec fn spec_immediate_bits(&self) -> u32 {
        0
    }

    open spec fn spec_mnemonic(&self) -> Option<Mnemonic> {
        self.spec_mnemonic_fields()
    }

    fn opcode(&self) -> (r: &Opcode) {
        &self.opcode
    }

    fn format(&self) -> (r: InstructionFormat) {
        proof {
            use_type_invariant(self);
        }
        InstructionFormat::R
    }

    fn mnemonic(&self) -> (r: Option<Mnemonic>) {
        get_mnemonic(self.opcode, Some(self.funct3), Some(self.funct7))
    }

    fn immediate_bits(&self) -> (r: u32) {
        0
    }
}

impl TryFrom<u32> for RInstruction {
    type Error = RISCVError;

    fn try_from(instr: u32) -> (r: Result<Self, RISCVError>) {
        RInstruction::try_from_word(instr)
    }
}

impl vstd::std_specs::convert::TryFromSpecImpl<u32> for RInstruction {
    open spec fn obeys_try_from_spec() -> bool {
        true
    }

    open spec fn try_from_spec(instr: u32) -> Result<Self, RISCVError> {
        RInstruction::spec_decode(instr)
    }
}

impl From<RInstruction> for u32 {
    fn from(instr: RInstruction) -> (r: u32) {
        instr.to_word()
    }
}

impl vstd::std_specs::convert::FromSpecImpl<RInstruction> for u32 {
    open spec fn obeys_from_spec() -> bool {
        true
    }

    open spec fn from_spec(instr: RInstruction) -> u32 {
        instr.spec_encode()
    }
}

impl From<&RInstruction> for u32 {
    fn from(instr: &RInstruction) -> (r: u32) {
        instr.to_word()
    }
}

impl vstd::std_specs::convert::FromSpecImpl<&RInstruction> for u32 {
    open spec fn obeys_from_spec() -> bool {
        true
    }

    open spec fn from_spec(instr: &RInstruction) -> u32 {
        instr.spec_encode()
    }
}

} // verus!
