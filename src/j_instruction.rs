use vstd::prelude::*;

use crate::bit::{copy_bit, copy_bits, spliced};
use crate::bit::{lemma_field_shifts, lemma_word_fields_fit};
use crate::data::get_mnemonic;
use crate::data::spec_get_mnemonic;
use crate::error::RISCVError;
use crate::format::InstructionFormat;
use crate::immediate::{fits_field, Immediate};
use crate::instr_trait::InstructionTrait;
use crate::mnemonic::Mnemonic;
use crate::opcode::{is_valid_opcode, Opcode};
use crate::register::Register;

verus! {

/// The immediate field bits of a J-type word, gathered from where they
/// stand in the word.
pub open spec fn j_gather(w: u32) -> u32 {
    ((w >> 21u32) & 0x3ffu32)
        | (((w >> 20u32) & 1u32) << 10u32)
        | (((w >> 12u32) & 0xffu32) << 11u32)
        | (((w >> 31u32) & 1u32) << 19u32)
}

/// The immediate field bits `b`, scattered to where they stand in a
/// J-type word.
pub open spec fn j_scatter(b: u32) -> u32 {
    ((b & 0x3ffu32) << 21u32)
        | (((b >> 10u32) & 1u32) << 20u32)
        | (((b >> 11u32) & 0xffu32) << 12u32)
        | (((b >> 19u32) & 1u32) << 31u32)
}

/// The J-type word with the given opcode and fields.
pub open spec fn j_word(opcode: u32, rd: u32, imm: u32) -> u32 {
    opcode | (rd << 7u32) | j_scatter(imm)
}

/// The fields of a J-type word read back from it are the ones it was
/// built from.
pub proof fn lemma_j_word_fields(opcode: u32, rd: u32, imm: u32)
    requires
        opcode < 128,
        rd < 32,
        fits_field(imm, 1, 20),
    ensures
        j_word(opcode, rd, imm) & 0x7fu32 == opcode,
        (j_word(opcode, rd, imm) >> 7u32) & 31u32 == rd,
        j_gather(j_word(opcode, rd, imm)) == imm,
{
    assert(j_word(opcode, rd, imm) & 0x7fu32 == opcode
        && (j_word(opcode, rd, imm) >> 7u32) & 31u32 == rd
        && j_gather(j_word(opcode, rd, imm)) == imm) by (bit_vector)
        requires
            opcode < 128,
            rd < 32,
            fits_field(imm, 1, 20),
    ;
}

/// Every bit of a J-type word belongs to one of its fields, so the word
/// built from the fields read out of `w` is `w`.
pub proof fn lemma_j_word_covers(w: u32)
    ensures
        j_word(w & 0x7fu32, (w >> 7u32) & 31u32, j_gather(w)) == w,
        fits_field(j_gather(w), 1, 20),
{
    assert(j_word(w & 0x7fu32, (w >> 7u32) & 31u32, j_gather(w)) == w
        && fits_field(j_gather(w), 1, 20)) by (bit_vector);
}

/// A J-type instruction.
#[derive(Debug, PartialEq, Copy, Clone)]
pub struct JInstruction {
    pub(crate) opcode: Opcode,
    pub(crate) rd: Register,
    pub(crate) imm: Immediate<1, 20>,
}

impl JInstruction {
    #[verifier::type_invariant]
    spec fn inv(self) -> bool {
        self.opcode.spec_format() == InstructionFormat::J
    }

    /// Whether the opcode has the J format and every field holds a legal
    /// value.
    pub open(crate) spec fn wf(self) -> bool {
        &&& is_valid_opcode(self.opcode.value())
        &&& self.opcode.spec_format() == InstructionFormat::J
        &&& self.rd.value() < 32
        &&& fits_field(self.imm.bits(), 1, 20)
    }

    /// The `rd` field.
    pub open(crate) spec fn spec_rd(self) -> Register {
        self.rd
    }

    /// The `imm` field.
    pub open(crate) spec fn spec_imm(self) -> Immediate<1, 20> {
        self.imm
    }

    /// The opcode.
    pub open(crate) spec fn spec_opcode_field(self) -> Opcode {
        self.opcode
    }

    /// The mnemonic that the table files under the instruction's fields.
    pub open(crate) spec fn spec_mnemonic_fields(self) -> Option<Mnemonic> {
        spec_get_mnemonic(self.opcode, None, None)
    }

    /// The word that encodes the instruction.
    pub open(crate) spec fn spec_encode(self) -> u32 {
        j_word(self.opcode.value() as u32, self.rd.value() as u32, self.imm.bits())
    }

    /// What decoding the word `w` as a J-type instruction gives.
    pub open(crate) spec fn spec_decode(w: u32) -> Result<JInstruction, RISCVError> {
        match Opcode::spec_try_from_word(w) {
            Err(e) => Err(e),
            Ok(opcode) => if opcode.spec_format() != InstructionFormat::J {
                Err(RISCVError::UnexpectedFormat(opcode.spec_format()))
            } else {
                Ok(
                    JInstruction {
                        opcode,
                        rd: Register(((w >> 7u32) & 31u32) as u8),
                        imm: Immediate(j_gather(w)),
                    },
                )
            },
        }
    }

    /// What `new` gives for these fields.
    pub open(crate) spec fn spec_new(
        opcode: Opcode,
        rd: Register,
        imm: Immediate<1,
        20>,
    ) -> Result<JInstruction, RISCVError> {
        if opcode.spec_format() == InstructionFormat::J {
            Ok(JInstruction { opcode, rd, imm })
        } else {
            Err(RISCVError::UnexpectedFormat(opcode.spec_format()))
        }
    }

    /// Builds a J-type instruction; `UnexpectedFormat` with the opcode's
    /// format when that format is not J.
    pub fn new(opcode: Opcode, rd: Register, imm: Immediate<1, 20>) -> (r: Result<Self, RISCVError>)
        ensures
            r == Self::spec_new(opcode, rd, imm),
            r is Ok <==> opcode.spec_format() == InstructionFormat::J,
            r is Err ==> r == Err::<Self, RISCVError>(RISCVError::UnexpectedFormat(opcode.spec_format())),
            r is Ok ==> r->Ok_0.spec_opcode_field() == opcode
                && r->Ok_0.spec_rd() == rd
                && r->Ok_0.spec_imm() == imm,
    {
        let format = opcode.format();
        if format != InstructionFormat::J {
            return Err(RISCVError::UnexpectedFormat(format));
        }
        Ok(JInstruction { opcode, rd, imm })
    }

    /// The `rd` field.
    pub fn rd(&self) -> (r: Register)
        ensures
            r == self.spec_rd(),
    {
        self.rd
    }

    /// The `imm` field.
    pub fn imm(&self) -> (r: Immediate<1, 20>)
        ensures
            r == self.spec_imm(),
    {
        self.imm
    }

    /// Decodes a word as a J-type instruction. Fails as `Opcode` does on
    /// the opcode bits, then with `UnexpectedFormat` when the opcode's format
    /// is not J. Re-encoding what it gives yields `instr`.
    pub fn try_from_word(instr: u32) -> (r: Result<Self, RISCVError>)
        ensures
            r == Self::spec_decode(instr),
            r is Ok ==> r->Ok_0.spec_encode() == instr,
    {
        let opcode = match Opcode::try_from_word(instr) {
            Ok(o) => o,
            Err(e) => return Err(e),
        };
        let format = opcode.format();
        if format != InstructionFormat::J {
            return Err(RISCVError::UnexpectedFormat(format));
        }
        proof {
            lemma_j_word_covers(instr);
        }
        let imm_val = j_raw_imm(&instr);
        let imm = match Immediate::<1, 20>::from_raw_bits(imm_val) {
            Ok(i) => i,
            Err(e) => return Err(e),
        };
        let r = JInstruction { opcode, rd: Register::from_rd_bits(instr), imm };
        proof {
            lemma_word_fields_fit(instr);
        }
        Ok(r)
    }

    /// Decoding the word of a well-formed J-type instruction gives the
    /// instruction back.
    pub proof fn lemma_decode_encode(x: JInstruction)
        requires
            x.wf(),
        ensures
            JInstruction::spec_decode(x.spec_encode()) == Ok::<JInstruction, RISCVError>(x),
            x.spec_encode() & 0x7fu32 == x.spec_opcode_field().value() as u32,
    {
        lemma_j_word_fields(x.opcode.value() as u32, x.rd.value() as u32, x.imm.bits());
    }

    /// Encoding what a word decodes to as a J-type instruction gives the
    /// word back.
    pub proof fn lemma_encode_decode(w: u32)
        requires
            JInstruction::spec_decode(w) is Ok,
        ensures
            JInstruction::spec_decode(w)->Ok_0.spec_encode() == w,
    {
        lemma_j_word_covers(w);
        lemma_word_fields_fit(w);
    }

    /// Encodes the instruction as a word. Decoding the word gives the
    /// instruction back.
    pub fn to_word(&self) -> (r: u32)
        ensures
            r == self.spec_encode(),
            Self::spec_decode(r) == Ok::<Self, RISCVError>(*self),
    {
        proof {
            lemma_field_shifts(0);
            use_type_invariant(self);
            use_type_invariant(&self.opcode);
            use_type_invariant(&self.rd);
            use_type_invariant(&self.imm);
        }
        let r = (self.opcode.bits() as u32) | self.rd.into_rd_bits() | self.immediate_bits();
        proof {
            JInstruction::lemma_decode_encode(*self);
        }
        r
    }
}

/// Gathers the immediate field bits of a J-type word.
fn j_raw_imm(instr: &u32) -> (r: u32)
    ensures
        r == j_gather(*instr),
{
    let mut res = 0u32;
    copy_bits(instr, 21, &mut res, 0, 10);
    copy_bit(instr, 20, &mut res, 10);
    copy_bits(instr, 12, &mut res, 11, 8);
    copy_bit(instr, 31, &mut res, 19);
    let w = *instr;
    assert(res == j_gather(w)) by (bit_vector)
        requires
            res == spliced(w, 31, spliced(w, 12, spliced(w, 20, spliced(w, 21, 0u32, 0, 10), 10, 1), 11, 8), 19, 1),
    ;
    res
}

impl InstructionTrait for JInstruction {
    open spec fn spec_opcode(&self) -> Opcode {
        self.spec_opcode_field()
    }

    open spec fn spec_immediate_bits(&self) -> u32 {
        j_scatter(self.spec_imm().bits())
    }

    open spec fn spec_mnemonic(&self) -> Option<Mnemonic> {
        self.spec_mnemonic_fields()
    }

    fn opcode(&self) -> (r: &Opcode) {
        &self.opcode
    }

    fn format(&self) -> (r: InstructionFormat) {
        proof {
            use_type_invariant(self);
        }
        InstructionFormat::J
    }

    fn mnemonic(&self) -> (r: Option<Mnemonic>) {
        get_mnemonic(self.opcode, None, None)
    }

    fn immediate_bits(&self) -> (r: u32) {
        let imm = self.imm.raw_bits();
        let mut res = 0u32;
        copy_bits(&imm, 0, &mut res, 21, 10);
        copy_bit(&imm, 10, &mut res, 20);
        copy_bits(&imm, 11, &mut res, 12, 8);
        copy_bit(&imm, 19, &mut res, 31);
        assert(res == j_scatter(imm)) by (bit_vector)
            requires
                res == spliced(imm, 19, spliced(imm, 11, spliced(imm, 10, spliced(imm, 0, 0u32, 21, 10), 20, 1), 12, 8), 31, 1),
        ;
        res
    }
}

impl TryFrom<u32> for JInstruction {
    type Error = RISCVError;

    fn try_from(instr: u32) -> (r: Result<Self, RISCVError>) {
        JInstruction::try_from_word(instr)
    }
}

impl vstd::std_specs::convert::TryFromSpecImpl<u32> for JInstruction {
    open spec fn obeys_try_from_spec() -> bool {
        true
    }

    open spec fn try_from_spec(instr: u32) -> Result<Self, RISCVError> {
        JInstruction::spec_decode(instr)
    }
}

impl From<JInstruction> for u32 {
    fn from(instr: JInstruction) -> (r: u32) {
        instr.to_word()
    }
}

impl vstd::std_specs::convert::FromSpecImpl<JInstruction> for u32 {
    open spec fn obeys_from_spec() -> bool {
        true
    }

    open spec fn from_spec(instr: JInstruction) -> u32 {
        instr.spec_encode()
    }
}

impl From<&JInstruction> for u32 {
    fn from(instr: &JInstruction) -> (r: u32) {
        instr.to_word()
    }
}

impl vstd::std_specs::convert::FromSpecImpl<&JInstruction> for u32 {
    open spec fn obeys_from_spec() -> bool {
        true
    }

    open spec fn from_spec(instr: &JInstruction) -> u32 {
        instr.spec_encode()
    }
}

} // verus!
