use vstd::prelude::*;

use crate::bit::{lemma_field_shifts, lemma_word_fields_fit};
use crate::data::get_mnemonic;
use crate::data::spec_get_mnemonic;
use crate::error::RISCVError;
use crate::format::InstructionFormat;
use crate::immediate::{fits_field, Immediate};
use crate::instr_trait::InstructionTrait;
use crate::mnemonic::Mnemonic;
use crate::opcode::{is_valid_opcode, Opcode};
use crate::register::Register;

verus! {

/// The immediate field bits of a U-type word, gathered from where they
/// stand in the word.
pub open spec fn u_gather(w: u32) -> u32 {
    w >> 12u32
}

/// The immediate field bits `b`, scattered to where they stand in a
/// U-type word.
pub open spec fn u_scatter(b: u32) -> u32 {
    b << 12u32
}

/// The U-type word with the given opcode and fields.
pub open spec fn u_word(opcode: u32, rd: u32, imm: u32) -> u32 {
    opcode | (rd << 7u32) | u_scatter(imm)
}

/// The fields of a U-type word read back from it are the ones it was
/// built from.
pub proof fn lemma_u_word_fields(opcode: u32, rd: u32, imm: u32)
    requires
        opcode < 128,
        rd < 32,
        fits_field(imm, 12, 31),
    ensures
        u_word(opcode, rd, imm) & 0x7fu32 == opcode,
        (u_word(opcode, rd, imm) >> 7u32) & 31u32 == rd,
        u_gather(u_word(opcode, rd, imm)) == imm,
{
    assert(u_word(opcode, rd, imm) & 0x7fu32 == opcode
        && (u_word(opcode, rd, imm) >> 7u32) & 31u32 == rd
        && u_gather(u_word(opcode, rd, imm)) == imm) by (bit_vector)
        requires
            opcode < 128,
            rd < 32,
            fits_field(imm, 12, 31),
    ;
}

/// Every bit of a U-type word belongs to one of its fields, so the word
/// built from the fields read out of `w` is `w`.
pub proof fn lemma_u_word_covers(w: u32)
    ensures
        u_word(w & 0x7fu32, (w >> 7u32) & 31u32, u_gather(w)) == w,
        fits_field(u_gather(w), 12, 31),
{
    assert(u_word(w & 0x7fu32, (w >> 7u32) & 31u32, u_gather(w)) == w
        && fits_field(u_gather(w), 12, 31)) by (bit_vector);
}

/// A U-type instruction.
#[derive(Debug, PartialEq, Copy, Clone)]
pub struct UInstruction {
    pub(crate) opcode: Opcode,
    pub(crate) rd: Register,
    pub(crate) imm: Immediate<12, 31>,
}

impl UInstruction {
    #[verifier::type_invariant]
    spec fn inv(self) -> bool {
        self.opcode.spec_format() == InstructionFormat::U
    }

    /// Whether the opcode has the U format and every field holds a legal
    /// value.
    pub open(crate) spec fn wf(self) -> bool {
        &&& is_valid_opcode(self.opcode.value())
        &&& self.opcode.spec_format() == InstructionFormat::U
        &&& self.rd.value() < 32
        &&& fits_field(self.imm.bits(), 12, 31)
    }

    /// The `rd` field.
    pub open(crate) spec fn spec_rd(self) -> Register {
        self.rd
    }

    /// The `imm` field.
    pub open(crate) spec fn spec_imm(self) -> Immediate<12, 31> {
        self.imm
    }

    /// The opcode.
    pub open(crate) spec fn spec_opcode_field(self) -> Opcode {
        self.opcode
    }

    /// The mnemonic that the table files under the instruction's fields.
    pub open(crate) spec fn spec_mnemonic_fields(self) -> Option<Mnemonic> {
        spec_get_mnemonic(self.opcode, None, None)
    }

    /// The word that encodes the instruction.
    pub open(crate) spec fn spec_encode(self) -> u32 {
        u_word(self.opcode.value() as u32, self.rd.value() as u32, self.imm.bits())
    }

    /// What decoding the word `w` as a U-type instruction gives.
    pub open(crate) spec fn spec_decode(w: u32) -> Result<UInstruction, RISCVError> {
        match Opcode::spec_try_from_word(w) {
            Err(e) => Err(e),
            Ok(opcode) => if opcode.spec_format() != InstructionFormat::U {
                Err(RISCVError::UnexpectedFormat(opcode.spec_format()))
            } else {
                Ok(
                    UInstruction {
                        opcode,
                        rd: Register(((w >> 7u32) & 31u32) as u8),
                        imm: Immediate(u_gather(w)),
                    },
                )
            },
        }
    }

    /// What `new` gives for these fields.
    pub open(crate) spec fn spec_new(
        opcode: Opcode,
        rd: Register,
        imm: Immediate<12,
        31>,
    ) -> Result<UInstruction, RISCVError> {
        if opcode.spec_format() == InstructionFormat::U {
            Ok(UInstruction { opcode, rd, imm })
        } else {
            Err(RISCVError::UnexpectedFormat(opcode.spec_format()))
        }
    }

    /// Builds a U-type instruction; `UnexpectedFormat` with the opcode's
    /// format when that format is not U.
    pub fn new(
        opcode: Opcode,
        rd: Register,
        imm: Immediate<12,
        31>,
    ) -> (r: Result<Self, RISCVError>)
        ensures
            r == Self::spec_new(opcode, rd, imm),
            r is Ok <==> opcode.spec_format() == InstructionFormat::U,
            r is Err ==> r == Err::<Self, RISCVError>(RISCVError::UnexpectedFormat(opcode.spec_format())),
            r is Ok ==> r->Ok_0.spec_opcode_field() == opcode
                && r->Ok_0.spec_rd() == rd
                && r->Ok_0.spec_imm() == imm,
    {
        let format = opcode.format();
        if format != InstructionFormat::U {
            return Err(RISCVError::UnexpectedFormat(format));
        }
        Ok(UInstruction { opcode, rd, imm })
    }

    /// The `rd` field.
    pub fn rd(&self) -> (r: Register)
        ensures
            r == self.spec_rd(),
    {
        self.rd
    }

    /// The `imm` field.
    pub fn imm(&self) -> (r: Immediate<12, 31>)
        ensures
            r == self.spec_imm(),
    {
        self.imm
    }

    /// Decodes a word as a U-type instruction. Fails as `Opcode` does on
    /// the opcode bits, then with `UnexpectedFormat` when the opcode's format
    /// is not U. Re-encoding what it gives yields `instr`.
    pub fn try_from_word(instr: u32) -> (r: Result<Self, RISCVError>)
        ensures
            r == Self::spec_decode(instr),
            r is Ok ==> r->Ok_0.spec_encode() == instr,
    {
        let opcode = match Opcode::try_from_word(instr) {
            Ok(o) => o,
            Err(e) => return Err(e),
        };
        let format = opcode.format();
        if format != InstructionFormat::U {
            return Err(RISCVError::UnexpectedFormat(format));
        }
        proof {
            lemma_u_word_covers(instr);
        }
        let imm_val = u_raw_imm(&instr);
        let imm = match Immediate::<12, 31>::from_raw_bits(imm_val) {
            Ok(i) => i,
            Err(e) => return Err(e),
        };
        let r = UInstruction { opcode, rd: Register::from_rd_bits(instr), imm };
        proof {
            lemma_word_fields_fit(instr);
        }
        Ok(r)
    }

    /// Decoding the word of a well-formed U-type instruction gives the
    /// instruction back.
    pub proof fn lemma_decode_encode(x: UInstruction)
        requires
            x.wf(),
        ensures
            UInstruction::spec_decode(x.spec_encode()) == Ok::<UInstruction, RISCVError>(x),
            x.spec_encode() & 0x7fu32 == x.spec_opcode_field().value() as u32,
    {
        lemma_u_word_fields(x.opcode.value() as u32, x.rd.value() as u32, x.imm.bits());
    }

    /// Encoding what a word decodes to as a U-type instruction gives the
    /// word back.
    pub proof fn lemma_encode_decode(w: u32)
        requires
            UInstruction::spec_decode(w) is Ok,
        ensures
            UInstruction::spec_decode(w)->Ok_0.spec_encode() == w,
    {
        lemma_u_word_covers(w);
        lemma_word_fields_fit(w);
    }

    /// Encodes the instruction as a word. Decoding the word gives the
    /// instruction back.
    pub fn to_word(&self) -> (r: u32)
        ensures
            r == self.spec_encode(),
            Self::spec_decode(r) == Ok::<Self, RISCVError>(*self),
    {
        proof {
            lemma_field_shifts(0);
            use_type_invariant(self);
            use_type_invariant(&self.opcode);
            use_type_invariant(&self.rd);
            use_type_invariant(&self.imm);
        }
        let r = (self.opcode.bits() as u32) | self.rd.into_rd_bits() | self.immediate_bits();
        proof {
            UInstruction::lemma_decode_encode(*self);
        }
        r
    }
}

/// Gathers the immediate field bits of a U-type word.
fn u_raw_imm(instr: &u32) -> (r: u32)
    ensures
        r == u_gather(*instr),
{
    *instr >> 12
}

impl InstructionTrait for UInstruction {
    open spec fn spec_opcode(&self) -> Opcode {
        self.spec_opcode_field()
    }

    open spec fn spec_immediate_bits(&self) -> u32 {
        u_scatter(self.spec_imm().bits())
    }

    open spec fn spec_mnemonic(&self) -> Option<Mnemonic> {
        self.spec_mnemonic_fields()
    }

    fn opcode(&self) -> (r: &Opcode) {
        &self.opcode
    }

    fn format(&self) -> (r: InstructionFormat) {
        proof {
            use_type_invariant(self);
        }
        InstructionFormat::U
    }

    fn mnemonic(&self) -> (r: Option<Mnemonic>) {
        get_mnemonic(self.opcode, None, None)
    }

    fn immediate_bits(&self) -> (r: u32) {
        self.imm.raw_bits() << 12
    }
}

impl TryFrom<u32> for UInstruction {
    type Error = RISCVError;

    fn try_from(instr: u32) -> (r: Result<Self, RISCVError>) {
        UInstruction::try_from_word(instr)
    }
}

impl vstd::std_specs::convert::TryFromSpecImpl<u32> for UInstruction {
    open spec fn obeys_try_from_spec() -> bool {
        true
    }

    open spec fn try_from_spec(instr: u32) -> Result<Self, RISCVError> {
        UInstruction::spec_decode(instr)
    }
}

impl From<UInstruction> for u32 {
    fn from(instr: UInstruction) -> (r: u32) {
        instr.to_word()
    }
}

impl vstd::std_specs::convert::FromSpecImpl<UInstruction> for u32 {
    open spec fn obeys_from_spec() -> bool {
        true
    }

    open spec fn from_spec(instr: UInstruction) -> u32 {
        instr.spec_encode()
    }
}

impl From<&UInstruction> for u32 {
    fn from(instr: &UInstruction) -> (r: u32) {
        instr.to_word()
    }
}

impl vstd::std_specs::convert::FromSpecImpl<&UInstruction> for u32 {
    open spec fn obeys_from_spec() -> bool {
        true
    }

    open spec fn from_spec(instr: &UInstruction) -> u32 {
        instr.spec_encode()
    }
}

} // verus!
