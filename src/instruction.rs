use vstd::prelude::*;

use crate::b_instruction::BInstruction;
use crate::data::{find_system_mnemonic, system_instruction_name};
use crate::error::RISCVError;
use crate::format::{format_result, InstructionFormat};
use crate::funct::{Funct3, Funct7};
use crate::i_instruction::IInstruction;
use crate::instr_trait::InstructionTrait;
use crate::j_instruction::JInstruction;
use crate::mnemonic::Mnemonic;
use crate::opcode::Opcode;
use crate::r_instruction::RInstruction;
use crate::register::Register;
use crate::s_instruction::SInstruction;
use crate::u_instruction::UInstruction;

verus! {

/// The little-endian word of four bytes.
pub open spec fn le_word(b0: u8, b1: u8, b2: u8, b3: u8) -> u32 {
    (b0 as u32) | ((b1 as u32) << 8u32) | ((b2 as u32) << 16u32) | ((b3 as u32) << 24u32)
}

/// An instruction of any of the six formats.
#[derive(Debug, PartialEq, Copy, Clone)]
pub enum Instruction {
    R(RInstruction),
    I(IInstruction),
    S(SInstruction),
    B(BInstruction),
    U(UInstruction),
    J(JInstruction),
}

impl Instruction {
    /// Whether the instruction inside holds legal values in every field.
    pub open(crate) spec fn wf(self) -> bool {
        match self {
            Instruction::R(i) => i.wf(),
            Instruction::I(i) => i.wf(),
            Instruction::S(i) => i.wf(),
            Instruction::B(i) => i.wf(),
            Instruction::U(i) => i.wf(),
            Instruction::J(i) => i.wf(),
        }
    }

    /// The word that encodes the instruction.
    pub open spec fn spec_encode(self) -> u32 {
        match self {
            Instruction::R(i) => i.spec_encode(),
            Instruction::I(i) => i.spec_encode(),
            Instruction::S(i) => i.spec_encode(),
            Instruction::B(i) => i.spec_encode(),
            Instruction::U(i) => i.spec_encode(),
            Instruction::J(i) => i.spec_encode(),
        }
    }

    /// What decoding a word gives: the format that its opcode bits select,
    /// then the instruction of that format.
    pub open spec fn spec_decode(w: u32) -> Result<Instruction, RISCVError> {
        match format_result((w & 0x7fu32) as u8) {
            Err(e) => Err(e),
            Ok(f) => match f {
                InstructionFormat::R => match RInstruction::spec_decode(w) {
                    Ok(i) => Ok(Instruction::R(i)),
                    Err(e) => Err(e),
                },
                InstructionFormat::I => match IInstruction::spec_decode(w) {
                    Ok(i) => Ok(Instruction::I(i)),
                    Err(e) => Err(e),
                },
                InstructionFormat::S => match SInstruction::spec_decode(w) {
                    Ok(i) => Ok(Instruction::S(i)),
                    Err(e) => Err(e),
                },
                InstructionFormat::B => match BInstruction::spec_decode(w) {
                    Ok(i) => Ok(Instruction::B(i)),
                    Err(e) => Err(e),
                },
                InstructionFormat::U => match UInstruction::spec_decode(w) {
                    Ok(i) => Ok(Instruction::U(i)),
                    Err(e) => Err(e),
                },
                InstructionFormat::J => match JInstruction::spec_decode(w) {
                    Ok(i) => Ok(Instruction::J(i)),
                    Err(e) => Err(e),
                },
            },
        }
    }

    /// Decodes an instruction word. Fails with `UnrecognizedInstructionFormat`
    /// when the opcode bits select no format, and otherwise as the decoder
    /// of the selected format does. Re-encoding what it gives yields `instr`.
    pub fn try_from_word(instr: u32) -> (r: Result<Instruction, RISCVError>)
        ensures
            r == Instruction::spec_decode(instr),
            r is Ok ==> r->Ok_0.spec_encode() == instr,
    {
        let format = match InstructionFormat::try_from(instr) {
            Ok(f) => f,
            Err(e) => return Err(e),
        };
        match format {
            InstructionFormat::R => match RInstruction::try_from_word(instr) {
                Ok(i) => Ok(Instruction::R(i)),
                Err(e) => Err(e),
            },
            InstructionFormat::I => match IInstruction::try_from_word(instr) {
                Ok(i) => Ok(Instruction::I(i)),
                Err(e) => Err(e),
            },
            InstructionFormat::S => match SInstruction::try_from_word(instr) {
                Ok(i) => Ok(Instruction::S(i)),
                Err(e) => Err(e),
            },
            InstructionFormat::B => match BInstruction::try_from_word(instr) {
                Ok(i) => Ok(Instruction::B(i)),
                Err(e) => Err(e),
            },
            InstructionFormat::U => match UInstruction::try_from_word(instr) {
                Ok(i) => Ok(Instruction::U(i)),
                Err(e) => Err(e),
            },
            InstructionFormat::J => match JInstruction::try_from_word(instr) {
                Ok(i) => Ok(Instruction::J(i)),
                Err(e) => Err(e),
            },
        }
    }

    /// Decodes the instruction stored little-endian in four bytes.
    pub fn try_from_le_bytes(bytes: [u8; 4]) -> (r: Result<Instruction, RISCVError>)
        ensures
            r == Instruction::spec_decode(le_word(bytes@[0], bytes@[1], bytes@[2], bytes@[3])),
    {
        let word = (bytes[0] as u32) | ((bytes[1] as u32) << 8) | ((bytes[2] as u32) << 16) | ((
        bytes[3] as u32) << 24);
        Instruction::try_from_word(word)
    }

    /// Encodes the instruction as a word. Decoding the word gives the
    /// instruction back.
    pub fn to_word(&self) -> (r: u32)
        ensures
            r == self.spec_encode(),
            Instruction::spec_decode(r) == Ok::<Instruction, RISCVError>(*self),
    {
        let r = match self {
            Instruction::R(i) => i.to_word(),
            Instruction::I(i) => i.to_word(),
            Instruction::S(i) => i.to_word(),
            Instruction::B(i) => i.to_word(),
            Instruction::U(i) => i.to_word(),
            Instruction::J(i) => i.to_word(),
        };
        r
    }

    /// The `funct3` field, for the formats that have one.
    pub open spec fn spec_funct3(self) -> Option<Funct3> {
        match self {
            Instruction::R(i) => Some(i.spec_funct3()),
            Instruction::I(i) => Some(i.spec_funct3()),
            Instruction::S(i) => Some(i.spec_funct3()),
            Instruction::B(i) => Some(i.spec_funct3()),
            _ => None,
        }
    }

    /// The `funct3` field, for the formats that have one; `None` for the others.
    pub fn funct3(&self) -> (r: Option<Funct3>)
        ensures
            r == self.spec_funct3(),
    {
        match self {
            Instruction::R(i) => Some(i.funct3()),
            Instruction::I(i) => Some(i.funct3()),
            Instruction::S(i) => Some(i.funct3()),
            Instruction::B(i) => Some(i.funct3()),
            _ => None,
        }
    }

    /// The `funct7` field, for the formats that have one.
    pub open spec fn spec_funct7(self) -> Option<Funct7> {
        match self {
            Instruction::R(i) => Some(i.spec_funct7()),
            _ => None,
        }
    }

    /// The `funct7` field, for the formats that have one; `None` for the others.
    pub fn funct7(&self) -> (r: Option<Funct7>)
        ensures
            r == self.spec_funct7(),
    {
        match self {
            Instruction::R(i) => Some(i.funct7()),
            _ => None,
        }
    }

    /// The `rs1` field, for the formats that have one.
    pub open spec fn spec_rs1(self) -> Option<Register> {
        match self {
            Instruction::R(i) => Some(i.spec_rs1()),
            Instruction::I(i) => Some(i.spec_rs1()),
            Instruction::S(i) => Some(i.spec_rs1()),
            Instruction::B(i) => Some(i.spec_rs1()),
            _ => None,
        }
    }

    /// The `rs1` field, for the formats that have one; `None` for the others.
    pub fn rs1(&self) -> (r: Option<Register>)
        ensures
            r == self.spec_rs1(),
    {
        match self {
            Instruction::R(i) => Some(i.rs1()),
            Instruction::I(i) => Some(i.rs1()),
            Instruction::S(i) => Some(i.rs1()),
            Instruction::B(i) => Some(i.rs1()),
            _ => None,
        }
    }

    /// The `rs2` field, for the formats that have one.
    pub open spec fn spec_rs2(self) -> Option<Register> {
        match self {
            Instruction::R(i) => Some(i.spec_rs2()),
            Instruction::S(i) => Some(i.spec_rs2()),
            Instruction::B(i) => Some(i.spec_rs2()),
            _ => None,
        }
    }

    /// The `rs2` field, for the formats that have one; `None` for the others.
    pub fn rs2(&self) -> (r: Option<Register>)
        ensures
            r == self.spec_rs2(),
    {
        match self {
            Instruction::R(i) => Some(i.rs2()),
            Instruction::S(i) => Some(i.rs2()),
            Instruction::B(i) => Some(i.rs2()),
            _ => None,
        }
    }

    /// The `rd` field, for the formats that have one.
    pub open spec fn spec_rd(self) -> Option<Register> {
        match self {
            Instruction::R(i) => Some(i.spec_rd()),
            Instruction::I(i) => Some(i.spec_rd()),
            Instruction::U(i) => Some(i.spec_rd()),
            Instruction::J(i) => Some(i.spec_rd()),
            _ => None,
        }
    }

    /// The `rd` field, for the formats that have one; `None` for the others.
    pub fn rd(&self) -> (r: Option<Register>)
        ensures
            r == self.spec_rd(),
    {
        match self {
            Instruction::R(i) => Some(i.rd()),
            Instruction::I(i) => Some(i.rd()),
            Instruction::U(i) => Some(i.rd()),
            Instruction::J(i) => Some(i.rd()),
            _ => None,
        }
    }

    /// The signed immediate, for the formats that have one.
    pub open spec fn spec_immediate(self) -> Option<i32> {
        match self {
            Instruction::I(i) => Some(i.spec_imm().signed()),
            Instruction::S(i) => Some(i.spec_imm().signed()),
            Instruction::B(i) => Some(i.spec_imm().signed()),
            Instruction::U(i) => Some(i.spec_imm().signed()),
            Instruction::J(i) => Some(i.spec_imm().signed()),
            _ => None,
        }
    }

    /// The signed immediate, for the formats that have one; `None` for R.
    pub fn immediate(&self) -> (r: Option<i32>)
        ensures
            r == self.spec_immediate(),
    {
        match self {
            Instruction::I(i) => Some(i.imm().to_signed()),
            Instruction::S(i) => Some(i.imm().to_signed()),
            Instruction::B(i) => Some(i.imm().to_signed()),
            Instruction::U(i) => Some(i.imm().to_signed()),
            Instruction::J(i) => Some(i.imm().to_signed()),
            _ => None,
        }
    }
}

/// One operand of an instruction, in the order it is written.
#[derive(Debug, PartialEq, Copy, Clone)]
pub enum Operand {
    /// A register.
    Register(Register),
    /// A signed immediate.
    Immediate(i32),
    /// A signed offset from a base register, written `offset(base)`.
    Offset(i32, Register),
}

impl Instruction {
    /// The operands in the order they are written: `rd, rs1, rs2` for R;
    /// `rd, rs1, imm` for I, or none for a system instruction without
    /// operands; `rs2, imm(rs1)` for S; `rs1, rs2, imm` for B; `rd, imm` for
    /// U and J.
    pub open spec fn spec_operands(self) -> Seq<Operand> {
        match self {
            Instruction::R(i) => seq![
                Operand::Register(i.spec_rd()),
                Operand::Register(i.spec_rs1()),
                Operand::Register(i.spec_rs2()),
            ],
            Instruction::I(i) => if system_instruction_name(i.spec_encode()) is Some {
                seq![]
            } else {
                seq![
                    Operand::Register(i.spec_rd()),
                    Operand::Register(i.spec_rs1()),
                    Operand::Immediate(i.spec_imm().signed()),
                ]
            },
            Instruction::S(i) => seq![
                Operand::Register(i.spec_rs2()),
                Operand::Offset(i.spec_imm().signed(), i.spec_rs1()),
            ],
            Instruction::B(i) => seq![
                Operand::Register(i.spec_rs1()),
                Operand::Register(i.spec_rs2()),
                Operand::Immediate(i.spec_imm().signed()),
            ],
            Instruction::U(i) => seq![
                Operand::Register(i.spec_rd()),
                Operand::Immediate(i.spec_imm().signed()),
            ],
            Instruction::J(i) => seq![
                Operand::Register(i.spec_rd()),
                Operand::Immediate(i.spec_imm().signed()),
            ],
        }
    }

    /// The operands in the order they are written.
    pub fn operands(&self) -> (r: Vec<Operand>)
        ensures
            r@ == self.spec_operands(),
    {
        match self {
            Instruction::R(i) => vec![
                Operand::Register(i.rd()),
                Operand::Register(i.rs1()),
                Operand::Register(i.rs2()),
            ],
            Instruction::I(i) => {
                if find_system_mnemonic(i.to_word()).is_some() {
                    Vec::new()
                } else {
                    vec![
                        Operand::Register(i.rd()),
                        Operand::Register(i.rs1()),
                        Operand::Immediate(i.imm().to_signed()),
                    ]
                }
            },
            Instruction::S(i) => vec![
                Operand::Register(i.rs2()),
                Operand::Offset(i.imm().to_signed(), i.rs1()),
            ],
            Instruction::B(i) => vec![
                Operand::Register(i.rs1()),
                Operand::Register(i.rs2()),
                Operand::Immediate(i.imm().to_signed()),
            ],
            Instruction::U(i) => vec![
                Operand::Register(i.rd()),
                Operand::Immediate(i.imm().to_signed()),
            ],
            Instruction::J(i) => vec![
                Operand::Register(i.rd()),
                Operand::Immediate(i.imm().to_signed()),
            ],
        }
    }
}

/// Decoding the word of a well-formed instruction gives the instruction back.
pub proof fn lemma_decode_encode(x: Instruction)
    requires
        x.wf(),
    ensures
        Instruction::spec_decode(x.spec_encode()) == Ok::<Instruction, RISCVError>(x),
{
    match x {
        Instruction::R(i) => { RInstruction::lemma_decode_encode(i); },
        Instruction::I(i) => { IInstruction::lemma_decode_encode(i); },
        Instruction::S(i) => { SInstruction::lemma_decode_encode(i); },
        Instruction::B(i) => { BInstruction::lemma_decode_encode(i); },
        Instruction::U(i) => { UInstruction::lemma_decode_encode(i); },
        Instruction::J(i) => { JInstruction::lemma_decode_encode(i); },
    }
}

/// Encoding what a word decodes to gives the word back.
pub proof fn lemma_encode_decode(w: u32)
    requires
        Instruction::spec_decode(w) is Ok,
    ensures
        Instruction::spec_decode(w)->Ok_0.spec_encode() == w,
{
    match format_result((w & 0x7fu32) as u8) {
        Err(_) => {},
        Ok(f) => match f {
            InstructionFormat::R => RInstruction::lemma_encode_decode(w),
            InstructionFormat::I => IInstruction::lemma_encode_decode(w),
            InstructionFormat::S => SInstruction::lemma_encode_decode(w),
            InstructionFormat::B => BInstruction::lemma_encode_decode(w),
            InstructionFormat::U => UInstruction::lemma_encode_decode(w),
            InstructionFormat::J => JInstruction::lemma_encode_decode(w),
        },
    }
}

impl InstructionTrait for Instruction {
    open spec fn spec_opcode(&self) -> Opcode {
        match *self {
            Instruction::R(i) => i.spec_opcode(),
            Instruction::I(i) => i.spec_opcode(),
            Instruction::S(i) => i.spec_opcode(),
            Instruction::B(i) => i.spec_opcode(),
            Instruction::U(i) => i.spec_opcode(),
            Instruction::J(i) => i.spec_opcode(),
        }
    }

    open spec fn spec_immediate_bits(&self) -> u32 {
        match *self {
            Instruction::R(i) => i.spec_immediate_bits(),
            Instruction::I(i) => i.spec_immediate_bits(),
            Instruction::S(i) => i.spec_immediate_bits(),
            Instruction::B(i) => i.spec_immediate_bits(),
            Instruction::U(i) => i.spec_immediate_bits(),
            Instruction::J(i) => i.spec_immediate_bits(),
        }
    }

    open spec fn spec_mnemonic(&self) -> Option<Mnemonic> {
        match *self {
            Instruction::R(i) => i.spec_mnemonic(),
            Instruction::I(i) => i.spec_mnemonic(),
            Instruction::S(i) => i.spec_mnemonic(),
            Instruction::B(i) => i.spec_mnemonic(),
            Instruction::U(i) => i.spec_mnemonic(),
            Instruction::J(i) => i.spec_mnemonic(),
        }
    }

    fn opcode(&self) -> (r: &Opcode) {
        match self {
            Instruction::R(i) => i.opcode(),
            Instruction::I(i) => i.opcode(),
            Instruction::S(i) => i.opcode(),
            Instruction::B(i) => i.opcode(),
            Instruction::U(i) => i.opcode(),
            Instruction::J(i) => i.opcode(),
        }
    }

    fn format(&self) -> (r: InstructionFormat) {
        match self {
            Instruction::R(i) => i.format(),
            Instruction::I(i) => i.format(),
            Instruction::S(i) => i.format(),
            Instruction::B(i) => i.format(),
            Instruction::U(i) => i.format(),
            Instruction::J(i) => i.format(),
        }
    }

    fn mnemonic(&self) -> (r: Option<Mnemonic>) {
        match self {
            Instruction::R(i) => i.mnemonic(),
            Instruction::I(i) => i.mnemonic(),
            Instruction::S(i) => i.mnemonic(),
            Instruction::B(i) => i.mnemonic(),
            Instruction::U(i) => i.mnemonic(),
            Instruction::J(i) => i.mnemonic(),
        }
    }

    fn immediate_bits(&self) -> (r: u32) {
        match self {
            Instruction::R(i) => i.immediate_bits(),
            Instruction::I(i) => i.immediate_bits(),
            Instruction::S(i) => i.immediate_bits(),
            Instruction::B(i) => i.immediate_bits(),
            Instruction::U(i) => i.immediate_bits(),
            Instruction::J(i) => i.immediate_bits(),
        }
    }
}

impl TryFrom<u32> for Instruction {
    type Error = RISCVError;

    fn try_from(instr: u32) -> (r: Result<Self, RISCVError>) {
        Instruction::try_from_word(instr)
    }
}

impl vstd::std_specs::convert::TryFromSpecImpl<u32> for Instruction {
    open spec fn obeys_try_from_spec() -> bool {
        true
    }

    open spec fn try_from_spec(instr: u32) -> Result<Self, RISCVError> {
        Instruction::spec_decode(instr)
    }
}

impl From<Instruction> for u32 {
    fn from(instr: Instruction) -> (r: u32) {
        instr.to_word()
    }
}

impl vstd::std_specs::convert::FromSpecImpl<Instruction> for u32 {
    open spec fn obeys_from_spec() -> bool {
        true
    }

    open spec fn from_spec(instr: Instruction) -> u32 {
        instr.spec_encode()
    }
}

impl From<&Instruction> for u32 {
    fn from(instr: &Instruction) -> (r: u32) {
        instr.to_word()
    }
}

impl vstd::std_specs::convert::FromSpecImpl<&Instruction> for u32 {
    open spec fn obeys_from_spec() -> bool {
        true
    }

    open spec fn from_spec(instr: &Instruction) -> u32 {
        instr.spec_encode()
    }
}

impl From<RInstruction> for Instruction {
    fn from(instr: RInstruction) -> (r: Instruction) {
        Instruction::R(instr)
    }
}

impl vstd::std_specs::convert::FromSpecImpl<RInstruction> for Instruction {
    open spec fn obeys_from_spec() -> bool {
        true
    }

    open spec fn from_spec(instr: RInstruction) -> Instruction {
        Instruction::R(instr)
    }
}

impl From<IInstruction> for Instruction {
    fn from(instr: IInstruction) -> (r: Instruction) {
        Instruction::I(instr)
    }
}

impl vstd::std_specs::convert::FromSpecImpl<IInstruction> for Instruction {
    open spec fn obeys_from_spec() -> bool {
        true
    }

    open spec fn from_spec(instr: IInstruction) -> Instruction {
        Instruction::I(instr)
    }
}

impl From<SInstruction> for Instruction {
    fn from(instr: SInstruction) -> (r: Instruction) {
        Instruction::S(instr)
    }
}

impl vstd::std_specs::convert::FromSpecImpl<SInstruction> for Instruction {
    open spec fn obeys_from_spec() -> bool {
        true
    }

    open spec fn from_spec(instr: SInstruction) -> Instruction {
        Instruction::S(instr)
    }
}

impl From<BInstruction> for Instruction {
    fn from(instr: BInstruction) -> (r: Instruction) {
        Instruction::B(instr)
    }
}

impl vstd::std_specs::convert::FromSpecImpl<BInstruction> for Instruction {
    open spec fn obeys_from_spec() -> bool {
        true
    }

    open spec fn from_spec(instr: BInstruction) -> Instruction {
        Instruction::B(instr)
    }
}

impl From<UInstruction> for Instruction {
    fn from(instr: UInstruction) -> (r: Instruction) {
        Instruction::U(instr)
    }
}

impl vstd::std_specs::convert::FromSpecImpl<UInstruction> for Instruction {
    open spec fn obeys_from_spec() -> bool {
        true
    }

    open spec fn from_spec(instr: UInstruction) -> Instruction {
        Instruction::U(instr)
    }
}

impl From<JInstruction> for Instruction {
    fn from(instr: JInstruction) -> (r: Instruction) {
        Instruction::J(instr)
    }
}

impl vstd::std_specs::convert::FromSpecImpl<JInstruction> for Instruction {
    open spec fn obeys_from_spec() -> bool {
        true
    }

    open spec fn from_spec(instr: JInstruction) -> Instruction {
        Instruction::J(instr)
    }
}

} // verus!
