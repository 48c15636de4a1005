use vstd::prelude::*;

use crate::b_instruction::BInstruction;
use crate::error::RISCVError;
use crate::format::InstructionFormat;
use crate::funct::{Funct3, Funct7};
use crate::i_instruction::IInstruction;
use crate::immediate::Immediate;
use crate::instr_trait::InstructionTrait;
use crate::instruction::Instruction;
use crate::j_instruction::JInstruction;
use crate::opcode::Opcode;
use crate::r_instruction::RInstruction;
use crate::register::Register;
use crate::s_instruction::SInstruction;
use crate::u_instruction::UInstruction;

verus! {

/// Whether `r` is the builder error whose message is `msg`.
pub open spec fn is_missing_error<T>(r: Result<T, RISCVError>, msg: &str) -> bool {
    &&& r is Err
    &&& r->Err_0 is BuilderError
    &&& r->Err_0->BuilderError_0@ == msg@
}

/// Collects the fields of an instruction, then builds the instruction of
/// the format that the opcode selects. Fields that the format does not use
/// are ignored; a field that it needs and that is absent is an error.
pub struct InstructionBuilder {
    pub opcode: Option<Opcode>,
    pub funct3: Option<Funct3>,
    pub funct7: Option<Funct7>,
    pub rs1: Option<Register>,
    pub rs2: Option<Register>,
    pub rd: Option<Register>,
    pub immediate: Option<i32>,
}

impl InstructionBuilder {
    /// Whether no field is set.
    pub open spec fn is_empty(self) -> bool {
        &&& self.opcode is None
        &&& self.funct3 is None
        &&& self.funct7 is None
        &&& self.rs1 is None
        &&& self.rs2 is None
        &&& self.rd is None
        &&& self.immediate is None
    }

    /// The message of the first required field that is absent, checked in
    /// the order opcode, then the format's fields in the order of its
    /// constructor; none when every required field is present.
    pub open spec fn spec_missing(self) -> Option<&'static str> {
        match self.opcode {
            None => Some("Opcode not provided"),
            Some(opcode) => match opcode.spec_format() {
                InstructionFormat::B => {
                    if self.rs1 is None {
                        Some("rs1 value not provided")
                    } else if self.rs2 is None {
                        Some("rs2 value not provided")
                    } else if self.funct3 is None {
                        Some("funct3 value not provided")
                    } else if self.immediate is None {
                        Some("immediate value not provided")
                    } else {
                        None
                    }
                },
                InstructionFormat::I => {
                    if self.rs1 is None {
                        Some("rs1 value not provided")
                    } else if self.rd is None {
                        Some("rd value not provided")
                    } else if self.funct3 is None {
                        Some("funct3 value not provided")
                    } else if self.immediate is None {
                        Some("immediate value not provided")
                    } else {
                        None
                    }
                },
                InstructionFormat::J => {
                    if self.rd is None {
                        Some("rd value not provided")
                    } else if self.immediate is None {
                        Some("immediate value not provided")
                    } else {
                        None
                    }
                },
                InstructionFormat::R => {
                    if self.rs1 is None {
                        Some("rs1 value not provided")
                    } else if self.rs2 is None {
                        Some("rs2 value not provided")
                    } else if self.rd is None {
                        Some("rd value not provided")
                    } else if self.funct3 is None {
                        Some("funct3 value not provided")
                    } else if self.funct7 is None {
                        Some("funct7 value not provided")
                    } else {
                        None
                    }
                },
                InstructionFormat::S => {
                    if self.rs1 is None {
                        Some("rs1 value not provided")
                    } else if self.rs2 is None {
                        Some("rs2 value not provided")
                    } else if self.funct3 is None {
                        Some("funct3 value not provided")
                    } else if self.immediate is None {
                        Some("immediate value not provided")
                    } else {
                        None
                    }
                },
                InstructionFormat::U => {
                    if self.rd is None {
                        Some("rd value not provided")
                    } else if self.immediate is None {
                        Some("immediate value not provided")
                    } else {
                        None
                    }
                },
            },
        }
    }

    /// What `build` gives when no required field is absent: the
    /// instruction of the opcode's format, or the error of its immediate.
    pub open(crate) spec fn spec_build(self) -> Result<Instruction, RISCVError> {
        let opcode = self.opcode.unwrap();
        match opcode.spec_format() {
            InstructionFormat::B => match Immediate::<1, 12>::spec_from_signed(
                self.immediate.unwrap(),
            ) {
                Err(e) => Err(e),
                Ok(imm) => Ok(Instruction::B(BInstruction {
                    opcode,
                    rs1: self.rs1.unwrap(),
                    rs2: self.rs2.unwrap(),
                    funct3: self.funct3.unwrap(),
                    imm,
                })),
            },
            InstructionFormat::I => match Immediate::<0, 11>::spec_from_signed(
                self.immediate.unwrap(),
            ) {
                Err(e) => Err(e),
                Ok(imm) => Ok(Instruction::I(IInstruction {
                    opcode,
                    rs1: self.rs1.unwrap(),
                    rd: self.rd.unwrap(),
                    funct3: self.funct3.unwrap(),
                    imm,
                })),
            },
            InstructionFormat::J => match Immediate::<1, 20>::spec_from_signed(
                self.immediate.unwrap(),
            ) {
                Err(e) => Err(e),
                Ok(imm) => Ok(Instruction::J(JInstruction { opcode, rd: self.rd.unwrap(), imm })),
            },
            InstructionFormat::R => Ok(Instruction::R(RInstruction {
                opcode,
                rs1: self.rs1.unwrap(),
                rs2: self.rs2.unwrap(),
                rd: self.rd.unwrap(),
                funct3: self.funct3.unwrap(),
                funct7: self.funct7.unwrap(),
            })),
            InstructionFormat::S => match Immediate::<0, 11>::spec_from_signed(
                self.immediate.unwrap(),
            ) {
                Err(e) => Err(e),
                Ok(imm) => Ok(Instruction::S(SInstruction {
                    opcode,
                    rs1: self.rs1.unwrap(),
                    rs2: self.rs2.unwrap(),
                    funct3: self.funct3.unwrap(),
                    imm,
                })),
            },
            InstructionFormat::U => match Immediate::<12, 31>::spec_from_signed(
                self.immediate.unwrap(),
            ) {
                Err(e) => Err(e),
                Ok(imm) => Ok(Instruction::U(UInstruction { opcode, rd: self.rd.unwrap(), imm })),
            },
        }
    }

    /// A builder with no field set.
    pub fn new() -> (r: InstructionBuilder)
        ensures
            r.is_empty(),
    {
        InstructionBuilder {
            opcode: None,
            funct3: None,
            funct7: None,
            rs1: None,
            rs2: None,
            rd: None,
            immediate: None,
        }
    }

    /// Sets the `opcode` value, keeping the others.
    pub fn set_opcode(&mut self, opcode: Opcode) -> (r: &mut InstructionBuilder)
        ensures
            *r == (InstructionBuilder { opcode: Some(opcode), ..*old(self) }),
            *final(self) == *final(r),
    {
        self.opcode = Some(opcode);
        self
    }

    /// Sets the `funct3` value, keeping the others.
    pub fn set_funct3(&mut self, funct3: Funct3) -> (r: &mut InstructionBuilder)
        ensures
            *r == (InstructionBuilder { funct3: Some(funct3), ..*old(self) }),
            *final(self) == *final(r),
    {
        self.funct3 = Some(funct3);
        self
    }

    /// Sets the `funct7` value, keeping the others.
    pub fn set_funct7(&mut self, funct7: Funct7) -> (r: &mut InstructionBuilder)
        ensures
            *r == (InstructionBuilder { funct7: Some(funct7), ..*old(self) }),
            *final(self) == *final(r),
    {
        self.funct7 = Some(funct7);
        self
    }

    /// Sets the `rs1` value, keeping the others.
    pub fn set_rs1(&mut self, reg: Register) -> (r: &mut InstructionBuilder)
        ensures
            *r == (InstructionBuilder { rs1: Some(reg), ..*old(self) }),
            *final(self) == *final(r),
    {
        self.rs1 = Some(reg);
        self
    }

    /// Sets the `rs2` value, keeping the others.
    pub fn set_rs2(&mut self, reg: Register) -> (r: &mut InstructionBuilder)
        ensures
            *r == (InstructionBuilder { rs2: Some(reg), ..*old(self) }),
            *final(self) == *final(r),
    {
        self.rs2 = Some(reg);
        self
    }

    /// Sets the `rd` value, keeping the others.
    pub fn set_rd(&mut self, reg: Register) -> (r: &mut InstructionBuilder)
        ensures
            *r == (InstructionBuilder { rd: Some(reg), ..*old(self) }),
            *final(self) == *final(r),
    {
        self.rd = Some(reg);
        self
    }

    /// Sets the `immediate` value, keeping the others.
    pub fn set_immediate(&mut self, val: i32) -> (r: &mut InstructionBuilder)
        ensures
            *r == (InstructionBuilder { immediate: Some(val), ..*old(self) }),
            *final(self) == *final(r),
    {
        self.immediate = Some(val);
        self
    }

    /// The `rs1` value, or the error that names it as missing.
    fn get_rs1(&self) -> (r: Result<Register, RISCVError>)
        ensures
            self.rs1 is Some ==> r == Ok::<Register, RISCVError>(self.rs1.unwrap()),
            self.rs1 is None ==> is_missing_error(r, "rs1 value not provided"),
    {
        match self.rs1 {
            Some(v) => Ok(v),
            None => Err(RISCVError::BuilderError("rs1 value not provided".to_string())),
        }
    }

    /// The `rs2` value, or the error that names it as missing.
    fn get_rs2(&self) -> (r: Result<Register, RISCVError>)
        ensures
            self.rs2 is Some ==> r == Ok::<Register, RISCVError>(self.rs2.unwrap()),
            self.rs2 is None ==> is_missing_error(r, "rs2 value not provided"),
    {
        match self.rs2 {
            Some(v) => Ok(v),
            None => Err(RISCVError::BuilderError("rs2 value not provided".to_string())),
        }
    }

    /// The `rd` value, or the error that names it as missing.
    fn get_rd(&self) -> (r: Result<Register, RISCVError>)
        ensures
            self.rd is Some ==> r == Ok::<Register, RISCVError>(self.rd.unwrap()),
            self.rd is None ==> is_missing_error(r, "rd value not provided"),
    {
        match self.rd {
            Some(v) => Ok(v),
            None => Err(RISCVError::BuilderError("rd value not provided".to_string())),
        }
    }

    /// The `funct3` value, or the error that names it as missing.
    fn get_funct3(&self) -> (r: Result<Funct3, RISCVError>)
        ensures
            self.funct3 is Some ==> r == Ok::<Funct3, RISCVError>(self.funct3.unwrap()),
            self.funct3 is None ==> is_missing_error(r, "funct3 value not provided"),
    {
        match self.funct3 {
            Some(v) => Ok(v),
            None => Err(RISCVError::BuilderError("funct3 value not provided".to_string())),
        }
    }

    /// The `funct7` value, or the error that names it as missing.
    fn get_funct7(&self) -> (r: Result<Funct7, RISCVError>)
        ensures
            self.funct7 is Some ==> r == Ok::<Funct7, RISCVError>(self.funct7.unwrap()),
            self.funct7 is None ==> is_missing_error(r, "funct7 value not provided"),
    {
        match self.funct7 {
            Some(v) => Ok(v),
            None => Err(RISCVError::BuilderError("funct7 value not provided".to_string())),
        }
    }

    /// The `immediate` value, or the error that names it as missing.
    fn get_immediate(&self) -> (r: Result<i32, RISCVError>)
        ensures
            self.immediate is Some ==> r == Ok::<i32, RISCVError>(self.immediate.unwrap()),
            self.immediate is None ==> is_missing_error(r, "immediate value not provided"),
    {
        match self.immediate {
            Some(v) => Ok(v),
            None => Err(RISCVError::BuilderError("immediate value not provided".to_string())),
        }
    }

    /// Clears every field.
    pub fn reset(&mut self)
        ensures
            final(self).is_empty(),
    {
        self.opcode = None;
        self.funct3 = None;
        self.funct7 = None;
        self.rs1 = None;
        self.rs2 = None;
        self.rd = None;
        self.immediate = None;
    }

    /// Builds the instruction of the format that the opcode selects. Fails
    /// with a builder error naming the first absent field that the format
    /// needs, then with the immediate's range errors.
    pub fn build(&self) -> (r: Result<Instruction, RISCVError>)
        ensures
            self.spec_missing() is Some ==> is_missing_error(r, self.spec_missing().unwrap()),
            self.spec_missing() is None ==> r == self.spec_build(),
    {
        let opcode = match self.opcode {
            Some(o) => o,
            None => return Err(RISCVError::BuilderError("Opcode not provided".to_string())),
        };
        let instr = match opcode.format() {
            InstructionFormat::B => {
                let rs1 = match self.get_rs1() {
                    Ok(v) => v,
                    Err(e) => return Err(e),
                };
                let rs2 = match self.get_rs2() {
                    Ok(v) => v,
                    Err(e) => return Err(e),
                };
                let funct3 = match self.get_funct3() {
                    Ok(v) => v,
                    Err(e) => return Err(e),
                };
                let val = match self.get_immediate() {
                    Ok(v) => v,
                    Err(e) => return Err(e),
                };
                let imm = match Immediate::<1, 12>::from_signed(val) {
                    Ok(i) => i,
                    Err(e) => return Err(e),
                };
                match BInstruction::new(opcode, rs1, rs2, funct3, imm) {
                    Ok(i) => Instruction::B(i),
                    Err(e) => return Err(e),
                }
            },
            InstructionFormat::I => {
                let rs1 = match self.get_rs1() {
                    Ok(v) => v,
                    Err(e) => return Err(e),
                };
                let rd = match self.get_rd() {
                    Ok(v) => v,
                    Err(e) => return Err(e),
                };
                let funct3 = match self.get_funct3() {
                    Ok(v) => v,
                    Err(e) => return Err(e),
                };
                let val = match self.get_immediate() {
                    Ok(v) => v,
                    Err(e) => return Err(e),
                };
                let imm = match Immediate::<0, 11>::from_signed(val) {
                    Ok(i) => i,
                    Err(e) => return Err(e),
                };
                match IInstruction::new(opcode, rs1, rd, funct3, imm) {
                    Ok(i) => Instruction::I(i),
                    Err(e) => return Err(e),
                }
            },
            InstructionFormat::J => {
                let rd = match self.get_rd() {
                    Ok(v) => v,
                    Err(e) => return Err(e),
                };
                let val = match self.get_immediate() {
                    Ok(v) => v,
                    Err(e) => return Err(e),
                };
                let imm = match Immediate::<1, 20>::from_signed(val) {
                    Ok(i) => i,
                    Err(e) => return Err(e),
                };
                match JInstruction::new(opcode, rd, imm) {
                    Ok(i) => Instruction::J(i),
                    Err(e) => return Err(e),
                }
            },
            InstructionFormat::R => {
                let rs1 = match self.get_rs1() {
                    Ok(v) => v,
                    Err(e) => return Err(e),
                };
                let rs2 = match self.get_rs2() {
                    Ok(v) => v,
                    Err(e) => return Err(e),
                };
                let rd = match self.get_rd() {
                    Ok(v) => v,
                    Err(e) => return Err(e),
                };
                let funct3 = match self.get_funct3() {
                    Ok(v) => v,
                    Err(e) => return Err(e),
                };
                let funct7 = match self.get_funct7() {
                    Ok(v) => v,
                    Err(e) => return Err(e),
                };
                match RInstruction::new(opcode, rs1, rs2, rd, funct3, funct7) {
                    Ok(i) => Instruction::R(i),
                    Err(e) => return Err(e),
                }
            },
            InstructionFormat::S => {
                let rs1 = match self.get_rs1() {
                    Ok(v) => v,
                    Err(e) => return Err(e),
                };
                let rs2 = match self.get_rs2() {
                    Ok(v) => v,
                    Err(e) => return Err(e),
                };
                let funct3 = match self.get_funct3() {
                    Ok(v) => v,
                    Err(e) => return Err(e),
                };
                let val = match self.get_immediate() {
                    Ok(v) => v,
                    Err(e) => return Err(e),
                };
                let imm = match Immediate::<0, 11>::from_signed(val) {
                    Ok(i) => i,
                    Err(e) => return Err(e),
                };
                match SInstruction::new(opcode, rs1, rs2, funct3, imm) {
                    Ok(i) => Instruction::S(i),
                    Err(e) => return Err(e),
                }
            },
            InstructionFormat::U => {
                let rd = match self.get_rd() {
                    Ok(v) => v,
                    Err(e) => return Err(e),
                };
                let val = match self.get_immediate() {
                    Ok(v) => v,
                    Err(e) => return Err(e),
                };
                let imm = match Immediate::<12, 31>::from_signed(val) {
                    Ok(i) => i,
                    Err(e) => return Err(e),
                };
                match UInstruction::new(opcode, rd, imm) {
                    Ok(i) => Instruction::U(i),
                    Err(e) => return Err(e),
                }
            },
        };
        Ok(instr)
    }
}

impl Default for InstructionBuilder {
    fn default() -> (r: InstructionBuilder)
        ensures
            r.is_empty(),
    {
        InstructionBuilder::new()
    }
}

impl From<&Instruction> for InstructionBuilder {
    fn from(instr: &Instruction) -> (r: InstructionBuilder) {
        InstructionBuilder {
            opcode: Some(*instr.opcode()),
            funct3: instr.funct3(),
            funct7: instr.funct7(),
            rs1: instr.rs1(),
            rs2: instr.rs2(),
            rd: instr.rd(),
            immediate: instr.immediate(),
        }
    }
}

impl vstd::std_specs::convert::FromSpecImpl<&Instruction> for InstructionBuilder {
    open spec fn obeys_from_spec() -> bool {
        true
    }

    open spec fn from_spec(instr: &Instruction) -> InstructionBuilder {
        InstructionBuilder {
            opcode: Some(instr.spec_opcode()),
            funct3: instr.spec_funct3(),
            funct7: instr.spec_funct7(),
            rs1: instr.spec_rs1(),
            rs2: instr.spec_rs2(),
            rd: instr.spec_rd(),
            immediate: instr.spec_immediate(),
        }
    }
}

impl From<Instruction> for InstructionBuilder {
    fn from(instr: Instruction) -> (r: InstructionBuilder) {
        InstructionBuilder::from(&instr)
    }
}

impl vstd::std_specs::convert::FromSpecImpl<Instruction> for InstructionBuilder {
    open spec fn obeys_from_spec() -> bool {
        true
    }

    open spec fn from_spec(instr: Instruction) -> InstructionBuilder {
        InstructionBuilder {
            opcode: Some(instr.spec_opcode()),
            funct3: instr.spec_funct3(),
            funct7: instr.spec_funct7(),
            rs1: instr.spec_rs1(),
            rs2: instr.spec_rs2(),
            rd: instr.spec_rd(),
            immediate: instr.spec_immediate(),
        }
    }
}

} // verus!
