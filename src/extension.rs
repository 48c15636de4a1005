use vstd::prelude::*;

use crate::error::RISCVError;
use crate::opcode_binary::TryFromOpcodeBinary;

verus! {

/// The base ISA and the extensions that instructions belong to.
#[derive(Debug, PartialEq, Eq, Clone, Copy, Structural)]
pub enum RISCVExtension {
    I,
    Zifencei,
    M,
    A,
    F,
    D,
    Q,
    H,
    V,
    Sstc,
    Svadu,
    System,
    Sdext,
    Zawrs,
    Zbb,
    Zbc,
    Zbs,
    Zicond,
    Zicbom,
    Zicboz,
    Zicntr,
    Zicsr,
    Zihpm,
    Zfa,
    Zbkb,
    Zba,
    Zfh,
    Zvkned,
    Zvkg,
    Zvknha,
    Zvksh,
    Zvksed,
    Zbkx,
    Custom,
}

/// Whether an opcode byte lies in one of the four opcode spaces reserved for
/// custom extensions.
pub open spec fn is_custom_opcode(bits: u8) -> bool {
    let key = (bits >> 2u8) & 0b11111;
    &&& bits & 0b11 == 0b11
    &&& (key == 0b00010 || key == 0b01010 || key == 0b10110 || key == 0b11110)
}

impl TryFromOpcodeBinary for RISCVExtension {
    open spec fn spec_try_from_opcode_binary(bits: u8) -> Result<Self, RISCVError> {
        if is_custom_opcode(bits) {
            Ok(RISCVExtension::Custom)
        } else {
            Err(RISCVError::UnrecognizedExtension)
        }
    }

    fn try_from_opcode_binary(bits: u8) -> (r: Result<Self, RISCVError>) {
        let x = (bits >> 2) & 0b11111;
        if (bits & 0b11 == 0b11) && (x == 0b00010 || x == 0b01010 || x == 0b10110 || x
            == 0b11110) {
            Ok(RISCVExtension::Custom)
        } else {
            Err(RISCVError::UnrecognizedExtension)
        }
    }
}

} // verus!
