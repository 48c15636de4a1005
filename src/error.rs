use vstd::prelude::*;

use crate::format::InstructionFormat;

verus! {

/// Every way in which building or decoding an instruction can fail.
#[derive(Debug, PartialEq)]
pub enum RISCVError {
    /// The opcode has its eighth bit set.
    InvalidOpcode,
    /// A register index is not in `0..32`.
    InvalidRegister,
    /// The opcode bits name no known instruction format.
    UnrecognizedInstructionFormat,
    /// The opcode's format is not the one of the instruction being built.
    UnexpectedFormat(InstructionFormat),
    /// A funct field value does not fit its width (the width is carried).
    InvalidFunctValue(u8),
    /// An immediate lies outside the range `[min, max]` of its field.
    ImmediateOutOfRange(i32, i32),
    /// An immediate has a nonzero bit below the start of its field.
    ImmediateBitsBeforeStart(u8),
    /// The opcode bits name no known instruction size.
    UnrecognizedInstructionSize,
    /// The opcode bits name no known extension.
    UnrecognizedExtension,
    /// The byte stream could not be disassembled.
    DisasmError(String),
    /// The builder lacks a field that the instruction needs.
    BuilderError(String),
}

} // verus!
