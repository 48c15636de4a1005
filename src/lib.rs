//! A model of 32-bit RISC-V instruction encodings: fields that can only hold
//! legal values, conversions between words and instructions that are proved
//! to be inverse to each other, and a streaming decoder over a byte sequence.

pub mod bit;
pub mod builder;
pub mod config;
pub mod data;
pub mod disasm;
pub mod error;
pub mod extension;
pub mod format;
pub mod funct;
pub mod immediate;
pub mod instr_trait;
pub mod instruction;
pub mod mnemonic;
pub mod opcode;
pub mod opcode_binary;
pub mod record;
pub mod register;
pub mod size;

pub mod b_instruction;
pub mod i_instruction;
pub mod j_instruction;
pub mod r_instruction;
pub mod s_instruction;
pub mod u_instruction;

pub use b_instruction::BInstruction;
pub use builder::InstructionBuilder;
pub use config::{DisasmConfig, UNKNOWN_MNEMONIC};
pub use data::{find_system_mnemonic, get_mnemonic};
pub use disasm::{Disasm, DisasmError, DisasmState, DisasmView};
pub use error::RISCVError;
pub use extension::RISCVExtension;
pub use format::InstructionFormat;
pub use funct::{Funct3, Funct7, FunctField};
pub use i_instruction::IInstruction;
pub use immediate::{Immediate, RawBitsConverter};
pub use instr_trait::InstructionTrait;
pub use instruction::{Instruction, Operand};
pub use j_instruction::JInstruction;
pub use mnemonic::Mnemonic;
pub use opcode::{Opcode, OPCODE_MASK};
pub use opcode_binary::TryFromOpcodeBinary;
pub use r_instruction::RInstruction;
pub use record::{Address, InstructionRecord};
pub use register::{Register, REGISTER_MASK};
pub use s_instruction::SInstruction;
pub use size::InstructionSize;
pub use u_instruction::UInstruction;
