use vstd::prelude::*;

use crate::funct::{Funct3, Funct7};
use crate::mnemonic::Mnemonic;
use crate::opcode::Opcode;

verus! {

/// The key under which a mnemonic is filed: the five opcode bits above the
/// two low ones at bits 10..15, funct3 at bits 7..10 and funct7 at bits 0..7.
pub open spec fn mnemonic_key(opcode: u8, funct3: u8, funct7: u8) -> u16 {
    ((((opcode & 0b1111100u8) as u16) << 8u16) | ((funct3 as u16) << 7u16) | (funct7 as u16)) as u16
}

/// The mnemonic filed under `key`, if any.
pub open spec fn instruction_name(key: u16) -> Option<&'static str> {
    match key {
        0b01011_010_0000000 => Some("LR.W"),
        0b01011_010_0000001 => Some("SC.W"),
        0b01011_011_0000000 => Some("AMOSWAP.W"),
        0b01011_011_0000001 => Some("AMOADD.W"),
        0b01011_011_0010000 => Some("AMOXOR.W"),
        0b01011_011_0110000 => Some("AMOAND.W"),
        0b01011_011_0100000 => Some("AMOOR.W"),
        0b01011_011_1000000 => Some("AMOMIN.W"),
        0b01011_011_1010000 => Some("AMOMAX.W"),
        0b01011_011_1100000 => Some("AMOMINU.W"),
        0b01011_011_1110000 => Some("AMOMAXU.W"),
        0b10100_001_0000000 => Some("FLD"),
        0b10100_011_0000000 => Some("FSD"),
        0b10100_000_0000000 => Some("FLW"),
        0b10100_010_0000000 => Some("FSW"),
        0b11110_000_0000000 => Some("HLV.W"),
        0b11110_000_0000001 => Some("HSV.W"),
        0b01101_000_0000000 => Some("LUI"),
        0b00101_000_0000000 => Some("AUIPC"),
        0b11011_000_0000000 => Some("JAL"),
        0b01001_000_0000000 => Some("JALR"),
        0b01000_000_0000000 => Some("SB"),
        0b01000_001_0000000 => Some("SH"),
        0b01000_100_0000000 => Some("BLT"),
        0b01000_101_0000000 => Some("BGE"),
        0b01000_110_0000000 => Some("BLTU"),
        0b01000_111_0000000 => Some("BGEU"),
        0b00000_000_0000000 => Some("LB"),
        0b00000_001_0000000 => Some("LH"),
        0b00000_010_0000000 => Some("LW"),
        0b00000_100_0000000 => Some("LBU"),
        0b00000_101_0000000 => Some("LHU"),
        0b01000_010_0000000 => Some("SW"),
        0b00100_000_0000000 => Some("ADDI"),
        0b00100_010_0000000 => Some("SLTI"),
        0b00100_011_0000000 => Some("SLTIU"),
        0b00100_100_0000000 => Some("XORI"),
        0b00100_110_0000000 => Some("ORI"),
        0b00100_111_0000000 => Some("ANDI"),
        0b00100_001_0000000 => Some("SLLI"),
        0b00100_101_0000000 => Some("SRLI"),
        0b00100_101_0100000 => Some("SRAI"),
        0b01100_000_0000000 => Some("ADD"),
        0b01100_000_0100000 => Some("SUB"),
        0b01100_001_0000000 => Some("SLL"),
        0b01100_010_0000000 => Some("SLT"),
        0b01100_011_0000000 => Some("SLTU"),
        0b01100_100_0000000 => Some("XOR"),
        0b01100_101_0000000 => Some("SRL"),
        0b01100_101_0100000 => Some("SRA"),
        0b01100_110_0000000 => Some("OR"),
        0b01100_111_0000000 => Some("AND"),
        0b11100_000_0000000 => Some("ECALL"),
        0b11100_000_0000001 => Some("EBREAK"),
        0b01100_000_0000001 => Some("MUL"),
        0b01100_001_0000001 => Some("MULH"),
        0b01100_010_0000001 => Some("MULHSU"),
        0b01100_011_0000001 => Some("MULHU"),
        0b01100_100_0000001 => Some("DIV"),
        0b01100_101_0000001 => Some("DIVU"),
        0b01100_110_0000001 => Some("REM"),
        0b01100_111_0000001 => Some("REMU"),
        0b10100_011_0000001 => Some("FLQ"),
        0b10100_011_0000011 => Some("FSQ"),
        0b11110_000_0000010 => Some("SSTC.SET"),
        0b11101_000_0000000 => Some("VADDR.TRANS"),
        0b00000_000_0001000 => Some("PAUSE.W"),
        0b00010_001_0000000 => Some("CBO.FLUSH"),
        0b00010_000_0000000 => Some("CBO.ZERO"),
        0b11000_000_0000000 => Some("RDCYCLE"),
        0b11000_001_0000000 => Some("RDTIME"),
        0b11000_010_0000000 => Some("RDINSTRET"),
        0b11100_001_0000000 => Some("CSRRW"),
        0b11100_010_0000000 => Some("CSRRS"),
        0b11100_011_0000000 => Some("CSRRC"),
        0b00011_000_0000000 => Some("FENCE"),
        0b00011_000_1000001 => Some("FENCE.TSO"),
        0b11000_011_0000000 => Some("RDHPMCOUNTER"),
        _ => None,
    }
}

/// The mnemonic of the system instruction that is exactly the word `instr`,
/// if any.
pub open spec fn system_instruction_name(instr: u32) -> Option<&'static str> {
    match instr {
        0x73 => Some("ecall"),
        0x0010_0073 => Some("ebreak"),
        0x1050_0073 => Some("wfi"),
        0x3020_0073 => Some("mret"),
        0x1020_0073 => Some("sret"),
        0x7b20_0073 => Some("dret"),
        _ => None,
    }
}

/// The mnemonic filed under `key`.
fn lookup_instruction_name(key: u16) -> (r: Option<&'static str>)
    ensures
        r == instruction_name(key),
{
    match key {
            0b01011_010_0000000 => Some("LR.W"),
            0b01011_010_0000001 => Some("SC.W"),
            0b01011_011_0000000 => Some("AMOSWAP.W"),
            0b01011_011_0000001 => Some("AMOADD.W"),
            0b01011_011_0010000 => Some("AMOXOR.W"),
            0b01011_011_0110000 => Some("AMOAND.W"),
            0b01011_011_0100000 => Some("AMOOR.W"),
            0b01011_011_1000000 => Some("AMOMIN.W"),
            0b01011_011_1010000 => Some("AMOMAX.W"),
            0b01011_011_1100000 => Some("AMOMINU.W"),
            0b01011_011_1110000 => Some("AMOMAXU.W"),
            0b10100_001_0000000 => Some("FLD"),
            0b10100_011_0000000 => Some("FSD"),
            0b10100_000_0000000 => Some("FLW"),
            0b10100_010_0000000 => Some("FSW"),
            0b11110_000_0000000 => Some("HLV.W"),
            0b11110_000_0000001 => Some("HSV.W"),
            0b01101_000_0000000 => Some("LUI"),
            0b00101_000_0000000 => Some("AUIPC"),
            0b11011_000_0000000 => Some("JAL"),
            0b01001_000_0000000 => Some("JALR"),
            0b01000_000_0000000 => Some("SB"),
            0b01000_001_0000000 => Some("SH"),
            0b01000_100_0000000 => Some("BLT"),
            0b01000_101_0000000 => Some("BGE"),
            0b01000_110_0000000 => Some("BLTU"),
            0b01000_111_0000000 => Some("BGEU"),
            0b00000_000_0000000 => Some("LB"),
            0b00000_001_0000000 => Some("LH"),
            0b00000_010_0000000 => Some("LW"),
            0b00000_100_0000000 => Some("LBU"),
            0b00000_101_0000000 => Some("LHU"),
            0b01000_010_0000000 => Some("SW"),
            0b00100_000_0000000 => Some("ADDI"),
            0b00100_010_0000000 => Some("SLTI"),
            0b00100_011_0000000 => Some("SLTIU"),
            0b00100_100_0000000 => Some("XORI"),
            0b00100_110_0000000 => Some("ORI"),
            0b00100_111_0000000 => Some("ANDI"),
            0b00100_001_0000000 => Some("SLLI"),
            0b00100_101_0000000 => Some("SRLI"),
            0b00100_101_0100000 => Some("SRAI"),
            0b01100_000_0000000 => Some("ADD"),
            0b01100_000_0100000 => Some("SUB"),
            0b01100_001_0000000 => Some("SLL"),
            0b01100_010_0000000 => Some("SLT"),
            0b01100_011_0000000 => Some("SLTU"),
            0b01100_100_0000000 => Some("XOR"),
            0b01100_101_0000000 => Some("SRL"),
            0b01100_101_0100000 => Some("SRA"),
            0b01100_110_0000000 => Some("OR"),
            0b01100_111_0000000 => Some("AND"),
            0b11100_000_0000000 => Some("ECALL"),
            0b11100_000_0000001 => Some("EBREAK"),
            0b01100_000_0000001 => Some("MUL"),
            0b01100_001_0000001 => Some("MULH"),
            0b01100_010_0000001 => Some("MULHSU"),
            0b01100_011_0000001 => Some("MULHU"),
            0b01100_100_0000001 => Some("DIV"),
            0b01100_101_0000001 => Some("DIVU"),
            0b01100_110_0000001 => Some("REM"),
            0b01100_111_0000001 => Some("REMU"),
            0b10100_011_0000001 => Some("FLQ"),
            0b10100_011_0000011 => Some("FSQ"),
            0b11110_000_0000010 => Some("SSTC.SET"),
            0b11101_000_0000000 => Some("VADDR.TRANS"),
            0b00000_000_0001000 => Some("PAUSE.W"),
            0b00010_001_0000000 => Some("CBO.FLUSH"),
            0b00010_000_0000000 => Some("CBO.ZERO"),
            0b11000_000_0000000 => Some("RDCYCLE"),
            0b11000_001_0000000 => Some("RDTIME"),
            0b11000_010_0000000 => Some("RDINSTRET"),
            0b11100_001_0000000 => Some("CSRRW"),
            0b11100_010_0000000 => Some("CSRRS"),
            0b11100_011_0000000 => Some("CSRRC"),
            0b00011_000_0000000 => Some("FENCE"),
            0b00011_000_1000001 => Some("FENCE.TSO"),
            0b11000_011_0000000 => Some("RDHPMCOUNTER"),
        _ => None,
    }
}

/// The value of an optional funct3 field, zero when absent.
pub open spec fn funct3_or_zero(f: Option<Funct3>) -> u8 {
    match f {
        Some(v) => v.value(),
        None => 0,
    }
}

/// The value of an optional funct7 field, zero when absent.
pub open spec fn funct7_or_zero(f: Option<Funct7>) -> u8 {
    match f {
        Some(v) => v.value(),
        None => 0,
    }
}

/// The mnemonic of an instruction with `opcode` and, where its format has
/// them, `funct3` and `funct7` (an absent field counts as zero).
pub open spec fn spec_get_mnemonic(
    opcode: Opcode,
    funct3: Option<Funct3>,
    funct7: Option<Funct7>,
) -> Option<Mnemonic> {
    match instruction_name(mnemonic_key(opcode.value(), funct3_or_zero(funct3), funct7_or_zero(funct7))) {
        Some(name) => Some(Mnemonic::spec_from(name)),
        None => None,
    }
}

/// Looks up the mnemonic of an instruction with `opcode` and, where its
/// format has them, `funct3` and `funct7`. No match gives `None`.
pub fn get_mnemonic(opcode: Opcode, funct3: Option<Funct3>, funct7: Option<Funct7>) -> (r: Option<
    Mnemonic,
>)
    ensures
        r == spec_get_mnemonic(opcode, funct3, funct7),
{
    let op: u16 = (opcode.bits() & 0b1111100) as u16;
    let f3: u16 = match funct3 {
        Some(val) => val.bits() as u16,
        None => 0,
    };
    let f7: u16 = match funct7 {
        Some(val) => val.bits() as u16,
        None => 0,
    };
    let code: u16 = (op << 8) | (f3 << 7) | f7;
    match lookup_instruction_name(code) {
        Some(name) => Some(Mnemonic::new(name)),
        None => None,
    }
}

/// Looks up the mnemonic of a system instruction that takes no operands
/// (`ecall`, `ebreak`, `wfi`, `mret`, `sret`, `dret`) by its whole word.
pub fn find_system_mnemonic(instr: u32) -> (r: Option<Mnemonic>)
    ensures
        r == (match system_instruction_name(instr) {
            Some(name) => Some(Mnemonic::spec_from(name)),
            None => None,
        }),
{
    let name = match instr {
            0x73 => Some("ecall"),
            0x0010_0073 => Some("ebreak"),
            0x1050_0073 => Some("wfi"),
            0x3020_0073 => Some("mret"),
            0x1020_0073 => Some("sret"),
            0x7b20_0073 => Some("dret"),
        _ => None,
    };
    match name {
        Some(n) => Some(Mnemonic::new(n)),
        None => None,
    }
}

} // verus!
