use riscv_isa::{
    find_system_mnemonic, get_mnemonic, BInstruction, Funct3, Funct7, IInstruction, Immediate,
    Instruction, InstructionBuilder, InstructionFormat, InstructionTrait, JInstruction, Opcode,
    RISCVError, RInstruction, Register, SInstruction, UInstruction,
};

#[test]
fn test_immediate_bits() -> Result<(), RISCVError> {
    let instr = BInstruction::try_from(0x00b64463)?; // blt a2, a1, 8
    assert_eq!(0b1000 << 7, instr.immediate_bits());
    assert_eq!(8, instr.imm().into());
    Ok(())
}

fn assert_instr(bits: u32) {
    let instr = RInstruction::try_from(bits).unwrap();
    assert_eq!(bits, u32::from(instr))
}

#[test]
fn r_instruction_test_two_way_conversion() {
    assert_instr(0x00028533); // add a0, t0, zero
    assert_instr(0x02b504b3); // mul s1, a0, a1
    assert_instr(0x00b574b3); // and s1, a0, a1
}

#[test]
fn add_word_decodes_to_its_fields() {
    let instr = Instruction::try_from(0x00628533).unwrap();
    assert_eq!(instr.format(), InstructionFormat::R);
    assert_eq!(instr.rs1(), Some(Register::t0()));
    assert_eq!(instr.rs2(), Some(Register::t1()));
    assert_eq!(instr.rd(), Some(Register::a0()));
    assert_eq!(instr.funct3().map(u8::from), Some(0));
    assert_eq!(instr.funct7().map(u8::from), Some(0));
    assert_eq!(instr.immediate(), None);
    assert_eq!(u32::from(instr), 0x00628533);
    assert_eq!(instr.mnemonic().map(|m| m.as_str()), Some("ADD"));
}

#[test]
fn branch_word_has_immediate_eight() {
    let instr = Instruction::try_from(0x00b64463).unwrap();
    assert_eq!(instr.format(), InstructionFormat::B);
    assert_eq!(instr.immediate(), Some(8));
    assert_eq!(instr.rs1(), Some(Register::a2()));
    assert_eq!(instr.rs2(), Some(Register::a1()));
    assert_eq!(instr.rd(), None);
    assert_eq!(u32::from(&instr), 0x00b64463);
}

#[test]
fn words_of_every_format_round_trip() {
    let words: [u32; 10] = [
        0x00628533, // add a0, t0, t1
        0x0ff54493, // xori s1, a0, 255
        0xfff00513, // addi a0, zero, -1
        0x00a12423, // sw a0, 8(sp)
        0xfea12e23, // sw a0, -4(sp)
        0xfe0508e3, // beq a0, zero, -16
        0x123452b7, // lui t0, 0x12345
        0xfffff0ef, // jal ra, -2
        0x008000ef, // jal ra, 8
        0x80000537, // lui a0, 0x80000
    ];
    for w in words {
        let instr = Instruction::try_from(w).unwrap();
        assert_eq!(u32::from(instr), w);
    }
}

#[test]
fn signed_immediates_of_each_format() {
    assert_eq!(Instruction::try_from(0xfff00513).unwrap().immediate(), Some(-1));
    assert_eq!(Instruction::try_from(0xfea12e23).unwrap().immediate(), Some(-4));
    assert_eq!(Instruction::try_from(0xfe0508e3).unwrap().immediate(), Some(-16));
    assert_eq!(Instruction::try_from(0x123452b7).unwrap().immediate(), Some(0x12345000));
    assert_eq!(Instruction::try_from(0xfffff0ef).unwrap().immediate(), Some(-2));
    assert_eq!(Instruction::try_from(0x008000ef).unwrap().immediate(), Some(8));
    assert_eq!(Instruction::try_from(0x80000537).unwrap().immediate(), Some(i32::MIN));
}

#[test]
fn scattered_immediate_bits() {
    let s = SInstruction::try_from(0xfea12e23).unwrap();
    assert_eq!(s.immediate_bits(), 0xfe000e00);
    let j = JInstruction::try_from(0x008000ef).unwrap();
    assert_eq!(j.immediate_bits(), 0x00800000);
    let u = UInstruction::try_from(0x123452b7).unwrap();
    assert_eq!(u.immediate_bits(), 0x12345000);
    let i = IInstruction::try_from(0xfff00513).unwrap();
    assert_eq!(i.immediate_bits(), 0xfff00000);
    let r = RInstruction::try_from(0x00628533).unwrap();
    assert_eq!(r.immediate_bits(), 0);
}

#[test]
fn decoding_with_the_wrong_format_fails() {
    assert_eq!(
        RInstruction::try_from(0x00b64463),
        Err(RISCVError::UnexpectedFormat(InstructionFormat::B))
    );
    assert_eq!(
        BInstruction::try_from(0x00628533),
        Err(RISCVError::UnexpectedFormat(InstructionFormat::R))
    );
    assert_eq!(Instruction::try_from(0x0000004b), Err(RISCVError::UnrecognizedInstructionFormat));
}

#[test]
fn constructor_rejects_opcode_of_other_format() {
    let b_opcode = Opcode::try_from(0b1100011u8).unwrap();
    let r = RInstruction::new(
        b_opcode,
        Register::t0(),
        Register::t1(),
        Register::a0(),
        Funct3::try_from(0u8).unwrap(),
        Funct7::try_from(0u8).unwrap(),
    );
    assert_eq!(r, Err(RISCVError::UnexpectedFormat(InstructionFormat::B)));
}

#[test]
fn constructed_instruction_round_trips() {
    let opcode = Opcode::try_from(0b0000011u8).unwrap();
    let imm = Immediate::<0, 11>::try_from(0xff).unwrap();
    let instr = IInstruction::new(
        opcode,
        Register::a0(),
        Register::try_from(9).unwrap(),
        Funct3::try_from(0b100u8).unwrap(),
        imm,
    )
    .unwrap();
    let word = u32::from(instr);
    assert_eq!(word, 0x0ff54483);
    assert_eq!(IInstruction::try_from(word), Ok(instr));
    assert_eq!(instr.mnemonic().map(|m| m.as_str()), Some("LBU"));
}

#[test]
fn builder_builds_add() {
    let instruction = InstructionBuilder::new()
        .set_opcode(Opcode::try_from(0b0110011u8).unwrap())
        .set_funct3(Funct3::try_from(0u8).unwrap())
        .set_funct7(Funct7::try_from(0u8).unwrap())
        .set_rd(Register::a0())
        .set_rs1(Register::t0())
        .set_rs2(Register::t1())
        .set_immediate(1234)
        .build()
        .unwrap();
    assert_eq!(u32::from(instruction), 0x00628533);
}

#[test]
fn builder_names_missing_fields() {
    let mut builder = InstructionBuilder::new();
    assert_eq!(
        builder.build(),
        Err(RISCVError::BuilderError("Opcode not provided".to_string()))
    );
    builder.set_opcode(Opcode::try_from(0b0110011u8).unwrap()).set_rs1(Register::t0());
    assert_eq!(
        builder.build(),
        Err(RISCVError::BuilderError("rs2 value not provided".to_string()))
    );
    builder.reset();
    builder.set_opcode(Opcode::try_from(0b1101111u8).unwrap()).set_rd(Register::ra());
    assert_eq!(
        builder.build(),
        Err(RISCVError::BuilderError("immediate value not provided".to_string()))
    );
}

#[test]
fn builder_checks_immediate_range() {
    let mut builder = InstructionBuilder::new();
    builder
        .set_opcode(Opcode::try_from(0b1100011u8).unwrap())
        .set_rs1(Register::a0())
        .set_rs2(Register::a1())
        .set_funct3(Funct3::try_from(0u8).unwrap())
        .set_immediate(3);
    assert_eq!(builder.build(), Err(RISCVError::ImmediateBitsBeforeStart(1)));
    builder.set_immediate(8192);
    assert_eq!(builder.build(), Err(RISCVError::ImmediateOutOfRange(-4096, 4094)));
    builder.set_immediate(-16);
    assert_eq!(u32::from(builder.build().unwrap()), 0xfeb508e3);
}

#[test]
fn builder_from_instruction_rebuilds_it() {
    let instr = Instruction::try_from(0x0ff54483).unwrap();
    let builder = InstructionBuilder::from(&instr);
    assert_eq!(builder.immediate, Some(0xff));
    assert_eq!(builder.build(), Ok(instr));
}

#[test]
fn mnemonic_lookup() {
    let add = Opcode::try_from(0b0110011u8).unwrap();
    let f3 = Funct3::try_from(0u8).unwrap();
    assert_eq!(
        get_mnemonic(add, Some(f3), Some(Funct7::try_from(0b0100000u8).unwrap())).map(|m| m.as_str()),
        Some("SUB")
    );
    assert_eq!(
        get_mnemonic(add, Some(f3), Some(Funct7::try_from(0b1111111u8).unwrap())),
        None
    );
    assert_eq!(find_system_mnemonic(0x73).map(|m| m.as_str()), Some("ecall"));
    assert_eq!(find_system_mnemonic(0x7b200073).map(|m| m.as_str()), Some("dret"));
    assert_eq!(find_system_mnemonic(0x74), None);
}
