use riscv_isa::{
    Funct3, Funct7, Immediate, InstructionFormat, InstructionSize, Opcode, RISCVError,
    RISCVExtension, RawBitsConverter, Register, TryFromOpcodeBinary,
};

fn assert_imm<const START: u8, const END: u8>(val: i32, err: Option<RISCVError>) {
    let result = Immediate::<START, END>::try_from(val);
    match err {
        Some(e_exp) => match result {
            Ok(_) => assert!(false, "Immediate creation expected to fail for {}", val),
            Err(e) => assert_eq!(e_exp, e),
        },
        None => match result {
            Ok(imm) => assert_eq!(val, imm.into()),
            Err(e) => assert!(
                false,
                "Immediate creation expected to work for {}, but it failed with {:?} instead",
                val,
                e
            ),
        },
    }
}

fn assert_bit_num<const START: u8, const END: u8>(bits: u32, exp: i32) {
    let imm = Immediate::<START, END>::try_from_raw_bits(bits).unwrap();
    assert_eq!(exp, imm.into())
}

#[test]
fn immediate_test_two_way_conversion() {
    assert_imm::<0, 11>(10, None);
    assert_imm::<0, 11>(2047, None);
    assert_imm::<0, 11>((1 << 11) - 1, None);
    assert_imm::<0, 11>(1 << 11, Some(RISCVError::ImmediateOutOfRange(-2048, 2047)));

    assert_imm::<1, 12>(0, None);
    assert_imm::<1, 12>(10, None);
    assert_imm::<1, 12>(2046, None);
    assert_imm::<1, 12>((1 << 11) - 2, None);
    assert_imm::<1, 12>(1 << 12, Some(RISCVError::ImmediateOutOfRange(-4096, 4094)));
    assert_imm::<1, 12>(1, Some(RISCVError::ImmediateBitsBeforeStart(1)));

    assert_imm::<0, 11>(-1, None);
    assert_imm::<0, 11>(-2048, None);
    assert_imm::<1, 12>(-768, None);
    assert_imm::<1, 12>(-4096, None);

    assert_imm::<12, 31>(1 << 12, None);
    assert_imm::<12, 31>((1 << 12) + 2048, Some(RISCVError::ImmediateBitsBeforeStart(12)));
    assert_imm::<12, 31>(-1, Some(RISCVError::ImmediateBitsBeforeStart(12)));
    assert_imm::<12, 31>(-65536, None);
}

#[test]
fn test_bits_to_num() {
    assert_bit_num::<0, 11>(5, 5);
    assert_bit_num::<0, 11>(0b111111100111, -25);
    assert_bit_num::<12, 31>(1, 4096);
}

#[test]
fn test_try_from_u8() {
    assert!(Register::try_from(0).is_ok());
    assert!(Register::try_from(31).is_ok());
    assert!(Register::try_from(32).is_err());
    assert!(Register::try_from(255).is_err());
}

#[test]
fn test_from_rs1_bits() {
    let instr: u32 = 13 << 15;
    let reg = Register::from_rs1_bits(instr);
    assert_eq!(reg, Register::a3());
}

#[test]
fn test_into_rs1_bits() {
    let reg = Register::ra();
    let bits = reg.into_rs1_bits();
    assert_eq!(bits, 1 << 15);
}

#[test]
fn register_fields_of_other_positions() {
    let instr: u32 = (7 << 20) | (31 << 7);
    assert_eq!(Register::from_rs2_bits(instr), Register::t2());
    assert_eq!(Register::from_rd_bits(instr), Register::t6());
    assert_eq!(Register::s1().into_rs2_bits(), 9 << 20);
    assert_eq!(Register::a0().into_rd_bits(), 10 << 7);
    assert_eq!(Register::try_from(32), Err(RISCVError::InvalidRegister));
}

#[test]
fn register_names() {
    assert_eq!(Register::zero().name(), "zero");
    assert_eq!(Register::t0().name(), "t0");
    assert_eq!(Register::a0().name(), "a0");
    assert_eq!(Register::s11().name(), "s11");
    assert_eq!(Register::t6().name(), "t6");
    assert_eq!(u8::from(Register::sp()), 2);
    assert_eq!(u32::from(&Register::gp()), 3);
}

#[test]
fn immediate_range_is_full_when_field_reaches_bit_31() {
    let imm = Immediate::<0, 31>::try_from(i32::MIN).unwrap();
    assert_eq!(i32::from(imm), i32::MIN);
    let imm = Immediate::<0, 31>::try_from(i32::MAX).unwrap();
    assert_eq!(i32::from(&imm), i32::MAX);
    assert_eq!(
        Immediate::<12, 31>::try_from(i32::MAX),
        Err(RISCVError::ImmediateBitsBeforeStart(12))
    );
}

#[test]
fn immediate_edges_of_signed_range() {
    assert_eq!(
        Immediate::<0, 11>::try_from(-2049),
        Err(RISCVError::ImmediateOutOfRange(-2048, 2047))
    );
    assert_eq!(
        Immediate::<1, 20>::try_from(1 << 20),
        Err(RISCVError::ImmediateOutOfRange(-(1 << 20), (1 << 20) - 2))
    );
    assert_eq!(i32::from(Immediate::<1, 20>::try_from(-(1 << 20)).unwrap()), -(1 << 20));
    assert_eq!(i32::from(Immediate::<1, 20>::try_from((1 << 20) - 2).unwrap()), (1 << 20) - 2);
}

#[test]
fn immediate_raw_bits() {
    let imm = Immediate::<1, 12>::try_from(-2).unwrap();
    assert_eq!(imm.into_raw_bits(), 0xfff);
    let imm = Immediate::<12, 31>::try_from(0x7fff_f000).unwrap();
    assert_eq!(imm.into_raw_bits(), 0x7ffff);
    assert_eq!(
        Immediate::<0, 11>::try_from_raw_bits(0x1000),
        Err(RISCVError::ImmediateOutOfRange(0, 0))
    );
    assert!(Immediate::<0, 11>::try_from_raw_bits(0xfff).is_ok());
}

#[test]
fn funct_fields() {
    assert_eq!(Funct3::try_from(8u8), Err(RISCVError::InvalidFunctValue(3)));
    assert_eq!(Funct7::try_from(128u8), Err(RISCVError::InvalidFunctValue(7)));
    assert_eq!(u8::from(Funct3::try_from(5u8).unwrap()), 5);
    assert_eq!(u32::from(Funct7::try_from(0b0100000u8).unwrap()), 0b0100000 << 25);
    assert_eq!(u8::from(Funct3::from(0x0000_6000u32)), 6);
    assert_eq!(u8::from(Funct7::from(0x4000_0000u32)), 0b0100000);
}

#[test]
fn format_classification() {
    assert_eq!(InstructionFormat::try_from_opcode_binary(0b1100011), Ok(InstructionFormat::B));
    assert_eq!(InstructionFormat::try_from_opcode_binary(0b0010011), Ok(InstructionFormat::I));
    assert_eq!(InstructionFormat::try_from_opcode_binary(0b0000011), Ok(InstructionFormat::I));
    assert_eq!(InstructionFormat::try_from_opcode_binary(0b1100111), Ok(InstructionFormat::I));
    assert_eq!(InstructionFormat::try_from_opcode_binary(0b1110011), Ok(InstructionFormat::I));
    assert_eq!(InstructionFormat::try_from_opcode_binary(0b1101111), Ok(InstructionFormat::J));
    assert_eq!(InstructionFormat::try_from_opcode_binary(0b0110011), Ok(InstructionFormat::R));
    assert_eq!(InstructionFormat::try_from_opcode_binary(0b0101111), Ok(InstructionFormat::R));
    assert_eq!(InstructionFormat::try_from_opcode_binary(0b0111011), Ok(InstructionFormat::R));
    assert_eq!(InstructionFormat::try_from_opcode_binary(0b0100011), Ok(InstructionFormat::S));
    assert_eq!(InstructionFormat::try_from_opcode_binary(0b0110111), Ok(InstructionFormat::U));
    assert_eq!(
        InstructionFormat::try_from_opcode_binary(0b1001011),
        Err(RISCVError::UnrecognizedInstructionFormat)
    );
    assert_eq!(InstructionFormat::try_from(0x00628533u32), Ok(InstructionFormat::R));
    assert_eq!(InstructionFormat::B.name(), "B-Type");
}

#[test]
fn opcode_with_unmapped_format_bits_fails() {
    assert_eq!(
        Opcode::try_from(0b1001011u8),
        Err(RISCVError::UnrecognizedInstructionFormat)
    );
}

#[test]
fn opcode_errors_and_accessors() {
    assert_eq!(Opcode::try_from(0x80u8 | 0x33), Err(RISCVError::InvalidOpcode));
    assert_eq!(Opcode::try_from(0b1111111u8), Err(RISCVError::UnrecognizedInstructionSize));
    let op = Opcode::try_from(0b0110011u8).unwrap();
    assert_eq!(op.format(), InstructionFormat::R);
    assert_eq!(op.instruction_size(), InstructionSize::Size32);
    assert_eq!(u8::from(op), 0b0110011);
    assert_eq!(u32::from(op), 0b0110011);
    assert_eq!(Opcode::try_from(0xfff0_0013u32).map(u8::from), Ok(0b0010011));
}

#[test]
fn instruction_sizes() {
    assert_eq!(InstructionSize::try_from_opcode_binary(0b0000000), Ok(InstructionSize::Size16));
    assert_eq!(InstructionSize::try_from_opcode_binary(0b0110011), Ok(InstructionSize::Size32));
    assert_eq!(InstructionSize::try_from_opcode_binary(0b0011111), Ok(InstructionSize::Size48));
    assert_eq!(InstructionSize::try_from_opcode_binary(0b0111111), Ok(InstructionSize::Size64));
    assert_eq!(
        InstructionSize::try_from_opcode_binary(0b1111111),
        Err(RISCVError::UnrecognizedInstructionSize)
    );
    assert_eq!(usize::from(&InstructionSize::Size48), 48);
    assert_eq!(InstructionSize::try_from(64usize), Ok(InstructionSize::Size64));
    assert_eq!(InstructionSize::try_from(24usize), Err(RISCVError::UnrecognizedInstructionSize));
}

#[test]
fn custom_extension_opcodes() {
    assert_eq!(RISCVExtension::try_from_opcode_binary(0b0001011), Ok(RISCVExtension::Custom));
    assert_eq!(RISCVExtension::try_from_opcode_binary(0b1111011), Ok(RISCVExtension::Custom));
    assert_eq!(
        RISCVExtension::try_from_opcode_binary(0b0110011),
        Err(RISCVError::UnrecognizedExtension)
    );
}

#[test]
fn bit_helpers() {
    use_bits();
}

fn use_bits() {
    let src: u32 = 0b1011_0000;
    assert!(riscv_isa::bit::get_bit(&src, 4));
    assert!(!riscv_isa::bit::get_bit(&src, 6));
    let mut dst: u32 = 0;
    riscv_isa::bit::set_bit(&mut dst, 31, true);
    assert_eq!(dst, 1 << 31);
    riscv_isa::bit::set_bit(&mut dst, 31, false);
    assert_eq!(dst, 0);
    riscv_isa::bit::copy_bit(&src, 7, &mut dst, 0);
    assert_eq!(dst, 1);
    let mut dst: u32 = 0xffff_ffff;
    riscv_isa::bit::copy_bits(&src, 4, &mut dst, 8, 4);
    assert_eq!(dst, 0xffff_fbff);
}
