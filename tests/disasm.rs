use riscv_isa::{Disasm, DisasmConfig, DisasmError, Instruction, RISCVError};

#[test]
fn test_disasm_next() {
    let data = vec![0x33, 0x85, 0x62, 0x00]; // add a0, t0, t1
    let mut disasm = Disasm::new(data);

    let record = disasm.next();
    assert!(record.is_some(), "Expected an instruction");
    let record = record.unwrap();
    match record {
        Ok(record) => {
            assert_eq!(u32::from(record.instruction()), 0x00628533);
        }
        Err(e) => panic!("Expected Ok(Instruction), got error: {:?}", e),
    }

    assert!(disasm.next().is_none());
}

#[test]
fn test_disasm_unexpected_eof() {
    let data = vec![0x33, 0x00];
    let mut disasm = Disasm::new(data);

    let result = disasm.next();
    assert!(result.is_some(), "Expected an error due to EOF");
    match result.unwrap() {
        Err(DisasmError::RISCVError(RISCVError::DisasmError(msg))) => {
            assert_eq!(msg, "Unexpected end of file");
        }
        Err(e) => panic!("Unexpected error variant: {:?}", e),
        Ok(_) => panic!("Expected an error, but got an instruction"),
    }
}

#[test]
fn one_record_at_address_zero_then_clean_end() {
    let mut disasm = Disasm::new(vec![0x33, 0x85, 0x62, 0x00]);
    let record = disasm.next().unwrap().unwrap();
    assert_eq!(record.address(), 0);
    assert_eq!(record.instruction(), Instruction::try_from(0x00628533).unwrap());
    assert!(disasm.next().is_none());
    assert!(disasm.next().is_none());
}

#[test]
fn truncated_stream_yields_one_error_then_stops() {
    let mut disasm = Disasm::new(vec![0x33, 0x00]);
    assert!(matches!(disasm.next(), Some(Err(_))));
    assert!(disasm.next().is_none());
}

#[test]
fn addresses_advance_by_instruction_width_from_start() {
    let config = DisasmConfig::with_address(0x1000);
    let bytes = vec![0x33, 0x85, 0x62, 0x00, 0x63, 0x44, 0xb6, 0x00];
    let mut disasm = Disasm::with_config(bytes, config);
    let first = disasm.next().unwrap().unwrap();
    let second = disasm.next().unwrap().unwrap();
    assert_eq!(first.address(), 0x1000);
    assert_eq!(second.address(), 0x1000 + 32);
    assert_eq!(u32::from(second.instruction()), 0x00b64463);
    assert!(disasm.next().is_none());
}

#[test]
fn unsupported_size_is_an_error() {
    let mut disasm = Disasm::new(vec![0x00, 0x00, 0x00, 0x00]);
    match disasm.next() {
        Some(Err(DisasmError::RISCVError(RISCVError::DisasmError(msg)))) => assert_eq!(
            msg,
            "The disassembler doesn't currently support instructions of a size other than 32 bits"
        ),
        other => panic!("Unexpected result: {:?}", other),
    }
    assert!(disasm.next().is_none());
}

#[test]
fn unknown_size_and_bad_format_are_errors() {
    let mut disasm = Disasm::new(vec![0x7f, 0x00, 0x00, 0x00]);
    assert!(matches!(
        disasm.next(),
        Some(Err(DisasmError::RISCVError(RISCVError::UnrecognizedInstructionSize)))
    ));
    let mut disasm = Disasm::new(vec![0x4b, 0x00, 0x00, 0x00]);
    assert!(matches!(
        disasm.next(),
        Some(Err(DisasmError::RISCVError(RISCVError::UnrecognizedInstructionFormat)))
    ));
    assert!(disasm.next().is_none());
}

#[test]
fn empty_stream_ends_at_once() {
    let mut disasm = Disasm::new(Vec::new());
    assert!(disasm.next().is_none());
    let config = DisasmConfig::default();
    assert_eq!(config.start_addr, 0);
    assert_eq!(config.unknown_mnemonic, "???");
}
