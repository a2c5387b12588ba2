use stack_vm::types::stack_item_type::StackItemType;
use stack_vm::vm::instruction::{Instruction, InstructionError};
use stack_vm::vm::op_code::OpCode;
use stack_vm::vm::script::{Script, ScriptError};

#[test]
fn opcode_bytes_round_trip() {
    for byte in 0..=255u8 {
        if let Some(op) = OpCode::from_u8(byte) {
            assert_eq!(op.to_u8(), byte);
        }
    }
    assert_eq!(OpCode::from_u8(0x06), None);
    assert_eq!(OpCode::from_u8(0xFF), None);
    assert_eq!(OpCode::from_u8(0x9E), Some(OpCode::ADD));
    assert_eq!(OpCode::RET.to_u8(), 0x40);
}

#[test]
fn operand_sizes_and_prefixes() {
    assert_eq!(OpCode::PUSHINT8.operand_size(), 1);
    assert_eq!(OpCode::PUSHINT256.operand_size(), 32);
    assert_eq!(OpCode::PUSHA.operand_size(), 4);
    assert_eq!(OpCode::JMP.operand_size(), 1);
    assert_eq!(OpCode::JMP_L.operand_size(), 4);
    assert_eq!(OpCode::CALLT.operand_size(), 2);
    assert_eq!(OpCode::TRY.operand_size(), 2);
    assert_eq!(OpCode::TRY_L.operand_size(), 8);
    assert_eq!(OpCode::INITSLOT.operand_size(), 2);
    assert_eq!(OpCode::INITSSLOT.operand_size(), 1);
    assert_eq!(OpCode::ADD.operand_size(), 0);
    assert_eq!(OpCode::PUSHDATA1.operand_prefix(), 1);
    assert_eq!(OpCode::PUSHDATA2.operand_prefix(), 2);
    assert_eq!(OpCode::PUSHDATA4.operand_prefix(), 4);
    assert_eq!(OpCode::ADD.operand_prefix(), 0);
}

#[test]
fn stack_item_types() {
    assert!(StackItemType::is_valid(0x00));
    assert!(StackItemType::is_valid(0x48));
    assert!(!StackItemType::is_valid(0x01));
    assert!(StackItemType::is_valid_type(StackItemType::Pointer));
    assert!(StackItemType::is_primitive(0x21));
    assert!(!StackItemType::is_primitive(0x30));
    assert!(StackItemType::is_primitive_type(StackItemType::ByteString));
    assert!(!StackItemType::is_primitive_type(StackItemType::Buffer));
    assert!(StackItemType::is_compound(0x41));
    assert!(!StackItemType::is_compound(0x28));
    assert!(StackItemType::is_compound_type(StackItemType::Mapping));
    assert!(!StackItemType::is_compound_type(StackItemType::Any));
    assert_eq!(StackItemType::from_u8(0x60), Some(StackItemType::InteropInterface));
    assert_eq!(StackItemType::from_u8(0x61), None);
    assert_eq!(StackItemType::Struct.to_u8(), 0x41);
}

#[test]
fn decoding_fixed_and_prefixed_operands() {
    let script = vec![0x00, 0xFE, 0x0C, 0x02, 0xAA, 0xBB, 0x0D, 0x01, 0x00, 0xCC, 0x40];
    let first = Instruction::new(script.clone(), 0).unwrap();
    assert_eq!(first.opcode, OpCode::PUSHINT8);
    assert_eq!(first.operand, vec![0xFE]);
    assert_eq!(first.size(), 2);
    assert_eq!(first.token_i8(), -2);
    assert_eq!(first.token_u8(), 0xFE);
    let second = Instruction::new(script.clone(), 2).unwrap();
    assert_eq!(second.opcode, OpCode::PUSHDATA1);
    assert_eq!(second.operand, vec![0xAA, 0xBB]);
    assert_eq!(second.size(), 4);
    let third = Instruction::from_script(&script, 6).unwrap();
    assert_eq!(third.opcode, OpCode::PUSHDATA2);
    assert_eq!(third.operand, vec![0xCC]);
    assert_eq!(third.size(), 4);
    let last = Instruction::from_slice(&script, 10).unwrap();
    assert_eq!(last.opcode, OpCode::RET);
    assert_eq!(last.size(), 1);
}

#[test]
fn decoding_errors() {
    assert_eq!(Instruction::new(vec![0x40], 1).unwrap_err(), InstructionError::InvalidOperandSize);
    assert_eq!(Instruction::new(vec![0x06], 0).unwrap_err(), InstructionError::InvalidOpcode);
    assert_eq!(
        Instruction::new(vec![0x0D, 0x01], 0).unwrap_err(),
        InstructionError::InvalidPrefixSize(2)
    );
    assert_eq!(
        Instruction::new(vec![0x0C, 0x05, 0x01], 0).unwrap_err(),
        InstructionError::OperandOutOfBounds {
            instruction_pointer: 0,
            operand_size: 5,
            script_length: 3
        }
    );
    assert_eq!(
        Instruction::new(vec![0x01, 0x05], 0).unwrap_err(),
        InstructionError::OperandOutOfBounds {
            instruction_pointer: 0,
            operand_size: 2,
            script_length: 2
        }
    );
}

#[test]
fn token_accessors() {
    let ins = Instruction {
        opcode: OpCode::TRY_L,
        operand: vec![0xFE, 0xFF, 0xFF, 0xFF, 0x10, 0x00, 0x00, 0x80],
    };
    assert_eq!(ins.token_i8(), -2);
    assert_eq!(ins.token_i8_1(), -1);
    assert_eq!(ins.token_u8(), 0xFE);
    assert_eq!(ins.token_u8_1(), 0xFF);
    assert_eq!(ins.token_i16(), -2);
    assert_eq!(ins.token_u16(), 0xFFFE);
    assert_eq!(ins.token_i32(), -2);
    assert_eq!(ins.token_u32(), 0xFFFF_FFFE);
    assert_eq!(ins.token_i32_1(), i32::MIN + 0x10);
    assert_eq!(ins.token_i64(), i64::from_le_bytes([0xFE, 0xFF, 0xFF, 0xFF, 0x10, 0, 0, 0x80]));
    let wide = Instruction { opcode: OpCode::PUSHINT256, operand: (0..32u8).collect() };
    let block = wide.token_i256();
    assert_eq!(block.to_vec(), (0..32u8).collect::<Vec<u8>>());
    let text = Instruction { opcode: OpCode::PUSHDATA1, operand: b"ok".to_vec() };
    assert_eq!(text.token_string(), "ok");
    assert_eq!(text.try_token_string(), Some("ok".to_string()));
    let broken = Instruction { opcode: OpCode::PUSHDATA1, operand: vec![0xFF] };
    assert_eq!(broken.try_token_string(), None);
}

#[test]
fn lazy_script_fetches_and_reports() {
    let script = Script::new(vec![0x11, 0x0C, 0x01, 0xAA, 0x06]);
    assert_eq!(script.len(), 5);
    assert!(!script.is_empty());
    assert!(!script.strict_mode());
    assert_eq!(script.as_slice(), &[0x11, 0x0C, 0x01, 0xAA, 0x06]);
    assert_eq!(script.get(0), Some(OpCode::PUSH1));
    assert_eq!(script.get(4), None);
    assert_eq!(script.get(9), None);
    assert_eq!(script.get_instruction(0).unwrap().opcode, OpCode::PUSH1);
    assert_eq!(script.get_instruction(1).unwrap().operand, vec![0xAA]);
    // A lazy script decodes at any position.
    assert_eq!(script.get_instruction(2).unwrap().opcode, OpCode::PUSHINT16);
    assert_eq!(
        script.get_instruction(4).unwrap_err(),
        ScriptError::InvalidInstructionPointer(4)
    );
    assert_eq!(
        script.get_instruction(5).unwrap_err(),
        ScriptError::InvalidInstructionPointer(5)
    );
    assert!(Script::new(vec![]).is_empty());
    let copy = script.clone();
    assert_eq!(copy.as_slice(), script.as_slice());
}

#[test]
fn strict_script_knows_its_instruction_starts() {
    // PUSHDATA1 01 11, JMP +2, RET
    let bytes = vec![0x0C, 0x01, 0x11, 0x22, 0x02, 0x40];
    let script = Script::new_with_mode(bytes.clone(), true);
    assert!(script.strict_mode());
    assert_eq!(script.validate_script(), Ok(()));
    assert_eq!(script.get_instruction(0).unwrap().opcode, OpCode::PUSHDATA1);
    assert_eq!(script.get_instruction(3).unwrap().opcode, OpCode::JMP);
    assert_eq!(script.get_instruction(5).unwrap().opcode, OpCode::RET);
    // Position 2 holds the byte of PUSH1, but no instruction starts there.
    assert_eq!(script.get_instruction(2).unwrap_err(), ScriptError::InstructionNotFound(2));
    assert_eq!(
        script.get_instruction(6).unwrap_err(),
        ScriptError::InvalidInstructionPointer(6)
    );
    assert!(Script::try_new_with_mode(bytes, true).is_ok());
}

#[test]
fn strict_validation_errors() {
    let invalid = |bytes: Vec<u8>| Script::try_new_with_mode(bytes, true).unwrap_err();
    // A truncated operand.
    assert_eq!(invalid(vec![0x11, 0x01, 0x00]), ScriptError::InvalidInstructionPointer(1));
    // An unknown code.
    assert_eq!(invalid(vec![0x06]), ScriptError::InvalidInstructionPointer(0));
    // A jump into the operand of PUSHDATA1.
    assert_eq!(
        invalid(vec![0x22, 0x03, 0x0C, 0x01, 0x11, 0x40]),
        ScriptError::InvalidJumpTarget(0, OpCode::JMP)
    );
    // A jump before the script.
    assert_eq!(
        invalid(vec![0x22, 0xFE, 0x40]),
        ScriptError::InvalidJumpTarget(0, OpCode::JMP)
    );
    // A long call behind the script.
    assert_eq!(
        invalid(vec![0x35, 0x05, 0x00, 0x00, 0x00]),
        ScriptError::InvalidJumpTarget(0, OpCode::CALL_L)
    );
    // A try whose final block starts behind the script.
    assert_eq!(invalid(vec![0x3B, 0x02, 0x09, 0x40]), ScriptError::InvalidTryTarget(0));
    // A type operand that is no type, and the type Any for CONVERT.
    assert_eq!(invalid(vec![0xDB, 0x01]), ScriptError::InvalidStackItemType(0, 0x01));
    assert_eq!(invalid(vec![0x11, 0xD9, 0x00]), ScriptError::InvalidStackItemType(1, 0x00));
    // NEWARRAY_T accepts the type Any.
    assert!(Script::try_new_with_mode(vec![0xC4, 0x00], true).is_ok());
    // The same verdicts without making a script.
    assert_eq!(
        Script::new(vec![0x22, 0xFE, 0x40]).validate_script(),
        Err(ScriptError::InvalidJumpTarget(0, OpCode::JMP))
    );
    assert!(Script::try_new_with_mode(vec![0x06], false).is_ok());
}
