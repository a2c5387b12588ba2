use num_bigint::BigInt;
use num_traits::pow;
use stack_vm::big_integer::BigInteger;
use stack_vm::script::script_builder::ScriptBuilder;
use stack_vm::vm::op_code::OpCode;

fn big(value: BigInt) -> BigInteger {
    BigInteger::from_signed_bytes_le(&value.to_signed_bytes_le())
}

#[test]
fn test_emit() {
    let mut script = ScriptBuilder::new();
    assert_eq!(script.len(), 0);
    script.emit(OpCode::NOP, vec![]);
    assert_eq!(script.len(), 1);
    assert_eq!(vec![0x21], script.to_bytes());

    script = ScriptBuilder::new();
    script.emit(OpCode::NOP, vec![0x66]);
    assert_eq!(vec![0x21, 0x66], script.to_bytes())
}

#[test]
fn test_bigint() {
    let mut script = ScriptBuilder::new();
    let _ = script.emit_int(big(BigInt::from(-100000)));
    assert_eq!(script.len(), 5);
    assert_eq!(vec![2, 96, 121, 254, 255], script.to_bytes());

    let mut script = ScriptBuilder::new();
    let _ = script.emit_int(big(BigInt::from(100000)));
    assert_eq!(script.len(), 5);
    assert_eq!(vec![2, 160, 134, 1, 0], script.to_bytes());

    let mut script = ScriptBuilder::new();
    let _ = script.emit_int(big(BigInt::from(32)));
    assert_eq!(script.len(), 2);
    assert_eq!(vec![0, 32], script.to_bytes());

    let mut script = ScriptBuilder::new();
    let _ = script.emit_int(big(BigInt::from(-32)));
    assert_eq!(script.len(), 2);
    assert_eq!(vec![0, 224], script.to_bytes());

    let mut script = ScriptBuilder::new();
    let _ = script.emit_int(big(-pow(BigInt::from(2), 255)));
    assert_eq!(script.len(), 33);
    assert_eq!(
        vec![
            5, 0, 0, 0, 0, 0, 0, 0, 0, 0, 0, 0, 0, 0, 0, 0, 0, 0, 0, 0, 0, 0, 0, 0, 0, 0, 0, 0, 0,
            0, 0, 0, 0x80
        ],
        script.to_bytes()
    );

    let mut script = ScriptBuilder::new();
    let err = script.emit_int(big(pow(BigInt::from(2), 255))).unwrap_err();
    assert_eq!(err, "Only 32 bytes of BigInt allowed");
}

#[test]
fn test_emit_syscall() {
    let mut script = ScriptBuilder::new();
    script.emit_syscall(0xE393C875u32);
    assert_eq!(vec![OpCode::SYSCALL.to_u8(), 0x75, 0xC8, 0x93, 0xE3], script.to_bytes());
}

#[test]
fn test_emit_call() {
    let mut script = ScriptBuilder::new();
    script.emit_call(0);
    assert_eq!(vec![OpCode::CALL.to_u8(), 0], script.to_bytes());

    let mut script = ScriptBuilder::new();
    script.emit_call(12345);
    assert_eq!(vec![OpCode::CALL_L.to_u8(), 57, 48, 0, 0], script.to_bytes());

    let mut script = ScriptBuilder::new();
    script.emit_call(-12345);
    assert_eq!(vec![OpCode::CALL_L.to_u8(), 199, 207, 255, 255], script.to_bytes());
}

#[test]
fn test_emit_jump() {
    // The cases are spelled out in the tests below.
}

fn hex_to_bytes(s: &str) -> Option<Vec<u8>> {
    if s.len() % 2 == 0 {
        (0..s.len())
            .step_by(2)
            .map(|i| s.get(i..i + 2).and_then(|sub| u8::from_str_radix(sub, 16).ok()))
            .collect()
    } else {
        None
    }
}

fn pushed(value: BigInt) -> Vec<u8> {
    ScriptBuilder::new().emit_int(big(value)).unwrap().to_owned().to_bytes()
}

#[test]
fn test_emit_push_bigint() {
    let mut script = ScriptBuilder::new();
    let _ = script.emit_int(big(BigInt::from(-1)));
    assert_eq!(vec![0x0f], script.to_bytes());

    let mut script = ScriptBuilder::new();
    let _ = script.emit_int(big(BigInt::from(0)));
    assert_eq!(vec![0x10], script.to_bytes());

    for x in 1..17u8 {
        let mut script = ScriptBuilder::new();
        let _ = script.emit_int(big(BigInt::from(x)));
        assert_eq!(vec![OpCode::PUSH0.to_u8() + x], script.to_bytes());
    }

    assert_eq!(hex_to_bytes("0080").unwrap(), pushed(BigInt::from(i8::MIN)));
    assert_eq!(hex_to_bytes("007f").unwrap(), pushed(BigInt::from(i8::MAX)));
    assert_eq!(hex_to_bytes("01ff00").unwrap(), pushed(BigInt::from(u8::MAX)));
    assert_eq!(hex_to_bytes("010080").unwrap(), pushed(BigInt::from(i16::MIN)));
    assert_eq!(hex_to_bytes("01ff7f").unwrap(), pushed(BigInt::from(i16::MAX)));
    assert_eq!(hex_to_bytes("02ffff0000").unwrap(), pushed(BigInt::from(u16::MAX)));
    assert_eq!(hex_to_bytes("0200000080").unwrap(), pushed(BigInt::from(i32::MIN)));
    assert_eq!(hex_to_bytes("02ffffff7f").unwrap(), pushed(BigInt::from(i32::MAX)));
    assert_eq!(hex_to_bytes("03ffffffff00000000").unwrap(), pushed(BigInt::from(u32::MAX)));
    assert_eq!(hex_to_bytes("030000000000000080").unwrap(), pushed(BigInt::from(i64::MIN)));
    assert_eq!(hex_to_bytes("03ffffffffffffff7f").unwrap(), pushed(BigInt::from(i64::MAX)));
    assert_eq!(
        hex_to_bytes("04ffffffffffffffff0000000000000000").unwrap(),
        pushed(BigInt::from(u64::MAX))
    );
    assert_eq!(
        hex_to_bytes("050100000000000000feffffffffffffff00000000000000000000000000000000")
            .unwrap(),
        pushed(BigInt::from(u64::MAX) * BigInt::from(u64::MAX))
    );

    let large_num = BigInt::from_signed_bytes_le(
        &hex_to_bytes(
            "050100000000000000feffffffffffffff0100000000000000feffffffffffffff00000000000000000000000000000000",
        )
        .unwrap()[..],
    );
    let err = ScriptBuilder::new().emit_int(big(large_num)).unwrap_err();
    assert_eq!(err, "Only 32 bytes of BigInt allowed");
}

#[test]
fn test_emit_push_bool() {
    assert_eq!(
        ScriptBuilder::new().emit_bool(true).to_owned().to_bytes(),
        vec![OpCode::PUSHT.to_u8()]
    );
    assert_eq!(
        ScriptBuilder::new().emit_bool(false).to_owned().to_bytes(),
        vec![OpCode::PUSHF.to_u8()]
    );
}

#[test]
fn test_emit_push_bytes() {
    let data = vec![0x01, 0x02];
    let len = data.len().try_into().unwrap();
    assert_eq!(
        ScriptBuilder::new().emit_bytes(data).to_owned().to_bytes(),
        vec![OpCode::PUSHDATA1.to_u8(), len, 0x01, 0x02]
    );
}

#[test]
fn emit_jump_picks_the_short_or_the_long_form() {
    let short = ScriptBuilder::new().emit_jump(OpCode::JMP, 5).unwrap().to_owned().to_bytes();
    assert_eq!(short, vec![0x22, 5]);
    let negative = ScriptBuilder::new().emit_jump(OpCode::JMPIF, -2).unwrap().to_owned().to_bytes();
    assert_eq!(negative, vec![0x24, 0xFE]);
    let widened = ScriptBuilder::new().emit_jump(OpCode::JMPEQ, 300).unwrap().to_owned().to_bytes();
    assert_eq!(widened, vec![0x29, 0x2C, 0x01, 0, 0]);
    let long = ScriptBuilder::new().emit_jump(OpCode::JMPLE_L, -1).unwrap().to_owned().to_bytes();
    assert_eq!(long, vec![0x33, 0xFF, 0xFF, 0xFF, 0xFF]);
}

#[test]
fn emit_jump_refuses_a_code_that_is_no_jump() {
    let mut builder = ScriptBuilder::new();
    assert_eq!(builder.emit_jump(OpCode::NOP, 1).unwrap_err(), "Invalid OpCode 33");
    assert_eq!(builder.emit_jump(OpCode::CALL, 1).unwrap_err(), "Invalid OpCode 52");
    assert_eq!(builder.emit_jump(OpCode::PUSHINT8, 1).unwrap_err(), "Invalid OpCode 0");
    assert_eq!(builder.emit_jump(OpCode::CONVERT, 1).unwrap_err(), "Invalid OpCode 219");
    assert_eq!(builder.len(), 0);
}

#[test]
fn emit_bytes_uses_the_smallest_prefix() {
    let medium = vec![7u8; 0x100];
    let out = ScriptBuilder::new().emit_bytes(medium).to_owned().to_bytes();
    assert_eq!(&out[..3], &[0x0D, 0x00, 0x01]);
    assert_eq!(out.len(), 3 + 0x100);
    let large = vec![7u8; 0x10000];
    let out = ScriptBuilder::new().emit_bytes(large).to_owned().to_bytes();
    assert_eq!(&out[..5], &[0x0E, 0x00, 0x00, 0x01, 0x00]);
    assert_eq!(out.len(), 5 + 0x10000);
}

#[test]
fn emit_string_and_raw() {
    let out = ScriptBuilder::new().emit_string("ab").to_owned().to_bytes();
    assert_eq!(out, vec![0x0C, 2, b'a', b'b']);
    let out = ScriptBuilder::new().emit_raw(vec![1, 2, 3]).to_owned().to_bytes();
    assert_eq!(out, vec![1, 2, 3]);
}
