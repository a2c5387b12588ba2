use vstd::prelude::*;

verus! {

/// One instruction code of the virtual machine. Every code is a single byte;
/// [`OpCode::code`] gives the byte and [`OpCode::from_u8`] reads it back.
#[allow(non_camel_case_types)]
#[derive(Debug, Clone, Copy, PartialEq, Eq, Hash, Structural)]
pub enum OpCode {
    PUSHINT8,
    PUSHINT16,
    PUSHINT32,
    PUSHINT64,
    PUSHINT128,
    PUSHINT256,
    PUSHT,
    PUSHF,
    PUSHA,
    PUSHNULL,
    PUSHDATA1,
    PUSHDATA2,
    PUSHDATA4,
    PUSHM1,
    PUSH0,
    PUSH1,
    PUSH2,
    PUSH3,
    PUSH4,
    PUSH5,
    PUSH6,
    PUSH7,
    PUSH8,
    PUSH9,
    PUSH10,
    PUSH11,
    PUSH12,
    PUSH13,
    PUSH14,
    PUSH15,
    PUSH16,
    NOP,
    JMP,
    JMP_L,
    JMPIF,
    JMPIF_L,
    JMPIFNOT,
    JMPIFNOT_L,
    JMPEQ,
    JMPEQ_L,
    JMPNE,
    JMPNE_L,
    JMPGT,
    JMPGT_L,
    JMPGE,
    JMPGE_L,
    JMPLT,
    JMPLT_L,
    JMPLE,
    JMPLE_L,
    CALL,
    CALL_L,
    CALLA,
    CALLT,
    ABORT,
    ASSERT,
    THROW,
    TRY,
    TRY_L,
    ENDTRY,
    ENDTRY_L,
    ENDFINALLY,
    RET,
    SYSCALL,
    DEPTH,
    DROP,
    NIP,
    XDROP,
    CLEAR,
    DUP,
    OVER,
    PICK,
    TUCK,
    SWAP,
    ROT,
    ROLL,
    REVERSE3,
    REVERSE4,
    REVERSEN,
    INITSSLOT,
    INITSLOT,
    LDSFLD0,
    LDSFLD1,
    LDSFLD2,
    LDSFLD3,
    LDSFLD4,
    LDSFLD5,
    LDSFLD6,
    LDSFLD,
    STSFLD0,
    STSFLD1,
    STSFLD2,
    STSFLD3,
    STSFLD4,
    STSFLD5,
    STSFLD6,
    STSFLD,
    LDLOC0,
    LDLOC1,
    LDLOC2,
    LDLOC3,
    LDLOC4,
    LDLOC5,
    LDLOC6,
    LDLOC,
    STLOC0,
    STLOC1,
    STLOC2,
    STLOC3,
    STLOC4,
    STLOC5,
    STLOC6,
    STLOC,
    LDARG0,
    LDARG1,
    LDARG2,
    LDARG3,
    LDARG4,
    LDARG5,
    LDARG6,
    LDARG,
    STARG0,
    STARG1,
    STARG2,
    STARG3,
    STARG4,
    STARG5,
    STARG6,
    STARG,
    NEWBUFFER,
    MEMCPY,
    CAT,
    SUBSTR,
    LEFT,
    RIGHT,
    INVERT,
    AND,
    OR,
    XOR,
    EQUAL,
    NOTEQUAL,
    SIGN,
    ABS,
    NEGATE,
    INC,
    DEC,
    ADD,
    SUB,
    MUL,
    DIV,
    MOD,
    POW,
    SQRT,
    MODMUL,
    MODPOW,
    SHL,
    SHR,
    NOT,
    BOOLAND,
    BOOLOR,
    NZ,
    NUMEQUAL,
    NUMNOTEQUAL,
    LT,
    LE,
    GT,
    GE,
    MIN,
    MAX,
    WITHIN,
    PACKMAP,
    PACKSTRUCT,
    PACK,
    UNPACK,
    NEWARRAY0,
    NEWARRAY,
    NEWARRAY_T,
    NEWSTRUCT0,
    NEWSTRUCT,
    NEWMAP,
    SIZE,
    HASKEY,
    KEYS,
    VALUES,
    PICKITEM,
    APPEND,
    SETITEM,
    REVERSEITEMS,
    REMOVE,
    CLEARITEMS,
    POPITEM,
    ISNULL,
    ISTYPE,
    CONVERT,
    ABORTMSG,
    ASSERTMSG,
}

impl OpCode {
    /// The byte that encodes this instruction code.
    pub open spec fn code(self) -> u8 {
        match self {
            OpCode::PUSHINT8 => 0x00u8,
            OpCode::PUSHINT16 => 0x01u8,
            OpCode::PUSHINT32 => 0x02u8,
            OpCode::PUSHINT64 => 0x03u8,
            OpCode::PUSHINT128 => 0x04u8,
            OpCode::PUSHINT256 => 0x05u8,
            OpCode::PUSHT => 0x08u8,
            OpCode::PUSHF => 0x09u8,
            OpCode::PUSHA => 0x0Au8,
            OpCode::PUSHNULL => 0x0Bu8,
            OpCode::PUSHDATA1 => 0x0Cu8,
            OpCode::PUSHDATA2 => 0x0Du8,
            OpCode::PUSHDATA4 => 0x0Eu8,
            OpCode::PUSHM1 => 0x0Fu8,
            OpCode::PUSH0 => 0x10u8,
            OpCode::PUSH1 => 0x11u8,
            OpCode::PUSH2 => 0x12u8,
            OpCode::PUSH3 => 0x13u8,
            OpCode::PUSH4 => 0x14u8,
            OpCode::PUSH5 => 0x15u8,
            OpCode::PUSH6 => 0x16u8,
            OpCode::PUSH7 => 0x17u8,
            OpCode::PUSH8 => 0x18u8,
            OpCode::PUSH9 => 0x19u8,
            OpCode::PUSH10 => 0x1Au8,
            OpCode::PUSH11 => 0x1Bu8,
            OpCode::PUSH12 => 0x1Cu8,
            OpCode::PUSH13 => 0x1Du8,
            OpCode::PUSH14 => 0x1Eu8,
            OpCode::PUSH15 => 0x1Fu8,
            OpCode::PUSH16 => 0x20u8,
            OpCode::NOP => 0x21u8,
            OpCode::JMP => 0x22u8,
            OpCode::JMP_L => 0x23u8,
            OpCode::JMPIF => 0x24u8,
            OpCode::JMPIF_L => 0x25u8,
            OpCode::JMPIFNOT => 0x26u8,
            OpCode::JMPIFNOT_L => 0x27u8,
            OpCode::JMPEQ => 0x28u8,
            OpCode::JMPEQ_L => 0x29u8,
            OpCode::JMPNE => 0x2Au8,
            OpCode::JMPNE_L => 0x2Bu8,
            OpCode::JMPGT => 0x2Cu8,
            OpCode::JMPGT_L => 0x2Du8,
            OpCode::JMPGE => 0x2Eu8,
            OpCode::JMPGE_L => 0x2Fu8,
            OpCode::JMPLT => 0x30u8,
            OpCode::JMPLT_L => 0x31u8,
            OpCode::JMPLE => 0x32u8,
            OpCode::JMPLE_L => 0x33u8,
            OpCode::CALL => 0x34u8,
            OpCode::CALL_L => 0x35u8,
            OpCode::CALLA => 0x36u8,
            OpCode::CALLT => 0x37u8,
            OpCode::ABORT => 0x38u8,
            OpCode::ASSERT => 0x39u8,
            OpCode::THROW => 0x3Au8,
            OpCode::TRY => 0x3Bu8,
            OpCode::TRY_L => 0x3Cu8,
            OpCode::ENDTRY => 0x3Du8,
            OpCode::ENDTRY_L => 0x3Eu8,
            OpCode::ENDFINALLY => 0x3Fu8,
            OpCode::RET => 0x40u8,
            OpCode::SYSCALL => 0x41u8,
            OpCode::DEPTH => 0x43u8,
            OpCode::DROP => 0x45u8,
            OpCode::NIP => 0x46u8,
            OpCode::XDROP => 0x48u8,
            OpCode::CLEAR => 0x49u8,
            OpCode::DUP => 0x4Au8,
            OpCode::OVER => 0x4Bu8,
            OpCode::PICK => 0x4Du8,
            OpCode::TUCK => 0x4Eu8,
            OpCode::SWAP => 0x50u8,
            OpCode::ROT => 0x51u8,
            OpCode::ROLL => 0x52u8,
            OpCode::REVERSE3 => 0x53u8,
            OpCode::REVERSE4 => 0x54u8,
            OpCode::REVERSEN => 0x55u8,
            OpCode::INITSSLOT => 0x56u8,
            OpCode::INITSLOT => 0x57u8,
            OpCode::LDSFLD0 => 0x58u8,
            OpCode::LDSFLD1 => 0x59u8,
            OpCode::LDSFLD2 => 0x5Au8,
            OpCode::LDSFLD3 => 0x5Bu8,
            OpCode::LDSFLD4 => 0x5Cu8,
            OpCode::LDSFLD5 => 0x5Du8,
            OpCode::LDSFLD6 => 0x5Eu8,
            OpCode::LDSFLD => 0x5Fu8,
            OpCode::STSFLD0 => 0x60u8,
            OpCode::STSFLD1 => 0x61u8,
            OpCode::STSFLD2 => 0x62u8,
            OpCode::STSFLD3 => 0x63u8,
            OpCode::STSFLD4 => 0x64u8,
            OpCode::STSFLD5 => 0x65u8,
            OpCode::STSFLD6 => 0x66u8,
            OpCode::STSFLD => 0x67u8,
            OpCode::LDLOC0 => 0x68u8,
            OpCode::LDLOC1 => 0x69u8,
            OpCode::LDLOC2 => 0x6Au8,
            OpCode::LDLOC3 => 0x6Bu8,
            OpCode::LDLOC4 => 0x6Cu8,
            OpCode::LDLOC5 => 0x6Du8,
            OpCode::LDLOC6 => 0x6Eu8,
            OpCode::LDLOC => 0x6Fu8,
            OpCode::STLOC0 => 0x70u8,
            OpCode::STLOC1 => 0x71u8,
            OpCode::STLOC2 => 0x72u8,
            OpCode::STLOC3 => 0x73u8,
            OpCode::STLOC4 => 0x74u8,
            OpCode::STLOC5 => 0x75u8,
            OpCode::STLOC6 => 0x76u8,
            OpCode::STLOC => 0x77u8,
            OpCode::LDARG0 => 0x78u8,
            OpCode::LDARG1 => 0x79u8,
            OpCode::LDARG2 => 0x7Au8,
            OpCode::LDARG3 => 0x7Bu8,
            OpCode::LDARG4 => 0x7Cu8,
            OpCode::LDARG5 => 0x7Du8,
            OpCode::LDARG6 => 0x7Eu8,
            OpCode::LDARG => 0x7Fu8,
            OpCode::STARG0 => 0x80u8,
            OpCode::STARG1 => 0x81u8,
            OpCode::STARG2 => 0x82u8,
            OpCode::STARG3 => 0x83u8,
            OpCode::STARG4 => 0x84u8,
            OpCode::STARG5 => 0x85u8,
            OpCode::STARG6 => 0x86u8,
            OpCode::STARG => 0x87u8,
            OpCode::NEWBUFFER => 0x88u8,
            OpCode::MEMCPY => 0x89u8,
            OpCode::CAT => 0x8Bu8,
            OpCode::SUBSTR => 0x8Cu8,
            OpCode::LEFT => 0x8Du8,
            OpCode::RIGHT => 0x8Eu8,
            OpCode::INVERT => 0x90u8,
            OpCode::AND => 0x91u8,
            OpCode::OR => 0x92u8,
            OpCode::XOR => 0x93u8,
            OpCode::EQUAL => 0x97u8,
            OpCode::NOTEQUAL => 0x98u8,
            OpCode::SIGN => 0x99u8,
            OpCode::ABS => 0x9Au8,
            OpCode::NEGATE => 0x9Bu8,
            OpCode::INC => 0x9Cu8,
            OpCode::DEC => 0x9Du8,
            OpCode::ADD => 0x9Eu8,
            OpCode::SUB => 0x9Fu8,
            OpCode::MUL => 0xA0u8,
            OpCode::DIV => 0xA1u8,
            OpCode::MOD => 0xA2u8,
            OpCode::POW => 0xA3u8,
            OpCode::SQRT => 0xA4u8,
            OpCode::MODMUL => 0xA5u8,
            OpCode::MODPOW => 0xA6u8,
            OpCode::SHL => 0xA8u8,
            OpCode::SHR => 0xA9u8,
            OpCode::NOT => 0xAAu8,
            OpCode::BOOLAND => 0xABu8,
            OpCode::BOOLOR => 0xACu8,
            OpCode::NZ => 0xB1u8,
            OpCode::NUMEQUAL => 0xB3u8,
            OpCode::NUMNOTEQUAL => 0xB4u8,
            OpCode::LT => 0xB5u8,
            OpCode::LE => 0xB6u8,
            OpCode::GT => 0xB7u8,
            OpCode::GE => 0xB8u8,
            OpCode::MIN => 0xB9u8,
            OpCode::MAX => 0xBAu8,
            OpCode::WITHIN => 0xBBu8,
            OpCode::PACKMAP => 0xBEu8,
            OpCode::PACKSTRUCT => 0xBFu8,
            OpCode::PACK => 0xC0u8,
            OpCode::UNPACK => 0xC1u8,
            OpCode::NEWARRAY0 => 0xC2u8,
            OpCode::NEWARRAY => 0xC3u8,
            OpCode::NEWARRAY_T => 0xC4u8,
            OpCode::NEWSTRUCT0 => 0xC5u8,
            OpCode::NEWSTRUCT => 0xC6u8,
            OpCode::NEWMAP => 0xC8u8,
            OpCode::SIZE => 0xCAu8,
            OpCode::HASKEY => 0xCBu8,
            OpCode::KEYS => 0xCCu8,
            OpCode::VALUES => 0xCDu8,
            OpCode::PICKITEM => 0xCEu8,
            OpCode::APPEND => 0xCFu8,
            OpCode::SETITEM => 0xD0u8,
            OpCode::REVERSEITEMS => 0xD1u8,
            OpCode::REMOVE => 0xD2u8,
            OpCode::CLEARITEMS => 0xD3u8,
            OpCode::POPITEM => 0xD4u8,
            OpCode::ISNULL => 0xD8u8,
            OpCode::ISTYPE => 0xD9u8,
            OpCode::CONVERT => 0xDBu8,
            OpCode::ABORTMSG => 0xE0u8,
            OpCode::ASSERTMSG => 0xE1u8,
        }
    }

    /// The instruction code that a byte encodes, if it encodes one.
    pub open spec fn spec_from_u8(value: u8) -> Option<OpCode> {
        match value {
            0x00u8 => Some(OpCode::PUSHINT8),
            0x01u8 => Some(OpCode::PUSHINT16),
            0x02u8 => Some(OpCode::PUSHINT32),
            0x03u8 => Some(OpCode::PUSHINT64),
            0x04u8 => Some(OpCode::PUSHINT128),
            0x05u8 => Some(OpCode::PUSHINT256),
            0x08u8 => Some(OpCode::PUSHT),
            0x09u8 => Some(OpCode::PUSHF),
            0x0Au8 => Some(OpCode::PUSHA),
            0x0Bu8 => Some(OpCode::PUSHNULL),
            0x0Cu8 => Some(OpCode::PUSHDATA1),
            0x0Du8 => Some(OpCode::PUSHDATA2),
            0x0Eu8 => Some(OpCode::PUSHDATA4),
            0x0Fu8 => Some(OpCode::PUSHM1),
            0x10u8 => Some(OpCode::PUSH0),
            0x11u8 => Some(OpCode::PUSH1),
            0x12u8 => Some(OpCode::PUSH2),
            0x13u8 => Some(OpCode::PUSH3),
            0x14u8 => Some(OpCode::PUSH4),
            0x15u8 => Some(OpCode::PUSH5),
            0x16u8 => Some(OpCode::PUSH6),
            0x17u8 => Some(OpCode::PUSH7),
            0x18u8 => Some(OpCode::PUSH8),
            0x19u8 => Some(OpCode::PUSH9),
            0x1Au8 => Some(OpCode::PUSH10),
            0x1Bu8 => Some(OpCode::PUSH11),
            0x1Cu8 => Some(OpCode::PUSH12),
            0x1Du8 => Some(OpCode::PUSH13),
            0x1Eu8 => Some(OpCode::PUSH14),
            0x1Fu8 => Some(OpCode::PUSH15),
            0x20u8 => Some(OpCode::PUSH16),
            0x21u8 => Some(OpCode::NOP),
            0x22u8 => Some(OpCode::JMP),
            0x23u8 => Some(OpCode::JMP_L),
            0x24u8 => Some(OpCode::JMPIF),
            0x25u8 => Some(OpCode::JMPIF_L),
            0x26u8 => Some(OpCode::JMPIFNOT),
            0x27u8 => Some(OpCode::JMPIFNOT_L),
            0x28u8 => Some(OpCode::JMPEQ),
            0x29u8 => Some(OpCode::JMPEQ_L),
            0x2Au8 => Some(OpCode::JMPNE),
            0x2Bu8 => Some(OpCode::JMPNE_L),
            0x2Cu8 => Some(OpCode::JMPGT),
            0x2Du8 => Some(OpCode::JMPGT_L),
            0x2Eu8 => Some(OpCode::JMPGE),
            0x2Fu8 => Some(OpCode::JMPGE_L),
            0x30u8 => Some(OpCode::JMPLT),
            0x31u8 => Some(OpCode::JMPLT_L),
            0x32u8 => Some(OpCode::JMPLE),
            0x33u8 => Some(OpCode::JMPLE_L),
            0x34u8 => Some(OpCode::CALL),
            0x35u8 => Some(OpCode::CALL_L),
            0x36u8 => Some(OpCode::CALLA),
            0x37u8 => Some(OpCode::CALLT),
            0x38u8 => Some(OpCode::ABORT),
            0x39u8 => Some(OpCode::ASSERT),
            0x3Au8 => Some(OpCode::THROW),
            0x3Bu8 => Some(OpCode::TRY),
            0x3Cu8 => Some(OpCode::TRY_L),
            0x3Du8 => Some(OpCode::ENDTRY),
            0x3Eu8 => Some(OpCode::ENDTRY_L),
            0x3Fu8 => Some(OpCode::ENDFINALLY),
            0x40u8 => Some(OpCode::RET),
            0x41u8 => Some(OpCode::SYSCALL),
            0x43u8 => Some(OpCode::DEPTH),
            0x45u8 => Some(OpCode::DROP),
            0x46u8 => Some(OpCode::NIP),
            0x48u8 => Some(OpCode::XDROP),
            0x49u8 => Some(OpCode::CLEAR),
            0x4Au8 => Some(OpCode::DUP),
            0x4Bu8 => Some(OpCode::OVER),
            0x4Du8 => Some(OpCode::PICK),
            0x4Eu8 => Some(OpCode::TUCK),
            0x50u8 => Some(OpCode::SWAP),
            0x51u8 => Some(OpCode::ROT),
            0x52u8 => Some(OpCode::ROLL),
            0x53u8 => Some(OpCode::REVERSE3),
            0x54u8 => Some(OpCode::REVERSE4),
            0x55u8 => Some(OpCode::REVERSEN),
            0x56u8 => Some(OpCode::INITSSLOT),
            0x57u8 => Some(OpCode::INITSLOT),
            0x58u8 => Some(OpCode::LDSFLD0),
            0x59u8 => Some(OpCode::LDSFLD1),
            0x5Au8 => Some(OpCode::LDSFLD2),
            0x5Bu8 => Some(OpCode::LDSFLD3),
            0x5Cu8 => Some(OpCode::LDSFLD4),
            0x5Du8 => Some(OpCode::LDSFLD5),
            0x5Eu8 => Some(OpCode::LDSFLD6),
            0x5Fu8 => Some(OpCode::LDSFLD),
            0x60u8 => Some(OpCode::STSFLD0),
            0x61u8 => Some(OpCode::STSFLD1),
            0x62u8 => Some(OpCode::STSFLD2),
            0x63u8 => Some(OpCode::STSFLD3),
            0x64u8 => Some(OpCode::STSFLD4),
            0x65u8 => Some(OpCode::STSFLD5),
            0x66u8 => Some(OpCode::STSFLD6),
            0x67u8 => Some(OpCode::STSFLD),
            0x68u8 => Some(OpCode::LDLOC0),
            0x69u8 => Some(OpCode::LDLOC1),
            0x6Au8 => Some(OpCode::LDLOC2),
            0x6Bu8 => Some(OpCode::LDLOC3),
            0x6Cu8 => Some(OpCode::LDLOC4),
            0x6Du8 => Some(OpCode::LDLOC5),
            0x6Eu8 => Some(OpCode::LDLOC6),
            0x6Fu8 => Some(OpCode::LDLOC),
            0x70u8 => Some(OpCode::STLOC0),
            0x71u8 => Some(OpCode::STLOC1),
            0x72u8 => Some(OpCode::STLOC2),
            0x73u8 => Some(OpCode::STLOC3),
            0x74u8 => Some(OpCode::STLOC4),
            0x75u8 => Some(OpCode::STLOC5),
            0x76u8 => Some(OpCode::STLOC6),
            0x77u8 => Some(OpCode::STLOC),
            0x78u8 => Some(OpCode::LDARG0),
            0x79u8 => Some(OpCode::LDARG1),
            0x7Au8 => Some(OpCode::LDARG2),
            0x7Bu8 => Some(OpCode::LDARG3),
            0x7Cu8 => Some(OpCode::LDARG4),
            0x7Du8 => Some(OpCode::LDARG5),
            0x7Eu8 => Some(OpCode::LDARG6),
            0x7Fu8 => Some(OpCode::LDARG),
            0x80u8 => Some(OpCode::STARG0),
            0x81u8 => Some(OpCode::STARG1),
            0x82u8 => Some(OpCode::STARG2),
            0x83u8 => Some(OpCode::STARG3),
            0x84u8 => Some(OpCode::STARG4),
            0x85u8 => Some(OpCode::STARG5),
            0x86u8 => Some(OpCode::STARG6),
            0x87u8 => Some(OpCode::STARG),
            0x88u8 => Some(OpCode::NEWBUFFER),
            0x89u8 => Some(OpCode::MEMCPY),
            0x8Bu8 => Some(OpCode::CAT),
            0x8Cu8 => Some(OpCode::SUBSTR),
            0x8Du8 => Some(OpCode::LEFT),
            0x8Eu8 => Some(OpCode::RIGHT),
            0x90u8 => Some(OpCode::INVERT),
            0x91u8 => Some(OpCode::AND),
            0x92u8 => Some(OpCode::OR),
            0x93u8 => Some(OpCode::XOR),
            0x97u8 => Some(OpCode::EQUAL),
            0x98u8 => Some(OpCode::NOTEQUAL),
            0x99u8 => Some(OpCode::SIGN),
            0x9Au8 => Some(OpCode::ABS),
            0x9Bu8 => Some(OpCode::NEGATE),
            0x9Cu8 => Some(OpCode::INC),
            0x9Du8 => Some(OpCode::DEC),
            0x9Eu8 => Some(OpCode::ADD),
            0x9Fu8 => Some(OpCode::SUB),
            0xA0u8 => Some(OpCode::MUL),
            0xA1u8 => Some(OpCode::DIV),
            0xA2u8 => Some(OpCode::MOD),
            0xA3u8 => Some(OpCode::POW),
            0xA4u8 => Some(OpCode::SQRT),
            0xA5u8 => Some(OpCode::MODMUL),
            0xA6u8 => Some(OpCode::MODPOW),
            0xA8u8 => Some(OpCode::SHL),
            0xA9u8 => Some(OpCode::SHR),
            0xAAu8 => Some(OpCode::NOT),
            0xABu8 => Some(OpCode::BOOLAND),
            0xACu8 => Some(OpCode::BOOLOR),
            0xB1u8 => Some(OpCode::NZ),
            0xB3u8 => Some(OpCode::NUMEQUAL),
            0xB4u8 => Some(OpCode::NUMNOTEQUAL),
            0xB5u8 => Some(OpCode::LT),
            0xB6u8 => Some(OpCode::LE),
            0xB7u8 => Some(OpCode::GT),
            0xB8u8 => Some(OpCode::GE),
            0xB9u8 => Some(OpCode::MIN),
            0xBAu8 => Some(OpCode::MAX),
            0xBBu8 => Some(OpCode::WITHIN),
            0xBEu8 => Some(OpCode::PACKMAP),
            0xBFu8 => Some(OpCode::PACKSTRUCT),
            0xC0u8 => Some(OpCode::PACK),
            0xC1u8 => Some(OpCode::UNPACK),
            0xC2u8 => Some(OpCode::NEWARRAY0),
            0xC3u8 => Some(OpCode::NEWARRAY),
            0xC4u8 => Some(OpCode::NEWARRAY_T),
            0xC5u8 => Some(OpCode::NEWSTRUCT0),
            0xC6u8 => Some(OpCode::NEWSTRUCT),
            0xC8u8 => Some(OpCode::NEWMAP),
            0xCAu8 => Some(OpCode::SIZE),
            0xCBu8 => Some(OpCode::HASKEY),
            0xCCu8 => Some(OpCode::KEYS),
            0xCDu8 => Some(OpCode::VALUES),
            0xCEu8 => Some(OpCode::PICKITEM),
            0xCFu8 => Some(OpCode::APPEND),
            0xD0u8 => Some(OpCode::SETITEM),
            0xD1u8 => Some(OpCode::REVERSEITEMS),
            0xD2u8 => Some(OpCode::REMOVE),
            0xD3u8 => Some(OpCode::CLEARITEMS),
            0xD4u8 => Some(OpCode::POPITEM),
            0xD8u8 => Some(OpCode::ISNULL),
            0xD9u8 => Some(OpCode::ISTYPE),
            0xDBu8 => Some(OpCode::CONVERT),
            0xE0u8 => Some(OpCode::ABORTMSG),
            0xE1u8 => Some(OpCode::ASSERTMSG),
            _ => None,
        }
    }

    pub fn to_u8(self) -> (r: u8)
        ensures
            r == self.code(),
    {
        match self {
            OpCode::PUSHINT8 => 0x00u8,
            OpCode::PUSHINT16 => 0x01u8,
            OpCode::PUSHINT32 => 0x02u8,
            OpCode::PUSHINT64 => 0x03u8,
            OpCode::PUSHINT128 => 0x04u8,
            OpCode::PUSHINT256 => 0x05u8,
            OpCode::PUSHT => 0x08u8,
            OpCode::PUSHF => 0x09u8,
            OpCode::PUSHA => 0x0Au8,
            OpCode::PUSHNULL => 0x0Bu8,
            OpCode::PUSHDATA1 => 0x0Cu8,
            OpCode::PUSHDATA2 => 0x0Du8,
            OpCode::PUSHDATA4 => 0x0Eu8,
            OpCode::PUSHM1 => 0x0Fu8,
            OpCode::PUSH0 => 0x10u8,
            OpCode::PUSH1 => 0x11u8,
            OpCode::PUSH2 => 0x12u8,
            OpCode::PUSH3 => 0x13u8,
            OpCode::PUSH4 => 0x14u8,
            OpCode::PUSH5 => 0x15u8,
            OpCode::PUSH6 => 0x16u8,
            OpCode::PUSH7 => 0x17u8,
            OpCode::PUSH8 => 0x18u8,
            OpCode::PUSH9 => 0x19u8,
            OpCode::PUSH10 => 0x1Au8,
            OpCode::PUSH11 => 0x1Bu8,
            OpCode::PUSH12 => 0x1Cu8,
            OpCode::PUSH13 => 0x1Du8,
            OpCode::PUSH14 => 0x1Eu8,
            OpCode::PUSH15 => 0x1Fu8,
            OpCode::PUSH16 => 0x20u8,
            OpCode::NOP => 0x21u8,
            OpCode::JMP => 0x22u8,
            OpCode::JMP_L => 0x23u8,
            OpCode::JMPIF => 0x24u8,
            OpCode::JMPIF_L => 0x25u8,
            OpCode::JMPIFNOT => 0x26u8,
            OpCode::JMPIFNOT_L => 0x27u8,
            OpCode::JMPEQ => 0x28u8,
            OpCode::JMPEQ_L => 0x29u8,
            OpCode::JMPNE => 0x2Au8,
            OpCode::JMPNE_L => 0x2Bu8,
            OpCode::JMPGT => 0x2Cu8,
            OpCode::JMPGT_L => 0x2Du8,
            OpCode::JMPGE => 0x2Eu8,
            OpCode::JMPGE_L => 0x2Fu8,
            OpCode::JMPLT => 0x30u8,
            OpCode::JMPLT_L => 0x31u8,
            OpCode::JMPLE => 0x32u8,
            OpCode::JMPLE_L => 0x33u8,
            OpCode::CALL => 0x34u8,
            OpCode::CALL_L => 0x35u8,
            OpCode::CALLA => 0x36u8,
            OpCode::CALLT => 0x37u8,
            OpCode::ABORT => 0x38u8,
            OpCode::ASSERT => 0x39u8,
            OpCode::THROW => 0x3Au8,
            OpCode::TRY => 0x3Bu8,
            OpCode::TRY_L => 0x3Cu8,
            OpCode::ENDTRY => 0x3Du8,
            OpCode::ENDTRY_L => 0x3Eu8,
            OpCode::ENDFINALLY => 0x3Fu8,
            OpCode::RET => 0x40u8,
            OpCode::SYSCALL => 0x41u8,
            OpCode::DEPTH => 0x43u8,
            OpCode::DROP => 0x45u8,
            OpCode::NIP => 0x46u8,
            OpCode::XDROP => 0x48u8,
            OpCode::CLEAR => 0x49u8,
            OpCode::DUP => 0x4Au8,
            OpCode::OVER => 0x4Bu8,
            OpCode::PICK => 0x4Du8,
            OpCode::TUCK => 0x4Eu8,
            OpCode::SWAP => 0x50u8,
            OpCode::ROT => 0x51u8,
            OpCode::ROLL => 0x52u8,
            OpCode::REVERSE3 => 0x53u8,
            OpCode::REVERSE4 => 0x54u8,
            OpCode::REVERSEN => 0x55u8,
            OpCode::INITSSLOT => 0x56u8,
            OpCode::INITSLOT => 0x57u8,
            OpCode::LDSFLD0 => 0x58u8,
            OpCode::LDSFLD1 => 0x59u8,
            OpCode::LDSFLD2 => 0x5Au8,
            OpCode::LDSFLD3 => 0x5Bu8,
            OpCode::LDSFLD4 => 0x5Cu8,
            OpCode::LDSFLD5 => 0x5Du8,
            OpCode::LDSFLD6 => 0x5Eu8,
            OpCode::LDSFLD => 0x5Fu8,
            OpCode::STSFLD0 => 0x60u8,
            OpCode::STSFLD1 => 0x61u8,
            OpCode::STSFLD2 => 0x62u8,
            OpCode::STSFLD3 => 0x63u8,
            OpCode::STSFLD4 => 0x64u8,
            OpCode::STSFLD5 => 0x65u8,
            OpCode::STSFLD6 => 0x66u8,
            OpCode::STSFLD => 0x67u8,
            OpCode::LDLOC0 => 0x68u8,
            OpCode::LDLOC1 => 0x69u8,
            OpCode::LDLOC2 => 0x6Au8,
            OpCode::LDLOC3 => 0x6Bu8,
            OpCode::LDLOC4 => 0x6Cu8,
            OpCode::LDLOC5 => 0x6Du8,
            OpCode::LDLOC6 => 0x6Eu8,
            OpCode::LDLOC => 0x6Fu8,
            OpCode::STLOC0 => 0x70u8,
            OpCode::STLOC1 => 0x71u8,
            OpCode::STLOC2 => 0x72u8,
            OpCode::STLOC3 => 0x73u8,
            OpCode::STLOC4 => 0x74u8,
            OpCode::STLOC5 => 0x75u8,
            OpCode::STLOC6 => 0x76u8,
            OpCode::STLOC => 0x77u8,
            OpCode::LDARG0 => 0x78u8,
            OpCode::LDARG1 => 0x79u8,
            OpCode::LDARG2 => 0x7Au8,
            OpCode::LDARG3 => 0x7Bu8,
            OpCode::LDARG4 => 0x7Cu8,
            OpCode::LDARG5 => 0x7Du8,
            OpCode::LDARG6 => 0x7Eu8,
            OpCode::LDARG => 0x7Fu8,
            OpCode::STARG0 => 0x80u8,
            OpCode::STARG1 => 0x81u8,
            OpCode::STARG2 => 0x82u8,
            OpCode::STARG3 => 0x83u8,
            OpCode::STARG4 => 0x84u8,
            OpCode::STARG5 => 0x85u8,
            OpCode::STARG6 => 0x86u8,
            OpCode::STARG => 0x87u8,
            OpCode::NEWBUFFER => 0x88u8,
            OpCode::MEMCPY => 0x89u8,
            OpCode::CAT => 0x8Bu8,
            OpCode::SUBSTR => 0x8Cu8,
            OpCode::LEFT => 0x8Du8,
            OpCode::RIGHT => 0x8Eu8,
            OpCode::INVERT => 0x90u8,
            OpCode::AND => 0x91u8,
            OpCode::OR => 0x92u8,
            OpCode::XOR => 0x93u8,
            OpCode::EQUAL => 0x97u8,
            OpCode::NOTEQUAL => 0x98u8,
            OpCode::SIGN => 0x99u8,
            OpCode::ABS => 0x9Au8,
            OpCode::NEGATE => 0x9Bu8,
            OpCode::INC => 0x9Cu8,
            OpCode::DEC => 0x9Du8,
            OpCode::ADD => 0x9Eu8,
            OpCode::SUB => 0x9Fu8,
            OpCode::MUL => 0xA0u8,
            OpCode::DIV => 0xA1u8,
            OpCode::MOD => 0xA2u8,
            OpCode::POW => 0xA3u8,
            OpCode::SQRT => 0xA4u8,
            OpCode::MODMUL => 0xA5u8,
            OpCode::MODPOW => 0xA6u8,
            OpCode::SHL => 0xA8u8,
            OpCode::SHR => 0xA9u8,
            OpCode::NOT => 0xAAu8,
            OpCode::BOOLAND => 0xABu8,
            OpCode::BOOLOR => 0xACu8,
            OpCode::NZ => 0xB1u8,
            OpCode::NUMEQUAL => 0xB3u8,
            OpCode::NUMNOTEQUAL => 0xB4u8,
            OpCode::LT => 0xB5u8,
            OpCode::LE => 0xB6u8,
            OpCode::GT => 0xB7u8,
            OpCode::GE => 0xB8u8,
            OpCode::MIN => 0xB9u8,
            OpCode::MAX => 0xBAu8,
            OpCode::WITHIN => 0xBBu8,
            OpCode::PACKMAP => 0xBEu8,
            OpCode::PACKSTRUCT => 0xBFu8,
            OpCode::PACK => 0xC0u8,
            OpCode::UNPACK => 0xC1u8,
            OpCode::NEWARRAY0 => 0xC2u8,
            OpCode::NEWARRAY => 0xC3u8,
            OpCode::NEWARRAY_T => 0xC4u8,
            OpCode::NEWSTRUCT0 => 0xC5u8,
            OpCode::NEWSTRUCT => 0xC6u8,
            OpCode::NEWMAP => 0xC8u8,
            OpCode::SIZE => 0xCAu8,
            OpCode::HASKEY => 0xCBu8,
            OpCode::KEYS => 0xCCu8,
            OpCode::VALUES => 0xCDu8,
            OpCode::PICKITEM => 0xCEu8,
            OpCode::APPEND => 0xCFu8,
            OpCode::SETITEM => 0xD0u8,
            OpCode::REVERSEITEMS => 0xD1u8,
            OpCode::REMOVE => 0xD2u8,
            OpCode::CLEARITEMS => 0xD3u8,
            OpCode::POPITEM => 0xD4u8,
            OpCode::ISNULL => 0xD8u8,
            OpCode::ISTYPE => 0xD9u8,
            OpCode::CONVERT => 0xDBu8,
            OpCode::ABORTMSG => 0xE0u8,
            OpCode::ASSERTMSG => 0xE1u8,
        }
    }

    pub fn from_u8(value: u8) -> (r: Option<OpCode>)
        ensures
            r == OpCode::spec_from_u8(value),
    {
        match value {
            0x00u8 => Some(OpCode::PUSHINT8),
            0x01u8 => Some(OpCode::PUSHINT16),
            0x02u8 => Some(OpCode::PUSHINT32),
            0x03u8 => Some(OpCode::PUSHINT64),
            0x04u8 => Some(OpCode::PUSHINT128),
            0x05u8 => Some(OpCode::PUSHINT256),
            0x08u8 => Some(OpCode::PUSHT),
            0x09u8 => Some(OpCode::PUSHF),
            0x0Au8 => Some(OpCode::PUSHA),
            0x0Bu8 => Some(OpCode::PUSHNULL),
            0x0Cu8 => Some(OpCode::PUSHDATA1),
            0x0Du8 => Some(OpCode::PUSHDATA2),
            0x0Eu8 => Some(OpCode::PUSHDATA4),
            0x0Fu8 => Some(OpCode::PUSHM1),
            0x10u8 => Some(OpCode::PUSH0),
            0x11u8 => Some(OpCode::PUSH1),
            0x12u8 => Some(OpCode::PUSH2),
            0x13u8 => Some(OpCode::PUSH3),
            0x14u8 => Some(OpCode::PUSH4),
            0x15u8 => Some(OpCode::PUSH5),
            0x16u8 => Some(OpCode::PUSH6),
            0x17u8 => Some(OpCode::PUSH7),
            0x18u8 => Some(OpCode::PUSH8),
            0x19u8 => Some(OpCode::PUSH9),
            0x1Au8 => Some(OpCode::PUSH10),
            0x1Bu8 => Some(OpCode::PUSH11),
            0x1Cu8 => Some(OpCode::PUSH12),
            0x1Du8 => Some(OpCode::PUSH13),
            0x1Eu8 => Some(OpCode::PUSH14),
            0x1Fu8 => Some(OpCode::PUSH15),
            0x20u8 => Some(OpCode::PUSH16),
            0x21u8 => Some(OpCode::NOP),
            0x22u8 => Some(OpCode::JMP),
            0x23u8 => Some(OpCode::JMP_L),
            0x24u8 => Some(OpCode::JMPIF),
            0x25u8 => Some(OpCode::JMPIF_L),
            0x26u8 => Some(OpCode::JMPIFNOT),
            0x27u8 => Some(OpCode::JMPIFNOT_L),
            0x28u8 => Some(OpCode::JMPEQ),
            0x29u8 => Some(OpCode::JMPEQ_L),
            0x2Au8 => Some(OpCode::JMPNE),
            0x2Bu8 => Some(OpCode::JMPNE_L),
            0x2Cu8 => Some(OpCode::JMPGT),
            0x2Du8 => Some(OpCode::JMPGT_L),
            0x2Eu8 => Some(OpCode::JMPGE),
            0x2Fu8 => Some(OpCode::JMPGE_L),
            0x30u8 => Some(OpCode::JMPLT),
            0x31u8 => Some(OpCode::JMPLT_L),
            0x32u8 => Some(OpCode::JMPLE),
            0x33u8 => Some(OpCode::JMPLE_L),
            0x34u8 => Some(OpCode::CALL),
            0x35u8 => Some(OpCode::CALL_L),
            0x36u8 => Some(OpCode::CALLA),
            0x37u8 => Some(OpCode::CALLT),
            0x38u8 => Some(OpCode::ABORT),
            0x39u8 => Some(OpCode::ASSERT),
            0x3Au8 => Some(OpCode::THROW),
            0x3Bu8 => Some(OpCode::TRY),
            0x3Cu8 => Some(OpCode::TRY_L),
            0x3Du8 => Some(OpCode::ENDTRY),
            0x3Eu8 => Some(OpCode::ENDTRY_L),
            0x3Fu8 => Some(OpCode::ENDFINALLY),
            0x40u8 => Some(OpCode::RET),
            0x41u8 => Some(OpCode::SYSCALL),
            0x43u8 => Some(OpCode::DEPTH),
            0x45u8 => Some(OpCode::DROP),
            0x46u8 => Some(OpCode::NIP),
            0x48u8 => Some(OpCode::XDROP),
            0x49u8 => Some(OpCode::CLEAR),
            0x4Au8 => Some(OpCode::DUP),
            0x4Bu8 => Some(OpCode::OVER),
            0x4Du8 => Some(OpCode::PICK),
            0x4Eu8 => Some(OpCode::TUCK),
            0x50u8 => Some(OpCode::SWAP),
            0x51u8 => Some(OpCode::ROT),
            0x52u8 => Some(OpCode::ROLL),
            0x53u8 => Some(OpCode::REVERSE3),
            0x54u8 => Some(OpCode::REVERSE4),
            0x55u8 => Some(OpCode::REVERSEN),
            0x56u8 => Some(OpCode::INITSSLOT),
            0x57u8 => Some(OpCode::INITSLOT),
            0x58u8 => Some(OpCode::LDSFLD0),
            0x59u8 => Some(OpCode::LDSFLD1),
            0x5Au8 => Some(OpCode::LDSFLD2),
            0x5Bu8 => Some(OpCode::LDSFLD3),
            0x5Cu8 => Some(OpCode::LDSFLD4),
            0x5Du8 => Some(OpCode::LDSFLD5),
            0x5Eu8 => Some(OpCode::LDSFLD6),
            0x5Fu8 => Some(OpCode::LDSFLD),
            0x60u8 => Some(OpCode::STSFLD0),
            0x61u8 => Some(OpCode::STSFLD1),
            0x62u8 => Some(OpCode::STSFLD2),
            0x63u8 => Some(OpCode::STSFLD3),
            0x64u8 => Some(OpCode::STSFLD4),
            0x65u8 => Some(OpCode::STSFLD5),
            0x66u8 => Some(OpCode::STSFLD6),
            0x67u8 => Some(OpCode::STSFLD),
            0x68u8 => Some(OpCode::LDLOC0),
            0x69u8 => Some(OpCode::LDLOC1),
            0x6Au8 => Some(OpCode::LDLOC2),
            0x6Bu8 => Some(OpCode::LDLOC3),
            0x6Cu8 => Some(OpCode::LDLOC4),
            0x6Du8 => Some(OpCode::LDLOC5),
            0x6Eu8 => Some(OpCode::LDLOC6),
            0x6Fu8 => Some(OpCode::LDLOC),
            0x70u8 => Some(OpCode::STLOC0),
            0x71u8 => Some(OpCode::STLOC1),
            0x72u8 => Some(OpCode::STLOC2),
            0x73u8 => Some(OpCode::STLOC3),
            0x74u8 => Some(OpCode::STLOC4),
            0x75u8 => Some(OpCode::STLOC5),
            0x76u8 => Some(OpCode::STLOC6),
            0x77u8 => Some(OpCode::STLOC),
            0x78u8 => Some(OpCode::LDARG0),
            0x79u8 => Some(OpCode::LDARG1),
            0x7Au8 => Some(OpCode::LDARG2),
            0x7Bu8 => Some(OpCode::LDARG3),
            0x7Cu8 => Some(OpCode::LDARG4),
            0x7Du8 => Some(OpCode::LDARG5),
            0x7Eu8 => Some(OpCode::LDARG6),
            0x7Fu8 => Some(OpCode::LDARG),
            0x80u8 => Some(OpCode::STARG0),
            0x81u8 => Some(OpCode::STARG1),
            0x82u8 => Some(OpCode::STARG2),
            0x83u8 => Some(OpCode::STARG3),
            0x84u8 => Some(OpCode::STARG4),
            0x85u8 => Some(OpCode::STARG5),
            0x86u8 => Some(OpCode::STARG6),
            0x87u8 => Some(OpCode::STARG),
            0x88u8 => Some(OpCode::NEWBUFFER),
            0x89u8 => Some(OpCode::MEMCPY),
            0x8Bu8 => Some(OpCode::CAT),
            0x8Cu8 => Some(OpCode::SUBSTR),
            0x8Du8 => Some(OpCode::LEFT),
            0x8Eu8 => Some(OpCode::RIGHT),
            0x90u8 => Some(OpCode::INVERT),
            0x91u8 => Some(OpCode::AND),
            0x92u8 => Some(OpCode::OR),
            0x93u8 => Some(OpCode::XOR),
            0x97u8 => Some(OpCode::EQUAL),
            0x98u8 => Some(OpCode::NOTEQUAL),
            0x99u8 => Some(OpCode::SIGN),
            0x9Au8 => Some(OpCode::ABS),
            0x9Bu8 => Some(OpCode::NEGATE),
            0x9Cu8 => Some(OpCode::INC),
            0x9Du8 => Some(OpCode::DEC),
            0x9Eu8 => Some(OpCode::ADD),
            0x9Fu8 => Some(OpCode::SUB),
            0xA0u8 => Some(OpCode::MUL),
            0xA1u8 => Some(OpCode::DIV),
            0xA2u8 => Some(OpCode::MOD),
            0xA3u8 => Some(OpCode::POW),
            0xA4u8 => Some(OpCode::SQRT),
            0xA5u8 => Some(OpCode::MODMUL),
            0xA6u8 => Some(OpCode::MODPOW),
            0xA8u8 => Some(OpCode::SHL),
            0xA9u8 => Some(OpCode::SHR),
            0xAAu8 => Some(OpCode::NOT),
            0xABu8 => Some(OpCode::BOOLAND),
            0xACu8 => Some(OpCode::BOOLOR),
            0xB1u8 => Some(OpCode::NZ),
            0xB3u8 => Some(OpCode::NUMEQUAL),
            0xB4u8 => Some(OpCode::NUMNOTEQUAL),
            0xB5u8 => Some(OpCode::LT),
            0xB6u8 => Some(OpCode::LE),
            0xB7u8 => Some(OpCode::GT),
            0xB8u8 => Some(OpCode::GE),
            0xB9u8 => Some(OpCode::MIN),
            0xBAu8 => Some(OpCode::MAX),
            0xBBu8 => Some(OpCode::WITHIN),
            0xBEu8 => Some(OpCode::PACKMAP),
            0xBFu8 => Some(OpCode::PACKSTRUCT),
            0xC0u8 => Some(OpCode::PACK),
            0xC1u8 => Some(OpCode::UNPACK),
            0xC2u8 => Some(OpCode::NEWARRAY0),
            0xC3u8 => Some(OpCode::NEWARRAY),
            0xC4u8 => Some(OpCode::NEWARRAY_T),
            0xC5u8 => Some(OpCode::NEWSTRUCT0),
            0xC6u8 => Some(OpCode::NEWSTRUCT),
            0xC8u8 => Some(OpCode::NEWMAP),
            0xCAu8 => Some(OpCode::SIZE),
            0xCBu8 => Some(OpCode::HASKEY),
            0xCCu8 => Some(OpCode::KEYS),
            0xCDu8 => Some(OpCode::VALUES),
            0xCEu8 => Some(OpCode::PICKITEM),
            0xCFu8 => Some(OpCode::APPEND),
            0xD0u8 => Some(OpCode::SETITEM),
            0xD1u8 => Some(OpCode::REVERSEITEMS),
            0xD2u8 => Some(OpCode::REMOVE),
            0xD3u8 => Some(OpCode::CLEARITEMS),
            0xD4u8 => Some(OpCode::POPITEM),
            0xD8u8 => Some(OpCode::ISNULL),
            0xD9u8 => Some(OpCode::ISTYPE),
            0xDBu8 => Some(OpCode::CONVERT),
            0xE0u8 => Some(OpCode::ABORTMSG),
            0xE1u8 => Some(OpCode::ASSERTMSG),
            _ => None,
        }
    }
    /// The number of bytes of the length prefix that follows the code: 1, 2 or 4
    /// for the three `PUSHDATA` codes, 0 for every other code.
    pub open spec fn spec_operand_prefix(self) -> u8 {
        match self {
            OpCode::PUSHDATA1 => 1,
            OpCode::PUSHDATA2 => 2,
            OpCode::PUSHDATA4 => 4,
            _ => 0,
        }
    }

    /// The fixed number of operand bytes of a code without a length prefix.
    pub open spec fn spec_operand_size(self) -> u8 {
        match self {
            OpCode::PUSHINT8 => 1,
            OpCode::PUSHINT16 => 2,
            OpCode::PUSHINT32 => 4,
            OpCode::PUSHINT64 => 8,
            OpCode::PUSHINT128 => 16,
            OpCode::PUSHINT256 => 32,
            OpCode::PUSHA => 4,
            OpCode::JMP
            | OpCode::JMPIF
            | OpCode::JMPIFNOT
            | OpCode::JMPEQ
            | OpCode::JMPNE
            | OpCode::JMPGT
            | OpCode::JMPGE
            | OpCode::JMPLT
            | OpCode::JMPLE
            | OpCode::CALL => 1,
            OpCode::JMP_L
            | OpCode::JMPIF_L
            | OpCode::JMPIFNOT_L
            | OpCode::JMPEQ_L
            | OpCode::JMPNE_L
            | OpCode::JMPGT_L
            | OpCode::JMPGE_L
            | OpCode::JMPLT_L
            | OpCode::JMPLE_L
            | OpCode::CALL_L => 4,
            OpCode::CALLT => 2,
            OpCode::TRY => 2,
            OpCode::TRY_L => 8,
            OpCode::ENDTRY => 1,
            OpCode::ENDTRY_L => 4,
            OpCode::SYSCALL => 4,
            OpCode::INITSSLOT => 1,
            OpCode::INITSLOT => 2,
            OpCode::LDSFLD
            | OpCode::STSFLD
            | OpCode::LDLOC
            | OpCode::STLOC
            | OpCode::LDARG
            | OpCode::STARG
            | OpCode::NEWARRAY_T
            | OpCode::ISTYPE
            | OpCode::CONVERT => 1,
            _ => 0,
        }
    }

    pub fn operand_prefix(&self) -> (r: u8)
        ensures
            r == self.spec_operand_prefix(),
            r == 0 || r == 1 || r == 2 || r == 4,
    {
        match self {
            OpCode::PUSHDATA1 => 1,
            OpCode::PUSHDATA2 => 2,
            OpCode::PUSHDATA4 => 4,
            _ => 0,
        }
    }

    pub fn operand_size(&self) -> (r: u8)
        ensures
            r == self.spec_operand_size(),
            r <= 32,
    {
        match self {
            OpCode::PUSHINT8 => 1,
            OpCode::PUSHINT16 => 2,
            OpCode::PUSHINT32 => 4,
            OpCode::PUSHINT64 => 8,
            OpCode::PUSHINT128 => 16,
            OpCode::PUSHINT256 => 32,
            OpCode::PUSHA => 4,
            OpCode::JMP
            | OpCode::JMPIF
            | OpCode::JMPIFNOT
            | OpCode::JMPEQ
            | OpCode::JMPNE
            | OpCode::JMPGT
            | OpCode::JMPGE
            | OpCode::JMPLT
            | OpCode::JMPLE
            | OpCode::CALL => 1,
            OpCode::JMP_L
            | OpCode::JMPIF_L
            | OpCode::JMPIFNOT_L
            | OpCode::JMPEQ_L
            | OpCode::JMPNE_L
            | OpCode::JMPGT_L
            | OpCode::JMPGE_L
            | OpCode::JMPLT_L
            | OpCode::JMPLE_L
            | OpCode::CALL_L => 4,
            OpCode::CALLT => 2,
            OpCode::TRY => 2,
            OpCode::TRY_L => 8,
            OpCode::ENDTRY => 1,
            OpCode::ENDTRY_L => 4,
            OpCode::SYSCALL => 4,
            OpCode::INITSSLOT => 1,
            OpCode::INITSLOT => 2,
            OpCode::LDSFLD
            | OpCode::STSFLD
            | OpCode::LDLOC
            | OpCode::STLOC
            | OpCode::LDARG
            | OpCode::STARG
            | OpCode::NEWARRAY_T
            | OpCode::ISTYPE
            | OpCode::CONVERT => 1,
            _ => 0,
        }
    }

    /// Reading back the byte of a code gives that code.
    pub proof fn lemma_code_round_trip(self)
        ensures
            OpCode::spec_from_u8(self.code()) == Some(self),
    {
    }

    /// A byte that encodes a code is the byte of that code, so no two codes
    /// share a byte.
    pub proof fn lemma_from_u8_code(value: u8)
        ensures
            match OpCode::spec_from_u8(value) {
                Some(op) => op.code() == value,
                None => forall|op: OpCode| op.code() != value,
            },
    {
        match OpCode::spec_from_u8(value) {
            Some(op) => {},
            None => {
                assert forall|op: OpCode| op.code() != value by {
                    op.lemma_code_round_trip();
                }
            },
        }
    }
}

} // verus!
