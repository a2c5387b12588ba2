use stack_vm::types::stack_item::StackItem;
use stack_vm::types::stack_item_type::StackItemType;
use stack_vm::vm::execution_engine::ExecutionEngine;
use stack_vm::vm::execution_engine_limits::ExecutionEngineLimits;
use stack_vm::vm::reference_counter::ReferenceCounter;
use stack_vm::vm::script::Script;
use stack_vm::vm::vm_state::VMState;

const RET: u8 = 0x40;

fn run(bytes: Vec<u8>) -> ExecutionEngine {
    let mut engine = ExecutionEngine::new(None);
    engine.load_script(Script::new(bytes), -1, 0).unwrap();
    engine.execute(100_000);
    engine
}

/// Runs the bytes followed by RET and gives back the result stack, bottom
/// first, each item in a short text form.
fn results(mut bytes: Vec<u8>) -> Vec<String> {
    bytes.push(RET);
    let engine = run(bytes);
    assert_eq!(engine.state, VMState::HALT);
    engine.result_stack.inner_list.iter().map(|i| show(i, &engine)).collect()
}

fn faults(mut bytes: Vec<u8>) -> bool {
    bytes.push(RET);
    run(bytes).state == VMState::FAULT
}

fn show(item: &StackItem, engine: &ExecutionEngine) -> String {
    let heap = &engine.reference_counter;
    match item {
        StackItem::Null => "null".to_string(),
        StackItem::Boolean(b) => format!("{}", b),
        StackItem::Integer(v) => format!("{}", v.value().to_i128().unwrap()),
        StackItem::ByteString(b) => format!("bytes{:?}", b),
        StackItem::Buffer(id) => format!("buffer{:?}", heap.buffer(*id).unwrap().to_vec()),
        StackItem::Pointer(p) => format!("pointer({},{})", p.script(), p.position()),
        StackItem::Array(id) => format!(
            "array{:?}",
            heap.sequence(*id).unwrap().iter().map(|i| show(i, engine)).collect::<Vec<_>>()
        ),
        StackItem::Struct(id) => format!(
            "struct{:?}",
            heap.sequence(*id).unwrap().iter().map(|i| show(i, engine)).collect::<Vec<_>>()
        ),
        StackItem::Mapping(id) => {
            let m = heap.map(*id).unwrap();
            let pairs: Vec<String> = (0..m.len())
                .map(|i| format!("{}={}", show(m.key_at(i), engine), show(m.value_at(i), engine)))
                .collect();
            format!("map{:?}", pairs)
        }
        StackItem::InteropInterface(o) => format!("object({})", o.object()),
    }
}

// Instruction bytes used below.
const PUSHINT8: u8 = 0x00;
const PUSHT: u8 = 0x08;
const PUSHF: u8 = 0x09;
const PUSHNULL: u8 = 0x0B;
const PUSHDATA1: u8 = 0x0C;
const PUSHM1: u8 = 0x0F;
const PUSH0: u8 = 0x10;
const PUSH1: u8 = 0x11;
const PUSH2: u8 = 0x12;
const PUSH3: u8 = 0x13;
const PUSH4: u8 = 0x14;
const PUSH5: u8 = 0x15;
const PUSH7: u8 = 0x17;
const PUSH16: u8 = 0x20;

#[test]
fn push_constants() {
    assert_eq!(results(vec![PUSHM1, PUSH0, PUSH16]), vec!["-1", "0", "16"]);
    assert_eq!(results(vec![PUSHINT8, 0x80]), vec!["-128"]);
    assert_eq!(results(vec![0x01, 0x00, 0x80]), vec!["-32768"]);
    assert_eq!(results(vec![0x02, 0xFF, 0xFF, 0xFF, 0x7F]), vec!["2147483647"]);
    assert_eq!(results(vec![0x03, 0, 0, 0, 0, 0, 0, 0, 0x80]), vec!["-9223372036854775808"]);
    let mut wide = vec![0x04];
    wide.extend([0xFF; 16]);
    assert_eq!(results(wide), vec!["-1"]);
    wide_integer_keeps_its_bytes();
    assert_eq!(results(vec![PUSHT, PUSHF, PUSHNULL]), vec!["true", "false", "null"]);
    assert_eq!(results(vec![PUSHDATA1, 0x02, 0xAA, 0xBB]), vec!["bytes[170, 187]"]);
    assert_eq!(results(vec![0x0D, 0x01, 0x00, 0x07]), vec!["bytes[7]"]);
    assert_eq!(results(vec![0x0E, 0x01, 0x00, 0x00, 0x00, 0x07]), vec!["bytes[7]"]);
}

fn wide_integer_keeps_its_bytes() {
    // 2^254 does not fit an i128; it is checked through its bytes.
    let mut widest = vec![0x05];
    widest.extend([0x00; 31]);
    widest.push(0x40);
    widest.push(RET);
    let engine = run(widest);
    match &engine.result_stack.inner_list[0] {
        StackItem::Integer(v) => {
            assert_eq!(v.value().to_i128(), None);
            let mut expected = vec![0u8; 31];
            expected.push(0x40);
            assert_eq!(v.get_slice(), expected);
        }
        other => panic!("not an integer: {:?}", other),
    }
}

#[test]
fn data_of_more_than_1024_bytes_becomes_a_buffer() {
    let mut short = vec![0x0D, 0x00, 0x04];
    short.extend(vec![1u8; 1024]);
    short.push(0xD9);
    short.push(0x28);
    assert_eq!(results(short), vec!["true"]);
    let mut long = vec![0x0D, 0x01, 0x04];
    long.extend(vec![1u8; 1025]);
    long.push(0xD9);
    long.push(0x30);
    assert_eq!(results(long), vec!["true"]);
}

#[test]
fn arithmetic() {
    assert_eq!(results(vec![PUSH5, PUSH3, 0x9E]), vec!["8"]);
    assert_eq!(results(vec![PUSH5, PUSH3, 0x9F]), vec!["2"]);
    assert_eq!(results(vec![PUSH3, PUSH5, 0x9F]), vec!["-2"]);
    assert_eq!(results(vec![PUSH5, PUSH3, 0xA0]), vec!["15"]);
    assert_eq!(results(vec![PUSH7, PUSH2, 0xA1]), vec!["3"]);
    assert_eq!(results(vec![PUSHINT8, 0xF9, PUSH2, 0xA1]), vec!["-3"]);
    assert_eq!(results(vec![PUSH7, PUSH2, 0xA2]), vec!["1"]);
    assert_eq!(results(vec![PUSHINT8, 0xF9, PUSH2, 0xA2]), vec!["-1"]);
    assert_eq!(results(vec![PUSH2, PUSH5, 0xA3]), vec!["32"]);
    assert_eq!(results(vec![PUSH16, 0xA4]), vec!["4"]);
    assert_eq!(results(vec![PUSH3, PUSH5, PUSH7, 0xA5]), vec!["1"]);
    assert_eq!(results(vec![PUSH3, PUSH5, PUSH7, 0xA6]), vec!["5"]);
    assert_eq!(results(vec![PUSH3, PUSHM1, PUSH7, 0xA6]), vec!["5"]);
    assert_eq!(results(vec![PUSH1, PUSH4, 0xA8]), vec!["16"]);
    assert_eq!(results(vec![PUSH16, PUSH2, 0xA9]), vec!["4"]);
    assert_eq!(results(vec![PUSHINT8, 0xFB, PUSH1, 0xA9]), vec!["-3"]);
    assert_eq!(results(vec![PUSHINT8, 0xFB, 0x99]), vec!["-1"]);
    assert_eq!(results(vec![PUSHINT8, 0xFB, 0x9A]), vec!["5"]);
    assert_eq!(results(vec![PUSH5, 0x9B]), vec!["-5"]);
    assert_eq!(results(vec![PUSH5, 0x9C]), vec!["6"]);
    assert_eq!(results(vec![PUSH5, 0x9D]), vec!["4"]);
    assert_eq!(results(vec![PUSH5, PUSH3, 0xB9]), vec!["3"]);
    assert_eq!(results(vec![PUSH5, PUSH3, 0xBA]), vec!["5"]);
    assert_eq!(results(vec![PUSH5, 0x90]), vec!["-6"]);
    assert_eq!(results(vec![PUSH5, PUSH3, 0x91]), vec!["1"]);
    assert_eq!(results(vec![PUSH5, PUSH3, 0x92]), vec!["7"]);
    assert_eq!(results(vec![PUSH5, PUSH3, 0x93]), vec!["6"]);
    // Booleans and byte strings count as numbers.
    assert_eq!(results(vec![PUSHT, PUSHDATA1, 0x01, 0x02, 0x9E]), vec!["3"]);
}

#[test]
fn arithmetic_faults() {
    assert!(faults(vec![PUSH1, PUSH0, 0xA1]));
    assert!(faults(vec![PUSH1, PUSH0, 0xA2]));
    assert!(faults(vec![PUSH1, PUSH2, PUSH0, 0xA5]));
    assert!(faults(vec![PUSH1, PUSH2, PUSH0, 0xA6]));
    assert!(faults(vec![PUSH2, PUSHM1, PUSH4, 0xA6]));
    assert!(faults(vec![PUSH2, PUSHINT8, 0xFE, PUSH5, 0xA6]));
    assert!(faults(vec![PUSHM1, 0xA4]));
    assert!(faults(vec![PUSH2, PUSHM1, 0xA3]));
    assert!(faults(vec![PUSH2, 0x01, 0x01, 0x01, 0xA3]));
    assert!(faults(vec![PUSH2, 0x01, 0x01, 0x01, 0xA8]));
    assert!(faults(vec![PUSH2, PUSHM1, 0xA9]));
    assert!(faults(vec![PUSHNULL, PUSH1, 0x9E]));
    assert!(faults(vec![0xC2, PUSH1, 0x9E]));
    assert!(faults(vec![PUSH1, 0x9E]));
    // The largest integer plus one does not fit 32 bytes.
    let mut largest = vec![0x05];
    largest.extend([0xFF; 31]);
    largest.push(0x7F);
    let mut inc = largest.clone();
    inc.push(0x9C);
    assert!(faults(inc));
    let mut dec = largest.clone();
    dec.push(0x9D);
    assert!(!faults(dec));
    // 2 shifted left by 255 does not fit either; 1 does.
    assert!(faults(vec![PUSH2, 0x01, 0xFF, 0x00, 0xA8]));
    assert!(!faults(vec![PUSH1, 0x01, 0xFE, 0x00, 0xA8]));
    // A shift by zero leaves the item as it is, whatever it is.
    assert_eq!(results(vec![PUSHNULL, PUSH0, 0xA8]), vec!["null"]);
    assert_eq!(results(vec![PUSH5, PUSH0, 0xA9]), vec!["5"]);
}

#[test]
fn comparisons_and_logic() {
    assert_eq!(results(vec![PUSH2, PUSH3, 0xB5]), vec!["true"]);
    assert_eq!(results(vec![PUSH3, PUSH3, 0xB5]), vec!["false"]);
    assert_eq!(results(vec![PUSH3, PUSH3, 0xB6]), vec!["true"]);
    assert_eq!(results(vec![PUSH3, PUSH2, 0xB7]), vec!["true"]);
    assert_eq!(results(vec![PUSH2, PUSH3, 0xB8]), vec!["false"]);
    assert_eq!(results(vec![PUSH3, PUSH3, 0xB3]), vec!["true"]);
    assert_eq!(results(vec![PUSH3, PUSH3, 0xB4]), vec!["false"]);
    assert_eq!(results(vec![PUSHNULL, PUSH3, 0xB5]), vec!["false"]);
    assert_eq!(results(vec![PUSH3, PUSHNULL, 0xB8]), vec!["false"]);
    assert!(faults(vec![PUSHNULL, PUSH3, 0xB3]));
    assert_eq!(results(vec![PUSH3, PUSH2, PUSH5, 0xBB]), vec!["true"]);
    assert_eq!(results(vec![PUSH5, PUSH2, PUSH5, 0xBB]), vec!["false"]);
    assert_eq!(results(vec![PUSH2, PUSH2, PUSH5, 0xBB]), vec!["true"]);
    assert_eq!(results(vec![PUSHT, 0xAA]), vec!["false"]);
    assert_eq!(results(vec![PUSH0, 0xAA]), vec!["true"]);
    assert_eq!(results(vec![PUSHNULL, 0xAA]), vec!["true"]);
    assert_eq!(results(vec![PUSHT, PUSHF, 0xAB]), vec!["false"]);
    assert_eq!(results(vec![PUSHT, PUSH5, 0xAB]), vec!["true"]);
    assert_eq!(results(vec![PUSHT, PUSHF, 0xAC]), vec!["true"]);
    assert_eq!(results(vec![PUSHF, PUSH0, 0xAC]), vec!["false"]);
    assert_eq!(results(vec![PUSH5, 0xB1]), vec!["true"]);
    assert_eq!(results(vec![PUSH0, 0xB1]), vec!["false"]);
    assert_eq!(results(vec![PUSH5, PUSH5, 0x97]), vec!["true"]);
    assert_eq!(results(vec![PUSH5, PUSHT, 0x97]), vec!["false"]);
    assert_eq!(results(vec![PUSH5, PUSH3, 0x98]), vec!["true"]);
    assert_eq!(results(vec![0xC2, 0x4A, 0x97]), vec!["true"]);
    assert_eq!(results(vec![0xC2, 0xC2, 0x97]), vec!["false"]);
    assert_eq!(results(vec![0xC5, 0xC5, 0x97]), vec!["true"]);
}

#[test]
fn stack_operations() {
    assert_eq!(results(vec![PUSH1, PUSH2, 0x43]), vec!["1", "2", "2"]);
    assert_eq!(results(vec![PUSH1, PUSH2, 0x45]), vec!["1"]);
    assert_eq!(results(vec![PUSH1, PUSH2, 0x46]), vec!["2"]);
    assert_eq!(results(vec![PUSH1, PUSH2, PUSH3, PUSH1, 0x48]), vec!["1", "3"]);
    assert_eq!(results(vec![PUSH1, PUSH2, 0x49]), Vec::<String>::new());
    assert_eq!(results(vec![PUSH1, PUSH2, 0x4A]), vec!["1", "2", "2"]);
    assert_eq!(results(vec![PUSH1, PUSH2, 0x4B]), vec!["1", "2", "1"]);
    assert_eq!(results(vec![PUSH1, PUSH2, PUSH3, PUSH2, 0x4D]), vec!["1", "2", "3", "1"]);
    assert_eq!(results(vec![PUSH1, PUSH2, 0x4E]), vec!["2", "1", "2"]);
    assert_eq!(results(vec![PUSH1, PUSH2, 0x50]), vec!["2", "1"]);
    assert_eq!(results(vec![PUSH1, PUSH2, PUSH3, 0x51]), vec!["2", "3", "1"]);
    assert_eq!(results(vec![PUSH1, PUSH2, PUSH3, PUSH2, 0x52]), vec!["2", "3", "1"]);
    assert_eq!(results(vec![PUSH1, PUSH2, PUSH3, PUSH0, 0x52]), vec!["1", "2", "3"]);
    assert_eq!(results(vec![PUSH1, PUSH2, PUSH3, 0x53]), vec!["3", "2", "1"]);
    assert_eq!(results(vec![PUSH1, PUSH2, PUSH3, PUSH4, PUSH5, 0x54]), vec!["1", "5", "4", "3", "2"]);
    assert_eq!(results(vec![PUSH1, PUSH2, PUSH3, PUSH2, 0x55]), vec!["1", "3", "2"]);
    assert!(faults(vec![0x45]));
    assert!(faults(vec![PUSH1, 0x46]));
    assert!(faults(vec![PUSH1, PUSH5, 0x48]));
    assert!(faults(vec![0x4A]));
    assert!(faults(vec![PUSH1, 0x4B]));
    assert!(faults(vec![PUSH1, PUSHM1, 0x4D]));
    assert!(faults(vec![PUSH1, 0x4E]));
    assert!(faults(vec![PUSH1, 0x50]));
    assert!(faults(vec![PUSH1, PUSH2, 0x51]));
    assert!(faults(vec![PUSH1, PUSH2, 0x53]));
    assert!(faults(vec![PUSH1, PUSH2, PUSH3, 0x55]));
}

#[test]
fn slots() {
    // INITSSLOT 2, PUSH5, STSFLD1, LDSFLD1, LDSFLD0
    assert_eq!(results(vec![0x56, 0x02, PUSH5, 0x61, 0x59, 0x58]), vec!["5", "null"]);
    // INITSLOT 1 local, 2 arguments: the item popped last is argument 0.
    assert_eq!(
        results(vec![PUSH1, PUSH2, 0x57, 0x01, 0x02, 0x78, 0x79, 0x68]),
        vec!["1", "2", "null"]
    );
    // STLOC 0 through the operand form, LDLOC through the operand form.
    assert_eq!(results(vec![0x57, 0x02, 0x00, PUSH7, 0x77, 0x01, 0x6F, 0x01]), vec!["7"]);
    // STARG2 and LDARG 2.
    assert_eq!(
        results(vec![PUSH1, PUSH2, PUSH3, 0x57, 0x00, 0x03, PUSH7, 0x82, 0x7F, 0x02, 0x78]),
        vec!["7", "1"]
    );
    // STSFLD through the operand form.
    assert_eq!(results(vec![0x56, 0x08, PUSH3, 0x67, 0x07, 0x5F, 0x07]), vec!["3"]);
    assert!(faults(vec![0x58]));
    assert!(faults(vec![0x68]));
    assert!(faults(vec![0x78]));
    assert!(faults(vec![0x56, 0x00]));
    assert!(faults(vec![0x56, 0x01, 0x56, 0x01]));
    assert!(faults(vec![0x56, 0x01, 0x59]));
    assert!(faults(vec![0x57, 0x01, 0x00, 0x57, 0x01, 0x00]));
    assert!(faults(vec![0x57, 0x00, 0x01]));
    assert!(faults(vec![0x56, 0x01, 0x61]));
    // INITSLOT without places does nothing.
    assert_eq!(results(vec![PUSH1, 0x57, 0x00, 0x00]), vec!["1"]);
}

#[test]
fn slots_release_their_references_on_return() {
    let mut bytes = vec![0x56, 0x02, 0xC2, 0x60, PUSH1, PUSH2, 0x57, 0x01, 0x02, PUSH7];
    bytes.push(RET);
    let engine = run(bytes);
    assert_eq!(engine.state, VMState::HALT);
    // Only the one result is still referenced.
    assert_eq!(engine.reference_counter.count(), 1);
}

#[test]
fn compound_creation_and_reading() {
    assert_eq!(results(vec![0xC2]), vec!["array[]"]);
    assert_eq!(results(vec![0xC5]), vec!["struct[]"]);
    assert_eq!(results(vec![0xC8]), vec!["map[]"]);
    assert_eq!(results(vec![PUSH2, 0xC3]), vec!["array[\"null\", \"null\"]"]);
    assert_eq!(results(vec![PUSH2, 0xC6]), vec!["struct[\"null\", \"null\"]"]);
    assert_eq!(results(vec![PUSH2, 0xC4, 0x20]), vec!["array[\"false\", \"false\"]"]);
    assert_eq!(results(vec![PUSH1, 0xC4, 0x21]), vec!["array[\"0\"]"]);
    assert_eq!(results(vec![PUSH1, 0xC4, 0x28]), vec!["array[\"bytes[]\"]"]);
    assert_eq!(results(vec![PUSH1, 0xC4, 0x40]), vec!["array[\"null\"]"]);
    assert!(faults(vec![PUSH1, 0xC4, 0x7F]));
    assert!(faults(vec![PUSHM1, 0xC3]));
    assert!(faults(vec![0x01, 0x01, 0x08, 0xC3]));
    // PACK: the item that is popped first is the first item.
    assert_eq!(results(vec![PUSH1, PUSH2, PUSH3, PUSH3, 0xC0]), vec!["array[\"3\", \"2\", \"1\"]"]);
    assert_eq!(results(vec![PUSH1, PUSH2, PUSH2, 0xBF]), vec!["struct[\"2\", \"1\"]"]);
    assert_eq!(
        results(vec![PUSH1, PUSH2, PUSH3, PUSH4, PUSH2, 0xBE]),
        vec!["map[\"4=3\", \"2=1\"]"]
    );
    assert!(faults(vec![PUSH1, PUSH2, 0xC0]));
    assert!(faults(vec![PUSH1, PUSH2, PUSH3, PUSH2, 0xBE]));
    // UNPACK gives the items in their order and then their number.
    assert_eq!(results(vec![PUSH1, PUSH2, PUSH2, 0xC0, 0xC1]), vec!["2", "1", "2"]);
    assert_eq!(results(vec![PUSH1, PUSH2, PUSH1, 0xBE, 0xC1]), vec!["1", "2", "1"]);
    assert!(faults(vec![PUSH1, 0xC1]));
    // SIZE.
    assert_eq!(results(vec![PUSH1, PUSH2, PUSH2, 0xC0, 0xCA]), vec!["2"]);
    assert_eq!(results(vec![PUSHDATA1, 0x03, 1, 2, 3, 0xCA]), vec!["3"]);
    assert_eq!(results(vec![PUSH3, 0x88, 0xCA]), vec!["3"]);
    assert_eq!(results(vec![0xC8, 0xCA]), vec!["0"]);
    assert_eq!(results(vec![0x01, 0x00, 0x01, 0xCA]), vec!["2"]);
    assert_eq!(results(vec![PUSH0, 0xCA]), vec!["1"]);
    assert!(faults(vec![PUSHNULL, 0xCA]));
    assert!(faults(vec![PUSHT, 0xCA]));
}

#[test]
fn compound_items() {
    // An array of 3, 2, 1 for the tests below.
    let array = vec![PUSH1, PUSH2, PUSH3, PUSH3, 0xC0];
    let with = |rest: &[u8]| {
        let mut b = array.clone();
        b.extend_from_slice(rest);
        b
    };
    assert_eq!(results(with(&[PUSH0, 0xCE])), vec!["3"]);
    assert_eq!(results(with(&[PUSH2, 0xCE])), vec!["1"]);
    assert!(faults(with(&[PUSH3, 0xCE])));
    assert!(faults(with(&[PUSHM1, 0xCE])));
    assert_eq!(results(with(&[PUSH2, 0xCB])), vec!["true"]);
    assert_eq!(results(with(&[PUSH3, 0xCB])), vec!["false"]);
    assert!(faults(with(&[PUSHM1, 0xCB])));
    assert_eq!(results(with(&[PUSH7, 0xCF])), vec!["array[\"3\", \"2\", \"1\", \"7\"]"]);
    assert_eq!(results(with(&[0x4A, PUSH1, PUSH7, 0xD0])), vec!["array[\"3\", \"7\", \"1\"]"]);
    assert!(faults(with(&[PUSH3, PUSH7, 0xD0])));
    assert_eq!(results(with(&[0x4A, 0xD1])), vec!["array[\"1\", \"2\", \"3\"]"]);
    assert_eq!(results(with(&[0x4A, PUSH0, 0xD2])), vec!["array[\"2\", \"1\"]"]);
    assert!(faults(with(&[PUSH5, 0xD2])));
    assert_eq!(results(with(&[0x4A, 0xD3])), vec!["array[]"]);
    assert_eq!(results(with(&[0x4A, 0xD4])), vec!["array[\"3\", \"2\"]", "1"]);
    assert!(faults(vec![0xC2, 0xD4]));
    assert_eq!(results(with(&[0xCD])), vec!["array[\"3\", \"2\", \"1\"]"]);
    // Bytes: PICKITEM gives a byte as a number, HASKEY checks the position.
    assert_eq!(results(vec![PUSHDATA1, 0x02, 0x05, 0xFF, PUSH1, 0xCE]), vec!["255"]);
    assert_eq!(results(vec![PUSHDATA1, 0x02, 0x05, 0xFF, PUSH2, 0xCB]), vec!["false"]);
    assert!(faults(vec![PUSHDATA1, 0x02, 0x05, 0xFF, PUSH2, 0xCE]));
    assert!(faults(vec![PUSH5, PUSH0, 0xCE]));
}

#[test]
fn maps() {
    // {1: 2} made with NEWMAP, DUP, PUSH1, PUSH2, SETITEM.
    let map = vec![0xC8, 0x4A, PUSH1, PUSH2, 0xD0];
    let with = |rest: &[u8]| {
        let mut b = map.clone();
        b.extend_from_slice(rest);
        b
    };
    assert_eq!(results(map.clone()), vec!["map[\"1=2\"]"]);
    assert_eq!(results(with(&[PUSH1, 0xCE])), vec!["2"]);
    assert!(faults(with(&[PUSH2, 0xCE])));
    assert_eq!(results(with(&[PUSH1, 0xCB])), vec!["true"]);
    assert_eq!(results(with(&[PUSH2, 0xCB])), vec!["false"]);
    assert!(faults(with(&[PUSHNULL, 0xCB])));
    assert_eq!(results(with(&[0xCC])), vec!["array[\"1\"]"]);
    assert_eq!(results(with(&[0xCD])), vec!["array[\"2\"]"]);
    assert_eq!(results(with(&[0x4A, PUSH1, PUSH5, 0xD0])), vec!["map[\"1=5\"]"]);
    assert_eq!(results(with(&[0x4A, PUSH3, PUSH5, 0xD0])), vec!["map[\"1=2\", \"3=5\"]"]);
    assert_eq!(results(with(&[0x4A, PUSH1, 0xD2])), vec!["map[]"]);
    assert_eq!(results(with(&[0x4A, PUSH3, 0xD2])), vec!["map[\"1=2\"]"]);
    assert_eq!(results(with(&[0x4A, 0xD3])), vec!["map[]"]);
    assert!(faults(with(&[0xC2, PUSH5, 0xD0])));
    assert!(faults(vec![PUSH1, 0xCC]));
    // A key of 65 bytes is refused.
    let mut long_key = vec![0xC8, PUSHDATA1, 65];
    long_key.extend(vec![1u8; 65]);
    long_key.extend([PUSH1, 0xD0]);
    assert!(faults(long_key));
}

#[test]
fn splice_operations() {
    assert_eq!(results(vec![PUSH3, 0x88]), vec!["buffer[0, 0, 0]"]);
    assert_eq!(
        results(vec![PUSHDATA1, 2, 1, 2, PUSHDATA1, 1, 3, 0x8B]),
        vec!["bytes[1, 2, 3]"]
    );
    assert_eq!(
        results(vec![PUSHDATA1, 4, 1, 2, 3, 4, PUSH1, PUSH2, 0x8C]),
        vec!["bytes[2, 3]"]
    );
    assert_eq!(results(vec![PUSHDATA1, 4, 1, 2, 3, 4, PUSH3, 0x8D]), vec!["bytes[1, 2, 3]"]);
    assert_eq!(results(vec![PUSHDATA1, 4, 1, 2, 3, 4, PUSH3, 0x8E]), vec!["bytes[2, 3, 4]"]);
    assert_eq!(results(vec![PUSHDATA1, 4, 1, 2, 3, 4, PUSH0, 0x8D]), vec!["bytes[]"]);
    // MEMCPY: target, position in the target, source, position in the
    // source, count.
    assert_eq!(
        results(vec![PUSH4, 0x88, 0x4A, PUSH1, PUSHDATA1, 3, 7, 8, 9, PUSH1, PUSH2, 0x89]),
        vec!["buffer[0, 8, 9, 0]"]
    );
    // SETITEM and REVERSEITEMS on a buffer.
    assert_eq!(results(vec![PUSH2, 0x88, 0x4A, PUSH0, PUSH5, 0xD0]), vec!["buffer[5, 0]"]);
    assert_eq!(results(vec![PUSH2, 0x88, 0x4A, PUSH0, PUSHM1, 0xD0]), vec!["buffer[255, 0]"]);
    assert_eq!(results(vec![PUSH2, 0x88, 0x4A, PUSH0, PUSH5, 0xD0, 0x4A, 0xD1]), vec!["buffer[0, 5]"]);
    assert!(faults(vec![PUSH2, 0x88, PUSH0, 0x01, 0x00, 0x01, 0xD0]));
    assert!(faults(vec![PUSH2, 0x88, PUSH2, PUSH5, 0xD0]));
    assert!(faults(vec![PUSHDATA1, 4, 1, 2, 3, 4, PUSH3, PUSH2, 0x8C]));
    assert!(faults(vec![PUSHDATA1, 4, 1, 2, 3, 4, PUSH5, 0x8D]));
    assert!(faults(vec![PUSHDATA1, 4, 1, 2, 3, 4, PUSH5, 0x8E]));
    assert!(faults(vec![PUSHM1, 0x88]));
    assert!(faults(vec![PUSH4, 0x88, PUSH3, PUSHDATA1, 3, 7, 8, 9, PUSH1, PUSH2, 0x89]));
    assert!(faults(vec![PUSHDATA1, 1, 0, PUSH0, PUSHDATA1, 1, 7, PUSH0, PUSH1, 0x89]));
    assert!(faults(vec![0xC2, PUSH1, 0x8D]));
}

#[test]
fn type_operations() {
    assert_eq!(results(vec![PUSHNULL, 0xD8]), vec!["true"]);
    assert_eq!(results(vec![PUSH0, 0xD8]), vec!["false"]);
    assert_eq!(results(vec![PUSH0, 0xD9, 0x21]), vec!["true"]);
    assert_eq!(results(vec![PUSH0, 0xD9, 0x20]), vec!["false"]);
    assert_eq!(results(vec![PUSHNULL, 0xD9, 0x21]), vec!["false"]);
    assert!(faults(vec![PUSH0, 0xD9, 0x00]));
    assert!(faults(vec![PUSH0, 0xD9, 0x01]));
    assert_eq!(results(vec![PUSH0, 0xDB, 0x20]), vec!["false"]);
    assert_eq!(results(vec![0x01, 0x00, 0x01, 0xDB, 0x28]), vec!["bytes[0, 1]"]);
    assert_eq!(results(vec![PUSHDATA1, 0x01, 0xFF, 0xDB, 0x21]), vec!["-1"]);
    assert_eq!(results(vec![PUSHDATA1, 0x01, 0xFF, 0xDB, 0x30]), vec!["buffer[255]"]);
    assert_eq!(results(vec![PUSH1, PUSH1, 0xC0, 0xDB, 0x41]), vec!["struct[\"1\"]"]);
    assert_eq!(results(vec![PUSH1, PUSH1, 0xBF, 0xDB, 0x40]), vec!["array[\"1\"]"]);
    assert_eq!(results(vec![PUSHNULL, 0xDB, 0x00]), vec!["null"]);
    assert!(faults(vec![PUSHNULL, 0xDB, 0x21]));
    assert!(faults(vec![0xC8, 0xDB, 0x40]));
    assert!(faults(vec![PUSH1, 0xDB, 0x02]));
    assert_eq!(StackItemType::Mapping.to_u8(), 0x48);
}

#[test]
fn limits_are_enforced() {
    let tight = ExecutionEngineLimits { max_stack_size: 3, max_item_size: 4, ..ExecutionEngineLimits::default() };
    let run_with = |bytes: Vec<u8>| {
        let mut engine = ExecutionEngine::new_with_limits(None, ReferenceCounter::new(), tight);
        engine.load_script(Script::new(bytes), -1, 0).unwrap();
        engine.execute(1000);
        engine
    };
    // Three references are allowed, the fourth faults the machine.
    assert_eq!(run_with(vec![PUSH1, PUSH2, PUSH3, RET]).state, VMState::HALT);
    let over = run_with(vec![PUSH1, PUSH2, PUSH3, PUSH4, RET]);
    assert_eq!(over.state, VMState::FAULT);
    // An array counts with everything that it holds.
    assert_eq!(run_with(vec![PUSH2, 0xC3, RET]).state, VMState::HALT);
    assert_eq!(run_with(vec![PUSH3, 0xC3, RET]).state, VMState::FAULT);
    assert_eq!(run_with(vec![PUSH4, 0xC3, RET]).state, VMState::FAULT);
    // Garbage is reclaimed before the machine gives up: each array holds
    // two items and is dropped again.
    assert_eq!(
        run_with(vec![PUSH2, 0xC3, 0x45, PUSH2, 0xC3, 0x45, PUSH2, 0xC3, 0x45, PUSH1, RET]).state,
        VMState::HALT
    );
    // Items of more than four bytes cannot be made.
    assert_eq!(run_with(vec![PUSHDATA1, 4, 1, 2, 3, 4, RET]).state, VMState::HALT);
    assert_eq!(run_with(vec![PUSHDATA1, 5, 1, 2, 3, 4, 5, RET]).state, VMState::FAULT);
    assert_eq!(run_with(vec![PUSH4, 0x88, RET]).state, VMState::HALT);
    assert_eq!(run_with(vec![PUSH5, 0x88, RET]).state, VMState::FAULT);
    assert_eq!(
        run_with(vec![PUSHDATA1, 3, 1, 2, 3, PUSHDATA1, 2, 4, 5, 0x8B, RET]).state,
        VMState::FAULT
    );
    assert_eq!(
        run_with(vec![PUSHDATA1, 3, 1, 2, 3, PUSHDATA1, 1, 4, 0x8B, RET]).state,
        VMState::HALT
    );
    let limits = ExecutionEngineLimits::default();
    assert!(limits.assert_shift(256));
    assert!(!limits.assert_shift(257));
    assert!(!limits.assert_shift(-1));
    assert!(limits.assert_max_item_size(1048576));
    assert!(!limits.assert_max_item_size(1048577));
    assert_eq!(limits.compare_budget(), 2048);
    assert_eq!(limits.max_invocation_stack_size, 1024);
    assert_eq!(limits.max_try_nesting_depth, 16);
}
