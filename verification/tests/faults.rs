use stack_vm::big_integer::BigInteger;
use stack_vm::jump_table::{Handler, JumpTable};
use stack_vm::types::primitive_types::vm_integer::VMInteger;
use stack_vm::types::stack_item::StackItem;
use stack_vm::utility::{mod_inverse, sqrt};
use stack_vm::vm::execution_engine::{ExecutionEngine, HostCall};
use stack_vm::vm::execution_engine_limits::ExecutionEngineLimits;
use stack_vm::vm::instruction::Instruction;
use stack_vm::vm::op_code::OpCode;
use stack_vm::vm::reference_counter::ReferenceCounter;
use stack_vm::vm::script::Script;
use stack_vm::vm::vm_state::VMState;

fn machine(bytes: Vec<u8>, limits: ExecutionEngineLimits) -> ExecutionEngine {
    let mut engine = ExecutionEngine::new_with_limits(None, ReferenceCounter::new(), limits);
    engine.load_script(Script::new(bytes), -1, 0).unwrap();
    engine
}

fn ran(bytes: Vec<u8>) -> ExecutionEngine {
    let mut engine = machine(bytes, ExecutionEngineLimits::default());
    engine.execute(10_000);
    engine
}

fn operands(engine: &ExecutionEngine) -> Vec<i64> {
    let at = engine.invocation_stack[engine.invocation_stack.len() - 1].shared_states;
    engine.shared_states[at]
        .evaluation_stack
        .inner_list
        .iter()
        .map(|item| match item {
            StackItem::Integer(v) => v.value().to_i64().unwrap(),
            StackItem::ByteString(b) => -(b.len() as i64),
            other => panic!("unexpected item: {:?}", other),
        })
        .collect()
}

fn position(engine: &ExecutionEngine) -> usize {
    engine.invocation_stack[engine.invocation_stack.len() - 1].instruction_pointer
}

#[test]
fn a_division_by_zero_leaves_the_machine_as_it_stood() {
    // PUSH1, PUSH0, DIV, RET
    let engine = ran(vec![0x11, 0x10, 0xA1, 0x40]);
    assert_eq!(engine.state, VMState::FAULT);
    assert!(engine.result_stack.inner_list.is_empty());
    assert_eq!(operands(&engine), vec![1, 0]);
    assert_eq!(position(&engine), 2);
    assert_eq!(engine.reference_counter.count(), 2);
    assert!(engine.uncaught_exception.is_none());
}

#[test]
fn a_power_without_an_inverse_pushes_nothing() {
    // PUSH2, PUSHM1, PUSH4, MODPOW, RET: 2 has no inverse modulo 4.
    let engine = ran(vec![0x12, 0x0F, 0x14, 0xA6, 0x40]);
    assert_eq!(engine.state, VMState::FAULT);
    assert_eq!(operands(&engine), vec![2, -1, 4]);
    assert!(engine.result_stack.inner_list.is_empty());
    // PUSH3, PUSHM1, PUSH7, MODPOW, RET: the inverse of 3 modulo 7 is 5.
    let engine = ran(vec![0x13, 0x0F, 0x17, 0xA6, 0x40]);
    assert_eq!(engine.state, VMState::HALT);
    assert_eq!(engine.result_stack.inner_list.len(), 1);
    assert!(engine.result_stack.inner_list[0].same(&StackItem::Integer(VMInteger::from_i64(5))));
}

#[test]
fn an_exception_that_nothing_takes_stays_in_the_machine() {
    // PUSH7, THROW, RET
    let engine = ran(vec![0x17, 0x3A, 0x40]);
    assert_eq!(engine.state, VMState::FAULT);
    let kept = engine.uncaught_exception.as_ref().unwrap();
    assert!(kept.same(&StackItem::Integer(VMInteger::from_i64(7))));
    assert_eq!(operands(&engine), vec![7]);
    assert_eq!(engine.invocation_stack.len(), 1);
    assert_eq!(position(&engine), 1);
    // THROW on an empty stack records nothing.
    let engine = ran(vec![0x3A, 0x40]);
    assert_eq!(engine.state, VMState::FAULT);
    assert!(engine.uncaught_exception.is_none());
}

#[test]
fn data_above_the_item_limit_leaves_the_stack_as_it_was() {
    let limits = ExecutionEngineLimits { max_item_size: 2, ..ExecutionEngineLimits::default() };
    // PUSH1, PUSHDATA1 3 bytes, RET
    let mut engine = machine(vec![0x11, 0x0C, 0x03, 1, 2, 3, 0x40], limits);
    assert_eq!(engine.execute(100), VMState::FAULT);
    assert_eq!(operands(&engine), vec![1]);
    assert_eq!(position(&engine), 1);
    // Two bytes are within the limit.
    let mut engine = machine(vec![0x11, 0x0C, 0x02, 1, 2, 0x40], limits);
    assert_eq!(engine.execute(100), VMState::HALT);
    assert_eq!(engine.result_stack.inner_list.len(), 2);
}

#[test]
fn a_join_above_the_item_limit_leaves_its_operands() {
    let limits = ExecutionEngineLimits { max_item_size: 3, ..ExecutionEngineLimits::default() };
    // PUSHDATA1 "ab", PUSHDATA1 "cd", CAT, RET
    let mut engine = machine(vec![0x0C, 0x02, 97, 98, 0x0C, 0x02, 99, 100, 0x8B, 0x40], limits);
    assert_eq!(engine.execute(100), VMState::FAULT);
    assert_eq!(operands(&engine), vec![-2, -2]);
    assert_eq!(position(&engine), 8);
    assert!(engine.result_stack.inner_list.is_empty());
}

#[test]
fn a_handler_that_fails_leaves_the_engine_as_it_stood() {
    let table = JumpTable::new();
    let mut engine = machine(vec![0x40], ExecutionEngineLimits::default());
    let plain = |op: OpCode| Instruction { opcode: op, operand: vec![] };
    table.push5(&mut engine, &plain(OpCode::PUSH5));
    table.push0(&mut engine, &plain(OpCode::PUSH0));
    table.div(&mut engine, &plain(OpCode::DIV));
    assert_eq!(engine.state(), VMState::FAULT);
    assert_eq!(operands(&engine), vec![5, 0]);
    assert_eq!(engine.reference_counter.count(), 2);
    let mut other = machine(vec![0x40], ExecutionEngineLimits::default());
    table.push3(&mut other, &plain(OpCode::PUSH3));
    table.throw(&mut other, &plain(OpCode::THROW));
    assert_eq!(other.state(), VMState::FAULT);
    assert!(other.uncaught_exception.as_ref().unwrap().same(&StackItem::Integer(VMInteger::from_i64(3))));
    assert_eq!(operands(&other), vec![3]);
}

#[test]
fn a_failed_step_in_a_called_context_keeps_every_context() {
    // CALL +3, RET, (3:) PUSH1, PUSH0, DIV, RET
    let engine = ran(vec![0x34, 0x03, 0x40, 0x11, 0x10, 0xA1, 0x40]);
    assert_eq!(engine.state, VMState::FAULT);
    assert_eq!(engine.invocation_stack.len(), 2);
    assert_eq!(position(&engine), 5);
    assert_eq!(operands(&engine), vec![1, 0]);
}

#[test]
fn a_snapshot_is_a_machine_of_its_own() {
    let mut engine = machine(vec![0x11, 0x12, 0x9E, 0x40], ExecutionEngineLimits::default());
    engine.execute(1);
    let mut copy = engine.snapshot();
    assert_eq!(copy.state, engine.state);
    assert_eq!(operands(&copy), operands(&engine));
    assert_eq!(copy.execute(100), VMState::HALT);
    assert_eq!(copy.result_stack.inner_list.len(), 1);
    // The first machine has not moved.
    assert_eq!(operands(&engine), vec![1]);
    assert_eq!(position(&engine), 1);
    assert!(engine.result_stack.inner_list.is_empty());
    assert_eq!(engine.execute(100), VMState::HALT);
    assert!(engine.result_stack.inner_list[0].same(&copy.result_stack.inner_list[0]));
}

#[test]
fn an_object_waits_for_collection_exactly_without_stack_references() {
    let mut counter = ReferenceCounter::new();
    let a = counter.new_sequence(vec![], false).unwrap();
    let item = StackItem::Array(a);
    assert!(!counter.get(a).unwrap().metadata.waits());
    assert!(counter.add_stack_reference(&item, 2));
    assert!(!counter.get(a).unwrap().metadata.waits());
    assert!(counter.remove_stack_reference(&item));
    assert_eq!(counter.get(a).unwrap().get_stack_references(), 1);
    assert!(!counter.get(a).unwrap().metadata.waits());
    assert!(counter.remove_stack_reference(&item));
    assert_eq!(counter.get(a).unwrap().get_stack_references(), 0);
    assert!(counter.get(a).unwrap().metadata.waits());
    assert!(counter.add_stack_reference(&item, 1));
    assert!(!counter.get(a).unwrap().metadata.waits());
    // A mark set by hand does not make an object with a stack reference wait.
    let mut copy = counter.snapshot();
    copy.items[a].metadata.zero_referred = true;
    assert!(!copy.items[a].metadata.waits());
}

fn big(v: i128) -> BigInteger {
    BigInteger::from_i128(v)
}

#[test]
fn square_roots_are_rounded_down() {
    let cases: Vec<(i128, i128)> = vec![
        (0, 0),
        (1, 1),
        (2, 1),
        (3, 1),
        (4, 2),
        (5, 2),
        (8, 2),
        (9, 3),
        (15, 3),
        (16, 4),
        (17, 4),
        (24, 4),
        (25, 5),
        (99, 9),
        (100, 10),
        (1_000_000, 1000),
        (999_999, 999),
        (1 << 62, 1 << 31),
        ((1 << 62) - 1, (1 << 31) - 1),
        (i64::MAX as i128, 3_037_000_499),
    ];
    for (value, root) in cases {
        assert_eq!(sqrt(&big(value)).unwrap().to_i128(), Some(root), "sqrt({})", value);
    }
    for value in 0..2000i128 {
        let root = sqrt(&big(value)).unwrap().to_i128().unwrap();
        assert!(root * root <= value && value < (root + 1) * (root + 1));
    }
    // A number of 200 binary digits.
    let wide = big(1).shift_left(200).minus(&big(1));
    let root = sqrt(&wide).unwrap();
    assert!(root.equals(&big(1).shift_left(100).minus(&big(1))));
    assert!(sqrt(&big(-1)).is_none());
}

#[test]
fn inverses_are_found_exactly_where_they_exist() {
    for modulus in 2..40i128 {
        for value in 1..80i128 {
            let expected = (0..modulus).find(|x| (value * x) % modulus == 1);
            let found = mod_inverse(&big(value), &big(modulus)).map(|x| x.to_i128().unwrap());
            assert_eq!(found, expected, "{} modulo {}", value, modulus);
        }
    }
    assert_eq!(mod_inverse(&big(19), &big(141)).unwrap().to_i128(), Some(52));
    assert_eq!(mod_inverse(&big(271), &big(383)).unwrap().to_i128(), Some(106));
    assert!(mod_inverse(&big(6), &big(9)).is_none());
    assert!(mod_inverse(&big(0), &big(9)).is_none());
    assert!(mod_inverse(&big(-2), &big(9)).is_none());
    assert!(mod_inverse(&big(2), &big(1)).is_none());
    assert!(mod_inverse(&big(2), &big(0)).is_none());
}

#[test]
fn the_host_executes_the_codes_that_the_table_hands_to_it() {
    let mut table = JumpTable::new();
    table.set_host_handler(OpCode::NOP);
    assert!(table.delegates(OpCode::NOP));
    assert!(!table.contains(OpCode::NOP));
    assert!(!table.delegates(OpCode::ADD));
    let mut engine = ExecutionEngine::new(Some(table));
    // PUSH1, NOP, PUSH2, ADD, RET
    engine.load_script(Script::new(vec![0x11, 0x21, 0x12, 0x9E, 0x40]), -1, 0).unwrap();
    assert_eq!(engine.execute(100), VMState::BREAK);
    assert_eq!(
        engine.pending_call(),
        Some(HostCall::Instruction(OpCode::NOP))
    );
    assert_eq!(position(&engine), 2);
    assert_eq!(operands(&engine), vec![1]);
    // The machine waits until the host has answered.
    assert_eq!(engine.execute(100), VMState::BREAK);
    assert_eq!(position(&engine), 2);
    // The host's handler pushes 5.
    engine.push(StackItem::Integer(VMInteger::from_i64(5))).unwrap();
    engine.complete_host_call(true);
    assert_eq!(engine.execute(100), VMState::HALT);
    let results: Vec<i64> = engine
        .result_stack
        .inner_list
        .iter()
        .map(|item| match item {
            StackItem::Integer(v) => v.value().to_i64().unwrap(),
            other => panic!("unexpected item: {:?}", other),
        })
        .collect();
    assert_eq!(results, vec![1, 7]);
    // A host that fails faults the machine.
    let mut table = JumpTable::new();
    table.set_host_handler(OpCode::ABORTMSG);
    let mut engine = ExecutionEngine::new(Some(table));
    engine.load_script(Script::new(vec![0xE0, 0x40]), -1, 0).unwrap();
    assert_eq!(engine.execute(100), VMState::BREAK);
    engine.complete_host_call(false);
    assert_eq!(engine.execute(100), VMState::FAULT);
    // Called by hand, the table pauses the engine in the same way.
    let mut table = JumpTable::new();
    table.set_host_handler(OpCode::ADD);
    let mut engine = machine(vec![0x40], ExecutionEngineLimits::default());
    table.execute(&mut engine, &Instruction { opcode: OpCode::ADD, operand: vec![] });
    assert_eq!(engine.state(), VMState::BREAK);
    table.set_handler(OpCode::ADD, true);
    assert!(table.contains(OpCode::ADD));
}

#[test]
fn the_table_says_who_executes_a_code() {
    let mut table = JumpTable::new();
    assert_eq!(table.index(OpCode::ADD), Handler::BuiltIn);
    assert_eq!(table.index(OpCode::ABORTMSG), Handler::Absent);
    table.set_host_handler(OpCode::ABORTMSG);
    assert_eq!(table.index(OpCode::ABORTMSG), Handler::Host);
    table.set_handler(OpCode::ADD, false);
    assert_eq!(table.index(OpCode::ADD), Handler::Absent);
    table.table.truncate(10);
    assert_eq!(table.index(OpCode::ADD), Handler::Absent);
    assert!(!table.contains(OpCode::ADD));
}
