use stack_vm::types::stack_item::StackItem;
use stack_vm::vm::execution_engine::ExecutionEngine;
use stack_vm::vm::script::Script;
use stack_vm::vm::vm_state::VMState;

fn run(bytes: Vec<u8>) -> ExecutionEngine {
    let mut engine = ExecutionEngine::new(None);
    engine.load_script(Script::new(bytes), -1, 0).unwrap();
    engine.execute(10_000);
    engine
}

fn result_integers(engine: &ExecutionEngine) -> Vec<i64> {
    engine
        .result_stack
        .inner_list
        .iter()
        .map(|item| match item {
            StackItem::Integer(v) => v.value().to_i64().unwrap(),
            other => panic!("not an integer: {:?}", other),
        })
        .collect()
}

#[test]
fn push_and_add_halts_with_the_sum() {
    let engine = run(vec![0x10, 0x11, 0x9E, 0x40]);
    assert_eq!(engine.state, VMState::HALT);
    assert_eq!(result_integers(&engine), vec![1]);
}

#[test]
fn division_by_zero_faults() {
    let engine = run(vec![0x11, 0x10, 0xA1, 0x40]);
    assert_eq!(engine.state, VMState::FAULT);
}

#[test]
fn conditional_jump_lands_on_the_instruction_at_its_offset() {
    // PUSH2, PUSH3, LT, JMPIF +3, PUSH0, RET, PUSH1, RET: the offset counts
    // from the first byte of JMPIF, so the jump lands on the first RET.
    let engine = run(vec![0x12, 0x13, 0xB5, 0x24, 0x03, 0x10, 0x40, 0x11, 0x40]);
    assert_eq!(engine.state, VMState::HALT);
    assert_eq!(result_integers(&engine), Vec::<i64>::new());
}

#[test]
fn conditional_jump_takes_the_branch() {
    // PUSH2, PUSH3, LT, JMPIF +4, PUSH0, RET, PUSH1, RET
    let engine = run(vec![0x12, 0x13, 0xB5, 0x24, 0x04, 0x10, 0x40, 0x11, 0x40]);
    assert_eq!(engine.state, VMState::HALT);
    assert_eq!(result_integers(&engine), vec![1]);
}

#[test]
fn conditional_jump_falls_through_on_false() {
    // PUSH3, PUSH2, LT, JMPIF +4, PUSH0, RET, PUSH1, RET
    let engine = run(vec![0x13, 0x12, 0xB5, 0x24, 0x04, 0x10, 0x40, 0x11, 0x40]);
    assert_eq!(engine.state, VMState::HALT);
    assert_eq!(result_integers(&engine), vec![0]);
}

#[test]
fn append_keeps_the_array_on_the_stack() {
    // NEWARRAY0, PUSH1, APPEND, SIZE, RET
    let engine = run(vec![0xC2, 0x11, 0xCF, 0xCA, 0x40]);
    assert_eq!(engine.state, VMState::HALT);
    assert_eq!(result_integers(&engine), vec![1]);
}

#[test]
fn caught_exception_runs_the_catch_block() {
    // TRY catch=+5 finally=0, PUSH1, THROW, (catch:) PUSH0, ENDFINALLY, RET
    let engine = run(vec![0x3B, 0x05, 0x00, 0x11, 0x3A, 0x10, 0x3F, 0x40]);
    assert_eq!(engine.state, VMState::HALT);
    assert_eq!(result_integers(&engine), vec![1, 0]);
    assert_eq!(engine.reference_counter.count(), 2);
    assert!(engine.uncaught_exception.is_none());
}

#[test]
fn try_with_a_catch_offset_into_its_own_operand_faults() {
    // TRY catch=+2 finally=0, PUSH1, THROW, PUSH0, ENDFINALLY, RET: the
    // catch block starts at the third byte of TRY, which reads as
    // PUSHINT8 17, THROW; the second throw finds no handler.
    let engine = run(vec![0x3B, 0x02, 0x00, 0x11, 0x3A, 0x10, 0x3F, 0x40]);
    assert_eq!(engine.state, VMState::FAULT);
}

#[test]
fn add_on_a_single_operand_faults() {
    let engine = run(vec![0x00, 0xFE, 0x9E, 0x40]);
    assert_eq!(engine.state, VMState::FAULT);
}
