use stack_vm::jump_table::JumpTable;
use stack_vm::types::primitive_types::vm_integer::VMInteger;
use stack_vm::types::stack_item::StackItem;
use stack_vm::vm::exception_handling_context::ExceptionHandlingContext;
use stack_vm::vm::exception_handling_state::ExceptionHandlingState;
use stack_vm::vm::execution_context::ExecutionContext;
use stack_vm::vm::execution_engine::{ExecutionEngine, HostCall};
use stack_vm::vm::execution_engine_limits::ExecutionEngineLimits;
use stack_vm::vm::instruction::Instruction;
use stack_vm::vm::op_code::OpCode;
use stack_vm::vm::reference_counter::ReferenceCounter;
use stack_vm::vm::script::Script;
use stack_vm::vm::vm_error::VMErrorKind;
use stack_vm::vm::vm_state::VMState;

const RET: u8 = 0x40;
const PUSH0: u8 = 0x10;
const PUSH1: u8 = 0x11;
const PUSH2: u8 = 0x12;
const PUSH3: u8 = 0x13;
const PUSH5: u8 = 0x15;
const PUSH7: u8 = 0x17;
const PUSH9: u8 = 0x19;

fn load(bytes: Vec<u8>) -> ExecutionEngine {
    let mut engine = ExecutionEngine::new(None);
    engine.load_script(Script::new(bytes), -1, 0).unwrap();
    engine
}

fn run(bytes: Vec<u8>) -> ExecutionEngine {
    let mut engine = load(bytes);
    engine.execute(100_000);
    engine
}

fn ints(engine: &ExecutionEngine) -> Vec<i64> {
    engine
        .result_stack
        .inner_list
        .iter()
        .map(|item| match item {
            StackItem::Integer(v) => v.value().to_i64().unwrap(),
            other => panic!("not an integer: {:?}", other),
        })
        .collect()
}

fn halted(bytes: Vec<u8>) -> Vec<i64> {
    let engine = run(bytes);
    assert_eq!(engine.state, VMState::HALT);
    ints(&engine)
}

fn faulted(bytes: Vec<u8>) -> bool {
    run(bytes).state == VMState::FAULT
}

#[test]
fn two_runs_of_the_same_script_agree() {
    let script = vec![PUSH5, PUSH3, 0xA0, 0x4A, 0x9E, PUSH2, 0xC3, 0xCA, 0x9E, RET];
    let first = run(script.clone());
    let second = run(script);
    assert_eq!(first.state, second.state);
    assert_eq!(ints(&first), ints(&second));
    assert_eq!(ints(&first), vec![32]);
    assert_eq!(first.reference_counter.count(), second.reference_counter.count());
}

#[test]
fn jumps() {
    // JMP +3 over PUSH1.
    assert_eq!(halted(vec![0x22, 0x03, PUSH1, PUSH2, RET]), vec![2]);
    // JMP_L +6 over PUSH1.
    assert_eq!(halted(vec![0x23, 0x06, 0, 0, 0, PUSH1, PUSH2, RET]), vec![2]);
    // A jump backwards: PUSH0, (loop:) INC, DUP, PUSH3, JMPLT -3, RET.
    assert_eq!(halted(vec![PUSH0, 0x9C, 0x4A, PUSH3, 0x30, 0xFD, RET]), vec![3]);
    let conditional = |op: u8, a: u8, b: u8| halted(vec![a, b, op, 0x03, PUSH0, PUSH9, RET]);
    assert_eq!(conditional(0x28, PUSH2, PUSH2), vec![9]);
    assert_eq!(conditional(0x28, PUSH2, PUSH3), vec![0, 9]);
    assert_eq!(conditional(0x2A, PUSH2, PUSH3), vec![9]);
    assert_eq!(conditional(0x2C, PUSH3, PUSH2), vec![9]);
    assert_eq!(conditional(0x2C, PUSH2, PUSH3), vec![0, 9]);
    assert_eq!(conditional(0x2E, PUSH2, PUSH2), vec![9]);
    assert_eq!(conditional(0x30, PUSH2, PUSH3), vec![9]);
    assert_eq!(conditional(0x32, PUSH3, PUSH3), vec![9]);
    assert_eq!(conditional(0x32, PUSH3, PUSH2), vec![0, 9]);
    assert_eq!(halted(vec![PUSH0, 0x26, 0x03, PUSH1, PUSH9, RET]), vec![9]);
    assert_eq!(halted(vec![PUSH1, 0x26, 0x03, PUSH1, PUSH9, RET]), vec![1, 9]);
    assert_eq!(halted(vec![PUSH1, 0x25, 0x06, 0, 0, 0, PUSH1, PUSH9, RET]), vec![9]);
    // Targets outside the script.
    assert!(faulted(vec![0x22, 0x02]));
    assert!(faulted(vec![0x22, 0xFF, RET]));
    assert!(faulted(vec![0x22, 0x7F, RET]));
    assert!(faulted(vec![0x24, 0x02, RET]));
    // Running off the end of the script.
    assert!(faulted(vec![PUSH1]));
    // An unknown code.
    assert!(faulted(vec![0x06, RET]));
    // NOP does nothing.
    assert_eq!(halted(vec![0x21, PUSH1, RET]), vec![1]);
}

#[test]
fn calls_share_the_evaluation_stack() {
    // PUSH1, CALL +3, RET, (callee:) PUSH2, ADD, RET
    assert_eq!(halted(vec![PUSH1, 0x34, 0x03, RET, PUSH2, 0x9E, RET]), vec![3]);
    // The same with CALL_L.
    assert_eq!(halted(vec![PUSH1, 0x35, 0x06, 0, 0, 0, RET, PUSH2, 0x9E, RET]), vec![3]);
    // PUSHA +6, CALLA, RET, (callee:) PUSH7, RET
    assert_eq!(halted(vec![0x0A, 0x07, 0, 0, 0, 0x36, RET, PUSH7, RET]), vec![7]);
    // CALLA on something that is no pointer.
    assert!(faulted(vec![PUSH1, 0x36, RET]));
    // A call behind the script.
    assert!(faulted(vec![0x34, 0x7F, RET]));
    // PUSHA behind the script.
    assert!(faulted(vec![0x0A, 0x7F, 0, 0, 0, RET]));
    // The invocation stack is bounded: a function that calls itself.
    assert!(faulted(vec![0x34, 0x00, RET]));
}

#[test]
fn the_callee_has_slots_of_its_own() {
    // INITSLOT 1,0; PUSH5; STLOC0; CALL +5; LDLOC0; RET;
    // (callee:) INITSLOT 1,0; PUSH9; STLOC0; LDLOC0; RET
    let script = vec![
        0x57, 0x01, 0x00, PUSH5, 0x70, 0x34, 0x04, 0x68, RET, 0x57, 0x01, 0x00, PUSH9, 0x70, 0x68, RET,
    ];
    let engine = run(script);
    assert_eq!(engine.state, VMState::HALT);
    assert_eq!(ints(&engine), vec![9, 5]);
    assert_eq!(engine.reference_counter.count(), 2);
}

#[test]
fn return_value_count_is_checked() {
    let with_count = |rv: i32, bytes: Vec<u8>| {
        let mut engine = ExecutionEngine::new(None);
        engine.load_script(Script::new(bytes), rv, 0).unwrap();
        engine.execute(1000);
        engine
    };
    assert_eq!(with_count(2, vec![PUSH1, PUSH2, RET]).state, VMState::HALT);
    assert_eq!(with_count(1, vec![PUSH1, PUSH2, RET]).state, VMState::FAULT);
    assert_eq!(with_count(0, vec![RET]).state, VMState::HALT);
    assert_eq!(with_count(-1, vec![PUSH1, PUSH2, PUSH3, RET]).state, VMState::HALT);
    assert_eq!(ints(&with_count(2, vec![PUSH1, PUSH2, RET])), vec![1, 2]);
}

#[test]
fn nested_scripts_return_to_their_caller() {
    let mut engine = ExecutionEngine::new(None);
    let outer = engine.load_script(Script::new(vec![PUSH1, 0x9E, RET]), -1, 0).unwrap();
    let inner = engine.load_script(Script::new(vec![PUSH2, PUSH3, 0xA0, RET]), 1, 0).unwrap();
    assert_eq!((outer, inner), (0, 1));
    assert_eq!(engine.invocation_stack().len(), 2);
    assert_eq!(engine.entry_context().unwrap().shared_states(), 0);
    assert_eq!(engine.current_context().unwrap().shared_states(), 1);
    assert_eq!(engine.execute(1000), VMState::HALT);
    assert_eq!(ints(&engine), vec![7]);
    assert_eq!(engine.reference_counter.count(), 1);
}

#[test]
fn exceptions_are_caught_in_the_same_context() {
    // TRY catch=+8; PUSH1; THROW; PUSH9 (skipped); ENDTRY +4 (skipped);
    // (catch, at 8:) ENDTRY +2; (at 10:) RET
    let engine = run(vec![0x3B, 0x08, 0x00, PUSH1, 0x3A, PUSH9, 0x3D, 0x04, 0x3D, 0x02, RET]);
    assert_eq!(engine.state, VMState::HALT);
    assert_eq!(ints(&engine), vec![1]);
    assert!(engine.uncaught_exception().is_none());
}

#[test]
fn finally_runs_after_the_body() {
    // TRY finally=+6; PUSH1; ENDTRY +5; (finally, at 6:) PUSH2; ENDFINALLY;
    // (end, at 8:) PUSH3; RET
    assert_eq!(halted(vec![0x3B, 0x00, 0x06, PUSH1, 0x3D, 0x04, PUSH2, 0x3F, PUSH3, RET]), vec![1, 2, 3]);
}

#[test]
fn finally_runs_after_the_catch_block() {
    // TRY catch=+6 finally=+9; PUSH1; THROW; NOP; (catch, at 6:) PUSH5;
    // ENDTRY +5; (finally, at 9:) PUSH2; ENDFINALLY; (end, at 12:) RET
    assert_eq!(
        halted(vec![0x3B, 0x06, 0x09, PUSH1, 0x3A, 0x21, PUSH5, 0x3D, 0x05, PUSH2, 0x3F, 0x21, RET]),
        vec![1, 5, 2]
    );
}

#[test]
fn finally_runs_once_while_an_exception_passes() {
    // TRY finally=+5; PUSH1; THROW; (finally, at 5:) PUSH2; ENDFINALLY
    // Nothing catches the exception: the final block runs, then the
    // machine faults with the exception pending.
    let mut engine = load(vec![0x3B, 0x00, 0x05, PUSH1, 0x3A, PUSH2, 0x3F, RET]);
    // TRY, PUSH1, THROW: the handler is in its final block.
    engine.execute(3);
    assert_eq!(engine.state, VMState::BREAK);
    let context = engine.current_context().unwrap();
    assert_eq!(context.instruction_pointer(), 5);
    let handlers = context.try_stack().unwrap();
    assert_eq!(handlers.len(), 1);
    assert_eq!(handlers[0].state(), ExceptionHandlingState::Finally);
    assert!(engine.uncaught_exception().is_some());
    // PUSH2, ENDFINALLY: the exception is handed on and nobody takes it.
    assert_eq!(engine.execute(10), VMState::FAULT);
    assert!(engine.uncaught_exception().is_some());
}

#[test]
fn unwinding_unloads_the_contexts_above_the_handler() {
    // (0) TRY catch=+6; (3) CALL +5; (5) RET; (6, catch:) PUSH9; (7) RET;
    // (8, callee:) CALL +2; (10, inner:) PUSH1; (11) THROW
    let mut engine = load(vec![0x3B, 0x06, 0x00, 0x34, 0x05, RET, PUSH9, RET, 0x34, 0x02, PUSH1, 0x3A]);
    // TRY, CALL, CALL, PUSH1: three contexts.
    engine.execute(4);
    assert_eq!(engine.invocation_stack().len(), 3);
    assert_eq!(engine.current_context().unwrap().instruction_pointer(), 11);
    engine.execute_next();
    // THROW: the two callees are gone, the first context is in its catch
    // block with the exception on its stack.
    assert_eq!(engine.invocation_stack().len(), 1);
    let context = engine.current_context().unwrap();
    assert_eq!(context.instruction_pointer(), 6);
    assert_eq!(context.try_stack().unwrap()[0].state(), ExceptionHandlingState::Catch);
    assert!(engine.peek(0).unwrap().same(&StackItem::Integer(VMInteger::from_i64(1))));
    engine.set_state(VMState::NONE);
    assert_eq!(engine.execute(100), VMState::HALT);
    assert_eq!(ints(&engine), vec![1, 9]);
}

#[test]
fn try_faults() {
    // Both offsets zero.
    assert!(faulted(vec![0x3B, 0x00, 0x00, RET]));
    // ENDTRY and ENDFINALLY without a handler.
    assert!(faulted(vec![0x3D, 0x02, RET]));
    assert!(faulted(vec![0x3F, RET]));
    // THROW without a handler.
    assert!(faulted(vec![PUSH1, 0x3A, RET]));
    // ENDTRY in a final block: TRY finally=+5; ENDTRY +2; (5:) ENDTRY +2
    assert!(faulted(vec![0x3B, 0x00, 0x05, 0x3D, 0x02, 0x3D, 0x02, RET]));
    // A limit of zero allows no try at all.
    let none = ExecutionEngineLimits { max_try_nesting_depth: 0, ..ExecutionEngineLimits::default() };
    let mut engine = ExecutionEngine::new_with_limits(None, ReferenceCounter::new(), none);
    engine.load_script(Script::new(vec![0x3B, 0x03, 0x00, RET]), -1, 0).unwrap();
    assert_eq!(engine.execute(100), VMState::FAULT);
    // More nested tries than the limit allows.
    let limits = ExecutionEngineLimits { max_try_nesting_depth: 2, ..ExecutionEngineLimits::default() };
    let nested = |count: usize| {
        let mut bytes = Vec::new();
        for _ in 0..count {
            bytes.extend([0x3C, 0x01, 0, 0, 0, 0, 0, 0, 0]);
        }
        bytes.push(RET);
        let mut engine = ExecutionEngine::new_with_limits(None, ReferenceCounter::new(), limits);
        engine.load_script(Script::new(bytes), -1, 0).unwrap();
        engine.execute(100)
    };
    assert_eq!(nested(2), VMState::HALT);
    assert_eq!(nested(3), VMState::FAULT);
    // ABORT and a failed ASSERT cannot be caught.
    assert!(faulted(vec![0x3B, 0x04, 0x00, 0x38, RET]));
    assert!(faulted(vec![0x3B, 0x05, 0x00, PUSH0, 0x39, RET]));
    assert_eq!(halted(vec![PUSH1, 0x39, PUSH2, RET]), vec![2]);
}

#[test]
fn host_calls_pause_the_machine() {
    // SYSCALL 0x04030201, PUSH1, RET
    let mut engine = load(vec![0x41, 0x01, 0x02, 0x03, 0x04, PUSH1, RET]);
    assert_eq!(engine.execute(100), VMState::BREAK);
    assert_eq!(engine.pending_call(), Some(HostCall::Syscall(0x04030201)));
    // The machine waits until the host answers.
    assert_eq!(engine.execute(100), VMState::BREAK);
    engine.push(StackItem::Integer(VMInteger::from_i64(5))).unwrap();
    engine.complete_host_call(true);
    assert_eq!(engine.pending_call(), None);
    assert_eq!(engine.execute(100), VMState::HALT);
    assert_eq!(ints(&engine), vec![5, 1]);
    // CALLT 0x0102, and a host that fails.
    let mut engine = load(vec![0x37, 0x02, 0x01, RET]);
    assert_eq!(engine.execute(100), VMState::BREAK);
    assert_eq!(engine.pending_call(), Some(HostCall::LoadToken(0x0102)));
    engine.complete_host_call(false);
    assert_eq!(engine.execute(100), VMState::FAULT);
    // Without a pending call nothing changes.
    let mut idle = load(vec![RET]);
    idle.complete_host_call(false);
    assert_eq!(idle.state(), VMState::BREAK);
}

#[test]
fn the_step_budget_pauses_the_machine() {
    let mut engine = load(vec![0x22, 0x00]);
    assert_eq!(engine.execute(50), VMState::BREAK);
    assert_eq!(engine.execute(50), VMState::BREAK);
    assert_eq!(engine.execute(0), VMState::BREAK);
    let mut engine = load(vec![PUSH1, PUSH2, RET]);
    assert_eq!(engine.execute(2), VMState::BREAK);
    assert_eq!(engine.execute(1), VMState::HALT);
    // A halted machine stays halted, a faulted machine stays faulted.
    assert_eq!(engine.execute(10), VMState::HALT);
    assert_eq!(ints(&engine), vec![1, 2]);
    let mut broken = load(vec![0x38]);
    assert_eq!(broken.execute(10), VMState::FAULT);
    assert_eq!(broken.execute(10), VMState::FAULT);
    // Without a script the machine halts at once.
    let mut empty = ExecutionEngine::new_default();
    assert_eq!(empty.state(), VMState::BREAK);
    assert_eq!(empty.execute(10), VMState::HALT);
}

#[test]
fn loading_is_checked() {
    let limits = ExecutionEngineLimits { max_invocation_stack_size: 1, ..ExecutionEngineLimits::default() };
    let mut engine = ExecutionEngine::new_with_limits(None, ReferenceCounter::new(), limits);
    assert_eq!(
        engine.load_script(Script::new(vec![RET]), -2, 0).unwrap_err().kind(),
        VMErrorKind::InvalidParameter
    );
    assert_eq!(
        engine.load_script(Script::new(vec![RET]), 65536, 0).unwrap_err().kind(),
        VMErrorKind::InvalidParameter
    );
    assert_eq!(
        engine.load_script(Script::new(vec![RET]), 0, 2).unwrap_err().kind(),
        VMErrorKind::InvalidParameter
    );
    assert_eq!(engine.load_script(Script::new(vec![RET]), 65535, 1).unwrap(), 0);
    assert_eq!(
        engine.load_script(Script::new(vec![RET]), 0, 0).unwrap_err().kind(),
        VMErrorKind::InvocationStackOverflow
    );
    assert_eq!(
        engine.load_context(ExecutionContext::new(0, 0)).unwrap_err().kind(),
        VMErrorKind::InvocationStackOverflow
    );
    assert!(engine.unload_context().is_ok());
    assert!(engine.unload_context().is_err());
    assert!(engine.load_context(ExecutionContext::new(0, 0)).is_ok());
    assert_eq!(engine.limits().max_invocation_stack_size, 1);
}

#[test]
fn host_access_to_the_current_stack() {
    let mut engine = ExecutionEngine::new(None);
    assert_eq!(engine.peek(0).unwrap_err().kind(), VMErrorKind::Custom);
    assert!(engine.pop().is_err());
    assert!(engine.push(StackItem::Null).is_err());
    engine.load_script(Script::new(vec![0x9E, RET]), -1, 0).unwrap();
    engine.push(StackItem::Integer(VMInteger::from_i64(20))).unwrap();
    engine.push(StackItem::Integer(VMInteger::from_i64(22))).unwrap();
    assert!(engine.peek(1).unwrap().same(&StackItem::Integer(VMInteger::from_i64(20))));
    assert_eq!(engine.peek(2).unwrap_err().kind(), VMErrorKind::InvalidParameter);
    assert!(engine.pop().unwrap().same(&StackItem::Integer(VMInteger::from_i64(22))));
    engine.push(StackItem::Integer(VMInteger::from_i64(22))).unwrap();
    assert_eq!(engine.reference_counter().count(), 2);
    assert_eq!(engine.execute(10), VMState::HALT);
    assert_eq!(ints(&engine), vec![42]);
    assert_eq!(engine.result_stack().count(), 1);
    assert!(!engine.is_jumping());
    engine.set_is_jumping(true);
    assert!(engine.is_jumping());
    engine.set_limits(ExecutionEngineLimits { max_shift: 1, ..ExecutionEngineLimits::default() });
    assert_eq!(engine.limits().max_shift, 1);
    engine.set_uncaught_exception(Some(StackItem::Null));
    assert!(engine.uncaught_exception().is_some());
}

#[test]
fn a_code_without_a_handler_faults() {
    let mut table = JumpTable::new();
    assert!(table.contains(OpCode::ADD));
    assert!(!table.contains(OpCode::ABORTMSG));
    assert!(!table.contains(OpCode::ASSERTMSG));
    table.set_handler(OpCode::ADD, false);
    assert!(!table.contains(OpCode::ADD));
    let mut engine = ExecutionEngine::new(Some(table.clone()));
    engine.load_script(Script::new(vec![PUSH1, PUSH2, 0x9E, RET]), -1, 0).unwrap();
    assert_eq!(engine.execute(10), VMState::FAULT);
    assert!(!engine.jump_table().contains(OpCode::ADD));
    engine.set_jump_table(JumpTable::new());
    assert!(engine.jump_table().contains(OpCode::ADD));
    assert!(faulted(vec![0xE0, RET]));
}

#[test]
fn handlers_can_be_called_one_by_one() {
    let table = JumpTable::new();
    let mut engine = load(vec![RET]);
    let plain = |op: OpCode| Instruction { opcode: op, operand: vec![] };
    table.push3(&mut engine, &plain(OpCode::PUSH3));
    table.push5(&mut engine, &plain(OpCode::PUSH5));
    table.mul(&mut engine, &plain(OpCode::MUL));
    table.dup(&mut engine, &plain(OpCode::DUP));
    table.add(&mut engine, &plain(OpCode::ADD));
    table.push_int8(&mut engine, &Instruction { opcode: OpCode::PUSHINT8, operand: vec![0xFF] });
    table.sub(&mut engine, &plain(OpCode::SUB));
    assert_eq!(engine.state(), VMState::BREAK);
    assert!(engine.peek(0).unwrap().same(&StackItem::Integer(VMInteger::from_i64(31))));
    table.execute(&mut engine, &plain(OpCode::INC));
    assert!(engine.peek(0).unwrap().same(&StackItem::Integer(VMInteger::from_i64(32))));
    table.drop(&mut engine, &plain(OpCode::DROP));
    // The stack is empty now: the handler fails and the engine faults.
    table.drop(&mut engine, &plain(OpCode::DROP));
    assert_eq!(engine.state(), VMState::FAULT);
    let mut other = load(vec![RET]);
    table.abort(&mut other, &plain(OpCode::ABORT));
    assert_eq!(other.state(), VMState::FAULT);
}

#[test]
fn contexts_and_handlers() {
    let script = Script::new(vec![PUSH1, 0x0C, 0x01, 0xAA, RET]);
    let mut context = ExecutionContext::new(0, 2);
    assert_eq!(context.rv_count(), 2);
    assert_eq!(context.instruction_pointer(), 0);
    assert_eq!(context.current_instruction(&script).unwrap().opcode, OpCode::PUSH1);
    assert_eq!(context.next_instruction(&script).unwrap().opcode, OpCode::PUSHDATA1);
    let first = context.current_instruction(&script).unwrap();
    assert!(context.move_next(&first, &script));
    assert_eq!(context.instruction_pointer(), 1);
    assert!(context.set_instruction_pointer(5, &script).is_ok());
    assert!(context.set_instruction_pointer(6, &script).is_err());
    assert_eq!(context.instruction_pointer(), 5);
    assert!(context.current_instruction(&script).is_err());
    assert!(context.next_instruction(&script).is_none());
    assert_eq!(context.clone().instruction_pointer(), 5);
    assert_eq!(Instruction::ret().opcode, OpCode::RET);
    assert_eq!(Instruction::ret().size(), 1);
    let clone = context.clone_with_ip(3);
    assert_eq!(clone.rv_count(), 0);
    assert_eq!(clone.instruction_pointer(), 3);
    assert!(clone.local_variables().is_none());
    assert!(clone.arguments().is_none());
    assert!(clone.try_stack().is_none());
    let mut handler = ExceptionHandlingContext::new(Some(4), None);
    assert_eq!(handler.state(), ExceptionHandlingState::Try);
    assert!(handler.has_catch());
    assert!(!handler.has_finally());
    assert_eq!(handler.catch_pointer(), Some(4));
    assert_eq!(handler.finally_pointer(), None);
    assert_eq!(handler.end_pointer(), None);
    handler.set_state(ExceptionHandlingState::Catch);
    handler.set_end_pointer(9);
    assert_eq!(handler.state(), ExceptionHandlingState::Catch);
    assert_eq!(handler.end_pointer(), Some(9));
}
