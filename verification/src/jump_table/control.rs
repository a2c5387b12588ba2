use crate::types::stack_item::{ItemView, StackItem};
use crate::types::vm_pointer::VMPointer;
use crate::vm::encoding::{le_i32, le_u16, le_u32, signed8};
use crate::vm::execution_context::{ContextView, ExecutionContext};
use crate::vm::execution_engine::{EngineView, ExecutionEngine, HostCall};
use crate::vm::instruction::Instruction;
use crate::vm::op_code::OpCode;
use crate::vm::vm_state::VMState;
use crate::jump_table::JumpTable;
use vstd::prelude::*;

verus! {

/// Whether the code is a jump.
pub open spec fn is_jump_code(op: OpCode) -> bool {
    OpCode::JMP.code() <= op.code() <= OpCode::JMPLE_L.code()
}

/// The condition of a jump: 0 for `JMP`, 1 for `JMPIF`, 2 for `JMPIFNOT`,
/// then `JMPEQ`, `JMPNE`, `JMPGT`, `JMPGE`, `JMPLT` and `JMPLE`. A short
/// jump and its long form have the same condition.
pub open spec fn jump_kind(op: OpCode) -> int {
    (op.code() - OpCode::JMP.code()) / 2
}

/// Whether the code takes a four-byte offset.
pub open spec fn takes_long_offset(op: OpCode) -> bool {
    (is_jump_code(op) && (op.code() - OpCode::JMP.code()) % 2 == 1) || op == OpCode::CALL_L || op
        == OpCode::ENDTRY_L || op == OpCode::PUSHA
}

/// The offset that the operand of a branch gives: its first byte as a
/// signed number, or for a long form its first four bytes.
pub open spec fn branch_offset(op: OpCode, operand: Seq<u8>) -> Option<int> {
    if takes_long_offset(op) {
        if operand.len() >= 4 {
            Some(le_i32(operand))
        } else {
            None
        }
    } else {
        if operand.len() >= 1 {
            Some(signed8(operand[0]))
        } else {
            None
        }
    }
}

/// Whether the comparison of a conditional jump holds of `a` and `b`.
pub open spec fn jump_compare(kind: int, a: int, b: int) -> bool {
    if kind == 3 {
        a == b
    } else if kind == 4 {
        a != b
    } else if kind == 5 {
        a > b
    } else if kind == 6 {
        a >= b
    } else if kind == 7 {
        a < b
    } else {
        a <= b
    }
}

impl EngineView {
    /// The position `offset` bytes from the current instruction.
    pub open spec fn target(self, offset: int) -> int {
        self.context().instruction_pointer + offset
    }

    /// The machine after the operands of a jump were popped, and whether
    /// the jump is taken. `JMP` always jumps; `JMPIF` and `JMPIFNOT` pop a
    /// truth value; the others pop two numbers and compare the second
    /// popped with the first popped.
    pub open spec fn jump_decision(self, kind: int) -> Option<(EngineView, bool)> {
        if kind == 0 {
            Some((self, true))
        } else if kind == 1 || kind == 2 {
            match self.pop_boolean() {
                Some((s, b)) => Some((s, if kind == 1 { b } else { !b })),
                None => None,
            }
        } else {
            match self.pop_integer() {
                Some((s, second)) => match s.pop_integer() {
                    Some((t, first)) => Some((t, jump_compare(kind, first, second))),
                    None => None,
                },
                None => None,
            }
        }
    }

    /// The machine after a jump code: where the jump is taken, the current
    /// context stands at the target, which must lie inside the script.
    pub open spec fn jump_op(self, op: OpCode, operand: Seq<u8>) -> Option<EngineView> {
        match (branch_offset(op, operand), self.jump_decision(jump_kind(op))) {
            (Some(offset), Some((s, taken))) => if taken {
                s.jumped_to(s.target(offset))
            } else {
                Some(s)
            },
            _ => None,
        }
    }

    /// The machine after a call to `position` of the current script: a new
    /// context of the same shared states, without slots and handlers,
    /// becomes the current one. There is no result for a position outside
    /// the script and where the invocation stack is full.
    pub open spec fn called(self, position: int) -> Option<EngineView> {
        if self.ready() && 0 <= position <= self.frame().script.value.len()
            && self.invocation.len() < self.limits.max_invocation_stack_size {
            Some(
                EngineView {
                    invocation: self.invocation.push(
                        ContextView::fresh(self.context().shared_states, 0, position as usize),
                    ),
                    ..self
                },
            )
        } else {
            None
        }
    }

    /// The machine after `CALLA`: the popped item must be a pointer into
    /// the current script, which is called.
    pub open spec fn called_pointer(self) -> Option<EngineView> {
        match self.pop() {
            Some((s, item)) => match item {
                ItemView::Pointer(p) => if p.script == s.context().shared_states {
                    s.called(p.position as int)
                } else {
                    None
                },
                _ => None,
            },
            None => None,
        }
    }

    /// The machine after a code that asks the host for a service: it pauses
    /// with the request pending.
    pub open spec fn requested(self, call: HostCall) -> Option<EngineView> {
        if self.ready() {
            Some(EngineView { pending: Some(call), state: VMState::BREAK, ..self })
        } else {
            None
        }
    }

    /// The machine after `PUSHA`: a pointer to the position `offset` bytes
    /// from the current instruction, which must lie in the script or at its
    /// end, is pushed.
    pub open spec fn pushed_address(self, offset: int) -> Option<EngineView> {
        if self.ready() && 0 <= self.target(offset) <= self.frame().script.value.len() {
            self.push(
                ItemView::Pointer(
                    VMPointer {
                        script: self.context().shared_states,
                        position: self.target(offset) as usize,
                    },
                ),
            )
        } else {
            None
        }
    }

    /// The machine after `ASSERT`: the popped truth value must be true.
    pub open spec fn asserted(self) -> Option<EngineView> {
        match self.pop_boolean() {
            Some((s, b)) => if b {
                Some(s)
            } else {
                None
            },
            None => None,
        }
    }
}

/// The offset that the operand of a branch gives.
pub fn read_branch_offset(op: OpCode, instruction: &Instruction) -> (r: Option<i32>)
    ensures
        r is Some <==> branch_offset(op, instruction.operand@) is Some,
        r is Some ==> r->Some_0 == branch_offset(op, instruction.operand@)->Some_0,
{
    let code: u8 = op.to_u8();
    let long: bool = (code >= 0x22 && code <= 0x33 && (code - 0x22) % 2 == 1) || matches!(
        op,
        OpCode::CALL_L | OpCode::ENDTRY_L | OpCode::PUSHA
    );
    if long {
        if instruction.operand.len() >= 4 {
            Some(instruction.token_i32())
        } else {
            None
        }
    } else {
        if instruction.operand.len() >= 1 {
            Some(instruction.token_i8() as i32)
        } else {
            None
        }
    }
}

impl ExecutionEngine {
    /// The position `offset` bytes from the current instruction.
    pub fn target(&self, offset: i32) -> (r: i128)
        requires
            self@.ready(),
        ensures
            r == self@.target(offset as int),
    {
        self.position() as i128 + offset as i128
    }

    /// Pops the operands of a jump and says whether the jump is taken.
    pub fn decide_jump(&mut self, kind: u8) -> (r: Option<bool>)
        ensures
            r is Some <==> old(self)@.jump_decision(kind as int) is Some,
            r is Some ==> (final(self)@, r->Some_0) == old(self)@.jump_decision(kind as int)->Some_0,
    {
        if kind == 0 {
            Some(true)
        } else if kind == 1 || kind == 2 {
            match self.pop_boolean() {
                Some(b) => Some(if kind == 1 { b } else { !b }),
                None => None,
            }
        } else {
            let second = match self.pop_integer() {
                Some(v) => v,
                None => {
                    return None;
                },
            };
            let first = match self.pop_integer() {
                Some(v) => v,
                None => {
                    return None;
                },
            };
            let a = first.value();
            let b = second.value();
            Some(
                if kind == 3 {
                    a.equals(b)
                } else if kind == 4 {
                    !a.equals(b)
                } else if kind == 5 {
                    b.lt(a)
                } else if kind == 6 {
                    b.le(a)
                } else if kind == 7 {
                    a.lt(b)
                } else {
                    a.le(b)
                },
            )
        }
    }

    /// Executes a jump code.
    pub fn run_jump(&mut self, op: OpCode, instruction: &Instruction) -> (ok: bool)
        requires
            is_jump_code(op),
        ensures
            ok <==> old(self)@.jump_op(op, instruction.operand@) is Some,
            ok ==> final(self)@ == old(self)@.jump_op(op, instruction.operand@)->Some_0,
    {
        let offset = match read_branch_offset(op, instruction) {
            Some(o) => o,
            None => {
                return false;
            },
        };
        let kind: u8 = (op.to_u8() - 0x22) / 2;
        match self.decide_jump(kind) {
            Some(taken) => {
                if taken {
                    if !self.ready() {
                        return false;
                    }
                    let position = self.target(offset);
                    self.jump_to(position)
                } else {
                    true
                }
            },
            None => false,
        }
    }

    /// Calls the position of the current script.
    pub fn call_position(&mut self, position: i128) -> (ok: bool)
        ensures
            ok <==> old(self)@.called(position as int) is Some,
            ok ==> final(self)@ == old(self)@.called(position as int)->Some_0,
    {
        if !self.ready() {
            return false;
        }
        let len: usize = self.script_len();
        if position < 0 || position > len as i128 {
            return false;
        }
        if self.invocation_stack.len() >= self.limits.max_invocation_stack_size {
            return false;
        }
        let n: usize = self.invocation_stack.len();
        let context = self.invocation_stack[n - 1].clone_with_ip(position as usize);
        self.invocation_stack.push(context);
        assert(self@.invocation =~= old(self)@.called(position as int)->Some_0.invocation);
        assert(self@.shared =~= old(self)@.shared);
        true
    }

    /// Executes `CALLA`.
    pub fn call_pointer(&mut self) -> (ok: bool)
        ensures
            ok <==> old(self)@.called_pointer() is Some,
            ok ==> final(self)@ == old(self)@.called_pointer()->Some_0,
    {
        let item = match self.pop_item() {
            Some(item) => item,
            None => {
                return false;
            },
        };
        match item {
            StackItem::Pointer(p) => {
                if p.script != self.frame_index() {
                    return false;
                }
                self.call_position(p.position as i128)
            },
            _ => false,
        }
    }

    /// Pauses the machine with a request to the host.
    pub fn request(&mut self, call: HostCall) -> (ok: bool)
        ensures
            ok <==> old(self)@.requested(call) is Some,
            ok ==> final(self)@ == old(self)@.requested(call)->Some_0,
            !ok ==> final(self)@ == old(self)@,
    {
        if !self.ready() {
            return false;
        }
        self.pending_call = Some(call);
        self.state = VMState::BREAK;
        true
    }

    /// Executes `PUSHA`.
    pub fn push_address(&mut self, offset: i32) -> (ok: bool)
        ensures
            ok <==> old(self)@.pushed_address(offset as int) is Some,
            ok ==> final(self)@ == old(self)@.pushed_address(offset as int)->Some_0,
    {
        if !self.ready() {
            return false;
        }
        let position = self.target(offset);
        let len: usize = self.script_len();
        if position < 0 || position > len as i128 {
            return false;
        }
        let script = self.frame_index();
        self.push_item(StackItem::Pointer(VMPointer::new(script, position as usize)))
    }

    /// Executes `ASSERT`.
    pub fn assert_top(&mut self) -> (ok: bool)
        ensures
            ok <==> old(self)@.asserted() is Some,
            ok ==> final(self)@ == old(self)@.asserted()->Some_0,
    {
        match self.pop_boolean() {
            Some(b) => b,
            None => false,
        }
    }
}

impl JumpTable {
    /// Does nothing. Where the handler fails, the engine faults and is otherwise as it was.
    pub fn nop(&self, engine: &mut ExecutionEngine, instruction: &Instruction)
        ensures
            final(engine)@ == old(engine)@.executed(OpCode::NOP, instruction.operand@),
    {
        engine.perform(OpCode::NOP, instruction);
    }

    /// Jumps, by a one-byte offset. Where the handler fails, the engine faults and is otherwise as it was.
    pub fn jmp(&self, engine: &mut ExecutionEngine, instruction: &Instruction)
        ensures
            final(engine)@ == old(engine)@.executed(OpCode::JMP, instruction.operand@),
    {
        engine.perform(OpCode::JMP, instruction);
    }

    /// Jumps, by a four-byte offset. Where the handler fails, the engine faults and is otherwise as it was.
    pub fn jmp_l(&self, engine: &mut ExecutionEngine, instruction: &Instruction)
        ensures
            final(engine)@ == old(engine)@.executed(OpCode::JMP_L, instruction.operand@),
    {
        engine.perform(OpCode::JMP_L, instruction);
    }

    /// Pops a truth value and jumps if it is true, by a one-byte offset. Where the handler fails, the engine faults and is otherwise as it was.
    pub fn jmp_if(&self, engine: &mut ExecutionEngine, instruction: &Instruction)
        ensures
            final(engine)@ == old(engine)@.executed(OpCode::JMPIF, instruction.operand@),
    {
        engine.perform(OpCode::JMPIF, instruction);
    }

    /// Pops a truth value and jumps if it is true, by a four-byte offset. Where the handler fails, the engine faults and is otherwise as it was.
    pub fn jmp_if_l(&self, engine: &mut ExecutionEngine, instruction: &Instruction)
        ensures
            final(engine)@ == old(engine)@.executed(OpCode::JMPIF_L, instruction.operand@),
    {
        engine.perform(OpCode::JMPIF_L, instruction);
    }

    /// Pops a truth value and jumps if it is false, by a one-byte offset. Where the handler fails, the engine faults and is otherwise as it was.
    pub fn jmp_if_not(&self, engine: &mut ExecutionEngine, instruction: &Instruction)
        ensures
            final(engine)@ == old(engine)@.executed(OpCode::JMPIFNOT, instruction.operand@),
    {
        engine.perform(OpCode::JMPIFNOT, instruction);
    }

    /// Pops a truth value and jumps if it is false, by a four-byte offset. Where the handler fails, the engine faults and is otherwise as it was.
    pub fn jmp_if_not_l(&self, engine: &mut ExecutionEngine, instruction: &Instruction)
        ensures
            final(engine)@ == old(engine)@.executed(OpCode::JMPIFNOT_L, instruction.operand@),
    {
        engine.perform(OpCode::JMPIFNOT_L, instruction);
    }

    /// Pops two numbers and jumps if they are equal, by a one-byte offset. Where the handler fails, the engine faults and is otherwise as it was.
    pub fn jmp_eq(&self, engine: &mut ExecutionEngine, instruction: &Instruction)
        ensures
            final(engine)@ == old(engine)@.executed(OpCode::JMPEQ, instruction.operand@),
    {
        engine.perform(OpCode::JMPEQ, instruction);
    }

    /// Pops two numbers and jumps if they are equal, by a four-byte offset. Where the handler fails, the engine faults and is otherwise as it was.
    pub fn jmp_eq_l(&self, engine: &mut ExecutionEngine, instruction: &Instruction)
        ensures
            final(engine)@ == old(engine)@.executed(OpCode::JMPEQ_L, instruction.operand@),
    {
        engine.perform(OpCode::JMPEQ_L, instruction);
    }

    /// Pops two numbers and jumps if they differ, by a one-byte offset. Where the handler fails, the engine faults and is otherwise as it was.
    pub fn jmp_ne(&self, engine: &mut ExecutionEngine, instruction: &Instruction)
        ensures
            final(engine)@ == old(engine)@.executed(OpCode::JMPNE, instruction.operand@),
    {
        engine.perform(OpCode::JMPNE, instruction);
    }

    /// Pops two numbers and jumps if they differ, by a four-byte offset. Where the handler fails, the engine faults and is otherwise as it was.
    pub fn jmp_ne_l(&self, engine: &mut ExecutionEngine, instruction: &Instruction)
        ensures
            final(engine)@ == old(engine)@.executed(OpCode::JMPNE_L, instruction.operand@),
    {
        engine.perform(OpCode::JMPNE_L, instruction);
    }

    /// Pops two numbers and jumps if the lower one on the stack is greater, by a one-byte offset. Where the handler fails, the engine faults and is otherwise as it was.
    pub fn jmp_gt(&self, engine: &mut ExecutionEngine, instruction: &Instruction)
        ensures
            final(engine)@ == old(engine)@.executed(OpCode::JMPGT, instruction.operand@),
    {
        engine.perform(OpCode::JMPGT, instruction);
    }

    /// Pops two numbers and jumps if the lower one on the stack is greater, by a four-byte offset. Where the handler fails, the engine faults and is otherwise as it was.
    pub fn jmp_gt_l(&self, engine: &mut ExecutionEngine, instruction: &Instruction)
        ensures
            final(engine)@ == old(engine)@.executed(OpCode::JMPGT_L, instruction.operand@),
    {
        engine.perform(OpCode::JMPGT_L, instruction);
    }

    /// Pops two numbers and jumps if the lower one on the stack is greater or equal, by a one-byte offset. Where the handler fails, the engine faults and is otherwise as it was.
    pub fn jmp_ge(&self, engine: &mut ExecutionEngine, instruction: &Instruction)
        ensures
            final(engine)@ == old(engine)@.executed(OpCode::JMPGE, instruction.operand@),
    {
        engine.perform(OpCode::JMPGE, instruction);
    }

    /// Pops two numbers and jumps if the lower one on the stack is greater or equal, by a four-byte offset. Where the handler fails, the engine faults and is otherwise as it was.
    pub fn jmp_ge_l(&self, engine: &mut ExecutionEngine, instruction: &Instruction)
        ensures
            final(engine)@ == old(engine)@.executed(OpCode::JMPGE_L, instruction.operand@),
    {
        engine.perform(OpCode::JMPGE_L, instruction);
    }

    /// Pops two numbers and jumps if the lower one on the stack is less, by a one-byte offset. Where the handler fails, the engine faults and is otherwise as it was.
    pub fn jmp_lt(&self, engine: &mut ExecutionEngine, instruction: &Instruction)
        ensures
            final(engine)@ == old(engine)@.executed(OpCode::JMPLT, instruction.operand@),
    {
        engine.perform(OpCode::JMPLT, instruction);
    }

    /// Pops two numbers and jumps if the lower one on the stack is less, by a four-byte offset. Where the handler fails, the engine faults and is otherwise as it was.
    pub fn jmp_lt_l(&self, engine: &mut ExecutionEngine, instruction: &Instruction)
        ensures
            final(engine)@ == old(engine)@.executed(OpCode::JMPLT_L, instruction.operand@),
    {
        engine.perform(OpCode::JMPLT_L, instruction);
    }

    /// Pops two numbers and jumps if the lower one on the stack is less or equal, by a one-byte offset. Where the handler fails, the engine faults and is otherwise as it was.
    pub fn jmp_le(&self, engine: &mut ExecutionEngine, instruction: &Instruction)
        ensures
            final(engine)@ == old(engine)@.executed(OpCode::JMPLE, instruction.operand@),
    {
        engine.perform(OpCode::JMPLE, instruction);
    }

    /// Pops two numbers and jumps if the lower one on the stack is less or equal, by a four-byte offset. Where the handler fails, the engine faults and is otherwise as it was.
    pub fn jmp_le_l(&self, engine: &mut ExecutionEngine, instruction: &Instruction)
        ensures
            final(engine)@ == old(engine)@.executed(OpCode::JMPLE_L, instruction.operand@),
    {
        engine.perform(OpCode::JMPLE_L, instruction);
    }

    /// Calls the position that a one-byte offset gives. Where the handler fails, the engine faults and is otherwise as it was.
    pub fn call(&self, engine: &mut ExecutionEngine, instruction: &Instruction)
        ensures
            final(engine)@ == old(engine)@.executed(OpCode::CALL, instruction.operand@),
    {
        engine.perform(OpCode::CALL, instruction);
    }

    /// Calls the position that a four-byte offset gives. Where the handler fails, the engine faults and is otherwise as it was.
    pub fn call_l(&self, engine: &mut ExecutionEngine, instruction: &Instruction)
        ensures
            final(engine)@ == old(engine)@.executed(OpCode::CALL_L, instruction.operand@),
    {
        engine.perform(OpCode::CALL_L, instruction);
    }

    /// Pops a pointer into the current script and calls it. Where the handler fails, the engine faults and is otherwise as it was.
    pub fn call_a(&self, engine: &mut ExecutionEngine, instruction: &Instruction)
        ensures
            final(engine)@ == old(engine)@.executed(OpCode::CALLA, instruction.operand@),
    {
        engine.perform(OpCode::CALLA, instruction);
    }

    /// Asks the host to call the token that the operand names. Where the handler fails, the engine faults and is otherwise as it was.
    pub fn call_t(&self, engine: &mut ExecutionEngine, instruction: &Instruction)
        ensures
            final(engine)@ == old(engine)@.executed(OpCode::CALLT, instruction.operand@),
    {
        engine.perform(OpCode::CALLT, instruction);
    }

    /// Faults the machine. Where the handler fails, the engine faults and is otherwise as it was.
    pub fn abort(&self, engine: &mut ExecutionEngine, instruction: &Instruction)
        ensures
            final(engine)@ == old(engine)@.executed(OpCode::ABORT, instruction.operand@),
    {
        engine.perform(OpCode::ABORT, instruction);
    }

    /// Pops a truth value and faults the machine if it is false. Where the handler fails, the engine faults and is otherwise as it was.
    pub fn assert_op(&self, engine: &mut ExecutionEngine, instruction: &Instruction)
        ensures
            final(engine)@ == old(engine)@.executed(OpCode::ASSERT, instruction.operand@),
    {
        engine.perform(OpCode::ASSERT, instruction);
    }

    /// Pops an item and throws it. Where the handler fails, the engine faults and is otherwise as it was.
    pub fn throw(&self, engine: &mut ExecutionEngine, instruction: &Instruction)
        ensures
            final(engine)@ == old(engine)@.executed(OpCode::THROW, instruction.operand@),
    {
        engine.perform(OpCode::THROW, instruction);
    }

    /// Enters a try block with one-byte offsets of its catch and final blocks. Where the handler fails, the engine faults and is otherwise as it was.
    pub fn try_op(&self, engine: &mut ExecutionEngine, instruction: &Instruction)
        ensures
            final(engine)@ == old(engine)@.executed(OpCode::TRY, instruction.operand@),
    {
        engine.perform(OpCode::TRY, instruction);
    }

    /// Enters a try block with four-byte offsets of its catch and final blocks. Where the handler fails, the engine faults and is otherwise as it was.
    pub fn try_l(&self, engine: &mut ExecutionEngine, instruction: &Instruction)
        ensures
            final(engine)@ == old(engine)@.executed(OpCode::TRY_L, instruction.operand@),
    {
        engine.perform(OpCode::TRY_L, instruction);
    }

    /// Leaves the body or the catch block of the innermost try, with a one-byte offset of the end. Where the handler fails, the engine faults and is otherwise as it was.
    pub fn end_try(&self, engine: &mut ExecutionEngine, instruction: &Instruction)
        ensures
            final(engine)@ == old(engine)@.executed(OpCode::ENDTRY, instruction.operand@),
    {
        engine.perform(OpCode::ENDTRY, instruction);
    }

    /// Leaves the body or the catch block of the innermost try, with a four-byte offset of the end. Where the handler fails, the engine faults and is otherwise as it was.
    pub fn end_try_l(&self, engine: &mut ExecutionEngine, instruction: &Instruction)
        ensures
            final(engine)@ == old(engine)@.executed(OpCode::ENDTRY_L, instruction.operand@),
    {
        engine.perform(OpCode::ENDTRY_L, instruction);
    }

    /// Ends the final block of the innermost try. Where the handler fails, the engine faults and is otherwise as it was.
    pub fn end_finally(&self, engine: &mut ExecutionEngine, instruction: &Instruction)
        ensures
            final(engine)@ == old(engine)@.executed(OpCode::ENDFINALLY, instruction.operand@),
    {
        engine.perform(OpCode::ENDFINALLY, instruction);
    }

    /// Returns from the current context. Where the handler fails, the engine faults and is otherwise as it was.
    pub fn ret(&self, engine: &mut ExecutionEngine, instruction: &Instruction)
        ensures
            final(engine)@ == old(engine)@.executed(OpCode::RET, instruction.operand@),
    {
        engine.perform(OpCode::RET, instruction);
    }

    /// Asks the host for the service that the operand names. Where the handler fails, the engine faults and is otherwise as it was.
    pub fn syscall(&self, engine: &mut ExecutionEngine, instruction: &Instruction)
        ensures
            final(engine)@ == old(engine)@.executed(OpCode::SYSCALL, instruction.operand@),
    {
        engine.perform(OpCode::SYSCALL, instruction);
    }
}

} // verus!
