use crate::types::primitive_types::vm_integer::VMInteger;
use crate::types::stack_item::{ItemView, StackItem};
use crate::vm::execution_engine::{EngineView, ExecutionEngine};
use crate::vm::op_code::OpCode;
use crate::jump_table::JumpTable;
use crate::vm::instruction::Instruction;
use vstd::prelude::*;

verus! {

/// Whether the code only rearranges the current evaluation stack.
pub open spec fn is_stack_op(op: OpCode) -> bool {
    op == OpCode::DEPTH || op == OpCode::DROP || op == OpCode::NIP || op == OpCode::XDROP || op
        == OpCode::CLEAR || op == OpCode::DUP || op == OpCode::OVER || op == OpCode::PICK || op
        == OpCode::TUCK || op == OpCode::SWAP || op == OpCode::ROT || op == OpCode::ROLL || op
        == OpCode::REVERSE3 || op == OpCode::REVERSE4 || op == OpCode::REVERSEN
}

impl EngineView {
    /// The machine after the item `index` places below the top of the
    /// current evaluation stack was pushed once more.
    pub open spec fn copied_up(self, index: int) -> Option<EngineView> {
        match self.peek(index) {
            Some(item) => self.push(item),
            None => None,
        }
    }

    /// The machine after the item `index` places below the top of the
    /// current evaluation stack was moved to the top.
    pub open spec fn moved_up(self, index: int) -> Option<EngineView> {
        match self.remove(index) {
            Some((s, item)) => s.push(item),
            None => None,
        }
    }

    /// The machine after a code that rearranges the current evaluation
    /// stack. `DEPTH` pushes the number of items. `DROP` removes the top,
    /// `NIP` the item below it, `XDROP` the item as many places below the
    /// top as the popped number says, `CLEAR` everything. `DUP` and `OVER`
    /// push the top and the item below it once more, `PICK` the item that
    /// the popped number names. `TUCK` inserts the top below the item under
    /// it. `SWAP` and `ROT` move the second and the third item to the top,
    /// `ROLL` the item that the popped number names. `REVERSE3`,
    /// `REVERSE4` and `REVERSEN` put the top three, four, or as many items
    /// as the popped number says, in the opposite order.
    pub open spec fn stack_op(self, op: OpCode) -> Option<EngineView> {
        match op {
            OpCode::DEPTH => if self.ready() {
                self.push(ItemView::Integer(self.frame().stack.len() as int))
            } else {
                None
            },
            OpCode::DROP => match self.pop() {
                Some((s, _)) => Some(s),
                None => None,
            },
            OpCode::NIP => match self.remove(1) {
                Some((s, _)) => Some(s),
                None => None,
            },
            OpCode::XDROP => match self.pop_size() {
                Some((s, n)) => match s.remove(n as int) {
                    Some((t, _)) => Some(t),
                    None => None,
                },
                None => None,
            },
            OpCode::CLEAR => self.after_operands(self.operands().clear()),
            OpCode::DUP => self.copied_up(0),
            OpCode::OVER => self.copied_up(1),
            OpCode::PICK => match self.pop_size() {
                Some((s, n)) => s.copied_up(n as int),
                None => None,
            },
            OpCode::TUCK => match self.peek(0) {
                Some(item) => self.after_operands(self.operands().insert(2, item)),
                None => None,
            },
            OpCode::SWAP => self.moved_up(1),
            OpCode::ROT => self.moved_up(2),
            OpCode::ROLL => match self.pop_size() {
                Some((s, n)) => if n == 0 {
                    Some(s)
                } else {
                    s.moved_up(n as int)
                },
                None => None,
            },
            OpCode::REVERSE3 => self.after_operands(self.operands().reverse(3)),
            OpCode::REVERSE4 => self.after_operands(self.operands().reverse(4)),
            OpCode::REVERSEN => match self.pop_size() {
                Some((s, n)) => s.after_operands(s.operands().reverse(n as int)),
                None => None,
            },
            _ => None,
        }
    }
}

impl ExecutionEngine {
    /// Pushes the item `index` places below the top once more.
    pub fn copy_up(&mut self, index: usize) -> (ok: bool)
        ensures
            ok <==> old(self)@.copied_up(index as int) is Some,
            ok ==> final(self)@ == old(self)@.copied_up(index as int)->Some_0,
    {
        match self.peek_item(index) {
            Some(item) => self.push_item(item),
            None => false,
        }
    }

    /// Moves the item `index` places below the top to the top.
    pub fn move_up(&mut self, index: usize) -> (ok: bool)
        ensures
            ok <==> old(self)@.moved_up(index as int) is Some,
            ok ==> final(self)@ == old(self)@.moved_up(index as int)->Some_0,
    {
        match self.remove_item(index) {
            Some(item) => self.push_item(item),
            None => false,
        }
    }

    /// Executes a code that rearranges the current evaluation stack.
    pub fn run_stack_op(&mut self, op: OpCode) -> (ok: bool)
        ensures
            ok <==> old(self)@.stack_op(op) is Some,
            ok ==> final(self)@ == old(self)@.stack_op(op)->Some_0,
    {
        match op {
            OpCode::DEPTH => {
                if !self.ready() {
                    return false;
                }
                let at = self.frame_index();
                let depth: usize = self.shared_states[at].evaluation_stack.count();
                self.push_item(StackItem::Integer(VMInteger::from_usize(depth)))
            },
            OpCode::DROP => self.pop_item().is_some(),
            OpCode::NIP => self.remove_item(1).is_some(),
            OpCode::XDROP => match self.pop_size() {
                Some(n) => self.remove_item(n).is_some(),
                None => false,
            },
            OpCode::CLEAR => self.clear_stack(),
            OpCode::DUP => self.copy_up(0),
            OpCode::OVER => self.copy_up(1),
            OpCode::PICK => match self.pop_size() {
                Some(n) => self.copy_up(n),
                None => false,
            },
            OpCode::TUCK => match self.peek_item(0) {
                Some(item) => self.insert_item(2, item),
                None => false,
            },
            OpCode::SWAP => self.move_up(1),
            OpCode::ROT => self.move_up(2),
            OpCode::ROLL => match self.pop_size() {
                Some(n) => if n == 0 {
                    true
                } else {
                    self.move_up(n)
                },
                None => false,
            },
            OpCode::REVERSE3 => self.reverse_top(3),
            OpCode::REVERSE4 => self.reverse_top(4),
            OpCode::REVERSEN => match self.pop_size() {
                Some(n) => self.reverse_top(n),
                None => false,
            },
            _ => false,
        }
    }
}

impl JumpTable {
    /// Pushes the number of items on the stack. Where the handler fails, the engine faults and is otherwise as it was.
    pub fn depth(&self, engine: &mut ExecutionEngine, instruction: &Instruction)
        ensures
            final(engine)@ == old(engine)@.executed(OpCode::DEPTH, instruction.operand@),
    {
        engine.perform(OpCode::DEPTH, instruction);
    }

    /// Removes the top of the stack. Where the handler fails, the engine faults and is otherwise as it was.
    pub fn drop(&self, engine: &mut ExecutionEngine, instruction: &Instruction)
        ensures
            final(engine)@ == old(engine)@.executed(OpCode::DROP, instruction.operand@),
    {
        engine.perform(OpCode::DROP, instruction);
    }

    /// Removes the item below the top of the stack. Where the handler fails, the engine faults and is otherwise as it was.
    pub fn nip(&self, engine: &mut ExecutionEngine, instruction: &Instruction)
        ensures
            final(engine)@ == old(engine)@.executed(OpCode::NIP, instruction.operand@),
    {
        engine.perform(OpCode::NIP, instruction);
    }

    /// Pops a number and removes the item that many places below the top. Where the handler fails, the engine faults and is otherwise as it was.
    pub fn xdrop(&self, engine: &mut ExecutionEngine, instruction: &Instruction)
        ensures
            final(engine)@ == old(engine)@.executed(OpCode::XDROP, instruction.operand@),
    {
        engine.perform(OpCode::XDROP, instruction);
    }

    /// Removes every item from the stack. Where the handler fails, the engine faults and is otherwise as it was.
    pub fn clear(&self, engine: &mut ExecutionEngine, instruction: &Instruction)
        ensures
            final(engine)@ == old(engine)@.executed(OpCode::CLEAR, instruction.operand@),
    {
        engine.perform(OpCode::CLEAR, instruction);
    }

    /// Pushes the top of the stack once more. Where the handler fails, the engine faults and is otherwise as it was.
    pub fn dup(&self, engine: &mut ExecutionEngine, instruction: &Instruction)
        ensures
            final(engine)@ == old(engine)@.executed(OpCode::DUP, instruction.operand@),
    {
        engine.perform(OpCode::DUP, instruction);
    }

    /// Pushes the item below the top of the stack once more. Where the handler fails, the engine faults and is otherwise as it was.
    pub fn over(&self, engine: &mut ExecutionEngine, instruction: &Instruction)
        ensures
            final(engine)@ == old(engine)@.executed(OpCode::OVER, instruction.operand@),
    {
        engine.perform(OpCode::OVER, instruction);
    }

    /// Pops a number and pushes the item that many places below the top once more. Where the handler fails, the engine faults and is otherwise as it was.
    pub fn pick(&self, engine: &mut ExecutionEngine, instruction: &Instruction)
        ensures
            final(engine)@ == old(engine)@.executed(OpCode::PICK, instruction.operand@),
    {
        engine.perform(OpCode::PICK, instruction);
    }

    /// Inserts the top of the stack below the item under it. Where the handler fails, the engine faults and is otherwise as it was.
    pub fn tuck(&self, engine: &mut ExecutionEngine, instruction: &Instruction)
        ensures
            final(engine)@ == old(engine)@.executed(OpCode::TUCK, instruction.operand@),
    {
        engine.perform(OpCode::TUCK, instruction);
    }

    /// Swaps the two items on top of the stack. Where the handler fails, the engine faults and is otherwise as it was.
    pub fn swap(&self, engine: &mut ExecutionEngine, instruction: &Instruction)
        ensures
            final(engine)@ == old(engine)@.executed(OpCode::SWAP, instruction.operand@),
    {
        engine.perform(OpCode::SWAP, instruction);
    }

    /// Moves the third item of the stack to the top. Where the handler fails, the engine faults and is otherwise as it was.
    pub fn rot(&self, engine: &mut ExecutionEngine, instruction: &Instruction)
        ensures
            final(engine)@ == old(engine)@.executed(OpCode::ROT, instruction.operand@),
    {
        engine.perform(OpCode::ROT, instruction);
    }

    /// Pops a number and moves the item that many places below the top to the top. Where the handler fails, the engine faults and is otherwise as it was.
    pub fn roll(&self, engine: &mut ExecutionEngine, instruction: &Instruction)
        ensures
            final(engine)@ == old(engine)@.executed(OpCode::ROLL, instruction.operand@),
    {
        engine.perform(OpCode::ROLL, instruction);
    }

    /// Reverses the order of the top three items. Where the handler fails, the engine faults and is otherwise as it was.
    pub fn reverse3(&self, engine: &mut ExecutionEngine, instruction: &Instruction)
        ensures
            final(engine)@ == old(engine)@.executed(OpCode::REVERSE3, instruction.operand@),
    {
        engine.perform(OpCode::REVERSE3, instruction);
    }

    /// Reverses the order of the top four items. Where the handler fails, the engine faults and is otherwise as it was.
    pub fn reverse4(&self, engine: &mut ExecutionEngine, instruction: &Instruction)
        ensures
            final(engine)@ == old(engine)@.executed(OpCode::REVERSE4, instruction.operand@),
    {
        engine.perform(OpCode::REVERSE4, instruction);
    }

    /// Pops a number and reverses the order of that many items. Where the handler fails, the engine faults and is otherwise as it was.
    pub fn reverse_n(&self, engine: &mut ExecutionEngine, instruction: &Instruction)
        ensures
            final(engine)@ == old(engine)@.executed(OpCode::REVERSEN, instruction.operand@),
    {
        engine.perform(OpCode::REVERSEN, instruction);
    }
}

} // verus!
