use crate::jump_table::JumpTable;
use crate::vm::execution_engine::ExecutionEngine;
use crate::vm::instruction::Instruction;
use crate::vm::op_code::OpCode;
use vstd::prelude::*;

verus! {

impl JumpTable {
    /// Flips every bit of the integer on top of the stack. Where the handler fails, the engine faults and is otherwise as it was.
    pub fn invert(&self, engine: &mut ExecutionEngine, instruction: &Instruction)
        ensures
            final(engine)@ == old(engine)@.executed(OpCode::INVERT, instruction.operand@),
    {
        engine.perform(OpCode::INVERT, instruction);
    }

    /// Replaces the two integers on top of the stack by their bitwise and. Where the handler fails, the engine faults and is otherwise as it was.
    pub fn and(&self, engine: &mut ExecutionEngine, instruction: &Instruction)
        ensures
            final(engine)@ == old(engine)@.executed(OpCode::AND, instruction.operand@),
    {
        engine.perform(OpCode::AND, instruction);
    }

    /// Replaces the two integers on top of the stack by their bitwise or. Where the handler fails, the engine faults and is otherwise as it was.
    pub fn or(&self, engine: &mut ExecutionEngine, instruction: &Instruction)
        ensures
            final(engine)@ == old(engine)@.executed(OpCode::OR, instruction.operand@),
    {
        engine.perform(OpCode::OR, instruction);
    }

    /// Replaces the two integers on top of the stack by their bitwise exclusive or. Where the handler fails, the engine faults and is otherwise as it was.
    pub fn xor(&self, engine: &mut ExecutionEngine, instruction: &Instruction)
        ensures
            final(engine)@ == old(engine)@.executed(OpCode::XOR, instruction.operand@),
    {
        engine.perform(OpCode::XOR, instruction);
    }

    /// Replaces the two items on top of the stack by the truth of their equality. Where the handler fails, the engine faults and is otherwise as it was.
    pub fn equal(&self, engine: &mut ExecutionEngine, instruction: &Instruction)
        ensures
            final(engine)@ == old(engine)@.executed(OpCode::EQUAL, instruction.operand@),
    {
        engine.perform(OpCode::EQUAL, instruction);
    }

    /// Replaces the two items on top of the stack by the truth of their inequality. Where the handler fails, the engine faults and is otherwise as it was.
    pub fn not_equal(&self, engine: &mut ExecutionEngine, instruction: &Instruction)
        ensures
            final(engine)@ == old(engine)@.executed(OpCode::NOTEQUAL, instruction.operand@),
    {
        engine.perform(OpCode::NOTEQUAL, instruction);
    }
}

} // verus!
