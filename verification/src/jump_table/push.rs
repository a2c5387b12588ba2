use crate::big_integer::signed_le;
use crate::jump_table::operands::{one, single};
use crate::types::compound_types::vm_compound::CompoundView;
use crate::types::primitive_types::vm_integer::{fits_integer, VMInteger};
use crate::types::stack_item::{copy_bytes, items_view, ItemView, StackItem};
use crate::vm::execution_engine_limits::ExecutionEngineLimits;
use crate::vm::op_code::OpCode;
use crate::vm::reference_counter::{CounterView, ReferenceCounter};
use crate::jump_table::JumpTable;
use crate::vm::execution_engine::ExecutionEngine;
use crate::vm::instruction::Instruction;
use vstd::prelude::*;

verus! {

/// Whether the code pushes the integer that its operand encodes.
pub open spec fn is_push_int(op: OpCode) -> bool {
    op == OpCode::PUSHINT8 || op == OpCode::PUSHINT16 || op == OpCode::PUSHINT32 || op
        == OpCode::PUSHINT64 || op == OpCode::PUSHINT128 || op == OpCode::PUSHINT256
}

/// Whether the code pushes its operand as data.
pub open spec fn is_push_data(op: OpCode) -> bool {
    op == OpCode::PUSHDATA1 || op == OpCode::PUSHDATA2 || op == OpCode::PUSHDATA4
}

/// Whether the code pushes a small number: -1 to 16.
pub open spec fn is_push_small(op: OpCode) -> bool {
    op == OpCode::PUSHM1 || (OpCode::PUSH0.code() <= op.code() <= OpCode::PUSH16.code())
}

/// The small number that the code pushes.
pub open spec fn small_value(op: OpCode) -> int {
    if op == OpCode::PUSHM1 {
        -1
    } else {
        op.code() - OpCode::PUSH0.code()
    }
}

/// Whether the code pushes a constant that its operand and its own byte
/// determine.
pub open spec fn is_push(op: OpCode) -> bool {
    is_push_int(op) || is_push_data(op) || is_push_small(op) || op == OpCode::PUSHT || op
        == OpCode::PUSHF || op == OpCode::PUSHNULL
}

/// The length from which pushed data becomes a buffer.
pub open spec fn buffer_threshold() -> int {
    1024
}

/// What a code that pushes a constant pushes, and the counter afterwards.
/// `PUSHINT` pushes the integer that its operand encodes in two's
/// complement. `PUSHDATA` has no result for data above the item limit; it
/// pushes data of at most 1024 bytes as a byte string and longer data as a
/// new buffer.
pub open spec fn push_compute(
    op: OpCode,
    operand: Seq<u8>,
    heap: CounterView,
    limits: ExecutionEngineLimits,
) -> Option<(CounterView, Seq<ItemView>)> {
    if is_push_int(op) {
        if operand.len() == op.spec_operand_size() && fits_integer(signed_le(operand)) {
            Some((heap, single(ItemView::Integer(signed_le(operand)))))
        } else {
            None
        }
    } else if is_push_small(op) {
        Some((heap, single(ItemView::Integer(small_value(op)))))
    } else if op == OpCode::PUSHT {
        Some((heap, single(ItemView::Boolean(true))))
    } else if op == OpCode::PUSHF {
        Some((heap, single(ItemView::Boolean(false))))
    } else if op == OpCode::PUSHNULL {
        Some((heap, single(ItemView::Null)))
    } else if is_push_data(op) {
        if !limits.spec_item_size_ok(operand.len() as int) {
            None
        } else if operand.len() <= buffer_threshold() {
            Some((heap, single(ItemView::ByteString(operand))))
        } else {
            Some(
                (
                    heap.adopt(CompoundView::Buffer(operand)),
                    single(ItemView::Buffer(heap.items.len() as usize)),
                ),
            )
        }
    } else {
        None
    }
}

/// Computes what a code that pushes a constant pushes.
pub fn push_op(
    op: OpCode,
    operand: &Vec<u8>,
    heap: &mut ReferenceCounter,
    limits: &ExecutionEngineLimits,
) -> (r: Option<Vec<StackItem>>)
    ensures
        r is Some <==> push_compute(op, operand@, old(heap)@, *limits) is Some,
        r is Some ==> (final(heap)@, items_view(r->Some_0@)) == push_compute(
            op,
            operand@,
            old(heap)@,
            *limits,
        )->Some_0,
{
    match op {
        OpCode::PUSHINT8
        | OpCode::PUSHINT16
        | OpCode::PUSHINT32
        | OpCode::PUSHINT64
        | OpCode::PUSHINT128
        | OpCode::PUSHINT256 => {
            if operand.len() != op.operand_size() as usize {
                return None;
            }
            match VMInteger::from_signed_bytes_le(operand.as_slice()) {
                Some(v) => Some(one(StackItem::Integer(v))),
                None => None,
            }
        },
        OpCode::PUSHT => Some(one(StackItem::Boolean(true))),
        OpCode::PUSHF => Some(one(StackItem::Boolean(false))),
        OpCode::PUSHNULL => Some(one(StackItem::Null)),
        OpCode::PUSHDATA1 | OpCode::PUSHDATA2 | OpCode::PUSHDATA4 => {
            if !limits.assert_max_item_size(operand.len()) {
                return None;
            }
            if operand.len() <= 1024 {
                Some(one(StackItem::ByteString(copy_bytes(operand.as_slice()))))
            } else {
                let id = heap.new_buffer(copy_bytes(operand.as_slice()));
                Some(one(StackItem::Buffer(id)))
            }
        },
        OpCode::PUSHM1 => Some(one(StackItem::Integer(VMInteger::from_i64(-1)))),
        _ => {
            let code: u8 = op.to_u8();
            if code >= 0x10 && code <= 0x20 {
                Some(one(StackItem::Integer(VMInteger::from_i64((code - 0x10) as i64))))
            } else {
                None
            }
        },
    }
}

impl JumpTable {
    /// Pushes the integer that the 1 operand bytes encode. Where the handler fails, the engine faults and is otherwise as it was.
    pub fn push_int8(&self, engine: &mut ExecutionEngine, instruction: &Instruction)
        ensures
            final(engine)@ == old(engine)@.executed(OpCode::PUSHINT8, instruction.operand@),
    {
        engine.perform(OpCode::PUSHINT8, instruction);
    }

    /// Pushes the integer that the 2 operand bytes encode. Where the handler fails, the engine faults and is otherwise as it was.
    pub fn push_int16(&self, engine: &mut ExecutionEngine, instruction: &Instruction)
        ensures
            final(engine)@ == old(engine)@.executed(OpCode::PUSHINT16, instruction.operand@),
    {
        engine.perform(OpCode::PUSHINT16, instruction);
    }

    /// Pushes the integer that the 4 operand bytes encode. Where the handler fails, the engine faults and is otherwise as it was.
    pub fn push_int32(&self, engine: &mut ExecutionEngine, instruction: &Instruction)
        ensures
            final(engine)@ == old(engine)@.executed(OpCode::PUSHINT32, instruction.operand@),
    {
        engine.perform(OpCode::PUSHINT32, instruction);
    }

    /// Pushes the integer that the 8 operand bytes encode. Where the handler fails, the engine faults and is otherwise as it was.
    pub fn push_int64(&self, engine: &mut ExecutionEngine, instruction: &Instruction)
        ensures
            final(engine)@ == old(engine)@.executed(OpCode::PUSHINT64, instruction.operand@),
    {
        engine.perform(OpCode::PUSHINT64, instruction);
    }

    /// Pushes the integer that the 16 operand bytes encode. Where the handler fails, the engine faults and is otherwise as it was.
    pub fn push_int128(&self, engine: &mut ExecutionEngine, instruction: &Instruction)
        ensures
            final(engine)@ == old(engine)@.executed(OpCode::PUSHINT128, instruction.operand@),
    {
        engine.perform(OpCode::PUSHINT128, instruction);
    }

    /// Pushes the integer that the 32 operand bytes encode. Where the handler fails, the engine faults and is otherwise as it was.
    pub fn push_int256(&self, engine: &mut ExecutionEngine, instruction: &Instruction)
        ensures
            final(engine)@ == old(engine)@.executed(OpCode::PUSHINT256, instruction.operand@),
    {
        engine.perform(OpCode::PUSHINT256, instruction);
    }

    /// Pushes true. Where the handler fails, the engine faults and is otherwise as it was.
    pub fn push_true(&self, engine: &mut ExecutionEngine, instruction: &Instruction)
        ensures
            final(engine)@ == old(engine)@.executed(OpCode::PUSHT, instruction.operand@),
    {
        engine.perform(OpCode::PUSHT, instruction);
    }

    /// Pushes false. Where the handler fails, the engine faults and is otherwise as it was.
    pub fn push_false(&self, engine: &mut ExecutionEngine, instruction: &Instruction)
        ensures
            final(engine)@ == old(engine)@.executed(OpCode::PUSHF, instruction.operand@),
    {
        engine.perform(OpCode::PUSHF, instruction);
    }

    /// Pushes a pointer to the position that the offset gives. Where the handler fails, the engine faults and is otherwise as it was.
    pub fn push_a(&self, engine: &mut ExecutionEngine, instruction: &Instruction)
        ensures
            final(engine)@ == old(engine)@.executed(OpCode::PUSHA, instruction.operand@),
    {
        engine.perform(OpCode::PUSHA, instruction);
    }

    /// Pushes null. Where the handler fails, the engine faults and is otherwise as it was.
    pub fn push_null(&self, engine: &mut ExecutionEngine, instruction: &Instruction)
        ensures
            final(engine)@ == old(engine)@.executed(OpCode::PUSHNULL, instruction.operand@),
    {
        engine.perform(OpCode::PUSHNULL, instruction);
    }

    /// Pushes the data, whose length one byte gives. Where the handler fails, the engine faults and is otherwise as it was.
    pub fn push_data1(&self, engine: &mut ExecutionEngine, instruction: &Instruction)
        ensures
            final(engine)@ == old(engine)@.executed(OpCode::PUSHDATA1, instruction.operand@),
    {
        engine.perform(OpCode::PUSHDATA1, instruction);
    }

    /// Pushes the data, whose length two bytes give. Where the handler fails, the engine faults and is otherwise as it was.
    pub fn push_data2(&self, engine: &mut ExecutionEngine, instruction: &Instruction)
        ensures
            final(engine)@ == old(engine)@.executed(OpCode::PUSHDATA2, instruction.operand@),
    {
        engine.perform(OpCode::PUSHDATA2, instruction);
    }

    /// Pushes the data, whose length four bytes give. Where the handler fails, the engine faults and is otherwise as it was.
    pub fn push_data4(&self, engine: &mut ExecutionEngine, instruction: &Instruction)
        ensures
            final(engine)@ == old(engine)@.executed(OpCode::PUSHDATA4, instruction.operand@),
    {
        engine.perform(OpCode::PUSHDATA4, instruction);
    }

    /// Pushes the number -1. Where the handler fails, the engine faults and is otherwise as it was.
    pub fn push_m1(&self, engine: &mut ExecutionEngine, instruction: &Instruction)
        ensures
            final(engine)@ == old(engine)@.executed(OpCode::PUSHM1, instruction.operand@),
    {
        engine.perform(OpCode::PUSHM1, instruction);
    }

    /// Pushes the number 0. Where the handler fails, the engine faults and is otherwise as it was.
    pub fn push0(&self, engine: &mut ExecutionEngine, instruction: &Instruction)
        ensures
            final(engine)@ == old(engine)@.executed(OpCode::PUSH0, instruction.operand@),
    {
        engine.perform(OpCode::PUSH0, instruction);
    }

    /// Pushes the number 1. Where the handler fails, the engine faults and is otherwise as it was.
    pub fn push1(&self, engine: &mut ExecutionEngine, instruction: &Instruction)
        ensures
            final(engine)@ == old(engine)@.executed(OpCode::PUSH1, instruction.operand@),
    {
        engine.perform(OpCode::PUSH1, instruction);
    }

    /// Pushes the number 2. Where the handler fails, the engine faults and is otherwise as it was.
    pub fn push2(&self, engine: &mut ExecutionEngine, instruction: &Instruction)
        ensures
            final(engine)@ == old(engine)@.executed(OpCode::PUSH2, instruction.operand@),
    {
        engine.perform(OpCode::PUSH2, instruction);
    }

    /// Pushes the number 3. Where the handler fails, the engine faults and is otherwise as it was.
    pub fn push3(&self, engine: &mut ExecutionEngine, instruction: &Instruction)
        ensures
            final(engine)@ == old(engine)@.executed(OpCode::PUSH3, instruction.operand@),
    {
        engine.perform(OpCode::PUSH3, instruction);
    }

    /// Pushes the number 4. Where the handler fails, the engine faults and is otherwise as it was.
    pub fn push4(&self, engine: &mut ExecutionEngine, instruction: &Instruction)
        ensures
            final(engine)@ == old(engine)@.executed(OpCode::PUSH4, instruction.operand@),
    {
        engine.perform(OpCode::PUSH4, instruction);
    }

    /// Pushes the number 5. Where the handler fails, the engine faults and is otherwise as it was.
    pub fn push5(&self, engine: &mut ExecutionEngine, instruction: &Instruction)
        ensures
            final(engine)@ == old(engine)@.executed(OpCode::PUSH5, instruction.operand@),
    {
        engine.perform(OpCode::PUSH5, instruction);
    }

    /// Pushes the number 6. Where the handler fails, the engine faults and is otherwise as it was.
    pub fn push6(&self, engine: &mut ExecutionEngine, instruction: &Instruction)
        ensures
            final(engine)@ == old(engine)@.executed(OpCode::PUSH6, instruction.operand@),
    {
        engine.perform(OpCode::PUSH6, instruction);
    }

    /// Pushes the number 7. Where the handler fails, the engine faults and is otherwise as it was.
    pub fn push7(&self, engine: &mut ExecutionEngine, instruction: &Instruction)
        ensures
            final(engine)@ == old(engine)@.executed(OpCode::PUSH7, instruction.operand@),
    {
        engine.perform(OpCode::PUSH7, instruction);
    }

    /// Pushes the number 8. Where the handler fails, the engine faults and is otherwise as it was.
    pub fn push8(&self, engine: &mut ExecutionEngine, instruction: &Instruction)
        ensures
            final(engine)@ == old(engine)@.executed(OpCode::PUSH8, instruction.operand@),
    {
        engine.perform(OpCode::PUSH8, instruction);
    }

    /// Pushes the number 9. Where the handler fails, the engine faults and is otherwise as it was.
    pub fn push9(&self, engine: &mut ExecutionEngine, instruction: &Instruction)
        ensures
            final(engine)@ == old(engine)@.executed(OpCode::PUSH9, instruction.operand@),
    {
        engine.perform(OpCode::PUSH9, instruction);
    }

    /// Pushes the number 10. Where the handler fails, the engine faults and is otherwise as it was.
    pub fn push10(&self, engine: &mut ExecutionEngine, instruction: &Instruction)
        ensures
            final(engine)@ == old(engine)@.executed(OpCode::PUSH10, instruction.operand@),
    {
        engine.perform(OpCode::PUSH10, instruction);
    }

    /// Pushes the number 11. Where the handler fails, the engine faults and is otherwise as it was.
    pub fn push11(&self, engine: &mut ExecutionEngine, instruction: &Instruction)
        ensures
            final(engine)@ == old(engine)@.executed(OpCode::PUSH11, instruction.operand@),
    {
        engine.perform(OpCode::PUSH11, instruction);
    }

    /// Pushes the number 12. Where the handler fails, the engine faults and is otherwise as it was.
    pub fn push12(&self, engine: &mut ExecutionEngine, instruction: &Instruction)
        ensures
            final(engine)@ == old(engine)@.executed(OpCode::PUSH12, instruction.operand@),
    {
        engine.perform(OpCode::PUSH12, instruction);
    }

    /// Pushes the number 13. Where the handler fails, the engine faults and is otherwise as it was.
    pub fn push13(&self, engine: &mut ExecutionEngine, instruction: &Instruction)
        ensures
            final(engine)@ == old(engine)@.executed(OpCode::PUSH13, instruction.operand@),
    {
        engine.perform(OpCode::PUSH13, instruction);
    }

    /// Pushes the number 14. Where the handler fails, the engine faults and is otherwise as it was.
    pub fn push14(&self, engine: &mut ExecutionEngine, instruction: &Instruction)
        ensures
            final(engine)@ == old(engine)@.executed(OpCode::PUSH14, instruction.operand@),
    {
        engine.perform(OpCode::PUSH14, instruction);
    }

    /// Pushes the number 15. Where the handler fails, the engine faults and is otherwise as it was.
    pub fn push15(&self, engine: &mut ExecutionEngine, instruction: &Instruction)
        ensures
            final(engine)@ == old(engine)@.executed(OpCode::PUSH15, instruction.operand@),
    {
        engine.perform(OpCode::PUSH15, instruction);
    }

    /// Pushes the number 16. Where the handler fails, the engine faults and is otherwise as it was.
    pub fn push16(&self, engine: &mut ExecutionEngine, instruction: &Instruction)
        ensures
            final(engine)@ == old(engine)@.executed(OpCode::PUSH16, instruction.operand@),
    {
        engine.perform(OpCode::PUSH16, instruction);
    }
}

} // verus!
