use crate::jump_table::operands::{one, single};
use crate::types::stack_item::{items_view, ItemView, StackItem};
use crate::types::stack_item_type::StackItemType;
use crate::vm::execution_engine_limits::ExecutionEngineLimits;
use crate::vm::op_code::OpCode;
use crate::vm::reference_counter::{CounterView, ReferenceCounter};
use crate::jump_table::JumpTable;
use crate::vm::execution_engine::ExecutionEngine;
use crate::vm::instruction::Instruction;
use vstd::prelude::*;

verus! {

/// The type that the first operand byte names.
pub open spec fn operand_type(operand: Seq<u8>) -> Option<StackItemType> {
    if operand.len() >= 1 {
        StackItemType::spec_from_u8(operand[0])
    } else {
        None
    }
}

/// The number of operands of `ISNULL`, `ISTYPE`, `CONVERT`, `EQUAL` and
/// `NOTEQUAL`.
pub open spec fn types_arity(op: OpCode) -> Option<nat> {
    if op == OpCode::ISNULL || op == OpCode::ISTYPE || op == OpCode::CONVERT {
        Some(1)
    } else if op == OpCode::EQUAL || op == OpCode::NOTEQUAL {
        Some(2)
    } else {
        None
    }
}

/// What the codes that ask for the type or the equality of items push, and
/// the counter afterwards. `ISTYPE` has no result for a byte that is no
/// type and for the type `Any`; `CONVERT` has none for a byte that is no
/// type and where the item does not convert; `EQUAL` and `NOTEQUAL` have
/// none where the comparison gives up.
pub open spec fn types_compute(
    op: OpCode,
    operand: Seq<u8>,
    args: Seq<ItemView>,
    heap: CounterView,
    limits: ExecutionEngineLimits,
) -> Option<(CounterView, Seq<ItemView>)> {
    if op == OpCode::ISNULL && args.len() >= 1 {
        Some((heap, single(ItemView::Boolean(args[0] is Null))))
    } else if op == OpCode::ISTYPE && args.len() >= 1 {
        match operand_type(operand) {
            Some(t) => if t == StackItemType::Any {
                None
            } else {
                Some((heap, single(ItemView::Boolean(args[0].item_type() == t))))
            },
            None => None,
        }
    } else if op == OpCode::CONVERT && args.len() >= 1 {
        match operand_type(operand) {
            Some(t) => match heap.convert(args[0], t) {
                Some((h, item)) => Some((h, single(item))),
                None => None,
            },
            None => None,
        }
    } else if (op == OpCode::EQUAL || op == OpCode::NOTEQUAL) && args.len() >= 2 {
        match heap.equals(
            args[1],
            args[0],
            limits.spec_compare_budget(),
            limits.max_comparable_size as nat,
        ).equal {
            Some(b) => Some((heap, single(ItemView::Boolean(if op == OpCode::EQUAL { b } else { !b })))),
            None => None,
        }
    } else {
        None
    }
}

/// The type that the first operand byte names.
pub fn read_operand_type(operand: &Vec<u8>) -> (r: Option<StackItemType>)
    ensures
        r == operand_type(operand@),
{
    if operand.len() >= 1 {
        StackItemType::from_u8(operand[0])
    } else {
        None
    }
}

/// Computes what `ISNULL`, `ISTYPE`, `CONVERT`, `EQUAL` and `NOTEQUAL` push.
pub fn types_op(
    op: OpCode,
    operand: &Vec<u8>,
    args: &Vec<StackItem>,
    heap: &mut ReferenceCounter,
    limits: &ExecutionEngineLimits,
) -> (r: Option<Vec<StackItem>>)
    ensures
        r is Some <==> types_compute(op, operand@, items_view(args@), old(heap)@, *limits) is Some,
        r is Some ==> (final(heap)@, items_view(r->Some_0@)) == types_compute(
            op,
            operand@,
            items_view(args@),
            old(heap)@,
            *limits,
        )->Some_0,
{
    assert(items_view(args@).len() == args@.len());
    match op {
        OpCode::ISNULL => {
            if args.len() < 1 {
                return None;
            }
            Some(one(StackItem::Boolean(args[0].is_null())))
        },
        OpCode::ISTYPE => {
            if args.len() < 1 {
                return None;
            }
            match read_operand_type(operand) {
                Some(t) => {
                    if matches!(t, StackItemType::Any) {
                        None
                    } else {
                        Some(one(StackItem::Boolean(args[0].get_type() == t)))
                    }
                },
                None => None,
            }
        },
        OpCode::CONVERT => {
            if args.len() < 1 {
                return None;
            }
            match read_operand_type(operand) {
                Some(t) => match args[0].convert_to(t, heap) {
                    Some(item) => Some(one(item)),
                    None => None,
                },
                None => None,
            }
        },
        OpCode::EQUAL | OpCode::NOTEQUAL => {
            if args.len() < 2 {
                return None;
            }
            let same: bool = matches!(op, OpCode::EQUAL);
            match args[1].equals(&args[0], heap, limits) {
                Some(b) => Some(one(StackItem::Boolean(if same { b } else { !b }))),
                None => None,
            }
        },
        _ => None,
    }
}

impl JumpTable {
    /// Replaces the item on top of the stack by the truth of its being null. Where the handler fails, the engine faults and is otherwise as it was.
    pub fn is_null(&self, engine: &mut ExecutionEngine, instruction: &Instruction)
        ensures
            final(engine)@ == old(engine)@.executed(OpCode::ISNULL, instruction.operand@),
    {
        engine.perform(OpCode::ISNULL, instruction);
    }

    /// Replaces the item on top of the stack by the truth of its having the type that the operand names. Where the handler fails, the engine faults and is otherwise as it was.
    pub fn is_type(&self, engine: &mut ExecutionEngine, instruction: &Instruction)
        ensures
            final(engine)@ == old(engine)@.executed(OpCode::ISTYPE, instruction.operand@),
    {
        engine.perform(OpCode::ISTYPE, instruction);
    }

    /// Converts the item on top of the stack to the type that the operand names. Where the handler fails, the engine faults and is otherwise as it was.
    pub fn convert(&self, engine: &mut ExecutionEngine, instruction: &Instruction)
        ensures
            final(engine)@ == old(engine)@.executed(OpCode::CONVERT, instruction.operand@),
    {
        engine.perform(OpCode::CONVERT, instruction);
    }
}

} // verus!
