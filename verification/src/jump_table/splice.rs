use crate::jump_table::operands::{none, one, single, size_arg, size_at, span_arg, span_at};
use crate::types::compound_types::compound_type::{splice_bytes, spliced};
use crate::types::compound_types::vm_compound::CompoundView;
use crate::types::stack_item::{items_view, ItemView, StackItem};
use crate::types::vm_buffer::VMBuffer;
use crate::vm::execution_engine_limits::ExecutionEngineLimits;
use crate::vm::instruction::copy_range;
use crate::vm::op_code::OpCode;
use crate::vm::reference_counter::{CounterView, ReferenceCounter};
use crate::jump_table::JumpTable;
use crate::vm::execution_engine::ExecutionEngine;
use crate::vm::instruction::Instruction;
use vstd::prelude::*;

verus! {

/// The number of operands of a code that works on bytes.
pub open spec fn splice_arity(op: OpCode) -> Option<nat> {
    if op == OpCode::NEWBUFFER {
        Some(1)
    } else if op == OpCode::CAT || op == OpCode::LEFT || op == OpCode::RIGHT {
        Some(2)
    } else if op == OpCode::SUBSTR {
        Some(3)
    } else if op == OpCode::MEMCPY {
        Some(5)
    } else {
        None
    }
}

/// What a code that works on bytes pushes, and the counter afterwards. The
/// operands are in the order in which they were popped.
///
/// `NEWBUFFER n` makes a buffer of `n` zero bytes. `MEMCPY` takes a count,
/// a position in the source, the source, a position in the target and the
/// target, which must be a buffer, and copies `count` bytes. `CAT` joins
/// the bytes of the second operand and of the first. `SUBSTR` takes a
/// count, a position and the bytes, `LEFT` and `RIGHT` a count and the
/// bytes. Every range must lie inside its bytes, and no result is larger
/// than the item limit.
pub open spec fn splice_compute(
    op: OpCode,
    args: Seq<ItemView>,
    heap: CounterView,
    limits: ExecutionEngineLimits,
) -> Option<(CounterView, Seq<ItemView>)> {
    if op == OpCode::NEWBUFFER {
        match size_at(heap, args, 0) {
            Some(n) => if limits.spec_item_size_ok(n as int) {
                Some(
                    (
                        heap.adopt(CompoundView::Buffer(Seq::new(n as nat, |i: int| 0u8))),
                        single(ItemView::Buffer(heap.items.len() as usize)),
                    ),
                )
            } else {
                None
            },
            None => None,
        }
    } else if op == OpCode::MEMCPY {
        match (
            size_at(heap, args, 0),
            size_at(heap, args, 1),
            span_at(heap, args, 2),
            size_at(heap, args, 3),
        ) {
            (Some(count), Some(from), Some(src), Some(at)) => if args.len() < 5 {
                None
            } else {
                match args[4] {
                    ItemView::Buffer(id) => match heap.buffer_of(id) {
                        Some(dst) => if from + count <= src.len() && at + count <= dst.len() {
                            match heap.set_buffer(
                                id,
                                spliced(dst, at as int, src, from as int, count as int),
                            ) {
                                Some(h) => Some((h, Seq::<ItemView>::empty())),
                                None => None,
                            }
                        } else {
                            None
                        },
                        None => None,
                    },
                    _ => None,
                }
            },
            _ => None,
        }
    } else if op == OpCode::CAT {
        match (span_at(heap, args, 1), span_at(heap, args, 0)) {
            (Some(a), Some(b)) => if limits.spec_item_size_ok((a.len() + b.len()) as int) {
                Some((heap, single(ItemView::ByteString(a + b))))
            } else {
                None
            },
            _ => None,
        }
    } else if op == OpCode::SUBSTR {
        match (size_at(heap, args, 0), size_at(heap, args, 1), span_at(heap, args, 2)) {
            (Some(count), Some(index), Some(x)) => if index + count <= x.len()
                && limits.spec_item_size_ok(count as int) {
                Some((heap, single(ItemView::ByteString(x.subrange(index as int, index + count)))))
            } else {
                None
            },
            _ => None,
        }
    } else if op == OpCode::LEFT {
        match (size_at(heap, args, 0), span_at(heap, args, 1)) {
            (Some(count), Some(x)) => if count <= x.len() && limits.spec_item_size_ok(
                count as int,
            ) {
                Some((heap, single(ItemView::ByteString(x.subrange(0, count as int)))))
            } else {
                None
            },
            _ => None,
        }
    } else if op == OpCode::RIGHT {
        match (size_at(heap, args, 0), span_at(heap, args, 1)) {
            (Some(count), Some(x)) => if count <= x.len() && limits.spec_item_size_ok(
                count as int,
            ) {
                Some(
                    (
                        heap,
                        single(
                            ItemView::ByteString(x.subrange(x.len() - count, x.len() as int)),
                        ),
                    ),
                )
            } else {
                None
            },
            _ => None,
        }
    } else {
        None
    }
}

/// The bytes of `a` followed by the bytes of `b`.
pub fn join_bytes(a: &Vec<u8>, b: &Vec<u8>) -> (r: Vec<u8>)
    requires
        a@.len() + b@.len() <= usize::MAX,
    ensures
        r@ == a@ + b@,
{
    let mut out = copy_range(a.as_slice(), 0, a.len());
    let mut tail = copy_range(b.as_slice(), 0, b.len());
    out.append(&mut tail);
    assert(out@ =~= a@ + b@);
    out
}

/// Computes what a code that works on bytes pushes.
pub fn splice_op(
    op: OpCode,
    args: &Vec<StackItem>,
    heap: &mut ReferenceCounter,
    limits: &ExecutionEngineLimits,
) -> (r: Option<Vec<StackItem>>)
    ensures
        r is Some <==> splice_compute(op, items_view(args@), old(heap)@, *limits) is Some,
        r is Some ==> (final(heap)@, items_view(r->Some_0@)) == splice_compute(
            op,
            items_view(args@),
            old(heap)@,
            *limits,
        )->Some_0,
{
    assert(items_view(args@).len() == args@.len());
    match op {
        OpCode::NEWBUFFER => {
            let n = match size_arg(heap, args, 0) {
                Some(n) => n,
                None => {
                    return None;
                },
            };
            if !limits.assert_max_item_size(n) {
                return None;
            }
            let buffer = VMBuffer::new(n);
            let id = heap.new_buffer(buffer.bytes);
            Some(one(StackItem::Buffer(id)))
        },
        OpCode::MEMCPY => {
            let count = match size_arg(heap, args, 0) {
                Some(n) => n,
                None => {
                    return None;
                },
            };
            let from = match size_arg(heap, args, 1) {
                Some(n) => n,
                None => {
                    return None;
                },
            };
            let src = match span_arg(heap, args, 2) {
                Some(b) => b,
                None => {
                    return None;
                },
            };
            let at = match size_arg(heap, args, 3) {
                Some(n) => n,
                None => {
                    return None;
                },
            };
            if args.len() < 5 {
                return None;
            }
            let id: usize = match &args[4] {
                StackItem::Buffer(id) => *id,
                _ => {
                    return None;
                },
            };
            let bytes = match heap.buffer(id) {
                Some(dst) => {
                    if count > src.len() || from > src.len() - count {
                        return None;
                    }
                    if count > dst.len() || at > dst.len() - count {
                        return None;
                    }
                    splice_bytes(dst.as_slice(), at, src.as_slice(), from, count)
                },
                None => {
                    return None;
                },
            };
            if heap.set_buffer(id, bytes) {
                Some(none())
            } else {
                None
            }
        },
        OpCode::CAT => {
            let a = match span_arg(heap, args, 1) {
                Some(b) => b,
                None => {
                    return None;
                },
            };
            let b = match span_arg(heap, args, 0) {
                Some(b) => b,
                None => {
                    return None;
                },
            };
            if a.len() > limits.max_item_size || b.len() > limits.max_item_size - a.len() {
                return None;
            }
            Some(one(StackItem::ByteString(join_bytes(&a, &b))))
        },
        OpCode::SUBSTR => {
            let count = match size_arg(heap, args, 0) {
                Some(n) => n,
                None => {
                    return None;
                },
            };
            let index = match size_arg(heap, args, 1) {
                Some(n) => n,
                None => {
                    return None;
                },
            };
            let x = match span_arg(heap, args, 2) {
                Some(b) => b,
                None => {
                    return None;
                },
            };
            if count > x.len() || index > x.len() - count || !limits.assert_max_item_size(count) {
                return None;
            }
            Some(one(StackItem::ByteString(copy_range(x.as_slice(), index, count))))
        },
        OpCode::LEFT => {
            let count = match size_arg(heap, args, 0) {
                Some(n) => n,
                None => {
                    return None;
                },
            };
            let x = match span_arg(heap, args, 1) {
                Some(b) => b,
                None => {
                    return None;
                },
            };
            if count > x.len() || !limits.assert_max_item_size(count) {
                return None;
            }
            Some(one(StackItem::ByteString(copy_range(x.as_slice(), 0, count))))
        },
        OpCode::RIGHT => {
            let count = match size_arg(heap, args, 0) {
                Some(n) => n,
                None => {
                    return None;
                },
            };
            let x = match span_arg(heap, args, 1) {
                Some(b) => b,
                None => {
                    return None;
                },
            };
            if count > x.len() || !limits.assert_max_item_size(count) {
                return None;
            }
            Some(one(StackItem::ByteString(copy_range(x.as_slice(), x.len() - count, count))))
        },
        _ => None,
    }
}

impl JumpTable {
    /// Replaces the number on top of the stack by a new buffer of that many zero bytes. Where the handler fails, the engine faults and is otherwise as it was.
    pub fn new_buffer(&self, engine: &mut ExecutionEngine, instruction: &Instruction)
        ensures
            final(engine)@ == old(engine)@.executed(OpCode::NEWBUFFER, instruction.operand@),
    {
        engine.perform(OpCode::NEWBUFFER, instruction);
    }

    /// Copies bytes from one item into a buffer. Where the handler fails, the engine faults and is otherwise as it was.
    pub fn memcpy(&self, engine: &mut ExecutionEngine, instruction: &Instruction)
        ensures
            final(engine)@ == old(engine)@.executed(OpCode::MEMCPY, instruction.operand@),
    {
        engine.perform(OpCode::MEMCPY, instruction);
    }

    /// Replaces the two items on top of the stack by their joined bytes. Where the handler fails, the engine faults and is otherwise as it was.
    pub fn cat(&self, engine: &mut ExecutionEngine, instruction: &Instruction)
        ensures
            final(engine)@ == old(engine)@.executed(OpCode::CAT, instruction.operand@),
    {
        engine.perform(OpCode::CAT, instruction);
    }

    /// Replaces bytes, a position and a count by the bytes in that range. Where the handler fails, the engine faults and is otherwise as it was.
    pub fn substr(&self, engine: &mut ExecutionEngine, instruction: &Instruction)
        ensures
            final(engine)@ == old(engine)@.executed(OpCode::SUBSTR, instruction.operand@),
    {
        engine.perform(OpCode::SUBSTR, instruction);
    }

    /// Replaces bytes and a count by that many of the first bytes. Where the handler fails, the engine faults and is otherwise as it was.
    pub fn left(&self, engine: &mut ExecutionEngine, instruction: &Instruction)
        ensures
            final(engine)@ == old(engine)@.executed(OpCode::LEFT, instruction.operand@),
    {
        engine.perform(OpCode::LEFT, instruction);
    }

    /// Replaces bytes and a count by that many of the last bytes. Where the handler fails, the engine faults and is otherwise as it was.
    pub fn right(&self, engine: &mut ExecutionEngine, instruction: &Instruction)
        ensures
            final(engine)@ == old(engine)@.executed(OpCode::RIGHT, instruction.operand@),
    {
        engine.perform(OpCode::RIGHT, instruction);
    }
}

} // verus!
