use crate::types::compound_types::vm_compound::CompoundView;
use crate::types::stack_item::ItemView;
use crate::vm::collector::{
    any_zero_referred, checked_zero_referred, collected, is_garbage, reduced_count, swept,
};
use crate::vm::evaluation_stack::StackState;
use crate::vm::reference_counter::CounterView;
use crate::jump_table::compound::{
    append_compute, clear_compute, compound_compute, keys_compute, made, new_sized_compute,
    pop_item_compute, remove_compute, reverse_compute, sequence_handle, set_item_compute,
    stored_byte, values_compute,
};
use crate::jump_table::push::push_compute;
use crate::jump_table::splice::splice_compute;
use crate::jump_table::types::types_compute;
use crate::jump_table::{compute, family_of, Family};
use crate::types::stack_item_type::StackItemType;
use crate::vm::execution_engine_limits::ExecutionEngineLimits;
use crate::vm::op_code::OpCode;
use crate::vm::execution_context::{ContextView, SharedView};
use crate::vm::execution_engine::EngineView;
use crate::jump_table::arity;
use crate::jump_table::slot::SlotKind;
use crate::jump_table::control::{branch_offset, jump_kind};
use crate::jump_table::exceptions::live_handlers;
use crate::vm::exception_handling_context::ExceptionHandlingContext;
use crate::vm::execution_engine::HostCall;
use crate::vm::instruction::InstructionView;
use vstd::prelude::*;

verus! {

/// The number of items that the first `upto` objects of the counter hold.
pub open spec fn held_upto(h: CounterView, upto: int) -> int
    decreases upto,
{
    if upto <= 0 {
        0
    } else {
        held_upto(h, upto - 1) + h.items[upto - 1].item.sub_items().len()
    }
}

/// The number of items that the objects of the counter hold: the
/// references from object to item.
pub open spec fn held(h: CounterView) -> int {
    held_upto(h, h.items.len() as int)
}

/// The references that the counter counts beyond those from object to
/// item: the references from stacks and slots.
pub open spec fn outside(h: CounterView) -> int {
    h.count - held(h)
}

/// Whether both counters keep the same objects with the same contents.
pub open spec fn same_contents(a: CounterView, b: CounterView) -> bool {
    a.items.len() == b.items.len() && forall|i: int|
        0 <= i < a.items.len() ==> (#[trigger] a.items[i]).item == b.items[i].item
}

/// Counters with the same contents hold equally many items.
pub proof fn lemma_same_contents(a: CounterView, b: CounterView, upto: int)
    requires
        same_contents(a, b),
        upto <= a.items.len(),
    ensures
        held_upto(a, upto) == held_upto(b, upto),
    decreases upto,
{
    if upto > 0 {
        lemma_same_contents(a, b, upto - 1);
        assert(a.items[upto - 1].item == b.items[upto - 1].item);
    }
}

/// Replacing one object changes the number of held items by the difference
/// of what the old and the new object hold.
pub proof fn lemma_held_set_object(h: CounterView, id: usize, c: CompoundView, upto: int)
    requires
        id < h.items.len(),
        0 <= upto <= h.items.len(),
    ensures
        held_upto(h.set_object(id, c), upto) == held_upto(h, upto) + if id < upto {
            c.sub_items().len() - h.object(id).sub_items().len()
        } else {
            0
        },
    decreases upto,
{
    if upto > 0 {
        lemma_held_set_object(h, id, c, upto - 1);
        let after = h.set_object(id, c);
        if upto - 1 != id {
            assert(after.items[upto - 1] == h.items[upto - 1]);
        }
    }
}

/// A new object adds what it holds.
pub proof fn lemma_held_adopt(h: CounterView, c: CompoundView)
    ensures
        held(h.adopt(c)) == held(h) + c.sub_items().len(),
        h.adopt(c).count == h.count,
{
    let after = h.adopt(c);
    lemma_held_prefix(h, after, h.items.len() as int);
}

/// Counters that agree on their first `upto` objects hold equally many
/// items in them.
pub proof fn lemma_held_prefix(a: CounterView, b: CounterView, upto: int)
    requires
        0 <= upto <= a.items.len(),
        upto <= b.items.len(),
        forall|i: int| 0 <= i < upto ==> (#[trigger] a.items[i]).item == b.items[i].item,
    ensures
        held_upto(a, upto) == held_upto(b, upto),
    decreases upto,
{
    if upto > 0 {
        lemma_held_prefix(a, b, upto - 1);
        assert(a.items[upto - 1].item == b.items[upto - 1].item);
    }
}

/// Taking or letting go of stack references changes the total by their
/// number and no contents.
pub proof fn lemma_stack_reference(h: CounterView, item: ItemView, n: usize)
    ensures
        h.add_stack_reference(item, n) is Some ==> same_contents(
            h,
            h.add_stack_reference(item, n)->Some_0,
        ) && h.add_stack_reference(item, n)->Some_0.count == h.count + n && outside(
            h.add_stack_reference(item, n)->Some_0,
        ) == outside(h) + n,
        h.remove_stack_reference(item) is Some ==> same_contents(
            h,
            h.remove_stack_reference(item)->Some_0,
        ) && h.remove_stack_reference(item)->Some_0.count == h.count - 1 && outside(
            h.remove_stack_reference(item)->Some_0,
        ) == outside(h) - 1,
{
    if h.add_stack_reference(item, n) is Some {
        lemma_same_contents(h, h.add_stack_reference(item, n)->Some_0, h.items.len() as int);
    }
    if h.remove_stack_reference(item) is Some {
        lemma_same_contents(h, h.remove_stack_reference(item)->Some_0, h.items.len() as int);
    }
}

/// Taking or letting go of a reference from an object changes the total by
/// one and no contents.
pub proof fn lemma_object_reference(h: CounterView, item: ItemView, parent: usize)
    ensures
        h.add_reference(item, parent) is Some ==> same_contents(
            h,
            h.add_reference(item, parent)->Some_0,
        ) && h.add_reference(item, parent)->Some_0.count == h.count + 1 && held(
            h.add_reference(item, parent)->Some_0,
        ) == held(h),
        h.remove_reference(item, parent) is Some ==> same_contents(
            h,
            h.remove_reference(item, parent)->Some_0,
        ) && h.remove_reference(item, parent)->Some_0.count == h.count - 1 && held(
            h.remove_reference(item, parent)->Some_0,
        ) == held(h),
{
    if h.add_reference(item, parent) is Some {
        lemma_same_contents(h, h.add_reference(item, parent)->Some_0, h.items.len() as int);
    }
    if h.remove_reference(item, parent) is Some {
        lemma_same_contents(h, h.remove_reference(item, parent)->Some_0, h.items.len() as int);
    }
}

/// Taking hold of several items from an object changes the total by their
/// number and no contents.
pub proof fn lemma_add_references(h: CounterView, items: Seq<ItemView>, parent: usize, from: int)
    requires
        0 <= from <= items.len(),
        h.add_references(items, parent, from) is Some,
    ensures
        same_contents(h, h.add_references(items, parent, from)->Some_0),
        h.add_references(items, parent, from)->Some_0.count == h.count + items.len() - from,
        held(h.add_references(items, parent, from)->Some_0) == held(h),
    decreases items.len() - from,
{
    if from < items.len() {
        lemma_object_reference(h, items[from], parent);
        let next = h.add_reference(items[from], parent)->Some_0;
        lemma_add_references(next, items, parent, from + 1);
        let last = h.add_references(items, parent, from)->Some_0;
        assert forall|i: int| 0 <= i < h.items.len() implies (#[trigger] h.items[i]).item
            == last.items[i].item by {
            assert(next.items[i].item == h.items[i].item);
        }
        lemma_same_contents(h, last, h.items.len() as int);
    }
}

/// Letting go of several items from an object changes the total by their
/// number and no contents.
pub proof fn lemma_remove_references(h: CounterView, items: Seq<ItemView>, parent: usize, from: int)
    requires
        0 <= from <= items.len(),
        h.remove_references(items, parent, from) is Some,
    ensures
        same_contents(h, h.remove_references(items, parent, from)->Some_0),
        h.remove_references(items, parent, from)->Some_0.count == h.count - (items.len() - from),
        held(h.remove_references(items, parent, from)->Some_0) == held(h),
    decreases items.len() - from,
{
    if from < items.len() {
        lemma_object_reference(h, items[from], parent);
        let next = h.remove_reference(items[from], parent)->Some_0;
        lemma_remove_references(next, items, parent, from + 1);
        let last = h.remove_references(items, parent, from)->Some_0;
        assert forall|i: int| 0 <= i < h.items.len() implies (#[trigger] h.items[i]).item
            == last.items[i].item by {
            assert(next.items[i].item == h.items[i].item);
        }
        lemma_same_contents(h, last, h.items.len() as int);
    }
}

/// Taking several stack references changes the references from stacks and
/// slots by their number.
pub proof fn lemma_add_stack_references(h: CounterView, items: Seq<ItemView>, from: int)
    requires
        0 <= from <= items.len(),
        h.add_stack_references(items, from) is Some,
    ensures
        outside(h.add_stack_references(items, from)->Some_0) == outside(h) + items.len() - from,
    decreases items.len() - from,
{
    if from < items.len() {
        lemma_stack_reference(h, items[from], 1);
        lemma_add_stack_references(h.add_stack_reference(items[from], 1)->Some_0, items, from + 1);
    }
}

/// Letting go of several stack references changes the references from
/// stacks and slots by their number.
pub proof fn lemma_remove_stack_references(h: CounterView, items: Seq<ItemView>, from: int)
    requires
        0 <= from <= items.len(),
        h.remove_stack_references(items, from) is Some,
    ensures
        outside(h.remove_stack_references(items, from)->Some_0) == outside(h) - (items.len()
            - from),
    decreases items.len() - from,
{
    if from < items.len() {
        lemma_stack_reference(h, items[from], 1);
        lemma_remove_stack_references(
            h.remove_stack_reference(items[from])->Some_0,
            items,
            from + 1,
        );
    }
}

/// A new array or struct leaves the references from stacks and slots as
/// they are: the total grows by the items that the new object holds.
pub proof fn lemma_new_sequence_outside(h: CounterView, items: Seq<ItemView>, as_struct: bool)
    requires
        h.new_sequence(items, as_struct) is Some,
    ensures
        outside(h.new_sequence(items, as_struct)->Some_0.0) == outside(h),
{
    let content = crate::types::compound_types::vm_array::ArrayView { items, read_only: false };
    let object = if as_struct {
        CompoundView::Struct(content)
    } else {
        CompoundView::Array(content)
    };
    lemma_held_adopt(h, object);
    lemma_add_references(h.adopt(object), items, h.items.len() as usize, 0);
}

/// Replacing the items of a live array or struct changes the number of held
/// items by the difference of the lengths.
pub proof fn lemma_set_sequence_items(h: CounterView, id: usize, items: Seq<ItemView>)
    requires
        h.sequence_items(id) is Some,
    ensures
        held(h.set_sequence_items(id, items)) == held(h) + items.len() - h.sequence_items(
            id,
        )->Some_0.items.len(),
        h.set_sequence_items(id, items).count == h.count,
{
    match h.object(id) {
        CompoundView::Array(a) => {
            lemma_held_set_object(
                h,
                id,
                CompoundView::Array(
                    crate::types::compound_types::vm_array::ArrayView { items, ..a },
                ),
                h.items.len() as int,
            );
        },
        CompoundView::Struct(a) => {
            lemma_held_set_object(
                h,
                id,
                CompoundView::Struct(
                    crate::types::compound_types::vm_array::ArrayView { items, ..a },
                ),
                h.items.len() as int,
            );
        },
        _ => {},
    }
}

/// The operations on arrays and structs leave the references from stacks
/// and slots as they are.
pub proof fn lemma_sequence_ops_outside(h: CounterView, id: usize, index: int, item: ItemView)
    ensures
        h.append(id, item) is Some ==> outside(h.append(id, item)->Some_0) == outside(h),
        h.set_sequence_item(id, index, item) is Some ==> outside(
            h.set_sequence_item(id, index, item)->Some_0,
        ) == outside(h),
        h.remove_sequence_item(id, index) is Some ==> outside(
            h.remove_sequence_item(id, index)->Some_0,
        ) == outside(h),
        h.reverse_sequence(id) is Some ==> outside(h.reverse_sequence(id)->Some_0) == outside(h),
{
    if h.sequence_items(id) is Some {
        let a = h.sequence_items(id)->Some_0;
        if h.append(id, item) is Some {
            let stored = h.set_sequence_items(id, a.items.push(item));
            lemma_set_sequence_items(h, id, a.items.push(item));
            lemma_object_reference(stored, item, id);
        }
        if h.set_sequence_item(id, index, item) is Some {
            let stored = h.set_sequence_items(id, a.items.update(index, item));
            lemma_set_sequence_items(h, id, a.items.update(index, item));
            lemma_object_reference(stored, a.items[index], id);
            let released = stored.remove_reference(a.items[index], id)->Some_0;
            lemma_object_reference(released, item, id);
        }
        if h.remove_sequence_item(id, index) is Some {
            let stored = h.set_sequence_items(id, a.items.remove(index));
            lemma_set_sequence_items(h, id, a.items.remove(index));
            lemma_object_reference(stored, a.items[index], id);
        }
        if h.reverse_sequence(id) is Some {
            lemma_set_sequence_items(h, id, a.items.reverse());
        }
    }
}

/// Emptying an array, a struct or a map leaves the references from stacks
/// and slots as they are.
pub proof fn lemma_clear_items_outside(h: CounterView, id: usize)
    requires
        h.clear_items(id) is Some,
    ensures
        outside(h.clear_items(id)->Some_0) == outside(h),
{
    let emptied = h.set_object(id, h.object(id).emptied());
    lemma_held_set_object(h, id, h.object(id).emptied(), h.items.len() as int);
    lemma_remove_references(emptied, h.object(id).sub_items(), id, 0);
}

/// The operations on maps leave the references from stacks and slots as
/// they are.
pub proof fn lemma_map_ops_outside(h: CounterView, id: usize, key: ItemView, value: ItemView)
    ensures
        h.map_set(id, key, value) is Some ==> outside(h.map_set(id, key, value)->Some_0)
            == outside(h),
        h.map_remove(id, key) is Some ==> outside(h.map_remove(id, key)->Some_0) == outside(h),
{
    if h.map_of(id) is Some && h.map_of(id)->Some_0.wf() {
        let m = h.map_of(id)->Some_0;
        crate::types::compound_types::vm_map::lemma_find_key(m.keys, key, 0);
        if h.map_set(id, key, value) is Some {
            let stored = h.set_object(id, CompoundView::Mapping(m.insert(key, value)));
            lemma_held_set_object(
                h,
                id,
                CompoundView::Mapping(m.insert(key, value)),
                h.items.len() as int,
            );
            match crate::types::compound_types::vm_map::find_key(m.keys, key, 0) {
                Some(i) => {
                    lemma_object_reference(stored, m.values[i], id);
                    lemma_object_reference(
                        stored.remove_reference(m.values[i], id)->Some_0,
                        value,
                        id,
                    );
                },
                None => {
                    lemma_object_reference(stored, key, id);
                    lemma_object_reference(stored.add_reference(key, id)->Some_0, value, id);
                },
            }
        }
        if h.map_remove(id, key) is Some {
            match crate::types::compound_types::vm_map::find_key(m.keys, key, 0) {
                Some(i) => {
                    let stored = h.set_object(id, CompoundView::Mapping(m.remove(key)));
                    lemma_held_set_object(
                        h,
                        id,
                        CompoundView::Mapping(m.remove(key)),
                        h.items.len() as int,
                    );
                    lemma_object_reference(stored, m.keys[i], id);
                    lemma_object_reference(
                        stored.remove_reference(m.keys[i], id)->Some_0,
                        m.values[i],
                        id,
                    );
                },
                None => {},
            }
        }
    }
}

/// A change of the bytes of a buffer, and a new buffer or map, leave the
/// references from stacks and slots as they are.
pub proof fn lemma_buffer_ops_outside(h: CounterView, id: usize, bytes: Seq<u8>)
    ensures
        h.set_buffer(id, bytes) is Some ==> outside(h.set_buffer(id, bytes)->Some_0) == outside(h),
        outside(h.adopt(CompoundView::Buffer(bytes))) == outside(h),
        outside(
            h.adopt(
                CompoundView::Mapping(crate::types::compound_types::vm_map::MapView::empty()),
            ),
        ) == outside(h),
{
    if h.set_buffer(id, bytes) is Some {
        lemma_held_set_object(h, id, CompoundView::Buffer(bytes), h.items.len() as int);
    }
    lemma_held_adopt(h, CompoundView::Buffer(bytes));
    lemma_held_adopt(
        h,
        CompoundView::Mapping(crate::types::compound_types::vm_map::MapView::empty()),
    );
}

/// A conversion leaves the references from stacks and slots as they are.
pub proof fn lemma_convert_outside(h: CounterView, item: ItemView, ty: StackItemType)
    requires
        h.convert(item, ty) is Some,
    ensures
        outside(h.convert(item, ty)->Some_0.0) == outside(h),
{
    if item.item_type() != ty {
        match ty {
            StackItemType::Buffer => {
                match item {
                    ItemView::ByteString(b) => {
                        lemma_buffer_ops_outside(h, 0, b);
                    },
                    _ => {},
                }
            },
            StackItemType::Array => {
                match item {
                    ItemView::Struct(id) => {
                        lemma_new_sequence_outside(h, h.sequence_items(id)->Some_0.items, false);
                    },
                    _ => {},
                }
            },
            StackItemType::Struct => {
                match item {
                    ItemView::Array(id) => {
                        lemma_new_sequence_outside(h, h.sequence_items(id)->Some_0.items, true);
                    },
                    _ => {},
                }
            },
            _ => {},
        }
    }
}

/// The codes that ask for types and equality leave the references from
/// stacks and slots as they are.
pub proof fn lemma_types_outside(
    op: OpCode,
    operand: Seq<u8>,
    args: Seq<ItemView>,
    h: CounterView,
    limits: ExecutionEngineLimits,
)
    requires
        types_compute(op, operand, args, h, limits) is Some,
    ensures
        outside(types_compute(op, operand, args, h, limits)->Some_0.0) == outside(h),
{
    if op == OpCode::CONVERT && args.len() >= 1 {
        let t = crate::jump_table::types::operand_type(operand)->Some_0;
        lemma_convert_outside(h, args[0], t);
    }
}

/// The codes that work on bytes leave the references from stacks and slots
/// as they are.
pub proof fn lemma_splice_outside(
    op: OpCode,
    args: Seq<ItemView>,
    h: CounterView,
    limits: ExecutionEngineLimits,
)
    requires
        splice_compute(op, args, h, limits) is Some,
    ensures
        outside(splice_compute(op, args, h, limits)->Some_0.0) == outside(h),
{
    if op == OpCode::NEWBUFFER {
        let n = crate::jump_table::operands::size_at(h, args, 0)->Some_0;
        lemma_buffer_ops_outside(h, 0, Seq::new(n as nat, |i: int| 0u8));
    } else if op == OpCode::MEMCPY {
        match args[4] {
            ItemView::Buffer(id) => {
                let count = crate::jump_table::operands::size_at(h, args, 0)->Some_0;
                let from = crate::jump_table::operands::size_at(h, args, 1)->Some_0;
                let src = crate::jump_table::operands::span_at(h, args, 2)->Some_0;
                let at = crate::jump_table::operands::size_at(h, args, 3)->Some_0;
                let dst = h.buffer_of(id)->Some_0;
                lemma_buffer_ops_outside(
                    h,
                    id,
                    crate::types::compound_types::compound_type::spliced(
                        dst,
                        at as int,
                        src,
                        from as int,
                        count as int,
                    ),
                );
            },
            _ => {},
        }
    }
}

/// The codes that push constants leave the references from stacks and
/// slots as they are.
pub proof fn lemma_push_outside(
    op: OpCode,
    operand: Seq<u8>,
    h: CounterView,
    limits: ExecutionEngineLimits,
)
    requires
        push_compute(op, operand, h, limits) is Some,
    ensures
        outside(push_compute(op, operand, h, limits)->Some_0.0) == outside(h),
{
    lemma_buffer_ops_outside(h, 0, operand);
}

/// A result that makes a new array or struct leaves the references from
/// stacks and slots as they are.
pub proof fn lemma_made_outside(h: CounterView, items: Seq<ItemView>, as_struct: bool)
    requires
        made(h, items, as_struct) is Some,
    ensures
        outside(made(h, items, as_struct)->Some_0.0) == outside(h),
{
    lemma_new_sequence_outside(h, items, as_struct);
}

/// The codes that make and read collections leave the references from
/// stacks and slots as they are.
pub proof fn lemma_compound_read_outside(
    op: OpCode,
    operand: Seq<u8>,
    args: Seq<ItemView>,
    h: CounterView,
    limits: ExecutionEngineLimits,
)
    requires
        op == OpCode::NEWARRAY0 || op == OpCode::NEWSTRUCT0 || op == OpCode::NEWMAP || op
            == OpCode::NEWARRAY || op == OpCode::NEWSTRUCT || op == OpCode::NEWARRAY_T || op
            == OpCode::SIZE || op == OpCode::KEYS || op == OpCode::VALUES || op == OpCode::UNPACK
            || op == OpCode::HASKEY || op == OpCode::PICKITEM,
        compound_compute(op, operand, args, h, limits) is Some,
    ensures
        outside(compound_compute(op, operand, args, h, limits)->Some_0.0) == outside(h),
{
    if op == OpCode::NEWARRAY0 {
        lemma_made_outside(h, Seq::<ItemView>::empty(), false);
    } else if op == OpCode::NEWSTRUCT0 {
        lemma_made_outside(h, Seq::<ItemView>::empty(), true);
    } else if op == OpCode::NEWMAP {
        lemma_buffer_ops_outside(h, 0, Seq::<u8>::empty());
    } else if op == OpCode::NEWARRAY || op == OpCode::NEWSTRUCT || op == OpCode::NEWARRAY_T {
        let fill = if op == OpCode::NEWARRAY_T {
            crate::jump_table::compound::default_item(
                crate::jump_table::types::operand_type(operand)->Some_0,
            )
        } else {
            ItemView::Null
        };
        let n = crate::jump_table::operands::size_at(h, args, 0)->Some_0;
        lemma_made_outside(h, Seq::new(n as nat, |i: int| fill), op == OpCode::NEWSTRUCT);
    } else if op == OpCode::KEYS {
        match args[0] {
            ItemView::Mapping(id) => {
                lemma_made_outside(h, h.map_of(id)->Some_0.keys, false);
            },
            _ => {},
        }
    } else if op == OpCode::VALUES {
        match args[0] {
            ItemView::Mapping(id) => {
                lemma_made_outside(h, h.map_of(id)->Some_0.values, false);
            },
            _ => {
                let id = sequence_handle(args[0])->Some_0;
                lemma_made_outside(h, h.sequence_items(id)->Some_0.items, false);
            },
        }
    }
}

/// The codes that change collections leave the references from stacks and
/// slots as they are.
pub proof fn lemma_compound_write_outside(
    op: OpCode,
    operand: Seq<u8>,
    args: Seq<ItemView>,
    h: CounterView,
    limits: ExecutionEngineLimits,
)
    requires
        op == OpCode::REVERSEITEMS || op == OpCode::CLEARITEMS || op == OpCode::POPITEM || op
            == OpCode::APPEND || op == OpCode::REMOVE || op == OpCode::SETITEM,
        compound_compute(op, operand, args, h, limits) is Some,
    ensures
        outside(compound_compute(op, operand, args, h, limits)->Some_0.0) == outside(h),
{
    if op == OpCode::REVERSEITEMS {
        match args[0] {
            ItemView::Buffer(id) => {
                lemma_buffer_ops_outside(h, id, h.buffer_of(id)->Some_0.reverse());
            },
            _ => {
                lemma_sequence_ops_outside(h, sequence_handle(args[0])->Some_0, 0, ItemView::Null);
            },
        }
    } else if op == OpCode::CLEARITEMS {
        lemma_clear_items_outside(h, args[0].handle()->Some_0);
    } else if op == OpCode::POPITEM {
        let id = sequence_handle(args[0])->Some_0;
        lemma_sequence_ops_outside(
            h,
            id,
            h.sequence_items(id)->Some_0.items.len() - 1,
            ItemView::Null,
        );
    } else if op == OpCode::APPEND {
        lemma_sequence_ops_outside(h, sequence_handle(args[1])->Some_0, 0, args[0]);
    } else if op == OpCode::REMOVE {
        match args[1] {
            ItemView::Mapping(id) => {
                lemma_map_ops_outside(h, id, args[0], ItemView::Null);
            },
            _ => {
                let i = crate::jump_table::operands::size_at(h, args, 0)->Some_0;
                lemma_sequence_ops_outside(
                    h,
                    sequence_handle(args[1])->Some_0,
                    i as int,
                    ItemView::Null,
                );
            },
        }
    } else {
        match args[2] {
            ItemView::Mapping(id) => {
                lemma_map_ops_outside(h, id, args[1], args[0]);
            },
            ItemView::Buffer(id) => {
                let b = h.buffer_of(id)->Some_0;
                let i = h.integer_of(args[1])->Some_0;
                let v = h.integer_of(args[0])->Some_0;
                lemma_buffer_ops_outside(h, id, b.update(i, stored_byte(v)));
            },
            _ => {
                let i = h.integer_of(args[1])->Some_0;
                lemma_sequence_ops_outside(h, sequence_handle(args[2])->Some_0, i, args[0]);
            },
        }
    }
}

/// Every code that pops operands, computes and pushes leaves the
/// references from stacks and slots as they are while it computes.
pub proof fn lemma_compute_outside(
    op: OpCode,
    operand: Seq<u8>,
    args: Seq<ItemView>,
    h: CounterView,
    limits: ExecutionEngineLimits,
)
    requires
        compute(op, operand, args, h, limits) is Some,
    ensures
        outside(compute(op, operand, args, h, limits)->Some_0.0) == outside(h),
{
    match family_of(op) {
        Family::Numeric => {},
        Family::Types => {
            lemma_types_outside(op, operand, args, h, limits);
        },
        Family::Splice => {
            lemma_splice_outside(op, args, h, limits);
        },
        Family::Compound => {
            if op == OpCode::REVERSEITEMS || op == OpCode::CLEARITEMS || op == OpCode::POPITEM
                || op == OpCode::APPEND || op == OpCode::REMOVE || op == OpCode::SETITEM {
                lemma_compound_write_outside(op, operand, args, h, limits);
            } else {
                lemma_compound_read_outside(op, operand, args, h, limits);
            }
        },
        Family::Push => {
            lemma_push_outside(op, operand, h, limits);
        },
        Family::Other => {},
    }
}

/// Filling a map with pairs leaves the references from stacks and slots
/// as they are.
pub proof fn lemma_set_pairs_outside(h: CounterView, id: usize, pairs: Seq<ItemView>, from: int)
    requires
        0 <= from,
        h.set_pairs(id, pairs, from) is Some,
    ensures
        outside(h.set_pairs(id, pairs, from)->Some_0) == outside(h),
    decreases pairs.len() - from,
{
    if from + 1 < pairs.len() {
        lemma_map_ops_outside(h, id, pairs[from], pairs[from + 1]);
        lemma_set_pairs_outside(
            h.map_set(id, pairs[from], pairs[from + 1])->Some_0,
            id,
            pairs,
            from + 2,
        );
    }
}

/// A new map of pairs leaves the references from stacks and slots as they
/// are.
pub proof fn lemma_new_map_of_outside(h: CounterView, pairs: Seq<ItemView>)
    requires
        h.new_map_of(pairs) is Some,
    ensures
        outside(h.new_map_of(pairs)->Some_0.0) == outside(h),
{
    lemma_buffer_ops_outside(h, 0, Seq::<u8>::empty());
    lemma_set_pairs_outside(
        h.adopt(CompoundView::Mapping(crate::types::compound_types::vm_map::MapView::empty())),
        h.items.len() as usize,
        pairs,
        0,
    );
}

/// The references from stacks and slots that the items of the stack do not
/// account for.
pub open spec fn slack(st: StackState) -> int {
    outside(st.heap) - st.stack.len()
}

/// The operations on an evaluation stack change the references from stacks
/// and slots by as much as the length of the stack.
pub proof fn lemma_stack_ops(st: StackState, index: int, item: ItemView)
    ensures
        st.push(item) is Some ==> slack(st.push(item)->Some_0) == slack(st),
        st.insert(index, item) is Some ==> slack(st.insert(index, item)->Some_0) == slack(st),
        st.remove(index) is Some ==> slack(st.remove(index)->Some_0.0) == slack(st),
        st.pop() is Some ==> slack(st.pop()->Some_0.0) == slack(st),
        st.reverse(index) is Some ==> slack(st.reverse(index)->Some_0) == slack(st),
{
    lemma_stack_reference(st.heap, item, 1);
    if st.remove(index) is Some {
        lemma_stack_reference(st.heap, st.stack[st.stack.len() - 1 - index], 1);
    }
    if st.pop() is Some {
        lemma_stack_reference(st.heap, st.stack[st.stack.len() - 1], 1);
    }
}

/// Popping several items keeps the slack, and gives as many items as were
/// asked for.
pub proof fn lemma_pop_n(st: StackState, n: nat)
    requires
        st.pop_n(n) is Some,
    ensures
        slack(st.pop_n(n)->Some_0.0) == slack(st),
        st.pop_n(n)->Some_0.1.len() == n,
        st.pop_n(n)->Some_0.0.stack.len() == st.stack.len() - n,
    decreases n,
{
    if n > 0 {
        lemma_stack_ops(st, 0, ItemView::Null);
        lemma_pop_n(st.pop()->Some_0.0, (n - 1) as nat);
    }
}

/// Pushing several items keeps the slack.
pub proof fn lemma_push_all(st: StackState, items: Seq<ItemView>, from: int)
    requires
        0 <= from <= items.len(),
        st.push_all(items, from) is Some,
    ensures
        slack(st.push_all(items, from)->Some_0) == slack(st),
        st.push_all(items, from)->Some_0.stack.len() == st.stack.len() + items.len() - from,
    decreases items.len() - from,
{
    if from < items.len() {
        lemma_stack_ops(st, 0, items[from]);
        lemma_push_all(st.push(items[from])->Some_0, items, from + 1);
    }
}

/// Clearing a stack keeps the slack and leaves no item.
pub proof fn lemma_clear(st: StackState)
    requires
        st.clear() is Some,
    ensures
        slack(st.clear()->Some_0) == slack(st),
        st.clear()->Some_0.stack.len() == 0,
{
    lemma_pop_n(st, st.stack.len());
}

/// The number of items of a slot; a slot that was not made has none.
pub open spec fn option_len(s: Option<Seq<ItemView>>) -> int {
    match s {
        Some(items) => items.len() as int,
        None => 0,
    }
}

/// The number of places of the shared states: the items of the evaluation
/// stack and the static fields.
pub open spec fn frame_size(f: SharedView) -> int {
    f.stack.len() + option_len(f.static_fields)
}

/// The number of places of the first `upto` shared states.
pub open spec fn frames_upto(shared: Seq<SharedView>, upto: int) -> int
    decreases upto,
{
    if upto <= 0 {
        0
    } else {
        frames_upto(shared, upto - 1) + frame_size(shared[upto - 1])
    }
}

/// The number of places of a context: its local variables and arguments.
pub open spec fn context_size(c: ContextView) -> int {
    option_len(c.local_variables) + option_len(c.arguments)
}

/// The number of places of the first `upto` contexts.
pub open spec fn contexts_upto(contexts: Seq<ContextView>, upto: int) -> int
    decreases upto,
{
    if upto <= 0 {
        0
    } else {
        contexts_upto(contexts, upto - 1) + context_size(contexts[upto - 1])
    }
}

/// The number of places that hold an item: the entries of all evaluation
/// stacks, of all slots and of the result stack. These are the live
/// references from stacks and slots.
pub open spec fn placed(s: EngineView) -> int {
    frames_upto(s.shared, s.shared.len() as int) + contexts_upto(
        s.invocation,
        s.invocation.len() as int,
    ) + s.result_stack.len()
}

/// Whether the total of the counter equals the live references: the places
/// that hold an item, and the items that the objects hold.
pub open spec fn balanced(s: EngineView) -> bool {
    s.heap.count == placed(s) + held(s.heap)
}

/// Replacing one of the shared states changes the number of places by the
/// difference of the sizes.
pub proof fn lemma_frames_update(shared: Seq<SharedView>, index: int, f: SharedView, upto: int)
    requires
        0 <= index < shared.len(),
        0 <= upto <= shared.len(),
    ensures
        frames_upto(shared.update(index, f), upto) == frames_upto(shared, upto) + if index < upto {
            frame_size(f) - frame_size(shared[index])
        } else {
            0
        },
    decreases upto,
{
    if upto > 0 {
        lemma_frames_update(shared, index, f, upto - 1);
    }
}

/// Replacing one of the contexts changes the number of places by the
/// difference of the sizes.
pub proof fn lemma_contexts_update(contexts: Seq<ContextView>, index: int, c: ContextView, upto: int)
    requires
        0 <= index < contexts.len(),
        0 <= upto <= contexts.len(),
    ensures
        contexts_upto(contexts.update(index, c), upto) == contexts_upto(contexts, upto)
            + if index < upto {
            context_size(c) - context_size(contexts[index])
        } else {
            0
        },
    decreases upto,
{
    if upto > 0 {
        lemma_contexts_update(contexts, index, c, upto - 1);
    }
}

/// Sequences of contexts that agree on their first `upto` contexts have
/// equally many places in them.
pub proof fn lemma_contexts_prefix(a: Seq<ContextView>, b: Seq<ContextView>, upto: int)
    requires
        0 <= upto <= a.len(),
        upto <= b.len(),
        forall|i: int| 0 <= i < upto ==> a[i] == b[i],
    ensures
        contexts_upto(a, upto) == contexts_upto(b, upto),
    decreases upto,
{
    if upto > 0 {
        lemma_contexts_prefix(a, b, upto - 1);
    }
}

/// Sequences of shared states that agree on their first `upto` members
/// have equally many places in them.
pub proof fn lemma_frames_prefix(a: Seq<SharedView>, b: Seq<SharedView>, upto: int)
    requires
        0 <= upto <= a.len(),
        upto <= b.len(),
        forall|i: int| 0 <= i < upto ==> a[i] == b[i],
    ensures
        frames_upto(a, upto) == frames_upto(b, upto),
    decreases upto,
{
    if upto > 0 {
        lemma_frames_prefix(a, b, upto - 1);
    }
}

/// A machine with another current context has as many places more as the
/// new context has more than the old one.
pub proof fn lemma_with_context(s: EngineView, c: ContextView)
    requires
        s.invocation.len() > 0,
    ensures
        placed(s.with_context(c)) == placed(s) + context_size(c) - context_size(s.context()),
        s.with_context(c).heap == s.heap,
{
    lemma_contexts_update(
        s.invocation,
        s.invocation.len() - 1,
        c,
        s.invocation.len() as int,
    );
}

/// A machine with other shared states for the current context has as many
/// places more as the new ones have more than the old ones.
pub proof fn lemma_with_frame(s: EngineView, f: SharedView)
    requires
        s.ready(),
    ensures
        placed(s.with_frame(f)) == placed(s) + frame_size(f) - frame_size(s.frame()),
        s.with_frame(f).heap == s.heap,
{
    lemma_frames_update(
        s.shared,
        s.context().shared_states as int,
        f,
        s.shared.len() as int,
    );
}

/// A stack operation that keeps the slack keeps the balance.
pub proof fn lemma_after_operands(s: EngineView, st: StackState)
    requires
        balanced(s),
        s.ready(),
        slack(st) == slack(s.operands()),
    ensures
        balanced(s.with_operands(st)),
        s.with_operands(st).ready(),
        s.with_operands(st).invocation == s.invocation,
        s.with_operands(st).result_stack == s.result_stack,
{
    lemma_with_frame(s, SharedView { stack: st.stack, ..s.frame() });
}

/// Pushing, popping, removing and reading on the current evaluation stack
/// keep the balance.
pub proof fn lemma_engine_stack(s: EngineView, index: int, item: ItemView)
    requires
        balanced(s),
    ensures
        s.push(item) is Some ==> balanced(s.push(item)->Some_0),
        s.pop() is Some ==> balanced(s.pop()->Some_0.0),
        s.remove(index) is Some ==> balanced(s.remove(index)->Some_0.0),
        s.pop_size() is Some ==> balanced(s.pop_size()->Some_0.0),
        s.pop_boolean() is Some ==> balanced(s.pop_boolean()->Some_0.0),
        s.pop_integer() is Some ==> balanced(s.pop_integer()->Some_0.0),
        s.after_operands(s.operands().insert(index, item)) is Some ==> balanced(
            s.after_operands(s.operands().insert(index, item))->Some_0,
        ),
        s.after_operands(s.operands().reverse(index)) is Some ==> balanced(
            s.after_operands(s.operands().reverse(index))->Some_0,
        ),
        s.after_operands(s.operands().clear()) is Some ==> balanced(
            s.after_operands(s.operands().clear())->Some_0,
        ),
{
    if s.ready() {
        let st = s.operands();
        lemma_stack_ops(st, index, item);
        if st.push(item) is Some {
            lemma_after_operands(s, st.push(item)->Some_0);
        }
        if st.pop() is Some {
            lemma_after_operands(s, st.pop()->Some_0.0);
        }
        if st.remove(index) is Some {
            lemma_after_operands(s, st.remove(index)->Some_0.0);
        }
        if st.insert(index, item) is Some {
            lemma_after_operands(s, st.insert(index, item)->Some_0);
        }
        if st.reverse(index) is Some {
            lemma_after_operands(s, st.reverse(index)->Some_0);
        }
        if st.clear() is Some {
            lemma_clear(st);
            lemma_after_operands(s, st.clear()->Some_0);
        }
    }
}

/// A code that pops operands, computes and pushes keeps the balance.
pub proof fn lemma_computed(s: EngineView, op: OpCode, operand: Seq<u8>)
    requires
        balanced(s),
        s.computed(op, operand) is Some,
    ensures
        balanced(s.computed(op, operand)->Some_0),
{
    let k = arity(op)->Some_0;
    lemma_pop_n(s.operands(), k);
    let popped = s.operands().pop_n(k)->Some_0;
    let st = popped.0;
    lemma_compute_outside(op, operand, popped.1, st.heap, s.limits);
    let made = compute(op, operand, popped.1, st.heap, s.limits)->Some_0;
    let before = StackState { stack: st.stack, heap: made.0 };
    lemma_push_all(before, made.1, 0);
    lemma_after_operands(s, before.push_all(made.1, 0)->Some_0);
}

/// `PACK`, `PACKSTRUCT` and `PACKMAP` keep the balance.
pub proof fn lemma_packed(s: EngineView, op: OpCode)
    requires
        balanced(s),
        s.packed(op) is Some,
    ensures
        balanced(s.packed(op)->Some_0),
{
    lemma_engine_stack(s, 0, ItemView::Null);
    let popped = s.pop_size()->Some_0;
    let t = popped.0;
    let n = popped.1;
    if op == OpCode::PACKMAP {
        lemma_pop_n(t.operands(), (2 * n) as nat);
        let p = t.operands().pop_n((2 * n) as nat)->Some_0;
        lemma_new_map_of_outside(p.0.heap, p.1);
        let m = p.0.heap.new_map_of(p.1)->Some_0;
        let before = StackState { stack: p.0.stack, heap: m.0 };
        lemma_stack_ops(before, 0, ItemView::Mapping(m.1));
        lemma_after_operands(t, before.push(ItemView::Mapping(m.1))->Some_0);
    } else {
        lemma_pop_n(t.operands(), n as nat);
        let p = t.operands().pop_n(n as nat)->Some_0;
        lemma_new_sequence_outside(p.0.heap, p.1, op == OpCode::PACKSTRUCT);
        let m = p.0.heap.new_sequence(p.1, op == OpCode::PACKSTRUCT)->Some_0;
        let before = StackState { stack: p.0.stack, heap: m.0 };
        let item = if op == OpCode::PACKSTRUCT {
            ItemView::Struct(m.1)
        } else {
            ItemView::Array(m.1)
        };
        lemma_stack_ops(before, 0, item);
        lemma_after_operands(t, before.push(item)->Some_0);
    }
}

/// Copying an item of the stack to the top, and moving one to the top,
/// keep the balance.
pub proof fn lemma_copied_moved(s: EngineView, index: int)
    requires
        balanced(s),
    ensures
        s.copied_up(index) is Some ==> balanced(s.copied_up(index)->Some_0),
        s.moved_up(index) is Some ==> balanced(s.moved_up(index)->Some_0),
{
    if s.copied_up(index) is Some {
        lemma_engine_stack(s, index, s.peek(index)->Some_0);
    }
    if s.moved_up(index) is Some {
        lemma_engine_stack(s, index, ItemView::Null);
        let r = s.remove(index)->Some_0;
        lemma_engine_stack(r.0, 0, r.1);
    }
}

/// The codes that rearrange the stack keep the balance.
pub proof fn lemma_stack_op(s: EngineView, op: OpCode)
    requires
        balanced(s),
        s.stack_op(op) is Some,
    ensures
        balanced(s.stack_op(op)->Some_0),
{
    match op {
        OpCode::DEPTH => {
            lemma_engine_stack(s, 0, ItemView::Integer(s.frame().stack.len() as int));
        },
        OpCode::DROP => {
            lemma_engine_stack(s, 0, ItemView::Null);
        },
        OpCode::NIP => {
            lemma_engine_stack(s, 1, ItemView::Null);
        },
        OpCode::XDROP => {
            lemma_engine_stack(s, 0, ItemView::Null);
            let p = s.pop_size()->Some_0;
            lemma_engine_stack(p.0, p.1 as int, ItemView::Null);
        },
        OpCode::CLEAR => {
            lemma_engine_stack(s, 0, ItemView::Null);
        },
        OpCode::DUP => {
            lemma_copied_moved(s, 0);
        },
        OpCode::OVER => {
            lemma_copied_moved(s, 1);
        },
        OpCode::PICK => {
            lemma_engine_stack(s, 0, ItemView::Null);
            let p = s.pop_size()->Some_0;
            lemma_copied_moved(p.0, p.1 as int);
        },
        OpCode::TUCK => {
            lemma_engine_stack(s, 2, s.peek(0)->Some_0);
        },
        OpCode::SWAP => {
            lemma_copied_moved(s, 1);
        },
        OpCode::ROT => {
            lemma_copied_moved(s, 2);
        },
        OpCode::ROLL => {
            lemma_engine_stack(s, 0, ItemView::Null);
            let p = s.pop_size()->Some_0;
            lemma_copied_moved(p.0, p.1 as int);
        },
        OpCode::REVERSE3 => {
            lemma_engine_stack(s, 3, ItemView::Null);
        },
        OpCode::REVERSE4 => {
            lemma_engine_stack(s, 4, ItemView::Null);
        },
        OpCode::REVERSEN => {
            lemma_engine_stack(s, 0, ItemView::Null);
            let p = s.pop_size()->Some_0;
            lemma_engine_stack(p.0, p.1 as int, ItemView::Null);
        },
        _ => {},
    }
}

/// A machine with other items in a slot has as many places more as the
/// slot has more items.
pub proof fn lemma_with_slot(s: EngineView, kind: SlotKind, items: Option<Seq<ItemView>>)
    requires
        s.ready(),
    ensures
        placed(s.with_slot(kind, items)) == placed(s) + option_len(items) - option_len(
            s.slot(kind),
        ),
        s.with_slot(kind, items).heap == s.heap,
{
    match kind {
        SlotKind::Static => {
            lemma_with_frame(s, SharedView { static_fields: items, ..s.frame() });
        },
        SlotKind::Local => {
            lemma_with_context(s, ContextView { local_variables: items, ..s.context() });
        },
        SlotKind::Argument => {
            lemma_with_context(s, ContextView { arguments: items, ..s.context() });
        },
    }
}

/// Loading from a slot and storing into one keep the balance.
pub proof fn lemma_slot_access(s: EngineView, kind: SlotKind, index: int)
    requires
        balanced(s),
    ensures
        s.loaded(kind, index) is Some ==> balanced(s.loaded(kind, index)->Some_0),
        s.stored(kind, index) is Some ==> balanced(s.stored(kind, index)->Some_0),
{
    if s.loaded(kind, index) is Some {
        lemma_engine_stack(s, 0, s.slot(kind)->Some_0[index]);
    }
    if s.stored(kind, index) is Some {
        lemma_engine_stack(s, 0, ItemView::Null);
        let p = s.pop()->Some_0;
        let t = p.0;
        let items = t.slot(kind)->Some_0;
        lemma_stack_reference(t.heap, items[index], 1);
        let released = t.heap.remove_stack_reference(items[index])->Some_0;
        lemma_stack_reference(released, p.1, 1);
        lemma_with_slot(t, kind, Some(items.update(index, p.1)));
    }
}

/// Making a slot keeps the balance.
pub proof fn lemma_new_slot(s: EngineView, kind: SlotKind, count: usize)
    requires
        balanced(s),
        s.with_new_slot(kind, count) is Some,
    ensures
        balanced(s.with_new_slot(kind, count)->Some_0),
        s.with_new_slot(kind, count)->Some_0.ready(),
{
    lemma_stack_reference(s.heap, ItemView::Null, count);
    lemma_with_slot(s, kind, Some(Seq::new(count as nat, |i: int| ItemView::Null)));
}

/// Popping items into the argument slot keeps the balance.
pub proof fn lemma_with_arguments(s: EngineView, count: usize)
    requires
        balanced(s),
        s.with_arguments(count) is Some,
    ensures
        balanced(s.with_arguments(count)->Some_0),
{
    lemma_pop_n(s.operands(), count as nat);
    let p = s.operands().pop_n(count as nat)->Some_0;
    lemma_add_stack_references(p.0.heap, p.1.reverse(), 0);
    let popped = s.with_operands(p.0);
    lemma_with_frame(s, SharedView { stack: p.0.stack, ..s.frame() });
    lemma_with_slot(popped, SlotKind::Argument, Some(p.1.reverse()));
}

/// The codes that reach a slot keep the balance.
pub proof fn lemma_slot_op(s: EngineView, op: OpCode, operand: Seq<u8>)
    requires
        balanced(s),
        s.slot_op(op, operand) is Some,
    ensures
        balanced(s.slot_op(op, operand)->Some_0),
{
    if op == OpCode::INITSSLOT {
        lemma_new_slot(s, SlotKind::Static, operand[0] as usize);
    } else if op == OpCode::INITSLOT {
        let locals = operand[0] as usize;
        let arguments = operand[1] as usize;
        if !(locals == 0 && arguments == 0) {
            if locals > 0 {
                lemma_new_slot(s, SlotKind::Local, locals);
                if arguments > 0 {
                    lemma_with_arguments(
                        s.with_new_slot(SlotKind::Local, locals)->Some_0,
                        arguments,
                    );
                }
            } else {
                lemma_with_arguments(s, arguments);
            }
        }
    } else {
        let c = crate::jump_table::slot::slot_code(op)->Some_0;
        let index = match c.index {
            Some(i) => i,
            None => operand[0],
        };
        lemma_slot_access(s, c.kind, index as int);
    }
}

/// Moving the current context keeps the balance.
pub proof fn lemma_moved(s: EngineView, position: int)
    requires
        balanced(s),
    ensures
        s.moved_to(position) is Some ==> balanced(s.moved_to(position)->Some_0),
        s.jumped_to(position) is Some ==> balanced(s.jumped_to(position)->Some_0),
{
    if s.moved_to(position) is Some {
        lemma_with_context(
            s,
            ContextView { instruction_pointer: position as usize, ..s.context() },
        );
    }
}

/// Jumps and calls keep the balance.
pub proof fn lemma_jumps_and_calls(s: EngineView, op: OpCode, operand: Seq<u8>, position: int)
    requires
        balanced(s),
    ensures
        s.jump_decision(jump_kind(op)) is Some ==> balanced(
            s.jump_decision(jump_kind(op))->Some_0.0,
        ),
        s.jump_op(op, operand) is Some ==> balanced(s.jump_op(op, operand)->Some_0),
        s.called(position) is Some ==> balanced(s.called(position)->Some_0),
        s.called_pointer() is Some ==> balanced(s.called_pointer()->Some_0),
{
    lemma_engine_stack(s, 0, ItemView::Null);
    let kind = jump_kind(op);
    if s.jump_decision(kind) is Some {
        if !(kind == 0 || kind == 1 || kind == 2) {
            lemma_engine_stack(s.pop_integer()->Some_0.0, 0, ItemView::Null);
        }
        let d = s.jump_decision(kind)->Some_0;
        if s.jump_op(op, operand) is Some && d.1 {
            lemma_moved(d.0, d.0.target(branch_offset(op, operand)->Some_0));
        }
    }
    if s.called(position) is Some {
        lemma_called(s, position);
    }
    if s.called_pointer() is Some {
        let p = s.pop()->Some_0;
        match p.1 {
            ItemView::Pointer(pointer) => {
                lemma_called(p.0, pointer.position as int);
            },
            _ => {},
        }
    }
}

/// A call keeps the balance: the new context has no slots.
pub proof fn lemma_called(s: EngineView, position: int)
    requires
        balanced(s),
        s.called(position) is Some,
    ensures
        balanced(s.called(position)->Some_0),
{
    let t = s.called(position)->Some_0;
    lemma_contexts_prefix(s.invocation, t.invocation, s.invocation.len() as int);
}

/// A change of the handlers of the current context keeps the balance.
pub proof fn lemma_with_handlers(s: EngineView, handlers: Seq<ExceptionHandlingContext>)
    requires
        balanced(s),
        s.invocation.len() > 0,
    ensures
        balanced(s.with_handlers(handlers)),
{
    lemma_with_context(s, ContextView { try_stack: Some(handlers), ..s.context() });
}

/// `TRY` and `ENDTRY` keep the balance.
pub proof fn lemma_try(s: EngineView, first: int, second: int)
    requires
        balanced(s),
    ensures
        s.entered_try(first, second) is Some ==> balanced(s.entered_try(first, second)->Some_0),
        s.ended_try(first) is Some ==> balanced(s.ended_try(first)->Some_0),
{
    if s.entered_try(first, second) is Some {
        let c = s.block_at(first)->Some_0;
        let f = s.block_at(second)->Some_0;
        lemma_with_handlers(
            s,
            s.handlers().push(
                ExceptionHandlingContext {
                    catch_pointer: c,
                    finally_pointer: f,
                    end_pointer: None,
                    state: crate::vm::exception_handling_state::ExceptionHandlingState::Try,
                },
            ),
        );
    }
    if s.ended_try(first) is Some {
        let top = s.handlers().last();
        let end = s.target(first) as usize;
        match top.finally_pointer {
            Some(f) => {
                let handlers = s.handlers().update(
                    s.handlers().len() - 1,
                    ExceptionHandlingContext {
                        state: crate::vm::exception_handling_state::ExceptionHandlingState::Finally,
                        end_pointer: Some(end),
                        ..top
                    },
                );
                lemma_with_handlers(s, handlers);
                lemma_moved(s.with_handlers(handlers), f as int);
            },
            None => {
                lemma_with_handlers(s, s.handlers().drop_last());
                lemma_moved(s.with_handlers(s.handlers().drop_last()), end as int);
            },
        }
    }
}

/// A machine that owes the places of a context that has left: its total
/// counts the live references and the items of the slots of the context.
pub open spec fn owes(s: EngineView, c: ContextView) -> bool {
    s.heap.count == placed(s) + held(s.heap) + context_size(c)
}

/// Unloading a context that has left settles what the machine owes for it.
pub proof fn lemma_unloaded(s: EngineView, c: ContextView)
    requires
        owes(s, c),
        s.unloaded(c) is Some,
    ensures
        balanced(s.unloaded(c)->Some_0),
        s.unloaded(c)->Some_0.invocation == s.invocation,
{
    let after_frame = if s.invocation.len() == 0 || s.context().shared_states != c.shared_states {
        lemma_released_frame_owing(s, c.shared_states, context_size(c));
        s.released_frame(c.shared_states)->Some_0
    } else {
        s
    };
    match c.local_variables {
        Some(items) => {
            lemma_remove_stack_references(after_frame.heap, items, 0);
        },
        None => {},
    }
    let after_locals = after_frame.released_slot(c.local_variables)->Some_0;
    match c.arguments {
        Some(items) => {
            lemma_remove_stack_references(after_locals.heap, items, 0);
        },
        None => {},
    }
}

/// Giving up shared states keeps what the machine owes beside its places.
pub proof fn lemma_released_frame_owing(s: EngineView, index: usize, debt: int)
    requires
        s.heap.count == placed(s) + held(s.heap) + debt,
        s.released_frame(index) is Some,
    ensures
        s.released_frame(index)->Some_0.heap.count == placed(s.released_frame(index)->Some_0)
            + held(s.released_frame(index)->Some_0.heap) + debt,
        s.released_frame(index)->Some_0.invocation == s.invocation,
        s.released_frame(index)->Some_0.result_stack == s.result_stack,
{
    let f = s.shared[index as int];
    let after_fields = match f.static_fields {
        Some(items) => {
            lemma_remove_stack_references(s.heap, items, 0);
            s.heap.remove_stack_references(items, 0)->Some_0
        },
        None => s.heap,
    };
    let st = StackState { stack: f.stack, heap: after_fields };
    lemma_clear(st);
    let cleared = st.clear()->Some_0;
    lemma_frames_update(
        s.shared,
        index as int,
        SharedView {
            stack: cleared.stack,
            static_fields: match f.static_fields {
                Some(_) => Some(Seq::<ItemView>::empty()),
                None => None,
            },
            ..f
        },
        s.shared.len() as int,
    );
}

/// A machine without its current context owes the places of that context.
pub proof fn lemma_without_context(s: EngineView)
    requires
        balanced(s),
        s.invocation.len() > 0,
    ensures
        owes(s.without_context(), s.context()),
{
    lemma_contexts_prefix(
        s.invocation,
        s.without_context().invocation,
        s.invocation.len() - 1,
    );
}

/// A handler that takes the pending exception keeps the balance.
pub proof fn lemma_claimed(s: EngineView, remaining: Seq<ExceptionHandlingContext>)
    requires
        balanced(s),
        s.claimed(remaining) is Some,
    ensures
        balanced(s.claimed(remaining)->Some_0),
{
    let top = remaining.last();
    if top.state == crate::vm::exception_handling_state::ExceptionHandlingState::Try
        && top.catch_pointer is Some {
        let handlers = remaining.update(
            remaining.len() - 1,
            ExceptionHandlingContext {
                state: crate::vm::exception_handling_state::ExceptionHandlingState::Catch,
                ..top
            },
        );
        lemma_with_handlers(s, handlers);
        let with = s.with_handlers(handlers);
        lemma_engine_stack(with, 0, s.uncaught->Some_0);
        let pushed = with.push(s.uncaught->Some_0)->Some_0;
        let cleared = EngineView { uncaught: None, ..pushed };
        assert(balanced(cleared));
        lemma_moved(cleared, top.catch_pointer->Some_0 as int);
    } else {
        let handlers = remaining.update(
            remaining.len() - 1,
            ExceptionHandlingContext {
                state: crate::vm::exception_handling_state::ExceptionHandlingState::Finally,
                ..top
            },
        );
        lemma_with_handlers(s, handlers);
        lemma_moved(s.with_handlers(handlers), top.finally_pointer->Some_0 as int);
    }
}

/// Unwinding keeps the balance.
pub proof fn lemma_unwound(s: EngineView)
    requires
        balanced(s),
        s.unwound() is Some,
    ensures
        balanced(s.unwound()->Some_0),
    decreases s.invocation.len(),
{
    let remaining = live_handlers(s.handlers());
    if remaining.len() > 0 {
        lemma_claimed(s, remaining);
    } else {
        lemma_without_context(s);
        lemma_unloaded(s.without_context(), s.context());
        lemma_unwound(s.without_context().unloaded(s.context())->Some_0);
    }
}

/// `THROW` and `ENDFINALLY` keep the balance.
pub proof fn lemma_throw(s: EngineView)
    requires
        balanced(s),
    ensures
        s.thrown() is Some ==> balanced(s.thrown()->Some_0),
        s.ended_finally() is Some ==> balanced(s.ended_finally()->Some_0),
{
    if s.thrown() is Some {
        lemma_engine_stack(s, 0, ItemView::Null);
        let p = s.pop()->Some_0;
        let pending = EngineView { uncaught: Some(p.1), ..p.0 };
        assert(balanced(pending));
        lemma_unwound(pending);
    }
    if s.ended_finally() is Some {
        let top = s.handlers().last();
        lemma_with_handlers(s, s.handlers().drop_last());
        let t = s.with_handlers(s.handlers().drop_last());
        if t.uncaught is Some {
            lemma_unwound(t);
        } else {
            match top.end_pointer {
                Some(e) => {
                    lemma_moved(t, e as int);
                },
                None => {},
            }
        }
    }
}

/// `RET` keeps the balance.
pub proof fn lemma_returned(s: EngineView)
    requires
        balanced(s),
        s.returned() is Some,
    ensures
        balanced(s.returned()->Some_0),
{
    let ctx = s.context();
    let items = s.frame().stack;
    let below = s.without_context();
    lemma_without_context(s);
    if below.invocation.len() > 0 && below.context().shared_states == ctx.shared_states {
        lemma_unloaded(below, ctx);
    } else if below.invocation.len() == 0 {
        let st = StackState { stack: below.result_stack, heap: below.heap };
        lemma_push_all(st, items, 0);
        let pushed = st.push_all(items, 0)->Some_0;
        let handed = EngineView {
            result_stack: pushed.stack,
            heap: pushed.heap,
            state: crate::vm::vm_state::VMState::HALT,
            ..below
        };
        assert(owes(handed, ctx));
        lemma_unloaded(handed, ctx);
    } else {
        let st = below.operands();
        lemma_push_all(st, items, 0);
        let pushed = st.push_all(items, 0)->Some_0;
        lemma_with_frame(below, SharedView { stack: pushed.stack, ..below.frame() });
        let handed = below.with_operands(pushed);
        assert(owes(handed, ctx));
        lemma_unloaded(handed, ctx);
    }
}

/// The flow codes keep the balance.
pub proof fn lemma_flow_op(s: EngineView, op: OpCode, operand: Seq<u8>)
    requires
        balanced(s),
        s.flow_op(op, operand) is Some,
    ensures
        balanced(s.flow_op(op, operand)->Some_0),
{
    match op {
        OpCode::CALL => {
            lemma_called(s, s.target(branch_offset(op, operand)->Some_0));
        },
        OpCode::CALL_L => {
            lemma_called(s, s.target(branch_offset(op, operand)->Some_0));
        },
        OpCode::CALLA => {
            lemma_jumps_and_calls(s, op, operand, 0);
        },
        OpCode::ASSERT => {
            lemma_engine_stack(s, 0, ItemView::Null);
        },
        OpCode::THROW => {
            lemma_throw(s);
        },
        OpCode::TRY => {
            lemma_try(
                s,
                crate::vm::encoding::signed8(operand[0]),
                crate::vm::encoding::signed8(operand[1]),
            );
        },
        OpCode::TRY_L => {
            lemma_try(
                s,
                crate::vm::encoding::le_i32(operand),
                crate::vm::encoding::le_i32(operand.skip(4)),
            );
        },
        OpCode::ENDTRY => {
            lemma_try(s, branch_offset(op, operand)->Some_0, 0);
        },
        OpCode::ENDTRY_L => {
            lemma_try(s, branch_offset(op, operand)->Some_0, 0);
        },
        OpCode::ENDFINALLY => {
            lemma_throw(s);
        },
        OpCode::RET => {
            lemma_returned(s);
        },
        OpCode::PUSHA => {
            let o = branch_offset(op, operand)->Some_0;
            lemma_engine_stack(
                s,
                0,
                ItemView::Pointer(
                    crate::types::vm_pointer::VMPointer {
                        script: s.context().shared_states,
                        position: s.target(o) as usize,
                    },
                ),
            );
        },
        OpCode::PACK => {
            lemma_packed(s, op);
        },
        OpCode::PACKSTRUCT => {
            lemma_packed(s, op);
        },
        OpCode::PACKMAP => {
            lemma_packed(s, op);
        },
        _ => {},
    }
}

/// Every handler keeps the balance.
pub proof fn lemma_handled(s: EngineView, op: OpCode, operand: Seq<u8>)
    requires
        balanced(s),
        s.handled(op, operand) is Some,
    ensures
        balanced(s.handled(op, operand)->Some_0),
{
    if arity(op) is Some {
        lemma_computed(s, op, operand);
    } else if crate::jump_table::stack::is_stack_op(op) {
        lemma_stack_op(s, op);
    } else if crate::jump_table::dispatch::is_slot_op(op) {
        lemma_slot_op(s, op, operand);
    } else if crate::jump_table::control::is_jump_code(op) {
        lemma_jumps_and_calls(s, op, operand, 0);
    } else {
        lemma_flow_op(s, op, operand);
    }
}

/// The number of items that the reclaimed objects among the first `upto`
/// objects hold.
pub open spec fn garbage_upto(h: CounterView, upto: int) -> int
    decreases upto,
{
    if upto <= 0 {
        0
    } else {
        garbage_upto(h, upto - 1) + if is_garbage(h, (upto - 1) as usize) {
            h.object((upto - 1) as usize).sub_items().len() as int
        } else {
            0
        }
    }
}

/// A collection takes from the total and from the held items what the
/// reclaimed objects held.
pub proof fn lemma_collected_sums(h: CounterView, upto: int)
    requires
        0 <= upto <= h.items.len(),
        h.items.len() <= usize::MAX,
        held(h) <= h.count,
    ensures
        0 <= garbage_upto(h, upto) <= held_upto(h, upto),
        held_upto(h, upto) <= held(h),
        reduced_count(h, upto) == h.count - garbage_upto(h, upto),
        held_upto(collected(h), upto) == held_upto(h, upto) - garbage_upto(h, upto),
    decreases upto,
{
    lemma_held_monotone(h, upto, h.items.len() as int);
    if upto > 0 {
        lemma_collected_sums(h, upto - 1);
        let after = collected(h);
        assert(after.items[upto - 1] == swept(h, upto - 1));
        assert(((upto - 1) as usize) as int == upto - 1);
        assert(h.object((upto - 1) as usize) == h.items[upto - 1].item);
        if is_garbage(h, (upto - 1) as usize) {
            assert(h.items[upto - 1].item.emptied().sub_items().len() == 0);
        }
    }
}

/// The held items grow with the number of objects that are counted.
pub proof fn lemma_held_monotone(h: CounterView, first: int, second: int)
    requires
        first <= second,
    ensures
        held_upto(h, first) <= held_upto(h, second),
        0 <= held_upto(h, first),
    decreases second - first, second,
{
    if first < second {
        lemma_held_monotone(h, first, second - 1);
    } else if first > 0 {
        lemma_held_monotone(h, first - 1, first - 1);
    }
}

/// A collection leaves the references from stacks and slots as they are,
/// for a counter whose total covers the items that its objects hold.
pub proof fn lemma_collection_outside(h: CounterView)
    requires
        h.items.len() <= usize::MAX,
        held(h) <= h.count,
    ensures
        outside(checked_zero_referred(h)) == outside(h),
{
    if any_zero_referred(h) {
        lemma_collected_sums(h, h.items.len() as int);
    }
}

/// The places of a machine are never fewer than none.
pub proof fn lemma_placed_not_negative(s: EngineView)
    ensures
        placed(s) >= 0,
{
    lemma_frames_not_negative(s.shared, s.shared.len() as int);
    lemma_contexts_not_negative(s.invocation, s.invocation.len() as int);
}

pub proof fn lemma_frames_not_negative(shared: Seq<SharedView>, upto: int)
    ensures
        frames_upto(shared, upto) >= 0,
    decreases upto,
{
    if upto > 0 {
        lemma_frames_not_negative(shared, upto - 1);
    }
}

pub proof fn lemma_contexts_not_negative(contexts: Seq<ContextView>, upto: int)
    ensures
        contexts_upto(contexts, upto) >= 0,
    decreases upto,
{
    if upto > 0 {
        lemma_contexts_not_negative(contexts, upto - 1);
    }
}

/// Where the total of the counter equals the number of places that hold an
/// item plus the number of items that the objects hold, it does so again
/// after a step that succeeds.
pub proof fn lemma_next_keeps_balance(s: EngineView)
    requires
        balanced(s),
        s.next() is Some,
    ensures
        balanced(s.next()->Some_0),
{
    reveal(EngineView::next);
    if s.invocation.len() > 0 {
        let ins = s.fetched()->Some_0;
        let t = if crate::jump_table::host_handles(s.table, ins.opcode) {
            EngineView {
                pending: Some(crate::vm::execution_engine::HostCall::Instruction(ins.opcode)),
                state: crate::vm::vm_state::VMState::BREAK,
                ..s
            }
        } else {
            lemma_handled(s, ins.opcode, ins.operand);
            s.handled(ins.opcode, ins.operand)->Some_0
        };
        lemma_placed_not_negative(t);
        if t.heap.count > t.limits.max_stack_size {
            lemma_collection_outside(t.heap);
        }
        let u = t.within_limit()->Some_0;
        assert(balanced(u));
        if !u.is_jumping {
            let index = s.invocation.len() - 1;
            lemma_contexts_update(
                u.invocation,
                index,
                ContextView {
                    instruction_pointer: (u.invocation[index].instruction_pointer + ins.size())
                        as usize,
                    ..u.invocation[index]
                },
                u.invocation.len() as int,
            );
        }
    }
}

/// The reference count equals the live references at every step: where
/// the total of the counter equals the number of places that hold an item
/// plus the number of items that the objects hold, it does so again after
/// a step, whether the step succeeds or faults the machine.
pub proof fn lemma_step_keeps_balance(s: EngineView)
    requires
        balanced(s),
    ensures
        balanced(s.step()),
{
    if s.next() is Some {
        lemma_next_keeps_balance(s);
    }
}

/// A machine without contexts and without references is balanced, and
/// loading a script keeps the balance.
pub proof fn lemma_start_is_balanced(
    table: Seq<crate::jump_table::Handler>,
    limits: ExecutionEngineLimits,
    s: EngineView,
    script: crate::vm::script::ScriptView,
    rv_count: i32,
    position: usize,
)
    ensures
        balanced(EngineView::initial(table, CounterView::empty(), limits)),
        balanced(s) ==> balanced(s.with_script(script, rv_count, position)),
        balanced(s) ==> balanced(s.resumed()),
{
    let t = s.with_script(script, rv_count, position);
    lemma_frames_prefix(s.shared, t.shared, s.shared.len() as int);
    lemma_contexts_prefix(s.invocation, t.invocation, s.invocation.len() as int);
}

/// The reference count equals the live references for as long as the
/// machine runs: a balanced machine is balanced when it stops.
pub proof fn lemma_run_keeps_balance(s: EngineView, fuel: nat)
    requires
        balanced(s),
    ensures
        balanced(s.run(fuel)),
    decreases fuel,
{
    if s.state == crate::vm::vm_state::VMState::NONE && fuel > 0 {
        lemma_step_keeps_balance(s);
        lemma_run_keeps_balance(s.step(), (fuel - 1) as nat);
    }
}

} // verus!
