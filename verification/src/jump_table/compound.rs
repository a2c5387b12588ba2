use crate::big_integer::{bit_length, int_abs};
use crate::jump_table::operands::{int_arg, int_at, none, one, single, size_arg, size_at};
use crate::jump_table::types::{operand_type, read_operand_type};
use crate::types::compound_types::compound_type::key_allowed;
use crate::types::compound_types::vm_array::clone_items;
use crate::types::compound_types::vm_compound::{CompoundView, VMCompound};
use crate::types::compound_types::vm_map::{valid_key, MapView};
use crate::types::primitive_types::vm_integer::VMInteger;
use crate::types::stack_item::{copy_bytes, items_view, ItemView, StackItem};
use crate::types::stack_item_type::StackItemType;
use crate::vm::execution_engine_limits::ExecutionEngineLimits;
use crate::vm::op_code::OpCode;
use crate::vm::reference_counter::{CounterView, ReferenceCounter};
use crate::jump_table::JumpTable;
use crate::vm::execution_engine::ExecutionEngine;
use crate::vm::instruction::Instruction;
use vstd::prelude::*;

verus! {

/// The number of bytes of the absolute value of `v`; zero has one.
pub open spec fn magnitude_len(v: int) -> nat {
    if v == 0 {
        1
    } else {
        let bits = bit_length(int_abs(v));
        bits / 8 + if bits % 8 != 0 {
            1nat
        } else {
            0nat
        }
    }
}

/// The item that fills a new array of the given type: false, zero, the
/// empty byte string, or null.
pub open spec fn default_item(t: StackItemType) -> ItemView {
    match t {
        StackItemType::Boolean => ItemView::Boolean(false),
        StackItemType::Integer => ItemView::Integer(0),
        StackItemType::ByteString => ItemView::ByteString(Seq::<u8>::empty()),
        _ => ItemView::Null,
    }
}

/// The number of the array or struct that the item refers to.
pub open spec fn sequence_handle(item: ItemView) -> Option<usize> {
    match item {
        ItemView::Array(id) => Some(id),
        ItemView::Struct(id) => Some(id),
        _ => None,
    }
}

/// The values and keys of a map, one pair after the other, each value
/// before its key.
pub open spec fn unpacked_map(m: MapView) -> Seq<ItemView> {
    Seq::new(
        2 * m.keys.len(),
        |i: int|
            if i % 2 == 0 {
                m.values[i / 2]
            } else {
                m.keys[i / 2]
            },
    )
}

/// The byte that `SETITEM` stores in a buffer for the number `v`.
pub open spec fn stored_byte(v: int) -> u8
    recommends
        -128 <= v <= 255,
{
    (if v < 0 {
        v + 256
    } else {
        v
    }) as u8
}

/// The number of operands of a code that works on arrays, structs, maps and
/// buffers.
pub open spec fn compound_arity(op: OpCode) -> Option<nat> {
    if op == OpCode::NEWARRAY0 || op == OpCode::NEWSTRUCT0 || op == OpCode::NEWMAP {
        Some(0)
    } else if op == OpCode::NEWARRAY || op == OpCode::NEWARRAY_T || op == OpCode::NEWSTRUCT || op
        == OpCode::SIZE || op == OpCode::KEYS || op == OpCode::VALUES || op
        == OpCode::REVERSEITEMS || op == OpCode::CLEARITEMS || op == OpCode::POPITEM || op
        == OpCode::UNPACK {
        Some(1)
    } else if op == OpCode::HASKEY || op == OpCode::PICKITEM || op == OpCode::APPEND || op
        == OpCode::REMOVE {
        Some(2)
    } else if op == OpCode::SETITEM {
        Some(3)
    } else {
        None
    }
}

/// The size that `SIZE` reports of an item: the number of items of an
/// array or struct, of keys of a map, of bytes of a byte string or
/// buffer, and of bytes of the absolute value of an integer.
pub open spec fn size_of(heap: CounterView, item: ItemView) -> Option<nat> {
    match item {
        ItemView::Array(id) => match heap.sequence_items(id) {
            Some(a) => Some(a.items.len()),
            None => None,
        },
        ItemView::Struct(id) => match heap.sequence_items(id) {
            Some(a) => Some(a.items.len()),
            None => None,
        },
        ItemView::Mapping(id) => match heap.map_of(id) {
            Some(m) => Some(m.keys.len()),
            None => None,
        },
        ItemView::ByteString(b) => Some(b.len()),
        ItemView::Buffer(id) => match heap.buffer_of(id) {
            Some(b) => Some(b.len()),
            None => None,
        },
        ItemView::Integer(v) => if magnitude_len(v) <= usize::MAX {
            Some(magnitude_len(v))
        } else {
            None
        },
        _ => None,
    }
}

/// Whether the collection holds the key: a position of an array, a struct,
/// a byte string or a buffer, or a key of a map.
pub open spec fn has_key(heap: CounterView, item: ItemView, key: ItemView) -> Option<bool> {
    match item {
        ItemView::Mapping(id) => match heap.map_of(id) {
            Some(m) => if valid_key(key) {
                Some(m.get(key) is Some)
            } else {
                None
            },
            None => None,
        },
        ItemView::Pointer(_) => None,
        ItemView::InteropInterface(_) => None,
        ItemView::Null => None,
        ItemView::Boolean(_) => None,
        ItemView::Integer(_) => None,
        _ => match (size_of(heap, item), heap.integer_of(key)) {
            (Some(n), Some(i)) => if 0 <= i <= usize::MAX {
                Some(i < n)
            } else {
                None
            },
            _ => None,
        },
    }
}

/// The item of the collection under the key: the item at a position of an
/// array or a struct, the value of a key of a map, or the byte at a
/// position of a byte string or a buffer, as a number.
pub open spec fn picked_item(heap: CounterView, item: ItemView, key: ItemView) -> Option<ItemView> {
    match item {
        ItemView::Mapping(id) => match heap.map_of(id) {
            Some(m) => if valid_key(key) {
                m.get(key)
            } else {
                None
            },
            None => None,
        },
        ItemView::Array(id) => match (heap.sequence_items(id), heap.integer_of(key)) {
            (Some(a), Some(i)) => if 0 <= i < a.items.len() {
                Some(a.items[i])
            } else {
                None
            },
            _ => None,
        },
        ItemView::Struct(id) => match (heap.sequence_items(id), heap.integer_of(key)) {
            (Some(a), Some(i)) => if 0 <= i < a.items.len() {
                Some(a.items[i])
            } else {
                None
            },
            _ => None,
        },
        ItemView::ByteString(b) => match heap.integer_of(key) {
            Some(i) => if 0 <= i < b.len() {
                Some(ItemView::Integer(b[i] as int))
            } else {
                None
            },
            None => None,
        },
        ItemView::Buffer(id) => match (heap.buffer_of(id), heap.integer_of(key)) {
            (Some(b), Some(i)) => if 0 <= i < b.len() {
                Some(ItemView::Integer(b[i] as int))
            } else {
                None
            },
            _ => None,
        },
        _ => None,
    }
}

/// The result of a code that leaves the counter with `heap` and pushes
/// nothing.
pub open spec fn done(heap: Option<CounterView>) -> Option<(CounterView, Seq<ItemView>)> {
    match heap {
        Some(h) => Some((h, Seq::<ItemView>::empty())),
        None => None,
    }
}

/// The result of a code that makes a new array, or a new struct, of the
/// items and pushes it.
pub open spec fn made(heap: CounterView, items: Seq<ItemView>, as_struct: bool) -> Option<
    (CounterView, Seq<ItemView>),
> {
    match heap.new_sequence(items, as_struct) {
        Some((h, id)) => Some(
            (
                h,
                single(
                    if as_struct {
                        ItemView::Struct(id)
                    } else {
                        ItemView::Array(id)
                    },
                ),
            ),
        ),
        None => None,
    }
}

/// `NEWARRAY`, `NEWSTRUCT` and `NEWARRAY_T`: a new array or struct of as
/// many items as the operand says, at most the stack limit, each the
/// default of the type that the instruction names, or null.
pub open spec fn new_sized_compute(
    op: OpCode,
    operand: Seq<u8>,
    args: Seq<ItemView>,
    heap: CounterView,
    limits: ExecutionEngineLimits,
) -> Option<(CounterView, Seq<ItemView>)> {
    let fill = if op == OpCode::NEWARRAY_T {
        match operand_type(operand) {
            Some(t) => Some(default_item(t)),
            None => None,
        }
    } else {
        Some(ItemView::Null)
    };
    match (fill, size_at(heap, args, 0)) {
        (Some(item), Some(n)) => if n > limits.max_stack_size {
            None
        } else {
            made(heap, Seq::new(n as nat, |i: int| item), op == OpCode::NEWSTRUCT)
        },
        _ => None,
    }
}

/// `SIZE`: the size of the item.
pub open spec fn size_compute(args: Seq<ItemView>, heap: CounterView) -> Option<
    (CounterView, Seq<ItemView>),
> {
    if args.len() < 1 {
        None
    } else {
        match size_of(heap, args[0]) {
            Some(n) => if n <= usize::MAX {
                Some((heap, single(ItemView::Integer(n as int))))
            } else {
                None
            },
            None => None,
        }
    }
}

/// `KEYS`: a new array of the keys of the map.
pub open spec fn keys_compute(args: Seq<ItemView>, heap: CounterView) -> Option<
    (CounterView, Seq<ItemView>),
> {
    if args.len() < 1 {
        None
    } else {
        match args[0] {
            ItemView::Mapping(id) => match heap.map_of(id) {
                Some(m) => made(heap, m.keys, false),
                None => None,
            },
            _ => None,
        }
    }
}

/// `VALUES`: a new array of the values of the map, or of the items of the
/// array or struct.
pub open spec fn values_compute(args: Seq<ItemView>, heap: CounterView) -> Option<
    (CounterView, Seq<ItemView>),
> {
    if args.len() < 1 {
        None
    } else {
        match args[0] {
            ItemView::Mapping(id) => match heap.map_of(id) {
                Some(m) => made(heap, m.values, false),
                None => None,
            },
            _ => match sequence_handle(args[0]) {
                Some(id) => match heap.sequence_items(id) {
                    Some(a) => made(heap, a.items, false),
                    None => None,
                },
                None => None,
            },
        }
    }
}

/// `REVERSEITEMS`: the items of the array or struct, or the bytes of the
/// buffer, in the opposite order.
pub open spec fn reverse_compute(args: Seq<ItemView>, heap: CounterView) -> Option<
    (CounterView, Seq<ItemView>),
> {
    if args.len() < 1 {
        None
    } else {
        match args[0] {
            ItemView::Buffer(id) => match heap.buffer_of(id) {
                Some(b) => done(heap.set_buffer(id, b.reverse())),
                None => None,
            },
            _ => match sequence_handle(args[0]) {
                Some(id) => done(heap.reverse_sequence(id)),
                None => None,
            },
        }
    }
}

/// `CLEARITEMS`: the array, struct or map without anything in it.
pub open spec fn clear_compute(args: Seq<ItemView>, heap: CounterView) -> Option<
    (CounterView, Seq<ItemView>),
> {
    if args.len() < 1 {
        None
    } else {
        match args[0] {
            ItemView::Array(id) => done(heap.clear_items(id)),
            ItemView::Struct(id) => done(heap.clear_items(id)),
            ItemView::Mapping(id) => done(heap.clear_items(id)),
            _ => None,
        }
    }
}

/// `POPITEM`: the array or struct without its last item, which is pushed.
pub open spec fn pop_item_compute(args: Seq<ItemView>, heap: CounterView) -> Option<
    (CounterView, Seq<ItemView>),
> {
    if args.len() < 1 {
        None
    } else {
        match sequence_handle(args[0]) {
            Some(id) => match heap.sequence_items(id) {
                Some(a) => if a.items.len() == 0 {
                    None
                } else {
                    match heap.remove_sequence_item(id, a.items.len() - 1) {
                        Some(h) => Some((h, single(a.items.last()))),
                        None => None,
                    }
                },
                None => None,
            },
            None => None,
        }
    }
}

/// `UNPACK`: the items of the array or struct in their order, or the
/// entries of the map, each value before its key, and then their number.
pub open spec fn unpack_compute(args: Seq<ItemView>, heap: CounterView) -> Option<
    (CounterView, Seq<ItemView>),
> {
    if args.len() < 1 {
        None
    } else {
        match args[0] {
            ItemView::Mapping(id) => match heap.map_of(id) {
                Some(m) => if m.keys.len() <= usize::MAX / 2 && m.wf() {
                    Some((heap, unpacked_map(m).push(ItemView::Integer(m.keys.len() as int))))
                } else {
                    None
                },
                None => None,
            },
            _ => match sequence_handle(args[0]) {
                Some(id) => match heap.sequence_items(id) {
                    Some(a) => Some(
                        (heap, a.items.push(ItemView::Integer(a.items.len() as int))),
                    ),
                    None => None,
                },
                None => None,
            },
        }
    }
}

/// `HASKEY`: whether the collection holds the key.
pub open spec fn has_key_compute(args: Seq<ItemView>, heap: CounterView) -> Option<
    (CounterView, Seq<ItemView>),
> {
    if args.len() < 2 {
        None
    } else {
        match has_key(heap, args[1], args[0]) {
            Some(b) => Some((heap, single(ItemView::Boolean(b)))),
            None => None,
        }
    }
}

/// `PICKITEM`: the item of the collection under the key.
pub open spec fn pick_compute(args: Seq<ItemView>, heap: CounterView) -> Option<
    (CounterView, Seq<ItemView>),
> {
    if args.len() < 2 {
        None
    } else {
        match picked_item(heap, args[1], args[0]) {
            Some(item) => Some((heap, single(item))),
            None => None,
        }
    }
}

/// `APPEND`: the array or struct with the item at its end. The array or
/// struct is pushed back, so that it stays on the stack.
pub open spec fn append_compute(args: Seq<ItemView>, heap: CounterView) -> Option<
    (CounterView, Seq<ItemView>),
> {
    if args.len() < 2 {
        None
    } else {
        match sequence_handle(args[1]) {
            Some(id) => match heap.append(id, args[0]) {
                Some(h) => Some((h, single(args[1]))),
                None => None,
            },
            None => None,
        }
    }
}

/// `REMOVE`: the array or struct without the item at the position, or the
/// map without the key.
pub open spec fn remove_compute(args: Seq<ItemView>, heap: CounterView) -> Option<
    (CounterView, Seq<ItemView>),
> {
    if args.len() < 2 {
        None
    } else {
        match args[1] {
            ItemView::Mapping(id) => done(heap.map_remove(id, args[0])),
            _ => match (sequence_handle(args[1]), size_at(heap, args, 0)) {
                (Some(id), Some(i)) => done(heap.remove_sequence_item(id, i as int)),
                _ => None,
            },
        }
    }
}

/// The buffer `id` with the byte for the number of `value` at the position
/// that `key` names; the number must be from -128 to 255.
pub open spec fn set_buffer_byte(heap: CounterView, id: usize, key: ItemView, value: ItemView) -> Option<
    (CounterView, Seq<ItemView>),
> {
    match (heap.buffer_of(id), heap.integer_of(key), heap.integer_of(value)) {
        (Some(b), Some(i), Some(v)) => if 0 <= i < b.len() && -128 <= v <= 255 {
            done(heap.set_buffer(id, b.update(i, stored_byte(v))))
        } else {
            None
        },
        _ => None,
    }
}

/// The array or struct to which `target` refers with `value` at the
/// position that `key` names.
pub open spec fn set_sequence_slot(
    heap: CounterView,
    target: ItemView,
    key: ItemView,
    value: ItemView,
) -> Option<(CounterView, Seq<ItemView>)> {
    match (sequence_handle(target), heap.integer_of(key)) {
        (Some(id), Some(i)) => if 0 <= i <= usize::MAX {
            done(heap.set_sequence_item(id, i, value))
        } else {
            None
        },
        _ => None,
    }
}

/// `SETITEM`: the array or struct with the value at the position, the map
/// with the value under the key, or the buffer with the byte at the
/// position; the byte is a number from -128 to 255.
pub open spec fn set_item_compute(args: Seq<ItemView>, heap: CounterView) -> Option<
    (CounterView, Seq<ItemView>),
> {
    if args.len() < 3 {
        None
    } else {
        match args[2] {
            ItemView::Mapping(id) => done(heap.map_set(id, args[1], args[0])),
            ItemView::Buffer(id) => set_buffer_byte(heap, id, args[1], args[0]),
            _ => set_sequence_slot(heap, args[2], args[1], args[0]),
        }
    }
}

/// What a code that works on arrays, structs, maps and buffers pushes, and
/// the counter afterwards. The operands are in the order in which they were
/// popped: for two operands the key or the item comes first, then the
/// collection; `SETITEM` takes the value, the key and the collection.
pub open spec fn compound_compute(
    op: OpCode,
    operand: Seq<u8>,
    args: Seq<ItemView>,
    heap: CounterView,
    limits: ExecutionEngineLimits,
) -> Option<(CounterView, Seq<ItemView>)> {
    match op {
        OpCode::NEWARRAY0 => made(heap, Seq::<ItemView>::empty(), false),
        OpCode::NEWSTRUCT0 => made(heap, Seq::<ItemView>::empty(), true),
        OpCode::NEWMAP => Some(
            (
                heap.adopt(CompoundView::Mapping(MapView::empty())),
                single(ItemView::Mapping(heap.items.len() as usize)),
            ),
        ),
        OpCode::NEWARRAY => new_sized_compute(op, operand, args, heap, limits),
        OpCode::NEWSTRUCT => new_sized_compute(op, operand, args, heap, limits),
        OpCode::NEWARRAY_T => new_sized_compute(op, operand, args, heap, limits),
        OpCode::SIZE => size_compute(args, heap),
        OpCode::KEYS => keys_compute(args, heap),
        OpCode::VALUES => values_compute(args, heap),
        OpCode::REVERSEITEMS => reverse_compute(args, heap),
        OpCode::CLEARITEMS => clear_compute(args, heap),
        OpCode::POPITEM => pop_item_compute(args, heap),
        OpCode::UNPACK => unpack_compute(args, heap),
        OpCode::HASKEY => has_key_compute(args, heap),
        OpCode::PICKITEM => pick_compute(args, heap),
        OpCode::APPEND => append_compute(args, heap),
        OpCode::REMOVE => remove_compute(args, heap),
        OpCode::SETITEM => set_item_compute(args, heap),
        _ => None,
    }
}

/// The number of the array or struct that the item refers to.
pub fn get_sequence_handle(item: &StackItem) -> (r: Option<usize>)
    ensures
        r == sequence_handle(item@),
{
    match item {
        StackItem::Array(id) => Some(*id),
        StackItem::Struct(id) => Some(*id),
        _ => None,
    }
}

/// The item that refers to the array or struct `id`.
fn sequence_item(id: usize, as_struct: bool) -> (r: StackItem)
    ensures
        r@ == if as_struct {
            ItemView::Struct(id)
        } else {
            ItemView::Array(id)
        },
{
    if as_struct {
        StackItem::Struct(id)
    } else {
        StackItem::Array(id)
    }
}

/// The item that fills a new array of the given type.
pub fn make_default_item(t: StackItemType) -> (r: StackItem)
    ensures
        r@ == default_item(t),
{
    match t {
        StackItemType::Boolean => StackItem::Boolean(false),
        StackItemType::Integer => StackItem::Integer(VMInteger::from_i64(0)),
        StackItemType::ByteString => StackItem::ByteString(Vec::new()),
        _ => StackItem::Null,
    }
}

/// `n` copies of the item.
pub fn repeat_item(item: &StackItem, n: usize) -> (r: Vec<StackItem>)
    ensures
        items_view(r@) == Seq::new(n as nat, |i: int| item@),
{
    let mut out: Vec<StackItem> = Vec::new();
    let mut i: usize = 0;
    while i < n
        invariant
            i <= n,
            out@.len() == i,
            forall|j: int| 0 <= j < i ==> out@[j]@ == item@,
        decreases n - i,
    {
        out.push(item.clone());
        i += 1;
    }
    assert(items_view(out@) =~= Seq::new(n as nat, |i: int| item@));
    out
}

/// The size that `SIZE` reports of the item.
pub fn get_size(heap: &ReferenceCounter, item: &StackItem) -> (r: Option<usize>)
    ensures
        r is Some <==> size_of(heap@, item@) is Some,
        r is Some ==> r->Some_0 == size_of(heap@, item@)->Some_0,
{
    match item {
        StackItem::Array(id) => match heap.sequence(*id) {
            Some(v) => {
                assert(items_view(v@).len() == v@.len());
                Some(v.len())
            },
            None => None,
        },
        StackItem::Struct(id) => match heap.sequence(*id) {
            Some(v) => {
                assert(items_view(v@).len() == v@.len());
                Some(v.len())
            },
            None => None,
        },
        StackItem::Mapping(id) => match heap.map(*id) {
            Some(m) => Some(m.len()),
            None => None,
        },
        StackItem::ByteString(b) => Some(b.len()),
        StackItem::Buffer(id) => match heap.buffer(*id) {
            Some(b) => Some(b.len()),
            None => None,
        },
        StackItem::Integer(v) => {
            if v.value().is_zero() {
                Some(1)
            } else {
                let bits: u64 = v.value().bits();
                let whole: u64 = bits / 8;
                let n: u64 = if bits % 8 != 0 {
                    whole + 1
                } else {
                    whole
                };
                if n <= usize::MAX as u64 {
                    Some(n as usize)
                } else {
                    None
                }
            }
        },
        _ => None,
    }
}

/// Whether the collection holds the key.
pub fn check_has_key(heap: &ReferenceCounter, item: &StackItem, key: &StackItem) -> (r: Option<
    bool,
>)
    ensures
        r == has_key(heap@, item@, key@),
{
    match item {
        StackItem::Mapping(id) => match heap.map(*id) {
            Some(m) => if key_allowed(key) {
                Some(m.contains_key(key))
            } else {
                None
            },
            None => None,
        },
        StackItem::Array(_) | StackItem::Struct(_) | StackItem::ByteString(_) | StackItem::Buffer(
            _,
        ) => {
            let n = match get_size(heap, item) {
                Some(n) => n,
                None => {
                    return None;
                },
            };
            let i = match key.get_integer(heap) {
                Some(i) => i,
                None => {
                    return None;
                },
            };
            match i.value().to_usize() {
                Some(i) => Some(i < n),
                None => None,
            }
        },
        _ => None,
    }
}

/// The position that the key names in a collection of `len` entries.
fn position(heap: &ReferenceCounter, key: &StackItem, len: usize) -> (r: Option<usize>)
    ensures
        r is Some <==> heap@.integer_of(key@) is Some && 0 <= heap@.integer_of(key@)->Some_0 < len,
        r is Some ==> r->Some_0 == heap@.integer_of(key@)->Some_0,
{
    match key.get_integer(heap) {
        Some(i) => match i.value().to_usize() {
            Some(i) => if i < len {
                Some(i)
            } else {
                None
            },
            None => None,
        },
        None => None,
    }
}

/// The item of the collection under the key.
pub fn pick_item(heap: &ReferenceCounter, item: &StackItem, key: &StackItem) -> (r: Option<
    StackItem,
>)
    ensures
        r is Some <==> picked_item(heap@, item@, key@) is Some,
        r is Some ==> r->Some_0@ == picked_item(heap@, item@, key@)->Some_0,
{
    match item {
        StackItem::Mapping(id) => match heap.map(*id) {
            Some(m) => if key_allowed(key) {
                match m.get(key) {
                    Some(v) => Some(v.clone()),
                    None => None,
                }
            } else {
                None
            },
            None => None,
        },
        StackItem::Array(id) | StackItem::Struct(id) => match heap.sequence(*id) {
            Some(v) => {
                assert(items_view(v@).len() == v@.len());
                match position(heap, key, v.len()) {
                    Some(i) => Some(v[i].clone()),
                    None => None,
                }
            },
            None => None,
        },
        StackItem::ByteString(b) => match position(heap, key, b.len()) {
            Some(i) => Some(StackItem::Integer(VMInteger::from_i64(b[i] as i64))),
            None => None,
        },
        StackItem::Buffer(id) => match heap.buffer(*id) {
            Some(b) => match position(heap, key, b.len()) {
                Some(i) => Some(StackItem::Integer(VMInteger::from_i64(b.bytes[i] as i64))),
                None => None,
            },
            None => None,
        },
        _ => None,
    }
}

/// The values and keys of the map, one pair after the other, each value
/// before its key, followed by the number of keys.
fn unpack_map(m: &crate::types::compound_types::vm_map::VMMap) -> (r: Vec<StackItem>)
    requires
        m@.keys.len() <= usize::MAX / 2,
    ensures
        items_view(r@) == unpacked_map(m@).push(ItemView::Integer(m@.keys.len() as int)),
{
    let n: usize = m.len();
    let mut out: Vec<StackItem> = Vec::new();
    let mut i: usize = 0;
    while i < n
        invariant
            i <= n,
            n == m@.keys.len(),
            m@.wf(),
            out@.len() == 2 * i,
            forall|j: int| 0 <= j < 2 * i ==> out@[j]@ == unpacked_map(m@)[j],
        decreases n - i,
    {
        out.push(m.value_at(i).clone());
        out.push(m.key_at(i).clone());
        i += 1;
    }
    out.push(StackItem::Integer(VMInteger::from_usize(n)));
    assert(items_view(out@) =~= unpacked_map(m@).push(ItemView::Integer(n as int)));
    out
}

/// Makes a new array or struct of the items and gives back the item that
/// refers to it.
fn make_sequence(heap: &mut ReferenceCounter, items: Vec<StackItem>, as_struct: bool) -> (r: Option<
    Vec<StackItem>,
>)
    ensures
        r is Some <==> made(old(heap)@, items_view(items@), as_struct) is Some,
        r is Some ==> (final(heap)@, items_view(r->Some_0@)) == made(
            old(heap)@,
            items_view(items@),
            as_struct,
        )->Some_0,
{
    match heap.new_sequence(items, as_struct) {
        Some(id) => Some(one(sequence_item(id, as_struct))),
        None => None,
    }
}

/// Gives back no item where the counter accepted the change.
fn finish(ok: bool, Ghost(expected): Ghost<Option<CounterView>>, heap: &ReferenceCounter) -> (r:
    Option<Vec<StackItem>>)
    requires
        ok <==> expected is Some,
        ok ==> heap@ == expected->Some_0,
    ensures
        r is Some <==> done(expected) is Some,
        r is Some ==> (heap@, items_view(r->Some_0@)) == done(expected)->Some_0,
{
    if ok {
        Some(none())
    } else {
        None
    }
}

fn new_sized_op(
    op: OpCode,
    operand: &Vec<u8>,
    args: &Vec<StackItem>,
    heap: &mut ReferenceCounter,
    limits: &ExecutionEngineLimits,
) -> (r: Option<Vec<StackItem>>)
    ensures
        r is Some <==> new_sized_compute(op, operand@, items_view(args@), old(heap)@, *limits)
            is Some,
        r is Some ==> (final(heap)@, items_view(r->Some_0@)) == new_sized_compute(
            op,
            operand@,
            items_view(args@),
            old(heap)@,
            *limits,
        )->Some_0,
{
    let typed: bool = matches!(op, OpCode::NEWARRAY_T);
    let as_struct: bool = matches!(op, OpCode::NEWSTRUCT);
    let fill: StackItem = if typed {
        match read_operand_type(operand) {
            Some(t) => make_default_item(t),
            None => {
                return None;
            },
        }
    } else {
        StackItem::Null
    };
    let n = match size_arg(heap, args, 0) {
        Some(n) => n,
        None => {
            return None;
        },
    };
    if n > limits.max_stack_size {
        return None;
    }
    make_sequence(heap, repeat_item(&fill, n), as_struct)
}

fn size_op(args: &Vec<StackItem>, heap: &ReferenceCounter) -> (r: Option<Vec<StackItem>>)
    ensures
        r is Some <==> size_compute(items_view(args@), heap@) is Some,
        r is Some ==> (heap@, items_view(r->Some_0@)) == size_compute(
            items_view(args@),
            heap@,
        )->Some_0,
{
    assert(items_view(args@).len() == args@.len());
    if args.len() == 0 {
        return None;
    }
    match get_size(heap, &args[0]) {
        Some(n) => Some(one(StackItem::Integer(VMInteger::from_usize(n)))),
        None => None,
    }
}

fn keys_op(args: &Vec<StackItem>, heap: &mut ReferenceCounter) -> (r: Option<Vec<StackItem>>)
    ensures
        r is Some <==> keys_compute(items_view(args@), old(heap)@) is Some,
        r is Some ==> (final(heap)@, items_view(r->Some_0@)) == keys_compute(
            items_view(args@),
            old(heap)@,
        )->Some_0,
{
    assert(items_view(args@).len() == args@.len());
    if args.len() == 0 {
        return None;
    }
    let keys = match &args[0] {
        StackItem::Mapping(id) => match heap.map(*id) {
            Some(m) => m.keys(),
            None => {
                return None;
            },
        },
        _ => {
            return None;
        },
    };
    make_sequence(heap, keys, false)
}

fn values_op(args: &Vec<StackItem>, heap: &mut ReferenceCounter) -> (r: Option<Vec<StackItem>>)
    ensures
        r is Some <==> values_compute(items_view(args@), old(heap)@) is Some,
        r is Some ==> (final(heap)@, items_view(r->Some_0@)) == values_compute(
            items_view(args@),
            old(heap)@,
        )->Some_0,
{
    assert(items_view(args@).len() == args@.len());
    if args.len() == 0 {
        return None;
    }
    let values = match &args[0] {
        StackItem::Mapping(id) => match heap.map(*id) {
            Some(m) => m.values(),
            None => {
                return None;
            },
        },
        StackItem::Array(id) | StackItem::Struct(id) => match heap.sequence(*id) {
            Some(v) => clone_items(v),
            None => {
                return None;
            },
        },
        _ => {
            return None;
        },
    };
    make_sequence(heap, values, false)
}

fn reverse_op(args: &Vec<StackItem>, heap: &mut ReferenceCounter) -> (r: Option<Vec<StackItem>>)
    ensures
        r is Some <==> reverse_compute(items_view(args@), old(heap)@) is Some,
        r is Some ==> (final(heap)@, items_view(r->Some_0@)) == reverse_compute(
            items_view(args@),
            old(heap)@,
        )->Some_0,
{
    assert(items_view(args@).len() == args@.len());
    if args.len() == 0 {
        return None;
    }
    match &args[0] {
        StackItem::Buffer(id) => {
            let bytes = match heap.buffer(*id) {
                Some(b) => {
                    let mut copy = b.clone();
                    copy.reverse();
                    copy.bytes
                },
                None => {
                    return None;
                },
            };
            let ghost expected = heap@.set_buffer(*id, bytes@);
            let ok = heap.set_buffer(*id, bytes);
            finish(ok, Ghost(expected), heap)
        },
        StackItem::Array(id) | StackItem::Struct(id) => {
            let ghost expected = heap@.reverse_sequence(*id);
            let ok = heap.reverse_sequence(*id);
            finish(ok, Ghost(expected), heap)
        },
        _ => None,
    }
}

fn clear_op(args: &Vec<StackItem>, heap: &mut ReferenceCounter) -> (r: Option<Vec<StackItem>>)
    ensures
        r is Some <==> clear_compute(items_view(args@), old(heap)@) is Some,
        r is Some ==> (final(heap)@, items_view(r->Some_0@)) == clear_compute(
            items_view(args@),
            old(heap)@,
        )->Some_0,
{
    assert(items_view(args@).len() == args@.len());
    if args.len() == 0 {
        return None;
    }
    match &args[0] {
        StackItem::Array(id) | StackItem::Struct(id) | StackItem::Mapping(id) => {
            let ghost expected = heap@.clear_items(*id);
            let ok = heap.clear_items(*id);
            finish(ok, Ghost(expected), heap)
        },
        _ => None,
    }
}

fn pop_item_op(args: &Vec<StackItem>, heap: &mut ReferenceCounter) -> (r: Option<Vec<StackItem>>)
    ensures
        r is Some <==> pop_item_compute(items_view(args@), old(heap)@) is Some,
        r is Some ==> (final(heap)@, items_view(r->Some_0@)) == pop_item_compute(
            items_view(args@),
            old(heap)@,
        )->Some_0,
{
    assert(items_view(args@).len() == args@.len());
    if args.len() == 0 {
        return None;
    }
    let id = match get_sequence_handle(&args[0]) {
        Some(id) => id,
        None => {
            return None;
        },
    };
    let (last, index) = match heap.sequence(id) {
        Some(v) => {
            assert(items_view(v@).len() == v@.len());
            if v.len() == 0 {
                return None;
            }
            (v[v.len() - 1].clone(), v.len() - 1)
        },
        None => {
            return None;
        },
    };
    if heap.remove_sequence_item(id, index) {
        Some(one(last))
    } else {
        None
    }
}

fn unpack_op(args: &Vec<StackItem>, heap: &ReferenceCounter) -> (r: Option<Vec<StackItem>>)
    ensures
        r is Some <==> unpack_compute(items_view(args@), heap@) is Some,
        r is Some ==> (heap@, items_view(r->Some_0@)) == unpack_compute(
            items_view(args@),
            heap@,
        )->Some_0,
{
    assert(items_view(args@).len() == args@.len());
    if args.len() == 0 {
        return None;
    }
    match &args[0] {
        StackItem::Mapping(id) => match heap.map(*id) {
            Some(m) => {
                if m.len() > usize::MAX / 2 {
                    return None;
                }
                Some(unpack_map(m))
            },
            None => None,
        },
        StackItem::Array(id) | StackItem::Struct(id) => match heap.sequence(*id) {
            Some(v) => {
                let mut out = clone_items(v);
                let ghost before = items_view(out@);
                assert(items_view(v@).len() == v@.len());
                out.push(StackItem::Integer(VMInteger::from_usize(v.len())));
                assert(items_view(out@) =~= before.push(ItemView::Integer(v@.len() as int)));
                Some(out)
            },
            None => None,
        },
        _ => None,
    }
}

fn has_key_op(args: &Vec<StackItem>, heap: &ReferenceCounter) -> (r: Option<Vec<StackItem>>)
    ensures
        r is Some <==> has_key_compute(items_view(args@), heap@) is Some,
        r is Some ==> (heap@, items_view(r->Some_0@)) == has_key_compute(
            items_view(args@),
            heap@,
        )->Some_0,
{
    assert(items_view(args@).len() == args@.len());
    if args.len() < 2 {
        return None;
    }
    match check_has_key(heap, &args[1], &args[0]) {
        Some(b) => Some(one(StackItem::Boolean(b))),
        None => None,
    }
}

fn pick_op(args: &Vec<StackItem>, heap: &ReferenceCounter) -> (r: Option<Vec<StackItem>>)
    ensures
        r is Some <==> pick_compute(items_view(args@), heap@) is Some,
        r is Some ==> (heap@, items_view(r->Some_0@)) == pick_compute(
            items_view(args@),
            heap@,
        )->Some_0,
{
    assert(items_view(args@).len() == args@.len());
    if args.len() < 2 {
        return None;
    }
    match pick_item(heap, &args[1], &args[0]) {
        Some(item) => Some(one(item)),
        None => None,
    }
}

fn append_op(args: &Vec<StackItem>, heap: &mut ReferenceCounter) -> (r: Option<Vec<StackItem>>)
    ensures
        r is Some <==> append_compute(items_view(args@), old(heap)@) is Some,
        r is Some ==> (final(heap)@, items_view(r->Some_0@)) == append_compute(
            items_view(args@),
            old(heap)@,
        )->Some_0,
{
    assert(items_view(args@).len() == args@.len());
    if args.len() < 2 {
        return None;
    }
    match get_sequence_handle(&args[1]) {
        Some(id) => {
            if heap.append(id, args[0].clone()) {
                Some(one(args[1].clone()))
            } else {
                None
            }
        },
        None => None,
    }
}

fn remove_op(args: &Vec<StackItem>, heap: &mut ReferenceCounter) -> (r: Option<Vec<StackItem>>)
    ensures
        r is Some <==> remove_compute(items_view(args@), old(heap)@) is Some,
        r is Some ==> (final(heap)@, items_view(r->Some_0@)) == remove_compute(
            items_view(args@),
            old(heap)@,
        )->Some_0,
{
    assert(items_view(args@).len() == args@.len());
    if args.len() < 2 {
        return None;
    }
    match &args[1] {
        StackItem::Mapping(id) => {
            let ghost expected = heap@.map_remove(*id, args@[0]@);
            let ok = heap.map_remove(*id, &args[0]);
            finish(ok, Ghost(expected), heap)
        },
        StackItem::Array(id) | StackItem::Struct(id) => {
            let i = match size_arg(heap, args, 0) {
                Some(i) => i,
                None => {
                    return None;
                },
            };
            let ghost expected = heap@.remove_sequence_item(*id, i as int);
            let ok = heap.remove_sequence_item(*id, i);
            finish(ok, Ghost(expected), heap)
        },
        _ => None,
    }
}

/// The byte that `SETITEM` stores for the number, if the number is from
/// -128 to 255.
fn byte_of(v: &VMInteger) -> (r: Option<u8>)
    ensures
        r is Some <==> -128 <= v@ <= 255,
        r is Some ==> r->Some_0 == stored_byte(v@),
{
    match v.value().to_i128() {
        Some(n) => if n >= -128 && n <= 255 {
            if n < 0 {
                Some((n + 256) as u8)
            } else {
                Some(n as u8)
            }
        } else {
            None
        },
        None => None,
    }
}

/// The position that the item names, if it names one.
fn size_of_item(heap: &ReferenceCounter, key: &StackItem) -> (r: Option<usize>)
    ensures
        r == match heap@.integer_of(key@) {
            Some(i) => if 0 <= i <= usize::MAX {
                Some(i as usize)
            } else {
                None
            },
            None => None,
        },
{
    match key.get_integer(heap) {
        Some(i) => i.value().to_usize(),
        None => None,
    }
}

fn set_buffer_item(heap: &mut ReferenceCounter, id: usize, key: &StackItem, value: &StackItem) -> (r:
    Option<Vec<StackItem>>)
    ensures
        r is Some <==> set_buffer_byte(old(heap)@, id, key@, value@) is Some,
        r is Some ==> (final(heap)@, items_view(r->Some_0@)) == set_buffer_byte(
            old(heap)@,
            id,
            key@,
            value@,
        )->Some_0,
{
    let i = size_of_item(heap, key);
    let v = value.get_integer(heap);
    let bytes = match heap.buffer(id) {
        Some(b) => {
            let len: usize = b.len();
            let i = match i {
                Some(i) => i,
                None => {
                    return None;
                },
            };
            let v = match v {
                Some(v) => v,
                None => {
                    return None;
                },
            };
            let byte = match byte_of(&v) {
                Some(b) => b,
                None => {
                    return None;
                },
            };
            if i >= len {
                return None;
            }
            let mut copy = b.to_vec();
            copy.set(i, byte);
            copy
        },
        None => {
            return None;
        },
    };
    let ghost expected = heap@.set_buffer(id, bytes@);
    let ok = heap.set_buffer(id, bytes);
    finish(ok, Ghost(expected), heap)
}

fn set_sequence_item_at(
    heap: &mut ReferenceCounter,
    target: &StackItem,
    key: &StackItem,
    value: &StackItem,
) -> (r: Option<Vec<StackItem>>)
    ensures
        r is Some <==> set_sequence_slot(old(heap)@, target@, key@, value@) is Some,
        r is Some ==> (final(heap)@, items_view(r->Some_0@)) == set_sequence_slot(
            old(heap)@,
            target@,
            key@,
            value@,
        )->Some_0,
{
    let id = match get_sequence_handle(target) {
        Some(id) => id,
        None => {
            return None;
        },
    };
    let i = match size_of_item(heap, key) {
        Some(i) => i,
        None => {
            return None;
        },
    };
    let ghost expected = heap@.set_sequence_item(id, i as int, value@);
    let ok = heap.set_sequence_item(id, i, value.clone());
    finish(ok, Ghost(expected), heap)
}

fn set_item_op(args: &Vec<StackItem>, heap: &mut ReferenceCounter) -> (r: Option<Vec<StackItem>>)
    ensures
        r is Some <==> set_item_compute(items_view(args@), old(heap)@) is Some,
        r is Some ==> (final(heap)@, items_view(r->Some_0@)) == set_item_compute(
            items_view(args@),
            old(heap)@,
        )->Some_0,
{
    assert(items_view(args@).len() == args@.len());
    if args.len() < 3 {
        return None;
    }
    match &args[2] {
        StackItem::Mapping(id) => {
            let ghost expected = heap@.map_set(*id, args@[1]@, args@[0]@);
            let ok = heap.map_set(*id, args[1].clone(), args[0].clone());
            finish(ok, Ghost(expected), heap)
        },
        StackItem::Buffer(id) => set_buffer_item(heap, *id, &args[1], &args[0]),
        _ => set_sequence_item_at(heap, &args[2], &args[1], &args[0]),
    }
}

/// Computes what a code that works on arrays, structs, maps and buffers
/// pushes.
pub fn compound_op(
    op: OpCode,
    operand: &Vec<u8>,
    args: &Vec<StackItem>,
    heap: &mut ReferenceCounter,
    limits: &ExecutionEngineLimits,
) -> (r: Option<Vec<StackItem>>)
    ensures
        r is Some <==> compound_compute(op, operand@, items_view(args@), old(heap)@, *limits)
            is Some,
        r is Some ==> (final(heap)@, items_view(r->Some_0@)) == compound_compute(
            op,
            operand@,
            items_view(args@),
            old(heap)@,
            *limits,
        )->Some_0,
{
    match op {
        OpCode::NEWARRAY0 => {
            let items: Vec<StackItem> = Vec::new();
            assert(items_view(items@) =~= Seq::<ItemView>::empty());
            make_sequence(heap, items, false)
        },
        OpCode::NEWSTRUCT0 => {
            let items: Vec<StackItem> = Vec::new();
            assert(items_view(items@) =~= Seq::<ItemView>::empty());
            make_sequence(heap, items, true)
        },
        OpCode::NEWMAP => {
            let id = heap.new_map();
            Some(one(StackItem::Mapping(id)))
        },
        OpCode::NEWARRAY => new_sized_op(op, operand, args, heap, limits),
        OpCode::NEWSTRUCT => new_sized_op(op, operand, args, heap, limits),
        OpCode::NEWARRAY_T => new_sized_op(op, operand, args, heap, limits),
        OpCode::SIZE => size_op(args, heap),
        OpCode::KEYS => keys_op(args, heap),
        OpCode::VALUES => values_op(args, heap),
        OpCode::REVERSEITEMS => reverse_op(args, heap),
        OpCode::CLEARITEMS => clear_op(args, heap),
        OpCode::POPITEM => pop_item_op(args, heap),
        OpCode::UNPACK => unpack_op(args, heap),
        OpCode::HASKEY => has_key_op(args, heap),
        OpCode::PICKITEM => pick_op(args, heap),
        OpCode::APPEND => append_op(args, heap),
        OpCode::REMOVE => remove_op(args, heap),
        OpCode::SETITEM => set_item_op(args, heap),
        _ => None,
    }
}

impl JumpTable {
    /// Pops a number and that many keys with their values, and pushes a map of them. Where the handler fails, the engine faults and is otherwise as it was.
    pub fn pack_map(&self, engine: &mut ExecutionEngine, instruction: &Instruction)
        ensures
            final(engine)@ == old(engine)@.executed(OpCode::PACKMAP, instruction.operand@),
    {
        engine.perform(OpCode::PACKMAP, instruction);
    }

    /// Pops a number and that many items, and pushes a struct of them. Where the handler fails, the engine faults and is otherwise as it was.
    pub fn pack_struct(&self, engine: &mut ExecutionEngine, instruction: &Instruction)
        ensures
            final(engine)@ == old(engine)@.executed(OpCode::PACKSTRUCT, instruction.operand@),
    {
        engine.perform(OpCode::PACKSTRUCT, instruction);
    }

    /// Pops a number and that many items, and pushes an array of them. Where the handler fails, the engine faults and is otherwise as it was.
    pub fn pack(&self, engine: &mut ExecutionEngine, instruction: &Instruction)
        ensures
            final(engine)@ == old(engine)@.executed(OpCode::PACK, instruction.operand@),
    {
        engine.perform(OpCode::PACK, instruction);
    }

    /// Replaces the collection on top of the stack by its items and their number. Where the handler fails, the engine faults and is otherwise as it was.
    pub fn unpack(&self, engine: &mut ExecutionEngine, instruction: &Instruction)
        ensures
            final(engine)@ == old(engine)@.executed(OpCode::UNPACK, instruction.operand@),
    {
        engine.perform(OpCode::UNPACK, instruction);
    }

    /// Pushes a new empty array. Where the handler fails, the engine faults and is otherwise as it was.
    pub fn new_array0(&self, engine: &mut ExecutionEngine, instruction: &Instruction)
        ensures
            final(engine)@ == old(engine)@.executed(OpCode::NEWARRAY0, instruction.operand@),
    {
        engine.perform(OpCode::NEWARRAY0, instruction);
    }

    /// Replaces the number on top of the stack by a new array of that many nulls. Where the handler fails, the engine faults and is otherwise as it was.
    pub fn new_array(&self, engine: &mut ExecutionEngine, instruction: &Instruction)
        ensures
            final(engine)@ == old(engine)@.executed(OpCode::NEWARRAY, instruction.operand@),
    {
        engine.perform(OpCode::NEWARRAY, instruction);
    }

    /// Replaces the number on top of the stack by a new array of that many defaults of the type that the operand names. Where the handler fails, the engine faults and is otherwise as it was.
    pub fn new_array_t(&self, engine: &mut ExecutionEngine, instruction: &Instruction)
        ensures
            final(engine)@ == old(engine)@.executed(OpCode::NEWARRAY_T, instruction.operand@),
    {
        engine.perform(OpCode::NEWARRAY_T, instruction);
    }

    /// Pushes a new empty struct. Where the handler fails, the engine faults and is otherwise as it was.
    pub fn new_struct0(&self, engine: &mut ExecutionEngine, instruction: &Instruction)
        ensures
            final(engine)@ == old(engine)@.executed(OpCode::NEWSTRUCT0, instruction.operand@),
    {
        engine.perform(OpCode::NEWSTRUCT0, instruction);
    }

    /// Replaces the number on top of the stack by a new struct of that many nulls. Where the handler fails, the engine faults and is otherwise as it was.
    pub fn new_struct(&self, engine: &mut ExecutionEngine, instruction: &Instruction)
        ensures
            final(engine)@ == old(engine)@.executed(OpCode::NEWSTRUCT, instruction.operand@),
    {
        engine.perform(OpCode::NEWSTRUCT, instruction);
    }

    /// Pushes a new empty map. Where the handler fails, the engine faults and is otherwise as it was.
    pub fn new_map(&self, engine: &mut ExecutionEngine, instruction: &Instruction)
        ensures
            final(engine)@ == old(engine)@.executed(OpCode::NEWMAP, instruction.operand@),
    {
        engine.perform(OpCode::NEWMAP, instruction);
    }

    /// Replaces the item on top of the stack by its size. Where the handler fails, the engine faults and is otherwise as it was.
    pub fn size(&self, engine: &mut ExecutionEngine, instruction: &Instruction)
        ensures
            final(engine)@ == old(engine)@.executed(OpCode::SIZE, instruction.operand@),
    {
        engine.perform(OpCode::SIZE, instruction);
    }

    /// Replaces a key and a collection by the truth of whether the collection holds the key. Where the handler fails, the engine faults and is otherwise as it was.
    pub fn has_key(&self, engine: &mut ExecutionEngine, instruction: &Instruction)
        ensures
            final(engine)@ == old(engine)@.executed(OpCode::HASKEY, instruction.operand@),
    {
        engine.perform(OpCode::HASKEY, instruction);
    }

    /// Replaces the map on top of the stack by a new array of its keys. Where the handler fails, the engine faults and is otherwise as it was.
    pub fn keys(&self, engine: &mut ExecutionEngine, instruction: &Instruction)
        ensures
            final(engine)@ == old(engine)@.executed(OpCode::KEYS, instruction.operand@),
    {
        engine.perform(OpCode::KEYS, instruction);
    }

    /// Replaces the collection on top of the stack by a new array of its values. Where the handler fails, the engine faults and is otherwise as it was.
    pub fn values(&self, engine: &mut ExecutionEngine, instruction: &Instruction)
        ensures
            final(engine)@ == old(engine)@.executed(OpCode::VALUES, instruction.operand@),
    {
        engine.perform(OpCode::VALUES, instruction);
    }

    /// Replaces a key and a collection by the item under the key. Where the handler fails, the engine faults and is otherwise as it was.
    pub fn pick_item(&self, engine: &mut ExecutionEngine, instruction: &Instruction)
        ensures
            final(engine)@ == old(engine)@.executed(OpCode::PICKITEM, instruction.operand@),
    {
        engine.perform(OpCode::PICKITEM, instruction);
    }

    /// Pops an item and appends it to the array or struct below it, which stays on the stack. Where the handler fails, the engine faults and is otherwise as it was.
    pub fn append(&self, engine: &mut ExecutionEngine, instruction: &Instruction)
        ensures
            final(engine)@ == old(engine)@.executed(OpCode::APPEND, instruction.operand@),
    {
        engine.perform(OpCode::APPEND, instruction);
    }

    /// Pops a value, a key and a collection, and stores the value under the key. Where the handler fails, the engine faults and is otherwise as it was.
    pub fn set_item(&self, engine: &mut ExecutionEngine, instruction: &Instruction)
        ensures
            final(engine)@ == old(engine)@.executed(OpCode::SETITEM, instruction.operand@),
    {
        engine.perform(OpCode::SETITEM, instruction);
    }

    /// Pops a collection and puts its items in the opposite order. Where the handler fails, the engine faults and is otherwise as it was.
    pub fn reverse_items(&self, engine: &mut ExecutionEngine, instruction: &Instruction)
        ensures
            final(engine)@ == old(engine)@.executed(OpCode::REVERSEITEMS, instruction.operand@),
    {
        engine.perform(OpCode::REVERSEITEMS, instruction);
    }

    /// Pops a key and a collection, and removes the key from the collection. Where the handler fails, the engine faults and is otherwise as it was.
    pub fn remove(&self, engine: &mut ExecutionEngine, instruction: &Instruction)
        ensures
            final(engine)@ == old(engine)@.executed(OpCode::REMOVE, instruction.operand@),
    {
        engine.perform(OpCode::REMOVE, instruction);
    }

    /// Pops a collection and removes everything from it. Where the handler fails, the engine faults and is otherwise as it was.
    pub fn clear_items(&self, engine: &mut ExecutionEngine, instruction: &Instruction)
        ensures
            final(engine)@ == old(engine)@.executed(OpCode::CLEARITEMS, instruction.operand@),
    {
        engine.perform(OpCode::CLEARITEMS, instruction);
    }

    /// Replaces the array or struct on top of the stack by its last item, which is removed from it. Where the handler fails, the engine faults and is otherwise as it was.
    pub fn pop_item(&self, engine: &mut ExecutionEngine, instruction: &Instruction)
        ensures
            final(engine)@ == old(engine)@.executed(OpCode::POPITEM, instruction.operand@),
    {
        engine.perform(OpCode::POPITEM, instruction);
    }
}

} // verus!
