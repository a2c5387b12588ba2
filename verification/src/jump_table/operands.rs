use crate::types::primitive_types::vm_integer::VMInteger;
use crate::types::stack_item::{items_view, ItemView, StackItem};
use crate::vm::reference_counter::{CounterView, ReferenceCounter};
use vstd::prelude::*;

verus! {

/// The number that the operand at `index` stands for.
pub open spec fn int_at(heap: CounterView, args: Seq<ItemView>, index: int) -> Option<int> {
    if 0 <= index < args.len() {
        heap.integer_of(args[index])
    } else {
        None
    }
}

/// The number that the operand at `index` stands for, if it is a size: not
/// negative and not above the largest size of the machine.
pub open spec fn size_at(heap: CounterView, args: Seq<ItemView>, index: int) -> Option<usize> {
    match int_at(heap, args, index) {
        Some(v) => if 0 <= v <= usize::MAX {
            Some(v as usize)
        } else {
            None
        },
        None => None,
    }
}

/// The truth value of the operand at `index`.
pub open spec fn bool_at(heap: CounterView, args: Seq<ItemView>, index: int) -> Option<bool> {
    if 0 <= index < args.len() {
        heap.boolean_of(args[index])
    } else {
        None
    }
}

/// The bytes of the operand at `index`.
pub open spec fn span_at(heap: CounterView, args: Seq<ItemView>, index: int) -> Option<Seq<u8>> {
    if 0 <= index < args.len() {
        heap.span_of(args[index])
    } else {
        None
    }
}

/// One item as the only result.
pub open spec fn single(item: ItemView) -> Seq<ItemView> {
    seq![item]
}

pub fn int_arg(heap: &ReferenceCounter, args: &Vec<StackItem>, index: usize) -> (r: Option<
    VMInteger,
>)
    ensures
        r is Some <==> int_at(heap@, items_view(args@), index as int) is Some,
        r is Some ==> r->Some_0@ == int_at(heap@, items_view(args@), index as int)->Some_0,
{
    assert(items_view(args@).len() == args@.len());
    if index < args.len() {
        args[index].get_integer(heap)
    } else {
        None
    }
}

pub fn size_arg(heap: &ReferenceCounter, args: &Vec<StackItem>, index: usize) -> (r: Option<usize>)
    ensures
        r == size_at(heap@, items_view(args@), index as int),
{
    match int_arg(heap, args, index) {
        Some(v) => v.value().to_usize(),
        None => None,
    }
}

pub fn bool_arg(heap: &ReferenceCounter, args: &Vec<StackItem>, index: usize) -> (r: Option<bool>)
    ensures
        r == bool_at(heap@, items_view(args@), index as int),
{
    assert(items_view(args@).len() == args@.len());
    if index < args.len() {
        args[index].get_boolean(heap)
    } else {
        None
    }
}

pub fn span_arg(heap: &ReferenceCounter, args: &Vec<StackItem>, index: usize) -> (r: Option<
    Vec<u8>,
>)
    ensures
        r is Some <==> span_at(heap@, items_view(args@), index as int) is Some,
        r is Some ==> r->Some_0@ == span_at(heap@, items_view(args@), index as int)->Some_0,
{
    assert(items_view(args@).len() == args@.len());
    if index < args.len() {
        args[index].get_span(heap)
    } else {
        None
    }
}

/// One item as the only result.
pub fn one(item: StackItem) -> (r: Vec<StackItem>)
    ensures
        items_view(r@) == single(item@),
{
    let mut out: Vec<StackItem> = Vec::new();
    out.push(item);
    assert(items_view(out@) =~= single(item@));
    out
}

/// No result.
pub fn none() -> (r: Vec<StackItem>)
    ensures
        items_view(r@) == Seq::<ItemView>::empty(),
{
    let out: Vec<StackItem> = Vec::new();
    assert(items_view(out@) =~= Seq::<ItemView>::empty());
    out
}

} // verus!
