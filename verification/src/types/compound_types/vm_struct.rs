use crate::types::compound_types::vm_array::{clone_items, reversed_items, ArrayView, VMArray};
use crate::types::stack_item::{items_view, ItemView, StackItem};
use crate::types::vm_stack_item::{fields_equal_from, Compared};
use crate::vm::execution_engine_limits::ExecutionEngineLimits;
use crate::vm::reference_counter::{CounterView, ReferenceCounter};
use vstd::prelude::*;

verus! {

/// An ordered sequence of items that is compared by its contents.
#[derive(Debug)]
pub struct VMStruct {
    pub array: Vec<StackItem>,
    pub read_only: bool,
}

impl View for VMStruct {
    type V = ArrayView;

    open spec fn view(&self) -> ArrayView {
        ArrayView { items: items_view(self.array@), read_only: self.read_only }
    }
}

impl VMStruct {
    /// A struct of the given fields, or an empty one.
    pub fn new(fields: Option<Vec<StackItem>>) -> (r: Self)
        ensures
            r@ == (ArrayView {
                items: match fields {
                    Some(v) => items_view(v@),
                    None => Seq::<ItemView>::empty(),
                },
                read_only: false,
            }),
    {
        let array: Vec<StackItem> = match fields {
            Some(v) => v,
            None => Vec::new(),
        };
        assert(items_view(Seq::<StackItem>::empty()) =~= Seq::<ItemView>::empty());
        Self { array, read_only: false }
    }

    /// The array with the same items and the same read-only flag.
    pub fn to_array(&self) -> (r: VMArray)
        ensures
            r@ == self@,
    {
        VMArray { array: clone_items(&self.array), read_only: self.read_only }
    }

    /// The struct with the items and the read-only flag of the array.
    pub fn from(array: VMArray) -> (r: Self)
        ensures
            r@ == array@,
    {
        VMStruct { array: array.array, read_only: array.read_only }
    }

    /// The number of fields.
    pub fn count(&self) -> (r: usize)
        ensures
            r == self@.items.len(),
    {
        self.array.len()
    }

    pub fn is_read_only(&self) -> (r: bool)
        ensures
            r == self@.read_only,
    {
        self.read_only
    }

    /// Freezes the struct.
    pub fn read_only(&mut self)
        ensures
            final(self)@ == (ArrayView { read_only: true, ..old(self)@ }),
    {
        self.read_only = true;
    }

    /// The field at `index`.
    pub fn get(&self, index: usize) -> (r: &StackItem)
        requires
            index < self@.items.len(),
        ensures
            r@ == self@.items[index as int],
    {
        &self.array[index]
    }

    /// Appends the field.
    pub fn add(&mut self, item: StackItem)
        ensures
            final(self)@ == (ArrayView { items: old(self)@.items.push(item@), ..old(self)@ }),
    {
        self.array.push(item);
        assert(items_view(self.array@) =~= items_view(old(self).array@).push(item@));
    }

    /// Replaces the field at `index`.
    pub fn set(&mut self, index: usize, item: StackItem)
        requires
            index < old(self)@.items.len(),
        ensures
            final(self)@ == (ArrayView {
                items: old(self)@.items.update(index as int, item@),
                ..old(self)@
            }),
    {
        self.array.set(index, item);
        assert(items_view(self.array@) =~= items_view(old(self).array@).update(
            index as int,
            item@,
        ));
    }

    /// Removes all fields.
    pub fn clear(&mut self)
        ensures
            final(self)@ == (ArrayView { items: Seq::<ItemView>::empty(), ..old(self)@ }),
    {
        self.array.clear();
        assert(items_view(self.array@) =~= Seq::<ItemView>::empty());
    }

    /// Removes the field at `index` and gives it back.
    pub fn remove_at(&mut self, index: usize) -> (r: StackItem)
        requires
            index < old(self)@.items.len(),
        ensures
            r@ == old(self)@.items[index as int],
            final(self)@ == (ArrayView {
                items: old(self)@.items.remove(index as int),
                ..old(self)@
            }),
    {
        let r = self.array.remove(index);
        assert(items_view(self.array@) =~= items_view(old(self).array@).remove(index as int));
        r
    }

    /// Reverses the order of the fields.
    pub fn reverse(&mut self)
        ensures
            final(self)@ == (ArrayView { items: old(self)@.items.reverse(), ..old(self)@ }),
    {
        self.array = reversed_items(&self.array);
    }

    /// A struct with the same content, in which every nested struct is a
    /// copy of its own: a struct is copied by value. Every field that is
    /// visited, in this struct and in the nested ones, costs one of
    /// `max_stack_size - 1` units; there is no copy where fewer than two
    /// are left before a field.
    pub fn clone(&self, heap: &mut ReferenceCounter, limits: &ExecutionEngineLimits) -> (r: Option<
        VMStruct,
    >)
        ensures
            r is Some <==> limits.max_stack_size > 0 && old(heap)@.cloned_fields(
                self@.items,
                0,
                (limits.max_stack_size - 1) as nat,
            ) is Some,
            r is Some ==> {
                let copy = old(heap)@.cloned_fields(
                    self@.items,
                    0,
                    (limits.max_stack_size - 1) as nat,
                )->Some_0;
                final(heap)@ == copy.heap && r->Some_0@ == (ArrayView {
                    items: copy.fields,
                    read_only: false,
                })
            },
    {
        if limits.max_stack_size == 0 {
            return None;
        }
        match clone_fields(heap, &self.array, 0, limits.max_stack_size - 1) {
            Some((fields, _)) => Some(VMStruct { array: fields, read_only: false }),
            None => None,
        }
    }

    /// Whether both structs have equally many fields that are equal one by
    /// one, by the rules of the machine. `None` where the comparison gives
    /// up.
    pub fn equals(&self, other: &VMStruct, heap: &ReferenceCounter, limits: &ExecutionEngineLimits) -> (r:
        Option<bool>)
        ensures
            r == if self@.items.len() != other@.items.len() {
                Some(false)
            } else {
                heap@.equals_from(
                    self@.items,
                    other@.items,
                    0,
                    limits.spec_compare_budget(),
                    limits.max_comparable_size as nat,
                ).equal
            },
    {
        assert(items_view(self.array@).len() == self.array@.len());
        assert(items_view(other.array@).len() == other.array@.len());
        if self.array.len() != other.array.len() {
            return Some(false);
        }
        fields_equal_from(
            heap,
            &self.array,
            &other.array,
            0,
            limits.compare_budget(),
            limits.max_comparable_size,
        ).0
    }
}

/// The copy of a sequence of fields: the counter afterwards, the copied
/// fields, and the budget that is left.
pub struct ClonedFields {
    pub heap: CounterView,
    pub fields: Seq<ItemView>,
    pub rest: nat,
}

impl CounterView {
    /// The fields from position `from` on, copied by value: a field that is
    /// a struct becomes a new struct with copies of its fields, every other
    /// field stays as it is. Every field costs one unit of the budget, and
    /// there is no copy where fewer than two units are left before a field,
    /// or where a nested struct is not live.
    pub open spec fn cloned_fields(self, items: Seq<ItemView>, from: int, budget: nat) -> Option<
        ClonedFields,
    >
        decreases budget, items.len() - from,
    {
        if from < 0 || from >= items.len() {
            Some(ClonedFields { heap: self, fields: Seq::<ItemView>::empty(), rest: budget })
        } else if budget <= 1 {
            None
        } else {
            let first = match items[from] {
                ItemView::Struct(id) => match self.sequence_items(id) {
                    Some(a) => match self.cloned_fields(a.items, 0, (budget - 1) as nat) {
                        Some(inner) => match inner.heap.new_sequence(inner.fields, true) {
                            Some((h, n)) => Some(
                                ClonedFields {
                                    heap: h,
                                    fields: seq![ItemView::Struct(n)],
                                    rest: inner.rest,
                                },
                            ),
                            None => None,
                        },
                        None => None,
                    },
                    None => None,
                },
                other => Some(
                    ClonedFields { heap: self, fields: seq![other], rest: (budget - 1) as nat },
                ),
            };
            match first {
                Some(f) => if f.rest <= budget {
                    match f.heap.cloned_fields(items, from + 1, f.rest) {
                        Some(tail) => Some(
                            ClonedFields {
                                heap: tail.heap,
                                fields: f.fields + tail.fields,
                                rest: tail.rest,
                            },
                        ),
                        None => None,
                    }
                } else {
                    None
                },
                None => None,
            }
        }
    }
}

/// Copies the fields from position `from` on by value.
pub fn clone_fields(heap: &mut ReferenceCounter, items: &Vec<StackItem>, from: usize, budget: usize) -> (r:
    Option<(Vec<StackItem>, usize)>)
    ensures
        r is Some <==> old(heap)@.cloned_fields(items_view(items@), from as int, budget as nat)
            is Some,
        r is Some ==> {
            let copy = old(heap)@.cloned_fields(
                items_view(items@),
                from as int,
                budget as nat,
            )->Some_0;
            final(heap)@ == copy.heap && items_view(r->Some_0.0@) == copy.fields && r->Some_0.1
                == copy.rest && r->Some_0.1 <= budget
        },
    decreases budget, items@.len() - from,
{
    assert(items_view(items@).len() == items@.len());
    if from >= items.len() {
        let out: Vec<StackItem> = Vec::new();
        assert(items_view(out@) =~= Seq::<ItemView>::empty());
        return Some((out, budget));
    }
    if budget <= 1 {
        return None;
    }
    let (first, rest): (StackItem, usize) = match &items[from] {
        StackItem::Struct(id) => {
            let nested = match heap.sequence(*id) {
                Some(v) => clone_items(v),
                None => {
                    return None;
                },
            };
            let (fields, rest) = match clone_fields(heap, &nested, 0, budget - 1) {
                Some(c) => c,
                None => {
                    return None;
                },
            };
            match heap.new_sequence(fields, true) {
                Some(n) => (StackItem::Struct(n), rest),
                None => {
                    return None;
                },
            }
        },
        other => (other.clone(), budget - 1),
    };
    match clone_fields(heap, items, from + 1, rest) {
        Some((tail, left)) => {
            let mut out: Vec<StackItem> = Vec::new();
            out.push(first);
            let mut tail = tail;
            let ghost tail_view = items_view(tail@);
            out.append(&mut tail);
            assert(items_view(out@) =~= seq![first@] + tail_view);
            Some((out, left))
        },
        None => None,
    }
}

} // verus!
