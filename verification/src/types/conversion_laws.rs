use crate::big_integer::{lemma_signed_round_trip, signed_le, signed_len, to_signed_le};
use crate::types::compound_types::vm_array::ArrayView;
use crate::types::primitive_types::vm_integer::{fits_integer, integer_span};
use crate::types::stack_item::ItemView;
use crate::types::stack_item_type::StackItemType;
use crate::types::vm_stack_item::bytes_integer;
use crate::vm::counter_laws::lemma_find_entry_in_range;
use crate::vm::reference_counter::{find_entry, CounterView};
use vstd::prelude::*;

verus! {

/// An integer that is converted to a byte string and back is the same
/// integer, and neither conversion changes the counter.
pub proof fn lemma_integer_round_trip(h: CounterView, v: int)
    requires
        fits_integer(v),
    ensures
        h.convert(ItemView::Integer(v), StackItemType::ByteString) == Some(
            (h, ItemView::ByteString(integer_span(v))),
        ),
        h.convert(ItemView::ByteString(integer_span(v)), StackItemType::Integer) == Some(
            (h, ItemView::Integer(v)),
        ),
{
    lemma_signed_round_trip(v);
    assert(bytes_integer(integer_span(v)) == Some(v));
}

/// A byte string that holds the bytes of an integer, converted to an
/// integer and back, is the same byte string.
pub proof fn lemma_byte_string_round_trip(h: CounterView, b: Seq<u8>)
    requires
        b.len() <= 32,
        b == integer_span(signed_le(b)),
    ensures
        h.convert(ItemView::ByteString(b), StackItemType::Integer) == Some(
            (h, ItemView::Integer(signed_le(b))),
        ),
        h.convert(ItemView::Integer(signed_le(b)), StackItemType::ByteString) == Some(
            (h, ItemView::ByteString(b)),
        ),
{
    let v = signed_le(b);
    lemma_signed_round_trip(v);
    if v != 0 {
        assert(signed_len(v) == b.len());
    }
    assert(fits_integer(v));
}

/// Taking hold of items changes the content of no object, and reclaims
/// none.
pub proof fn lemma_add_references_keeps_objects(
    h: CounterView,
    items: Seq<ItemView>,
    parent: usize,
    from: int,
)
    requires
        h.add_references(items, parent, from) is Some,
    ensures
        h.add_references(items, parent, from)->Some_0.items.len() == h.items.len(),
        forall|i: int|
            0 <= i < h.items.len() ==> (#[trigger] h.add_references(
                items,
                parent,
                from,
            )->Some_0.items[i]).item == h.items[i].item && h.add_references(
                items,
                parent,
                from,
            )->Some_0.items[i].metadata.freed == h.items[i].metadata.freed,
    decreases items.len() - from,
{
    if !(from < 0 || from >= items.len()) {
        let next = h.add_reference(items[from], parent)->Some_0;
        lemma_add_references_keeps_objects(next, items, parent, from + 1);
        let last = h.add_references(items, parent, from)->Some_0;
        assert forall|i: int| 0 <= i < h.items.len() implies (#[trigger] last.items[i]).item
            == h.items[i].item && last.items[i].metadata.freed == h.items[i].metadata.freed by {
            assert(next.items[i].item == h.items[i].item);
            assert(next.items[i].metadata.freed == h.items[i].metadata.freed);
        }
    }
}

/// A new array or struct holds exactly the items that it was made of.
pub proof fn lemma_new_sequence_holds_items(h: CounterView, items: Seq<ItemView>, as_struct: bool)
    requires
        h.items.len() < usize::MAX,
        h.new_sequence(items, as_struct) is Some,
    ensures
        h.new_sequence(items, as_struct)->Some_0.0.sequence_items(
            h.new_sequence(items, as_struct)->Some_0.1,
        ) == Some(ArrayView { items, read_only: false }),
        h.new_sequence(items, as_struct)->Some_0.1 == h.items.len(),
        h.new_sequence(items, as_struct)->Some_0.0.items.len() == h.items.len() + 1,
        forall|i: int|
            0 <= i < h.items.len() ==> (#[trigger] h.new_sequence(
                items,
                as_struct,
            )->Some_0.0.items[i]).item == h.items[i].item && h.new_sequence(
                items,
                as_struct,
            )->Some_0.0.items[i].metadata.freed == h.items[i].metadata.freed,
{
    let id = h.items.len() as usize;
    let content = ArrayView { items, read_only: false };
    let with_object = h.adopt(
        if as_struct {
            crate::types::compound_types::vm_compound::CompoundView::Struct(content)
        } else {
            crate::types::compound_types::vm_compound::CompoundView::Array(content)
        },
    );
    lemma_add_references_keeps_objects(with_object, items, id, 0);
    let result = h.new_sequence(items, as_struct)->Some_0.0;
    assert(result.items[id as int].item == with_object.items[id as int].item);
    assert forall|i: int| 0 <= i < h.items.len() implies (#[trigger] result.items[i]).item
        == h.items[i].item && result.items[i].metadata.freed == h.items[i].metadata.freed by {
        assert(with_object.items[i] == h.items[i]);
    }
}

/// An array that is converted to a struct and back has the same items, and
/// so has the struct in between.
pub proof fn lemma_array_struct_round_trip(h: CounterView, id: usize)
    requires
        h.items.len() + 1 < usize::MAX,
        h.convert(ItemView::Array(id), StackItemType::Struct) is Some,
        h.convert(ItemView::Array(id), StackItemType::Struct)->Some_0.0.convert(
            h.convert(ItemView::Array(id), StackItemType::Struct)->Some_0.1,
            StackItemType::Array,
        ) is Some,
    ensures
        ({
            let there = h.convert(ItemView::Array(id), StackItemType::Struct)->Some_0;
            let back = there.0.convert(there.1, StackItemType::Array)->Some_0;
            &&& there.1 is Struct
            &&& back.1 is Array
            &&& there.0.sequence_items(there.1->Struct_0) is Some
            &&& back.0.sequence_items(back.1->Array_0) is Some
            &&& there.0.sequence_items(there.1->Struct_0)->Some_0.items == h.sequence_items(
                id,
            )->Some_0.items
            &&& back.0.sequence_items(back.1->Array_0)->Some_0.items == h.sequence_items(
                id,
            )->Some_0.items
        }),
{
    let items = h.sequence_items(id)->Some_0.items;
    lemma_new_sequence_holds_items(h, items, true);
    let there = h.convert(ItemView::Array(id), StackItemType::Struct)->Some_0;
    let n = there.1->Struct_0;
    assert(there.0.sequence_items(n) == Some(ArrayView { items, read_only: false }));
    lemma_new_sequence_holds_items(there.0, items, false);
}

/// A struct that is converted to an array and back has the same items.
pub proof fn lemma_struct_array_round_trip(h: CounterView, id: usize)
    requires
        h.items.len() + 1 < usize::MAX,
        h.convert(ItemView::Struct(id), StackItemType::Array) is Some,
        h.convert(ItemView::Struct(id), StackItemType::Array)->Some_0.0.convert(
            h.convert(ItemView::Struct(id), StackItemType::Array)->Some_0.1,
            StackItemType::Struct,
        ) is Some,
    ensures
        ({
            let there = h.convert(ItemView::Struct(id), StackItemType::Array)->Some_0;
            let back = there.0.convert(there.1, StackItemType::Struct)->Some_0;
            &&& there.1 is Array
            &&& back.1 is Struct
            &&& back.0.sequence_items(back.1->Struct_0) is Some
            &&& back.0.sequence_items(back.1->Struct_0)->Some_0.items == h.sequence_items(
                id,
            )->Some_0.items
        }),
{
    let items = h.sequence_items(id)->Some_0.items;
    lemma_new_sequence_holds_items(h, items, false);
    let there = h.convert(ItemView::Struct(id), StackItemType::Array)->Some_0;
    let n = there.1->Array_0;
    assert(there.0.sequence_items(n) == Some(ArrayView { items, read_only: false }));
    lemma_new_sequence_holds_items(there.0, items, true);
}

/// Whether the counter has room for `extra` more references to the items:
/// every item that names an object names a live one, and neither the total
/// nor the count of any entry passes the largest number.
pub open spec fn has_room(h: CounterView, items: Seq<ItemView>, extra: int) -> bool {
    &&& h.count + extra <= usize::MAX
    &&& forall|j: int|
        0 <= j < items.len() && (#[trigger] items[j]).handle() is Some ==> h.live(
            items[j].handle()->Some_0,
        )
    &&& forall|i: int, k: int|
        0 <= i < h.items.len() && 0 <= k < h.items[i].metadata.object_references.len() ==> (
        #[trigger] h.items[i].metadata.object_references[k]).references + extra <= usize::MAX
}

/// An object can take hold of one item where the counter has room for it,
/// and the room shrinks by one reference.
pub proof fn lemma_add_reference_succeeds(
    h: CounterView,
    items: Seq<ItemView>,
    parent: usize,
    from: int,
    extra: int,
)
    requires
        0 <= from < items.len(),
        extra >= 1,
        has_room(h, items, extra),
    ensures
        h.add_reference(items[from], parent) is Some,
        has_room(h.add_reference(items[from], parent)->Some_0, items, extra - 1),
        h.add_reference(items[from], parent)->Some_0.items.len() == h.items.len(),
{
    let item = items[from];
    match item.handle() {
        Some(id) => {
            assert(h.live(id));
            let refs = h.meta(id).object_references;
            match find_entry(refs, parent, 0) {
                Some(i) => {
                    lemma_find_entry_in_range(refs, parent, 0);
                    assert(refs[i].references + extra <= usize::MAX);
                },
                None => {},
            }
            let next = h.add_reference(item, parent)->Some_0;
            assert forall|j: int| 0 <= j < items.len() && (#[trigger] items[j]).handle() is Some
                implies next.live(items[j].handle()->Some_0) by {
                let c = items[j].handle()->Some_0;
                assert(h.live(c));
                assert(next.items[c as int].metadata.freed == h.items[c as int].metadata.freed);
            }
            assert forall|i: int, k: int|
                0 <= i < next.items.len() && 0 <= k
                    < next.items[i].metadata.object_references.len() implies (
            #[trigger] next.items[i].metadata.object_references[k]).references + extra - 1
                <= usize::MAX by {
                if i == id {
                    if k < refs.len() {
                        assert(refs[k].references + extra <= usize::MAX);
                    }
                } else {
                    assert(next.items[i] == h.items[i]);
                    assert(h.items[i].metadata.object_references[k].references + extra
                        <= usize::MAX);
                }
            }
        },
        None => {
            let next = h.add_reference(item, parent)->Some_0;
            assert forall|i: int, k: int|
                0 <= i < next.items.len() && 0 <= k
                    < next.items[i].metadata.object_references.len() implies (
            #[trigger] next.items[i].metadata.object_references[k]).references + extra - 1
                <= usize::MAX by {
                assert(h.items[i].metadata.object_references[k].references + extra
                    <= usize::MAX);
            }
        },
    }
}

/// An object can take hold of items where the counter has room for them,
/// and the room shrinks by their number.
pub proof fn lemma_add_references_succeeds(
    h: CounterView,
    items: Seq<ItemView>,
    parent: usize,
    from: int,
    extra: int,
)
    requires
        0 <= from <= items.len(),
        extra >= items.len() - from,
        has_room(h, items, extra),
    ensures
        h.add_references(items, parent, from) is Some,
        has_room(
            h.add_references(items, parent, from)->Some_0,
            items,
            extra - (items.len() - from),
        ),
        h.add_references(items, parent, from)->Some_0.items.len() == h.items.len(),
    decreases items.len() - from,
{
    if from < items.len() {
        lemma_add_reference_succeeds(h, items, parent, from, extra);
        lemma_add_references_succeeds(
            h.add_reference(items[from], parent)->Some_0,
            items,
            parent,
            from + 1,
            extra - 1,
        );
    }
}

/// A new array or struct can be made of items where the counter has room
/// for them, and the room shrinks by their number.
pub proof fn lemma_new_sequence_succeeds(
    h: CounterView,
    items: Seq<ItemView>,
    as_struct: bool,
    extra: int,
)
    requires
        h.items.len() < usize::MAX,
        extra >= items.len(),
        has_room(h, items, extra),
    ensures
        h.new_sequence(items, as_struct) is Some,
        has_room(h.new_sequence(items, as_struct)->Some_0.0, items, extra - items.len()),
{
    let id = h.items.len() as usize;
    let content = ArrayView { items, read_only: false };
    let with_object = h.adopt(
        if as_struct {
            crate::types::compound_types::vm_compound::CompoundView::Struct(content)
        } else {
            crate::types::compound_types::vm_compound::CompoundView::Array(content)
        },
    );
    assert forall|j: int| 0 <= j < items.len() && (#[trigger] items[j]).handle() is Some
        implies with_object.live(items[j].handle()->Some_0) by {
        let c = items[j].handle()->Some_0;
        assert(h.live(c));
        assert(with_object.items[c as int] == h.items[c as int]);
    }
    assert forall|i: int, k: int|
        0 <= i < with_object.items.len() && 0 <= k
            < with_object.items[i].metadata.object_references.len() implies (
    #[trigger] with_object.items[i].metadata.object_references[k]).references + extra
        <= usize::MAX by {
        if i < h.items.len() {
            assert(with_object.items[i] == h.items[i]);
            assert(h.items[i].metadata.object_references[k].references + extra <= usize::MAX);
        }
    }
    lemma_add_references_succeeds(with_object, items, id, 0, extra);
}

/// The conversion of an array to a struct and back succeeds wherever the
/// counter has room for two more references to each item of the array.
pub proof fn lemma_array_struct_round_trip_succeeds(h: CounterView, id: usize)
    requires
        h.items.len() + 1 < usize::MAX,
        h.live(id),
        h.object(id) is Array,
        has_room(
            h,
            h.sequence_items(id)->Some_0.items,
            2 * (h.sequence_items(id)->Some_0.items.len() as int),
        ),
    ensures
        h.convert(ItemView::Array(id), StackItemType::Struct) is Some,
        h.convert(ItemView::Array(id), StackItemType::Struct)->Some_0.0.convert(
            h.convert(ItemView::Array(id), StackItemType::Struct)->Some_0.1,
            StackItemType::Array,
        ) is Some,
{
    let items = h.sequence_items(id)->Some_0.items;
    lemma_new_sequence_succeeds(h, items, true, 2 * (items.len() as int));
    lemma_new_sequence_holds_items(h, items, true);
    let there = h.convert(ItemView::Array(id), StackItemType::Struct)->Some_0;
    let n = there.1->Struct_0;
    assert(there.0.sequence_items(n) == Some(ArrayView { items, read_only: false }));
    lemma_new_sequence_succeeds(there.0, items, false, items.len() as int);
}

/// The conversion of a struct to an array and back succeeds wherever the
/// counter has room for two more references to each field of the struct.
pub proof fn lemma_struct_array_round_trip_succeeds(h: CounterView, id: usize)
    requires
        h.items.len() + 1 < usize::MAX,
        h.live(id),
        h.object(id) is Struct,
        has_room(
            h,
            h.sequence_items(id)->Some_0.items,
            2 * (h.sequence_items(id)->Some_0.items.len() as int),
        ),
    ensures
        h.convert(ItemView::Struct(id), StackItemType::Array) is Some,
        h.convert(ItemView::Struct(id), StackItemType::Array)->Some_0.0.convert(
            h.convert(ItemView::Struct(id), StackItemType::Array)->Some_0.1,
            StackItemType::Struct,
        ) is Some,
{
    let items = h.sequence_items(id)->Some_0.items;
    lemma_new_sequence_succeeds(h, items, false, 2 * (items.len() as int));
    lemma_new_sequence_holds_items(h, items, false);
    let there = h.convert(ItemView::Struct(id), StackItemType::Array)->Some_0;
    let n = there.1->Array_0;
    assert(there.0.sequence_items(n) == Some(ArrayView { items, read_only: false }));
    lemma_new_sequence_succeeds(there.0, items, true, items.len() as int);
}

} // verus!
