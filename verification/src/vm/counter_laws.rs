use crate::types::compound_types::vm_compound::CompoundView;
use crate::types::stack_item::{ItemView, MetadataView, ObjectReferenceEntry};
use crate::vm::collector::{checked_zero_referred, collected, swept};
use crate::vm::execution_engine::ExecutionEngine;
use crate::vm::reference_counter::{find_entry, CounterView, ReferenceCounter};
use vstd::prelude::*;

verus! {

/// Whether the marks for collection are sound: every object that waits for
/// the next collection has no stack reference.
pub open spec fn waiting_sound(h: CounterView) -> bool {
    forall|i: int|
        0 <= i < h.items.len() && (#[trigger] h.items[i]).metadata.zero_referred
            ==> h.items[i].metadata.stack_references == 0
}

/// The marks of every counter are sound: an object waits for collection
/// only where no stack or slot holds it.
pub proof fn lemma_counter_is_sound(counter: &ReferenceCounter)
    ensures
        waiting_sound(counter@),
{
}

/// The marks of the counter of every machine are sound.
pub proof fn lemma_machine_is_sound(engine: &ExecutionEngine)
    ensures
        waiting_sound(engine@.heap),
{
}

/// A counter without objects has sound marks, and a new object and a new
/// value for an object keep them sound.
pub proof fn lemma_waiting_objects(h: CounterView, id: usize, c: CompoundView)
    ensures
        waiting_sound(CounterView::empty()),
        waiting_sound(h) ==> waiting_sound(h.adopt(c)),
        waiting_sound(h) && id < h.items.len() ==> waiting_sound(h.set_object(id, c)),
{
    if waiting_sound(h) {
        let a = h.adopt(c);
        assert forall|i: int| 0 <= i < a.items.len() && (#[trigger] a.items[i]).metadata.zero_referred
            implies a.items[i].metadata.stack_references == 0 by {
            if i < h.items.len() {
                assert(a.items[i] == h.items[i]);
            }
        }
        if id < h.items.len() {
            let b = h.set_object(id, c);
            assert forall|i: int| 0 <= i < b.items.len() && (#[trigger] b.items[i]).metadata.zero_referred
                implies b.items[i].metadata.stack_references == 0 by {
                assert(b.items[i].metadata == h.items[i].metadata);
            }
        }
    }
}

/// Taking hold of an item from a stack or a slot keeps the marks sound:
/// the object no longer waits for collection.
pub proof fn lemma_waiting_add_stack_reference(h: CounterView, item: ItemView, n: usize)
    requires
        waiting_sound(h),
        h.add_stack_reference(item, n) is Some,
    ensures
        waiting_sound(h.add_stack_reference(item, n)->Some_0),
        item.handle() is Some ==> !h.add_stack_reference(item, n)->Some_0.meta(
            item.handle()->Some_0,
        ).zero_referred,
{
    let a = h.add_stack_reference(item, n)->Some_0;
    assert forall|i: int| 0 <= i < a.items.len() && (#[trigger] a.items[i]).metadata.zero_referred
        implies a.items[i].metadata.stack_references == 0 by {
        if item.handle() is Some && i == item.handle()->Some_0 {
        } else {
            assert(a.items[i] == h.items[i]);
        }
    }
}

/// Letting go of an item from a stack or a slot keeps the marks sound, and
/// the object waits for collection afterwards if and only if it has no
/// stack reference left.
pub proof fn lemma_waiting_remove_stack_reference(h: CounterView, item: ItemView)
    requires
        waiting_sound(h),
        h.remove_stack_reference(item) is Some,
    ensures
        waiting_sound(h.remove_stack_reference(item)->Some_0),
        item.handle() is Some ==> (h.remove_stack_reference(item)->Some_0.meta(
            item.handle()->Some_0,
        ).zero_referred <==> h.remove_stack_reference(item)->Some_0.meta(
            item.handle()->Some_0,
        ).stack_references == 0),
{
    let a = h.remove_stack_reference(item)->Some_0;
    if item.handle() is Some {
        let id = item.handle()->Some_0;
        assert(h.items[id as int].metadata.zero_referred ==> h.items[id as int].metadata.stack_references == 0);
    }
    assert forall|i: int| 0 <= i < a.items.len() && (#[trigger] a.items[i]).metadata.zero_referred
        implies a.items[i].metadata.stack_references == 0 by {
        if item.handle() is Some && i == item.handle()->Some_0 {
            assert(h.items[i].metadata.zero_referred ==> h.items[i].metadata.stack_references == 0);
        } else {
            assert(a.items[i] == h.items[i]);
        }
    }
}

/// An object that takes hold of an item keeps the marks sound.
pub proof fn lemma_waiting_add_reference(h: CounterView, child: ItemView, parent: usize)
    requires
        waiting_sound(h),
        h.add_reference(child, parent) is Some,
    ensures
        waiting_sound(h.add_reference(child, parent)->Some_0),
{
    let a = h.add_reference(child, parent)->Some_0;
    assert forall|i: int| 0 <= i < a.items.len() && (#[trigger] a.items[i]).metadata.zero_referred
        implies a.items[i].metadata.stack_references == 0 by {
        if child.handle() is Some && i == child.handle()->Some_0 {
            assert(a.items[i].metadata.zero_referred == h.items[i].metadata.zero_referred);
            assert(a.items[i].metadata.stack_references == h.items[i].metadata.stack_references);
        } else {
            assert(a.items[i] == h.items[i]);
        }
    }
}

/// An object that lets go of an item keeps the marks sound: the item waits
/// for collection afterwards if it has no stack reference.
pub proof fn lemma_waiting_remove_reference(h: CounterView, child: ItemView, parent: usize)
    requires
        waiting_sound(h),
        h.remove_reference(child, parent) is Some,
    ensures
        waiting_sound(h.remove_reference(child, parent)->Some_0),
        child.handle() is Some && h.meta(child.handle()->Some_0).stack_references == 0
            ==> h.remove_reference(child, parent)->Some_0.meta(
            child.handle()->Some_0,
        ).zero_referred,
{
    let a = h.remove_reference(child, parent)->Some_0;
    assert forall|i: int| 0 <= i < a.items.len() && (#[trigger] a.items[i]).metadata.zero_referred
        implies a.items[i].metadata.stack_references == 0 by {
        if child.handle() is Some && i == child.handle()->Some_0 {
            assert(a.items[i].metadata.stack_references == h.items[i].metadata.stack_references);
            assert(h.items[i].metadata.zero_referred ==> h.items[i].metadata.stack_references == 0);
        } else {
            assert(a.items[i] == h.items[i]);
        }
    }
}

/// An object that takes hold of several items keeps the marks sound.
pub proof fn lemma_waiting_add_references(h: CounterView, items: Seq<ItemView>, parent: usize, from: int)
    requires
        waiting_sound(h),
        h.add_references(items, parent, from) is Some,
    ensures
        waiting_sound(h.add_references(items, parent, from)->Some_0),
    decreases items.len() - from,
{
    if 0 <= from < items.len() {
        lemma_waiting_add_reference(h, items[from], parent);
        lemma_waiting_add_references(
            h.add_reference(items[from], parent)->Some_0,
            items,
            parent,
            from + 1,
        );
    }
}

/// An object that lets go of several items keeps the marks sound.
pub proof fn lemma_waiting_remove_references(
    h: CounterView,
    items: Seq<ItemView>,
    parent: usize,
    from: int,
)
    requires
        waiting_sound(h),
        h.remove_references(items, parent, from) is Some,
    ensures
        waiting_sound(h.remove_references(items, parent, from)->Some_0),
    decreases items.len() - from,
{
    if 0 <= from < items.len() {
        lemma_waiting_remove_reference(h, items[from], parent);
        lemma_waiting_remove_references(
            h.remove_reference(items[from], parent)->Some_0,
            items,
            parent,
            from + 1,
        );
    }
}

/// After a collection no object waits for the next one, so that the marks
/// are sound whatever they were; the check of the waiting objects keeps
/// sound marks sound.
pub proof fn lemma_waiting_collection(h: CounterView)
    ensures
        waiting_sound(collected(h)),
        waiting_sound(h) ==> waiting_sound(checked_zero_referred(h)),
{
    let c = collected(h);
    assert forall|i: int| 0 <= i < c.items.len() implies !(#[trigger] c.items[i]).metadata.zero_referred by {
        assert(c.items[i] == swept(h, i));
    }
}

/// The references that the entries of one record count.
pub open spec fn entries_total(refs: Seq<ObjectReferenceEntry>) -> int
    decreases refs.len(),
{
    if refs.len() == 0 {
        0
    } else {
        entries_total(refs.drop_last()) + refs.last().references
    }
}

/// The references that one record counts: those from stacks and slots and
/// those from objects.
pub open spec fn record_total(m: MetadataView) -> int {
    m.stack_references + entries_total(m.object_references)
}

/// The references that the records of the first `upto` objects count.
pub open spec fn recorded_upto(h: CounterView, upto: int) -> int
    decreases upto,
{
    if upto <= 0 {
        0
    } else {
        recorded_upto(h, upto - 1) + record_total(h.items[upto - 1].metadata)
    }
}

/// The references that the records of all objects count: the sum of the
/// stack references and of the references from objects.
pub open spec fn recorded(h: CounterView) -> int {
    recorded_upto(h, h.items.len() as int)
}

/// The part of the total that no record counts: the references to items
/// that are no objects.
pub open spec fn unrecorded(h: CounterView) -> int {
    h.count - recorded(h)
}

/// Another count in one entry changes the sum of the entries by the
/// difference, and a new entry adds its count.
pub proof fn lemma_entries_total(refs: Seq<ObjectReferenceEntry>, i: int, e: ObjectReferenceEntry)
    ensures
        0 <= i < refs.len() ==> entries_total(refs.update(i, e)) == entries_total(refs)
            + e.references - refs[i].references,
        entries_total(refs.push(e)) == entries_total(refs) + e.references,
    decreases refs.len(),
{
    assert(refs.push(e).drop_last() =~= refs);
    if 0 <= i < refs.len() {
        if i == refs.len() - 1 {
            assert(refs.update(i, e).drop_last() =~= refs.drop_last());
        } else {
            lemma_entries_total(refs.drop_last(), i, e);
            assert(refs.update(i, e).drop_last() =~= refs.drop_last().update(i, e));
        }
    }
}

/// Another record for one object changes what the records count by the
/// difference of the two records.
pub proof fn lemma_recorded_set_meta(h: CounterView, id: usize, m: MetadataView, upto: int)
    requires
        id < h.items.len(),
        0 <= upto <= h.items.len(),
    ensures
        recorded_upto(h.set_meta(id, m), upto) == recorded_upto(h, upto) + if id < upto {
            record_total(m) - record_total(h.meta(id))
        } else {
            0
        },
    decreases upto,
{
    if upto > 0 {
        lemma_recorded_set_meta(h, id, m, upto - 1);
    }
}

/// What the records count does not depend on the total, on the values of
/// the objects, or on an object that nothing refers to yet.
pub proof fn lemma_recorded_frame(h: CounterView, g: CounterView, upto: int)
    requires
        0 <= upto <= h.items.len(),
        upto <= g.items.len(),
        forall|i: int| 0 <= i < upto ==> h.items[i].metadata == g.items[i].metadata,
    ensures
        recorded_upto(h, upto) == recorded_upto(g, upto),
    decreases upto,
{
    if upto > 0 {
        lemma_recorded_frame(h, g, upto - 1);
    }
}

/// The total equals what the records count plus the references to items
/// that are no objects, as far as the operations of the counter go: a
/// reference to an object changes the total and the records by the same
/// number, and a reference to another item changes the total alone. A new
/// object and a new value for an object change neither.
pub proof fn lemma_total_follows_records(
    h: CounterView,
    item: ItemView,
    n: usize,
    parent: usize,
    c: CompoundView,
)
    ensures
        unrecorded(h.adopt(c)) == unrecorded(h),
        parent < h.items.len() ==> unrecorded(h.set_object(parent, c)) == unrecorded(h),
        h.add_stack_reference(item, n) is Some ==> unrecorded(
            h.add_stack_reference(item, n)->Some_0,
        ) == unrecorded(h) + if item.handle() is Some {
            0
        } else {
            n as int
        },
        h.remove_stack_reference(item) is Some ==> unrecorded(
            h.remove_stack_reference(item)->Some_0,
        ) == unrecorded(h) - if item.handle() is Some {
            0int
        } else {
            1int
        },
        h.add_reference(item, parent) is Some ==> unrecorded(
            h.add_reference(item, parent)->Some_0,
        ) == unrecorded(h) + if item.handle() is Some {
            0int
        } else {
            1int
        },
        h.remove_reference(item, parent) is Some ==> unrecorded(
            h.remove_reference(item, parent)->Some_0,
        ) == unrecorded(h) - if item.handle() is Some {
            0int
        } else {
            1int
        },
{
    let len = h.items.len() as int;
    lemma_recorded_frame(h.adopt(c), h, len);
    assert(entries_total(MetadataView::fresh().object_references) == 0);
    if parent < h.items.len() {
        lemma_recorded_frame(h.set_object(parent, c), h, len);
    }
    match item.handle() {
        Some(id) => {
            if h.add_stack_reference(item, n) is Some {
                let a = h.add_stack_reference(item, n)->Some_0;
                lemma_recorded_set_meta(h, id, a.meta(id), len);
                lemma_recorded_frame(a, h.set_meta(id, a.meta(id)), len);
            }
            if h.remove_stack_reference(item) is Some {
                let a = h.remove_stack_reference(item)->Some_0;
                lemma_recorded_set_meta(h, id, a.meta(id), len);
                lemma_recorded_frame(a, h.set_meta(id, a.meta(id)), len);
            }
            let refs = h.meta(id).object_references;
            if h.add_reference(item, parent) is Some {
                let a = h.add_reference(item, parent)->Some_0;
                match find_entry(refs, parent, 0) {
                    Some(i) => {
                        lemma_find_entry_in_range(refs, parent, 0);
                        lemma_entries_total(refs, i, a.meta(id).object_references[i]);
                    },
                    None => {
                        lemma_entries_total(
                            refs,
                            0,
                            ObjectReferenceEntry { item: parent, references: 1 },
                        );
                    },
                }
                lemma_recorded_set_meta(h, id, a.meta(id), len);
                lemma_recorded_frame(a, h.set_meta(id, a.meta(id)), len);
            }
            if h.remove_reference(item, parent) is Some {
                let a = h.remove_reference(item, parent)->Some_0;
                let i = find_entry(refs, parent, 0)->Some_0;
                lemma_find_entry_in_range(refs, parent, 0);
                lemma_entries_total(refs, i, a.meta(id).object_references[i]);
                lemma_recorded_set_meta(h, id, a.meta(id), len);
                lemma_recorded_frame(a, h.set_meta(id, a.meta(id)), len);
            }
        },
        None => {
            if h.add_stack_reference(item, n) is Some {
                lemma_recorded_frame(h.add_stack_reference(item, n)->Some_0, h, len);
            }
            if h.remove_stack_reference(item) is Some {
                lemma_recorded_frame(h.remove_stack_reference(item)->Some_0, h, len);
            }
            if h.add_reference(item, parent) is Some {
                lemma_recorded_frame(h.add_reference(item, parent)->Some_0, h, len);
            }
            if h.remove_reference(item, parent) is Some {
                lemma_recorded_frame(h.remove_reference(item, parent)->Some_0, h, len);
            }
        },
    }
}

/// An entry that was found lies within the entries, at or behind the
/// position from which it was looked for.
pub proof fn lemma_find_entry_in_range(refs: Seq<ObjectReferenceEntry>, holder: usize, from: int)
    requires
        find_entry(refs, holder, from) is Some,
    ensures
        from <= find_entry(refs, holder, from)->Some_0 < refs.len(),
        0 <= from,
    decreases refs.len() - from,
{
    if 0 <= from < refs.len() && refs[from].item != holder {
        lemma_find_entry_in_range(refs, holder, from + 1);
    }
}

} // verus!
