use crate::types::compound_types::vm_compound::CompoundView;
use crate::types::stack_item::{
    MetadataView, ObjectReferenceEntry, StackItemWrapper, WrapperView,
};
use crate::vm::reference_counter::{wrappers_view, CounterView, ReferenceCounter};
use vstd::prelude::*;

verus! {

/// Whether the object `holder` holds the object `id`: the record of `id`
/// names `holder` with a count above zero.
pub open spec fn holds(h: CounterView, holder: usize, id: usize) -> bool {
    id < h.items.len() && exists|k: int| #[trigger] names_holder(h, holder, id, k)
}

/// Whether the entry at position `k` of the record of `id` names `holder`
/// with a count above zero.
pub open spec fn names_holder(h: CounterView, holder: usize, id: usize, k: int) -> bool {
    0 <= k < h.meta(id).object_references.len() && h.meta(id).object_references[k].item == holder
        && h.meta(id).object_references[k].references > 0
}

/// Whether `path` leads from an object with a stack reference to the
/// object `id`, each object of the path holding the next, all of them live.
pub open spec fn is_root_path(h: CounterView, path: Seq<usize>, id: usize) -> bool {
    &&& path.len() >= 1
    &&& path.last() == id
    &&& forall|i: int| 0 <= i < path.len() ==> h.live(#[trigger] path[i])
    &&& h.meta(path[0]).stack_references > 0
    &&& forall|i: int| 1 <= i < path.len() ==> holds(h, path[i - 1], #[trigger] path[i])
}

/// Whether the object `id` is reached from a stack or a slot: it is live
/// and has a stack reference, or a live object that is reached holds it.
pub open spec fn rooted(h: CounterView, id: usize) -> bool {
    exists|path: Seq<usize>| #[trigger] is_root_path(h, path, id)
}

/// Whether the object `id` is reclaimed by a collection: it is live and
/// watched, and no stack or slot reaches it.
pub open spec fn is_garbage(h: CounterView, id: usize) -> bool {
    h.live(id) && h.meta(id).watched && !rooted(h, id)
}

/// The entries of `refs` whose holder is not reclaimed.
pub open spec fn kept_entries(h: CounterView, refs: Seq<ObjectReferenceEntry>) -> Seq<
    ObjectReferenceEntry,
>
    decreases refs.len(),
{
    if refs.len() == 0 {
        Seq::<ObjectReferenceEntry>::empty()
    } else if is_garbage(h, refs.last().item) {
        kept_entries(h, refs.drop_last())
    } else {
        kept_entries(h, refs.drop_last()).push(refs.last())
    }
}

/// The total that is left after the references held by the reclaimed
/// objects among the first `upto` objects were taken off, never below zero.
pub open spec fn reduced_count(h: CounterView, upto: int) -> int
    decreases upto,
{
    if upto <= 0 {
        h.count as int
    } else {
        let before = reduced_count(h, upto - 1);
        let held = if is_garbage(h, (upto - 1) as usize) {
            h.object((upto - 1) as usize).sub_items().len() as int
        } else {
            0
        };
        if before >= held {
            before - held
        } else {
            0
        }
    }
}

/// The record of a reclaimed object.
pub open spec fn freed_record() -> MetadataView {
    MetadataView {
        stack_references: 0,
        object_references: Seq::<ObjectReferenceEntry>::empty(),
        watched: false,
        freed: true,
        zero_referred: false,
    }
}

/// The object `id` after a collection: a reclaimed object is emptied and
/// marked as freed; another object forgets the holders that were reclaimed
/// and no longer waits for collection.
pub open spec fn swept(h: CounterView, id: int) -> WrapperView {
    let w = h.items[id];
    if is_garbage(h, id as usize) {
        WrapperView { item: w.item.emptied(), metadata: freed_record() }
    } else {
        WrapperView {
            item: w.item,
            metadata: MetadataView {
                object_references: kept_entries(h, w.metadata.object_references),
                zero_referred: false,
                ..w.metadata
            },
        }
    }
}

/// The counter after a collection: every watched object that no stack or
/// slot reaches, directly or through the objects that hold it, is
/// reclaimed, and the total no longer counts what the reclaimed objects
/// held.
pub open spec fn collected(h: CounterView) -> CounterView {
    CounterView {
        items: Seq::new(h.items.len(), |i: int| swept(h, i)),
        count: reduced_count(h, h.items.len() as int) as usize,
    }
}

/// Whether some object waits for collection.
pub open spec fn any_zero_referred(h: CounterView) -> bool {
    exists|i: int| 0 <= i < h.items.len() && (#[trigger] h.items[i]).metadata.zero_referred
}

/// The counter after the check of the objects without stack references:
/// a collection if some object waits for one, else nothing.
pub open spec fn checked_zero_referred(h: CounterView) -> CounterView {
    if any_zero_referred(h) {
        collected(h)
    } else {
        h
    }
}

/// Whether the marks are closed at `id`: a live object with a stack
/// reference is marked, and so is a live object that a marked object
/// holds.
pub open spec fn closed_at(h: CounterView, marks: Seq<bool>, id: int) -> bool {
    h.live(id as usize) ==> (h.meta(id as usize).stack_references > 0 ==> marks[id]) && (
    forall|k: int|
        0 <= k < h.meta(id as usize).object_references.len() && (#[trigger] h.meta(
            id as usize,
        ).object_references[k]).references > 0 && h.meta(id as usize).object_references[k].item
            < marks.len() && marks[h.meta(id as usize).object_references[k].item as int]
            ==> marks[id])
}

/// The number of `false` among the marks.
pub open spec fn unmarked(marks: Seq<bool>) -> nat
    decreases marks.len(),
{
    if marks.len() == 0 {
        0
    } else {
        unmarked(marks.drop_last()) + if marks.last() {
            0nat
        } else {
            1nat
        }
    }
}

/// Setting a mark that was `false` lowers the number of `false` marks by 1.
pub proof fn lemma_mark_lowers(marks: Seq<bool>, id: int)
    requires
        0 <= id < marks.len(),
        !marks[id],
    ensures
        unmarked(marks.update(id, true)) + 1 == unmarked(marks),
    decreases marks.len(),
{
    let after = marks.update(id, true);
    if id == marks.len() - 1 {
        assert(after.drop_last() =~= marks.drop_last());
    } else {
        lemma_mark_lowers(marks.drop_last(), id);
        assert(after.drop_last() =~= marks.drop_last().update(id, true));
    }
}

/// Marks that are closed everywhere hold every object of a path from an
/// object with a stack reference.
pub proof fn lemma_closed_holds_path(h: CounterView, marks: Seq<bool>, path: Seq<usize>, at: int)
    requires
        marks.len() == h.items.len(),
        forall|j: int| 0 <= j < marks.len() ==> closed_at(h, marks, j),
        is_root_path(h, path, path.last()),
        0 <= at < path.len(),
    ensures
        marks[path[at] as int],
    decreases at,
{
    let id = path[at];
    assert(h.live(id));
    assert(closed_at(h, marks, id as int));
    if at > 0 {
        let holder = path[at - 1];
        lemma_closed_holds_path(h, marks, path, at - 1);
        assert(h.live(holder));
        assert(holds(h, holder, id));
        let k = choose|k: int| #[trigger] names_holder(h, holder, id, k);
        assert(h.meta(id).object_references[k].references > 0);
    }
}

impl ReferenceCounter {
    /// Whether the object `id` has a stack reference or a marked holder.
    fn reached(&self, marks: &Vec<bool>, id: usize) -> (r: bool)
        requires
            id < self@.items.len(),
            marks@.len() == self@.items.len(),
            forall|j: int| 0 <= j < marks@.len() && marks@[j] ==> rooted(self@, j as usize),
            self@.live(id),
        ensures
            r ==> rooted(self@, id),
            !r ==> self@.meta(id).stack_references == 0 && forall|k: int|
                0 <= k < self@.meta(id).object_references.len() && (#[trigger] self@.meta(
                    id,
                ).object_references[k]).references > 0 && self@.meta(id).object_references[k].item
                    < marks@.len() ==> !marks@[self@.meta(id).object_references[k].item as int],
    {
        let w = &self.items[id];
        assert(w@ == self@.items[id as int]);
        if w.metadata.stack_references > 0 {
            proof {
                let path = seq![id];
                assert(is_root_path(self@, path, id));
            }
            return true;
        }
        let n: usize = w.metadata.object_references.len();
        let mut k: usize = 0;
        while k < n
            invariant
                k <= n,
                id < self@.items.len(),
                marks@.len() == self@.items.len(),
                w@ == self@.items[id as int],
                n == w.metadata.object_references@.len(),
                forall|j: int| 0 <= j < marks@.len() && marks@[j] ==> rooted(self@, j as usize),
                self@.live(id),
                forall|j: int|
                    0 <= j < k && (#[trigger] self@.meta(id).object_references[j]).references > 0
                        && self@.meta(id).object_references[j].item < marks@.len()
                        ==> !marks@[self@.meta(id).object_references[j].item as int],
            decreases n - k,
        {
            let e = w.metadata.object_references[k];
            if e.references > 0 && e.item < marks.len() && marks[e.item] {
                proof {
                    let holder = e.item;
                    assert(marks@[holder as int]);
                    assert(rooted(self@, holder));
                    let path = choose|path: Seq<usize>| #[trigger] is_root_path(self@, path, holder);
                    assert(self@.meta(id).object_references[k as int] == e);
                    assert(names_holder(self@, holder, id, k as int));
                    assert(holds(self@, holder, id));
                    let longer = path.push(id);
                    assert forall|i: int| 1 <= i < longer.len() implies holds(
                        self@,
                        longer[i - 1],
                        #[trigger] longer[i],
                    ) by {
                        if i < path.len() {
                            assert(longer[i] == path[i]);
                            assert(longer[i - 1] == path[i - 1]);
                        }
                    }
                    assert forall|i: int| 0 <= i < longer.len() implies self@.live(
                        #[trigger] longer[i],
                    ) by {
                        if i < path.len() {
                            assert(longer[i] == path[i]);
                        }
                    }
                    assert(longer[0] == path[0]);
                    assert(is_root_path(self@, longer, id));
                }
                return true;
            }
            k += 1;
        }
        false
    }

    /// Marks every live object that a stack or a slot reaches.
    fn mark(&self) -> (marks: Vec<bool>)
        ensures
            marks@.len() == self@.items.len(),
            forall|j: int| 0 <= j < marks@.len() ==> (marks@[j] <==> rooted(self@, j as usize)),
    {
        let n: usize = self.items.len();
        let mut marks: Vec<bool> = vec![false; n];
        let mut changed: bool = true;
        while changed
            invariant
                n == self@.items.len(),
                marks@.len() == n,
                forall|j: int| 0 <= j < n && marks@[j] ==> rooted(self@, j as usize),
                !changed ==> forall|j: int| 0 <= j < n ==> closed_at(self@, marks@, j),
            decreases unmarked(marks@), if changed { 1nat } else { 0nat },
        {
            changed = false;
            let ghost at_start = marks@;
            let mut id: usize = 0;
            while id < n
                invariant
                    id <= n,
                    n == self@.items.len(),
                    marks@.len() == n,
                    forall|j: int| 0 <= j < n && marks@[j] ==> rooted(self@, j as usize),
                    !changed ==> marks@ == at_start,
                    !changed ==> forall|j: int| 0 <= j < id ==> closed_at(self@, marks@, j),
                    changed ==> unmarked(marks@) < unmarked(at_start),
                    unmarked(marks@) <= unmarked(at_start),
                decreases n - id,
            {
                if !marks[id] && !self.items[id].metadata.freed {
                    if self.reached(&marks, id) {
                        proof {
                            lemma_mark_lowers(marks@, id as int);
                        }
                        marks.set(id, true);
                        changed = true;
                    }
                }
                id += 1;
            }
        }
        proof {
            assert forall|j: int| 0 <= j < marks@.len() implies (marks@[j] <==> rooted(
                self@,
                j as usize,
            )) by {
                let id = j as usize;
                if rooted(self@, id) {
                    let path = choose|path: Seq<usize>| #[trigger] is_root_path(self@, path, id);
                    lemma_closed_holds_path(self@, marks@, path, path.len() - 1);
                }
            }
        }
        marks
    }

    /// Whether some object waits for collection.
    fn has_zero_referred(&self) -> (r: bool)
        ensures
            r == any_zero_referred(self@),
    {
        let n: usize = self.items.len();
        let mut i: usize = 0;
        while i < n
            invariant
                i <= n,
                n == self@.items.len(),
                forall|j: int| 0 <= j < i ==> !(#[trigger] self@.items[j]).metadata.zero_referred,
            decreases n - i,
        {
            if self.items[i].metadata.waits() {
                assert(self@.items[i as int].metadata.zero_referred);
                return true;
            }
            i += 1;
        }
        false
    }

    /// For every object, whether a collection reclaims it.
    fn garbage(&self) -> (flags: Vec<bool>)
        ensures
            flags@.len() == self@.items.len(),
            forall|j: int| 0 <= j < flags@.len() ==> flags@[j] == is_garbage(self@, j as usize),
    {
        let marks = self.mark();
        let n: usize = self.items.len();
        let mut flags: Vec<bool> = Vec::new();
        let mut i: usize = 0;
        while i < n
            invariant
                i <= n,
                n == self@.items.len(),
                marks@.len() == n,
                forall|j: int| 0 <= j < n ==> (marks@[j] <==> rooted(self@, j as usize)),
                flags@.len() == i,
                forall|j: int| 0 <= j < i ==> flags@[j] == is_garbage(self@, j as usize),
            decreases n - i,
        {
            let w = &self.items[i];
            assert(w@ == self@.items[i as int]);
            flags.push(!w.metadata.freed && w.metadata.watched && !marks[i]);
            i += 1;
        }
        flags
    }

    /// The total without what the reclaimed objects hold.
    fn reduced(&self, flags: &Vec<bool>) -> (r: usize)
        requires
            flags@.len() == self@.items.len(),
            forall|j: int| 0 <= j < flags@.len() ==> flags@[j] == is_garbage(self@, j as usize),
        ensures
            r == reduced_count(self@, self@.items.len() as int),
    {
        let n: usize = self.items.len();
        let mut left: usize = self.references_count;
        let mut i: usize = 0;
        while i < n
            invariant
                i <= n,
                n == self@.items.len(),
                flags@.len() == n,
                forall|j: int| 0 <= j < n ==> flags@[j] == is_garbage(self@, j as usize),
                left == reduced_count(self@, i as int),
            decreases n - i,
        {
            if flags[i] {
                assert(self.items@[i as int]@ == self@.items[i as int]);
                let held: u128 = self.items[i].item.sub_items_count();
                if left as u128 >= held {
                    left = (left as u128 - held) as usize;
                } else {
                    left = 0;
                }
            }
            i += 1;
        }
        left
    }

    /// The entries whose holder is not reclaimed.
    fn keep_entries(
        refs: &Vec<ObjectReferenceEntry>,
        flags: &Vec<bool>,
        Ghost(h): Ghost<CounterView>,
    ) -> (r: Vec<ObjectReferenceEntry>)
        requires
            flags@.len() == h.items.len(),
            forall|j: int| 0 <= j < flags@.len() ==> flags@[j] == is_garbage(h, j as usize),
        ensures
            r@ == kept_entries(h, refs@),
    {
        let n: usize = refs.len();
        let mut out: Vec<ObjectReferenceEntry> = Vec::new();
        let mut k: usize = 0;
        while k < n
            invariant
                k <= n,
                n == refs@.len(),
                flags@.len() == h.items.len(),
                forall|j: int| 0 <= j < flags@.len() ==> flags@[j] == is_garbage(h, j as usize),
                out@ == kept_entries(h, refs@.subrange(0, k as int)),
            decreases n - k,
        {
            let e = refs[k];
            let ghost before = refs@.subrange(0, k as int);
            let gone: bool = e.item < flags.len() && flags[e.item];
            if !gone {
                out.push(e);
            }
            k += 1;
            assert(refs@.subrange(0, k as int).drop_last() =~= before);
            assert(refs@.subrange(0, k as int).last() == e);
        }
        assert(refs@.subrange(0, n as int) =~= refs@);
        out
    }

    /// Reclaims every watched object that no stack or slot reaches, if some
    /// object waits for collection, and gives back the total of all
    /// references afterwards.
    pub fn check_zero_referred(&mut self) -> (r: usize)
        ensures
            final(self)@ == checked_zero_referred(old(self)@),
            r == final(self)@.count,
    {
        if !self.has_zero_referred() {
            return self.references_count;
        }
        let flags = self.garbage();
        let left = self.reduced(&flags);
        let n: usize = self.items.len();
        let ghost h = self@;
        let mut i: usize = 0;
        while i < n
            invariant
                i <= n,
                n == h.items.len(),
                self@.items.len() == n,
                self@.count == h.count,
                flags@.len() == n,
                forall|j: int| 0 <= j < n ==> flags@[j] == is_garbage(h, j as usize),
                forall|j: int| 0 <= j < i ==> self@.items[j] == swept(h, j),
                forall|j: int| i <= j < n ==> self@.items[j] == h.items[j],
            decreases n - i,
        {
            assert(self.items@[i as int]@ == h.items[i as int]);
            if flags[i] {
                let w = &mut self.items[i];
                w.item.cleanup();
                w.metadata.stack_references = 0;
                w.metadata.object_references = Vec::new();
                w.metadata.watched = false;
                w.metadata.freed = true;
                w.metadata.zero_referred = false;
            } else {
                let kept = ReferenceCounter::keep_entries(
                    &self.items[i].metadata.object_references,
                    &flags,
                    Ghost(h),
                );
                let w = &mut self.items[i];
                w.metadata.object_references = kept;
                w.metadata.zero_referred = false;
            }
            assert(self@.items[i as int] == swept(h, i as int));
            i += 1;
        }
        self.references_count = left;
        assert(self@.items =~= collected(h).items);
        left
    }
}

} // verus!
