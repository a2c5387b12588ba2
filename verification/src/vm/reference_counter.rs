use crate::types::compound_types::vm_compound::{CompoundView, VMCompound};
use crate::types::stack_item::{
    ItemView, MetadataView, ObjectReferenceEntry, StackItem, StackItemWrapper, WrapperView,
};
use vstd::prelude::*;

verus! {

/// The reference counter as a mathematical value: every object with its
/// record, in the order of their numbers, and the total of all references.
pub struct CounterView {
    pub items: Seq<WrapperView>,
    pub count: usize,
}

/// The first position from `from` on at which `refs` names `holder`.
pub open spec fn find_entry(refs: Seq<ObjectReferenceEntry>, holder: usize, from: int) -> Option<
    int,
>
    decreases refs.len() - from,
{
    if from < 0 || from >= refs.len() {
        None
    } else if refs[from].item == holder {
        Some(from)
    } else {
        find_entry(refs, holder, from + 1)
    }
}

/// What an operation that can fail did: on success the state is the
/// expected one, on failure nothing has changed.
pub open spec fn outcome(
    ok: bool,
    before: CounterView,
    after: CounterView,
    expected: Option<CounterView>,
) -> bool {
    match expected {
        Some(h) => ok && after == h,
        None => !ok && after == before,
    }
}

impl CounterView {
    /// A counter without objects and without references.
    pub open spec fn empty() -> CounterView {
        CounterView { items: Seq::<WrapperView>::empty(), count: 0 }
    }

    /// Whether the objects can be numbered by the machine. Every counter of
    /// the machine is of this kind.
    pub open spec fn wf(self) -> bool {
        self.items.len() <= usize::MAX
    }

    /// Whether `id` names an object that was not reclaimed.
    pub open spec fn live(self, id: usize) -> bool {
        id < self.items.len() && !self.items[id as int].metadata.freed
    }

    /// The record of the object `id`.
    pub open spec fn meta(self, id: usize) -> MetadataView {
        self.items[id as int].metadata
    }

    /// The object `id`.
    pub open spec fn object(self, id: usize) -> CompoundView {
        self.items[id as int].item
    }

    /// The counter with another record for the object `id`.
    pub open spec fn set_meta(self, id: usize, m: MetadataView) -> CounterView {
        CounterView {
            items: self.items.update(
                id as int,
                WrapperView { metadata: m, ..self.items[id as int] },
            ),
            ..self
        }
    }

    /// The counter with another value for the object `id`.
    pub open spec fn set_object(self, id: usize, c: CompoundView) -> CounterView {
        CounterView {
            items: self.items.update(id as int, WrapperView { item: c, ..self.items[id as int] }),
            ..self
        }
    }

    /// The counter with another total.
    pub open spec fn set_count(self, count: int) -> CounterView {
        CounterView { count: count as usize, ..self }
    }

    /// The counter with one more object, which nothing refers to yet. Its
    /// number is the number of objects before.
    pub open spec fn adopt(self, c: CompoundView) -> CounterView {
        CounterView {
            items: self.items.push(WrapperView { item: c, metadata: MetadataView::fresh() }),
            ..self
        }
    }

    /// The counter after `n` stack or slot entries took hold of `item`. The
    /// total grows by `n`. An object is from now on watched, has `n` more
    /// stack references, and no longer waits for collection. There is no
    /// result where a count would pass the largest number, or where the
    /// item names no live object.
    pub open spec fn add_stack_reference(self, item: ItemView, n: usize) -> Option<CounterView> {
        if self.count + n > usize::MAX {
            None
        } else {
            match item.handle() {
                None => Some(self.set_count(self.count + n)),
                Some(id) => if !self.live(id) || self.meta(id).stack_references + n > usize::MAX {
                    None
                } else {
                    Some(
                        self.set_meta(
                            id,
                            MetadataView {
                                stack_references: (self.meta(id).stack_references + n) as usize,
                                watched: true,
                                zero_referred: false,
                                ..self.meta(id)
                            },
                        ).set_count(self.count + n),
                    )
                },
            }
        }
    }

    /// The counter after one stack or slot entry let go of `item`. The total
    /// shrinks by 1. An object has one stack reference less, and waits for
    /// collection once it has none. There is no result where a count is
    /// already zero, or where the item names no live object.
    pub open spec fn remove_stack_reference(self, item: ItemView) -> Option<CounterView> {
        if self.count == 0 {
            None
        } else {
            match item.handle() {
                None => Some(self.set_count(self.count - 1)),
                Some(id) => if !self.live(id) || self.meta(id).stack_references == 0 {
                    None
                } else {
                    Some(
                        self.set_meta(
                            id,
                            MetadataView {
                                stack_references: (self.meta(id).stack_references - 1) as usize,
                                zero_referred: self.meta(id).zero_referred || self.meta(
                                    id,
                                ).stack_references == 1,
                                ..self.meta(id)
                            },
                        ).set_count(self.count - 1),
                    )
                },
            }
        }
    }

    /// The counter after the object `parent` took hold of `child`. The total
    /// grows by 1. A child object is from now on watched and records one
    /// more reference from `parent`.
    pub open spec fn add_reference(self, child: ItemView, parent: usize) -> Option<CounterView> {
        if self.count + 1 > usize::MAX {
            None
        } else {
            match child.handle() {
                None => Some(self.set_count(self.count + 1)),
                Some(id) => if !self.live(id) {
                    None
                } else {
                    let refs = self.meta(id).object_references;
                    match find_entry(refs, parent, 0) {
                        Some(i) => if refs[i].references == usize::MAX {
                            None
                        } else {
                            Some(
                                self.set_meta(
                                    id,
                                    MetadataView {
                                        object_references: refs.update(
                                            i,
                                            ObjectReferenceEntry {
                                                item: parent,
                                                references: (refs[i].references + 1) as usize,
                                            },
                                        ),
                                        watched: true,
                                        ..self.meta(id)
                                    },
                                ).set_count(self.count + 1),
                            )
                        },
                        None => Some(
                            self.set_meta(
                                id,
                                MetadataView {
                                    object_references: refs.push(
                                        ObjectReferenceEntry { item: parent, references: 1 },
                                    ),
                                    watched: true,
                                    ..self.meta(id)
                                },
                            ).set_count(self.count + 1),
                        ),
                    }
                },
            }
        }
    }

    /// The counter after the object `parent` let go of `child`. The total
    /// shrinks by 1. A child object records one reference less from
    /// `parent`, and waits for collection if it has no stack reference.
    /// There is no result where the child records no reference from
    /// `parent`.
    pub open spec fn remove_reference(self, child: ItemView, parent: usize) -> Option<CounterView> {
        if self.count == 0 {
            None
        } else {
            match child.handle() {
                None => Some(self.set_count(self.count - 1)),
                Some(id) => if !self.live(id) {
                    None
                } else {
                    let refs = self.meta(id).object_references;
                    match find_entry(refs, parent, 0) {
                        Some(i) => if refs[i].references == 0 {
                            None
                        } else {
                            Some(
                                self.set_meta(
                                    id,
                                    MetadataView {
                                        object_references: refs.update(
                                            i,
                                            ObjectReferenceEntry {
                                                item: parent,
                                                references: (refs[i].references - 1) as usize,
                                            },
                                        ),
                                        zero_referred: self.meta(id).zero_referred || self.meta(
                                            id,
                                        ).stack_references == 0,
                                        ..self.meta(id)
                                    },
                                ).set_count(self.count - 1),
                            )
                        },
                        None => None,
                    }
                },
            }
        }
    }

    /// The counter after `parent` took hold of the items from position
    /// `from` on, one after the other.
    pub open spec fn add_references(self, items: Seq<ItemView>, parent: usize, from: int) -> Option<
        CounterView,
    >
        decreases items.len() - from,
    {
        if from < 0 || from >= items.len() {
            Some(self)
        } else {
            match self.add_reference(items[from], parent) {
                Some(h) => h.add_references(items, parent, from + 1),
                None => None,
            }
        }
    }

    /// The counter after `parent` let go of the items from position `from`
    /// on, one after the other.
    pub open spec fn remove_references(
        self,
        items: Seq<ItemView>,
        parent: usize,
        from: int,
    ) -> Option<CounterView>
        decreases items.len() - from,
    {
        if from < 0 || from >= items.len() {
            Some(self)
        } else {
            match self.remove_reference(items[from], parent) {
                Some(h) => h.remove_references(items, parent, from + 1),
                None => None,
            }
        }
    }
}

/// Keeps the shared objects of the machine and counts the references to
/// every item.
#[derive(Debug)]
pub struct ReferenceCounter {
    pub items: Vec<StackItemWrapper>,
    pub references_count: usize,
}

/// The values of the objects with their records.
pub open spec fn wrappers_view(items: Seq<StackItemWrapper>) -> Seq<WrapperView> {
    items.map_values(|w: StackItemWrapper| w@)
}

impl View for ReferenceCounter {
    type V = CounterView;

    open spec fn view(&self) -> CounterView {
        CounterView { items: wrappers_view(self.items@), count: self.references_count }
    }
}

impl ReferenceCounter {
    /// A counter without objects and without references.
    pub fn new() -> (r: Self)
        ensures
            r@ == CounterView::empty(),
    {
        let r = ReferenceCounter { items: Vec::new(), references_count: 0 };
        assert(r@.items =~= CounterView::empty().items);
        r
    }

    /// The total of all references.
    pub fn count(&self) -> (r: usize)
        ensures
            r == self@.count,
            self@.wf(),
    {
        let n: usize = self.items.len();
        self.references_count
    }

    /// The number of objects that the counter ever kept.
    pub fn len(&self) -> (r: usize)
        ensures
            r == self@.items.len(),
    {
        self.items.len()
    }

    /// Whether `id` names an object that was not reclaimed.
    pub fn is_live(&self, id: usize) -> (r: bool)
        ensures
            r == self@.live(id),
    {
        id < self.items.len() && !self.items[id].metadata.freed
    }

    /// The object `id` with its record, if it is live.
    pub fn get(&self, id: usize) -> (r: Option<&StackItemWrapper>)
        ensures
            r is Some <==> self@.live(id),
            r is Some ==> r->Some_0@ == self@.items[id as int],
    {
        if id < self.items.len() && !self.items[id].metadata.freed {
            Some(&self.items[id])
        } else {
            None
        }
    }

    /// The object `id`, if it is live.
    pub fn compound(&self, id: usize) -> (r: Option<&VMCompound>)
        ensures
            r is Some <==> self@.live(id),
            r is Some ==> r->Some_0@ == self@.object(id),
    {
        if id < self.items.len() && !self.items[id].metadata.freed {
            Some(&self.items[id].item)
        } else {
            None
        }
    }

    /// Whether items of this kind are kept by the counter: buffers, arrays,
    /// structs and maps.
    pub fn need_track(item: &StackItem) -> (r: bool)
        ensures
            r == (item@.handle() is Some),
    {
        item.handle().is_some()
    }

    /// Takes the object into the counter and gives back its number.
    pub fn adopt(&mut self, item: VMCompound) -> (id: usize)
        ensures
            final(self)@ == old(self)@.adopt(item@),
            id == old(self)@.items.len(),
    {
        let id: usize = self.items.len();
        self.items.push(StackItemWrapper::new(item));
        assert(self@.items =~= old(self)@.adopt(item@).items);
        id
    }

    /// Records that `count` stack or slot entries took hold of `item`.
    pub fn add_stack_reference(&mut self, item: &StackItem, count: usize) -> (ok: bool)
        ensures
            outcome(ok, old(self)@, final(self)@, old(self)@.add_stack_reference(item@, count)),
    {
        if count > usize::MAX - self.references_count {
            return false;
        }
        match item.handle() {
            None => {
                self.references_count = self.references_count + count;
                true
            },
            Some(id) => {
                if id >= self.items.len() {
                    return false;
                }
                if self.items[id].metadata.freed {
                    return false;
                }
                if count > usize::MAX - self.items[id].metadata.stack_references {
                    return false;
                }
                let w = &mut self.items[id];
                w.metadata.stack_references = w.metadata.stack_references + count;
                w.metadata.watched = true;
                w.metadata.zero_referred = false;
                self.references_count = self.references_count + count;
                assert(self@.items =~= old(self)@.add_stack_reference(item@, count)->Some_0.items);
                true
            },
        }
    }

    /// Records that one stack or slot entry let go of `item`. An object
    /// waits for collection afterwards if and only if it has no stack
    /// reference left.
    pub fn remove_stack_reference(&mut self, item: &StackItem) -> (ok: bool)
        ensures
            outcome(ok, old(self)@, final(self)@, old(self)@.remove_stack_reference(item@)),
            ok && item@.handle() is Some ==> (final(self)@.meta(
                item@.handle()->Some_0,
            ).zero_referred <==> final(self)@.meta(item@.handle()->Some_0).stack_references == 0),
    {
        if self.references_count == 0 {
            return false;
        }
        match item.handle() {
            None => {
                self.references_count = self.references_count - 1;
                true
            },
            Some(id) => {
                if id >= self.items.len() {
                    return false;
                }
                if self.items[id].metadata.freed || self.items[id].metadata.stack_references == 0 {
                    return false;
                }
                let w = &mut self.items[id];
                w.metadata.stack_references = w.metadata.stack_references - 1;
                if w.metadata.stack_references == 0 {
                    w.metadata.zero_referred = true;
                }
                self.references_count = self.references_count - 1;
                assert(self@.items =~= old(self)@.remove_stack_reference(item@)->Some_0.items);
                true
            },
        }
    }

    /// The position of `holder` among the references to the object `id`.
    fn find_holder(&self, id: usize, holder: usize) -> (r: Option<usize>)
        requires
            id < self@.items.len(),
        ensures
            match r {
                Some(i) => find_entry(self@.meta(id).object_references, holder, 0) == Some(
                    i as int,
                ) && i < self@.meta(id).object_references.len(),
                None => find_entry(self@.meta(id).object_references, holder, 0) is None,
            },
    {
        let refs = &self.items[id].metadata.object_references;
        assert(self@.meta(id).object_references == refs@);
        let n: usize = refs.len();
        let mut i: usize = 0;
        while i < n
            invariant
                i <= n,
                n == refs@.len(),
                refs@ == self@.meta(id).object_references,
                find_entry(refs@, holder, 0) == find_entry(refs@, holder, i as int),
            decreases n - i,
        {
            if refs[i].item == holder {
                return Some(i);
            }
            i += 1;
        }
        None
    }

    /// Records that the object `parent` took hold of `item`.
    pub fn add_reference(&mut self, item: &StackItem, parent: usize) -> (ok: bool)
        ensures
            outcome(ok, old(self)@, final(self)@, old(self)@.add_reference(item@, parent)),
    {
        if self.references_count == usize::MAX {
            return false;
        }
        match item.handle() {
            None => {
                self.references_count = self.references_count + 1;
                true
            },
            Some(id) => {
                if id >= self.items.len() {
                    return false;
                }
                if self.items[id].metadata.freed {
                    return false;
                }
                match self.find_holder(id, parent) {
                    Some(i) => {
                        let current: usize = self.items[id].metadata.object_references[i].references;
                        if current == usize::MAX {
                            return false;
                        }
                        let w = &mut self.items[id];
                        w.metadata.object_references.set(
                            i,
                            ObjectReferenceEntry { item: parent, references: current + 1 },
                        );
                        w.metadata.watched = true;
                    },
                    None => {
                        let w = &mut self.items[id];
                        w.metadata.object_references.push(
                            ObjectReferenceEntry { item: parent, references: 1 },
                        );
                        w.metadata.watched = true;
                    },
                }
                self.references_count = self.references_count + 1;
                assert(self@.items =~= old(self)@.add_reference(item@, parent)->Some_0.items);
                true
            },
        }
    }

    /// Records that the object `parent` let go of `item`.
    pub fn remove_reference(&mut self, item: &StackItem, parent: usize) -> (ok: bool)
        ensures
            outcome(ok, old(self)@, final(self)@, old(self)@.remove_reference(item@, parent)),
    {
        if self.references_count == 0 {
            return false;
        }
        match item.handle() {
            None => {
                self.references_count = self.references_count - 1;
                true
            },
            Some(id) => {
                if id >= self.items.len() {
                    return false;
                }
                if self.items[id].metadata.freed {
                    return false;
                }
                match self.find_holder(id, parent) {
                    Some(i) => {
                        let current: usize = self.items[id].metadata.object_references[i].references;
                        if current == 0 {
                            return false;
                        }
                        let w = &mut self.items[id];
                        w.metadata.object_references.set(
                            i,
                            ObjectReferenceEntry { item: parent, references: current - 1 },
                        );
                        if w.metadata.stack_references == 0 {
                            w.metadata.zero_referred = true;
                        }
                    },
                    None => {
                        return false;
                    },
                }
                self.references_count = self.references_count - 1;
                assert(self@.items =~= old(self)@.remove_reference(item@, parent)->Some_0.items);
                true
            },
        }
    }
}

} // verus!
