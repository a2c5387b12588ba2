use crate::types::stack_item::{items_view, ItemView, StackItem};
use crate::vm::reference_counter::{CounterView, ReferenceCounter};
use vstd::prelude::*;

verus! {

impl CounterView {
    /// The counter after one stack reference was added for each item from
    /// position `from` on.
    pub open spec fn add_stack_references(self, items: Seq<ItemView>, from: int) -> Option<
        CounterView,
    >
        decreases items.len() - from,
    {
        if from < 0 || from >= items.len() {
            Some(self)
        } else {
            match self.add_stack_reference(items[from], 1) {
                Some(h) => h.add_stack_references(items, from + 1),
                None => None,
            }
        }
    }

    /// The counter after one stack reference was removed for each item from
    /// position `from` on.
    pub open spec fn remove_stack_references(self, items: Seq<ItemView>, from: int) -> Option<
        CounterView,
    >
        decreases items.len() - from,
    {
        if from < 0 || from >= items.len() {
            Some(self)
        } else {
            match self.remove_stack_reference(items[from]) {
                Some(h) => h.remove_stack_references(items, from + 1),
                None => None,
            }
        }
    }

    /// The counter after the slot entry that held `previous` took hold of
    /// `item` instead.
    pub open spec fn replace_stack_reference(self, previous: ItemView, item: ItemView) -> Option<
        CounterView,
    > {
        match self.remove_stack_reference(previous) {
            Some(h) => h.add_stack_reference(item, 1),
            None => None,
        }
    }
}

/// A fixed number of places for items: the static fields of a script, or
/// the local variables or the arguments of a context.
#[derive(Debug)]
pub struct Slot {
    pub items: Vec<StackItem>,
}

impl View for Slot {
    type V = Seq<ItemView>;

    open spec fn view(&self) -> Seq<ItemView> {
        items_view(self.items@)
    }
}

impl Slot {
    /// A slot that holds the given items. The counter records a stack
    /// reference for each.
    pub fn new(items: Vec<StackItem>, counter: &mut ReferenceCounter) -> (r: Option<Self>)
        ensures
            r is Some <==> old(counter)@.add_stack_references(items_view(items@), 0) is Some,
            r is Some ==> r->Some_0@ == items_view(items@) && final(counter)@ == old(counter)@.add_stack_references(items_view(items@), 0)->Some_0,
    {
        let n: usize = items.len();
        let mut i: usize = 0;
        while i < n
            invariant
                i <= n,
                n == items@.len(),
                old(counter)@.add_stack_references(items_view(items@), 0)
                    == counter@.add_stack_references(items_view(items@), i as int),
            decreases n - i,
        {
            if !counter.add_stack_reference(&items[i], 1) {
                return None;
            }
            i += 1;
        }
        Some(Slot { items })
    }

    /// A slot of `count` places that hold null.
    pub fn with_count(count: usize, counter: &mut ReferenceCounter) -> (r: Option<Self>)
        ensures
            r is Some <==> old(counter)@.add_stack_reference(ItemView::Null, count) is Some,
            r is Some ==> r->Some_0@ == Seq::new(count as nat, |i: int| ItemView::Null) && final(counter)@ == old(counter)@.add_stack_reference(ItemView::Null, count)->Some_0,
    {
        if !counter.add_stack_reference(&StackItem::Null, count) {
            return None;
        }
        let mut items: Vec<StackItem> = Vec::new();
        let mut i: usize = 0;
        while i < count
            invariant
                i <= count,
                items@.len() == i,
                forall|j: int| 0 <= j < i ==> items@[j]@ == ItemView::Null,
            decreases count - i,
        {
            items.push(StackItem::Null);
            i += 1;
        }
        assert(items_view(items@) =~= Seq::new(count as nat, |i: int| ItemView::Null));
        Some(Slot { items })
    }

    /// The number of places.
    pub fn count(&self) -> (r: usize)
        ensures
            r == self@.len(),
    {
        self.items.len()
    }

    /// The item at `index`.
    pub fn get(&self, index: usize) -> (r: Option<StackItem>)
        ensures
            r is Some <==> index < self@.len(),
            r is Some ==> r->Some_0@ == self@[index as int],
    {
        if index < self.items.len() {
            Some(self.items[index].clone())
        } else {
            None
        }
    }

    /// Puts `item` at `index`: the counter records that the place let go
    /// of its old item and took hold of the new one.
    pub fn set(&mut self, index: usize, item: StackItem, counter: &mut ReferenceCounter) -> (ok:
        bool)
        ensures
            ok <==> index < old(self)@.len() && old(counter)@.replace_stack_reference(
                old(self)@[index as int],
                item@,
            ) is Some,
            ok ==> final(self)@ == old(self)@.update(index as int, item@) && final(counter)@
                == old(counter)@.replace_stack_reference(old(self)@[index as int], item@)->Some_0,
    {
        if index >= self.items.len() {
            return false;
        }
        if !counter.remove_stack_reference(&self.items[index]) {
            return false;
        }
        if !counter.add_stack_reference(&item, 1) {
            return false;
        }
        self.items.set(index, item);
        assert(self@ =~= old(self)@.update(index as int, item@));
        true
    }

    /// Empties the slot: the counter records that every place let go of
    /// its item.
    pub fn clear_references(&mut self, counter: &mut ReferenceCounter) -> (ok: bool)
        ensures
            ok <==> old(counter)@.remove_stack_references(old(self)@, 0) is Some,
            ok ==> final(self)@ == Seq::<ItemView>::empty() && final(counter)@ == old(counter)@.remove_stack_references(old(self)@, 0)->Some_0,
    {
        let n: usize = self.items.len();
        let mut i: usize = 0;
        while i < n
            invariant
                i <= n,
                n == self.items@.len(),
                self.items@ == old(self).items@,
                old(counter)@.remove_stack_references(old(self)@, 0)
                    == counter@.remove_stack_references(old(self)@, i as int),
            decreases n - i,
        {
            if !counter.remove_stack_reference(&self.items[i]) {
                return false;
            }
            i += 1;
        }
        self.items.clear();
        assert(self@ =~= Seq::<ItemView>::empty());
        true
    }
}

} // verus!
