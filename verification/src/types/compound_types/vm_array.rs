use crate::types::stack_item::{items_view, ItemView, StackItem};
use vstd::prelude::*;

verus! {

/// The contents of an array or a struct as a mathematical value.
pub struct ArrayView {
    pub items: Seq<ItemView>,
    pub read_only: bool,
}

/// An ordered sequence of items.
#[derive(Debug)]
pub struct VMArray {
    pub array: Vec<StackItem>,
    pub read_only: bool,
}

impl View for VMArray {
    type V = ArrayView;

    open spec fn view(&self) -> ArrayView {
        ArrayView { items: items_view(self.array@), read_only: self.read_only }
    }
}

/// A copy of the items: primitives are copied, objects are shared.
pub fn clone_items(items: &Vec<StackItem>) -> (r: Vec<StackItem>)
    ensures
        items_view(r@) == items_view(items@),
{
    let n: usize = items.len();
    let mut out: Vec<StackItem> = Vec::new();
    let mut i: usize = 0;
    while i < n
        invariant
            i <= n,
            n == items@.len(),
            out@.len() == i,
            forall|j: int| 0 <= j < i ==> out@[j]@ == items@[j]@,
        decreases n - i,
    {
        out.push(items[i].clone());
        i += 1;
    }
    assert(items_view(out@) =~= items_view(items@));
    out
}

/// The items in the opposite order.
pub fn reversed_items(items: &Vec<StackItem>) -> (r: Vec<StackItem>)
    ensures
        items_view(r@) == items_view(items@).reverse(),
{
    let n: usize = items.len();
    let mut out: Vec<StackItem> = Vec::new();
    let mut i: usize = 0;
    while i < n
        invariant
            i <= n,
            n == items@.len(),
            out@.len() == i,
            forall|j: int| 0 <= j < i ==> out@[j]@ == items@[n - 1 - j]@,
        decreases n - i,
    {
        out.push(items[n - 1 - i].clone());
        i += 1;
    }
    assert(items_view(out@) =~= items_view(items@).reverse());
    out
}

impl Clone for VMArray {
    fn clone(&self) -> (r: Self)
        ensures
            r@ == self@,
    {
        VMArray { array: clone_items(&self.array), read_only: self.read_only }
    }
}

impl VMArray {
    /// An array of the given items, or an empty one.
    pub fn new(items: Option<Vec<StackItem>>) -> (r: Self)
        ensures
            r@ == (ArrayView {
                items: match items {
                    Some(v) => items_view(v@),
                    None => Seq::<ItemView>::empty(),
                },
                read_only: false,
            }),
    {
        let array: Vec<StackItem> = match items {
            Some(v) => v,
            None => Vec::new(),
        };
        assert(items_view(Seq::<StackItem>::empty()) =~= Seq::<ItemView>::empty());
        Self { array, read_only: false }
    }

    /// The number of items.
    pub fn count(&self) -> (r: usize)
        ensures
            r == self@.items.len(),
    {
        self.array.len()
    }

    pub fn is_read_only(&self) -> (r: bool)
        ensures
            r == self@.read_only,
    {
        self.read_only
    }

    /// Freezes the array.
    pub fn read_only(&mut self)
        ensures
            final(self)@ == (ArrayView { read_only: true, ..old(self)@ }),
    {
        self.read_only = true;
    }

    /// The item at `index`.
    pub fn get(&self, index: usize) -> (r: &StackItem)
        requires
            index < self@.items.len(),
        ensures
            r@ == self@.items[index as int],
    {
        &self.array[index]
    }

    /// Appends the item.
    pub fn add(&mut self, item: StackItem)
        ensures
            final(self)@ == (ArrayView { items: old(self)@.items.push(item@), ..old(self)@ }),
    {
        self.array.push(item);
        assert(items_view(self.array@) =~= items_view(old(self).array@).push(item@));
    }

    /// Replaces the item at `index`.
    pub fn set(&mut self, index: usize, item: StackItem)
        requires
            index < old(self)@.items.len(),
        ensures
            final(self)@ == (ArrayView {
                items: old(self)@.items.update(index as int, item@),
                ..old(self)@
            }),
    {
        self.array.set(index, item);
        assert(items_view(self.array@) =~= items_view(old(self).array@).update(
            index as int,
            item@,
        ));
    }

    /// Removes all items.
    pub fn clear(&mut self)
        ensures
            final(self)@ == (ArrayView { items: Seq::<ItemView>::empty(), ..old(self)@ }),
    {
        self.array.clear();
        assert(items_view(self.array@) =~= Seq::<ItemView>::empty());
    }

    /// Removes the item at `index` and gives it back.
    pub fn remove_at(&mut self, index: usize) -> (r: StackItem)
        requires
            index < old(self)@.items.len(),
        ensures
            r@ == old(self)@.items[index as int],
            final(self)@ == (ArrayView {
                items: old(self)@.items.remove(index as int),
                ..old(self)@
            }),
    {
        let r = self.array.remove(index);
        assert(items_view(self.array@) =~= items_view(old(self).array@).remove(index as int));
        r
    }

    /// Reverses the order of the items.
    pub fn reverse(&mut self)
        ensures
            final(self)@ == (ArrayView { items: old(self)@.items.reverse(), ..old(self)@ }),
    {
        self.array = reversed_items(&self.array);
    }
}

} // verus!
