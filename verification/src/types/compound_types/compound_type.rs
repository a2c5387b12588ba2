use crate::types::compound_types::vm_array::{ArrayView, VMArray};
use crate::types::compound_types::vm_compound::{CompoundView, VMCompound};
use crate::types::compound_types::vm_map::{find_key, valid_key, MapView, VMMap};
use crate::types::compound_types::vm_struct::VMStruct;
use crate::types::stack_item::{items_view, ItemView, StackItem};
use crate::types::vm_buffer::VMBuffer;
use crate::vm::reference_counter::{CounterView, ReferenceCounter};
use vstd::prelude::*;

verus! {

impl CounterView {
    /// The items of the array or struct `id`, if `id` names a live one.
    pub open spec fn sequence_items(self, id: usize) -> Option<ArrayView> {
        if !self.live(id) {
            None
        } else {
            match self.object(id) {
                CompoundView::Array(a) => Some(a),
                CompoundView::Struct(a) => Some(a),
                _ => None,
            }
        }
    }

    /// The object `id` with the items of its array or struct replaced.
    pub open spec fn set_sequence_items(self, id: usize, items: Seq<ItemView>) -> CounterView {
        match self.object(id) {
            CompoundView::Array(a) => self.set_object(
                id,
                CompoundView::Array(ArrayView { items, ..a }),
            ),
            CompoundView::Struct(a) => self.set_object(
                id,
                CompoundView::Struct(ArrayView { items, ..a }),
            ),
            _ => self,
        }
    }

    /// The map `id`, if `id` names a live one.
    pub open spec fn map_of(self, id: usize) -> Option<MapView> {
        if !self.live(id) {
            None
        } else {
            match self.object(id) {
                CompoundView::Mapping(m) => Some(m),
                _ => None,
            }
        }
    }

    /// The bytes of the buffer `id`, if `id` names a live one.
    pub open spec fn buffer_of(self, id: usize) -> Option<Seq<u8>> {
        if !self.live(id) {
            None
        } else {
            match self.object(id) {
                CompoundView::Buffer(b) => Some(b),
                _ => None,
            }
        }
    }

    /// The counter with a new array, or a new struct, that holds `items`,
    /// and the number of the new object. The object takes hold of each item
    /// in turn.
    pub open spec fn new_sequence(self, items: Seq<ItemView>, as_struct: bool) -> Option<
        (CounterView, usize),
    > {
        let id = self.items.len() as usize;
        let content = ArrayView { items, read_only: false };
        let with_object = self.adopt(
            if as_struct {
                CompoundView::Struct(content)
            } else {
                CompoundView::Array(content)
            },
        );
        match with_object.add_references(items, id, 0) {
            Some(h) => Some((h, id)),
            None => None,
        }
    }

    /// The counter after `item` was appended to the array or struct `id`.
    /// There is no result where `id` names no live array or struct, or a
    /// frozen one.
    pub open spec fn append(self, id: usize, item: ItemView) -> Option<CounterView> {
        match self.sequence_items(id) {
            Some(a) => if a.read_only {
                None
            } else {
                self.set_sequence_items(id, a.items.push(item)).add_reference(item, id)
            },
            None => None,
        }
    }

    /// The counter after position `index` of the array or struct `id` was
    /// given `item`: the object lets go of the old item and takes hold of
    /// the new one.
    pub open spec fn set_sequence_item(self, id: usize, index: int, item: ItemView) -> Option<
        CounterView,
    > {
        match self.sequence_items(id) {
            Some(a) => if a.read_only || index < 0 || index >= a.items.len() {
                None
            } else {
                match self.set_sequence_items(id, a.items.update(index, item)).remove_reference(
                    a.items[index],
                    id,
                ) {
                    Some(h) => h.add_reference(item, id),
                    None => None,
                }
            },
            None => None,
        }
    }

    /// The counter after the item at `index` was removed from the array or
    /// struct `id`.
    pub open spec fn remove_sequence_item(self, id: usize, index: int) -> Option<CounterView> {
        match self.sequence_items(id) {
            Some(a) => if a.read_only || index < 0 || index >= a.items.len() {
                None
            } else {
                self.set_sequence_items(id, a.items.remove(index)).remove_reference(
                    a.items[index],
                    id,
                )
            },
            None => None,
        }
    }

    /// The counter after the items of the array or struct `id` were put in
    /// the opposite order.
    pub open spec fn reverse_sequence(self, id: usize) -> Option<CounterView> {
        match self.sequence_items(id) {
            Some(a) => if a.read_only {
                None
            } else {
                Some(self.set_sequence_items(id, a.items.reverse()))
            },
            None => None,
        }
    }

    /// The counter after the array, struct or map `id` let go of everything
    /// that it held.
    pub open spec fn clear_items(self, id: usize) -> Option<CounterView> {
        if !self.live(id) || self.object(id) is Buffer || self.object(id).read_only() {
            None
        } else {
            self.set_object(id, self.object(id).emptied()).remove_references(
                self.object(id).sub_items(),
                id,
                0,
            )
        }
    }

    /// The counter after `key` was given `value` in the map `id`. For a key
    /// that the map holds, the map lets go of the old value and takes hold
    /// of the new one; else it takes hold of the key and of the value.
    /// There is no result for a key that is no primitive of at most 64
    /// bytes, and for a map in which a key lacks its value.
    pub open spec fn map_set(self, id: usize, key: ItemView, value: ItemView) -> Option<
        CounterView,
    > {
        match self.map_of(id) {
            Some(m) => if m.read_only || !valid_key(key) || !m.wf() {
                None
            } else {
                let stored = self.set_object(id, CompoundView::Mapping(m.insert(key, value)));
                match find_key(m.keys, key, 0) {
                    Some(i) => match stored.remove_reference(m.values[i], id) {
                        Some(h) => h.add_reference(value, id),
                        None => None,
                    },
                    None => match stored.add_reference(key, id) {
                        Some(h) => h.add_reference(value, id),
                        None => None,
                    },
                }
            },
            None => None,
        }
    }

    /// The counter after `key` was removed from the map `id`. Nothing
    /// changes for a key that the map does not hold.
    pub open spec fn map_remove(self, id: usize, key: ItemView) -> Option<CounterView> {
        match self.map_of(id) {
            Some(m) => if m.read_only || !valid_key(key) || !m.wf() {
                None
            } else {
                match find_key(m.keys, key, 0) {
                    Some(i) => match self.set_object(
                        id,
                        CompoundView::Mapping(m.remove(key)),
                    ).remove_reference(m.keys[i], id) {
                        Some(h) => h.remove_reference(m.values[i], id),
                        None => None,
                    },
                    None => Some(self),
                }
            },
            None => None,
        }
    }

    /// The counter after the bytes of the buffer `id` were replaced.
    pub open spec fn set_buffer(self, id: usize, bytes: Seq<u8>) -> Option<CounterView> {
        match self.buffer_of(id) {
            Some(_) => Some(self.set_object(id, CompoundView::Buffer(bytes))),
            None => None,
        }
    }
}

/// The bytes of `dst` with `count` bytes from position `at` on replaced by
/// the bytes of `src` from position `from` on.
pub open spec fn spliced(dst: Seq<u8>, at: int, src: Seq<u8>, from: int, count: int) -> Seq<u8>
    recommends
        0 <= at,
        0 <= from,
        0 <= count,
        at + count <= dst.len(),
        from + count <= src.len(),
{
    Seq::new(
        dst.len(),
        |i: int|
            if at <= i < at + count {
                src[from + (i - at)]
            } else {
                dst[i]
            },
    )
}

impl ReferenceCounter {
    /// A view of the items of the array or struct `id`.
    pub fn sequence(&self, id: usize) -> (r: Option<&Vec<StackItem>>)
        ensures
            r is Some <==> self@.sequence_items(id) is Some,
            r is Some ==> items_view(r->Some_0@) == self@.sequence_items(id)->Some_0.items,
    {
        match self.compound(id) {
            Some(VMCompound::Array(a)) => Some(&a.array),
            Some(VMCompound::Struct(s)) => Some(&s.array),
            _ => None,
        }
    }

    /// The map `id`.
    pub fn map(&self, id: usize) -> (r: Option<&VMMap>)
        ensures
            r is Some <==> self@.map_of(id) is Some,
            r is Some ==> r->Some_0@ == self@.map_of(id)->Some_0,
    {
        match self.compound(id) {
            Some(VMCompound::Mapping(m)) => Some(m),
            _ => None,
        }
    }

    /// The buffer `id`.
    pub fn buffer(&self, id: usize) -> (r: Option<&VMBuffer>)
        ensures
            r is Some <==> self@.buffer_of(id) is Some,
            r is Some ==> r->Some_0@ == self@.buffer_of(id)->Some_0,
    {
        match self.compound(id) {
            Some(VMCompound::Buffer(b)) => Some(b),
            _ => None,
        }
    }

    /// Lets the object `parent` take hold of every item from position
    /// `from` on.
    pub fn add_references(&mut self, items: &Vec<StackItem>, parent: usize) -> (ok: bool)
        ensures
            ok <==> old(self)@.add_references(items_view(items@), parent, 0) is Some,
            ok ==> final(self)@ == old(self)@.add_references(items_view(items@), parent, 0)->Some_0,
    {
        let n: usize = items.len();
        let mut i: usize = 0;
        while i < n
            invariant
                i <= n,
                n == items@.len(),
                old(self)@.add_references(items_view(items@), parent, 0) == self@.add_references(
                    items_view(items@),
                    parent,
                    i as int,
                ),
            decreases n - i,
        {
            if !self.add_reference(&items[i], parent) {
                return false;
            }
            i += 1;
        }
        true
    }

    /// Lets the object `parent` let go of every item.
    pub fn remove_references(&mut self, items: &Vec<StackItem>, parent: usize) -> (ok: bool)
        ensures
            ok <==> old(self)@.remove_references(items_view(items@), parent, 0) is Some,
            ok ==> final(self)@ == old(self)@.remove_references(
                items_view(items@),
                parent,
                0,
            )->Some_0,
    {
        let n: usize = items.len();
        let mut i: usize = 0;
        while i < n
            invariant
                i <= n,
                n == items@.len(),
                old(self)@.remove_references(items_view(items@), parent, 0)
                    == self@.remove_references(items_view(items@), parent, i as int),
            decreases n - i,
        {
            if !self.remove_reference(&items[i], parent) {
                return false;
            }
            i += 1;
        }
        true
    }

    /// Makes a new array, or a new struct, that holds `items`, and gives
    /// back its number.
    pub fn new_sequence(&mut self, items: Vec<StackItem>, as_struct: bool) -> (r: Option<usize>)
        ensures
            r is Some <==> old(self)@.new_sequence(items_view(items@), as_struct) is Some,
            r is Some ==> (final(self)@, r->Some_0) == old(self)@.new_sequence(
                items_view(items@),
                as_struct,
            )->Some_0,
    {
        let held = crate::types::compound_types::vm_array::clone_items(&items);
        let object = if as_struct {
            VMCompound::Struct(VMStruct::new(Some(items)))
        } else {
            VMCompound::Array(VMArray::new(Some(items)))
        };
        let id = self.adopt(object);
        if self.add_references(&held, id) {
            Some(id)
        } else {
            None
        }
    }

    /// Makes a new empty map and gives back its number.
    pub fn new_map(&mut self) -> (id: usize)
        ensures
            final(self)@ == old(self)@.adopt(CompoundView::Mapping(MapView::empty())),
            id == old(self)@.items.len(),
    {
        self.adopt(VMCompound::Mapping(VMMap::new()))
    }

    /// Makes a new buffer with the given bytes and gives back its number.
    pub fn new_buffer(&mut self, bytes: Vec<u8>) -> (id: usize)
        ensures
            final(self)@ == old(self)@.adopt(CompoundView::Buffer(bytes@)),
            id == old(self)@.items.len(),
    {
        self.adopt(VMCompound::Buffer(VMBuffer { bytes }))
    }

    /// Whether `id` names a live array or struct that is not frozen.
    fn writable_sequence(&self, id: usize) -> (r: bool)
        ensures
            r == (self@.sequence_items(id) is Some && !self@.sequence_items(id)->Some_0.read_only),
    {
        match self.compound(id) {
            Some(VMCompound::Array(a)) => !a.read_only,
            Some(VMCompound::Struct(s)) => !s.read_only,
            _ => false,
        }
    }

    /// Appends `item` to the array or struct `id`.
    pub fn append(&mut self, id: usize, item: StackItem) -> (ok: bool)
        ensures
            ok <==> old(self)@.append(id, item@) is Some,
            ok ==> final(self)@ == old(self)@.append(id, item@)->Some_0,
    {
        if !self.writable_sequence(id) {
            return false;
        }
        let held = item.clone();
        match &mut self.items[id].item {
            VMCompound::Array(a) => {
                a.add(item);
            },
            VMCompound::Struct(s) => {
                s.add(item);
            },
            _ => {},
        }
        assert(self@.items =~= old(self)@.set_sequence_items(
            id,
            old(self)@.sequence_items(id)->Some_0.items.push(item@),
        ).items);
        self.add_reference(&held, id)
    }

    /// Gives position `index` of the array or struct `id` the item `item`.
    pub fn set_sequence_item(&mut self, id: usize, index: usize, item: StackItem) -> (ok: bool)
        ensures
            ok <==> old(self)@.set_sequence_item(id, index as int, item@) is Some,
            ok ==> final(self)@ == old(self)@.set_sequence_item(id, index as int, item@)->Some_0,
    {
        if !self.writable_sequence(id) {
            return false;
        }
        let held = item.clone();
        let previous: StackItem;
        match &mut self.items[id].item {
            VMCompound::Array(a) => {
                if index >= a.array.len() {
                    return false;
                }
                previous = a.array[index].clone();
                a.set(index, item);
            },
            VMCompound::Struct(s) => {
                if index >= s.array.len() {
                    return false;
                }
                previous = s.array[index].clone();
                s.set(index, item);
            },
            _ => {
                return false;
            },
        }
        assert(self@.items =~= old(self)@.set_sequence_items(
            id,
            old(self)@.sequence_items(id)->Some_0.items.update(index as int, item@),
        ).items);
        if !self.remove_reference(&previous, id) {
            return false;
        }
        self.add_reference(&held, id)
    }

    /// Removes the item at `index` from the array or struct `id`.
    pub fn remove_sequence_item(&mut self, id: usize, index: usize) -> (ok: bool)
        ensures
            ok <==> old(self)@.remove_sequence_item(id, index as int) is Some,
            ok ==> final(self)@ == old(self)@.remove_sequence_item(id, index as int)->Some_0,
    {
        if !self.writable_sequence(id) {
            return false;
        }
        let previous: StackItem;
        match &mut self.items[id].item {
            VMCompound::Array(a) => {
                if index >= a.array.len() {
                    return false;
                }
                previous = a.remove_at(index);
            },
            VMCompound::Struct(s) => {
                if index >= s.array.len() {
                    return false;
                }
                previous = s.remove_at(index);
            },
            _ => {
                return false;
            },
        }
        assert(self@.items =~= old(self)@.set_sequence_items(
            id,
            old(self)@.sequence_items(id)->Some_0.items.remove(index as int),
        ).items);
        self.remove_reference(&previous, id)
    }

    /// Puts the items of the array or struct `id` in the opposite order.
    pub fn reverse_sequence(&mut self, id: usize) -> (ok: bool)
        ensures
            ok <==> old(self)@.reverse_sequence(id) is Some,
            ok ==> final(self)@ == old(self)@.reverse_sequence(id)->Some_0,
    {
        if !self.writable_sequence(id) {
            return false;
        }
        match &mut self.items[id].item {
            VMCompound::Array(a) => {
                a.reverse();
            },
            VMCompound::Struct(s) => {
                s.reverse();
            },
            _ => {},
        }
        assert(self@.items =~= old(self)@.reverse_sequence(id)->Some_0.items);
        true
    }

    /// Lets the array, struct or map `id` let go of everything that it holds.
    pub fn clear_items(&mut self, id: usize) -> (ok: bool)
        ensures
            ok <==> old(self)@.clear_items(id) is Some,
            ok ==> final(self)@ == old(self)@.clear_items(id)->Some_0,
    {
        let held: Vec<StackItem> = match self.compound(id) {
            Some(VMCompound::Array(a)) => {
                if a.read_only {
                    return false;
                }
                crate::types::compound_types::vm_array::clone_items(&a.array)
            },
            Some(VMCompound::Struct(s)) => {
                if s.read_only {
                    return false;
                }
                crate::types::compound_types::vm_array::clone_items(&s.array)
            },
            Some(VMCompound::Mapping(m)) => {
                if m.read_only {
                    return false;
                }
                let mut all = m.keys();
                let mut values = m.values();
                let ghost keys_view = items_view(all@);
                let ghost values_view = items_view(values@);
                all.append(&mut values);
                assert(items_view(all@) =~= keys_view + values_view);
                all
            },
            _ => {
                return false;
            },
        };
        self.items[id].item.cleanup();
        assert(self@.items =~= old(self)@.set_object(id, old(self)@.object(id).emptied()).items);
        self.remove_references(&held, id)
    }

    /// Gives `key` the value `value` in the map `id`.
    pub fn map_set(&mut self, id: usize, key: StackItem, value: StackItem) -> (ok: bool)
        ensures
            ok <==> old(self)@.map_set(id, key@, value@) is Some,
            ok ==> final(self)@ == old(self)@.map_set(id, key@, value@)->Some_0,
    {
        if !key_allowed(&key) {
            return false;
        }
        let held_key = key.clone();
        let held_value = value.clone();
        let previous: Option<StackItem>;
        match self.compound(id) {
            Some(VMCompound::Mapping(m)) => {
                if m.read_only {
                    return false;
                }
            },
            _ => {
                return false;
            },
        }
        match &mut self.items[id].item {
            VMCompound::Mapping(m) => {
                proof {
                    crate::types::compound_types::vm_map::lemma_find_key(m@.keys, key@, 0);
                }
                previous = m.insert(key, value);
            },
            _ => {
                return false;
            },
        }
        assert(self@.items =~= old(self)@.set_object(
            id,
            CompoundView::Mapping(old(self)@.map_of(id)->Some_0.insert(key@, value@)),
        ).items);
        match previous {
            Some(old_value) => {
                if !self.remove_reference(&old_value, id) {
                    return false;
                }
            },
            None => {
                if !self.add_reference(&held_key, id) {
                    return false;
                }
            },
        }
        self.add_reference(&held_value, id)
    }

    /// Removes `key` from the map `id`.
    pub fn map_remove(&mut self, id: usize, key: &StackItem) -> (ok: bool)
        ensures
            ok <==> old(self)@.map_remove(id, key@) is Some,
            ok ==> final(self)@ == old(self)@.map_remove(id, key@)->Some_0,
    {
        if !key_allowed(key) {
            return false;
        }
        let held_key: StackItem;
        match self.compound(id) {
            Some(VMCompound::Mapping(m)) => {
                if m.read_only {
                    return false;
                }
                proof {
                    crate::types::compound_types::vm_map::lemma_find_key(m@.keys, key@, 0);
                }
                match m.find(key) {
                    Some(i) => {
                        held_key = m.key_at(i).clone();
                    },
                    None => {
                        return true;
                    },
                }
            },
            _ => {
                return false;
            },
        }
        let removed: Option<StackItem>;
        match &mut self.items[id].item {
            VMCompound::Mapping(m) => {
                removed = m.remove(key);
            },
            _ => {
                return false;
            },
        }
        assert(self@.items =~= old(self)@.set_object(
            id,
            CompoundView::Mapping(old(self)@.map_of(id)->Some_0.remove(key@)),
        ).items);
        if !self.remove_reference(&held_key, id) {
            return false;
        }
        match removed {
            Some(v) => self.remove_reference(&v, id),
            None => false,
        }
    }

    /// Replaces the bytes of the buffer `id`.
    pub fn set_buffer(&mut self, id: usize, bytes: Vec<u8>) -> (ok: bool)
        ensures
            ok <==> old(self)@.set_buffer(id, bytes@) is Some,
            ok ==> final(self)@ == old(self)@.set_buffer(id, bytes@)->Some_0,
    {
        match self.compound(id) {
            Some(VMCompound::Buffer(_)) => {},
            _ => {
                return false;
            },
        }
        match &mut self.items[id].item {
            VMCompound::Buffer(b) => {
                b.bytes = bytes;
            },
            _ => {},
        }
        assert(self@.items =~= old(self)@.set_buffer(id, bytes@)->Some_0.items);
        true
    }
}

/// Whether the item can be a key of a map: a primitive of at most 64 bytes.
pub fn key_allowed(key: &StackItem) -> (r: bool)
    ensures
        r == valid_key(key@),
{
    match key {
        StackItem::Boolean(_) => true,
        StackItem::Integer(i) => i.size() <= 64,
        StackItem::ByteString(b) => b.len() <= 64,
        _ => false,
    }
}

/// The bytes of `dst` with `count` bytes from `at` on replaced by the bytes
/// of `src` from `from` on.
pub fn splice_bytes(dst: &[u8], at: usize, src: &[u8], from: usize, count: usize) -> (r: Vec<u8>)
    requires
        at + count <= dst@.len(),
        from + count <= src@.len(),
    ensures
        r@ == spliced(dst@, at as int, src@, from as int, count as int),
{
    let n: usize = dst.len();
    let m: usize = src.len();
    let mut out: Vec<u8> = Vec::new();
    let mut i: usize = 0;
    while i < n
        invariant
            i <= n,
            n == dst@.len(),
            m == src@.len(),
            at + count <= n,
            from + count <= m,
            out@.len() == i,
            forall|j: int|
                0 <= j < i ==> out@[j] == spliced(dst@, at as int, src@, from as int, count as int)[j],
        decreases n - i,
    {
        if i >= at && i - at < count {
            out.push(src[from + (i - at)]);
        } else {
            out.push(dst[i]);
        }
        i += 1;
    }
    assert(out@ =~= spliced(dst@, at as int, src@, from as int, count as int));
    out
}

} // verus!
