use crate::types::compound_types::vm_array::{clone_items, ArrayView, VMArray};
use crate::types::compound_types::vm_compound::{CompoundView, VMCompound};
use crate::types::compound_types::vm_map::{MapView, VMMap};
use crate::types::compound_types::vm_struct::VMStruct;
use crate::types::stack_item::{copy_bytes, items_view, ItemView, StackItem};
use crate::vm::reference_counter::{CounterView, ReferenceCounter};
use vstd::prelude::*;

verus! {

/// An object and its copy.
#[derive(Debug, Clone, Copy, PartialEq, Eq, Structural)]
pub struct CopyEntry {
    pub source: usize,
    pub copy: usize,
}

/// The copy that the first entry from `from` on records for `source`.
pub open spec fn find_copy(map: Seq<CopyEntry>, source: usize, from: int) -> Option<usize>
    decreases map.len() - from,
{
    if from < 0 || from >= map.len() {
        None
    } else if map[from].source == source {
        Some(map[from].copy)
    } else {
        find_copy(map, source, from + 1)
    }
}

/// What a deep copy gave: the counter afterwards, the copies that were
/// made so far, the copy of the item, and the budget that is left.
pub struct Copied {
    pub heap: CounterView,
    pub map: Seq<CopyEntry>,
    pub item: ItemView,
    pub rest: nat,
}

/// The item that refers to the object `id` as `like` refers to its object.
pub open spec fn retargeted(like: ItemView, id: usize) -> ItemView {
    match like {
        ItemView::Array(_) => ItemView::Array(id),
        ItemView::Struct(_) => ItemView::Struct(id),
        ItemView::Mapping(_) => ItemView::Mapping(id),
        ItemView::Buffer(_) => ItemView::Buffer(id),
        other => other,
    }
}

/// An empty object of the kind of `like`.
pub open spec fn empty_like(like: CompoundView) -> CompoundView {
    match like {
        CompoundView::Array(_) => CompoundView::Array(
            ArrayView { items: Seq::<ItemView>::empty(), read_only: false },
        ),
        CompoundView::Struct(_) => CompoundView::Struct(
            ArrayView { items: Seq::<ItemView>::empty(), read_only: false },
        ),
        CompoundView::Mapping(_) => CompoundView::Mapping(MapView::empty()),
        CompoundView::Buffer(_) => CompoundView::Buffer(Seq::<u8>::empty()),
    }
}

/// The object made read-only. A buffer stays as it is.
pub open spec fn frozen(object: CompoundView) -> CompoundView {
    match object {
        CompoundView::Array(a) => CompoundView::Array(ArrayView { read_only: true, ..a }),
        CompoundView::Struct(a) => CompoundView::Struct(ArrayView { read_only: true, ..a }),
        CompoundView::Mapping(m) => CompoundView::Mapping(MapView { read_only: true, ..m }),
        CompoundView::Buffer(b) => CompoundView::Buffer(b),
    }
}

impl CounterView {
    /// The counter with the object `id` made read-only.
    pub open spec fn freeze(self, id: usize) -> Option<CounterView> {
        if self.live(id) {
            Some(self.set_object(id, frozen(self.object(id))))
        } else {
            None
        }
    }

    /// The deep copy of `item`. A primitive, a pointer and a host object are
    /// their own copy. A buffer is copied; an immutable copy of a buffer is
    /// a byte string. An array, a struct or a map that was copied before,
    /// as `map` records, is copied by that copy, so that objects that are
    /// shared stay shared and a cycle ends. Else a new object of the same
    /// kind takes the copies of the items in their order, a map the keys
    /// with the copies of their values; an immutable copy is then made
    /// read-only. Every new array, struct or map costs one unit of the
    /// budget; there is no copy where none is left, or where an object is
    /// not live.
    pub open spec fn deep_copied(
        self,
        item: ItemView,
        map: Seq<CopyEntry>,
        as_immutable: bool,
        budget: nat,
    ) -> Option<Copied>
        decreases budget, 1nat,
    {
        match item {
            ItemView::Buffer(id) => match self.buffer_of(id) {
                Some(b) => if as_immutable {
                    Some(Copied { heap: self, map, item: ItemView::ByteString(b), rest: budget })
                } else {
                    Some(
                        Copied {
                            heap: self.adopt(CompoundView::Buffer(b)),
                            map,
                            item: ItemView::Buffer(self.items.len() as usize),
                            rest: budget,
                        },
                    )
                },
                None => None,
            },
            ItemView::Array(id) => self.copied_object(item, id, map, as_immutable, budget),
            ItemView::Struct(id) => self.copied_object(item, id, map, as_immutable, budget),
            ItemView::Mapping(id) => self.copied_object(item, id, map, as_immutable, budget),
            _ => Some(Copied { heap: self, map, item, rest: budget }),
        }
    }

    /// The deep copy of the array, struct or map `id`, to which `item`
    /// refers.
    pub open spec fn copied_object(
        self,
        item: ItemView,
        id: usize,
        map: Seq<CopyEntry>,
        as_immutable: bool,
        budget: nat,
    ) -> Option<Copied>
        decreases budget, 0nat,
    {
        match find_copy(map, id, 0) {
            Some(n) => Some(Copied { heap: self, map, item: retargeted(item, n), rest: budget }),
            None => if budget == 0 || !self.live(id) || self.object(id) is Buffer {
                None
            } else {
                let n = self.items.len() as usize;
                let started = self.adopt(empty_like(self.object(id)));
                let recorded = map.push(CopyEntry { source: id, copy: n });
                let filled = match self.object(id) {
                    CompoundView::Mapping(m) => started.copied_entries(
                        n,
                        m.keys,
                        m.values,
                        0,
                        recorded,
                        as_immutable,
                        (budget - 1) as nat,
                    ),
                    other => started.copied_items(
                        n,
                        other.sub_items(),
                        0,
                        recorded,
                        as_immutable,
                        (budget - 1) as nat,
                    ),
                };
                match filled {
                    Some(c) => if as_immutable {
                        match c.heap.freeze(n) {
                            Some(h) => Some(Copied { heap: h, item: retargeted(item, n), ..c }),
                            None => None,
                        }
                    } else {
                        Some(Copied { item: retargeted(item, n), ..c })
                    },
                    None => None,
                }
            },
        }
    }

    /// The counter after the copies of the items from position `from` on
    /// were appended to the array or struct `target`.
    pub open spec fn copied_items(
        self,
        target: usize,
        items: Seq<ItemView>,
        from: int,
        map: Seq<CopyEntry>,
        as_immutable: bool,
        budget: nat,
    ) -> Option<Copied>
        decreases budget, items.len() - from + 2,
    {
        if from < 0 || from >= items.len() {
            Some(Copied { heap: self, map, item: ItemView::Null, rest: budget })
        } else {
            match self.deep_copied(items[from], map, as_immutable, budget) {
                Some(c) => match c.heap.append(target, c.item) {
                    Some(h) => if c.rest <= budget {
                        h.copied_items(target, items, from + 1, c.map, as_immutable, c.rest)
                    } else {
                        None
                    },
                    None => None,
                },
                None => None,
            }
        }
    }

    /// The counter after the keys from position `from` on were given the
    /// copies of their values in the map `target`.
    pub open spec fn copied_entries(
        self,
        target: usize,
        keys: Seq<ItemView>,
        values: Seq<ItemView>,
        from: int,
        map: Seq<CopyEntry>,
        as_immutable: bool,
        budget: nat,
    ) -> Option<Copied>
        decreases budget, keys.len() - from + 2,
    {
        if from < 0 || from >= keys.len() || from >= values.len() {
            Some(Copied { heap: self, map, item: ItemView::Null, rest: budget })
        } else {
            match self.deep_copied(values[from], map, as_immutable, budget) {
                Some(c) => match c.heap.map_set(target, keys[from], c.item) {
                    Some(h) => if c.rest <= budget {
                        h.copied_entries(
                            target,
                            keys,
                            values,
                            from + 1,
                            c.map,
                            as_immutable,
                            c.rest,
                        )
                    } else {
                        None
                    },
                    None => None,
                },
                None => None,
            }
        }
    }
}

/// The copy that the map records for `source`.
pub fn lookup_copy(map: &Vec<CopyEntry>, source: usize) -> (r: Option<usize>)
    ensures
        r == find_copy(map@, source, 0),
{
    let n: usize = map.len();
    let mut i: usize = 0;
    while i < n
        invariant
            i <= n,
            n == map@.len(),
            find_copy(map@, source, 0) == find_copy(map@, source, i as int),
        decreases n - i,
    {
        if map[i].source == source {
            return Some(map[i].copy);
        }
        i += 1;
    }
    None
}

/// The item that refers to the object `id` as `like` refers to its object.
pub fn retarget(like: &StackItem, id: usize) -> (r: StackItem)
    ensures
        r@ == retargeted(like@, id),
{
    match like {
        StackItem::Array(_) => StackItem::Array(id),
        StackItem::Struct(_) => StackItem::Struct(id),
        StackItem::Mapping(_) => StackItem::Mapping(id),
        StackItem::Buffer(_) => StackItem::Buffer(id),
        other => other.clone(),
    }
}

impl ReferenceCounter {
    /// Makes the object `id` read-only.
    pub fn freeze(&mut self, id: usize) -> (ok: bool)
        ensures
            ok <==> old(self)@.freeze(id) is Some,
            ok ==> final(self)@ == old(self)@.freeze(id)->Some_0,
    {
        if !self.is_live(id) {
            return false;
        }
        match &mut self.items[id].item {
            VMCompound::Array(a) => {
                a.read_only();
            },
            VMCompound::Struct(s) => {
                s.read_only();
            },
            VMCompound::Mapping(m) => {
                m.read_only();
            },
            VMCompound::Buffer(_) => {},
        }
        assert(self@.items =~= old(self)@.freeze(id)->Some_0.items);
        true
    }

    /// Takes in an empty object of the kind of the object `id`.
    fn adopt_empty_like(&mut self, id: usize) -> (n: usize)
        requires
            old(self)@.live(id),
        ensures
            final(self)@ == old(self)@.adopt(empty_like(old(self)@.object(id))),
            n == old(self)@.items.len(),
    {
        let object = match &self.items[id].item {
            VMCompound::Array(_) => VMCompound::Array(VMArray::new(None)),
            VMCompound::Struct(_) => VMCompound::Struct(VMStruct::new(None)),
            VMCompound::Mapping(_) => VMCompound::Mapping(VMMap::new()),
            VMCompound::Buffer(_) => VMCompound::Buffer(
                crate::types::vm_buffer::VMBuffer { bytes: Vec::new() },
            ),
        };
        self.adopt(object)
    }
}

/// Makes the deep copy of the item.
pub fn deep_copy_item(
    heap: &mut ReferenceCounter,
    item: &StackItem,
    map: &mut Vec<CopyEntry>,
    as_immutable: bool,
    budget: usize,
) -> (r: Option<(StackItem, usize)>)
    ensures
        r is Some <==> old(heap)@.deep_copied(item@, old(map)@, as_immutable, budget as nat)
            is Some,
        r is Some ==> {
            let c = old(heap)@.deep_copied(item@, old(map)@, as_immutable, budget as nat)->Some_0;
            final(heap)@ == c.heap && final(map)@ == c.map && r->Some_0.0@ == c.item && r->Some_0.1
                == c.rest && c.rest <= budget
        },
    decreases budget, 1nat,
{
    match item {
        StackItem::Buffer(id) => {
            let bytes = match heap.buffer(*id) {
                Some(b) => b.to_vec(),
                None => {
                    return None;
                },
            };
            if as_immutable {
                Some((StackItem::ByteString(bytes), budget))
            } else {
                let n = heap.new_buffer(bytes);
                Some((StackItem::Buffer(n), budget))
            }
        },
        StackItem::Array(id) => deep_copy_object(heap, item, *id, map, as_immutable, budget),
        StackItem::Struct(id) => deep_copy_object(heap, item, *id, map, as_immutable, budget),
        StackItem::Mapping(id) => deep_copy_object(heap, item, *id, map, as_immutable, budget),
        _ => Some((item.clone(), budget)),
    }
}

/// Makes the deep copy of the array, struct or map `id`.
pub fn deep_copy_object(
    heap: &mut ReferenceCounter,
    item: &StackItem,
    id: usize,
    map: &mut Vec<CopyEntry>,
    as_immutable: bool,
    budget: usize,
) -> (r: Option<(StackItem, usize)>)
    ensures
        r is Some <==> old(heap)@.copied_object(item@, id, old(map)@, as_immutable, budget as nat)
            is Some,
        r is Some ==> {
            let c = old(heap)@.copied_object(
                item@,
                id,
                old(map)@,
                as_immutable,
                budget as nat,
            )->Some_0;
            final(heap)@ == c.heap && final(map)@ == c.map && r->Some_0.0@ == c.item && r->Some_0.1
                == c.rest && c.rest <= budget
        },
    decreases budget, 0nat,
{
    match lookup_copy(map, id) {
        Some(n) => {
            return Some((retarget(item, n), budget));
        },
        None => {},
    }
    if budget == 0 || !heap.is_live(id) {
        return None;
    }
    let is_map: bool;
    let first: Vec<StackItem>;
    let second: Vec<StackItem>;
    match heap.compound(id) {
        Some(VMCompound::Mapping(m)) => {
            is_map = true;
            first = m.keys();
            second = m.values();
        },
        Some(VMCompound::Array(a)) => {
            is_map = false;
            first = clone_items(&a.array);
            second = Vec::new();
        },
        Some(VMCompound::Struct(s)) => {
            is_map = false;
            first = clone_items(&s.array);
            second = Vec::new();
        },
        _ => {
            return None;
        },
    }
    let n = heap.adopt_empty_like(id);
    map.push(CopyEntry { source: id, copy: n });
    let rest = if is_map {
        match copy_entries(heap, n, &first, &second, 0, map, as_immutable, budget - 1) {
            Some(r) => r,
            None => {
                return None;
            },
        }
    } else {
        match copy_items(heap, n, &first, 0, map, as_immutable, budget - 1) {
            Some(r) => r,
            None => {
                return None;
            },
        }
    };
    if as_immutable {
        if !heap.freeze(n) {
            return None;
        }
    }
    Some((retarget(item, n), rest))
}

/// Appends the copies of the items from position `from` on to the array or
/// struct `target`.
pub fn copy_items(
    heap: &mut ReferenceCounter,
    target: usize,
    items: &Vec<StackItem>,
    from: usize,
    map: &mut Vec<CopyEntry>,
    as_immutable: bool,
    budget: usize,
) -> (r: Option<usize>)
    ensures
        r is Some <==> old(heap)@.copied_items(
            target,
            items_view(items@),
            from as int,
            old(map)@,
            as_immutable,
            budget as nat,
        ) is Some,
        r is Some ==> {
            let c = old(heap)@.copied_items(
                target,
                items_view(items@),
                from as int,
                old(map)@,
                as_immutable,
                budget as nat,
            )->Some_0;
            final(heap)@ == c.heap && final(map)@ == c.map && r->Some_0 == c.rest && c.rest
                <= budget
        },
    decreases budget, items@.len() - from + 2,
{
    assert(items_view(items@).len() == items@.len());
    if from >= items.len() {
        return Some(budget);
    }
    let (copy, rest) = match deep_copy_item(heap, &items[from], map, as_immutable, budget) {
        Some(c) => c,
        None => {
            return None;
        },
    };
    if !heap.append(target, copy) {
        return None;
    }
    copy_items(heap, target, items, from + 1, map, as_immutable, rest)
}

/// Gives the keys from position `from` on the copies of their values in the
/// map `target`.
pub fn copy_entries(
    heap: &mut ReferenceCounter,
    target: usize,
    keys: &Vec<StackItem>,
    values: &Vec<StackItem>,
    from: usize,
    map: &mut Vec<CopyEntry>,
    as_immutable: bool,
    budget: usize,
) -> (r: Option<usize>)
    ensures
        r is Some <==> old(heap)@.copied_entries(
            target,
            items_view(keys@),
            items_view(values@),
            from as int,
            old(map)@,
            as_immutable,
            budget as nat,
        ) is Some,
        r is Some ==> {
            let c = old(heap)@.copied_entries(
                target,
                items_view(keys@),
                items_view(values@),
                from as int,
                old(map)@,
                as_immutable,
                budget as nat,
            )->Some_0;
            final(heap)@ == c.heap && final(map)@ == c.map && r->Some_0 == c.rest && c.rest
                <= budget
        },
    decreases budget, keys@.len() - from + 2,
{
    assert(items_view(keys@).len() == keys@.len());
    assert(items_view(values@).len() == values@.len());
    if from >= keys.len() || from >= values.len() {
        return Some(budget);
    }
    let (copy, rest) = match deep_copy_item(heap, &values[from], map, as_immutable, budget) {
        Some(c) => c,
        None => {
            return None;
        },
    };
    if !heap.map_set(target, keys[from].clone(), copy) {
        return None;
    }
    copy_entries(heap, target, keys, values, from + 1, map, as_immutable, rest)
}

impl StackItem {
    /// The deep copy of the item. `ref_map` records the copies that were
    /// made, so that objects that are shared stay shared. At most as many
    /// arrays, structs and maps are copied as the counter keeps objects.
    pub fn deep_copy(
        &self,
        heap: &mut ReferenceCounter,
        ref_map: &mut Vec<CopyEntry>,
        as_immutable: bool,
    ) -> (r: Option<StackItem>)
        ensures
            r is Some <==> old(heap)@.deep_copied(
                self@,
                old(ref_map)@,
                as_immutable,
                old(heap)@.items.len(),
            ) is Some,
            r is Some ==> {
                let c = old(heap)@.deep_copied(
                    self@,
                    old(ref_map)@,
                    as_immutable,
                    old(heap)@.items.len(),
                )->Some_0;
                final(heap)@ == c.heap && final(ref_map)@ == c.map && r->Some_0@ == c.item
            },
    {
        let budget: usize = heap.len();
        match deep_copy_item(heap, self, ref_map, as_immutable, budget) {
            Some((item, _)) => Some(item),
            None => None,
        }
    }
}

} // verus!
