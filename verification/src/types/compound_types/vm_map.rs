use crate::types::primitive_types::vm_integer::integer_span;
use crate::types::stack_item::{items_view, ItemView, StackItem};
use vstd::prelude::*;

verus! {

/// The contents of a map as a mathematical value: the keys in the order in
/// which they were first inserted, and the value of each key.
pub struct MapView {
    pub keys: Seq<ItemView>,
    pub values: Seq<ItemView>,
    pub read_only: bool,
}

/// The number of bytes of a key.
pub open spec fn key_size(key: ItemView) -> nat {
    match key {
        ItemView::Boolean(_) => 1,
        ItemView::Integer(v) => integer_span(v).len(),
        ItemView::ByteString(b) => b.len(),
        _ => 0,
    }
}

/// Whether the value can be a key: a primitive of at most 64 bytes.
pub open spec fn valid_key(key: ItemView) -> bool {
    key.is_primitive() && key_size(key) <= 64
}

/// The first position from `from` on at which `keys` holds `key`.
pub open spec fn find_key(keys: Seq<ItemView>, key: ItemView, from: int) -> Option<int>
    decreases keys.len() - from,
{
    if from < 0 || from >= keys.len() {
        None
    } else if keys[from] == key {
        Some(from)
    } else {
        find_key(keys, key, from + 1)
    }
}

/// A position that `find_key` gives lies in the sequence and holds the key.
pub proof fn lemma_find_key(keys: Seq<ItemView>, key: ItemView, from: int)
    requires
        0 <= from,
    ensures
        match find_key(keys, key, from) {
            Some(i) => from <= i < keys.len() && keys[i] == key,
            None => forall|j: int| from <= j < keys.len() ==> keys[j] != key,
        },
    decreases keys.len() - from,
{
    if from < keys.len() && keys[from] != key {
        lemma_find_key(keys, key, from + 1);
    }
}

impl MapView {
    /// The map without keys.
    pub open spec fn empty() -> MapView {
        MapView {
            keys: Seq::<ItemView>::empty(),
            values: Seq::<ItemView>::empty(),
            read_only: false,
        }
    }

    /// Whether every key has a value.
    pub open spec fn wf(self) -> bool {
        self.keys.len() == self.values.len()
    }

    /// The value of `key`, if the map holds the key.
    pub open spec fn get(self, key: ItemView) -> Option<ItemView> {
        match find_key(self.keys, key, 0) {
            Some(i) => Some(self.values[i]),
            None => None,
        }
    }

    /// The map after `key` was given `value`: the value of a key that the
    /// map holds is replaced, a new key is added at the end.
    pub open spec fn insert(self, key: ItemView, value: ItemView) -> MapView {
        match find_key(self.keys, key, 0) {
            Some(i) => MapView { values: self.values.update(i, value), ..self },
            None => MapView {
                keys: self.keys.push(key),
                values: self.values.push(value),
                ..self
            },
        }
    }

    /// The map without `key`.
    pub open spec fn remove(self, key: ItemView) -> MapView {
        match find_key(self.keys, key, 0) {
            Some(i) => MapView { keys: self.keys.remove(i), values: self.values.remove(i), ..self },
            None => self,
        }
    }
}

/// One key of a map with its value.
#[derive(Debug)]
pub struct MapEntry {
    pub key: StackItem,
    pub value: StackItem,
}

/// The keys of the entries.
pub open spec fn entry_keys(entries: Seq<MapEntry>) -> Seq<ItemView> {
    entries.map_values(|e: MapEntry| e.key@)
}

/// The values of the entries.
pub open spec fn entry_values(entries: Seq<MapEntry>) -> Seq<ItemView> {
    entries.map_values(|e: MapEntry| e.value@)
}

/// A mapping from primitive keys to items that remembers the order in
/// which the keys were inserted.
#[derive(Debug)]
pub struct VMMap {
    pub entries: Vec<MapEntry>,
    pub read_only: bool,
}

impl View for VMMap {
    type V = MapView;

    open spec fn view(&self) -> MapView {
        MapView {
            keys: entry_keys(self.entries@),
            values: entry_values(self.entries@),
            read_only: self.read_only,
        }
    }
}

impl Clone for VMMap {
    fn clone(&self) -> (r: Self)
        ensures
            r@ == self@,
    {
        let n: usize = self.entries.len();
        let mut out: Vec<MapEntry> = Vec::new();
        let mut i: usize = 0;
        while i < n
            invariant
                i <= n,
                n == self.entries@.len(),
                out@.len() == i,
                forall|j: int|
                    0 <= j < i ==> out@[j].key@ == self.entries@[j].key@ && out@[j].value@
                        == self.entries@[j].value@,
            decreases n - i,
        {
            out.push(
                MapEntry { key: self.entries[i].key.clone(), value: self.entries[i].value.clone() },
            );
            i += 1;
        }
        assert(entry_keys(out@) =~= entry_keys(self.entries@));
        assert(entry_values(out@) =~= entry_values(self.entries@));
        VMMap { entries: out, read_only: self.read_only }
    }
}

impl VMMap {
    /// The largest number of bytes of a key.
    pub const MAX_KEY_SIZE: usize = 64;

    /// An empty map.
    pub fn new() -> (r: Self)
        ensures
            r@ == MapView::empty(),
    {
        assert(entry_keys(Seq::<MapEntry>::empty()) =~= Seq::<ItemView>::empty());
        assert(entry_values(Seq::<MapEntry>::empty()) =~= Seq::<ItemView>::empty());
        VMMap { entries: Vec::new(), read_only: false }
    }

    /// The number of keys. Every key has a value.
    pub fn len(&self) -> (r: usize)
        ensures
            r == self@.keys.len(),
            self@.wf(),
    {
        self.entries.len()
    }

    pub fn is_empty(&self) -> (r: bool)
        ensures
            r == (self@.keys.len() == 0),
    {
        self.entries.len() == 0
    }

    pub fn is_read_only(&self) -> (r: bool)
        ensures
            r == self@.read_only,
    {
        self.read_only
    }

    /// Freezes the map.
    pub fn read_only(&mut self)
        ensures
            final(self)@ == (MapView { read_only: true, ..old(self)@ }),
    {
        self.read_only = true;
    }

    /// The position of `key` among the keys.
    pub fn find(&self, key: &StackItem) -> (r: Option<usize>)
        ensures
            match r {
                Some(i) => find_key(self@.keys, key@, 0) == Some(i as int) && i < self@.keys.len(),
                None => find_key(self@.keys, key@, 0) is None,
            },
    {
        let n: usize = self.entries.len();
        let mut i: usize = 0;
        while i < n
            invariant
                i <= n,
                n == self.entries@.len(),
                find_key(entry_keys(self.entries@), key@, 0) == find_key(
                    entry_keys(self.entries@),
                    key@,
                    i as int,
                ),
            decreases n - i,
        {
            if self.entries[i].key.same(key) {
                return Some(i);
            }
            i += 1;
        }
        None
    }

    pub fn contains_key(&self, key: &StackItem) -> (r: bool)
        ensures
            r == (self@.get(key@) is Some),
    {
        self.find(key).is_some()
    }

    /// The value of `key`.
    pub fn get(&self, key: &StackItem) -> (r: Option<&StackItem>)
        ensures
            match r {
                Some(v) => self@.get(key@) == Some(v@),
                None => self@.get(key@) is None,
            },
    {
        match self.find(key) {
            Some(i) => Some(&self.entries[i].value),
            None => None,
        }
    }

    /// The key at position `index`.
    pub fn key_at(&self, index: usize) -> (r: &StackItem)
        requires
            index < self@.keys.len(),
        ensures
            r@ == self@.keys[index as int],
    {
        &self.entries[index].key
    }

    /// The value at position `index`.
    pub fn value_at(&self, index: usize) -> (r: &StackItem)
        requires
            index < self@.keys.len(),
        ensures
            r@ == self@.values[index as int],
    {
        &self.entries[index].value
    }

    /// Gives `key` the value `value` and gives back the value that it had.
    pub fn insert(&mut self, key: StackItem, value: StackItem) -> (r: Option<StackItem>)
        ensures
            final(self)@ == old(self)@.insert(key@, value@),
            match r {
                Some(v) => old(self)@.get(key@) == Some(v@),
                None => old(self)@.get(key@) is None,
            },
    {
        match self.find(&key) {
            Some(i) => {
                let previous = self.entries[i].value.clone();
                let kept = self.entries[i].key.clone();
                self.entries.set(i, MapEntry { key: kept, value });
                assert(entry_keys(self.entries@) =~= entry_keys(old(self).entries@));
                assert(entry_values(self.entries@) =~= entry_values(old(self).entries@).update(
                    i as int,
                    value@,
                ));
                Some(previous)
            },
            None => {
                self.entries.push(MapEntry { key, value });
                assert(entry_keys(self.entries@) =~= entry_keys(old(self).entries@).push(key@));
                assert(entry_values(self.entries@) =~= entry_values(old(self).entries@).push(
                    value@,
                ));
                None
            },
        }
    }

    /// Removes `key` and gives back the value that it had.
    pub fn remove(&mut self, key: &StackItem) -> (r: Option<StackItem>)
        ensures
            final(self)@ == old(self)@.remove(key@),
            match r {
                Some(v) => old(self)@.get(key@) == Some(v@),
                None => old(self)@.get(key@) is None,
            },
    {
        match self.find(key) {
            Some(i) => {
                let e = self.entries.remove(i);
                assert(entry_keys(self.entries@) =~= entry_keys(old(self).entries@).remove(
                    i as int,
                ));
                assert(entry_values(self.entries@) =~= entry_values(old(self).entries@).remove(
                    i as int,
                ));
                Some(e.value)
            },
            None => None,
        }
    }

    /// Removes all keys.
    pub fn clear(&mut self)
        ensures
            final(self)@ == (MapView {
                keys: Seq::<ItemView>::empty(),
                values: Seq::<ItemView>::empty(),
                ..old(self)@
            }),
    {
        self.entries.clear();
        assert(entry_keys(self.entries@) =~= Seq::<ItemView>::empty());
        assert(entry_values(self.entries@) =~= Seq::<ItemView>::empty());
    }

    /// The keys in the order of their insertion.
    pub fn keys(&self) -> (r: Vec<StackItem>)
        ensures
            items_view(r@) == self@.keys,
    {
        let n: usize = self.entries.len();
        let mut out: Vec<StackItem> = Vec::new();
        let mut i: usize = 0;
        while i < n
            invariant
                i <= n,
                n == self.entries@.len(),
                out@.len() == i,
                forall|j: int| 0 <= j < i ==> out@[j]@ == self.entries@[j].key@,
            decreases n - i,
        {
            out.push(self.entries[i].key.clone());
            i += 1;
        }
        assert(items_view(out@) =~= entry_keys(self.entries@));
        out
    }

    /// The values in the order of their keys.
    pub fn values(&self) -> (r: Vec<StackItem>)
        ensures
            items_view(r@) == self@.values,
    {
        let n: usize = self.entries.len();
        let mut out: Vec<StackItem> = Vec::new();
        let mut i: usize = 0;
        while i < n
            invariant
                i <= n,
                n == self.entries@.len(),
                out@.len() == i,
                forall|j: int| 0 <= j < i ==> out@[j]@ == self.entries@[j].value@,
            decreases n - i,
        {
            out.push(self.entries[i].value.clone());
            i += 1;
        }
        assert(items_view(out@) =~= entry_values(self.entries@));
        out
    }
}

} // verus!
