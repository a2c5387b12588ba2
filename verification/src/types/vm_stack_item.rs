use crate::big_integer::signed_le;
use crate::types::compound_types::vm_array::clone_items;
use crate::types::compound_types::vm_compound::{CompoundView, VMCompound};
use crate::types::primitive_types::vm_integer::{fits_integer, integer_span, VMInteger};
use crate::types::stack_item::{bytes_equal, copy_bytes, items_view, ItemView, StackItem};
use crate::types::stack_item_type::StackItemType;
use crate::vm::reference_counter::{CounterView, ReferenceCounter};
use vstd::prelude::*;

verus! {

/// Whether some byte is not zero.
pub open spec fn any_nonzero(bytes: Seq<u8>) -> bool {
    exists|i: int| 0 <= i < bytes.len() && bytes[i] != 0
}

/// The byte of a truth value.
pub open spec fn bool_span(b: bool) -> Seq<u8> {
    if b {
        seq![1u8]
    } else {
        seq![0u8]
    }
}

impl CounterView {
    /// The bytes of a boolean, an integer, a byte string or a live buffer.
    /// Other items have none.
    pub open spec fn span_of(self, item: ItemView) -> Option<Seq<u8>> {
        match item {
            ItemView::Boolean(b) => Some(bool_span(b)),
            ItemView::Integer(v) => Some(integer_span(v)),
            ItemView::ByteString(b) => Some(b),
            ItemView::Buffer(id) => self.buffer_of(id),
            _ => None,
        }
    }

    /// The truth value of an item: null is false, a boolean is itself, an
    /// integer is true unless it is zero, bytes are true if one of them is
    /// not zero, everything else is true. A buffer that is not live has
    /// none.
    pub open spec fn boolean_of(self, item: ItemView) -> Option<bool> {
        match item {
            ItemView::Null => Some(false),
            ItemView::Boolean(b) => Some(b),
            ItemView::Integer(v) => Some(v != 0),
            ItemView::ByteString(b) => Some(any_nonzero(b)),
            ItemView::Buffer(id) => match self.buffer_of(id) {
                Some(b) => Some(any_nonzero(b)),
                None => None,
            },
            _ => Some(true),
        }
    }

    /// The number that an item stands for: 0 or 1 for a boolean, the value
    /// of an integer, and for at most 32 bytes the number that they encode
    /// in two's complement, least significant byte first. Other items stand
    /// for no number.
    pub open spec fn integer_of(self, item: ItemView) -> Option<int> {
        match item {
            ItemView::Boolean(b) => Some(if b { 1int } else { 0int }),
            ItemView::Integer(v) => Some(v),
            ItemView::ByteString(b) => bytes_integer(b),
            ItemView::Buffer(id) => match self.buffer_of(id) {
                Some(b) => bytes_integer(b),
                None => None,
            },
            _ => None,
        }
    }

    /// The item converted to the type `ty`, and the counter afterwards (a
    /// conversion to a buffer, an array or a struct makes a new object).
    /// An item of the type `ty` is returned as it is. Apart from that:
    /// null converts to nothing; everything converts to a boolean, its truth
    /// value; booleans, integers, byte strings and buffers convert to an
    /// integer, the number they stand for, and to a byte string, their
    /// bytes; byte strings convert to a buffer; arrays and structs convert
    /// into each other, keeping their items.
    pub open spec fn convert(self, item: ItemView, ty: StackItemType) -> Option<
        (CounterView, ItemView),
    > {
        if item.item_type() == ty {
            Some((self, item))
        } else if item is Null {
            None
        } else {
            match ty {
                StackItemType::Boolean => match self.boolean_of(item) {
                    Some(b) => Some((self, ItemView::Boolean(b))),
                    None => None,
                },
                StackItemType::Integer => match self.integer_of(item) {
                    Some(v) => Some((self, ItemView::Integer(v))),
                    None => None,
                },
                StackItemType::ByteString => match self.span_of(item) {
                    Some(b) => Some((self, ItemView::ByteString(b))),
                    None => None,
                },
                StackItemType::Buffer => match item {
                    ItemView::ByteString(b) => Some(
                        (
                            self.adopt(CompoundView::Buffer(b)),
                            ItemView::Buffer(self.items.len() as usize),
                        ),
                    ),
                    _ => None,
                },
                StackItemType::Array => match item {
                    ItemView::Struct(id) => match self.sequence_items(id) {
                        Some(a) => match self.new_sequence(a.items, false) {
                            Some((h, n)) => Some((h, ItemView::Array(n))),
                            None => None,
                        },
                        None => None,
                    },
                    _ => None,
                },
                StackItemType::Struct => match item {
                    ItemView::Array(id) => match self.sequence_items(id) {
                        Some(a) => match self.new_sequence(a.items, true) {
                            Some((h, n)) => Some((h, ItemView::Struct(n))),
                            None => None,
                        },
                        None => None,
                    },
                    _ => None,
                },
                _ => None,
            }
        }
    }
}

/// The number that at most 32 bytes encode.
pub open spec fn bytes_integer(b: Seq<u8>) -> Option<int> {
    if b.len() <= 32 && fits_integer(signed_le(b)) {
        Some(signed_le(b))
    } else {
        None
    }
}

/// Whether some byte is not zero.
pub fn has_nonzero(bytes: &[u8]) -> (r: bool)
    ensures
        r == any_nonzero(bytes@),
{
    let n: usize = bytes.len();
    let mut i: usize = 0;
    while i < n
        invariant
            i <= n,
            n == bytes@.len(),
            forall|j: int| 0 <= j < i ==> bytes@[j] == 0,
        decreases n - i,
    {
        if bytes[i] != 0 {
            return true;
        }
        i += 1;
    }
    false
}

/// The integer that at most 32 bytes encode.
pub fn integer_from_bytes(bytes: &[u8]) -> (r: Option<VMInteger>)
    ensures
        r is Some <==> bytes_integer(bytes@) is Some,
        r is Some ==> r->Some_0@ == bytes_integer(bytes@)->Some_0,
{
    if bytes.len() > 32 {
        None
    } else {
        VMInteger::from_signed_bytes_le(bytes)
    }
}

impl StackItem {
    /// The host object that the item stands for, if it stands for one.
    pub fn get_interface(&self) -> (r: Option<crate::types::vm_interop_interface::VMInteropInterface>)
        ensures
            r == match self@ {
                ItemView::InteropInterface(o) => Some(o),
                _ => None,
            },
    {
        match self {
            StackItem::InteropInterface(o) => Some(*o),
            _ => None,
        }
    }

    /// The text that the bytes of a byte string or a live buffer encode in
    /// UTF-8, if they encode one.
    pub fn get_string(&self, heap: &ReferenceCounter) -> (r: Option<String>)
        ensures
            match self@ {
                ItemView::ByteString(b) => r is Some <==> vstd::utf8::valid_utf8(b),
                ItemView::Buffer(id) => r is Some <==> heap@.buffer_of(id) is Some
                    && vstd::utf8::valid_utf8(heap@.buffer_of(id)->Some_0),
                _ => r is None,
            },
            r is Some ==> r->Some_0@ == vstd::utf8::decode_utf8(heap@.span_of(self@)->Some_0),
    {
        match self {
            StackItem::ByteString(b) => crate::utility::strict_utf8_decode(b.as_slice()),
            StackItem::Buffer(id) => match heap.buffer(*id) {
                Some(b) => crate::utility::strict_utf8_decode(b.as_slice()),
                None => None,
            },
            _ => None,
        }
    }

    /// The bytes of the item.
    pub fn get_span(&self, heap: &ReferenceCounter) -> (r: Option<Vec<u8>>)
        ensures
            r is Some <==> heap@.span_of(self@) is Some,
            r is Some ==> r->Some_0@ == heap@.span_of(self@)->Some_0,
    {
        match self {
            StackItem::Boolean(b) => {
                let mut v: Vec<u8> = Vec::new();
                v.push(if *b { 1u8 } else { 0u8 });
                assert(v@ =~= bool_span(*b));
                Some(v)
            },
            StackItem::Integer(i) => Some(i.get_slice()),
            StackItem::ByteString(b) => Some(copy_bytes(b.as_slice())),
            StackItem::Buffer(id) => match heap.buffer(*id) {
                Some(b) => Some(b.to_vec()),
                None => None,
            },
            _ => None,
        }
    }

    /// The truth value of the item.
    pub fn get_boolean(&self, heap: &ReferenceCounter) -> (r: Option<bool>)
        ensures
            r == heap@.boolean_of(self@),
    {
        match self {
            StackItem::Null => Some(false),
            StackItem::Boolean(b) => Some(*b),
            StackItem::Integer(i) => Some(i.get_boolean()),
            StackItem::ByteString(b) => Some(has_nonzero(b.as_slice())),
            StackItem::Buffer(id) => match heap.buffer(*id) {
                Some(b) => Some(has_nonzero(b.as_slice())),
                None => None,
            },
            _ => Some(true),
        }
    }

    /// The number that the item stands for.
    pub fn get_integer(&self, heap: &ReferenceCounter) -> (r: Option<VMInteger>)
        ensures
            r is Some <==> heap@.integer_of(self@) is Some,
            r is Some ==> r->Some_0@ == heap@.integer_of(self@)->Some_0,
    {
        match self {
            StackItem::Boolean(b) => Some(VMInteger::from_bool(*b)),
            StackItem::Integer(i) => Some(i.clone()),
            StackItem::ByteString(b) => integer_from_bytes(b.as_slice()),
            StackItem::Buffer(id) => match heap.buffer(*id) {
                Some(b) => integer_from_bytes(b.as_slice()),
                None => None,
            },
            _ => None,
        }
    }

    /// The item converted to the type `item_type`.
    pub fn convert_to(&self, item_type: StackItemType, heap: &mut ReferenceCounter) -> (r: Option<
        StackItem,
    >)
        ensures
            r is Some <==> old(heap)@.convert(self@, item_type) is Some,
            r is Some ==> (final(heap)@, r->Some_0@) == old(heap)@.convert(self@, item_type)->Some_0,
    {
        if self.get_type() == item_type {
            return Some(self.clone());
        }
        if self.is_null() {
            return None;
        }
        match item_type {
            StackItemType::Boolean => match self.get_boolean(heap) {
                Some(b) => Some(StackItem::Boolean(b)),
                None => None,
            },
            StackItemType::Integer => match self.get_integer(heap) {
                Some(v) => Some(StackItem::Integer(v)),
                None => None,
            },
            StackItemType::ByteString => match self.get_span(heap) {
                Some(b) => Some(StackItem::ByteString(b)),
                None => None,
            },
            StackItemType::Buffer => match self {
                StackItem::ByteString(b) => {
                    let id = heap.new_buffer(copy_bytes(b.as_slice()));
                    Some(StackItem::Buffer(id))
                },
                _ => None,
            },
            StackItemType::Array => match self {
                StackItem::Struct(id) => {
                    let items = match heap.sequence(*id) {
                        Some(v) => clone_items(v),
                        None => {
                            return None;
                        },
                    };
                    match heap.new_sequence(items, false) {
                        Some(n) => Some(StackItem::Array(n)),
                        None => None,
                    }
                },
                _ => None,
            },
            StackItemType::Struct => match self {
                StackItem::Array(id) => {
                    let items = match heap.sequence(*id) {
                        Some(v) => clone_items(v),
                        None => {
                            return None;
                        },
                    };
                    match heap.new_sequence(items, true) {
                        Some(n) => Some(StackItem::Struct(n)),
                        None => None,
                    }
                },
                _ => None,
            },
            _ => None,
        }
    }
}

/// The verdict of a comparison, with the budget that is left.
pub struct Compared {
    /// Whether the items are equal; `None` where the comparison gave up.
    pub equal: Option<bool>,
    /// The number of pairs that may still be visited.
    pub rest: nat,
}

impl CounterView {
    /// Whether `a` and `b` are equal, where at most `budget` pairs of items
    /// may be visited and byte strings of more than `max_bytes` bytes are
    /// not compared. Two structs are equal if they are the same object, or
    /// have equally many fields that are equal one by one. Two byte strings,
    /// and two buffers, are equal if they hold the same bytes. Every other
    /// pair is equal if it is the same value: the same boolean, number,
    /// pointer or host object, the same array or map, or null twice. The
    /// comparison gives up where the budget runs out, where a byte string is
    /// too long, and where a struct or a buffer is not live.
    pub open spec fn equals(self, a: ItemView, b: ItemView, budget: nat, max_bytes: nat) -> Compared
        decreases budget, 0nat,
    {
        if budget == 0 {
            Compared { equal: None, rest: 0 }
        } else {
            let rest = (budget - 1) as nat;
            match (a, b) {
                (ItemView::Struct(x), ItemView::Struct(y)) => if x == y {
                    Compared { equal: Some(true), rest }
                } else {
                    match (self.sequence_items(x), self.sequence_items(y)) {
                        (Some(u), Some(v)) => if u.items.len() != v.items.len() {
                            Compared { equal: Some(false), rest }
                        } else {
                            self.equals_from(u.items, v.items, 0, rest, max_bytes)
                        },
                        _ => Compared { equal: None, rest: 0 },
                    }
                },
                (ItemView::ByteString(p), ItemView::ByteString(q)) => if p.len() > max_bytes
                    || q.len() > max_bytes {
                    Compared { equal: None, rest: 0 }
                } else {
                    Compared { equal: Some(p == q), rest }
                },
                (ItemView::Buffer(x), ItemView::Buffer(y)) => match (
                    self.buffer_of(x),
                    self.buffer_of(y),
                ) {
                    (Some(p), Some(q)) => Compared { equal: Some(p == q), rest },
                    _ => Compared { equal: None, rest: 0 },
                },
                _ => Compared { equal: Some(a == b), rest },
            }
        }
    }

    /// Whether the items of `xs` and `ys` from position `from` on are equal
    /// one by one. The comparison stops at the first pair that is not equal
    /// or on which it gives up.
    pub open spec fn equals_from(
        self,
        xs: Seq<ItemView>,
        ys: Seq<ItemView>,
        from: int,
        budget: nat,
        max_bytes: nat,
    ) -> Compared
        decreases budget, xs.len() - from,
    {
        if from < 0 || from >= xs.len() || from >= ys.len() {
            Compared { equal: Some(true), rest: budget }
        } else {
            let first = self.equals(xs[from], ys[from], budget, max_bytes);
            if first.equal == Some(true) && first.rest <= budget {
                self.equals_from(xs, ys, from + 1, first.rest, max_bytes)
            } else {
                first
            }
        }
    }
}

/// Compares two items within a budget.
pub fn equals_within(
    heap: &ReferenceCounter,
    a: &StackItem,
    b: &StackItem,
    budget: usize,
    max_bytes: usize,
) -> (r: (Option<bool>, usize))
    ensures
        r.0 == heap@.equals(a@, b@, budget as nat, max_bytes as nat).equal,
        r.1 == heap@.equals(a@, b@, budget as nat, max_bytes as nat).rest,
        r.1 <= budget,
    decreases budget, 0nat,
{
    if budget == 0 {
        return (None, 0);
    }
    let rest: usize = budget - 1;
    match (a, b) {
        (StackItem::Struct(x), StackItem::Struct(y)) => {
            if *x == *y {
                return (Some(true), rest);
            }
            match (heap.sequence(*x), heap.sequence(*y)) {
                (Some(u), Some(v)) => {
                    if u.len() != v.len() {
                        assert(items_view(u@).len() == u@.len());
                        assert(items_view(v@).len() == v@.len());
                        (Some(false), rest)
                    } else {
                        fields_equal_from(heap, u, v, 0, rest, max_bytes)
                    }
                },
                _ => (None, 0),
            }
        },
        (StackItem::ByteString(p), StackItem::ByteString(q)) => {
            if p.len() > max_bytes || q.len() > max_bytes {
                (None, 0)
            } else {
                (Some(bytes_equal(p.as_slice(), q.as_slice())), rest)
            }
        },
        (StackItem::Buffer(x), StackItem::Buffer(y)) => {
            match (heap.buffer(*x), heap.buffer(*y)) {
                (Some(p), Some(q)) => (Some(bytes_equal(p.as_slice(), q.as_slice())), rest),
                _ => (None, 0),
            }
        },
        _ => (Some(a.same(b)), rest),
    }
}

/// Compares the items of two sequences one by one within a budget.
pub fn fields_equal_from(
    heap: &ReferenceCounter,
    xs: &Vec<StackItem>,
    ys: &Vec<StackItem>,
    from: usize,
    budget: usize,
    max_bytes: usize,
) -> (r: (Option<bool>, usize))
    ensures
        r.0 == heap@.equals_from(
            items_view(xs@),
            items_view(ys@),
            from as int,
            budget as nat,
            max_bytes as nat,
        ).equal,
        r.1 == heap@.equals_from(
            items_view(xs@),
            items_view(ys@),
            from as int,
            budget as nat,
            max_bytes as nat,
        ).rest,
        r.1 <= budget,
    decreases budget, xs@.len() - from,
{
    assert(items_view(xs@).len() == xs@.len());
    assert(items_view(ys@).len() == ys@.len());
    if from >= xs.len() || from >= ys.len() {
        return (Some(true), budget);
    }
    let first = equals_within(heap, &xs[from], &ys[from], budget, max_bytes);
    match first.0 {
        Some(true) => fields_equal_from(heap, xs, ys, from + 1, first.1, max_bytes),
        _ => first,
    }
}

impl StackItem {
    /// Whether the item equals `other` by the rules of the machine, where
    /// the comparison may visit as many pairs as the limits allow. `None`
    /// where the comparison gives up.
    pub fn equals(
        &self,
        other: &StackItem,
        heap: &ReferenceCounter,
        limits: &crate::vm::execution_engine_limits::ExecutionEngineLimits,
    ) -> (r: Option<bool>)
        ensures
            r == heap@.equals(
                self@,
                other@,
                limits.spec_compare_budget(),
                limits.max_comparable_size as nat,
            ).equal,
    {
        equals_within(heap, self, other, limits.compare_budget(), limits.max_comparable_size).0
    }
}

} // verus!
