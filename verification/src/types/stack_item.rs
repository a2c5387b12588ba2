use crate::types::compound_types::vm_compound::{CompoundView, VMCompound};
use crate::types::primitive_types::vm_integer::VMInteger;
use crate::types::stack_item_type::StackItemType;
use crate::types::vm_interop_interface::VMInteropInterface;
use crate::types::vm_pointer::VMPointer;
use vstd::prelude::*;

verus! {

/// A value as the stacks, the slots and the compound items hold it. A
/// primitive is held by value. A buffer, an array, a struct or a map is
/// held by the number under which the reference counter keeps it, so that
/// several holders share one object.
#[derive(Debug)]
pub enum StackItem {
    Null,
    Boolean(bool),
    Integer(VMInteger),
    ByteString(Vec<u8>),
    Buffer(usize),
    Pointer(VMPointer),
    Array(usize),
    Struct(usize),
    Mapping(usize),
    InteropInterface(VMInteropInterface),
}

/// A value as a mathematical value.
pub enum ItemView {
    Null,
    Boolean(bool),
    Integer(int),
    ByteString(Seq<u8>),
    Buffer(usize),
    Pointer(VMPointer),
    Array(usize),
    Struct(usize),
    Mapping(usize),
    InteropInterface(VMInteropInterface),
}

impl View for StackItem {
    type V = ItemView;

    open spec fn view(&self) -> ItemView {
        match self {
            StackItem::Null => ItemView::Null,
            StackItem::Boolean(b) => ItemView::Boolean(*b),
            StackItem::Integer(i) => ItemView::Integer(i@),
            StackItem::ByteString(b) => ItemView::ByteString(b@),
            StackItem::Buffer(id) => ItemView::Buffer(*id),
            StackItem::Pointer(p) => ItemView::Pointer(*p),
            StackItem::Array(id) => ItemView::Array(*id),
            StackItem::Struct(id) => ItemView::Struct(*id),
            StackItem::Mapping(id) => ItemView::Mapping(*id),
            StackItem::InteropInterface(o) => ItemView::InteropInterface(*o),
        }
    }
}

/// The values of a sequence of items.
pub open spec fn items_view(items: Seq<StackItem>) -> Seq<ItemView> {
    items.map_values(|i: StackItem| i@)
}

impl ItemView {
    /// The type of the value.
    pub open spec fn item_type(self) -> StackItemType {
        match self {
            ItemView::Null => StackItemType::Any,
            ItemView::Boolean(_) => StackItemType::Boolean,
            ItemView::Integer(_) => StackItemType::Integer,
            ItemView::ByteString(_) => StackItemType::ByteString,
            ItemView::Buffer(_) => StackItemType::Buffer,
            ItemView::Pointer(_) => StackItemType::Pointer,
            ItemView::Array(_) => StackItemType::Array,
            ItemView::Struct(_) => StackItemType::Struct,
            ItemView::Mapping(_) => StackItemType::Mapping,
            ItemView::InteropInterface(_) => StackItemType::InteropInterface,
        }
    }

    /// The number of the object that the value refers to, if it is a buffer,
    /// an array, a struct or a map. These are the values that the reference
    /// counter tracks.
    pub open spec fn handle(self) -> Option<usize> {
        match self {
            ItemView::Buffer(id) => Some(id),
            ItemView::Array(id) => Some(id),
            ItemView::Struct(id) => Some(id),
            ItemView::Mapping(id) => Some(id),
            _ => None,
        }
    }

    /// Whether the value is a boolean, an integer or a byte string.
    pub open spec fn is_primitive(self) -> bool {
        self is Boolean || self is Integer || self is ByteString
    }
}

/// Whether two byte vectors hold the same bytes.
pub fn bytes_equal(a: &[u8], b: &[u8]) -> (r: bool)
    ensures
        r == (a@ == b@),
{
    let n: usize = a.len();
    if n != b.len() {
        return false;
    }
    let mut i: usize = 0;
    while i < n
        invariant
            i <= n,
            n == a@.len(),
            n == b@.len(),
            a@.subrange(0, i as int) == b@.subrange(0, i as int),
        decreases n - i,
    {
        if a[i] != b[i] {
            assert(a@[i as int] != b@[i as int]);
            return false;
        }
        i += 1;
        assert(a@.subrange(0, i as int) =~= a@.subrange(0, i - 1).push(a@[i - 1]));
        assert(b@.subrange(0, i as int) =~= b@.subrange(0, i - 1).push(b@[i - 1]));
    }
    assert(a@ =~= a@.subrange(0, n as int));
    assert(b@ =~= b@.subrange(0, n as int));
    true
}

/// A copy of the bytes.
pub fn copy_bytes(a: &[u8]) -> (r: Vec<u8>)
    ensures
        r@ == a@,
{
    let n: usize = a.len();
    let mut out: Vec<u8> = Vec::new();
    let mut i: usize = 0;
    while i < n
        invariant
            i <= n,
            n == a@.len(),
            out@ == a@.subrange(0, i as int),
        decreases n - i,
    {
        out.push(a[i]);
        i += 1;
        assert(out@ =~= a@.subrange(0, i as int));
    }
    assert(out@ =~= a@);
    out
}

impl Clone for StackItem {
    /// Another holder of the same value: a primitive is copied, an object is
    /// shared.
    fn clone(&self) -> (r: Self)
        ensures
            r@ == self@,
    {
        match self {
            StackItem::Null => StackItem::Null,
            StackItem::Boolean(b) => StackItem::Boolean(*b),
            StackItem::Integer(i) => StackItem::Integer(i.clone()),
            StackItem::ByteString(b) => StackItem::ByteString(copy_bytes(b.as_slice())),
            StackItem::Buffer(id) => StackItem::Buffer(*id),
            StackItem::Pointer(p) => StackItem::Pointer(*p),
            StackItem::Array(id) => StackItem::Array(*id),
            StackItem::Struct(id) => StackItem::Struct(*id),
            StackItem::Mapping(id) => StackItem::Mapping(*id),
            StackItem::InteropInterface(o) => StackItem::InteropInterface(*o),
        }
    }
}

impl StackItem {
    /// The null item.
    pub fn new() -> (r: Self)
        ensures
            r@ == ItemView::Null,
    {
        StackItem::Null
    }

    pub fn get_type(&self) -> (r: StackItemType)
        ensures
            r == self@.item_type(),
    {
        match self {
            StackItem::Null => StackItemType::Any,
            StackItem::Boolean(_) => StackItemType::Boolean,
            StackItem::Integer(_) => StackItemType::Integer,
            StackItem::ByteString(_) => StackItemType::ByteString,
            StackItem::Buffer(_) => StackItemType::Buffer,
            StackItem::Pointer(_) => StackItemType::Pointer,
            StackItem::Array(_) => StackItemType::Array,
            StackItem::Struct(_) => StackItemType::Struct,
            StackItem::Mapping(_) => StackItemType::Mapping,
            StackItem::InteropInterface(_) => StackItemType::InteropInterface,
        }
    }

    pub fn is_null(&self) -> (r: bool)
        ensures
            r == (self@ is Null),
    {
        matches!(self, StackItem::Null)
    }

    /// The number of the object that the item refers to, if it is a buffer,
    /// an array, a struct or a map.
    pub fn handle(&self) -> (r: Option<usize>)
        ensures
            r == self@.handle(),
    {
        match self {
            StackItem::Buffer(id) => Some(*id),
            StackItem::Array(id) => Some(*id),
            StackItem::Struct(id) => Some(*id),
            StackItem::Mapping(id) => Some(*id),
            _ => None,
        }
    }

    /// Whether the item is a boolean, an integer or a byte string.
    pub fn is_primitive(&self) -> (r: bool)
        ensures
            r == self@.is_primitive(),
    {
        matches!(self, StackItem::Boolean(_) | StackItem::Integer(_) | StackItem::ByteString(_))
    }

    /// Whether both items are the same value: equal primitives, or the same
    /// object.
    pub fn same(&self, other: &StackItem) -> (r: bool)
        ensures
            r == (self@ == other@),
    {
        match (self, other) {
            (StackItem::Null, StackItem::Null) => true,
            (StackItem::Boolean(a), StackItem::Boolean(b)) => *a == *b,
            (StackItem::Integer(a), StackItem::Integer(b)) => a.equals(b),
            (StackItem::ByteString(a), StackItem::ByteString(b)) => bytes_equal(
                a.as_slice(),
                b.as_slice(),
            ),
            (StackItem::Buffer(a), StackItem::Buffer(b)) => *a == *b,
            (StackItem::Pointer(a), StackItem::Pointer(b)) => a.equals(b),
            (StackItem::Array(a), StackItem::Array(b)) => *a == *b,
            (StackItem::Struct(a), StackItem::Struct(b)) => *a == *b,
            (StackItem::Mapping(a), StackItem::Mapping(b)) => *a == *b,
            (StackItem::InteropInterface(a), StackItem::InteropInterface(b)) => a.equals(b),
            _ => false,
        }
    }
}

/// How many times one object holds another: the holder and the count.
#[derive(Clone, Copy, Debug, PartialEq, Eq, Structural)]
pub struct ObjectReferenceEntry {
    pub item: usize,
    pub references: usize,
}

/// What the reference counter records of an object.
#[derive(Debug)]
pub struct StackItemMetadata {
    /// The number of stack and slot entries that hold the object.
    pub stack_references: usize,
    /// The objects that hold the object, each with its count.
    pub object_references: Vec<ObjectReferenceEntry>,
    /// Whether the object was ever referenced.
    pub watched: bool,
    /// Whether the object was reclaimed.
    pub freed: bool,
    /// Whether the object is marked for the next collection. It waits for
    /// the collection where it is marked and has no stack reference.
    pub zero_referred: bool,
}

/// The record of an object as a mathematical value.
pub struct MetadataView {
    pub stack_references: usize,
    pub object_references: Seq<ObjectReferenceEntry>,
    pub watched: bool,
    pub freed: bool,
    /// Whether the object waits for the next collection: it is marked and
    /// no stack or slot holds it.
    pub zero_referred: bool,
}

impl View for StackItemMetadata {
    type V = MetadataView;

    open spec fn view(&self) -> MetadataView {
        MetadataView {
            stack_references: self.stack_references,
            object_references: self.object_references@,
            watched: self.watched,
            freed: self.freed,
            zero_referred: self.zero_referred && self.stack_references == 0,
        }
    }
}

impl StackItemMetadata {
    /// Whether the object waits for the next collection.
    pub fn waits(&self) -> (r: bool)
        ensures
            r == self@.zero_referred,
            r ==> self@.stack_references == 0,
    {
        self.zero_referred && self.stack_references == 0
    }
}

impl MetadataView {
    /// The record of an object that nothing refers to yet.
    pub open spec fn fresh() -> MetadataView {
        MetadataView {
            stack_references: 0,
            object_references: Seq::<ObjectReferenceEntry>::empty(),
            watched: false,
            freed: false,
            zero_referred: false,
        }
    }
}

/// An object together with its record.
#[derive(Debug)]
pub struct StackItemWrapper {
    pub item: VMCompound,
    pub metadata: StackItemMetadata,
}

/// An object with its record as a mathematical value.
pub struct WrapperView {
    pub item: CompoundView,
    pub metadata: MetadataView,
}

impl View for StackItemWrapper {
    type V = WrapperView;

    open spec fn view(&self) -> WrapperView {
        WrapperView { item: self.item@, metadata: self.metadata@ }
    }
}

impl StackItemWrapper {
    /// The object with the record of an object that nothing refers to yet.
    pub fn new(item: VMCompound) -> (r: Self)
        ensures
            r@ == (WrapperView { item: item@, metadata: MetadataView::fresh() }),
    {
        StackItemWrapper {
            item,
            metadata: StackItemMetadata {
                stack_references: 0,
                object_references: Vec::new(),
                watched: false,
                freed: false,
                zero_referred: false,
            },
        }
    }

    pub fn get_stack_references(&self) -> (r: usize)
        ensures
            r == self@.metadata.stack_references,
    {
        self.metadata.stack_references
    }

    /// Sets the number of stack references. An object that did not wait
    /// for collection does not wait afterwards, and none waits with a stack
    /// reference.
    pub fn set_stack_references(&mut self, value: usize)
        ensures
            final(self)@ == (WrapperView {
                metadata: MetadataView {
                    stack_references: value,
                    zero_referred: old(self)@.metadata.zero_referred && value == 0,
                    ..old(self)@.metadata
                },
                ..old(self)@
            }),
    {
        self.metadata.zero_referred = self.metadata.waits() && value == 0;
        self.metadata.stack_references = value;
    }

    pub fn get_object_references(&self) -> (r: &Vec<ObjectReferenceEntry>)
        ensures
            r@ == self@.metadata.object_references,
    {
        &self.metadata.object_references
    }

    pub fn set_object_references(&mut self, value: Vec<ObjectReferenceEntry>)
        ensures
            final(self)@ == (WrapperView {
                metadata: MetadataView { object_references: value@, ..old(self)@.metadata },
                ..old(self)@
            }),
    {
        self.metadata.object_references = value;
    }

    /// The holders of the object: the objects with a count above zero.
    pub fn successors(&self) -> (r: Vec<usize>)
        ensures
            r@ == spec_successors(self@.metadata.object_references),
    {
        let n: usize = self.metadata.object_references.len();
        let mut out: Vec<usize> = Vec::new();
        let mut i: usize = 0;
        while i < n
            invariant
                i <= n,
                n == self.metadata.object_references@.len(),
                out@ == spec_successors(self.metadata.object_references@.subrange(0, i as int)),
            decreases n - i,
        {
            let e = self.metadata.object_references[i];
            let ghost before = self.metadata.object_references@.subrange(0, i as int);
            if e.references > 0 {
                out.push(e.item);
            }
            i += 1;
            assert(self.metadata.object_references@.subrange(0, i as int).drop_last() =~= before);
        }
        assert(self.metadata.object_references@.subrange(0, n as int)
            =~= self.metadata.object_references@);
        out
    }

    pub fn is_watched(&self) -> (r: bool)
        ensures
            r == self@.metadata.watched,
    {
        self.metadata.watched
    }

    pub fn is_freed(&self) -> (r: bool)
        ensures
            r == self@.metadata.freed,
    {
        self.metadata.freed
    }
}

/// The holders named by the entries with a count above zero, in order.
pub open spec fn spec_successors(refs: Seq<ObjectReferenceEntry>) -> Seq<usize>
    decreases refs.len(),
{
    if refs.len() == 0 {
        Seq::<usize>::empty()
    } else if refs.last().references > 0 {
        spec_successors(refs.drop_last()).push(refs.last().item)
    } else {
        spec_successors(refs.drop_last())
    }
}

} // verus!
