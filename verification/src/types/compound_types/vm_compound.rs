use crate::types::compound_types::vm_array::{ArrayView, VMArray};
use crate::types::compound_types::vm_map::{MapView, VMMap};
use crate::types::compound_types::vm_struct::VMStruct;
use crate::types::stack_item::{ItemView, StackItem};
use crate::types::stack_item_type::StackItemType;
use crate::types::vm_buffer::VMBuffer;
use vstd::prelude::*;

verus! {

/// An object that the reference counter keeps: an array, a struct, a map or
/// a buffer.
#[derive(Debug)]
pub enum VMCompound {
    Mapping(VMMap),
    Array(VMArray),
    Struct(VMStruct),
    Buffer(VMBuffer),
}

/// An object as a mathematical value.
pub enum CompoundView {
    Mapping(MapView),
    Array(ArrayView),
    Struct(ArrayView),
    Buffer(Seq<u8>),
}

impl View for VMCompound {
    type V = CompoundView;

    open spec fn view(&self) -> CompoundView {
        match self {
            VMCompound::Mapping(m) => CompoundView::Mapping(m@),
            VMCompound::Array(a) => CompoundView::Array(a@),
            VMCompound::Struct(s) => CompoundView::Struct(s@),
            VMCompound::Buffer(b) => CompoundView::Buffer(b@),
        }
    }
}

impl CompoundView {
    /// The items that the object holds: the items of an array or a struct,
    /// the keys of a map followed by its values, nothing for a buffer.
    pub open spec fn sub_items(self) -> Seq<ItemView> {
        match self {
            CompoundView::Mapping(m) => m.keys + m.values,
            CompoundView::Array(a) => a.items,
            CompoundView::Struct(a) => a.items,
            CompoundView::Buffer(_) => Seq::<ItemView>::empty(),
        }
    }

    /// The number of entries of the object: items, keys or bytes.
    pub open spec fn count(self) -> nat {
        match self {
            CompoundView::Mapping(m) => m.keys.len(),
            CompoundView::Array(a) => a.items.len(),
            CompoundView::Struct(a) => a.items.len(),
            CompoundView::Buffer(b) => b.len(),
        }
    }

    /// Whether the object is frozen. A buffer never is.
    pub open spec fn read_only(self) -> bool {
        match self {
            CompoundView::Mapping(m) => m.read_only,
            CompoundView::Array(a) => a.read_only,
            CompoundView::Struct(a) => a.read_only,
            CompoundView::Buffer(_) => false,
        }
    }

    /// The type of the items that refer to the object.
    pub open spec fn item_type(self) -> StackItemType {
        match self {
            CompoundView::Mapping(_) => StackItemType::Mapping,
            CompoundView::Array(_) => StackItemType::Array,
            CompoundView::Struct(_) => StackItemType::Struct,
            CompoundView::Buffer(_) => StackItemType::Buffer,
        }
    }

    /// The object with nothing in it.
    pub open spec fn emptied(self) -> CompoundView {
        match self {
            CompoundView::Mapping(m) => CompoundView::Mapping(
                MapView { keys: Seq::<ItemView>::empty(), values: Seq::<ItemView>::empty(), ..m },
            ),
            CompoundView::Array(a) => CompoundView::Array(
                ArrayView { items: Seq::<ItemView>::empty(), ..a },
            ),
            CompoundView::Struct(a) => CompoundView::Struct(
                ArrayView { items: Seq::<ItemView>::empty(), ..a },
            ),
            CompoundView::Buffer(_) => CompoundView::Buffer(Seq::<u8>::empty()),
        }
    }

    /// The item that refers to the object under the number `id`.
    pub open spec fn item_for(self, id: usize) -> ItemView {
        match self {
            CompoundView::Mapping(_) => ItemView::Mapping(id),
            CompoundView::Array(_) => ItemView::Array(id),
            CompoundView::Struct(_) => ItemView::Struct(id),
            CompoundView::Buffer(_) => ItemView::Buffer(id),
        }
    }
}

impl VMCompound {
    /// The number of entries of the object: items, keys or bytes.
    pub fn count(&self) -> (r: usize)
        ensures
            r == self@.count(),
    {
        match self {
            VMCompound::Mapping(m) => m.len(),
            VMCompound::Array(a) => a.count(),
            VMCompound::Struct(s) => s.count(),
            VMCompound::Buffer(b) => b.len(),
        }
    }

    pub fn is_read_only(&self) -> (r: bool)
        ensures
            r == self@.read_only(),
    {
        match self {
            VMCompound::Mapping(m) => m.is_read_only(),
            VMCompound::Array(a) => a.is_read_only(),
            VMCompound::Struct(s) => s.is_read_only(),
            VMCompound::Buffer(_) => false,
        }
    }

    pub fn get_type(&self) -> (r: StackItemType)
        ensures
            r == self@.item_type(),
    {
        match self {
            VMCompound::Mapping(_) => StackItemType::Mapping,
            VMCompound::Array(_) => StackItemType::Array,
            VMCompound::Struct(_) => StackItemType::Struct,
            VMCompound::Buffer(_) => StackItemType::Buffer,
        }
    }

    /// The item that refers to the object under the number `id`.
    pub fn item_for(&self, id: usize) -> (r: StackItem)
        ensures
            r@ == self@.item_for(id),
    {
        match self {
            VMCompound::Mapping(_) => StackItem::Mapping(id),
            VMCompound::Array(_) => StackItem::Array(id),
            VMCompound::Struct(_) => StackItem::Struct(id),
            VMCompound::Buffer(_) => StackItem::Buffer(id),
        }
    }

    /// The number of items that the object holds: the items of an array or
    /// a struct, the keys and the values of a map, none for a buffer.
    pub fn sub_items_count(&self) -> (r: u128)
        ensures
            r == self@.sub_items().len(),
    {
        match self {
            VMCompound::Mapping(m) => {
                let n: usize = m.len();
                n as u128 + n as u128
            },
            VMCompound::Array(a) => a.count() as u128,
            VMCompound::Struct(s) => s.count() as u128,
            VMCompound::Buffer(_) => 0,
        }
    }

    /// Drops everything that the object holds.
    pub fn cleanup(&mut self)
        ensures
            final(self)@ == old(self)@.emptied(),
    {
        match self {
            VMCompound::Mapping(m) => {
                m.clear();
            },
            VMCompound::Array(a) => {
                a.clear();
            },
            VMCompound::Struct(s) => {
                s.clear();
            },
            VMCompound::Buffer(b) => {
                b.bytes.clear();
            },
        }
    }
}

} // verus!
