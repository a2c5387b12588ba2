use crate::types::primitive_types::vm_boolean::VMBoolean;
use crate::types::primitive_types::vm_byte_string::VMByteString;
use crate::types::primitive_types::vm_integer::{integer_span, VMInteger};
use crate::types::stack_item::{ItemView, StackItem};
use crate::types::stack_item_type::StackItemType;
use crate::types::vm_stack_item::bool_span;
use vstd::prelude::*;

verus! {

/// A value that can be a key of a map: a boolean, a byte string or an
/// integer.
#[derive(Debug)]
pub enum VMPrimitive {
    Boolean(VMBoolean),
    ByteString(VMByteString),
    Integer(VMInteger),
}

impl View for VMPrimitive {
    type V = ItemView;

    open spec fn view(&self) -> ItemView {
        match self {
            VMPrimitive::Boolean(b) => ItemView::Boolean(b.value),
            VMPrimitive::ByteString(b) => ItemView::ByteString(b@),
            VMPrimitive::Integer(i) => ItemView::Integer(i@),
        }
    }
}

/// The bytes of a primitive.
pub open spec fn primitive_span(item: ItemView) -> Seq<u8> {
    match item {
        ItemView::Boolean(b) => bool_span(b),
        ItemView::ByteString(b) => b,
        ItemView::Integer(v) => integer_span(v),
        _ => Seq::<u8>::empty(),
    }
}

impl VMPrimitive {
    pub fn from_boolean(value: VMBoolean) -> (r: Self)
        ensures
            r@ == ItemView::Boolean(value.value),
    {
        VMPrimitive::Boolean(value)
    }

    pub fn from_byte_string(value: VMByteString) -> (r: Self)
        ensures
            r@ == ItemView::ByteString(value@),
    {
        VMPrimitive::ByteString(value)
    }

    pub fn from_integer(value: VMInteger) -> (r: Self)
        ensures
            r@ == ItemView::Integer(value@),
    {
        VMPrimitive::Integer(value)
    }

    /// The stack item that holds the value.
    pub fn into(self) -> (r: StackItem)
        ensures
            r@ == self@,
    {
        match self {
            VMPrimitive::Boolean(b) => b.to_item(),
            VMPrimitive::ByteString(b) => b.to_item(),
            VMPrimitive::Integer(i) => StackItem::Integer(i),
        }
    }

    pub fn get_type(&self) -> (r: StackItemType)
        ensures
            r == self@.item_type(),
    {
        match self {
            VMPrimitive::Boolean(_) => StackItemType::Boolean,
            VMPrimitive::ByteString(_) => StackItemType::ByteString,
            VMPrimitive::Integer(_) => StackItemType::Integer,
        }
    }

    /// The bytes of the value.
    pub fn memory(&self) -> (r: Vec<u8>)
        ensures
            r@ == primitive_span(self@),
    {
        match self {
            VMPrimitive::Boolean(b) => b.memory(),
            VMPrimitive::ByteString(b) => b.get_slice(),
            VMPrimitive::Integer(i) => i.memory(),
        }
    }

    /// The number of bytes of the value.
    pub fn size(&self) -> (r: usize)
        ensures
            r == primitive_span(self@).len(),
    {
        match self {
            VMPrimitive::Boolean(b) => b.size(),
            VMPrimitive::ByteString(b) => b.size(),
            VMPrimitive::Integer(i) => i.size(),
        }
    }
}

} // verus!
