use crate::types::stack_item::{ItemView, StackItem};
use crate::types::stack_item_type::StackItemType;
use vstd::prelude::*;

verus! {

/// The null of the machine.
#[derive(Clone, Copy, PartialEq, Eq, Hash, Debug, Default, Structural)]
pub struct VMNull {}

impl VMNull {
    pub fn is_null(&self) -> (r: bool)
        ensures
            r,
    {
        true
    }

    /// Null converts to the type `Any` alone.
    pub fn convert_to(&self, ty: StackItemType) -> (r: Option<StackItem>)
        ensures
            r is Some <==> ty == StackItemType::Any,
            r is Some ==> r->Some_0@ == ItemView::Null,
    {
        if matches!(ty, StackItemType::Any) {
            Some(StackItem::Null)
        } else {
            None
        }
    }

    /// Null is no text.
    pub fn get_string(&self) -> (r: Option<String>)
        ensures
            r is None,
    {
        None
    }

    /// The hash of null, which is 0.
    pub fn get_hash_code(&self) -> (r: u64)
        ensures
            r == 0,
    {
        0
    }

    pub fn get_type(&self) -> (r: StackItemType)
        ensures
            r == StackItemType::Any,
    {
        StackItemType::Any
    }

    /// Null is false.
    pub fn get_boolean(&self) -> (r: bool)
        ensures
            !r,
    {
        false
    }

    /// Null equals null alone.
    pub fn equals(&self, other: &StackItem) -> (r: bool)
        ensures
            r == (other@ is Null),
    {
        other.is_null()
    }

    /// The stack item that is null.
    pub fn into(self) -> (r: StackItem)
        ensures
            r@ == ItemView::Null,
    {
        StackItem::Null
    }

    /// Null, if the stack item is null.
    pub fn from(item: &StackItem) -> (r: Option<VMNull>)
        ensures
            r is Some <==> item@ is Null,
    {
        if item.is_null() {
            Some(VMNull {  })
        } else {
            None
        }
    }
}

} // verus!
