use crate::types::stack_item::{ItemView, StackItem};
use crate::types::stack_item_type::StackItemType;
use vstd::prelude::*;

verus! {

/// The value `null`.
#[derive(Clone, Copy, PartialEq, Eq, Hash, Debug, Default, Structural)]
pub struct Null;

impl Null {
    pub fn is_null(&self) -> (r: bool)
        ensures
            r,
    {
        true
    }

    /// Null converts to the type `Any` alone.
    pub fn convert_to(&self, ty: StackItemType) -> (r: Option<StackItem>)
        ensures
            r is Some <==> ty == StackItemType::Any,
            r is Some ==> r->Some_0@ == ItemView::Null,
    {
        if matches!(ty, StackItemType::Any) {
            Some(StackItem::Null)
        } else {
            None
        }
    }

    /// Null is false.
    pub fn get_boolean(&self) -> (r: bool)
        ensures
            !r,
    {
        false
    }

    /// Null is no text.
    pub fn get_string(&self) -> (r: Option<String>)
        ensures
            r is None,
    {
        None
    }

    /// The hash of null, which is 0.
    pub fn get_hash_code(&self) -> (r: u64)
        ensures
            r == 0,
    {
        0
    }

    pub fn get_type(&self) -> (r: StackItemType)
        ensures
            r == StackItemType::Any,
    {
        StackItemType::Any
    }

    /// The stack item that is null.
    pub fn into(self) -> (r: StackItem)
        ensures
            r@ == ItemView::Null,
    {
        StackItem::Null
    }
}

} // verus!
