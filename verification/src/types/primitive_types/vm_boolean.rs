use crate::types::primitive_types::vm_integer::VMInteger;
use crate::types::stack_item::{ItemView, StackItem};
use crate::types::stack_item_type::StackItemType;
use crate::types::vm_stack_item::bool_span;
use vstd::prelude::*;

verus! {

/// A truth value.
#[derive(Debug, Clone, Copy, PartialEq, Eq, Hash, Structural)]
pub struct VMBoolean {
    pub value: bool,
}

impl VMBoolean {
    pub fn new(value: bool) -> (r: Self)
        ensures
            r.value == value,
    {
        VMBoolean { value }
    }

    /// The one byte of the value: 1 for true, 0 for false.
    pub fn memory(&self) -> (r: Vec<u8>)
        ensures
            r@ == bool_span(self.value),
    {
        let mut out: Vec<u8> = Vec::new();
        out.push(if self.value { 1u8 } else { 0u8 });
        assert(out@ =~= bool_span(self.value));
        out
    }

    /// The number of bytes of the value, which is 1.
    pub fn size(&self) -> (r: usize)
        ensures
            r == 1,
            r == bool_span(self.value).len(),
    {
        1
    }

    pub fn get_type(&self) -> (r: StackItemType)
        ensures
            r == StackItemType::Boolean,
    {
        StackItemType::Boolean
    }

    pub fn get_boolean(&self) -> (r: bool)
        ensures
            r == self.value,
    {
        self.value
    }

    /// 1 for true, 0 for false.
    pub fn get_integer(&self) -> (r: VMInteger)
        ensures
            r@ == if self.value {
                1int
            } else {
                0
            },
    {
        VMInteger::from_bool(self.value)
    }

    /// Whether `other` is a boolean with the same value.
    pub fn equals(&self, other: &StackItem) -> (r: bool)
        ensures
            r == (other@ == ItemView::Boolean(self.value)),
    {
        match other {
            StackItem::Boolean(b) => *b == self.value,
            _ => false,
        }
    }

    /// The stack item that holds the value.
    pub fn to_item(&self) -> (r: StackItem)
        ensures
            r@ == ItemView::Boolean(self.value),
    {
        StackItem::Boolean(self.value)
    }

    /// The boolean that the stack item holds, if it holds one.
    pub fn from_item(item: &StackItem) -> (r: Option<VMBoolean>)
        ensures
            r == match item@ {
                ItemView::Boolean(b) => Some(VMBoolean { value: b }),
                _ => None,
            },
    {
        match item {
            StackItem::Boolean(b) => Some(VMBoolean { value: *b }),
            _ => None,
        }
    }
}

} // verus!
