pub mod compound_types;
pub mod conversion_laws;
pub mod deep_copy;
pub mod equality_laws;
pub mod null;
pub mod primitive_types;
pub mod stack_item;
pub mod stack_item_type;
pub mod vm_buffer;
pub mod vm_interop_interface;
pub mod vm_null;
pub mod vm_pointer;
pub mod vm_stack_item;

use vstd::prelude::*;

verus! {

/// The sum of two sizes.
pub fn add(left: usize, right: usize) -> (r: usize)
    requires
        left + right <= usize::MAX,
    ensures
        r == left + right,
{
    left + right
}

} // verus!
