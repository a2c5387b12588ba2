pub mod big_integer;
pub mod jump_table;
pub mod script;
pub mod types;
pub mod utility;
pub mod vm;

use vstd::prelude::*;

verus! {

/// The sum of two sizes.
pub fn add(left: usize, right: usize) -> (r: usize)
    requires
        left + right <= usize::MAX,
    ensures
        r == left + right,
{
    left + right
}

} // verus!
