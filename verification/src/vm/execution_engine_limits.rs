use vstd::prelude::*;

verus! {

/// The resource limits of an engine. Going past any of them faults the
/// engine.
#[derive(Debug, Clone, Copy, PartialEq, Eq, Structural)]
pub struct ExecutionEngineLimits {
    /// The largest shift, and the largest exponent of a power.
    pub max_shift: u32,
    /// The largest number of live references.
    pub max_stack_size: usize,
    /// The largest number of bytes of one item.
    pub max_item_size: usize,
    /// The largest byte string that a comparison may compare. A comparison
    /// visits at most as many pairs of items as this limit and the stack
    /// limit both allow.
    pub max_comparable_size: usize,
    /// The largest number of contexts on the invocation stack.
    pub max_invocation_stack_size: usize,
    /// The largest number of nested `TRY` blocks in one context.
    pub max_try_nesting_depth: usize,
}

/// The largest number of bytes of an integer.
pub const MAX_INTEGER_SIZE: usize = 32;

/// The length from which pushed data becomes a buffer.
pub const BYTE_STRING_THRESHOLD: usize = 1024;

impl ExecutionEngineLimits {
    /// The default limits.
    pub open spec fn spec_default() -> ExecutionEngineLimits {
        ExecutionEngineLimits {
            max_shift: 256,
            max_stack_size: 2048,
            max_item_size: 1048576,
            max_comparable_size: 65536,
            max_invocation_stack_size: 1024,
            max_try_nesting_depth: 16,
        }
    }

    /// Whether `shift` is an allowed shift or exponent: from 0 to the limit.
    pub open spec fn spec_shift_ok(self, shift: int) -> bool {
        0 <= shift <= self.max_shift
    }

    /// Whether an item of `size` bytes is allowed.
    pub open spec fn spec_item_size_ok(self, size: int) -> bool {
        0 <= size <= self.max_item_size
    }

    /// The number of pairs of items that one comparison may visit: the
    /// smaller of the stack limit and the limit on comparisons.
    pub open spec fn spec_compare_budget(self) -> nat {
        if self.max_stack_size <= self.max_comparable_size {
            self.max_stack_size as nat
        } else {
            self.max_comparable_size as nat
        }
    }

    /// The number of pairs of items that one comparison may visit.
    pub fn compare_budget(&self) -> (r: usize)
        ensures
            r == self.spec_compare_budget(),
    {
        if self.max_stack_size <= self.max_comparable_size {
            self.max_stack_size
        } else {
            self.max_comparable_size
        }
    }

    /// Whether `shift` is an allowed shift or exponent.
    pub fn assert_shift(&self, shift: i128) -> (r: bool)
        ensures
            r == self.spec_shift_ok(shift as int),
    {
        shift >= 0 && shift <= self.max_shift as i128
    }

    /// Whether an item of `size` bytes is allowed.
    pub fn assert_max_item_size(&self, size: usize) -> (r: bool)
        ensures
            r == self.spec_item_size_ok(size as int),
    {
        size <= self.max_item_size
    }
}

impl Default for ExecutionEngineLimits {
    fn default() -> (r: Self)
        ensures
            r == ExecutionEngineLimits::spec_default(),
    {
        ExecutionEngineLimits {
            max_shift: 256,
            max_stack_size: 2048,
            max_item_size: 1048576,
            max_comparable_size: 65536,
            max_invocation_stack_size: 1024,
            max_try_nesting_depth: 16,
        }
    }
}

} // verus!
