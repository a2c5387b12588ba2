use vstd::prelude::*;

verus! {

/// Which block of a `TRY` is being executed.
#[derive(Debug, Clone, Copy, PartialEq, Eq, Hash, Structural)]
pub enum ExceptionHandlingState {
    /// The body.
    Try,
    /// The handler of an exception.
    Catch,
    /// The block that runs in every case.
    Finally,
}

} // verus!
