use vstd::prelude::*;

verus! {

/// The state of the engine between two instructions.
#[allow(non_camel_case_types)]
#[derive(Debug, Clone, Copy, PartialEq, Eq, Hash, Structural)]
pub enum VMState {
    /// Running.
    NONE,
    /// Stopped after the last context returned.
    HALT,
    /// Stopped by an error.
    FAULT,
    /// Paused: not yet started, or waiting for the host.
    BREAK,
}

} // verus!
