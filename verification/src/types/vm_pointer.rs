use vstd::prelude::*;

verus! {

/// A code address: a script, named by the number of its shared states in
/// the engine, and a position in it.
#[derive(Clone, Copy, Hash, Debug, PartialEq, Eq, Structural)]
pub struct VMPointer {
    pub script: usize,
    pub position: usize,
}

impl VMPointer {
    pub fn new(script: usize, position: usize) -> (r: Self)
        ensures
            r == (VMPointer { script, position }),
    {
        Self { script, position }
    }

    pub fn script(&self) -> (r: usize)
        ensures
            r == self.script,
    {
        self.script
    }

    pub fn position(&self) -> (r: usize)
        ensures
            r == self.position,
    {
        self.position
    }

    /// Whether both name the same script and the same position.
    pub fn equals(&self, other: &VMPointer) -> (r: bool)
        ensures
            r == (*self == *other),
    {
        self.script == other.script && self.position == other.position
    }
}

} // verus!
