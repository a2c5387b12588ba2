use vstd::prelude::*;

verus! {

/// An object of the host, known to the machine only by the handle that the
/// host gave it. Two items are the same object when their handles are equal.
#[derive(Clone, Copy, PartialEq, Eq, Hash, Debug, Default, Structural)]
pub struct VMInteropInterface {
    object: u64,
}

impl VMInteropInterface {
    pub closed spec fn spec_object(self) -> u64 {
        self.object
    }

    pub fn new(object: u64) -> (r: Self)
        ensures
            r.spec_object() == object,
    {
        Self { object }
    }

    /// The handle of the host object.
    pub fn object(&self) -> (r: u64)
        ensures
            r == self.spec_object(),
    {
        self.object
    }

    /// An interop item is always true.
    pub fn get_boolean(&self) -> (r: bool)
        ensures
            r,
    {
        true
    }

    /// Whether both stand for the same host object.
    pub fn equals(&self, other: &VMInteropInterface) -> (r: bool)
        ensures
            r == (*self == *other),
    {
        self.object == other.object
    }
}

} // verus!
