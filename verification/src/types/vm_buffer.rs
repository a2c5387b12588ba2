use crate::types::stack_item::copy_bytes;
use vstd::prelude::*;

verus! {

/// A mutable sequence of bytes.
#[derive(Debug, PartialEq, Eq, Hash)]
pub struct VMBuffer {
    pub bytes: Vec<u8>,
}

impl View for VMBuffer {
    type V = Seq<u8>;

    open spec fn view(&self) -> Seq<u8> {
        self.bytes@
    }
}

impl Clone for VMBuffer {
    fn clone(&self) -> (r: Self)
        ensures
            r@ == self@,
    {
        VMBuffer { bytes: copy_bytes(self.bytes.as_slice()) }
    }
}

impl VMBuffer {
    /// A buffer of `size` zero bytes.
    pub fn new(size: usize) -> (r: Self)
        ensures
            r@ == Seq::new(size as nat, |i: int| 0u8),
    {
        let bytes: Vec<u8> = vec![0u8; size];
        assert(bytes@ =~= Seq::new(size as nat, |i: int| 0u8));
        Self { bytes }
    }

    /// A buffer with a copy of the bytes.
    pub fn from_slice(data: &[u8]) -> (r: Self)
        ensures
            r@ == data@,
    {
        Self { bytes: copy_bytes(data) }
    }

    /// A copy of the bytes.
    pub fn to_vec(&self) -> (r: Vec<u8>)
        ensures
            r@ == self@,
    {
        copy_bytes(self.bytes.as_slice())
    }

    /// The bytes.
    pub fn as_slice(&self) -> (r: &[u8])
        ensures
            r@ == self@,
    {
        self.bytes.as_slice()
    }

    /// The number of bytes.
    pub fn len(&self) -> (r: usize)
        ensures
            r == self@.len(),
    {
        self.bytes.len()
    }

    /// The bytes.
    pub fn memory(&self) -> (r: Vec<u8>)
        ensures
            r@ == self@,
    {
        self.to_vec()
    }

    /// The bytes.
    pub fn get_slice(&self) -> (r: Vec<u8>)
        ensures
            r@ == self@,
    {
        self.to_vec()
    }

    /// Reverses the order of the bytes.
    pub fn reverse(&mut self)
        ensures
            final(self)@ == old(self)@.reverse(),
    {
        let n: usize = self.bytes.len();
        let mut out: Vec<u8> = Vec::new();
        let mut i: usize = 0;
        while i < n
            invariant
                i <= n,
                n == self.bytes@.len(),
                out@.len() == i,
                forall|j: int| 0 <= j < i ==> out@[j] == self.bytes@[n - 1 - j],
            decreases n - i,
        {
            out.push(self.bytes[n - 1 - i]);
            i += 1;
        }
        assert(out@ =~= self.bytes@.reverse());
        self.bytes = out;
    }
}

} // verus!
