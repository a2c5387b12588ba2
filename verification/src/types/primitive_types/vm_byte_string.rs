use crate::types::stack_item::{bytes_equal, copy_bytes, ItemView, StackItem};
use crate::types::stack_item_type::StackItemType;
use crate::types::vm_stack_item::{any_nonzero, has_nonzero};
use murmur3::murmur3_32;
use vstd::prelude::*;

verus! {

/// The 32-bit Murmur3 hash of the bytes with the given seed.
pub uninterp spec fn murmur3_32_of(bytes: Seq<u8>, seed: u32) -> u32;

/// `murmur3::murmur3_32` on the bytes: the hash depends on the bytes and
/// the seed alone. Reading from a byte slice cannot fail. The function
/// counts the bytes in 32 bits, so longer input is left out.
#[verifier::external_body]
fn murmur3_hash(bytes: &[u8], seed: u32) -> (r: u32)
    requires
        bytes@.len() < 0x1_0000_0000,
    ensures
        r == murmur3_32_of(bytes@, seed),
{
    murmur3_32(&mut std::io::Cursor::new(bytes), seed).unwrap()
}

/// An immutable sequence of bytes.
#[derive(Debug, PartialEq, Eq, Hash)]
pub struct VMByteString {
    pub bytes: Vec<u8>,
}

impl View for VMByteString {
    type V = Seq<u8>;

    open spec fn view(&self) -> Seq<u8> {
        self.bytes@
    }
}

impl Clone for VMByteString {
    fn clone(&self) -> (r: Self)
        ensures
            r@ == self@,
    {
        VMByteString { bytes: copy_bytes(self.bytes.as_slice()) }
    }
}

impl VMByteString {
    pub fn new(bytes: Vec<u8>) -> (r: Self)
        ensures
            r@ == bytes@,
    {
        Self { bytes }
    }

    /// Whether both hold the same bytes.
    pub fn equals(&self, other: &Self) -> (r: bool)
        ensures
            r == (self@ == other@),
    {
        bytes_equal(self.bytes.as_slice(), other.bytes.as_slice())
    }

    /// The Murmur3 hash of the bytes with the seed 0, or `None` for 2^32
    /// bytes or more, which the hash cannot count.
    pub fn hash(&self) -> (r: Option<u32>)
        ensures
            r == if self@.len() < 0x1_0000_0000 {
                Some(murmur3_32_of(self@, 0))
            } else {
                None
            },
    {
        if self.bytes.len() as u64 >= 0x1_0000_0000 {
            None
        } else {
            Some(murmur3_hash(self.bytes.as_slice(), 0))
        }
    }

    /// The Murmur3 hash of the bytes with the seed 0, widened, or `None` for
    /// 2^32 bytes or more.
    pub fn get_hash_code(&self) -> (r: Option<u64>)
        ensures
            r == if self@.len() < 0x1_0000_0000 {
                Some(murmur3_32_of(self@, 0) as u64)
            } else {
                None
            },
    {
        match self.hash() {
            Some(h) => Some(h as u64),
            None => None,
        }
    }

    /// The bytes.
    pub fn memory(&self) -> (r: &[u8])
        ensures
            r@ == self@,
    {
        self.bytes.as_slice()
    }

    /// A copy of the bytes.
    pub fn get_slice(&self) -> (r: Vec<u8>)
        ensures
            r@ == self@,
    {
        copy_bytes(self.bytes.as_slice())
    }

    /// The bytes.
    pub fn get_bytes(&self) -> (r: &[u8])
        ensures
            r@ == self@,
    {
        self.bytes.as_slice()
    }

    /// The number of bytes.
    pub fn size(&self) -> (r: usize)
        ensures
            r == self@.len(),
    {
        self.bytes.len()
    }

    pub fn get_type(&self) -> (r: StackItemType)
        ensures
            r == StackItemType::ByteString,
    {
        StackItemType::ByteString
    }

    /// Whether some byte is not zero.
    pub fn get_boolean(&self) -> (r: bool)
        ensures
            r == any_nonzero(self@),
    {
        has_nonzero(self.bytes.as_slice())
    }

    /// Whether both hold the same bytes, or `None` where one of them is
    /// longer than `max_comparable_size`.
    pub fn equals_with_limits(&self, other: &Self, max_comparable_size: usize) -> (r: Option<bool>)
        ensures
            r == if self@.len() > max_comparable_size || other@.len() > max_comparable_size {
                None
            } else {
                Some(self@ == other@)
            },
    {
        if self.bytes.len() > max_comparable_size || other.bytes.len() > max_comparable_size {
            None
        } else {
            Some(self.equals(other))
        }
    }

    /// The stack item that holds the bytes.
    pub fn to_item(self) -> (r: StackItem)
        ensures
            r@ == ItemView::ByteString(self@),
    {
        StackItem::ByteString(self.bytes)
    }

    /// The byte string that the stack item holds, if it holds one.
    pub fn from_item(item: &StackItem) -> (r: Option<VMByteString>)
        ensures
            match item@ {
                ItemView::ByteString(b) => r is Some && r->Some_0@ == b,
                _ => r is None,
            },
    {
        match item {
            StackItem::ByteString(b) => Some(VMByteString { bytes: copy_bytes(b.as_slice()) }),
            _ => None,
        }
    }
}

} // verus!
