use crate::big_integer::{lemma_signed_round_trip, signed_len, to_signed_le, BigInteger};
use vstd::prelude::*;

verus! {

/// Whether the number fits the 32 bytes of an integer of the machine.
pub open spec fn fits_integer(v: int) -> bool {
    signed_len(v) <= 32
}

/// The bytes of an integer as a primitive: none for zero, else its shortest
/// two's-complement encoding, least significant byte first.
pub open spec fn integer_span(v: int) -> Seq<u8> {
    if v == 0 {
        Seq::<u8>::empty()
    } else {
        to_signed_le(v)
    }
}

/// An integer of at most 32 bytes in two's complement.
#[derive(Debug, PartialEq, Eq, Hash)]
pub struct VMInteger {
    value: BigInteger,
}

impl View for VMInteger {
    type V = int;

    closed spec fn view(&self) -> int {
        self.value@
    }
}

impl Clone for VMInteger {
    fn clone(&self) -> (r: Self)
        ensures
            r@ == self@,
    {
        proof {
            use_type_invariant(self);
        }
        VMInteger { value: self.value.clone() }
    }
}

impl VMInteger {
    /// The largest number of bytes of an integer.
    pub const MAX_SIZE: u32 = 32;

    #[verifier::type_invariant]
    spec fn inv(self) -> bool {
        fits_integer(self.value@)
    }

    /// The integer with the given value, for a value that fits 32 bytes.
    pub fn new(value: &BigInteger) -> (r: Self)
        requires
            fits_integer(value@),
        ensures
            r@ == value@,
    {
        VMInteger { value: value.clone() }
    }

    /// The integer with the given value, or `None` where the value does not
    /// fit 32 bytes.
    pub fn try_new(value: BigInteger) -> (r: Option<Self>)
        ensures
            r is Some <==> fits_integer(value@),
            r is Some ==> r->Some_0@ == value@,
    {
        if value.byte_len() > 32 {
            None
        } else {
            Some(VMInteger { value })
        }
    }

    /// The integer that the bytes encode in two's complement, least
    /// significant byte first, or `None` where it does not fit 32 bytes.
    pub fn from_signed_bytes_le(bytes: &[u8]) -> (r: Option<Self>)
        ensures
            r is Some <==> fits_integer(crate::big_integer::signed_le(bytes@)),
            r is Some ==> r->Some_0@ == crate::big_integer::signed_le(bytes@),
    {
        VMInteger::try_new(BigInteger::from_signed_bytes_le(bytes))
    }

    pub fn from_i64(value: i64) -> (r: Self)
        ensures
            r@ == value,
    {
        let big = BigInteger::from_i64(value);
        proof {
            lemma_i128_fits(value as int);
        }
        VMInteger { value: big }
    }

    pub fn from_usize(value: usize) -> (r: Self)
        ensures
            r@ == value,
    {
        let big = BigInteger::from_usize(value);
        proof {
            lemma_i128_fits(value as int);
        }
        VMInteger { value: big }
    }

    pub fn from_bool(value: bool) -> (r: Self)
        ensures
            r@ == if value {
                1int
            } else {
                0
            },
    {
        VMInteger::from_i64(if value { 1 } else { 0 })
    }

    /// The value, which fits 32 bytes.
    pub fn value(&self) -> (r: &BigInteger)
        ensures
            r@ == self@,
            fits_integer(self@),
    {
        proof {
            use_type_invariant(self);
        }
        &self.value
    }

    /// The value.
    pub fn get_integer(&self) -> (r: BigInteger)
        ensures
            r@ == self@,
    {
        self.value.clone()
    }

    /// Whether the value is not zero.
    pub fn get_boolean(&self) -> (r: bool)
        ensures
            r == (self@ != 0),
    {
        !self.value.is_zero()
    }

    /// The bytes of the integer.
    pub fn get_slice(&self) -> (r: Vec<u8>)
        ensures
            r@ == integer_span(self@),
    {
        if self.value.is_zero() {
            Vec::new()
        } else {
            self.value.to_signed_bytes_le()
        }
    }

    /// The bytes of the integer.
    pub fn memory(&self) -> (r: Vec<u8>)
        ensures
            r@ == integer_span(self@),
    {
        self.get_slice()
    }

    /// The number of bytes of the integer.
    pub fn size(&self) -> (r: usize)
        ensures
            r == integer_span(self@).len(),
            r <= 32,
    {
        proof {
            use_type_invariant(self);
        }
        if self.value.is_zero() {
            0
        } else {
            self.value.byte_len()
        }
    }

    pub fn equals(&self, other: &VMInteger) -> (r: bool)
        ensures
            r == (self@ == other@),
    {
        self.value.equals(&other.value)
    }
}

/// A number that 16 bytes hold fits 32 bytes.
pub proof fn lemma_i128_fits(v: int)
    requires
        i128::MIN <= v <= i128::MAX,
    ensures
        fits_integer(v),
{
    assert(vstd::arithmetic::power::pow(256, 15) == 0x1000000_00000000_00000000_00000000int) by {
        reveal_with_fuel(vstd::arithmetic::power::pow, 16);
    }
    lemma_len_bound(v, 16);
}

/// A number in the range of `n` bytes has an encoding of at most `n` bytes.
pub proof fn lemma_len_bound(v: int, n: nat)
    requires
        n >= 1,
        -vstd::arithmetic::power::pow(256, (n - 1) as nat) * 128 <= v < vstd::arithmetic::power::pow(
            256,
            (n - 1) as nat,
        ) * 128,
    ensures
        signed_len(v) <= n,
    decreases n,
{
    vstd::arithmetic::power::lemma_pow0(256);
    if -128 <= v < 128 {
    } else {
        if n == 1 {
            assert(vstd::arithmetic::power::pow(256, 0) == 1);
        } else {
            let p = vstd::arithmetic::power::pow(256, (n - 2) as nat);
            assert(vstd::arithmetic::power::pow(256, (n - 1) as nat) == 256 * p) by {
                vstd::arithmetic::power::lemma_pow_adds(256, 1, (n - 2) as nat);
                vstd::arithmetic::power::lemma_pow1(256);
            }
            assert(-p * 128 <= v / 256 < p * 128) by {
                assert(-(256 * p) * 128 <= v < (256 * p) * 128);
                assert((256 * p) * 128 == 256 * (p * 128)) by (nonlinear_arith);
                assert(-(256 * p) * 128 == 256 * (-p * 128)) by (nonlinear_arith);
            }
            lemma_len_bound(v / 256, (n - 1) as nat);
            assert(to_signed_le(v) == seq![(v % 256) as u8] + to_signed_le(v / 256));
        }
    }
}

} // verus!
