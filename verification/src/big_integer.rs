use num_bigint::BigInt;
use num_traits::ToPrimitive;
use vstd::arithmetic::power::pow;
use vstd::prelude::*;

verus! {

/// The number that the bytes `s` encode in two's complement, least
/// significant byte first. No bytes encode zero.
pub open spec fn signed_le(s: Seq<u8>) -> int
    decreases s.len(),
{
    if s.len() == 0 {
        0
    } else if s.len() == 1 {
        if s[0] >= 128 {
            s[0] - 256
        } else {
            s[0] as int
        }
    } else {
        s[0] + 256 * signed_le(s.skip(1))
    }
}

/// The shortest two's-complement encoding of `v`, least significant byte
/// first. It has at least one byte.
pub open spec fn to_signed_le(v: int) -> Seq<u8>
    decreases (if v >= 0 { v } else { -v }),
{
    if -128 <= v < 128 {
        seq![(if v < 0 { v + 256 } else { v }) as u8]
    } else {
        seq![(v % 256) as u8] + to_signed_le(v / 256)
    }
}

/// The number of bytes of the shortest two's-complement encoding of `v`.
pub open spec fn signed_len(v: int) -> nat {
    to_signed_le(v).len()
}

/// The quotient of `a` by `b` rounded toward zero.
pub open spec fn trunc_div(a: int, b: int) -> int
    recommends
        b != 0,
{
    if a >= 0 {
        if b > 0 {
            a / b
        } else {
            -(a / (-b))
        }
    } else {
        if b > 0 {
            -((-a) / b)
        } else {
            (-a) / (-b)
        }
    }
}

/// The remainder that goes with [`trunc_div`]; it has the sign of `a`.
pub open spec fn trunc_rem(a: int, b: int) -> int
    recommends
        b != 0,
{
    a - b * trunc_div(a, b)
}

/// The remainder of `a` by `m` with the sign of `m`.
pub open spec fn floor_mod(a: int, m: int) -> int
    recommends
        m != 0,
{
    if m > 0 {
        a % m
    } else {
        -((-a) % (-m))
    }
}

/// The number of binary digits of `n`; zero has none.
pub open spec fn bit_length(n: nat) -> nat
    decreases n,
{
    if n == 0 {
        0
    } else {
        1 + bit_length(n / 2)
    }
}

/// The absolute value of `v`.
pub open spec fn int_abs(v: int) -> nat {
    if v >= 0 {
        v as nat
    } else {
        (-v) as nat
    }
}

/// The bytes `s` followed by copies of their sign byte up to `width` bytes.
pub open spec fn sign_extend(s: Seq<u8>, width: nat) -> Seq<u8>
    recommends
        s.len() >= 1,
{
    if s.len() >= width {
        s
    } else {
        s + Seq::new((width - s.len()) as nat, |i: int| if s.last() >= 128 { 255u8 } else { 0u8 })
    }
}

/// Which of the three bitwise operations on two operands.
#[derive(Debug, Clone, Copy, PartialEq, Eq, Structural)]
pub enum BitOp {
    And,
    Or,
    Xor,
}

/// The operation applied to two bytes.
pub open spec fn byte_op(op: BitOp, x: u8, y: u8) -> u8 {
    match op {
        BitOp::And => x & y,
        BitOp::Or => x | y,
        BitOp::Xor => x ^ y,
    }
}

/// The operation applied to `a` and `b` in two's complement: both are
/// written with the same number of bytes, long enough for each, and the
/// bytes are combined one by one.
pub open spec fn bitwise(op: BitOp, a: int, b: int) -> int {
    let width = if signed_len(a) >= signed_len(b) {
        signed_len(a)
    } else {
        signed_len(b)
    };
    let x = sign_extend(to_signed_le(a), width);
    let y = sign_extend(to_signed_le(b), width);
    signed_le(Seq::new(width, |i: int| byte_op(op, x[i], y[i])))
}

/// Decoding the shortest encoding of a number gives the number back.
pub proof fn lemma_signed_round_trip(v: int)
    ensures
        signed_le(to_signed_le(v)) == v,
        to_signed_le(v).len() >= 1,
    decreases (if v >= 0 { v } else { -v }),
{
    if -128 <= v < 128 {
    } else {
        lemma_signed_round_trip(v / 256);
        let s = to_signed_le(v);
        assert(s.skip(1) =~= to_signed_le(v / 256));
        assert(s[0] == (v % 256) as u8);
    }
}

/// Extending an encoding by its sign byte does not change the number.
pub proof fn lemma_sign_extend_one(s: Seq<u8>)
    requires
        s.len() >= 1,
    ensures
        signed_le(s.push(if s.last() >= 128 { 255u8 } else { 0u8 })) == signed_le(s),
    decreases s.len(),
{
    let e = if s.last() >= 128 { 255u8 } else { 0u8 };
    let t = s.push(e);
    assert(t.len() == s.len() + 1);
    assert(t[0] == s[0]);
    assert(signed_le(t) == t[0] + 256 * signed_le(t.skip(1)));
    if s.len() == 1 {
        assert(t.skip(1) =~= seq![e]);
        assert(seq![e].len() == 1);
        assert(signed_le(seq![e]) == if e >= 128 { e - 256 } else { e as int });
    } else {
        lemma_sign_extend_one(s.skip(1));
        assert(s.skip(1).last() == s.last());
        assert(t.skip(1) =~= s.skip(1).push(e));
        assert(signed_le(s) == s[0] + 256 * signed_le(s.skip(1)));
    }
}

/// Sign extension to any width does not change the number.
pub proof fn lemma_sign_extend(s: Seq<u8>, width: nat)
    requires
        s.len() >= 1,
    ensures
        signed_le(sign_extend(s, width)) == signed_le(s),
        sign_extend(s, width).len() == if s.len() >= width { s.len() } else { width },
    decreases width,
{
    if s.len() >= width {
    } else {
        let e = if s.last() >= 128 { 255u8 } else { 0u8 };
        let shorter = sign_extend(s, (width - 1) as nat);
        lemma_sign_extend(s, (width - 1) as nat);
        assert(shorter.last() >= 128 <==> s.last() >= 128) by {
            if s.len() < width - 1 {
                assert(shorter.last() == e);
            }
        }
        lemma_sign_extend_one(shorter);
        assert(sign_extend(s, width) =~= shorter.push(e));
    }
}

/// An integer of any size. It is kept as its shortest two's-complement
/// encoding and stands for the number that those bytes encode.
#[derive(Debug, PartialEq, Eq, Hash)]
pub struct BigInteger {
    bytes: Vec<u8>,
}

impl View for BigInteger {
    type V = int;

    closed spec fn view(&self) -> int {
        signed_le(self.bytes@)
    }
}

/// `BigInt::from_signed_bytes_le` followed by `BigInt::to_signed_bytes_le`:
/// the shortest encoding of the number that `a` encodes.
#[verifier::external_body]
fn big_normalize(a: &[u8]) -> (r: Vec<u8>)
    ensures
        r@ == to_signed_le(signed_le(a@)),
{
    BigInt::from_signed_bytes_le(a).to_signed_bytes_le()
}

/// `BigInt::from` on an `i128`: the shortest encoding of `v`.
#[verifier::external_body]
fn big_from_i128(v: i128) -> (r: Vec<u8>)
    ensures
        r@ == to_signed_le(v as int),
{
    BigInt::from(v).to_signed_bytes_le()
}

/// `ToPrimitive::to_i128` of a `BigInt`: the number, where an `i128` holds it.
#[verifier::external_body]
fn big_to_i128(a: &[u8]) -> (r: Option<i128>)
    ensures
        r == if i128::MIN <= signed_le(a@) <= i128::MAX {
            Some(signed_le(a@) as i128)
        } else {
            None
        },
{
    BigInt::from_signed_bytes_le(a).to_i128()
}

/// `BigInt + BigInt`: the sum.
#[verifier::external_body]
fn big_add(a: &[u8], b: &[u8]) -> (r: Vec<u8>)
    ensures
        r@ == to_signed_le(signed_le(a@) + signed_le(b@)),
{
    (BigInt::from_signed_bytes_le(a) + BigInt::from_signed_bytes_le(b)).to_signed_bytes_le()
}

/// `BigInt - BigInt`: the difference.
#[verifier::external_body]
fn big_sub(a: &[u8], b: &[u8]) -> (r: Vec<u8>)
    ensures
        r@ == to_signed_le(signed_le(a@) - signed_le(b@)),
{
    (BigInt::from_signed_bytes_le(a) - BigInt::from_signed_bytes_le(b)).to_signed_bytes_le()
}

/// `BigInt * BigInt`: the product.
#[verifier::external_body]
fn big_mul(a: &[u8], b: &[u8]) -> (r: Vec<u8>)
    ensures
        r@ == to_signed_le(signed_le(a@) * signed_le(b@)),
{
    (BigInt::from_signed_bytes_le(a) * BigInt::from_signed_bytes_le(b)).to_signed_bytes_le()
}

/// `BigInt / BigInt`, which rounds toward zero and panics on a zero divisor.
#[verifier::external_body]
fn big_div(a: &[u8], b: &[u8]) -> (r: Vec<u8>)
    requires
        signed_le(b@) != 0,
    ensures
        r@ == to_signed_le(trunc_div(signed_le(a@), signed_le(b@))),
{
    (BigInt::from_signed_bytes_le(a) / BigInt::from_signed_bytes_le(b)).to_signed_bytes_le()
}

/// `BigInt % BigInt`, the remainder of the division that rounds toward zero;
/// it panics on a zero divisor.
#[verifier::external_body]
fn big_rem(a: &[u8], b: &[u8]) -> (r: Vec<u8>)
    requires
        signed_le(b@) != 0,
    ensures
        r@ == to_signed_le(trunc_rem(signed_le(a@), signed_le(b@))),
{
    (BigInt::from_signed_bytes_le(a) % BigInt::from_signed_bytes_le(b)).to_signed_bytes_le()
}

/// `BigInt::pow`: the number raised to the power `e`.
#[verifier::external_body]
fn big_pow(a: &[u8], e: u32) -> (r: Vec<u8>)
    ensures
        r@ == to_signed_le(pow(signed_le(a@), e as nat)),
{
    BigInt::from_signed_bytes_le(a).pow(e).to_signed_bytes_le()
}

/// `BigInt::sqrt`, the square root rounded down; it panics on a negative
/// number.
#[verifier::external_body]
fn big_sqrt(a: &[u8]) -> (r: Vec<u8>)
    requires
        signed_le(a@) >= 0,
    ensures
        r@ == to_signed_le(signed_le(r@)),
        signed_le(r@) >= 0,
        signed_le(r@) * signed_le(r@) <= signed_le(a@),
        signed_le(a@) < (signed_le(r@) + 1) * (signed_le(r@) + 1),
{
    BigInt::from_signed_bytes_le(a).sqrt().to_signed_bytes_le()
}

/// `BigInt::modpow`: the power reduced by the modulus, with the sign of the
/// modulus. It panics on a negative exponent and on a zero modulus.
#[verifier::external_body]
fn big_modpow(a: &[u8], e: &[u8], m: &[u8]) -> (r: Vec<u8>)
    requires
        signed_le(e@) >= 0,
        signed_le(m@) != 0,
    ensures
        r@ == to_signed_le(floor_mod(pow(signed_le(a@), signed_le(e@) as nat), signed_le(m@))),
{
    BigInt::from_signed_bytes_le(a).modpow(
        &BigInt::from_signed_bytes_le(e),
        &BigInt::from_signed_bytes_le(m),
    ).to_signed_bytes_le()
}

/// `BigInt << u32`: the number times two to the power `n`.
#[verifier::external_body]
fn big_shl(a: &[u8], n: u32) -> (r: Vec<u8>)
    ensures
        r@ == to_signed_le(signed_le(a@) * pow(2, n as nat)),
{
    (BigInt::from_signed_bytes_le(a) << n).to_signed_bytes_le()
}

/// `BigInt >> u32`: the number divided by two to the power `n`, rounded
/// down.
#[verifier::external_body]
fn big_shr(a: &[u8], n: u32) -> (r: Vec<u8>)
    ensures
        r@ == to_signed_le(signed_le(a@) / pow(2, n as nat)),
{
    (BigInt::from_signed_bytes_le(a) >> n).to_signed_bytes_le()
}

/// `BigInt & BigInt`, which works on the two's complement of its operands.
#[verifier::external_body]
fn big_and(a: &[u8], b: &[u8]) -> (r: Vec<u8>)
    ensures
        r@ == to_signed_le(bitwise(BitOp::And, signed_le(a@), signed_le(b@))),
{
    (BigInt::from_signed_bytes_le(a) & BigInt::from_signed_bytes_le(b)).to_signed_bytes_le()
}

/// `BigInt | BigInt`, which works on the two's complement of its operands.
#[verifier::external_body]
fn big_or(a: &[u8], b: &[u8]) -> (r: Vec<u8>)
    ensures
        r@ == to_signed_le(bitwise(BitOp::Or, signed_le(a@), signed_le(b@))),
{
    (BigInt::from_signed_bytes_le(a) | BigInt::from_signed_bytes_le(b)).to_signed_bytes_le()
}

/// `BigInt ^ BigInt`, which works on the two's complement of its operands.
#[verifier::external_body]
fn big_xor(a: &[u8], b: &[u8]) -> (r: Vec<u8>)
    ensures
        r@ == to_signed_le(bitwise(BitOp::Xor, signed_le(a@), signed_le(b@))),
{
    (BigInt::from_signed_bytes_le(a) ^ BigInt::from_signed_bytes_le(b)).to_signed_bytes_le()
}

/// `BigInt < BigInt`.
#[verifier::external_body]
fn big_lt(a: &[u8], b: &[u8]) -> (r: bool)
    ensures
        r == (signed_le(a@) < signed_le(b@)),
{
    BigInt::from_signed_bytes_le(a) < BigInt::from_signed_bytes_le(b)
}

/// `BigInt::bits`: the number of binary digits of the absolute value.
#[verifier::external_body]
fn big_bits(a: &[u8]) -> (r: u64)
    ensures
        r == bit_length(int_abs(signed_le(a@))),
{
    BigInt::from_signed_bytes_le(a).bits()
}

impl Clone for BigInteger {
    fn clone(&self) -> (r: Self)
        ensures
            r@ == self@,
    {
        proof {
            use_type_invariant(self);
        }
        let bytes = self.bytes.clone();
        assert(bytes@ =~= self.bytes@);
        BigInteger { bytes }
    }
}

impl BigInteger {
    #[verifier::type_invariant]
    spec fn inv(self) -> bool {
        self.bytes@ == to_signed_le(signed_le(self.bytes@))
    }

    fn wrap(bytes: Vec<u8>, Ghost(v): Ghost<int>) -> (r: Self)
        requires
            bytes@ == to_signed_le(v),
        ensures
            r@ == v,
    {
        proof {
            lemma_signed_round_trip(v);
        }
        BigInteger { bytes }
    }

    /// The number that `bytes` encode in two's complement, least significant
    /// byte first.
    pub fn from_signed_bytes_le(bytes: &[u8]) -> (r: Self)
        ensures
            r@ == signed_le(bytes@),
    {
        BigInteger::wrap(big_normalize(bytes), Ghost(signed_le(bytes@)))
    }

    /// The shortest two's-complement encoding of the number.
    pub fn to_signed_bytes_le(&self) -> (r: Vec<u8>)
        ensures
            r@ == to_signed_le(self@),
            signed_le(r@) == self@,
    {
        proof {
            use_type_invariant(self);
        }
        let r = self.bytes.clone();
        assert(r@ =~= self.bytes@);
        r
    }

    /// The shortest two's-complement encoding of the number, borrowed.
    pub fn as_signed_bytes_le(&self) -> (r: &[u8])
        ensures
            r@ == to_signed_le(self@),
            signed_le(r@) == self@,
    {
        proof {
            use_type_invariant(self);
        }
        self.bytes.as_slice()
    }

    /// The number of bytes of the shortest two's-complement encoding.
    pub fn byte_len(&self) -> (r: usize)
        ensures
            r == signed_len(self@),
            r >= 1,
    {
        proof {
            use_type_invariant(self);
            lemma_signed_round_trip(self@);
        }
        self.bytes.len()
    }

    pub fn from_i128(v: i128) -> (r: Self)
        ensures
            r@ == v,
    {
        BigInteger::wrap(big_from_i128(v), Ghost(v as int))
    }

    pub fn from_i64(v: i64) -> (r: Self)
        ensures
            r@ == v,
    {
        BigInteger::from_i128(v as i128)
    }

    pub fn from_usize(v: usize) -> (r: Self)
        ensures
            r@ == v,
    {
        BigInteger::from_i128(v as i128)
    }

    pub fn zero() -> (r: Self)
        ensures
            r@ == 0,
    {
        BigInteger::from_i128(0)
    }

    /// The number as an `i128`, where it is in range.
    pub fn to_i128(&self) -> (r: Option<i128>)
        ensures
            r == if i128::MIN <= self@ <= i128::MAX {
                Some(self@ as i128)
            } else {
                None
            },
    {
        big_to_i128(self.bytes.as_slice())
    }

    /// The number as an `i64`, where it is in range.
    pub fn to_i64(&self) -> (r: Option<i64>)
        ensures
            r == if i64::MIN <= self@ <= i64::MAX {
                Some(self@ as i64)
            } else {
                None
            },
    {
        match self.to_i128() {
            Some(v) => if v >= -9223372036854775808 && v <= 9223372036854775807 {
                Some(v as i64)
            } else {
                None
            },
            None => None,
        }
    }

    /// The number as an `i32`, where it is in range.
    pub fn to_i32(&self) -> (r: Option<i32>)
        ensures
            r == if i32::MIN <= self@ <= i32::MAX {
                Some(self@ as i32)
            } else {
                None
            },
    {
        match self.to_i128() {
            Some(v) => if v >= -2147483648 && v <= 2147483647 {
                Some(v as i32)
            } else {
                None
            },
            None => None,
        }
    }

    /// The number as a `usize`, where it is in range.
    pub fn to_usize(&self) -> (r: Option<usize>)
        ensures
            r == if 0 <= self@ <= usize::MAX {
                Some(self@ as usize)
            } else {
                None
            },
    {
        match self.to_i128() {
            Some(v) => if v >= 0 && v <= usize::MAX as i128 {
                Some(v as usize)
            } else {
                None
            },
            None => None,
        }
    }

    pub fn is_zero(&self) -> (r: bool)
        ensures
            r == (self@ == 0),
    {
        match self.to_i128() {
            Some(v) => v == 0,
            None => false,
        }
    }

    pub fn is_negative(&self) -> (r: bool)
        ensures
            r == (self@ < 0),
    {
        let zero = BigInteger::zero();
        big_lt(self.bytes.as_slice(), zero.bytes.as_slice())
    }

    /// Whether the two numbers are equal.
    pub fn equals(&self, other: &BigInteger) -> (r: bool)
        ensures
            r == (self@ == other@),
    {
        !self.lt(other) && !other.lt(self)
    }

    pub fn lt(&self, other: &BigInteger) -> (r: bool)
        ensures
            r == (self@ < other@),
    {
        big_lt(self.bytes.as_slice(), other.bytes.as_slice())
    }

    pub fn le(&self, other: &BigInteger) -> (r: bool)
        ensures
            r == (self@ <= other@),
    {
        !other.lt(self)
    }

    pub fn plus(&self, other: &BigInteger) -> (r: Self)
        ensures
            r@ == self@ + other@,
    {
        BigInteger::wrap(
            big_add(self.bytes.as_slice(), other.bytes.as_slice()),
            Ghost(self@ + other@),
        )
    }

    pub fn minus(&self, other: &BigInteger) -> (r: Self)
        ensures
            r@ == self@ - other@,
    {
        BigInteger::wrap(
            big_sub(self.bytes.as_slice(), other.bytes.as_slice()),
            Ghost(self@ - other@),
        )
    }

    pub fn times(&self, other: &BigInteger) -> (r: Self)
        ensures
            r@ == self@ * other@,
    {
        BigInteger::wrap(
            big_mul(self.bytes.as_slice(), other.bytes.as_slice()),
            Ghost(self@ * other@),
        )
    }

    /// The quotient rounded toward zero, or `None` for a zero divisor.
    pub fn checked_div(&self, other: &BigInteger) -> (r: Option<Self>)
        ensures
            r is Some <==> other@ != 0,
            r is Some ==> r->Some_0@ == trunc_div(self@, other@),
    {
        if other.is_zero() {
            None
        } else {
            Some(
                BigInteger::wrap(
                    big_div(self.bytes.as_slice(), other.bytes.as_slice()),
                    Ghost(trunc_div(self@, other@)),
                ),
            )
        }
    }

    /// The remainder of the division that rounds toward zero, or `None` for
    /// a zero divisor.
    pub fn checked_rem(&self, other: &BigInteger) -> (r: Option<Self>)
        ensures
            r is Some <==> other@ != 0,
            r is Some ==> r->Some_0@ == trunc_rem(self@, other@),
    {
        if other.is_zero() {
            None
        } else {
            Some(
                BigInteger::wrap(
                    big_rem(self.bytes.as_slice(), other.bytes.as_slice()),
                    Ghost(trunc_rem(self@, other@)),
                ),
            )
        }
    }

    pub fn negate(&self) -> (r: Self)
        ensures
            r@ == -self@,
    {
        BigInteger::zero().minus(self)
    }

    pub fn abs(&self) -> (r: Self)
        ensures
            r@ == int_abs(self@),
    {
        if self.is_negative() {
            self.negate()
        } else {
            self.clone()
        }
    }

    /// -1, 0 or 1 as the number is negative, zero or positive.
    pub fn signum(&self) -> (r: Self)
        ensures
            r@ == if self@ < 0 {
                -1int
            } else if self@ == 0 {
                0
            } else {
                1
            },
    {
        if self.is_negative() {
            BigInteger::from_i128(-1)
        } else if self.is_zero() {
            BigInteger::zero()
        } else {
            BigInteger::from_i128(1)
        }
    }

    /// The number raised to the power `e`.
    pub fn power(&self, e: u32) -> (r: Self)
        ensures
            r@ == pow(self@, e as nat),
    {
        BigInteger::wrap(big_pow(self.bytes.as_slice(), e), Ghost(pow(self@, e as nat)))
    }

    /// The square root rounded down, or `None` for a negative number.
    pub fn checked_sqrt(&self) -> (r: Option<Self>)
        ensures
            r is Some <==> self@ >= 0,
            r is Some ==> {
                let s = r->Some_0@;
                s >= 0 && s * s <= self@ < (s + 1) * (s + 1)
            },
    {
        if self.is_negative() {
            None
        } else {
            let bytes = big_sqrt(self.bytes.as_slice());
            Some(BigInteger { bytes })
        }
    }

    /// The power `self ^ e` reduced by `m`, with the sign of `m`; `None` for a
    /// negative exponent and for a zero modulus.
    pub fn checked_modpow(&self, e: &BigInteger, m: &BigInteger) -> (r: Option<Self>)
        ensures
            r is Some <==> e@ >= 0 && m@ != 0,
            r is Some ==> r->Some_0@ == floor_mod(pow(self@, e@ as nat), m@),
    {
        if e.is_negative() || m.is_zero() {
            None
        } else {
            Some(
                BigInteger::wrap(
                    big_modpow(self.bytes.as_slice(), e.bytes.as_slice(), m.bytes.as_slice()),
                    Ghost(floor_mod(pow(self@, e@ as nat), m@)),
                ),
            )
        }
    }

    /// The number times two to the power `n`.
    pub fn shift_left(&self, n: u32) -> (r: Self)
        ensures
            r@ == self@ * pow(2, n as nat),
    {
        BigInteger::wrap(big_shl(self.bytes.as_slice(), n), Ghost(self@ * pow(2, n as nat)))
    }

    /// The number divided by two to the power `n`, rounded down.
    pub fn shift_right(&self, n: u32) -> (r: Self)
        ensures
            r@ == self@ / pow(2, n as nat),
    {
        BigInteger::wrap(big_shr(self.bytes.as_slice(), n), Ghost(self@ / pow(2, n as nat)))
    }

    /// The bitwise operation on the two's complement of both numbers.
    pub fn bit_op(&self, op: BitOp, other: &BigInteger) -> (r: Self)
        ensures
            r@ == bitwise(op, self@, other@),
    {
        let bytes = match op {
            BitOp::And => big_and(self.bytes.as_slice(), other.bytes.as_slice()),
            BitOp::Or => big_or(self.bytes.as_slice(), other.bytes.as_slice()),
            BitOp::Xor => big_xor(self.bytes.as_slice(), other.bytes.as_slice()),
        };
        BigInteger::wrap(bytes, Ghost(bitwise(op, self@, other@)))
    }

    /// The number with every bit of its two's complement flipped.
    pub fn invert(&self) -> (r: Self)
        ensures
            r@ == -self@ - 1,
    {
        BigInteger::from_i128(-1).minus(self)
    }

    /// The number of binary digits of the absolute value.
    pub fn bits(&self) -> (r: u64)
        ensures
            r == bit_length(int_abs(self@)),
    {
        big_bits(self.bytes.as_slice())
    }
}

} // verus!
