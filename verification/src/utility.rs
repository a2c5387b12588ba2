use crate::big_integer::{bit_length, int_abs, trunc_div, trunc_rem, BigInteger};
use vstd::arithmetic::div_mod::{
    lemma_fundamental_div_mod, lemma_mod_bound, lemma_mod_multiples_vanish, lemma_small_mod,
};
use vstd::arithmetic::power::{
    lemma_pow0, lemma_pow1, lemma_pow_adds, lemma_pow_increases, lemma_pow_positive, pow,
};
use vstd::prelude::*;
use vstd::utf8::{decode_utf8, valid_utf8};

verus! {

/// Decodes bytes as UTF-8 with `std::str::from_utf8`, which accepts exactly
/// the well-formed encodings and keeps the characters they encode.
#[verifier::external_body]
pub(crate) fn utf8_to_string(bytes: &[u8]) -> (r: Option<String>)
    ensures
        r is Some <==> valid_utf8(bytes@),
        r is Some ==> r->Some_0@ == decode_utf8(bytes@),
{
    match std::str::from_utf8(bytes) {
        Ok(s) => Some(s.to_string()),
        Err(_) => None,
    }
}

/// The text that `bytes` encode in UTF-8, or `None` where they are no
/// well-formed UTF-8.
pub fn strict_utf8_decode(bytes: &[u8]) -> (r: Option<String>)
    ensures
        r is Some <==> valid_utf8(bytes@),
        r is Some ==> r->Some_0@ == decode_utf8(bytes@),
{
    utf8_to_string(bytes)
}

/// For a number that is not negative and a positive divisor, the division
/// that rounds toward zero is the division that rounds down.
pub proof fn lemma_trunc_of_positives(a: int, b: int)
    requires
        a >= 0,
        b > 0,
    ensures
        trunc_div(a, b) == a / b,
        trunc_rem(a, b) == a % b,
        a == b * (a / b) + a % b,
        0 <= a % b < b,
        a / b >= 0,
{
    lemma_fundamental_div_mod(a, b);
    lemma_mod_bound(a, b);
    assert(a / b >= 0) by (nonlinear_arith)
        requires
            a >= 0,
            b > 0,
            a == b * (a / b) + a % b,
            0 <= a % b < b,
    ;
}

/// The remainder of the division by a positive number that rounds toward
/// zero lies strictly between the divisor and its negative.
pub proof fn lemma_trunc_rem_range(a: int, m: int)
    requires
        m > 0,
    ensures
        -m < trunc_rem(a, m) < m,
        trunc_rem(a, m) == a - m * trunc_div(a, m),
{
    if a >= 0 {
        lemma_trunc_of_positives(a, m);
    } else {
        lemma_trunc_of_positives(-a, m);
        assert(m * (-((-a) / m)) == -(m * ((-a) / m))) by (nonlinear_arith);
    }
}

/// One step of Euclid's algorithm keeps what the algorithm knows: the two
/// remainders are combinations of `v` and `m`, and `v` and `m` are
/// combinations of the two remainders.
pub proof fn lemma_euclid_step(
    v: int,
    m: int,
    old_r: int,
    r: int,
    q: int,
    old_s: int,
    s: int,
    old_t: int,
    t: int,
    a: int,
    b: int,
    c: int,
    d: int,
)
    requires
        r == s * v + t * m,
        old_r == old_s * v + old_t * m,
        m == a * old_r + b * r,
        v == c * old_r + d * r,
    ensures
        old_r - q * r == (old_s - q * s) * v + (old_t - q * t) * m,
        m == (a * q + b) * r + a * (old_r - q * r),
        v == (c * q + d) * r + c * (old_r - q * r),
{
    assert(old_r - q * r == (old_s - q * s) * v + (old_t - q * t) * m) by (nonlinear_arith)
        requires
            r == s * v + t * m,
            old_r == old_s * v + old_t * m,
    ;
    assert(m == (a * q + b) * r + a * (old_r - q * r)) by (nonlinear_arith)
        requires
            m == a * old_r + b * r,
    ;
    assert(v == (c * q + d) * r + c * (old_r - q * r)) by (nonlinear_arith)
        requires
            v == c * old_r + d * r,
    ;
}

/// A number that shares a divisor of at least 2 with the modulus has no
/// inverse.
pub proof fn lemma_no_inverse(v: int, m: int, g: int, a: int, c: int, x: int)
    requires
        m >= 2,
        g >= 2,
        m == a * g,
        v == c * g,
    ensures
        (v * x) % m != 1,
{
    if (v * x) % m == 1 {
        lemma_fundamental_div_mod(v * x, m);
        let y = (v * x) / m;
        assert(g * (c * x - a * y) == 1) by (nonlinear_arith)
            requires
                v * x == m * y + 1,
                m == a * g,
                v == c * g,
        ;
        assert(false) by (nonlinear_arith)
            requires
                g >= 2,
                g * (c * x - a * y) == 1,
        ;
    }
}

/// Where a combination of `v` and `m` is 1, the coefficient of `v`, moved
/// by a multiple of `m`, is an inverse of `v`.
pub proof fn lemma_bezout_inverse(v: int, m: int, s: int, t: int, k: int, x: int)
    requires
        m >= 2,
        s * v + t * m == 1,
        x == s + k * m,
    ensures
        (v * x) % m == 1,
{
    assert(v * x == m * (v * k - t) + 1) by (nonlinear_arith)
        requires
            s * v + t * m == 1,
            x == s + k * m,
    ;
    lemma_mod_multiples_vanish(v * k - t, 1, m);
    lemma_small_mod(1, m as nat);
}

/// The inverse of `value` modulo `modulus`: the `x` in `[0, modulus)` with
/// `value * x` congruent to 1. There is none where `value` is not positive,
/// where `modulus` is under 2, and where no such `x` exists. The inverse
/// is found by Euclid's algorithm.
pub fn mod_inverse(value: &BigInteger, modulus: &BigInteger) -> (r: Option<BigInteger>)
    ensures
        match r {
            Some(x) => value@ > 0 && modulus@ >= 2 && 0 <= x@ < modulus@ && (value@ * x@)
                % modulus@ == 1,
            None => value@ <= 0 || modulus@ < 2 || forall|x: int|
                0 <= x < modulus@ ==> #[trigger] ((value@ * x) % modulus@) != 1,
        },
{
    let zero = BigInteger::zero();
    let one = BigInteger::from_i128(1);
    let two = BigInteger::from_i128(2);
    if value.le(&zero) || modulus.lt(&two) {
        return None;
    }
    let ghost v = value@;
    let ghost m = modulus@;
    let mut r = value.clone();
    let mut old_r = modulus.clone();
    let mut s = BigInteger::from_i128(1);
    let mut old_s = BigInteger::zero();
    let ghost mut t: int = 0;
    let ghost mut old_t: int = 1;
    let ghost mut a: int = 1;
    let ghost mut b: int = 0;
    let ghost mut c: int = 0;
    let ghost mut d: int = 1;
    while zero.lt(&r)
        invariant
            zero@ == 0,
            v == value@,
            m == modulus@,
            v > 0,
            m >= 2,
            r@ >= 0,
            old_r@ > 0,
            r@ == s@ * v + t * m,
            old_r@ == old_s@ * v + old_t * m,
            m == a * old_r@ + b * r@,
            v == c * old_r@ + d * r@,
        decreases r@,
    {
        let q = old_r.checked_div(&r).unwrap();
        let next_r = old_r.minus(&q.times(&r));
        let next_s = old_s.minus(&q.times(&s));
        proof {
            lemma_trunc_of_positives(old_r@, r@);
            assert(q@ * r@ == r@ * (old_r@ / r@)) by (nonlinear_arith)
                requires
                    q@ == old_r@ / r@,
            ;
            assert(next_r@ == old_r@ % r@);
            lemma_euclid_step(v, m, old_r@, r@, q@, old_s@, s@, old_t, t, a, b, c, d);
            let next_t = old_t - q@ * t;
            let next_a = a * q@ + b;
            let next_c = c * q@ + d;
            old_t = t;
            t = next_t;
            b = a;
            a = next_a;
            d = c;
            c = next_c;
        }
        old_r = r;
        r = next_r;
        old_s = s;
        s = next_s;
    }
    let rest = old_s.checked_rem(modulus).unwrap();
    let negative = rest.is_negative();
    let result = if negative {
        rest.plus(modulus)
    } else {
        rest
    };
    let ghost k: int = if negative {
        1 - trunc_div(old_s@, m)
    } else {
        -trunc_div(old_s@, m)
    };
    proof {
        lemma_trunc_rem_range(old_s@, m);
        assert(result@ == old_s@ + k * m) by (nonlinear_arith)
            requires
                result@ == old_s@ - m * trunc_div(old_s@, m) + if negative {
                    m
                } else {
                    0
                },
                k == if negative {
                    1 - trunc_div(old_s@, m)
                } else {
                    -trunc_div(old_s@, m)
                },
        ;
        assert(value@ * result@ >= 0) by (nonlinear_arith)
            requires
                value@ > 0,
                result@ >= 0,
        ;
        lemma_trunc_of_positives(value@ * result@, m);
    }
    let check = value.times(&result).checked_rem(modulus).unwrap();
    if !check.equals(&one) {
        proof {
            assert(b * r@ == 0 && d * r@ == 0) by (nonlinear_arith)
                requires
                    r@ == 0,
            ;
            if old_r@ == 1 {
                lemma_bezout_inverse(v, m, old_s@, old_t, k, result@);
            }
            assert forall|x: int| 0 <= x < modulus@ implies #[trigger] ((value@ * x) % modulus@)
                != 1 by {
                lemma_no_inverse(v, m, old_r@, a, c, x);
            }
        }
        return None;
    }
    Some(result)
}

/// A number is below two to the power of the number of its binary digits.
pub proof fn lemma_below_power(n: nat)
    ensures
        n < pow(2, bit_length(n)),
    decreases n,
{
    if n == 0 {
        lemma_pow0(2);
    } else {
        lemma_below_power(n / 2);
        lemma_pow_adds(2, 1, bit_length(n / 2));
        lemma_pow1(2);
    }
}

/// One step of Newton's iteration from `x` stays above the square root of
/// `v`, and a step that does not go down shows that `x` is not above it.
pub proof fn lemma_newton_step(v: int, x: int)
    requires
        v >= 0,
        x > 0,
    ensures
        ({
            let y = (v / x + x) / 2;
            &&& y >= 0
            &&& (y + 1) * (y + 1) > v
            &&& y >= x ==> x * x <= v
        }),
{
    lemma_trunc_of_positives(v, x);
    let q = v / x;
    let y = (q + x) / 2;
    assert(v < x * (q + 1)) by (nonlinear_arith)
        requires
            v == x * q + v % x,
            v % x < x,
    ;
    assert((q + 1 + x) * (q + 1 + x) >= 4 * (x * (q + 1))) by (nonlinear_arith);
    assert(4 * ((y + 1) * (y + 1)) >= (q + 1 + x) * (q + 1 + x)) by (nonlinear_arith)
        requires
            2 * (y + 1) >= q + 1 + x,
            q + 1 + x >= 0,
    ;
    if y >= x {
        assert(x * x <= x * q) by (nonlinear_arith)
            requires
                q >= x,
                x > 0,
        ;
    }
}

/// A first guess for the square root of `value` that is not below it: two
/// to the power of half the number of binary digits, rounded up.
fn sqrt_start(value: &BigInteger) -> (x: BigInteger)
    requires
        value@ >= 4,
    ensures
        x@ > 0,
        x@ * x@ >= value@,
{
    let one = BigInteger::from_i128(1);
    let bits: u64 = value.minus(&one).bits();
    let half: u64 = bits / 2 + bits % 2;
    if half > 0xFFFF_FFFF {
        assert(value@ * value@ >= value@) by (nonlinear_arith)
            requires
                value@ >= 4,
        ;
        value.clone()
    } else {
        proof {
            let n = (value@ - 1) as nat;
            assert(int_abs(value@ - 1) == n);
            lemma_below_power(n);
            lemma_pow_increases(2, bits as nat, (half + half) as nat);
            lemma_pow_adds(2, half as nat, half as nat);
            lemma_pow_positive(2, half as nat);
            assert(1 * pow(2, half as nat) == pow(2, half as nat));
        }
        one.shift_left(half as u32)
    }
}

/// The mean of `x` and the quotient of `value` by `x`, rounded down.
fn newton_step(value: &BigInteger, x: &BigInteger) -> (y: BigInteger)
    requires
        value@ >= 0,
        x@ > 0,
    ensures
        y@ == (value@ / x@ + x@) / 2,
{
    let two = BigInteger::from_i128(2);
    let q = value.checked_div(x).unwrap();
    let sum = q.plus(x);
    proof {
        lemma_trunc_of_positives(value@, x@);
        lemma_trunc_of_positives(sum@, 2);
    }
    sum.checked_div(&two).unwrap()
}

/// The square root of `value` rounded down, or `None` for a negative
/// number. The root is found by Newton's iteration.
pub fn sqrt(value: &BigInteger) -> (r: Option<BigInteger>)
    ensures
        r is Some <==> value@ >= 0,
        r is Some ==> {
            let s = r->Some_0@;
            s >= 0 && s * s <= value@ < (s + 1) * (s + 1)
        },
{
    if value.is_negative() {
        return None;
    }
    if value.is_zero() {
        return Some(BigInteger::zero());
    }
    let four = BigInteger::from_i128(4);
    if value.lt(&four) {
        return Some(BigInteger::from_i128(1));
    }
    let mut x = sqrt_start(value);
    let mut y = newton_step(value, &x);
    proof {
        assert((x@ + 1) * (x@ + 1) > value@) by (nonlinear_arith)
            requires
                x@ > 0,
                x@ * x@ >= value@,
        ;
    }
    while y.lt(&x)
        invariant
            value@ >= 4,
            x@ > 0,
            (x@ + 1) * (x@ + 1) > value@,
            y@ == (value@ / x@ + x@) / 2,
        decreases x@,
    {
        proof {
            lemma_newton_step(value@, x@);
            if y@ == 0 {
                assert((y@ + 1) * (y@ + 1) == 1) by (nonlinear_arith)
                    requires
                        y@ == 0,
                ;
            }
        }
        x = y;
        y = newton_step(value, &x);
    }
    proof {
        lemma_newton_step(value@, x@);
    }
    Some(x)
}

/// The number of binary digits of the absolute value of `value`, with 0 for
/// zero and for -1. A count that does not fit 32 bits is cut to its low 32
/// bits.
pub fn get_bit_length(value: &BigInteger) -> (r: u32)
    ensures
        r == if value@ == 0 || value@ == -1 {
            0
        } else {
            bit_length(int_abs(value@)) % 0x1_0000_0000
        },
{
    let minus_one = BigInteger::from_i128(-1);
    if value.is_zero() || value.equals(&minus_one) {
        return 0;
    }
    (value.bits() % 0x1_0000_0000) as u32
}

} // verus!
