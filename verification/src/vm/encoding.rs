use vstd::prelude::*;

verus! {

/// The value of one byte read as a signed 8-bit number in two's complement.
pub open spec fn signed8(b: u8) -> int {
    if b >= 128 {
        b - 256
    } else {
        b as int
    }
}

/// The unsigned value of the first two bytes of `s`, least significant first.
pub open spec fn le_u16(s: Seq<u8>) -> int
    recommends
        s.len() >= 2,
{
    s[0] + 256 * s[1]
}

/// The unsigned value of the first four bytes of `s`, least significant first.
pub open spec fn le_u32(s: Seq<u8>) -> int
    recommends
        s.len() >= 4,
{
    s[0] + 256 * s[1] + 65536 * s[2] + 16777216 * s[3]
}

/// The unsigned value of the first eight bytes of `s`, least significant first.
pub open spec fn le_u64(s: Seq<u8>) -> int
    recommends
        s.len() >= 8,
{
    le_u32(s) + 4294967296 * le_u32(s.skip(4))
}

/// The first two bytes of `s` read as a signed number in two's complement.
pub open spec fn le_i16(s: Seq<u8>) -> int
    recommends
        s.len() >= 2,
{
    if le_u16(s) >= 32768 {
        le_u16(s) - 65536
    } else {
        le_u16(s)
    }
}

/// The first four bytes of `s` read as a signed number in two's complement.
pub open spec fn le_i32(s: Seq<u8>) -> int
    recommends
        s.len() >= 4,
{
    if le_u32(s) >= 2147483648 {
        le_u32(s) - 4294967296
    } else {
        le_u32(s)
    }
}

/// The first eight bytes of `s` read as a signed number in two's complement.
pub open spec fn le_i64(s: Seq<u8>) -> int
    recommends
        s.len() >= 8,
{
    if le_u64(s) >= 9223372036854775808 {
        le_u64(s) - 18446744073709551616
    } else {
        le_u64(s)
    }
}

/// The two bytes that encode `v`, least significant first.
pub open spec fn u16_le_bytes(v: u16) -> Seq<u8> {
    seq![(v % 256) as u8, (v / 256) as u8]
}

/// The four bytes that encode `v`, least significant first.
pub open spec fn u32_le_bytes(v: u32) -> Seq<u8> {
    seq![
        (v % 256) as u8,
        (v / 256 % 256) as u8,
        (v / 65536 % 256) as u8,
        (v / 16777216) as u8,
    ]
}

/// The four bytes that encode `v` in two's complement, least significant first.
pub open spec fn i32_le_bytes(v: i32) -> Seq<u8> {
    if v >= 0 {
        u32_le_bytes(v as u32)
    } else {
        u32_le_bytes((v + 4294967296) as u32)
    }
}

pub fn read_i8(bytes: &[u8], at: usize) -> (r: i8)
    requires
        at < bytes@.len(),
    ensures
        r == signed8(bytes@[at as int]),
{
    let b: u8 = bytes[at];
    if b < 128 {
        b as i8
    } else {
        (b as i16 - 256) as i8
    }
}

pub fn read_u16(bytes: &[u8], at: usize) -> (r: u16)
    requires
        at + 2 <= bytes@.len(),
    ensures
        r == le_u16(bytes@.skip(at as int)),
{
    bytes[at] as u16 + 256 * (bytes[at + 1] as u16)
}

pub fn read_u32(bytes: &[u8], at: usize) -> (r: u32)
    requires
        at + 4 <= bytes@.len(),
    ensures
        r == le_u32(bytes@.skip(at as int)),
{
    bytes[at] as u32 + 256 * (bytes[at + 1] as u32) + 65536 * (bytes[at + 2] as u32) + 16777216
        * (bytes[at + 3] as u32)
}

pub fn read_i16(bytes: &[u8], at: usize) -> (r: i16)
    requires
        at + 2 <= bytes@.len(),
    ensures
        r == le_i16(bytes@.skip(at as int)),
{
    let u: u16 = read_u16(bytes, at);
    if u >= 32768 {
        (u as i32 - 65536) as i16
    } else {
        u as i16
    }
}

pub fn read_i32(bytes: &[u8], at: usize) -> (r: i32)
    requires
        at + 4 <= bytes@.len(),
    ensures
        r == le_i32(bytes@.skip(at as int)),
{
    let u: u32 = read_u32(bytes, at);
    if u >= 2147483648 {
        (u as i64 - 4294967296) as i32
    } else {
        u as i32
    }
}

pub fn read_i64(bytes: &[u8], at: usize) -> (r: i64)
    requires
        at + 8 <= bytes@.len(),
    ensures
        r == le_i64(bytes@.skip(at as int)),
{
    let len: usize = bytes.len();
    let lo: u32 = read_u32(bytes, at);
    let hi: u32 = read_u32(bytes, at + 4);
    assert(bytes@.skip(at as int).skip(4) =~= bytes@.skip(at + 4));
    let u: u64 = lo as u64 + 4294967296 * (hi as u64);
    if u >= 9223372036854775808 {
        (u as i128 - 18446744073709551616) as i64
    } else {
        u as i64
    }
}

/// Appends the two bytes of `v`, least significant first.
pub fn push_u16_le(out: &mut Vec<u8>, v: u16)
    ensures
        final(out)@ == old(out)@ + u16_le_bytes(v),
{
    out.push((v % 256) as u8);
    out.push((v / 256) as u8);
    assert(out@ =~= old(out)@ + u16_le_bytes(v));
}

/// Appends the four bytes of `v`, least significant first.
pub fn push_u32_le(out: &mut Vec<u8>, v: u32)
    ensures
        final(out)@ == old(out)@ + u32_le_bytes(v),
{
    out.push((v % 256) as u8);
    out.push((v / 256 % 256) as u8);
    out.push((v / 65536 % 256) as u8);
    out.push((v / 16777216) as u8);
    assert(out@ =~= old(out)@ + u32_le_bytes(v));
}

/// Appends the four bytes of `v` in two's complement, least significant first.
pub fn push_i32_le(out: &mut Vec<u8>, v: i32)
    ensures
        final(out)@ == old(out)@ + i32_le_bytes(v),
{
    if v >= 0 {
        push_u32_le(out, v as u32);
    } else {
        push_u32_le(out, (v as i64 + 4294967296) as u32);
    }
}

/// Reading back the four bytes written for a number gives the number.
pub proof fn lemma_u32_le_round_trip(v: u32)
    ensures
        le_u32(u32_le_bytes(v)) == v,
{
}

/// Reading back the four bytes written for a signed number gives the number.
pub proof fn lemma_i32_le_round_trip(v: i32)
    ensures
        le_i32(i32_le_bytes(v)) == v,
{
    if v >= 0 {
        lemma_u32_le_round_trip(v as u32);
    } else {
        lemma_u32_le_round_trip((v + 4294967296) as u32);
    }
}

} // verus!
