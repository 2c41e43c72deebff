//! Little-endian integer fields on byte strings.
//!
//! The wire formats of this crate lay their integer fields out in
//! little-endian order without padding. The specification side states the
//! value of a field arithmetically; the executable side reads and appends
//! fields and is proved against it.

use vstd::prelude::*;

verus! {

/// The 16-bit value stored in little-endian order at `at`.
pub open spec fn u16_at(s: Seq<u8>, at: int) -> int {
    s[at] as int + 256 * (s[at + 1] as int)
}

/// The 32-bit value stored in little-endian order at `at`.
pub open spec fn u32_at(s: Seq<u8>, at: int) -> int {
    s[at] as int + 256 * (s[at + 1] as int) + 65536 * (s[at + 2] as int) + 16777216 * (s[at
        + 3] as int)
}

/// The 64-bit value stored in little-endian order at `at`.
pub open spec fn u64_at(s: Seq<u8>, at: int) -> int {
    u32_at(s, at) + 4294967296 * u32_at(s, at + 4)
}

/// The two bytes that hold `v` in little-endian order.
#[verifier::opaque]
pub open spec fn u16_bytes(v: u16) -> Seq<u8> {
    seq![(v % 256) as u8, (v / 256) as u8]
}

/// The four bytes that hold `v` in little-endian order.
#[verifier::opaque]
pub open spec fn u32_bytes(v: u32) -> Seq<u8> {
    seq![
        (v % 256) as u8,
        ((v / 256) % 256) as u8,
        ((v / 65536) % 256) as u8,
        (v / 16777216) as u8,
    ]
}

/// The eight bytes that hold `v` in little-endian order.
#[verifier::opaque]
pub open spec fn u64_bytes(v: u64) -> Seq<u8> {
    u32_bytes((v % 4294967296) as u32) + u32_bytes((v / 4294967296) as u32)
}

/// Reading back what `u16_bytes` wrote gives the value.
pub proof fn lemma_u16_round_trip(v: u16)
    ensures
        u16_bytes(v).len() == 2,
        u16_at(u16_bytes(v), 0) == v,
{
    reveal(u16_bytes);
}

/// Reading back what `u32_bytes` wrote gives the value.
pub proof fn lemma_u32_round_trip(v: u32)
    ensures
        u32_bytes(v).len() == 4,
        u32_at(u32_bytes(v), 0) == v,
{
    reveal(u32_bytes);
}

/// Reading back what `u64_bytes` wrote gives the value.
pub proof fn lemma_u64_round_trip(v: u64)
    ensures
        u64_bytes(v).len() == 8,
        u64_at(u64_bytes(v), 0) == v,
{
    reveal(u64_bytes);
    let lo = (v % 4294967296) as u32;
    let hi = (v / 4294967296) as u32;
    lemma_u32_round_trip(lo);
    lemma_u32_round_trip(hi);
    let a = u32_bytes(lo);
    let b = u32_bytes(hi);
    let s = a + b;
    assert(s[0] == a[0] && s[1] == a[1] && s[2] == a[2] && s[3] == a[3]);
    assert(s[4] == b[0] && s[5] == b[1] && s[6] == b[2] && s[7] == b[3]);
    assert(u32_at(s, 0) == lo);
    assert(u32_at(s, 4) == hi);
}

/// A field read at `at` is within the range of its type.
pub proof fn lemma_field_ranges(s: Seq<u8>, at: int)
    ensures
        0 <= u16_at(s, at) <= u16::MAX,
        0 <= u32_at(s, at) <= u32::MAX,
        0 <= u64_at(s, at) <= u64::MAX,
{
}

/// Writing the 16-bit value found at `at` reproduces the two bytes there.
pub proof fn lemma_u16_bytes_of_field(s: Seq<u8>, at: int)
    requires
        0 <= at,
        at + 2 <= s.len(),
    ensures
        u16_bytes(u16_at(s, at) as u16) == s.subrange(at, at + 2),
{
    reveal(u16_bytes);
    assert(u16_bytes(u16_at(s, at) as u16) =~= s.subrange(at, at + 2));
}

proof fn lemma_u32_digits(b0: u8, b1: u8, b2: u8, b3: u8)
    ensures
        ({
            let v = b0 as int + 256 * (b1 as int) + 65536 * (b2 as int) + 16777216 * (b3 as int);
            &&& 0 <= v <= u32::MAX
            &&& v % 256 == b0
            &&& (v / 256) % 256 == b1
            &&& (v / 65536) % 256 == b2
            &&& v / 16777216 == b3
        }),
{
}

/// Writing the 32-bit value found at `at` reproduces the four bytes there.
pub proof fn lemma_u32_bytes_of_field(s: Seq<u8>, at: int)
    requires
        0 <= at,
        at + 4 <= s.len(),
    ensures
        u32_bytes(u32_at(s, at) as u32) == s.subrange(at, at + 4),
{
    reveal(u32_bytes);
    lemma_u32_digits(s[at], s[at + 1], s[at + 2], s[at + 3]);
    assert(u32_bytes(u32_at(s, at) as u32) =~= s.subrange(at, at + 4));
}

proof fn lemma_u64_halves(lo: u32, hi: u32)
    ensures
        ({
            let v = lo as int + 4294967296 * (hi as int);
            &&& 0 <= v <= u64::MAX
            &&& v % 4294967296 == lo
            &&& v / 4294967296 == hi
        }),
{
}

/// Writing the 64-bit value found at `at` reproduces the eight bytes there.
pub proof fn lemma_u64_bytes_of_field(s: Seq<u8>, at: int)
    requires
        0 <= at,
        at + 8 <= s.len(),
    ensures
        u64_bytes(u64_at(s, at) as u64) == s.subrange(at, at + 8),
{
    reveal(u64_bytes);
    lemma_field_ranges(s, at);
    lemma_field_ranges(s, at + 4);
    let lo = u32_at(s, at) as u32;
    let hi = u32_at(s, at + 4) as u32;
    lemma_u64_halves(lo, hi);
    lemma_u32_bytes_of_field(s, at);
    lemma_u32_bytes_of_field(s, at + 4);
    assert(s.subrange(at, at + 4) + s.subrange(at + 4, at + 8) =~= s.subrange(at, at + 8));
}

/// A 16-bit field is read back from wherever its bytes stand in `s`.
pub proof fn lemma_u16_in(s: Seq<u8>, at: int, v: u16)
    requires
        0 <= at,
        at + 2 <= s.len(),
        s.subrange(at, at + 2) == u16_bytes(v),
    ensures
        u16_at(s, at) == v,
{
    let b = s.subrange(at, at + 2);
    assert(s[at] == b[0] && s[at + 1] == b[1]);
    lemma_u16_round_trip(v);
}

/// A 32-bit field is read back from wherever its bytes stand in `s`.
pub proof fn lemma_u32_in(s: Seq<u8>, at: int, v: u32)
    requires
        0 <= at,
        at + 4 <= s.len(),
        s.subrange(at, at + 4) == u32_bytes(v),
    ensures
        u32_at(s, at) == v,
{
    let b = s.subrange(at, at + 4);
    assert(s[at] == b[0] && s[at + 1] == b[1] && s[at + 2] == b[2] && s[at + 3] == b[3]);
    lemma_u32_round_trip(v);
}

/// A 64-bit field is read back from wherever its bytes stand in `s`.
pub proof fn lemma_u64_in(s: Seq<u8>, at: int, v: u64)
    requires
        0 <= at,
        at + 8 <= s.len(),
        s.subrange(at, at + 8) == u64_bytes(v),
    ensures
        u64_at(s, at) == v,
{
    let b = s.subrange(at, at + 8);
    assert(s[at] == b[0] && s[at + 1] == b[1] && s[at + 2] == b[2] && s[at + 3] == b[3]);
    assert(s[at + 4] == b[4] && s[at + 5] == b[5] && s[at + 6] == b[6] && s[at + 7] == b[7]);
    lemma_u64_round_trip(v);
}

/// Reads the 16-bit little-endian field at `at`.
pub fn read_u16_le(buf: &[u8], at: usize) -> (v: u16)
    requires
        at + 2 <= buf.len(),
    ensures
        v == u16_at(buf@, at as int),
{
    buf[at] as u16 + 256 * (buf[at + 1] as u16)
}

/// Reads the 32-bit little-endian field at `at`.
pub fn read_u32_le(buf: &[u8], at: usize) -> (v: u32)
    requires
        at + 4 <= buf.len(),
    ensures
        v == u32_at(buf@, at as int),
{
    buf[at] as u32 + 256 * (buf[at + 1] as u32) + 65536 * (buf[at + 2] as u32) + 16777216 * (
    buf[at + 3] as u32)
}

/// Reads the 64-bit little-endian field at `at`.
pub fn read_u64_le(buf: &[u8], at: usize) -> (v: u64)
    requires
        at + 8 <= buf.len(),
    ensures
        v == u64_at(buf@, at as int),
{
    let lo: u32 = read_u32_le(buf, at);
    let hi: u32 = read_u32_le(buf, at + 4);
    lo as u64 + 4294967296 * (hi as u64)
}

/// Appends `v` as two little-endian bytes.
pub fn push_u16_le(out: &mut Vec<u8>, v: u16)
    ensures
        final(out)@ == old(out)@ + u16_bytes(v),
{
    out.push((v % 256) as u8);
    out.push((v / 256) as u8);
    proof {
        reveal(u16_bytes);
        assert(out@ =~= old(out)@ + u16_bytes(v));
    }
}

/// Appends `v` as four little-endian bytes.
pub fn push_u32_le(out: &mut Vec<u8>, v: u32)
    ensures
        final(out)@ == old(out)@ + u32_bytes(v),
{
    out.push((v % 256) as u8);
    out.push(((v / 256) % 256) as u8);
    out.push(((v / 65536) % 256) as u8);
    out.push((v / 16777216) as u8);
    proof {
        reveal(u32_bytes);
        assert(out@ =~= old(out)@ + u32_bytes(v));
    }
}

/// Appends `v` as eight little-endian bytes.
pub fn push_u64_le(out: &mut Vec<u8>, v: u64)
    ensures
        final(out)@ == old(out)@ + u64_bytes(v),
{
    push_u32_le(out, (v % 4294967296) as u32);
    push_u32_le(out, (v / 4294967296) as u32);
    proof {
        reveal(u64_bytes);
        assert(out@ =~= old(out)@ + u64_bytes(v));
    }
}

} // verus!
