//! The byte buffers that packets and frames travel in.
//!
//! Buffers are `bytes::Bytes` values. Verus does not look inside them: what
//! a buffer holds is named by `bytes_of`, and each operation used by this
//! crate is called through a function whose contract is taken on trust from
//! the `bytes` crate.

use vstd::prelude::*;
use bytes::Buf;
use bytes::Bytes;
use crate::wire::u32_at;

verus! {

/// `bytes::Bytes`: a buffer of bytes. Nothing inside it is known here;
/// `bytes_of` names what it holds.
#[verifier::external_type_specification]
#[verifier::external_body]
pub struct ExBytes(Bytes);

/// The bytes that a buffer holds, first to last.
pub uninterp spec fn bytes_of(b: Bytes) -> Seq<u8>;

/// `Bytes::len`: the number of bytes held. Trusted.
#[verifier::external_body]
pub(crate) fn bytes_len(b: &Bytes) -> (n: usize)
    ensures
        n == bytes_of(*b).len(),
{
    b.len()
}

/// `Bytes::as_ref`: the held bytes as a slice. Trusted.
#[verifier::external_body]
pub(crate) fn bytes_as_slice(b: &Bytes) -> (s: &[u8])
    ensures
        s@ == bytes_of(*b),
{
    b.as_ref()
}

/// `Bytes::copy_from_slice`: a new buffer that holds a copy of `data`. Trusted.
#[verifier::external_body]
pub(crate) fn bytes_copy_from_slice(data: &[u8]) -> (b: Bytes)
    ensures
        bytes_of(b) == data@,
{
    Bytes::copy_from_slice(data)
}

/// `Bytes::split_to`: takes the first `at` bytes out of `b` and returns
/// them; `b` keeps the rest. The call panics when `at` exceeds the length,
/// which `requires` rules out. Trusted.
#[verifier::external_body]
pub(crate) fn bytes_split_to(b: &mut Bytes, at: usize) -> (head: Bytes)
    requires
        at <= bytes_of(*old(b)).len(),
    ensures
        bytes_of(head) == bytes_of(*old(b)).subrange(0, at as int),
        bytes_of(*final(b)) == bytes_of(*old(b)).subrange(
            at as int,
            bytes_of(*old(b)).len() as int,
        ),
{
    b.split_to(at)
}

/// `Bytes::split_off`: takes the bytes from `at` on out of `b` and returns
/// them; `b` keeps the first `at`. The call panics when `at` exceeds the
/// length, which `requires` rules out. Trusted.
#[verifier::external_body]
pub(crate) fn bytes_split_off(b: &mut Bytes, at: usize) -> (tail: Bytes)
    requires
        at <= bytes_of(*old(b)).len(),
    ensures
        bytes_of(tail) == bytes_of(*old(b)).subrange(at as int, bytes_of(*old(b)).len() as int),
        bytes_of(*final(b)) == bytes_of(*old(b)).subrange(0, at as int),
{
    b.split_off(at)
}

/// `Buf::get_u32_le` on `Bytes`: reads a little-endian 32-bit value from the
/// front and advances past it. The call panics on fewer than four bytes,
/// which `requires` rules out. Trusted.
#[verifier::external_body]
pub(crate) fn bytes_get_u32_le(b: &mut Bytes) -> (v: u32)
    requires
        bytes_of(*old(b)).len() >= 4,
    ensures
        v == u32_at(bytes_of(*old(b)), 0),
        bytes_of(*final(b)) == bytes_of(*old(b)).subrange(4, bytes_of(*old(b)).len() as int),
{
    b.get_u32_le()
}

/// `Bytes::clone`: another handle on the same bytes. Trusted.
#[verifier::external_body]
pub(crate) fn bytes_clone(b: &Bytes) -> (c: Bytes)
    ensures
        bytes_of(c) == bytes_of(*b),
{
    b.clone()
}

} // verus!
