//! The Reed-Solomon erasure codec that recovers lost shards.
//!
//! The codec is that of the `reed-solomon-erasure` crate over GF(2^8). Its
//! arithmetic is not restated here: the shards that a reconstruction yields
//! are named by `reconstructed_shards`, and the contracts of this module say
//! of the crate's calls only when they succeed and which shards they leave
//! alone. Both are taken on trust from the crate's source.

use vstd::prelude::*;
use reed_solomon_erasure::galois_8::ReedSolomon;
use reed_solomon_erasure::Error;

verus! {

/// Largest number of shards, data and parity together, of one codec.
pub const CODEC_MAX_SHARDS: usize = 256;

/// `reed_solomon_erasure::Error`: why the codec refused a call. Nothing is
/// known of a value but that it is an error.
#[verifier::external_type_specification]
#[verifier::external_body]
pub struct ExCodecError(Error);

/// A codec made for a fixed number of data and parity shards: a
/// `reed_solomon_erasure::galois_8::ReedSolomon`. Nothing inside it is
/// known here; `codec_data_shards` and `codec_parity_shards` name the
/// counts that it was made with.
#[verifier::external_body]
pub struct Codec {
    inner: ReedSolomon,
}

/// The number of data shards that a codec was made for.
pub uninterp spec fn codec_data_shards(codec: Codec) -> nat;

/// The number of parity shards that a codec was made for.
pub uninterp spec fn codec_parity_shards(codec: Codec) -> nat;

/// The full set of shards that a codec of `data` data and `parity` parity
/// shards computes from a set with some shards absent.
pub uninterp spec fn reconstructed_shards(
    data: nat,
    parity: nat,
    shards: Seq<Option<Seq<u8>>>,
) -> Seq<Option<Seq<u8>>>;

/// The shards that `v` holds: each one absent, or present with its bytes.
pub open spec fn shard_set(v: Vec<Option<Vec<u8>>>) -> Seq<Option<Seq<u8>>> {
    Seq::new(
        v@.len(),
        |i: int|
            match v@[i] {
                Some(bytes) => Some(bytes@),
                None => None,
            },
    )
}

/// The number of shards that are present.
pub open spec fn present_count(shards: Seq<Option<Seq<u8>>>) -> nat
    decreases shards.len(),
{
    if shards.len() == 0 {
        0
    } else {
        present_count(shards.drop_last()) + if shards.last().is_some() {
            1nat
        } else {
            0nat
        }
    }
}

/// The condition under which a reconstruction succeeds: one entry per
/// shard of the codec, at least as many present as there are data shards,
/// and the present ones all of one length that is not zero.
pub open spec fn can_reconstruct(data: nat, parity: nat, shards: Seq<Option<Seq<u8>>>) -> bool {
    &&& shards.len() == data + parity
    &&& present_count(shards) >= data
    &&& forall|i: int| 0 <= i < shards.len() && shards[i].is_some() ==> (#[trigger] shards[i])->0.len() > 0
    &&& forall|i: int, j: int|
        0 <= i < shards.len() && 0 <= j < shards.len() && shards[i].is_some() && shards[j].is_some()
            ==> (#[trigger] shards[i])->0.len() == (#[trigger] shards[j])->0.len()
}

/// What a successful reconstruction leaves: every shard present, all of one
/// length, and each shard that was present before unchanged.
pub open spec fn restores(before: Seq<Option<Seq<u8>>>, after: Seq<Option<Seq<u8>>>) -> bool {
    &&& after.len() == before.len()
    &&& forall|i: int| 0 <= i < after.len() ==> (#[trigger] after[i]).is_some()
    &&& forall|i: int, j: int|
        0 <= i < after.len() && 0 <= j < after.len() ==> (#[trigger] after[i])->0.len() == (
        #[trigger] after[j])->0.len()
    &&& forall|i: int| 0 <= i < before.len() && before[i].is_some() ==> after[i] == #[trigger] before[i]
}

/// The shard counts for which a codec can be made.
pub open spec fn codec_accepts(data: nat, parity: nat) -> bool {
    data > 0 && parity > 0 && data + parity <= CODEC_MAX_SHARDS
}

/// `ReedSolomon::new`: makes a codec. It is refused without a data shard,
/// without a parity shard, and with more than 256 shards in all. Trusted.
#[verifier::external_body]
pub(crate) fn codec_new(data: usize, parity: usize) -> (r: Result<Codec, Error>)
    requires
        data + parity <= usize::MAX,
    ensures
        r.is_ok() == codec_accepts(data as nat, parity as nat),
        r matches Ok(codec) ==> codec_data_shards(codec) == data,
        r matches Ok(codec) ==> codec_parity_shards(codec) == parity,
{
    ReedSolomon::new(data, parity).map(|inner| Codec { inner })
}

/// `ReedSolomon::reconstruct`: fills in the absent shards. It succeeds
/// exactly under `can_reconstruct`; then all shards are present and those
/// that were present are unchanged. On an error nothing is touched. Trusted.
#[verifier::external_body]
pub(crate) fn codec_reconstruct(codec: &Codec, shards: &mut Vec<Option<Vec<u8>>>) -> (r: Result<
    (),
    Error,
>)
    ensures
        r.is_ok() == can_reconstruct(
            codec_data_shards(*codec),
            codec_parity_shards(*codec),
            shard_set(*old(shards)),
        ),
        r.is_ok() ==> shard_set(*final(shards)) == reconstructed_shards(
            codec_data_shards(*codec),
            codec_parity_shards(*codec),
            shard_set(*old(shards)),
        ),
        r.is_ok() ==> restores(shard_set(*old(shards)), shard_set(*final(shards))),
        r.is_err() ==> shard_set(*final(shards)) == shard_set(*old(shards)),
{
    codec.inner.reconstruct(shards)
}

} // verus!
