//! How a video frame is cut into shards for forward error correction.
//!
//! A frame of `size` bytes sent with `pct` percent of redundancy is cut
//! into data shards of `block_size` bytes, each carried by `shard_packets`
//! packets, and protected by parity shards. All quantities here are
//! functions of the two header fields `size` and `pct`.

use vstd::prelude::*;
use vstd::arithmetic::div_mod::{lemma_fundamental_div_mod, lemma_mod_bound};
use crate::legacy_packets::{ALVR_MAX_PACKET_SIZE, VIDEO_FRAME_HEADER_SIZE};

verus! {

/// Payload bytes of one full video packet.
pub const ALVR_MAX_VIDEO_BUFFER_SIZE: usize = ALVR_MAX_PACKET_SIZE - VIDEO_FRAME_HEADER_SIZE;

/// Cap on the shards of one frame, data and parity together.
pub const ALVR_FEC_SHARDS_MAX: usize = 20;

/// The most data shards that leave room for their parity under the cap.
pub open spec fn max_data_shards(pct: int) -> int {
    ((ALVR_FEC_SHARDS_MAX - 2) * 100 + 99 + pct) / (100 + pct)
}

/// Parity shards for `data` data shards: `pct` percent, rounded up.
pub open spec fn parity_shards(data: int, pct: int) -> int {
    (data * pct + 99) / 100
}

/// The smallest shard size that fits the frame into `max_data_shards`.
pub open spec fn min_block_size(size: int, pct: int) -> int {
    (size + max_data_shards(pct) - 1) / max_data_shards(pct)
}

/// Packets that make up one shard.
pub open spec fn shard_packets(size: int, pct: int) -> int {
    (min_block_size(size, pct) + ALVR_MAX_VIDEO_BUFFER_SIZE - 1) / (
    ALVR_MAX_VIDEO_BUFFER_SIZE as int)
}

/// Bytes of one shard.
pub open spec fn block_size(size: int, pct: int) -> int {
    shard_packets(size, pct) * ALVR_MAX_VIDEO_BUFFER_SIZE
}

/// Data shards of the frame: its size over the shard size, rounded up.
pub open spec fn data_shards(size: int, pct: int) -> int {
    if block_size(size, pct) <= 0 {
        0
    } else {
        (size + block_size(size, pct) - 1) / block_size(size, pct)
    }
}

/// Parity shards of the frame.
pub open spec fn frame_parity_shards(size: int, pct: int) -> int {
    parity_shards(data_shards(size, pct), pct)
}

/// All shards of the frame.
pub open spec fn total_shards(size: int, pct: int) -> int {
    data_shards(size, pct) + frame_parity_shards(size, pct)
}

/// Packets that carry frame bytes.
pub open spec fn data_packets(size: int) -> int {
    (size + ALVR_MAX_VIDEO_BUFFER_SIZE - 1) / (ALVR_MAX_VIDEO_BUFFER_SIZE as int)
}

/// Packets at the end of the last data shard that are never sent.
pub open spec fn padding_packets(size: int, pct: int) -> int {
    data_shards(size, pct) * shard_packets(size, pct) - data_packets(size)
}

/// Whether the redundancy `pct` keeps a full set of data shards and its
/// parity within the cap.
pub open spec fn sizing_within_cap(pct: int) -> bool {
    max_data_shards(pct) + parity_shards(max_data_shards(pct), pct) <= ALVR_FEC_SHARDS_MAX
}

/// Rounding a quotient up: the result is the least multiple count that
/// covers `a`.
pub proof fn lemma_ceil_div(a: int, d: int)
    requires
        a >= 0,
        d > 0,
    ensures
        ((a + d - 1) / d) * d >= a,
        ((a + d - 1) / d - 1) * d < a,
        (a + d - 1) / d >= 0,
        a > 0 ==> (a + d - 1) / d >= 1,
{
    let q = (a + d - 1) / d;
    let r = (a + d - 1) % d;
    lemma_fundamental_div_mod(a + d - 1, d);
    lemma_mod_bound(a + d - 1, d);
    assert(a + d - 1 == d * q + r);
    assert(q * d >= a && (q - 1) * d < a && q >= 0 && (a > 0 ==> q >= 1)) by (nonlinear_arith)
        requires
            a + d - 1 == d * q + r,
            0 <= r < d,
            a >= 0,
            d > 0,
    ;
}

/// The least count of `d`-sized blocks that covers `a` is no more than any
/// count that covers it.
pub proof fn lemma_ceil_div_least(a: int, d: int, n: int)
    requires
        a >= 0,
        d > 0,
        n * d >= a,
    ensures
        (a + d - 1) / d <= n,
{
    lemma_ceil_div(a, d);
    let q = (a + d - 1) / d;
    assert(q <= n) by (nonlinear_arith)
        requires
            (q - 1) * d < a,
            n * d >= a,
            d > 0,
    ;
}

/// Bounds on `max_data_shards`: between 1 and 18 for every redundancy.
pub proof fn lemma_max_data_shards_bounds(pct: int)
    requires
        0 <= pct,
    ensures
        1 <= max_data_shards(pct) <= 18,
        max_data_shards(pct) * (100 + pct) <= 1899 + pct,
{
    let d = 100 + pct;
    let q = (1899 + pct) / d;
    let r = (1899 + pct) % d;
    lemma_fundamental_div_mod(1899 + pct, d);
    lemma_mod_bound(1899 + pct, d);
    assert(1 <= q <= 18 && q * d <= 1899 + pct) by (nonlinear_arith)
        requires
            1899 + pct == d * q + r,
            0 <= r < d,
            d == 100 + pct,
            pct >= 0,
    ;
}

/// More data shards never need fewer parity shards.
pub proof fn lemma_parity_monotonic(a: int, b: int, pct: int)
    requires
        0 <= a <= b,
        0 <= pct,
    ensures
        0 <= parity_shards(a, pct) <= parity_shards(b, pct),
{
    assert(0 <= a * pct <= b * pct) by (nonlinear_arith)
        requires
            0 <= a <= b,
            0 <= pct,
    ;
}

/// With a redundancy of at most 101 percent the cap is always kept.
pub proof fn lemma_cap_kept_up_to_101(pct: int)
    requires
        0 <= pct <= 101,
    ensures
        sizing_within_cap(pct),
{
    lemma_max_data_shards_bounds(pct);
    let m = max_data_shards(pct);
    assert(m * pct + 99 < 100 * (21 - m)) by (nonlinear_arith)
        requires
            m * (100 + pct) <= 1899 + pct,
            pct <= 101,
    ;
}

/// Sizing of a frame. For every frame that is not empty, whatever the
/// redundancy: a shard takes at least one packet, a shard is at least the
/// frame size over `max_data_shards`, and there are between one and
/// `max_data_shards` data shards. Where the redundancy keeps the cap for a
/// full set of data shards, data and parity shards together stay within 20.
pub proof fn lemma_fec_sizing(size: int, pct: int)
    requires
        size > 0,
        0 <= pct,
    ensures
        shard_packets(size, pct) >= 1,
        block_size(size, pct) >= size / max_data_shards(pct),
        block_size(size, pct) * max_data_shards(pct) >= size,
        1 <= data_shards(size, pct) <= max_data_shards(pct),
        data_shards(size, pct) * block_size(size, pct) >= size,
        (data_shards(size, pct) - 1) * block_size(size, pct) < size,
        sizing_within_cap(pct) ==> total_shards(size, pct) <= ALVR_FEC_SHARDS_MAX,
        pct > 0 ==> frame_parity_shards(size, pct) >= 1,
{
    lemma_max_data_shards_bounds(pct);
    let m = max_data_shards(pct);
    let mb = min_block_size(size, pct);
    lemma_ceil_div(size, m);
    assert(mb >= 1 && mb * m >= size);
    lemma_ceil_div(mb, 1358);
    let sp = shard_packets(size, pct);
    let bs = block_size(size, pct);
    assert(sp >= 1);
    assert(bs >= mb);
    assert(bs * m >= size) by (nonlinear_arith)
        requires
            bs >= mb,
            mb * m >= size,
            m >= 1,
    ;
    lemma_ceil_div(size, bs);
    lemma_ceil_div_least(size, bs, m);
    let d = data_shards(size, pct);
    assert(bs >= size / m) by {
        lemma_fundamental_div_mod(size, m);
        lemma_mod_bound(size, m);
        let q = size / m;
        assert(bs >= q) by (nonlinear_arith)
            requires
                bs * m >= size,
                size == m * q + size % m,
                0 <= size % m,
                m >= 1,
        ;
    }
    lemma_parity_monotonic(d, m, pct);
    assert(pct > 0 ==> d * pct + 99 >= 100) by (nonlinear_arith)
        requires
            d >= 1,
            pct >= 0,
    ;
}

/// The packets of the data shards are the frame's packets and the padding;
/// the padding is shorter than one shard.
pub proof fn lemma_padding_bounds(size: int, pct: int)
    requires
        size > 0,
        0 <= pct,
    ensures
        1 <= data_packets(size) <= data_shards(size, pct) * shard_packets(size, pct),
        0 <= padding_packets(size, pct) < shard_packets(size, pct),
{
    lemma_fec_sizing(size, pct);
    let sp = shard_packets(size, pct);
    let bs = block_size(size, pct);
    let d = data_shards(size, pct);
    let n = data_packets(size);
    lemma_ceil_div(size, 1358);
    assert(d * sp * 1358 >= size) by (nonlinear_arith)
        requires
            d * bs >= size,
            bs == sp * 1358,
    ;
    lemma_ceil_div_least(size, 1358, d * sp);
    assert((d - 1) * sp < n) by (nonlinear_arith)
        requires
            (d - 1) * bs < size,
            bs == sp * 1358,
            n * 1358 >= size,
    ;
    assert(d * sp - n < sp) by (nonlinear_arith)
        requires
            (d - 1) * sp < n,
    ;
}

/// Parity shards for `data_shards` data shards at `fec_percentage` percent.
pub fn calculate_parity_shards(data_shards: u32, fec_percentage: u16) -> (parity: u32)
    requires
        data_shards * fec_percentage + 99 <= u32::MAX,
    ensures
        parity == parity_shards(data_shards as int, fec_percentage as int),
{
    assert(data_shards * fec_percentage >= 0) by (nonlinear_arith);
    (data_shards * (fec_percentage as u32) + 99) / 100
}

/// The most data shards under the cap at `fec_percentage` percent.
pub fn calculate_max_data_shards(fec_percentage: u16) -> (max: u32)
    ensures
        max == max_data_shards(fec_percentage as int),
        1 <= max <= 18,
{
    proof {
        lemma_max_data_shards_bounds(fec_percentage as int);
    }
    let pct: u32 = fec_percentage as u32;
    (1899 + pct) / (100 + pct)
}

/// Whether `fec_percentage` keeps a full set of data shards and its parity
/// within the cap.
pub fn is_sizing_within_cap(fec_percentage: u16) -> (ok: bool)
    ensures
        ok == sizing_within_cap(fec_percentage as int),
{
    let max: u32 = calculate_max_data_shards(fec_percentage);
    assert(max * fec_percentage + 99 <= u32::MAX) by (nonlinear_arith)
        requires
            max <= 18,
            fec_percentage <= 65535,
    ;
    let parity: u32 = calculate_parity_shards(max, fec_percentage);
    assert(parity <= 18 * 65535) by (nonlinear_arith)
        requires
            parity == (max * fec_percentage + 99) / 100,
            max <= 18,
            fec_percentage <= 65535,
    ;
    max + parity <= 20
}

/// How many packets make up one shard of a frame of `length` bytes.
pub fn calculate_fec_shard_packets(length: u32, fec_percentage: u16) -> (packets: u32)
    ensures
        packets == shard_packets(length as int, fec_percentage as int),
{
    let max: u32 = calculate_max_data_shards(fec_percentage);
    let min_block: u64 = (length as u64 + max as u64 - 1) / (max as u64);
    let packets: u64 = (min_block + 1357) / 1358;
    packets as u32
}

/// Whether a frame of `size` bytes at `pct` percent can be reassembled: it
/// is not empty, it has parity, the cap is kept, and its shards fit in
/// memory.
pub open spec fn frame_supported(size: int, pct: int) -> bool {
    &&& size > 0
    &&& pct > 0
    &&& sizing_within_cap(pct)
    &&& total_shards(size, pct) * block_size(size, pct) <= usize::MAX
}

/// The shard layout of one frame.
#[derive(Debug, Clone, Copy, PartialEq, Eq)]
pub struct ShardLayout {
    pub shard_packets: usize,
    pub block_size: usize,
    pub data_shards: usize,
    pub parity_shards: usize,
    pub total_shards: usize,
    pub padding: usize,
}

impl ShardLayout {
    /// Whether this is the layout of a frame of `size` bytes at `pct`
    /// percent.
    pub open spec fn is_layout_of(self, size: int, pct: int) -> bool {
        &&& self.shard_packets == shard_packets(size, pct)
        &&& self.block_size == block_size(size, pct)
        &&& self.data_shards == data_shards(size, pct)
        &&& self.parity_shards == frame_parity_shards(size, pct)
        &&& self.total_shards == total_shards(size, pct)
        &&& self.padding == padding_packets(size, pct)
    }
}

/// The layout of a frame of `length` bytes at `fec_percentage` percent;
/// `None` for a frame that cannot be reassembled.
pub fn frame_layout(length: u32, fec_percentage: u16) -> (r: Option<ShardLayout>)
    ensures
        r.is_some() == frame_supported(length as int, fec_percentage as int),
        r matches Some(layout) ==> layout.is_layout_of(length as int, fec_percentage as int),
{
    if length == 0 || fec_percentage == 0 || !is_sizing_within_cap(fec_percentage) {
        return None;
    }
    proof {
        lemma_max_data_shards_bounds(fec_percentage as int);
        lemma_fec_sizing(length as int, fec_percentage as int);
        lemma_padding_bounds(length as int, fec_percentage as int);
    }
    let packets: u64 = calculate_fec_shard_packets(length, fec_percentage) as u64;
    let block: u64 = packets * 1358;
    assert(block == block_size(length as int, fec_percentage as int));
    let data: u64 = (length as u64 + block - 1) / block;
    assert(data == data_shards(length as int, fec_percentage as int));
    assert(data * fec_percentage + 99 <= u32::MAX) by (nonlinear_arith)
        requires
            data <= 18,
            fec_percentage <= 65535,
    ;
    let parity: u64 = calculate_parity_shards(data as u32, fec_percentage) as u64;
    let total: u64 = data + parity;
    assert(total * block <= 20 * block) by (nonlinear_arith)
        requires
            total <= 20,
            block >= 0,
    ;
    let arena: u64 = total * block;
    if arena > usize::MAX as u64 {
        return None;
    }
    assert(data * packets <= 18 * packets && block <= total * block) by (nonlinear_arith)
        requires
            1 <= data <= 18,
            data <= total,
            packets >= 0,
            block >= 0,
    ;
    let sent: u64 = (length as u64 + 1357) / 1358;
    Some(
        ShardLayout {
            shard_packets: packets as usize,
            block_size: block as usize,
            data_shards: data as usize,
            parity_shards: parity as usize,
            total_shards: total as usize,
            padding: (data * packets - sent) as usize,
        },
    )
}

} // verus!
