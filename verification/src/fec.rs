//! Reassembly of video frames from packets, with recovery of lost packets
//! by a Reed-Solomon erasure code.
//!
//! A frame travels as data shards followed by parity shards; each shard is
//! cut into `shard_packets` packets, and the packet with index `k` of a
//! frame belongs to shard `k / shard_packets` and to column
//! `k % shard_packets`. The queue keeps one frame at a time in an arena of
//! one slot per packet. A column can be completed by the erasure code once
//! as many of its packets have arrived as there are data shards.

use vstd::prelude::*;
use bytes::Bytes;
use crate::byte_buf::{bytes_as_slice, bytes_copy_from_slice, bytes_of};
use crate::fec_geometry::{
    block_size, data_shards, frame_layout, frame_parity_shards, frame_supported,
    lemma_fec_sizing, lemma_padding_bounds, padding_packets, shard_packets, total_shards,
    ShardLayout, ALVR_MAX_VIDEO_BUFFER_SIZE,
};
use crate::legacy_packets::VideoFrameHeader;
use crate::rs_codec::{
    can_reconstruct, codec_data_shards, codec_new, codec_parity_shards, codec_reconstruct,
    present_count, reconstructed_shards, restores, shard_set, Codec,
};

verus! {

/// Why `FecQueue::reconstruct` did not yield a frame.
#[derive(Debug, Clone, Copy, PartialEq, Eq, Structural)]
pub enum ReconstructError {
    /// The current frame was recovered before.
    NoOp,
    /// Some column still lacks packets; more may arrive.
    NotEnoughParity,
    /// The erasure code refused a column. A queue whose invariant holds
    /// never reports this; see `FecState::reconstruct`.
    ReconstructFailed,
}

/// Why `FecQueue::add_video_packet` reports a packet.
#[derive(Debug, Clone, Copy, PartialEq, Eq, Structural)]
pub enum FecError {
    /// The packet was taken, and it shows that an earlier frame was lost.
    FecFailed,
    /// The packet starts a frame that cannot be reassembled; it was dropped.
    UnsupportedFrame,
    /// The packet does not fit the frame it belongs to; it was dropped.
    MalformedPacket,
}

/// The payload of a packet, filled up with zeros to a full slot.
pub open spec fn padded(payload: Seq<u8>) -> Seq<u8> {
    payload + Seq::new((ALVR_MAX_VIDEO_BUFFER_SIZE - payload.len()) as nat, |i: int| 0u8)
}

/// The bytes of slot `k` of an arena.
pub open spec fn slot(arena: Seq<u8>, k: int) -> Seq<u8> {
    arena.subrange(k * ALVR_MAX_VIDEO_BUFFER_SIZE, (k + 1) * ALVR_MAX_VIDEO_BUFFER_SIZE)
}

/// The arena with slot `k` replaced by `bytes`.
pub open spec fn write_slot(arena: Seq<u8>, k: int, bytes: Seq<u8>) -> Seq<u8> {
    arena.subrange(0, k * ALVR_MAX_VIDEO_BUFFER_SIZE) + bytes + arena.subrange(
        (k + 1) * ALVR_MAX_VIDEO_BUFFER_SIZE,
        arena.len() as int,
    )
}

/// How many of the marks `row[lo..hi]` say "received".
pub open spec fn count_received(row: Seq<u8>, lo: int, hi: int) -> nat
    decreases hi - lo,
{
    if lo >= hi {
        0
    } else {
        count_received(row, lo, hi - 1) + if row[hi - 1] == 0 {
            1nat
        } else {
            0nat
        }
    }
}

/// The state of a reassembly queue.
pub struct FecState {
    /// Header of the first packet seen of the current frame.
    pub frame: VideoFrameHeader,
    /// Whether the current frame has been recovered.
    pub recovered: bool,
    /// Packet counter expected at the start of the next frame; 0 for none.
    pub next_start: u32,
    /// `marks[column][shard]` is 1 while that packet is missing, else 0.
    pub marks: Seq<Seq<u8>>,
    /// Columns that need no more work.
    pub recovered_packet: Seq<bool>,
    /// One slot per packet, in packet order.
    pub arena: Seq<u8>,
}

impl FecState {
    /// Bytes of the current frame.
    pub open spec fn size(self) -> int {
        self.frame.frame_byte_size as int
    }

    /// Percent of redundancy of the current frame.
    pub open spec fn pct(self) -> int {
        self.frame.fec_percentage as int
    }

    /// Packets of one shard of the current frame: its columns.
    pub open spec fn sp(self) -> int {
        shard_packets(self.size(), self.pct())
    }

    /// Data shards of the current frame.
    pub open spec fn data(self) -> int {
        data_shards(self.size(), self.pct())
    }

    /// Parity shards of the current frame.
    pub open spec fn parity(self) -> int {
        frame_parity_shards(self.size(), self.pct())
    }

    /// All shards of the current frame.
    pub open spec fn total(self) -> int {
        total_shards(self.size(), self.pct())
    }

    /// The state of a queue that has seen no packet.
    pub open spec fn initial() -> FecState {
        FecState {
            frame: VideoFrameHeader {
                packet_type: 9,
                packet_counter: 0,
                tracking_frame_index: 0,
                video_frame_index: u64::MAX,
                sent_time: 0,
                frame_byte_size: 0,
                fec_index: 0,
                fec_percentage: 0,
            },
            recovered: true,
            next_start: 0,
            marks: Seq::empty(),
            recovered_packet: Seq::empty(),
            arena: Seq::empty(),
        }
    }

    /// The states that a queue can be in: no frame yet, or a frame that can
    /// be reassembled, with one mark and one slot per packet.
    pub open spec fn wf(self) -> bool {
        &&& frame_supported(self.size(), self.pct()) || (self.size() == 0 && self.pct() == 0
            && self.recovered)
        &&& self.marks.len() == self.sp()
        &&& forall|p: int| 0 <= p < self.marks.len() ==> (#[trigger] self.marks[p]).len() == self.total()
        &&& forall|p: int, s: int|
            0 <= p < self.marks.len() && 0 <= s < self.total() ==> (#[trigger] self.marks[p][s]) <= 1
        &&& self.recovered_packet.len() == self.sp()
        &&& self.arena.len() == self.total() * block_size(self.size(), self.pct())
    }

    /// Whether a packet with header `h` and `payload` fits the frame that
    /// `g` describes.
    pub open spec fn packet_fits(g: VideoFrameHeader, h: VideoFrameHeader, payload: Seq<u8>) -> bool {
        &&& h.fec_index < total_shards(g.frame_byte_size as int, g.fec_percentage as int)
            * shard_packets(g.frame_byte_size as int, g.fec_percentage as int)
        &&& payload.len() <= ALVR_MAX_VIDEO_BUFFER_SIZE
    }

    /// The packet counter of the first packet of the frame that `h`
    /// belongs to, modulo 2^32.
    pub open spec fn start_packet(h: VideoFrameHeader) -> u32 {
        let size = h.frame_byte_size as int;
        let pct = h.fec_percentage as int;
        if (h.fec_index as int) / shard_packets(size, pct) < data_shards(size, pct) {
            ((h.packet_counter - h.fec_index) % 0x1_0000_0000) as u32
        } else {
            ((h.packet_counter - (h.fec_index - padding_packets(size, pct))) % 0x1_0000_0000) as u32
        }
    }

    /// The packet counter at which the frame after that of `h` starts,
    /// modulo 2^32. The padding packets are never sent and take no counter.
    pub open spec fn next_start_packet(h: VideoFrameHeader) -> u32 {
        let size = h.frame_byte_size as int;
        let pct = h.fec_percentage as int;
        let sp = shard_packets(size, pct);
        if (h.fec_index as int) / sp < data_shards(size, pct) {
            ((h.packet_counter - h.fec_index + total_shards(size, pct) * sp - padding_packets(
                size,
                pct,
            )) % 0x1_0000_0000) as u32
        } else {
            ((h.packet_counter - (h.fec_index - data_shards(size, pct) * sp) + frame_parity_shards(
                size,
                pct,
            ) * sp) % 0x1_0000_0000) as u32
        }
    }

    /// The state at the start of the frame of `h`: nothing received but the
    /// padding packets, which are never sent, and an arena of zeros.
    pub open spec fn begin(h: VideoFrameHeader) -> FecState {
        let size = h.frame_byte_size as int;
        let pct = h.fec_percentage as int;
        let sp = shard_packets(size, pct);
        let total = total_shards(size, pct);
        FecState {
            frame: h,
            recovered: false,
            next_start: Self::next_start_packet(h),
            marks: Seq::new(
                sp as nat,
                |p: int|
                    Seq::new(
                        total as nat,
                        |s: int|
                            if s == data_shards(size, pct) - 1 && p >= sp - padding_packets(
                                size,
                                pct,
                            ) {
                                0u8
                            } else {
                                1u8
                            },
                    ),
            ),
            recovered_packet: Seq::new(sp as nat, |p: int| false),
            arena: Seq::new((total * block_size(size, pct)) as nat, |i: int| 0u8),
        }
    }

    /// The state after packet `k` arrived with `payload`.
    pub open spec fn store(self, k: int, payload: Seq<u8>) -> FecState {
        let p = k % self.sp();
        let s = k / self.sp();
        FecState {
            marks: self.marks.update(p, self.marks[p].update(s, 0u8)),
            arena: write_slot(self.arena, k, padded(payload)),
            ..self
        }
    }

    /// Whether the packet with header `h` shows that an earlier frame was
    /// lost: it starts a frame while the current one is not recovered, or it
    /// starts a frame at another packet counter than expected.
    pub open spec fn shows_loss(self, h: VideoFrameHeader) -> bool {
        &&& self.frame.video_frame_index != h.video_frame_index
        &&& !self.recovered || (self.next_start != 0 && self.next_start != Self::start_packet(h))
    }

    /// What `add_video_packet` does with the packet `(h, payload)`: the next
    /// state, and what is reported.
    pub open spec fn add(self, h: VideoFrameHeader, payload: Seq<u8>) -> (
        FecState,
        Result<(), FecError>,
    ) {
        if self.recovered && self.frame.video_frame_index == h.video_frame_index {
            (self, Ok(()))
        } else {
            let starts = self.frame.video_frame_index != h.video_frame_index;
            if starts && !frame_supported(h.frame_byte_size as int, h.fec_percentage as int) {
                (self, Err(FecError::UnsupportedFrame))
            } else if !Self::packet_fits(if starts { h } else { self.frame }, h, payload) {
                (self, Err(FecError::MalformedPacket))
            } else {
                let base = if starts { Self::begin(h) } else { self };
                let k = h.fec_index as int;
                let next = if base.marks[k % base.sp()][k / base.sp()] == 0 {
                    base
                } else {
                    base.store(k, payload)
                };
                (
                    next,
                    if self.shows_loss(h) {
                        Err(FecError::FecFailed)
                    } else {
                        Ok(())
                    },
                )
            }
        }
    }
}

/// No more packets are counted than the range has marks.
pub proof fn lemma_count_bound(row: Seq<u8>, lo: int, hi: int)
    requires
        lo <= hi,
    ensures
        count_received(row, lo, hi) <= hi - lo,
    decreases hi - lo,
{
    if lo < hi {
        lemma_count_bound(row, lo, hi - 1);
    }
}

/// A range without a received packet counts zero.
pub proof fn lemma_count_none(row: Seq<u8>, lo: int, hi: int)
    requires
        forall|i: int| lo <= i < hi ==> row[i] != 0,
    ensures
        count_received(row, lo, hi) == 0,
    decreases hi - lo,
{
    if lo < hi {
        lemma_count_none(row, lo, hi - 1);
    }
}

/// Marking one missing packet as received adds one to the count of each
/// range that holds it, and changes no other count.
pub proof fn lemma_count_update(row: Seq<u8>, lo: int, hi: int, s: int)
    requires
        0 <= lo <= hi <= row.len(),
        0 <= s < row.len(),
        row[s] != 0,
    ensures
        count_received(row.update(s, 0u8), lo, hi) == count_received(row, lo, hi) + if lo <= s
            < hi {
            1nat
        } else {
            0nat
        },
    decreases hi - lo,
{
    if lo < hi {
        lemma_count_update(row, lo, hi - 1, s);
    }
}

/// Counting over two adjoining ranges adds up.
pub proof fn lemma_count_split(row: Seq<u8>, lo: int, mid: int, hi: int)
    requires
        lo <= mid <= hi,
    ensures
        count_received(row, lo, hi) == count_received(row, lo, mid) + count_received(row, mid, hi),
    decreases hi - mid,
{
    if mid < hi {
        lemma_count_split(row, lo, mid, hi - 1);
    }
}

/// Column `p` of shard `i` is a packet of the frame.
pub proof fn lemma_slot_index(i: int, p: int, sp: int, total: int)
    requires
        0 <= i < total,
        0 <= p < sp,
    ensures
        0 <= i * sp + p < total * sp,
        (i * sp + p + 1) * 1358 <= total * (sp * 1358),
        (i * sp + p) / sp == i,
        (i * sp + p) % sp == p,
{
    assert(0 <= i * sp + p < total * sp && (i * sp + p + 1) * 1358 <= total * (sp * 1358))
        by (nonlinear_arith)
        requires
            0 <= i < total,
            0 <= p < sp,
    ;
    vstd::arithmetic::div_mod::lemma_fundamental_div_mod_converse(i * sp + p, sp, i, p);
}

/// Packet `k` lies in shard `k / sp` and column `k % sp`.
pub proof fn lemma_packet_place(k: int, sp: int, total: int)
    requires
        0 <= k < total * sp,
        0 < sp,
    ensures
        0 <= k / sp < total,
        0 <= k % sp < sp,
        k == (k / sp) * sp + k % sp,
        (k + 1) * 1358 <= total * (sp * 1358),
{
    vstd::arithmetic::div_mod::lemma_fundamental_div_mod(k, sp);
    vstd::arithmetic::div_mod::lemma_mod_bound(k, sp);
    let q = k / sp;
    let r = k % sp;
    assert(0 <= q < total && (k + 1) * 1358 <= total * (sp * 1358)) by (nonlinear_arith)
        requires
            k == sp * q + r,
            0 <= r < sp,
            0 <= k < total * sp,
    ;
    assert(sp * q == q * sp) by (nonlinear_arith);
}

/// Copies slot `k` out of the arena.
fn read_slot(arena: &Vec<u8>, k: usize) -> (bytes: Vec<u8>)
    requires
        (k + 1) * 1358 <= arena@.len(),
    ensures
        bytes@ == slot(arena@, k as int),
{
    let len: usize = arena.len();
    let start: usize = k * 1358;
    let mut bytes: Vec<u8> = Vec::new();
    let mut j: usize = 0;
    while j < 1358
        invariant
            j <= 1358,
            start == k * 1358,
            start + 1358 <= arena@.len(),
            arena@.len() == len,
            bytes@.len() == j,
            forall|i: int| 0 <= i < j ==> bytes@[i] == arena@[start + i],
        decreases 1358 - j,
    {
        bytes.push(arena[start + j]);
        j += 1;
    }
    assert(bytes@ =~= slot(arena@, k as int));
    bytes
}

/// Writes `payload`, filled up with zeros, into slot `k` of the arena.
fn fill_slot(arena: &mut Vec<u8>, k: usize, payload: &[u8])
    requires
        (k + 1) * 1358 <= old(arena)@.len(),
        payload@.len() <= 1358,
    ensures
        final(arena)@ == write_slot(old(arena)@, k as int, padded(payload@)),
{
    let len: usize = arena.len();
    let start: usize = k * 1358;
    let n: usize = payload.len();
    let mut j: usize = 0;
    while j < 1358
        invariant
            j <= 1358,
            n == payload@.len(),
            n <= 1358,
            start == k * 1358,
            start + 1358 <= arena@.len(),
            arena@.len() == old(arena)@.len(),
            arena@.len() == len,
            forall|i: int| 0 <= i < start ==> arena@[i] == old(arena)@[i],
            forall|i: int| start + j <= i < arena@.len() ==> arena@[i] == old(arena)@[i],
            forall|i: int| 0 <= i < j ==> arena@[start + i] == padded(payload@)[i],
        decreases 1358 - j,
    {
        let b: u8 = if j < n {
            payload[j]
        } else {
            0
        };
        arena[start + j] = b;
        j += 1;
    }
    assert(arena@ =~= write_slot(old(arena)@, k as int, padded(payload@)));
}

/// Before the first frame there is nothing to lay out.
pub proof fn lemma_initial_layout()
    ensures
        shard_packets(0, 0) == 0,
        block_size(0, 0) == 0,
        data_shards(0, 0) == 0,
        frame_parity_shards(0, 0) == 0,
        total_shards(0, 0) == 0,
{
    assert(crate::fec_geometry::max_data_shards(0) == 18);
    assert(crate::fec_geometry::min_block_size(0, 0) == 0);
    assert(shard_packets(0, 0) == 0);
    assert(block_size(0, 0) == 0);
    assert(data_shards(0, 0) == 0);
    assert(crate::fec_geometry::parity_shards(0, 0) == 0);
}

/// The marks of a queue, row by row.
pub open spec fn mark_rows(marks: Seq<Vec<u8>>) -> Seq<Seq<u8>> {
    Seq::new(marks.len(), |p: int| marks[p]@)
}

/// The reassembly queue of one video stream.
pub struct FecQueue {
    current_frame: VideoFrameHeader,
    shard_packets: usize,
    block_size: usize,
    total_data_shards: usize,
    total_parity_shards: usize,
    total_shards: usize,
    first_packet_of_next_frame: u32,
    marks: Vec<Vec<u8>>,
    frame_buffer: Vec<u8>,
    received_data_shards: Vec<u32>,
    received_parity_shard: Vec<u32>,
    recovered_packet: Vec<bool>,
    recovered: bool,
    rs: Option<Codec>,
}

impl View for FecQueue {
    type V = FecState;

    closed spec fn view(&self) -> FecState {
        FecState {
            frame: self.current_frame,
            recovered: self.recovered,
            next_start: self.first_packet_of_next_frame,
            marks: mark_rows(self.marks@),
            recovered_packet: self.recovered_packet@,
            arena: self.frame_buffer@,
        }
    }
}

impl FecQueue {
    /// The invariant of the queue: its state is one that a queue can be in,
    /// the stored layout is that of the current frame, the counters count
    /// the marks, and the codec is made for the frame's shards.
    pub closed spec fn wf(&self) -> bool {
        let v = self@;
        &&& v.wf()
        &&& self.shard_packets == v.sp()
        &&& self.block_size == block_size(v.size(), v.pct())
        &&& self.total_data_shards == v.data()
        &&& self.total_parity_shards == v.parity()
        &&& self.total_shards == v.total()
        &&& self.received_data_shards@.len() == v.sp()
        &&& self.received_parity_shard@.len() == v.sp()
        &&& forall|p: int|
            0 <= p < v.sp() ==> (#[trigger] self.received_data_shards@[p]) == count_received(
                self.marks@[p]@,
                0,
                v.data(),
            )
        &&& forall|p: int|
            0 <= p < v.sp() ==> (#[trigger] self.received_parity_shard@[p]) == count_received(
                self.marks@[p]@,
                v.data(),
                v.total(),
            )
        &&& frame_supported(v.size(), v.pct()) ==> (self.rs matches Some(codec)
            && codec_data_shards(codec) == v.data() && codec_parity_shards(codec) == v.parity())
    }

    /// What holds of every queue: its state is well formed.
    pub proof fn lemma_wf_state(&self)
        requires
            self.wf(),
        ensures
            self@.wf(),
    {
    }

    /// A queue that has seen no packet.
    pub fn new() -> (queue: FecQueue)
        ensures
            queue.wf(),
            queue@ == FecState::initial(),
    {
        let queue = FecQueue {
            current_frame: VideoFrameHeader {
                packet_type: 9,
                packet_counter: 0,
                tracking_frame_index: 0,
                video_frame_index: u64::MAX,
                sent_time: 0,
                frame_byte_size: 0,
                fec_index: 0,
                fec_percentage: 0,
            },
            shard_packets: 0,
            block_size: 0,
            total_data_shards: 0,
            total_parity_shards: 0,
            total_shards: 0,
            first_packet_of_next_frame: 0,
            marks: Vec::new(),
            frame_buffer: Vec::new(),
            received_data_shards: Vec::new(),
            received_parity_shard: Vec::new(),
            recovered_packet: Vec::new(),
            recovered: true,
            rs: None,
        };
        proof {
            lemma_initial_layout();
        }
        assert(queue@.marks =~= FecState::initial().marks);
        assert(queue@.recovered_packet =~= FecState::initial().recovered_packet);
        assert(queue@.arena =~= FecState::initial().arena);
        queue
    }

    /// Whether the current frame has been recovered.
    pub fn is_recovered(&self) -> (recovered: bool)
        ensures
            recovered == self@.recovered,
    {
        self.recovered
    }

    /// How many packets of the data shards of column `packet_index` are
    /// there, the padding counted in.
    pub fn received_data_shards(&self, packet_index: usize) -> (n: u32)
        requires
            self.wf(),
            packet_index < self@.sp(),
        ensures
            n == count_received(self@.marks[packet_index as int], 0, self@.data()),
            n <= self@.data(),
    {
        proof {
            if self@.size() > 0 {
                lemma_fec_sizing(self@.size(), self@.pct());
            } else {
                lemma_initial_layout();
            }
            lemma_count_bound(self@.marks[packet_index as int], 0, self@.data());
        }
        self.received_data_shards[packet_index]
    }

    /// How many packets of the parity shards of column `packet_index` are
    /// there.
    pub fn received_parity_shards(&self, packet_index: usize) -> (n: u32)
        requires
            self.wf(),
            packet_index < self@.sp(),
        ensures
            n == count_received(self@.marks[packet_index as int], self@.data(), self@.total()),
            n <= self@.parity(),
    {
        proof {
            if self@.size() > 0 {
                lemma_fec_sizing(self@.size(), self@.pct());
            } else {
                lemma_initial_layout();
            }
            lemma_count_bound(self@.marks[packet_index as int], self@.data(), self@.total());
        }
        self.received_parity_shard[packet_index]
    }

    /// The number of columns of the current frame: the packets of one
    /// shard.
    pub fn shard_packets(&self) -> (n: usize)
        requires
            self.wf(),
        ensures
            n == self@.sp(),
    {
        self.shard_packets
    }

    /// The header that started the current frame.
    pub fn current_frame(&self) -> (header: VideoFrameHeader)
        ensures
            header == self@.frame,
    {
        self.current_frame
    }
}

/// The packet counters at which the frame of `h` starts and at which the
/// next frame starts.
fn frame_bounds(h: &VideoFrameHeader, layout: &ShardLayout) -> (r: (u32, u32))
    requires
        frame_supported(h.frame_byte_size as int, h.fec_percentage as int),
        layout.is_layout_of(h.frame_byte_size as int, h.fec_percentage as int),
    ensures
        r.0 == FecState::start_packet(*h),
        r.1 == FecState::next_start_packet(*h),
{
    let ghost size = h.frame_byte_size as int;
    let ghost pct = h.fec_percentage as int;
    proof {
        lemma_fec_sizing(size, pct);
        lemma_padding_bounds(size, pct);
    }
    let pc: u64 = h.packet_counter as u64;
    let fi: u64 = h.fec_index as u64;
    let sp: u64 = layout.shard_packets as u64;
    let data: u64 = layout.data_shards as u64;
    let parity: u64 = layout.parity_shards as u64;
    let total: u64 = layout.total_shards as u64;
    let padding: u64 = layout.padding as u64;
    assert(sp * 1358 <= usize::MAX && total * sp <= 20 * sp && data * sp <= total * sp && parity
        * sp <= total * sp) by (nonlinear_arith)
        requires
            total * (sp * 1358) <= usize::MAX,
            1 <= data,
            1 <= parity,
            total == data + parity,
            total <= 20,
            sp >= 1,
    ;
    if fi / sp < data {
        let start: u64 = (pc + 0x1_0000_0000 - fi) % 0x1_0000_0000;
        let next: u64 = (pc + 0x1_0000_0000 - fi + total * sp - padding) % 0x1_0000_0000;
        proof {
            vstd::arithmetic::div_mod::lemma_mod_add_multiples_vanish(pc - fi, 0x1_0000_0000);
            vstd::arithmetic::div_mod::lemma_mod_add_multiples_vanish(
                pc - fi + total * sp - padding,
                0x1_0000_0000,
            );
        }
        (start as u32, next as u32)
    } else {
        proof {
            vstd::arithmetic::div_mod::lemma_fundamental_div_mod(fi as int, sp as int);
            vstd::arithmetic::div_mod::lemma_mod_bound(fi as int, sp as int);
        }
        assert(fi >= data * sp) by (nonlinear_arith)
            requires
                fi / sp >= data,
                sp >= 1,
                fi == sp * (fi / sp) + fi % sp,
                fi % sp >= 0,
        ;
        let start: u64 = (pc + 0x1_0000_0000 - (fi - padding)) % 0x1_0000_0000;
        let next: u64 = (pc + 0x1_0000_0000 - (fi - data * sp) + parity * sp) % 0x1_0000_0000;
        proof {
            vstd::arithmetic::div_mod::lemma_mod_add_multiples_vanish(
                pc - (fi - padding),
                0x1_0000_0000,
            );
            vstd::arithmetic::div_mod::lemma_mod_add_multiples_vanish(
                pc - (fi - data * sp) + parity * sp,
                0x1_0000_0000,
            );
        }
        (start as u32, next as u32)
    }
}

impl FecQueue {
    /// Starts the frame of `header`.
    fn begin_frame(&mut self, header: VideoFrameHeader, layout: ShardLayout, next_start: u32)
        requires
            frame_supported(header.frame_byte_size as int, header.fec_percentage as int),
            layout.is_layout_of(header.frame_byte_size as int, header.fec_percentage as int),
            next_start == FecState::next_start_packet(header),
        ensures
            final(self).wf(),
            final(self)@ == FecState::begin(header),
    {
        let ghost size = header.frame_byte_size as int;
        let ghost pct = header.fec_percentage as int;
        proof {
            lemma_fec_sizing(size, pct);
            lemma_padding_bounds(size, pct);
        }
        let sp: usize = layout.shard_packets;
        let data: usize = layout.data_shards;
        let total: usize = layout.total_shards;
        let padding: usize = layout.padding;
        let ghost row_of = |p: int|
            Seq::new(
                total as nat,
                |s: int|
                    if s == data - 1 && p >= sp - padding {
                        0u8
                    } else {
                        1u8
                    },
            );
        let mut marks: Vec<Vec<u8>> = Vec::new();
        let mut received_data: Vec<u32> = Vec::new();
        let mut received_parity: Vec<u32> = Vec::new();
        let mut recovered_packet: Vec<bool> = Vec::new();
        let mut p: usize = 0;
        while p < sp
            invariant
                p <= sp,
                1 <= data <= total,
                padding < sp,
                marks@.len() == p,
                received_data@.len() == p,
                received_parity@.len() == p,
                recovered_packet@.len() == p,
                row_of == |p: int|
                    Seq::new(
                        total as nat,
                        |s: int|
                            if s == data - 1 && p >= sp - padding {
                                0u8
                            } else {
                                1u8
                            },
                    ),
                forall|q: int| 0 <= q < p ==> (#[trigger] marks@[q])@ == row_of(q),
                forall|q: int|
                    0 <= q < p ==> (#[trigger] received_data@[q]) == count_received(
                        marks@[q]@,
                        0,
                        data as int,
                    ),
                forall|q: int|
                    0 <= q < p ==> (#[trigger] received_parity@[q]) == count_received(
                        marks@[q]@,
                        data as int,
                        total as int,
                    ),
                forall|q: int| 0 <= q < p ==> !(#[trigger] recovered_packet@[q]),
            decreases sp - p,
        {
            let mut row: Vec<u8> = vec![1u8; total];
            let is_padding: bool = p >= sp - padding;
            if is_padding {
                row[data - 1] = 0;
            }
            proof {
                assert(row@ =~= row_of(p as int));
                lemma_count_none(row@, 0, data - 1);
                lemma_count_none(row@, data as int, total as int);
                assert(count_received(row@, 0, data as int) == if is_padding {
                    1nat
                } else {
                    0nat
                });
            }
            marks.push(row);
            received_data.push(
                if is_padding {
                    1
                } else {
                    0
                },
            );
            received_parity.push(0);
            recovered_packet.push(false);
            p += 1;
        }
        let codec: Option<Codec> = match codec_new(data, layout.parity_shards) {
            Ok(codec) => Some(codec),
            Err(_) => None,
        };
        self.current_frame = header;
        self.recovered = false;
        self.shard_packets = sp;
        self.block_size = layout.block_size;
        self.total_data_shards = data;
        self.total_parity_shards = layout.parity_shards;
        self.total_shards = total;
        self.first_packet_of_next_frame = next_start;
        self.marks = marks;
        self.received_data_shards = received_data;
        self.received_parity_shard = received_parity;
        self.recovered_packet = recovered_packet;
        self.rs = codec;
        self.frame_buffer.clear();
        self.frame_buffer.resize(total * layout.block_size, 0u8);
        proof {
            let b = FecState::begin(header);
            assert(self@.marks =~= b.marks) by {
                assert forall|q: int| 0 <= q < sp implies self@.marks[q] == b.marks[q] by {
                    assert(self.marks@[q]@ == row_of(q));
                    assert(row_of(q) =~= b.marks[q]);
                }
            }
            assert(self@.recovered_packet =~= b.recovered_packet);
            assert(self@.arena =~= b.arena);
            assert(self@ == b);
        }
    }

    /// Takes in packet `fec_index`, which was missing.
    fn store_packet(&mut self, fec_index: usize, payload: &[u8])
        requires
            old(self).wf(),
            frame_supported(old(self)@.size(), old(self)@.pct()),
            fec_index < old(self)@.total() * old(self)@.sp(),
            payload@.len() <= 1358,
            old(self)@.marks[fec_index as int % old(self)@.sp()][fec_index as int / old(
                self,
            )@.sp()] != 0,
        ensures
            final(self).wf(),
            final(self)@ == old(self)@.store(fec_index as int, payload@),
    {
        let ghost v = self@;
        let ghost sp = v.sp();
        let ghost total = v.total();
        let ghost data = v.data();
        proof {
            lemma_fec_sizing(v.size(), v.pct());
            lemma_packet_place(fec_index as int, sp, total);
        }
        let shard_index: usize = fec_index / self.shard_packets;
        let packet_index: usize = fec_index % self.shard_packets;
        let ghost row = self.marks@[packet_index as int]@;
        assert(row == v.marks[packet_index as int]);
        assert(row.len() == total);
        self.marks[packet_index][shard_index] = 0;
        proof {
            assert(self.marks@[packet_index as int]@ =~= row.update(shard_index as int, 0u8));
            lemma_count_update(row, 0, data, shard_index as int);
            lemma_count_update(row, data, total, shard_index as int);
            lemma_count_bound(row, 0, data);
            lemma_count_bound(row, data, total);
        }
        if shard_index < self.total_data_shards {
            let n: u32 = self.received_data_shards[packet_index];
            self.received_data_shards[packet_index] = n + 1;
        } else {
            let n: u32 = self.received_parity_shard[packet_index];
            self.received_parity_shard[packet_index] = n + 1;
        }
        fill_slot(&mut self.frame_buffer, fec_index, payload);
        proof {
            let w = v.store(fec_index as int, payload@);
            assert(self@.marks =~= w.marks) by {
                assert forall|q: int| 0 <= q < sp implies self@.marks[q] == w.marks[q] by {
                    if q != packet_index {
                        assert(self.marks@[q] == old(self).marks@[q]);
                    }
                }
            }
            assert(self@ == w);
            assert forall|q: int| 0 <= q < sp implies (#[trigger] self.received_data_shards@[q])
                == count_received(self.marks@[q]@, 0, data) by {
                if q != packet_index {
                    assert(self.marks@[q] == old(self).marks@[q]);
                    assert(self.received_data_shards@[q] == old(self).received_data_shards@[q]);
                }
            }
            assert forall|q: int| 0 <= q < sp implies (#[trigger] self.received_parity_shard@[q])
                == count_received(self.marks@[q]@, data, total) by {
                if q != packet_index {
                    assert(self.marks@[q] == old(self).marks@[q]);
                    assert(self.received_parity_shard@[q] == old(self).received_parity_shard@[q]);
                }
            }
            assert forall|q: int, s: int|
                0 <= q < w.marks.len() && 0 <= s < w.total() implies (#[trigger] w.marks[q][s])
                <= 1 by {
                if q != packet_index {
                    assert(w.marks[q] == v.marks[q]);
                } else {
                    if s != shard_index {
                        assert(w.marks[q][s] == v.marks[q][s]);
                    }
                }
            }
        }
    }

    /// Takes in one video packet.
    ///
    /// A packet of a frame that was recovered already changes nothing. A
    /// packet with another video frame index than the current one starts a
    /// new frame, unless that frame cannot be reassembled. A packet that
    /// does not fit its frame is dropped. Otherwise the packet is marked as
    /// received and its payload stored, unless it is a duplicate. The
    /// result is `Err(FecError::FecFailed)` where the packet was taken and
    /// shows that an earlier frame was lost.
    pub fn add_video_packet(&mut self, header: VideoFrameHeader, payload: &Bytes) -> (r: Result<
        (),
        FecError,
    >)
        requires
            old(self).wf(),
        ensures
            final(self).wf(),
            (final(self)@, r) == old(self)@.add(header, bytes_of(*payload)),
    {
        if self.recovered && self.current_frame.video_frame_index == header.video_frame_index {
            return Ok(());
        }
        let data: &[u8] = bytes_as_slice(payload);
        let starts: bool = self.current_frame.video_frame_index != header.video_frame_index;
        let mut fec_failure: bool = false;
        proof {
            if !starts {
                self.lemma_unrecovered_is_supported();
            }
        }
        if starts {
            let layout: ShardLayout = match frame_layout(
                header.frame_byte_size,
                header.fec_percentage,
            ) {
                Some(layout) => layout,
                None => {
                    return Err(FecError::UnsupportedFrame);
                },
            };
            proof {
                lemma_fec_sizing(header.frame_byte_size as int, header.fec_percentage as int);
            }
            assert(layout.total_shards * layout.shard_packets <= usize::MAX) by (nonlinear_arith)
                requires
                    layout.total_shards * (layout.shard_packets * 1358) <= usize::MAX,
                    layout.total_shards >= 0,
                    layout.shard_packets >= 0,
            ;
            if header.fec_index as u64 >= (layout.total_shards * layout.shard_packets) as u64
                || data.len() > 1358 {
                return Err(FecError::MalformedPacket);
            }
            let bounds: (u32, u32) = frame_bounds(&header, &layout);
            if !self.recovered || (self.first_packet_of_next_frame != 0
                && self.first_packet_of_next_frame != bounds.0) {
                fec_failure = true;
            }
            self.begin_frame(header, layout, bounds.1);
        } else {
            assert(self.total_shards * self.shard_packets <= usize::MAX) by (nonlinear_arith)
                requires
                    self.total_shards * (self.shard_packets * 1358) <= usize::MAX,
                    self.total_shards >= 0,
                    self.shard_packets >= 0,
            ;
            if header.fec_index as u64 >= (self.total_shards * self.shard_packets) as u64
                || data.len() > 1358 {
                return Err(FecError::MalformedPacket);
            }
        }
        let fec_index: usize = header.fec_index as usize;
        proof {
            lemma_packet_place(fec_index as int, self@.sp(), self@.total());
        }
        let shard_index: usize = fec_index / self.shard_packets;
        let packet_index: usize = fec_index % self.shard_packets;
        assert(self@.marks[packet_index as int].len() == self@.total());
        assert(self@.marks[packet_index as int] == self.marks@[packet_index as int]@);
        if self.marks[packet_index][shard_index] != 0 {
            self.store_packet(fec_index, data);
        }
        if fec_failure {
            Err(FecError::FecFailed)
        } else {
            Ok(())
        }
    }

    /// A queue whose frame is not recovered holds a frame.
    proof fn lemma_unrecovered_is_supported(&self)
        requires
            self.wf(),
            !self@.recovered,
        ensures
            frame_supported(self@.size(), self@.pct()),
            self@.sp() >= 1,
            self@.total() * (self@.sp() * 1358) <= usize::MAX,
    {
        lemma_fec_sizing(self@.size(), self@.pct());
    }
}

/// The arena after the first `n` shards of column `p` were written from
/// `shards`.
pub open spec fn fill_column(
    arena: Seq<u8>,
    p: int,
    sp: int,
    shards: Seq<Option<Seq<u8>>>,
    n: int,
) -> Seq<u8>
    decreases n,
{
    if n <= 0 {
        arena
    } else {
        write_slot(fill_column(arena, p, sp, shards, n - 1), (n - 1) * sp + p, shards[n - 1]->0)
    }
}

impl FecState {
    /// The shards of column `p` as they stand: the packets that arrived,
    /// and gaps for those that are missing.
    pub open spec fn column_shards(self, p: int) -> Seq<Option<Seq<u8>>> {
        Seq::new(
            self.total() as nat,
            |i: int|
                if self.marks[p][i] == 0 {
                    Some(slot(self.arena, i * self.sp() + p))
                } else {
                    None
                },
        )
    }

    /// Whether all data packets of column `p` are there.
    pub open spec fn column_complete(self, p: int) -> bool {
        count_received(self.marks[p], 0, self.data()) == self.data()
    }

    /// Whether column `p` has as many packets as there are data shards.
    pub open spec fn column_ready(self, p: int) -> bool {
        count_received(self.marks[p], 0, self.total()) >= self.data()
    }

    /// The state after column `p` was looked at: a column that is complete
    /// is done; one that is ready is filled in by the erasure code and
    /// done; one that is neither is left for later.
    pub open spec fn recover_column(self, p: int) -> FecState {
        if self.recovered_packet[p] {
            self
        } else if self.column_complete(p) {
            FecState { recovered_packet: self.recovered_packet.update(p, true), ..self }
        } else if !self.column_ready(p) {
            self
        } else {
            FecState {
                recovered_packet: self.recovered_packet.update(p, true),
                arena: fill_column(
                    self.arena,
                    p,
                    self.sp(),
                    reconstructed_shards(
                        self.data() as nat,
                        self.parity() as nat,
                        self.column_shards(p),
                    ),
                    self.total(),
                ),
                ..self
            }
        }
    }

    /// The state after the first `n` columns were looked at in turn.
    pub open spec fn recover_columns(self, n: int) -> FecState
        decreases n,
    {
        if n <= 0 {
            self
        } else {
            self.recover_columns(n - 1).recover_column(n - 1)
        }
    }

    /// Whether every column is done.
    pub open spec fn all_recovered(self) -> bool {
        forall|p: int| 0 <= p < self.recovered_packet.len() ==> self.recovered_packet[p]
    }

    /// What `reconstruct` does: the next state, and what is reported. A
    /// frame that was recovered before is left alone. Else the columns are
    /// looked at in turn; with every column done the frame is recovered,
    /// and with a column left for later more packets are waited for.
    pub open spec fn reconstruct(self) -> (FecState, Result<(), ReconstructError>) {
        if self.recovered {
            (self, Err(ReconstructError::NoOp))
        } else {
            let next = self.recover_columns(self.sp());
            if next.all_recovered() {
                (FecState { recovered: true, ..next }, Ok(()))
            } else {
                (next, Err(ReconstructError::NotEnoughParity))
            }
        }
    }

    /// The bytes of the current frame as the arena holds them.
    pub open spec fn frame_bytes(self) -> Seq<u8> {
        self.arena.subrange(0, self.size())
    }

    /// The mark of packet `k`.
    pub open spec fn mark(self, k: int) -> u8 {
        self.marks[k % self.sp()][k / self.sp()]
    }

    /// Whether `after` has the frame and the marks of this state, and holds
    /// every packet that is marked as received as this state holds it.
    pub open spec fn keeps_received(self, after: FecState) -> bool {
        &&& after.frame == self.frame
        &&& after.marks == self.marks
        &&& after.arena.len() == self.arena.len()
        &&& forall|k: int|
            0 <= k < self.total() * self.sp() && #[trigger] self.mark(k) == 0 ==> slot(
                after.arena,
                k,
            ) == slot(self.arena, k)
    }
}

/// Writing one slot leaves every other slot as it was, and puts the bytes
/// written into the slot.
pub proof fn lemma_write_slot(arena: Seq<u8>, k: int, bytes: Seq<u8>, other: int)
    requires
        0 <= k,
        (k + 1) * 1358 <= arena.len(),
        bytes.len() == 1358,
        0 <= other,
        (other + 1) * 1358 <= arena.len(),
    ensures
        write_slot(arena, k, bytes).len() == arena.len(),
        slot(write_slot(arena, k, bytes), k) == bytes,
        other != k ==> slot(write_slot(arena, k, bytes), other) == slot(arena, other),
{
    assert(ALVR_MAX_VIDEO_BUFFER_SIZE == 1358);
    let w = write_slot(arena, k, bytes);
    let head = arena.subrange(0, k * 1358);
    let tail = arena.subrange((k + 1) * 1358, arena.len() as int);
    assert(w == head + bytes + tail);
    assert(head.len() == k * 1358);
    assert(w.len() == arena.len());
    assert(slot(w, k) =~= bytes);
    if other != k {
        assert(slot(w, other) =~= slot(arena, other));
    }
}

/// The shards present in a column are the packets marked as received.
pub proof fn lemma_present_count(shards: Seq<Option<Seq<u8>>>, row: Seq<u8>, n: int)
    requires
        0 <= n <= shards.len(),
        forall|i: int| 0 <= i < n ==> ((#[trigger] shards[i]).is_some() <==> row[i] == 0),
    ensures
        present_count(shards.subrange(0, n)) == count_received(row, 0, n),
    decreases n,
{
    if n > 0 {
        lemma_present_count(shards, row, n - 1);
        assert(shards.subrange(0, n).drop_last() =~= shards.subrange(0, n - 1));
        assert(shards.subrange(0, n).last() == shards[n - 1]);
    }
}

impl FecQueue {
    /// Looks at column `pi`; see `FecState::recover_column`.
    fn recover_column(&mut self, pi: usize) -> (r: Result<(), ReconstructError>)
        requires
            old(self).wf(),
            !old(self)@.recovered,
            pi < old(self)@.sp(),
        ensures
            final(self).wf(),
            final(self)@ == old(self)@.recover_column(pi as int),
            old(self)@.keeps_received(final(self)@),
            r.is_ok(),
    {
        let ghost v = self@;
        let ghost sp = v.sp();
        let ghost total = v.total();
        let ghost data = v.data();
        proof {
            self.lemma_unrecovered_is_supported();
            lemma_fec_sizing(v.size(), v.pct());
        }
        let ghost row = self.marks@[pi as int]@;
        assert(row == v.marks[pi as int]);
        assert(row.len() == total);
        proof {
            lemma_count_bound(row, 0, data);
            lemma_count_bound(row, data, total);
            lemma_count_split(row, 0, data, total);
        }
        if self.recovered_packet[pi] {
            return Ok(());
        }
        assert(self.received_data_shards@[pi as int] == count_received(row, 0, data));
        assert(self.received_parity_shard@[pi as int] == count_received(row, data, total));
        if self.received_data_shards[pi] as usize == self.total_data_shards {
            self.recovered_packet[pi] = true;
            assert(self@.marks =~= v.marks);
            assert(self@ == v.recover_column(pi as int));
            return Ok(());
        }
        let received: u32 = self.received_data_shards[pi] + self.received_parity_shard[pi];
        if (received as usize) < self.total_data_shards {
            return Ok(());
        }
        let mut column: Vec<Option<Vec<u8>>> = Vec::new();
        let mut i: usize = 0;
        while i < self.total_shards
            invariant
                i <= self.total_shards,
                self.total_shards == total,
                self.shard_packets == sp,
                pi < sp,
                self@ == v,
                sp == v.sp(),
                total == v.total(),
                row == v.marks[pi as int],
                self.marks@[pi as int]@ == row,
                row.len() == total,
                self.marks@.len() == sp,
                self.frame_buffer@.len() == total * (sp * 1358),
                total * (sp * 1358) <= usize::MAX,
                column@.len() == i,
                forall|j: int| 0 <= j < i ==> (#[trigger] shard_set(column)[j]) == v.column_shards(
                    pi as int,
                )[j],
            decreases self.total_shards - i,
        {
            proof {
                lemma_slot_index(i as int, pi as int, sp, total);
            }
            assert(i * self.shard_packets + pi + 1 <= usize::MAX) by (nonlinear_arith)
                requires
                    (i * sp + pi + 1) * 1358 <= total * (sp * 1358),
                    total * (sp * 1358) <= usize::MAX,
                    self.shard_packets == sp,
                    0 <= i * sp + pi,
            ;
            let ghost before = shard_set(column);
            if self.marks[pi][i] == 0 {
                let bytes: Vec<u8> = read_slot(&self.frame_buffer, i * self.shard_packets + pi);
                column.push(Some(bytes));
            } else {
                column.push(None);
            }
            proof {
                assert forall|j: int| 0 <= j < i + 1 implies (#[trigger] shard_set(column)[j])
                    == v.column_shards(pi as int)[j] by {
                    if j < i {
                        assert(shard_set(column)[j] == before[j]);
                    } else {
                        assert(v.arena == self.frame_buffer@);
                    }
                }
            }
            i += 1;
        }
        let ghost shards = v.column_shards(pi as int);
        assert(shard_set(column) =~= shards);
        proof {
            assert(v.arena.len() == total * (sp * 1358));
            assert forall|j: int| 0 <= j < total && shards[j].is_some() implies (
            #[trigger] shards[j])->0.len() == 1358 by {
                lemma_slot_index(j, pi as int, sp, total);
                assert(shards[j] == Some(slot(v.arena, j * sp + pi)));
                assert(slot(v.arena, j * sp + pi).len() == 1358);
            }
            lemma_present_count(shards, row, total);
            assert(shards.subrange(0, total) =~= shards);
            assert(can_reconstruct(data as nat, v.parity() as nat, shards));
        }
        let outcome = match &self.rs {
            Some(codec) => codec_reconstruct(codec, &mut column),
            None => {
                return Err(ReconstructError::ReconstructFailed);
            },
        };
        if outcome.is_err() {
            return Err(ReconstructError::ReconstructFailed);
        }
        let ghost filled = shard_set(column);
        assert(restores(shards, filled));
        proof {
            assert(present_count(shards) >= 1);
            lemma_some_present(shards);
            let w = choose|w: int| 0 <= w < shards.len() && shards[w].is_some();
            assert(filled[w] == shards[w]);
            assert forall|j: int| 0 <= j < total implies (#[trigger] filled[j]).is_some()
                && filled[j]->0.len() == 1358 by {
                assert(filled[j]->0.len() == filled[w]->0.len());
            }
        }
        let mut i: usize = 0;
        while i < self.total_shards
            invariant
                i <= self.total_shards,
                self.total_shards == total,
                self.shard_packets == sp,
                pi < sp,
                column@.len() == total,
                shard_set(column) == filled,
                forall|j: int| 0 <= j < total ==> (#[trigger] filled[j]).is_some() && filled[j]->0.len()
                    == 1358,
                self.frame_buffer@.len() == total * (sp * 1358),
                total * (sp * 1358) <= usize::MAX,
                self.frame_buffer@ == fill_column(v.arena, pi as int, sp, filled, i as int),
                sp == v.sp(),
                total == v.total(),
                row == v.marks[pi as int],
                v.arena.len() == total * (sp * 1358),
                shards == v.column_shards(pi as int),
                restores(shards, filled),
                forall|k: int|
                    0 <= k < total * sp && #[trigger] v.mark(k) == 0 ==> slot(
                        self.frame_buffer@,
                        k,
                    ) == slot(v.arena, k),
                self.current_frame == old(self).current_frame,
                self.recovered == old(self).recovered,
                self.first_packet_of_next_frame == old(self).first_packet_of_next_frame,
                self.marks == old(self).marks,
                self.recovered_packet == old(self).recovered_packet,
                self.received_data_shards == old(self).received_data_shards,
                self.received_parity_shard == old(self).received_parity_shard,
                self.rs == old(self).rs,
                self.block_size == old(self).block_size,
                self.total_data_shards == old(self).total_data_shards,
                self.total_parity_shards == old(self).total_parity_shards,
            decreases self.total_shards - i,
        {
            proof {
                lemma_slot_index(i as int, pi as int, sp, total);
                assert(filled[i as int].is_some());
                assert(shard_set(column)[i as int] == filled[i as int]);
            }
            assert(i * self.shard_packets + pi + 1 <= usize::MAX) by (nonlinear_arith)
                requires
                    (i * sp + pi + 1) * 1358 <= total * (sp * 1358),
                    total * (sp * 1358) <= usize::MAX,
                    self.shard_packets == sp,
                    0 <= i * sp + pi,
            ;
            let ghost before = self.frame_buffer@;
            match &column[i] {
                Some(bytes) => {
                    assert(padded(bytes@) =~= bytes@);
                    fill_slot(
                        &mut self.frame_buffer,
                        i * self.shard_packets + pi,
                        bytes.as_slice(),
                    );
                },
                None => {},
            }
            proof {
                let j = i * sp + pi;
                let written = filled[i as int]->0;
                assert(self.frame_buffer@ == write_slot(before, j, written));
                assert forall|k: int|
                    0 <= k < total * sp && #[trigger] v.mark(k) == 0 implies slot(
                    self.frame_buffer@,
                    k,
                ) == slot(v.arena, k) by {
                    lemma_packet_place(k, sp, total);
                    lemma_write_slot(before, j, written, k);
                    if k == j {
                        assert(v.mark(k) == row[i as int]);
                        assert(shards[i as int] == Some(slot(v.arena, j)));
                        assert(filled[i as int] == shards[i as int]);
                    }
                }
            }
            i += 1;
        }
        self.recovered_packet[pi] = true;
        proof {
            assert(self@.marks =~= v.marks);
            assert(self@ == v.recover_column(pi as int));
        }
        Ok(())
    }

    /// Tries to complete the current frame.
    ///
    /// Each column that is not done yet is looked at once: with all its data
    /// packets it is done; with as many packets as there are data shards its
    /// missing packets are computed by the erasure code and written into the
    /// arena. With every column done the frame is recovered.
    pub fn reconstruct(&mut self) -> (r: Result<(), ReconstructError>)
        requires
            old(self).wf(),
        ensures
            final(self).wf(),
            (final(self)@, r) == old(self)@.reconstruct(),
            old(self)@.keeps_received(final(self)@),
    {
        if self.recovered {
            return Err(ReconstructError::NoOp);
        }
        let ghost v = self@;
        let mut ret: bool = true;
        let mut pi: usize = 0;
        while pi < self.shard_packets
            invariant
                self.wf(),
                !self@.recovered,
                pi <= self.shard_packets,
                self@.frame == v.frame,
                self.shard_packets == v.sp(),
                self@ == v.recover_columns(pi as int),
                v.keeps_received(self@),
                ret == (forall|q: int| 0 <= q < pi ==> self@.recovered_packet[q]),
            decreases self.shard_packets - pi,
        {
            let ghost before = self@;
            if self.recover_column(pi).is_err() {
                return Err(ReconstructError::ReconstructFailed);
            }
            assert(self.recovered_packet@ == self@.recovered_packet);
            assert(forall|q: int| 0 <= q < pi ==> self@.recovered_packet[q]
                == before.recovered_packet[q]);
            assert(v.keeps_received(self@)) by {
                assert forall|k: int|
                    0 <= k < v.total() * v.sp() && #[trigger] v.mark(k) == 0 implies slot(
                    self@.arena,
                    k,
                ) == slot(v.arena, k) by {
                    assert(before.mark(k) == v.mark(k));
                }
            }
            if !self.recovered_packet[pi] {
                ret = false;
            }
            pi += 1;
        }
        assert(self@.recovered_packet.len() == v.sp());
        if ret {
            self.recovered = true;
            assert(self@.marks =~= v.recover_columns(v.sp()).marks);
            Ok(())
        } else {
            Err(ReconstructError::NotEnoughParity)
        }
    }

    /// The bytes of the current frame, copied out of the arena: as many
    /// bytes from its start as the frame has.
    pub fn get_frame_buffer(&self) -> (frame: Bytes)
        requires
            self.wf(),
        ensures
            bytes_of(frame) == self@.frame_bytes(),
    {
        proof {
            if self@.size() > 0 {
                lemma_fec_sizing(self@.size(), self@.pct());
                let d = self@.data();
                let t = self@.total();
                let b = block_size(self@.size(), self@.pct());
                assert(t * b >= d * b) by (nonlinear_arith)
                    requires
                        t >= d,
                        b >= 0,
                ;
            }
        }
        let size: usize = self.current_frame.frame_byte_size as usize;
        let all: &[u8] = self.frame_buffer.as_slice();
        bytes_copy_from_slice(vstd::slice::slice_subrange(all, 0, size))
    }
}

/// A set of shards with a positive count has a shard that is present.
pub proof fn lemma_some_present(shards: Seq<Option<Seq<u8>>>)
    requires
        present_count(shards) >= 1,
    ensures
        exists|w: int| 0 <= w < shards.len() && shards[w].is_some(),
    decreases shards.len(),
{
    if shards.len() > 0 {
        if shards.last().is_some() {
            assert(shards[shards.len() - 1].is_some());
        } else {
            lemma_some_present(shards.drop_last());
            let w = choose|w: int| 0 <= w < shards.drop_last().len() && shards.drop_last()[w].is_some();
            assert(shards[w].is_some());
        }
    }
}

} // verus!
