//! What the reassembly queue guarantees about the bytes of a frame.
//!
//! The laws here speak of the states of the queue (`FecState`) and of a
//! frame as the server cut it into packets. They show that
//!
//! - a frame whose data packets all arrived is handed on byte for byte, in
//!   whatever order the packets came and whatever parity came with them;
//! - a frame is reported as recovered as soon as every column has as many
//!   packets as there are data shards: with all parity there, as many data
//!   packets of a column may be lost as there are parity shards;
//! - recovery leaves every packet that did arrive as it arrived.
//!
//! The bytes that fill the gaps are those that the erasure codec computes
//! from the packets that did arrive. That they are the bytes that were sent
//! is a property of the codec, and is not shown here.

use vstd::prelude::*;
use crate::fec::{
    count_received, lemma_packet_place, lemma_slot_index, lemma_write_slot, padded, slot,
    FecState, ReconstructError,
};
use crate::fec_geometry::{
    block_size, data_packets, frame_supported, lemma_fec_sizing, lemma_padding_bounds,
    ALVR_MAX_VIDEO_BUFFER_SIZE,
};
use crate::legacy_packets::VideoFrameHeader;

verus! {

/// The payload of data packet `k` of `frame`: the next 1358 bytes, or what
/// is left of the frame.
pub open spec fn packet_payload(frame: Seq<u8>, k: int) -> Seq<u8> {
    frame.subrange(
        k * 1358,
        if (k + 1) * 1358 <= frame.len() {
            (k + 1) * 1358
        } else {
            frame.len() as int
        },
    )
}

impl FecState {
    /// Whether every data packet that is marked as received stands in the
    /// arena as `frame` has it.
    pub open spec fn holds(self, frame: Seq<u8>) -> bool {
        forall|k: int|
            0 <= k < data_packets(self.size()) && #[trigger] self.mark(k) == 0 ==> slot(
                self.arena,
                k,
            ) == padded(packet_payload(frame, k))
    }

    /// Whether every packet of the data shards is marked as received.
    pub open spec fn data_complete(self) -> bool {
        forall|k: int| 0 <= k < self.data() * self.sp() ==> #[trigger] self.mark(k) == 0
    }

    /// The state with the first `n` columns done and nothing else changed.
    pub open spec fn with_columns_done(self, n: int) -> FecState {
        FecState {
            recovered_packet: Seq::new(
                self.recovered_packet.len(),
                |p: int| p < n || self.recovered_packet[p],
            ),
            ..self
        }
    }
}

/// A row of marks that are all "received" counts every one of them.
pub proof fn lemma_count_all(row: Seq<u8>, lo: int, hi: int)
    requires
        lo <= hi,
        forall|i: int| lo <= i < hi ==> row[i] == 0,
    ensures
        count_received(row, lo, hi) == hi - lo,
    decreases hi - lo,
{
    if lo < hi {
        lemma_count_all(row, lo, hi - 1);
    }
}

/// At the start of a frame the state is well formed, the marks that say
/// "received" are those of the padding, and so no data packet is held yet.
pub proof fn lemma_begin(h: VideoFrameHeader, frame: Seq<u8>)
    requires
        frame_supported(h.frame_byte_size as int, h.fec_percentage as int),
    ensures
        FecState::begin(h).wf(),
        FecState::begin(h).holds(frame),
        !FecState::begin(h).recovered,
        forall|k: int|
            0 <= k < FecState::begin(h).total() * FecState::begin(h).sp() ==> (
            #[trigger] FecState::begin(h).mark(k) == 0 <==> data_packets(h.frame_byte_size as int)
                <= k < FecState::begin(h).data() * FecState::begin(h).sp()),
{
    let b = FecState::begin(h);
    let size = h.frame_byte_size as int;
    let pct = h.fec_percentage as int;
    lemma_fec_sizing(size, pct);
    lemma_padding_bounds(size, pct);
    let sp = b.sp();
    let total = b.total();
    let data = b.data();
    assert forall|k: int| 0 <= k < total * sp implies (#[trigger] b.mark(k) == 0 <==> data_packets(
        size,
    ) <= k < data * sp) by {
        lemma_packet_place(k, sp, total);
        let p = k % sp;
        let s = k / sp;
        assert(k == s * sp + p);
        if s == data - 1 {
            assert(s * sp + sp == data * sp) by (nonlinear_arith)
                requires
                    s == data - 1,
            ;
        } else if s < data - 1 {
            assert(s * sp + sp <= (data - 1) * sp) by (nonlinear_arith)
                requires
                    s < data - 1,
                    sp >= 0,
            ;
            assert((data - 1) * sp == data * sp - sp) by (nonlinear_arith);
        } else {
            assert(s * sp >= data * sp) by (nonlinear_arith)
                requires
                    s >= data,
                    sp >= 0,
            ;
        }
    }
    assert(data * sp <= total * sp) by (nonlinear_arith)
        requires
            data <= total,
            sp >= 0,
    ;
    assert(b.holds(frame)) by {
        assert forall|k: int| 0 <= k < data_packets(b.size()) && #[trigger] b.mark(k) == 0 implies slot(
            b.arena,
            k,
        ) == padded(packet_payload(frame, k)) by {
            assert(k < total * sp);
        }
    }
}

/// Storing a packet keeps the state well formed, marks that packet and no
/// other, and keeps what the arena holds of `frame`, provided that a data
/// packet brings the bytes that `frame` has for it.
pub proof fn lemma_store(st: FecState, frame: Seq<u8>, k: int, payload: Seq<u8>)
    requires
        st.wf(),
        frame_supported(st.size(), st.pct()),
        st.holds(frame),
        0 <= k < st.total() * st.sp(),
        payload.len() <= 1358,
        k < data_packets(st.size()) ==> payload == packet_payload(frame, k),
    ensures
        st.store(k, payload).wf(),
        st.store(k, payload).holds(frame),
        st.store(k, payload).mark(k) == 0,
        forall|j: int|
            0 <= j < st.total() * st.sp() && j != k ==> #[trigger] st.store(k, payload).mark(j)
                == st.mark(j),
{
    let w = st.store(k, payload);
    let sp = st.sp();
    let total = st.total();
    lemma_fec_sizing(st.size(), st.pct());
    lemma_padding_bounds(st.size(), st.pct());
    lemma_packet_place(k, sp, total);
    let p = k % sp;
    let s = k / sp;
    assert(block_size(st.size(), st.pct()) == sp * 1358);
    assert(st.arena.len() == total * (sp * 1358));
    assert(padded(payload).len() == 1358);
    lemma_write_slot(st.arena, k, padded(payload), k);
    assert(st.marks[p].len() == total);
    assert forall|j: int| 0 <= j < total * sp && j != k implies #[trigger] w.mark(j) == st.mark(
        j,
    ) by {
        lemma_packet_place(j, sp, total);
        if j % sp == p {
            assert(j / sp != s);
        }
    }
    assert(w.wf()) by {
        assert forall|q: int| 0 <= q < w.marks.len() implies (#[trigger] w.marks[q]).len()
            == w.total() by {
            if q != p {
                assert(w.marks[q] == st.marks[q]);
            }
        }
        assert forall|q: int, r: int|
            0 <= q < w.marks.len() && 0 <= r < w.total() implies (#[trigger] w.marks[q][r])
            <= 1 by {
            if q != p {
                assert(w.marks[q] == st.marks[q]);
            } else if r != s {
                assert(w.marks[q][r] == st.marks[q][r]);
            }
        }
    }
    assert(data_packets(st.size()) <= total * sp) by {
        assert(st.data() * sp <= total * sp) by (nonlinear_arith)
            requires
                st.data() <= total,
                sp >= 0,
        ;
    }
    assert(w.holds(frame)) by {
        assert forall|j: int| 0 <= j < data_packets(w.size()) && #[trigger] w.mark(j) == 0 implies slot(
            w.arena,
            j,
        ) == padded(packet_payload(frame, j)) by {
            lemma_packet_place(j, sp, total);
            lemma_write_slot(st.arena, k, padded(payload), j);
            if j != k {
                assert(w.mark(j) == st.mark(j));
                assert(st.mark(j) == 0);
            }
        }
    }
}

/// Looking at the columns of a frame whose data shards are complete marks
/// the columns as done and changes nothing else.
pub proof fn lemma_complete_columns(st: FecState, n: int)
    requires
        st.wf(),
        frame_supported(st.size(), st.pct()),
        st.data_complete(),
        0 <= n <= st.sp(),
    ensures
        st.recover_columns(n) == st.with_columns_done(n),
    decreases n,
{
    lemma_fec_sizing(st.size(), st.pct());
    if n > 0 {
        lemma_complete_columns(st, n - 1);
        let before = st.with_columns_done(n - 1);
        let p = n - 1;
        let sp = st.sp();
        let data = st.data();
        assert(before.marks == st.marks);
        assert forall|s: int| 0 <= s < data implies st.marks[p][s] == 0 by {
            lemma_slot_index(s, p, sp, data);
            assert(st.mark(s * sp + p) == 0);
        }
        lemma_count_all(st.marks[p], 0, data);
        assert(before.column_complete(p));
        assert(before.recover_column(p).recovered_packet =~= st.with_columns_done(
            n,
        ).recovered_packet);
    } else {
        assert(st.with_columns_done(0).recovered_packet =~= st.recovered_packet);
    }
}

/// A frame whose data packets all arrived is recovered as it was sent:
/// `reconstruct` reports success, leaves the arena alone, and the bytes of
/// the frame in the arena are those of `frame`.
pub proof fn lemma_complete_frame_is_recovered(st: FecState, frame: Seq<u8>)
    requires
        st.wf(),
        frame_supported(st.size(), st.pct()),
        !st.recovered,
        frame.len() == st.size(),
        st.holds(frame),
        st.data_complete(),
    ensures
        st.reconstruct().1 == Ok::<(), ReconstructError>(()),
        st.reconstruct().0.recovered,
        st.reconstruct().0.arena == st.arena,
        st.reconstruct().0.frame_bytes() == frame,
{
    let sp = st.sp();
    let total = st.total();
    let data = st.data();
    let size = st.size();
    lemma_fec_sizing(size, st.pct());
    lemma_padding_bounds(size, st.pct());
    lemma_complete_columns(st, sp);
    let done = st.with_columns_done(sp);
    assert(done.all_recovered());
    assert(block_size(size, st.pct()) == sp * 1358);
    assert(data * (sp * 1358) <= total * (sp * 1358)) by (nonlinear_arith)
        requires
            data <= total,
            sp >= 0,
    ;
    assert(st.frame_bytes() =~= frame) by {
        assert forall|i: int| 0 <= i < size implies st.arena[i] == frame[i] by {
            let k = i / 1358;
            assert(ALVR_MAX_VIDEO_BUFFER_SIZE == 1358);
            assert(data_packets(size) == (size + 1357) / 1358);
            assert(0 <= k < data_packets(size));
            assert(k < data * sp);
            assert(st.mark(k) == 0);
            assert(data * sp * 1358 == data * (sp * 1358)) by (nonlinear_arith);
            let held = slot(st.arena, k);
            assert(held == padded(packet_payload(frame, k)));
            assert(held[i - k * 1358] == st.arena[i]);
            assert(packet_payload(frame, k)[i - k * 1358] == frame[i]);
        }
    }
}

/// Taking in a packet keeps the state well formed. Where the packet is
/// one of `frame` (it starts the frame, or the queue holds packets of
/// `frame` already), and a data packet brings the bytes that `frame` has
/// for it, the queue holds packets of `frame` afterwards.
pub proof fn lemma_add_keeps_frame(
    st: FecState,
    frame: Seq<u8>,
    h: VideoFrameHeader,
    payload: Seq<u8>,
)
    requires
        st.wf(),
        st.frame.video_frame_index == h.video_frame_index ==> st.holds(frame),
        ({
            let g = if st.frame.video_frame_index != h.video_frame_index {
                h
            } else {
                st.frame
            };
            h.fec_index < data_packets(g.frame_byte_size as int) ==> payload == packet_payload(
                frame,
                h.fec_index as int,
            )
        }),
    ensures
        st.add(h, payload).0.wf(),
        st.add(h, payload).0.frame.video_frame_index == h.video_frame_index ==> st.add(
            h,
            payload,
        ).0.holds(frame),
{
    let next = st.add(h, payload).0;
    let starts = st.frame.video_frame_index != h.video_frame_index;
    if st.recovered && !starts {
    } else if starts && !frame_supported(h.frame_byte_size as int, h.fec_percentage as int) {
    } else if !FecState::packet_fits(if starts { h } else { st.frame }, h, payload) {
    } else {
        let base = if starts {
            FecState::begin(h)
        } else {
            st
        };
        if starts {
            lemma_begin(h, frame);
        }
        let k = h.fec_index as int;
        if base.marks[k % base.sp()][k / base.sp()] != 0 {
            lemma_store(base, frame, k, payload);
        }
    }
}

/// A frame has no more than 20 shards, data and parity together.
pub proof fn lemma_shard_cap(st: FecState)
    requires
        st.wf(),
    ensures
        0 <= st.data(),
        0 <= st.parity(),
        st.data() + st.parity() == st.total(),
        st.total() <= 20,
{
    if st.size() > 0 {
        lemma_fec_sizing(st.size(), st.pct());
        crate::fec_geometry::lemma_parity_monotonic(0, st.data(), st.pct());
    } else {
        crate::fec::lemma_initial_layout();
    }
}

/// Once a frame is recovered, nothing changes the state for that frame:
/// its packets are passed over, and `reconstruct` does nothing.
pub proof fn lemma_recovered_frame_is_frozen(st: FecState, h: VideoFrameHeader, payload: Seq<u8>)
    requires
        st.recovered,
        h.video_frame_index == st.frame.video_frame_index,
    ensures
        st.add(h, payload) == (st, Ok::<(), crate::fec::FecError>(())),
        st.reconstruct() == (st, Err::<(), ReconstructError>(ReconstructError::NoOp)),
{
}

/// A state that keeps the received packets of another keeps what that
/// state holds of `frame`.
pub proof fn lemma_kept_packets_hold(st: FecState, after: FecState, frame: Seq<u8>)
    requires
        st.wf(),
        frame_supported(st.size(), st.pct()),
        st.keeps_received(after),
        st.holds(frame),
    ensures
        after.holds(frame),
{
    lemma_fec_sizing(st.size(), st.pct());
    lemma_padding_bounds(st.size(), st.pct());
    assert(st.data() * st.sp() <= st.total() * st.sp()) by (nonlinear_arith)
        requires
            st.data() <= st.total(),
            st.sp() >= 0,
    ;
    assert forall|k: int| 0 <= k < data_packets(after.size()) && #[trigger] after.mark(k) == 0 implies slot(
        after.arena,
        k,
    ) == padded(packet_payload(frame, k)) by {
        assert(st.mark(k) == 0);
    }
}

impl FecState {
    /// Whether every column has as many packets as there are data shards.
    pub open spec fn every_column_ready(self) -> bool {
        forall|p: int| 0 <= p < self.sp() ==> #[trigger] self.column_ready(p)
    }
}

/// Looking at the columns of a frame of which every column is ready marks
/// the columns as done, and changes neither the marks nor the frame.
pub proof fn lemma_ready_columns(st: FecState, n: int)
    requires
        st.wf(),
        st.every_column_ready(),
        0 <= n <= st.sp(),
    ensures
        st.recover_columns(n).frame == st.frame,
        st.recover_columns(n).marks == st.marks,
        st.recover_columns(n).recovered == st.recovered,
        st.recover_columns(n).recovered_packet.len() == st.recovered_packet.len(),
        forall|q: int| 0 <= q < n ==> st.recover_columns(n).recovered_packet[q],
        forall|q: int|
            n <= q < st.sp() ==> st.recover_columns(n).recovered_packet[q]
                == st.recovered_packet[q],
    decreases n,
{
    if n > 0 {
        lemma_ready_columns(st, n - 1);
        let before = st.recover_columns(n - 1);
        assert(before.column_ready(n - 1) == st.column_ready(n - 1));
        assert(st.column_ready(n - 1));
    }
}

/// A frame of which every column has as many packets as there are data
/// shards is recovered: with all parity packets there, as many data
/// packets of a column may be missing as there are parity shards. What
/// fills the gaps is what the erasure codec computes.
pub proof fn lemma_ready_frame_is_recovered(st: FecState)
    requires
        st.wf(),
        !st.recovered,
        st.every_column_ready(),
    ensures
        st.reconstruct().1 == Ok::<(), ReconstructError>(()),
        st.reconstruct().0.recovered,
        st.reconstruct().0.marks == st.marks,
{
    lemma_ready_columns(st, st.sp());
}

/// A column with all its parity packets, and no more data packets missing
/// than there are parity shards, is ready.
pub proof fn lemma_column_with_parity_is_ready(st: FecState, p: int)
    requires
        st.wf(),
        frame_supported(st.size(), st.pct()),
        0 <= p < st.sp(),
        count_received(st.marks[p], st.data(), st.total()) == st.parity(),
        count_received(st.marks[p], 0, st.data()) + st.parity() >= st.data(),
    ensures
        st.column_ready(p),
{
    lemma_fec_sizing(st.size(), st.pct());
    crate::fec::lemma_count_split(st.marks[p], 0, st.data(), st.total());
}

} // verus!
