//! A small map from presentation times to frame indices.
//!
//! The decoder gives frames back by presentation time. The map keeps, for
//! each time, the index of the frame that went in with it, in a table whose
//! size is a power of two; a time finds its place by its low bits, and a
//! later time with the same low bits takes the place over. Index 0 stands
//! for "no frame".

use vstd::prelude::*;

verus! {

/// Whether `n` is a power of two.
pub open spec fn is_pow2(n: usize) -> bool {
    n != 0 && (n as u64) & ((n - 1) as u64) == 0
}

/// The place of `presentation_time_us` in a table of `size` places: its low
/// bits.
pub open spec fn place(presentation_time_us: i64, size: usize) -> int {
    ((presentation_time_us as u64) & ((size - 1) as u64)) as int
}

/// The map; `S` is the size of its table.
pub struct FrameMap<const S: usize> {
    map: Vec<u64>,
}

impl<const S: usize> View for FrameMap<S> {
    type V = Seq<u64>;

    closed spec fn view(&self) -> Seq<u64> {
        self.map@
    }
}

/// A place computed from the low bits lies within the table.
proof fn lemma_place_in_table(time: u64, size: u64)
    requires
        size >= 1,
    ensures
        time & ((size - 1) as u64) < size,
{
    let mask = (size - 1) as u64;
    assert(time & mask <= mask) by (bit_vector);
}

impl<const S: usize> FrameMap<S> {
    /// The invariant of the map: its table has `S` places and `S` is a
    /// power of two.
    pub closed spec fn wf(&self) -> bool {
        self.map@.len() == S && is_pow2(S)
    }

    /// What holds of every map: its table has `S` places.
    pub proof fn lemma_wf_len(&self)
        requires
            self.wf(),
        ensures
            self@.len() == S,
            S >= 1,
    {
    }

    /// Whether `n` is a power of two.
    pub fn is_pow2(n: usize) -> (r: bool)
        ensures
            r == is_pow2(n),
    {
        if n == 0 {
            false
        } else {
            (n as u64) & ((n - 1) as u64) == 0
        }
    }

    /// An empty map. The size of the table has to be a power of two.
    pub fn new() -> (map: FrameMap<S>)
        requires
            is_pow2(S),
        ensures
            map.wf(),
            map@ == Seq::new(S as nat, |i: int| 0u64),
    {
        let map: Vec<u64> = vec![0u64; S];
        assert(map@ =~= Seq::new(S as nat, |i: int| 0u64));
        FrameMap { map }
    }

    /// Enters `frame_index` at the place of `presentation_time_us`.
    pub fn insert(&mut self, presentation_time_us: i64, frame_index: u64)
        requires
            old(self).wf(),
        ensures
            final(self).wf(),
            final(self)@ == old(self)@.update(place(presentation_time_us, S), frame_index),
    {
        proof {
            lemma_place_in_table(presentation_time_us as u64, S as u64);
        }
        let key: usize = ((presentation_time_us as u64) & ((S - 1) as u64)) as usize;
        self.map[key] = frame_index;
    }

    /// Takes out the frame index at the place of `presentation_time_us`;
    /// `None` where the place holds no frame.
    pub fn remove(&mut self, presentation_time_us: i64) -> (frame_index: Option<u64>)
        requires
            old(self).wf(),
        ensures
            final(self).wf(),
            final(self)@ == old(self)@.update(place(presentation_time_us, S), 0u64),
            frame_index == if old(self)@[place(presentation_time_us, S)] != 0 {
                Some(old(self)@[place(presentation_time_us, S)])
            } else {
                None
            },
    {
        proof {
            lemma_place_in_table(presentation_time_us as u64, S as u64);
        }
        let key: usize = ((presentation_time_us as u64) & ((S - 1) as u64)) as usize;
        let frame_index: u64 = self.map[key];
        self.map[key] = 0;
        if frame_index != 0 {
            Some(frame_index)
        } else {
            None
        }
    }
}

/// What goes in comes out: after `insert`, `remove` at the same time finds
/// the frame index, unless it is 0.
pub proof fn lemma_insert_then_remove(table: Seq<u64>, time: i64, frame_index: u64, size: usize)
    requires
        table.len() == size,
        size >= 1,
    ensures
        0 <= place(time, size) < size,
        table.update(place(time, size), frame_index)[place(time, size)] == frame_index,
{
    lemma_place_in_table(time as u64, size as u64);
}

} // verus!
