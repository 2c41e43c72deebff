//! Extraction of NAL units from reassembled video frames.
//!
//! A frame that starts with parameter sets (SPS and PPS for H.264; VPS, SPS
//! and PPS for H.265) also carries the slice that follows them. Such a
//! frame is split in front of the slice's start code and handed on as two
//! units; any other frame is handed on whole.

use vstd::prelude::*;
use bytes::Bytes;
use crate::byte_buf::{bytes_as_slice, bytes_len, bytes_of, bytes_split_to};
use crate::common::AlvrCodec;
use crate::fec::{FecError, FecQueue, FecState, ReconstructError};
use crate::legacy_packets::VideoFrameHeader;

verus! {

/// What a NAL unit carries, as far as the decoder's input queue cares.
#[derive(Debug, Clone, Copy, PartialEq, Eq, Structural)]
pub enum NalType {
    /// Parameter sets.
    Sps,
    /// A slice that decoding can start from.
    Idr,
    /// Any other slice.
    P,
}

pub const NAL_TYPE_SPS: u8 = 7;

pub const NAL_TYPE_IDR: u8 = 5;

pub const H265_NAL_TYPE_IDR_W_RADL: u8 = 19;

pub const H265_NAL_TYPE_VPS: u8 = 32;

/// A unit for the decoder, with the tracking frame it belongs to.
pub struct Nal {
    pub nal_type: NalType,
    pub frame_buffer: Bytes,
    pub frame_index: u64,
}

/// A unit as plain values.
pub struct NalView {
    pub nal_type: NalType,
    pub bytes: Seq<u8>,
    pub frame_index: u64,
}

impl View for Nal {
    type V = NalView;

    open spec fn view(&self) -> NalView {
        NalView {
            nal_type: self.nal_type,
            bytes: bytes_of(self.frame_buffer),
            frame_index: self.frame_index,
        }
    }
}

/// The units of `v` as plain values.
pub open spec fn nal_views(v: Seq<Nal>) -> Seq<NalView> {
    Seq::new(v.len(), |i: int| v[i]@)
}

/// Why `NalParser::process_packet` handed on no unit.
#[derive(Debug, Clone, Copy, PartialEq, Eq, Structural)]
pub enum ProcessError {
    /// The frame is not complete, or was handed on before.
    ReconstructFailed(ReconstructError),
    /// The frame is too short for a unit header, or its parameter sets are
    /// not followed by a slice.
    InvalidFrame,
}

/// The unit type that the header byte `b` holds under `codec`.
pub open spec fn unit_type(codec: AlvrCodec, b: u8) -> u8 {
    match codec {
        AlvrCodec::H264 => b & 0x1F,
        AlvrCodec::H265 => (b >> 1) & 0x3F,
        AlvrCodec::Unknown => 0,
    }
}

/// The kind of the unit at the front of `frame`, told by its fifth byte.
pub open spec fn nal_type_of(codec: AlvrCodec, frame: Seq<u8>) -> NalType {
    let t = unit_type(codec, frame[4]);
    if (codec == AlvrCodec::H264 && t == NAL_TYPE_SPS) || (codec == AlvrCodec::H265 && t
        == H265_NAL_TYPE_VPS) {
        NalType::Sps
    } else if (codec == AlvrCodec::H264 && t == NAL_TYPE_IDR) || (codec == AlvrCodec::H265 && t
        == H265_NAL_TYPE_IDR_W_RADL) {
        NalType::Idr
    } else {
        NalType::P
    }
}

/// Whether a start code ends at `i`: a byte 1 after at least two bytes 0.
pub open spec fn is_start_code_end(s: Seq<u8>, i: int) -> bool {
    2 <= i < s.len() && s[i] == 1 && s[i - 1] == 0 && s[i - 2] == 0
}

/// The number of start codes that end before `n`.
pub open spec fn count_start_codes(s: Seq<u8>, n: int) -> nat
    decreases n,
{
    if n <= 0 {
        0
    } else {
        count_start_codes(s, n - 1) + if is_start_code_end(s, n - 1) {
            1nat
        } else {
            0nat
        }
    }
}

/// The start code in front of which a frame of parameter sets is split:
/// the third under H.264, the fourth under H.265.
pub open spec fn split_code(codec: AlvrCodec) -> Option<nat> {
    match codec {
        AlvrCodec::H264 => Some(3nat),
        AlvrCodec::H265 => Some(4nat),
        AlvrCodec::Unknown => None,
    }
}

/// Whether `end` is where `frame` is split: three bytes before the end of
/// the start code that `split_code` names.
pub open spec fn is_split_point(codec: AlvrCodec, frame: Seq<u8>, end: int) -> bool {
    &&& split_code(codec).is_some()
    &&& is_start_code_end(frame, end + 3)
    &&& count_start_codes(frame, end + 3) + 1 == split_code(codec).unwrap()
}

/// Start codes are counted in order: a longer prefix holds no fewer.
pub proof fn lemma_count_monotonic(s: Seq<u8>, a: int, b: int)
    requires
        a <= b,
    ensures
        count_start_codes(s, a) <= count_start_codes(s, b),
    decreases b - a,
{
    if a < b {
        lemma_count_monotonic(s, a, b - 1);
    }
}

/// A start code ends at least two bytes into the frame, and three bytes
/// after the one before it.
pub proof fn lemma_start_code_position(s: Seq<u8>, i: int)
    requires
        is_start_code_end(s, i),
    ensures
        i >= 3 * count_start_codes(s, i) + 2,
{
    lemma_count_before(s, i);
}

/// Before byte `i` there are at most `i / 3` start codes, and fewer where
/// the last bytes cannot end one.
proof fn lemma_count_before(s: Seq<u8>, i: int)
    requires
        0 <= i <= s.len(),
    ensures
        3 * count_start_codes(s, i) <= i,
        (i >= 1 && s[i - 1] == 0) ==> 3 * count_start_codes(s, i) <= i - 1,
        (i >= 2 && s[i - 1] == 0 && s[i - 2] == 0) ==> 3 * count_start_codes(s, i) <= i - 2,
    decreases i,
{
    if i > 0 {
        lemma_count_before(s, i - 1);
    }
}

/// A frame has at most one split point.
pub proof fn lemma_split_point_unique(codec: AlvrCodec, frame: Seq<u8>, a: int, b: int)
    requires
        is_split_point(codec, frame, a),
        is_split_point(codec, frame, b),
    ensures
        a == b,
{
    if a < b {
        lemma_count_monotonic(frame, a + 4, b + 3);
    } else if b < a {
        lemma_count_monotonic(frame, b + 4, a + 3);
    }
}

/// The kind of the unit at the front of `frame`.
pub fn detect_nal_type(codec: AlvrCodec, frame: &[u8]) -> (t: NalType)
    requires
        frame@.len() > 4,
        codec != AlvrCodec::Unknown,
    ensures
        t == nal_type_of(codec, frame@),
{
    let b: u8 = frame[4];
    match codec {
        AlvrCodec::H264 => {
            let t: u8 = b & 0x1F;
            if t == NAL_TYPE_SPS {
                NalType::Sps
            } else if t == NAL_TYPE_IDR {
                NalType::Idr
            } else {
                NalType::P
            }
        },
        AlvrCodec::H265 => {
            let t: u8 = (b >> 1) & 0x3F;
            if t == H265_NAL_TYPE_VPS {
                NalType::Sps
            } else if t == H265_NAL_TYPE_IDR_W_RADL {
                NalType::Idr
            } else {
                NalType::P
            }
        },
        AlvrCodec::Unknown => NalType::P,
    }
}

/// Finds where a frame of parameter sets is split: the index of the first
/// byte that belongs to the slice. `None` where the frame does not hold
/// the start code that `split_code` names.
pub fn find_vps_sps(codec: AlvrCodec, frame: &[u8]) -> (r: Option<usize>)
    ensures
        r matches Some(end) ==> is_split_point(codec, frame@, end as int) && 5 <= end
            && end + 3 < frame@.len(),
        r.is_none() ==> forall|end: int| !is_split_point(codec, frame@, end),
{
    let wanted: usize = match codec {
        AlvrCodec::H264 => 3,
        AlvrCodec::H265 => 4,
        AlvrCodec::Unknown => {
            return None;
        },
    };
    let mut zeros: usize = 0;
    let mut found_nals: usize = 0;
    let mut i: usize = 0;
    while i < frame.len()
        invariant
            i <= frame@.len(),
            split_code(codec) == Some(wanted as nat),
            found_nals == count_start_codes(frame@, i as int),
            found_nals < wanted,
            zeros <= i,
            (zeros >= 1) == (i >= 1 && frame@[i - 1] == 0),
            (zeros >= 2) == (i >= 2 && frame@[i - 1] == 0 && frame@[i - 2] == 0),
        decreases frame@.len() - i,
    {
        let b: u8 = frame[i];
        if b == 0 {
            zeros += 1;
        } else if b == 1 {
            if zeros >= 2 {
                found_nals += 1;
                if found_nals >= wanted {
                    proof {
                        lemma_start_code_position(frame@, i as int);
                    }
                    return Some(i - 3);
                }
            }
            zeros = 0;
        } else {
            zeros = 0;
        }
        i += 1;
    }
    proof {
        assert forall|end: int| !is_split_point(codec, frame@, end) by {
            if is_split_point(codec, frame@, end) {
                lemma_count_monotonic(frame@, end + 4, frame@.len() as int);
            }
        }
    }
    None
}

/// Where `frame` is split, if it holds the start code to split at.
pub open spec fn split_point(codec: AlvrCodec, frame: Seq<u8>) -> Option<int> {
    if exists|end: int| is_split_point(codec, frame, end) {
        Some(choose|end: int| is_split_point(codec, frame, end))
    } else {
        None
    }
}

/// The units that `frame` is handed on as. A frame of parameter sets gives
/// two: the parameter sets, and the slice from the split point on. Any
/// other frame gives one. A frame too short for a unit header, and a frame
/// of parameter sets without a slice of at least five bytes, gives none.
pub open spec fn frame_units(codec: AlvrCodec, frame: Seq<u8>, frame_index: u64) -> Result<
    Seq<NalView>,
    ProcessError,
> {
    if frame.len() <= 4 {
        Err(ProcessError::InvalidFrame)
    } else if nal_type_of(codec, frame) == NalType::Sps {
        let at = split_point(codec, frame);
        if at.is_some() && frame.len() - at.unwrap() > 4 {
            let head = frame.subrange(0, at.unwrap());
            let tail = frame.subrange(at.unwrap(), frame.len() as int);
            Ok(
                seq![
                    NalView { nal_type: nal_type_of(codec, head), bytes: head, frame_index },
                    NalView { nal_type: nal_type_of(codec, tail), bytes: tail, frame_index },
                ],
            )
        } else {
            Err(ProcessError::InvalidFrame)
        }
    } else {
        Ok(seq![NalView { nal_type: nal_type_of(codec, frame), bytes: frame, frame_index }])
    }
}

/// The pieces of a split frame, put together, are the frame; the first
/// piece ends where the start code of the slice begins.
pub proof fn lemma_units_cover_frame(codec: AlvrCodec, frame: Seq<u8>, frame_index: u64)
    requires
        frame_units(codec, frame, frame_index).is_ok(),
    ensures
        ({
            let units = frame_units(codec, frame, frame_index).unwrap();
            &&& units.len() == 1 ==> units[0].bytes == frame
            &&& units.len() == 2 ==> units[0].bytes + units[1].bytes == frame && is_split_point(
                codec,
                frame,
                units[0].bytes.len() as int,
            ) && units[0].nal_type == NalType::Sps
            &&& units.len() == 1 || units.len() == 2
            &&& forall|i: int| 0 <= i < units.len() ==> (#[trigger] units[i]).frame_index == frame_index
        }),
{
    if nal_type_of(codec, frame) == NalType::Sps {
        let at = split_point(codec, frame).unwrap();
        lemma_start_code_position(frame, at + 3);
        let head = frame.subrange(0, at);
        let tail = frame.subrange(at, frame.len() as int);
        assert(head + tail =~= frame);
        assert(head[4] == frame[4]);
    }
}

/// Hands `frame_buffer` on as units; see `frame_units`.
pub fn split_frame(codec: AlvrCodec, frame_buffer: Bytes, frame_index: u64) -> (r: Result<
    Vec<Nal>,
    ProcessError,
>)
    requires
        codec != AlvrCodec::Unknown,
    ensures
        r matches Ok(nals) ==> frame_units(codec, bytes_of(frame_buffer), frame_index) == Ok::<
            Seq<NalView>,
            ProcessError,
        >(nal_views(nals@)),
        r matches Err(e) ==> frame_units(codec, bytes_of(frame_buffer), frame_index) == Err::<
            Seq<NalView>,
            ProcessError,
        >(e),
{
    let ghost frame = bytes_of(frame_buffer);
    let len: usize = bytes_len(&frame_buffer);
    if len <= 4 {
        return Err(ProcessError::InvalidFrame);
    }
    let nal_type: NalType = detect_nal_type(codec, bytes_as_slice(&frame_buffer));
    let mut nals: Vec<Nal> = Vec::new();
    if nal_type == NalType::Sps {
        let end: usize = match find_vps_sps(codec, bytes_as_slice(&frame_buffer)) {
            Some(end) => end,
            None => {
                return Err(ProcessError::InvalidFrame);
            },
        };
        proof {
            let at = split_point(codec, frame).unwrap();
            lemma_split_point_unique(codec, frame, at, end as int);
        }
        if len - end <= 4 {
            return Err(ProcessError::InvalidFrame);
        }
        let mut tail: Bytes = frame_buffer;
        let head: Bytes = bytes_split_to(&mut tail, end);
        let head_type: NalType = detect_nal_type(codec, bytes_as_slice(&head));
        let tail_type: NalType = detect_nal_type(codec, bytes_as_slice(&tail));
        nals.push(Nal { nal_type: head_type, frame_buffer: head, frame_index });
        nals.push(Nal { nal_type: tail_type, frame_buffer: tail, frame_index });
        assert(nal_views(nals@) =~= frame_units(codec, frame, frame_index).unwrap());
    } else {
        nals.push(Nal { nal_type, frame_buffer, frame_index });
        assert(nal_views(nals@) =~= frame_units(codec, frame, frame_index).unwrap());
    }
    Ok(nals)
}

/// The state of a parser: its settings and the state of its queue.
pub struct NalParserState {
    pub enable_fec: bool,
    pub codec: AlvrCodec,
    pub queue: FecState,
}

/// What one call of `process_packet` comes to.
pub struct Processed {
    /// The queue after the call.
    pub queue: FecState,
    /// The loss flag after the call.
    pub fec_failure: bool,
    /// The units handed on, or why there are none.
    pub units: Result<Seq<NalView>, ProcessError>,
}

impl NalParserState {
    /// What `process_packet` does with the packet `(h, payload)` while the
    /// loss flag stands at `fec_failure`.
    ///
    /// With error correction the packet goes into the queue, and the loss
    /// flag is raised where the queue reports the packet; then the frame is
    /// completed if it can be, and handed on as units. Without error
    /// correction the payload is the frame. Handing on a frame of parameter
    /// sets lowers the loss flag.
    pub open spec fn process(self, h: VideoFrameHeader, payload: Seq<u8>, fec_failure: bool)
        -> Processed {
        let added = if self.enable_fec {
            self.queue.add(h, payload)
        } else {
            (self.queue, Ok::<(), FecError>(()))
        };
        let raised = fec_failure || added.1.is_err();
        let rebuilt = if self.enable_fec {
            added.0.reconstruct()
        } else {
            (added.0, Ok::<(), ReconstructError>(()))
        };
        if rebuilt.1 is Err {
            Processed {
                queue: rebuilt.0,
                fec_failure: raised,
                units: Err(ProcessError::ReconstructFailed(rebuilt.1->Err_0)),
            }
        } else {
            let frame = if self.enable_fec {
                rebuilt.0.frame_bytes()
            } else {
                payload
            };
            let units = frame_units(self.codec, frame, h.tracking_frame_index);
            Processed {
                queue: rebuilt.0,
                fec_failure: if units is Ok && units->Ok_0.len() == 2 {
                    false
                } else {
                    raised
                },
                units,
            }
        }
    }
}

/// Turns the packets of one video stream into NAL units.
pub struct NalParser {
    enable_fec: bool,
    codec: AlvrCodec,
    queue: FecQueue,
}

impl View for NalParser {
    type V = NalParserState;

    closed spec fn view(&self) -> NalParserState {
        NalParserState { enable_fec: self.enable_fec, codec: self.codec, queue: self.queue@ }
    }
}

impl NalParser {
    /// The invariant of the parser: its queue is well formed and its codec
    /// is known.
    pub closed spec fn wf(&self) -> bool {
        self.queue.wf() && self.codec != AlvrCodec::Unknown
    }

    /// A parser for a stream of `codec`, with or without error correction.
    pub fn new(enable_fec: bool, codec: AlvrCodec) -> (parser: NalParser)
        requires
            codec != AlvrCodec::Unknown,
        ensures
            parser.wf(),
            parser@ == (NalParserState { enable_fec, codec, queue: FecState::initial() }),
    {
        NalParser { enable_fec, codec, queue: FecQueue::new() }
    }

    /// Takes in one video packet and hands on the units of the frame that
    /// it completes; see `NalParserState::process`.
    pub fn process_packet(
        &mut self,
        frame_header: VideoFrameHeader,
        frame_buffer: Bytes,
        fec_failure: &mut bool,
    ) -> (r: Result<Vec<Nal>, ProcessError>)
        requires
            old(self).wf(),
        ensures
            final(self).wf(),
            final(self)@.enable_fec == old(self)@.enable_fec,
            final(self)@.codec == old(self)@.codec,
            final(self)@.queue == old(self)@.process(
                frame_header,
                bytes_of(frame_buffer),
                *old(fec_failure),
            ).queue,
            *final(fec_failure) == old(self)@.process(
                frame_header,
                bytes_of(frame_buffer),
                *old(fec_failure),
            ).fec_failure,
            r matches Ok(nals) ==> old(self)@.process(
                frame_header,
                bytes_of(frame_buffer),
                *old(fec_failure),
            ).units == Ok::<Seq<NalView>, ProcessError>(nal_views(nals@)),
            r matches Err(e) ==> old(self)@.process(
                frame_header,
                bytes_of(frame_buffer),
                *old(fec_failure),
            ).units == Err::<Seq<NalView>, ProcessError>(e),
    {
        let tracking_frame_index: u64 = frame_header.tracking_frame_index;
        let frame: Bytes = if self.enable_fec {
            if self.queue.add_video_packet(frame_header, &frame_buffer).is_err() {
                *fec_failure = true;
            }
            match self.queue.reconstruct() {
                Ok(()) => {},
                Err(e) => {
                    return Err(ProcessError::ReconstructFailed(e));
                },
            }
            self.queue.get_frame_buffer()
        } else {
            frame_buffer
        };
        let r = split_frame(self.codec, frame, tracking_frame_index);
        match &r {
            Ok(nals) => {
                if nals.len() == 2 {
                    *fec_failure = false;
                }
            },
            Err(_) => {},
        }
        r
    }
}

} // verus!
