//! The discovery handshake.
//!
//! A client announces itself by broadcasting a handshake packet, and hears
//! on the same port. What comes in may be its own broadcast, which is
//! ignored, or the refusal of a server. A server that accepts the client
//! does not answer here: it connects to the client's control socket.
//!
//! On the wire a packet is a tagged union: a 32-bit little-endian tag,
//! then the fields. A text is its length in bytes as a 64-bit
//! little-endian number, then its UTF-8 bytes.

use vstd::prelude::*;
use vstd::utf8::{encode_utf8, encode_utf8_valid_utf8, valid_utf8};
use crate::common::ConnectionError;
use crate::wire::{
    lemma_u32_in, lemma_u32_round_trip, lemma_u64_in, lemma_u64_round_trip, push_u32_le,
    push_u64_le, read_u32_le, read_u64_le, u32_at, u32_bytes, u64_at, u64_bytes,
};

verus! {

/// Largest handshake packet that is received.
pub const MAX_HANDSHAKE_PACKET_SIZE_BYTES: usize = 4096;

/// What a client announces of itself.
#[derive(Debug, Clone, PartialEq, Eq)]
pub struct ClientHandshakePacket {
    pub alvr_name: String,
    pub version: String,
    pub device_name: String,
    pub hostname: String,
    pub reserved1: String,
    pub reserved2: String,
}

/// What a handshake packet that came in turns out to be.
#[derive(Debug, Clone, Copy, PartialEq, Eq, Structural)]
pub enum HandshakeReply {
    /// The announcement of a client, such as the echo of one's own.
    ClientEcho,
    /// A server that does not trust this client.
    ClientUntrusted,
    /// A server of another version.
    IncompatibleVersions,
    /// Not a handshake packet.
    Malformed,
}

/// A text on the wire.
#[verifier::opaque]
pub open spec fn text_wire(text: Seq<char>) -> Seq<u8> {
    u64_bytes(encode_utf8(text).len() as u64) + encode_utf8(text)
}

/// The announcement of a client on the wire.
pub open spec fn client_wire(p: ClientHandshakePacket) -> Seq<u8> {
    u32_bytes(0) + text_wire(p.alvr_name@) + text_wire(p.version@) + text_wire(p.device_name@)
        + text_wire(p.hostname@) + text_wire(p.reserved1@) + text_wire(p.reserved2@)
}

/// Where the text that starts at `at` ends; `None` where there is no
/// well-formed text.
pub open spec fn text_end(s: Seq<u8>, at: int) -> Option<int> {
    if at + 8 > s.len() {
        None
    } else if at + 8 + u64_at(s, at) > s.len() {
        None
    } else if !valid_utf8(s.subrange(at + 8, at + 8 + u64_at(s, at))) {
        None
    } else {
        Some(at + 8 + u64_at(s, at))
    }
}

/// Where `count` texts in a row that start at `at` end; `None` where one of
/// them is not well formed.
pub open spec fn texts_end(s: Seq<u8>, at: int, count: nat) -> Option<int>
    decreases count,
{
    if count == 0 {
        Some(at)
    } else {
        match text_end(s, at) {
            None => None,
            Some(end) => texts_end(s, end, (count - 1) as nat),
        }
    }
}

/// What the packet `s` is. Tag 0 with six texts is the announcement of a
/// client. Tag 1 is the answer of a server, whose own tag tells the reason
/// of the refusal. Bytes after the packet are let pass.
pub open spec fn handshake_reply(s: Seq<u8>) -> HandshakeReply {
    if s.len() < 4 {
        HandshakeReply::Malformed
    } else if u32_at(s, 0) == 0 {
        if texts_end(s, 4, 6).is_some() {
            HandshakeReply::ClientEcho
        } else {
            HandshakeReply::Malformed
        }
    } else if u32_at(s, 0) == 1 && s.len() >= 8 {
        if u32_at(s, 4) == 0 {
            HandshakeReply::ClientUntrusted
        } else if u32_at(s, 4) == 1 {
            HandshakeReply::IncompatibleVersions
        } else {
            HandshakeReply::Malformed
        }
    } else {
        HandshakeReply::Malformed
    }
}

/// `core::str::from_utf8`: whether `bytes` are well-formed UTF-8. Trusted.
#[verifier::external_body]
fn is_utf8(bytes: &[u8]) -> (ok: bool)
    ensures
        ok == valid_utf8(bytes@),
{
    core::str::from_utf8(bytes).is_ok()
}

/// Appends `bytes` to `out`.
fn push_bytes(out: &mut Vec<u8>, bytes: &[u8])
    ensures
        final(out)@ == old(out)@ + bytes@,
{
    let mut i: usize = 0;
    while i < bytes.len()
        invariant
            i <= bytes@.len(),
            out@ == old(out)@ + bytes@.subrange(0, i as int),
        decreases bytes@.len() - i,
    {
        out.push(bytes[i]);
        assert(out@ =~= old(out)@ + bytes@.subrange(0, i + 1));
        i += 1;
    }
    assert(bytes@.subrange(0, bytes@.len() as int) =~= bytes@);
}

/// Appends `text` to `out` as it stands on the wire.
fn push_text(out: &mut Vec<u8>, text: &String)
    ensures
        final(out)@ == old(out)@ + text_wire(text@),
{
    let bytes: &[u8] = text.as_str().as_bytes();
    push_u64_le(out, bytes.len() as u64);
    push_bytes(out, bytes);
    proof {
        reveal(text_wire);
        assert(out@ =~= old(out)@ + text_wire(text@));
    }
}

/// The announcement `packet` as it stands on the wire.
pub fn encode_client_handshake(packet: &ClientHandshakePacket) -> (out: Vec<u8>)
    ensures
        out@ == client_wire(*packet),
{
    let mut out: Vec<u8> = Vec::new();
    push_u32_le(&mut out, 0);
    push_text(&mut out, &packet.alvr_name);
    push_text(&mut out, &packet.version);
    push_text(&mut out, &packet.device_name);
    push_text(&mut out, &packet.hostname);
    push_text(&mut out, &packet.reserved1);
    push_text(&mut out, &packet.reserved2);
    assert(out@ =~= client_wire(*packet));
    out
}

/// Where the text that starts at `at` ends; see `text_end`.
fn scan_text(buf: &[u8], at: usize) -> (end: Option<usize>)
    requires
        at <= buf@.len(),
    ensures
        end matches Some(e) ==> text_end(buf@, at as int) == Some(e as int) && e <= buf@.len(),
        end.is_none() ==> text_end(buf@, at as int).is_none(),
{
    let len: usize = buf.len();
    if len - at < 8 {
        return None;
    }
    let n: u64 = read_u64_le(buf, at);
    if n > (len - at - 8) as u64 {
        return None;
    }
    let end: usize = at + 8 + n as usize;
    if !is_utf8(vstd::slice::slice_subrange(buf, at + 8, end)) {
        return None;
    }
    Some(end)
}

/// Tells what the packet `buf` is; see `handshake_reply`.
pub fn classify_handshake(buf: &[u8]) -> (reply: HandshakeReply)
    ensures
        reply == handshake_reply(buf@),
{
    if buf.len() < 4 {
        return HandshakeReply::Malformed;
    }
    let tag: u32 = read_u32_le(buf, 0);
    if tag == 0 {
        let mut at: usize = 4;
        let mut left: usize = 6;
        while left > 0
            invariant
                at <= buf@.len(),
                left <= 6,
                buf@.len() >= 4,
                u32_at(buf@, 0) == 0,
                texts_end(buf@, 4, 6) == texts_end(buf@, at as int, left as nat),
            decreases left,
        {
            assert(texts_end(buf@, at as int, left as nat) == match text_end(buf@, at as int) {
                None => None,
                Some(end) => texts_end(buf@, end, (left - 1) as nat),
            });
            match scan_text(buf, at) {
                Some(end) => {
                    at = end;
                },
                None => {
                    return HandshakeReply::Malformed;
                },
            }
            left -= 1;
        }
        HandshakeReply::ClientEcho
    } else if tag == 1 && buf.len() >= 8 {
        let reason: u32 = read_u32_le(buf, 4);
        if reason == 0 {
            HandshakeReply::ClientUntrusted
        } else if reason == 1 {
            HandshakeReply::IncompatibleVersions
        } else {
            HandshakeReply::Malformed
        }
    } else {
        HandshakeReply::Malformed
    }
}

/// What a packet that came in while announcing means for the connection:
/// `None` to go on listening, or the error that ends the attempt. The echo
/// of an announcement is passed over; a refusal ends the attempt with its
/// reason; anything else ends it as a system error.
pub fn handshake_verdict(reply: HandshakeReply) -> (verdict: Option<ConnectionError>)
    ensures
        reply == HandshakeReply::ClientEcho ==> verdict.is_none(),
        reply == HandshakeReply::ClientUntrusted ==> verdict == Some(
            ConnectionError::ClientUntrusted,
        ),
        reply == HandshakeReply::IncompatibleVersions ==> verdict == Some(
            ConnectionError::IncompatibleVersions,
        ),
        reply == HandshakeReply::Malformed ==> (verdict matches Some(
            ConnectionError::SystemError { cause },
        ) && cause@ == "Malformed handshake packet"@),
{
    match reply {
        HandshakeReply::ClientEcho => None,
        HandshakeReply::ClientUntrusted => Some(ConnectionError::ClientUntrusted),
        HandshakeReply::IncompatibleVersions => Some(ConnectionError::IncompatibleVersions),
        HandshakeReply::Malformed => Some(
            ConnectionError::SystemError { cause: "Malformed handshake packet".to_owned() },
        ),
    }
}

/// A text that stands between `pre` and `post` is found after `pre`, and
/// ends where `post` begins.
proof fn lemma_text_found(pre: Seq<u8>, text: Seq<char>, post: Seq<u8>)
    requires
        encode_utf8(text).len() <= u64::MAX,
    ensures
        text_wire(text).len() == 8 + encode_utf8(text).len(),
        text_end(pre + text_wire(text) + post, pre.len() as int) == Some(
            (pre.len() + text_wire(text).len()) as int,
        ),
{
    reveal(text_wire);
    let n = encode_utf8(text).len() as u64;
    let w = text_wire(text);
    let s = pre + w + post;
    let at = pre.len() as int;
    lemma_u64_round_trip(n);
    assert(w.len() == 8 + n);
    assert(s.subrange(at, at + 8) =~= u64_bytes(n));
    lemma_u64_in(s, at, n);
    assert(s.subrange(at + 8, at + 8 + n) =~= encode_utf8(text));
    encode_utf8_valid_utf8(text);
}

/// A text that stands in `s` between `pre` and `post` is found after
/// `pre`.
proof fn lemma_text_placed(s: Seq<u8>, pre: Seq<u8>, text: Seq<char>, post: Seq<u8>)
    requires
        encode_utf8(text).len() <= u64::MAX,
        s == pre + text_wire(text) + post,
    ensures
        text_end(s, pre.len() as int) == Some((pre.len() + text_wire(text).len()) as int),
{
    lemma_text_found(pre, text, post);
}

/// Where the announcement starts, in a chain from the tag on.
spec fn client_prefix(p: ClientHandshakePacket, k: nat) -> Seq<u8> {
    if k == 0 {
        u32_bytes(0)
    } else if k == 1 {
        u32_bytes(0) + text_wire(p.alvr_name@)
    } else if k == 2 {
        u32_bytes(0) + text_wire(p.alvr_name@) + text_wire(p.version@)
    } else if k == 3 {
        u32_bytes(0) + text_wire(p.alvr_name@) + text_wire(p.version@) + text_wire(
            p.device_name@,
        )
    } else if k == 4 {
        u32_bytes(0) + text_wire(p.alvr_name@) + text_wire(p.version@) + text_wire(
            p.device_name@,
        ) + text_wire(p.hostname@)
    } else if k == 5 {
        u32_bytes(0) + text_wire(p.alvr_name@) + text_wire(p.version@) + text_wire(
            p.device_name@,
        ) + text_wire(p.hostname@) + text_wire(p.reserved1@)
    } else {
        client_wire(p)
    }
}

/// The texts of an announcement are found one after the other.
proof fn lemma_client_texts(p: ClientHandshakePacket)
    requires
        encode_utf8(p.alvr_name@).len() <= u64::MAX,
        encode_utf8(p.version@).len() <= u64::MAX,
        encode_utf8(p.device_name@).len() <= u64::MAX,
        encode_utf8(p.hostname@).len() <= u64::MAX,
        encode_utf8(p.reserved1@).len() <= u64::MAX,
        encode_utf8(p.reserved2@).len() <= u64::MAX,
    ensures
        client_prefix(p, 0).len() == 4,
        forall|k: nat|
            k < 6 ==> text_end(client_wire(p), #[trigger] client_prefix(p, k).len() as int) == Some(
                client_prefix(p, k + 1).len() as int,
            ),
        client_prefix(p, 6).len() == client_wire(p).len(),
{
    let s = client_wire(p);
    let t1 = text_wire(p.alvr_name@);
    let t2 = text_wire(p.version@);
    let t3 = text_wire(p.device_name@);
    let t4 = text_wire(p.hostname@);
    let t5 = text_wire(p.reserved1@);
    let t6 = text_wire(p.reserved2@);
    let x1 = client_prefix(p, 0);
    let x2 = client_prefix(p, 1);
    let x3 = client_prefix(p, 2);
    let x4 = client_prefix(p, 3);
    let x5 = client_prefix(p, 4);
    let x6 = client_prefix(p, 5);
    let after6 = Seq::<u8>::empty();
    let after5 = t6 + after6;
    let after4 = t5 + after5;
    let after3 = t4 + after4;
    let after2 = t3 + after3;
    let after1 = t2 + after2;
    lemma_u32_round_trip(0);
    assert(s == x6 + t6 + after6) by {
        assert(x6 + t6 + after6 =~= x6 + t6);
    }
    assert(s == x5 + t5 + after5) by {
        lemma_concat_assoc(x6, t6, after6);
    }
    assert(s == x4 + t4 + after4) by {
        lemma_concat_assoc(x5, t5, after5);
    }
    assert(s == x3 + t3 + after3) by {
        lemma_concat_assoc(x4, t4, after4);
    }
    assert(s == x2 + t2 + after2) by {
        lemma_concat_assoc(x3, t3, after3);
    }
    assert(s == x1 + t1 + after1) by {
        lemma_concat_assoc(x2, t2, after2);
    }
    lemma_text_placed(s, x6, p.reserved2@, after6);
    lemma_text_placed(s, x5, p.reserved1@, after5);
    lemma_text_placed(s, x4, p.hostname@, after4);
    lemma_text_placed(s, x3, p.device_name@, after3);
    lemma_text_placed(s, x2, p.version@, after2);
    lemma_text_placed(s, x1, p.alvr_name@, after1);
    assert forall|k: nat| k < 6 implies text_end(s, #[trigger] client_prefix(p, k).len() as int)
        == Some(client_prefix(p, k + 1).len() as int) by {
        if k == 0 {
        } else if k == 1 {
        } else if k == 2 {
        } else if k == 3 {
        } else if k == 4 {
        } else {
        }
    }
}

/// One's own announcement, when it comes back, is told as the echo of a
/// client, and so passed over.
pub proof fn lemma_own_echo_ignored(p: ClientHandshakePacket)
    requires
        encode_utf8(p.alvr_name@).len() <= u64::MAX,
        encode_utf8(p.version@).len() <= u64::MAX,
        encode_utf8(p.device_name@).len() <= u64::MAX,
        encode_utf8(p.hostname@).len() <= u64::MAX,
        encode_utf8(p.reserved1@).len() <= u64::MAX,
        encode_utf8(p.reserved2@).len() <= u64::MAX,
    ensures
        handshake_reply(client_wire(p)) == HandshakeReply::ClientEcho,
{
    let s = client_wire(p);
    lemma_client_texts(p);
    let a1 = client_prefix(p, 0).len() as int;
    let a2 = client_prefix(p, 1).len() as int;
    let a3 = client_prefix(p, 2).len() as int;
    let a4 = client_prefix(p, 3).len() as int;
    let a5 = client_prefix(p, 4).len() as int;
    let a6 = client_prefix(p, 5).len() as int;
    let a7 = client_prefix(p, 6).len() as int;
    assert(texts_end(s, a7, 0) == Some(a7));
    assert(texts_end(s, a6, 1) == Some(a7));
    assert(texts_end(s, a5, 2) == Some(a7));
    assert(texts_end(s, a4, 3) == Some(a7));
    assert(texts_end(s, a3, 4) == Some(a7));
    assert(texts_end(s, a2, 5) == Some(a7));
    assert(texts_end(s, a1, 6) == Some(a7));
    lemma_tag_of_client_wire(p);
}

/// An announcement starts with the tag 0.
proof fn lemma_tag_of_client_wire(p: ClientHandshakePacket)
    ensures
        client_wire(p).len() >= 4,
        u32_at(client_wire(p), 0) == 0,
{
    let s = client_wire(p);
    lemma_u32_round_trip(0);
    assert(s.subrange(0, 4) =~= u32_bytes(0));
    lemma_u32_in(s, 0, 0);
}

/// Joining byte strings does not depend on the grouping.
proof fn lemma_concat_assoc(a: Seq<u8>, b: Seq<u8>, c: Seq<u8>)
    ensures
        (a + b) + c == a + (b + c),
{
    assert((a + b) + c =~= a + (b + c));
}

} // verus!
