//! Length-prefix message framing.
//!
//! A frame is a 4-byte big-endian unsigned length prefix followed by
//! exactly that many payload bytes: no padding, no checksum, no tag.
//! The receive side rejects any declared length above 64 MiB before it
//! touches the payload, as a guard against a malicious peer.

use vstd::prelude::*;

use crate::errors::PvError;

verus! {

/// Upper bound on one message's payload size in bytes (64 MiB).
pub const MAX_MESSAGE_LEN: u32 = 67108864;

/// The four big-endian bytes of a 32-bit length.
pub open spec fn be_bytes_of(n: u32) -> Seq<u8> {
    seq![(n >> 24) as u8, (n >> 16) as u8, (n >> 8) as u8, n as u8]
}

/// The 32-bit value read big-endian from four bytes.
pub open spec fn be_value_of(b: Seq<u8>) -> u32
    recommends
        b.len() == 4,
{
    (((b[0] as u32) << 24) | ((b[1] as u32) << 16)) | (((b[2] as u32) << 8) | (b[3] as u32))
}

/// A whole frame: the length prefix followed by the payload.
pub open spec fn frame_of(payload: Seq<u8>) -> Seq<u8>
    recommends
        payload.len() <= u32::MAX,
{
    be_bytes_of(payload.len() as u32) + payload
}

/// What parsing one frame from the front of a byte sequence yields:
/// the payload and the number of bytes consumed, or the failure the
/// receive side reports. A declared length above the limit is refused
/// before the payload is looked at; missing bytes are a short read.
pub open spec fn parse_frame(buf: Seq<u8>) -> Result<(Seq<u8>, int), PvError> {
    if buf.len() < 4 {
        Err(PvError::ReadFailed)
    } else {
        let len = be_value_of(buf.take(4)) as int;
        if len > MAX_MESSAGE_LEN {
            Err(PvError::MessageTooLarge)
        } else if buf.len() < 4 + len {
            Err(PvError::ReadFailed)
        } else {
            Ok((buf.subrange(4, 4 + len), 4 + len))
        }
    }
}

/// Reading a 32-bit length back from its big-endian bytes restores it.
pub proof fn lemma_be_round_trip(n: u32)
    ensures
        be_value_of(be_bytes_of(n)) == n,
{
    let b0: u8 = (n >> 24) as u8;
    let b1: u8 = (n >> 16) as u8;
    let b2: u8 = (n >> 8) as u8;
    let b3: u8 = n as u8;
    assert((((b0 as u32) << 24) | ((b1 as u32) << 16)) | (((b2 as u32) << 8) | (b3 as u32)) == n)
        by (bit_vector)
        requires
            b0 == (n >> 24) as u8,
            b1 == (n >> 16) as u8,
            b2 == (n >> 8) as u8,
            b3 == n as u8,
    ;
}

/// Four bytes are exactly the big-endian form of the value read from
/// them: a 4-byte prefix encodes one and only one length.
pub proof fn lemma_be_bytes_unique(b: Seq<u8>)
    requires
        b.len() == 4,
    ensures
        be_bytes_of(be_value_of(b)) == b,
{
    let b0: u8 = b[0];
    let b1: u8 = b[1];
    let b2: u8 = b[2];
    let b3: u8 = b[3];
    let n: u32 = be_value_of(b);
    assert((n >> 24) as u8 == b0 && (n >> 16) as u8 == b1 && (n >> 8) as u8 == b2 && n as u8 == b3)
        by (bit_vector)
        requires
            n == (((b0 as u32) << 24) | ((b1 as u32) << 16)) | (((b2 as u32) << 8) | (b3 as u32)),
    ;
    assert(be_bytes_of(be_value_of(b)) =~= b);
}

/// Framing round trip: a frame built from any payload within the limit
/// parses back to exactly that payload, consuming the whole frame.
pub proof fn lemma_frame_round_trip(payload: Seq<u8>)
    requires
        payload.len() <= MAX_MESSAGE_LEN,
    ensures
        parse_frame(frame_of(payload)) == Ok::<(Seq<u8>, int), PvError>(
            (payload, payload.len() as int + 4),
        ),
{
    let buf = frame_of(payload);
    let n: u32 = payload.len() as u32;
    assert(buf.take(4) =~= be_bytes_of(n));
    lemma_be_round_trip(n);
    assert(buf.subrange(4, 4 + n as int) =~= payload);
}

/// Frames on one ordered half come back whole and in order: a frame
/// at the front of the stream, whatever bytes follow it, parses to
/// exactly its own payload, and consuming it leaves exactly the bytes
/// that followed — a reader never sees a prefix of one message mixed
/// into another.
pub proof fn lemma_frame_then_rest(payload: Seq<u8>, rest: Seq<u8>)
    requires
        payload.len() <= MAX_MESSAGE_LEN,
    ensures
        parse_frame(frame_of(payload) + rest) == Ok::<(Seq<u8>, int), PvError>(
            (payload, payload.len() as int + 4),
        ),
        (frame_of(payload) + rest).skip(payload.len() as int + 4) == rest,
{
    let buf = frame_of(payload) + rest;
    let n: u32 = payload.len() as u32;
    assert(buf.take(4) =~= be_bytes_of(n));
    lemma_be_round_trip(n);
    assert(buf.subrange(4, 4 + n as int) =~= payload);
    assert(buf.skip(payload.len() as int + 4) =~= rest);
}

/// A declared length above the limit is refused as `MessageTooLarge`,
/// whatever follows the prefix.
pub proof fn lemma_oversize_refused(buf: Seq<u8>)
    requires
        buf.len() >= 4,
        be_value_of(buf.take(4)) > MAX_MESSAGE_LEN,
    ensures
        parse_frame(buf) == Err::<(Seq<u8>, int), PvError>(PvError::MessageTooLarge),
{
}

/// The big-endian length prefix of one 32-bit length.
pub fn encode_len_prefix(n: u32) -> (r: Vec<u8>)
    ensures
        r@ == be_bytes_of(n),
{
    let mut v: Vec<u8> = Vec::new();
    v.push((n >> 24) as u8);
    v.push((n >> 16) as u8);
    v.push((n >> 8) as u8);
    v.push(n as u8);
    proof {
        assert(v@ =~= be_bytes_of(n));
    }
    v
}

/// The 32-bit length read from a 4-byte big-endian prefix.
pub fn decode_len_prefix(b: &[u8]) -> (r: u32)
    requires
        b@.len() == 4,
    ensures
        r == be_value_of(b@),
{
    (((b[0] as u32) << 24) | ((b[1] as u32) << 16)) | (((b[2] as u32) << 8) | (b[3] as u32))
}

/// Applies the 64 MiB guard to a declared payload length, before any
/// payload byte is read: the limit violation and only it is reported
/// as `MessageTooLarge`.
pub fn check_payload_len(n: u32) -> (r: Result<usize, PvError>)
    ensures
        n <= MAX_MESSAGE_LEN ==> r == Ok::<usize, PvError>(n as usize),
        n > MAX_MESSAGE_LEN ==> r == Err::<usize, PvError>(PvError::MessageTooLarge),
{
    if n <= MAX_MESSAGE_LEN {
        Ok(n as usize)
    } else {
        Err(PvError::MessageTooLarge)
    }
}

/// The declared payload length of a frame whose 4-byte prefix was read,
/// with the 64 MiB guard applied: the compute step between reading the
/// prefix and reading the payload.
pub fn header_payload_len(prefix: &[u8]) -> (r: Result<usize, PvError>)
    requires
        prefix@.len() == 4,
    ensures
        be_value_of(prefix@) <= MAX_MESSAGE_LEN ==> r == Ok::<usize, PvError>(
            be_value_of(prefix@) as usize,
        ),
        be_value_of(prefix@) > MAX_MESSAGE_LEN ==> r == Err::<usize, PvError>(
            PvError::MessageTooLarge,
        ),
{
    check_payload_len(decode_len_prefix(prefix))
}

/// One whole frame for a payload: the send side's bytes, written to the
/// wire as a unit so that concurrent senders never interleave frames.
pub fn encode_frame(payload: &Vec<u8>) -> (r: Vec<u8>)
    requires
        payload@.len() <= u32::MAX,
    ensures
        r@ == frame_of(payload@),
        r@.len() == payload@.len() + 4,
{
    let mut r = encode_len_prefix(payload.len() as u32);
    let mut i: usize = 0;
    while i < payload.len()
        invariant
            payload@.len() <= u32::MAX,
            i <= payload@.len(),
            r@ == be_bytes_of(payload@.len() as u32) + payload@.take(i as int),
        decreases payload@.len() - i,
    {
        r.push(payload[i]);
        i = i + 1;
        proof {
            assert(payload@.take(i as int) =~= payload@.take(i - 1) + seq![payload@[i - 1]]);
        }
    }
    proof {
        assert(payload@.take(payload@.len() as int) =~= payload@);
    }
    r
}

/// Parses one frame from the front of a buffer, exactly as the receive
/// side does on a stream: length prefix first, the guard next, payload
/// last; a buffer too short for what the prefix declares is the short
/// read `ReadFailed`.
pub fn decode_frame(buf: &Vec<u8>) -> (r: Result<(Vec<u8>, usize), PvError>)
    ensures
        match parse_frame(buf@) {
            Ok((payload, used)) => (r matches Ok((p, u)) && p@ == payload && u == used),
            Err(e) => r == Err::<(Vec<u8>, usize), PvError>(e),
        },
{
    if buf.len() < 4 {
        return Err(PvError::ReadFailed);
    }
    let prefix = &buf.as_slice()[0..4];
    proof {
        assert(prefix@ =~= buf@.take(4));
    }
    let len = match header_payload_len(prefix) {
        Ok(l) => l,
        Err(e) => {
            return Err(e);
        },
    };
    if buf.len() - 4 < len {
        return Err(PvError::ReadFailed);
    }
    let mut payload: Vec<u8> = Vec::new();
    let mut i: usize = 0;
    while i < len
        invariant
            4 + len <= buf@.len(),
            buf@.len() <= usize::MAX,
            i <= len,
            payload@ == buf@.subrange(4, 4 + i as int),
        decreases len - i,
    {
        payload.push(buf[4 + i]);
        i = i + 1;
        proof {
            assert(buf@.subrange(4, 4 + i as int) =~= buf@.subrange(4, 4 + (i - 1) as int)
                + seq![buf@[4 + (i - 1)]]);
        }
    }
    Ok((payload, 4 + len))
}

} // verus!
