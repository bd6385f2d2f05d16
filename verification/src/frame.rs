//! The wire format: every message travels as a four-byte big-endian length
//! followed by that many bytes of payload.

use crate::trusted::buf_as_slice;
use crate::trusted::buf_from_slice;
use crate::trusted::buf_len;
use crate::trusted::buf_put;
use crate::trusted::buf_put_u32;
use crate::trusted::buf_resize;
use crate::trusted::buf_with_capacity;
use crate::trusted::bytes_of;
use bytes::BytesMut;
use vstd::prelude::*;

verus! {

/// How many bytes the length prefix of a frame takes.
pub const PREFIX_LEN: usize = 4;

/// The largest payload, in bytes, that a frame may carry. A prefix that
/// announces more is refused before any buffer is allocated for it.
pub const MAX_FRAME_LEN: usize = 0x0100_0000;

/// Why bytes could not be turned into a frame, or a payload into bytes.
#[derive(Clone, Copy, Debug, PartialEq, Eq, Structural)]
pub enum FrameError {
    /// The payload, or the length that a prefix announces, is above
    /// [`MAX_FRAME_LEN`].
    TooLarge,
    /// The input ends before the prefix or the announced payload is complete.
    Truncated,
}

impl FrameError {
    /// The kind under which an I/O layer reports a broken frame.
    pub open spec fn spec_kind(self) -> std::io::ErrorKind {
        match self {
            FrameError::TooLarge => std::io::ErrorKind::InvalidData,
            FrameError::Truncated => std::io::ErrorKind::UnexpectedEof,
        }
    }

    /// The kind under which an I/O layer reports a broken frame.
    pub fn kind(&self) -> (k: std::io::ErrorKind)
        ensures
            k == self.spec_kind(),
    {
        match self {
            FrameError::TooLarge => std::io::ErrorKind::InvalidData,
            FrameError::Truncated => std::io::ErrorKind::UnexpectedEof,
        }
    }
}

/// The four bytes of `n`, most significant first.
pub open spec fn be_bytes(n: u32) -> Seq<u8> {
    seq![
        (n / 0x100_0000) as u8,
        (n / 0x1_0000 % 0x100) as u8,
        (n / 0x100 % 0x100) as u8,
        (n % 0x100) as u8,
    ]
}

/// The number that the first four bytes of `p` spell, most significant first.
pub open spec fn be_value(p: Seq<u8>) -> nat
    recommends
        p.len() >= 4,
{
    (p[0] as nat) * 0x100_0000 + (p[1] as nat) * 0x1_0000 + (p[2] as nat) * 0x100 + (p[3] as nat)
}

/// The bytes on the wire for one payload.
pub open spec fn frame_of(payload: Seq<u8>) -> Seq<u8>
    recommends
        payload.len() <= MAX_FRAME_LEN,
{
    be_bytes(payload.len() as u32) + payload
}

/// What stands at the start of `input`: a payload and the number of bytes its
/// frame takes, or the reason why there is no frame. The length is judged
/// before the payload is looked at.
pub open spec fn parse_frame(input: Seq<u8>) -> Result<(Seq<u8>, nat), FrameError> {
    if input.len() < PREFIX_LEN {
        Err(FrameError::Truncated)
    } else if be_value(input) > MAX_FRAME_LEN {
        Err(FrameError::TooLarge)
    } else if input.len() < PREFIX_LEN + be_value(input) {
        Err(FrameError::Truncated)
    } else {
        Ok(
            (
                input.subrange(PREFIX_LEN as int, PREFIX_LEN + be_value(input)),
                (PREFIX_LEN + be_value(input)) as nat,
            ),
        )
    }
}

/// Puts the length prefix in front of a payload.
///
/// A payload above [`MAX_FRAME_LEN`] is refused; every other payload, the
/// empty one too, gives its frame.
pub fn encode_frame(payload: BytesMut) -> (r: Result<BytesMut, FrameError>)
    ensures
        bytes_of(payload).len() > MAX_FRAME_LEN ==> r == Err::<BytesMut, FrameError>(
            FrameError::TooLarge,
        ),
        bytes_of(payload).len() <= MAX_FRAME_LEN ==> (r matches Ok(frame) && bytes_of(frame)
            == frame_of(bytes_of(payload))),
{
    let len: usize = buf_len(&payload);
    if len > MAX_FRAME_LEN {
        return Err(FrameError::TooLarge);
    }
    let mut buf = buf_with_capacity(PREFIX_LEN + len);
    buf_put_u32(&mut buf, len as u32);
    buf_put(&mut buf, payload);
    Ok(buf)
}

/// Reads the length that a prefix announces.
///
/// The length is returned when it is at most [`MAX_FRAME_LEN`], and refused
/// otherwise.
pub fn decode_len(prefix: &[u8; 4]) -> (r: Result<usize, FrameError>)
    ensures
        r == if be_value(prefix@) <= MAX_FRAME_LEN {
            Ok::<usize, FrameError>(be_value(prefix@) as usize)
        } else {
            Err::<usize, FrameError>(FrameError::TooLarge)
        },
{
    let b0: u32 = prefix[0] as u32;
    let b1: u32 = prefix[1] as u32;
    let b2: u32 = prefix[2] as u32;
    let b3: u32 = prefix[3] as u32;
    let n: u32 = b0 * 0x100_0000 + b1 * 0x1_0000 + b2 * 0x100 + b3;
    if n as usize <= MAX_FRAME_LEN {
        Ok(n as usize)
    } else {
        Err(FrameError::TooLarge)
    }
}

/// A buffer of `len` zero bytes, for the payload that a prefix announced.
/// A length above [`MAX_FRAME_LEN`] is refused, and nothing is allocated
/// for it.
pub fn body_buffer(len: usize) -> (r: Result<BytesMut, FrameError>)
    ensures
        len > MAX_FRAME_LEN ==> r == Err::<BytesMut, FrameError>(FrameError::TooLarge),
        len <= MAX_FRAME_LEN ==> (r matches Ok(b) && bytes_of(b) == Seq::new(
            len as nat,
            |i: int| 0u8,
        )),
{
    if len > MAX_FRAME_LEN {
        return Err(FrameError::TooLarge);
    }
    let mut b = buf_with_capacity(len);
    buf_resize(&mut b, len, 0u8);
    Ok(b)
}

/// Takes the frame at the start of `input` apart.
///
/// Returns the payload and the number of bytes that the frame took, or the
/// reason why `input` does not start with a whole frame.
pub fn decode_frame(input: &[u8]) -> (r: Result<(BytesMut, usize), FrameError>)
    ensures
        match r {
            Ok((payload, used)) => parse_frame(input@) == Ok::<(Seq<u8>, nat), FrameError>(
                (bytes_of(payload), used as nat),
            ),
            Err(e) => parse_frame(input@) == Err::<(Seq<u8>, nat), FrameError>(e),
        },
{
    if input.len() < PREFIX_LEN {
        return Err(FrameError::Truncated);
    }
    let prefix: [u8; 4] = [input[0], input[1], input[2], input[3]];
    match decode_len(&prefix) {
        Err(e) => Err(e),
        Ok(len) => {
            if input.len() - PREFIX_LEN < len {
                Err(FrameError::Truncated)
            } else {
                let end: usize = PREFIX_LEN + len;
                let body = vstd::slice::slice_subrange(input, PREFIX_LEN, end);
                Ok((buf_from_slice(body), end))
            }
        },
    }
}

/// The payload that signals liveness and carries no data: the ASCII bytes
/// of `bit`. Both ends reserve it.
pub open spec fn heartbeat_bytes() -> Seq<u8> {
    seq![0x62u8, 0x69u8, 0x74u8]
}

/// A fresh heartbeat payload.
pub fn heartbeat() -> (b: BytesMut)
    ensures
        bytes_of(b) == heartbeat_bytes(),
{
    let word: [u8; 3] = [0x62u8, 0x69u8, 0x74u8];
    buf_from_slice(word.as_slice())
}

/// Whether a payload is the reserved heartbeat.
pub fn is_heartbeat(payload: &BytesMut) -> (r: bool)
    ensures
        r == (bytes_of(*payload) == heartbeat_bytes()),
{
    let s = buf_as_slice(payload);
    if s.len() == 3 && s[0] == 0x62u8 && s[1] == 0x69u8 && s[2] == 0x74u8 {
        assert(s@ =~= heartbeat_bytes());
        true
    } else {
        false
    }
}

/// The payloads that reach the application: those that are no heartbeat, in
/// the order in which they arrived.
pub open spec fn deliverable(payloads: Seq<Seq<u8>>) -> Seq<Seq<u8>> {
    payloads.filter(|p: Seq<u8>| p != heartbeat_bytes())
}

/// The payloads of the whole frames that `input` starts with, up to the
/// first place where no whole frame follows.
pub open spec fn parse_stream(input: Seq<u8>) -> Seq<Seq<u8>>
    decreases input.len(),
{
    match parse_frame(input) {
        Ok((payload, used)) => seq![payload] + parse_stream(input.skip(used as int)),
        Err(_) => Seq::empty(),
    }
}

/// How many bytes the whole frames at the start of `input` take.
pub open spec fn stream_used(input: Seq<u8>) -> nat
    decreases input.len(),
{
    match parse_frame(input) {
        Ok((_, used)) => used + stream_used(input.skip(used as int)),
        Err(_) => 0,
    }
}

/// Why no whole frame follows the frames at the start of `input`.
pub open spec fn stream_end(input: Seq<u8>) -> FrameError
    decreases input.len(),
{
    match parse_frame(input) {
        Ok((_, used)) => stream_end(input.skip(used as int)),
        Err(e) => e,
    }
}

/// The bytes on the wire for a sequence of payloads, one frame after another.
pub open spec fn wire_of(payloads: Seq<Seq<u8>>) -> Seq<u8>
    decreases payloads.len(),
{
    if payloads.len() == 0 {
        Seq::empty()
    } else {
        frame_of(payloads[0]) + wire_of(payloads.drop_first())
    }
}

/// The contents of each buffer of a sequence.
pub open spec fn payload_bytes(buffers: Seq<BytesMut>) -> Seq<Seq<u8>> {
    buffers.map_values(|b: BytesMut| bytes_of(b))
}

/// The payloads of a stream as they are passed on: all of them, or those
/// that are no heartbeat.
pub open spec fn passed_on(payloads: Seq<Seq<u8>>, heartbeats_too: bool) -> Seq<Seq<u8>> {
    if heartbeats_too {
        payloads
    } else {
        deliverable(payloads)
    }
}

/// What a stretch of received bytes holds.
#[derive(Debug)]
pub struct Decoded {
    /// The payloads of the whole frames, in wire order.
    pub payloads: Vec<BytesMut>,
    /// How many bytes the whole frames took.
    pub used: usize,
    /// Why the bytes after them are no whole frame.
    pub end: FrameError,
}

/// Goes through the frames at the start of `input` and collects their
/// payloads, with or without the heartbeats among them.
fn split_stream(input: &[u8], heartbeats_too: bool) -> (r: Decoded)
    ensures
        payload_bytes(r.payloads@) == passed_on(parse_stream(input@), heartbeats_too),
        r.used == stream_used(input@),
        r.end == stream_end(input@),
{
    let mut payloads: Vec<BytesMut> = Vec::new();
    let mut pos: usize = 0;
    proof {
        assert(input@.skip(0) =~= input@);
    }
    loop
        invariant
            pos <= input.len(),
            passed_on(parse_stream(input@), heartbeats_too) == payload_bytes(payloads@)
                + passed_on(parse_stream(input@.skip(pos as int)), heartbeats_too),
            stream_used(input@) == pos + stream_used(input@.skip(pos as int)),
            stream_end(input@) == stream_end(input@.skip(pos as int)),
        decreases input.len() - pos,
    {
        let rest = vstd::slice::slice_subrange(input, pos, input.len());
        match decode_frame(rest) {
            Err(e) => {
                return Decoded { payloads, used: pos, end: e };
            },
            Ok((payload, used)) => {
                proof {
                    assert(rest@.skip(used as int) =~= input@.skip(pos + used));
                    lemma_deliverable_prepend(
                        bytes_of(payload),
                        parse_stream(rest@.skip(used as int)),
                    );
                }
                if heartbeats_too || !is_heartbeat(&payload) {
                    payloads.push(payload);
                }
                pos = pos + used;
            },
        }
    }
}

/// Splits received bytes into frames: what the read routine puts on the
/// inbound channel for them. Every payload is there, heartbeats too, once
/// and in wire order.
///
/// Decoding stops at the first place where no whole frame follows; `end`
/// tells an announced length above the limit from input that merely ran out.
pub fn decode_stream(input: &[u8]) -> (r: Decoded)
    ensures
        payload_bytes(r.payloads@) == parse_stream(input@),
        r.used == stream_used(input@),
        r.end == stream_end(input@),
{
    split_stream(input, true)
}

/// Splits received bytes into frames and keeps the payloads that are meant
/// for the application: those that are no heartbeat, in wire order.
pub fn application_payloads(input: &[u8]) -> (r: Decoded)
    ensures
        payload_bytes(r.payloads@) == deliverable(parse_stream(input@)),
        r.used == stream_used(input@),
        r.end == stream_end(input@),
{
    split_stream(input, false)
}

/// Filtering goes through a stream one payload at a time: the first is kept
/// unless it is a heartbeat, and the rest is filtered the same way.
pub proof fn lemma_deliverable_prepend(first: Seq<u8>, rest: Seq<Seq<u8>>)
    ensures
        deliverable(seq![first] + rest) == if first == heartbeat_bytes() {
            deliverable(rest)
        } else {
            seq![first] + deliverable(rest)
        },
{
    let keep = |p: Seq<u8>| p != heartbeat_bytes();
    Seq::filter_distributes_over_add(seq![first], rest, keep);
    reveal(Seq::filter);
    assert(seq![first].drop_last() =~= Seq::<Seq<u8>>::empty());
    assert(Seq::<Seq<u8>>::empty().filter(keep) =~= Seq::<Seq<u8>>::empty());
}

/// The big-endian bytes of a number spell that number again, whatever
/// follows them.
pub proof fn lemma_be_round_trip(n: u32, rest: Seq<u8>)
    ensures
        be_value(be_bytes(n) + rest) == n,
{
}

/// Encoding and then decoding gives the payload back, byte for byte, for
/// every payload within the limit; the decoder takes exactly the bytes of
/// the frame and leaves what follows untouched.
pub proof fn lemma_frame_round_trip(payload: Seq<u8>, rest: Seq<u8>)
    requires
        payload.len() <= MAX_FRAME_LEN,
    ensures
        parse_frame(frame_of(payload) + rest) == Ok::<(Seq<u8>, nat), FrameError>(
            (payload, (PREFIX_LEN + payload.len()) as nat),
        ),
        (frame_of(payload) + rest).skip(PREFIX_LEN + payload.len()) == rest,
{
    let input = frame_of(payload) + rest;
    lemma_be_round_trip(payload.len() as u32, payload + rest);
    assert(input.subrange(PREFIX_LEN as int, PREFIX_LEN + payload.len()) =~= payload);
}

/// A prefix that announces more than the limit is refused whatever follows
/// it, so the announced length is never acted on.
pub proof fn lemma_oversize_refused(input: Seq<u8>)
    requires
        input.len() >= PREFIX_LEN,
        be_value(input) > MAX_FRAME_LEN,
    ensures
        parse_frame(input) == Err::<(Seq<u8>, nat), FrameError>(FrameError::TooLarge),
        parse_stream(input) == Seq::<Seq<u8>>::empty(),
        stream_end(input) == FrameError::TooLarge,
{
}

/// A stream of frames decodes to the payloads that were framed, every one
/// of them and in order, heartbeats too, and every byte of it is used.
pub proof fn lemma_stream_round_trip(payloads: Seq<Seq<u8>>)
    requires
        forall|i: int| 0 <= i < payloads.len() ==> (#[trigger] payloads[i]).len() <= MAX_FRAME_LEN,
    ensures
        parse_stream(wire_of(payloads)) == payloads,
        stream_used(wire_of(payloads)) == wire_of(payloads).len(),
        stream_end(wire_of(payloads)) == FrameError::Truncated,
    decreases payloads.len(),
{
    if payloads.len() > 0 {
        let rest = payloads.drop_first();
        lemma_stream_round_trip(rest);
        lemma_frame_round_trip(payloads[0], wire_of(rest));
    }
}

/// Of a stream in which data and heartbeat frames alternate in any way, the
/// application gets the data payloads only, in the order in which they came.
pub proof fn lemma_heartbeats_filtered(payloads: Seq<Seq<u8>>)
    requires
        forall|i: int| 0 <= i < payloads.len() ==> (#[trigger] payloads[i]).len() <= MAX_FRAME_LEN,
    ensures
        deliverable(parse_stream(wire_of(payloads))) == payloads.filter(
            |p: Seq<u8>| p != heartbeat_bytes(),
        ),
{
    lemma_stream_round_trip(payloads);
}

} // verus!
