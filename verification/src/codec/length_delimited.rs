//! Frames delimited by a head of one to four bytes that gives their length.
//!
//! The first bits of the head's first byte say how many bytes the head has:
//! `0xxxxxxx` is a head of one byte (payloads up to 127 bytes), `10xxxxxx`
//! of two (up to 16,383), `110xxxxx` of three (up to 2,097,151) and
//! `111xxxxx` of four (up to 536,870,911). The remaining bits of the head,
//! read in big-endian order, give the payload length.

use vstd::prelude::*;
use crate::util::buf::{
    buf_bytes, frozen_bytes, be_value, be_bytes, buf_len, bytes_len, buf_byte,
    buf_set_byte, buf_get_uint, buf_reserve, buf_split_to, buf_put_uint,
    buf_extend_from_slice, bytes_as_slice,
};
use bytes::{Bytes, BytesMut};

verus! {

#[verifier::external_type_specification]
#[verifier::external_body]
pub struct ExIoError(std::io::Error);

/// Default largest frame payload, in bytes (8 MiB).
pub const MAX_FRAME_LENGTH: usize = 8388608;

/// Largest payload length that a head can express (2^29 - 1).
pub const MAX_HEAD_VALUE: u64 = 0x1fff_ffff;

/// Number of bytes of a head whose first byte is `b0`.
pub open spec fn head_len(b0: u8) -> nat {
    if b0 >= 0xe0 {
        4
    } else if b0 >= 0xc0 {
        3
    } else if b0 >= 0x80 {
        2
    } else {
        1
    }
}

/// The bits of the first head byte that belong to the length, for a head
/// of `hl` bytes.
pub open spec fn head_mask(hl: nat) -> u8 {
    if hl == 1 {
        0x7f
    } else if hl == 2 {
        0x3f
    } else {
        0x1f
    }
}

/// `s` starts with a complete head.
pub open spec fn has_head(s: Seq<u8>) -> bool {
    s.len() > 0 && s.len() >= head_len(s[0])
}

/// The payload length announced by the head at the start of `s`.
pub open spec fn announced_len(s: Seq<u8>) -> nat {
    let hl = head_len(s[0]);
    be_value(s.take(hl as int).update(0, s[0] & head_mask(hl)))
}

/// The head that announces a payload of `len` bytes.
pub open spec fn frame_head(len: u64) -> Seq<u8> {
    if len < 0x80 {
        be_bytes(len, 1)
    } else if len < 0x4000 {
        be_bytes(len | 0x8000, 2)
    } else if len < 0x20_0000 {
        be_bytes(len | 0xc0_0000, 3)
    } else {
        be_bytes(len | 0xe000_0000, 4)
    }
}

/// A payload framed: its head followed by its bytes.
pub open spec fn encode_frame(payload: Seq<u8>) -> Seq<u8> {
    frame_head(payload.len() as u64) + payload
}

/// One step of the decoder, from what it has pending and the buffered
/// input, to what it yields, what it has pending afterwards and what is
/// left of the input.
///
/// What it yields is `None` when more input is needed, `Some(Ok(frame))`
/// for a complete frame and `Some(Err(len))` when a head announces a
/// payload longer than `max`.
pub open spec fn decode_step(max: usize, pending: Option<usize>, s: Seq<u8>) -> (
    Option<Result<Seq<u8>, nat>>,
    Option<usize>,
    Seq<u8>,
) {
    match pending {
        Some(n) => {
            if s.len() < n {
                (None, Some(n), s)
            } else {
                (Some(Ok(s.take(n as int))), None, s.skip(n as int))
            }
        },
        None => {
            if !has_head(s) {
                (None, None, s)
            } else {
                let n = announced_len(s);
                let rest = s.skip(head_len(s[0]) as int);
                if n > max {
                    (Some(Err(n)), None, rest)
                } else if rest.len() < n {
                    (None, Some(n as usize), rest)
                } else {
                    (Some(Ok(rest.take(n as int))), None, rest.skip(n as int))
                }
            }
        },
    }
}


/// `be_value` of one to four bytes, written out.
proof fn lemma_be_value_small(t: Seq<u8>)
    requires
        1 <= t.len() <= 4,
    ensures
        t.len() == 1 ==> be_value(t) == t[0] as nat,
        t.len() == 2 ==> be_value(t) == t[0] as nat * 256 + t[1] as nat,
        t.len() == 3 ==> be_value(t) == (t[0] as nat * 256 + t[1] as nat) * 256 + t[2] as nat,
        t.len() == 4 ==> be_value(t) == ((t[0] as nat * 256 + t[1] as nat) * 256 + t[2] as nat)
            * 256 + t[3] as nat,
    decreases t.len(),
{
    reveal_with_fuel(be_value, 2);
    if t.len() > 1 {
        let d = t.drop_last();
        lemma_be_value_small(d);
        assert(d[0] == t[0]);
        if t.len() > 2 {
            assert(d[1] == t[1]);
        }
        if t.len() > 3 {
            assert(d[2] == t[2]);
        }
    } else {
        assert(t.drop_last().len() == 0);
    }
}

/// `be_bytes` of one to four bytes, written out.
proof fn lemma_be_bytes_small(n: u64)
    ensures
        be_bytes(n, 1) == seq![(n % 256) as u8],
        be_bytes(n, 2) == seq![((n / 256) % 256) as u8, (n % 256) as u8],
        be_bytes(n, 3) == seq![
            ((n / 256 / 256) % 256) as u8,
            ((n / 256) % 256) as u8,
            (n % 256) as u8,
        ],
        be_bytes(n, 4) == seq![
            ((n / 256 / 256 / 256) % 256) as u8,
            ((n / 256 / 256) % 256) as u8,
            ((n / 256) % 256) as u8,
            (n % 256) as u8,
        ],
{
    reveal_with_fuel(be_bytes, 5);
    assert(be_bytes(n, 1) =~= seq![(n % 256) as u8]);
    assert(be_bytes(n / 256, 1) =~= seq![((n / 256) % 256) as u8]);
    assert(be_bytes(n / 256 / 256, 1) =~= seq![((n / 256 / 256) % 256) as u8]);
    assert(be_bytes(n / 256 / 256 / 256, 1) =~= seq![((n / 256 / 256 / 256) % 256) as u8]);
    assert(be_bytes(n / 256 / 256, 2) =~= seq![
        ((n / 256 / 256 / 256) % 256) as u8,
        ((n / 256 / 256) % 256) as u8,
    ]);
    assert(be_bytes(n / 256, 2) =~= seq![((n / 256 / 256) % 256) as u8, ((n / 256) % 256) as u8]);
    assert(be_bytes(n / 256, 3) =~= seq![
        ((n / 256 / 256 / 256) % 256) as u8,
        ((n / 256 / 256) % 256) as u8,
        ((n / 256) % 256) as u8,
    ]);
}

/// The bit tests on the first head byte agree with `head_len`.
proof fn lemma_head_len_bits(b: u8)
    ensures
        (b & 0xe0 == 0xe0) <==> b >= 0xe0,
        (b & 0xe0 == 0xc0) <==> (0xc0 <= b && b < 0xe0),
        ((b & 0xe0 == 0x80) || (b & 0xe0 == 0xa0)) <==> (0x80 <= b && b < 0xc0),
        b & 0x7f <= 0x7f,
        b & 0x3f <= 0x3f,
        b & 0x1f <= 0x1f,
        b < 0x80 ==> b & 0x7f == b,
{
    assert((b & 0xe0 == 0xe0) <==> b >= 0xe0) by (bit_vector);
    assert((b & 0xe0 == 0xc0) <==> (0xc0 <= b && b < 0xe0)) by (bit_vector);
    assert(((b & 0xe0 == 0x80) || (b & 0xe0 == 0xa0)) <==> (0x80 <= b && b < 0xc0))
        by (bit_vector);
    assert(b & 0x7f <= 0x7f) by (bit_vector);
    assert(b & 0x3f <= 0x3f) by (bit_vector);
    assert(b & 0x1f <= 0x1f) by (bit_vector);
    assert(b < 0x80 ==> b & 0x7f == b) by (bit_vector);
}

/// A complete head never announces more than `MAX_HEAD_VALUE` bytes.
proof fn lemma_announced_len_bound(s: Seq<u8>)
    requires
        has_head(s),
    ensures
        announced_len(s) <= MAX_HEAD_VALUE,
{
    let hl = head_len(s[0]);
    let t = s.take(hl as int).update(0, s[0] & head_mask(hl));
    lemma_be_value_small(t);
    lemma_head_len_bits(s[0]);
    assert(t[0] == s[0] & head_mask(hl));
    if hl >= 2 {
        assert(t[1] == s[1]);
    }
    if hl >= 3 {
        assert(t[2] == s[2]);
    }
    if hl >= 4 {
        assert(t[3] == s[3]);
    }
}


proof fn lemma_head_bytes_1(l: u64)
    by (bit_vector)
    requires
        l < 0x80,
    ensures
        ((l % 256) as u8) < 0x80,
        ((((l % 256) as u8) & 0x7f) as u64) == l,
{
}

proof fn lemma_head_bytes_2(l: u64)
    by (bit_vector)
    requires
        0x80 <= l,
        l < 0x4000,
    ensures
        0x80 <= ((((l | 0x8000) / 256) % 256) as u8),
        ((((l | 0x8000) / 256) % 256) as u8) < 0xc0,
        ((((((l | 0x8000) / 256) % 256) as u8) & 0x3f) as u64) * 256
            + ((((l | 0x8000) % 256) as u8) as u64) == l,
{
}

proof fn lemma_head_bytes_3(l: u64)
    by (bit_vector)
    requires
        0x4000 <= l,
        l < 0x20_0000,
    ensures
        0xc0 <= ((((l | 0xc0_0000) / 256 / 256) % 256) as u8),
        ((((l | 0xc0_0000) / 256 / 256) % 256) as u8) < 0xe0,
        (((((((l | 0xc0_0000) / 256 / 256) % 256) as u8) & 0x1f) as u64) * 256
            + (((((l | 0xc0_0000) / 256) % 256) as u8) as u64)) * 256
            + ((((l | 0xc0_0000) % 256) as u8) as u64) == l,
{
}

proof fn lemma_head_bytes_4(l: u64)
    by (bit_vector)
    requires
        0x20_0000 <= l,
        l <= 0x1fff_ffff,
    ensures
        0xe0 <= ((((l | 0xe000_0000) / 256 / 256 / 256) % 256) as u8),
        ((((((((l | 0xe000_0000) / 256 / 256 / 256) % 256) as u8) & 0x1f) as u64) * 256
            + (((((l | 0xe000_0000) / 256 / 256) % 256) as u8) as u64)) * 256
            + (((((l | 0xe000_0000) / 256) % 256) as u8) as u64)) * 256
            + ((((l | 0xe000_0000) % 256) as u8) as u64) == l,
{
}

/// The head of a frame is one byte long for payloads under 128 bytes, two
/// for payloads under 16,384 bytes, three for payloads under 2,097,152
/// bytes and four for longer ones.
pub proof fn lemma_frame_head_len(len: u64)
    ensures
        frame_head(len).len() == if len < 0x80 {
            1nat
        } else if len < 0x4000 {
            2nat
        } else if len < 0x20_0000 {
            3nat
        } else {
            4nat
        },
{
    lemma_be_bytes_small(len);
    lemma_be_bytes_small(len | 0x8000);
    lemma_be_bytes_small(len | 0xc0_0000);
    lemma_be_bytes_small(len | 0xe000_0000);
}

/// Decoding gives back what encoding framed: a payload that the codec
/// accepts (no longer than `max` and than `MAX_HEAD_VALUE`), framed and
/// followed by any bytes, decodes to that payload, with the decoder back at
/// a head and the following bytes left over.
pub proof fn lemma_frame_round_trip(max: usize, payload: Seq<u8>, rest: Seq<u8>)
    requires
        payload.len() <= max,
        payload.len() <= MAX_HEAD_VALUE,
    ensures
        decode_step(max, None, encode_frame(payload) + rest) == (
            Some(Ok::<Seq<u8>, nat>(payload)),
            None::<usize>,
            rest,
        ),
{
    let l = payload.len() as u64;
    let h = frame_head(l);
    let s = encode_frame(payload) + rest;
    assert(s =~= h + (payload + rest));
    lemma_frame_head_len(l);
    let hl = h.len();
    if l < 0x80 {
        lemma_be_bytes_small(l);
        lemma_head_bytes_1(l);
    } else if l < 0x4000 {
        lemma_be_bytes_small(l | 0x8000);
        lemma_head_bytes_2(l);
    } else if l < 0x20_0000 {
        lemma_be_bytes_small(l | 0xc0_0000);
        lemma_head_bytes_3(l);
    } else {
        lemma_be_bytes_small(l | 0xe000_0000);
        lemma_head_bytes_4(l);
    }
    assert(s[0] == h[0]);
    assert(head_len(s[0]) == hl);
    assert(s.take(hl as int) =~= h);
    let t = h.update(0, h[0] & head_mask(hl));
    lemma_be_value_small(t);
    assert(announced_len(s) == l);
    assert(s.skip(hl as int) =~= payload + rest);
    assert((payload + rest).take(payload.len() as int) =~= payload);
    assert((payload + rest).skip(payload.len() as int) =~= rest);
}

/// Payloads framed one after the other.
pub open spec fn encode_frames(payloads: Seq<Seq<u8>>) -> Seq<u8>
    decreases payloads.len(),
{
    if payloads.len() == 0 {
        Seq::empty()
    } else {
        encode_frame(payloads[0]) + encode_frames(payloads.drop_first())
    }
}

/// The frames that `n` steps of a decoder at a head yield from `s`, as long
/// as each step yields a frame, with what is left of the input.
pub open spec fn decode_frames(max: usize, s: Seq<u8>, n: nat) -> (Seq<Seq<u8>>, Seq<u8>)
    decreases n,
{
    if n == 0 {
        (Seq::empty(), s)
    } else {
        match decode_step(max, None, s) {
            (Some(Ok(frame)), None, rest) => {
                let (frames, left) = decode_frames(max, rest, (n - 1) as nat);
                (seq![frame] + frames, left)
            },
            _ => (Seq::empty(), s),
        }
    }
}

/// Decoding gives back what encoding framed, frame after frame: payloads
/// that the codec accepts, framed one after the other and followed by any
/// bytes, decode in as many steps to those payloads in their order, with
/// the following bytes left over.
pub proof fn lemma_frames_round_trip(max: usize, payloads: Seq<Seq<u8>>, rest: Seq<u8>)
    requires
        forall|i: int| 0 <= i < payloads.len() ==> #[trigger] payloads[i].len() <= max
            && payloads[i].len() <= MAX_HEAD_VALUE,
    ensures
        decode_frames(max, encode_frames(payloads) + rest, payloads.len()) == (payloads, rest),
    decreases payloads.len(),
{
    if payloads.len() > 0 {
        let tail = payloads.drop_first();
        assert forall|i: int| 0 <= i < tail.len() implies #[trigger] tail[i].len() <= max
            && tail[i].len() <= MAX_HEAD_VALUE by {
            assert(tail[i] == payloads[i + 1]);
        }
        lemma_frames_round_trip(max, tail, rest);
        let after = encode_frames(tail) + rest;
        assert(encode_frames(payloads) + rest =~= encode_frame(payloads[0]) + after);
        assert(payloads[0].len() <= max && payloads[0].len() <= MAX_HEAD_VALUE);
        lemma_frame_round_trip(max, payloads[0], after);
        assert(seq![payloads[0]] + tail =~= payloads);
    } else {
        assert(encode_frames(payloads) + rest =~= rest);
        assert(payloads =~= Seq::<Seq<u8>>::empty());
    }
}

/// Decoding is incremental: when the decoder needs more input, giving it
/// the rest of the input later has the same outcome as having had all of
/// it at once.
pub proof fn lemma_decode_incremental(
    max: usize,
    pending: Option<usize>,
    s: Seq<u8>,
    more: Seq<u8>,
)
    requires
        decode_step(max, pending, s).0 is None,
    ensures
        ({
            let (_, p2, s2) = decode_step(max, pending, s);
            decode_step(max, p2, s2 + more) == decode_step(max, pending, s + more)
        }),
{
    let (_, p2, s2) = decode_step(max, pending, s);
    match pending {
        Some(n) => {},
        None => {
            if has_head(s) {
                let hl = head_len(s[0]);
                let sm = s + more;
                assert(sm[0] == s[0]);
                assert(sm.take(hl as int) =~= s.take(hl as int));
                assert(sm.skip(hl as int) =~= s.skip(hl as int) + more);
            }
        },
    }
}

/// What the decoder has read of the frame it is working on.
#[derive(Debug, Clone, Copy)]
enum DecodeState {
    /// Waiting for a frame head.
    Head,
    /// The head announced a payload of this many bytes, not all received yet.
    Date(usize),
}

/// A codec for frames delimited by a frame head specifying their lengths.
#[derive(Debug, Clone)]
pub struct LengthDelimitedCodec {
    max_frame_length: usize,
    state: DecodeState,
}

/// Codec's error type.
#[derive(Debug)]
pub enum Error {
    /// Invalid length in frame header was received while decoding frame.
    InvalidDecodingFrameLength {
        /// given invalid frame length
        len: usize,
        /// max frame length
        max_frame_length: usize,
    },
    /// Invalid length in frame header was received while encoding frame.
    InvalidEncodingFrameLength {
        /// given invalid frame length
        len: usize,
        /// max frame length
        max_frame_length: usize,
    },
    /// returned from invalid inner IO Error
    IoError {
        /// source IO Error
        source: std::io::Error,
    },
}

impl std::convert::From<std::io::Error> for Error {
    fn from(src: std::io::Error) -> (e: Self) {
        Self::IoError { source: src }
    }
}

impl vstd::std_specs::convert::FromSpecImpl<std::io::Error> for Error {
    open spec fn obeys_from_spec() -> bool {
        true
    }

    open spec fn from_spec(src: std::io::Error) -> Self {
        Error::IoError { source: src }
    }
}

impl std::default::Default for LengthDelimitedCodec {
    fn default() -> (c: Self)
        ensures
            c.max_len() == MAX_FRAME_LENGTH,
            c.pending() is None,
    {
        Self::new()
    }
}

impl Error {
    /// The IO error this error carries, if it is one.
    pub open spec fn io_source(self) -> Option<std::io::Error> {
        match self {
            Error::IoError { source } => Some(source),
            _ => None,
        }
    }

    /// The IO error this error carries, if it is one.
    pub fn as_io(&self) -> (r: Option<&std::io::Error>)
        ensures
            r is Some <==> self.io_source() is Some,
            r matches Some(e) ==> self.io_source() == Some(*e),
    {
        match self {
            Error::IoError { source } => Some(source),
            _ => None,
        }
    }

    /// The IO error this error carries, if it is one.
    pub fn into_io(self) -> (r: Option<std::io::Error>)
        ensures
            r == self.io_source(),
    {
        match self {
            Error::IoError { source } => Some(source),
            _ => None,
        }
    }
}

/// The result of a call of `decode` agrees with what the decoder yields.
pub open spec fn decode_result_is(
    r: Result<Option<BytesMut>, Error>,
    out: Option<Result<Seq<u8>, nat>>,
    max: usize,
) -> bool {
    match r {
        Ok(None) => out is None,
        Ok(Some(frame)) => out == Some(Ok::<Seq<u8>, nat>(buf_bytes(frame))),
        Err(e) => match e {
            Error::InvalidDecodingFrameLength { len, max_frame_length } => {
                out == Some(Err::<Seq<u8>, nat>(len as nat)) && max_frame_length == max
            },
            _ => false,
        },
    }
}

impl LengthDelimitedCodec {
    /// The largest payload this codec accepts.
    pub closed spec fn max_len(self) -> usize {
        self.max_frame_length
    }

    /// The payload length announced by a head already consumed, if any.
    pub closed spec fn pending(self) -> Option<usize> {
        match self.state {
            DecodeState::Head => None,
            DecodeState::Date(n) => Some(n),
        }
    }

    /// Creates a new `LengthDelimitedCodec`.
    pub fn new() -> (c: Self)
        ensures
            c.max_len() == MAX_FRAME_LENGTH,
            c.pending() is None,
    {
        Self { max_frame_length: MAX_FRAME_LENGTH, state: DecodeState::Head }
    }

    /// Returns `Self` with custom `max_frame_length`.
    pub fn with_max_frame_length(max_frame_length: usize) -> (c: Self)
        ensures
            c.max_len() == max_frame_length,
            c.pending() is None,
    {
        Self { max_frame_length, state: DecodeState::Head }
    }


    /// Frames `data`: appends its head and its bytes to `dst`. Fails, and
    /// leaves `dst` as it is, when `data` is longer than the largest
    /// payload accepted or than a head can announce (`MAX_HEAD_VALUE`):
    /// longer data must be split before it is encoded.
    pub fn encode(&mut self, data: Bytes, dst: &mut BytesMut) -> (r: Result<(), Error>)
        requires
            buf_bytes(*old(dst)).len() + frozen_bytes(data).len() + 4 <= isize::MAX,
        ensures
            *final(self) == *old(self),
            (frozen_bytes(data).len() > old(self).max_len() || frozen_bytes(data).len()
                > MAX_HEAD_VALUE) ==> {
                &&& r == Err::<(), Error>(
                    Error::InvalidEncodingFrameLength {
                        len: frozen_bytes(data).len() as usize,
                        max_frame_length: old(self).max_len(),
                    },
                )
                &&& buf_bytes(*final(dst)) == buf_bytes(*old(dst))
            },
            (frozen_bytes(data).len() <= old(self).max_len() && frozen_bytes(data).len()
                <= MAX_HEAD_VALUE) ==> {
                &&& r is Ok
                &&& buf_bytes(*final(dst)) == buf_bytes(*old(dst)) + encode_frame(
                    frozen_bytes(data),
                )
            },
    {
        let payload_len = bytes_len(&data);

        if payload_len > self.max_frame_length || payload_len as u64 > MAX_HEAD_VALUE {
            return Err(
                Error::InvalidEncodingFrameLength {
                    len: payload_len,
                    max_frame_length: self.max_frame_length,
                },
            );
        }
        let len = payload_len as u64;

        // the head: the length, with the flag bits of its size set
        let (header_frame, header_len): (u64, usize) = if len < 0x80 {
            (len, 1)
        } else if len < 0x4000 {
            (len | 0x8000, 2)
        } else if len < 0x20_0000 {
            (len | 0xc0_0000, 3)
        } else {
            (len | 0xe000_0000, 4)
        };

        // Reserve capacity in the destination buffer to fit the frame and
        // length field.
        buf_reserve(dst, payload_len + header_len);

        buf_put_uint(dst, header_frame, header_len);
        proof {
            lemma_be_bytes_small(header_frame);
        }
        buf_extend_from_slice(dst, bytes_as_slice(&data));

        Ok(())
    }

    /// Reads a frame head off the front of `src`. Gives `None`, leaving
    /// `src` as it is, while the head is incomplete.
    fn decode_head(&mut self, src: &mut BytesMut) -> (r: Result<Option<usize>, Error>)
        requires
            buf_bytes(*old(src)).len() + MAX_HEAD_VALUE <= isize::MAX,
        ensures
            *final(self) == *old(self),
            !has_head(buf_bytes(*old(src))) ==> {
                &&& r matches Ok(None)
                &&& buf_bytes(*final(src)) == buf_bytes(*old(src))
            },
            has_head(buf_bytes(*old(src))) ==> {
                let s = buf_bytes(*old(src));
                let n = announced_len(s);
                &&& buf_bytes(*final(src)) == s.skip(head_len(s[0]) as int)
                &&& n > old(self).max_frame_length ==> (r matches Err(
                    Error::InvalidDecodingFrameLength { len, max_frame_length },
                ) && len == n && max_frame_length == old(self).max_frame_length)
                &&& n <= old(self).max_frame_length ==> r == Ok::<Option<usize>, Error>(
                    Some(n as usize),
                )
            },
    {
        if buf_len(src) == 0 {
            return Ok(None);
        }
        let ghost s = buf_bytes(*src);

        // get length of header bytes
        let first = buf_byte(src, 0);
        proof {
            lemma_head_len_bits(first);
        }
        let header_len: usize = match first & 0b111_00000 {
            0b111_00000 => 4,
            0b110_00000 => 3,
            0b100_00000 | 0b101_00000 => 2,
            _ => 1,
        };
        assert(header_len == head_len(s[0]));

        // if there aren't enough bytes to fill header, then return
        if buf_len(src) < header_len {
            return Ok(None);
        }

        let header_mask: u8 = if header_len == 1 {
            0b0_1111111
        } else if header_len == 2 {
            0b00_111111
        } else {
            0b000_11111
        };
        buf_set_byte(src, 0, first & header_mask);

        // get payload length from header info
        let value = buf_get_uint(src, header_len);
        proof {
            let t = buf_bytes(*old(src)).update(0, s[0] & header_mask);
            assert(t.take(header_len as int) =~= s.take(header_len as int).update(
                0,
                s[0] & header_mask,
            ));
            assert(t.skip(header_len as int) =~= s.skip(header_len as int));
            lemma_announced_len_bound(s);
        }
        let payload_len = value as usize;

        if payload_len > self.max_frame_length || payload_len as u64 > MAX_HEAD_VALUE {
            return Err(
                Error::InvalidDecodingFrameLength {
                    len: payload_len,
                    max_frame_length: self.max_frame_length,
                },
            );
        }
        // Ensure that the buffer has enough space to read the incoming payload
        buf_reserve(src, payload_len);

        Ok(Some(payload_len))
    }

    /// Takes a payload of `n` bytes off the front of `src`, once it is all there.
    fn decode_data(&self, n: usize, src: &mut BytesMut) -> (r: Option<BytesMut>)
        ensures
            buf_bytes(*old(src)).len() < n ==> r is None && buf_bytes(*final(src)) == buf_bytes(
                *old(src),
            ),
            buf_bytes(*old(src)).len() >= n ==> (r matches Some(data) && buf_bytes(data)
                == buf_bytes(*old(src)).take(n as int)) && buf_bytes(*final(src)) == buf_bytes(
                *old(src),
            ).skip(n as int),
    {
        if buf_len(src) < n {
            return None;
        }
        Some(buf_split_to(src, n))
    }

    /// Decodes the next frame from `src`: gives `Ok(None)` when more bytes
    /// are needed, the payload of a complete frame, or an error when a
    /// head announces a payload longer than the largest one accepted.
    pub fn decode(&mut self, src: &mut BytesMut) -> (r: Result<Option<BytesMut>, Error>)
        requires
            buf_bytes(*old(src)).len() + MAX_HEAD_VALUE <= isize::MAX,
        ensures
            ({
                let (out, pending, rest) = decode_step(
                    old(self).max_len(),
                    old(self).pending(),
                    buf_bytes(*old(src)),
                );
                &&& decode_result_is(r, out, old(self).max_len())
                &&& final(self).pending() == pending
                &&& final(self).max_len() == old(self).max_len()
                &&& buf_bytes(*final(src)) == rest
            }),
    {
        let ghost s = buf_bytes(*src);
        let payload_len = match self.state {
            DecodeState::Head => match self.decode_head(src)? {
                Some(payload_len) => {
                    self.state = DecodeState::Date(payload_len);
                    payload_len
                },
                None => return Ok(None),
            },
            DecodeState::Date(payload_len) => payload_len,
        };

        match self.decode_data(payload_len, src) {
            Some(data) => {
                // Update the decode state
                self.state = DecodeState::Head;

                // Make sure the buffer has enough space to read the next head; at least 4 bytes.
                buf_reserve(src, 4);

                Ok(Some(data))
            },
            None => Ok(None),
        }
    }
}

} // verus!
