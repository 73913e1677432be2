//! The wire format: each message travels as one frame, a four-byte
//! big-endian length followed by that many bytes of payload.

use vstd::prelude::*;

verus! {

/// The number of bytes of the length that precedes each payload.
pub const HEADER_LEN: usize = 4;

/// The longest payload that a frame may carry.
pub const MAX_FRAME_LEN: usize = 8388608;

/// Why a payload cannot be framed.
#[derive(Clone, Copy, Debug, PartialEq, Eq, Structural)]
pub enum FrameError {
    /// The payload is longer than [`MAX_FRAME_LEN`].
    TooLong,
}

/// The four bytes that announce a payload of `len` bytes, most significant
/// byte first.
pub open spec fn length_header(len: nat) -> Seq<u8> {
    seq![
        ((len / 0x100_0000) % 0x100) as u8,
        ((len / 0x1_0000) % 0x100) as u8,
        ((len / 0x100) % 0x100) as u8,
        (len % 0x100) as u8,
    ]
}

/// The length that the first four bytes of `buf` announce.
pub open spec fn declared_len(buf: Seq<u8>) -> nat
    recommends
        buf.len() >= HEADER_LEN,
{
    (buf[0] * 0x100_0000 + buf[1] * 0x1_0000 + buf[2] * 0x100 + buf[3]) as nat
}

/// The frame that carries `payload`.
pub open spec fn frame(payload: Seq<u8>) -> Seq<u8> {
    length_header(payload.len()) + payload
}

/// What the start of a byte stream holds.
pub enum Parsed {
    /// Not yet a whole frame: more bytes are needed.
    Incomplete,
    /// A length beyond [`MAX_FRAME_LEN`]: no frame starts like this.
    TooLong,
    /// One whole frame, and the bytes that follow it.
    Frame { payload: Seq<u8>, rest: Seq<u8> },
}

/// Reads the first frame off `buf`.
pub open spec fn parse(buf: Seq<u8>) -> Parsed {
    if buf.len() < HEADER_LEN {
        Parsed::Incomplete
    } else if declared_len(buf) > MAX_FRAME_LEN {
        Parsed::TooLong
    } else if buf.len() < HEADER_LEN + declared_len(buf) {
        Parsed::Incomplete
    } else {
        let end = HEADER_LEN + declared_len(buf);
        Parsed::Frame {
            payload: buf.subrange(HEADER_LEN as int, end),
            rest: buf.subrange(end, buf.len() as int),
        }
    }
}

/// What [`decode_frame`] found at the start of a buffer.
#[derive(Debug)]
pub enum Decoded {
    /// Not yet a whole frame: more bytes are needed.
    Incomplete,
    /// The announced length is beyond [`MAX_FRAME_LEN`].
    TooLong,
    /// One whole frame; `consumed` bytes of the buffer held it.
    Frame { payload: Vec<u8>, consumed: usize },
}

/// A length header announces the length it was made from.
pub proof fn lemma_header_round_trip(len: nat)
    requires
        len < 0x1_0000_0000,
    ensures
        length_header(len).len() == HEADER_LEN,
        declared_len(length_header(len)) == len,
{
}

/// A frame is read back as its payload, whatever follows it on the wire.
pub proof fn lemma_frame_round_trip(payload: Seq<u8>, rest: Seq<u8>)
    requires
        payload.len() <= MAX_FRAME_LEN,
    ensures
        parse(frame(payload) + rest) == (Parsed::Frame { payload, rest }),
{
    let buf = frame(payload) + rest;
    lemma_header_round_trip(payload.len());
    assert(buf.subrange(HEADER_LEN as int, HEADER_LEN + payload.len()) == payload);
    assert(buf.subrange(HEADER_LEN + payload.len(), buf.len() as int) == rest);
}

/// What is read as a frame was written as that frame.
pub proof fn lemma_parsed_frame_was_framed(buf: Seq<u8>)
    requires
        parse(buf) is Frame,
    ensures
        buf == frame(parse(buf)->payload) + parse(buf)->rest,
        parse(buf)->payload.len() <= MAX_FRAME_LEN,
{
}

/// Frames `payload`: its length in four bytes, then the payload itself.
pub fn encode_frame(payload: &[u8]) -> (framed: Result<Vec<u8>, FrameError>)
    ensures
        payload@.len() <= MAX_FRAME_LEN ==> (framed matches Ok(bytes) && bytes@ == frame(payload@)),
        payload@.len() > MAX_FRAME_LEN ==> framed == Err::<Vec<u8>, FrameError>(FrameError::TooLong),
{
    let n = payload.len();
    if n > MAX_FRAME_LEN {
        return Err(FrameError::TooLong);
    }
    let mut bytes: Vec<u8> = Vec::with_capacity(HEADER_LEN + n);
    bytes.push(((n / 0x100_0000) % 0x100) as u8);
    bytes.push(((n / 0x1_0000) % 0x100) as u8);
    bytes.push(((n / 0x100) % 0x100) as u8);
    bytes.push((n % 0x100) as u8);
    let mut i: usize = 0;
    while i < n
        invariant
            i <= n,
            n == payload@.len(),
            bytes@ == length_header(n as nat) + payload@.take(i as int),
        decreases n - i,
    {
        bytes.push(payload[i]);
        i += 1;
    }
    Ok(bytes)
}

/// Reads the first frame off `buf`, if `buf` holds a whole one.
pub fn decode_frame(buf: &[u8]) -> (decoded: Decoded)
    ensures
        match parse(buf@) {
            Parsed::Incomplete => decoded is Incomplete,
            Parsed::TooLong => decoded is TooLong,
            Parsed::Frame { payload, rest } => decoded matches Decoded::Frame {
                payload: body,
                consumed,
            } && body@ == payload && consumed == HEADER_LEN + payload.len() && rest == buf@.skip(
                consumed as int,
            ),
        },
{
    if buf.len() < HEADER_LEN {
        return Decoded::Incomplete;
    }
    let declared: u64 = (buf[0] as u64) * 0x100_0000 + (buf[1] as u64) * 0x1_0000 + (buf[2] as u64)
        * 0x100 + (buf[3] as u64);
    if declared > MAX_FRAME_LEN as u64 {
        return Decoded::TooLong;
    }
    let n = declared as usize;
    if buf.len() - HEADER_LEN < n {
        return Decoded::Incomplete;
    }
    let mut payload: Vec<u8> = Vec::with_capacity(n);
    let mut i: usize = 0;
    while i < n
        invariant
            i <= n <= MAX_FRAME_LEN,
            HEADER_LEN + n <= buf@.len(),
            payload@ == buf@.subrange(HEADER_LEN as int, HEADER_LEN + i),
        decreases n - i,
    {
        payload.push(buf[HEADER_LEN + i]);
        assert(buf@.subrange(HEADER_LEN as int, HEADER_LEN + i + 1) == buf@.subrange(
            HEADER_LEN as int,
            HEADER_LEN + i,
        ).push(buf@[HEADER_LEN + i]));
        i += 1;
    }
    Decoded::Frame { payload, consumed: HEADER_LEN + n }
}

} // verus!
