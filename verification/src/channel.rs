//! The two halves of a connection: the inbound half, which turns the bytes
//! that arrive into messages, and the outbound half, which turns a message
//! into the bytes to send.
//!
//! The halves share nothing, so that reading and writing can go on at the
//! same time. The socket itself is the caller's: bytes read from it are fed
//! to a [`FrameReader`], and the bytes that
//! [`encode_message`](crate::payload::encode_message) returns are written to
//! it.

use crate::framing::{
    declared_len, decode_frame, frame, lemma_frame_round_trip, parse, Decoded, Parsed, HEADER_LEN,
    MAX_FRAME_LEN,
};
use crate::payload::{decode_payload, json_value};
use serde_json::Value;
use vstd::prelude::*;

verus! {

/// Why something that arrived is no message.
#[derive(Clone, Copy, Debug, PartialEq, Eq, Structural)]
pub enum DecodeFailure {
    /// The length announced is one that no frame may have.
    Length,
    /// The stream ended in the middle of a frame.
    Truncated,
    /// The payload is no JSON text.
    Payload,
    /// The value is of another shape than the messages have.
    Shape,
}

/// What the inbound half of a channel yields.
#[derive(Debug, PartialEq)]
pub enum Received<M> {
    /// A message, decoded.
    Message(M),
    /// Something that is no message, and why it is none.
    DecodeError(DecodeFailure),
    /// The peer has closed the connection, or the stream cannot be read any
    /// further.
    EndOfStream,
}

impl<A> Received<A> {
    /// Reads a message of one type as a message of another: `decode` says
    /// which message a value stands for, or that it stands for none, and such
    /// a value counts as a decode error, for its shape. What is no message
    /// stays what it is.
    pub fn decode_with<B, F: FnOnce(A) -> Option<B>>(self, decode: F) -> (decoded: Received<B>)
        requires
            self matches Received::Message(value) ==> call_requires(decode, (value,)),
        ensures
            match self {
                Received::Message(value) => match decoded {
                    Received::Message(message) => call_ensures(decode, (value,), Some(message)),
                    Received::DecodeError(why) => why == DecodeFailure::Shape && call_ensures(
                        decode,
                        (value,),
                        None::<B>,
                    ),
                    Received::EndOfStream => false,
                },
                Received::DecodeError(why) => decoded == Received::<B>::DecodeError(why),
                Received::EndOfStream => decoded is EndOfStream,
            },
    {
        match self {
            Received::Message(value) => match decode(value) {
                Some(message) => Received::Message(message),
                None => Received::DecodeError(DecodeFailure::Shape),
            },
            Received::DecodeError(why) => Received::DecodeError(why),
            Received::EndOfStream => Received::EndOfStream,
        }
    }
}

/// What [`FrameReader::next_frame`] found.
#[derive(Debug, PartialEq)]
pub enum FrameRead {
    /// The payload of the next frame.
    Frame(Vec<u8>),
    /// No frame: the length announced is too large, or the stream ended in
    /// the middle of a frame. The reader yields nothing after this.
    Malformed(DecodeFailure),
    /// The stream has ended.
    End,
    /// The next frame has not arrived in full.
    NeedMore,
}

/// The inbound half: collects the bytes that arrive and hands out the frames
/// they hold, in the order of the wire.
pub struct FrameReader {
    buffer: Vec<u8>,
    at_end: bool,
    failed: bool,
}

/// What a [`FrameReader`] holds.
pub struct ReaderState {
    /// The bytes that arrived and were not yet handed out.
    pub pending: Seq<u8>,
    /// Whether the peer has closed the connection.
    pub at_end: bool,
    /// Whether the reader has met something that is no frame.
    pub failed: bool,
}

/// What the next read of a reader yields.
pub enum Outcome {
    /// The payload of the next frame.
    Frame(Seq<u8>),
    /// Something that is no frame, and why it is none.
    Malformed(DecodeFailure),
    /// The end of the stream.
    End,
    /// Nothing yet.
    NeedMore,
}

impl ReaderState {
    /// A reader to which nothing has arrived.
    pub open spec fn fresh() -> ReaderState {
        ReaderState { pending: Seq::empty(), at_end: false, failed: false }
    }

    /// The state after `chunk` has arrived.
    pub open spec fn fed(self, chunk: Seq<u8>) -> ReaderState {
        ReaderState { pending: self.pending + chunk, ..self }
    }

    /// What the next read yields.
    pub open spec fn outcome(self) -> Outcome {
        if self.failed {
            Outcome::End
        } else {
            match parse(self.pending) {
                Parsed::Frame { payload, rest } => Outcome::Frame(payload),
                Parsed::TooLong => Outcome::Malformed(DecodeFailure::Length),
                Parsed::Incomplete => if !self.at_end {
                    Outcome::NeedMore
                } else if self.pending.len() == 0 {
                    Outcome::End
                } else {
                    Outcome::Malformed(DecodeFailure::Truncated)
                },
            }
        }
    }

    /// The state after the next read.
    pub open spec fn after_read(self) -> ReaderState {
        match self.outcome() {
            Outcome::Frame(_) => ReaderState { pending: parse(self.pending)->rest, ..self },
            Outcome::Malformed(_) => ReaderState { failed: true, ..self },
            Outcome::End => self,
            Outcome::NeedMore => self,
        }
    }

    /// What the next read yields, as a message; `None` where the next frame
    /// has not arrived in full.
    pub open spec fn message(self) -> Option<Received<Value>> {
        match self.outcome() {
            Outcome::Frame(payload) => Some(
                match json_value(payload) {
                    Some(value) => Received::Message(value),
                    None => Received::DecodeError(DecodeFailure::Payload),
                },
            ),
            Outcome::Malformed(why) => Some(Received::DecodeError(why)),
            Outcome::End => Some(Received::EndOfStream),
            Outcome::NeedMore => None,
        }
    }
}

impl View for FrameReader {
    type V = ReaderState;

    closed spec fn view(&self) -> ReaderState {
        ReaderState { pending: self.buffer@, at_end: self.at_end, failed: self.failed }
    }
}

impl FrameReader {
    /// A reader to which nothing has arrived.
    pub fn new() -> (reader: FrameReader)
        ensures
            reader@ == ReaderState::fresh(),
    {
        FrameReader { buffer: Vec::new(), at_end: false, failed: false }
    }

    /// Takes in bytes that were read from the socket.
    pub fn feed(&mut self, chunk: &[u8])
        ensures
            final(self)@ == old(self)@.fed(chunk@),
    {
        let mut i: usize = 0;
        while i < chunk.len()
            invariant
                i <= chunk.len(),
                self.at_end == old(self).at_end,
                self.failed == old(self).failed,
                self.buffer@ == old(self).buffer@ + chunk@.take(i as int),
            decreases chunk.len() - i,
        {
            self.buffer.push(chunk[i]);
            i += 1;
        }
        assert(chunk@.take(chunk.len() as int) == chunk@);
    }

    /// Records that the peer has closed the connection: no more bytes will
    /// arrive.
    pub fn close(&mut self)
        ensures
            final(self)@ == (ReaderState { at_end: true, ..old(self)@ }),
    {
        self.at_end = true;
    }

    /// Hands out the next frame, if it has arrived in full.
    pub fn next_frame(&mut self) -> (read: FrameRead)
        ensures
            final(self)@ == old(self)@.after_read(),
            match old(self)@.outcome() {
                Outcome::Frame(payload) => read matches FrameRead::Frame(body) && body@ == payload,
                Outcome::Malformed(why) => read == FrameRead::Malformed(why),
                Outcome::End => read is End,
                Outcome::NeedMore => read is NeedMore,
            },
    {
        if self.failed {
            return FrameRead::End;
        }
        match decode_frame(self.buffer.as_slice()) {
            Decoded::Frame { payload, consumed } => {
                let rest = self.buffer.split_off(consumed);
                self.buffer = rest;
                FrameRead::Frame(payload)
            },
            Decoded::TooLong => {
                self.failed = true;
                FrameRead::Malformed(DecodeFailure::Length)
            },
            Decoded::Incomplete => {
                if !self.at_end {
                    FrameRead::NeedMore
                } else if self.buffer.len() == 0 {
                    FrameRead::End
                } else {
                    self.failed = true;
                    FrameRead::Malformed(DecodeFailure::Truncated)
                }
            },
        }
    }

    /// Hands out the next message, if it has arrived in full: the JSON value
    /// that the next frame holds, or what stands in its place.
    pub fn next_message(&mut self) -> (received: Option<Received<Value>>)
        ensures
            final(self)@ == old(self)@.after_read(),
            received == old(self)@.message(),
    {
        match self.next_frame() {
            FrameRead::Frame(body) => match decode_payload(body.as_slice()) {
                Some(value) => Some(Received::Message(value)),
                None => Some(Received::DecodeError(DecodeFailure::Payload)),
            },
            FrameRead::Malformed(why) => Some(Received::DecodeError(why)),
            FrameRead::End => Some(Received::EndOfStream),
            FrameRead::NeedMore => None,
        }
    }
}

/// Frames are handed out in the order of the wire: from a reader that holds
/// the frame of `first` and then other bytes, the next read yields `first`
/// and leaves the other bytes.
pub proof fn lemma_frames_in_wire_order(reader: ReaderState, first: Seq<u8>, then: Seq<u8>)
    requires
        !reader.failed,
        first.len() <= MAX_FRAME_LEN,
        reader.pending == frame(first) + then,
    ensures
        reader.outcome() == Outcome::Frame(first),
        reader.after_read() == (ReaderState { pending: then, ..reader }),
{
    lemma_frame_round_trip(first, then);
}

/// The bytes of a stream of frames: the frame of each payload, one after the
/// other.
pub open spec fn wire(payloads: Seq<Seq<u8>>) -> Seq<u8>
    decreases payloads.len(),
{
    if payloads.len() == 0 {
        Seq::empty()
    } else {
        frame(payloads.first()) + wire(payloads.drop_first())
    }
}

impl ReaderState {
    /// The state after `n` reads.
    pub open spec fn after_reads(self, n: nat) -> ReaderState
        decreases n,
    {
        if n == 0 {
            self
        } else {
            self.after_read().after_reads((n - 1) as nat)
        }
    }
}

/// A stream of frames is read as it was written: the reads yield the
/// payloads one by one, in their order, and leave what follows the last of
/// them.
pub proof fn lemma_stream_round_trip(reader: ReaderState, payloads: Seq<Seq<u8>>, then: Seq<u8>)
    requires
        !reader.failed,
        forall|i: int| 0 <= i < payloads.len() ==> #[trigger] payloads[i].len() <= MAX_FRAME_LEN,
        reader.pending == wire(payloads) + then,
    ensures
        forall|k: int|
            0 <= k < payloads.len() ==> #[trigger] reader.after_reads(k as nat).outcome()
                == Outcome::Frame(payloads[k]),
        reader.after_reads(payloads.len()) == (ReaderState { pending: then, ..reader }),
    decreases payloads.len(),
{
    if payloads.len() > 0 {
        let first = payloads.first();
        let later = payloads.drop_first();
        assert(reader.pending == frame(first) + (wire(later) + then));
        lemma_frames_in_wire_order(reader, first, wire(later) + then);
        let next = reader.after_read();
        lemma_stream_round_trip(next, later, then);
        assert forall|k: int| 0 <= k < payloads.len() implies #[trigger] reader.after_reads(
            k as nat,
        ).outcome() == Outcome::Frame(payloads[k]) by {
            if k > 0 {
                assert(reader.after_reads(k as nat) == next.after_reads((k - 1) as nat));
            }
        }
    }
}

/// What has arrived in full is read the same whatever arrives after it: a
/// frame that the reader can hand out is the frame it hands out once more
/// bytes were fed, and the bytes fed are all that is added to what is left.
/// So it makes no difference in what pieces the bytes arrive, nor when
/// between them the reader is asked.
pub proof fn lemma_later_bytes_change_nothing(reader: ReaderState, chunk: Seq<u8>)
    requires
        reader.outcome() is Frame,
    ensures
        reader.fed(chunk).outcome() == reader.outcome(),
        reader.fed(chunk).after_read() == reader.after_read().fed(chunk),
{
    let buf = reader.pending;
    let more = buf + chunk;
    let end = HEADER_LEN + declared_len(buf);
    assert(more.subrange(HEADER_LEN as int, end) == buf.subrange(HEADER_LEN as int, end));
    assert(more.subrange(end, more.len() as int) == buf.subrange(end, buf.len() as int) + chunk);
}

/// A length that no frame may have stays one, whatever arrives after it.
pub proof fn lemma_malformed_stays_malformed(reader: ReaderState, chunk: Seq<u8>)
    requires
        !reader.failed,
        parse(reader.pending) is TooLong,
    ensures
        reader.fed(chunk).outcome() == Outcome::Malformed(DecodeFailure::Length),
        reader.after_read().fed(chunk).outcome() == Outcome::End,
{
}

/// A payload that is no JSON text costs one message and no more: the reader
/// reports it, and hands out the frame that follows as if nothing had
/// happened.
pub proof fn lemma_bad_payload_is_isolated(
    reader: ReaderState,
    bad: Seq<u8>,
    good: Seq<u8>,
    then: Seq<u8>,
)
    requires
        !reader.failed,
        bad.len() <= MAX_FRAME_LEN,
        good.len() <= MAX_FRAME_LEN,
        json_value(bad) is None,
        json_value(good) is Some,
        reader.pending == frame(bad) + (frame(good) + then),
    ensures
        reader.message() == Some(Received::<Value>::DecodeError(DecodeFailure::Payload)),
        reader.after_read().message() == Some(Received::Message(json_value(good)->0)),
        reader.after_read().after_read() == (ReaderState { pending: then, ..reader }),
{
    lemma_frames_in_wire_order(reader, bad, frame(good) + then);
    lemma_frames_in_wire_order(reader.after_read(), good, then);
}

/// What is written is what is read: a reader that is fed the frame of a
/// text hands out that very text, and holds nothing afterwards. So the value
/// that arrives is the value that `serde_json` reads from the text that it
/// wrote for the value sent.
pub proof fn lemma_text_round_trip(text: Seq<u8>)
    requires
        text.len() <= MAX_FRAME_LEN,
    ensures
        ReaderState::fresh().fed(frame(text)).outcome() == Outcome::Frame(text),
        ReaderState::fresh().fed(frame(text)).after_read() == ReaderState::fresh(),
        ReaderState::fresh().fed(frame(text)).message() == Some(
            match json_value(text) {
                Some(value) => Received::Message(value),
                None => Received::DecodeError(DecodeFailure::Payload),
            },
        ),
{
    let reader = ReaderState::fresh().fed(frame(text));
    lemma_frames_in_wire_order(reader, text, Seq::empty());
}

} // verus!
