use bytes::BytesMut;
use scot::channel::{DecodeFailure, FrameRead, FrameReader, Received};
use scot::framing::{encode_frame, MAX_FRAME_LEN};
use scot::payload::{decode_payload, encode_message, frame_text, value_of, EncodeError};
use serde_json::{Number, Value};
use std::pin::Pin;
use tokio_serde::formats::SymmetricalJson;
use tokio_serde::{Deserializer, Serializer};
use tokio_util::codec::{Encoder, LengthDelimitedCodec};

fn text(s: &str) -> Value {
    Value::String(s.to_string())
}

fn object(fields: Vec<(&str, Value)>) -> Value {
    let mut map = serde_json::Map::new();
    for (key, value) in fields {
        map.insert(key.to_string(), value);
    }
    Value::Object(map)
}

fn chat(user: u64, message: &str) -> Value {
    object(vec![(
        "ChatMessage",
        object(vec![("user_id", Value::Number(Number::from(user))), ("message", text(message))]),
    )])
}

fn sent_and_received(value: &Value) -> Received<Value> {
    let wire = encode_message(value).unwrap();
    let mut reader = FrameReader::new();
    reader.feed(&wire);
    let received = reader.next_message().unwrap();
    assert_eq!(reader.next_message(), None);
    received
}

#[test]
fn a_message_is_a_frame_of_its_json_text() {
    assert_eq!(encode_message(&text("hi")), Ok(vec![0, 0, 0, 4, b'"', b'h', b'i', b'"']));
    assert_eq!(encode_message(&Value::Null), Ok(vec![0, 0, 0, 4, b'n', b'u', b'l', b'l']));
    let wire = encode_message(&object(vec![("a", Value::Bool(true))])).unwrap();
    assert_eq!(wire, [&[0u8, 0, 0, 10][..], &b"{\"a\":true}"[..]].concat());
}

#[test]
fn messages_are_those_of_the_json_codec_in_the_length_delimited_codec() {
    let value = chat(7, "gr\u{fc}\u{df}e \u{1f600}");
    let mut json = SymmetricalJson::<Value>::default();
    let body = Pin::new(&mut json).serialize(&value).unwrap();
    let mut codec = LengthDelimitedCodec::new();
    let mut out = BytesMut::new();
    codec.encode(body, &mut out).unwrap();
    assert_eq!(encode_message(&value).unwrap(), out.to_vec());
}

#[test]
fn the_json_codec_reads_what_decode_payload_reads() {
    let body = b"{\"ChatMessage\":{\"message\":\"hi\",\"user_id\":3}}";
    let mut json = SymmetricalJson::<Value>::default();
    let theirs: Value = Pin::new(&mut json).deserialize(&BytesMut::from(&body[..])).unwrap();
    assert_eq!(decode_payload(body), Some(theirs));
    let mut json = SymmetricalJson::<Value>::default();
    let broken: Result<Value, _> = Pin::new(&mut json).deserialize(&BytesMut::from(&b"{\"a\""[..]));
    assert!(broken.is_err());
    assert_eq!(decode_payload(b"{\"a\""), None);
}

#[test]
fn every_kind_of_value_has_a_frame() {
    assert!(Number::from_f64(f64::NAN).is_none());
    assert!(Number::from_f64(f64::INFINITY).is_none());
    let values = vec![
        Value::Null,
        Value::Bool(true),
        Value::from(i64::MIN),
        Value::from(u64::MAX),
        Value::from(f64::MAX),
        Value::from(f64::MIN_POSITIVE),
        Value::from(-0.0),
        text("\u{0}\u{1f}\u{7f}"),
        Value::Array(vec![Value::Null, Value::Array(vec![])]),
        object(vec![("", Value::Null), ("\"quoted\"", object(vec![]))]),
    ];
    for value in values {
        let wire = encode_message(&value).unwrap();
        let body = serde_json::to_vec(&value).unwrap();
        assert_eq!(wire, encode_frame(&body).unwrap());
    }
}

#[test]
fn a_text_beyond_the_limit_is_refused() {
    let value = text(&"x".repeat(MAX_FRAME_LEN));
    assert_eq!(encode_message(&value), Err(EncodeError::TooLong));
    let fits = text(&"x".repeat(MAX_FRAME_LEN - 2));
    assert_eq!(encode_message(&fits).unwrap().len(), MAX_FRAME_LEN + 4);
}

#[test]
fn frame_text_frames_a_text_and_reports_a_failure() {
    assert_eq!(frame_text(Ok(b"[1]".to_vec())), Ok(vec![0, 0, 0, 3, b'[', b'1', b']']));
    assert_eq!(frame_text(Ok(vec![b' '; MAX_FRAME_LEN + 1])), Err(EncodeError::TooLong));
    let failure = serde_json::from_slice::<Value>(b"nope").unwrap_err();
    assert_eq!(frame_text(Err(failure)), Err(EncodeError::NotSerializable));
}

#[test]
fn value_of_keeps_a_value_and_drops_an_error() {
    assert_eq!(value_of(Ok(text("a"))), Some(text("a")));
    let failure = serde_json::from_slice::<Value>(b"").unwrap_err();
    assert_eq!(value_of(Err(failure)), None);
}

#[test]
fn json_text_is_read_as_its_value() {
    assert_eq!(decode_payload(b"\"hi\""), Some(text("hi")));
    assert_eq!(decode_payload(b" [1, 2] "), Some(Value::Array(vec![Value::from(1), Value::from(2)])));
    assert_eq!(decode_payload(b"{\"a\":null}"), Some(object(vec![("a", Value::Null)])));
    assert_eq!(decode_payload(b"\"Ping\""), Some(text("Ping")));
}

#[test]
fn what_is_no_json_text_has_no_value() {
    assert_eq!(decode_payload(b""), None);
    assert_eq!(decode_payload(b"hi"), None);
    assert_eq!(decode_payload(b"{\"a\":"), None);
    assert_eq!(decode_payload(b"1 2"), None);
    assert_eq!(decode_payload(&[0xff, 0xfe]), None);
    assert_eq!(decode_payload(b"\"\xff\""), None);
}

#[test]
fn a_message_survives_the_channel() {
    let values = vec![
        Value::Null,
        Value::Bool(false),
        Value::from(0),
        Value::from(-17),
        Value::from(u64::MAX),
        Value::from(1.5),
        text(""),
        text("hi"),
        text("Ping"),
        Value::Array(vec![]),
        object(vec![]),
        chat(1, "hi"),
    ];
    for value in values {
        assert_eq!(sent_and_received(&value), Received::Message(value));
    }
}

#[test]
fn multi_byte_characters_survive_the_channel() {
    let values = vec![
        text("\u{e9}t\u{e9}"),
        text("\u{65e5}\u{672c}\u{8a9e}"),
        text("\u{1f980} crab \u{1f600}"),
        text("quote \" backslash \\ newline \n tab \t nul \u{0}"),
        text("\u{2028}\u{2029}\u{feff}\u{10ffff}"),
        chat(9, "\u{3b1}\u{3b2}\u{3b3} \u{0440}\u{0443}\u{0441}"),
    ];
    for value in values {
        assert_eq!(sent_and_received(&value), Received::Message(value));
    }
}

#[test]
fn nested_values_survive_the_channel() {
    let mut value = object(vec![("leaf", text("\u{1f331}"))]);
    for depth in 0..40 {
        value = if depth % 2 == 0 {
            Value::Array(vec![value, Value::from(depth), Value::Null])
        } else {
            object(vec![("inner", value), ("depth", Value::from(depth))])
        };
    }
    assert_eq!(sent_and_received(&value), Received::Message(value));
}

#[test]
fn a_frame_that_arrives_in_pieces_is_read_when_it_is_whole() {
    let wire = encode_message(&chat(2, "slow")).unwrap();
    let mut reader = FrameReader::new();
    for byte in &wire[..wire.len() - 1] {
        reader.feed(&[*byte]);
        assert_eq!(reader.next_message(), None);
    }
    reader.feed(&wire[wire.len() - 1..]);
    assert_eq!(reader.next_message(), Some(Received::Message(chat(2, "slow"))));
    assert_eq!(reader.next_message(), None);
}

#[test]
fn frames_are_read_in_the_order_of_the_wire() {
    let mut wire = Vec::new();
    for n in 0..5 {
        wire.extend(encode_message(&Value::from(n)).unwrap());
    }
    let mut reader = FrameReader::new();
    reader.feed(&wire);
    for n in 0..5 {
        assert_eq!(reader.next_message(), Some(Received::Message(Value::from(n))));
    }
    assert_eq!(reader.next_message(), None);
    reader.close();
    assert_eq!(reader.next_message(), Some(Received::EndOfStream));
}

#[test]
fn next_frame_hands_out_the_payload_as_it_is() {
    let mut reader = FrameReader::new();
    assert_eq!(reader.next_frame(), FrameRead::NeedMore);
    reader.feed(&[0, 0, 0, 3, 1, 2]);
    assert_eq!(reader.next_frame(), FrameRead::NeedMore);
    reader.feed(&[3, 0, 0, 0, 0, 0]);
    assert_eq!(reader.next_frame(), FrameRead::Frame(vec![1, 2, 3]));
    assert_eq!(reader.next_frame(), FrameRead::Frame(vec![]));
    assert_eq!(reader.next_frame(), FrameRead::NeedMore);
    reader.close();
    assert_eq!(reader.next_frame(), FrameRead::Malformed(DecodeFailure::Truncated));
    assert_eq!(reader.next_frame(), FrameRead::End);
}

#[test]
fn next_frame_says_why_there_is_no_frame() {
    let mut reader = FrameReader::new();
    reader.feed(&[0x00, 0x80, 0x00, 0x01, 1, 2, 3]);
    assert_eq!(reader.next_frame(), FrameRead::Malformed(DecodeFailure::Length));
    assert_eq!(reader.next_frame(), FrameRead::End);
}

#[test]
fn a_payload_that_is_no_json_is_a_decode_error_and_the_next_frame_is_read() {
    let mut wire = encode_frame(b"this is not json").unwrap();
    wire.extend(encode_message(&text("Ping")).unwrap());
    wire.extend(encode_frame(b"{\"unfinished\":").unwrap());
    wire.extend(encode_message(&chat(4, "still here")).unwrap());
    let mut reader = FrameReader::new();
    reader.feed(&wire);
    assert_eq!(reader.next_message(), Some(Received::DecodeError(DecodeFailure::Payload)));
    assert_eq!(reader.next_message(), Some(Received::Message(text("Ping"))));
    assert_eq!(reader.next_message(), Some(Received::DecodeError(DecodeFailure::Payload)));
    assert_eq!(reader.next_message(), Some(Received::Message(chat(4, "still here"))));
    assert_eq!(reader.next_message(), None);
}

#[test]
fn a_length_beyond_the_limit_is_a_decode_error_and_ends_the_stream() {
    let mut reader = FrameReader::new();
    reader.feed(&encode_message(&text("before")).unwrap());
    reader.feed(&[0x7f, 0xff, 0xff, 0xff]);
    reader.feed(&encode_message(&text("after")).unwrap());
    assert_eq!(reader.next_message(), Some(Received::Message(text("before"))));
    assert_eq!(reader.next_message(), Some(Received::DecodeError(DecodeFailure::Length)));
    assert_eq!(reader.next_message(), Some(Received::EndOfStream));
    reader.feed(&encode_message(&text("later")).unwrap());
    assert_eq!(reader.next_message(), Some(Received::EndOfStream));
}

#[test]
fn the_end_of_the_stream_after_whole_frames_is_reported_once_they_are_read() {
    let mut reader = FrameReader::new();
    reader.feed(&encode_message(&text("last")).unwrap());
    reader.close();
    assert_eq!(reader.next_message(), Some(Received::Message(text("last"))));
    assert_eq!(reader.next_message(), Some(Received::EndOfStream));
    assert_eq!(reader.next_message(), Some(Received::EndOfStream));
}

#[test]
fn the_end_of_the_stream_inside_a_frame_is_a_decode_error() {
    let wire = encode_message(&text("cut off")).unwrap();
    let mut reader = FrameReader::new();
    reader.feed(&wire[..wire.len() - 2]);
    assert_eq!(reader.next_message(), None);
    reader.close();
    assert_eq!(reader.next_message(), Some(Received::DecodeError(DecodeFailure::Truncated)));
    assert_eq!(reader.next_message(), Some(Received::EndOfStream));
}

#[test]
fn a_reader_that_was_fed_nothing_ends_at_once_when_closed() {
    let mut reader = FrameReader::new();
    assert_eq!(reader.next_message(), None);
    reader.close();
    assert_eq!(reader.next_message(), Some(Received::EndOfStream));
}

#[test]
fn decode_with_reads_a_value_as_a_message() {
    let as_number = |value: Value| value.as_u64();
    assert_eq!(Received::Message(Value::from(5)).decode_with(as_number), Received::Message(5u64));
    assert_eq!(
        Received::Message(text("five")).decode_with(as_number),
        Received::DecodeError(DecodeFailure::Shape)
    );
    assert_eq!(
        Received::<Value>::DecodeError(DecodeFailure::Payload).decode_with(as_number),
        Received::DecodeError(DecodeFailure::Payload)
    );
    assert_eq!(
        Received::<Value>::DecodeError(DecodeFailure::Length).decode_with(as_number),
        Received::DecodeError(DecodeFailure::Length)
    );
    assert_eq!(Received::<Value>::EndOfStream.decode_with(as_number), Received::EndOfStream);
}
