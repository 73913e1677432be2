//! Payloads: JSON values, and the bytes that stand for them on the wire.
//!
//! The bus and the channels carry `serde_json::Value`s, so that they serve
//! any application's message types. What JSON text a value has, and what
//! value a text has, is `serde_json`'s to say.

use crate::framing::{encode_frame, frame, FrameError, MAX_FRAME_LEN};
use serde_json::Value;
use vstd::prelude::*;

verus! {

/// A JSON value of `serde_json`. Nothing inside it is visible here.
#[verifier::external_type_specification]
#[verifier::external_body]
pub struct ExValue(serde_json::Value);

/// The error of `serde_json`. Nothing inside it is visible here.
#[verifier::external_type_specification]
#[verifier::external_body]
pub struct ExJsonError(serde_json::Error);

/// The JSON text that `serde_json::to_vec` writes for `value`.
pub uninterp spec fn json_text(value: Value) -> Seq<u8>;

/// The value that `serde_json::from_slice` reads from `text`; `None` where
/// it finds no JSON value there.
pub uninterp spec fn json_value(text: Seq<u8>) -> Option<Value>;

/// Why a value cannot be sent.
#[derive(Clone, Copy, Debug, PartialEq, Eq, Structural)]
pub enum EncodeError {
    /// No JSON text was written.
    NotSerializable,
    /// The JSON text of the value is longer than a frame may carry.
    TooLong,
}

/// Calls `serde_json::to_vec`. It always returns a text, and for one value
/// always the same, [`json_text`]: the serializer of a `Value` has no failure
/// of its own (the keys of its maps are strings, and a number that is not
/// finite is written as `null`), and the only other failure is the writer's,
/// which here is a `Vec`.
#[verifier::external_body]
fn to_vec(value: &Value) -> (written: Result<Vec<u8>, serde_json::Error>)
    ensures
        written is Ok,
        written matches Ok(text) ==> text@ == json_text(*value),
{
    serde_json::to_vec(value)
}

/// Calls `serde_json::from_slice` for a `Value`. It succeeds on the texts that
/// have a value, and returns that value, [`json_value`].
#[verifier::external_body]
fn from_slice(text: &[u8]) -> (read: Result<Value, serde_json::Error>)
    ensures
        match read {
            Ok(value) => json_value(text@) == Some(value),
            Err(_) => json_value(text@) is None,
        },
{
    serde_json::from_slice(text)
}

/// Frames a JSON text, or reports why there is no frame.
pub fn frame_text(written: Result<Vec<u8>, serde_json::Error>) -> (framed: Result<
    Vec<u8>,
    EncodeError,
>)
    ensures
        match written {
            Ok(text) => if text@.len() <= MAX_FRAME_LEN {
                framed matches Ok(bytes) && bytes@ == frame(text@)
            } else {
                framed == Err::<Vec<u8>, EncodeError>(EncodeError::TooLong)
            },
            Err(_) => framed == Err::<Vec<u8>, EncodeError>(EncodeError::NotSerializable),
        },
{
    match written {
        Ok(text) => match encode_frame(text.as_slice()) {
            Ok(bytes) => Ok(bytes),
            Err(FrameError::TooLong) => Err(EncodeError::TooLong),
        },
        Err(_) => Err(EncodeError::NotSerializable),
    }
}

/// The bytes to write to the socket to send `value`: one frame that holds
/// the JSON text of the value. A value whose text is longer than a frame may
/// carry is refused, and no other.
pub fn encode_message(value: &Value) -> (framed: Result<Vec<u8>, EncodeError>)
    ensures
        json_text(*value).len() <= MAX_FRAME_LEN ==> (framed matches Ok(bytes) && bytes@ == frame(
            json_text(*value),
        )),
        json_text(*value).len() > MAX_FRAME_LEN ==> framed == Err::<Vec<u8>, EncodeError>(
            EncodeError::TooLong,
        ),
{
    frame_text(to_vec(value))
}

/// Reads `text` as a JSON value.
pub fn decode_payload(text: &[u8]) -> (value: Option<Value>)
    ensures
        value == json_value(text@),
{
    value_of(from_slice(text))
}

/// The value that was read, if one was.
pub fn value_of(read: Result<Value, serde_json::Error>) -> (value: Option<Value>)
    ensures
        match read {
            Ok(v) => value == Some(v),
            Err(_) => value is None,
        },
{
    match read {
        Ok(v) => Some(v),
        Err(_) => None,
    }
}

} // verus!
