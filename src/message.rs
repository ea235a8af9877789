//! The chat message, the one record that crosses the wire, and the ways in
//! which a payload fails to be one.

use crate::timestamp::Timestamp;
use vstd::prelude::*;
use vstd::string::StringExecFns;

verus! {

/// A chat message as the server handles it.
#[derive(Clone, Debug, PartialEq)]
pub struct Message {
    /// What kind of message this is; `"error"` for the server's replies to
    /// payloads that it could not relay.
    pub msg_type: String,
    /// The author's display name; empty in the server's error replies.
    pub name: String,
    pub text: String,
    pub time: Timestamp,
}

/// The mathematical value of a `Message`.
pub ghost struct MessageModel {
    pub msg_type: Seq<char>,
    pub name: Seq<char>,
    pub text: Seq<char>,
    pub time: Timestamp,
}

impl MessageModel {
    /// A message whose time the wire format can carry.
    pub open spec fn wf(self) -> bool {
        self.time.wf()
    }
}

impl View for Message {
    type V = MessageModel;

    open spec fn view(&self) -> MessageModel {
        MessageModel {
            msg_type: self.msg_type@,
            name: self.name@,
            text: self.text@,
            time: self.time,
        }
    }
}

pub open spec fn error_envelope(reason: Seq<char>, now: Timestamp) -> MessageModel {
    MessageModel { msg_type: "error"@, name: Seq::empty(), text: reason, time: now }
}

impl Message {
    /// The message by which the server tells a client that something it sent
    /// could not be relayed: of type `"error"`, with no author, stamped `now`.
    pub fn with_error(message: String, now: Timestamp) -> (r: Message)
        ensures
            r@ == error_envelope(message@, now),
    {
        Message { msg_type: String::from_str("error"), name: String::new(), text: message, time: now }
    }
}

/// Why a payload is not a chat message.
#[derive(Clone, Debug)]
pub enum DecodeError {
    /// The payload is not a JSON object; serde_json's description of why.
    NotAnObject(String),
    /// The object has a key that is none of the message's four fields.
    UnknownField(String),
    MissingField(String),
    /// The field's value is not a JSON string.
    NotAString(String),
    /// The time field is not an RFC 3339 timestamp.
    BadTime(String),
    /// The time field is RFC 3339, but its instant falls outside the years
    /// 0000 to 9999 of UTC, which RFC 3339 cannot write.
    TimeOutOfRange(String),
}

/// The mathematical value of a `DecodeError`.
pub ghost enum DecodeFailure {
    NotAnObject(Seq<char>),
    UnknownField(Seq<char>),
    MissingField(Seq<char>),
    NotAString(Seq<char>),
    BadTime(Seq<char>),
    TimeOutOfRange(Seq<char>),
}

impl View for DecodeError {
    type V = DecodeFailure;

    open spec fn view(&self) -> DecodeFailure {
        match self {
            DecodeError::NotAnObject(s) => DecodeFailure::NotAnObject(s@),
            DecodeError::UnknownField(s) => DecodeFailure::UnknownField(s@),
            DecodeError::MissingField(s) => DecodeFailure::MissingField(s@),
            DecodeError::NotAString(s) => DecodeFailure::NotAString(s@),
            DecodeError::BadTime(s) => DecodeFailure::BadTime(s@),
            DecodeError::TimeOutOfRange(s) => DecodeFailure::TimeOutOfRange(s@),
        }
    }
}

/// The human-readable cause that the server reports for a failure.
pub open spec fn failure_text(f: DecodeFailure) -> Seq<char> {
    match f {
        DecodeFailure::NotAnObject(why) => "not a JSON object: "@ + why,
        DecodeFailure::UnknownField(k) => "unknown field: "@ + k,
        DecodeFailure::MissingField(k) => "missing field: "@ + k,
        DecodeFailure::NotAString(k) => "field is not a string: "@ + k,
        DecodeFailure::BadTime(t) => "malformed time field: "@ + t,
        DecodeFailure::TimeOutOfRange(t) => "time field out of range: "@ + t,
    }
}

impl DecodeError {
    pub fn describe(&self) -> (r: String)
        ensures
            r@ == failure_text(self@),
    {
        match self {
            DecodeError::NotAnObject(why) => String::from_str("not a JSON object: ").concat(
                why.as_str(),
            ),
            DecodeError::UnknownField(k) => String::from_str("unknown field: ").concat(k.as_str()),
            DecodeError::MissingField(k) => String::from_str("missing field: ").concat(k.as_str()),
            DecodeError::NotAString(k) => String::from_str("field is not a string: ").concat(
                k.as_str(),
            ),
            DecodeError::BadTime(t) => String::from_str("malformed time field: ").concat(t.as_str()),
            DecodeError::TimeOutOfRange(t) => String::from_str("time field out of range: ").concat(
                t.as_str(),
            ),
        }
    }
}

} // verus!
