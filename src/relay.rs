//! What the server sends in answer to one inbound frame: a chat message goes
//! to every registered connection, and anything else earns its sender alone
//! an error message.

use crate::codec::{decode, decode_spec, encode, encodes};
use crate::message::{error_envelope, failure_text, DecodeFailure, Message};
use crate::registry::{Delivery, Registry};
use crate::timestamp::Timestamp;
use crate::validator::validate;
use vstd::prelude::*;
use vstd::string::StringExecFns;

verus! {

/// One inbound frame as the transport hands it over.
pub enum Frame {
    Text(String),
    Binary(Vec<u8>),
}

pub open spec fn binary_reason() -> Seq<char> {
    "Not expecting binary data!"@
}

pub open spec fn rejection_reason(f: DecodeFailure) -> Seq<char> {
    "Deserialization failed: "@ + failure_text(f)
}

/// What became of a frame, for the server's log.
#[derive(Clone, Debug)]
pub enum Outcome {
    /// The message went to every registered connection.
    Relayed,
    /// The text was no acceptable message; the reason sent back.
    Rejected(String),
    /// The frame was binary.
    UnexpectedBinary,
}

/// The error message carrying `reason`, stamped `now`, for the connection
/// `to` alone.
pub fn reply_error(reg: &Registry, to: u64, reason: String, now: Timestamp) -> (r: Vec<Delivery>)
    requires
        now.wf(),
    ensures
        r@.len() == 1,
        r@[0].0 == to,
        encodes(error_envelope(reason@, now), r@[0].1@),
{
    let envelope = Message::with_error(reason, now);
    reg.unicast(to, encode(&envelope))
}

/// The deliveries that a frame from the connection `from` calls for, given
/// the registered connections and the time `now` for an error message.
/// A binary frame is never decoded.
pub fn handle_frame(reg: &Registry, from: u64, frame: &Frame, now: Timestamp) -> (r: (
    Vec<Delivery>,
    Outcome,
))
    requires
        now.wf(),
    ensures
        frame is Binary ==> {
            &&& r.0@.len() == 1
            &&& r.0@[0].0 == from
            &&& encodes(error_envelope(binary_reason(), now), r.0@[0].1@)
            &&& r.1 is UnexpectedBinary
        },
        frame matches Frame::Text(t) ==> match decode_spec(t@) {
            Ok(m) => {
                &&& r.0@.len() == reg@.len()
                &&& forall|i: int|
                    0 <= i < r.0@.len() ==> r.0@[i].0 == reg@[i] && encodes(m, r.0@[i].1@)
                &&& forall|i: int, j: int|
                    0 <= i < r.0@.len() && 0 <= j < r.0@.len() ==> r.0@[i].1@ == r.0@[j].1@
                &&& r.1 is Relayed
            },
            Err(f) => {
                &&& r.0@.len() == 1
                &&& r.0@[0].0 == from
                &&& encodes(error_envelope(rejection_reason(f), now), r.0@[0].1@)
                &&& r.1 matches Outcome::Rejected(reason) && reason@ == rejection_reason(f)
            },
        },
{
    match frame {
        Frame::Binary(_) => {
            let reason = String::from_str("Not expecting binary data!");
            (reply_error(reg, from, reason, now), Outcome::UnexpectedBinary)
        },
        Frame::Text(t) => match decode(t.as_str()) {
            Ok(m) => match validate(m) {
                Ok(m) => {
                    let payload = encode(&m);
                    let r = reg.broadcast(&payload);
                    assert forall|i: int, j: int|
                        0 <= i < r@.len() && 0 <= j < r@.len() implies r@[i].1@ == r@[j].1@ by {
                        assert(r@[i].1@ == payload@);
                        assert(r@[j].1@ == payload@);
                    }
                    (r, Outcome::Relayed)
                },
                Err(e) => {
                    let reason = String::from_str("Validation failed: ").concat(e.rule.as_str());
                    (reply_error(reg, from, reason.clone(), now), Outcome::Rejected(reason))
                },
            },
            Err(e) => {
                proof {
                    reveal_strlit("Deserialization failed: ");
                }
                let reason = String::from_str("Deserialization failed: ").concat(
                    e.describe().as_str(),
                );
                (reply_error(reg, from, reason.clone(), now), Outcome::Rejected(reason))
            },
        },
    }
}

} // verus!
