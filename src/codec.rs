//! The wire codec: a chat message is a JSON object with exactly the string
//! fields `msgType`, `name`, `text` and `time`, the last in RFC 3339.
//! A payload with any other key is rejected; under a repeated key the last
//! value counts.

use crate::json::{
    entries_view, field_value, json_object, keys_distinct, lemma_value_absent,
    lemma_value_distinct, parse_object, same_fields, string_entries, value_before, write_object,
};
use crate::message::{DecodeError, DecodeFailure, Message, MessageModel};
use crate::timestamp::{format_rfc3339, parse_rfc3339, rfc3339_instant, rfc3339_text, Timestamp};
use vstd::prelude::*;
use vstd::string::StringExecFns;

verus! {

pub open spec fn is_wire_key(k: Seq<char>) -> bool {
    k == "msgType"@ || k == "name"@ || k == "text"@ || k == "time"@
}

/// The failure of the first entry at index `start` or later whose key is
/// none of the four fields or whose value is not a string.
pub open spec fn bad_entry_from(entries: Seq<(Seq<char>, Option<Seq<char>>)>, start: int) -> Option<
    DecodeFailure,
>
    decreases entries.len() - start,
{
    if start < 0 || start >= entries.len() {
        None
    } else if !is_wire_key(entries[start].0) {
        Some(DecodeFailure::UnknownField(entries[start].0))
    } else if entries[start].1 is None {
        Some(DecodeFailure::NotAString(entries[start].0))
    } else {
        bad_entry_from(entries, start + 1)
    }
}

/// The string under `key`, or the failure that its absence or its type makes.
pub open spec fn string_field(entries: Seq<(Seq<char>, Option<Seq<char>>)>, key: Seq<char>) -> Result<
    Seq<char>,
    DecodeFailure,
> {
    match field_value(entries, key) {
        None => Err(DecodeFailure::MissingField(key)),
        Some(None) => Err(DecodeFailure::NotAString(key)),
        Some(Some(s)) => Ok(s),
    }
}

/// An instant that a well-formed `Timestamp` can hold.
pub open spec fn instant_ok(secs: int, nanos: int) -> bool {
    &&& i64::MIN <= secs <= i64::MAX
    &&& 0 <= nanos <= u32::MAX
    &&& (Timestamp { secs: secs as i64, nanos: nanos as u32 }).wf()
}

/// The time field's text read as an instant.
pub open spec fn time_field(t: Seq<char>) -> Result<Timestamp, DecodeFailure> {
    match rfc3339_instant(t) {
        None => Err(DecodeFailure::BadTime(t)),
        Some((s, n)) => if instant_ok(s, n) {
            Ok(Timestamp { secs: s as i64, nanos: n as u32 })
        } else {
            Err(DecodeFailure::TimeOutOfRange(t))
        },
    }
}

/// What the entries of a JSON object decode to. The entries are read in
/// order, and the first with an unknown key or a value that is not a string
/// fails; then a field that is missing fails, in the order `msgType`,
/// `name`, `text`, `time`; then the time's text. Under a repeated key the
/// last entry counts.
pub open spec fn decode_entries(es: Seq<(Seq<char>, Option<Seq<char>>)>) -> Result<
    MessageModel,
    DecodeFailure,
> {
    if let Some(f) = bad_entry_from(es, 0) {
        Err(f)
    } else {
        match string_field(es, "msgType"@) {
            Err(f) => Err(f),
            Ok(msg_type) => match string_field(es, "name"@) {
                Err(f) => Err(f),
                Ok(name) => match string_field(es, "text"@) {
                    Err(f) => Err(f),
                    Ok(text) => match string_field(es, "time"@) {
                        Err(f) => Err(f),
                        Ok(t) => match time_field(t) {
                            Err(f) => Err(f),
                            Ok(time) => Ok(MessageModel { msg_type, name, text, time }),
                        },
                    },
                },
            },
        }
    }
}

/// What a payload decodes to.
pub open spec fn decode_spec(payload: Seq<char>) -> Result<MessageModel, DecodeFailure> {
    match json_object(payload) {
        Err(why) => Err(DecodeFailure::NotAnObject(why)),
        Ok(es) => decode_entries(es),
    }
}

/// The entries that a message is written as.
pub open spec fn wire_entries(m: MessageModel) -> Seq<(Seq<char>, Option<Seq<char>>)> {
    seq![
        ("msgType"@, Some(m.msg_type)),
        ("name"@, Some(m.name)),
        ("text"@, Some(m.text)),
        ("time"@, Some(rfc3339_text(m.time.secs as int, m.time.nanos as int))),
    ]
}

/// `payload` is `m` written on the wire: a JSON object with `m`'s fields,
/// whose time text reads back as `m`'s instant.
pub open spec fn encodes(m: MessageModel, payload: Seq<char>) -> bool {
    &&& json_object(payload) matches Ok(es) && keys_distinct(es) && same_fields(es, wire_entries(m))
    &&& rfc3339_instant(rfc3339_text(m.time.secs as int, m.time.nanos as int)) == Some(
        (m.time.secs as int, m.time.nanos as int),
    )
}

fn find_bad_entry(es: &Vec<(String, Option<String>)>) -> (r: Option<DecodeError>)
    ensures
        match r {
            Some(e) => bad_entry_from(entries_view(es@), 0) == Some(e@),
            None => bad_entry_from(entries_view(es@), 0) is None,
        },
{
    let ghost ev = entries_view(es@);
    let msg_type = String::from_str("msgType");
    let name = String::from_str("name");
    let text = String::from_str("text");
    let time = String::from_str("time");
    proof {
        reveal_strlit("msgType");
        reveal_strlit("name");
        reveal_strlit("text");
        reveal_strlit("time");
    }
    let mut i: usize = 0;
    while i < es.len()
        invariant
            0 <= i <= es.len(),
            ev == entries_view(es@),
            msg_type@ == "msgType"@,
            name@ == "name"@,
            text@ == "text"@,
            time@ == "time"@,
            bad_entry_from(ev, 0) == bad_entry_from(ev, i as int),
        decreases es.len() - i,
    {
        let k = &es[i].0;
        if !(*k == msg_type || *k == name || *k == text || *k == time) {
            return Some(DecodeError::UnknownField(k.clone()));
        }
        if es[i].1.is_none() {
            return Some(DecodeError::NotAString(k.clone()));
        }
        i = i + 1;
    }
    None
}

fn lookup(es: &Vec<(String, Option<String>)>, key: &String) -> (r: Option<Option<String>>)
    ensures
        field_value(entries_view(es@), key@) == match r {
            None => None,
            Some(None) => Some(None),
            Some(Some(s)) => Some(Some(s@)),
        },
{
    let ghost ev = entries_view(es@);
    let mut i: usize = es.len();
    while i > 0
        invariant
            0 <= i <= es.len(),
            ev == entries_view(es@),
            field_value(ev, key@) == value_before(ev, key@, i as int),
        decreases i,
    {
        if es[i - 1].0 == *key {
            return match &es[i - 1].1 {
                Some(s) => Some(Some(s.clone())),
                None => Some(None),
            };
        }
        i = i - 1;
    }
    None
}

fn read_string_field(es: &Vec<(String, Option<String>)>, key: &str) -> (r: Result<
    String,
    DecodeError,
>)
    ensures
        match r {
            Ok(s) => string_field(entries_view(es@), key@) == Ok::<_, DecodeFailure>(
                s@,
            ),
            Err(e) => string_field(entries_view(es@), key@) == Err::<Seq<char>, _>(
                e@,
            ),
        },
{
    let k = String::from_str(key);
    match lookup(es, &k) {
        None => Err(DecodeError::MissingField(k)),
        Some(None) => Err(DecodeError::NotAString(k)),
        Some(Some(s)) => Ok(s),
    }
}

/// Reads a chat message from the entries of a JSON object.
pub fn decode_object(es: &Vec<(String, Option<String>)>) -> (r: Result<Message, DecodeError>)
    ensures
        match r {
            Ok(m) => decode_entries(entries_view(es@)) == Ok::<_, DecodeFailure>(m@),
            Err(e) => decode_entries(entries_view(es@)) == Err::<MessageModel, _>(e@),
        },
{
    if let Some(e) = find_bad_entry(es) {
        return Err(e);
    }
    let msg_type = read_string_field(es, "msgType")?;
    let name = read_string_field(es, "name")?;
    let text = read_string_field(es, "text")?;
    let t = read_string_field(es, "time")?;
    let time = match parse_rfc3339(t.as_str()) {
        Some(time) => time,
        None => return Err(DecodeError::BadTime(t)),
    };
    if !time.is_valid() {
        return Err(DecodeError::TimeOutOfRange(t));
    }
    Ok(Message { msg_type, name, text, time })
}

/// Reads a chat message from a payload.
pub fn decode(payload: &str) -> (r: Result<Message, DecodeError>)
    ensures
        match r {
            Ok(m) => decode_spec(payload@) == Ok::<_, DecodeFailure>(m@),
            Err(e) => decode_spec(payload@) == Err::<MessageModel, _>(e@),
        },
{
    match parse_object(payload) {
        Ok(es) => decode_object(&es),
        Err(why) => Err(DecodeError::NotAnObject(why)),
    }
}

/// Writes a message as its wire payload. Should serialization fail, the
/// payload is the empty object `{}`, which clients take for a server fault;
/// for a map of strings it does not fail.
pub fn encode(m: &Message) -> (r: String)
    requires
        m@.wf(),
    ensures
        encodes(m@, r@),
{
    let time = format_rfc3339(m.time);
    let pairs: Vec<(String, String)> = vec![
        (String::from_str("msgType"), m.msg_type.clone()),
        (String::from_str("name"), m.name.clone()),
        (String::from_str("text"), m.text.clone()),
        (String::from_str("time"), time),
    ];
    proof {
        reveal_strlit("msgType");
        reveal_strlit("name");
        reveal_strlit("text");
        reveal_strlit("time");
        assert(string_entries(pairs@) =~= wire_entries(m@));
        lemma_wire_keys_distinct();
        assert(forall|i: int, j: int|
            0 <= i < j < pairs@.len() ==> pairs@[i].0@ != pairs@[j].0@);
    }
    match write_object(&pairs) {
        Ok(payload) => payload,
        Err(_) => String::from_str("{}"),
    }
}

impl Message {
    /// The message's wire payload; see `encode`.
    pub fn to_string(&self) -> (r: String)
        requires
            self@.wf(),
        ensures
            encodes(self@, r@),
    {
        encode(self)
    }
}

proof fn lemma_wire_keys_distinct()
    ensures
        "msgType"@ != "name"@,
        "msgType"@ != "text"@,
        "msgType"@ != "time"@,
        "name"@ != "text"@,
        "name"@ != "time"@,
        "text"@ != "time"@,
{
    reveal_strlit("msgType");
    reveal_strlit("name");
    reveal_strlit("text");
    reveal_strlit("time");
    assert("name"@[0] != "text"@[0]);
    assert("name"@[0] != "time"@[0]);
    assert("text"@[1] != "time"@[1]);
}

proof fn lemma_wire_fields(m: MessageModel)
    ensures
        field_value(wire_entries(m), "msgType"@) == Some(Some(m.msg_type)),
        field_value(wire_entries(m), "name"@) == Some(Some(m.name)),
        field_value(wire_entries(m), "text"@) == Some(Some(m.text)),
        field_value(wire_entries(m), "time"@) == Some(
            Some(rfc3339_text(m.time.secs as int, m.time.nanos as int)),
        ),
{
    lemma_wire_keys_distinct();
    let w = wire_entries(m);
    assert(value_before(w, "msgType"@, 1) == Some(Some(m.msg_type)));
    assert(value_before(w, "msgType"@, 2) == value_before(w, "msgType"@, 1));
    assert(value_before(w, "msgType"@, 3) == value_before(w, "msgType"@, 2));
    assert(value_before(w, "name"@, 2) == Some(Some(m.name)));
    assert(value_before(w, "name"@, 3) == value_before(w, "name"@, 2));
    assert(value_before(w, "text"@, 3) == Some(Some(m.text)));
}

proof fn lemma_bad_found(es: Seq<(Seq<char>, Option<Seq<char>>)>, start: int)
    requires
        0 <= start,
        bad_entry_from(es, start) is Some,
    ensures
        exists|i: int|
            start <= i < es.len() && (!is_wire_key(es[i].0) || es[i].1 is None),
    decreases es.len() - start,
{
    if is_wire_key(es[start].0) && es[start].1 is Some {
        lemma_bad_found(es, start + 1);
    }
}

/// Encoding then decoding gives back the message: a payload that holds a
/// well-formed message `m` on the wire decodes to exactly `m`.
pub proof fn lemma_round_trip(m: MessageModel, payload: Seq<char>)
    requires
        m.wf(),
        encodes(m, payload),
    ensures
        decode_spec(payload) == Ok::<_, DecodeFailure>(m),
{
    reveal_strlit("msgType");
    reveal_strlit("name");
    reveal_strlit("text");
    reveal_strlit("time");
    let es = json_object(payload)->Ok_0;
    let w = wire_entries(m);
    lemma_wire_fields(m);
    if bad_entry_from(es, 0) is Some {
        lemma_bad_found(es, 0);
        let i = choose|i: int| 0 <= i < es.len() && (!is_wire_key(es[i].0) || es[i].1 is None);
        let k = es[i].0;
        lemma_value_distinct(es, es.len() as int, i);
        assert(field_value(es, k) == field_value(w, k));
        if !is_wire_key(k) {
            lemma_value_absent(w, k, w.len() as int);
        }
        assert(false);
    }
    assert(field_value(es, "msgType"@) == field_value(w, "msgType"@));
    assert(field_value(es, "name"@) == field_value(w, "name"@));
    assert(field_value(es, "text"@) == field_value(w, "text"@));
    assert(field_value(es, "time"@) == field_value(w, "time"@));
}

/// A JSON object that lacks any one of the four fields decodes to no
/// message.
pub proof fn lemma_missing_field_rejected(payload: Seq<char>, key: Seq<char>)
    requires
        is_wire_key(key),
        json_object(payload) matches Ok(es) && field_value(es, key) is None,
    ensures
        decode_spec(payload) is Err,
{
}

} // verus!
