use chat_relay::codec::{decode, decode_object, encode};
use chat_relay::message::{DecodeError, Message};
use chat_relay::timestamp::Timestamp;
use chat_relay::validator::validate;

fn field(payload: &str, key: &str) -> serde_json::Value {
    let v: serde_json::Value = serde_json::from_str(payload).unwrap();
    v.get(key).cloned().unwrap()
}

fn message(msg_type: &str, name: &str, text: &str, time: Timestamp) -> Message {
    Message { msg_type: msg_type.to_string(), name: name.to_string(), text: text.to_string(), time }
}

fn assert_round_trip(m: &Message) {
    let payload = encode(m);
    let back = decode(&payload).unwrap();
    assert_eq!(back.msg_type, m.msg_type);
    assert_eq!(back.name, m.name);
    assert_eq!(back.text, m.text);
    assert_eq!(back.time, m.time);
}

#[test]
fn round_trip_plain_message() {
    assert_round_trip(&message("chat", "alice", "hello", Timestamp { secs: 1704067200, nanos: 0 }));
}

#[test]
fn round_trip_subsecond_and_escapes() {
    assert_round_trip(&message(
        "chat",
        "b\u{f6}b \"the\" builder",
        "line one\nline two\t\\ done",
        Timestamp { secs: 1704067200, nanos: 123_456_789 },
    ));
    assert_round_trip(&message("chat", "", "", Timestamp { secs: 0, nanos: 1_000 }));
}

#[test]
fn round_trip_range_edges_and_leap_second() {
    assert_round_trip(&message("chat", "a", "b", Timestamp { secs: -62167219200, nanos: 0 }));
    assert_round_trip(&message("chat", "a", "b", Timestamp { secs: 253402300799, nanos: 999_999_999 }));
    // 2016-12-31T23:59:60.5Z
    assert_round_trip(&message("chat", "a", "b", Timestamp { secs: 1483228799, nanos: 1_500_000_000 }));
}

#[test]
fn encode_writes_wire_names_and_utc_time() {
    let m = message("chat", "alice", "hello", Timestamp { secs: 1704067200, nanos: 0 });
    let payload = encode(&m);
    assert_eq!(field(&payload, "msgType"), "chat");
    assert_eq!(field(&payload, "name"), "alice");
    assert_eq!(field(&payload, "text"), "hello");
    assert_eq!(field(&payload, "time"), "2024-01-01T00:00:00+00:00");
    let v: serde_json::Value = serde_json::from_str(&payload).unwrap();
    assert_eq!(v.as_object().unwrap().len(), 4);
    assert_eq!(m.to_string(), payload);
}

#[test]
fn decode_example_message() {
    let m = decode(r#"{"msgType":"chat","name":"alice","text":"hello","time":"2024-01-01T00:00:00Z"}"#)
        .unwrap();
    assert_eq!(m.msg_type, "chat");
    assert_eq!(m.name, "alice");
    assert_eq!(m.text, "hello");
    assert_eq!(m.time, Timestamp { secs: 1704067200, nanos: 0 });
}

#[test]
fn decode_normalizes_offset_to_utc() {
    let m = decode(r#"{"msgType":"chat","name":"a","text":"hi","time":"2024-01-01T01:30:00.25+01:30"}"#)
        .unwrap();
    assert_eq!(m.time, Timestamp { secs: 1704067200, nanos: 250_000_000 });
}

#[test]
fn decode_rejects_each_missing_field() {
    let cases = [
        (r#"{"name":"a","text":"hi","time":"2024-01-01T00:00:00Z"}"#, "msgType"),
        (r#"{"msgType":"chat","text":"hi","time":"2024-01-01T00:00:00Z"}"#, "name"),
        (r#"{"msgType":"chat","name":"a","time":"2024-01-01T00:00:00Z"}"#, "text"),
        (r#"{"msgType":"chat","name":"a","text":"hi"}"#, "time"),
    ];
    for (payload, key) in cases {
        match decode(payload) {
            Err(DecodeError::MissingField(k)) => assert_eq!(k, key),
            other => panic!("expected a missing {key}, got {other:?}"),
        }
    }
}

#[test]
fn decode_rejects_unparseable_time() {
    match decode(r#"{"msgType":"chat","name":"a","text":"hi","time":"not-a-time"}"#) {
        Err(DecodeError::BadTime(t)) => assert_eq!(t, "not-a-time"),
        other => panic!("expected a bad time, got {other:?}"),
    }
}

#[test]
fn decode_rejects_time_outside_four_digit_years() {
    match decode(r#"{"msgType":"chat","name":"a","text":"hi","time":"0000-01-01T00:00:00+01:00"}"#) {
        Err(DecodeError::TimeOutOfRange(t)) => assert_eq!(t, "0000-01-01T00:00:00+01:00"),
        other => panic!("expected a time out of range, got {other:?}"),
    }
}

#[test]
fn decode_rejects_unknown_field() {
    match decode(r#"{"msgType":"chat","name":"a","text":"hi","time":"2024-01-01T00:00:00Z","room":"x"}"#) {
        Err(DecodeError::UnknownField(k)) => assert_eq!(k, "room"),
        other => panic!("expected an unknown field, got {other:?}"),
    }
}

#[test]
fn decode_rejects_non_string_field() {
    match decode(r#"{"msgType":"chat","name":7,"text":"hi","time":"2024-01-01T00:00:00Z"}"#) {
        Err(DecodeError::NotAString(k)) => assert_eq!(k, "name"),
        other => panic!("expected a non-string field, got {other:?}"),
    }
}

#[test]
fn decode_rejects_non_objects() {
    for payload in ["", "not json", "[1,2]", "\"chat\"", "{\"msgType\":"] {
        match decode(payload) {
            Err(DecodeError::NotAnObject(why)) => assert!(!why.is_empty()),
            other => panic!("expected no object for {payload:?}, got {other:?}"),
        }
    }
}

#[test]
fn error_descriptions_name_field_and_cause() {
    assert_eq!(DecodeError::MissingField("text".to_string()).describe(), "missing field: text");
    assert_eq!(DecodeError::UnknownField("room".to_string()).describe(), "unknown field: room");
    assert_eq!(DecodeError::NotAString("name".to_string()).describe(), "field is not a string: name");
    assert_eq!(DecodeError::BadTime("x".to_string()).describe(), "malformed time field: x");
    assert_eq!(DecodeError::TimeOutOfRange("y".to_string()).describe(), "time field out of range: y");
    assert_eq!(DecodeError::NotAnObject("eof".to_string()).describe(), "not a JSON object: eof");
}

#[test]
fn with_error_builds_envelope() {
    let now = Timestamp { secs: 1704067200, nanos: 5 };
    let m = Message::with_error("boom".to_string(), now);
    assert_eq!(m.msg_type, "error");
    assert_eq!(m.name, "");
    assert_eq!(m.text, "boom");
    assert_eq!(m.time, now);
}

#[test]
fn timestamp_validity() {
    assert!(Timestamp { secs: 0, nanos: 0 }.is_valid());
    assert!(Timestamp { secs: 253402300799, nanos: 999_999_999 }.is_valid());
    assert!(!Timestamp { secs: 253402300800, nanos: 0 }.is_valid());
    assert!(!Timestamp { secs: -62167219201, nanos: 0 }.is_valid());
    assert!(Timestamp { secs: 59, nanos: 1_500_000_000 }.is_valid());
    assert!(!Timestamp { secs: 58, nanos: 1_500_000_000 }.is_valid());
    assert!(!Timestamp { secs: 59, nanos: 2_000_000_000 }.is_valid());
    let now = Timestamp::now().unwrap();
    assert!(now.secs > 1_600_000_000);
}

#[test]
fn decode_object_reads_entries() {
    let s = |x: &str| x.to_string();
    let es = vec![
        (s("msgType"), Some(s("chat"))),
        (s("name"), Some(s("a"))),
        (s("text"), Some(s("hi"))),
        (s("time"), Some(s("1970-01-01T00:01:00Z"))),
    ];
    let m = decode_object(&es).unwrap();
    assert_eq!(m.msg_type, "chat");
    assert_eq!(m.time, Timestamp { secs: 60, nanos: 0 });
    let missing = vec![(s("name"), Some(s("a")))];
    assert!(matches!(decode_object(&missing), Err(DecodeError::MissingField(k)) if k == "msgType"));
    let unknown = vec![(s("name"), Some(s("a"))), (s("room"), None)];
    assert!(matches!(decode_object(&unknown), Err(DecodeError::UnknownField(k)) if k == "room"));
    let wrong = vec![(s("msgType"), None)];
    assert!(matches!(decode_object(&wrong), Err(DecodeError::NotAString(k)) if k == "msgType"));
}

#[test]
fn round_trip_leap_day_unicode_escapes() {
    // 2024-02-29T23:59:59.123456789Z
    let m = message("chat", "Zo\u{eb}", "x\"y\n", Timestamp { secs: 1709251199, nanos: 123_456_789 });
    let back = decode(&m.to_string()).unwrap();
    assert_eq!(back, m);
    assert_eq!(field(&m.to_string(), "time"), "2024-02-29T23:59:59.123456789+00:00");
}

#[test]
fn error_envelope_decodes_back() {
    let now = Timestamp { secs: 1704067200, nanos: 42 };
    let m = Message::with_error("Deserialization failed: missing field: name".to_string(), now);
    assert_eq!(decode(&encode(&m)).unwrap(), m);
}

#[test]
fn null_payload_is_not_an_object() {
    match decode("null") {
        Err(DecodeError::NotAnObject(why)) => assert!(why.contains("null")),
        other => panic!("expected no object, got {other:?}"),
    }
}

#[test]
fn validate_passes_messages_through() {
    let m = message("chat", "a", "", Timestamp { secs: 0, nanos: 0 });
    assert_eq!(validate(m.clone()).unwrap(), m);
}

#[test]
fn decode_object_later_duplicate_wins() {
    let s = |x: &str| x.to_string();
    let es = vec![
        (s("msgType"), Some(s("chat"))),
        (s("name"), Some(s("a"))),
        (s("text"), Some(s("hi"))),
        (s("name"), Some(s("b"))),
        (s("time"), Some(s("1970-01-01T00:00:00Z"))),
    ];
    assert_eq!(decode_object(&es).unwrap().name, "b");
}

#[test]
fn decode_object_rejects_any_non_string_entry() {
    let s = |x: &str| x.to_string();
    let es = vec![
        (s("msgType"), Some(s("chat"))),
        (s("name"), None),
        (s("name"), Some(s("a"))),
        (s("text"), Some(s("hi"))),
        (s("time"), Some(s("1970-01-01T00:00:00Z"))),
    ];
    assert!(matches!(decode_object(&es), Err(DecodeError::NotAString(k)) if k == "name"));
    let es = vec![(s("name"), Some(s("a"))), (s("name"), None)];
    assert!(matches!(decode_object(&es), Err(DecodeError::NotAString(k)) if k == "name"));
}

#[test]
fn decode_duplicate_key_in_text_keeps_last() {
    let m = decode(r#"{"msgType":"chat","name":"a","text":"hi","name":"b","time":"2024-01-01T00:00:00Z"}"#)
        .unwrap();
    assert_eq!(m.name, "b");
}
