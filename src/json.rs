//! The flat JSON objects of the wire format, seen as a sequence of entries:
//! a key, and the entry's text where its value is a JSON string (`None` for
//! any other JSON value).

use vstd::prelude::*;

verus! {

/// The entries of the JSON object that a text holds, as serde_json reads it
/// into a map, or serde_json's description of why the text is no JSON object.
pub uninterp spec fn json_object(text: Seq<char>) -> Result<Seq<(Seq<char>, Option<Seq<char>>)>, Seq<char>>;

/// The value of the last entry under `key` before index `end`, or `None`
/// where no such entry has it.
pub open spec fn value_before(entries: Seq<(Seq<char>, Option<Seq<char>>)>, key: Seq<char>, end: int) -> Option<
    Option<Seq<char>>,
>
    decreases end,
{
    if end <= 0 || end > entries.len() {
        None
    } else if entries[end - 1].0 == key {
        Some(entries[end - 1].1)
    } else {
        value_before(entries, key, end - 1)
    }
}

/// The value of the last entry under `key`, as a later entry overwrites an
/// earlier one, or `None` where no entry has it.
pub open spec fn field_value(entries: Seq<(Seq<char>, Option<Seq<char>>)>, key: Seq<char>) -> Option<
    Option<Seq<char>>,
> {
    value_before(entries, key, entries.len() as int)
}

/// No two entries share a key, as in a map.
pub open spec fn keys_distinct(entries: Seq<(Seq<char>, Option<Seq<char>>)>) -> bool {
    forall|i: int, j: int| 0 <= i < j < entries.len() ==> entries[i].0 != entries[j].0
}

/// Two entry sequences give every key the same value.
pub open spec fn same_fields(
    a: Seq<(Seq<char>, Option<Seq<char>>)>,
    b: Seq<(Seq<char>, Option<Seq<char>>)>,
) -> bool {
    forall|k: Seq<char>| #[trigger] field_value(a, k) == field_value(b, k)
}

/// String-valued pairs as entries.
pub open spec fn string_entries(pairs: Seq<(String, String)>) -> Seq<(Seq<char>, Option<Seq<char>>)> {
    pairs.map_values(|p: (String, String)| (p.0@, Some(p.1@)))
}

pub open spec fn entries_view(v: Seq<(String, Option<String>)>) -> Seq<(Seq<char>, Option<Seq<char>>)> {
    v.map_values(
        |e: (String, Option<String>)|
            (
                e.0@,
                match e.1 {
                    Some(s) => Some(s@),
                    None => None,
                },
            ),
    )
}

pub proof fn lemma_value_distinct(entries: Seq<(Seq<char>, Option<Seq<char>>)>, end: int, i: int)
    requires
        keys_distinct(entries),
        0 <= i < end <= entries.len(),
    ensures
        value_before(entries, entries[i].0, end) == Some(entries[i].1),
    decreases end,
{
    if end - 1 != i {
        lemma_value_distinct(entries, end - 1, i);
    }
}

pub proof fn lemma_value_absent(entries: Seq<(Seq<char>, Option<Seq<char>>)>, key: Seq<char>, end: int)
    requires
        end <= entries.len(),
        forall|i: int| 0 <= i < end ==> entries[i].0 != key,
    ensures
        value_before(entries, key, end) is None,
    decreases end,
{
    if end > 0 {
        lemma_value_absent(entries, key, end - 1);
    }
}

/// Relies on `serde_json::from_str` into a `serde_json::Map`: the entries of
/// the object, each string value taken out as it is and any other value
/// marked as not a string. A map holds each key once. The error is
/// serde_json's description of it.
#[verifier::external_body]
pub(crate) fn parse_object(text: &str) -> (r: Result<Vec<(String, Option<String>)>, String>)
    ensures
        match r {
            Ok(v) => json_object(text@) == Ok::<_, Seq<char>>(entries_view(v@)) && keys_distinct(
                entries_view(v@),
            ),
            Err(e) => json_object(text@) == Err::<Seq<(Seq<char>, Option<Seq<char>>)>, _>(e@),
        },
{
    match serde_json::from_str::<serde_json::Map<String, serde_json::Value>>(text) {
        Ok(m) => Ok(
            m.into_iter().map(|(k, v)| match v {
                serde_json::Value::String(s) => (k, Some(s)),
                _ => (k, None),
            }).collect(),
        ),
        Err(e) => Err(e.to_string()),
    }
}

/// Relies on `serde_json::to_string` of a `serde_json::Map` of string
/// values. It fails only where a `Serialize` impl fails or a map key is not
/// a string, neither of which a map from `String` to `Value::String` can
/// meet, so it succeeds. The text it writes is a JSON object that
/// `serde_json::from_str` reads back with the same value under each key.
/// The pairs' keys are distinct, so no pair overwrites another.
#[verifier::external_body]
pub(crate) fn write_object(pairs: &Vec<(String, String)>) -> (r: Result<String, String>)
    requires
        forall|i: int, j: int|
            0 <= i < j < pairs@.len() ==> pairs@[i].0@ != pairs@[j].0@,
    ensures
        r is Ok,
        r matches Ok(t) ==> (json_object(t@) matches Ok(es) && keys_distinct(es) && same_fields(
            es,
            string_entries(pairs@),
        )),
{
    let m: serde_json::Map<String, serde_json::Value> = pairs.iter().map(
        |(k, v)| (k.clone(), serde_json::Value::String(v.clone())),
    ).collect();
    serde_json::to_string(&m).map_err(|e| e.to_string())
}

} // verus!
