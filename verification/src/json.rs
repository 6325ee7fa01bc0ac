//! A JSON document as a tree of plain values, read from text and written as
//! text by `serde_json`.

use vstd::prelude::*;
use vstd::string::*;

verus! {

/// A JSON document. An object keeps its members in the order in which they
/// are listed.
#[derive(Debug)]
pub enum Json {
    Null,
    Bool(bool),
    Number(serde_json::Number),
    Str(String),
    Array(Vec<Json>),
    Object(Vec<(String, Json)>),
}

/// The mathematical value of a [`Json`] document.
pub ghost enum JsonValue {
    Null,
    Bool(bool),
    Number(serde_json::Number),
    Str(Seq<char>),
    Array(Seq<JsonValue>),
    Object(Seq<(Seq<char>, JsonValue)>),
}

/// The document that a [`Json`] stands for.
pub open spec fn json_value(json: Json) -> JsonValue
    decreases json,
{
    match json {
        Json::Null => JsonValue::Null,
        Json::Bool(b) => JsonValue::Bool(b),
        Json::Number(n) => JsonValue::Number(n),
        Json::Str(s) => JsonValue::Str(s@),
        Json::Array(items) => JsonValue::Array(
            Seq::new(
                items@.len(),
                |i: int|
                    if 0 <= i < items@.len() {
                        json_value(items@[i])
                    } else {
                        JsonValue::Null
                    },
            ),
        ),
        Json::Object(members) => JsonValue::Object(
            Seq::new(
                members@.len(),
                |i: int|
                    if 0 <= i < members@.len() {
                        (members@[i].0@, json_value(members@[i].1))
                    } else {
                        (Seq::empty(), JsonValue::Null)
                    },
            ),
        ),
    }
}

impl View for Json {
    type V = JsonValue;

    open spec fn view(&self) -> JsonValue {
        json_value(*self)
    }
}

/// The members of an object in the mathematical model.
pub type Members = Seq<(Seq<char>, JsonValue)>;

/// The value of the first member named `key`, if there is one.
pub open spec fn member(members: Members, key: Seq<char>) -> Option<JsonValue>
    decreases members.len(),
{
    if members.len() == 0 {
        None
    } else if members[0].0 == key {
        Some(members[0].1)
    } else {
        member(members.drop_first(), key)
    }
}

/// No two members of the object have the same name.
pub open spec fn distinct_names(members: Members) -> bool {
    forall|i: int, j: int|
        0 <= i < j < members.len() ==> (#[trigger] members[i]).0 != (#[trigger] members[j]).0
}

/// In every object of the document no two members have the same name.
pub open spec fn distinct_keys(json: JsonValue) -> bool
    decreases json,
{
    match json {
        JsonValue::Array(items) => forall|i: int|
            0 <= i < items.len() ==> distinct_keys(#[trigger] items[i]),
        JsonValue::Object(members) => distinct_names(members) && forall|i: int|
            0 <= i < members.len() ==> distinct_keys((#[trigger] members[i]).1),
        _ => true,
    }
}

/// `serde_json::Value`: a parsed document, opaque to the proofs.
#[verifier::external_type_specification]
#[verifier::external_body]
pub struct ExValue(serde_json::Value);

/// `serde_json::Number`: a number of a document, carried through unread.
#[verifier::external_type_specification]
#[verifier::external_body]
pub struct ExNumber(serde_json::Number);

/// `serde_json::Error`: why a text is no document, opaque to the proofs.
#[verifier::external_type_specification]
#[verifier::external_body]
pub struct ExJsonError(serde_json::Error);

/// The document that a `serde_json::Value` holds.
pub uninterp spec fn value_json(value: serde_json::Value) -> JsonValue;

/// The document that `serde_json::from_slice` reads from the bytes; `None`
/// where it reports an error.
pub uninterp spec fn parsed_json(bytes: Seq<u8>) -> Option<JsonValue>;

/// The text that `serde_json::to_string` writes for a document; `None`
/// where it reports an error.
pub uninterp spec fn json_text(json: JsonValue) -> Option<Seq<char>>;

/// Calls `serde_json::from_slice` for a `Value`. The contract names the
/// document that it reads and says that an error means there is none.
#[verifier::external_body]
fn parse_value(bytes: &[u8]) -> (r: Result<serde_json::Value, serde_json::Error>)
    ensures
        match r {
            Ok(value) => parsed_json(bytes@) == Some(value_json(value)),
            Err(_) => parsed_json(bytes@) is None,
        },
{
    serde_json::from_slice::<serde_json::Value>(bytes)
}

/// Tells the variants of a `serde_json::Value` apart and moves what each
/// holds into a [`Json`]; the members of an object come in the order of the
/// value's map. The contract says that nothing is lost or changed.
#[verifier::external_body]
fn json_from_value(value: &serde_json::Value) -> (json: Json)
    ensures
        json@ == value_json(*value),
{
    match value {
        serde_json::Value::Null => Json::Null,
        serde_json::Value::Bool(b) => Json::Bool(*b),
        serde_json::Value::Number(n) => Json::Number(n.clone()),
        serde_json::Value::String(s) => Json::Str(s.clone()),
        serde_json::Value::Array(a) => Json::Array(a.iter().map(json_from_value).collect()),
        serde_json::Value::Object(m) => Json::Object(
            m.iter().map(|(k, v)| (k.clone(), json_from_value(v))).collect(),
        ),
    }
}

/// Builds a `serde_json::Value` from a [`Json`]; the members of an object are
/// collected into the value's map, which keeps the order of insertion and
/// one member of each name. The contract says that a document without
/// repeated names is held unchanged.
#[verifier::external_body]
fn value_from_json(json: &Json) -> (value: serde_json::Value)
    ensures
        distinct_keys(json@) ==> value_json(value) == json@,
{
    match json {
        Json::Null => serde_json::Value::Null,
        Json::Bool(b) => serde_json::Value::Bool(*b),
        Json::Number(n) => serde_json::Value::Number(n.clone()),
        Json::Str(s) => serde_json::Value::String(s.clone()),
        Json::Array(a) => serde_json::Value::Array(a.iter().map(value_from_json).collect()),
        Json::Object(m) => serde_json::Value::Object(
            m.iter().map(|(k, v)| (k.clone(), value_from_json(v))).collect(),
        ),
    }
}

/// Calls `serde_json::to_string` on a `Value`. The contract names the text
/// that it writes and says that an error means there is none.
#[verifier::external_body]
fn value_text(value: &serde_json::Value) -> (r: Result<String, serde_json::Error>)
    ensures
        match r {
            Ok(text) => json_text(value_json(*value)) == Some(text@),
            Err(_) => json_text(value_json(*value)) is None,
        },
{
    serde_json::to_string(value)
}

/// Renders a `serde_json::Error` through its `Display`. Nothing is claimed
/// of the words.
#[verifier::external_body]
pub(crate) fn json_error_text(error: &serde_json::Error) -> (text: String) {
    error.to_string()
}

/// Reads a JSON document from bytes.
pub fn parse_json(bytes: &[u8]) -> (r: Result<Json, serde_json::Error>)
    ensures
        match r {
            Ok(json) => parsed_json(bytes@) == Some(json@),
            Err(_) => parsed_json(bytes@) is None,
        },
{
    match parse_value(bytes) {
        Ok(value) => Ok(json_from_value(&value)),
        Err(error) => Err(error),
    }
}

/// Writes a JSON document as compact text.
pub fn render_json(json: &Json) -> (r: Result<String, serde_json::Error>)
    ensures
        distinct_keys(json@) ==> match r {
            Ok(text) => json_text(json@) == Some(text@),
            Err(_) => json_text(json@) is None,
        },
{
    let value = value_from_json(json);
    value_text(&value)
}


/// The members of an object, each with the view of its name and its value.
pub open spec fn members_view(members: Seq<(String, Json)>) -> Members {
    Seq::new(members.len(), |i: int| (members[i].0@, members[i].1@))
}

/// The view of an object is the view of its members.
pub proof fn lemma_object_view(members: Vec<(String, Json)>)
    ensures
        Json::Object(members)@ == JsonValue::Object(members_view(members@)),
{
    assert(Json::Object(members)@->Object_0 =~= members_view(members@));
}

/// Looks up the first member of an object with the given name.
pub fn find_member<'a>(members: &'a Vec<(String, Json)>, key: &str) -> (found: Option<&'a Json>)
    ensures
        match found {
            Some(json) => member(members_view(members@), key@) == Some(json@),
            None => member(members_view(members@), key@) is None,
        },
{
    let ghost all = members_view(members@);
    let mut i: usize = 0;
    assert(all.subrange(0, all.len() as int) =~= all);
    while i < members.len()
        invariant
            i <= members.len(),
            all == members_view(members@),
            member(all, key@) == member(all.subrange(i as int, all.len() as int), key@),
        decreases members.len() - i,
    {
        let ghost rest = all.subrange(i as int, all.len() as int);
        assert(rest[0] == all[i as int]);
        if crate::text::text_eq(members[i].0.as_str(), key) {
            return Some(&members[i].1);
        }
        assert(rest.drop_first() =~= all.subrange(i + 1, all.len() as int));
        i = i + 1;
    }
    None
}

} // verus!
