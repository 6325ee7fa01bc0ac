//! How messages are written as JSON documents and read back from them.
//!
//! A request is an object with the members `msg_id` and `payload`; a payload
//! and a response are objects with the name of the variant under `type` and
//! its fields under `data`. Members that the schema does not name are
//! ignored when a document is read.

use crate::json::{
    distinct_keys, distinct_names, find_member, lemma_object_view, member, members_view, Json,
    JsonValue, Members,
};
use crate::message::{
    payload_name, response_name, ClientServerMessage, Payload, PayloadView, RequestView,
    ResponseView, ServerClientMessage,
};
use crate::text::text_eq;
use vstd::prelude::*;
use vstd::string::*;

verus! {

/// Why a JSON document is not a message.
#[derive(Debug, Clone, Copy, PartialEq, Eq, Structural)]
pub enum SchemaError {
    /// An object was expected and something else was found.
    ExpectedObject,
    /// A member that the schema requires is missing.
    MissingField,
    /// A member that must be a string is something else.
    ExpectedString,
    /// The name under `type` is not the name of a variant.
    UnknownVariant,
}

/// The string under `key`, which must be there.
pub open spec fn required_text(members: Members, key: Seq<char>) -> Result<Seq<char>, SchemaError> {
    match member(members, key) {
        None => Err(SchemaError::MissingField),
        Some(JsonValue::Str(text)) => Ok(text),
        Some(_) => Err(SchemaError::ExpectedString),
    }
}

/// The string under `key`, where a missing member and `null` both stand for
/// no string.
pub open spec fn optional_text(members: Members, key: Seq<char>) -> Result<
    Option<Seq<char>>,
    SchemaError,
> {
    match member(members, key) {
        None => Ok(None),
        Some(JsonValue::Null) => Ok(None),
        Some(JsonValue::Str(text)) => Ok(Some(text)),
        Some(_) => Err(SchemaError::ExpectedString),
    }
}

/// The members of the object under `key`, which must be there.
pub open spec fn required_object(members: Members, key: Seq<char>) -> Result<Members, SchemaError> {
    match member(members, key) {
        None => Err(SchemaError::MissingField),
        Some(JsonValue::Object(inner)) => Ok(inner),
        Some(_) => Err(SchemaError::ExpectedObject),
    }
}

/// Whether `name` is the name of a payload variant.
pub open spec fn is_payload_name(name: Seq<char>) -> bool {
    name == "Help"@ || name == "Info"@ || name == "Msg"@ || name == "File"@ || name == "Image"@
        || name == "Quit"@
}

/// The payload of the variant `name` with its fields read from `data`.
pub open spec fn payload_of_parts(name: Seq<char>, data: Members) -> Result<
    PayloadView,
    SchemaError,
> {
    if name == "Help"@ {
        Ok(PayloadView::Help)
    } else if name == "Info"@ {
        match (required_text(data, "info"@), required_text(data, "hostname"@)) {
            (Ok(info), Ok(hostname)) => Ok(PayloadView::Info { info, hostname }),
            (Err(e), _) => Err(e),
            (_, Err(e)) => Err(e),
        }
    } else if name == "Msg"@ {
        match required_text(data, "text"@) {
            Ok(text) => Ok(PayloadView::Msg { text }),
            Err(e) => Err(e),
        }
    } else if name == "File"@ {
        match (required_text(data, "filename"@), required_text(data, "content"@)) {
            (Ok(filename), Ok(content)) => Ok(PayloadView::File { filename, content }),
            (Err(e), _) => Err(e),
            (_, Err(e)) => Err(e),
        }
    } else if name == "Image"@ {
        match (required_text(data, "filename"@), required_text(data, "content"@)) {
            (Ok(filename), Ok(content)) => Ok(PayloadView::Image { filename, content }),
            (Err(e), _) => Err(e),
            (_, Err(e)) => Err(e),
        }
    } else if name == "Quit"@ {
        Ok(PayloadView::Quit)
    } else {
        Err(SchemaError::UnknownVariant)
    }
}

/// The payload that a JSON document stands for, or why it stands for none.
/// The name of the variant is looked at before the fields.
pub open spec fn payload_of_json(json: JsonValue) -> Result<PayloadView, SchemaError> {
    match json {
        JsonValue::Object(members) => match required_text(members, "type"@) {
            Err(e) => Err(e),
            Ok(name) => if !is_payload_name(name) {
                Err(SchemaError::UnknownVariant)
            } else {
                match required_object(members, "data"@) {
                    Err(e) => Err(e),
                    Ok(data) => payload_of_parts(name, data),
                }
            },
        },
        _ => Err(SchemaError::ExpectedObject),
    }
}

/// The request that a JSON document stands for, or why it stands for none.
/// A missing payload and `null` both stand for a request without payload.
pub open spec fn request_of_json(json: JsonValue) -> Result<RequestView, SchemaError> {
    match json {
        JsonValue::Object(members) => match required_text(members, "msg_id"@) {
            Err(e) => Err(e),
            Ok(msg_id) => match member(members, "payload"@) {
                None => Ok(RequestView { msg_id, payload: None }),
                Some(JsonValue::Null) => Ok(RequestView { msg_id, payload: None }),
                Some(inner) => match payload_of_json(inner) {
                    Err(e) => Err(e),
                    Ok(payload) => Ok(RequestView { msg_id, payload: Some(payload) }),
                },
            },
        },
        _ => Err(SchemaError::ExpectedObject),
    }
}

/// The response of the variant `name` with its fields read from `data`.
pub open spec fn response_of_parts(name: Seq<char>, data: Members) -> Result<
    ResponseView,
    SchemaError,
> {
    if name == "Ok"@ {
        match (required_text(data, "msg_id_ref"@), optional_text(data, "text"@)) {
            (Ok(msg_id_ref), Ok(text)) => Ok(ResponseView::Okay { msg_id_ref, text }),
            (Err(e), _) => Err(e),
            (_, Err(e)) => Err(e),
        }
    } else if name == "Error"@ {
        match (
            required_text(data, "msg_id_ref"@),
            required_text(data, "code"@),
            optional_text(data, "text"@),
        ) {
            (Ok(msg_id_ref), Ok(code), Ok(text)) => Ok(
                ResponseView::Error { msg_id_ref, code, text },
            ),
            (Err(e), _, _) => Err(e),
            (_, Err(e), _) => Err(e),
            (_, _, Err(e)) => Err(e),
        }
    } else if name == "Quit"@ {
        match (required_text(data, "msg_id_ref"@), optional_text(data, "text"@)) {
            (Ok(msg_id_ref), Ok(text)) => Ok(ResponseView::Quit { msg_id_ref, text }),
            (Err(e), _) => Err(e),
            (_, Err(e)) => Err(e),
        }
    } else {
        Err(SchemaError::UnknownVariant)
    }
}

/// The response that a JSON document stands for, or why it stands for none.
pub open spec fn response_of_json(json: JsonValue) -> Result<ResponseView, SchemaError> {
    match json {
        JsonValue::Object(members) => match required_text(members, "type"@) {
            Err(e) => Err(e),
            Ok(name) => if !(name == "Ok"@ || name == "Error"@ || name == "Quit"@) {
                Err(SchemaError::UnknownVariant)
            } else {
                match required_object(members, "data"@) {
                    Err(e) => Err(e),
                    Ok(data) => response_of_parts(name, data),
                }
            },
        },
        _ => Err(SchemaError::ExpectedObject),
    }
}

/// A string, or `null` where there is none.
pub open spec fn optional_json(text: Option<Seq<char>>) -> JsonValue {
    match text {
        Some(t) => JsonValue::Str(t),
        None => JsonValue::Null,
    }
}

/// The fields of a payload as the members of an object.
pub open spec fn payload_data(payload: PayloadView) -> Members {
    match payload {
        PayloadView::Help => seq![],
        PayloadView::Info { info, hostname } => seq![
            ("info"@, JsonValue::Str(info)),
            ("hostname"@, JsonValue::Str(hostname)),
        ],
        PayloadView::Msg { text } => seq![("text"@, JsonValue::Str(text))],
        PayloadView::File { filename, content } => seq![
            ("filename"@, JsonValue::Str(filename)),
            ("content"@, JsonValue::Str(content)),
        ],
        PayloadView::Image { filename, content } => seq![
            ("filename"@, JsonValue::Str(filename)),
            ("content"@, JsonValue::Str(content)),
        ],
        PayloadView::Quit => seq![],
    }
}

/// A variant as a JSON document: its name under `type`, its fields under
/// `data`.
pub open spec fn tagged(name: Seq<char>, data: Members) -> JsonValue {
    JsonValue::Object(seq![("type"@, JsonValue::Str(name)), ("data"@, JsonValue::Object(data))])
}

/// The JSON document of a payload.
pub open spec fn payload_json(payload: PayloadView) -> JsonValue {
    tagged(payload_name(payload), payload_data(payload))
}

/// The JSON document of a request; a request without payload has `null` in
/// its place.
pub open spec fn request_json(request: RequestView) -> JsonValue {
    JsonValue::Object(
        seq![
            ("msg_id"@, JsonValue::Str(request.msg_id)),
            (
                "payload"@,
                match request.payload {
                    Some(payload) => payload_json(payload),
                    None => JsonValue::Null,
                },
            ),
        ],
    )
}

/// The fields of a response as the members of an object.
pub open spec fn response_data(response: ResponseView) -> Members {
    match response {
        ResponseView::Okay { msg_id_ref, text } => seq![
            ("msg_id_ref"@, JsonValue::Str(msg_id_ref)),
            ("text"@, optional_json(text)),
        ],
        ResponseView::Error { msg_id_ref, code, text } => seq![
            ("msg_id_ref"@, JsonValue::Str(msg_id_ref)),
            ("code"@, JsonValue::Str(code)),
            ("text"@, optional_json(text)),
        ],
        ResponseView::Quit { msg_id_ref, text } => seq![
            ("msg_id_ref"@, JsonValue::Str(msg_id_ref)),
            ("text"@, optional_json(text)),
        ],
    }
}

/// The JSON document of a response.
pub open spec fn response_json(response: ResponseView) -> JsonValue {
    tagged(response_name(response), response_data(response))
}


/// The names that the schema uses differ from one another wherever two of
/// them stand in one object or name two variants of one type.
pub proof fn lemma_names_differ()
    ensures
        "msg_id"@ != "payload"@,
        "type"@ != "data"@,
        "info"@ != "hostname"@,
        "filename"@ != "content"@,
        "msg_id_ref"@ != "code"@,
        "msg_id_ref"@ != "text"@,
        "code"@ != "text"@,
        "Help"@ != "Info"@,
        "Help"@ != "Msg"@,
        "Help"@ != "File"@,
        "Help"@ != "Image"@,
        "Help"@ != "Quit"@,
        "Info"@ != "Msg"@,
        "Info"@ != "File"@,
        "Info"@ != "Image"@,
        "Info"@ != "Quit"@,
        "Msg"@ != "File"@,
        "Msg"@ != "Image"@,
        "Msg"@ != "Quit"@,
        "File"@ != "Image"@,
        "File"@ != "Quit"@,
        "Image"@ != "Quit"@,
        "Ok"@ != "Error"@,
        "Ok"@ != "Quit"@,
        "Error"@ != "Quit"@,
{
    reveal_strlit("msg_id");
    reveal_strlit("payload");
    reveal_strlit("type");
    reveal_strlit("data");
    reveal_strlit("info");
    reveal_strlit("hostname");
    reveal_strlit("filename");
    reveal_strlit("content");
    reveal_strlit("msg_id_ref");
    reveal_strlit("code");
    reveal_strlit("text");
    reveal_strlit("Help");
    reveal_strlit("Info");
    reveal_strlit("Msg");
    reveal_strlit("File");
    reveal_strlit("Image");
    reveal_strlit("Quit");
    reveal_strlit("Ok");
    reveal_strlit("Error");
    assert("msg_id"@.len() != "payload"@.len());
    assert("info"@.len() != "hostname"@.len());
    assert("filename"@.len() != "content"@.len());
    assert("msg_id_ref"@.len() != "code"@.len());
    assert("msg_id_ref"@.len() != "text"@.len());
    assert("Help"@.len() != "Msg"@.len());
    assert("Help"@.len() != "Image"@.len());
    assert("Info"@.len() != "Msg"@.len());
    assert("Info"@.len() != "Image"@.len());
    assert("Msg"@.len() != "File"@.len());
    assert("Msg"@.len() != "Image"@.len());
    assert("Msg"@.len() != "Quit"@.len());
    assert("File"@.len() != "Image"@.len());
    assert("Image"@.len() != "Quit"@.len());
    assert("Ok"@.len() != "Error"@.len());
    assert("Ok"@.len() != "Quit"@.len());
    assert("Error"@.len() != "Quit"@.len());
    assert("type"@[0] != "data"@[0]);
    assert("code"@[0] != "text"@[0]);
    assert("Help"@[0] != "Info"@[0]);
    assert("Help"@[0] != "File"@[0]);
    assert("Help"@[0] != "Quit"@[0]);
    assert("Info"@[0] != "File"@[0]);
    assert("Info"@[0] != "Quit"@[0]);
    assert("File"@[0] != "Quit"@[0]);
}

/// An object without members has no member of any name.
pub proof fn lemma_member_of_none(key: Seq<char>)
    ensures
        member(Seq::empty(), key) is None,
{
}

/// The member of a name in an object with one member.
pub proof fn lemma_member_of_one(first: (Seq<char>, JsonValue), key: Seq<char>)
    ensures
        member(seq![first], key) == if key == first.0 {
            Some(first.1)
        } else {
            None
        },
{
    let members = seq![first];
    assert(members[0] == first);
    assert(members.drop_first() =~= Seq::empty());
    lemma_member_of_none(key);
}

/// The member of a name in an object with two members.
pub proof fn lemma_member_of_two(
    first: (Seq<char>, JsonValue),
    second: (Seq<char>, JsonValue),
    key: Seq<char>,
)
    ensures
        member(seq![first, second], key) == if key == first.0 {
            Some(first.1)
        } else if key == second.0 {
            Some(second.1)
        } else {
            None
        },
{
    let members = seq![first, second];
    assert(members[0] == first);
    assert(members.drop_first() =~= seq![second]);
    lemma_member_of_one(second, key);
}

/// The member of a name in an object with three members.
pub proof fn lemma_member_of_three(
    first: (Seq<char>, JsonValue),
    second: (Seq<char>, JsonValue),
    third: (Seq<char>, JsonValue),
    key: Seq<char>,
)
    ensures
        member(seq![first, second, third], key) == if key == first.0 {
            Some(first.1)
        } else if key == second.0 {
            Some(second.1)
        } else if key == third.0 {
            Some(third.1)
        } else {
            None
        },
{
    let members = seq![first, second, third];
    assert(members[0] == first);
    assert(members.drop_first() =~= seq![second, third]);
    lemma_member_of_two(second, third, key);
}

/// Reading the document of a payload gives the payload back.
pub proof fn lemma_payload_round_trip(payload: PayloadView)
    ensures
        payload_of_json(payload_json(payload)) == Ok::<PayloadView, SchemaError>(payload),
{
    lemma_names_differ();
    let name = payload_name(payload);
    let data = payload_data(payload);
    let tag = ("type"@, JsonValue::Str(name));
    let body = ("data"@, JsonValue::Object(data));
    lemma_member_of_two(tag, body, "type"@);
    lemma_member_of_two(tag, body, "data"@);
    assert(is_payload_name(name));
    match payload {
        PayloadView::Help => {},
        PayloadView::Info { info, hostname } => {
            let a = ("info"@, JsonValue::Str(info));
            let b = ("hostname"@, JsonValue::Str(hostname));
            lemma_member_of_two(a, b, "info"@);
            lemma_member_of_two(a, b, "hostname"@);
        },
        PayloadView::Msg { text } => {
            lemma_member_of_one(("text"@, JsonValue::Str(text)), "text"@);
        },
        PayloadView::File { filename, content } => {
            let a = ("filename"@, JsonValue::Str(filename));
            let b = ("content"@, JsonValue::Str(content));
            lemma_member_of_two(a, b, "filename"@);
            lemma_member_of_two(a, b, "content"@);
        },
        PayloadView::Image { filename, content } => {
            let a = ("filename"@, JsonValue::Str(filename));
            let b = ("content"@, JsonValue::Str(content));
            lemma_member_of_two(a, b, "filename"@);
            lemma_member_of_two(a, b, "content"@);
        },
        PayloadView::Quit => {},
    }
}

/// Writing a request as a JSON document and reading the document gives a
/// request equal to the first in every field.
pub proof fn lemma_request_round_trip(request: RequestView)
    ensures
        request_of_json(request_json(request)) == Ok::<RequestView, SchemaError>(request),
{
    lemma_names_differ();
    let inner = match request.payload {
        Some(payload) => payload_json(payload),
        None => JsonValue::Null,
    };
    let a = ("msg_id"@, JsonValue::Str(request.msg_id));
    let b = ("payload"@, inner);
    lemma_member_of_two(a, b, "msg_id"@);
    lemma_member_of_two(a, b, "payload"@);
    assert(request_json(request)->Object_0 =~= seq![a, b]);
    if request.payload is Some {
        lemma_payload_round_trip(request.payload->0);
    }
}

/// Writing a response as a JSON document and reading the document gives a
/// response equal to the first in every field.
pub proof fn lemma_response_round_trip(response: ResponseView)
    ensures
        response_of_json(response_json(response)) == Ok::<ResponseView, SchemaError>(response),
{
    lemma_names_differ();
    let name = response_name(response);
    let data = response_data(response);
    let tag = ("type"@, JsonValue::Str(name));
    let body = ("data"@, JsonValue::Object(data));
    lemma_member_of_two(tag, body, "type"@);
    lemma_member_of_two(tag, body, "data"@);
    match response {
        ResponseView::Okay { msg_id_ref, text } => {
            let a = ("msg_id_ref"@, JsonValue::Str(msg_id_ref));
            let b = ("text"@, optional_json(text));
            lemma_member_of_two(a, b, "msg_id_ref"@);
            lemma_member_of_two(a, b, "text"@);
        },
        ResponseView::Error { msg_id_ref, code, text } => {
            let a = ("msg_id_ref"@, JsonValue::Str(msg_id_ref));
            let b = ("code"@, JsonValue::Str(code));
            let c = ("text"@, optional_json(text));
            lemma_member_of_three(a, b, c, "msg_id_ref"@);
            lemma_member_of_three(a, b, c, "code"@);
            lemma_member_of_three(a, b, c, "text"@);
        },
        ResponseView::Quit { msg_id_ref, text } => {
            let a = ("msg_id_ref"@, JsonValue::Str(msg_id_ref));
            let b = ("text"@, optional_json(text));
            lemma_member_of_two(a, b, "msg_id_ref"@);
            lemma_member_of_two(a, b, "text"@);
        },
    }
}

/// In the document of a request no object names a member twice.
pub proof fn lemma_request_json_distinct(request: RequestView)
    ensures
        distinct_keys(request_json(request)),
{
    reveal_with_fuel(distinct_keys, 2);
    lemma_names_differ();
    match request.payload {
        Some(payload) => {
            lemma_payload_json_distinct(payload);
        },
        None => {},
    }
}

/// In the document of a payload no object names a member twice.
pub proof fn lemma_payload_json_distinct(payload: PayloadView)
    ensures
        distinct_keys(payload_json(payload)),
{
    lemma_names_differ();
    let data = payload_data(payload);
    reveal_with_fuel(distinct_keys, 3);
    assert(distinct_names(data));
    assert(distinct_keys(JsonValue::Object(data)));
}

/// In the document of a response no object names a member twice.
pub proof fn lemma_response_json_distinct(response: ResponseView)
    ensures
        distinct_keys(response_json(response)),
{
    lemma_names_differ();
    let data = response_data(response);
    reveal_with_fuel(distinct_keys, 3);
    assert(distinct_names(data));
    assert(distinct_keys(JsonValue::Object(data)));
}


/// The view of a string that was read, or the error in its place.
pub open spec fn text_result(r: Result<String, SchemaError>) -> Result<Seq<char>, SchemaError> {
    match r {
        Ok(text) => Ok(text@),
        Err(e) => Err(e),
    }
}

/// The view of an optional string that was read, or the error in its place.
pub open spec fn optional_text_result(r: Result<Option<String>, SchemaError>) -> Result<
    Option<Seq<char>>,
    SchemaError,
> {
    match r {
        Ok(text) => Ok(crate::message::text_view(text)),
        Err(e) => Err(e),
    }
}

/// The view of a payload that was read, or the error in its place.
pub open spec fn payload_result(r: Result<Payload, SchemaError>) -> Result<
    PayloadView,
    SchemaError,
> {
    match r {
        Ok(payload) => Ok(payload@),
        Err(e) => Err(e),
    }
}

/// The view of a request that was read, or the error in its place.
pub open spec fn request_result(r: Result<ClientServerMessage, SchemaError>) -> Result<
    RequestView,
    SchemaError,
> {
    match r {
        Ok(request) => Ok(request@),
        Err(e) => Err(e),
    }
}

/// The view of a response that was read, or the error in its place.
pub open spec fn response_result(r: Result<ServerClientMessage, SchemaError>) -> Result<
    ResponseView,
    SchemaError,
> {
    match r {
        Ok(response) => Ok(response@),
        Err(e) => Err(e),
    }
}

/// Reads the string under `key`, which must be there.
fn text_member(members: &Vec<(String, Json)>, key: &str) -> (r: Result<String, SchemaError>)
    ensures
        text_result(r) == required_text(members_view(members@), key@),
{
    match find_member(members, key) {
        None => Err(SchemaError::MissingField),
        Some(Json::Str(text)) => Ok(text.clone()),
        Some(_) => Err(SchemaError::ExpectedString),
    }
}

/// Reads the string under `key`, which may be missing or `null`.
fn optional_text_member(members: &Vec<(String, Json)>, key: &str) -> (r: Result<
    Option<String>,
    SchemaError,
>)
    ensures
        optional_text_result(r) == optional_text(members_view(members@), key@),
{
    match find_member(members, key) {
        None => Ok(None),
        Some(Json::Null) => Ok(None),
        Some(Json::Str(text)) => Ok(Some(text.clone())),
        Some(_) => Err(SchemaError::ExpectedString),
    }
}

/// Reads the object under `key`, which must be there.
fn object_member<'a>(members: &'a Vec<(String, Json)>, key: &str) -> (r: Result<
    &'a Vec<(String, Json)>,
    SchemaError,
>)
    ensures
        match r {
            Ok(inner) => required_object(members_view(members@), key@) == Ok::<
                Members,
                SchemaError,
            >(members_view(inner@)),
            Err(e) => required_object(members_view(members@), key@) == Err::<Members, SchemaError>(
                e,
            ),
        },
{
    match find_member(members, key) {
        None => Err(SchemaError::MissingField),
        Some(Json::Object(inner)) => {
            proof {
                lemma_object_view(*inner);
            }
            Ok(inner)
        },
        Some(_) => Err(SchemaError::ExpectedObject),
    }
}

/// Reads the fields of the payload variant `name` from `data`.
fn payload_from_parts(name: &str, data: &Vec<(String, Json)>) -> (r: Result<Payload, SchemaError>)
    ensures
        payload_result(r) == payload_of_parts(name@, members_view(data@)),
{
    if text_eq(name, "Help") {
        Ok(Payload::Help {  })
    } else if text_eq(name, "Info") {
        match (text_member(data, "info"), text_member(data, "hostname")) {
            (Ok(info), Ok(hostname)) => Ok(Payload::Info { info, hostname }),
            (Err(e), _) => Err(e),
            (_, Err(e)) => Err(e),
        }
    } else if text_eq(name, "Msg") {
        match text_member(data, "text") {
            Ok(text) => Ok(Payload::Msg { text }),
            Err(e) => Err(e),
        }
    } else if text_eq(name, "File") {
        match (text_member(data, "filename"), text_member(data, "content")) {
            (Ok(filename), Ok(content)) => Ok(Payload::File { filename, content }),
            (Err(e), _) => Err(e),
            (_, Err(e)) => Err(e),
        }
    } else if text_eq(name, "Image") {
        match (text_member(data, "filename"), text_member(data, "content")) {
            (Ok(filename), Ok(content)) => Ok(Payload::Image { filename, content }),
            (Err(e), _) => Err(e),
            (_, Err(e)) => Err(e),
        }
    } else if text_eq(name, "Quit") {
        Ok(Payload::Quit {  })
    } else {
        Err(SchemaError::UnknownVariant)
    }
}

/// Reads a payload from a JSON document.
pub fn payload_from_json(json: &Json) -> (r: Result<Payload, SchemaError>)
    ensures
        payload_result(r) == payload_of_json(json@),
{
    match json {
        Json::Object(members) => {
            proof {
                lemma_object_view(*members);
            }
            match text_member(members, "type") {
                Err(e) => Err(e),
                Ok(name) => {
                    let tag: &str = name.as_str();
                    let known: bool = text_eq(tag, "Help") || text_eq(tag, "Info") || text_eq(
                        tag,
                        "Msg",
                    ) || text_eq(tag, "File") || text_eq(tag, "Image") || text_eq(tag, "Quit");
                    if !known {
                        Err(SchemaError::UnknownVariant)
                    } else {
                        match object_member(members, "data") {
                            Err(e) => Err(e),
                            Ok(data) => payload_from_parts(tag, data),
                        }
                    }
                },
            }
        },
        _ => Err(SchemaError::ExpectedObject),
    }
}

/// Reads a request from a JSON document.
pub fn request_from_json(json: &Json) -> (r: Result<ClientServerMessage, SchemaError>)
    ensures
        request_result(r) == request_of_json(json@),
{
    match json {
        Json::Object(members) => {
            proof {
                lemma_object_view(*members);
            }
            match text_member(members, "msg_id") {
                Err(e) => Err(e),
                Ok(msg_id) => match find_member(members, "payload") {
                    None => Ok(ClientServerMessage { msg_id, payload: None }),
                    Some(Json::Null) => Ok(ClientServerMessage { msg_id, payload: None }),
                    Some(inner) => match payload_from_json(inner) {
                        Err(e) => Err(e),
                        Ok(payload) => Ok(ClientServerMessage { msg_id, payload: Some(payload) }),
                    },
                },
            }
        },
        _ => Err(SchemaError::ExpectedObject),
    }
}

/// Reads the fields of the response variant `name` from `data`.
fn response_from_parts(name: &str, data: &Vec<(String, Json)>) -> (r: Result<
    ServerClientMessage,
    SchemaError,
>)
    ensures
        response_result(r) == response_of_parts(name@, members_view(data@)),
{
    if text_eq(name, "Ok") {
        match (text_member(data, "msg_id_ref"), optional_text_member(data, "text")) {
            (Ok(msg_id_ref), Ok(text)) => Ok(ServerClientMessage::Okay { msg_id_ref, text }),
            (Err(e), _) => Err(e),
            (_, Err(e)) => Err(e),
        }
    } else if text_eq(name, "Error") {
        match (
            text_member(data, "msg_id_ref"),
            text_member(data, "code"),
            optional_text_member(data, "text"),
        ) {
            (Ok(msg_id_ref), Ok(code), Ok(text)) => Ok(
                ServerClientMessage::Error { msg_id_ref, code, text },
            ),
            (Err(e), _, _) => Err(e),
            (_, Err(e), _) => Err(e),
            (_, _, Err(e)) => Err(e),
        }
    } else if text_eq(name, "Quit") {
        match (text_member(data, "msg_id_ref"), optional_text_member(data, "text")) {
            (Ok(msg_id_ref), Ok(text)) => Ok(ServerClientMessage::Quit { msg_id_ref, text }),
            (Err(e), _) => Err(e),
            (_, Err(e)) => Err(e),
        }
    } else {
        Err(SchemaError::UnknownVariant)
    }
}

/// Reads a response from a JSON document.
pub fn response_from_json(json: &Json) -> (r: Result<ServerClientMessage, SchemaError>)
    ensures
        response_result(r) == response_of_json(json@),
{
    match json {
        Json::Object(members) => {
            proof {
                lemma_object_view(*members);
            }
            match text_member(members, "type") {
                Err(e) => Err(e),
                Ok(name) => {
                    let tag: &str = name.as_str();
                    let known: bool = text_eq(tag, "Ok") || text_eq(tag, "Error") || text_eq(
                        tag,
                        "Quit",
                    );
                    if !known {
                        Err(SchemaError::UnknownVariant)
                    } else {
                        match object_member(members, "data") {
                            Err(e) => Err(e),
                            Ok(data) => response_from_parts(tag, data),
                        }
                    }
                },
            }
        },
        _ => Err(SchemaError::ExpectedObject),
    }
}

/// A member of an object: a name and a string.
fn text_pair(name: &str, text: &String) -> (pair: (String, Json))
    ensures
        pair.0@ == name@,
        pair.1@ == JsonValue::Str(text@),
{
    (String::from_str(name), Json::Str(text.clone()))
}

/// A member of an object: a name and a string, or `null` where there is
/// none.
fn optional_text_pair(name: &str, text: &Option<String>) -> (pair: (String, Json))
    ensures
        pair.0@ == name@,
        pair.1@ == optional_json(crate::message::text_view(*text)),
{
    match text {
        Some(t) => (String::from_str(name), Json::Str(t.clone())),
        None => (String::from_str(name), Json::Null),
    }
}

/// A variant as a JSON document.
fn tagged_json(name: &str, data: Vec<(String, Json)>) -> (json: Json)
    ensures
        json@ == tagged(name@, members_view(data@)),
{
    proof {
        lemma_object_view(data);
    }
    let mut members: Vec<(String, Json)> = Vec::new();
    members.push((String::from_str("type"), Json::Str(String::from_str(name))));
    members.push((String::from_str("data"), Json::Object(data)));
    proof {
        lemma_object_view(members);
        assert(members_view(members@) =~= seq![
            ("type"@, JsonValue::Str(name@)),
            ("data"@, JsonValue::Object(members_view(data@))),
        ]);
    }
    Json::Object(members)
}

/// Writes a payload as a JSON document.
pub fn payload_to_json(payload: &Payload) -> (json: Json)
    ensures
        json@ == payload_json(payload@),
        distinct_keys(json@),
{
    let mut data: Vec<(String, Json)> = Vec::new();
    match payload {
        Payload::Help {  } => {},
        Payload::Info { info, hostname } => {
            data.push(text_pair("info", info));
            data.push(text_pair("hostname", hostname));
        },
        Payload::Msg { text } => {
            data.push(text_pair("text", text));
        },
        Payload::File { filename, content } => {
            data.push(text_pair("filename", filename));
            data.push(text_pair("content", content));
        },
        Payload::Image { filename, content } => {
            data.push(text_pair("filename", filename));
            data.push(text_pair("content", content));
        },
        Payload::Quit {  } => {},
    }
    proof {
        assert(members_view(data@) =~= payload_data(payload@));
        lemma_payload_json_distinct(payload@);
    }
    tagged_json(payload.variant_name(), data)
}

/// Writes a request as a JSON document.
pub fn request_to_json(request: &ClientServerMessage) -> (json: Json)
    ensures
        json@ == request_json(request@),
        distinct_keys(json@),
{
    let inner: Json = match &request.payload {
        Some(payload) => payload_to_json(payload),
        None => Json::Null,
    };
    let mut members: Vec<(String, Json)> = Vec::new();
    members.push(text_pair("msg_id", &request.msg_id));
    members.push((String::from_str("payload"), inner));
    proof {
        lemma_object_view(members);
        assert(members_view(members@) =~= request_json(request@)->Object_0);
        lemma_request_json_distinct(request@);
    }
    Json::Object(members)
}

/// Writes a response as a JSON document.
pub fn response_to_json(response: &ServerClientMessage) -> (json: Json)
    ensures
        json@ == response_json(response@),
        distinct_keys(json@),
{
    let mut data: Vec<(String, Json)> = Vec::new();
    match response {
        ServerClientMessage::Okay { msg_id_ref, text } => {
            data.push(text_pair("msg_id_ref", msg_id_ref));
            data.push(optional_text_pair("text", text));
        },
        ServerClientMessage::Error { msg_id_ref, code, text } => {
            data.push(text_pair("msg_id_ref", msg_id_ref));
            data.push(text_pair("code", code));
            data.push(optional_text_pair("text", text));
        },
        ServerClientMessage::Quit { msg_id_ref, text } => {
            data.push(text_pair("msg_id_ref", msg_id_ref));
            data.push(optional_text_pair("text", text));
        },
    }
    proof {
        assert(members_view(data@) =~= response_data(response@));
        lemma_response_json_distinct(response@);
    }
    tagged_json(response.variant_name(), data)
}


/// The words that describe a schema error.
pub open spec fn schema_error_text(error: SchemaError) -> Seq<char> {
    match error {
        SchemaError::ExpectedObject => "expected an object"@,
        SchemaError::MissingField => "a required member is missing"@,
        SchemaError::ExpectedString => "expected a string"@,
        SchemaError::UnknownVariant => "unknown variant"@,
    }
}

impl SchemaError {
    /// Describes the error in words.
    pub fn describe(&self) -> (text: &'static str)
        ensures
            text@ == schema_error_text(*self),
    {
        match self {
            SchemaError::ExpectedObject => "expected an object",
            SchemaError::MissingField => "a required member is missing",
            SchemaError::ExpectedString => "expected a string",
            SchemaError::UnknownVariant => "unknown variant",
        }
    }
}

} // verus!
