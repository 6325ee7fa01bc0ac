//! Messages on the wire: a frame around the UTF-8 text of the message's JSON
//! document.

use crate::client_error::{ClientError, ClientErrorKind};
use crate::codec::{encode_frame, frame_of, MAX_BODY_LEN};
use crate::json::{
    distinct_keys, json_error_text, json_text, parse_json, parsed_json, render_json, Json,
    JsonValue,
};
use crate::message::{ClientServerMessage, RequestView, ResponseView, ServerClientMessage};
use crate::schema::{
    request_from_json, request_json, request_of_json, request_to_json, response_from_json,
    response_json, response_of_json, response_to_json, schema_error_text, SchemaError,
};
use crate::server_error::{Cause, ErrorKind, Link, ServerError, ServerErrorView};
use vstd::prelude::*;
use vstd::string::*;
use vstd::utf8::encode_utf8;

verus! {

/// The frame around the text of a JSON document; `None` where the document
/// has no text or the text is longer than a frame can state.
pub open spec fn framed(json: JsonValue) -> Option<Seq<u8>> {
    match json_text(json) {
        Some(text) => if encode_utf8(text).len() <= MAX_BODY_LEN {
            Some(frame_of(encode_utf8(text)))
        } else {
            None
        },
        None => None,
    }
}

/// Why the body of a frame is not a message.
pub ghost enum BodyError {
    /// The body is not a JSON document.
    NotJson,
    /// The document is not a message.
    NotMessage(SchemaError),
}

/// The request that the body of a frame holds, or why it holds none.
pub open spec fn request_of_body(body: Seq<u8>) -> Result<RequestView, BodyError> {
    match parsed_json(body) {
        None => Err(BodyError::NotJson),
        Some(json) => match request_of_json(json) {
            Ok(request) => Ok(request),
            Err(e) => Err(BodyError::NotMessage(e)),
        },
    }
}

/// The response that the body of a frame holds, or why it holds none.
pub open spec fn response_of_body(body: Seq<u8>) -> Result<ResponseView, BodyError> {
    match parsed_json(body) {
        None => Err(BodyError::NotJson),
        Some(json) => match response_of_json(json) {
            Ok(response) => Ok(response),
            Err(e) => Err(BodyError::NotMessage(e)),
        },
    }
}

/// Puts the text of a JSON document into a frame. The cause of a text that
/// the serializer did not give is returned in place of the frame; `None` in
/// its place says that the text is too long for a frame.
fn frame_json(json: &Json) -> (r: Result<Vec<u8>, Option<Cause>>)
    requires
        distinct_keys(json@),
    ensures
        match framed(json@) {
            Some(frame) => r is Ok && r->Ok_0@ == frame,
            None => r is Err,
        },
{
    match render_json(json) {
        Err(error) => Err(Some(Cause::new("Error", json_error_text(&error).as_str()))),
        Ok(text) => match encode_frame(text.as_str().as_bytes()) {
            Some(frame) => Ok(frame),
            None => Err(None),
        },
    }
}

/// Encodes a response for the wire. A response that cannot be written is
/// refused as `ResponseSendingFailed`.
pub fn encode_response(response: &ServerClientMessage) -> (r: Result<Vec<u8>, ServerError>)
    ensures
        match framed(response_json(response@)) {
            Some(frame) => r is Ok && r->Ok_0@ == frame,
            None => r is Err && r->Err_0@.kind == ErrorKind::ResponseSendingFailed
                && r->Err_0@.message == "Failed to serialize response"@,
        },
{
    let json = response_to_json(response);
    match frame_json(&json) {
        Ok(frame) => Ok(frame),
        Err(cause) => Err(
            ServerError::ResponseSendingFailed(
                String::from_str("Failed to serialize response"),
                cause,
            ),
        ),
    }
}

/// Encodes a request for the wire. A request that cannot be written is
/// refused as `RequestSerializationFailed`.
pub fn encode_request(request: &ClientServerMessage) -> (r: Result<Vec<u8>, ClientError>)
    ensures
        match framed(request_json(request@)) {
            Some(frame) => r is Ok && r->Ok_0@ == frame,
            None => r is Err && r->Err_0@.kind == ClientErrorKind::RequestSerializationFailed
                && r->Err_0@.message == "Error serializing request"@,
        },
{
    let json = request_to_json(request);
    match frame_json(&json) {
        Ok(frame) => Ok(frame),
        Err(_) => Err(
            ClientError::RequestSerializationFailed(String::from_str("Error serializing request")),
        ),
    }
}

/// The error for a body that is a JSON document and not a message: the
/// schema's objection is its cause.
pub open spec fn not_a_message(error: SchemaError) -> ServerErrorView {
    ServerErrorView {
        kind: ErrorKind::MessageProcessingFailed,
        message: "Failed to parse message"@,
        chain: seq![Link { name: "SchemaError"@, message: schema_error_text(error) }],
    }
}

/// Reads a request from the body of a frame. A body that is not a request
/// is refused as `MessageProcessingFailed`: one that is not JSON with the
/// parser's error as the cause, one that is not a request, an unknown
/// variant among them, with the schema's.
pub fn decode_request(body: &[u8]) -> (r: Result<ClientServerMessage, ServerError>)
    ensures
        match request_of_body(body@) {
            Ok(request) => r is Ok && r->Ok_0@ == request,
            Err(BodyError::NotJson) => r is Err && r->Err_0@.kind
                == ErrorKind::MessageProcessingFailed && r->Err_0@.message
                == "Failed to parse message"@ && r->Err_0@.chain.len() == 1
                && r->Err_0@.chain[0].name == "Error"@,
            Err(BodyError::NotMessage(e)) => r is Err && r->Err_0@ == not_a_message(e),
        },
{
    match parse_json(body) {
        Err(error) => {
            let cause = Cause::new("Error", json_error_text(&error).as_str());
            Err(
                ServerError::MessageProcessingFailed(
                    String::from_str("Failed to parse message"),
                    Some(cause),
                ),
            )
        },
        Ok(json) => match request_from_json(&json) {
            Ok(request) => Ok(request),
            Err(e) => Err(
                ServerError::MessageProcessingFailed(
                    String::from_str("Failed to parse message"),
                    Some(Cause::new("SchemaError", e.describe())),
                ),
            ),
        },
    }
}

/// Reads a response from the body of a frame. A body that is not a response
/// is refused as a `GeneralIssue`.
pub fn decode_response(body: &[u8]) -> (r: Result<ServerClientMessage, ClientError>)
    ensures
        match response_of_body(body@) {
            Ok(response) => r is Ok && r->Ok_0@ == response,
            Err(_) => r is Err && r->Err_0@.kind == ClientErrorKind::GeneralIssue
                && r->Err_0@.message == "Failed to parse response"@,
        },
{
    match parse_json(body) {
        Err(_) => Err(ClientError::GeneralIssue(String::from_str("Failed to parse response"))),
        Ok(json) => match response_from_json(&json) {
            Ok(response) => Ok(response),
            Err(_) => Err(ClientError::GeneralIssue(String::from_str("Failed to parse response"))),
        },
    }
}


/// Why a text is not a message.
#[derive(Debug)]
pub enum ParseError {
    /// The text is not a JSON document; the parser's words say why.
    Syntax(String),
    /// The document is not a message.
    Schema(SchemaError),
}

/// A message that can be read from the text of its JSON document.
pub trait JsonParser: Sized {
    /// Reads the message from the text.
    fn from_json(input: &str) -> Result<Self, ParseError>;
}

impl JsonParser for ClientServerMessage {
    fn from_json(input: &str) -> (r: Result<Self, ParseError>)
        ensures
            match request_of_body(input.spec_bytes()) {
                Ok(request) => r is Ok && r->Ok_0@ == request,
                Err(BodyError::NotJson) => r is Err && r->Err_0 is Syntax,
                Err(BodyError::NotMessage(e)) => r == Err::<Self, ParseError>(
                    ParseError::Schema(e),
                ),
            },
    {
        match parse_json(input.as_bytes()) {
            Err(error) => Err(ParseError::Syntax(json_error_text(&error))),
            Ok(json) => match request_from_json(&json) {
                Ok(request) => Ok(request),
                Err(e) => Err(ParseError::Schema(e)),
            },
        }
    }
}

impl JsonParser for ServerClientMessage {
    fn from_json(input: &str) -> (r: Result<Self, ParseError>)
        ensures
            match response_of_body(input.spec_bytes()) {
                Ok(response) => r is Ok && r->Ok_0@ == response,
                Err(BodyError::NotJson) => r is Err && r->Err_0 is Syntax,
                Err(BodyError::NotMessage(e)) => r == Err::<Self, ParseError>(
                    ParseError::Schema(e),
                ),
            },
    {
        match parse_json(input.as_bytes()) {
            Err(error) => Err(ParseError::Syntax(json_error_text(&error))),
            Ok(json) => match response_from_json(&json) {
                Ok(response) => Ok(response),
                Err(e) => Err(ParseError::Schema(e)),
            },
        }
    }
}

/// Encoding a request and decoding the frame gives a request equal to the
/// first in every field, whatever follows the frame: the frame gives the
/// text back, and the text gives the request back wherever the parser reads
/// from the serializer's text the document that was written.
pub proof fn lemma_request_wire_round_trip(request: RequestView, rest: Seq<u8>)
    ensures
        match framed(request_json(request)) {
            Some(frame) => {
                let body = encode_utf8(json_text(request_json(request))->0);
                &&& crate::codec::framed_body(frame + rest) == Ok::<
                    Seq<u8>,
                    crate::codec::FrameError,
                >(body)
                &&& parsed_json(body) == Some(request_json(request)) ==> request_of_body(body)
                    == Ok::<RequestView, BodyError>(request)
            },
            None => true,
        },
{
    if framed(request_json(request)) is Some {
        crate::codec::lemma_frame_round_trip(
            encode_utf8(json_text(request_json(request))->0),
            rest,
        );
        crate::schema::lemma_request_round_trip(request);
    }
}

/// Encoding a response and decoding the frame gives a response equal to the
/// first in every field, whatever follows the frame: the frame gives the
/// text back, and the text gives the response back wherever the parser reads
/// from the serializer's text the document that was written.
pub proof fn lemma_response_wire_round_trip(response: ResponseView, rest: Seq<u8>)
    ensures
        match framed(response_json(response)) {
            Some(frame) => {
                let body = encode_utf8(json_text(response_json(response))->0);
                &&& crate::codec::framed_body(frame + rest) == Ok::<
                    Seq<u8>,
                    crate::codec::FrameError,
                >(body)
                &&& parsed_json(body) == Some(response_json(response)) ==> response_of_body(body)
                    == Ok::<ResponseView, BodyError>(response)
            },
            None => true,
        },
{
    if framed(response_json(response)) is Some {
        crate::codec::lemma_frame_round_trip(
            encode_utf8(json_text(response_json(response))->0),
            rest,
        );
        crate::schema::lemma_response_round_trip(response);
    }
}

} // verus!
