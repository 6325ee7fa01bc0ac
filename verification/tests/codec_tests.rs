use chat_protocol::codec::{body_length, decode_frame, encode_frame, FrameError};
use chat_protocol::json::{parse_json, render_json, Json};
use chat_protocol::message::{ClientServerMessage, Payload, ServerClientMessage};
use chat_protocol::schema::{
    payload_from_json, request_from_json, request_to_json, response_from_json, response_to_json,
    SchemaError,
};
use chat_protocol::util::{base64_decode, base64_encode};
use chat_protocol::wire::{
    decode_request, decode_response, encode_request, encode_response, JsonParser, ParseError,
};

#[test]
fn given_text_when_base64_encode_and_base64_decode_then_same_text() {
    // Given
    let text = "Hello, world!";

    // When
    let encoded = base64_encode(text.as_bytes());
    let decoded = base64_decode(&encoded).unwrap();

    // Then
    assert_eq!(text.as_bytes(), &decoded[..]);
}

#[test]
fn base64_uses_the_url_safe_alphabet_without_padding() {
    assert_eq!(base64_encode(b"hello"), "aGVsbG8");
    assert_eq!(base64_encode(&[0xfb, 0xff]), "-_8");
    assert_eq!(base64_decode("aGVsbG8").unwrap(), b"hello".to_vec());
}

#[test]
fn base64_decode_refuses_what_is_not_base64() {
    assert!(base64_decode("not base64!").is_err());
    assert!(base64_decode("aGVsbG8=").is_err());
}

#[test]
fn frame_is_length_prefix_and_body() {
    let frame = encode_frame(b"abc").unwrap();
    assert_eq!(frame, vec![0, 0, 0, 3, b'a', b'b', b'c']);
    let empty = encode_frame(b"").unwrap();
    assert_eq!(empty, vec![0, 0, 0, 0]);
}

#[test]
fn frame_length_is_big_endian() {
    let body = vec![7u8; 258];
    let frame = encode_frame(&body).unwrap();
    assert_eq!(&frame[..4], &[0, 0, 1, 2]);
    assert_eq!(body_length(&[0, 0, 1, 2]), Some(258));
    assert_eq!(body_length(&[1, 0, 0, 0]), Some(16777216));
    assert_eq!(body_length(&[255, 255, 255, 255]), Some(4294967295));
    assert_eq!(body_length(&[0, 0, 1]), None);
}

#[test]
fn decode_frame_gives_the_body_and_takes_no_more() {
    let mut buffer = encode_frame(b"hello").unwrap();
    buffer.extend_from_slice(b"pending bytes");
    let (body, used) = decode_frame(&buffer).unwrap();
    assert_eq!(body, b"hello".to_vec());
    assert_eq!(used, 9);
}

#[test]
fn decode_frame_fails_on_short_buffers() {
    assert_eq!(decode_frame(&[]), Err(FrameError::ShortLength));
    assert_eq!(decode_frame(&[0, 0, 0]), Err(FrameError::ShortLength));
    assert_eq!(decode_frame(&[0, 0, 0, 5, b'a', b'b']), Err(FrameError::ShortBody));
    assert_eq!(decode_frame(&[0, 0, 0, 1]), Err(FrameError::ShortBody));
}

#[test]
fn request_text_has_the_documented_shape() {
    let request = ClientServerMessage {
        msg_id: "id-1".to_string(),
        payload: Some(Payload::Info { info: "hi".to_string(), hostname: "box".to_string() }),
    };
    let text = render_json(&request_to_json(&request)).unwrap();
    assert_eq!(
        text,
        "{\"msg_id\":\"id-1\",\"payload\":{\"type\":\"Info\",\"data\":{\"info\":\"hi\",\"hostname\":\"box\"}}}"
    );
}

#[test]
fn response_text_has_the_documented_shape() {
    let response = ServerClientMessage::Error {
        msg_id_ref: "id-1".to_string(),
        code: "GeneralIssue".to_string(),
        text: None,
    };
    let text = render_json(&response_to_json(&response)).unwrap();
    assert_eq!(
        text,
        "{\"type\":\"Error\",\"data\":{\"msg_id_ref\":\"id-1\",\"code\":\"GeneralIssue\",\"text\":null}}"
    );
    let okay = ServerClientMessage::Okay { msg_id_ref: "7".to_string(), text: Some("done".to_string()) };
    assert_eq!(
        render_json(&response_to_json(&okay)).unwrap(),
        "{\"type\":\"Ok\",\"data\":{\"msg_id_ref\":\"7\",\"text\":\"done\"}}"
    );
}

fn round_trip(payload: Option<Payload>) -> ClientServerMessage {
    let request = ClientServerMessage { msg_id: "3f2a".to_string(), payload };
    let frame = encode_request(&request).unwrap();
    let (body, used) = decode_frame(&frame).unwrap();
    assert_eq!(used, frame.len());
    decode_request(&body).unwrap()
}

#[test]
fn request_round_trip_keeps_every_field() {
    let back = round_trip(Some(Payload::File {
        filename: "dir/a \"b\".txt".to_string(),
        content: "aGVsbG8".to_string(),
    }));
    assert_eq!(back.msg_id, "3f2a");
    match back.payload {
        Some(Payload::File { filename, content }) => {
            assert_eq!(filename, "dir/a \"b\".txt");
            assert_eq!(content, "aGVsbG8");
        }
        other => panic!("unexpected payload {:?}", other),
    }
    assert!(matches!(round_trip(Some(Payload::Help {})).payload, Some(Payload::Help {})));
    assert!(matches!(round_trip(Some(Payload::Quit {})).payload, Some(Payload::Quit {})));
    assert!(round_trip(None).payload.is_none());
    match round_trip(Some(Payload::Msg { text: "žluťoučký\n".to_string() })).payload {
        Some(Payload::Msg { text }) => assert_eq!(text, "žluťoučký\n"),
        other => panic!("unexpected payload {:?}", other),
    }
    match round_trip(Some(Payload::Image { filename: "p.jpg".to_string(), content: "".to_string() }))
        .payload
    {
        Some(Payload::Image { filename, content }) => {
            assert_eq!(filename, "p.jpg");
            assert_eq!(content, "");
        }
        other => panic!("unexpected payload {:?}", other),
    }
    match round_trip(Some(Payload::Info { info: "i".to_string(), hostname: "h".to_string() })).payload {
        Some(Payload::Info { info, hostname }) => {
            assert_eq!(info, "i");
            assert_eq!(hostname, "h");
        }
        other => panic!("unexpected payload {:?}", other),
    }
}

#[test]
fn response_round_trip_keeps_every_field() {
    let response = ServerClientMessage::Error {
        msg_id_ref: "9".to_string(),
        code: "InvalidEncoding".to_string(),
        text: Some("Invalid encoding: x".to_string()),
    };
    let frame = encode_response(&response).unwrap();
    let (body, _) = decode_frame(&frame).unwrap();
    match decode_response(&body).unwrap() {
        ServerClientMessage::Error { msg_id_ref, code, text } => {
            assert_eq!(msg_id_ref, "9");
            assert_eq!(code, "InvalidEncoding");
            assert_eq!(text, Some("Invalid encoding: x".to_string()));
        }
        other => panic!("unexpected response {:?}", other),
    }
    let quit = ServerClientMessage::Quit { msg_id_ref: "1".to_string(), text: None };
    let frame = encode_response(&quit).unwrap();
    let (body, _) = decode_frame(&frame).unwrap();
    match decode_response(&body).unwrap() {
        ServerClientMessage::Quit { msg_id_ref, text } => {
            assert_eq!(msg_id_ref, "1");
            assert_eq!(text, None);
        }
        other => panic!("unexpected response {:?}", other),
    }
}

#[test]
fn decode_request_reads_members_in_any_order_and_ignores_others() {
    let body = b"{\"extra\":[1,2.5,true],\"payload\":{\"data\":{\"text\":\"hi\"},\"type\":\"Msg\"},\"msg_id\":\"m\"}";
    let request = decode_request(body).unwrap();
    assert_eq!(request.msg_id, "m");
    assert!(matches!(request.payload, Some(Payload::Msg { ref text }) if text == "hi"));
}

#[test]
fn decode_request_accepts_a_missing_payload() {
    assert!(decode_request(b"{\"msg_id\":\"m\"}").unwrap().payload.is_none());
    assert!(decode_request(b"{\"msg_id\":\"m\",\"payload\":null}").unwrap().payload.is_none());
}

#[test]
fn decode_request_refuses_an_unknown_discriminant() {
    let body = b"{\"msg_id\":\"m\",\"payload\":{\"type\":\"Dance\",\"data\":{}}}";
    let error = decode_request(body).unwrap_err();
    assert_eq!(error.variant_name(), "MessageProcessingFailed");
    assert_eq!(error.to_string(), "Message processing failed: Failed to parse message");
    assert_eq!(
        error.log_line(),
        "MessageProcessingFailed: Message processing failed: Failed to parse message: SchemaError: unknown variant"
    );
}

#[test]
fn decode_request_refuses_what_is_not_json() {
    let error = decode_request(b"{\"msg_id\":").unwrap_err();
    assert_eq!(error.variant_name(), "MessageProcessingFailed");
    assert!(error.source().is_some());
    assert!(decode_request(&[0xff, 0xfe]).is_err());
    assert!(decode_request(b"").is_err());
}

#[test]
fn schema_errors_are_told_apart() {
    let parse = |text: &str| parse_json(text.as_bytes()).unwrap();
    assert_eq!(request_from_json(&parse("[]")).unwrap_err(), SchemaError::ExpectedObject);
    assert_eq!(request_from_json(&parse("{}")).unwrap_err(), SchemaError::MissingField);
    assert_eq!(request_from_json(&parse("{\"msg_id\":5}")).unwrap_err(), SchemaError::ExpectedString);
    assert_eq!(
        payload_from_json(&parse("{\"type\":\"Nope\"}")).unwrap_err(),
        SchemaError::UnknownVariant
    );
    assert_eq!(payload_from_json(&parse("{\"type\":\"Help\"}")).unwrap_err(), SchemaError::MissingField);
    assert_eq!(
        payload_from_json(&parse("{\"type\":\"Help\",\"data\":\"x\"}")).unwrap_err(),
        SchemaError::ExpectedObject
    );
    assert_eq!(
        payload_from_json(&parse("{\"type\":\"Msg\",\"data\":{}}")).unwrap_err(),
        SchemaError::MissingField
    );
    assert_eq!(
        response_from_json(&parse("{\"type\":\"Ok\",\"data\":{\"msg_id_ref\":\"1\",\"text\":7}}"))
            .unwrap_err(),
        SchemaError::ExpectedString
    );
    assert_eq!(SchemaError::UnknownVariant.describe(), "unknown variant");
}

#[test]
fn json_documents_keep_their_members_in_order() {
    let json = parse_json(b"{\"b\":1,\"a\":[null,false,\"x\"]}").unwrap();
    match &json {
        Json::Object(members) => {
            assert_eq!(members.len(), 2);
            assert_eq!(members[0].0, "b");
            assert!(matches!(members[0].1, Json::Number(_)));
            assert_eq!(members[1].0, "a");
            match &members[1].1 {
                Json::Array(items) => {
                    assert!(matches!(items[0], Json::Null));
                    assert!(matches!(items[1], Json::Bool(false)));
                    assert!(matches!(&items[2], Json::Str(s) if s == "x"));
                }
                other => panic!("unexpected member {:?}", other),
            }
        }
        other => panic!("unexpected document {:?}", other),
    }
    assert_eq!(render_json(&json).unwrap(), "{\"b\":1,\"a\":[null,false,\"x\"]}");
}

#[test]
fn payload_get_projects_a_named_field() {
    let message = Payload::Msg { text: "hi".to_string() };
    assert_eq!(message.get("text"), Some("hi".to_string()));
    assert_eq!(message.get("nope"), None);
    assert_eq!(message.get("info"), None);
    let payload = Payload::Info { info: "i".to_string(), hostname: "h".to_string() };
    assert_eq!(payload.get("info"), Some("i".to_string()));
    assert_eq!(payload.get("hostname"), Some("h".to_string()));
    assert_eq!(payload.get("text"), None);
    assert_eq!(payload.get("data"), None);
    let file = Payload::File { filename: "a.txt".to_string(), content: "aGk".to_string() };
    assert_eq!(file.get("filename"), Some("a.txt".to_string()));
    assert_eq!(file.get("content"), Some("aGk".to_string()));
    let picture = Payload::Image { filename: "p.png".to_string(), content: "".to_string() };
    assert_eq!(picture.get("filename"), Some("p.png".to_string()));
    assert_eq!(picture.get("content"), Some("".to_string()));
    assert_eq!(Payload::Help {}.get("text"), None);
    assert_eq!(Payload::Quit {}.get(""), None);
}

#[test]
fn payload_get_gives_the_variant_under_type() {
    let payload = Payload::Info { info: "i".to_string(), hostname: "h".to_string() };
    assert_eq!(payload.get("type"), Some("Info".to_string()));
    assert_eq!(Payload::Quit {}.get("type"), Some("Quit".to_string()));
}

#[test]
fn messages_are_read_from_their_text() {
    let request = ClientServerMessage::from_json(
        "{\"msg_id\":\"1\",\"payload\":{\"type\":\"Msg\",\"data\":{\"text\":\"hi\"}}}",
    )
    .unwrap();
    assert_eq!(request.msg_id, "1");
    assert!(matches!(request.payload, Some(Payload::Msg { ref text }) if text == "hi"));
    let response =
        ServerClientMessage::from_json("{\"type\":\"Ok\",\"data\":{\"msg_id_ref\":\"1\"}}").unwrap();
    assert_eq!(response.to_string(), "Ok");
    assert!(matches!(
        ClientServerMessage::from_json("{\"msg_id\":\"1\",\"payload\":{\"type\":\"X\"}}"),
        Err(ParseError::Schema(SchemaError::UnknownVariant))
    ));
    assert!(matches!(ClientServerMessage::from_json("{"), Err(ParseError::Syntax(_))));
    assert!(matches!(
        ServerClientMessage::from_json("{\"type\":\"Ok\",\"data\":{}}"),
        Err(ParseError::Schema(SchemaError::MissingField))
    ));
}

#[test]
fn an_empty_body_is_a_whole_frame() {
    let (body, used) = decode_frame(&[0, 0, 0, 0]).unwrap();
    assert!(body.is_empty());
    assert_eq!(used, 4);
}
