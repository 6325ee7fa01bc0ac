use chat_protocol::client_session::{
    client_start, client_step, client_step_with, trim_line, ClientAction, ClientEvent,
    ClientState, ClientTransition,
};
use chat_protocol::codec::decode_frame;
use chat_protocol::message::{Payload, ServerClientMessage};
use chat_protocol::wire::{decode_request, encode_response};

fn step(state: ClientState, event: ClientEvent) -> ClientTransition {
    client_step_with(state, event, "id-1".to_string(), "box")
}

fn sent_payload(transition: &ClientTransition) -> (String, Option<Payload>) {
    match &transition.action {
        ClientAction::Send(frame) => {
            let (body, used) = decode_frame(frame).unwrap();
            assert_eq!(used, frame.len());
            let request = decode_request(&body).unwrap();
            (request.msg_id, request.payload)
        }
        other => panic!("unexpected action {:?}", other),
    }
}

#[test]
fn lines_are_trimmed_at_the_end() {
    assert_eq!(trim_line("hello \r\n"), "hello");
    assert_eq!(trim_line("  hello"), "  hello");
    assert_eq!(trim_line(" \t\n"), "");
    assert_eq!(trim_line(""), "");
}

#[test]
fn a_conversation_starts_by_asking_for_a_line() {
    let first = client_start();
    assert!(matches!(first.state, ClientState::AwaitingInput));
    assert!(matches!(first.action, ClientAction::ReadLine));
    assert!(first.show.is_none() && first.error.is_none());
}

#[test]
fn an_empty_line_is_passed_over() {
    let next = step(ClientState::AwaitingInput, ClientEvent::Line("  \n".to_string()));
    assert!(matches!(next.state, ClientState::AwaitingInput));
    assert!(matches!(next.action, ClientAction::ReadLine));
    assert!(next.error.is_none());
}

#[test]
fn a_message_is_sent_and_its_answer_shown() {
    let sending = step(ClientState::AwaitingInput, ClientEvent::Line("hello\n".to_string()));
    assert!(matches!(sending.state, ClientState::Sending));
    let (msg_id, payload) = sent_payload(&sending);
    assert_eq!(msg_id, "id-1");
    assert!(matches!(payload, Some(Payload::Msg { ref text }) if text == "hello"));

    let waiting = step(sending.state, ClientEvent::Sent);
    assert!(matches!(waiting.state, ClientState::AwaitingLength));
    assert!(matches!(waiting.action, ClientAction::Read(4)));

    let answer = encode_response(&ServerClientMessage::Okay {
        msg_id_ref: "id-1".to_string(),
        text: Some("Message received: hello".to_string()),
    })
    .unwrap();
    let body = step(waiting.state, ClientEvent::Read(answer[..4].to_vec()));
    assert!(matches!(body.action, ClientAction::Read(n) if n == answer.len() - 4));
    let shown = step(body.state, ClientEvent::Read(answer[4..].to_vec()));
    assert_eq!(shown.show, Some("Ok: Message received: hello".to_string()));
    assert!(matches!(shown.state, ClientState::AwaitingInput));
    assert!(matches!(shown.action, ClientAction::ReadLine));
}

#[test]
fn a_file_is_read_before_it_is_sent() {
    let reading = step(ClientState::AwaitingInput, ClientEvent::Line(".image pics/p.jpg\n".to_string()));
    assert!(matches!(&reading.action, ClientAction::ReadFile(path) if path == "pics/p.jpg"));
    assert!(matches!(&reading.state, ClientState::ReadingFile(path, true) if path == "pics/p.jpg"));
    let sending = step(reading.state, ClientEvent::FileRead(b"hello".to_vec()));
    match sent_payload(&sending).1 {
        Some(Payload::Image { filename, content }) => {
            assert_eq!(filename, "pics/p.jpg");
            assert_eq!(content, "aGVsbG8");
        }
        other => panic!("unexpected payload {:?}", other),
    }
    let reading = step(ClientState::AwaitingInput, ClientEvent::Line(".file a.txt".to_string()));
    assert!(matches!(&reading.state, ClientState::ReadingFile(_, false)));
    let failed = step(reading.state, ClientEvent::FileFailed("No such file".to_string()));
    assert_eq!(
        failed.error.unwrap().to_string(),
        "Command error: Error handling command: General issue: No such file"
    );
    assert!(matches!(failed.state, ClientState::AwaitingInput));
}

#[test]
fn the_quit_response_shuts_the_connection_down() {
    let answer =
        encode_response(&ServerClientMessage::Quit { msg_id_ref: "1".to_string(), text: Some("bye".to_string()) })
            .unwrap();
    let quitting = step(ClientState::AwaitingBody(answer.len() - 4), ClientEvent::Read(answer[4..].to_vec()));
    assert_eq!(quitting.show, Some("Quit: bye".to_string()));
    assert!(matches!(quitting.state, ClientState::ShuttingDown));
    assert!(matches!(quitting.action, ClientAction::Shutdown));
    let done = step(quitting.state, ClientEvent::ShutDown);
    assert!(matches!(done.state, ClientState::Finished));
    assert!(matches!(done.action, ClientAction::Stop));
    assert!(done.error.is_none());
    let failed = step(ClientState::ShuttingDown, ClientEvent::ShutdownFailed);
    assert!(failed.error.as_ref().unwrap().ends_session());
    assert_eq!(
        failed.error.unwrap().to_string(),
        "Stream shutdown error: Error shutting down the connection"
    );
    assert!(matches!(failed.state, ClientState::Finished));
}

#[test]
fn failures_are_reported_with_their_kind() {
    let refused = step(ClientState::AwaitingInput, ClientEvent::Line(".help me".to_string()));
    assert_eq!(
        refused.error.unwrap().to_string(),
        "Command error: Error handling command: Invalid parameter: Command '.help' has no arguments"
    );
    let input = step(ClientState::AwaitingInput, ClientEvent::InputFailed);
    assert_eq!(input.error.unwrap().to_string(), "Input error: Error reading input");
    let write = step(ClientState::Sending, ClientEvent::SendFailed);
    assert_eq!(write.error.unwrap().to_string(), "Stream write error: Error writing to stream");
    let length = step(ClientState::AwaitingLength, ClientEvent::ReadFailed("eof".to_string()));
    assert_eq!(
        length.error.unwrap().to_string(),
        "Response error: Error receiving response: General issue: Failed to read response length: eof"
    );
    let body = step(ClientState::AwaitingBody(3), ClientEvent::ReadFailed("eof".to_string()));
    assert_eq!(
        body.error.unwrap().to_string(),
        "Response error: Error receiving response: General issue: Failed to read response: eof"
    );
    let parse = step(ClientState::AwaitingBody(2), ClientEvent::Read(b"{}".to_vec()));
    assert_eq!(
        parse.error.unwrap().to_string(),
        "Response error: Error receiving response: General issue: Failed to parse response"
    );
    let short = step(ClientState::AwaitingBody(5), ClientEvent::Read(b"{}".to_vec()));
    assert_eq!(
        short.error.unwrap().to_string(),
        "Response error: Error receiving response: General issue: Failed to read response"
    );
    let odd = step(ClientState::Sending, ClientEvent::ShutDown);
    assert!(matches!(odd.state, ClientState::Finished));
}

#[test]
fn a_step_on_this_host_sends_under_a_fresh_identifier() {
    let sending = client_step(ClientState::AwaitingInput, ClientEvent::Line(".quit".to_string()));
    let (msg_id, payload) = sent_payload(&sending);
    assert_eq!(msg_id.len(), 36);
    assert!(matches!(payload, Some(Payload::Quit {})));
}
