//! The life of one connection on the server, as a state machine.
//!
//! The machine decides; its caller acts. Each step takes the state and what
//! the last action gave, and returns the next state and the next action:
//! read so many bytes, write a file, send bytes, or close. The caller
//! performs the action and hands back what came of it.

use crate::codec::body_length;
use crate::command::{handle_command_at, handled, Reply, ReplyView};
use crate::config::Config;
use crate::message::{response_id, text_view, RequestView, ResponseView, ServerClientMessage};
use crate::schema::response_json;
use crate::server_error::{
    chain_of, chain_with, client_message_of, log_text, Cause, ErrorKind, Link, ServerError,
    ServerErrorView,
};
use crate::util::{is_timestamp, utc_timestamp};
use crate::wire::{decode_request, encode_response, framed, not_a_message, request_of_body, BodyError};
use vstd::prelude::*;
use vstd::string::*;

verus! {

/// Where a connection stands.
#[derive(Debug)]
pub enum ConnectionState {
    /// Awaiting a request: the four bytes of its length are being read.
    AwaitingLength,
    /// Awaiting a request: the body of so many bytes is being read.
    AwaitingBody(usize),
    /// Dispatching: a file is being written; this response follows it.
    Storing(ServerClientMessage),
    /// Sending a response; `true` where the connection ends with it.
    Sending(bool),
    /// The connection is closed. Nothing follows.
    Terminated,
}

/// The mathematical value of a [`ConnectionState`].
pub ghost enum StateView {
    AwaitingLength,
    AwaitingBody(nat),
    Storing(ResponseView),
    Sending(bool),
    Terminated,
}

impl View for ConnectionState {
    type V = StateView;

    open spec fn view(&self) -> StateView {
        match self {
            ConnectionState::AwaitingLength => StateView::AwaitingLength,
            ConnectionState::AwaitingBody(n) => StateView::AwaitingBody(*n as nat),
            ConnectionState::Storing(response) => StateView::Storing(response@),
            ConnectionState::Sending(last) => StateView::Sending(*last),
            ConnectionState::Terminated => StateView::Terminated,
        }
    }
}

/// What came of the last action.
#[derive(Debug)]
pub enum Event {
    /// The bytes that were asked for were read.
    Read(Vec<u8>),
    /// The stream gave fewer bytes than were asked for, or none.
    ReadFailed(Cause),
    /// The file was written.
    Stored,
    /// The file could not be written.
    StoreFailed(Cause),
    /// The bytes were sent.
    Sent,
    /// The bytes could not be sent; `broken_pipe` where the peer is gone.
    SendFailed { broken_pipe: bool, cause: Cause },
}

/// The mathematical value of an [`Event`].
pub ghost enum EventView {
    Read(Seq<u8>),
    ReadFailed(Seq<Link>),
    Stored,
    StoreFailed(Seq<Link>),
    Sent,
    SendFailed { broken_pipe: bool, cause: Seq<Link> },
}

impl View for Event {
    type V = EventView;

    open spec fn view(&self) -> EventView {
        match self {
            Event::Read(bytes) => EventView::Read(bytes@),
            Event::ReadFailed(cause) => EventView::ReadFailed(cause@),
            Event::Stored => EventView::Stored,
            Event::StoreFailed(cause) => EventView::StoreFailed(cause@),
            Event::Sent => EventView::Sent,
            Event::SendFailed { broken_pipe, cause } => EventView::SendFailed {
                broken_pipe: *broken_pipe,
                cause: cause@,
            },
        }
    }
}

/// What the caller is to do next.
#[derive(Debug)]
pub enum Action {
    /// Read exactly so many bytes from the stream.
    Read(usize),
    /// Create the file, or truncate it, and write the content.
    Store { path: String, content: Vec<u8> },
    /// Write the bytes to the stream and flush it.
    Send(Vec<u8>),
    /// Close the connection.
    Close,
}

/// The mathematical value of an [`Action`].
pub ghost enum ActionView {
    Read(nat),
    Store { path: Seq<char>, content: Seq<u8> },
    Send(Seq<u8>),
    Close,
}

impl View for Action {
    type V = ActionView;

    open spec fn view(&self) -> ActionView {
        match self {
            Action::Read(n) => ActionView::Read(*n as nat),
            Action::Store { path, content } => ActionView::Store {
                path: path@,
                content: content@,
            },
            Action::Send(bytes) => ActionView::Send(bytes@),
            Action::Close => ActionView::Close,
        }
    }
}

/// One step of the machine: the next state, the next action, and a line for
/// the server's log where there is something to note.
#[derive(Debug)]
pub struct Transition {
    pub state: ConnectionState,
    pub action: Action,
    pub log: Option<String>,
}

/// The mathematical value of a [`Transition`].
pub ghost struct TransitionView {
    pub state: StateView,
    pub action: ActionView,
    pub log: Option<Seq<char>>,
}

impl View for Transition {
    type V = TransitionView;

    open spec fn view(&self) -> TransitionView {
        TransitionView { state: self.state@, action: self.action@, log: text_view(self.log) }
    }
}

/// The step that awaits the next request.
pub open spec fn awaiting(log: Option<Seq<char>>) -> TransitionView {
    TransitionView { state: StateView::AwaitingLength, action: ActionView::Read(4), log }
}

/// The step that ends the connection.
pub open spec fn closing(log: Option<Seq<char>>) -> TransitionView {
    TransitionView { state: StateView::Terminated, action: ActionView::Close, log }
}

/// What follows a response: the end of the connection where the response
/// was the last, else the next request.
pub open spec fn moving_on(last: bool, log: Option<Seq<char>>) -> TransitionView {
    if last {
        closing(log)
    } else {
        awaiting(log)
    }
}

/// The line that is logged where a response could not be sent: a general
/// issue, caused by the failure to send, caused in turn by `cause`.
pub open spec fn send_failure_log(cause: Seq<Link>) -> Seq<char> {
    log_text(
        ServerErrorView {
            kind: ErrorKind::GeneralIssue,
            message: "Failed to send response"@,
            chain: chain_with(
                ServerErrorView {
                    kind: ErrorKind::ResponseSendingFailed,
                    message: "Failed to send response"@,
                    chain: cause,
                },
            ),
        },
    )
}

/// The line that is logged where a response has no encoding.
pub open spec fn unsendable_log() -> Seq<char> {
    log_text(
        ServerErrorView {
            kind: ErrorKind::GeneralIssue,
            message: "Failed to send response"@,
            chain: chain_with(
                ServerErrorView {
                    kind: ErrorKind::ResponseSendingFailed,
                    message: "Failed to serialize response"@,
                    chain: Seq::empty(),
                },
            ),
        },
    )
}

/// The step that sends a response: its frame goes out, and the connection
/// ends with it where `last` is set. A response without encoding is noted
/// in the log and skipped.
pub open spec fn responding(response: ResponseView, last: bool, log: Option<Seq<char>>)
    -> TransitionView {
    match framed(response_json(response)) {
        Some(frame) => TransitionView {
            state: StateView::Sending(last),
            action: ActionView::Send(frame),
            log,
        },
        None => moving_on(last, Some(unsendable_log())),
    }
}

/// The step that answers a failure: the error response goes out, with the
/// identifier of the request where it is known, and the error is logged with
/// its causes.
pub open spec fn failing(error: ServerErrorView, msg_id: Option<Seq<char>>, last: bool)
    -> TransitionView {
    responding(client_message_of(error, msg_id), last, Some(log_text(error)))
}

/// The error for a stream that gave no length.
pub open spec fn no_length(cause: Seq<Link>) -> ServerErrorView {
    ServerErrorView {
        kind: ErrorKind::MessageReceiveFailed,
        message: "Failed to read message length"@,
        chain: cause,
    }
}

/// The error for a stream that gave no body.
pub open spec fn no_body(cause: Seq<Link>) -> ServerErrorView {
    ServerErrorView {
        kind: ErrorKind::MessageReceiveFailed,
        message: "Failed to read message"@,
        chain: cause,
    }
}

/// The error for a request whose handling failed, with the failure as its
/// cause.
pub open spec fn not_processed(cause: Seq<Link>) -> ServerErrorView {
    ServerErrorView {
        kind: ErrorKind::MessageProcessingFailed,
        message: "Failed to process message"@,
        chain: cause,
    }
}

/// The step that follows the dispatcher's result for the request `msg_id`:
/// a reply with a file has the file written first; any other reply is sent,
/// and a quit response is the last; an error is wrapped as a failure to
/// process the message and answered.
pub open spec fn replying(r: Result<ReplyView, ServerErrorView>, msg_id: Seq<char>)
    -> TransitionView {
    match r {
        Ok(reply) => match reply.write {
            Some((path, content)) => TransitionView {
                state: StateView::Storing(reply.response),
                action: ActionView::Store { path, content },
                log: reply.log,
            },
            None => responding(reply.response, reply.response is Quit, reply.log),
        },
        Err(error) => failing(not_processed(chain_with(error)), Some(msg_id), false),
    }
}

/// Whether `error` is what a body that is no request is refused with.
pub open spec fn refuses(error: ServerErrorView, body: Seq<u8>) -> bool {
    match request_of_body(body) {
        Ok(_) => false,
        Err(BodyError::NotJson) => error.kind == ErrorKind::MessageProcessingFailed && error.message
            == "Failed to parse message"@ && error.chain.len() == 1 && error.chain[0].name
            == "Error"@,
        Err(BodyError::NotMessage(e)) => error == not_a_message(e),
    }
}

/// What the machine owes for the body of a frame: a body that is no request
/// is answered with its refusal, under the sentinel identifier, and the
/// connection goes on; a request is dispatched and the result followed.
pub open spec fn body_handled(
    t: TransitionView,
    body: Seq<u8>,
    file_dir: Seq<char>,
    image_dir: Seq<char>,
    timestamp: Seq<char>,
) -> bool {
    match request_of_body(body) {
        Ok(request) => exists|r: Result<Reply, ServerError>|
            #![trigger handled(r, request, file_dir, image_dir, timestamp)]
            handled(r, request, file_dir, image_dir, timestamp) && t == replying(
                crate::command::reply_result(r),
                request.msg_id,
            ),
        Err(_) => exists|error: ServerErrorView|
            #![trigger refuses(error, body)]
            refuses(error, body) && t == failing(error, None, false),
    }
}

/// What the machine owes for a state and an event.
///
/// - Awaiting the length: four bytes state the length of the body, which is
///   read next. A failed read is answered with `MessageReceiveFailed` under
///   the sentinel identifier, and that response is the last.
/// - Awaiting the body: the body is handled as [`body_handled`] says. A
///   failed read is answered like the one above.
/// - Storing: once the file is written the response is sent; a file that
///   could not be written turns the response into an error.
/// - Sending: after the last response the connection is closed; after any
///   other the next request is awaited. A response that could not be sent is
///   logged; a broken pipe closes the connection at once.
/// - Terminated: nothing follows but `Close`.
///
/// An event that the state did not ask for closes the connection.
pub open spec fn stepped(
    t: TransitionView,
    state: StateView,
    event: EventView,
    file_dir: Seq<char>,
    image_dir: Seq<char>,
    timestamp: Seq<char>,
) -> bool {
    match (state, event) {
        (StateView::AwaitingLength, EventView::Read(bytes)) => if bytes.len() == 4 {
            t == TransitionView {
                state: StateView::AwaitingBody(crate::codec::stated_length(bytes)),
                action: ActionView::Read(crate::codec::stated_length(bytes)),
                log: None,
            }
        } else {
            t == failing(no_length(Seq::empty()), None, true)
        },
        (StateView::AwaitingLength, EventView::ReadFailed(cause)) => t == failing(
            no_length(cause),
            None,
            true,
        ),
        (StateView::AwaitingBody(n), EventView::Read(bytes)) => if bytes.len() == n {
            body_handled(t, bytes, file_dir, image_dir, timestamp)
        } else {
            t == failing(no_body(Seq::empty()), None, true)
        },
        (StateView::AwaitingBody(_), EventView::ReadFailed(cause)) => t == failing(
            no_body(cause),
            None,
            true,
        ),
        (StateView::Storing(response), EventView::Stored) => t == responding(
            response,
            false,
            None,
        ),
        (StateView::Storing(response), EventView::StoreFailed(cause)) => t == failing(
            not_processed(cause),
            Some(response_id(response)),
            false,
        ),
        (StateView::Sending(last), EventView::Sent) => t == moving_on(last, None),
        (StateView::Sending(last), EventView::SendFailed { broken_pipe, cause }) => if broken_pipe {
            t == closing(Some("Client disconnected due to broken pipe"@))
        } else {
            t == moving_on(last, Some(send_failure_log(cause)))
        },
        _ => t == closing(None),
    }
}


/// The first step of a connection: the first request is awaited.
pub fn start() -> (t: Transition)
    ensures
        t@ == awaiting(None),
{
    Transition { state: ConnectionState::AwaitingLength, action: Action::Read(4), log: None }
}

/// The step that follows a response.
fn move_on(last: bool, log: Option<String>) -> (t: Transition)
    ensures
        t@ == moving_on(last, text_view(log)),
{
    if last {
        Transition { state: ConnectionState::Terminated, action: Action::Close, log }
    } else {
        Transition { state: ConnectionState::AwaitingLength, action: Action::Read(4), log }
    }
}

/// The line that is logged where a response could not be sent.
fn render_send_failure(message: &str, cause: Option<Cause>) -> (line: String)
    ensures
        line@ == log_text(
            ServerErrorView {
                kind: ErrorKind::GeneralIssue,
                message: "Failed to send response"@,
                chain: chain_with(
                    ServerErrorView {
                        kind: ErrorKind::ResponseSendingFailed,
                        message: message@,
                        chain: chain_of(cause),
                    },
                ),
            },
        ),
{
    let inner = ServerError::ResponseSendingFailed(String::from_str(message), cause);
    let outer = ServerError::GeneralIssue(
        String::from_str("Failed to send response"),
        Some(inner.into_cause()),
    );
    outer.log_line()
}

/// The step that sends a response.
fn respond(response: &ServerClientMessage, last: bool, log: Option<String>) -> (t: Transition)
    ensures
        t@ == responding(response@, last, text_view(log)),
{
    match encode_response(response) {
        Ok(frame) => Transition {
            state: ConnectionState::Sending(last),
            action: Action::Send(frame),
            log,
        },
        Err(_) => move_on(last, Some(render_send_failure("Failed to serialize response", None))),
    }
}

/// The step that answers a failure.
fn fail(error: &ServerError, msg_id: Option<String>, last: bool) -> (t: Transition)
    ensures
        t@ == failing(error@, text_view(msg_id), last),
{
    let response = error.to_client_message(msg_id);
    respond(&response, last, Some(error.log_line()))
}

/// The step that follows the dispatcher's result.
fn reply(r: Result<Reply, ServerError>, msg_id: &String) -> (t: Transition)
    ensures
        t@ == replying(crate::command::reply_result(r), msg_id@),
{
    match r {
        Ok(found) => {
            let Reply { response, write, log } = found;
            match write {
                Some((path, content)) => Transition {
                    state: ConnectionState::Storing(response),
                    action: Action::Store { path, content },
                    log,
                },
                None => {
                    let last: bool = response.is_quit();
                    respond(&response, last, log)
                },
            }
        },
        Err(error) => {
            let wrapped = ServerError::MessageProcessingFailed(
                String::from_str("Failed to process message"),
                Some(error.into_cause()),
            );
            fail(&wrapped, Some(msg_id.clone()), false)
        },
    }
}

/// Handles the body of a frame that was received at the time `timestamp`.
fn on_body(body: &[u8], config: &Config, timestamp: &str) -> (t: Transition)
    ensures
        body_handled(t@, body@, config.file_dir@, config.image_dir@, timestamp@),
{
    match decode_request(body) {
        Err(error) => {
            let t = fail(&error, None, false);
            proof {
                assert(refuses(error@, body@) && t@ == failing(error@, None, false));
            }
            t
        },
        Ok(request) => {
            let r = handle_command_at(&request, config, timestamp);
            let ghost witness = r;
            let t = reply(r, &request.msg_id);
            proof {
                assert(handled(
                    witness,
                    request@,
                    config.file_dir@,
                    config.image_dir@,
                    timestamp@,
                ) && t@ == replying(crate::command::reply_result(witness), request@.msg_id));
            }
            t
        },
    }
}

/// One step of the machine for an event that came at the time `timestamp`.
pub fn step_at(state: ConnectionState, event: Event, config: &Config, timestamp: &str) -> (t:
    Transition)
    ensures
        stepped(t@, state@, event@, config.file_dir@, config.image_dir@, timestamp@),
{
    match (state, event) {
        (ConnectionState::AwaitingLength, Event::Read(bytes)) => {
            let stated: Option<usize> = if bytes.len() == 4 {
                body_length(bytes.as_slice())
            } else {
                None
            };
            match stated {
                Some(n) => Transition {
                    state: ConnectionState::AwaitingBody(n),
                    action: Action::Read(n),
                    log: None,
                },
                None => {
                    let error = ServerError::MessageReceiveFailed(
                        String::from_str("Failed to read message length"),
                        None,
                    );
                    fail(&error, None, true)
                },
            }
        },
        (ConnectionState::AwaitingLength, Event::ReadFailed(cause)) => {
            proof {
                cause.lemma_chain_nonempty();
            }
            let error = ServerError::MessageReceiveFailed(
                String::from_str("Failed to read message length"),
                Some(cause),
            );
            fail(&error, None, true)
        },
        (ConnectionState::AwaitingBody(n), Event::Read(bytes)) => {
            if bytes.len() == n {
                on_body(bytes.as_slice(), config, timestamp)
            } else {
                let error = ServerError::MessageReceiveFailed(
                    String::from_str("Failed to read message"),
                    None,
                );
                fail(&error, None, true)
            }
        },
        (ConnectionState::AwaitingBody(_), Event::ReadFailed(cause)) => {
            let error = ServerError::MessageReceiveFailed(
                String::from_str("Failed to read message"),
                Some(cause),
            );
            fail(&error, None, true)
        },
        (ConnectionState::Storing(response), Event::Stored) => respond(&response, false, None),
        (ConnectionState::Storing(response), Event::StoreFailed(cause)) => {
            let error = ServerError::MessageProcessingFailed(
                String::from_str("Failed to process message"),
                Some(cause),
            );
            fail(&error, Some(response.msg_id_ref().clone()), false)
        },
        (ConnectionState::Sending(last), Event::Sent) => move_on(last, None),
        (ConnectionState::Sending(last), Event::SendFailed { broken_pipe, cause }) => {
            if broken_pipe {
                Transition {
                    state: ConnectionState::Terminated,
                    action: Action::Close,
                    log: Some(String::from_str("Client disconnected due to broken pipe")),
                }
            } else {
                move_on(last, Some(render_send_failure("Failed to send response", Some(cause))))
            }
        },
        _ => Transition { state: ConnectionState::Terminated, action: Action::Close, log: None },
    }
}

/// One step of the machine for an event that comes now. What it gives is
/// what [`step_at`] gives for the time of the call.
pub fn step(state: ConnectionState, event: Event, config: &Config) -> (t: Transition)
    ensures
        exists|timestamp: Seq<char>|
            #![trigger stepped(t@, state@, event@, config.file_dir@, config.image_dir@, timestamp)]
            is_timestamp(timestamp) && stepped(
                t@,
                state@,
                event@,
                config.file_dir@,
                config.image_dir@,
                timestamp,
            ),
{
    let timestamp: String = utc_timestamp();
    step_at(state, event, config, timestamp.as_str())
}


/// A closed connection stays closed: whatever comes, nothing follows but
/// `Close`, and no more bytes are asked for.
pub proof fn lemma_terminated_is_final(
    t: TransitionView,
    event: EventView,
    file_dir: Seq<char>,
    image_dir: Seq<char>,
    timestamp: Seq<char>,
)
    requires
        stepped(t, StateView::Terminated, event, file_dir, image_dir, timestamp),
    ensures
        t == closing(None),
{
}

/// A request to quit is answered with the quit response under the request's
/// identifier, and that response is the last: once it is sent the
/// connection is closed.
pub proof fn lemma_quit_ends_session(
    t: TransitionView,
    after: TransitionView,
    body: Seq<u8>,
    request: RequestView,
    file_dir: Seq<char>,
    image_dir: Seq<char>,
    timestamp: Seq<char>,
)
    requires
        request_of_body(body) == Ok::<RequestView, BodyError>(request),
        request.payload == Some(crate::message::PayloadView::Quit),
        stepped(
            t,
            StateView::AwaitingBody(body.len()),
            EventView::Read(body),
            file_dir,
            image_dir,
            timestamp,
        ),
        stepped(after, t.state, EventView::Sent, file_dir, image_dir, timestamp),
    ensures
        t == responding(
            ResponseView::Quit { msg_id_ref: request.msg_id, text: Some("Hasta la vista"@) },
            true,
            None,
        ),
        t.state == StateView::Sending(true) || t.state == StateView::Terminated,
        after == closing(None),
{
    let r = choose|r: Result<Reply, ServerError>|
        #![trigger handled(r, request, file_dir, image_dir, timestamp)]
        handled(r, request, file_dir, image_dir, timestamp) && t == replying(
            crate::command::reply_result(r),
            request.msg_id,
        );
    crate::command::lemma_quit_is_answered_with_quit(r, request, file_dir, image_dir, timestamp);
}

/// A read that fails, the orderly close among them, ends the connection: it
/// is answered with `MessageReceiveFailed` under the sentinel identifier,
/// and that response is the last.
pub proof fn lemma_receive_failure_ends(
    t: TransitionView,
    state: StateView,
    cause: Seq<Link>,
    file_dir: Seq<char>,
    image_dir: Seq<char>,
    timestamp: Seq<char>,
)
    requires
        state is AwaitingLength || state is AwaitingBody,
        stepped(t, state, EventView::ReadFailed(cause), file_dir, image_dir, timestamp),
    ensures
        exists|error: ServerErrorView|
            #![trigger failing(error, None, true)]
            error.kind == ErrorKind::MessageReceiveFailed && error.chain == cause && t == failing(
                error,
                None,
                true,
            ),
        t.state == StateView::Sending(true) || t.state == StateView::Terminated,
{
    if state is AwaitingLength {
        assert(t == failing(no_length(cause), None, true));
    } else {
        assert(t == failing(no_body(cause), None, true));
    }
}

/// The response to a request refers to that request: whatever the machine
/// sends for a request, or holds back until a file is written, carries the
/// request's identifier.
pub proof fn lemma_response_refers_to_request(
    t: TransitionView,
    body: Seq<u8>,
    request: RequestView,
    file_dir: Seq<char>,
    image_dir: Seq<char>,
    timestamp: Seq<char>,
)
    requires
        request_of_body(body) == Ok::<RequestView, BodyError>(request),
        stepped(
            t,
            StateView::AwaitingBody(body.len()),
            EventView::Read(body),
            file_dir,
            image_dir,
            timestamp,
        ),
    ensures
        t.state is Storing ==> response_id(t.state->Storing_0) == request.msg_id,
        t.state is Sending ==> exists|response: ResponseView|
            #![trigger response_json(response)]
            response_id(response) == request.msg_id && framed(response_json(response)) == Some(
                t.action->Send_0,
            ),
{
    let r = choose|r: Result<Reply, ServerError>|
        #![trigger handled(r, request, file_dir, image_dir, timestamp)]
        handled(r, request, file_dir, image_dir, timestamp) && t == replying(
            crate::command::reply_result(r),
            request.msg_id,
        );
    match r {
        Ok(reply) => {
            crate::command::lemma_reply_echoes_id(r, request, file_dir, image_dir, timestamp);
            if t.state is Sending {
                assert(framed(response_json(reply@.response)) == Some(t.action->Send_0));
            }
        },
        Err(error) => {
            let response = client_message_of(
                not_processed(chain_with(error@)),
                Some(request.msg_id),
            );
            if t.state is Sending {
                assert(framed(response_json(response)) == Some(t.action->Send_0));
            }
        },
    }
}

} // verus!
