//! The conversation of the client with the server, as a state machine.
//!
//! The machine decides; its caller acts. Each step takes the state and what
//! the last action gave, and returns the next state and the next action:
//! read a line from the user, read a file, send bytes, read so many bytes,
//! shut the connection down, or stop.

use crate::client_command::{
    argument_of, command_of, file_payload, plan_command, plan_result, planned, request_with_id,
    ClientPlan, ClientPlanView,
};
use crate::client_error::{client_error_text, ClientError, ClientErrorKind, ClientErrorView};
use crate::codec::{body_length, stated_length};
use crate::message::{
    response_line, text_view, ClientServerMessage, Payload, PayloadView, RequestView,
    ResponseView, ServerClientMessage,
};
use crate::schema::request_json;
use crate::util::{base64_text, get_hostname, is_message_id, max_encodable, new_message_id};
use crate::wire::{decode_response, encode_request, framed, response_of_body};
use vstd::prelude::*;
use vstd::string::*;

verus! {

/// Whether a character is blank at the end of a line.
pub open spec fn is_blank(c: char) -> bool {
    c == ' ' || c == '\t' || c == '\n' || c == '\r'
}

/// The length of a line without the blanks at its end.
pub open spec fn trimmed_len(line: Seq<char>) -> int
    decreases line.len(),
{
    if line.len() == 0 {
        0
    } else if !is_blank(line.last()) {
        line.len() as int
    } else {
        trimmed_len(line.drop_last())
    }
}

/// A line without the blanks at its end.
pub open spec fn trimmed(line: Seq<char>) -> Seq<char> {
    line.subrange(0, trimmed_len(line))
}

/// The trimmed length lies within the line.
pub proof fn lemma_trimmed_len(line: Seq<char>)
    ensures
        0 <= trimmed_len(line) <= line.len(),
    decreases line.len(),
{
    if line.len() > 0 && is_blank(line.last()) {
        lemma_trimmed_len(line.drop_last());
    }
}

/// Takes the blanks off the end of a line.
pub fn trim_line(line: &str) -> (short: &str)
    ensures
        short@ == trimmed(line@),
{
    let n: usize = line.unicode_len();
    let mut i: usize = n;
    proof {
        assert(line@.subrange(0, n as int) =~= line@);
        lemma_trimmed_len(line@);
    }
    while i > 0
        invariant
            i <= n,
            n == line@.len(),
            trimmed_len(line@) == trimmed_len(line@.subrange(0, i as int)),
        decreases i,
    {
        let ghost prefix = line@.subrange(0, i as int);
        let c: char = line.get_char(i - 1);
        assert(prefix.last() == c);
        if !(c == ' ' || c == '\t' || c == '\n' || c == '\r') {
            return line.substring_char(0, i);
        }
        proof {
            assert(prefix.drop_last() =~= line@.subrange(0, i - 1));
        }
        i = i - 1;
    }
    assert(line@.subrange(0, 0).len() == 0);
    line.substring_char(0, 0)
}

/// Where the conversation stands.
#[derive(Debug)]
pub enum ClientState {
    /// A line of input is awaited.
    AwaitingInput,
    /// The file at the path is being read, to be sent as a file or, where
    /// the flag is set, as an image.
    ReadingFile(String, bool),
    /// A request is being sent.
    Sending,
    /// The four bytes of the response's length are being read.
    AwaitingLength,
    /// The body of the response, of so many bytes, is being read.
    AwaitingBody(usize),
    /// The connection is being shut down.
    ShuttingDown,
    /// The conversation is over.
    Finished,
}

/// The mathematical value of a [`ClientState`].
pub ghost enum ClientStateView {
    AwaitingInput,
    ReadingFile(Seq<char>, bool),
    Sending,
    AwaitingLength,
    AwaitingBody(nat),
    ShuttingDown,
    Finished,
}

impl View for ClientState {
    type V = ClientStateView;

    open spec fn view(&self) -> ClientStateView {
        match self {
            ClientState::AwaitingInput => ClientStateView::AwaitingInput,
            ClientState::ReadingFile(path, image) => ClientStateView::ReadingFile(path@, *image),
            ClientState::Sending => ClientStateView::Sending,
            ClientState::AwaitingLength => ClientStateView::AwaitingLength,
            ClientState::AwaitingBody(n) => ClientStateView::AwaitingBody(*n as nat),
            ClientState::ShuttingDown => ClientStateView::ShuttingDown,
            ClientState::Finished => ClientStateView::Finished,
        }
    }
}

/// What came of the client's last action.
#[derive(Debug)]
pub enum ClientEvent {
    /// The user gave a line.
    Line(String),
    /// No line could be read.
    InputFailed,
    /// The file was read.
    FileRead(Vec<u8>),
    /// The file could not be read; the words say why.
    FileFailed(String),
    /// The bytes were sent.
    Sent,
    /// The bytes could not be sent.
    SendFailed,
    /// The bytes that were asked for were read.
    Read(Vec<u8>),
    /// The stream gave fewer bytes than were asked for; the words say why.
    ReadFailed(String),
    /// The connection was shut down.
    ShutDown,
    /// The connection could not be shut down.
    ShutdownFailed,
}

/// The mathematical value of a [`ClientEvent`].
pub ghost enum ClientEventView {
    Line(Seq<char>),
    InputFailed,
    FileRead(Seq<u8>),
    FileFailed(Seq<char>),
    Sent,
    SendFailed,
    Read(Seq<u8>),
    ReadFailed(Seq<char>),
    ShutDown,
    ShutdownFailed,
}

impl View for ClientEvent {
    type V = ClientEventView;

    open spec fn view(&self) -> ClientEventView {
        match self {
            ClientEvent::Line(line) => ClientEventView::Line(line@),
            ClientEvent::InputFailed => ClientEventView::InputFailed,
            ClientEvent::FileRead(bytes) => ClientEventView::FileRead(bytes@),
            ClientEvent::FileFailed(words) => ClientEventView::FileFailed(words@),
            ClientEvent::Sent => ClientEventView::Sent,
            ClientEvent::SendFailed => ClientEventView::SendFailed,
            ClientEvent::Read(bytes) => ClientEventView::Read(bytes@),
            ClientEvent::ReadFailed(words) => ClientEventView::ReadFailed(words@),
            ClientEvent::ShutDown => ClientEventView::ShutDown,
            ClientEvent::ShutdownFailed => ClientEventView::ShutdownFailed,
        }
    }
}

/// What the client is to do next.
#[derive(Debug)]
pub enum ClientAction {
    /// Read a line from the user.
    ReadLine,
    /// Read the whole file at the path.
    ReadFile(String),
    /// Write the bytes to the stream and flush it.
    Send(Vec<u8>),
    /// Read exactly so many bytes from the stream.
    Read(usize),
    /// Shut the connection down.
    Shutdown,
    /// Stop.
    Stop,
}

/// The mathematical value of a [`ClientAction`].
pub ghost enum ClientActionView {
    ReadLine,
    ReadFile(Seq<char>),
    Send(Seq<u8>),
    Read(nat),
    Shutdown,
    Stop,
}

impl View for ClientAction {
    type V = ClientActionView;

    open spec fn view(&self) -> ClientActionView {
        match self {
            ClientAction::ReadLine => ClientActionView::ReadLine,
            ClientAction::ReadFile(path) => ClientActionView::ReadFile(path@),
            ClientAction::Send(bytes) => ClientActionView::Send(bytes@),
            ClientAction::Read(n) => ClientActionView::Read(*n as nat),
            ClientAction::Shutdown => ClientActionView::Shutdown,
            ClientAction::Stop => ClientActionView::Stop,
        }
    }
}

/// One step of the client: the next state, the next action, a line to show
/// to the user, and the error that ended the exchange, if one did.
#[derive(Debug)]
pub struct ClientTransition {
    pub state: ClientState,
    pub action: ClientAction,
    pub show: Option<String>,
    pub error: Option<ClientError>,
}

/// The mathematical value of a [`ClientTransition`].
pub ghost struct ClientTransitionView {
    pub state: ClientStateView,
    pub action: ClientActionView,
    pub show: Option<Seq<char>>,
    pub error: Option<ClientErrorView>,
}

impl View for ClientTransition {
    type V = ClientTransitionView;

    open spec fn view(&self) -> ClientTransitionView {
        ClientTransitionView {
            state: self.state@,
            action: self.action@,
            show: text_view(self.show),
            error: match self.error {
                Some(error) => Some(error@),
                None => None,
            },
        }
    }
}

/// The step that asks the user for the next line.
pub open spec fn asking(show: Option<Seq<char>>) -> ClientTransitionView {
    ClientTransitionView {
        state: ClientStateView::AwaitingInput,
        action: ClientActionView::ReadLine,
        show,
        error: None,
    }
}

/// The step that gives an exchange up: the error is reported and the user
/// is asked for the next line.
pub open spec fn giving_up(kind: ClientErrorKind, message: Seq<char>) -> ClientTransitionView {
    ClientTransitionView {
        state: ClientStateView::AwaitingInput,
        action: ClientActionView::ReadLine,
        show: None,
        error: Some(ClientErrorView { kind, message }),
    }
}

/// The step that ends the conversation.
pub open spec fn finishing(error: Option<ClientErrorView>) -> ClientTransitionView {
    ClientTransitionView {
        state: ClientStateView::Finished,
        action: ClientActionView::Stop,
        show: None,
        error,
    }
}

/// The step that sends a payload under the identifier `msg_id`: its frame
/// goes out; a request without encoding is given up.
pub open spec fn requesting(msg_id: Seq<char>, payload: PayloadView) -> ClientTransitionView {
    match framed(request_json(RequestView { msg_id, payload: Some(payload) })) {
        Some(frame) => ClientTransitionView {
            state: ClientStateView::Sending,
            action: ClientActionView::Send(frame),
            show: None,
            error: None,
        },
        None => giving_up(
            ClientErrorKind::RequestSerializationFailed,
            "Error serializing request"@,
        ),
    }
}

/// The message of the error for a command that failed.
pub open spec fn command_failure(error: ClientErrorView) -> Seq<char> {
    "Error handling command: "@ + client_error_text(error)
}

/// The message of the error for a response that could not be had.
pub open spec fn response_failure(error: ClientErrorView) -> Seq<char> {
    "Error receiving response: "@ + client_error_text(error)
}

/// An error of the kind `GeneralIssue`.
pub open spec fn general(message: Seq<char>) -> ClientErrorView {
    ClientErrorView { kind: ClientErrorKind::GeneralIssue, message }
}

/// The step that follows a line of input, on the host named `hostname`: an
/// empty line is passed over; a command that is refused is given up; a
/// payload is sent under `msg_id`; a file is read first.
pub open spec fn after_line(line: Seq<char>, msg_id: Seq<char>, hostname: Seq<char>)
    -> ClientTransitionView {
    let input = trimmed(line);
    if input.len() == 0 {
        asking(None)
    } else {
        match planned(command_of(input), argument_of(input), hostname) {
            Err(error) => giving_up(ClientErrorKind::CommandError, command_failure(error)),
            Ok(ClientPlanView::Send(payload)) => requesting(msg_id, payload),
            Ok(ClientPlanView::SendFile(path)) => ClientTransitionView {
                state: ClientStateView::ReadingFile(path, false),
                action: ClientActionView::ReadFile(path),
                show: None,
                error: None,
            },
            Ok(ClientPlanView::SendImage(path)) => ClientTransitionView {
                state: ClientStateView::ReadingFile(path, true),
                action: ClientActionView::ReadFile(path),
                show: None,
                error: None,
            },
        }
    }
}

/// The step that follows the body of a response: a body that is no response
/// is given up; a response is shown, and the quit response has the
/// connection shut down.
pub open spec fn after_response(body: Seq<u8>) -> ClientTransitionView {
    match response_of_body(body) {
        Err(_) => giving_up(
            ClientErrorKind::ResponseError,
            response_failure(general("Failed to parse response"@)),
        ),
        Ok(response) => if response is Quit {
            ClientTransitionView {
                state: ClientStateView::ShuttingDown,
                action: ClientActionView::Shutdown,
                show: Some(response_line(response)),
                error: None,
            }
        } else {
            asking(Some(response_line(response)))
        },
    }
}

/// What the client does for a state and an event, with `msg_id` for the
/// request that the step may send, on the host named `hostname`.
///
/// An event that the state did not ask for ends the conversation.
pub open spec fn client_stepped(
    state: ClientStateView,
    event: ClientEventView,
    msg_id: Seq<char>,
    hostname: Seq<char>,
) -> ClientTransitionView {
    match (state, event) {
        (ClientStateView::AwaitingInput, ClientEventView::Line(line)) => after_line(
            line,
            msg_id,
            hostname,
        ),
        (ClientStateView::AwaitingInput, ClientEventView::InputFailed) => giving_up(
            ClientErrorKind::InputError,
            "Error reading input"@,
        ),
        (ClientStateView::ReadingFile(path, image), ClientEventView::FileRead(bytes)) => if bytes.len()
            > max_encodable() {
            giving_up(ClientErrorKind::CommandError, command_failure(general("File is too large"@)))
        } else {
            requesting(
                msg_id,
                if image {
                    PayloadView::Image { filename: path, content: base64_text(bytes) }
                } else {
                    PayloadView::File { filename: path, content: base64_text(bytes) }
                },
            )
        },
        (ClientStateView::ReadingFile(_, _), ClientEventView::FileFailed(words)) => giving_up(
            ClientErrorKind::CommandError,
            command_failure(general(words)),
        ),
        (ClientStateView::Sending, ClientEventView::Sent) => ClientTransitionView {
            state: ClientStateView::AwaitingLength,
            action: ClientActionView::Read(4),
            show: None,
            error: None,
        },
        (ClientStateView::Sending, ClientEventView::SendFailed) => giving_up(
            ClientErrorKind::StreamWriteError,
            "Error writing to stream"@,
        ),
        (ClientStateView::AwaitingLength, ClientEventView::Read(bytes)) => if bytes.len() == 4 {
            ClientTransitionView {
                state: ClientStateView::AwaitingBody(stated_length(bytes)),
                action: ClientActionView::Read(stated_length(bytes)),
                show: None,
                error: None,
            }
        } else {
            giving_up(
                ClientErrorKind::ResponseError,
                response_failure(general("Failed to read response length"@)),
            )
        },
        (ClientStateView::AwaitingLength, ClientEventView::ReadFailed(words)) => giving_up(
            ClientErrorKind::ResponseError,
            response_failure(general("Failed to read response length: "@ + words)),
        ),
        (ClientStateView::AwaitingBody(n), ClientEventView::Read(bytes)) => if bytes.len() == n {
            after_response(bytes)
        } else {
            giving_up(
                ClientErrorKind::ResponseError,
                response_failure(general("Failed to read response"@)),
            )
        },
        (ClientStateView::AwaitingBody(_), ClientEventView::ReadFailed(words)) => giving_up(
            ClientErrorKind::ResponseError,
            response_failure(general("Failed to read response: "@ + words)),
        ),
        (ClientStateView::ShuttingDown, ClientEventView::ShutDown) => finishing(None),
        (ClientStateView::ShuttingDown, ClientEventView::ShutdownFailed) => finishing(
            Some(
                ClientErrorView {
                    kind: ClientErrorKind::StreamShutdownError,
                    message: "Error shutting down the connection"@,
                },
            ),
        ),
        _ => finishing(None),
    }
}


/// The first step of a conversation: the user is asked for a line.
pub fn client_start() -> (t: ClientTransition)
    ensures
        t@ == asking(None),
{
    ask(None)
}

/// The step that asks the user for the next line.
fn ask(show: Option<String>) -> (t: ClientTransition)
    ensures
        t@ == asking(text_view(show)),
{
    ClientTransition {
        state: ClientState::AwaitingInput,
        action: ClientAction::ReadLine,
        show,
        error: None,
    }
}

/// The step that gives an exchange up.
fn give_up(error: ClientError) -> (t: ClientTransition)
    ensures
        t@ == giving_up(error@.kind, error@.message),
{
    ClientTransition {
        state: ClientState::AwaitingInput,
        action: ClientAction::ReadLine,
        show: None,
        error: Some(error),
    }
}

/// The step that ends the conversation.
fn finish(error: Option<ClientError>) -> (t: ClientTransition)
    ensures
        t@ == finishing(
            match error {
                Some(e) => Some(e@),
                None => None,
            },
        ),
{
    ClientTransition { state: ClientState::Finished, action: ClientAction::Stop, show: None, error }
}

/// The step that sends a payload under the identifier `msg_id`.
fn request(msg_id: String, payload: Payload) -> (t: ClientTransition)
    ensures
        t@ == requesting(msg_id@, payload@),
{
    let message: ClientServerMessage = request_with_id(msg_id, payload);
    match encode_request(&message) {
        Ok(frame) => ClientTransition {
            state: ClientState::Sending,
            action: ClientAction::Send(frame),
            show: None,
            error: None,
        },
        Err(error) => give_up(error),
    }
}

/// The error for a command that failed.
fn command_failed(error: &ClientError) -> (wrapped: ClientError)
    ensures
        wrapped@.kind == ClientErrorKind::CommandError,
        wrapped@.message == command_failure(error@),
{
    let mut text: String = String::from_str("Error handling command: ");
    text.append(error.to_string().as_str());
    ClientError::CommandError(text)
}

/// The error for a response that could not be had.
fn response_failed(error: &ClientError) -> (wrapped: ClientError)
    ensures
        wrapped@.kind == ClientErrorKind::ResponseError,
        wrapped@.message == response_failure(error@),
{
    let mut text: String = String::from_str("Error receiving response: ");
    text.append(error.to_string().as_str());
    ClientError::ResponseError(text)
}

/// An error of the kind `GeneralIssue` whose message is `words`, or `lead`
/// followed by `words`.
fn general_issue(lead: &str, words: &str) -> (error: ClientError)
    ensures
        error@ == general(lead@ + words@),
{
    let mut text: String = String::from_str(lead);
    text.append(words);
    ClientError::GeneralIssue(text)
}

/// The step that follows a line of input.
fn on_line(line: &str, msg_id: String, hostname: &str) -> (t: ClientTransition)
    ensures
        t@ == after_line(line@, msg_id@, hostname@),
{
    let input: &str = trim_line(line);
    if input.unicode_len() == 0 {
        return ask(None);
    }
    match plan_command(input, hostname) {
        Err(error) => give_up(command_failed(&error)),
        Ok(ClientPlan::Send(payload)) => request(msg_id, payload),
        Ok(ClientPlan::SendFile(path)) => ClientTransition {
            state: ClientState::ReadingFile(path.clone(), false),
            action: ClientAction::ReadFile(path),
            show: None,
            error: None,
        },
        Ok(ClientPlan::SendImage(path)) => ClientTransition {
            state: ClientState::ReadingFile(path.clone(), true),
            action: ClientAction::ReadFile(path),
            show: None,
            error: None,
        },
    }
}

/// The step that follows the body of a response.
fn on_response(body: &[u8]) -> (t: ClientTransition)
    ensures
        t@ == after_response(body@),
{
    match decode_response(body) {
        Err(error) => {
            proof {
                assert(error@ == general("Failed to parse response"@));
            }
            give_up(response_failed(&error))
        },
        Ok(response) => {
            let line: String = response.to_string();
            if response.is_quit() {
                ClientTransition {
                    state: ClientState::ShuttingDown,
                    action: ClientAction::Shutdown,
                    show: Some(line),
                    error: None,
                }
            } else {
                ask(Some(line))
            }
        },
    }
}

/// One step of the client, with `msg_id` for the request that the step may
/// send, on the host named `hostname`.
pub fn client_step_with(state: ClientState, event: ClientEvent, msg_id: String, hostname: &str) -> (t:
    ClientTransition)
    ensures
        t@ == client_stepped(state@, event@, msg_id@, hostname@),
{
    match (state, event) {
        (ClientState::AwaitingInput, ClientEvent::Line(line)) => on_line(
            line.as_str(),
            msg_id,
            hostname,
        ),
        (ClientState::AwaitingInput, ClientEvent::InputFailed) => give_up(
            ClientError::InputError(String::from_str("Error reading input")),
        ),
        (ClientState::ReadingFile(path, image), ClientEvent::FileRead(bytes)) => {
            if bytes.len() > usize::MAX / 4 {
                let inner = ClientError::GeneralIssue(String::from_str("File is too large"));
                give_up(command_failed(&inner))
            } else {
                request(msg_id, file_payload(path.as_str(), bytes.as_slice(), image))
            }
        },
        (ClientState::ReadingFile(_, _), ClientEvent::FileFailed(words)) => {
            let inner = general_issue("", words.as_str());
            proof {
                assert(""@ + words@ =~= words@) by {
                    reveal_strlit("");
                }
            }
            give_up(command_failed(&inner))
        },
        (ClientState::Sending, ClientEvent::Sent) => ClientTransition {
            state: ClientState::AwaitingLength,
            action: ClientAction::Read(4),
            show: None,
            error: None,
        },
        (ClientState::Sending, ClientEvent::SendFailed) => give_up(
            ClientError::StreamWriteError(String::from_str("Error writing to stream")),
        ),
        (ClientState::AwaitingLength, ClientEvent::Read(bytes)) => {
            let stated: Option<usize> = if bytes.len() == 4 {
                body_length(bytes.as_slice())
            } else {
                None
            };
            match stated {
                Some(n) => ClientTransition {
                    state: ClientState::AwaitingBody(n),
                    action: ClientAction::Read(n),
                    show: None,
                    error: None,
                },
                None => {
                    let inner = ClientError::GeneralIssue(
                        String::from_str("Failed to read response length"),
                    );
                    give_up(response_failed(&inner))
                },
            }
        },
        (ClientState::AwaitingLength, ClientEvent::ReadFailed(words)) => {
            let inner = general_issue("Failed to read response length: ", words.as_str());
            give_up(response_failed(&inner))
        },
        (ClientState::AwaitingBody(n), ClientEvent::Read(bytes)) => {
            if bytes.len() == n {
                on_response(bytes.as_slice())
            } else {
                let inner = ClientError::GeneralIssue(String::from_str("Failed to read response"));
                give_up(response_failed(&inner))
            }
        },
        (ClientState::AwaitingBody(_), ClientEvent::ReadFailed(words)) => {
            let inner = general_issue("Failed to read response: ", words.as_str());
            give_up(response_failed(&inner))
        },
        (ClientState::ShuttingDown, ClientEvent::ShutDown) => finish(None),
        (ClientState::ShuttingDown, ClientEvent::ShutdownFailed) => finish(
            Some(
                ClientError::StreamShutdownError(
                    String::from_str("Error shutting down the connection"),
                ),
            ),
        ),
        _ => finish(None),
    }
}

/// One step of the client on this host, with a fresh identifier for the
/// request that the step may send. What it gives is what
/// [`client_step_with`] gives for some identifier and some name of the host.
pub fn client_step(state: ClientState, event: ClientEvent) -> (t: ClientTransition)
    ensures
        exists|msg_id: Seq<char>, hostname: Seq<char>|
            #![trigger client_stepped(state@, event@, msg_id, hostname)]
            is_message_id(msg_id) && t@ == client_stepped(state@, event@, msg_id, hostname),
{
    let hostname: String = match get_hostname() {
        Some(name) => name,
        None => String::from_str("unknown"),
    };
    let msg_id: String = new_message_id();
    client_step_with(state, event, msg_id, hostname.as_str())
}

/// The quit response ends the conversation: once it is read the connection
/// is shut down, and after that the client stops.
pub proof fn lemma_quit_response_ends_conversation(
    body: Seq<u8>,
    response: ResponseView,
    msg_id: Seq<char>,
    hostname: Seq<char>,
)
    requires
        response_of_body(body) == Ok::<ResponseView, crate::wire::BodyError>(response),
        response is Quit,
    ensures
        client_stepped(
            ClientStateView::AwaitingBody(body.len()),
            ClientEventView::Read(body),
            msg_id,
            hostname,
        ).state == ClientStateView::ShuttingDown,
        client_stepped(
            ClientStateView::ShuttingDown,
            ClientEventView::ShutDown,
            msg_id,
            hostname,
        ) == finishing(None),
{
}

/// An error never leaves the client in the middle of an exchange: whatever
/// a step reports, the next thing is the user's next line or the end.
pub proof fn lemma_errors_end_the_exchange(
    state: ClientStateView,
    event: ClientEventView,
    msg_id: Seq<char>,
    hostname: Seq<char>,
)
    ensures
        client_stepped(state, event, msg_id, hostname).error is Some ==> client_stepped(
            state,
            event,
            msg_id,
            hostname,
        ).state == ClientStateView::AwaitingInput || client_stepped(
            state,
            event,
            msg_id,
            hostname,
        ).state == ClientStateView::Finished,
{
}

} // verus!
