//! The command dispatcher of the server: a fixed table of commands, one
//! handler for each, and the lookup of a request's handler by the name of
//! its payload.

use crate::config::Config;
use crate::file::{store_file_at, store_result, PostProcessor, StoredFile};
use crate::message::{
    payload_name, ClientServerMessage, Payload, PayloadView, RequestView, ResponseView,
    ServerClientMessage,
};
use crate::server_error::{ErrorKind, ServerError, ServerErrorView};
use crate::text::text_eq;
use crate::util::{is_timestamp, utc_timestamp};
use vstd::prelude::*;
use vstd::string::*;

verus! {

/// What a handler gives: the response for the client, a file to write before
/// the response is sent, and a line for the server's log.
#[derive(Debug)]
pub struct Reply {
    pub response: ServerClientMessage,
    pub write: Option<(String, Vec<u8>)>,
    pub log: Option<String>,
}

/// The mathematical value of a [`Reply`].
pub ghost struct ReplyView {
    pub response: ResponseView,
    pub write: Option<(Seq<char>, Seq<u8>)>,
    pub log: Option<Seq<char>>,
}

impl View for Reply {
    type V = ReplyView;

    open spec fn view(&self) -> ReplyView {
        ReplyView {
            response: self.response@,
            write: match self.write {
                Some((path, content)) => Some((path@, content@)),
                None => None,
            },
            log: crate::message::text_view(self.log),
        }
    }
}

/// The commands of the server, each with its description, in the order of
/// their names.
pub open spec fn commands() -> Seq<(Seq<char>, Seq<char>)> {
    seq![
        ("File"@, "Stores a generic file"@),
        ("Help"@, "Lists all commands"@),
        ("Image"@, "Stores an image file"@),
        ("Info"@, "Logs an info text on server side"@),
        ("Msg"@, "Sends a message"@),
        ("Quit"@, "Finalizes the communication, closes the stream"@),
    ]
}

/// Whether `name` is the name of a command.
pub open spec fn is_command(name: Seq<char>) -> bool {
    exists|i: int| 0 <= i < commands().len() && (#[trigger] commands()[i]).0 == name
}

/// One line for each of the rows: a line break, two spaces, the name, a
/// colon and the description.
pub open spec fn listing(rows: Seq<(Seq<char>, Seq<char>)>) -> Seq<char>
    decreases rows.len(),
{
    if rows.len() == 0 {
        Seq::empty()
    } else {
        listing(rows.drop_last()) + "\n  "@ + rows.last().0 + ": "@ + rows.last().1
    }
}

/// The text of the help command: a heading and the listing of all commands.
pub open spec fn help_text() -> Seq<char> {
    "Available commands:"@ + listing(commands())
}

/// The names of the rows, each in double quotes, separated by a comma and a
/// space.
pub open spec fn quoted_names(rows: Seq<(Seq<char>, Seq<char>)>) -> Seq<char>
    decreases rows.len(),
{
    if rows.len() == 0 {
        Seq::empty()
    } else if rows.len() == 1 {
        "\""@ + rows[0].0 + "\""@
    } else {
        quoted_names(rows.drop_last()) + ", "@ + "\""@ + rows.last().0 + "\""@
    }
}

/// The message of the error for a name that is not a command: the name, and
/// the names that are.
pub open spec fn invalid_command_text(name: Seq<char>) -> Seq<char> {
    "Invalid command "@ + name + ", valid are: ["@ + quoted_names(commands()) + "]"@
}

/// The table of commands.
pub fn command_table() -> (rows: Vec<(&'static str, &'static str)>)
    ensures
        rows@.len() == commands().len(),
        forall|i: int|
            0 <= i < rows@.len() ==> (#[trigger] rows@[i]).0@ == commands()[i].0 && rows@[i].1@
                == commands()[i].1,
{
    let mut rows: Vec<(&'static str, &'static str)> = Vec::new();
    rows.push(("File", "Stores a generic file"));
    rows.push(("Help", "Lists all commands"));
    rows.push(("Image", "Stores an image file"));
    rows.push(("Info", "Logs an info text on server side"));
    rows.push(("Msg", "Sends a message"));
    rows.push(("Quit", "Finalizes the communication, closes the stream"));
    rows
}

/// The text of the help command.
pub fn render_help() -> (text: String)
    ensures
        text@ == help_text(),
{
    let rows = command_table();
    let mut text: String = String::from_str("Available commands:");
    let mut i: usize = 0;
    assert(commands().subrange(0, 0) =~= Seq::empty());
    while i < rows.len()
        invariant
            i <= rows@.len(),
            rows@.len() == commands().len(),
            forall|k: int|
                0 <= k < rows@.len() ==> (#[trigger] rows@[k]).0@ == commands()[k].0 && rows@[k].1@
                    == commands()[k].1,
            text@ == "Available commands:"@ + listing(commands().subrange(0, i as int)),
        decreases rows.len() - i,
    {
        let ghost before = commands().subrange(0, i as int);
        let ghost after = commands().subrange(0, i + 1);
        text.append("\n  ");
        text.append(rows[i].0);
        text.append(": ");
        text.append(rows[i].1);
        proof {
            assert(after.drop_last() =~= before);
            assert(after.last() == commands()[i as int]);
            assert(text@ =~= "Available commands:"@ + listing(after));
        }
        i = i + 1;
    }
    assert(commands().subrange(0, commands().len() as int) =~= commands());
    text
}

/// The names of all commands, each in double quotes.
fn render_quoted_names() -> (text: String)
    ensures
        text@ == quoted_names(commands()),
{
    let rows = command_table();
    let mut text: String = String::new();
    let mut i: usize = 0;
    assert(commands().subrange(0, 0) =~= Seq::empty());
    while i < rows.len()
        invariant
            i <= rows@.len(),
            rows@.len() == commands().len(),
            forall|k: int|
                0 <= k < rows@.len() ==> (#[trigger] rows@[k]).0@ == commands()[k].0 && rows@[k].1@
                    == commands()[k].1,
            text@ == quoted_names(commands().subrange(0, i as int)),
        decreases rows.len() - i,
    {
        let ghost before = commands().subrange(0, i as int);
        let ghost after = commands().subrange(0, i + 1);
        if i > 0 {
            text.append(", ");
        }
        text.append("\"");
        text.append(rows[i].0);
        text.append("\"");
        proof {
            assert(after.drop_last() =~= before);
            assert(after.last() == commands()[i as int]);
            assert(after[0] == commands()[0]);
            assert(text@ =~= quoted_names(after));
        }
        i = i + 1;
    }
    assert(commands().subrange(0, commands().len() as int) =~= commands());
    text
}


/// The view of what a handler returns.
pub open spec fn reply_result(r: Result<Reply, ServerError>) -> Result<ReplyView, ServerErrorView> {
    match r {
        Ok(reply) => Ok(reply@),
        Err(error) => Err(error@),
    }
}

/// A reply that only answers: nothing to write, nothing to log.
pub open spec fn plain_reply(response: ResponseView) -> ReplyView {
    ReplyView { response, write: None, log: None }
}

/// The error of a handler that was given a request for another handler.
pub open spec fn wrong_payload(request: RequestView) -> ServerErrorView {
    ServerErrorView {
        kind: ErrorKind::GeneralIssue,
        message: "Invalid message type: "@ + match request.payload {
            Some(payload) => payload_name(payload),
            None => "none"@,
        },
        chain: Seq::empty(),
    }
}

/// The error for a request without payload.
pub open spec fn no_payload() -> ServerErrorView {
    ServerErrorView {
        kind: ErrorKind::GeneralIssue,
        message: "No payload found in message"@,
        chain: Seq::empty(),
    }
}

/// The error for a name that is not a command.
pub open spec fn invalid_command(name: Seq<char>) -> ServerErrorView {
    ServerErrorView {
        kind: ErrorKind::GeneralIssue,
        message: invalid_command_text(name),
        chain: Seq::empty(),
    }
}

/// What the help command gives: the listing of all commands.
pub open spec fn help_reply(request: RequestView) -> Result<ReplyView, ServerErrorView> {
    Ok(
        plain_reply(
            ResponseView::Okay { msg_id_ref: request.msg_id, text: Some(help_text()) },
        ),
    )
}

/// What the info command gives: the text echoed to the client, and a line
/// for the log that names the client's host.
pub open spec fn info_reply(request: RequestView) -> Result<ReplyView, ServerErrorView> {
    match request.payload {
        Some(PayloadView::Info { info, hostname }) => Ok(
            ReplyView {
                response: ResponseView::Okay {
                    msg_id_ref: request.msg_id,
                    text: Some("Info received: "@ + info),
                },
                write: None,
                log: Some(
                    "Information received from client on hostname "@ + hostname + ": "@ + info,
                ),
            },
        ),
        _ => Err(wrong_payload(request)),
    }
}

/// What the message command gives: the text echoed to the client, and a
/// line for the log.
pub open spec fn msg_reply(request: RequestView) -> Result<ReplyView, ServerErrorView> {
    match request.payload {
        Some(PayloadView::Msg { text }) => Ok(
            ReplyView {
                response: ResponseView::Okay {
                    msg_id_ref: request.msg_id,
                    text: Some("Message received: "@ + text),
                },
                write: None,
                log: Some("Message received from client: "@ + text),
            },
        ),
        _ => Err(wrong_payload(request)),
    }
}

/// What the quit command gives: the response that ends the session.
pub open spec fn quit_reply(request: RequestView) -> Result<ReplyView, ServerErrorView> {
    Ok(
        plain_reply(
            ResponseView::Quit { msg_id_ref: request.msg_id, text: Some("Hasta la vista"@) },
        ),
    )
}

/// What a storing command gives once the pipeline has run: on success the
/// pipeline's text for the client and for the log, and the file to write;
/// on failure the pipeline's error.
pub open spec fn stored_reply(msg_id: Seq<char>, stored: Result<StoredFile, ServerError>) -> Result<
    ReplyView,
    ServerErrorView,
> {
    match stored {
        Ok(file) => Ok(
            ReplyView {
                response: ResponseView::Okay { msg_id_ref: msg_id, text: Some(file@.text) },
                write: Some((file@.path, file@.content)),
                log: Some(file@.text),
            },
        ),
        Err(error) => Err(error@),
    }
}

/// What a storing command owes for content received under a name: the
/// reply for what the pipeline gives.
pub open spec fn store_handled(
    r: Result<Reply, ServerError>,
    msg_id: Seq<char>,
    filename: Seq<char>,
    directory: Seq<char>,
    content: Seq<char>,
    timestamp: Seq<char>,
    post_processor: Option<PostProcessor>,
) -> bool {
    exists|stored: Result<StoredFile, ServerError>|
        #![trigger store_result(stored, filename, directory, content, timestamp, post_processor)]
        store_result(stored, filename, directory, content, timestamp, post_processor)
            && reply_result(r) == stored_reply(msg_id, stored)
}

/// What the file command owes: the reply for what the pipeline gives without
/// post-processing, in the directory for files.
pub open spec fn file_handled(
    r: Result<Reply, ServerError>,
    request: RequestView,
    directory: Seq<char>,
    timestamp: Seq<char>,
) -> bool {
    match request.payload {
        Some(PayloadView::File { filename, content }) => store_handled(
            r,
            request.msg_id,
            filename,
            directory,
            content,
            timestamp,
            None,
        ),
        _ => reply_result(r) == Err::<ReplyView, ServerErrorView>(wrong_payload(request)),
    }
}

/// What the image command owes: the reply for what the pipeline gives with
/// the image post-processor, in the directory for images.
pub open spec fn image_handled(
    r: Result<Reply, ServerError>,
    request: RequestView,
    directory: Seq<char>,
    timestamp: Seq<char>,
) -> bool {
    match request.payload {
        Some(PayloadView::Image { filename, content }) => store_handled(
            r,
            request.msg_id,
            filename,
            directory,
            content,
            timestamp,
            Some(PostProcessor::Image),
        ),
        _ => reply_result(r) == Err::<ReplyView, ServerErrorView>(wrong_payload(request)),
    }
}

/// The error of a handler that was given a request for another handler.
fn wrong_payload_error(message: &ClientServerMessage) -> (error: ServerError)
    ensures
        error@ == wrong_payload(message@),
{
    let mut text: String = String::from_str("Invalid message type: ");
    match &message.payload {
        Some(payload) => text.append(payload.variant_name()),
        None => text.append("none"),
    }
    ServerError::GeneralIssue(text, None)
}

/// Handles the help command: lists all commands.
pub fn help(message: &ClientServerMessage, _config: &Config) -> (r: Result<Reply, ServerError>)
    ensures
        reply_result(r) == help_reply(message@),
{
    Ok(
        Reply {
            response: ServerClientMessage::Okay {
                msg_id_ref: message.msg_id.clone(),
                text: Some(render_help()),
            },
            write: None,
            log: None,
        },
    )
}

/// Handles the info command: echoes the text, and notes it for the log with
/// the name of the client's host.
pub fn info(message: &ClientServerMessage, _config: &Config) -> (r: Result<Reply, ServerError>)
    ensures
        reply_result(r) == info_reply(message@),
{
    match &message.payload {
        Some(Payload::Info { info, hostname }) => {
            let mut line: String = String::from_str(
                "Information received from client on hostname ",
            );
            line.append(hostname.as_str());
            line.append(": ");
            line.append(info.as_str());
            let mut text: String = String::from_str("Info received: ");
            text.append(info.as_str());
            Ok(
                Reply {
                    response: ServerClientMessage::Okay {
                        msg_id_ref: message.msg_id.clone(),
                        text: Some(text),
                    },
                    write: None,
                    log: Some(line),
                },
            )
        },
        _ => Err(wrong_payload_error(message)),
    }
}

/// Handles the message command: echoes the text, and notes it for the log.
pub fn msg(message: &ClientServerMessage, _config: &Config) -> (r: Result<Reply, ServerError>)
    ensures
        reply_result(r) == msg_reply(message@),
{
    match &message.payload {
        Some(Payload::Msg { text }) => {
            let mut line: String = String::from_str("Message received from client: ");
            line.append(text.as_str());
            let mut echo: String = String::from_str("Message received: ");
            echo.append(text.as_str());
            Ok(
                Reply {
                    response: ServerClientMessage::Okay {
                        msg_id_ref: message.msg_id.clone(),
                        text: Some(echo),
                    },
                    write: None,
                    log: Some(line),
                },
            )
        },
        _ => Err(wrong_payload_error(message)),
    }
}

/// Handles the quit command: says farewell. The response is a signal to end
/// the session, not a failure.
pub fn quit(message: &ClientServerMessage, _config: &Config) -> (r: Result<Reply, ServerError>)
    ensures
        reply_result(r) == quit_reply(message@),
{
    Ok(
        Reply {
            response: ServerClientMessage::Quit {
                msg_id_ref: message.msg_id.clone(),
                text: Some(String::from_str("Hasta la vista")),
            },
            write: None,
            log: None,
        },
    )
}

/// Makes the reply of a storing command from what the pipeline gave.
pub fn reply_stored(msg_id: &String, stored: Result<StoredFile, ServerError>) -> (r: Result<
    Reply,
    ServerError,
>)
    ensures
        reply_result(r) == stored_reply(msg_id@, stored),
{
    match stored {
        Ok(file) => {
            let text: String = file.text.clone();
            Ok(
                Reply {
                    response: ServerClientMessage::Okay {
                        msg_id_ref: msg_id.clone(),
                        text: Some(text),
                    },
                    write: Some((file.path, file.content)),
                    log: Some(file.text),
                },
            )
        },
        Err(error) => Err(error),
    }
}

/// Runs the pipeline and makes the reply from what it gives.
fn store_and_reply(
    msg_id: &String,
    filename: &str,
    directory: &str,
    content: &str,
    timestamp: &str,
    post_processor: Option<PostProcessor>,
) -> (r: Result<Reply, ServerError>)
    ensures
        store_handled(r, msg_id@, filename@, directory@, content@, timestamp@, post_processor),
{
    let stored = store_file_at(filename, directory, content, timestamp, post_processor);
    let ghost witness = stored;
    let r = reply_stored(msg_id, stored);
    proof {
        assert(store_result(witness, filename@, directory@, content@, timestamp@, post_processor)
            && reply_result(r) == stored_reply(msg_id@, witness));
    }
    r
}

/// Handles the file command for content received at the time `timestamp`.
pub fn file(message: &ClientServerMessage, config: &Config, timestamp: &str) -> (r: Result<
    Reply,
    ServerError,
>)
    ensures
        file_handled(r, message@, config.file_dir@, timestamp@),
{
    match &message.payload {
        Some(Payload::File { filename, content }) => store_and_reply(
            &message.msg_id,
            filename.as_str(),
            config.file_dir.as_str(),
            content.as_str(),
            timestamp,
            None,
        ),
        _ => Err(wrong_payload_error(message)),
    }
}

/// Handles the image command for content received at the time `timestamp`.
pub fn image(message: &ClientServerMessage, config: &Config, timestamp: &str) -> (r: Result<
    Reply,
    ServerError,
>)
    ensures
        image_handled(r, message@, config.image_dir@, timestamp@),
{
    match &message.payload {
        Some(Payload::Image { filename, content }) => store_and_reply(
            &message.msg_id,
            filename.as_str(),
            config.image_dir.as_str(),
            content.as_str(),
            timestamp,
            Some(PostProcessor::Image),
        ),
        _ => Err(wrong_payload_error(message)),
    }
}

/// What the command named `name` owes for a request: what its handler
/// gives, or the error that says that there is no such command.
pub open spec fn dispatched(
    r: Result<Reply, ServerError>,
    name: Seq<char>,
    request: RequestView,
    file_dir: Seq<char>,
    image_dir: Seq<char>,
    timestamp: Seq<char>,
) -> bool {
    if name == "Help"@ {
        reply_result(r) == help_reply(request)
    } else if name == "Info"@ {
        reply_result(r) == info_reply(request)
    } else if name == "Msg"@ {
        reply_result(r) == msg_reply(request)
    } else if name == "File"@ {
        file_handled(r, request, file_dir, timestamp)
    } else if name == "Image"@ {
        image_handled(r, request, image_dir, timestamp)
    } else if name == "Quit"@ {
        reply_result(r) == quit_reply(request)
    } else {
        reply_result(r) == Err::<ReplyView, ServerErrorView>(invalid_command(name))
    }
}

/// Looks up the command named `name` and runs its handler on the request.
pub fn dispatch_by_name(
    name: &str,
    message: &ClientServerMessage,
    config: &Config,
    timestamp: &str,
) -> (r: Result<Reply, ServerError>)
    ensures
        dispatched(r, name@, message@, config.file_dir@, config.image_dir@, timestamp@),
{
    if text_eq(name, "Help") {
        help(message, config)
    } else if text_eq(name, "Info") {
        info(message, config)
    } else if text_eq(name, "Msg") {
        msg(message, config)
    } else if text_eq(name, "File") {
        file(message, config, timestamp)
    } else if text_eq(name, "Image") {
        image(message, config, timestamp)
    } else if text_eq(name, "Quit") {
        quit(message, config)
    } else {
        let mut text: String = String::from_str("Invalid command ");
        text.append(name);
        text.append(", valid are: [");
        text.append(render_quoted_names().as_str());
        text.append("]");
        Err(ServerError::GeneralIssue(text, None))
    }
}

/// What the dispatcher owes for a request: without payload an error, else
/// what the command named like the payload's variant gives.
pub open spec fn handled(
    r: Result<Reply, ServerError>,
    request: RequestView,
    file_dir: Seq<char>,
    image_dir: Seq<char>,
    timestamp: Seq<char>,
) -> bool {
    match request.payload {
        None => reply_result(r) == Err::<ReplyView, ServerErrorView>(no_payload()),
        Some(payload) => dispatched(
            r,
            payload_name(payload),
            request,
            file_dir,
            image_dir,
            timestamp,
        ),
    }
}

/// Dispatches a request that was received at the time `timestamp`.
pub fn handle_command_at(message: &ClientServerMessage, config: &Config, timestamp: &str) -> (r:
    Result<Reply, ServerError>)
    ensures
        handled(r, message@, config.file_dir@, config.image_dir@, timestamp@),
{
    match &message.payload {
        Some(payload) => dispatch_by_name(payload.variant_name(), message, config, timestamp),
        None => Err(
            ServerError::GeneralIssue(String::from_str("No payload found in message"), None),
        ),
    }
}

/// Dispatches a request that is received now. What it gives is what
/// [`handle_command_at`] gives for the time of the call.
pub fn handle_command(message: &ClientServerMessage, config: &Config) -> (r: Result<
    Reply,
    ServerError,
>)
    ensures
        exists|timestamp: Seq<char>|
            #![trigger handled(r, message@, config.file_dir@, config.image_dir@, timestamp)]
            is_timestamp(timestamp) && handled(
                r,
                message@,
                config.file_dir@,
                config.image_dir@,
                timestamp,
            ),
{
    let timestamp: String = utc_timestamp();
    handle_command_at(message, config, timestamp.as_str())
}

/// Every response of the dispatcher refers to the request that it answers.
pub proof fn lemma_reply_echoes_id(
    r: Result<Reply, ServerError>,
    request: RequestView,
    file_dir: Seq<char>,
    image_dir: Seq<char>,
    timestamp: Seq<char>,
)
    requires
        handled(r, request, file_dir, image_dir, timestamp),
        r is Ok,
    ensures
        crate::message::response_id(r->Ok_0@.response) == request.msg_id,
{
}

/// Every payload is handled by the command that is named like its variant:
/// the dispatcher never finds a request's command missing.
pub proof fn lemma_every_payload_has_a_command(payload: PayloadView)
    ensures
        is_command(payload_name(payload)),
{
    match payload {
        PayloadView::File { .. } => {
            assert(commands()[0].0 == "File"@);
        },
        PayloadView::Help => {
            assert(commands()[1].0 == "Help"@);
        },
        PayloadView::Image { .. } => {
            assert(commands()[2].0 == "Image"@);
        },
        PayloadView::Info { .. } => {
            assert(commands()[3].0 == "Info"@);
        },
        PayloadView::Msg { .. } => {
            assert(commands()[4].0 == "Msg"@);
        },
        PayloadView::Quit => {
            assert(commands()[5].0 == "Quit"@);
        },
    }
}

/// A request with the quit payload gets the response that ends the session,
/// whatever else the request holds.
pub proof fn lemma_quit_is_answered_with_quit(
    r: Result<Reply, ServerError>,
    request: RequestView,
    file_dir: Seq<char>,
    image_dir: Seq<char>,
    timestamp: Seq<char>,
)
    requires
        handled(r, request, file_dir, image_dir, timestamp),
        request.payload == Some(PayloadView::Quit),
    ensures
        reply_result(r) == quit_reply(request),
{
    crate::schema::lemma_names_differ();
}


/// Whether `a` comes before `b` in the order of a dictionary.
pub open spec fn precedes(a: Seq<char>, b: Seq<char>) -> bool
    decreases a.len(),
{
    if a.len() == 0 {
        b.len() > 0
    } else if b.len() == 0 {
        false
    } else if a[0] != b[0] {
        (a[0] as int) < (b[0] as int)
    } else {
        precedes(a.drop_first(), b.drop_first())
    }
}

/// The commands are listed in the order of their names.
pub proof fn lemma_commands_sorted()
    ensures
        forall|i: int|
            0 <= i < commands().len() - 1 ==> precedes(
                (#[trigger] commands()[i]).0,
                commands()[i + 1].0,
            ),
{
    reveal_strlit("File");
    reveal_strlit("Help");
    reveal_strlit("Image");
    reveal_strlit("Info");
    reveal_strlit("Msg");
    reveal_strlit("Quit");
    reveal_with_fuel(precedes, 3);
    assert(precedes("File"@, "Help"@));
    assert(precedes("Help"@, "Image"@));
    assert(precedes("Image"@, "Info"@)) by {
        assert("Image"@.drop_first()[0] == 'm');
        assert("Info"@.drop_first()[0] == 'n');
    }
    assert(precedes("Info"@, "Msg"@));
    assert(precedes("Msg"@, "Quit"@));
}

} // verus!
