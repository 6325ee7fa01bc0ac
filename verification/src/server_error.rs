//! The closed set of failures on the server side, each with a message and an
//! optional chain of causes, and their conversion into an error response.

use crate::message::{ResponseView, ServerClientMessage};
use vstd::prelude::*;
use vstd::string::*;

verus! {

/// What lies behind a failure: the name of the underlying error, its message,
/// and what lies behind it in turn.
#[derive(Debug)]
pub struct Cause {
    pub name: String,
    pub message: String,
    pub source: Option<Box<Cause>>,
}

/// One link of a chain of causes: the name of an error and its message.
pub ghost struct Link {
    pub name: Seq<char>,
    pub message: Seq<char>,
}

/// The chain that starts at a cause: the cause itself, then what lies behind
/// it, the nearest first.
pub open spec fn cause_chain(cause: Cause) -> Seq<Link>
    decreases cause,
{
    seq![Link { name: cause.name@, message: cause.message@ }] + match cause.source {
        Some(inner) => cause_chain(*inner),
        None => Seq::empty(),
    }
}

impl View for Cause {
    type V = Seq<Link>;

    /// The chain of causes, the nearest first. It is never empty.
    open spec fn view(&self) -> Seq<Link> {
        cause_chain(*self)
    }
}

/// A link rendered as its name, a colon and its message.
pub open spec fn link_text(link: Link) -> Seq<char> {
    link.name + ": "@ + link.message
}

/// A chain of causes rendered link by link, joined by `": "`.
pub open spec fn chain_text(chain: Seq<Link>) -> Seq<char>
    decreases chain.len(),
{
    if chain.len() == 0 {
        Seq::empty()
    } else if chain.len() == 1 {
        link_text(chain[0])
    } else {
        link_text(chain[0]) + ": "@ + chain_text(chain.drop_first())
    }
}

impl Cause {
    /// A cause with nothing behind it.
    pub fn new(name: &str, message: &str) -> (cause: Cause)
        ensures
            cause@ == seq![Link { name: name@, message: message@ }],
    {
        let cause = Cause {
            name: String::from_str(name),
            message: String::from_str(message),
            source: None,
        };
        assert(cause@ =~= seq![Link { name: name@, message: message@ }]);
        cause
    }

    /// The chain of a cause holds at least the cause itself.
    pub proof fn lemma_chain_nonempty(&self)
        ensures
            self@.len() >= 1,
            self@[0] == (Link { name: self.name@, message: self.message@ }),
    {
    }
}

impl Clone for Cause {
    fn clone(&self) -> (copy: Self)
        ensures
            copy@ == self@,
        decreases self,
    {
        Cause {
            name: self.name.clone(),
            message: self.message.clone(),
            source: match &self.source {
                Some(inner) => Some(Box::new((**inner).clone())),
                None => None,
            },
        }
    }
}

/// The kinds of failure.
#[derive(Debug, Clone, Copy, PartialEq, Eq, Structural)]
pub enum ErrorKind {
    InvalidEncoding,
    ImageProcessingFailed,
    GeneralIssue,
    MessageProcessingFailed,
    MessageReceiveFailed,
    ResponseSendingFailed,
}

/// A failure on the server side: its kind, a message, and what caused it.
#[derive(Debug)]
pub enum ServerError {
    /// Transported content was not valid base64.
    InvalidEncoding(String, Option<Cause>),
    /// An image could not be decoded or converted.
    ImageProcessingFailed(String, Option<Cause>),
    /// Anything without a kind of its own.
    GeneralIssue(String, Option<Cause>),
    /// A handler failed while executing a command.
    MessageProcessingFailed(String, Option<Cause>),
    /// A frame could not be read.
    MessageReceiveFailed(String, Option<Cause>),
    /// A response could not be written.
    ResponseSendingFailed(String, Option<Cause>),
}

/// The mathematical value of a [`ServerError`].
pub ghost struct ServerErrorView {
    pub kind: ErrorKind,
    pub message: Seq<char>,
    /// The causes, the nearest first; empty where none is attached.
    pub chain: Seq<Link>,
}

/// The chain behind an optional cause.
pub open spec fn chain_of(cause: Option<Cause>) -> Seq<Link> {
    match cause {
        Some(c) => c@,
        None => Seq::empty(),
    }
}

impl View for ServerError {
    type V = ServerErrorView;

    open spec fn view(&self) -> ServerErrorView {
        match self {
            ServerError::InvalidEncoding(message, cause) => ServerErrorView {
                kind: ErrorKind::InvalidEncoding,
                message: message@,
                chain: chain_of(*cause),
            },
            ServerError::ImageProcessingFailed(message, cause) => ServerErrorView {
                kind: ErrorKind::ImageProcessingFailed,
                message: message@,
                chain: chain_of(*cause),
            },
            ServerError::GeneralIssue(message, cause) => ServerErrorView {
                kind: ErrorKind::GeneralIssue,
                message: message@,
                chain: chain_of(*cause),
            },
            ServerError::MessageProcessingFailed(message, cause) => ServerErrorView {
                kind: ErrorKind::MessageProcessingFailed,
                message: message@,
                chain: chain_of(*cause),
            },
            ServerError::MessageReceiveFailed(message, cause) => ServerErrorView {
                kind: ErrorKind::MessageReceiveFailed,
                message: message@,
                chain: chain_of(*cause),
            },
            ServerError::ResponseSendingFailed(message, cause) => ServerErrorView {
                kind: ErrorKind::ResponseSendingFailed,
                message: message@,
                chain: chain_of(*cause),
            },
        }
    }
}

/// The name of a kind, which is the `code` of the error response made from it.
pub open spec fn kind_name(kind: ErrorKind) -> Seq<char> {
    match kind {
        ErrorKind::InvalidEncoding => "InvalidEncoding"@,
        ErrorKind::ImageProcessingFailed => "ImageProcessingFailed"@,
        ErrorKind::GeneralIssue => "GeneralIssue"@,
        ErrorKind::MessageProcessingFailed => "MessageProcessingFailed"@,
        ErrorKind::MessageReceiveFailed => "MessageReceiveFailed"@,
        ErrorKind::ResponseSendingFailed => "ResponseSendingFailed"@,
    }
}

/// The words that open the rendered message of a kind.
pub open spec fn kind_prefix(kind: ErrorKind) -> Seq<char> {
    match kind {
        ErrorKind::InvalidEncoding => "Invalid encoding: "@,
        ErrorKind::ImageProcessingFailed => "Image processing failed: "@,
        ErrorKind::GeneralIssue => "General issue: "@,
        ErrorKind::MessageProcessingFailed => "Message processing failed: "@,
        ErrorKind::MessageReceiveFailed => "Message receive failed: "@,
        ErrorKind::ResponseSendingFailed => "Response sending failed: "@,
    }
}

/// The rendered message of an error: the words of its kind and its message.
pub open spec fn error_text(error: ServerErrorView) -> Seq<char> {
    kind_prefix(error.kind) + error.message
}

/// The identifier that stands in a response to a request that could not be
/// parsed.
pub open spec fn sentinel_id() -> Seq<char> {
    "00000000-0000-0000-0000-000000000000"@
}

/// The error response made from an error: the identifier of the request
/// where it is known, the sentinel where it is not; the name of the kind as
/// the code; the rendered message, without the causes, as the text.
pub open spec fn client_message_of(error: ServerErrorView, msg_id_ref: Option<Seq<char>>)
    -> ResponseView {
    ResponseView::Error {
        msg_id_ref: match msg_id_ref {
            Some(id) => id,
            None => sentinel_id(),
        },
        code: kind_name(error.kind),
        text: Some(error_text(error)),
    }
}

/// The line that the server logs for an error: the name of the kind, the
/// rendered message and, where causes are attached, their chain.
pub open spec fn log_text(error: ServerErrorView) -> Seq<char> {
    if error.chain.len() == 0 {
        kind_name(error.kind) + ": "@ + error_text(error)
    } else {
        kind_name(error.kind) + ": "@ + error_text(error) + ": "@ + chain_text(error.chain)
    }
}

/// The chain of a cause with the error in front of it: the error as a link,
/// named by its kind, followed by its own causes.
pub open spec fn chain_with(error: ServerErrorView) -> Seq<Link> {
    seq![Link { name: kind_name(error.kind), message: error_text(error) }] + error.chain
}

/// Renders a chain of causes: each as its name, a colon and its message,
/// joined by `": "`.
pub fn collect_error_messages(err: &Cause) -> (text: String)
    ensures
        text@ == chain_text(err@),
    decreases err,
{
    let mut text: String = err.name.clone();
    text.append(": ");
    text.append(err.message.as_str());
    let ghost head = Link { name: err.name@, message: err.message@ };
    assert(text@ =~= link_text(head));
    match &err.source {
        Some(inner) => {
            let rest: String = collect_error_messages(&**inner);
            text.append(": ");
            text.append(rest.as_str());
            proof {
                inner.lemma_chain_nonempty();
                assert(err@.drop_first() =~= inner@);
                assert(err@[0] == head);
                assert(text@ =~= chain_text(err@));
            }
        },
        None => {
            proof {
                assert(err@ =~= seq![head]);
            }
        },
    }
    text
}

impl ServerError {
    /// The kind of the error.
    pub fn kind(&self) -> (kind: ErrorKind)
        ensures
            kind == self@.kind,
    {
        match self {
            ServerError::InvalidEncoding(..) => ErrorKind::InvalidEncoding,
            ServerError::ImageProcessingFailed(..) => ErrorKind::ImageProcessingFailed,
            ServerError::GeneralIssue(..) => ErrorKind::GeneralIssue,
            ServerError::MessageProcessingFailed(..) => ErrorKind::MessageProcessingFailed,
            ServerError::MessageReceiveFailed(..) => ErrorKind::MessageReceiveFailed,
            ServerError::ResponseSendingFailed(..) => ErrorKind::ResponseSendingFailed,
        }
    }

    /// The name of the variant, whatever the error holds.
    pub fn variant_name(&self) -> (name: &'static str)
        ensures
            name@ == kind_name(self@.kind),
    {
        match self {
            ServerError::InvalidEncoding(..) => "InvalidEncoding",
            ServerError::ImageProcessingFailed(..) => "ImageProcessingFailed",
            ServerError::GeneralIssue(..) => "GeneralIssue",
            ServerError::MessageProcessingFailed(..) => "MessageProcessingFailed",
            ServerError::MessageReceiveFailed(..) => "MessageReceiveFailed",
            ServerError::ResponseSendingFailed(..) => "ResponseSendingFailed",
        }
    }

    /// The message that the error was made with.
    pub fn message(&self) -> (message: &String)
        ensures
            message@ == self@.message,
    {
        match self {
            ServerError::InvalidEncoding(message, _) => message,
            ServerError::ImageProcessingFailed(message, _) => message,
            ServerError::GeneralIssue(message, _) => message,
            ServerError::MessageProcessingFailed(message, _) => message,
            ServerError::MessageReceiveFailed(message, _) => message,
            ServerError::ResponseSendingFailed(message, _) => message,
        }
    }

    /// The cause attached to the error, if any.
    pub fn source(&self) -> (cause: &Option<Cause>)
        ensures
            chain_of(*cause) == self@.chain,
            cause is Some <==> self@.chain.len() > 0,
    {
        let cause = match self {
            ServerError::InvalidEncoding(_, cause) => cause,
            ServerError::ImageProcessingFailed(_, cause) => cause,
            ServerError::GeneralIssue(_, cause) => cause,
            ServerError::MessageProcessingFailed(_, cause) => cause,
            ServerError::MessageReceiveFailed(_, cause) => cause,
            ServerError::ResponseSendingFailed(_, cause) => cause,
        };
        proof {
            if let Some(c) = cause {
                c.lemma_chain_nonempty();
            }
        }
        cause
    }

    /// The rendered message: the words of the kind, then the message.
    pub fn to_string(&self) -> (text: String)
        ensures
            text@ == error_text(self@),
    {
        let prefix: &'static str = match self {
            ServerError::InvalidEncoding(..) => "Invalid encoding: ",
            ServerError::ImageProcessingFailed(..) => "Image processing failed: ",
            ServerError::GeneralIssue(..) => "General issue: ",
            ServerError::MessageProcessingFailed(..) => "Message processing failed: ",
            ServerError::MessageReceiveFailed(..) => "Message receive failed: ",
            ServerError::ResponseSendingFailed(..) => "Response sending failed: ",
        };
        let mut text: String = String::from_str(prefix);
        text.append(self.message().as_str());
        text
    }

    /// Turns the error into a cause, so that it can stand behind another
    /// error: a link named by its kind, followed by its own causes.
    pub fn into_cause(self) -> (cause: Cause)
        ensures
            cause@ == chain_with(self@),
    {
        let name: String = String::from_str(self.variant_name());
        let message: String = self.to_string();
        let ghost before = self@;
        let inner: Option<Cause> = match self {
            ServerError::InvalidEncoding(_, cause) => cause,
            ServerError::ImageProcessingFailed(_, cause) => cause,
            ServerError::GeneralIssue(_, cause) => cause,
            ServerError::MessageProcessingFailed(_, cause) => cause,
            ServerError::MessageReceiveFailed(_, cause) => cause,
            ServerError::ResponseSendingFailed(_, cause) => cause,
        };
        assert(chain_of(inner) == before.chain);
        let cause = Cause {
            name,
            message,
            source: match inner {
                Some(c) => Some(Box::new(c)),
                None => None,
            },
        };
        assert(cause@ =~= chain_with(before));
        cause
    }

    /// The line for the server's log: the name of the kind, the rendered
    /// message and the chain of causes.
    pub fn log_line(&self) -> (line: String)
        ensures
            line@ == log_text(self@),
    {
        let mut line: String = String::from_str(self.variant_name());
        line.append(": ");
        line.append(self.to_string().as_str());
        match self.source() {
            Some(cause) => {
                line.append(": ");
                line.append(collect_error_messages(cause).as_str());
                assert(line@ =~= log_text(self@));
            },
            None => {
                assert(line@ =~= log_text(self@));
            },
        }
        line
    }

    /// Makes the error response that tells the client of this error. The
    /// causes are kept from the client: they belong in the server's log.
    pub fn to_client_message(&self, msg_id_ref: Option<String>) -> (response: ServerClientMessage)
        ensures
            response@ == client_message_of(self@, crate::message::text_view(msg_id_ref)),
    {
        let msg_id: String = match msg_id_ref {
            Some(id) => id,
            None => String::from_str("00000000-0000-0000-0000-000000000000"),
        };
        ServerClientMessage::Error {
            msg_id_ref: msg_id,
            code: String::from_str(self.variant_name()),
            text: Some(self.to_string()),
        }
    }
}

} // verus!
