//! The failures on the client side.

use vstd::prelude::*;
use vstd::string::*;

verus! {

/// A failure on the client side, with its message.
#[derive(Debug)]
pub enum ClientError {
    CommandError(String),
    InputError(String),
    InvalidParameter(String),
    GeneralIssue(String),
    RequestSerializationFailed(String),
    ResponseError(String),
    StreamShutdownError(String),
    StreamWriteError(String),
}

/// The kinds of failure on the client side.
#[derive(Debug, Clone, Copy, PartialEq, Eq, Structural)]
pub enum ClientErrorKind {
    CommandError,
    InputError,
    InvalidParameter,
    GeneralIssue,
    RequestSerializationFailed,
    ResponseError,
    StreamShutdownError,
    StreamWriteError,
}

/// The mathematical value of a [`ClientError`].
pub ghost struct ClientErrorView {
    pub kind: ClientErrorKind,
    pub message: Seq<char>,
}

impl View for ClientError {
    type V = ClientErrorView;

    open spec fn view(&self) -> ClientErrorView {
        match self {
            ClientError::CommandError(message) => ClientErrorView {
                kind: ClientErrorKind::CommandError,
                message: message@,
            },
            ClientError::InputError(message) => ClientErrorView {
                kind: ClientErrorKind::InputError,
                message: message@,
            },
            ClientError::InvalidParameter(message) => ClientErrorView {
                kind: ClientErrorKind::InvalidParameter,
                message: message@,
            },
            ClientError::GeneralIssue(message) => ClientErrorView {
                kind: ClientErrorKind::GeneralIssue,
                message: message@,
            },
            ClientError::RequestSerializationFailed(message) => ClientErrorView {
                kind: ClientErrorKind::RequestSerializationFailed,
                message: message@,
            },
            ClientError::ResponseError(message) => ClientErrorView {
                kind: ClientErrorKind::ResponseError,
                message: message@,
            },
            ClientError::StreamShutdownError(message) => ClientErrorView {
                kind: ClientErrorKind::StreamShutdownError,
                message: message@,
            },
            ClientError::StreamWriteError(message) => ClientErrorView {
                kind: ClientErrorKind::StreamWriteError,
                message: message@,
            },
        }
    }
}

/// The words that open the rendered message of a kind.
pub open spec fn client_kind_prefix(kind: ClientErrorKind) -> Seq<char> {
    match kind {
        ClientErrorKind::CommandError => "Command error: "@,
        ClientErrorKind::InputError => "Input error: "@,
        ClientErrorKind::InvalidParameter => "Invalid parameter: "@,
        ClientErrorKind::GeneralIssue => "General issue: "@,
        ClientErrorKind::RequestSerializationFailed => "Request serialization failed: "@,
        ClientErrorKind::ResponseError => "Response error: "@,
        ClientErrorKind::StreamShutdownError => "Stream shutdown error: "@,
        ClientErrorKind::StreamWriteError => "Stream write error: "@,
    }
}

/// The rendered message of an error: the words of its kind and its message.
pub open spec fn client_error_text(error: ClientErrorView) -> Seq<char> {
    client_kind_prefix(error.kind) + error.message
}

impl ClientError {
    /// The message that the error was made with.
    pub fn message(&self) -> (message: &String)
        ensures
            message@ == self@.message,
    {
        match self {
            ClientError::CommandError(message) => message,
            ClientError::InputError(message) => message,
            ClientError::InvalidParameter(message) => message,
            ClientError::GeneralIssue(message) => message,
            ClientError::RequestSerializationFailed(message) => message,
            ClientError::ResponseError(message) => message,
            ClientError::StreamShutdownError(message) => message,
            ClientError::StreamWriteError(message) => message,
        }
    }

    /// The rendered message: the words of the kind, then the message.
    pub fn to_string(&self) -> (text: String)
        ensures
            text@ == client_error_text(self@),
    {
        let prefix: &'static str = match self {
            ClientError::CommandError(_) => "Command error: ",
            ClientError::InputError(_) => "Input error: ",
            ClientError::InvalidParameter(_) => "Invalid parameter: ",
            ClientError::GeneralIssue(_) => "General issue: ",
            ClientError::RequestSerializationFailed(_) => "Request serialization failed: ",
            ClientError::ResponseError(_) => "Response error: ",
            ClientError::StreamShutdownError(_) => "Stream shutdown error: ",
            ClientError::StreamWriteError(_) => "Stream write error: ",
        };
        let mut text: String = String::from_str(prefix);
        text.append(self.message().as_str());
        text
    }

    /// Whether the error says that the connection was shut down, after which
    /// the client stops.
    pub fn ends_session(&self) -> (ends: bool)
        ensures
            ends == (self@.kind == ClientErrorKind::StreamShutdownError),
    {
        match self {
            ClientError::StreamShutdownError(_) => true,
            _ => false,
        }
    }
}

} // verus!
