//! The message model: requests sent by a client, responses sent by the
//! server, and the name of each variant.

use vstd::prelude::*;
use vstd::string::*;

verus! {

/// The content of a request: one of a closed set of commands, each with
/// exactly the fields its handler needs.
#[derive(Debug)]
pub enum Payload {
    Help {  },
    Info { info: String, hostname: String },
    Msg { text: String },
    File { filename: String, content: String },
    Image { filename: String, content: String },
    Quit {  },
}

/// The mathematical value of a [`Payload`].
pub ghost enum PayloadView {
    Help,
    Info { info: Seq<char>, hostname: Seq<char> },
    Msg { text: Seq<char> },
    File { filename: Seq<char>, content: Seq<char> },
    Image { filename: Seq<char>, content: Seq<char> },
    Quit,
}

impl View for Payload {
    type V = PayloadView;

    open spec fn view(&self) -> PayloadView {
        match self {
            Payload::Help {  } => PayloadView::Help,
            Payload::Info { info, hostname } => PayloadView::Info {
                info: info@,
                hostname: hostname@,
            },
            Payload::Msg { text } => PayloadView::Msg { text: text@ },
            Payload::File { filename, content } => PayloadView::File {
                filename: filename@,
                content: content@,
            },
            Payload::Image { filename, content } => PayloadView::Image {
                filename: filename@,
                content: content@,
            },
            Payload::Quit {  } => PayloadView::Quit,
        }
    }
}

/// The name of a payload's variant.
pub open spec fn payload_name(payload: PayloadView) -> Seq<char> {
    match payload {
        PayloadView::Help => "Help"@,
        PayloadView::Info { .. } => "Info"@,
        PayloadView::Msg { .. } => "Msg"@,
        PayloadView::File { .. } => "File"@,
        PayloadView::Image { .. } => "Image"@,
        PayloadView::Quit => "Quit"@,
    }
}

/// The string that a payload holds under a name: the field of that name,
/// where the variant has one; under `type`, the name of the variant; and
/// nothing under any other name.
pub open spec fn payload_field(payload: PayloadView, key: Seq<char>) -> Option<Seq<char>> {
    if key == "type"@ {
        Some(payload_name(payload))
    } else {
        match payload {
            PayloadView::Help => None,
            PayloadView::Info { info, hostname } => if key == "info"@ {
                Some(info)
            } else if key == "hostname"@ {
                Some(hostname)
            } else {
                None
            },
            PayloadView::Msg { text } => if key == "text"@ {
                Some(text)
            } else {
                None
            },
            PayloadView::File { filename, content } => if key == "filename"@ {
                Some(filename)
            } else if key == "content"@ {
                Some(content)
            } else {
                None
            },
            PayloadView::Image { filename, content } => if key == "filename"@ {
                Some(filename)
            } else if key == "content"@ {
                Some(content)
            } else {
                None
            },
            PayloadView::Quit => None,
        }
    }
}

/// The field that stands first in a variant with two fields, or the second,
/// or none, by the name asked for.
fn one_of_two(key: &str, first_name: &str, first: &String, second_name: &str, second: &String) -> (value:
    Option<String>)
    ensures
        text_view(value) == if key@ == first_name@ {
            Some(first@)
        } else if key@ == second_name@ {
            Some(second@)
        } else {
            None
        },
{
    if crate::text::text_eq(key, first_name) {
        Some(first.clone())
    } else if crate::text::text_eq(key, second_name) {
        Some(second.clone())
    } else {
        None
    }
}

impl Payload {
    /// The name of the variant, whatever its fields hold.
    pub fn variant_name(&self) -> (name: &'static str)
        ensures
            name@ == payload_name(self@),
    {
        match self {
            Payload::Help {  } => "Help",
            Payload::Info { .. } => "Info",
            Payload::Msg { .. } => "Msg",
            Payload::File { .. } => "File",
            Payload::Image { .. } => "Image",
            Payload::Quit {  } => "Quit",
        }
    }

    /// Projects a named field of the payload to a string; `type` gives the
    /// name of the variant. A name that the variant has no field of gives
    /// nothing: that is an absence, not an error.
    pub fn get(&self, key: &str) -> (value: Option<String>)
        ensures
            text_view(value) == payload_field(self@, key@),
    {
        if crate::text::text_eq(key, "type") {
            return Some(String::from_str(self.variant_name()));
        }
        match self {
            Payload::Help {  } => None,
            Payload::Info { info, hostname } => one_of_two(key, "info", info, "hostname", hostname),
            Payload::Msg { text } => {
                if crate::text::text_eq(key, "text") {
                    Some(text.clone())
                } else {
                    None
                }
            },
            Payload::File { filename, content } => one_of_two(
                key,
                "filename",
                filename,
                "content",
                content,
            ),
            Payload::Image { filename, content } => one_of_two(
                key,
                "filename",
                filename,
                "content",
                content,
            ),
            Payload::Quit {  } => None,
        }
    }
}

impl Clone for Payload {
    fn clone(&self) -> (copy: Self)
        ensures
            copy@ == self@,
    {
        match self {
            Payload::Help {  } => Payload::Help {  },
            Payload::Info { info, hostname } => Payload::Info {
                info: info.clone(),
                hostname: hostname.clone(),
            },
            Payload::Msg { text } => Payload::Msg { text: text.clone() },
            Payload::File { filename, content } => Payload::File {
                filename: filename.clone(),
                content: content.clone(),
            },
            Payload::Image { filename, content } => Payload::Image {
                filename: filename.clone(),
                content: content.clone(),
            },
            Payload::Quit {  } => Payload::Quit {  },
        }
    }
}

/// A message from the client to the server: an identifier that the server
/// echoes in its response, and the command.
#[derive(Debug)]
pub struct ClientServerMessage {
    pub msg_id: String,
    pub payload: Option<Payload>,
}

/// The mathematical value of a [`ClientServerMessage`].
pub ghost struct RequestView {
    pub msg_id: Seq<char>,
    pub payload: Option<PayloadView>,
}

impl View for ClientServerMessage {
    type V = RequestView;

    open spec fn view(&self) -> RequestView {
        RequestView {
            msg_id: self.msg_id@,
            payload: match self.payload {
                Some(payload) => Some(payload@),
                None => None,
            },
        }
    }
}

impl Clone for ClientServerMessage {
    fn clone(&self) -> (copy: Self)
        ensures
            copy@ == self@,
    {
        ClientServerMessage {
            msg_id: self.msg_id.clone(),
            payload: match &self.payload {
                Some(payload) => Some(payload.clone()),
                None => None,
            },
        }
    }
}

/// A message from the server to the client.
#[derive(Debug)]
pub enum ServerClientMessage {
    Okay { msg_id_ref: String, text: Option<String> },
    Error { msg_id_ref: String, code: String, text: Option<String> },
    Quit { msg_id_ref: String, text: Option<String> },
}

/// The view of an optional string.
pub open spec fn text_view(text: Option<String>) -> Option<Seq<char>> {
    match text {
        Some(t) => Some(t@),
        None => None,
    }
}

/// The mathematical value of a [`ServerClientMessage`].
pub ghost enum ResponseView {
    Okay { msg_id_ref: Seq<char>, text: Option<Seq<char>> },
    Error { msg_id_ref: Seq<char>, code: Seq<char>, text: Option<Seq<char>> },
    Quit { msg_id_ref: Seq<char>, text: Option<Seq<char>> },
}

impl View for ServerClientMessage {
    type V = ResponseView;

    open spec fn view(&self) -> ResponseView {
        match self {
            ServerClientMessage::Okay { msg_id_ref, text } => ResponseView::Okay {
                msg_id_ref: msg_id_ref@,
                text: text_view(*text),
            },
            ServerClientMessage::Error { msg_id_ref, code, text } => ResponseView::Error {
                msg_id_ref: msg_id_ref@,
                code: code@,
                text: text_view(*text),
            },
            ServerClientMessage::Quit { msg_id_ref, text } => ResponseView::Quit {
                msg_id_ref: msg_id_ref@,
                text: text_view(*text),
            },
        }
    }
}

/// The identifier that a response refers to.
pub open spec fn response_id(response: ResponseView) -> Seq<char> {
    match response {
        ResponseView::Okay { msg_id_ref, .. } => msg_id_ref,
        ResponseView::Error { msg_id_ref, .. } => msg_id_ref,
        ResponseView::Quit { msg_id_ref, .. } => msg_id_ref,
    }
}

/// The name of a response's variant as it stands on the wire.
pub open spec fn response_name(response: ResponseView) -> Seq<char> {
    match response {
        ResponseView::Okay { .. } => "Ok"@,
        ResponseView::Error { .. } => "Error"@,
        ResponseView::Quit { .. } => "Quit"@,
    }
}

/// `": "` and the text, or nothing where there is no text.
pub open spec fn text_tail(text: Option<Seq<char>>) -> Seq<char> {
    match text {
        Some(t) => ": "@ + t,
        None => Seq::empty(),
    }
}

/// The code of an error response in square brackets, or nothing where the
/// code is empty.
pub open spec fn code_tag(code: Seq<char>) -> Seq<char> {
    if code.len() == 0 {
        Seq::empty()
    } else {
        "["@ + code + "]"@
    }
}

/// The line that shows a response to a person.
pub open spec fn response_line(response: ResponseView) -> Seq<char> {
    match response {
        ResponseView::Okay { text, .. } => "Ok"@ + text_tail(text),
        ResponseView::Error { code, text, .. } => "Error"@ + code_tag(code) + text_tail(text),
        ResponseView::Quit { text, .. } => "Quit"@ + text_tail(text),
    }
}

/// Appends `": "` and the text, where there is one.
fn append_text_tail(line: &mut String, text: &Option<String>)
    ensures
        final(line)@ == old(line)@ + text_tail(text_view(*text)),
{
    match text {
        Some(t) => {
            line.append(": ");
            line.append(t.as_str());
            assert(line@ =~= old(line)@ + text_tail(text_view(*text)));
        },
        None => {
            assert(line@ =~= old(line)@ + text_tail(text_view(*text)));
        },
    }
}

impl ServerClientMessage {
    /// The name of the variant as it stands on the wire.
    pub fn variant_name(&self) -> (name: &'static str)
        ensures
            name@ == response_name(self@),
    {
        match self {
            ServerClientMessage::Okay { .. } => "Ok",
            ServerClientMessage::Error { .. } => "Error",
            ServerClientMessage::Quit { .. } => "Quit",
        }
    }

    /// The identifier of the request that this response answers.
    pub fn msg_id_ref(&self) -> (id: &String)
        ensures
            id@ == response_id(self@),
    {
        match self {
            ServerClientMessage::Okay { msg_id_ref, .. } => msg_id_ref,
            ServerClientMessage::Error { msg_id_ref, .. } => msg_id_ref,
            ServerClientMessage::Quit { msg_id_ref, .. } => msg_id_ref,
        }
    }

    /// Whether this response ends the session.
    pub fn is_quit(&self) -> (quit: bool)
        ensures
            quit == (self@ is Quit),
    {
        match self {
            ServerClientMessage::Quit { .. } => true,
            _ => false,
        }
    }

    /// Renders the response for a person: the variant, the error code in
    /// square brackets, and the text after a colon.
    pub fn to_string(&self) -> (line: String)
        ensures
            line@ == response_line(self@),
    {
        match self {
            ServerClientMessage::Okay { text, .. } => {
                let mut line: String = String::from_str("Ok");
                append_text_tail(&mut line, text);
                line
            },
            ServerClientMessage::Error { code, text, .. } => {
                let mut line: String = String::from_str("Error");
                if code.as_str().unicode_len() != 0 {
                    line.append("[");
                    line.append(code.as_str());
                    line.append("]");
                }
                assert(line@ =~= "Error"@ + code_tag(code@));
                append_text_tail(&mut line, text);
                line
            },
            ServerClientMessage::Quit { text, .. } => {
                let mut line: String = String::from_str("Quit");
                append_text_tail(&mut line, text);
                line
            },
        }
    }
}

impl Clone for ServerClientMessage {
    fn clone(&self) -> (copy: Self)
        ensures
            copy@ == self@,
    {
        match self {
            ServerClientMessage::Okay { msg_id_ref, text } => ServerClientMessage::Okay {
                msg_id_ref: msg_id_ref.clone(),
                text: text.clone(),
            },
            ServerClientMessage::Error { msg_id_ref, code, text } => ServerClientMessage::Error {
                msg_id_ref: msg_id_ref.clone(),
                code: code.clone(),
                text: text.clone(),
            },
            ServerClientMessage::Quit { msg_id_ref, text } => ServerClientMessage::Quit {
                msg_id_ref: msg_id_ref.clone(),
                text: text.clone(),
            },
        }
    }
}

} // verus!
