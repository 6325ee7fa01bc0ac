//! The commands of the client: what a line of input asks for, and the
//! request that is sent for it.

use crate::client_error::{ClientError, ClientErrorKind, ClientErrorView};
use crate::message::{ClientServerMessage, Payload, PayloadView, RequestView};
use crate::text::text_eq;
use crate::util::{
    base64_bytes, base64_encode, base64_text, get_hostname, is_message_id, max_encodable,
    new_message_id,
};
use vstd::prelude::*;
use vstd::string::*;

verus! {

/// The position of the first occurrence of `c` in `s`; the length of `s`
/// where `c` does not occur.
pub open spec fn first_index(s: Seq<char>, c: char) -> int
    decreases s.len(),
{
    if s.len() == 0 {
        0
    } else if s[0] == c {
        0
    } else {
        1 + first_index(s.drop_first(), c)
    }
}

/// `first_index` lies within the sequence, and `c` does not occur before it.
pub proof fn lemma_first_index(s: Seq<char>, c: char)
    ensures
        0 <= first_index(s, c) <= s.len(),
        first_index(s, c) < s.len() ==> s[first_index(s, c)] == c,
        forall|i: int| 0 <= i < first_index(s, c) ==> s[i] != c,
    decreases s.len(),
{
    if s.len() > 0 && s[0] != c {
        let rest = s.drop_first();
        lemma_first_index(rest, c);
        assert forall|i: int| 0 <= i < first_index(s, c) implies s[i] != c by {
            if i > 0 {
                assert(rest[i - 1] == s[i]);
            }
        }
    }
}

/// The command of a line of input. A line that does not start with a dot
/// is a message; else the command is what stands before the first space.
pub open spec fn command_of(input: Seq<char>) -> Seq<char> {
    if input.len() == 0 || input[0] != '.' {
        ".msg"@
    } else {
        input.subrange(0, first_index(input, ' '))
    }
}

/// The argument of a line of input. A line that does not start with a dot
/// is all argument; else the argument is what follows the first space, and
/// empty where there is no space.
pub open spec fn argument_of(input: Seq<char>) -> Seq<char> {
    if input.len() == 0 || input[0] != '.' {
        input
    } else if first_index(input, ' ') < input.len() {
        input.subrange(first_index(input, ' ') + 1, input.len() as int)
    } else {
        Seq::empty()
    }
}

/// Finds the first occurrence of `c` in `s`.
fn find_first(s: &str, c: char) -> (r: usize)
    ensures
        r as int == first_index(s@, c),
        r <= s@.len(),
{
    let n: usize = s.unicode_len();
    let mut i: usize = 0;
    proof {
        lemma_first_index(s@, c);
        assert(s@.subrange(0, n as int) =~= s@);
    }
    while i < n
        invariant
            i <= n,
            n == s@.len(),
            first_index(s@, c) == i + first_index(s@.subrange(i as int, n as int), c),
            first_index(s@, c) <= n,
        decreases n - i,
    {
        let ghost rest = s@.subrange(i as int, n as int);
        assert(rest[0] == s@[i as int]);
        if s.get_char(i) == c {
            return i;
        }
        proof {
            assert(rest.drop_first() =~= s@.subrange(i + 1, n as int));
        }
        i = i + 1;
    }
    assert(s@.subrange(n as int, n as int).len() == 0);
    n
}

/// Splits a line of input into its command and its argument.
pub fn split_command(input: &str) -> (parts: (String, String))
    ensures
        parts.0@ == command_of(input@),
        parts.1@ == argument_of(input@),
{
    let n: usize = input.unicode_len();
    if n == 0 || input.get_char(0) != '.' {
        (String::from_str(".msg"), String::from_str(input))
    } else {
        let space: usize = find_first(input, ' ');
        let command: String = String::from_str(input.substring_char(0, space));
        let argument: String = if space < n {
            String::from_str(input.substring_char(space + 1, n))
        } else {
            String::new()
        };
        (command, argument)
    }
}

/// What the client does for a line of input.
#[derive(Debug)]
pub enum ClientPlan {
    /// Send this payload.
    Send(Payload),
    /// Read the file and send its content as a file.
    SendFile(String),
    /// Read the file and send its content as an image.
    SendImage(String),
}

/// The mathematical value of a [`ClientPlan`].
pub ghost enum ClientPlanView {
    Send(PayloadView),
    SendFile(Seq<char>),
    SendImage(Seq<char>),
}

impl View for ClientPlan {
    type V = ClientPlanView;

    open spec fn view(&self) -> ClientPlanView {
        match self {
            ClientPlan::Send(payload) => ClientPlanView::Send(payload@),
            ClientPlan::SendFile(path) => ClientPlanView::SendFile(path@),
            ClientPlan::SendImage(path) => ClientPlanView::SendImage(path@),
        }
    }
}

/// The commands of the client, each with its description, in the order of
/// their names.
pub open spec fn client_commands() -> Seq<(Seq<char>, Seq<char>)> {
    seq![
        (".file"@, "Sends a file for storing into files/"@),
        (".help"@, "Prints help from the server (supported commands)"@),
        (".image"@, "Sends an image for storing into images/"@),
        (".info"@, "Sends an info text about the client to the server"@),
        (".msg"@, "Sends a message"@),
        (".quit"@, "Terminates the client"@),
    ]
}

/// The message of the error for a command that the client does not have.
pub open spec fn unknown_command_text(command: Seq<char>) -> Seq<char> {
    "Invalid command '"@ + command
        + "', valid are: [\".file\", \".help\", \".image\", \".info\", \".msg\", \".quit\"]"@
}

/// The view of a plan, or of the error in its place.
pub open spec fn plan_result(r: Result<ClientPlan, ClientError>) -> Result<
    ClientPlanView,
    ClientErrorView,
> {
    match r {
        Ok(plan) => Ok(plan@),
        Err(error) => Err(error@),
    }
}

/// What the client does for a command and its argument, on the host named
/// `hostname`.
pub open spec fn planned(command: Seq<char>, argument: Seq<char>, hostname: Seq<char>) -> Result<
    ClientPlanView,
    ClientErrorView,
> {
    if command == ".info"@ {
        Ok(ClientPlanView::Send(PayloadView::Info { info: argument, hostname }))
    } else if command == ".msg"@ {
        Ok(ClientPlanView::Send(PayloadView::Msg { text: argument }))
    } else if command == ".file"@ {
        Ok(ClientPlanView::SendFile(argument))
    } else if command == ".image"@ {
        Ok(ClientPlanView::SendImage(argument))
    } else if command == ".help"@ {
        if argument.len() == 0 {
            Ok(ClientPlanView::Send(PayloadView::Help))
        } else {
            Err(
                ClientErrorView {
                    kind: ClientErrorKind::InvalidParameter,
                    message: "Command '.help' has no arguments"@,
                },
            )
        }
    } else if command == ".quit"@ {
        Ok(ClientPlanView::Send(PayloadView::Quit))
    } else {
        Err(
            ClientErrorView {
                kind: ClientErrorKind::InvalidParameter,
                message: unknown_command_text(command),
            },
        )
    }
}

/// Decides what the client does for a line of input, on the host named
/// `hostname`.
pub fn plan_command(input: &str, hostname: &str) -> (r: Result<ClientPlan, ClientError>)
    ensures
        plan_result(r) == planned(command_of(input@), argument_of(input@), hostname@),
{
    let (command, argument) = split_command(input);
    let name: &str = command.as_str();
    if text_eq(name, ".info") {
        Ok(ClientPlan::Send(Payload::Info { info: argument, hostname: String::from_str(hostname) }))
    } else if text_eq(name, ".msg") {
        Ok(ClientPlan::Send(Payload::Msg { text: argument }))
    } else if text_eq(name, ".file") {
        Ok(ClientPlan::SendFile(argument))
    } else if text_eq(name, ".image") {
        Ok(ClientPlan::SendImage(argument))
    } else if text_eq(name, ".help") {
        if argument.as_str().unicode_len() == 0 {
            Ok(ClientPlan::Send(Payload::Help {  }))
        } else {
            Err(
                ClientError::InvalidParameter(String::from_str("Command '.help' has no arguments")),
            )
        }
    } else if text_eq(name, ".quit") {
        Ok(ClientPlan::Send(Payload::Quit {  }))
    } else {
        let mut text: String = String::from_str("Invalid command '");
        text.append(name);
        text.append(
            "', valid are: [\".file\", \".help\", \".image\", \".info\", \".msg\", \".quit\"]",
        );
        Err(ClientError::InvalidParameter(text))
    }
}

/// Decides what the client does for a line of input, on this host. What it
/// gives is what [`plan_command`] gives for some name of the host; a host
/// whose name cannot be found out is called `unknown`.
pub fn handle_command(input: &str) -> (r: Result<ClientPlan, ClientError>)
    ensures
        exists|hostname: Seq<char>|
            plan_result(r) == #[trigger] planned(
                command_of(input@),
                argument_of(input@),
                hostname,
            ),
{
    let hostname: String = match get_hostname() {
        Some(name) => name,
        None => String::from_str("unknown"),
    };
    plan_command(input, hostname.as_str())
}

/// The request that carries a payload under the identifier `msg_id`.
pub fn request_with_id(msg_id: String, payload: Payload) -> (request: ClientServerMessage)
    ensures
        request@ == (RequestView { msg_id: msg_id@, payload: Some(payload@) }),
{
    ClientServerMessage { msg_id, payload: Some(payload) }
}

/// The request that carries a payload under a fresh identifier.
pub fn new_request(payload: Payload) -> (request: ClientServerMessage)
    ensures
        request@.payload == Some(payload@),
        is_message_id(request@.msg_id),
{
    request_with_id(new_message_id(), payload)
}

/// The payload that carries the content of a file, or of an image, encoded
/// for transport under the name that the user gave. The server decodes what
/// the payload carries to the content that was read.
pub fn file_payload(path: &str, content: &[u8], image: bool) -> (payload: Payload)
    requires
        content@.len() <= max_encodable(),
    ensures
        payload@ == if image {
            PayloadView::Image { filename: path@, content: base64_text(content@) }
        } else {
            PayloadView::File { filename: path@, content: base64_text(content@) }
        },
        base64_bytes(base64_text(content@)) == Some(content@),
{
    let encoded: String = base64_encode(content);
    if image {
        Payload::Image { filename: String::from_str(path), content: encoded }
    } else {
        Payload::File { filename: String::from_str(path), content: encoded }
    }
}


/// So many spaces.
pub open spec fn spaces(n: nat) -> Seq<char> {
    Seq::new(n, |i: int| ' ')
}

/// The length of the longest name among the rows.
pub open spec fn longest_name(rows: Seq<(Seq<char>, Seq<char>)>) -> nat
    decreases rows.len(),
{
    if rows.len() == 0 {
        0
    } else if rows.last().0.len() > longest_name(rows.drop_last()) {
        rows.last().0.len()
    } else {
        longest_name(rows.drop_last())
    }
}

/// No name among the rows is longer than the longest.
pub proof fn lemma_longest_name(rows: Seq<(Seq<char>, Seq<char>)>, i: int)
    requires
        0 <= i < rows.len(),
    ensures
        rows[i].0.len() <= longest_name(rows),
    decreases rows.len(),
{
    if i < rows.len() - 1 {
        lemma_longest_name(rows.drop_last(), i);
    }
}

/// The line that explains a command: two spaces, the name filled up with
/// spaces to `width`, two dots between spaces, and the description.
pub open spec fn command_line(row: (Seq<char>, Seq<char>), width: nat) -> Seq<char> {
    "  "@ + row.0 + spaces((width - row.0.len()) as nat) + " .. "@ + row.1
}

/// The table of the client's commands.
fn client_command_table() -> (rows: Vec<(&'static str, &'static str)>)
    ensures
        rows@.len() == client_commands().len(),
        forall|i: int|
            0 <= i < rows@.len() ==> (#[trigger] rows@[i]).0@ == client_commands()[i].0
                && rows@[i].1@ == client_commands()[i].1,
{
    let mut rows: Vec<(&'static str, &'static str)> = Vec::new();
    rows.push((".file", "Sends a file for storing into files/"));
    rows.push((".help", "Prints help from the server (supported commands)"));
    rows.push((".image", "Sends an image for storing into images/"));
    rows.push((".info", "Sends an info text about the client to the server"));
    rows.push((".msg", "Sends a message"));
    rows.push((".quit", "Terminates the client"));
    rows
}

/// The lines that explain the client's commands, in the order of their
/// names, with the names filled up to the length of the longest.
pub fn command_lines() -> (lines: Vec<String>)
    ensures
        lines@.len() == client_commands().len(),
        forall|i: int|
            0 <= i < lines@.len() ==> (#[trigger] lines@[i])@ == command_line(
                client_commands()[i],
                longest_name(client_commands()),
            ),
{
    let rows = client_command_table();
    let ghost all = client_commands();
    let mut width: usize = 0;
    let mut i: usize = 0;
    assert(all.subrange(0, 0) =~= Seq::empty());
    while i < rows.len()
        invariant
            i <= rows@.len(),
            rows@.len() == all.len(),
            all == client_commands(),
            forall|k: int|
                0 <= k < rows@.len() ==> (#[trigger] rows@[k]).0@ == all[k].0 && rows@[k].1@
                    == all[k].1,
            width == longest_name(all.subrange(0, i as int)),
        decreases rows.len() - i,
    {
        let ghost upto = all.subrange(0, i + 1);
        let len: usize = rows[i].0.unicode_len();
        proof {
            assert(upto.drop_last() =~= all.subrange(0, i as int));
            assert(upto.last() == all[i as int]);
        }
        if len > width {
            width = len;
        }
        i = i + 1;
    }
    assert(all.subrange(0, all.len() as int) =~= all);
    let mut lines: Vec<String> = Vec::new();
    let mut j: usize = 0;
    while j < rows.len()
        invariant
            j <= rows@.len(),
            rows@.len() == all.len(),
            all == client_commands(),
            forall|k: int|
                0 <= k < rows@.len() ==> (#[trigger] rows@[k]).0@ == all[k].0 && rows@[k].1@
                    == all[k].1,
            width == longest_name(all),
            lines@.len() == j,
            forall|k: int| 0 <= k < j ==> (#[trigger] lines@[k])@ == command_line(all[k], width as nat),
        decreases rows.len() - j,
    {
        let name: &'static str = rows[j].0;
        let len: usize = name.unicode_len();
        proof {
            lemma_longest_name(all, j as int);
        }
        let mut line: String = String::from_str("  ");
        line.append(name);
        let mut fill: usize = len;
        proof {
            reveal_strlit(" ");
            assert(line@ =~= "  "@ + name@ + spaces(0));
        }
        while fill < width
            invariant
                len <= fill <= width,
                len == name@.len(),
                " "@ == seq![' '],
                line@ == "  "@ + name@ + spaces((fill - len) as nat),
            decreases width - fill,
        {
            line.append(" ");
            proof {
                assert(spaces((fill - len) as nat).push(' ') =~= spaces((fill + 1 - len) as nat));
                assert(line@ =~= "  "@ + name@ + spaces((fill + 1 - len) as nat));
            }
            fill = fill + 1;
        }
        line.append(" .. ");
        line.append(rows[j].1);
        lines.push(line);
        j = j + 1;
    }
    lines
}

} // verus!
