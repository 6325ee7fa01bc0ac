use chat_protocol::cli::{resolve_args, CliArg};
use chat_protocol::client_command::{
    command_lines, file_payload, handle_command, new_request, plan_command, request_with_id,
    split_command, ClientPlan,
};
use chat_protocol::client_error::ClientError;
use chat_protocol::message::Payload;
use chat_protocol::text::{
    base_name, decimal, find_after_last, join_path, last_segment_of, make_file_safe, png_path,
    text_eq,
};
use chat_protocol::util::{get_hostname, new_message_id};

#[test]
fn input_without_a_dot_is_a_message() {
    assert_eq!(split_command("hello there"), (".msg".to_string(), "hello there".to_string()));
    assert_eq!(split_command(""), (".msg".to_string(), "".to_string()));
    match plan_command("hello there", "box") {
        Ok(ClientPlan::Send(Payload::Msg { text })) => assert_eq!(text, "hello there"),
        other => panic!("unexpected plan {:?}", other),
    }
}

#[test]
fn input_with_a_dot_is_command_and_argument() {
    assert_eq!(split_command(".file a b.txt"), (".file".to_string(), "a b.txt".to_string()));
    assert_eq!(split_command(".quit"), (".quit".to_string(), "".to_string()));
    assert_eq!(split_command(".info "), (".info".to_string(), "".to_string()));
    assert_eq!(split_command("."), (".".to_string(), "".to_string()));
}

#[test]
fn commands_are_planned() {
    match plan_command(".info up and running", "box") {
        Ok(ClientPlan::Send(Payload::Info { info, hostname })) => {
            assert_eq!(info, "up and running");
            assert_eq!(hostname, "box");
        }
        other => panic!("unexpected plan {:?}", other),
    }
    assert!(matches!(plan_command(".file a.txt", "h"), Ok(ClientPlan::SendFile(ref p)) if p == "a.txt"));
    assert!(matches!(plan_command(".image p.jpg", "h"), Ok(ClientPlan::SendImage(ref p)) if p == "p.jpg"));
    assert!(matches!(plan_command(".help", "h"), Ok(ClientPlan::Send(Payload::Help {}))));
    assert!(matches!(plan_command(".quit now", "h"), Ok(ClientPlan::Send(Payload::Quit {}))));
    assert!(matches!(handle_command(".msg hi"), Ok(ClientPlan::Send(Payload::Msg { ref text })) if text == "hi"));
}

#[test]
fn help_with_arguments_and_unknown_commands_are_refused() {
    match plan_command(".help me", "h") {
        Err(error) => {
            assert_eq!(error.to_string(), "Invalid parameter: Command '.help' has no arguments")
        }
        other => panic!("unexpected plan {:?}", other),
    }
    match plan_command(".dance", "h") {
        Err(error) => assert_eq!(
            error.to_string(),
            "Invalid parameter: Invalid command '.dance', valid are: [\".file\", \".help\", \".image\", \".info\", \".msg\", \".quit\"]"
        ),
        other => panic!("unexpected plan {:?}", other),
    }
}

#[test]
fn requests_carry_their_payload() {
    let request = request_with_id("id".to_string(), file_payload("a.txt", b"hello", false));
    assert_eq!(request.msg_id, "id");
    match request.payload {
        Some(Payload::File { filename, content }) => {
            assert_eq!(filename, "a.txt");
            assert_eq!(content, "aGVsbG8");
        }
        other => panic!("unexpected payload {:?}", other),
    }
    assert!(matches!(file_payload("p", b"", true), Payload::Image { .. }));
    let fresh = new_request(Payload::Quit {});
    assert!(matches!(fresh.payload, Some(Payload::Quit {})));
    assert_eq!(fresh.msg_id.len(), 36);
    assert_ne!(new_message_id(), new_message_id());
    let _ = get_hostname();
}

#[test]
fn client_errors_render_with_the_words_of_their_kind() {
    let all: Vec<(ClientError, &str)> = vec![
        (ClientError::CommandError("m".to_string()), "Command error: m"),
        (ClientError::InputError("m".to_string()), "Input error: m"),
        (ClientError::InvalidParameter("m".to_string()), "Invalid parameter: m"),
        (ClientError::GeneralIssue("m".to_string()), "General issue: m"),
        (
            ClientError::RequestSerializationFailed("m".to_string()),
            "Request serialization failed: m",
        ),
        (ClientError::ResponseError("m".to_string()), "Response error: m"),
        (ClientError::StreamShutdownError("m".to_string()), "Stream shutdown error: m"),
        (ClientError::StreamWriteError("m".to_string()), "Stream write error: m"),
    ];
    for (error, words) in all {
        assert_eq!(error.to_string(), words);
        assert_eq!(error.message(), "m");
        assert_eq!(error.ends_session(), words.starts_with("Stream shutdown"));
    }
}

#[test]
fn parameters_have_names_and_defaults() {
    let args = [CliArg::Host, CliArg::Port, CliArg::FileDir, CliArg::ImageDir, CliArg::Debug];
    let names: Vec<&str> = args.iter().map(|a| a.name()).collect();
    assert_eq!(names, vec!["host", "port", "file-dir", "image-dir", "debug"]);
    let shorts: Vec<char> = args.iter().map(|a| a.short()).collect();
    assert_eq!(shorts, vec!['H', 'p', 'f', 'i', 'd']);
    let defaults: Vec<&str> = args.iter().map(|a| a.default_value()).collect();
    assert_eq!(defaults, vec!["localhost", "11111", "files", "images", "false"]);
    assert_eq!(CliArg::Debug.help(), "Enables debug mode");
    assert!(CliArg::Debug.is_switch());
    assert!(!CliArg::Host.is_switch());
}

#[test]
fn parameters_that_are_not_given_take_their_defaults() {
    let args = [CliArg::Host, CliArg::Port];
    assert_eq!(resolve_args(&args, &vec![None, None]), vec!["localhost", "11111"]);
    assert_eq!(
        resolve_args(&args, &vec![Some("example.org".to_string()), None]),
        vec!["example.org", "11111"]
    );
    assert_eq!(resolve_args(&args, &vec![]), vec!["localhost", "11111"]);
}

#[test]
fn numbers_render_in_decimal() {
    assert_eq!(decimal(0), "0");
    assert_eq!(decimal(7), "7");
    assert_eq!(decimal(10), "10");
    assert_eq!(decimal(1205), "1205");
    assert_eq!(decimal(4294967295), "4294967295");
}

#[test]
fn paths_are_taken_apart_and_put_together() {
    assert_eq!(base_name("a/b/c.txt"), "c.txt");
    assert_eq!(base_name("c.txt"), "c.txt");
    assert_eq!(base_name("a/"), "a");
    assert_eq!(base_name("docs/"), "docs");
    assert_eq!(base_name("/srv/docs///"), "docs");
    assert_eq!(base_name("/"), "");
    assert_eq!(base_name("//"), "");
    assert_eq!(base_name(""), "");
    assert_eq!(last_segment_of("a/b/"), "");
    assert_eq!(last_segment_of("a/b"), "b");
    assert_eq!(base_name("/ž/ř.txt"), "ř.txt");
    assert_eq!(find_after_last("a/b/c", '/'), 4);
    assert_eq!(find_after_last("abc", '/'), 0);
    assert_eq!(join_path("d", "f"), "d/f");
    assert_eq!(join_path("d/", "f"), "d/f");
    assert_eq!(join_path("", "f"), "f");
    assert_eq!(make_file_safe("2024-05-06T07:08:09+00:00"), "2024-05-06T07-08-09-00-00");
    assert_eq!(png_path("resources/2x2.jpg"), "resources/2x2.png");
    assert_eq!(png_path("a.b/photo"), "a.b/photo.png");
    assert_eq!(png_path("photo.tar.gz"), "photo.tar.png");
    assert_eq!(png_path(".hidden"), ".png");
    assert!(text_eq("same", "same"));
    assert!(!text_eq("same", "Same"));
}

#[test]
fn commands_are_listed_in_columns() {
    assert_eq!(
        command_lines(),
        vec![
            "  .file  .. Sends a file for storing into files/",
            "  .help  .. Prints help from the server (supported commands)",
            "  .image .. Sends an image for storing into images/",
            "  .info  .. Sends an info text about the client to the server",
            "  .msg   .. Sends a message",
            "  .quit  .. Terminates the client",
        ]
    );
}

#[test]
fn given_no_parameters_specified_when_cli_parsed_then_defaults_returned() {
    // Given
    let args = vec![CliArg::Host, CliArg::Port];

    // When
    let result = resolve_args(&args, &vec![None, None]);

    // Then
    assert_eq!(result[0], "localhost");
    assert_eq!(result[1], "11111");
}

#[test]
fn message_id_has_the_shape_of_a_random_uuid() {
    let id = new_message_id();
    let chars: Vec<char> = id.chars().collect();
    assert_eq!(chars.len(), 36);
    for (i, c) in chars.iter().enumerate() {
        if i == 8 || i == 13 || i == 18 || i == 23 {
            assert_eq!(*c, '-');
        } else {
            assert!(c.is_ascii_digit() || ('a'..='f').contains(c));
        }
    }
    assert_eq!(chars[14], '4');
    assert!(['8', '9', 'a', 'b'].contains(&chars[19]));
}
