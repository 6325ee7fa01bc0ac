use chat_protocol::command::{
    dispatch_by_name, handle_command, handle_command_at, help, info, msg, quit, render_help,
};
use chat_protocol::config::Config;
use chat_protocol::file::{
    carry_out, finish_store, get_target_file, plan_image, post_process_image, store_file,
    store_file_at, target_file_at, ImageKind, ImagePlan, PostProcessor,
};
use chat_protocol::message::{ClientServerMessage, Payload, ServerClientMessage};
use chat_protocol::server_error::{collect_error_messages, Cause, ErrorKind, ServerError};
use chat_protocol::util::{base64_encode, simple_name_of, utc_timestamp};

fn config() -> Config {
    Config { file_dir: "files".to_string(), image_dir: "images".to_string(), debug: "false".to_string() }
}

fn request(payload: Option<Payload>) -> ClientServerMessage {
    ClientServerMessage { msg_id: "42".to_string(), payload }
}

fn jpeg_bytes() -> Vec<u8> {
    let picture = image::DynamicImage::ImageRgb8(image::RgbImage::new(2, 2));
    let mut out: Vec<u8> = Vec::new();
    picture.write_to(&mut std::io::Cursor::new(&mut out), image::ImageFormat::Jpeg).unwrap();
    out
}

fn png_bytes() -> Vec<u8> {
    let picture = image::DynamicImage::ImageRgb8(image::RgbImage::new(2, 2));
    let mut out: Vec<u8> = Vec::new();
    picture.write_to(&mut std::io::Cursor::new(&mut out), image::ImageFormat::Png).unwrap();
    out
}

#[test]
fn test_store_file() {
    // Given
    let file_dir = "storage".to_string();
    let filename = "test.txt";
    let content = "Hello world";
    let content_encoded = base64_encode(content.as_ref());

    // When
    let result = store_file(filename, &file_dir, &content_encoded, None).unwrap();

    // Then
    assert!(result.text.contains("Stored"));
    let parts: Vec<&str> = result.text.split_whitespace().collect();
    let stored_file_path = parts.last().unwrap();
    assert_eq!(*stored_file_path, result.path);
    assert_eq!(result.content, content.as_bytes().to_vec());
}

#[test]
fn test_post_process_image() {
    // Given
    let source_file = "resources/2x2.jpg";
    let buffer = jpeg_bytes();
    assert!(buffer.len() > 0);

    // When
    let (processed_buffer, new_target_file, converted) =
        post_process_image(&*buffer, source_file).unwrap();

    // Then
    assert!(converted);
    assert_eq!(new_target_file, "resources/2x2.png");
    let reader = image::ImageReader::new(std::io::Cursor::new(processed_buffer));
    let format = reader.with_guessed_format().unwrap().format();
    assert_eq!(format, Some(image::ImageFormat::Png));
}

#[test]
fn store_names_the_file_by_timestamp_and_basename() {
    let stored =
        store_file_at("a.txt", "dir", &base64_encode(b"hello"), "2024-05-06T07:08:09Z", None).unwrap();
    assert_eq!(stored.path, "dir/2024-05-06T07-08-09Z_a.txt");
    assert!(stored.path.ends_with("_a.txt"));
    assert_eq!(stored.content, b"hello".to_vec());
    assert_eq!(stored.text, "Stored 5 bytes in dir/2024-05-06T07-08-09Z_a.txt");
}

#[test]
fn store_drops_directories_of_the_client_file_name() {
    let path = target_file_at("../../etc/passwd", "files", "2024-01-01T00:00:00+00:00");
    assert_eq!(path, "files/2024-01-01T00-00-00-00-00_passwd");
    assert_eq!(target_file_at("x", "files/", "t"), "files/t_x");
    assert_eq!(target_file_at("x", "", "t"), "t_x");
    assert_eq!(target_file_at("dir/", "d", "t"), "d/t_dir");
    assert_eq!(target_file_at("a/docs//", "d", "t"), "d/t_docs");
    assert_eq!(target_file_at("/", "d", "t"), "d/t_");
}

#[test]
fn store_now_uses_a_timestamp_of_whole_seconds() {
    let timestamp = utc_timestamp();
    assert_eq!(timestamp.len(), 20);
    assert!(timestamp.ends_with('Z'));
    let path = get_target_file("some/where/a.txt", "dir");
    assert!(path.starts_with("dir/"));
    assert!(path.ends_with("Z_a.txt"));
    assert_eq!(path.len(), "dir/".len() + 20 + "_a.txt".len());
    assert!(!path["dir/".len()..].contains(':'));
}

#[test]
fn store_refuses_invalid_encoding() {
    let error = store_file_at("a.txt", "dir", "***", "t", None).unwrap_err();
    assert_eq!(error.kind(), ErrorKind::InvalidEncoding);
    assert_eq!(error.to_string(), "Invalid encoding: Decoding failed");
    let cause = error.source().as_ref().unwrap();
    assert_eq!(cause.name, "DecodeError");
    assert!(cause.source.is_none());
}

#[test]
fn store_converts_a_jpeg_and_reports_both_sizes() {
    let jpeg = jpeg_bytes();
    let stored =
        store_file_at("pic.jpeg", "images", &base64_encode(&jpeg), "T", Some(PostProcessor::Image))
            .unwrap();
    assert_eq!(stored.path, "images/T_pic.png");
    let reader = image::ImageReader::new(std::io::Cursor::new(stored.content.clone()));
    assert_eq!(reader.with_guessed_format().unwrap().format(), Some(image::ImageFormat::Png));
    assert_eq!(
        stored.text,
        format!(
            "Received {} bytes and converted to {} bytes in images/T_pic.png",
            jpeg.len(),
            stored.content.len()
        )
    );
}

#[test]
fn store_keeps_a_png_as_it_is() {
    let png = png_bytes();
    let stored =
        store_file_at("pic.png", "images", &base64_encode(&png), "T", Some(PostProcessor::Image))
            .unwrap();
    assert_eq!(stored.path, "images/T_pic.png");
    assert_eq!(stored.content, png);
    assert_eq!(stored.text, format!("Stored {} bytes in images/T_pic.png", png.len()));
}

#[test]
fn post_processing_a_png_changes_nothing() {
    let png = png_bytes();
    let (bytes, path, converted) = post_process_image(&png, "images/x.dat").unwrap();
    assert!(!converted);
    assert_eq!(bytes, png);
    assert_eq!(path, "images/x.dat");
}

#[test]
fn post_processing_its_own_output_changes_nothing() {
    let (first, path, converted) = post_process_image(&jpeg_bytes(), "a/b.c/photo").unwrap();
    assert!(converted);
    assert_eq!(path, "a/b.c/photo.png");
    let (second, again, converted_again) = post_process_image(&first, &path).unwrap();
    assert!(!converted_again);
    assert_eq!(second, first);
    assert_eq!(again, path);
}

#[test]
fn post_processing_refuses_what_is_no_image() {
    let error = post_process_image(b"certainly not an image", "x.jpg").unwrap_err();
    assert_eq!(error.kind(), ErrorKind::ImageProcessingFailed);
    assert_eq!(error.to_string(), "Image processing failed: Failed to decode image");
    assert_eq!(error.source().as_ref().unwrap().name, "ImageError");
}

#[test]
fn image_plan_follows_the_decoder_and_the_guess() {
    let failed = plan_image(Some(Cause::new("ImageError", "bad")), Some(ImageKind::Png), "a.jpg");
    assert_eq!(failed.unwrap_err().to_string(), "Image processing failed: Failed to decode image");
    let unknown = plan_image(None, None, "a.jpg").unwrap_err();
    assert_eq!(unknown.to_string(), "Image processing failed: Unknown image format");
    assert!(unknown.source().is_none());
    assert!(matches!(plan_image(None, Some(ImageKind::Png), "a.jpg"), Ok(ImagePlan::Keep)));
    match plan_image(None, Some(ImageKind::Other), "dir.d/a.tar.gz") {
        Ok(ImagePlan::Convert(path)) => assert_eq!(path, "dir.d/a.tar.png"),
        other => panic!("unexpected plan {:?}", other),
    }
    match plan_image(None, Some(ImageKind::Other), "dir.d/noext") {
        Ok(ImagePlan::Convert(path)) => assert_eq!(path, "dir.d/noext.png"),
        other => panic!("unexpected plan {:?}", other),
    }
}

#[test]
fn finish_store_reports_what_the_post_processor_gave() {
    let plain = finish_store(vec![1, 2, 3], "d/t_a".to_string(), None);
    assert_eq!(plain.text, "Stored 3 bytes in d/t_a");
    assert_eq!(plain.content, vec![1, 2, 3]);
    let kept = finish_store(vec![0; 10], "d/t_a".to_string(), Some((vec![0; 10], "d/t_a".to_string(), false)));
    assert_eq!(kept.text, "Stored 10 bytes in d/t_a");
    let converted = finish_store(
        vec![0; 1205],
        "d/t_a.jpg".to_string(),
        Some((vec![9; 70], "d/t_a.png".to_string(), true)),
    );
    assert_eq!(converted.path, "d/t_a.png");
    assert_eq!(converted.content, vec![9; 70]);
    assert_eq!(converted.text, "Received 1205 bytes and converted to 70 bytes in d/t_a.png");
    let empty = finish_store(vec![], "p".to_string(), None);
    assert_eq!(empty.text, "Stored 0 bytes in p");
}

#[test]
fn help_lists_all_commands_sorted_by_name() {
    let expected = "Available commands:\n  File: Stores a generic file\n  Help: Lists all commands\n  Image: Stores an image file\n  Info: Logs an info text on server side\n  Msg: Sends a message\n  Quit: Finalizes the communication, closes the stream";
    assert_eq!(render_help(), expected);
    let reply = help(&request(Some(Payload::Help {})), &config()).unwrap();
    match reply.response {
        ServerClientMessage::Okay { msg_id_ref, text } => {
            assert_eq!(msg_id_ref, "42");
            assert_eq!(text, Some(expected.to_string()));
        }
        other => panic!("unexpected response {:?}", other),
    }
    assert!(reply.write.is_none());
}

#[test]
fn info_and_msg_echo_the_text() {
    let reply = info(
        &request(Some(Payload::Info { info: "up".to_string(), hostname: "box".to_string() })),
        &config(),
    )
    .unwrap();
    assert_eq!(reply.response.to_string(), "Ok: Info received: up");
    assert_eq!(reply.log, Some("Information received from client on hostname box: up".to_string()));
    let reply = msg(&request(Some(Payload::Msg { text: "hello".to_string() })), &config()).unwrap();
    assert_eq!(reply.response.to_string(), "Ok: Message received: hello");
    assert_eq!(reply.log, Some("Message received from client: hello".to_string()));
    assert_eq!(reply.response.msg_id_ref(), "42");
}

#[test]
fn handlers_refuse_a_payload_of_another_command() {
    let error = info(&request(Some(Payload::Quit {})), &config()).unwrap_err();
    assert_eq!(error.to_string(), "General issue: Invalid message type: Quit");
    let error = msg(&request(None), &config()).unwrap_err();
    assert_eq!(error.to_string(), "General issue: Invalid message type: none");
}

#[test]
fn quit_says_farewell() {
    let reply = quit(&request(Some(Payload::Quit {})), &config()).unwrap();
    assert!(reply.response.is_quit());
    assert_eq!(reply.response.to_string(), "Quit: Hasta la vista");
    assert_eq!(reply.response.msg_id_ref(), "42");
}

#[test]
fn dispatch_refuses_a_request_without_payload() {
    let error = handle_command(&request(None), &config()).unwrap_err();
    assert_eq!(error.kind(), ErrorKind::GeneralIssue);
    assert_eq!(error.to_string(), "General issue: No payload found in message");
}

#[test]
fn dispatch_refuses_an_unknown_command_and_lists_the_valid_ones() {
    let error = dispatch_by_name("Dance", &request(Some(Payload::Help {})), &config(), "t").unwrap_err();
    assert_eq!(error.variant_name(), "GeneralIssue");
    assert_eq!(
        error.to_string(),
        "General issue: Invalid command Dance, valid are: [\"File\", \"Help\", \"Image\", \"Info\", \"Msg\", \"Quit\"]"
    );
    match error.to_client_message(Some("42".to_string())) {
        ServerClientMessage::Error { msg_id_ref, code, text } => {
            assert_eq!(msg_id_ref, "42");
            assert_eq!(code, "GeneralIssue");
            assert!(text.unwrap().contains("valid are"));
        }
        other => panic!("unexpected response {:?}", other),
    }
}

#[test]
fn dispatch_stores_files_and_images_in_their_directories() {
    let file = request(Some(Payload::File {
        filename: "/tmp/a.txt".to_string(),
        content: base64_encode(b"hello"),
    }));
    let reply = handle_command_at(&file, &config(), "2024-05-06T07:08:09Z").unwrap();
    assert_eq!(
        reply.write,
        Some(("files/2024-05-06T07-08-09Z_a.txt".to_string(), b"hello".to_vec()))
    );
    assert_eq!(reply.response.to_string(), "Ok: Stored 5 bytes in files/2024-05-06T07-08-09Z_a.txt");
    assert_eq!(reply.response.msg_id_ref(), "42");

    let picture = request(Some(Payload::Image {
        filename: "p.jpg".to_string(),
        content: base64_encode(&jpeg_bytes()),
    }));
    let reply = handle_command_at(&picture, &config(), "T").unwrap();
    assert_eq!(reply.write.as_ref().unwrap().0, "images/T_p.png");

    let broken = request(Some(Payload::Image { filename: "p.jpg".to_string(), content: "AAAA".to_string() }));
    let error = handle_command_at(&broken, &config(), "T").unwrap_err();
    assert_eq!(error.kind(), ErrorKind::ImageProcessingFailed);
}

#[test]
fn error_becomes_a_response_with_its_kind_as_code() {
    let error = ServerError::InvalidEncoding(
        "Decoding failed".to_string(),
        Some(Cause::new("DecodeError", "Invalid symbol 42, offset 0.")),
    );
    match error.to_client_message(Some("7".to_string())) {
        ServerClientMessage::Error { msg_id_ref, code, text } => {
            assert_eq!(msg_id_ref, "7");
            assert_eq!(code, "InvalidEncoding");
            assert_eq!(text, Some("Invalid encoding: Decoding failed".to_string()));
        }
        other => panic!("unexpected response {:?}", other),
    }
    match error.to_client_message(None) {
        ServerClientMessage::Error { msg_id_ref, .. } => {
            assert_eq!(msg_id_ref, "00000000-0000-0000-0000-000000000000");
        }
        other => panic!("unexpected response {:?}", other),
    }
}

#[test]
fn every_kind_has_its_name_and_words() {
    let make: Vec<(ServerError, &str, &str)> = vec![
        (ServerError::InvalidEncoding("m".to_string(), None), "InvalidEncoding", "Invalid encoding: m"),
        (
            ServerError::ImageProcessingFailed("m".to_string(), None),
            "ImageProcessingFailed",
            "Image processing failed: m",
        ),
        (ServerError::GeneralIssue("m".to_string(), None), "GeneralIssue", "General issue: m"),
        (
            ServerError::MessageProcessingFailed("m".to_string(), None),
            "MessageProcessingFailed",
            "Message processing failed: m",
        ),
        (
            ServerError::MessageReceiveFailed("m".to_string(), None),
            "MessageReceiveFailed",
            "Message receive failed: m",
        ),
        (
            ServerError::ResponseSendingFailed("m".to_string(), None),
            "ResponseSendingFailed",
            "Response sending failed: m",
        ),
    ];
    for (error, name, words) in make {
        assert_eq!(error.variant_name(), name);
        assert_eq!(error.to_string(), words);
        assert_eq!(error.message(), "m");
        assert_eq!(error.log_line(), format!("{}: {}", name, words));
    }
}

#[test]
fn causes_are_chained_for_the_log() {
    let inner = ServerError::InvalidEncoding("Decoding failed".to_string(), Some(Cause::new("DecodeError", "bad")));
    let cause = inner.into_cause();
    assert_eq!(
        collect_error_messages(&cause),
        "InvalidEncoding: Invalid encoding: Decoding failed: DecodeError: bad"
    );
    let outer = ServerError::MessageProcessingFailed("Failed to process message".to_string(), Some(cause));
    assert_eq!(
        outer.log_line(),
        "MessageProcessingFailed: Message processing failed: Failed to process message: InvalidEncoding: Invalid encoding: Decoding failed: DecodeError: bad"
    );
    assert_eq!(collect_error_messages(&Cause::new("Error", "eof")), "Error: eof");
    let copy = outer.source().as_ref().unwrap().clone();
    assert_eq!(copy.name, "InvalidEncoding");
    assert_eq!(copy.source.as_ref().unwrap().message, "bad");
}

#[test]
fn simple_name_is_the_last_segment() {
    assert_eq!(simple_name_of("core::error::Error"), "Error");
    assert_eq!(simple_name_of("dyn core::error::Error"), "Error");
    assert_eq!(simple_name_of("Plain"), "Plain");
    assert_eq!(simple_name_of(""), "");
    assert_eq!(simple_name_of("a::"), "");
    assert_eq!(simple_name_of("a:::b"), "b");
    assert_eq!(simple_name_of("a:b"), "a:b");
}

#[test]
fn responses_render_for_people() {
    let okay = ServerClientMessage::Okay { msg_id_ref: "1".to_string(), text: None };
    assert_eq!(okay.to_string(), "Ok");
    assert_eq!(okay.variant_name(), "Ok");
    let error = ServerClientMessage::Error {
        msg_id_ref: "1".to_string(),
        code: "GeneralIssue".to_string(),
        text: Some("boom".to_string()),
    };
    assert_eq!(error.to_string(), "Error[GeneralIssue]: boom");
    let bare = ServerClientMessage::Error { msg_id_ref: "1".to_string(), code: "".to_string(), text: None };
    assert_eq!(bare.to_string(), "Error");
    let quit = ServerClientMessage::Quit { msg_id_ref: "1".to_string(), text: Some("bye".to_string()) };
    assert_eq!(quit.to_string(), "Quit: bye");
    assert!(quit.clone().is_quit());
    assert!(!okay.is_quit());
}

#[test]
fn payload_variants_have_their_names() {
    assert_eq!(Payload::Help {}.variant_name(), "Help");
    assert_eq!(Payload::Info { info: "".to_string(), hostname: "".to_string() }.variant_name(), "Info");
    assert_eq!(Payload::Msg { text: "".to_string() }.variant_name(), "Msg");
    assert_eq!(Payload::File { filename: "".to_string(), content: "".to_string() }.variant_name(), "File");
    assert_eq!(Payload::Image { filename: "".to_string(), content: "".to_string() }.variant_name(), "Image");
    assert_eq!(Payload::Quit {}.variant_name(), "Quit");
}

#[test]
fn debug_is_on_only_for_true() {
    let mut settings = config();
    assert!(!settings.debug_enabled());
    settings.debug = "true".to_string();
    assert!(settings.clone().debug_enabled());
    settings.debug = "TRUE".to_string();
    assert!(!settings.debug_enabled());
}

#[test]
fn timestamp_has_the_shape_of_utc_with_whole_seconds() {
    let timestamp = utc_timestamp();
    let chars: Vec<char> = timestamp.chars().collect();
    let n = chars.len();
    assert!(n >= 20);
    assert!(chars[..n - 16].iter().all(|c| c.is_ascii_digit() || *c == '+'));
    let tail: String = chars[n - 16..].iter().collect();
    let marks: Vec<(usize, char)> = vec![(0, '-'), (3, '-'), (6, 'T'), (9, ':'), (12, ':'), (15, 'Z')];
    for (i, c) in tail.chars().enumerate() {
        match marks.iter().find(|(at, _)| *at == i) {
            Some((_, mark)) => assert_eq!(c, *mark),
            None => assert!(c.is_ascii_digit()),
        }
    }
}

#[test]
fn a_plan_is_carried_out_as_it_says() {
    let kept = carry_out(Ok(ImagePlan::Keep), &[1, 2, 3], "d/t_a.png", None).unwrap();
    assert_eq!(kept, (vec![1, 2, 3], "d/t_a.png".to_string(), false));
    let kept = carry_out(Ok(ImagePlan::Keep), &[1, 2, 3], "d/t_a.png", Some(Ok(vec![9]))).unwrap();
    assert_eq!(kept, (vec![1, 2, 3], "d/t_a.png".to_string(), false));
    let converted = carry_out(
        Ok(ImagePlan::Convert("d/t_a.png".to_string())),
        &[1, 2, 3],
        "d/t_a.jpg",
        Some(Ok(vec![7, 7])),
    )
    .unwrap();
    assert_eq!(converted, (vec![7, 7], "d/t_a.png".to_string(), true));
    let failed = carry_out(
        Ok(ImagePlan::Convert("d/t_a.png".to_string())),
        &[1, 2, 3],
        "d/t_a.jpg",
        Some(Err(Cause::new("ImageError", "no space"))),
    )
    .unwrap_err();
    assert_eq!(failed.to_string(), "Image processing failed: Failed to encode image");
    assert_eq!(failed.source().as_ref().unwrap().message, "no space");
    let missing =
        carry_out(Ok(ImagePlan::Convert("p".to_string())), &[1], "q", None).unwrap_err();
    assert_eq!(missing.to_string(), "Image processing failed: Failed to encode image");
    assert!(missing.source().is_none());
    let refused = carry_out(
        plan_image(None, None, "a.jpg"),
        &[1],
        "a.jpg",
        None,
    )
    .unwrap_err();
    assert_eq!(refused.to_string(), "Image processing failed: Unknown image format");
}

#[test]
fn what_the_client_encodes_the_server_stores() {
    let content = vec![0u8, 255, 16, 32, 64, 128, 7];
    let stored = store_file_at("blob.bin", "files", &base64_encode(&content), "T", None).unwrap();
    assert_eq!(stored.content, content);
    assert_eq!(stored.path, "files/T_blob.bin");
}
