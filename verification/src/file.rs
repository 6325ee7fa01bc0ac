//! The storage pipeline: where received content goes, what is done to an
//! image before it is stored, and what the client is told.
//!
//! Nothing here touches the file system. The pipeline ends in a
//! [`StoredFile`], which says what is to be written where.

use crate::server_error::{Cause, ErrorKind, Link, ServerError};
use crate::text::{
    base_name, base_name_of, decimal, decimal_text, file_safe, join_path, joined_path,
    last_segment, lemma_base_name_has_no_separator, lemma_joined_path_keeps_name, make_file_safe,
    png_path, png_path_of,
};
use crate::util::{base64_bytes, base64_decode, decode_error_text, is_timestamp, utc_timestamp};
use vstd::prelude::*;
use vstd::string::*;

verus! {

/// `image::DynamicImage`: a decoded image, carried from the decoder to the
/// encoder.
#[verifier::external_type_specification]
#[verifier::external_body]
pub struct ExDynamicImage(image::DynamicImage);

/// `image::ImageError`: why an image was not decoded or encoded, opaque to
/// the proofs.
#[verifier::external_type_specification]
#[verifier::external_body]
pub struct ExImageError(image::ImageError);

/// What the first bytes of an image say about its format.
#[derive(Debug, Clone, Copy, PartialEq, Eq, Structural)]
pub enum ImageKind {
    /// The canonical format, in which images are stored.
    Png,
    /// Any other format that is recognised.
    Other,
}

/// What is done to content before it is stored.
#[derive(Debug, Clone, Copy, PartialEq, Eq, Structural)]
pub enum PostProcessor {
    /// Images are brought into the canonical format.
    Image,
}

/// Calls `with_guessed_format` and `format` of `image::ImageReader` on the
/// bytes, and tells PNG from the other formats. The guess depends on the
/// formats registered with the `image` crate, so nothing is claimed of it.
#[verifier::external_body]
fn guess_kind(buffer: &[u8]) -> (kind: Option<ImageKind>) {
    let reader = image::ImageReader::new(std::io::Cursor::new(buffer)).with_guessed_format();
    match reader.ok()?.format() {
        Some(image::ImageFormat::Png) => Some(ImageKind::Png),
        Some(_) => Some(ImageKind::Other),
        None => None,
    }
}

/// Calls `with_guessed_format` and `decode` of `image::ImageReader` on the
/// bytes. Nothing is claimed of the image or of the error.
#[verifier::external_body]
fn decode_image(buffer: &[u8]) -> (r: Result<image::DynamicImage, image::ImageError>) {
    image::ImageReader::new(std::io::Cursor::new(buffer)).with_guessed_format()?.decode()
}

/// Calls `write_to` of `image::DynamicImage` for the PNG format, into
/// memory. Nothing is claimed of the bytes or of the error.
#[verifier::external_body]
fn encode_png(picture: &image::DynamicImage) -> (r: Result<Vec<u8>, image::ImageError>) {
    let mut out: Vec<u8> = Vec::new();
    let written = picture.write_to(&mut std::io::Cursor::new(&mut out), image::ImageFormat::Png);
    written.map(|_| out)
}

/// Renders an `image::ImageError` through its `Display`. Nothing is claimed
/// of the words.
#[verifier::external_body]
fn image_error_text(error: &image::ImageError) -> (text: String) {
    error.to_string()
}

/// What is to be done with an image.
#[derive(Debug)]
pub enum ImagePlan {
    /// The image is in the canonical format already: store it as it is.
    Keep,
    /// Convert the image and store it under this path.
    Convert(String),
}

/// The view of a plan, or of the error in its place.
pub ghost enum ImagePlanView {
    Keep,
    Convert(Seq<char>),
    Failed(crate::server_error::ServerErrorView),
}

/// The view of what `plan_image` returns.
pub open spec fn plan_view(r: Result<ImagePlan, ServerError>) -> ImagePlanView {
    match r {
        Ok(ImagePlan::Keep) => ImagePlanView::Keep,
        Ok(ImagePlan::Convert(path)) => ImagePlanView::Convert(path@),
        Err(error) => ImagePlanView::Failed(error@),
    }
}

/// What is to be done with an image, given what decoding it and guessing its
/// format gave. An image that does not decode is refused with the decoder's
/// error as the cause, whatever its format; then one of an unknown format; a
/// PNG is kept; any other is converted and gets the extension `.png`.
pub open spec fn image_plan(
    decode_failure: Seq<Link>,
    kind: Option<ImageKind>,
    target_file: Seq<char>,
) -> ImagePlanView {
    if decode_failure.len() > 0 {
        ImagePlanView::Failed(
            crate::server_error::ServerErrorView {
                kind: ErrorKind::ImageProcessingFailed,
                message: "Failed to decode image"@,
                chain: decode_failure,
            },
        )
    } else {
        match kind {
            None => ImagePlanView::Failed(
                crate::server_error::ServerErrorView {
                    kind: ErrorKind::ImageProcessingFailed,
                    message: "Unknown image format"@,
                    chain: Seq::empty(),
                },
            ),
            Some(ImageKind::Png) => ImagePlanView::Keep,
            Some(ImageKind::Other) => ImagePlanView::Convert(png_path_of(target_file)),
        }
    }
}

/// Decides what is to be done with an image, given the error of decoding it,
/// if there was one, and the guess of its format.
pub fn plan_image(decode_failure: Option<Cause>, kind: Option<ImageKind>, target_file: &str) -> (r:
    Result<ImagePlan, ServerError>)
    ensures
        plan_view(r) == image_plan(
            crate::server_error::chain_of(decode_failure),
            kind,
            target_file@,
        ),
{
    match decode_failure {
        Some(cause) => {
            proof {
                cause.lemma_chain_nonempty();
            }
            Err(
                ServerError::ImageProcessingFailed(
                    String::from_str("Failed to decode image"),
                    Some(cause),
                ),
            )
        },
        None => match kind {
            None => Err(
                ServerError::ImageProcessingFailed(String::from_str("Unknown image format"), None),
            ),
            Some(ImageKind::Png) => Ok(ImagePlan::Keep),
            Some(ImageKind::Other) => Ok(ImagePlan::Convert(png_path(target_file))),
        },
    }
}

/// What post-processing gives: the bytes to store, the path to store them
/// under, and whether the image was converted.
pub type Processed = (Seq<u8>, Seq<char>, bool);

/// The view of what post-processing returns.
pub open spec fn result_view(r: Result<(Vec<u8>, String, bool), ServerError>) -> Result<
    Processed,
    crate::server_error::ServerErrorView,
> {
    match r {
        Ok((bytes, path, converted)) => Ok((bytes@, path@, converted)),
        Err(error) => Err(error@),
    }
}

/// The view of what the encoder gave, where it ran.
pub open spec fn encoded_view(encoded: Option<Result<Vec<u8>, Cause>>) -> Option<
    Result<Seq<u8>, Seq<Link>>,
> {
    match encoded {
        None => None,
        Some(Ok(bytes)) => Some(Ok(bytes@)),
        Some(Err(cause)) => Some(Err(cause@)),
    }
}

/// The error for an image that could not be encoded.
pub open spec fn not_encoded(cause: Seq<Link>) -> crate::server_error::ServerErrorView {
    crate::server_error::ServerErrorView {
        kind: ErrorKind::ImageProcessingFailed,
        message: "Failed to encode image"@,
        chain: cause,
    }
}

/// What comes of a plan. A refusal stays a refusal. An image that is kept
/// comes back byte for byte under the path given, not converted. One that is
/// converted comes back as the encoder gave it, under the plan's path; where
/// the encoder failed, or did not run, the conversion fails.
pub open spec fn processed(
    plan: ImagePlanView,
    buffer: Seq<u8>,
    target_file: Seq<char>,
    encoded: Option<Result<Seq<u8>, Seq<Link>>>,
) -> Result<Processed, crate::server_error::ServerErrorView> {
    match plan {
        ImagePlanView::Failed(error) => Err(error),
        ImagePlanView::Keep => Ok((buffer, target_file, false)),
        ImagePlanView::Convert(path) => match encoded {
            Some(Ok(bytes)) => Ok((bytes, path, true)),
            Some(Err(cause)) => Err(not_encoded(cause)),
            None => Err(not_encoded(Seq::empty())),
        },
    }
}

/// Carries a plan out, given what the encoder made of the image where the
/// plan asked for a conversion.
pub fn carry_out(
    plan: Result<ImagePlan, ServerError>,
    buffer: &[u8],
    target_file: &str,
    encoded: Option<Result<Vec<u8>, Cause>>,
) -> (r: Result<(Vec<u8>, String, bool), ServerError>)
    ensures
        result_view(r) == processed(plan_view(plan), buffer@, target_file@, encoded_view(encoded)),
{
    match plan {
        Err(refusal) => Err(refusal),
        Ok(ImagePlan::Keep) => Ok(
            (vstd::slice::slice_to_vec(buffer), String::from_str(target_file), false),
        ),
        Ok(ImagePlan::Convert(path)) => match encoded {
            Some(Ok(bytes)) => Ok((bytes, path, true)),
            Some(Err(cause)) => Err(
                ServerError::ImageProcessingFailed(
                    String::from_str("Failed to encode image"),
                    Some(cause),
                ),
            ),
            None => Err(
                ServerError::ImageProcessingFailed(
                    String::from_str("Failed to encode image"),
                    None,
                ),
            ),
        },
    }
}

/// Whether `outcome` is what post-processing may give for an image: what
/// comes of the plan for some result of decoding the image and some guess
/// of its format, with the encoder run where the plan asks for a conversion
/// and nowhere else.
pub open spec fn post_processed(
    outcome: Result<Processed, crate::server_error::ServerErrorView>,
    buffer: Seq<u8>,
    target_file: Seq<char>,
) -> bool {
    exists|
        decode_failure: Seq<Link>,
        kind: Option<ImageKind>,
        encoded: Option<Result<Seq<u8>, Seq<Link>>>,
    |
        #![trigger processed(image_plan(decode_failure, kind, target_file), buffer, target_file, encoded)]
        (encoded is Some <==> image_plan(decode_failure, kind, target_file) is Convert) && outcome
            == processed(
            image_plan(decode_failure, kind, target_file),
            buffer,
            target_file,
            encoded,
        )
}

/// Encodes a decoded image as PNG; the encoder's error becomes a cause.
fn encode_picture(picture: &image::DynamicImage) -> (r: Result<Vec<u8>, Cause>) {
    match encode_png(picture) {
        Ok(bytes) => Ok(bytes),
        Err(error) => Err(Cause::new("ImageError", image_error_text(&error).as_str())),
    }
}

/// Brings an image into the canonical format. The result holds the bytes to
/// store, the path to store them under, and whether the image was converted.
///
/// The image is decoded and its format guessed; what is returned is what
/// comes of the plan for these two. So an image that is kept comes back
/// byte for byte under the path given; one that is converted gets the path
/// with the extension `.png`; and every failure is of the kind
/// `ImageProcessingFailed`.
pub fn post_process_image(buffer: &[u8], target_file: &str) -> (r: Result<
    (Vec<u8>, String, bool),
    ServerError,
>)
    ensures
        post_processed(result_view(r), buffer@, target_file@),
        match r {
            Ok((bytes, path, converted)) => if converted {
                path@ == png_path_of(target_file@)
            } else {
                bytes@ == buffer@ && path@ == target_file@
            },
            Err(error) => error@.kind == ErrorKind::ImageProcessingFailed,
        },
{
    let kind: Option<ImageKind> = guess_kind(buffer);
    let (failure, picture): (Option<Cause>, Option<image::DynamicImage>) = match decode_image(
        buffer,
    ) {
        Ok(picture) => (None, Some(picture)),
        Err(error) => {
            let cause = Cause::new("ImageError", image_error_text(&error).as_str());
            proof {
                cause.lemma_chain_nonempty();
            }
            (Some(cause), None)
        },
    };
    let ghost decode_failure = crate::server_error::chain_of(failure);
    assert(picture is Some <==> decode_failure.len() == 0);
    let plan = plan_image(failure, kind, target_file);
    let convert: bool = match &plan {
        Ok(ImagePlan::Convert(_)) => true,
        _ => false,
    };
    let encoded: Option<Result<Vec<u8>, Cause>> = if convert {
        match &picture {
            Some(decoded) => Some(encode_picture(decoded)),
            None => vstd::pervasive::unreached(),
        }
    } else {
        None
    };
    let ghost planned = plan_view(plan);
    let ghost given = encoded_view(encoded);
    let r = carry_out(plan, buffer, target_file, encoded);
    proof {
        assert(planned == image_plan(decode_failure, kind, target_file@));
        assert((given is Some <==> planned is Convert) && result_view(r) == processed(
            image_plan(decode_failure, kind, target_file@),
            buffer@,
            target_file@,
            given,
        ));
    }
    r
}

/// What the pipeline hands on: the bytes to write, the path to write them
/// to, and the text that tells the client what was stored.
#[derive(Debug)]
pub struct StoredFile {
    pub path: String,
    pub content: Vec<u8>,
    pub text: String,
}

/// The mathematical value of a [`StoredFile`].
pub ghost struct StoredFileView {
    pub path: Seq<char>,
    pub content: Seq<u8>,
    pub text: Seq<char>,
}

impl View for StoredFile {
    type V = StoredFileView;

    open spec fn view(&self) -> StoredFileView {
        StoredFileView { path: self.path@, content: self.content@, text: self.text@ }
    }
}

/// Where a file is stored: under the directory, named by the timestamp with
/// `:` and `+` replaced by `-`, an underscore, and the final component of
/// the name that the client gave.
pub open spec fn target_path(filename: Seq<char>, directory: Seq<char>, timestamp: Seq<char>) -> Seq<
    char,
> {
    joined_path(directory, file_safe(timestamp) + "_"@ + base_name_of(filename))
}

/// The path under which a file that was received at the time `timestamp` is
/// stored. Directory components of the client's file name are dropped.
pub fn target_file_at(filename: &str, directory: &str, timestamp: &str) -> (path: String)
    ensures
        path@ == target_path(filename@, directory@, timestamp@),
{
    let mut name: String = make_file_safe(timestamp);
    name.append("_");
    name.append(base_name(filename));
    join_path(directory, name.as_str())
}

/// The path under which a file that is received now is stored.
pub fn get_target_file(filename: &str, directory: &str) -> (path: String)
    ensures
        exists|timestamp: Seq<char>|
            #![trigger target_path(filename@, directory@, timestamp)]
            is_timestamp(timestamp) && path@ == target_path(filename@, directory@, timestamp),
{
    let timestamp: String = utc_timestamp();
    target_file_at(filename, directory, timestamp.as_str())
}

/// The text that tells the client what was stored: the number of bytes
/// received, for a converted image the number of bytes after conversion,
/// and the path.
pub open spec fn stored_text(received: nat, stored: nat, path: Seq<char>, converted: bool) -> Seq<
    char,
> {
    if converted {
        "Received "@ + decimal_text(received) + " bytes and converted to "@ + decimal_text(stored)
            + " bytes in "@ + path
    } else {
        "Stored "@ + decimal_text(received) + " bytes in "@ + path
    }
}

/// What is stored for the bytes received: without post-processing, the bytes
/// as they are under the tentative path; with it, what the post-processor
/// gave.
pub open spec fn stored_file_of(
    received: Seq<u8>,
    target: Seq<char>,
    processed: Option<(Seq<u8>, Seq<char>, bool)>,
) -> StoredFileView {
    match processed {
        None => StoredFileView {
            path: target,
            content: received,
            text: stored_text(received.len(), received.len(), target, false),
        },
        Some((bytes, path, converted)) => StoredFileView {
            path,
            content: bytes,
            text: stored_text(received.len(), bytes.len(), path, converted),
        },
    }
}

/// The view of what a post-processor gave.
pub open spec fn processed_view(processed: Option<(Vec<u8>, String, bool)>) -> Option<
    (Seq<u8>, Seq<char>, bool),
> {
    match processed {
        None => None,
        Some((bytes, path, converted)) => Some((bytes@, path@, converted)),
    }
}

/// Renders the text that tells the client what was stored.
fn render_stored_text(received: usize, stored: usize, path: &str, converted: bool) -> (text: String)
    ensures
        text@ == stored_text(received as nat, stored as nat, path@, converted),
{
    if converted {
        let mut text: String = String::from_str("Received ");
        text.append(decimal(received).as_str());
        text.append(" bytes and converted to ");
        text.append(decimal(stored).as_str());
        text.append(" bytes in ");
        text.append(path);
        text
    } else {
        let mut text: String = String::from_str("Stored ");
        text.append(decimal(received).as_str());
        text.append(" bytes in ");
        text.append(path);
        text
    }
}

/// Puts together what is stored, given the bytes received, the tentative
/// path and what the post-processor gave, if one ran.
pub fn finish_store(
    received: Vec<u8>,
    target: String,
    processed: Option<(Vec<u8>, String, bool)>,
) -> (file: StoredFile)
    ensures
        file@ == stored_file_of(received@, target@, processed_view(processed)),
{
    let count: usize = received.len();
    match processed {
        None => {
            let text: String = render_stored_text(count, count, target.as_str(), false);
            StoredFile { path: target, content: received, text }
        },
        Some((bytes, path, converted)) => {
            let text: String = render_stored_text(count, bytes.len(), path.as_str(), converted);
            StoredFile { path, content: bytes, text }
        },
    }
}

/// What is stored for an image whose decoded content is `bytes`: what
/// post-processing may give for it is stored, and its refusal is the
/// pipeline's.
pub open spec fn image_stored(r: Result<StoredFile, ServerError>, bytes: Seq<u8>, target: Seq<char>)
    -> bool {
    exists|outcome: Result<Processed, crate::server_error::ServerErrorView>|
        #![trigger post_processed(outcome, bytes, target)]
        post_processed(outcome, bytes, target) && match outcome {
            Ok(done) => r is Ok && r->Ok_0@ == stored_file_of(bytes, target, Some(done)),
            Err(error) => r is Err && r->Err_0@ == error,
        }
}

/// What `store_file_at` owes for given arguments.
///
/// Content that is not valid base64 is refused as `InvalidEncoding`, with
/// the decoder's error as the cause. Otherwise, without a post-processor the
/// decoded bytes are stored under the tentative path. With the image
/// post-processor, what post-processing gives for the decoded bytes and the
/// tentative path is stored: the bytes unchanged under that path for an
/// image that is kept, the encoder's bytes under the path with the extension
/// `.png` for one that is converted; and the refusal of an image is the
/// pipeline's refusal.
pub open spec fn store_result(
    r: Result<StoredFile, ServerError>,
    filename: Seq<char>,
    directory: Seq<char>,
    content: Seq<char>,
    timestamp: Seq<char>,
    post_processor: Option<PostProcessor>,
) -> bool {
    let target = target_path(filename, directory, timestamp);
    match base64_bytes(content) {
        None => r is Err && r->Err_0@.kind == ErrorKind::InvalidEncoding && r->Err_0@.message
            == "Decoding failed"@ && r->Err_0@.chain.len() == 1 && r->Err_0@.chain[0].name
            == "DecodeError"@,
        Some(bytes) => match post_processor {
            None => r is Ok && r->Ok_0@ == stored_file_of(bytes, target, None),
            Some(PostProcessor::Image) => image_stored(r, bytes, target),
        },
    }
}

/// Runs the pipeline for content received at the time `timestamp`: decodes
/// the content, finds the path, post-processes an image, and says what is
/// to be written and what the client is told.
pub fn store_file_at(
    filename: &str,
    directory: &str,
    content: &str,
    timestamp: &str,
    post_processor: Option<PostProcessor>,
) -> (r: Result<StoredFile, ServerError>)
    ensures
        store_result(r, filename@, directory@, content@, timestamp@, post_processor),
{
    let buffer: Vec<u8> = match base64_decode(content) {
        Ok(bytes) => bytes,
        Err(error) => {
            let cause = Cause::new("DecodeError", decode_error_text(&error).as_str());
            return Err(ServerError::InvalidEncoding(String::from_str("Decoding failed"), Some(cause)));
        },
    };
    let target: String = target_file_at(filename, directory, timestamp);
    match post_processor {
        None => Ok(finish_store(buffer, target, None)),
        Some(PostProcessor::Image) => {
            let outcome = post_process_image(buffer.as_slice(), target.as_str());
            let ghost shown = result_view(outcome);
            let r = match outcome {
                Err(error) => Err(error),
                Ok(done) => Ok(finish_store(buffer, target, Some(done))),
            };
            proof {
                assert(post_processed(shown, buffer@, target@) && match shown {
                    Ok(done) => r is Ok && r->Ok_0@ == stored_file_of(buffer@, target@, Some(done)),
                    Err(error) => r is Err && r->Err_0@ == error,
                });
            }
            r
        },
    }
}

/// Runs the pipeline for content received now. What it gives is what
/// [`store_file_at`] gives for the time of the call.
pub fn store_file(
    filename: &str,
    directory: &str,
    content: &str,
    post_processor: Option<PostProcessor>,
) -> (r: Result<StoredFile, ServerError>)
    ensures
        exists|timestamp: Seq<char>|
            #![trigger store_result(r, filename@, directory@, content@, timestamp, post_processor)]
            is_timestamp(timestamp) && store_result(
                r,
                filename@,
                directory@,
                content@,
                timestamp,
                post_processor,
            ),
{
    let timestamp: String = utc_timestamp();
    store_file_at(filename, directory, content, timestamp.as_str(), post_processor)
}


/// Whatever name the client gives, the file is stored in the directory
/// itself: what follows the last `/` of the path is the timestamp, an
/// underscore and the final component of the client's name, and nothing of
/// the client's name reaches the directories of the path.
pub proof fn lemma_stored_in_directory(
    filename: Seq<char>,
    directory: Seq<char>,
    timestamp: Seq<char>,
)
    requires
        !timestamp.contains('/'),
    ensures
        last_segment(target_path(filename, directory, timestamp)) == file_safe(timestamp) + "_"@
            + base_name_of(filename),
{
    let name = file_safe(timestamp) + "_"@ + base_name_of(filename);
    reveal_strlit("_");
    lemma_base_name_has_no_separator(filename);
    assert forall|i: int| 0 <= i < name.len() implies name[i] != '/' by {
        if i < timestamp.len() {
            assert(timestamp.contains(timestamp[i]));
            assert(name[i] == file_safe(timestamp)[i]);
        } else if i == timestamp.len() {
            assert(name[i] == '_');
        } else {
            let k = i - timestamp.len() - 1;
            assert(name[i] == base_name_of(filename)[k]);
            assert(base_name_of(filename).contains(base_name_of(filename)[k]));
        }
    }
    lemma_joined_path_keeps_name(directory, name);
}

} // verus!
