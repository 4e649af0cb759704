//! Still frames: the call of the extractor and the answer to the request.
//!
//! The frame itself is cut by a program outside this library. The library
//! says with which arguments the program is to be run and how the request
//! is answered once the program has run.

use vstd::prelude::*;
use vstd::string::*;
use crate::decimal::{decimal, push_decimal};
use crate::response::{Header, Response, ResponseView, message, message_response, not_found};

verus! {

/// How the request for a frame went.
#[derive(PartialEq, Eq, Debug)]
pub enum FrameOutcome {
    /// There is no such video.
    NotFound,
    /// The extractor could not be run.
    ExtractionFailed,
    /// The extractor ran and wrote this image.
    Frame(Vec<u8>),
}

/// The texts of a list of strings.
pub open spec fn texts(strings: Seq<String>) -> Seq<Seq<char>> {
    strings.map_values(|s: String| s@)
}

/// The arguments with which the extractor cuts one frame out of the video
/// at `input`, `seconds` into it, and writes it as a JPEG image to its
/// output.
pub open spec fn extractor_arguments(seconds: u32, input: Seq<char>) -> Seq<Seq<char>> {
    seq![
        "-ss"@,
        decimal(seconds as nat),
        "-i"@,
        input,
        "-vframes"@,
        "1"@,
        "-f"@,
        "image2pipe"@,
        "-vcodec"@,
        "mjpeg"@,
        "-"@,
    ]
}

/// The answer where the extractor could not be run.
pub open spec fn extraction_failed() -> ResponseView {
    message(500, "Failed to extract frame"@)
}

/// The answer that carries a frame.
pub open spec fn frame_body(image: Seq<u8>) -> ResponseView {
    ResponseView { status: 200, headers: seq![("Content-Type"@, "image/jpeg"@)], body: image }
}

/// The answer to the request for a frame.
pub open spec fn frame_response(outcome: FrameOutcome) -> ResponseView {
    match outcome {
        FrameOutcome::NotFound => not_found(),
        FrameOutcome::ExtractionFailed => extraction_failed(),
        FrameOutcome::Frame(image) => frame_body(image@),
    }
}

/// Lists the arguments for the extractor.
pub fn frame_arguments(seconds: u32, input: &str) -> (arguments: Vec<String>)
    ensures
        texts(arguments@) == extractor_arguments(seconds, input@),
{
    let mut time = String::new();
    push_decimal(&mut time, seconds as u64);
    let mut arguments = Vec::new();
    arguments.push(String::from_str("-ss"));
    arguments.push(time);
    arguments.push(String::from_str("-i"));
    arguments.push(String::from_str(input));
    arguments.push(String::from_str("-vframes"));
    arguments.push(String::from_str("1"));
    arguments.push(String::from_str("-f"));
    arguments.push(String::from_str("image2pipe"));
    arguments.push(String::from_str("-vcodec"));
    arguments.push(String::from_str("mjpeg"));
    arguments.push(String::from_str("-"));
    arguments
}

/// Answers the request for a frame.
pub fn serve_frame(outcome: FrameOutcome) -> (response: Response)
    ensures
        response@ == frame_response(outcome),
{
    proof {
        reveal_strlit("Video not found");
        reveal_strlit("Failed to extract frame");
    }
    match outcome {
        FrameOutcome::NotFound => message_response(404, "Video not found"),
        FrameOutcome::ExtractionFailed => message_response(500, "Failed to extract frame"),
        FrameOutcome::Frame(image) => {
            let mut headers = Vec::new();
            headers.push(
                Header {
                    name: String::from_str("Content-Type"),
                    value: String::from_str("image/jpeg"),
                },
            );
            let response = Response { status: 200, headers, body: image };
            assert(response@.headers =~= frame_body(image@).headers);
            response
        },
    }
}

} // verus!
