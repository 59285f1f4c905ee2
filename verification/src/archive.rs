//! The command lines of the archive tool, and the text of what it writes.

use vstd::prelude::*;
use vstd::utf8::{decode_utf8, valid_utf8};

verus! {

/// Name under which the archive tool is packaged with the application.
pub const ARCHIVE_TOOL: &'static str = "booststudio";

/// The arguments that unpack the archive `source` into `destination`.
pub open spec fn unpack_args(source: Seq<char>, destination: Seq<char>) -> Seq<Seq<char>> {
    seq!["psarc"@, "unpack"@, "--input"@, source, "--output"@, destination]
}

/// The arguments that pack the directory `source` into the archive
/// `file_name` below `destination`.
pub open spec fn pack_args(source: Seq<char>, file_name: Seq<char>, destination: Seq<char>) -> Seq<
    Seq<char>,
> {
    seq![
        "psarc"@,
        "pack"@,
        "--input"@,
        source,
        "--output"@,
        destination,
        "--filename"@,
        file_name,
    ]
}

/// The arguments with which the archive tool unpacks `source_path` into
/// `destination_path`.
pub fn unpack_arguments(source_path: &str, destination_path: &str) -> (args: Vec<String>)
    ensures
        args.deep_view() == unpack_args(source_path@, destination_path@),
{
    let mut args: Vec<String> = Vec::new();
    args.push(String::from_str("psarc"));
    args.push(String::from_str("unpack"));
    args.push(String::from_str("--input"));
    args.push(String::from_str(source_path));
    args.push(String::from_str("--output"));
    args.push(String::from_str(destination_path));
    assert(args.deep_view() =~= unpack_args(source_path@, destination_path@));
    args
}

/// The arguments with which the archive tool packs `source_directory_path`
/// into the archive `output_file_name` below `destination_directory_path`.
pub fn pack_arguments(
    source_directory_path: &str,
    output_file_name: &str,
    destination_directory_path: &str,
) -> (args: Vec<String>)
    ensures
        args.deep_view() == pack_args(
            source_directory_path@,
            output_file_name@,
            destination_directory_path@,
        ),
{
    let mut args: Vec<String> = Vec::new();
    args.push(String::from_str("psarc"));
    args.push(String::from_str("pack"));
    args.push(String::from_str("--input"));
    args.push(String::from_str(source_directory_path));
    args.push(String::from_str("--output"));
    args.push(String::from_str(destination_directory_path));
    args.push(String::from_str("--filename"));
    args.push(String::from_str(output_file_name));
    assert(args.deep_view() =~= pack_args(
        source_directory_path@,
        output_file_name@,
        destination_directory_path@,
    ));
    args
}

/// `std::str::from_utf8`. Trusted: the bytes are accepted exactly when they
/// are valid UTF-8, and the text is then what they decode to.
#[verifier::external_body]
fn text_of_utf8(bytes: &[u8]) -> (text: Option<String>)
    ensures
        text is Some <==> valid_utf8(bytes@),
        text matches Some(t) ==> t@ == decode_utf8(bytes@),
{
    match std::str::from_utf8(bytes) {
        Ok(text) => Some(text.to_owned()),
        Err(_) => None,
    }
}

/// What the tool's process was seen to do.
pub enum ToolEvent {
    /// It wrote a line to its standard output.
    Stdout(Vec<u8>),
    /// Anything else: output elsewhere, an error, its end.
    Other,
}

/// What an event has to say.
pub enum EventText {
    /// A line of text.
    Line(String),
    /// Bytes on standard output that are no valid UTF-8.
    Malformed,
    /// Nothing that is passed on.
    Silent,
}

/// Reads an event: a line on standard output yields its text where it is
/// valid UTF-8 and is malformed where it is not; any other event is silent.
pub fn read_event(event: &ToolEvent) -> (text: EventText)
    ensures
        match text {
            EventText::Line(line) => event matches ToolEvent::Stdout(bytes) && valid_utf8(bytes@)
                && line@ == decode_utf8(bytes@),
            EventText::Malformed => event matches ToolEvent::Stdout(bytes) && !valid_utf8(
                bytes@,
            ),
            EventText::Silent => event is Other,
        },
{
    match event {
        ToolEvent::Stdout(bytes) => match text_of_utf8(bytes.as_slice()) {
            Some(line) => EventText::Line(line),
            None => EventText::Malformed,
        },
        ToolEvent::Other => EventText::Silent,
    }
}

} // verus!
