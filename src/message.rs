use vstd::prelude::*;
use crate::outcome::{LaunchError, LaunchErrorKind, LaunchErrorView};
use crate::request::SourceSpan;

verus! {

/// The `Debug` rendering of a list of strings.
pub uninterp spec fn debug_list_text(items: Seq<Seq<char>>) -> Seq<char>;

/// The text that lossy UTF-8 decoding makes of some bytes.
pub uninterp spec fn lossy_text(bytes: Seq<u8>) -> Seq<char>;

/// Relies on the `Debug` impl of `Vec<String>` (through `format!`): the
/// rendering depends on the strings alone.
#[verifier::external_body]
fn debug_list(items: &Vec<String>) -> (r: String)
    ensures
        r@ == debug_list_text(items.deep_view()),
{
    format!("{:?}", items)
}

/// Relies on `String::from_utf8_lossy`: the text depends on the bytes alone,
/// and no bytes give no text.
#[verifier::external_body]
pub(crate) fn decode_lossy(bytes: &Vec<u8>) -> (r: String)
    ensures
        r@ == lossy_text(bytes@),
        bytes@.len() == 0 ==> r@.len() == 0,
{
    String::from_utf8_lossy(bytes.as_slice()).into_owned()
}

/// One of the two output streams of a process.
#[derive(Clone, Copy, Debug, PartialEq, Eq, Structural)]
pub enum Stream {
    Stdout,
    Stderr,
}

pub open spec fn stream_word(stream: Stream) -> Seq<char> {
    match stream {
        Stream::Stdout => "stdout"@,
        Stream::Stderr => "stderr"@,
    }
}

pub open spec fn capture_kind(stream: Stream) -> LaunchErrorKind {
    match stream {
        Stream::Stdout => LaunchErrorKind::StdoutCaptureUnavailable,
        Stream::Stderr => LaunchErrorKind::StderrCaptureUnavailable,
    }
}

/// How a launch names its process in messages: the quoted command, and the
/// rendered argument list where there is one.
pub open spec fn described(command: Seq<char>, rendered: Option<Seq<char>>) -> Seq<char> {
    match rendered {
        Some(list) => "'"@ + command + "' with args "@ + list,
        None => "'"@ + command + "'"@,
    }
}

/// The name of a launch of `command` with `arguments`.
pub open spec fn launch_name_text(command: Seq<char>, arguments: Option<Seq<Seq<char>>>) -> Seq<
    char,
> {
    match arguments {
        Some(a) => described(command, Some(debug_list_text(a))),
        None => described(command, None),
    }
}

/// The diagnostic line of a launch in debug mode.
pub open spec fn start_line_text(name: Seq<char>) -> Seq<char> {
    "Starting process "@ + name
}

pub open spec fn no_command(span: SourceSpan) -> LaunchErrorView {
    LaunchErrorView {
        kind: LaunchErrorKind::NoCommand,
        label: "No command given"@,
        message: "No command was given to start in the background"@,
        span,
    }
}

pub open spec fn spawn_failure(name: Seq<char>, os_error: Seq<char>, span: SourceSpan) -> LaunchErrorView {
    LaunchErrorView {
        kind: LaunchErrorKind::SpawnFailed,
        label: "Could not start process"@,
        message: "Could not start process "@ + name + ": "@ + os_error,
        span,
    }
}

pub open spec fn capture_failure(stream: Stream, name: Seq<char>, span: SourceSpan) -> LaunchErrorView {
    LaunchErrorView {
        kind: capture_kind(stream),
        label: "Could not capture "@ + stream_word(stream) + " of process"@,
        message: "Could not capture "@ + stream_word(stream) + " of process "@ + name,
        span,
    }
}

pub open spec fn read_failure(
    stream: Stream,
    name: Seq<char>,
    os_error: Seq<char>,
    span: SourceSpan,
) -> LaunchErrorView {
    LaunchErrorView {
        kind: capture_kind(stream),
        label: "Could not read "@ + stream_word(stream) + " of process"@,
        message: "Could not read "@ + stream_word(stream) + " of process "@ + name + ". Error: "@
            + os_error,
        span,
    }
}

pub open spec fn wait_failure(name: Seq<char>, os_error: Seq<char>, span: SourceSpan) -> LaunchErrorView {
    LaunchErrorView {
        kind: LaunchErrorKind::WaitFailed,
        label: "Could not wait for process"@,
        message: "Could not wait for process "@ + name + ". Error: "@ + os_error,
        span,
    }
}

/// The message of an unsuccessful exit: the exit status, then the standard
/// error text where there is any.
pub open spec fn exit_message(name: Seq<char>, status: Seq<char>, stderr_text: Seq<char>) -> Seq<
    char,
> {
    let head = "Process "@ + name + " did not exit successfully. Exit code: "@ + status;
    if stderr_text.len() == 0 {
        head
    } else {
        head + ". Error: "@ + stderr_text
    }
}

pub open spec fn exit_failure(
    name: Seq<char>,
    status: Seq<char>,
    stderr_text: Seq<char>,
    span: SourceSpan,
) -> LaunchErrorView {
    LaunchErrorView {
        kind: LaunchErrorKind::NonZeroExit,
        label: "Process did not exit successfully"@,
        message: exit_message(name, status, stderr_text),
        span,
    }
}

fn stream_name(stream: Stream) -> (r: &'static str)
    ensures
        r@ == stream_word(stream),
{
    match stream {
        Stream::Stdout => "stdout",
        Stream::Stderr => "stderr",
    }
}

/// The name of a launch, given the command and, where there is an argument
/// list, its rendering.
pub fn describe(command: &str, rendered: Option<&str>) -> (r: String)
    ensures
        r@ == described(
            command@,
            match rendered {
                Some(s) => Some(s@),
                None => None,
            },
        ),
{
    let mut r = String::from_str("'");
    r.append(command);
    match rendered {
        Some(list) => {
            r.append("' with args ");
            r.append(list);
        },
        None => {
            r.append("'");
        },
    }
    r
}

/// The name of a launch of `command` with `arguments`.
pub fn launch_name(command: &str, arguments: &Option<Vec<String>>) -> (r: String)
    ensures
        r@ == launch_name_text(command@, arguments.deep_view()),
{
    match arguments {
        Some(a) => {
            let list = debug_list(a);
            describe(command, Some(list.as_str()))
        },
        None => describe(command, None),
    }
}

/// The diagnostic line of a launch in debug mode.
pub fn start_line(name: &str) -> (r: String)
    ensures
        r@ == start_line_text(name@),
{
    let mut r = String::from_str("Starting process ");
    r.append(name);
    r
}

pub fn no_command_error(span: SourceSpan) -> (r: LaunchError)
    ensures
        r@ == no_command(span),
{
    LaunchError {
        kind: LaunchErrorKind::NoCommand,
        label: String::from_str("No command given"),
        message: String::from_str("No command was given to start in the background"),
        span,
    }
}

pub fn spawn_failed_error(name: &str, os_error: &str, span: SourceSpan) -> (r: LaunchError)
    ensures
        r@ == spawn_failure(name@, os_error@, span),
{
    let mut message = String::from_str("Could not start process ");
    message.append(name);
    message.append(": ");
    message.append(os_error);
    LaunchError {
        kind: LaunchErrorKind::SpawnFailed,
        label: String::from_str("Could not start process"),
        message,
        span,
    }
}

fn capture_error_kind(stream: Stream) -> (r: LaunchErrorKind)
    ensures
        r == capture_kind(stream),
{
    match stream {
        Stream::Stdout => LaunchErrorKind::StdoutCaptureUnavailable,
        Stream::Stderr => LaunchErrorKind::StderrCaptureUnavailable,
    }
}

pub fn capture_failed_error(stream: Stream, name: &str, span: SourceSpan) -> (r: LaunchError)
    ensures
        r@ == capture_failure(stream, name@, span),
{
    let word = stream_name(stream);
    let mut label = String::from_str("Could not capture ");
    label.append(word);
    label.append(" of process");
    let mut message = String::from_str("Could not capture ");
    message.append(word);
    message.append(" of process ");
    message.append(name);
    LaunchError { kind: capture_error_kind(stream), label, message, span }
}

pub fn read_failed_error(stream: Stream, name: &str, os_error: &str, span: SourceSpan) -> (r:
    LaunchError)
    ensures
        r@ == read_failure(stream, name@, os_error@, span),
{
    let word = stream_name(stream);
    let mut label = String::from_str("Could not read ");
    label.append(word);
    label.append(" of process");
    let mut message = String::from_str("Could not read ");
    message.append(word);
    message.append(" of process ");
    message.append(name);
    message.append(". Error: ");
    message.append(os_error);
    LaunchError { kind: capture_error_kind(stream), label, message, span }
}

pub fn wait_failed_error(name: &str, os_error: &str, span: SourceSpan) -> (r: LaunchError)
    ensures
        r@ == wait_failure(name@, os_error@, span),
{
    let mut message = String::from_str("Could not wait for process ");
    message.append(name);
    message.append(". Error: ");
    message.append(os_error);
    LaunchError {
        kind: LaunchErrorKind::WaitFailed,
        label: String::from_str("Could not wait for process"),
        message,
        span,
    }
}

/// The error of an unsuccessful exit, given the exit status as text and the
/// decoded standard error.
pub fn exit_failed_error(name: &str, status: &str, stderr_text: &str, span: SourceSpan) -> (r:
    LaunchError)
    ensures
        r@ == exit_failure(name@, status@, stderr_text@, span),
{
    let mut message = String::from_str("Process ");
    message.append(name);
    message.append(" did not exit successfully. Exit code: ");
    message.append(status);
    if !stderr_text.is_empty() {
        message.append(". Error: ");
        message.append(stderr_text);
    }
    LaunchError {
        kind: LaunchErrorKind::NonZeroExit,
        label: String::from_str("Process did not exit successfully"),
        message,
        span,
    }
}

} // verus!
