//! How a run of the formatter ended, and what that means for the user.

use vstd::prelude::*;
use vstd::utf8::*;

verus! {

/// How a formatter process ended, as plain values.
#[derive(Clone, Debug, PartialEq, Eq)]
pub enum ProcessResult {
    /// The process could not be started; the text says why.
    LaunchFailed(String),
    /// The process ran to completion.
    Exited { success: bool, stdout: Vec<u8>, stderr: Vec<u8> },
}

pub enum ProcessResultView {
    LaunchFailed(Seq<char>),
    Exited { success: bool, stdout: Seq<u8>, stderr: Seq<u8> },
}

impl View for ProcessResult {
    type V = ProcessResultView;

    open spec fn view(&self) -> ProcessResultView {
        match *self {
            ProcessResult::LaunchFailed(why) => ProcessResultView::LaunchFailed(why@),
            ProcessResult::Exited { success, stdout, stderr } => ProcessResultView::Exited {
                success,
                stdout: stdout@,
                stderr: stderr@,
            },
        }
    }
}

/// Either the formatted text or the message of a failure.
#[derive(Clone, Debug, PartialEq, Eq)]
pub enum FormatOutcome {
    Success(String),
    Error(String),
}

pub enum FormatOutcomeView {
    Success(Seq<char>),
    Error(Seq<char>),
}

impl View for FormatOutcome {
    type V = FormatOutcomeView;

    open spec fn view(&self) -> FormatOutcomeView {
        match *self {
            FormatOutcome::Success(text) => FormatOutcomeView::Success(text@),
            FormatOutcome::Error(message) => FormatOutcomeView::Error(message@),
        }
    }
}

/// The text that permissive UTF-8 decoding makes of `bytes`: each invalid
/// sequence gives way to the replacement character.
pub uninterp spec fn lossy_text(bytes: Seq<u8>) -> Seq<char>;

/// `String::from_utf8_lossy` of std, not verified here. The contract names the
/// decoded text after the bytes alone and claims that bytes which are valid
/// UTF-8 decode to exactly the text they encode.
#[verifier::external_body]
fn decode_lossy(bytes: &[u8]) -> (text: String)
    ensures
        text@ == lossy_text(bytes@),
        valid_utf8(bytes@) ==> text@ == decode_utf8(bytes@),
{
    String::from_utf8_lossy(bytes).into_owned()
}

/// The outcome that a process result stands for: a launch failure gives its
/// description, an unsuccessful exit the decoded error stream, a successful
/// exit the decoded output stream.
pub open spec fn outcome_of(result: ProcessResultView) -> FormatOutcomeView {
    match result {
        ProcessResultView::LaunchFailed(why) => FormatOutcomeView::Error(why),
        ProcessResultView::Exited { success, stdout, stderr } => if success {
            FormatOutcomeView::Success(lossy_text(stdout))
        } else {
            FormatOutcomeView::Error(lossy_text(stderr))
        },
    }
}

/// Reads a process result into an outcome. Decoding never fails.
pub fn read_result(result: ProcessResult) -> (outcome: FormatOutcome)
    ensures
        outcome@ == outcome_of(result@),
        result matches ProcessResult::Exited { success, stdout, stderr } ==> {
            &&& success && valid_utf8(stdout@) ==> outcome@ == FormatOutcomeView::Success(
                decode_utf8(stdout@),
            )
            &&& !success && valid_utf8(stderr@) ==> outcome@ == FormatOutcomeView::Error(
                decode_utf8(stderr@),
            )
        },
{
    match result {
        ProcessResult::LaunchFailed(why) => FormatOutcome::Error(why),
        ProcessResult::Exited { success, stdout, stderr } => {
            if success {
                FormatOutcome::Success(decode_lossy(stdout.as_slice()))
            } else {
                FormatOutcome::Error(decode_lossy(stderr.as_slice()))
            }
        },
    }
}

/// The line shown to the user for an error message.
pub open spec fn error_line(message: Seq<char>) -> Seq<char> {
    "An error occured: "@ + message
}

/// Builds the line shown to the user for an error message.
pub fn format_error(message: &str) -> (line: String)
    ensures
        line@ == error_line(message@),
{
    String::from_str("An error occured: ").concat(message)
}

} // verus!
