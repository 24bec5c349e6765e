//! What an invocation leaves behind: the text for standard output, the text
//! for standard error, and the exit code, for each way a run can end.
use vstd::prelude::*;

verus! {

/// The end of a run: everything printed to standard output, everything
/// printed to standard error, and the process exit code.
pub struct Outcome {
    pub out: String,
    pub err: String,
    pub code: u8,
}

pub open spec fn version_text(host: Seq<char>, model: Seq<char>) -> Seq<char> {
    "ask v1.0.0 (Rust)\nHost: "@ + host + "\nDefault model: "@ + model + "\n"@
}

pub open spec fn usage_text() -> Seq<char> {
    "Error: No prompt provided\nUsage: ask [OPTIONS] <PROMPT>...\n"@
}

pub open spec fn error_text(desc: Seq<char>) -> Seq<char> {
    "Error: "@ + desc + "\n"@
}

pub open spec fn list_error_text(desc: Seq<char>) -> Seq<char> {
    "Error listing models: "@ + desc + "\n"@
}

pub open spec fn write_error_text(path: Seq<char>, desc: Seq<char>) -> Seq<char> {
    "Error writing to "@ + path + ": "@ + desc + "\n"@
}

pub open spec fn written_text(path: Seq<char>) -> Seq<char> {
    "Written to "@ + path + "\n"@
}

/// The version path: the program identifier, the resolved host and the
/// resolved default model on standard output, success, no error text.
pub fn version_outcome(host: &str, model: &str) -> (o: Outcome)
    ensures
        o.out@ == version_text(host@, model@),
        o.err@.len() == 0,
        o.code == 0,
{
    let mut out = String::from_str("ask v1.0.0 (Rust)\nHost: ");
    out.append(host);
    out.append("\nDefault model: ");
    out.append(model);
    out.append("\n");
    Outcome { out, err: String::new(), code: 0 }
}

/// The user error for an empty composed prompt: usage on standard error,
/// exit 1, nothing on standard output.
pub fn usage_failure() -> (o: Outcome)
    ensures
        o.out@.len() == 0,
        o.err@ == usage_text(),
        o.code == 1,
{
    Outcome {
        out: String::new(),
        err: String::from_str("Error: No prompt provided\nUsage: ask [OPTIONS] <PROMPT>...\n"),
        code: 1,
    }
}

/// Any chat transport or decode failure: a diagnostic on standard error,
/// exit 1, and nothing at all on standard output.
pub fn chat_failure(desc: &str) -> (o: Outcome)
    ensures
        o.out@.len() == 0,
        o.err@ == error_text(desc@),
        o.code == 1,
{
    let mut err = String::from_str("Error: ");
    err.append(desc);
    err.append("\n");
    Outcome { out: String::new(), err, code: 1 }
}

/// Any listing transport or decode failure, reported the same way.
pub fn list_failure(desc: &str) -> (o: Outcome)
    ensures
        o.out@.len() == 0,
        o.err@ == list_error_text(desc@),
        o.code == 1,
{
    let mut err = String::from_str("Error listing models: ");
    err.append(desc);
    err.append("\n");
    Outcome { out: String::new(), err, code: 1 }
}

/// A rendered listing goes to standard output unchanged.
pub fn list_success(listing: String) -> (o: Outcome)
    ensures
        o.out == listing,
        o.err@.len() == 0,
        o.code == 0,
{
    Outcome { out: listing, err: String::new(), code: 0 }
}

/// A failure writing the reply to the requested file.
pub fn file_write_failure(path: &str, desc: &str) -> (o: Outcome)
    ensures
        o.out@.len() == 0,
        o.err@ == write_error_text(path@, desc@),
        o.code == 1,
{
    let mut err = String::from_str("Error writing to ");
    err.append(path);
    err.append(": ");
    err.append(desc);
    err.append("\n");
    Outcome { out: String::new(), err, code: 1 }
}

/// The confirmation after the reply went to a file: a line naming the path.
pub fn file_written(path: &str) -> (o: Outcome)
    ensures
        o.out@ == written_text(path@),
        o.err@.len() == 0,
        o.code == 0,
{
    let mut out = String::from_str("Written to ");
    out.append(path);
    out.append("\n");
    Outcome { out, err: String::new(), code: 0 }
}

/// Where a successful reply goes: byte for byte into the named file when a
/// path was given, else to standard output followed by one newline.
pub enum SinkStep {
    WriteFile { path: String, contents: String },
    Emit(Outcome),
}

pub fn handle_reply(response: String, output: Option<String>) -> (s: SinkStep)
    ensures
        output is Some ==> (s matches SinkStep::WriteFile { path, contents } && path == output->0
            && contents == response),
        output is None ==> (s matches SinkStep::Emit(o) && o.out@ == response@ + "\n"@
            && o.err@.len() == 0 && o.code == 0),
{
    match output {
        Some(path) => SinkStep::WriteFile { path, contents: response },
        None => {
            let mut out = response;
            out.append("\n");
            SinkStep::Emit(Outcome { out, err: String::new(), code: 0 })
        },
    }
}

} // verus!
