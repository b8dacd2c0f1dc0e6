use vstd::prelude::*;

use crate::errors::WorkerError;
use crate::text::{spec_trim_end, trim_end};

verus! {

/// One decoded response: a single line of payload text, already stripped of
/// trailing whitespace and known to be one well-formed payload document.
#[derive(Debug)]
pub struct ResponsePayload {
    pub text: String,
}

/// Whether a piece of text parses as one well-formed payload document.
/// Parsing is deterministic, so this is a function of the characters alone.
pub uninterp spec fn parses_as_json(s: Seq<char>) -> bool;

/// Relies on `serde_json::from_str::<serde_json::Value>`: whether a string is
/// one well-formed JSON document depends on the characters alone.
#[verifier::external_body]
fn json_well_formed(s: &str) -> (r: bool)
    ensures
        r == parses_as_json(s@),
{
    serde_json::from_str::<serde_json::Value>(s).is_ok()
}

/// A single worker command line: `<verb>:<argument>` followed by a newline.
pub open spec fn spec_command_line(verb: Seq<char>, arg: Seq<char>) -> Seq<char> {
    verb + seq![':'] + arg + seq!['\n']
}

/// Builds the line sent to the worker for one command.
pub fn encode_command(verb: &str, arg: &str) -> (r: String)
    ensures
        r@ == spec_command_line(verb@, arg@),
{
    let mut out = String::new();
    out.append(verb);
    out.append(":");
    out.append(arg);
    out.append("\n");
    proof {
        reveal_strlit(":");
        reveal_strlit("\n");
        assert(out@ =~= spec_command_line(verb@, arg@));
    }
    out
}

/// The command line that asks the worker to process one image.
pub fn encode_process_request(image_path: &str) -> (r: String)
    ensures
        r@ == spec_command_line("process_image"@, image_path@),
{
    encode_command("process_image", image_path)
}

/// The reserved line that asks the worker to exit; it carries no argument.
pub fn exit_command() -> (r: String)
    ensures
        r@ == "exit\n"@,
{
    String::from_str("exit\n")
}

/// Decodes one response line: strips trailing whitespace and checks that the
/// rest is one well-formed payload document. A line that fails the check
/// yields a decode error that keeps the exact offending text.
pub fn decode_response(line: &str) -> (r: Result<ResponsePayload, WorkerError>)
    ensures
        parses_as_json(spec_trim_end(line@)) ==> (r matches Ok(p) && p.text@ == spec_trim_end(
            line@,
        )),
        !parses_as_json(spec_trim_end(line@)) ==> (r matches Err(
            WorkerError::ProtocolDecode { raw },
        ) && raw@ == spec_trim_end(line@)),
{
    let text = trim_end(line);
    if json_well_formed(text.as_str()) {
        Ok(ResponsePayload { text })
    } else {
        Err(WorkerError::ProtocolDecode { raw: text })
    }
}

} // verus!
