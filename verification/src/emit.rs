//! The output emitter: the line that reports a submission to the driving
//! process.

use vstd::prelude::*;
use vstd::string::StringExecFns;

verus! {

/// A text written as a JSON string: in double quotes, with the characters
/// escaped that JSON asks to escape.
pub uninterp spec fn json_string_text(text: Seq<char>) -> Seq<char>;

/// Writes a text as a JSON string, by the `Display` of a
/// `serde_json::Value::String` that holds it.
#[verifier::external_body]
fn quote_json(text: &str) -> (quoted: String)
    ensures
        quoted@ == json_string_text(text@),
{
    serde_json::Value::String(text.to_owned()).to_string()
}

/// The line for a submission: a JSON object with `type` set to `input` and
/// `content` set to the submitted text, in this order, without spaces.
pub open spec fn submission_text(content: Seq<char>) -> Seq<char> {
    "{\"type\":\"input\",\"content\":"@ + json_string_text(content) + "}"@
}

/// Builds the line for a submission, without a line terminator.
pub fn submission_line(content: &str) -> (line: String)
    ensures
        line@ == submission_text(content@),
{
    let mut line = String::from_str("{\"type\":\"input\",\"content\":");
    let quoted = quote_json(content);
    line.append(quoted.as_str());
    line.append("}");
    line
}

} // verus!
