//! The chat sub-loop: one step per line the user types.

use vstd::prelude::*;

use crate::messages::{api_failure_message, api_failure_spec, ActionOutput};
use crate::text::{codes_of, norm_codes, region_matches, trim_bounds, trimmed};

verus! {

/// What one chat input line asks for: leaving the sub-loop, or submitting
/// a question.
#[derive(Debug, PartialEq, Eq)]
pub enum ChatStep {
    Quit,
    Ask(String),
}

/// Reads one chat line: the quit word — in any casing, with any surrounding
/// whitespace — leaves the sub-loop without any request; every other line
/// becomes a question, trimmed, to submit.
pub fn chat_step(line: String) -> (r: ChatStep)
    ensures
        r is Quit <==> norm_codes(line@) == codes_of("quit"@),
        (r matches ChatStep::Ask(q) ==> q@ == trimmed(line@)),
{
    let s: &str = line.as_str();
    let (lo, hi) = trim_bounds(s);
    if region_matches(s, lo, hi, "quit") {
        ChatStep::Quit
    } else {
        ChatStep::Ask(String::from_str(s.substring_char(lo, hi)))
    }
}

/// Decides what a chat answer prints: the response body verbatim on a
/// success status; on any other status, the status complaint and a hint
/// that a document may need to be loaded first.
pub fn render_chat_response(success: bool, status: String, body: String) -> (r: ActionOutput)
    ensures
        success ==> r.out_line == Some(body) && r.err_line is None,
        !success ==> (r.out_line matches Some(l) && l@ == "Did you load a document?"@) && (
        r.err_line matches Some(e) && e@ == api_failure_spec(status@)),
{
    if success {
        ActionOutput { out_line: Some(body), err_line: None }
    } else {
        ActionOutput {
            out_line: Some(String::from_str("Did you load a document?")),
            err_line: Some(api_failure_message(status.as_str())),
        }
    }
}

} // verus!
