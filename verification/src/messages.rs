//! The exact text of every line the program prints about an action.

use vstd::prelude::*;

verus! {

/// What the shell prints once an action step is decided: at most one line
/// for standard output and one for the error stream.
#[derive(Debug, PartialEq, Eq)]
pub struct ActionOutput {
    pub out_line: Option<String>,
    pub err_line: Option<String>,
}

/// The complaint printed when a required environment variable is absent.
pub open spec fn missing_env_spec(name: Seq<char>) -> Seq<char> {
    "Error: "@ + name + " environment variable not found."@
}

/// The complaint printed when the backend answers with a non-success status.
pub open spec fn api_failure_spec(status: Seq<char>) -> Seq<char> {
    "Failed to notify API. Status: "@ + status
}

/// The complaint printed when a request cannot be sent or completed.
pub open spec fn transport_error_spec(detail: Seq<char>) -> Seq<char> {
    "Error sending API request: "@ + detail
}

/// The complaint printed when the document copy fails.
pub open spec fn copy_error_spec(detail: Seq<char>) -> Seq<char> {
    "Error copying file: "@ + detail
}

/// The notice printed when the document copy succeeds.
pub open spec fn loaded_spec(original_name: Seq<char>, new_name: Seq<char>) -> Seq<char> {
    "File '"@ + original_name + "' loaded successfully as '"@ + new_name + "'!"@
}

/// Formats the missing-variable complaint for the variable `name`.
pub fn missing_env_message(name: &str) -> (r: String)
    ensures
        r@ == missing_env_spec(name@),
{
    let mut out: String = String::from_str("Error: ");
    out.append(name);
    out.append(" environment variable not found.");
    proof {
        assert(out@ =~= missing_env_spec(name@));
    }
    out
}

/// Formats the non-success status complaint for a status line.
pub fn api_failure_message(status: &str) -> (r: String)
    ensures
        r@ == api_failure_spec(status@),
{
    let mut out: String = String::from_str("Failed to notify API. Status: ");
    out.append(status);
    proof {
        assert(out@ =~= api_failure_spec(status@));
    }
    out
}

/// Formats the transport-failure complaint for an error's text.
pub fn transport_error_message(detail: &str) -> (r: String)
    ensures
        r@ == transport_error_spec(detail@),
{
    let mut out: String = String::from_str("Error sending API request: ");
    out.append(detail);
    proof {
        assert(out@ =~= transport_error_spec(detail@));
    }
    out
}

/// Formats the copy-failure complaint for an error's text.
pub fn copy_error_message(detail: &str) -> (r: String)
    ensures
        r@ == copy_error_spec(detail@),
{
    let mut out: String = String::from_str("Error copying file: ");
    out.append(detail);
    proof {
        assert(out@ =~= copy_error_spec(detail@));
    }
    out
}

/// Formats the copy-success notice for the two file names.
pub fn loaded_message(original_name: &str, new_name: &str) -> (r: String)
    ensures
        r@ == loaded_spec(original_name@, new_name@),
{
    let mut out: String = String::from_str("File '");
    out.append(original_name);
    out.append("' loaded successfully as '");
    out.append(new_name);
    out.append("'!");
    proof {
        assert(out@ =~= loaded_spec(original_name@, new_name@));
    }
    out
}

} // verus!
