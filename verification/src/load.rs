//! The load-file action: resolving configuration, planning the copy under
//! the canonical document name, and shaping the notification that follows.

use vstd::prelude::*;

use crate::json::{load_body, load_body_spec};
use crate::messages::{
    api_failure_message, api_failure_spec, missing_env_message, missing_env_spec, ActionOutput,
};
use crate::paths::{file_name_of, file_name_spec, join_path, joined_path};

verus! {

/// Everything the shell needs to copy a selected document: where it comes
/// from, what it was called, and the canonical name and path it is stored
/// under.
#[derive(Debug, PartialEq, Eq)]
pub struct CopyPlan {
    pub source: String,
    pub original_name: String,
    pub new_name: String,
    pub destination: String,
}

/// Resolves a required configuration value: the value as read from the
/// process environment, or the exact complaint to print when it is absent.
pub fn env_required(value: Option<String>, name: &str) -> (r: Result<String, String>)
    ensures
        value is None <==> r is Err,
        (r matches Err(m) ==> m@ == missing_env_spec(name@)),
        (value matches Some(v) ==> r matches Ok(d) && d == v),
{
    match value {
        Some(v) => Ok(v),
        None => Err(missing_env_message(name)),
    }
}

/// Turns the file dialog's answer into a copy plan. A cancelled dialog
/// yields no plan — nothing to copy, nothing to send. A selected file is
/// always stored as `doc.pdf` directly inside the document directory,
/// whatever it was called before.
pub fn plan_copy(dir: &str, picked: Option<String>) -> (r: Option<CopyPlan>)
    ensures
        picked is None <==> r is None,
        (r matches Some(plan) ==> picked matches Some(p) && plan.source == p
            && plan.original_name@ == file_name_spec(p@) && plan.new_name@ == "doc.pdf"@
            && plan.destination@ == joined_path(dir@, "doc.pdf"@)),
{
    match picked {
        None => None,
        Some(p) => {
            let original_name: String = file_name_of(p.as_str());
            let new_name: String = String::from_str("doc.pdf");
            let destination: String = join_path(dir, "doc.pdf");
            Some(CopyPlan { source: p, original_name, new_name, destination })
        },
    }
}

/// Builds the notification body announcing that the plan's copy succeeded.
pub fn notify_body(plan: &CopyPlan) -> (r: String)
    ensures
        r@ == load_body_spec(plan.original_name@, plan.destination@),
{
    load_body(plan.original_name.as_str(), plan.destination.as_str())
}

/// Decides what the notification's outcome prints: the response body on a
/// success status, the status complaint on any other.
pub fn render_load_response(success: bool, status: String, body: String) -> (r: ActionOutput)
    ensures
        success ==> r.out_line == Some(body) && r.err_line is None,
        !success ==> r.out_line is None && (r.err_line matches Some(e) && e@ == api_failure_spec(
            status@,
        )),
{
    if success {
        ActionOutput { out_line: Some(body), err_line: None }
    } else {
        ActionOutput { out_line: None, err_line: Some(api_failure_message(status.as_str())) }
    }
}

} // verus!
