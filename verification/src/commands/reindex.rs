//! Copying documents between indices: the command's arguments, the exact
//! body of the reindex request, and how the job handle is read out of the
//! acceptance. The request itself and the polling that follows run through
//! the job tracker.

use vstd::prelude::*;
use vstd::string::StringExecFns;
use crate::json_text::{json_string, json_string_of};
use crate::tracker::JobHandle;
use crate::utils::output::Output;

verus! {

/// How long the tracker waits between two status polls of a reindex job.
pub const POLL_INTERVAL_MS: u64 = 15000;

/// Arguments for copying documents from a source to a destination.
pub struct Arguments {
    /// Name of the source index.
    pub source_index: String,
    /// Name of the destination index.
    pub dest_index: String,
    /// Output format.
    pub output: Output,
    /// Pretty print JSON output.
    pub pretty: bool,
}

/// The acceptance of a reindex request named no task: there is nothing to
/// poll.
#[derive(Debug, Clone, Copy, PartialEq, Eq, Structural)]
pub enum SubmitParseError {
    MissingTask,
}

/// The body of the reindex request: copy `source` into `dest`.
pub open spec fn reindex_body_text(source: Seq<char>, dest: Seq<char>) -> Seq<char> {
    "{\"source\":{\"index\":"@ + json_string_of(source) + "},\"dest\":{\"index\":"@
        + json_string_of(dest) + "}}"@
}

/// Renders the reindex body that copies `source` into `dest`.
pub fn reindex_body(source: &str, dest: &str) -> (r: String)
    ensures
        r@ == reindex_body_text(source@, dest@),
{
    let source_text = json_string(source);
    let dest_text = json_string(dest);
    let mut r = String::from_str("{\"source\":{\"index\":");
    r.append(source_text.as_str());
    r.append("},\"dest\":{\"index\":");
    r.append(dest_text.as_str());
    r.append("}}");
    proof {
        assert(r@ =~= reindex_body_text(source@, dest@));
    }
    r
}

/// Turns the acceptance's task field into the job handle to poll: the field
/// must be present, or the command fails before any poll.
pub fn handle_from_task_field(task: Option<String>) -> (r: Result<JobHandle, SubmitParseError>)
    ensures
        match task {
            Option::Some(t) => r matches Result::Ok(h) && h.id@ == t@,
            Option::None => r == Result::<JobHandle, SubmitParseError>::Err(
                SubmitParseError::MissingTask,
            ),
        },
{
    match task {
        Option::Some(t) => Result::Ok(JobHandle { id: t }),
        Option::None => Result::Err(SubmitParseError::MissingTask),
    }
}

} // verus!
