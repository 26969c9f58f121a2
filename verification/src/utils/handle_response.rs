//! The decision half of response handling: what a finished request gets
//! rendered as, given the requested format and whether the request
//! succeeded. The writing itself is the caller's concern.

use vstd::prelude::*;
use crate::utils::output::Output;

verus! {

/// What to render for a finished request.
#[derive(Debug, Copy, Clone, PartialEq, Eq, Structural)]
pub enum RenderPlan {
    /// Print the success message.
    SuccessMessage,
    /// Print the response body as JSON.
    SuccessBody,
    /// Print the error message and the error's reason and status as a table.
    ErrorMessageAndTable,
    /// Print the server's error document as JSON.
    ErrorBody,
}

/// The rendering a finished request gets: messages and tables in the human
/// friendly format, the raw documents as JSON.
pub open spec fn spec_response_plan(output: Output, success: bool) -> RenderPlan {
    match output {
        Output::Default => if success {
            RenderPlan::SuccessMessage
        } else {
            RenderPlan::ErrorMessageAndTable
        },
        Output::Json => if success {
            RenderPlan::SuccessBody
        } else {
            RenderPlan::ErrorBody
        },
    }
}

/// Decides what a finished request gets rendered as.
pub fn response_plan(output: &Output, success: bool) -> (p: RenderPlan)
    ensures
        p == spec_response_plan(*output, success),
{
    match output {
        Output::Default => if success {
            RenderPlan::SuccessMessage
        } else {
            RenderPlan::ErrorMessageAndTable
        },
        Output::Json => if success {
            RenderPlan::SuccessBody
        } else {
            RenderPlan::ErrorBody
        },
    }
}

} // verus!
