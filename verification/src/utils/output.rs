//! How results are presented to the user.

use vstd::prelude::*;

verus! {

/// The output format a command was asked for.
#[derive(Debug, Copy, Clone, PartialEq, Eq, PartialOrd, Ord, Structural)]
pub enum Output {
    /// Display in human friendly format.
    Default,
    /// Displays output as JSON.
    Json,
}

} // verus!
