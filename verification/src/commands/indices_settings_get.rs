//! Reading one index's settings: the command's arguments.

use vstd::prelude::*;
use crate::utils::output::Output;

verus! {

/// Arguments for reading an index's settings.
pub struct Arguments {
    /// Name of the index for which you want to display the settings.
    pub name: String,
    /// Output format.
    pub output: Output,
    /// Pretty print JSON output.
    pub pretty: bool,
}

} // verus!
