//! Opening a closed index: the command's arguments.

use vstd::prelude::*;
use crate::utils::output::Output;

verus! {

/// Arguments for opening an index.
pub struct Arguments {
    /// Name of the index to open.
    pub name: String,
    /// Output format.
    pub output: Output,
    /// Pretty print JSON output.
    pub pretty: bool,
}

} // verus!
