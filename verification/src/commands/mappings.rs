//! The mapping command group.

use vstd::prelude::*;
use crate::utils::output::Output;

verus! {

/// Arguments of the mapping command group: which mapping operation to run.
pub struct Arguments {
    pub sub_commands: Commands,
}

/// The mapping operations.
pub enum Commands {
    /// Retrieves mapping definitions for one index.
    Get(GetArguments),
}

/// Arguments for reading an index's mapping.
pub struct GetArguments {
    /// Name of the index for which you want to display the mapping.
    pub name: String,
    /// Output format.
    pub output: Output,
    /// Pretty print JSON output.
    pub pretty: bool,
}

} // verus!
