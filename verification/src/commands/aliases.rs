//! The alias command group.

use vstd::prelude::*;

verus! {

/// Arguments of the alias command group: which alias operation to run.
pub struct Arguments {
    pub sub_commands: Commands,
}

/// The alias operations.
pub enum Commands {
    /// List all aliases.
    List(crate::commands::aliases_list::Arguments),
    /// Remove an index from an alias.
    Remove(crate::commands::aliases_remove::Arguments),
    /// Updates aliases for an index.
    Update(crate::commands::aliases_update::Arguments),
}

} // verus!
