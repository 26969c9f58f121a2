//! The index command group.

use vstd::prelude::*;

verus! {

/// Arguments of the index command group: which index operation to run.
pub struct Arguments {
    pub sub_commands: Commands,
}

/// The index operations.
pub enum Commands {
    /// List all indices.
    List(crate::commands::indices_list::Arguments),
    /// Create an index.
    Create(crate::commands::indices_create::Arguments),
    /// Deletes an index.
    Delete(crate::commands::indices_delete::Arguments),
    /// Opens a closed index.
    Open(crate::commands::indices_open::Arguments),
    /// Interacts with index settings.
    Settings(crate::commands::indices_settings::Arguments),
}

} // verus!
