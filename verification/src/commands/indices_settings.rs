//! The index-settings command group.

use vstd::prelude::*;

verus! {

/// Arguments of the settings command group: which settings operation to run.
pub struct Arguments {
    pub sub_commands: Commands,
}

/// The settings operations.
pub enum Commands {
    /// Get setting information for one index.
    Get(crate::commands::indices_settings_get::Arguments),
}

} // verus!
