//! The commands the client offers, one module each. The modules hold each
//! command's arguments and, for the mutating commands, the exact JSON bodies
//! their requests carry.

pub mod aliases;
pub mod aliases_list;
pub mod aliases_remove;
pub mod aliases_update;
pub mod indices;
pub mod indices_create;
pub mod indices_delete;
pub mod indices_list;
pub mod indices_open;
pub mod indices_settings;
pub mod indices_settings_get;
pub mod mappings;
pub mod reindex;
