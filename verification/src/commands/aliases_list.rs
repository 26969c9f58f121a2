//! Listing aliases: the row shape of the listing and the command's
//! arguments. Fetching and table rendering sit with the caller.

use vstd::prelude::*;
use crate::utils::output::Output;

verus! {

/// One row of the alias listing, as the cluster reports it.
pub struct Alias {
    pub alias: String,
    pub index: String,
    pub filter: String,
    pub routing_index: String,
    pub routing_search: String,
}

/// Arguments of the alias listing.
pub struct Arguments {
    /// Output format.
    pub output: Output,
    /// Pretty print JSON output.
    pub pretty: bool,
}

} // verus!
