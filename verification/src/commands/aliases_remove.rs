//! Removing an index from an alias: the command's arguments and the exact
//! body of the alias-update request it sends.

use vstd::prelude::*;
use vstd::string::StringExecFns;
use crate::json_text::{json_string, json_string_of};
use crate::utils::output::Output;

verus! {

/// Arguments for removing an index from an alias.
pub struct Arguments {
    /// Alias.
    pub alias: String,
    /// Index you want to remove from alias.
    pub index: String,
    /// Output format.
    pub output: Output,
    /// Pretty print JSON output.
    pub pretty: bool,
}

/// The body of the alias-update request that removes `index` from `alias`:
/// one remove action.
pub open spec fn remove_alias_body_text(index: Seq<char>, alias: Seq<char>) -> Seq<char> {
    "{\"actions\":[{\"remove\":{\"index\":"@ + json_string_of(index) + ",\"alias\":"@
        + json_string_of(alias) + "}}]}"@
}

/// Renders the alias-update body that removes `index` from `alias`.
pub fn remove_alias_body(index: &str, alias: &str) -> (r: String)
    ensures
        r@ == remove_alias_body_text(index@, alias@),
{
    let index_text = json_string(index);
    let alias_text = json_string(alias);
    let mut r = String::from_str("{\"actions\":[{\"remove\":{\"index\":");
    r.append(index_text.as_str());
    r.append(",\"alias\":");
    r.append(alias_text.as_str());
    r.append("}}]}");
    proof {
        assert(r@ =~= remove_alias_body_text(index@, alias@));
    }
    r
}

} // verus!
