//! Moving an index between aliases: the command's arguments and the exact
//! body of the alias-update request it sends.

use vstd::prelude::*;
use vstd::string::StringExecFns;
use crate::json_text::{json_string, json_string_of};
use crate::utils::output::Output;

verus! {

/// Arguments for updating an index's aliases.
pub struct Arguments {
    /// Alias you want to delete from the index.
    pub old_alias: String,
    /// Alias you want to add the index.
    pub new_alias: String,
    /// Index you want to update aliases.
    pub index: String,
    /// Output format.
    pub output: Output,
    /// Pretty print JSON output.
    pub pretty: bool,
}

/// The body of the alias-update request that adds `index` to `new_alias` and
/// removes it from `old_alias`: an add action followed by a remove action.
pub open spec fn update_aliases_body_text(
    index: Seq<char>,
    new_alias: Seq<char>,
    old_alias: Seq<char>,
) -> Seq<char> {
    "{\"actions\":[{\"add\":{\"index\":"@ + json_string_of(index) + ",\"alias\":"@
        + json_string_of(new_alias) + "}},{\"remove\":{\"index\":"@ + json_string_of(index)
        + ",\"alias\":"@ + json_string_of(old_alias) + "}}]}"@
}

/// Renders the alias-update body that moves `index` from `old_alias` to
/// `new_alias`.
pub fn update_aliases_body(index: &str, new_alias: &str, old_alias: &str) -> (r: String)
    ensures
        r@ == update_aliases_body_text(index@, new_alias@, old_alias@),
{
    let index_text = json_string(index);
    let new_alias_text = json_string(new_alias);
    let old_alias_text = json_string(old_alias);
    let mut r = String::from_str("{\"actions\":[{\"add\":{\"index\":");
    r.append(index_text.as_str());
    r.append(",\"alias\":");
    r.append(new_alias_text.as_str());
    r.append("}},{\"remove\":{\"index\":");
    r.append(index_text.as_str());
    r.append(",\"alias\":");
    r.append(old_alias_text.as_str());
    r.append("}}]}");
    proof {
        assert(r@ =~= update_aliases_body_text(index@, new_alias@, old_alias@));
    }
    r
}

} // verus!
