//! Creating an index: the command's arguments and the exact body of the
//! create request. Mapping and settings definitions arrive as already
//! validated JSON documents; reading and validating the files sits with the
//! caller.

use vstd::prelude::*;
use vstd::string::StringExecFns;
use crate::utils::output::Output;

verus! {

/// Arguments for creating an index.
pub struct Arguments {
    /// Name of the index to create.
    pub name: String,
    /// Path to a settings definition file in JSON format.
    pub settings: Option<String>,
    /// Path to a mapping definition in JSON format.
    pub mapping: Option<String>,
    /// Output format.
    pub output: Output,
    /// Pretty print JSON output.
    pub pretty: bool,
}

/// The body of the create request: the mapping document under `mappings` and
/// the settings document under `settings.index`, each only when given.
pub open spec fn create_index_body_text(
    mapping: Option<Seq<char>>,
    settings: Option<Seq<char>>,
) -> Seq<char> {
    match (mapping, settings) {
        (Option::None, Option::None) => "{}"@,
        (Option::Some(m), Option::None) => "{\"mappings\":"@ + m + "}"@,
        (Option::None, Option::Some(s)) => "{\"settings\":{\"index\":"@ + s + "}}"@,
        (Option::Some(m), Option::Some(s)) => "{\"mappings\":"@ + m + ",\"settings\":{\"index\":"@
            + s + "}}"@,
    }
}

/// Renders the create-request body from the given JSON documents.
pub fn create_index_body(mapping: Option<&String>, settings: Option<&String>) -> (r: String)
    ensures
        r@ == create_index_body_text(
            match mapping {
                Option::Some(m) => Option::Some(m@),
                Option::None => Option::None,
            },
            match settings {
                Option::Some(s) => Option::Some(s@),
                Option::None => Option::None,
            },
        ),
{
    let mut r = String::new();
    match (mapping, settings) {
        (Option::None, Option::None) => {
            r.append("{}");
        },
        (Option::Some(m), Option::None) => {
            r.append("{\"mappings\":");
            r.append(m.as_str());
            r.append("}");
        },
        (Option::None, Option::Some(s)) => {
            r.append("{\"settings\":{\"index\":");
            r.append(s.as_str());
            r.append("}}");
        },
        (Option::Some(m), Option::Some(s)) => {
            r.append("{\"mappings\":");
            r.append(m.as_str());
            r.append(",\"settings\":{\"index\":");
            r.append(s.as_str());
            r.append("}}");
        },
    }
    proof {
        assert(r@ =~= create_index_body_text(
            match mapping {
                Option::Some(m) => Option::Some(m@),
                Option::None => Option::None,
            },
            match settings {
                Option::Some(s) => Option::Some(s@),
                Option::None => Option::None,
            },
        ));
    }
    r
}

} // verus!
