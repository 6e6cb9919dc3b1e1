//! The catalog of diagnostic tools that the assistant can offer to a model.

use vstd::prelude::*;
use crate::text::{owned, str_eq, string_views};

verus! {

/// A tool the model may call: its name, what it does, and its argument schema.
#[derive(Debug, Clone)]
pub struct ToolDefinition {
    pub name: String,
    pub description: String,
    pub parameters: String,
}

/// The names of the tools of a catalog.
pub open spec fn tool_names(defs: Seq<ToolDefinition>) -> Seq<Seq<char>> {
    defs.map_values(|d: ToolDefinition| d.name@)
}

/// The registry of built-in tools.
pub struct ToolEngine;

impl ToolEngine {
    /// The built-in catalog: the network diagnostic.
    pub fn get_tool_definitions() -> (res: Vec<ToolDefinition>)
        ensures
            res.len() == 1,
            res[0].name@ == "run_network_diagnostic"@,
            res[0].description@ == "Ejecuta un diagnostico completo de red."@,
            res[0].parameters@ == "{}"@,
    {
        vec![
            ToolDefinition {
                name: owned("run_network_diagnostic"),
                description: owned("Ejecuta un diagnostico completo de red."),
                parameters: owned("{}"),
            },
        ]
    }
}

/// Whether the catalog defines a tool of that name.
pub fn tool_definition_exists(tool_name: &str, definitions: &[ToolDefinition]) -> (r: bool)
    ensures
        r == tool_names(definitions@).contains(tool_name@),
{
    let mut k: usize = 0;
    while k < definitions.len()
        invariant
            k <= definitions.len(),
            forall|j: int| 0 <= j < k ==> tool_names(definitions@)[j] != tool_name@,
        decreases definitions.len() - k,
    {
        if str_eq(definitions[k].name.as_str(), tool_name) {
            assert(tool_names(definitions@)[k as int] == tool_name@);
            return true;
        }
        k += 1;
    }
    false
}

} // verus!
