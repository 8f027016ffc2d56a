//! Tools that a caller makes available to the model.

use vstd::prelude::*;

verus! {

/// A tool offered to the model.
#[derive(Debug, Clone)]
pub struct ToolSpec {
    pub name: String,
    pub description: String,
    /// JSON schema of the tool's parameters.
    pub parameters: serde_json::Value,
}

} // verus!
