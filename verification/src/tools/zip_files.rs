use vstd::prelude::*;
use crate::mcp_types::{CallToolError, CallToolResult};
use crate::tools::fails_with;

verus! {

/// Packs files into an archive.
#[derive(Debug)]
pub struct ZipFilesTool {
    pub files: Vec<String>,
    pub output_path: String,
}

impl ZipFilesTool {
    /// Fails: archives are not supported.
    pub fn run_tool(self) -> (outcome: Result<CallToolResult, CallToolError>)
        ensures
            fails_with(outcome, "Zip functionality not yet implemented - missing zip dependencies"@),
    {
        Err(CallToolError::new("Zip functionality not yet implemented - missing zip dependencies"))
    }
}

} // verus!
