use vstd::prelude::*;
use crate::mcp_types::{CallToolError, CallToolResult};
use crate::tools::fails_with;

verus! {

/// Packs a directory into an archive.
#[derive(Debug)]
pub struct ZipDirectoryTool {
    pub directory_path: String,
    pub output_path: String,
}

impl ZipDirectoryTool {
    /// Fails: archives are not supported.
    pub fn run_tool(self) -> (outcome: Result<CallToolResult, CallToolError>)
        ensures
            fails_with(outcome, "Zip directory functionality not yet implemented - missing zip dependencies"@),
    {
        Err(CallToolError::new("Zip directory functionality not yet implemented - missing zip dependencies"))
    }
}

} // verus!
