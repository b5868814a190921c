use vstd::prelude::*;
use crate::mcp_types::{CallToolError, CallToolResult};
use crate::tools::fails_with;

verus! {

/// Unpacks an archive.
#[derive(Debug)]
pub struct UnzipFileTool {
    pub zip_path: String,
    pub output_dir: String,
}

impl UnzipFileTool {
    /// Fails: archives are not supported.
    pub fn run_tool(self) -> (outcome: Result<CallToolResult, CallToolError>)
        ensures
            fails_with(outcome, "Unzip functionality not yet implemented - missing zip dependencies"@),
    {
        Err(CallToolError::new("Unzip functionality not yet implemented - missing zip dependencies"))
    }
}

} // verus!
