use vstd::prelude::*;
use crate::fs_service::FileSystemService;
use crate::mcp_types::{CallToolError, CallToolResult};
use crate::strings::{join, joined, texts_view};
use crate::tools::{answer, answers};

verus! {

/// Lists the directories that may be reached.
#[derive(Debug)]
pub struct ListAllowedDirectoriesTool {
}

impl ListAllowedDirectoriesTool {
    /// Lists the allowed directories, one on each line.
    pub fn run_tool(self, fs_service: &FileSystemService) -> (outcome: Result<
        CallToolResult,
        CallToolError,
    >)
        ensures
            answers(outcome, joined(texts_view(fs_service.allowed()), "\n"@)),
    {
        answer(join(fs_service.allowed_directories(), "\n"))
    }
}

} // verus!
