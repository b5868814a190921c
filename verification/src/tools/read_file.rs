use vstd::prelude::*;
use crate::error::ServiceResult;
use crate::mcp_types::{CallToolError, CallToolResult};
use crate::tools::{answer, answers, fail, reports_failure};

verus! {

/// Reads one file.
#[derive(Debug)]
pub struct ReadFileTool {
    pub path: String,
}

impl ReadFileTool {
    /// Answers with the content of the file, or reports why the reading did
    /// not succeed.
    pub fn run_tool(self, read: ServiceResult<String>) -> (outcome: Result<
        CallToolResult,
        CallToolError,
    >)
        ensures
            match read {
                Ok(text) => answers(outcome, text@),
                Err(error) => reports_failure(outcome, error.message_spec()),
            },
    {
        match read {
            Ok(text) => answer(text),
            Err(error) => fail(&error),
        }
    }
}

} // verus!
