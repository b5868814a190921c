use vstd::prelude::*;
use vstd::string::StringExecFns;
use crate::error::ServiceResult;
use crate::mcp_types::{CallToolError, CallToolResult};
use crate::tools::{answer, answers, fail, reports_failure};

verus! {

/// Creates a directory.
#[derive(Debug)]
pub struct CreateDirectoryTool {
    pub path: String,
}

impl CreateDirectoryTool {
    /// Reports that the directory was created, or why it was not.
    pub fn run_tool(self, created: ServiceResult<()>) -> (outcome: Result<
        CallToolResult,
        CallToolError,
    >)
        ensures
            match created {
                Ok(_) => answers(outcome, "Successfully created directory: "@ + self.path@),
                Err(error) => reports_failure(outcome, error.message_spec()),
            },
    {
        match created {
            Ok(_) => answer(
                String::from_str("Successfully created directory: ").concat(self.path.as_str()),
            ),
            Err(error) => fail(&error),
        }
    }
}

} // verus!
