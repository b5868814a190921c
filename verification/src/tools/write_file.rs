use vstd::prelude::*;
use vstd::string::StringExecFns;
use crate::error::ServiceResult;
use crate::mcp_types::{CallToolError, CallToolResult};
use crate::tools::{answer, answers, fail, reports_failure};

verus! {

/// Writes one file.
#[derive(Debug)]
pub struct WriteFileTool {
    pub path: String,
    pub content: String,
}

impl WriteFileTool {
    /// Reports that the file was written, or why it was not.
    pub fn run_tool(self, written: ServiceResult<()>) -> (outcome: Result<
        CallToolResult,
        CallToolError,
    >)
        ensures
            match written {
                Ok(_) => answers(outcome, "Successfully wrote to file: "@ + self.path@),
                Err(error) => reports_failure(outcome, error.message_spec()),
            },
    {
        match written {
            Ok(_) => answer(
                String::from_str("Successfully wrote to file: ").concat(self.path.as_str()),
            ),
            Err(error) => fail(&error),
        }
    }
}

} // verus!
