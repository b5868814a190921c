use vstd::prelude::*;
use vstd::string::StringExecFns;
use crate::error::ServiceResult;
use crate::mcp_types::{CallToolError, CallToolResult};
use crate::tools::{answer, answers, fail, reports_failure};

verus! {

/// Copies a file or a directory.
#[derive(Debug)]
pub struct CopyFileTool {
    pub source: String,
    pub destination: String,
}

impl CopyFileTool {
    /// Reports that the source was copied, or why it was not.
    pub fn run_tool(self, copied: ServiceResult<()>) -> (outcome: Result<
        CallToolResult,
        CallToolError,
    >)
        ensures
            match copied {
                Ok(_) => answers(outcome, "Successfully copied "@ + self.source@ + " to "@ + self.destination@),
                Err(error) => reports_failure(outcome, error.message_spec()),
            },
    {
        match copied {
            Ok(_) => answer(
                String::from_str("Successfully copied ").concat(self.source.as_str()).concat(" to ").concat(
                    self.destination.as_str(),
                ),
            ),
            Err(error) => fail(&error),
        }
    }
}

} // verus!
