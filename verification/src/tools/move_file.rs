use vstd::prelude::*;
use vstd::string::StringExecFns;
use crate::error::ServiceResult;
use crate::mcp_types::{CallToolError, CallToolResult};
use crate::tools::{answer, answers, fail, reports_failure};

verus! {

/// Moves or renames a file or a directory.
#[derive(Debug)]
pub struct MoveFileTool {
    pub source: String,
    pub destination: String,
}

impl MoveFileTool {
    /// Reports that the source was moved, or why it was not.
    pub fn run_tool(self, moved: ServiceResult<()>) -> (outcome: Result<
        CallToolResult,
        CallToolError,
    >)
        ensures
            match moved {
                Ok(_) => answers(outcome, "Successfully moved "@ + self.source@ + " to "@ + self.destination@),
                Err(error) => reports_failure(outcome, error.message_spec()),
            },
    {
        match moved {
            Ok(_) => answer(
                String::from_str("Successfully moved ").concat(self.source.as_str()).concat(" to ").concat(
                    self.destination.as_str(),
                ),
            ),
            Err(error) => fail(&error),
        }
    }
}

} // verus!
