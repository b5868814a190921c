use vstd::prelude::*;
use vstd::string::StringExecFns;
use crate::error::ServiceResult;
use crate::mcp_types::{CallToolError, CallToolResult};
use crate::tools::{answer, answers, fail, reports_failure};
use crate::mcp_types::text_result;

verus! {

/// Deletes a file or a directory, once the caller has confirmed it.
#[derive(Debug)]
pub struct DeleteFileTool {
    pub path: String,
    pub confirm: Option<bool>,
}

impl DeleteFileTool {
    /// Whether the caller has confirmed the deletion.
    pub open spec fn is_confirmed(&self) -> bool {
        self.confirm == Some(true)
    }

    /// Whether the caller has confirmed the deletion. Nothing is deleted
    /// without.
    pub fn confirmed(&self) -> (confirmed: bool)
        ensures
            confirmed == self.is_confirmed(),
    {
        match self.confirm {
            Some(flag) => flag,
            None => false,
        }
    }

    /// Answers a deletion that was not confirmed with the demand to confirm
    /// it, whatever is handed in. Reports a confirmed deletion, or why it did
    /// not succeed.
    pub fn run_tool(self, deleted: ServiceResult<()>) -> (outcome: Result<
        CallToolResult,
        CallToolError,
    >)
        ensures
            !self.is_confirmed() ==> (outcome matches Ok(result) && result@ == text_result(
                "Delete operation requires confirmation. Set 'confirm: true' to proceed."@,
                true,
            )),
            self.is_confirmed() ==> match deleted {
                Ok(_) => answers(outcome, "Successfully deleted: "@ + self.path@),
                Err(error) => reports_failure(outcome, error.message_spec()),
            },
    {
        if !self.confirmed() {
            return Ok(
                CallToolResult::text(
                    String::from_str(
                        "Delete operation requires confirmation. Set 'confirm: true' to proceed.",
                    ),
                    true,
                ),
            );
        }
        match deleted {
            Ok(_) => answer(String::from_str("Successfully deleted: ").concat(self.path.as_str())),
            Err(error) => fail(&error),
        }
    }
}

} // verus!
