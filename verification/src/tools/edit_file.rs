use vstd::prelude::*;
use vstd::string::StringExecFns;
use crate::error::ServiceResult;
use crate::mcp_types::{CallToolError, CallToolResult};
use crate::tools::{answer, answers, fail, reports_failure};
use crate::tools::edit_operation::EditOperation;

verus! {

/// Replaces passages of one file.
#[derive(Debug)]
pub struct EditFileTool {
    pub path: String,
    pub edits: Vec<EditOperation>,
    pub dry_run: Option<bool>,
}

impl EditFileTool {
    /// Whether the edit is only shown, not applied.
    pub open spec fn is_preview(&self) -> bool {
        self.dry_run == Some(true)
    }

    /// What is reported of an edit whose differences are `diff`.
    pub open spec fn report(&self, diff: Seq<char>) -> Seq<char> {
        if self.is_preview() {
            "Preview of changes to "@ + self.path@ + ":\n\n"@ + diff
        } else {
            "Successfully edited file: "@ + self.path@ + "\n\nChanges applied:\n"@ + diff
        }
    }

    /// Whether the edit is only shown, not applied.
    pub fn is_dry_run(&self) -> (preview: bool)
        ensures
            preview == self.is_preview(),
    {
        match self.dry_run {
            Some(flag) => flag,
            None => false,
        }
    }

    /// Reports the differences that the edit makes, as a preview or as what
    /// was applied, or reports why the edit did not succeed.
    pub fn run_tool(self, applied: ServiceResult<String>) -> (outcome: Result<
        CallToolResult,
        CallToolError,
    >)
        ensures
            match applied {
                Ok(diff) => answers(outcome, self.report(diff@)),
                Err(error) => reports_failure(outcome, error.message_spec()),
            },
    {
        match applied {
            Ok(diff) => {
                if self.is_dry_run() {
                    answer(
                        String::from_str("Preview of changes to ").concat(self.path.as_str()).concat(
                            ":\n\n",
                        ).concat(diff.as_str()),
                    )
                } else {
                    answer(
                        String::from_str("Successfully edited file: ").concat(
                            self.path.as_str(),
                        ).concat("\n\nChanges applied:\n").concat(diff.as_str()),
                    )
                }
            },
            Err(error) => fail(&error),
        }
    }
}

} // verus!
