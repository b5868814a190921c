use vstd::prelude::*;
use crate::error::ServiceResult;
use crate::mcp_types::{CallToolError, CallToolResult};
use crate::tools::{answer, answers, fail, reports_failure};

verus! {

/// Reads the last lines of one file.
#[derive(Debug)]
pub struct TailFile {
    pub path: String,
    pub lines: u64,
}

impl TailFile {
    /// The number of lines as a count of this machine: the largest count
    /// where the number is beyond it.
    pub fn line_count(&self) -> (count: usize)
        ensures
            count == (if self.lines <= usize::MAX {
                self.lines as int
            } else {
                usize::MAX as int
            }),
    {
        if self.lines <= usize::MAX as u64 {
            self.lines as usize
        } else {
            usize::MAX
        }
    }

    /// Answers with the lines that were read, or reports why the reading did
    /// not succeed.
    pub fn run_tool(self, tail: ServiceResult<String>) -> (outcome: Result<
        CallToolResult,
        CallToolError,
    >)
        ensures
            match tail {
                Ok(text) => answers(outcome, text@),
                Err(error) => reports_failure(outcome, error.message_spec()),
            },
    {
        match tail {
            Ok(text) => answer(text),
            Err(error) => fail(&error),
        }
    }
}

} // verus!
