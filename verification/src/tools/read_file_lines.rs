use vstd::prelude::*;
use crate::error::ServiceResult;
use crate::mcp_types::{CallToolError, CallToolResult};
use crate::tools::{answer, answers, fail, reports_failure};

verus! {

/// Reads a range of the lines of one file.
#[derive(Debug)]
pub struct ReadFileLines {
    pub path: String,
    pub offset: u64,
    pub limit: Option<u64>,
}

impl ReadFileLines {
    /// The position of the first line as a count of this machine: the
    /// largest count where the number is beyond it.
    pub fn first_line(&self) -> (offset: usize)
        ensures
            offset == (if self.offset <= usize::MAX {
                self.offset as int
            } else {
                usize::MAX as int
            }),
    {
        if self.offset <= usize::MAX as u64 {
            self.offset as usize
        } else {
            usize::MAX
        }
    }

    /// The limit as a count of this machine, where there is a limit: the
    /// largest count where the number is beyond it.
    pub fn line_limit(&self) -> (limit: Option<usize>)
        ensures
            limit == (match self.limit {
                Some(lines) => Some(
                    if lines <= usize::MAX {
                        lines as usize
                    } else {
                        usize::MAX
                    },
                ),
                None => None,
            }),
    {
        match self.limit {
            Some(lines) => Some(
                if lines <= usize::MAX as u64 {
                    lines as usize
                } else {
                    usize::MAX
                },
            ),
            None => None,
        }
    }

    /// Answers with the lines that were read, or reports why the reading did
    /// not succeed.
    pub fn run_tool(self, lines: ServiceResult<String>) -> (outcome: Result<
        CallToolResult,
        CallToolError,
    >)
        ensures
            match lines {
                Ok(text) => answers(outcome, text@),
                Err(error) => reports_failure(outcome, error.message_spec()),
            },
    {
        match lines {
            Ok(text) => answer(text),
            Err(error) => fail(&error),
        }
    }
}

} // verus!
