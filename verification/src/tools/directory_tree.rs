use vstd::prelude::*;
use crate::error::ServiceResult;
use crate::mcp_types::{CallToolError, CallToolResult};
use crate::tools::{answer, answers, fail, reports_failure};

verus! {

/// Draws the tree below a directory; a depth of zero is no limit.
#[derive(Debug)]
pub struct DirectoryTreeTool {
    pub path: String,
    pub include_hidden: bool,
    pub max_depth: u32,
}

impl DirectoryTreeTool {
    /// How deep the tree is drawn: a depth of zero is no limit.
    pub fn depth_limit(&self) -> (limit: Option<usize>)
        ensures
            limit == (if self.max_depth > 0 {
                Some(self.max_depth as usize)
            } else {
                None
            }),
    {
        if self.max_depth > 0 {
            Some(self.max_depth as usize)
        } else {
            None
        }
    }

    /// Answers with the tree that was drawn, or reports why the walk did not
    /// succeed.
    pub fn run_tool(self, tree: ServiceResult<String>) -> (outcome: Result<
        CallToolResult,
        CallToolError,
    >)
        ensures
            match tree {
                Ok(text) => answers(outcome, text@),
                Err(error) => reports_failure(outcome, error.message_spec()),
            },
    {
        match tree {
            Ok(text) => answer(text),
            Err(error) => fail(&error),
        }
    }
}

} // verus!
