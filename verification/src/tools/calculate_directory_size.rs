use vstd::prelude::*;
use crate::error::ServiceResult;
use crate::mcp_types::{CallToolError, CallToolResult};
use crate::tools::{answer, answers, fail, reports_failure};
use crate::fs_service::utils::{bytes_text, format_bytes};
use crate::strings::{decimal, decimal_text, optional_text_view, str_eq};

verus! {

/// Adds up the sizes of the files below a directory.
#[derive(Debug)]
pub struct CalculateDirectorySize {
    pub root_path: String,
    pub output_format: Option<String>,
}

impl CalculateDirectorySize {
    /// A size as the call wants it shown: in bytes where the format is
    /// `bytes`, and in a unit that suits it for every other format and for
    /// none.
    pub open spec fn shown(&self, total: u64) -> Seq<char> {
        if optional_text_view(self.output_format) == Some("bytes"@) {
            decimal_text(total as nat)
        } else {
            bytes_text(total as int)
        }
    }

    /// Reports the size of the directory, or why it could not be added up.
    pub fn run_tool(self, total: ServiceResult<u64>) -> (outcome: Result<
        CallToolResult,
        CallToolError,
    >)
        ensures
            match total {
                Ok(bytes) => answers(outcome, self.shown(bytes)),
                Err(error) => reports_failure(outcome, error.message_spec()),
            },
    {
        match total {
            Ok(bytes) => {
                let in_bytes = match &self.output_format {
                    Some(format) => str_eq(format.as_str(), "bytes"),
                    None => false,
                };
                if in_bytes {
                    answer(decimal(bytes))
                } else {
                    answer(format_bytes(bytes))
                }
            },
            Err(error) => fail(&error),
        }
    }
}

} // verus!
