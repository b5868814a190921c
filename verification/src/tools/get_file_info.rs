use vstd::prelude::*;
use vstd::string::StringExecFns;
use crate::error::ServiceResult;
use crate::mcp_types::{CallToolError, CallToolResult};
use crate::tools::{answer, answers, fail, reports_failure};
use crate::fs_service::file_info::FileInfo;
use crate::fs_service::utils::{bytes_text, format_bytes};
use crate::strings::{decimal, decimal_text};

verus! {

/// Reports what is known of one file.
#[derive(Debug)]
pub struct GetFileInfoTool {
    pub path: String,
}

/// A line that names a time, where the time is known.
pub open spec fn time_line(label: Seq<char>, time: Option<String>) -> Seq<char> {
    match time {
        Some(text) => label + text@ + "\n"@,
        None => Seq::empty(),
    }
}

/// What is reported of a file.
pub open spec fn info_text(path: Seq<char>, info: FileInfo) -> Seq<char> {
    "File Information for: "@ + path + "\nType: "@ + (if info.is_directory {
        "Directory"@
    } else {
        "File"@
    }) + "\nSize: "@ + bytes_text(info.size as int) + " ("@ + decimal_text(info.size as nat)
        + ")\nPermissions: "@ + info.permissions@ + "\n"@ + time_line("Created: "@, info.created)
        + time_line("Modified: "@, info.modified) + time_line("Accessed: "@, info.accessed)
}

fn append_time(text: &mut String, label: &str, time: &Option<String>)
    ensures
        final(text)@ == old(text)@ + time_line(label@, *time),
{
    match time {
        Some(stamp) => {
            text.append(label);
            text.append(stamp.as_str());
            text.append("\n");
            assert(text@ =~= old(text)@ + time_line(label@, *time));
        },
        None => {
            assert(text@ =~= old(text)@ + time_line(label@, *time));
        },
    }
}

impl GetFileInfoTool {
    /// Reports the kind, size, permissions and times of the file, or fails
    /// as the look at the file did.
    pub fn run_tool(self, stats: ServiceResult<FileInfo>) -> (outcome: Result<
        CallToolResult,
        CallToolError,
    >)
        ensures
            match stats {
                Ok(info) => answers(outcome, info_text(self.path@, info)),
                Err(error) => reports_failure(outcome, error.message_spec()),
            },
    {
        match stats {
            Ok(info) => {
                let mut text = String::from_str("File Information for: ").concat(
                    self.path.as_str(),
                ).concat("\nType: ").concat(
                    if info.is_directory {
                        "Directory"
                    } else {
                        "File"
                    },
                ).concat("\nSize: ").concat(format_bytes(info.size).as_str()).concat(" (").concat(
                    decimal(info.size).as_str(),
                ).concat(")\nPermissions: ").concat(info.permissions.as_str()).concat("\n");
                append_time(&mut text, "Created: ", &info.created);
                append_time(&mut text, "Modified: ", &info.modified);
                append_time(&mut text, "Accessed: ", &info.accessed);
                assert(text@ =~= info_text(self.path@, info));
                answer(text)
            },
            Err(error) => fail(&error),
        }
    }
}

} // verus!
