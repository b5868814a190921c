use vstd::prelude::*;
use vstd::string::StringExecFns;
use crate::error::ServiceResult;
use crate::mcp_types::{CallToolError, CallToolResult};
use crate::tools::{answer, answers, fail, reports_failure};
use crate::fs_service::utils::{bytes_text, format_bytes};
use crate::fs_service::DirectoryEntry;
use crate::strings::{join, joined, texts_view};

verus! {

/// Lists a directory.
#[derive(Debug)]
pub struct ListDirectoryTool {
    pub path: String,
    pub detailed: Option<bool>,
}

/// The line of an entry in a listing. A detailed line begins with the kind
/// of the entry, and shows the size of a file; an entry of which nothing is
/// known is marked with question marks.
pub open spec fn entry_line(entry: DirectoryEntry, detailed: bool) -> Seq<char> {
    if !detailed {
        entry.file_name@
    } else {
        match entry.metadata {
            Some(known) => (if known.is_dir {
                "DIR "@
            } else {
                "FILE"@
            }) + (if known.is_file {
                " ("@ + bytes_text(known.len as int) + ") "@
            } else {
                " "@
            }) + entry.file_name@,
            None => "???? "@ + entry.file_name@,
        }
    }
}

/// The lines of a listing, in the order of the entries.
pub open spec fn entry_lines(entries: Seq<DirectoryEntry>, detailed: bool) -> Seq<Seq<char>> {
    Seq::new(entries.len(), |i: int| entry_line(entries[i], detailed))
}

impl ListDirectoryTool {
    /// Whether the listing shows kinds and sizes.
    pub open spec fn is_detailed(&self) -> bool {
        self.detailed == Some(true)
    }

    /// Lists the entries of the directory, one on each line, or says that
    /// there is none. Reports why the directory could not be read.
    pub fn run_tool(self, listed: ServiceResult<Vec<DirectoryEntry>>) -> (outcome: Result<
        CallToolResult,
        CallToolError,
    >)
        ensures
            match listed {
                Ok(entries) => answers(
                    outcome,
                    if entries@.len() == 0 {
                        "Directory is empty"@
                    } else {
                        joined(entry_lines(entries@, self.is_detailed()), "\n"@)
                    },
                ),
                Err(error) => reports_failure(outcome, error.message_spec()),
            },
    {
        let detailed = match self.detailed {
            Some(flag) => flag,
            None => false,
        };
        match listed {
            Ok(entries) => {
                if entries.len() == 0 {
                    return answer(String::from_str("Directory is empty"));
                }
                let mut lines: Vec<String> = Vec::new();
                let mut i: usize = 0;
                while i < entries.len()
                    invariant
                        i <= entries.len(),
                        lines@.len() == i,
                        forall|k: int|
                            0 <= k < i ==> (#[trigger] lines@[k])@ == entry_line(
                                entries@[k],
                                detailed,
                            ),
                    decreases entries.len() - i,
                {
                    let entry = &entries[i];
                    let line = if !detailed {
                        entry.file_name.clone()
                    } else {
                        match entry.metadata {
                            Some(known) => {
                                let kind = if known.is_dir {
                                    "DIR "
                                } else {
                                    "FILE"
                                };
                                let size = if known.is_file {
                                    String::from_str(" (").concat(
                                        format_bytes(known.len).as_str(),
                                    ).concat(") ")
                                } else {
                                    String::from_str(" ")
                                };
                                String::from_str(kind).concat(size.as_str()).concat(
                                    entry.file_name.as_str(),
                                )
                            },
                            None => String::from_str("???? ").concat(entry.file_name.as_str()),
                        }
                    };
                    lines.push(line);
                    i = i + 1;
                }
                assert(texts_view(lines@) =~= entry_lines(entries@, detailed));
                answer(join(&lines, "\n"))
            },
            Err(error) => fail(&error),
        }
    }
}

} // verus!
