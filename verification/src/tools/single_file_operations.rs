use vstd::prelude::*;
use vstd::string::StringExecFns;
use crate::json::{Json, JsonView};
use crate::mcp_types::Tool;
use crate::strings::{optional_text_view, str_eq};
use crate::task_state::ModeGate;
use crate::tools::{
    is_step, plan_step, refuse, refuse_unavailable, refuse_unknown, refuses, schema_document,
    schema_of, unavailable_message, unknown_operation_message, FileJob, ToolPlan,
};
use crate::tools::edit_operation::{
    edits_view, optional_edits, optional_edits_view, EditOperation, EditOperationView,
};
use crate::tools::{
    EditFileTool, GetFileInfoTool, HeadFile, ReadFileLines, ReadFileTool, ReadMediaFile, TailFile,
    WriteFileTool,
};

verus! {

/// The operations on one file.
#[derive(Debug)]
pub struct SingleFileOperationsTool {
    pub operation: String,
    pub path: String,
    pub content: Option<String>,
    pub lines: Option<u64>,
    pub offset: Option<u64>,
    pub limit: Option<u64>,
    pub edits: Option<Vec<EditOperation>>,
    pub dry_run: Option<bool>,
    pub max_bytes: Option<u64>,
}

pub struct SingleFileOperationsView {
    pub operation: Seq<char>,
    pub path: Seq<char>,
    pub content: Option<Seq<char>>,
    pub lines: Option<u64>,
    pub offset: Option<u64>,
    pub limit: Option<u64>,
    pub edits: Option<Seq<EditOperationView>>,
    pub dry_run: Option<bool>,
    pub max_bytes: Option<u64>,
}

impl View for SingleFileOperationsTool {
    type V = SingleFileOperationsView;

    open spec fn view(&self) -> SingleFileOperationsView {
        SingleFileOperationsView {
            operation: self.operation@,
            path: self.path@,
            content: optional_text_view(self.content),
            lines: self.lines,
            offset: self.offset,
            limit: self.limit,
            edits: optional_edits_view(self.edits),
            dry_run: self.dry_run,
            max_bytes: self.max_bytes,
        }
    }
}

impl SingleFileOperationsTool {
    /// The arguments that a JSON object holds for this tool, or the fault of the
    /// first argument that cannot be read.
    pub open spec fn decoded(arguments: JsonView) -> Result<SingleFileOperationsView, Seq<char>> {
        match arguments.required_text("operation"@) {
            Err(fault) => Err(fault),
            Ok(operation) =>             match arguments.required_text("path"@) {
                Err(fault) => Err(fault),
                Ok(path) =>                 match arguments.optional_text("content"@) {
                    Err(fault) => Err(fault),
                    Ok(content) =>                     match arguments.optional_u64("lines"@) {
                        Err(fault) => Err(fault),
                        Ok(lines) =>                         match arguments.optional_u64("offset"@) {
                            Err(fault) => Err(fault),
                            Ok(offset) =>                             match arguments.optional_u64("limit"@) {
                                Err(fault) => Err(fault),
                                Ok(limit) =>                                 match optional_edits(arguments, "edits"@) {
                                    Err(fault) => Err(fault),
                                    Ok(edits) =>                                     match arguments.optional_bool("dry_run"@) {
                                        Err(fault) => Err(fault),
                                        Ok(dry_run) =>                                         match arguments.optional_u64("max_bytes"@) {
                                            Err(fault) => Err(fault),
                                            Ok(max_bytes) => Ok(
                                                SingleFileOperationsView {
                                                    operation,
                                                    path,
                                                    content,
                                                    lines,
                                                    offset,
                                                    limit,
                                                    edits,
                                                    dry_run,
                                                    max_bytes,
                                                },
                                            ),
                                        },
                                    },
                                },
                            },
                        },
                    },
                },
            },
        }
    }

    /// Reads the arguments of this tool from a JSON object.
    pub fn from_json(arguments: &Json) -> (tool: Result<SingleFileOperationsTool, String>)
        ensures
            match tool {
                Ok(t) => Self::decoded(arguments@) == Ok::<SingleFileOperationsView, Seq<char>>(t@),
                Err(fault) => Self::decoded(arguments@) == Err::<
                    SingleFileOperationsView,
                    Seq<char>,
                >(fault@),
            },
    {
        let operation = match arguments.required_text("operation") {
            Ok(value) => value,
            Err(fault) => {
                return Err(fault);
            },
        };
        let path = match arguments.required_text("path") {
            Ok(value) => value,
            Err(fault) => {
                return Err(fault);
            },
        };
        let content = match arguments.optional_text("content") {
            Ok(value) => value,
            Err(fault) => {
                return Err(fault);
            },
        };
        let lines = match arguments.optional_u64("lines") {
            Ok(value) => value,
            Err(fault) => {
                return Err(fault);
            },
        };
        let offset = match arguments.optional_u64("offset") {
            Ok(value) => value,
            Err(fault) => {
                return Err(fault);
            },
        };
        let limit = match arguments.optional_u64("limit") {
            Ok(value) => value,
            Err(fault) => {
                return Err(fault);
            },
        };
        let edits = match EditOperation::read_optional(arguments, "edits") {
            Ok(value) => value,
            Err(fault) => {
                return Err(fault);
            },
        };
        let dry_run = match arguments.optional_bool("dry_run") {
            Ok(value) => value,
            Err(fault) => {
                return Err(fault);
            },
        };
        let max_bytes = match arguments.optional_u64("max_bytes") {
            Ok(value) => value,
            Err(fault) => {
                return Err(fault);
            },
        };
        Ok(
            SingleFileOperationsTool {
                operation,
                path,
                content,
                lines,
                offset,
                limit,
                edits,
                dry_run,
                max_bytes,
            },
        )
    }
}

/// The name of the tool, and of the mode that enables its operations.
pub const SINGLE_FILE_OPERATIONS: &'static str = "single_file_operations";

pub const SINGLE_FILE_DESCRIPTION: &'static str =
    "Perform various operations on a single file including read, write, edit, get info, head, tail, read lines, and read media files.";

pub const SINGLE_FILE_SCHEMA: &'static str =
    "{\"type\":\"object\",\"properties\":{\"operation\":{\"type\":\"string\",\"description\":\"The operation to perform\",\"enum\":[\"read_file\",\"write_file\",\"edit_file\",\"get_file_info\",\"head_file\",\"tail_file\",\"read_file_lines\",\"read_media_file\"]},\"path\":{\"type\":\"string\",\"description\":\"The path of the file to operate on\"},\"content\":{\"type\":\"string\",\"description\":\"Content to write (required for write_file operation)\"},\"lines\":{\"type\":\"number\",\"description\":\"Number of lines to read from head or tail (required for head_file and tail_file operations)\"},\"offset\":{\"type\":\"number\",\"description\":\"Line offset for read_file_lines operation\"},\"limit\":{\"type\":\"number\",\"description\":\"Number of lines to read for read_file_lines operation\"},\"edits\":{\"type\":\"array\",\"items\":{\"type\":\"object\",\"properties\":{\"oldText\":{\"type\":\"string\",\"description\":\"Text to replace\"},\"newText\":{\"type\":\"string\",\"description\":\"Replacement text\"}},\"required\":[\"oldText\",\"newText\"]},\"description\":\"Array of edit operations for edit_file\"},\"dry_run\":{\"type\":\"boolean\",\"description\":\"Preview changes without applying (for edit_file operation)\",\"default\":false},\"max_bytes\":{\"type\":\"number\",\"description\":\"Maximum file size in bytes for media files\"}},\"required\":[\"operation\",\"path\"]}";

impl SingleFileOperationsTool {
    /// The text with which a call is refused, if it is: an operation that the
    /// active mode does not enable, one that lacks an argument it needs, and
    /// one that the tool does not have.
    pub open spec fn refusal(tool: SingleFileOperationsView, enabled: bool) -> Option<Seq<char>> {
        if !enabled {
            Some(unavailable_message(tool.operation, SINGLE_FILE_OPERATIONS@))
        } else if tool.operation == "read_file"@ {
            None
        } else if tool.operation == "write_file"@ {
            match tool.content {
                None => Some("Content is required for write_file operation"@),
                Some(_) => None,
            }
        } else if tool.operation == "edit_file"@ {
            match tool.edits {
                None => Some("Edits array is required for edit_file operation"@),
                Some(_) => None,
            }
        } else if tool.operation == "get_file_info"@ {
            None
        } else if tool.operation == "head_file"@ {
            match tool.lines {
                None => Some("Lines parameter is required for head_file operation"@),
                Some(_) => None,
            }
        } else if tool.operation == "tail_file"@ {
            match tool.lines {
                None => Some("Lines parameter is required for tail_file operation"@),
                Some(_) => None,
            }
        } else if tool.operation == "read_file_lines"@ {
            match tool.offset {
                None => Some("Offset parameter is required for read_file_lines operation"@),
                Some(_) => None,
            }
        } else if tool.operation == "read_media_file"@ {
            None
        } else {
            Some(unknown_operation_message(tool.operation))
        }
    }

    /// Whether `job` is the work of the operation that a call asks for, with
    /// the arguments of the call handed on. It is asked only of a call that
    /// is not refused.
    pub open spec fn job_fits(tool: SingleFileOperationsView, job: FileJob) -> bool {
        if tool.operation == "read_file"@ {
            job matches FileJob::ReadFile(work) && work.path@ == tool.path
        } else if tool.operation == "write_file"@ {
            job matches FileJob::WriteFile(work) && work.path@ == tool.path && Some(work.content@)
                == tool.content
        } else if tool.operation == "edit_file"@ {
            job matches FileJob::EditFile(work) && work.path@ == tool.path && Some(
                edits_view(work.edits@),
            ) == tool.edits && work.dry_run == tool.dry_run
        } else if tool.operation == "get_file_info"@ {
            job matches FileJob::GetFileInfo(work) && work.path@ == tool.path
        } else if tool.operation == "head_file"@ {
            job matches FileJob::HeadFile(work) && work.path@ == tool.path && Some(work.lines)
                == tool.lines
        } else if tool.operation == "tail_file"@ {
            job matches FileJob::TailFile(work) && work.path@ == tool.path && Some(work.lines)
                == tool.lines
        } else if tool.operation == "read_file_lines"@ {
            job matches FileJob::ReadFileLines(work) && work.path@ == tool.path && Some(
                work.offset,
            ) == tool.offset && work.limit == tool.limit
        } else if tool.operation == "read_media_file"@ {
            job matches FileJob::ReadMediaFile(work) && work.path@ == tool.path && work.max_bytes
                == tool.max_bytes
        } else {
            false
        }
    }

    /// What the step of a call holds besides the name of the operation.
    pub open spec fn step_value(tool: SingleFileOperationsView) -> JsonView {
        JsonView::Str(tool.path)
    }

    /// Whether `plan` is what this tool makes of a call: the refusal where
    /// the call is refused, else the work to carry out and the step to
    /// record for it.
    pub open spec fn plans(tool: SingleFileOperationsView, enabled: bool, plan: ToolPlan) -> bool {
        match Self::refusal(tool, enabled) {
            Some(message) => refuses(plan, message),
            None => plan matches ToolPlan::Run(job, step) && Self::job_fits(tool, job) && is_step(
                step,
                SINGLE_FILE_OPERATIONS@,
                tool.operation,
                "path"@,
                Self::step_value(tool),
            ),
        }
    }

    pub fn tool_definition() -> (tool: Tool)
        ensures
            tool.name@ == SINGLE_FILE_OPERATIONS@,
            tool.description matches Some(text) && text@ == SINGLE_FILE_DESCRIPTION@,
            tool.input_schema@ == schema_document(SINGLE_FILE_SCHEMA@),
    {
        Tool {
            name: String::from_str(SINGLE_FILE_OPERATIONS),
            description: Some(String::from_str(SINGLE_FILE_DESCRIPTION)),
            input_schema: schema_of(SINGLE_FILE_SCHEMA),
        }
    }

    /// Decides what becomes of a call: see [`Self::plans`].
    pub fn run_tool(self, gate: &ModeGate) -> (plan: ToolPlan)
        ensures
            Self::plans(self@, gate.enables(self.operation@), plan),
    {
        let operation = self.operation.as_str();
        if !gate.is_operation_enabled(operation) {
            return refuse_unavailable(operation, SINGLE_FILE_OPERATIONS);
        }
        let step = plan_step(SINGLE_FILE_OPERATIONS, operation, "path", Json::text(self.path.as_str()));
        if str_eq(operation, "read_file") {
            ToolPlan::Run(FileJob::ReadFile(ReadFileTool { path: self.path }), step)
        } else if str_eq(operation, "write_file") {
            match self.content {
                None => refuse(String::from_str("Content is required for write_file operation")),
                Some(content) => ToolPlan::Run(
                    FileJob::WriteFile(WriteFileTool { path: self.path, content }),
                    step,
                ),
            }
        } else if str_eq(operation, "edit_file") {
            match self.edits {
                None => refuse(String::from_str("Edits array is required for edit_file operation")),
                Some(edits) => ToolPlan::Run(
                    FileJob::EditFile(
                        EditFileTool { path: self.path, edits, dry_run: self.dry_run },
                    ),
                    step,
                ),
            }
        } else if str_eq(operation, "get_file_info") {
            ToolPlan::Run(FileJob::GetFileInfo(GetFileInfoTool { path: self.path }), step)
        } else if str_eq(operation, "head_file") {
            match self.lines {
                None => refuse(
                    String::from_str("Lines parameter is required for head_file operation"),
                ),
                Some(lines) => ToolPlan::Run(
                    FileJob::HeadFile(HeadFile { path: self.path, lines }),
                    step,
                ),
            }
        } else if str_eq(operation, "tail_file") {
            match self.lines {
                None => refuse(
                    String::from_str("Lines parameter is required for tail_file operation"),
                ),
                Some(lines) => ToolPlan::Run(
                    FileJob::TailFile(TailFile { path: self.path, lines }),
                    step,
                ),
            }
        } else if str_eq(operation, "read_file_lines") {
            match self.offset {
                None => refuse(
                    String::from_str("Offset parameter is required for read_file_lines operation"),
                ),
                Some(offset) => ToolPlan::Run(
                    FileJob::ReadFileLines(
                        ReadFileLines { path: self.path, offset, limit: self.limit },
                    ),
                    step,
                ),
            }
        } else if str_eq(operation, "read_media_file") {
            ToolPlan::Run(
                FileJob::ReadMediaFile(
                    ReadMediaFile { path: self.path, max_bytes: self.max_bytes },
                ),
                step,
            )
        } else {
            refuse_unknown(operation)
        }
    }
}

} // verus!
