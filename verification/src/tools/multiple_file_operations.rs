use vstd::prelude::*;
use vstd::string::StringExecFns;
use crate::json::{Json, JsonView};
use crate::mcp_types::Tool;
use crate::strings::{optional_text_view, str_eq, texts_view};
use crate::task_state::ModeGate;
use crate::tools::{
    is_step, plan_step, refuse, refuse_unavailable, refuse_unknown, refuses, schema_document,
    schema_of, unavailable_message, unknown_operation_message, FileJob, ToolPlan,
};
use crate::fs_service::utils::{path_file_name, path_join, path_joined, path_last_component};
use crate::mcp_types::{text_result, CallToolError, CallToolResult, CallToolResultView, Content};
use crate::strings::{join, joined};
use crate::tools::{
    CopyFileTool, MoveFileTool, ReadMultipleFilesTool, ReadMultipleMediaFiles, UnzipFileTool,
    ZipDirectoryTool, ZipFilesTool,
};

verus! {

/// The operations on several files.
#[derive(Debug)]
pub struct MultipleFileOperationsTool {
    pub operation: String,
    pub paths: Vec<String>,
    pub destination: Option<String>,
    pub output_path: Option<String>,
    pub pattern: Option<String>,
    pub max_bytes: Option<u64>,
}

pub struct MultipleFileOperationsView {
    pub operation: Seq<char>,
    pub paths: Seq<Seq<char>>,
    pub destination: Option<Seq<char>>,
    pub output_path: Option<Seq<char>>,
    pub pattern: Option<Seq<char>>,
    pub max_bytes: Option<u64>,
}

impl View for MultipleFileOperationsTool {
    type V = MultipleFileOperationsView;

    open spec fn view(&self) -> MultipleFileOperationsView {
        MultipleFileOperationsView {
            operation: self.operation@,
            paths: texts_view(self.paths@),
            destination: optional_text_view(self.destination),
            output_path: optional_text_view(self.output_path),
            pattern: optional_text_view(self.pattern),
            max_bytes: self.max_bytes,
        }
    }
}

impl MultipleFileOperationsTool {
    /// The arguments that a JSON object holds for this tool, or the fault of the
    /// first argument that cannot be read.
    pub open spec fn decoded(arguments: JsonView) -> Result<MultipleFileOperationsView, Seq<char>> {
        match arguments.required_text("operation"@) {
            Err(fault) => Err(fault),
            Ok(operation) =>             match arguments.required_texts("paths"@) {
                Err(fault) => Err(fault),
                Ok(paths) =>                 match arguments.optional_text("destination"@) {
                    Err(fault) => Err(fault),
                    Ok(destination) =>                     match arguments.optional_text("output_path"@) {
                        Err(fault) => Err(fault),
                        Ok(output_path) =>                         match arguments.optional_text("pattern"@) {
                            Err(fault) => Err(fault),
                            Ok(pattern) =>                             match arguments.optional_u64("max_bytes"@) {
                                Err(fault) => Err(fault),
                                Ok(max_bytes) => Ok(
                                    MultipleFileOperationsView {
                                        operation,
                                        paths,
                                        destination,
                                        output_path,
                                        pattern,
                                        max_bytes,
                                    },
                                ),
                            },
                        },
                    },
                },
            },
        }
    }

    /// Reads the arguments of this tool from a JSON object.
    pub fn from_json(arguments: &Json) -> (tool: Result<MultipleFileOperationsTool, String>)
        ensures
            match tool {
                Ok(t) => Self::decoded(arguments@) == Ok::<
                    MultipleFileOperationsView,
                    Seq<char>,
                >(t@),
                Err(fault) => Self::decoded(arguments@) == Err::<
                    MultipleFileOperationsView,
                    Seq<char>,
                >(fault@),
            },
    {
        let operation = match arguments.required_text("operation") {
            Ok(value) => value,
            Err(fault) => {
                return Err(fault);
            },
        };
        let paths = match arguments.required_texts("paths") {
            Ok(value) => value,
            Err(fault) => {
                return Err(fault);
            },
        };
        let destination = match arguments.optional_text("destination") {
            Ok(value) => value,
            Err(fault) => {
                return Err(fault);
            },
        };
        let output_path = match arguments.optional_text("output_path") {
            Ok(value) => value,
            Err(fault) => {
                return Err(fault);
            },
        };
        let pattern = match arguments.optional_text("pattern") {
            Ok(value) => value,
            Err(fault) => {
                return Err(fault);
            },
        };
        let max_bytes = match arguments.optional_u64("max_bytes") {
            Ok(value) => value,
            Err(fault) => {
                return Err(fault);
            },
        };
        Ok(
            MultipleFileOperationsTool {
                operation,
                paths,
                destination,
                output_path,
                pattern,
                max_bytes,
            },
        )
    }
}

/// The name of the tool, and of the mode that enables its operations.
pub const MULTIPLE_FILE_OPERATIONS: &'static str = "multiple_file_operations";

pub const MULTIPLE_FILE_DESCRIPTION: &'static str =
    "Perform various operations on multiple files including read, copy, move, zip, unzip, and read media files.";

pub const MULTIPLE_FILE_SCHEMA: &'static str =
    "{\"type\":\"object\",\"properties\":{\"operation\":{\"type\":\"string\",\"description\":\"The operation to perform\",\"enum\":[\"read_multiple_files\",\"read_multiple_media_files\",\"copy_files\",\"move_files\",\"zip_files\",\"unzip_file\",\"zip_directory\"]},\"paths\":{\"type\":\"array\",\"items\":{\"type\":\"string\"},\"description\":\"Array of file paths to operate on\"},\"destination\":{\"type\":\"string\",\"description\":\"Destination path for copy/move operations\"},\"output_path\":{\"type\":\"string\",\"description\":\"Output path for zip operations\"},\"pattern\":{\"type\":\"string\",\"description\":\"Pattern for zip_directory operation\"},\"max_bytes\":{\"type\":\"number\",\"description\":\"Maximum file size in bytes for media files\"}},\"required\":[\"operation\",\"paths\"]}";

/// Where a file lands that is copied or moved into the directory
/// `destination`: under its own name.
pub open spec fn landing_path(destination: Seq<char>, source: Seq<char>) -> Seq<char> {
    path_joined(
        destination,
        match path_last_component(source) {
            Some(name) => name,
            None => Seq::empty(),
        },
    )
}

/// The line that reports how the transfer of one file ended.
pub open spec fn transfer_line_text(
    verb: Seq<char>,
    source: Seq<char>,
    outcome: Result<CallToolResult, CallToolError>,
) -> Seq<char> {
    match outcome {
        Ok(result) => if result.is_error == Some(true) {
            verb + " "@ + source + ": Error - "@ + first_text(result@)
        } else {
            verb + " "@ + source + ": Success"@
        },
        Err(error) => verb + " "@ + source + ": Error - "@ + error.message@,
    }
}

/// The text that an answer begins with; empty where it begins with none.
pub open spec fn first_text(result: CallToolResultView) -> Seq<char> {
    if result.content.len() > 0 && result.content[0] is Text {
        result.content[0]->Text_0
    } else {
        Seq::empty()
    }
}

fn landing(destination: &str, source: &str) -> (path: String)
    ensures
        path@ == landing_path(destination@, source@),
{
    match path_file_name(source) {
        Some(name) => path_join(destination, name.as_str()),
        None => {
            proof {
                reveal_strlit("");
                assert(""@ =~= Seq::<char>::empty());
            }
            path_join(destination, "")
        },
    }
}

fn copy_jobs(paths: &Vec<String>, destination: &str) -> (jobs: Vec<CopyFileTool>)
    ensures
        jobs@.len() == paths@.len(),
        forall|i: int|
            0 <= i < paths@.len() ==> (#[trigger] jobs@[i]).source@ == paths@[i]@
                && jobs@[i].destination@ == landing_path(destination@, paths@[i]@),
{
    let mut jobs: Vec<CopyFileTool> = Vec::new();
    let mut i: usize = 0;
    while i < paths.len()
        invariant
            i <= paths.len(),
            jobs@.len() == i,
            forall|k: int|
                0 <= k < i ==> (#[trigger] jobs@[k]).source@ == paths@[k]@
                    && jobs@[k].destination@ == landing_path(destination@, paths@[k]@),
        decreases paths.len() - i,
    {
        jobs.push(
            CopyFileTool {
                source: paths[i].clone(),
                destination: landing(destination, paths[i].as_str()),
            },
        );
        i = i + 1;
    }
    jobs
}

fn move_jobs(paths: &Vec<String>, destination: &str) -> (jobs: Vec<MoveFileTool>)
    ensures
        jobs@.len() == paths@.len(),
        forall|i: int|
            0 <= i < paths@.len() ==> (#[trigger] jobs@[i]).source@ == paths@[i]@
                && jobs@[i].destination@ == landing_path(destination@, paths@[i]@),
{
    let mut jobs: Vec<MoveFileTool> = Vec::new();
    let mut i: usize = 0;
    while i < paths.len()
        invariant
            i <= paths.len(),
            jobs@.len() == i,
            forall|k: int|
                0 <= k < i ==> (#[trigger] jobs@[k]).source@ == paths@[k]@
                    && jobs@[k].destination@ == landing_path(destination@, paths@[k]@),
        decreases paths.len() - i,
    {
        jobs.push(
            MoveFileTool {
                source: paths[i].clone(),
                destination: landing(destination, paths[i].as_str()),
            },
        );
        i = i + 1;
    }
    jobs
}

impl MultipleFileOperationsTool {
    /// The text with which a call is refused, if it is: an operation that the
    /// active mode does not enable, one that lacks an argument it needs, and
    /// one that the tool does not have.
    pub open spec fn refusal(tool: MultipleFileOperationsView, enabled: bool) -> Option<Seq<char>> {
        if !enabled {
            Some(unavailable_message(tool.operation, MULTIPLE_FILE_OPERATIONS@))
        } else if tool.operation == "read_multiple_files"@ {
            None
        } else if tool.operation == "read_multiple_media_files"@ {
            None
        } else if tool.operation == "copy_files"@ {
            match tool.destination {
                None => Some("Destination is required for copy_files operation"@),
                Some(_) => None,
            }
        } else if tool.operation == "move_files"@ {
            match tool.destination {
                None => Some("Destination is required for move_files operation"@),
                Some(_) => None,
            }
        } else if tool.operation == "zip_files"@ {
            match tool.output_path {
                None => Some("Output path is required for zip_files operation"@),
                Some(_) => None,
            }
        } else if tool.operation == "unzip_file"@ {
            match tool.output_path {
                None => Some("Output path is required for unzip_file operation"@),
                Some(_) => if tool.paths.len() == 0 {
                    Some("At least one zip file path is required"@)
                } else {
                    None
                },
            }
        } else if tool.operation == "zip_directory"@ {
            match tool.output_path {
                None => Some("Output path is required for zip_directory operation"@),
                Some(_) => if tool.paths.len() == 0 {
                    Some("At least one directory path is required"@)
                } else {
                    None
                },
            }
        } else {
            Some(unknown_operation_message(tool.operation))
        }
    }

    /// Whether `job` is the work of the operation that a call asks for, with
    /// the arguments of the call handed on. It is asked only of a call that
    /// is not refused.
    pub open spec fn job_fits(tool: MultipleFileOperationsView, job: FileJob) -> bool {
        if tool.operation == "read_multiple_files"@ {
            job matches FileJob::ReadMultipleFiles(work) && texts_view(work.paths@) == tool.paths
        } else if tool.operation == "read_multiple_media_files"@ {
            job matches FileJob::ReadMultipleMediaFiles(work) && texts_view(work.paths@)
                == tool.paths && work.max_bytes == tool.max_bytes
        } else if tool.operation == "copy_files"@ {
            job matches FileJob::CopyFiles(transfers) && tool.destination matches Some(destination)
                && transfers@.len() == tool.paths.len() && forall|i: int|
                0 <= i < tool.paths.len() ==> (#[trigger] transfers@[i]).source@ == tool.paths[i]
                    && transfers@[i].destination@ == landing_path(destination, tool.paths[i])
        } else if tool.operation == "move_files"@ {
            job matches FileJob::MoveFiles(transfers) && tool.destination matches Some(destination)
                && transfers@.len() == tool.paths.len() && forall|i: int|
                0 <= i < tool.paths.len() ==> (#[trigger] transfers@[i]).source@ == tool.paths[i]
                    && transfers@[i].destination@ == landing_path(destination, tool.paths[i])
        } else if tool.operation == "zip_files"@ {
            job matches FileJob::ZipFiles(work) && texts_view(work.files@) == tool.paths && Some(
                work.output_path@,
            ) == tool.output_path
        } else if tool.operation == "unzip_file"@ {
            job matches FileJob::UnzipFile(work) && tool.paths.len() > 0 && work.zip_path@
                == tool.paths[0] && Some(work.output_dir@) == tool.output_path
        } else if tool.operation == "zip_directory"@ {
            job matches FileJob::ZipDirectory(work) && tool.paths.len() > 0
                && work.directory_path@ == tool.paths[0] && Some(work.output_path@)
                == tool.output_path
        } else {
            false
        }
    }

    /// What the step of a call holds besides the name of the operation.
    pub open spec fn step_value(tool: MultipleFileOperationsView) -> JsonView {
        JsonView::integer(tool.paths.len() as int)
    }

    /// Whether `plan` is what this tool makes of a call: the refusal where
    /// the call is refused, else the work to carry out and the step to
    /// record for it.
    pub open spec fn plans(
        tool: MultipleFileOperationsView,
        enabled: bool,
        plan: ToolPlan,
    ) -> bool {
        match Self::refusal(tool, enabled) {
            Some(message) => refuses(plan, message),
            None => plan matches ToolPlan::Run(job, step) && Self::job_fits(tool, job) && is_step(
                step,
                MULTIPLE_FILE_OPERATIONS@,
                tool.operation,
                "path_count"@,
                Self::step_value(tool),
            ),
        }
    }

    pub fn tool_definition() -> (tool: Tool)
        ensures
            tool.name@ == MULTIPLE_FILE_OPERATIONS@,
            tool.description matches Some(text) && text@ == MULTIPLE_FILE_DESCRIPTION@,
            tool.input_schema@ == schema_document(MULTIPLE_FILE_SCHEMA@),
    {
        Tool {
            name: String::from_str(MULTIPLE_FILE_OPERATIONS),
            description: Some(String::from_str(MULTIPLE_FILE_DESCRIPTION)),
            input_schema: schema_of(MULTIPLE_FILE_SCHEMA),
        }
    }

    /// Decides what becomes of a call: see [`Self::plans`].
    pub fn run_tool(self, gate: &ModeGate) -> (plan: ToolPlan)
        ensures
            Self::plans(self@, gate.enables(self.operation@), plan),
    {
        let operation = self.operation.as_str();
        if !gate.is_operation_enabled(operation) {
            return refuse_unavailable(operation, MULTIPLE_FILE_OPERATIONS);
        }
        let step = plan_step(
            MULTIPLE_FILE_OPERATIONS,
            operation,
            "path_count",
            Json::unsigned(self.paths.len() as u64),
        );
        if str_eq(operation, "read_multiple_files") {
            ToolPlan::Run(
                FileJob::ReadMultipleFiles(ReadMultipleFilesTool { paths: self.paths }),
                step,
            )
        } else if str_eq(operation, "read_multiple_media_files") {
            ToolPlan::Run(
                FileJob::ReadMultipleMediaFiles(
                    ReadMultipleMediaFiles { paths: self.paths, max_bytes: self.max_bytes },
                ),
                step,
            )
        } else if str_eq(operation, "copy_files") {
            match self.destination {
                None => refuse(String::from_str("Destination is required for copy_files operation")),
                Some(destination) => ToolPlan::Run(
                    FileJob::CopyFiles(copy_jobs(&self.paths, destination.as_str())),
                    step,
                ),
            }
        } else if str_eq(operation, "move_files") {
            match self.destination {
                None => refuse(String::from_str("Destination is required for move_files operation")),
                Some(destination) => ToolPlan::Run(
                    FileJob::MoveFiles(move_jobs(&self.paths, destination.as_str())),
                    step,
                ),
            }
        } else if str_eq(operation, "zip_files") {
            match self.output_path {
                None => refuse(String::from_str("Output path is required for zip_files operation")),
                Some(output_path) => ToolPlan::Run(
                    FileJob::ZipFiles(ZipFilesTool { files: self.paths, output_path }),
                    step,
                ),
            }
        } else if str_eq(operation, "unzip_file") {
            match self.output_path {
                None => refuse(String::from_str("Output path is required for unzip_file operation")),
                Some(output_path) => {
                    if self.paths.len() == 0 {
                        refuse(String::from_str("At least one zip file path is required"))
                    } else {
                        ToolPlan::Run(
                            FileJob::UnzipFile(
                                UnzipFileTool {
                                    zip_path: self.paths[0].clone(),
                                    output_dir: output_path,
                                },
                            ),
                            step,
                        )
                    }
                },
            }
        } else if str_eq(operation, "zip_directory") {
            match self.output_path {
                None => refuse(
                    String::from_str("Output path is required for zip_directory operation"),
                ),
                Some(output_path) => {
                    if self.paths.len() == 0 {
                        refuse(String::from_str("At least one directory path is required"))
                    } else {
                        ToolPlan::Run(
                            FileJob::ZipDirectory(
                                ZipDirectoryTool {
                                    directory_path: self.paths[0].clone(),
                                    output_path,
                                },
                            ),
                            step,
                        )
                    }
                },
            }
        } else {
            refuse_unknown(operation)
        }
    }

    /// The line that reports how the transfer of one file ended: `verb` is
    /// `Copied` or `Moved`.
    pub fn transfer_line(
        verb: &str,
        source: &str,
        outcome: &Result<CallToolResult, CallToolError>,
    ) -> (line: String)
        ensures
            line@ == transfer_line_text(verb@, source@, *outcome),
    {
        let start = String::from_str(verb).concat(" ").concat(source);
        match outcome {
            Ok(result) => match result.is_error {
                Some(true) => {
                    let failed = start.concat(": Error - ");
                    if result.content.len() > 0 {
                        match &result.content[0] {
                            Content::Text(text) => failed.concat(text.text.as_str()),
                            _ => failed,
                        }
                    } else {
                        failed
                    }
                },
                _ => start.concat(": Success"),
            },
            Err(error) => start.concat(": Error - ").concat(error.message.as_str()),
        }
    }

    /// The answer to a call that copied or moved files: the heading, and one
    /// line for each file. Single transfers that failed do not make the call
    /// fail.
    pub fn transfer_report(heading: &str, lines: &Vec<String>) -> (result: CallToolResult)
        ensures
            result@ == text_result(
                heading@ + "\n"@ + joined(texts_view(lines@), "\n"@),
                false,
            ),
    {
        let body = join(lines, "\n");
        CallToolResult::text(String::from_str(heading).concat("\n").concat(body.as_str()), false)
    }
}

} // verus!
