use vstd::prelude::*;
use vstd::string::StringExecFns;
use crate::json::{Json, JsonView};
use crate::mcp_types::Tool;
use crate::strings::{optional_text_view, str_eq};
use crate::task_state::ModeGate;
use crate::tools::{
    is_step, plan_step, refuse, refuse_unavailable, refuse_unknown, refuses, schema_document,
    schema_of, unavailable_message, unknown_operation_message, FileJob, ToolPlan,
};
use crate::tools::{DeleteFileTool, ListAllowedDirectoriesTool};

verus! {

/// The operations that manage files.
#[derive(Debug)]
pub struct FileManagementTool {
    pub operation: String,
    pub path: Option<String>,
    pub confirm: Option<bool>,
}

pub struct FileManagementView {
    pub operation: Seq<char>,
    pub path: Option<Seq<char>>,
    pub confirm: Option<bool>,
}

impl View for FileManagementTool {
    type V = FileManagementView;

    open spec fn view(&self) -> FileManagementView {
        FileManagementView {
            operation: self.operation@,
            path: optional_text_view(self.path),
            confirm: self.confirm,
        }
    }
}

impl FileManagementTool {
    /// The arguments that a JSON object holds for this tool, or the fault of the
    /// first argument that cannot be read.
    pub open spec fn decoded(arguments: JsonView) -> Result<FileManagementView, Seq<char>> {
        match arguments.required_text("operation"@) {
            Err(fault) => Err(fault),
            Ok(operation) =>             match arguments.optional_text("path"@) {
                Err(fault) => Err(fault),
                Ok(path) =>                 match arguments.optional_bool("confirm"@) {
                    Err(fault) => Err(fault),
                    Ok(confirm) => Ok(FileManagementView { operation, path, confirm }),
                },
            },
        }
    }

    /// Reads the arguments of this tool from a JSON object.
    pub fn from_json(arguments: &Json) -> (tool: Result<FileManagementTool, String>)
        ensures
            match tool {
                Ok(t) => Self::decoded(arguments@) == Ok::<FileManagementView, Seq<char>>(t@),
                Err(fault) => Self::decoded(arguments@) == Err::<
                    FileManagementView,
                    Seq<char>,
                >(fault@),
            },
    {
        let operation = match arguments.required_text("operation") {
            Ok(value) => value,
            Err(fault) => {
                return Err(fault);
            },
        };
        let path = match arguments.optional_text("path") {
            Ok(value) => value,
            Err(fault) => {
                return Err(fault);
            },
        };
        let confirm = match arguments.optional_bool("confirm") {
            Ok(value) => value,
            Err(fault) => {
                return Err(fault);
            },
        };
        Ok(FileManagementTool { operation, path, confirm })
    }
}

/// The name of the tool, and of the mode that enables its operations.
pub const FILE_MANAGEMENT: &'static str = "file_management";

pub const FILE_MANAGEMENT_DESCRIPTION: &'static str =
    "Perform file management operations including listing allowed directories and deleting files.";

pub const FILE_MANAGEMENT_SCHEMA: &'static str =
    "{\"type\":\"object\",\"properties\":{\"operation\":{\"type\":\"string\",\"description\":\"The operation to perform\",\"enum\":[\"list_allowed_directories\",\"delete_file\"]},\"path\":{\"type\":\"string\",\"description\":\"File or directory path for delete operation\"},\"confirm\":{\"type\":\"boolean\",\"description\":\"Confirmation for delete operation\",\"default\":false}},\"required\":[\"operation\"]}";

/// The path of a call as its step records it: `null` where the call has
/// none.
pub open spec fn recorded_path(path: Option<Seq<char>>) -> JsonView {
    match path {
        Some(p) => JsonView::Str(p),
        None => JsonView::Null,
    }
}

impl FileManagementTool {
    /// The text with which a call is refused, if it is: an operation that the
    /// active mode does not enable, one that lacks an argument it needs, and
    /// one that the tool does not have.
    pub open spec fn refusal(tool: FileManagementView, enabled: bool) -> Option<Seq<char>> {
        if !enabled {
            Some(unavailable_message(tool.operation, FILE_MANAGEMENT@))
        } else if tool.operation == "list_allowed_directories"@ {
            None
        } else if tool.operation == "delete_file"@ {
            match tool.path {
                None => Some("Path is required for delete_file operation"@),
                Some(_) => None,
            }
        } else {
            Some(unknown_operation_message(tool.operation))
        }
    }

    /// Whether `job` is the work of the operation that a call asks for, with
    /// the arguments of the call handed on. It is asked only of a call that
    /// is not refused.
    pub open spec fn job_fits(tool: FileManagementView, job: FileJob) -> bool {
        if tool.operation == "list_allowed_directories"@ {
            job is ListAllowedDirectories
        } else if tool.operation == "delete_file"@ {
            job matches FileJob::DeleteFile(work) && Some(work.path@) == tool.path && work.confirm
                == tool.confirm
        } else {
            false
        }
    }

    /// What the step of a call holds besides the name of the operation.
    pub open spec fn step_value(tool: FileManagementView) -> JsonView {
        recorded_path(tool.path)
    }

    /// Whether `plan` is what this tool makes of a call: the refusal where
    /// the call is refused, else the work to carry out and the step to
    /// record for it.
    pub open spec fn plans(tool: FileManagementView, enabled: bool, plan: ToolPlan) -> bool {
        match Self::refusal(tool, enabled) {
            Some(message) => refuses(plan, message),
            None => plan matches ToolPlan::Run(job, step) && Self::job_fits(tool, job) && is_step(
                step,
                FILE_MANAGEMENT@,
                tool.operation,
                "path"@,
                Self::step_value(tool),
            ),
        }
    }

    pub fn tool_definition() -> (tool: Tool)
        ensures
            tool.name@ == FILE_MANAGEMENT@,
            tool.description matches Some(text) && text@ == FILE_MANAGEMENT_DESCRIPTION@,
            tool.input_schema@ == schema_document(FILE_MANAGEMENT_SCHEMA@),
    {
        Tool {
            name: String::from_str(FILE_MANAGEMENT),
            description: Some(String::from_str(FILE_MANAGEMENT_DESCRIPTION)),
            input_schema: schema_of(FILE_MANAGEMENT_SCHEMA),
        }
    }

    /// Decides what becomes of a call: see [`Self::plans`].
    pub fn run_tool(self, gate: &ModeGate) -> (plan: ToolPlan)
        ensures
            Self::plans(self@, gate.enables(self.operation@), plan),
    {
        let operation = self.operation.as_str();
        if !gate.is_operation_enabled(operation) {
            return refuse_unavailable(operation, FILE_MANAGEMENT);
        }
        let recorded = match &self.path {
            Some(path) => Json::text(path.as_str()),
            None => Json::Null,
        };
        let step = plan_step(FILE_MANAGEMENT, operation, "path", recorded);
        if str_eq(operation, "list_allowed_directories") {
            ToolPlan::Run(FileJob::ListAllowedDirectories(ListAllowedDirectoriesTool {  }), step)
        } else if str_eq(operation, "delete_file") {
            match self.path {
                None => refuse(String::from_str("Path is required for delete_file operation")),
                Some(path) => ToolPlan::Run(
                    FileJob::DeleteFile(DeleteFileTool { path, confirm: self.confirm }),
                    step,
                ),
            }
        } else {
            refuse_unknown(operation)
        }
    }
}

} // verus!
