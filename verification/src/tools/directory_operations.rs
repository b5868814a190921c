use vstd::prelude::*;
use vstd::string::StringExecFns;
use crate::json::{Json, JsonView};
use crate::mcp_types::Tool;
use crate::strings::{optional_text_view, optional_texts_view, str_eq};
use crate::task_state::ModeGate;
use crate::tools::{
    is_step, plan_step, refuse_unavailable, refuse_unknown, refuses, schema_document, schema_of,
    unavailable_message, unknown_operation_message, FileJob, ToolPlan,
};
use crate::tools::{
    CalculateDirectorySize, CreateDirectoryTool, DirectoryTreeTool, FindEmptyDirectories,
    ListDirectoryTool, ListDirectoryWithSizes,
};

verus! {

/// The operations on directories.
#[derive(Debug)]
pub struct DirectoryOperationsTool {
    pub operation: String,
    pub path: String,
    pub include_hidden: Option<bool>,
    pub max_depth: Option<u32>,
    pub exclude_patterns: Option<Vec<String>>,
    pub output_format: Option<String>,
}

pub struct DirectoryOperationsView {
    pub operation: Seq<char>,
    pub path: Seq<char>,
    pub include_hidden: Option<bool>,
    pub max_depth: Option<u32>,
    pub exclude_patterns: Option<Seq<Seq<char>>>,
    pub output_format: Option<Seq<char>>,
}

impl View for DirectoryOperationsTool {
    type V = DirectoryOperationsView;

    open spec fn view(&self) -> DirectoryOperationsView {
        DirectoryOperationsView {
            operation: self.operation@,
            path: self.path@,
            include_hidden: self.include_hidden,
            max_depth: self.max_depth,
            exclude_patterns: optional_texts_view(self.exclude_patterns),
            output_format: optional_text_view(self.output_format),
        }
    }
}

impl DirectoryOperationsTool {
    /// The arguments that a JSON object holds for this tool, or the fault of the
    /// first argument that cannot be read.
    pub open spec fn decoded(arguments: JsonView) -> Result<DirectoryOperationsView, Seq<char>> {
        match arguments.required_text("operation"@) {
            Err(fault) => Err(fault),
            Ok(operation) =>             match arguments.required_text("path"@) {
                Err(fault) => Err(fault),
                Ok(path) =>                 match arguments.optional_bool("include_hidden"@) {
                    Err(fault) => Err(fault),
                    Ok(include_hidden) =>                     match arguments.optional_u32("max_depth"@) {
                        Err(fault) => Err(fault),
                        Ok(max_depth) =>                         match arguments.optional_texts("exclude_patterns"@) {
                            Err(fault) => Err(fault),
                            Ok(exclude_patterns) =>                             match arguments.optional_text("output_format"@) {
                                Err(fault) => Err(fault),
                                Ok(output_format) => Ok(
                                    DirectoryOperationsView {
                                        operation,
                                        path,
                                        include_hidden,
                                        max_depth,
                                        exclude_patterns,
                                        output_format,
                                    },
                                ),
                            },
                        },
                    },
                },
            },
        }
    }

    /// Reads the arguments of this tool from a JSON object.
    pub fn from_json(arguments: &Json) -> (tool: Result<DirectoryOperationsTool, String>)
        ensures
            match tool {
                Ok(t) => Self::decoded(arguments@) == Ok::<DirectoryOperationsView, Seq<char>>(t@),
                Err(fault) => Self::decoded(arguments@) == Err::<
                    DirectoryOperationsView,
                    Seq<char>,
                >(fault@),
            },
    {
        let operation = match arguments.required_text("operation") {
            Ok(value) => value,
            Err(fault) => {
                return Err(fault);
            },
        };
        let path = match arguments.required_text("path") {
            Ok(value) => value,
            Err(fault) => {
                return Err(fault);
            },
        };
        let include_hidden = match arguments.optional_bool("include_hidden") {
            Ok(value) => value,
            Err(fault) => {
                return Err(fault);
            },
        };
        let max_depth = match arguments.optional_u32("max_depth") {
            Ok(value) => value,
            Err(fault) => {
                return Err(fault);
            },
        };
        let exclude_patterns = match arguments.optional_texts("exclude_patterns") {
            Ok(value) => value,
            Err(fault) => {
                return Err(fault);
            },
        };
        let output_format = match arguments.optional_text("output_format") {
            Ok(value) => value,
            Err(fault) => {
                return Err(fault);
            },
        };
        Ok(
            DirectoryOperationsTool {
                operation,
                path,
                include_hidden,
                max_depth,
                exclude_patterns,
                output_format,
            },
        )
    }
}

/// The name of the tool, and of the mode that enables its operations.
pub const DIRECTORY_OPERATIONS: &'static str = "directory_operations";

pub const DIRECTORY_DESCRIPTION: &'static str =
    "Perform various directory operations including create, list, tree view, size calculation, and finding empty directories.";

pub const DIRECTORY_SCHEMA: &'static str =
    "{\"type\":\"object\",\"properties\":{\"operation\":{\"type\":\"string\",\"description\":\"The operation to perform\",\"enum\":[\"create_directory\",\"list_directory\",\"directory_tree\",\"list_directory_with_sizes\",\"calculate_directory_size\",\"find_empty_directories\"]},\"path\":{\"type\":\"string\",\"description\":\"The directory path to operate on\"},\"include_hidden\":{\"type\":\"boolean\",\"description\":\"Include hidden files in tree view\",\"default\":false},\"max_depth\":{\"type\":\"number\",\"description\":\"Maximum depth for tree view\"},\"exclude_patterns\":{\"type\":\"array\",\"items\":{\"type\":\"string\"},\"description\":\"Patterns to exclude from empty directory search\"},\"output_format\":{\"type\":\"string\",\"description\":\"Output format for size calculation\",\"enum\":[\"human-readable\",\"bytes\"]}},\"required\":[\"operation\",\"path\"]}";

impl DirectoryOperationsTool {
    /// The text with which a call is refused, if it is: an operation that the
    /// active mode does not enable, one that lacks an argument it needs, and
    /// one that the tool does not have.
    pub open spec fn refusal(tool: DirectoryOperationsView, enabled: bool) -> Option<Seq<char>> {
        if !enabled {
            Some(unavailable_message(tool.operation, DIRECTORY_OPERATIONS@))
        } else if tool.operation == "create_directory"@ {
            None
        } else if tool.operation == "list_directory"@ {
            None
        } else if tool.operation == "directory_tree"@ {
            None
        } else if tool.operation == "list_directory_with_sizes"@ {
            None
        } else if tool.operation == "calculate_directory_size"@ {
            None
        } else if tool.operation == "find_empty_directories"@ {
            None
        } else {
            Some(unknown_operation_message(tool.operation))
        }
    }

    /// Whether `job` is the work of the operation that a call asks for, with
    /// the arguments of the call handed on. It is asked only of a call that
    /// is not refused.
    pub open spec fn job_fits(tool: DirectoryOperationsView, job: FileJob) -> bool {
        if tool.operation == "create_directory"@ {
            job matches FileJob::CreateDirectory(work) && work.path@ == tool.path
        } else if tool.operation == "list_directory"@ {
            job matches FileJob::ListDirectory(work) && work.path@ == tool.path && work.detailed
                == Some(true)
        } else if tool.operation == "directory_tree"@ {
            job matches FileJob::DirectoryTree(work) && work.path@ == tool.path
                && work.include_hidden == (tool.include_hidden == Some(true)) && work.max_depth
                == (match tool.max_depth {
                Some(depth) => depth,
                None => 0,
            })
        } else if tool.operation == "list_directory_with_sizes"@ {
            job matches FileJob::ListDirectoryWithSizes(work) && work.path@ == tool.path
        } else if tool.operation == "calculate_directory_size"@ {
            job matches FileJob::CalculateDirectorySize(work) && work.root_path@ == tool.path
                && optional_text_view(work.output_format) == tool.output_format
        } else if tool.operation == "find_empty_directories"@ {
            job matches FileJob::FindEmptyDirectories(work) && work.path@ == tool.path
                && optional_texts_view(work.exclude_patterns) == tool.exclude_patterns
                && optional_text_view(work.output_format) == Some("text"@)
        } else {
            false
        }
    }

    /// What the step of a call holds besides the name of the operation.
    pub open spec fn step_value(tool: DirectoryOperationsView) -> JsonView {
        JsonView::Str(tool.path)
    }

    /// Whether `plan` is what this tool makes of a call: the refusal where
    /// the call is refused, else the work to carry out and the step to
    /// record for it.
    pub open spec fn plans(tool: DirectoryOperationsView, enabled: bool, plan: ToolPlan) -> bool {
        match Self::refusal(tool, enabled) {
            Some(message) => refuses(plan, message),
            None => plan matches ToolPlan::Run(job, step) && Self::job_fits(tool, job) && is_step(
                step,
                DIRECTORY_OPERATIONS@,
                tool.operation,
                "path"@,
                Self::step_value(tool),
            ),
        }
    }

    pub fn tool_definition() -> (tool: Tool)
        ensures
            tool.name@ == DIRECTORY_OPERATIONS@,
            tool.description matches Some(text) && text@ == DIRECTORY_DESCRIPTION@,
            tool.input_schema@ == schema_document(DIRECTORY_SCHEMA@),
    {
        Tool {
            name: String::from_str(DIRECTORY_OPERATIONS),
            description: Some(String::from_str(DIRECTORY_DESCRIPTION)),
            input_schema: schema_of(DIRECTORY_SCHEMA),
        }
    }

    /// Decides what becomes of a call: see [`Self::plans`].
    pub fn run_tool(self, gate: &ModeGate) -> (plan: ToolPlan)
        ensures
            Self::plans(self@, gate.enables(self.operation@), plan),
    {
        let operation = self.operation.as_str();
        if !gate.is_operation_enabled(operation) {
            return refuse_unavailable(operation, DIRECTORY_OPERATIONS);
        }
        let step = plan_step(DIRECTORY_OPERATIONS, operation, "path", Json::text(self.path.as_str()));
        if str_eq(operation, "create_directory") {
            ToolPlan::Run(FileJob::CreateDirectory(CreateDirectoryTool { path: self.path }), step)
        } else if str_eq(operation, "list_directory") {
            ToolPlan::Run(
                FileJob::ListDirectory(ListDirectoryTool { path: self.path, detailed: Some(true) }),
                step,
            )
        } else if str_eq(operation, "directory_tree") {
            ToolPlan::Run(
                FileJob::DirectoryTree(
                    DirectoryTreeTool {
                        path: self.path,
                        include_hidden: match self.include_hidden {
                            Some(flag) => flag,
                            None => false,
                        },
                        max_depth: match self.max_depth {
                            Some(depth) => depth,
                            None => 0,
                        },
                    },
                ),
                step,
            )
        } else if str_eq(operation, "list_directory_with_sizes") {
            ToolPlan::Run(
                FileJob::ListDirectoryWithSizes(ListDirectoryWithSizes { path: self.path }),
                step,
            )
        } else if str_eq(operation, "calculate_directory_size") {
            ToolPlan::Run(
                FileJob::CalculateDirectorySize(
                    CalculateDirectorySize {
                        root_path: self.path,
                        output_format: self.output_format,
                    },
                ),
                step,
            )
        } else if str_eq(operation, "find_empty_directories") {
            ToolPlan::Run(
                FileJob::FindEmptyDirectories(
                    FindEmptyDirectories {
                        path: self.path,
                        exclude_patterns: self.exclude_patterns,
                        output_format: Some(String::from_str("text")),
                    },
                ),
                step,
            )
        } else {
            refuse_unknown(operation)
        }
    }
}

} // verus!
