//! The operations that a caller can invoke.
//!
//! Five tools group the file operations by kind; which of their operations may
//! be called depends on the active operation mode. Four more tools manage the
//! mode itself.

pub mod edit_operation;
pub mod directory_tree;
pub mod list_allowed_directories;
pub mod read_file;
pub mod read_multiple_files;
pub mod write_file;
pub mod edit_file;
pub mod create_directory;
pub mod list_directory;
pub mod move_file;
pub mod search_files;
pub mod get_file_info;
pub mod zip_files;
pub mod unzip_file;
pub mod zip_directory;
pub mod copy_file;
pub mod delete_file;
pub mod calculate_directory_size;
pub mod find_duplicate_files;
pub mod find_empty_directories;
pub mod head_file;
pub mod list_directory_with_sizes;
pub mod read_file_lines;
pub mod read_media_file;
pub mod read_multiple_media_files;
pub mod search_files_content;
pub mod tail_file;

pub mod directory_operations;
pub mod file_management;
pub mod multiple_file_operations;
pub mod operation_mode_management;
pub mod search_and_analysis;
pub mod single_file_operations;

pub use edit_operation::EditOperation;
pub use directory_tree::DirectoryTreeTool;
pub use list_allowed_directories::ListAllowedDirectoriesTool;
pub use read_file::ReadFileTool;
pub use read_multiple_files::ReadMultipleFilesTool;
pub use write_file::WriteFileTool;
pub use edit_file::EditFileTool;
pub use create_directory::CreateDirectoryTool;
pub use list_directory::ListDirectoryTool;
pub use move_file::MoveFileTool;
pub use search_files::SearchFilesTool;
pub use get_file_info::GetFileInfoTool;
pub use zip_files::ZipFilesTool;
pub use unzip_file::UnzipFileTool;
pub use zip_directory::ZipDirectoryTool;
pub use copy_file::CopyFileTool;
pub use delete_file::DeleteFileTool;
pub use calculate_directory_size::CalculateDirectorySize;
pub use find_duplicate_files::FindDuplicateFiles;
pub use find_empty_directories::FindEmptyDirectories;
pub use head_file::HeadFile;
pub use list_directory_with_sizes::ListDirectoryWithSizes;
pub use read_file_lines::ReadFileLines;
pub use read_media_file::ReadMediaFile;
pub use read_multiple_media_files::ReadMultipleMediaFiles;
pub use search_files_content::SearchFilesContent;
pub use tail_file::TailFile;
pub use directory_operations::DirectoryOperationsTool;
pub use file_management::FileManagementTool;
pub use multiple_file_operations::MultipleFileOperationsTool;
pub use operation_mode_management::{
    CompleteCurrentModeTool, GetCurrentModeStatusTool, ListAvailableModesTool,
    StartOperationModeTool,
};
pub use search_and_analysis::SearchAndAnalysisTool;
pub use single_file_operations::SingleFileOperationsTool;

use vstd::prelude::*;
use vstd::string::StringExecFns;
use crate::json::{lemma_object_view, members_view, parse_json, parsed_document, Json, JsonView};
use crate::error::ServiceError;
use crate::mcp_types::{text_result, CallToolError, CallToolParams, CallToolResult, Tool};
use crate::strings::str_eq;
use directory_operations::{
    DIRECTORY_DESCRIPTION, DIRECTORY_OPERATIONS, DIRECTORY_SCHEMA, DirectoryOperationsView,
};
use file_management::{
    FILE_MANAGEMENT, FILE_MANAGEMENT_DESCRIPTION, FILE_MANAGEMENT_SCHEMA, FileManagementView,
};
use multiple_file_operations::{
    MULTIPLE_FILE_DESCRIPTION, MULTIPLE_FILE_OPERATIONS, MULTIPLE_FILE_SCHEMA,
    MultipleFileOperationsView,
};
use operation_mode_management::{
    unexpected_arguments, COMPLETE_CURRENT_MODE, COMPLETE_MODE_DESCRIPTION, GET_CURRENT_MODE_STATUS,
    LIST_AVAILABLE_MODES, LIST_MODES_DESCRIPTION, MODE_STATUS_DESCRIPTION, NO_ARGUMENTS_SCHEMA,
    START_MODE_DESCRIPTION, START_MODE_SCHEMA, START_OPERATION_MODE,
};
use search_and_analysis::{
    SEARCH_AND_ANALYSIS, SEARCH_DESCRIPTION, SEARCH_SCHEMA, SearchAndAnalysisView,
};
use single_file_operations::{
    SINGLE_FILE_DESCRIPTION, SINGLE_FILE_OPERATIONS, SINGLE_FILE_SCHEMA, SingleFileOperationsView,
};
use crate::task_state::{add_workflow_step, records, ModeGate, Timestamp};

verus! {

/// The work on the file system that a call asks for. The caller carries it
/// out and hands what came of it to the `run_tool` of the tool inside.
#[derive(Debug)]
pub enum FileJob {
    ReadFile(ReadFileTool),
    WriteFile(WriteFileTool),
    EditFile(EditFileTool),
    GetFileInfo(GetFileInfoTool),
    HeadFile(HeadFile),
    TailFile(TailFile),
    ReadFileLines(ReadFileLines),
    ReadMediaFile(ReadMediaFile),
    ReadMultipleFiles(ReadMultipleFilesTool),
    ReadMultipleMediaFiles(ReadMultipleMediaFiles),
    CopyFiles(Vec<CopyFileTool>),
    MoveFiles(Vec<MoveFileTool>),
    ZipFiles(ZipFilesTool),
    UnzipFile(UnzipFileTool),
    ZipDirectory(ZipDirectoryTool),
    CreateDirectory(CreateDirectoryTool),
    ListDirectory(ListDirectoryTool),
    DirectoryTree(DirectoryTreeTool),
    ListDirectoryWithSizes(ListDirectoryWithSizes),
    CalculateDirectorySize(CalculateDirectorySize),
    FindEmptyDirectories(FindEmptyDirectories),
    SearchFiles(SearchFilesTool),
    SearchFilesContent(SearchFilesContent),
    FindDuplicateFiles(FindDuplicateFiles),
    ListAllowedDirectories(ListAllowedDirectoriesTool),
    DeleteFile(DeleteFileTool),
}

/// The workflow step that a call records once it has succeeded.
#[derive(Debug)]
pub struct PlannedStep {
    pub step_name: String,
    pub summary: Json,
}

/// What a grouped tool makes of a call: an answer at once, or work to carry
/// out and the step to record for it.
#[derive(Debug)]
pub enum ToolPlan {
    Done(CallToolResult),
    Run(FileJob, PlannedStep),
}

/// The answer to a call of an operation that the active mode does not
/// enable.
pub open spec fn unavailable_message(operation: Seq<char>, tool: Seq<char>) -> Seq<char> {
    "Operation '"@ + operation
        + "' is not available in the current operation mode. Use 'start_operation_mode' with '"@
        + tool + "' to enable this operation."@
}

/// The answer to a call of an operation that the tool does not have.
pub open spec fn unknown_operation_message(operation: Seq<char>) -> Seq<char> {
    "Unknown operation: "@ + operation
}

/// Whether the plan is to answer at once that the call failed, with the
/// given text.
pub open spec fn refuses(plan: ToolPlan, message: Seq<char>) -> bool {
    plan matches ToolPlan::Done(result) && result@ == text_result(message, true)
}

/// Whether `step` is the step of `operation` of `tool`, whose summary names
/// the operation, holds `value` under `key`, and reports success.
pub open spec fn is_step(
    step: PlannedStep,
    tool: Seq<char>,
    operation: Seq<char>,
    key: Seq<char>,
    value: JsonView,
) -> bool {
    &&& step.step_name@ == tool + ":"@ + operation
    &&& step.summary@ == JsonView::Object(
        seq![
            ("operation"@, JsonView::Str(operation)),
            (key, value),
            ("success"@, JsonView::Bool(true)),
        ],
    )
}

/// Whether a call ended well: it has an answer, and the answer does not
/// report an error.
pub open spec fn succeeded(outcome: Result<CallToolResult, CallToolError>) -> bool {
    outcome matches Ok(result) && result.is_error != Some(true)
}

/// The document that a schema text denotes; `null` for a text that is no
/// JSON.
pub open spec fn schema_document(text: Seq<char>) -> JsonView {
    match parsed_document(text) {
        Some(document) => document,
        None => JsonView::Null,
    }
}

pub(crate) fn schema_of(text: &str) -> (schema: Json)
    ensures
        schema@ == schema_document(text@),
{
    match parse_json(text) {
        Some(document) => document,
        None => Json::Null,
    }
}

/// Whether a call is answered with the given text, and without an error.
pub open spec fn answers(outcome: Result<CallToolResult, CallToolError>, text: Seq<char>) -> bool {
    outcome matches Ok(result) && result@ == text_result(text, false)
}

/// Whether a call is answered with the report that the operation did not
/// succeed, and why: a path that the sandbox rejects, a file that is not
/// found, input or output that failed. Such an answer is a result of the
/// call, not a fault of the protocol.
pub open spec fn reports_failure(
    outcome: Result<CallToolResult, CallToolError>,
    message: Seq<char>,
) -> bool {
    outcome matches Ok(result) && result@ == text_result(message, true)
}

/// Whether a call fails with the given message: the tool itself could not do
/// its work.
pub open spec fn fails_with(
    outcome: Result<CallToolResult, CallToolError>,
    message: Seq<char>,
) -> bool {
    outcome matches Err(error) && error.message@ == message
}

pub(crate) fn answer(text: String) -> (outcome: Result<CallToolResult, CallToolError>)
    ensures
        answers(outcome, text@),
{
    Ok(CallToolResult::text(text, false))
}

pub(crate) fn fail(error: &ServiceError) -> (outcome: Result<CallToolResult, CallToolError>)
    ensures
        reports_failure(outcome, error.message_spec()),
{
    Ok(CallToolResult::text(error.message(), true))
}

pub(crate) fn refuse(message: String) -> (plan: ToolPlan)
    ensures
        refuses(plan, message@),
{
    ToolPlan::Done(CallToolResult::text(message, true))
}

pub(crate) fn refuse_unavailable(operation: &str, tool: &str) -> (plan: ToolPlan)
    ensures
        refuses(plan, unavailable_message(operation@, tool@)),
{
    refuse(
        String::from_str("Operation '").concat(operation).concat(
            "' is not available in the current operation mode. Use 'start_operation_mode' with '",
        ).concat(tool).concat("' to enable this operation."),
    )
}

pub(crate) fn refuse_unknown(operation: &str) -> (plan: ToolPlan)
    ensures
        refuses(plan, unknown_operation_message(operation@)),
{
    refuse(String::from_str("Unknown operation: ").concat(operation))
}

pub(crate) fn plan_step(tool: &str, operation: &str, key: &str, value: Json) -> (step: PlannedStep)
    ensures
        is_step(step, tool@, operation@, key@, value@),
{
    let members = vec![
        (String::from_str("operation"), Json::text(operation)),
        (key.to_owned(), value),
        (String::from_str("success"), Json::Bool(true)),
    ];
    proof {
        lemma_object_view(members);
        assert(members_view(members@) =~= seq![
            ("operation"@, JsonView::Str(operation@)),
            (key@, value@),
            ("success"@, JsonView::Bool(true)),
        ]);
    }
    PlannedStep {
        step_name: String::from_str(tool).concat(":").concat(operation),
        summary: Json::Object(members),
    }
}

/// Records the step of a call that ended well in the active mode. A call
/// that failed, or whose answer reports an error, leaves no step.
pub fn record_step(
    gate: &mut ModeGate,
    step: PlannedStep,
    outcome: &Result<CallToolResult, CallToolError>,
    now: Timestamp,
)
    ensures
        succeeded(*outcome) ==> records(
            *old(gate),
            *final(gate),
            step.step_name@,
            step.summary@,
            now,
        ),
        !succeeded(*outcome) ==> *final(gate) == *old(gate),
{
    let ended_well = match outcome {
        Ok(result) => match result.is_error {
            Some(true) => false,
            _ => true,
        },
        Err(_) => false,
    };
    if ended_well {
        add_workflow_step(gate, step.step_name, step.summary, None, now);
    }
}

/// The tools that a caller can invoke, each with the arguments of one call.
#[derive(Debug)]
pub enum FileSystemTools {
    SingleFileOperationsTool(SingleFileOperationsTool),
    MultipleFileOperationsTool(MultipleFileOperationsTool),
    DirectoryOperationsTool(DirectoryOperationsTool),
    SearchAndAnalysisTool(SearchAndAnalysisTool),
    FileManagementTool(FileManagementTool),
    StartOperationMode(StartOperationModeTool),
    CompleteCurrentMode(CompleteCurrentModeTool),
    ListAvailableModes(ListAvailableModesTool),
    GetCurrentModeStatus(GetCurrentModeStatusTool),
}

pub enum FileSystemToolsView {
    SingleFileOperationsTool(SingleFileOperationsView),
    MultipleFileOperationsTool(MultipleFileOperationsView),
    DirectoryOperationsTool(DirectoryOperationsView),
    SearchAndAnalysisTool(SearchAndAnalysisView),
    FileManagementTool(FileManagementView),
    StartOperationMode(Seq<char>),
    CompleteCurrentMode,
    ListAvailableModes,
    GetCurrentModeStatus,
}

impl View for FileSystemTools {
    type V = FileSystemToolsView;

    open spec fn view(&self) -> FileSystemToolsView {
        match self {
            FileSystemTools::SingleFileOperationsTool(tool) =>
                FileSystemToolsView::SingleFileOperationsTool(tool@),
            FileSystemTools::MultipleFileOperationsTool(tool) =>
                FileSystemToolsView::MultipleFileOperationsTool(tool@),
            FileSystemTools::DirectoryOperationsTool(tool) =>
                FileSystemToolsView::DirectoryOperationsTool(tool@),
            FileSystemTools::SearchAndAnalysisTool(tool) =>
                FileSystemToolsView::SearchAndAnalysisTool(tool@),
            FileSystemTools::FileManagementTool(tool) => FileSystemToolsView::FileManagementTool(
                tool@,
            ),
            FileSystemTools::StartOperationMode(tool) => FileSystemToolsView::StartOperationMode(
                tool.mode_name@,
            ),
            FileSystemTools::CompleteCurrentMode(_) => FileSystemToolsView::CompleteCurrentMode,
            FileSystemTools::ListAvailableModes(_) => FileSystemToolsView::ListAvailableModes,
            FileSystemTools::GetCurrentModeStatus(_) => FileSystemToolsView::GetCurrentModeStatus,
        }
    }
}

/// A tool as the catalogue lists it: its name, its description, and the
/// text of the schema of its arguments.
pub struct CatalogueEntry {
    pub name: Seq<char>,
    pub description: Seq<char>,
    pub schema: Seq<char>,
}

/// The catalogue of the tools, in the order in which they are listed.
pub open spec fn catalogue() -> Seq<CatalogueEntry> {
    seq![
        CatalogueEntry {
            name: SINGLE_FILE_OPERATIONS@,
            description: SINGLE_FILE_DESCRIPTION@,
            schema: SINGLE_FILE_SCHEMA@,
        },
        CatalogueEntry {
            name: MULTIPLE_FILE_OPERATIONS@,
            description: MULTIPLE_FILE_DESCRIPTION@,
            schema: MULTIPLE_FILE_SCHEMA@,
        },
        CatalogueEntry {
            name: DIRECTORY_OPERATIONS@,
            description: DIRECTORY_DESCRIPTION@,
            schema: DIRECTORY_SCHEMA@,
        },
        CatalogueEntry {
            name: SEARCH_AND_ANALYSIS@,
            description: SEARCH_DESCRIPTION@,
            schema: SEARCH_SCHEMA@,
        },
        CatalogueEntry {
            name: FILE_MANAGEMENT@,
            description: FILE_MANAGEMENT_DESCRIPTION@,
            schema: FILE_MANAGEMENT_SCHEMA@,
        },
        CatalogueEntry {
            name: START_OPERATION_MODE@,
            description: START_MODE_DESCRIPTION@,
            schema: START_MODE_SCHEMA@,
        },
        CatalogueEntry {
            name: COMPLETE_CURRENT_MODE@,
            description: COMPLETE_MODE_DESCRIPTION@,
            schema: NO_ARGUMENTS_SCHEMA@,
        },
        CatalogueEntry {
            name: LIST_AVAILABLE_MODES@,
            description: LIST_MODES_DESCRIPTION@,
            schema: NO_ARGUMENTS_SCHEMA@,
        },
        CatalogueEntry {
            name: GET_CURRENT_MODE_STATUS@,
            description: MODE_STATUS_DESCRIPTION@,
            schema: NO_ARGUMENTS_SCHEMA@,
        },
    ]
}

/// Whether `tool` is the tool that `entry` lists.
pub open spec fn lists_tool(entry: CatalogueEntry, tool: Tool) -> bool {
    &&& tool.name@ == entry.name
    &&& tool.description matches Some(text) && text@ == entry.description
    &&& tool.input_schema@ == schema_document(entry.schema)
}

/// The tool as the catalogue entry makes it appear in a listing.
pub open spec fn entry_json(entry: CatalogueEntry) -> JsonView {
    JsonView::Object(
        seq![
            ("name"@, JsonView::Str(entry.name)),
            ("description"@, JsonView::Str(entry.description)),
            ("inputSchema"@, schema_document(entry.schema)),
        ],
    )
}

/// The fault reported for a call of a tool that does not exist.
pub open spec fn unknown_tool(name: Seq<char>) -> Seq<char> {
    "Unknown tool: "@ + name
}

impl FileSystemTools {
    /// Whether `name` is the name of a tool.
    pub open spec fn is_tool_name(name: Seq<char>) -> bool {
        name == SINGLE_FILE_OPERATIONS@ || name == MULTIPLE_FILE_OPERATIONS@ || name
            == DIRECTORY_OPERATIONS@ || name == SEARCH_AND_ANALYSIS@ || name == FILE_MANAGEMENT@
            || name == START_OPERATION_MODE@ || name == COMPLETE_CURRENT_MODE@ || name
            == LIST_AVAILABLE_MODES@ || name == GET_CURRENT_MODE_STATUS@
    }

    /// Whether `name` is the name of a tool.
    pub fn knows(name: &str) -> (known: bool)
        ensures
            known == Self::is_tool_name(name@),
    {
        str_eq(name, SINGLE_FILE_OPERATIONS) || str_eq(name, MULTIPLE_FILE_OPERATIONS) || str_eq(
            name,
            DIRECTORY_OPERATIONS,
        ) || str_eq(name, SEARCH_AND_ANALYSIS) || str_eq(name, FILE_MANAGEMENT) || str_eq(
            name,
            START_OPERATION_MODE,
        ) || str_eq(name, COMPLETE_CURRENT_MODE) || str_eq(name, LIST_AVAILABLE_MODES) || str_eq(
            name,
            GET_CURRENT_MODE_STATUS,
        )
    }

    /// The tool and arguments that a call names, or the fault: a tool that
    /// does not exist, or arguments that the tool cannot read.
    pub open spec fn decoded(name: Seq<char>, arguments: JsonView) -> Result<
        FileSystemToolsView,
        Seq<char>,
    > {
        if name == SINGLE_FILE_OPERATIONS@ {
            match SingleFileOperationsTool::decoded(arguments) {
                Ok(tool) => Ok(FileSystemToolsView::SingleFileOperationsTool(tool)),
                Err(fault) => Err(fault),
            }
        } else if name == MULTIPLE_FILE_OPERATIONS@ {
            match MultipleFileOperationsTool::decoded(arguments) {
                Ok(tool) => Ok(FileSystemToolsView::MultipleFileOperationsTool(tool)),
                Err(fault) => Err(fault),
            }
        } else if name == DIRECTORY_OPERATIONS@ {
            match DirectoryOperationsTool::decoded(arguments) {
                Ok(tool) => Ok(FileSystemToolsView::DirectoryOperationsTool(tool)),
                Err(fault) => Err(fault),
            }
        } else if name == SEARCH_AND_ANALYSIS@ {
            match SearchAndAnalysisTool::decoded(arguments) {
                Ok(tool) => Ok(FileSystemToolsView::SearchAndAnalysisTool(tool)),
                Err(fault) => Err(fault),
            }
        } else if name == FILE_MANAGEMENT@ {
            match FileManagementTool::decoded(arguments) {
                Ok(tool) => Ok(FileSystemToolsView::FileManagementTool(tool)),
                Err(fault) => Err(fault),
            }
        } else if name == START_OPERATION_MODE@ {
            match StartOperationModeTool::decoded(arguments) {
                Ok(mode_name) => Ok(FileSystemToolsView::StartOperationMode(mode_name)),
                Err(fault) => Err(fault),
            }
        } else if name == COMPLETE_CURRENT_MODE@ {
            if arguments is Null {
                Ok(FileSystemToolsView::CompleteCurrentMode)
            } else {
                Err(unexpected_arguments(COMPLETE_CURRENT_MODE@))
            }
        } else if name == LIST_AVAILABLE_MODES@ {
            if arguments is Null {
                Ok(FileSystemToolsView::ListAvailableModes)
            } else {
                Err(unexpected_arguments(LIST_AVAILABLE_MODES@))
            }
        } else if name == GET_CURRENT_MODE_STATUS@ {
            if arguments is Null {
                Ok(FileSystemToolsView::GetCurrentModeStatus)
            } else {
                Err(unexpected_arguments(GET_CURRENT_MODE_STATUS@))
            }
        } else {
            Err(unknown_tool(name))
        }
    }

    /// The catalogue of the tools.
    pub fn tools() -> (tools: Vec<Tool>)
        ensures
            tools@.len() == catalogue().len(),
            forall|i: int|
                0 <= i < tools@.len() ==> lists_tool(catalogue()[i], #[trigger] tools@[i]),
    {
        vec![
            SingleFileOperationsTool::tool_definition(),
            MultipleFileOperationsTool::tool_definition(),
            DirectoryOperationsTool::tool_definition(),
            SearchAndAnalysisTool::tool_definition(),
            FileManagementTool::tool_definition(),
            StartOperationModeTool::tool_definition(),
            CompleteCurrentModeTool::tool_definition(),
            ListAvailableModesTool::tool_definition(),
            GetCurrentModeStatusTool::tool_definition(),
        ]
    }

    /// Whether the tool can change the file system. The tools that manage
    /// the operation mode cannot.
    pub fn require_write_access(&self) -> (needed: bool)
        ensures
            needed == (self@ is SingleFileOperationsTool || self@ is MultipleFileOperationsTool
                || self@ is DirectoryOperationsTool || self@ is SearchAndAnalysisTool || self@
                is FileManagementTool),
    {
        match self {
            FileSystemTools::SingleFileOperationsTool(_)
            | FileSystemTools::MultipleFileOperationsTool(_)
            | FileSystemTools::DirectoryOperationsTool(_)
            | FileSystemTools::SearchAndAnalysisTool(_)
            | FileSystemTools::FileManagementTool(_) => true,
            FileSystemTools::StartOperationMode(_)
            | FileSystemTools::CompleteCurrentMode(_)
            | FileSystemTools::ListAvailableModes(_)
            | FileSystemTools::GetCurrentModeStatus(_) => false,
        }
    }

    /// Reads the tool and the arguments of a call: see [`Self::decoded`].
    pub fn try_from(params: CallToolParams) -> (tool: Result<FileSystemTools, String>)
        ensures
            match tool {
                Ok(t) => Self::decoded(params.name@, params.arguments_view()) == Ok::<
                    FileSystemToolsView,
                    Seq<char>,
                >(t@),
                Err(fault) => Self::decoded(params.name@, params.arguments_view()) == Err::<
                    FileSystemToolsView,
                    Seq<char>,
                >(fault@),
            },
    {
        let arguments = match params.arguments {
            Some(value) => value,
            None => Json::Null,
        };
        let name = params.name.as_str();
        if str_eq(name, SINGLE_FILE_OPERATIONS) {
            match SingleFileOperationsTool::from_json(&arguments) {
                Ok(tool) => Ok(FileSystemTools::SingleFileOperationsTool(tool)),
                Err(fault) => Err(fault),
            }
        } else if str_eq(name, MULTIPLE_FILE_OPERATIONS) {
            match MultipleFileOperationsTool::from_json(&arguments) {
                Ok(tool) => Ok(FileSystemTools::MultipleFileOperationsTool(tool)),
                Err(fault) => Err(fault),
            }
        } else if str_eq(name, DIRECTORY_OPERATIONS) {
            match DirectoryOperationsTool::from_json(&arguments) {
                Ok(tool) => Ok(FileSystemTools::DirectoryOperationsTool(tool)),
                Err(fault) => Err(fault),
            }
        } else if str_eq(name, SEARCH_AND_ANALYSIS) {
            match SearchAndAnalysisTool::from_json(&arguments) {
                Ok(tool) => Ok(FileSystemTools::SearchAndAnalysisTool(tool)),
                Err(fault) => Err(fault),
            }
        } else if str_eq(name, FILE_MANAGEMENT) {
            match FileManagementTool::from_json(&arguments) {
                Ok(tool) => Ok(FileSystemTools::FileManagementTool(tool)),
                Err(fault) => Err(fault),
            }
        } else if str_eq(name, START_OPERATION_MODE) {
            match StartOperationModeTool::from_json(&arguments) {
                Ok(tool) => Ok(FileSystemTools::StartOperationMode(tool)),
                Err(fault) => Err(fault),
            }
        } else if str_eq(name, COMPLETE_CURRENT_MODE) {
            match CompleteCurrentModeTool::from_json(&arguments) {
                Ok(tool) => Ok(FileSystemTools::CompleteCurrentMode(tool)),
                Err(fault) => Err(fault),
            }
        } else if str_eq(name, LIST_AVAILABLE_MODES) {
            match ListAvailableModesTool::from_json(&arguments) {
                Ok(tool) => Ok(FileSystemTools::ListAvailableModes(tool)),
                Err(fault) => Err(fault),
            }
        } else if str_eq(name, GET_CURRENT_MODE_STATUS) {
            match GetCurrentModeStatusTool::from_json(&arguments) {
                Ok(tool) => Ok(FileSystemTools::GetCurrentModeStatus(tool)),
                Err(fault) => Err(fault),
            }
        } else {
            Err(String::from_str("Unknown tool: ").concat(name))
        }
    }
}

} // verus!
