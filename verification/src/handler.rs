//! The handler of the core methods: the handshake, the listing of the tools,
//! and the call of a tool.

use vstd::prelude::*;
use vstd::string::StringExecFns;
use crate::cli::CommandArguments;
use crate::error::ServiceResult;
use crate::fs_service::{each_normalized, DirectoryEnvironment, FileSystemService};
use crate::json::{lemma_object_view, members_view, Json, JsonMap, JsonView};
use crate::mcp_types::{
    text_result, CallToolError, CallToolRequest, CallToolResult, CallToolResultView,
    InitializeRequest, InitializeResult, ListToolsResult, RpcError, ServerInfo,
};
use crate::strings::{join, joined, optional_text_view, texts_view};
use crate::task_state::{records, ModeGate, Timestamp};
use crate::tools::directory_operations::DIRECTORY_OPERATIONS;
use crate::tools::file_management::FILE_MANAGEMENT;
use crate::tools::multiple_file_operations::MULTIPLE_FILE_OPERATIONS;
use crate::tools::search_and_analysis::SEARCH_AND_ANALYSIS;
use crate::tools::single_file_operations::SINGLE_FILE_OPERATIONS;
use crate::tools::{
    catalogue, is_step, lists_tool, record_step, succeeded, CompleteCurrentModeTool,
    DirectoryOperationsTool, FileJob, FileManagementTool, FileSystemTools, FileSystemToolsView,
    GetCurrentModeStatusTool, ListAvailableModesTool, MultipleFileOperationsTool, PlannedStep,
    SearchAndAnalysisTool, SingleFileOperationsTool, StartOperationModeTool, ToolPlan,
};

verus! {

/// The version of the protocol that the handshake announces.
pub const PROTOCOL_VERSION: &'static str = "2024-11-05";

pub const SERVER_NAME: &'static str = "aichemistforge-mcp-server";

pub const SERVER_VERSION: &'static str = "0.1.0";

pub struct MyServerHandler {
    pub fs_service: FileSystemService,
    pub gate: ModeGate,
}

/// The answer that is a refusal, if there is one.
pub open spec fn refusal_answer(refusal: Option<Seq<char>>) -> Option<CallToolResultView> {
    match refusal {
        Some(message) => Some(text_result(message, true)),
        None => None,
    }
}

/// The directories as the startup message names them.
pub open spec fn directories_text(directories: Seq<String>, none: Seq<char>) -> Seq<char> {
    if directories.len() == 0 {
        none
    } else {
        joined(texts_view(directories), ",\n"@)
    }
}

impl MyServerHandler {
    /// The answer that a call gets at once, if it gets one: the refusal of a
    /// grouped tool, or what a tool that manages the mode reports. There is
    /// none where work on the file system has to be carried out first.
    pub open spec fn answer(tool: FileSystemToolsView, gate: ModeGate, now: Timestamp) -> Option<
        CallToolResultView,
    > {
        match tool {
            FileSystemToolsView::SingleFileOperationsTool(t) => refusal_answer(
                SingleFileOperationsTool::refusal(t, gate.enables(t.operation)),
            ),
            FileSystemToolsView::MultipleFileOperationsTool(t) => refusal_answer(
                MultipleFileOperationsTool::refusal(t, gate.enables(t.operation)),
            ),
            FileSystemToolsView::DirectoryOperationsTool(t) => refusal_answer(
                DirectoryOperationsTool::refusal(t, gate.enables(t.operation)),
            ),
            FileSystemToolsView::SearchAndAnalysisTool(t) => refusal_answer(
                SearchAndAnalysisTool::refusal(t, gate.enables(t.operation)),
            ),
            FileSystemToolsView::FileManagementTool(t) => refusal_answer(
                FileManagementTool::refusal(t, gate.enables(t.operation)),
            ),
            FileSystemToolsView::StartOperationMode(mode_name) => Some(
                StartOperationModeTool::answer(mode_name),
            ),
            FileSystemToolsView::CompleteCurrentMode => Some(
                CompleteCurrentModeTool::answer(gate, now),
            ),
            FileSystemToolsView::ListAvailableModes => Some(ListAvailableModesTool::answer()),
            FileSystemToolsView::GetCurrentModeStatus => Some(
                GetCurrentModeStatusTool::answer(gate, now),
            ),
        }
    }

    /// Whether `job` and `step` are the work that a call asks for and the
    /// step to record for it.
    pub open spec fn job_fits(tool: FileSystemToolsView, job: FileJob, step: PlannedStep) -> bool {
        match tool {
            FileSystemToolsView::SingleFileOperationsTool(t) => SingleFileOperationsTool::job_fits(
                t,
                job,
            ) && is_step(
                step,
                SINGLE_FILE_OPERATIONS@,
                t.operation,
                "path"@,
                SingleFileOperationsTool::step_value(t),
            ),
            FileSystemToolsView::MultipleFileOperationsTool(t) =>
                MultipleFileOperationsTool::job_fits(t, job) && is_step(
                    step,
                    MULTIPLE_FILE_OPERATIONS@,
                    t.operation,
                    "path_count"@,
                    MultipleFileOperationsTool::step_value(t),
                ),
            FileSystemToolsView::DirectoryOperationsTool(t) => DirectoryOperationsTool::job_fits(
                t,
                job,
            ) && is_step(
                step,
                DIRECTORY_OPERATIONS@,
                t.operation,
                "path"@,
                DirectoryOperationsTool::step_value(t),
            ),
            FileSystemToolsView::SearchAndAnalysisTool(t) => SearchAndAnalysisTool::job_fits(t, job)
                && is_step(
                step,
                SEARCH_AND_ANALYSIS@,
                t.operation,
                "path"@,
                SearchAndAnalysisTool::step_value(t),
            ),
            FileSystemToolsView::FileManagementTool(t) => FileManagementTool::job_fits(t, job)
                && is_step(
                step,
                FILE_MANAGEMENT@,
                t.operation,
                "path"@,
                FileManagementTool::step_value(t),
            ),
            _ => false,
        }
    }

    /// Whether `after` is the mode gate that a call leaves behind. Only the start
    /// and the end of a mode change the mode gate.
    pub open spec fn gate_after(
        tool: FileSystemToolsView,
        before: ModeGate,
        now: Timestamp,
        after: ModeGate,
    ) -> bool {
        match tool {
            FileSystemToolsView::StartOperationMode(mode_name) =>
                StartOperationModeTool::gate_after(mode_name, before, now, after),
            FileSystemToolsView::CompleteCurrentMode => after.current is None,
            _ => after == before,
        }
    }

    /// Whether `outcome` and the mode gate `after` are what a call makes of the
    /// gate `before` at the time `now`. A call whose tool or arguments
    /// cannot be read fails with the fault.
    pub open spec fn calls(
        decoded: Result<FileSystemToolsView, Seq<char>>,
        before: ModeGate,
        now: Timestamp,
        after: ModeGate,
        outcome: Result<ToolPlan, CallToolError>,
    ) -> bool {
        match decoded {
            Err(fault) => {
                &&& after == before
                &&& outcome matches Err(error) && error.message@ == fault
            },
            Ok(tool) => {
                &&& Self::gate_after(tool, before, now, after)
                &&& match Self::answer(tool, before, now) {
                    Some(view) => outcome matches Ok(ToolPlan::Done(result)) && result@ == view,
                    None => outcome matches Ok(ToolPlan::Run(job, step)) && Self::job_fits(
                        tool,
                        job,
                        step,
                    ),
                }
            },
        }
    }

    /// The text that announces the server and its directories.
    pub open spec fn startup_text(&self) -> Seq<char> {
        "Secure MCP Filesystem Server running in \"read/write\" mode.\nSecurity model: Allow all except blocked directories.\nAllowed directories: "@
            + directories_text(self.fs_service.allowed(), "ALL (unrestricted)"@)
            + "\nBlocked directories: "@ + directories_text(self.fs_service.blocked(), "NONE"@)
    }

    /// A handler for the directories of the command line, each in its
    /// normalized form, with no active mode.
    pub fn new(args: &CommandArguments, environment: &DirectoryEnvironment) -> (handler:
        ServiceResult<MyServerHandler>)
        ensures
            handler matches Ok(h) && h.gate.current is None && each_normalized(
                args.allowed_directories@,
                optional_text_view(environment.home_dir),
                environment.current_dir@,
                environment.canonical_allowed@,
                h.fs_service.allowed(),
            ) && each_normalized(
                args.blocked_directories@,
                optional_text_view(environment.home_dir),
                environment.current_dir@,
                environment.canonical_blocked@,
                h.fs_service.blocked(),
            ),
    {
        match FileSystemService::try_new(
            args.allowed_directories.as_slice(),
            args.blocked_directories.as_slice(),
            environment,
        ) {
            Ok(fs_service) => Ok(MyServerHandler { fs_service, gate: ModeGate::new() }),
            Err(error) => Err(error),
        }
    }

    /// A handler for the given service, with no active mode.
    pub fn with_service(fs_service: FileSystemService) -> (handler: MyServerHandler)
        ensures
            handler.fs_service == fs_service,
            handler.gate.current is None,
    {
        MyServerHandler { fs_service, gate: ModeGate::new() }
    }

    /// Writing is always permitted.
    pub fn assert_write_access(&self) -> (access: Result<(), CallToolError>)
        ensures
            access is Ok,
    {
        Ok(())
    }

    pub fn startup_message(&self) -> (message: String)
        ensures
            message@ == self.startup_text(),
    {
        let allowed = if self.fs_service.allowed_directories().len() == 0 {
            String::from_str("ALL (unrestricted)")
        } else {
            join(self.fs_service.allowed_directories(), ",\n")
        };
        let blocked = if self.fs_service.blocked_directories().len() == 0 {
            String::from_str("NONE")
        } else {
            join(self.fs_service.blocked_directories(), ",\n")
        };
        String::from_str(
            "Secure MCP Filesystem Server running in \"read/write\" mode.\nSecurity model: Allow all except blocked directories.\nAllowed directories: ",
        ).concat(allowed.as_str()).concat("\nBlocked directories: ").concat(blocked.as_str())
    }

    /// The catalogue of the tools.
    pub fn handle_list_tools(&self) -> (listed: Result<ListToolsResult, RpcError>)
        ensures
            listed matches Ok(result) && {
                &&& result.meta is None
                &&& result.next_cursor is None
                &&& result.tools@.len() == catalogue().len()
                &&& forall|i: int|
                    0 <= i < result.tools@.len() ==> lists_tool(
                        catalogue()[i],
                        #[trigger] result.tools@[i],
                    )
            },
    {
        Ok(ListToolsResult { tools: FileSystemTools::tools(), meta: None, next_cursor: None })
    }

    /// The handshake: the version of the protocol, the capability to call
    /// tools, and the name and version of the server.
    pub fn handle_initialize(&self, _request: InitializeRequest) -> (answered: Result<
        InitializeResult,
        RpcError,
    >)
        ensures
            answered matches Ok(result) && {
                &&& result.protocol_version@ == PROTOCOL_VERSION@
                &&& result.capabilities@ == seq![("tools"@, JsonView::Object(Seq::empty()))]
                &&& result.server_info.name@ == SERVER_NAME@
                &&& result.server_info.version@ == SERVER_VERSION@
            },
    {
        let nothing: Vec<(String, Json)> = Vec::new();
        proof {
            lemma_object_view(nothing);
            assert(members_view(nothing@) =~= Seq::empty());
        }
        let capabilities = JsonMap::new().insert(String::from_str("tools"), Json::Object(nothing));
        assert(capabilities@ =~= seq![("tools"@, JsonView::Object(Seq::empty()))]);
        Ok(
            InitializeResult {
                protocol_version: String::from_str(PROTOCOL_VERSION),
                capabilities,
                server_info: ServerInfo {
                    name: String::from_str(SERVER_NAME),
                    version: String::from_str(SERVER_VERSION),
                },
            },
        )
    }

    /// Takes the call of a tool at the time `now`. The call is answered at
    /// once, fails, or asks for work on the file system: see
    /// [`Self::calls`]. The work is carried out by the caller, who then
    /// reports with [`Self::complete_call_tool`].
    pub fn handle_call_tool(&mut self, request: CallToolRequest, now: Timestamp) -> (outcome:
        Result<ToolPlan, CallToolError>)
        ensures
            final(self).fs_service == old(self).fs_service,
            Self::calls(
                FileSystemTools::decoded(request.params.name@, request.params.arguments_view()),
                old(self).gate,
                now,
                final(self).gate,
                outcome,
            ),
    {
        let tool = match FileSystemTools::try_from(request.params) {
            Ok(tool) => tool,
            Err(fault) => {
                return Err(CallToolError { message: fault });
            },
        };
        if tool.require_write_access() {
            match self.assert_write_access() {
                Ok(_) => {},
                Err(error) => {
                    return Err(error);
                },
            }
        }
        match tool {
            FileSystemTools::SingleFileOperationsTool(params) => Ok(params.run_tool(&self.gate)),
            FileSystemTools::MultipleFileOperationsTool(params) => Ok(params.run_tool(&self.gate)),
            FileSystemTools::DirectoryOperationsTool(params) => Ok(params.run_tool(&self.gate)),
            FileSystemTools::SearchAndAnalysisTool(params) => Ok(params.run_tool(&self.gate)),
            FileSystemTools::FileManagementTool(params) => Ok(params.run_tool(&self.gate)),
            FileSystemTools::StartOperationMode(params) => match params.run_tool(
                &mut self.gate,
                now,
            ) {
                Ok(result) => Ok(ToolPlan::Done(result)),
                Err(error) => Err(error),
            },
            FileSystemTools::CompleteCurrentMode(params) => match params.run_tool(
                &mut self.gate,
                now,
            ) {
                Ok(result) => Ok(ToolPlan::Done(result)),
                Err(error) => Err(error),
            },
            FileSystemTools::ListAvailableModes(params) => match params.run_tool() {
                Ok(result) => Ok(ToolPlan::Done(result)),
                Err(error) => Err(error),
            },
            FileSystemTools::GetCurrentModeStatus(params) => match params.run_tool(
                &self.gate,
                now,
            ) {
                Ok(result) => Ok(ToolPlan::Done(result)),
                Err(error) => Err(error),
            },
        }
    }

    /// Takes what came of the work of a call. A call that ended well leaves
    /// one step in the active mode; any other leaves the mode gate as it is.
    pub fn complete_call_tool(
        &mut self,
        step: PlannedStep,
        outcome: &Result<CallToolResult, CallToolError>,
        now: Timestamp,
    )
        ensures
            final(self).fs_service == old(self).fs_service,
            succeeded(*outcome) ==> records(
                old(self).gate,
                final(self).gate,
                step.step_name@,
                step.summary@,
                now,
            ),
            !succeeded(*outcome) ==> final(self).gate == old(self).gate,
    {
        record_step(&mut self.gate, step, outcome, now);
    }
}

} // verus!
