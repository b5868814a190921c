//! The tools that start, end and report the operation mode.

use vstd::prelude::*;
use vstd::string::StringExecFns;
use crate::json::{Json, JsonView};
use crate::mcp_types::{text_result, CallToolError, CallToolResult, CallToolResultView, Tool};
use crate::strings::{
    decimal, decimal_text, join, joined, signed_decimal, signed_decimal_text, texts_view,
};
use crate::task_state::{
    complete_current_mode, get_available_operation_modes, get_operation_mode_tools, mode_names,
    mode_tools, start_operation_mode, ModeGate, OperationMode, Timestamp, WorkflowStep,
};
use crate::tools::{schema_document, schema_of};

verus! {

/// Starts an operation mode.
#[derive(Debug)]
pub struct StartOperationModeTool {
    pub mode_name: String,
}

/// Ends the active operation mode.
#[derive(Debug)]
pub struct CompleteCurrentModeTool;

/// Lists the operation modes and what each enables.
#[derive(Debug)]
pub struct ListAvailableModesTool;

/// Reports the active operation mode and its history.
#[derive(Debug)]
pub struct GetCurrentModeStatusTool;

pub const START_OPERATION_MODE: &'static str = "start_operation_mode";

pub const COMPLETE_CURRENT_MODE: &'static str = "complete_current_mode";

pub const LIST_AVAILABLE_MODES: &'static str = "list_available_modes";

pub const GET_CURRENT_MODE_STATUS: &'static str = "get_current_mode_status";

pub const START_MODE_DESCRIPTION: &'static str =
    "Start a new operation mode that enables specific sets of file operations. Available modes: single_file_operations, multiple_file_operations, directory_operations, search_and_analysis, file_management.";

pub const START_MODE_SCHEMA: &'static str =
    "{\"type\":\"object\",\"properties\":{\"mode_name\":{\"type\":\"string\",\"description\":\"The operation mode to start\",\"enum\":[\"single_file_operations\",\"multiple_file_operations\",\"directory_operations\",\"search_and_analysis\",\"file_management\"]}},\"required\":[\"mode_name\"]}";

pub const COMPLETE_MODE_DESCRIPTION: &'static str =
    "Complete the current operation mode and return to the default state where no specific tools are enabled.";

pub const LIST_MODES_DESCRIPTION: &'static str =
    "List all available operation modes and their associated tools.";

pub const MODE_STATUS_DESCRIPTION: &'static str =
    "Get the status of the current operation mode including available tools and workflow history.";

/// The schema of a tool without arguments.
pub const NO_ARGUMENTS_SCHEMA: &'static str = "{\"type\":\"object\",\"properties\":{}}";

/// The fault reported where a tool without arguments is handed any.
pub open spec fn unexpected_arguments(tool: Seq<char>) -> Seq<char> {
    "invalid type: expected no arguments for "@ + tool
}

/// The answer to the start of a mode.
pub open spec fn started_text(mode_name: Seq<char>, tools: Seq<Seq<char>>) -> Seq<char> {
    "Started operation mode '"@ + mode_name + "' with "@ + decimal_text(tools.len())
        + " available tools: "@ + joined(tools, ", "@)
}

/// The answer to the end of a mode: its name, the number of its steps, and
/// the whole seconds it lasted, written with one digit behind the point.
pub open spec fn completed_text(mode: OperationMode, now: Timestamp) -> Seq<char> {
    "Completed operation mode '"@ + mode.name@ + "' after "@ + decimal_text(
        mode.workflow_history@.len(),
    ) + " steps and "@ + signed_decimal_text(mode.start_time.seconds_until(now)) + ".0 seconds"@
}

/// One line for each mode: its name and the operations it enables.
pub open spec fn mode_lines(names: Seq<Seq<char>>) -> Seq<Seq<char>> {
    Seq::new(names.len(), |i: int| names[i] + ": "@ + joined(mode_tools(names[i]), ", "@) + " tools"@)
}

/// The numbered lines of a history, one for each step.
pub open spec fn history_text(steps: Seq<WorkflowStep>) -> Seq<char>
    decreases steps.len(),
{
    if steps.len() == 0 {
        Seq::empty()
    } else {
        history_text(steps.drop_last()) + "  "@ + decimal_text(steps.len()) + ". "@
            + steps.last().step_name@ + " - "@ + steps.last().timestamp.rfc3339_spec() + "\n"@
    }
}

/// The status of an active mode at the time `now`. A duration below zero is
/// shown as zero.
pub open spec fn status_text(mode: OperationMode, now: Timestamp) -> Seq<char> {
    let elapsed = mode.start_time.seconds_until(now);
    "Current operation mode: "@ + mode.name@ + "\nStarted: "@ + mode.start_time.rfc3339_spec()
        + "\nDuration: "@ + decimal_text(
        if elapsed < 0 {
            0
        } else {
            elapsed as nat
        },
    ) + " seconds\nAvailable tools: "@ + decimal_text(mode.available_tools@.len())
        + "\nSteps completed: "@ + decimal_text(mode.workflow_history@.len())
        + "\n\nWorkflow history:\n"@ + history_text(mode.workflow_history@)
}

fn no_arguments(arguments: &Json, tool: &str) -> (fault: Option<String>)
    ensures
        match fault {
            Some(text) => !(arguments@ is Null) && text@ == unexpected_arguments(tool@),
            None => arguments@ is Null,
        },
{
    match arguments {
        Json::Null => None,
        _ => Some(String::from_str("invalid type: expected no arguments for ").concat(tool)),
    }
}

impl StartOperationModeTool {
    /// The mode name that a JSON object holds, or the fault.
    pub open spec fn decoded(arguments: JsonView) -> Result<Seq<char>, Seq<char>> {
        arguments.required_text("mode_name"@)
    }

    pub fn from_json(arguments: &Json) -> (tool: Result<StartOperationModeTool, String>)
        ensures
            match tool {
                Ok(t) => Self::decoded(arguments@) == Ok::<Seq<char>, Seq<char>>(t.mode_name@),
                Err(fault) => Self::decoded(arguments@) == Err::<Seq<char>, Seq<char>>(fault@),
            },
    {
        match arguments.required_text("mode_name") {
            Ok(mode_name) => Ok(StartOperationModeTool { mode_name }),
            Err(fault) => Err(fault),
        }
    }

    pub fn tool_definition() -> (tool: Tool)
        ensures
            tool.name@ == START_OPERATION_MODE@,
            tool.description matches Some(text) && text@ == START_MODE_DESCRIPTION@,
            tool.input_schema@ == schema_document(START_MODE_SCHEMA@),
    {
        Tool {
            name: String::from_str(START_OPERATION_MODE),
            description: Some(String::from_str(START_MODE_DESCRIPTION)),
            input_schema: schema_of(START_MODE_SCHEMA),
        }
    }

    /// The answer to the start of the mode `mode_name`: a name that is no
    /// mode is answered with an error.
    pub open spec fn answer(mode_name: Seq<char>) -> CallToolResultView {
        let tools = mode_tools(mode_name);
        if tools.len() == 0 {
            text_result("Unknown operation mode: "@ + mode_name, true)
        } else {
            text_result(started_text(mode_name, tools), false)
        }
    }

    /// Whether `after` is what the start of the mode `mode_name` at `now`
    /// makes of the mode gate `before`. A name that is no mode leaves the
    /// mode gate as it is. Else the mode replaces what was active, and its
    /// history is empty: the steps are the calls made in the mode.
    pub open spec fn gate_after(
        mode_name: Seq<char>,
        before: ModeGate,
        now: Timestamp,
        after: ModeGate,
    ) -> bool {
        let tools = mode_tools(mode_name);
        if tools.len() == 0 {
            after == before
        } else {
            after.current matches Some(mode) && {
                &&& mode.name@ == mode_name
                &&& mode.start_time == now
                &&& mode.context@.len() == 0
                &&& texts_view(mode.available_tools@) == tools
                &&& mode.workflow_history@.len() == 0
            }
        }
    }

    /// Starts the mode at the time `now`.
    pub fn run_tool(self, gate: &mut ModeGate, now: Timestamp) -> (outcome: Result<
        CallToolResult,
        CallToolError,
    >)
        ensures
            outcome matches Ok(result) && result@ == Self::answer(self.mode_name@),
            Self::gate_after(self.mode_name@, *old(gate), now, *final(gate)),
    {
        let available_tools = get_operation_mode_tools(self.mode_name.as_str());
        if available_tools.len() == 0 {
            return Ok(
                CallToolResult::text(
                    String::from_str("Unknown operation mode: ").concat(self.mode_name.as_str()),
                    true,
                ),
            );
        }
        let mode = start_operation_mode(gate, self.mode_name.clone(), available_tools, now);
        let listed = join(&mode.available_tools, ", ");
        let text = String::from_str("Started operation mode '").concat(
            self.mode_name.as_str(),
        ).concat("' with ").concat(decimal(mode.available_tools.len() as u64).as_str()).concat(
            " available tools: ",
        ).concat(listed.as_str());
        Ok(CallToolResult::text(text, false))
    }
}

impl CompleteCurrentModeTool {
    pub fn from_json(arguments: &Json) -> (tool: Result<CompleteCurrentModeTool, String>)
        ensures
            tool is Ok <==> arguments@ is Null,
            tool matches Err(fault) ==> fault@ == unexpected_arguments(COMPLETE_CURRENT_MODE@),
    {
        match no_arguments(arguments, COMPLETE_CURRENT_MODE) {
            Some(fault) => Err(fault),
            None => Ok(CompleteCurrentModeTool),
        }
    }

    pub fn tool_definition() -> (tool: Tool)
        ensures
            tool.name@ == COMPLETE_CURRENT_MODE@,
            tool.description matches Some(text) && text@ == COMPLETE_MODE_DESCRIPTION@,
            tool.input_schema@ == schema_document(NO_ARGUMENTS_SCHEMA@),
    {
        Tool {
            name: String::from_str(COMPLETE_CURRENT_MODE),
            description: Some(String::from_str(COMPLETE_MODE_DESCRIPTION)),
            input_schema: schema_of(NO_ARGUMENTS_SCHEMA),
        }
    }

    /// The answer to the end of the mode at the time `now`.
    pub open spec fn answer(gate: ModeGate, now: Timestamp) -> CallToolResultView {
        match gate.current {
            Some(mode) => text_result(completed_text(mode, now), false),
            None => text_result("No operation mode was active"@, false),
        }
    }

    /// Ends the active mode at the time `now` and reports its name, the
    /// number of its steps and how long it lasted. Afterwards no mode is
    /// active. Without an active mode the answer says so, and is no error.
    pub fn run_tool(self, gate: &mut ModeGate, now: Timestamp) -> (outcome: Result<
        CallToolResult,
        CallToolError,
    >)
        ensures
            final(gate).current is None,
            outcome matches Ok(result) && result@ == Self::answer(*old(gate), now),
    {
        match complete_current_mode(gate) {
            Some(mode) => {
                let text = String::from_str("Completed operation mode '").concat(
                    mode.name.as_str(),
                ).concat("' after ").concat(
                    decimal(mode.workflow_history.len() as u64).as_str(),
                ).concat(" steps and ").concat(
                    signed_decimal(mode.start_time.elapsed_seconds(now)).as_str(),
                ).concat(".0 seconds");
                Ok(CallToolResult::text(text, false))
            },
            None => Ok(CallToolResult::text(String::from_str("No operation mode was active"), false)),
        }
    }
}

impl ListAvailableModesTool {
    pub fn from_json(arguments: &Json) -> (tool: Result<ListAvailableModesTool, String>)
        ensures
            tool is Ok <==> arguments@ is Null,
            tool matches Err(fault) ==> fault@ == unexpected_arguments(LIST_AVAILABLE_MODES@),
    {
        match no_arguments(arguments, LIST_AVAILABLE_MODES) {
            Some(fault) => Err(fault),
            None => Ok(ListAvailableModesTool),
        }
    }

    pub fn tool_definition() -> (tool: Tool)
        ensures
            tool.name@ == LIST_AVAILABLE_MODES@,
            tool.description matches Some(text) && text@ == LIST_MODES_DESCRIPTION@,
            tool.input_schema@ == schema_document(NO_ARGUMENTS_SCHEMA@),
    {
        Tool {
            name: String::from_str(LIST_AVAILABLE_MODES),
            description: Some(String::from_str(LIST_MODES_DESCRIPTION)),
            input_schema: schema_of(NO_ARGUMENTS_SCHEMA),
        }
    }

    /// The list of the modes.
    pub open spec fn answer() -> CallToolResultView {
        text_result(
            "Available operation modes:\n\n"@ + joined(mode_lines(mode_names()), "\n"@),
            false,
        )
    }

    /// Lists every mode with the operations it enables.
    pub fn run_tool(self) -> (outcome: Result<CallToolResult, CallToolError>)
        ensures
            outcome matches Ok(result) && result@ == Self::answer(),
    {
        let modes = get_available_operation_modes();
        let mut details: Vec<String> = Vec::new();
        let mut i: usize = 0;
        while i < modes.len()
            invariant
                i <= modes.len(),
                texts_view(modes@) == mode_names(),
                details@.len() == i,
                forall|k: int|
                    0 <= k < i ==> (#[trigger] details@[k])@ == mode_lines(mode_names())[k],
            decreases modes.len() - i,
        {
            assert(texts_view(modes@)[i as int] == modes@[i as int]@);
            let tools = get_operation_mode_tools(modes[i].as_str());
            let listed = join(&tools, ", ");
            details.push(
                modes[i].clone().concat(": ").concat(listed.as_str()).concat(" tools"),
            );
            i = i + 1;
        }
        assert(texts_view(details@) =~= mode_lines(mode_names()));
        let body = join(&details, "\n");
        Ok(
            CallToolResult::text(
                String::from_str("Available operation modes:\n\n").concat(body.as_str()),
                false,
            ),
        )
    }
}

impl GetCurrentModeStatusTool {
    pub fn from_json(arguments: &Json) -> (tool: Result<GetCurrentModeStatusTool, String>)
        ensures
            tool is Ok <==> arguments@ is Null,
            tool matches Err(fault) ==> fault@ == unexpected_arguments(GET_CURRENT_MODE_STATUS@),
    {
        match no_arguments(arguments, GET_CURRENT_MODE_STATUS) {
            Some(fault) => Err(fault),
            None => Ok(GetCurrentModeStatusTool),
        }
    }

    pub fn tool_definition() -> (tool: Tool)
        ensures
            tool.name@ == GET_CURRENT_MODE_STATUS@,
            tool.description matches Some(text) && text@ == MODE_STATUS_DESCRIPTION@,
            tool.input_schema@ == schema_document(NO_ARGUMENTS_SCHEMA@),
    {
        Tool {
            name: String::from_str(GET_CURRENT_MODE_STATUS),
            description: Some(String::from_str(MODE_STATUS_DESCRIPTION)),
            input_schema: schema_of(NO_ARGUMENTS_SCHEMA),
        }
    }

    /// The report of the mode gate at the time `now`.
    pub open spec fn answer(gate: ModeGate, now: Timestamp) -> CallToolResultView {
        match gate.current {
            Some(mode) => text_result(status_text(mode, now), false),
            None => text_result(
                "No operation mode is currently active. Use 'start_operation_mode' to begin a new workflow."@,
                false,
            ),
        }
    }

    /// Reports the active mode at the time `now`: its name, start, duration,
    /// the number of its operations and steps, and every step with its
    /// time. Without an active mode the answer says so.
    pub fn run_tool(self, gate: &ModeGate, now: Timestamp) -> (outcome: Result<
        CallToolResult,
        CallToolError,
    >)
        ensures
            outcome matches Ok(result) && result@ == Self::answer(*gate, now),
    {
        match &gate.current {
            Some(mode) => {
                let elapsed = mode.start_time.elapsed_seconds(now);
                let shown: u64 = if elapsed < 0 {
                    0
                } else {
                    elapsed as u64
                };
                let mut text = String::from_str("Current operation mode: ").concat(
                    mode.name.as_str(),
                ).concat("\nStarted: ").concat(mode.start_time.to_rfc3339().as_str()).concat(
                    "\nDuration: ",
                ).concat(decimal(shown).as_str()).concat(" seconds\nAvailable tools: ").concat(
                    decimal(mode.available_tools.len() as u64).as_str(),
                ).concat("\nSteps completed: ").concat(
                    decimal(mode.workflow_history.len() as u64).as_str(),
                ).concat("\n\nWorkflow history:\n");
                let ghost head = text@;
                let mut i: usize = 0;
                assert(mode.workflow_history@.take(0) =~= Seq::<WorkflowStep>::empty());
                assert(text@ =~= head + history_text(mode.workflow_history@.take(0)));
                while i < mode.workflow_history.len()
                    invariant
                        i <= mode.workflow_history.len(),
                        text@ == head + history_text(mode.workflow_history@.take(i as int)),
                    decreases mode.workflow_history.len() - i,
                {
                    let step = &mode.workflow_history[i];
                    let ghost before = mode.workflow_history@.take(i as int);
                    let ghost after = mode.workflow_history@.take(i + 1);
                    assert(after.drop_last() =~= before);
                    assert(after.last() == *step);
                    let line = String::from_str("  ").concat(decimal((i + 1) as u64).as_str()).concat(
                        ". ",
                    ).concat(step.step_name.as_str()).concat(" - ").concat(
                        step.timestamp.to_rfc3339().as_str(),
                    ).concat("\n");
                    text.append(line.as_str());
                    assert(text@ =~= head + history_text(after));
                    i = i + 1;
                }
                assert(mode.workflow_history@.take(mode.workflow_history@.len() as int)
                    =~= mode.workflow_history@);
                Ok(CallToolResult::text(text, false))
            },
            None => Ok(
                CallToolResult::text(
                    String::from_str(
                        "No operation mode is currently active. Use 'start_operation_mode' to begin a new workflow.",
                    ),
                    false,
                ),
            ),
        }
    }
}

} // verus!
