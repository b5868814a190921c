//! The dispatcher of requests.
//!
//! One message at a time is read as JSON and routed by its method. What has
//! to be sent back is handed to the caller, who owns the streams; so is the
//! work on the file system that a call asks for. A message without an
//! identifier is a notification: it gets no reply, whatever it holds.

use vstd::prelude::*;
use vstd::string::StringExecFns;
use crate::handler::{MyServerHandler, PROTOCOL_VERSION, SERVER_NAME, SERVER_VERSION};
use crate::json::{lemma_object_view, members_view, parse_json, parsed_document, Json, JsonView};
use crate::recovery::{find_written_id, written_id};
use crate::mcp_types::{
    text_result, tools_json, CallToolError, CallToolParams, CallToolRequest, CallToolResult,
    InitializeParams, InitializeRequest,
};
use crate::strings::{first_mark, is_white_space, str_eq, trim, trimmed};
use crate::task_state::{records, Timestamp};
use crate::tools::{
    catalogue, entry_json, lists_tool, succeeded, unavailable_message, FileJob, FileSystemTools,
    FileSystemToolsView, PlannedStep, ToolPlan,
};

verus! {

pub const PARSE_ERROR: i32 = -32700;

pub const INVALID_REQUEST: i32 = -32600;

pub const METHOD_NOT_FOUND: i32 = -32601;

pub const INVALID_PARAMS: i32 = -32602;

pub const INTERNAL_ERROR: i32 = -32603;

pub struct McpServer {
    pub handler: MyServerHandler,
}

/// A call that waits for work on the file system: the identifier to answer
/// under, the work, and the step to record once it has ended well.
#[derive(Debug)]
pub struct PendingCall {
    pub id: Json,
    pub job: FileJob,
    pub step: PlannedStep,
}

/// What the caller does for one message.
#[derive(Debug)]
pub enum Dispatch {
    /// Send this document as one line.
    Reply(Json),
    /// Send nothing.
    Silent,
    /// Send nothing: the peer has acknowledged the handshake.
    Acknowledged,
    /// Carry out the work, then answer with what [`McpServer::complete_call`]
    /// gives.
    Perform(PendingCall),
}

/// The document that a text denotes; `null` where it denotes none.
pub open spec fn document_or_null(text: Seq<char>) -> JsonView {
    match parsed_document(text) {
        Some(document) => document,
        None => JsonView::Null,
    }
}

/// The identifier of a request as far as it can be recovered from the text.
/// Of a text that is JSON it is the member `id`. Of a text that is no JSON it
/// is the scalar that is written behind the key `"id"` of the outermost
/// object. It is `null` where there is none.
pub open spec fn recovered_id(text: Seq<char>) -> JsonView {
    match parsed_document(text) {
        Some(request) => echoed_id(request.member("id"@)),
        None => match written_id(text) {
            Some(token) => document_or_null(token),
            None => JsonView::Null,
        },
    }
}

/// The identifier that a reply carries: that of the request, or `null` where
/// none is known.
pub open spec fn echoed_id(id: Option<JsonView>) -> JsonView {
    match id {
        Some(value) => value,
        None => JsonView::Null,
    }
}

/// Whether a request acknowledges the handshake.
pub open spec fn acknowledges(request: JsonView) -> bool {
    request.member("method"@) matches Some(JsonView::Str(method)) && (method
        == "notifications/initialized"@ || method == "initialized"@)
}

/// The reply that reports an error of the protocol.
pub open spec fn error_reply(code: int, message: Seq<char>, id: JsonView) -> JsonView {
    JsonView::Object(
        seq![
            ("jsonrpc"@, JsonView::Str("2.0"@)),
            (
                "error"@,
                JsonView::Object(
                    seq![("code"@, JsonView::integer(code)), ("message"@, JsonView::Str(message))],
                ),
            ),
            ("id"@, id),
        ],
    )
}

/// The reply that carries a result.
pub open spec fn result_reply(result: JsonView, id: JsonView) -> JsonView {
    JsonView::Object(
        seq![("jsonrpc"@, JsonView::Str("2.0"@)), ("result"@, result), ("id"@, id)],
    )
}

/// The parameters of a request; an empty object where it has none.
pub open spec fn request_params(request: JsonView) -> JsonView {
    match request.member("params"@) {
        Some(params) => params,
        None => JsonView::Object(Seq::empty()),
    }
}

/// Whether the caller is told to send `reply`.
pub open spec fn replies(dispatch: Dispatch, reply: JsonView) -> bool {
    dispatch matches Dispatch::Reply(document) && document@ == reply
}

/// The result of the handshake.
pub open spec fn initialize_answer() -> JsonView {
    JsonView::Object(
        seq![
            ("protocolVersion"@, JsonView::Str(PROTOCOL_VERSION@)),
            (
                "capabilities"@,
                JsonView::Object(seq![("tools"@, JsonView::Object(Seq::empty()))]),
            ),
            (
                "serverInfo"@,
                JsonView::Object(
                    seq![
                        ("name"@, JsonView::Str(SERVER_NAME@)),
                        ("version"@, JsonView::Str(SERVER_VERSION@)),
                    ],
                ),
            ),
        ],
    )
}

/// The result of a listing of the tools.
pub open spec fn tools_answer() -> JsonView {
    JsonView::Object(
        seq![
            (
                "tools"@,
                JsonView::Array(Seq::new(catalogue().len(), |i: int| entry_json(catalogue()[i]))),
            ),
        ],
    )
}

/// The reply to a call whose work has been carried out: the answer of the
/// tool as a result, or its failure as an internal error.
pub open spec fn call_reply(
    outcome: Result<CallToolResult, CallToolError>,
    id: JsonView,
) -> JsonView {
    match outcome {
        Ok(result) => result_reply(result@.json(), id),
        Err(error) => error_reply(INTERNAL_ERROR as int, error.message@, id),
    }
}

fn reply_error(code: i32, message: &str, id: Json) -> (reply: Json)
    ensures
        reply@ == error_reply(code as int, message@, id@),
{
    let error = vec![
        (String::from_str("code"), Json::integer(code as i64)),
        (String::from_str("message"), Json::text(message)),
    ];
    proof {
        lemma_object_view(error);
        assert(members_view(error@) =~= seq![
            ("code"@, JsonView::integer(code as int)),
            ("message"@, JsonView::Str(message@)),
        ]);
    }
    let members = vec![
        (String::from_str("jsonrpc"), Json::text("2.0")),
        (String::from_str("error"), Json::Object(error)),
        (String::from_str("id"), id),
    ];
    proof {
        lemma_object_view(members);
        assert(members_view(members@) =~= error_reply(code as int, message@, id@)->Object_0);
    }
    Json::Object(members)
}

fn reply_result(result: Json, id: Json) -> (reply: Json)
    ensures
        reply@ == result_reply(result@, id@),
{
    let members = vec![
        (String::from_str("jsonrpc"), Json::text("2.0")),
        (String::from_str("result"), result),
        (String::from_str("id"), id),
    ];
    proof {
        lemma_object_view(members);
        assert(members_view(members@) =~= result_reply(result@, id@)->Object_0);
    }
    Json::Object(members)
}

impl McpServer {
    /// Whether `dispatch` and the server `after` are what the message `text`
    /// makes of the server `before` at the time `now`. A text that is no
    /// JSON is a parse error. A message without an identifier is a
    /// notification: nothing is sent and nothing changes. A message with an
    /// identifier and without a method is an invalid request; every other
    /// message goes by its method.
    pub open spec fn dispatched(
        before: McpServer,
        text: Seq<char>,
        now: Timestamp,
        after: McpServer,
        dispatch: Dispatch,
    ) -> bool {
        match parsed_document(text) {
            None => {
                &&& after == before
                &&& replies(
                    dispatch,
                    error_reply(PARSE_ERROR as int, "Parse error"@, recovered_id(text)),
                )
            },
            Some(request) => match request.member("id"@) {
                None => {
                    &&& after == before
                    &&& if acknowledges(request) {
                        dispatch is Acknowledged
                    } else {
                        dispatch is Silent
                    }
                },
                Some(id) => match request.member("method"@) {
                    Some(JsonView::Str(method)) => Self::routed(
                        before,
                        method,
                        request_params(request),
                        id,
                        now,
                        after,
                        dispatch,
                    ),
                    _ => {
                        &&& after == before
                        &&& replies(
                            dispatch,
                            error_reply(
                                INVALID_REQUEST as int,
                                "Invalid Request - missing method"@,
                                id,
                            ),
                        )
                    },
                },
            },
        }
    }

    /// What becomes of a request with the identifier `id` and the method
    /// `method`. The handshake and the listing are answered; a call goes to
    /// the handler; the two acknowledgements of the handshake are taken
    /// without a reply. A method that does not exist is an error.
    pub open spec fn routed(
        before: McpServer,
        method: Seq<char>,
        params: JsonView,
        id: JsonView,
        now: Timestamp,
        after: McpServer,
        dispatch: Dispatch,
    ) -> bool {
        if method == "initialize"@ {
            &&& after == before
            &&& replies(
                dispatch,
                if InitializeParams::accepts(params) {
                    result_reply(initialize_answer(), id)
                } else {
                    error_reply(INVALID_PARAMS as int, "Invalid params for initialize"@, id)
                },
            )
        } else if method == "tools/list"@ {
            &&& after == before
            &&& replies(dispatch, result_reply(tools_answer(), id))
        } else if method == "tools/call"@ {
            match CallToolParams::decoded_name(params) {
                None => {
                    &&& after == before
                    &&& replies(
                        dispatch,
                        error_reply(INVALID_PARAMS as int, "Invalid params for tools/call"@, id),
                    )
                },
                Some(name) => Self::called(
                    before,
                    name,
                    FileSystemTools::decoded(name, CallToolParams::decoded_arguments(params)),
                    id,
                    now,
                    after,
                    dispatch,
                ),
            }
        } else if method == "notifications/initialized"@ || method == "initialized"@ {
            &&& after == before
            &&& dispatch is Acknowledged
        } else {
            &&& after == before
            &&& replies(
                dispatch,
                error_reply(METHOD_NOT_FOUND as int, "Method not found: "@ + method, id),
            )
        }
    }

    /// What becomes of the call of the tool `name`. Arguments that do not
    /// have the shape that the tool asks for are invalid parameters; a tool
    /// that does not exist is an internal error. A call that the handler
    /// answers at once is replied to with the answer as a result, also where
    /// the answer reports that the operation is not enabled or did not
    /// succeed. A call that asks for work on the file system is handed to
    /// the caller.
    pub open spec fn called(
        before: McpServer,
        name: Seq<char>,
        decoded: Result<FileSystemToolsView, Seq<char>>,
        id: JsonView,
        now: Timestamp,
        after: McpServer,
        dispatch: Dispatch,
    ) -> bool {
        &&& after.handler.fs_service == before.handler.fs_service
        &&& match decoded {
            Err(fault) => {
                &&& after.handler.gate == before.handler.gate
                &&& replies(
                    dispatch,
                    error_reply(
                        if FileSystemTools::is_tool_name(name) {
                            INVALID_PARAMS as int
                        } else {
                            INTERNAL_ERROR as int
                        },
                        fault,
                        id,
                    ),
                )
            },
            Ok(tool) => {
                &&& MyServerHandler::gate_after(
                    tool,
                    before.handler.gate,
                    now,
                    after.handler.gate,
                )
                &&& match MyServerHandler::answer(tool, before.handler.gate, now) {
                    Some(view) => replies(dispatch, result_reply(view.json(), id)),
                    None => dispatch matches Dispatch::Perform(pending) && pending.id@ == id
                        && MyServerHandler::job_fits(tool, pending.job, pending.step),
                }
            },
        }
    }

    pub fn new(handler: MyServerHandler) -> (server: McpServer)
        ensures
            server.handler == handler,
    {
        McpServer { handler }
    }

    /// Recovers the identifier of a request from its text, also where the
    /// text is no JSON: see [`recovered_id`].
    pub fn extract_request_id(&self, message: &str) -> (id: Json)
        ensures
            id@ == recovered_id(message@),
    {
        match parse_json(message) {
            Some(request) => match request.get("id") {
                Some(id) => id.duplicate(),
                None => Json::Null,
            },
            None => match find_written_id(message) {
                Some(token) => match parse_json(token.as_str()) {
                    Some(id) => id,
                    None => Json::Null,
                },
                None => Json::Null,
            },
        }
    }

    /// Takes one line of input at the time `now`. A line of white space
    /// only is passed over; every other line is a message.
    pub fn handle_line(&mut self, line: &str, now: Timestamp) -> (dispatch: Dispatch)
        ensures
            trimmed(line@).len() == 0 ==> dispatch is Silent && *final(self) == *old(self),
            trimmed(line@).len() > 0 ==> Self::dispatched(
                *old(self),
                trimmed(line@),
                now,
                *final(self),
                dispatch,
            ),
    {
        let message = trim(line);
        if message.as_str().is_empty() {
            return Dispatch::Silent;
        }
        self.handle_message(message.as_str(), now)
    }

    /// Takes one message at the time `now`: see [`Self::dispatched`].
    pub fn handle_message(&mut self, message: &str, now: Timestamp) -> (dispatch: Dispatch)
        ensures
            Self::dispatched(*old(self), message@, now, *final(self), dispatch),
    {
        let request_id = self.extract_request_id(message);
        let request = match parse_json(message) {
            Some(request) => request,
            None => {
                return Dispatch::Reply(reply_error(PARSE_ERROR, "Parse error", request_id));
            },
        };
        let id = match request.get("id") {
            Some(id) => id.duplicate(),
            None => {
                let acknowledged = match request.get("method") {
                    Some(Json::Str(method)) => str_eq(method.as_str(), "notifications/initialized")
                        || str_eq(method.as_str(), "initialized"),
                    _ => false,
                };
                return if acknowledged {
                    Dispatch::Acknowledged
                } else {
                    Dispatch::Silent
                };
            },
        };
        let method = match request.get("method") {
            Some(Json::Str(method)) => method.as_str(),
            _ => {
                return Dispatch::Reply(
                    reply_error(INVALID_REQUEST, "Invalid Request - missing method", id),
                );
            },
        };
        let nothing: Vec<(String, Json)> = Vec::new();
        proof {
            lemma_object_view(nothing);
            assert(members_view(nothing@) =~= Seq::empty());
        }
        let params = match request.get("params") {
            Some(params) => params.duplicate(),
            None => Json::Object(nothing),
        };
        assert(params@ == request_params(request@));
        if str_eq(method, "initialize") {
            match InitializeParams::from_json(&params) {
                Some(params) => {
                    match self.handler.handle_initialize(InitializeRequest { params }) {
                        Ok(result) => {
                            let answer = result.to_json();
                            assert(answer@->Object_0 =~= initialize_answer()->Object_0);
                            Dispatch::Reply(reply_result(answer, id))
                        },
                        Err(error) => Dispatch::Reply(
                            reply_error(error.code, error.message.as_str(), id),
                        ),
                    }
                },
                None => Dispatch::Reply(
                    reply_error(INVALID_PARAMS, "Invalid params for initialize", id),
                ),
            }
        } else if str_eq(method, "tools/list") {
            match self.handler.handle_list_tools() {
                Ok(result) => {
                    let answer = result.to_json();
                    proof {
                        assert(tools_json(result.tools@)->Array_0 =~= Seq::new(
                            catalogue().len(),
                            |i: int| entry_json(catalogue()[i]),
                        )) by {
                            assert forall|i: int| 0 <= i < result.tools@.len() implies (
                            #[trigger] result.tools@[i]).json() == entry_json(catalogue()[i]) by {
                                assert(lists_tool(catalogue()[i], result.tools@[i]));
                                assert(result.tools@[i].json()->Object_0 =~= entry_json(
                                    catalogue()[i],
                                )->Object_0);
                            }
                        }
                        assert(answer@->Object_0 =~= tools_answer()->Object_0);
                    }
                    Dispatch::Reply(reply_result(answer, id))
                },
                Err(error) => Dispatch::Reply(reply_error(error.code, error.message.as_str(), id)),
            }
        } else if str_eq(method, "tools/call") {
            match CallToolParams::from_json(&params) {
                Some(params) => {
                    let known = FileSystemTools::knows(params.name.as_str());
                    match self.handler.handle_call_tool(CallToolRequest { params }, now) {
                        Ok(ToolPlan::Done(result)) => Dispatch::Reply(
                            reply_result(result.to_json(), id),
                        ),
                        Ok(ToolPlan::Run(job, step)) => Dispatch::Perform(
                            PendingCall { id, job, step },
                        ),
                        Err(error) => Dispatch::Reply(
                            reply_error(
                                if known {
                                    INVALID_PARAMS
                                } else {
                                    INTERNAL_ERROR
                                },
                                error.message.as_str(),
                                id,
                            ),
                        ),
                    }
                },
                None => Dispatch::Reply(
                    reply_error(INVALID_PARAMS, "Invalid params for tools/call", id),
                ),
            }
        } else if str_eq(method, "notifications/initialized") || str_eq(method, "initialized") {
            Dispatch::Acknowledged
        } else {
            let message = String::from_str("Method not found: ").concat(method);
            Dispatch::Reply(reply_error(METHOD_NOT_FOUND, message.as_str(), id))
        }
    }

    /// Takes what came of the work of a call at the time `now`, and gives the
    /// reply to send under the identifier `id`. A call that ended well leaves
    /// one step in the active mode; any other leaves the mode gate as it is.
    /// An operation that did not succeed is replied to with a result that
    /// says so. The failure of the tool itself is replied to as an internal
    /// error: it does not end the dispatcher.
    pub fn complete_call(
        &mut self,
        id: Json,
        step: PlannedStep,
        outcome: Result<CallToolResult, CallToolError>,
        now: Timestamp,
    ) -> (reply: Json)
        ensures
            reply@ == call_reply(outcome, id@),
            final(self).handler.fs_service == old(self).handler.fs_service,
            succeeded(outcome) ==> records(
                old(self).handler.gate,
                final(self).handler.gate,
                step.step_name@,
                step.summary@,
                now,
            ),
            !succeeded(outcome) ==> final(self).handler.gate == old(self).handler.gate,
    {
        self.handler.complete_call_tool(step, &outcome, now);
        match outcome {
            Ok(result) => reply_result(result.to_json(), id),
            Err(error) => reply_error(INTERNAL_ERROR, error.message.as_str(), id),
        }
    }
}

/// A line that holds nothing but white space is passed over: it trims to
/// nothing, so nothing is sent for it and nothing changes.
pub proof fn lemma_blank_line_is_passed_over(line: Seq<char>)
    requires
        forall|i: int| 0 <= i < line.len() ==> is_white_space(#[trigger] line[i]),
    ensures
        trimmed(line).len() == 0,
{
    lemma_skips_white_space(line, 0);
}

proof fn lemma_skips_white_space(line: Seq<char>, from: int)
    requires
        0 <= from <= line.len(),
        forall|i: int| 0 <= i < line.len() ==> is_white_space(#[trigger] line[i]),
    ensures
        first_mark(line, from) == line.len(),
    decreases line.len() - from,
{
    if from < line.len() {
        lemma_skips_white_space(line, from + 1);
    }
}

/// A line that is no JSON is answered with a parse error, under the
/// identifier that can be recovered from the line, and changes nothing.
pub proof fn lemma_invalid_line_is_a_parse_error(
    before: McpServer,
    text: Seq<char>,
    now: Timestamp,
    after: McpServer,
    dispatch: Dispatch,
)
    requires
        parsed_document(text) is None,
        McpServer::dispatched(before, text, now, after, dispatch),
    ensures
        after == before,
        replies(dispatch, error_reply(PARSE_ERROR as int, "Parse error"@, recovered_id(text))),
{
}

/// The identifier under which a line that is no JSON is answered is the one
/// that is written in the line, where one is written there in the place of
/// the identifier of a request.
pub proof fn lemma_written_id_is_recovered(text: Seq<char>, token: Seq<char>, id: JsonView)
    requires
        parsed_document(text) is None,
        written_id(text) == Some(token),
        parsed_document(token) == Some(id),
    ensures
        recovered_id(text) == id,
{
}

/// A notification, that is a message without an identifier, gets no reply,
/// asks for no work and changes nothing, whatever its method is and also
/// where it has none.
pub proof fn lemma_notification_gets_no_reply(
    before: McpServer,
    text: Seq<char>,
    now: Timestamp,
    after: McpServer,
    dispatch: Dispatch,
)
    requires
        parsed_document(text) matches Some(request) && request.member("id"@) is None,
        McpServer::dispatched(before, text, now, after, dispatch),
    ensures
        dispatch is Silent || dispatch is Acknowledged,
        after == before,
{
}

/// The operation that a call of a grouped tool asks for, and the name of the
/// tool; nothing for the tools that manage the mode.
pub open spec fn asked_operation(tool: FileSystemToolsView) -> Option<(Seq<char>, Seq<char>)> {
    match tool {
        FileSystemToolsView::SingleFileOperationsTool(t) => Some(
            (t.operation, "single_file_operations"@),
        ),
        FileSystemToolsView::MultipleFileOperationsTool(t) => Some(
            (t.operation, "multiple_file_operations"@),
        ),
        FileSystemToolsView::DirectoryOperationsTool(t) => Some(
            (t.operation, "directory_operations"@),
        ),
        FileSystemToolsView::SearchAndAnalysisTool(t) => Some((t.operation, "search_and_analysis"@)),
        FileSystemToolsView::FileManagementTool(t) => Some((t.operation, "file_management"@)),
        _ => None,
    }
}

/// The call of an operation that the active mode does not enable, or that
/// is made while no mode is active, is answered with a result that says so:
/// it is no error of the protocol, asks for no work, and leaves the mode
/// gate as it is.
pub proof fn lemma_disabled_operation_is_answered(
    before: McpServer,
    name: Seq<char>,
    tool: FileSystemToolsView,
    id: JsonView,
    now: Timestamp,
    after: McpServer,
    dispatch: Dispatch,
)
    requires
        asked_operation(tool) matches Some((operation, _)) && !before.handler.gate.enables(
            operation,
        ),
        McpServer::called(before, name, Ok(tool), id, now, after, dispatch),
    ensures
        after.handler.gate == before.handler.gate,
        replies(
            dispatch,
            result_reply(
                text_result(
                    unavailable_message(
                        asked_operation(tool)->Some_0.0,
                        asked_operation(tool)->Some_0.1,
                    ),
                    true,
                ).json(),
                id,
            ),
        ),
{
    reveal_strlit("single_file_operations");
    reveal_strlit("multiple_file_operations");
    reveal_strlit("directory_operations");
    reveal_strlit("search_and_analysis");
    reveal_strlit("file_management");
}

/// Arguments that a tool cannot read are invalid parameters: the reply is an
/// error with that code, and the mode gate stays as it is.
pub proof fn lemma_unreadable_arguments_are_invalid_params(
    before: McpServer,
    name: Seq<char>,
    fault: Seq<char>,
    id: JsonView,
    now: Timestamp,
    after: McpServer,
    dispatch: Dispatch,
)
    requires
        FileSystemTools::is_tool_name(name),
        McpServer::called(before, name, Err(fault), id, now, after, dispatch),
    ensures
        after.handler.gate == before.handler.gate,
        replies(dispatch, error_reply(INVALID_PARAMS as int, fault, id)),
{
}

/// Once a mode has been completed, or where none was started, the report of
/// the mode gate says that no mode is active.
pub proof fn lemma_completed_mode_is_gone(before: McpServer, now: Timestamp)
    requires
        before.handler.gate.current is None,
    ensures
        MyServerHandler::answer(FileSystemToolsView::GetCurrentModeStatus, before.handler.gate, now)
            == Some(
            text_result(
                "No operation mode is currently active. Use 'start_operation_mode' to begin a new workflow."@,
                false,
            ),
        ),
        forall|operation: Seq<char>| !before.handler.gate.enables(operation),
{
}

} // verus!
