use aichemistforge_mcp_server::cli::CommandArguments;
use aichemistforge_mcp_server::error::ServiceError;
use aichemistforge_mcp_server::fs_service::DirectoryEnvironment;
use aichemistforge_mcp_server::handler::MyServerHandler;
use aichemistforge_mcp_server::json::{parse_json, Json};
use aichemistforge_mcp_server::mcp_types::{CallToolError, CallToolResult};
use aichemistforge_mcp_server::server::{
    Dispatch, McpServer, INTERNAL_ERROR, INVALID_PARAMS, INVALID_REQUEST, METHOD_NOT_FOUND,
    PARSE_ERROR,
};
use aichemistforge_mcp_server::task_state::Timestamp;
use aichemistforge_mcp_server::tools::FileJob;

const NOW: Timestamp = Timestamp { secs: 1_700_000_000, nanos: 0 };

fn environment() -> DirectoryEnvironment {
    DirectoryEnvironment {
        home_dir: Some(String::from("/home/user")),
        current_dir: String::from("/work"),
        canonical_allowed: vec![],
        canonical_blocked: vec![],
    }
}

fn server() -> McpServer {
    let args = CommandArguments { blocked_directories: vec![], allowed_directories: vec![] };
    McpServer::new(MyServerHandler::new(&args, &environment()).unwrap())
}

fn steps(server: &McpServer) -> usize {
    server.handler.gate.current.as_ref().unwrap().workflow_history.len()
}

fn reply(dispatch: Dispatch) -> String {
    match dispatch {
        Dispatch::Reply(document) => document.to_text(),
        other => panic!("no reply: {:?}", other),
    }
}

fn call(server: &mut McpServer, id: u32, tool: &str, arguments: &str) -> Dispatch {
    let message = format!(
        "{{\"jsonrpc\":\"2.0\",\"id\":{},\"method\":\"tools/call\",\"params\":{{\"name\":\"{}\",\"arguments\":{}}}}}",
        id, tool, arguments
    );
    server.handle_message(&message, NOW)
}

fn answer_text(line: &str) -> (String, bool) {
    let value: serde_json::Value = serde_json::from_str(line).unwrap();
    let result = &value["result"];
    (
        result["content"][0]["text"].as_str().unwrap().to_string(),
        result["isError"].as_bool().unwrap(),
    )
}

#[test]
fn error_codes_are_the_reserved_ones() {
    assert_eq!(PARSE_ERROR, -32700);
    assert_eq!(INVALID_REQUEST, -32600);
    assert_eq!(METHOD_NOT_FOUND, -32601);
    assert_eq!(INVALID_PARAMS, -32602);
    assert_eq!(INTERNAL_ERROR, -32603);
}

#[test]
fn invalid_line_yields_parse_error() {
    let mut server = server();
    assert_eq!(
        reply(server.handle_message("not json at all", NOW)),
        "{\"error\":{\"code\":-32700,\"message\":\"Parse error\"},\"id\":null,\"jsonrpc\":\"2.0\"}"
    );
    assert_eq!(
        reply(server.handle_message("{\"method\": \"tools/list\", ", NOW)),
        "{\"error\":{\"code\":-32700,\"message\":\"Parse error\"},\"id\":null,\"jsonrpc\":\"2.0\"}"
    );
}

#[test]
fn parse_error_carries_the_identifier_of_the_request() {
    let mut server = server();
    assert_eq!(
        reply(server.handle_message("{\"jsonrpc\":\"2.0\",\"id\":7,\"method\":\"tools/list\"", NOW)),
        "{\"error\":{\"code\":-32700,\"message\":\"Parse error\"},\"id\":7,\"jsonrpc\":\"2.0\"}"
    );
    assert_eq!(
        reply(server.handle_message("{\"id\": \"req-1\", \"method\": ", NOW)),
        "{\"error\":{\"code\":-32700,\"message\":\"Parse error\"},\"id\":\"req-1\",\"jsonrpc\":\"2.0\"}"
    );
}

#[test]
fn recovered_identifier_is_the_one_of_the_request() {
    let server = server();
    let recovered = |text: &str| server.extract_request_id(text).to_text();
    // texts that are JSON
    assert_eq!(recovered("{\"id\": 41, \"method\": \"x\"}"), "41");
    assert_eq!(recovered("{\"id\": \"abc\"}"), "\"abc\"");
    assert_eq!(recovered("{\"id\": [1, 2]}"), "[1,2]");
    assert_eq!(recovered("{\"method\": \"x\"}"), "null");
    assert_eq!(recovered("[1, 2]"), "null");
    // texts that are no JSON
    assert_eq!(recovered("{\"id\": 41, "), "41");
    assert_eq!(recovered("{\"id\":41"), "41");
    assert_eq!(recovered("{\"id\" \t:\n -3.5e2}, trailing"), "-350.0");
    assert_eq!(recovered("{\"method\":\"a\",\"id\":\"x\\\"y\",,"), "\"x\\\"y\"");
    assert_eq!(recovered("{\"id\":null,"), "null");
    assert_eq!(recovered("{\"id\":true,"), "true");
    assert_eq!(recovered("{\"params\":{\"id\":1},\"id\":2,"), "2");
    assert_eq!(recovered("{\"params\":[{\"id\":1}],\"id\":2"), "2");
    // no identifier where a request has its own
    assert_eq!(recovered("{\"params\":{\"id\":1},"), "null");
    assert_eq!(recovered("{\"name\":\"id\",\"x\":1"), "null");
    assert_eq!(recovered("{\"text\":\"\\\"id\\\":9\","), "null");
    assert_eq!(recovered("\"id\":3"), "null");
    assert_eq!(recovered("{\"id\":{\"a\":1},"), "null");
    assert_eq!(recovered("{\"id\":[1],"), "null");
    assert_eq!(recovered("{\"id\":\"open"), "null");
    assert_eq!(recovered("{\"id\":12abc,"), "null");
    assert_eq!(recovered("{\"id\" 5,"), "null");
    assert_eq!(recovered("{\"id\":"), "null");
    assert_eq!(recovered(""), "null");
}

#[test]
fn message_without_method_is_an_invalid_request() {
    let mut server = server();
    assert_eq!(
        reply(server.handle_message("{\"jsonrpc\":\"2.0\",\"id\":7}", NOW)),
        "{\"error\":{\"code\":-32600,\"message\":\"Invalid Request - missing method\"},\"id\":7,\"jsonrpc\":\"2.0\"}"
    );
    assert_eq!(
        reply(server.handle_message("{\"id\":null,\"method\": 12}", NOW)),
        "{\"error\":{\"code\":-32600,\"message\":\"Invalid Request - missing method\"},\"id\":null,\"jsonrpc\":\"2.0\"}"
    );
}

#[test]
fn handshake_is_answered() {
    let mut server = server();
    let line = reply(server.handle_message(
        "{\"jsonrpc\":\"2.0\",\"id\":1,\"method\":\"initialize\",\"params\":{\"protocolVersion\":\"2024-11-05\",\"capabilities\":{},\"clientInfo\":{\"name\":\"client\",\"version\":\"1.0\"}}}",
        NOW,
    ));
    assert_eq!(
        line,
        "{\"id\":1,\"jsonrpc\":\"2.0\",\"result\":{\"capabilities\":{\"tools\":{}},\"protocolVersion\":\"2024-11-05\",\"serverInfo\":{\"name\":\"aichemistforge-mcp-server\",\"version\":\"0.1.0\"}}}"
    );
}

#[test]
fn handshake_with_wrong_parameters_is_refused() {
    let mut server = server();
    let expected = "{\"error\":{\"code\":-32602,\"message\":\"Invalid params for initialize\"},\"id\":2,\"jsonrpc\":\"2.0\"}";
    for message in [
        "{\"id\":2,\"method\":\"initialize\"}",
        "{\"id\":2,\"method\":\"initialize\",\"params\":{}}",
        "{\"id\":2,\"method\":\"initialize\",\"params\":{\"protocolVersion\":1,\"capabilities\":{},\"clientInfo\":{\"name\":\"c\",\"version\":\"1\"}}}",
        "{\"id\":2,\"method\":\"initialize\",\"params\":{\"protocolVersion\":\"1\",\"capabilities\":[],\"clientInfo\":{\"name\":\"c\",\"version\":\"1\"}}}",
        "{\"id\":2,\"method\":\"initialize\",\"params\":{\"protocolVersion\":\"1\",\"capabilities\":{},\"clientInfo\":{\"name\":\"c\"}}}",
    ] {
        assert_eq!(reply(server.handle_message(message, NOW)), expected);
    }
}

#[test]
fn tools_are_listed() {
    let mut server = server();
    let line = reply(server.handle_message("{\"id\":\"a\",\"method\":\"tools/list\"}", NOW));
    let value: serde_json::Value = serde_json::from_str(&line).unwrap();
    assert_eq!(value["id"], serde_json::Value::from("a"));
    assert_eq!(value["jsonrpc"], serde_json::Value::from("2.0"));
    let tools = value["result"]["tools"].as_array().unwrap();
    let names: Vec<&str> = tools.iter().map(|t| t["name"].as_str().unwrap()).collect();
    assert_eq!(
        names,
        vec![
            "single_file_operations",
            "multiple_file_operations",
            "directory_operations",
            "search_and_analysis",
            "file_management",
            "start_operation_mode",
            "complete_current_mode",
            "list_available_modes",
            "get_current_mode_status",
        ]
    );
    for tool in tools {
        assert!(tool["description"].is_string());
        assert_eq!(tool["inputSchema"]["type"], serde_json::Value::from("object"));
        assert!(tool["inputSchema"]["properties"].is_object());
    }
    assert_eq!(
        tools[0]["inputSchema"]["required"],
        serde_json::Value::from(vec!["operation", "path"])
    );
    assert_eq!(
        tools[0]["inputSchema"]["properties"]["edits"]["items"]["required"],
        serde_json::Value::from(vec!["oldText", "newText"])
    );
    assert_eq!(
        tools[5]["inputSchema"]["properties"]["mode_name"]["enum"][4],
        serde_json::Value::from("file_management")
    );
    assert!(value["result"].get("nextCursor").is_none());
    assert!(value["result"].get("meta").is_none());
}

#[test]
fn notifications_get_no_reply() {
    let mut server = server();
    assert!(matches!(
        server.handle_message("{\"jsonrpc\":\"2.0\",\"method\":\"notifications/initialized\"}", NOW),
        Dispatch::Acknowledged
    ));
    assert!(matches!(
        server.handle_message("{\"jsonrpc\":\"2.0\",\"method\":\"initialized\"}", NOW),
        Dispatch::Acknowledged
    ));
    for message in [
        "{\"jsonrpc\":\"2.0\",\"method\":\"notifications/cancelled\"}",
        "{\"method\":\"anything/else\",\"params\":{\"x\":1}}",
        "{\"method\":\"tools/list\"}",
        "{\"method\":\"initialize\",\"params\":{\"protocolVersion\":\"v\",\"capabilities\":{},\"clientInfo\":{\"name\":\"c\",\"version\":\"1\"}}}",
        "{\"method\":\"initialize\"}",
        "{\"method\":\"tools/call\",\"params\":{\"name\":\"start_operation_mode\",\"arguments\":{\"mode_name\":\"file_management\"}}}",
        "{\"method\":\"tools/call\",\"params\":{\"name\":\"no_such_tool\"}}",
        "{\"method\":\"tools/call\"}",
        "{\"method\": 12}",
        "{\"jsonrpc\":\"2.0\"}",
        "{}",
        "[1,2,3]",
        "\"text\"",
        "null",
    ] {
        assert!(matches!(server.handle_message(message, NOW), Dispatch::Silent), "{}", message);
    }
    // a notification changes nothing: the mode was not started
    assert!(server.handler.gate.current.is_none());
}

#[test]
fn unknown_method_with_identifier_is_an_error() {
    let mut server = server();
    assert_eq!(
        reply(server.handle_message("{\"id\":3,\"method\":\"resources/list\"}", NOW)),
        "{\"error\":{\"code\":-32601,\"message\":\"Method not found: resources/list\"},\"id\":3,\"jsonrpc\":\"2.0\"}"
    );
    assert_eq!(
        reply(server.handle_message("{\"id\":null,\"method\":\"resources/list\"}", NOW)),
        "{\"error\":{\"code\":-32601,\"message\":\"Method not found: resources/list\"},\"id\":null,\"jsonrpc\":\"2.0\"}"
    );
}

#[test]
fn identifiers_are_echoed_verbatim() {
    let mut server = server();
    for id in ["17", "\"seven\"", "1.5", "-3", "[1,\"a\"]", "{\"k\":true}", "18446744073709551615"] {
        let message = format!("{{\"id\":{},\"method\":\"nope\"}}", id);
        let line = reply(server.handle_message(&message, NOW));
        assert_eq!(
            line,
            format!(
                "{{\"error\":{{\"code\":-32601,\"message\":\"Method not found: nope\"}},\"id\":{},\"jsonrpc\":\"2.0\"}}",
                id
            )
        );
    }
}

#[test]
fn call_without_a_name_has_invalid_parameters() {
    let mut server = server();
    let expected = "{\"error\":{\"code\":-32602,\"message\":\"Invalid params for tools/call\"},\"id\":4,\"jsonrpc\":\"2.0\"}";
    assert_eq!(reply(server.handle_message("{\"id\":4,\"method\":\"tools/call\"}", NOW)), expected);
    assert_eq!(
        reply(server.handle_message("{\"id\":4,\"method\":\"tools/call\",\"params\":{\"name\":5}}", NOW)),
        expected
    );
}

#[test]
fn call_of_a_tool_that_does_not_exist_is_an_internal_error() {
    let mut server = server();
    assert_eq!(
        reply(call(&mut server, 5, "no_such_tool", "{}")),
        "{\"error\":{\"code\":-32603,\"message\":\"Unknown tool: no_such_tool\"},\"id\":5,\"jsonrpc\":\"2.0\"}"
    );
}

#[test]
fn arguments_of_the_wrong_shape_are_invalid_parameters() {
    let mut server = server();
    assert_eq!(
        reply(call(&mut server, 4, "start_operation_mode", "{}")),
        "{\"error\":{\"code\":-32602,\"message\":\"missing field `mode_name`\"},\"id\":4,\"jsonrpc\":\"2.0\"}"
    );
    assert!(server.handler.gate.current.is_none());
    assert_eq!(
        reply(call(&mut server, 5, "single_file_operations", "{\"path\":\"/tmp/a\"}")),
        "{\"error\":{\"code\":-32602,\"message\":\"missing field `operation`\"},\"id\":5,\"jsonrpc\":\"2.0\"}"
    );
    assert_eq!(
        reply(call(&mut server, 5, "single_file_operations", "{\"operation\":\"read_file\",\"path\":7}")),
        "{\"error\":{\"code\":-32602,\"message\":\"invalid type for field `path`, expected a string\"},\"id\":5,\"jsonrpc\":\"2.0\"}"
    );
    assert_eq!(
        reply(call(&mut server, 5, "complete_current_mode", "{}")),
        "{\"error\":{\"code\":-32602,\"message\":\"invalid type: expected no arguments for complete_current_mode\"},\"id\":5,\"jsonrpc\":\"2.0\"}"
    );
}

#[test]
fn disabled_operation_is_a_business_result() {
    let mut server = server();
    // no mode is active
    let line = reply(call(
        &mut server,
        6,
        "single_file_operations",
        "{\"operation\":\"read_file\",\"path\":\"/tmp/a.txt\"}",
    ));
    assert_eq!(
        line,
        "{\"id\":6,\"jsonrpc\":\"2.0\",\"result\":{\"content\":[{\"text\":\"Operation 'read_file' is not available in the current operation mode. Use 'start_operation_mode' with 'single_file_operations' to enable this operation.\",\"type\":\"text\"}],\"isError\":true}}"
    );

    // a mode is active that does not enable the operation
    let started = reply(call(
        &mut server,
        7,
        "start_operation_mode",
        "{\"mode_name\":\"single_file_operations\"}",
    ));
    let (text, is_error) = answer_text(&started);
    assert!(!is_error);
    assert_eq!(
        text,
        "Started operation mode 'single_file_operations' with 8 available tools: read_file, write_file, edit_file, get_file_info, head_file, tail_file, read_file_lines, read_media_file"
    );
    let line = reply(call(
        &mut server,
        8,
        "directory_operations",
        "{\"operation\":\"list_directory\",\"path\":\"/tmp\"}",
    ));
    let value: serde_json::Value = serde_json::from_str(&line).unwrap();
    assert!(value.get("error").is_none());
    let (text, is_error) = answer_text(&line);
    assert!(is_error);
    assert_eq!(
        text,
        "Operation 'list_directory' is not available in the current operation mode. Use 'start_operation_mode' with 'directory_operations' to enable this operation."
    );
    // a started mode has no step, and the refused call left none
    assert_eq!(steps(&server), 0);
}

#[test]
fn enabled_operation_is_performed_and_recorded_once() {
    let mut server = server();
    reply(call(&mut server, 1, "start_operation_mode", "{\"mode_name\":\"single_file_operations\"}"));
    let dispatch = call(
        &mut server,
        2,
        "single_file_operations",
        "{\"operation\":\"read_file\",\"path\":\"/tmp/a.txt\"}",
    );
    let pending = match dispatch {
        Dispatch::Perform(pending) => pending,
        other => panic!("unexpected: {:?}", other),
    };
    let tool = match pending.job {
        FileJob::ReadFile(tool) => tool,
        other => panic!("unexpected: {:?}", other),
    };
    assert_eq!(tool.path, "/tmp/a.txt");
    assert_eq!(pending.step.step_name, "single_file_operations:read_file");
    assert_eq!(
        pending.step.summary.to_text(),
        "{\"operation\":\"read_file\",\"path\":\"/tmp/a.txt\",\"success\":true}"
    );
    assert_eq!(pending.id.to_text(), "2");
    assert_eq!(steps(&server), 0);

    let outcome = tool.run_tool(Ok(String::from("hello")));
    let line = server.complete_call(pending.id, pending.step, outcome, NOW).to_text();
    assert_eq!(
        line,
        "{\"id\":2,\"jsonrpc\":\"2.0\",\"result\":{\"content\":[{\"text\":\"hello\",\"type\":\"text\"}],\"isError\":false}}"
    );
    let history = &server.handler.gate.current.as_ref().unwrap().workflow_history;
    assert_eq!(history.len(), 1);
    assert_eq!(history[0].step_name, "single_file_operations:read_file");
    assert_eq!(
        history[0].result_summary,
        "{\"operation\":\"read_file\",\"path\":\"/tmp/a.txt\",\"success\":true}"
    );
    assert_eq!(history[0].timestamp, NOW);
}

#[test]
fn operation_that_did_not_succeed_is_a_business_result_and_leaves_no_step() {
    let mut server = server();
    reply(call(&mut server, 1, "start_operation_mode", "{\"mode_name\":\"single_file_operations\"}"));
    let pending = match call(
        &mut server,
        2,
        "single_file_operations",
        "{\"operation\":\"read_file\",\"path\":\"/tmp/missing\"}",
    ) {
        Dispatch::Perform(pending) => pending,
        other => panic!("unexpected: {:?}", other),
    };
    let tool = match pending.job {
        FileJob::ReadFile(tool) => tool,
        other => panic!("unexpected: {:?}", other),
    };
    let outcome = tool.run_tool(Err(ServiceError::FileNotFound(String::from("/tmp/missing"))));
    let line = server.complete_call(pending.id, pending.step, outcome, NOW).to_text();
    assert_eq!(
        line,
        "{\"id\":2,\"jsonrpc\":\"2.0\",\"result\":{\"content\":[{\"text\":\"File not found: /tmp/missing\",\"type\":\"text\"}],\"isError\":true}}"
    );
    assert_eq!(steps(&server), 0);

    // a path that the sandbox rejects is answered in the same way
    let pending = match call(
        &mut server,
        3,
        "single_file_operations",
        "{\"operation\":\"write_file\",\"path\":\"/etc/x\",\"content\":\"c\"}",
    ) {
        Dispatch::Perform(pending) => pending,
        other => panic!("unexpected: {:?}", other),
    };
    let tool = match pending.job {
        FileJob::WriteFile(tool) => tool,
        other => panic!("unexpected: {:?}", other),
    };
    let line = server
        .complete_call(pending.id, pending.step, tool.run_tool(Err(ServiceError::PathNotAllowed)), NOW)
        .to_text();
    let (text, is_error) = answer_text(&line);
    assert_eq!(text, "Path is outside allowed directories");
    assert!(is_error);
    assert_eq!(steps(&server), 0);
}

#[test]
fn failure_of_a_tool_is_an_internal_error_and_leaves_no_step() {
    let mut server = server();
    reply(call(&mut server, 1, "start_operation_mode", "{\"mode_name\":\"multiple_file_operations\"}"));
    let pending = match call(
        &mut server,
        2,
        "multiple_file_operations",
        "{\"operation\":\"zip_files\",\"paths\":[\"/a\"],\"output_path\":\"/o.zip\"}",
    ) {
        Dispatch::Perform(pending) => pending,
        other => panic!("unexpected: {:?}", other),
    };
    let tool = match pending.job {
        FileJob::ZipFiles(tool) => tool,
        other => panic!("unexpected: {:?}", other),
    };
    let outcome: Result<CallToolResult, CallToolError> = tool.run_tool();
    let line = server.complete_call(pending.id, pending.step, outcome, NOW).to_text();
    assert_eq!(
        line,
        "{\"error\":{\"code\":-32603,\"message\":\"Zip functionality not yet implemented - missing zip dependencies\"},\"id\":2,\"jsonrpc\":\"2.0\"}"
    );
    assert_eq!(steps(&server), 0);
}

#[test]
fn completing_reports_the_steps_and_clears_the_mode() {
    let mut server = server();
    let later = Timestamp { secs: NOW.secs + 12, nanos: 0 };
    reply(call(&mut server, 1, "start_operation_mode", "{\"mode_name\":\"single_file_operations\"}"));
    for n in 0..3 {
        let pending = match call(
            &mut server,
            10 + n,
            "single_file_operations",
            "{\"operation\":\"get_file_info\",\"path\":\"/tmp/a\"}",
        ) {
            Dispatch::Perform(pending) => pending,
            other => panic!("unexpected: {:?}", other),
        };
        let outcome = Ok(CallToolResult::text(String::from("info"), false));
        server.complete_call(pending.id, pending.step, outcome, NOW);
    }
    let message = "{\"id\":20,\"method\":\"tools/call\",\"params\":{\"name\":\"complete_current_mode\"}}";
    let (text, is_error) = answer_text(&reply(server.handle_message(message, later)));
    assert!(!is_error);
    // one step for each of the three calls
    assert_eq!(text, "Completed operation mode 'single_file_operations' after 3 steps and 12.0 seconds");
    assert!(server.handler.gate.current.is_none());

    let status = "{\"id\":21,\"method\":\"tools/call\",\"params\":{\"name\":\"get_current_mode_status\"}}";
    let (text, is_error) = answer_text(&reply(server.handle_message(status, later)));
    assert!(!is_error);
    assert_eq!(
        text,
        "No operation mode is currently active. Use 'start_operation_mode' to begin a new workflow."
    );
    let (text, _) = answer_text(&reply(server.handle_message(message, later)));
    assert_eq!(text, "No operation mode was active");
}

#[test]
fn status_lists_the_steps() {
    let mut server = server();
    reply(call(&mut server, 1, "start_operation_mode", "{\"mode_name\":\"file_management\"}"));
    let pending = match call(&mut server, 2, "file_management", "{\"operation\":\"list_allowed_directories\"}") {
        Dispatch::Perform(pending) => pending,
        other => panic!("unexpected: {:?}", other),
    };
    assert_eq!(
        pending.step.summary.to_text(),
        "{\"operation\":\"list_allowed_directories\",\"path\":null,\"success\":true}"
    );
    let step_time = Timestamp { secs: NOW.secs + 1, nanos: 500_000_000 };
    server.complete_call(pending.id, pending.step, Ok(CallToolResult::text(String::new(), false)), step_time);
    let status = "{\"id\":3,\"method\":\"tools/call\",\"params\":{\"name\":\"get_current_mode_status\",\"arguments\":null}}";
    let later = Timestamp { secs: NOW.secs + 90, nanos: 0 };
    let (text, is_error) = answer_text(&reply(server.handle_message(status, later)));
    assert!(!is_error);
    assert_eq!(
        text,
        "Current operation mode: file_management\nStarted: 2023-11-14T22:13:20+00:00\nDuration: 90 seconds\nAvailable tools: 2\nSteps completed: 1\n\nWorkflow history:\n  1. file_management:list_allowed_directories - 2023-11-14T22:13:21.500+00:00\n"
    );
}

#[test]
fn modes_are_listed() {
    let mut server = server();
    let message = "{\"id\":1,\"method\":\"tools/call\",\"params\":{\"name\":\"list_available_modes\"}}";
    let (text, is_error) = answer_text(&reply(server.handle_message(message, NOW)));
    assert!(!is_error);
    assert_eq!(
        text,
        "Available operation modes:\n\nsingle_file_operations: read_file, write_file, edit_file, get_file_info, head_file, tail_file, read_file_lines, read_media_file tools\nmultiple_file_operations: read_multiple_files, read_multiple_media_files, copy_file, move_file, zip_files, unzip_file, zip_directory tools\ndirectory_operations: create_directory, list_directory, directory_tree, list_directory_with_sizes, calculate_directory_size, find_empty_directories, delete_file tools\nsearch_and_analysis: search_files, search_files_content, find_duplicate_files tools\nfile_management: list_allowed_directories, delete_file tools"
    );
}

#[test]
fn unknown_mode_is_refused_and_changes_nothing() {
    let mut server = server();
    let (text, is_error) =
        answer_text(&reply(call(&mut server, 1, "start_operation_mode", "{\"mode_name\":\"everything\"}")));
    assert!(is_error);
    assert_eq!(text, "Unknown operation mode: everything");
    assert!(server.handler.gate.current.is_none());

    reply(call(&mut server, 2, "start_operation_mode", "{\"mode_name\":\"file_management\"}"));
    reply(call(&mut server, 3, "start_operation_mode", "{\"mode_name\":\"nothing\"}"));
    assert_eq!(server.handler.gate.current.as_ref().unwrap().name, "file_management");
}

#[test]
fn starting_a_mode_replaces_the_active_one() {
    let mut server = server();
    reply(call(&mut server, 1, "start_operation_mode", "{\"mode_name\":\"file_management\"}"));
    reply(call(&mut server, 2, "start_operation_mode", "{\"mode_name\":\"search_and_analysis\"}"));
    let mode = server.handler.gate.current.as_ref().unwrap();
    assert_eq!(mode.name, "search_and_analysis");
    assert!(mode.workflow_history.is_empty());
    assert_eq!(mode.available_tools, vec!["search_files", "search_files_content", "find_duplicate_files"]);
}

#[test]
fn blank_lines_are_passed_over() {
    let mut server = server();
    assert!(matches!(server.handle_line("", NOW), Dispatch::Silent));
    assert!(matches!(server.handle_line("   \t\r\n", NOW), Dispatch::Silent));
    assert_eq!(
        reply(server.handle_line("  {\"id\":1,\"method\":\"nope\"}\r\n", NOW)),
        "{\"error\":{\"code\":-32601,\"message\":\"Method not found: nope\"},\"id\":1,\"jsonrpc\":\"2.0\"}"
    );
}

#[test]
fn startup_message_names_the_directories() {
    let args = CommandArguments {
        blocked_directories: vec![String::from("/etc"), String::from("/var")],
        allowed_directories: vec![],
    };
    let handler = MyServerHandler::new(&args, &environment()).unwrap();
    assert!(handler.assert_write_access().is_ok());
    assert_eq!(
        handler.startup_message(),
        "Secure MCP Filesystem Server running in \"read/write\" mode.\nSecurity model: Allow all except blocked directories.\nAllowed directories: ALL (unrestricted)\nBlocked directories: /etc,\n/var"
    );
    let args = CommandArguments {
        blocked_directories: vec![],
        allowed_directories: vec![String::from("/srv/data")],
    };
    let handler = MyServerHandler::new(&args, &environment()).unwrap();
    assert_eq!(
        handler.startup_message(),
        "Secure MCP Filesystem Server running in \"read/write\" mode.\nSecurity model: Allow all except blocked directories.\nAllowed directories: /srv/data\nBlocked directories: NONE"
    );
}

#[test]
fn json_texts_are_read_and_written() {
    let document = parse_json("{\"b\":[1,-2,3.5,true,null,\"x\\ny\"],\"a\":{\"k\":\"v\"}}").unwrap();
    assert_eq!(document.to_text(), "{\"a\":{\"k\":\"v\"},\"b\":[1,-2,3.5,true,null,\"x\\ny\"]}");
    assert_eq!(document.get("a").unwrap().get("k").unwrap().as_str(), Some("v"));
    assert!(document.get("missing").is_none());
    assert!(document.get("b").unwrap().get("k").is_none());
    assert_eq!(document.duplicate().to_text(), document.to_text());
    assert!(parse_json("{\"a\":").is_none());
    assert!(parse_json("").is_none());
    assert_eq!(Json::text("q\"uote").to_text(), "\"q\\\"uote\"");
    assert_eq!(Json::integer(-5).to_text(), "-5");
    assert_eq!(Json::unsigned(u64::MAX).to_text(), "18446744073709551615");
    assert_eq!(Json::texts(&vec![String::from("a"), String::from("b")]).to_text(), "[\"a\",\"b\"]");
    assert_eq!(
        Json::texts(&vec![String::from("a")]).to_pretty_text(),
        "[\n  \"a\"\n]"
    );
}
