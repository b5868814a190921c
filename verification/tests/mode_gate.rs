use aichemistforge_mcp_server::json::{parse_json, Json, JsonMap};
use aichemistforge_mcp_server::task_state::{
    add_workflow_step, complete_current_mode, get_available_operation_modes, get_current_mode,
    get_operation_mode_tools, start_operation_mode, ModeGate, OperationMode, Timestamp,
};
use aichemistforge_mcp_server::tools::{record_step, PlannedStep};
use aichemistforge_mcp_server::mcp_types::{CallToolError, CallToolResult};

const START: Timestamp = Timestamp { secs: 1_000, nanos: 0 };

fn started(name: &str) -> ModeGate {
    let mut gate = ModeGate::new();
    start_operation_mode(&mut gate, name.to_string(), get_operation_mode_tools(name), START);
    gate
}

#[test]
fn modes_enable_their_operations() {
    assert_eq!(
        get_available_operation_modes(),
        vec![
            "single_file_operations",
            "multiple_file_operations",
            "directory_operations",
            "search_and_analysis",
            "file_management",
        ]
    );
    assert_eq!(
        get_operation_mode_tools("single_file_operations"),
        vec![
            "read_file",
            "write_file",
            "edit_file",
            "get_file_info",
            "head_file",
            "tail_file",
            "read_file_lines",
            "read_media_file",
        ]
    );
    assert_eq!(
        get_operation_mode_tools("multiple_file_operations"),
        vec![
            "read_multiple_files",
            "read_multiple_media_files",
            "copy_file",
            "move_file",
            "zip_files",
            "unzip_file",
            "zip_directory",
        ]
    );
    assert_eq!(
        get_operation_mode_tools("directory_operations"),
        vec![
            "create_directory",
            "list_directory",
            "directory_tree",
            "list_directory_with_sizes",
            "calculate_directory_size",
            "find_empty_directories",
            "delete_file",
        ]
    );
    assert_eq!(
        get_operation_mode_tools("search_and_analysis"),
        vec!["search_files", "search_files_content", "find_duplicate_files"]
    );
    assert_eq!(get_operation_mode_tools("file_management"), vec!["list_allowed_directories", "delete_file"]);
    assert!(get_operation_mode_tools("unknown").is_empty());
    assert!(get_operation_mode_tools("").is_empty());
}

#[test]
fn idle_gate_enables_nothing_and_drops_steps() {
    let mut gate = ModeGate::new();
    assert!(gate.current.is_none());
    assert!(!gate.is_operation_enabled("read_file"));
    assert!(get_current_mode(&gate).is_none());
    add_workflow_step(&mut gate, String::from("step"), Json::Null, None, START);
    assert!(gate.current.is_none());
    assert!(complete_current_mode(&mut gate).is_none());
    assert!(gate.current.is_none());
}

#[test]
fn active_gate_enables_the_operations_of_its_mode() {
    let gate = started("single_file_operations");
    assert!(gate.is_operation_enabled("read_file"));
    assert!(gate.is_operation_enabled("read_media_file"));
    assert!(!gate.is_operation_enabled("copy_file"));
    assert!(!gate.is_operation_enabled(""));
    assert!(!gate.is_operation_enabled("single_file_operations"));
    let mode = get_current_mode(&gate).unwrap();
    assert_eq!(mode.name, "single_file_operations");
    assert_eq!(mode.start_time, START);
    assert!(mode.workflow_history.is_empty());
    assert_eq!(mode.context.len(), 0);
}

#[test]
fn start_returns_a_copy_of_the_mode() {
    let mut gate = ModeGate::new();
    let mode = start_operation_mode(
        &mut gate,
        String::from("custom"),
        vec![String::from("a"), String::from("b")],
        START,
    );
    assert_eq!(mode.name, "custom");
    assert_eq!(mode.available_tools, vec!["a", "b"]);
    assert_eq!(mode.start_time, START);
    assert!(gate.is_operation_enabled("a"));
    assert!(!gate.is_operation_enabled("c"));
}

#[test]
fn completing_after_n_steps_reports_n_and_clears_the_mode() {
    for n in [0usize, 1, 5] {
        let mut gate = started("directory_operations");
        for k in 0..n {
            add_workflow_step(
                &mut gate,
                format!("step {}", k),
                Json::unsigned(k as u64),
                None,
                Timestamp { secs: START.secs + k as i64, nanos: 0 },
            );
        }
        let mode = complete_current_mode(&mut gate).unwrap();
        assert_eq!(mode.workflow_history.len(), n);
        for k in 0..n {
            assert_eq!(mode.workflow_history[k].step_name, format!("step {}", k));
            assert_eq!(mode.workflow_history[k].result_summary, format!("{}", k));
            assert_eq!(mode.workflow_history[k].timestamp.secs, START.secs + k as i64);
            assert_eq!(mode.workflow_history[k].metadata.len(), 0);
        }
        assert!(gate.current.is_none());
        assert!(get_current_mode(&gate).is_none());
        assert!(complete_current_mode(&mut gate).is_none());
    }
}

#[test]
fn summaries_of_results_are_cut_at_200_characters() {
    let mut mode = OperationMode::new(String::from("m"), vec![], START);
    let long = "é".repeat(300);
    mode.add_workflow_step(String::from("long"), Json::text(&long), None, START);
    let summary = &mode.workflow_history[0].result_summary;
    assert_eq!(summary.chars().count(), 200);
    assert_eq!(*summary, format!("\"{}", "é".repeat(199)));

    let metadata = JsonMap::new().insert(String::from("k"), Json::Bool(true));
    mode.add_workflow_step(String::from("short"), Json::text("ok"), Some(metadata), START);
    assert_eq!(mode.workflow_history[1].result_summary, "\"ok\"");
    assert_eq!(mode.workflow_history[1].metadata.len(), 1);
    assert_eq!(mode.workflow_history[1].metadata.entries()[0].0, "k");
}

#[test]
fn workflow_summary_holds_the_mode_and_its_steps() {
    let mut mode = OperationMode::new(
        String::from("file_management"),
        get_operation_mode_tools("file_management"),
        START,
    );
    mode.add_workflow_step(String::from("first"), Json::text("r"), None, Timestamp { secs: 1_001, nanos: 0 });
    let summary = mode.get_workflow_summary(Timestamp { secs: 1_060, nanos: 0 });
    assert_eq!(
        summary.to_text(),
        "{\"available_tools\":[\"list_allowed_directories\",\"delete_file\"],\"duration_seconds\":60,\"mode_name\":\"file_management\",\"start_time\":\"1970-01-01T00:16:40+00:00\",\"steps_completed\":1,\"workflow_steps\":[{\"step\":\"first\",\"summary\":\"\\\"r\\\"\",\"timestamp\":\"1970-01-01T00:16:41+00:00\"}]}"
    );
    let earlier = mode.get_workflow_summary(Timestamp { secs: 900, nanos: 0 });
    assert_eq!(earlier.get("duration_seconds").unwrap().to_text(), "-100");
}

#[test]
fn timestamps_are_written_in_rfc_3339() {
    assert_eq!(Timestamp { secs: 0, nanos: 0 }.to_rfc3339(), "1970-01-01T00:00:00+00:00");
    assert_eq!(
        Timestamp { secs: 1_700_000_000, nanos: 123_456_789 }.to_rfc3339(),
        "2023-11-14T22:13:20.123456789+00:00"
    );
    assert_eq!(Timestamp { secs: -1, nanos: 0 }.to_rfc3339(), "1969-12-31T23:59:59+00:00");
    // out of the range of the calendar
    assert_eq!(Timestamp { secs: i64::MAX, nanos: 0 }.to_rfc3339(), "");
    assert_eq!(Timestamp { secs: 0, nanos: u32::MAX }.to_rfc3339(), "");
    // a time that the clock gives has its text
    let clock = chrono::Utc::now();
    let now = Timestamp { secs: clock.timestamp(), nanos: clock.timestamp_subsec_nanos() };
    assert_eq!(now.to_rfc3339(), clock.to_rfc3339());
}

#[test]
fn elapsed_seconds_stay_in_range() {
    let start = Timestamp { secs: 10, nanos: 0 };
    assert_eq!(start.elapsed_seconds(Timestamp { secs: 25, nanos: 0 }), 15);
    assert_eq!(start.elapsed_seconds(Timestamp { secs: 5, nanos: 0 }), -5);
    let far = Timestamp { secs: i64::MIN, nanos: 0 };
    assert_eq!(far.elapsed_seconds(Timestamp { secs: i64::MAX, nanos: 0 }), i64::MAX);
    let near = Timestamp { secs: i64::MAX, nanos: 0 };
    assert_eq!(near.elapsed_seconds(Timestamp { secs: i64::MIN, nanos: 0 }), i64::MIN);
}

#[test]
fn only_calls_that_ended_well_are_recorded() {
    let step = |name: &str| PlannedStep {
        step_name: name.to_string(),
        summary: parse_json("{\"success\":true}").unwrap(),
    };
    let mut gate = started("file_management");
    record_step(&mut gate, step("a"), &Ok(CallToolResult::text(String::from("fine"), false)), START);
    record_step(&mut gate, step("b"), &Ok(CallToolResult::text(String::from("bad"), true)), START);
    record_step(&mut gate, step("c"), &Err(CallToolError::new("failed")), START);
    record_step(&mut gate, step("d"), &Ok(CallToolResult { content: vec![], is_error: None }), START);
    let mode = complete_current_mode(&mut gate).unwrap();
    let names: Vec<&str> = mode.workflow_history.iter().map(|s| s.step_name.as_str()).collect();
    assert_eq!(names, vec!["a", "d"]);
    assert_eq!(mode.workflow_history[0].result_summary, "{\"success\":true}");
}

#[test]
fn maps_hold_no_name_twice() {
    let map = JsonMap::new()
        .insert(String::from("a"), Json::unsigned(1))
        .insert(String::from("b"), Json::unsigned(2))
        .insert(String::from("a"), Json::unsigned(3));
    assert_eq!(map.len(), 2);
    assert_eq!(map.to_json().to_text(), "{\"a\":3,\"b\":2}");
    let names: Vec<&str> = map.entries().iter().map(|(name, _)| name.as_str()).collect();
    assert_eq!(names, vec!["a", "b"]);

    let members = vec![
        (String::from("x"), Json::Null),
        (String::from("y"), Json::Bool(true)),
        (String::from("x"), Json::text("last")),
    ];
    let collected = JsonMap::from_members(&members);
    assert_eq!(collected.len(), 2);
    assert_eq!(collected.entries()[0].0, "x");
    assert_eq!(collected.entries()[0].1.to_text(), "\"last\"");
    assert_eq!(collected.entries()[1].0, "y");
    assert_eq!(JsonMap::from_members(&vec![]).len(), 0);
}
