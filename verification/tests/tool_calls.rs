use acp_harness::decode::{read_fetch_url, read_search_query, ShellOutput};
use acp_harness::entry::{
    ActionType, CommandExitStatus, CommandRunResult, FileChange, NormalizedEntryType, ToolResult,
    ToolResultValueType, ToolStatus, UnifiedDiff,
};
use acp_harness::protocol::{
    AcpEvent, AvailableCommand, ContentBlock, Diff, Plan, PlanEntry, SessionNotification,
    SessionUpdate, ToolCall, ToolCallContent, ToolCallError, ToolCallLocation, ToolCallStatus,
    ToolCallUpdate, ToolCallUpdateFields, ToolKind,
};
use acp_harness::tool_call::{
    collect_text_content, command_run_result, convert_tool_status, extract_file_changes,
    extract_tool_name_from_id, extract_url_from_text, get_tool_content, map_to_action_type,
    tool_use_entry, PartialToolCallData,
};

fn json(text: &str) -> serde_json::Value {
    serde_json::from_str(text).unwrap()
}

fn record(id: &str, kind: ToolKind, title: &str) -> PartialToolCallData {
    PartialToolCallData {
        index: 0,
        id: id.to_string(),
        kind,
        title: title.to_string(),
        status: ToolCallStatus::Pending,
        path: None,
        content: vec![],
        raw_input: None,
        raw_output: None,
    }
}

fn text_block(s: &str) -> ToolCallContent {
    ToolCallContent::Content { content: ContentBlock::Text(s.to_string()) }
}

fn snapshot(id: &str) -> ToolCall {
    ToolCall {
        id: id.to_string(),
        title: String::new(),
        kind: ToolKind::Other,
        status: ToolCallStatus::Pending,
        content: vec![],
        locations: vec![],
        raw_input: None,
        raw_output: None,
    }
}

#[test]
fn default_record_is_empty() {
    let d = PartialToolCallData::default();
    assert_eq!(d, record("", ToolKind::Other, ""));
    assert_eq!(ToolKind::default(), ToolKind::Other);
    assert_eq!(ToolCallStatus::default(), ToolCallStatus::Pending);
}

#[test]
fn extend_takes_what_the_snapshot_specifies() {
    let mut data = PartialToolCallData::default();
    data.index = 5;
    let tc = ToolCall {
        id: "a-1".to_string(),
        title: "Title".to_string(),
        kind: ToolKind::Fetch,
        status: ToolCallStatus::InProgress,
        content: vec![text_block("x")],
        locations: vec![
            ToolCallLocation { path: "src/a.rs".to_string() },
            ToolCallLocation { path: "src/b.rs".to_string() },
        ],
        raw_input: Some(json("{\"url\":\"u\"}")),
        raw_output: Some(json("1")),
    };
    data.extend(&tc);
    assert_eq!(
        data,
        PartialToolCallData {
            index: 5,
            id: "a-1".to_string(),
            kind: ToolKind::Fetch,
            title: "Title".to_string(),
            status: ToolCallStatus::InProgress,
            path: Some("src/a.rs".to_string()),
            content: vec![text_block("x")],
            raw_input: Some(json("{\"url\":\"u\"}")),
            raw_output: Some(json("1")),
        }
    );
}

#[test]
fn extend_never_overwrites_with_defaults() {
    let mut data = PartialToolCallData {
        index: 3,
        id: "a-1".to_string(),
        kind: ToolKind::Execute,
        title: "run".to_string(),
        status: ToolCallStatus::Completed,
        path: Some("p".to_string()),
        content: vec![text_block("x")],
        raw_input: Some(json("{}")),
        raw_output: Some(json("[]")),
    };
    let before = data.duplicate();
    data.extend(&snapshot("a-1"));
    assert_eq!(data, before);
    data.extend(&snapshot("a-2"));
    assert_eq!(data.id, "a-2");
    assert_eq!(data.index, 3);
    assert_eq!(data.title, "run");
    assert_eq!(data.kind, ToolKind::Execute);
    assert_eq!(data.status, ToolCallStatus::Completed);
}

#[test]
fn tool_name_is_read_from_id() {
    assert_eq!(extract_tool_name_from_id("save_memory-123"), Some("save_memory".to_string()));
    assert_eq!(extract_tool_name_from_id("a-b-12"), Some("a-b".to_string()));
    assert_eq!(extract_tool_name_from_id("tool-"), Some("tool".to_string()));
    assert_eq!(extract_tool_name_from_id("-"), Some(String::new()));
    assert_eq!(extract_tool_name_from_id("-7"), Some(String::new()));
    assert_eq!(extract_tool_name_from_id("tool-12a"), None);
    assert_eq!(extract_tool_name_from_id("tool-\u{0663}"), None);
    assert_eq!(extract_tool_name_from_id("tool"), None);
    assert_eq!(extract_tool_name_from_id(""), None);
    assert_eq!(extract_tool_name_from_id("h\u{e9}llo-1"), Some("h\u{e9}llo".to_string()));
}

#[test]
fn text_content_is_joined_with_line_feeds() {
    assert_eq!(collect_text_content(&vec![]), None);
    assert_eq!(collect_text_content(&vec![ToolCallContent::Terminal]), None);
    assert_eq!(collect_text_content(&vec![text_block("a")]), Some("a\n".to_string()));
    assert_eq!(collect_text_content(&vec![text_block("a\n")]), Some("a\n".to_string()));
    assert_eq!(collect_text_content(&vec![text_block("")]), Some("\n".to_string()));
    assert_eq!(
        collect_text_content(&vec![text_block("a\n"), text_block("")]),
        Some("a\n".to_string())
    );
    let mixed = vec![
        text_block("one"),
        ToolCallContent::Content { content: ContentBlock::Image },
        ToolCallContent::Diff {
            diff: Diff { path: "p".to_string(), old_text: None, new_text: "n".to_string() },
        },
        text_block("two\n"),
        text_block("three"),
    ];
    assert_eq!(collect_text_content(&mixed), Some("one\ntwo\nthree\n".to_string()));
}

#[test]
fn status_conversion() {
    assert_eq!(convert_tool_status(&ToolCallStatus::Pending), ToolStatus::Created);
    assert_eq!(convert_tool_status(&ToolCallStatus::InProgress), ToolStatus::Created);
    assert_eq!(convert_tool_status(&ToolCallStatus::Completed), ToolStatus::Success);
    assert_eq!(convert_tool_status(&ToolCallStatus::Failed), ToolStatus::Failed);
}

#[test]
fn first_url_is_extracted() {
    assert_eq!(
        extract_url_from_text("Fetching https://example.com/a?b=1 now"),
        Some("https://example.com/a?b=1".to_string())
    );
    assert_eq!(
        extract_url_from_text("see (http://a.io/x) and https://b.io"),
        Some("http://a.io/x".to_string())
    );
    assert_eq!(
        extract_url_from_text("\"https://q.io/p\" quoted"),
        Some("https://q.io/p".to_string())
    );
    assert_eq!(extract_url_from_text("no address here"), None);
    assert_eq!(extract_url_from_text("https://"), None);
    assert_eq!(extract_url_from_text("ftp://x.io"), None);
}

#[test]
fn read_maps_to_file_read() {
    let mut data = record("read-1", ToolKind::Read, "Read a.rs");
    assert_eq!(map_to_action_type(&data), ActionType::FileRead { path: String::new() });
    data.path = Some("src/a.rs".to_string());
    assert_eq!(map_to_action_type(&data), ActionType::FileRead { path: "src/a.rs".to_string() });
    assert_eq!(get_tool_content(&data), "Read a.rs");
}

#[test]
fn read_many_files_maps_to_tool() {
    let mut data = record("read_many_files-17", ToolKind::Read, "a.rs, b.rs");
    data.content = vec![text_block("contents")];
    assert_eq!(
        map_to_action_type(&data),
        ActionType::Tool {
            tool_name: "read_many_files".to_string(),
            arguments: Some(serde_json::Value::String("a.rs, b.rs".to_string())),
            result: Some(ToolResult {
                value_type: ToolResultValueType::Markdown,
                value: serde_json::Value::String("contents\n".to_string()),
            }),
        }
    );
    assert_eq!(get_tool_content(&data), "Read files");
    let bare = record("read_many_files", ToolKind::Read, "t");
    assert_eq!(
        map_to_action_type(&bare),
        ActionType::Tool {
            tool_name: "read_many_files".to_string(),
            arguments: Some(serde_json::Value::String("t".to_string())),
            result: None,
        }
    );
    let other = record("xread_many_files", ToolKind::Read, "t");
    assert_eq!(map_to_action_type(&other), ActionType::FileRead { path: String::new() });
}

#[test]
fn edit_maps_diffs_to_changes() {
    let mut data = record("e-1", ToolKind::Edit, "edit");
    data.path = Some("fallback.rs".to_string());
    data.content = vec![
        ToolCallContent::Diff {
            diff: Diff { path: "new.rs".to_string(), old_text: None, new_text: "fresh".to_string() },
        },
        text_block("ignored"),
        ToolCallContent::Diff {
            diff: Diff {
                path: "empty_old.rs".to_string(),
                old_text: Some(String::new()),
                new_text: "w".to_string(),
            },
        },
        ToolCallContent::Diff {
            diff: Diff {
                path: "own.rs".to_string(),
                old_text: Some("a".to_string()),
                new_text: "b".to_string(),
            },
        },
        ToolCallContent::Diff {
            diff: Diff {
                path: String::new(),
                old_text: Some("c".to_string()),
                new_text: String::new(),
            },
        },
    ];
    let changes = vec![
        FileChange::Write { content: "fresh".to_string() },
        FileChange::Write { content: "w".to_string() },
        FileChange::Edit {
            unified_diff: UnifiedDiff {
                path: "own.rs".to_string(),
                old_text: "a".to_string(),
                new_text: "b".to_string(),
            },
            has_line_numbers: false,
        },
        FileChange::Edit {
            unified_diff: UnifiedDiff {
                path: "fallback.rs".to_string(),
                old_text: "c".to_string(),
                new_text: String::new(),
            },
            has_line_numbers: false,
        },
    ];
    assert_eq!(extract_file_changes(&data), changes);
    assert_eq!(
        map_to_action_type(&data),
        ActionType::FileEdit { path: "fallback.rs".to_string(), changes }
    );
}

#[test]
fn delete_maps_to_delete_change() {
    let mut data = record("d-1", ToolKind::Delete, "rm a");
    data.path = Some("a".to_string());
    assert_eq!(
        map_to_action_type(&data),
        ActionType::FileEdit { path: "a".to_string(), changes: vec![FileChange::Delete] }
    );
}

#[test]
fn execute_result_follows_raw_output_and_status() {
    let run = |raw: Option<&str>, status: ToolCallStatus| {
        let mut data = record("x-1", ToolKind::Execute, "  cargo test (in /w) (again)");
        data.raw_output = raw.map(json);
        data.status = status;
        match map_to_action_type(&data) {
            ActionType::CommandRun { command, result } => {
                assert_eq!(command, "cargo test");
                result
            }
            other => panic!("unexpected action {:?}", other),
        }
    };
    let success = Some(CommandExitStatus::Success { success: true });
    assert_eq!(run(None, ToolCallStatus::InProgress), None);
    assert_eq!(
        run(None, ToolCallStatus::Completed),
        Some(CommandRunResult { exit_status: success, output: None })
    );
    assert_eq!(
        run(Some("{\"exit_code\":2,\"stderr\":\"boom\"}"), ToolCallStatus::Failed),
        Some(CommandRunResult {
            exit_status: Some(CommandExitStatus::ExitCode { code: 2 }),
            output: Some("boom".to_string()),
        })
    );
    assert_eq!(
        run(Some("{\"stdout\":\"out\",\"stderr\":\"err\"}"), ToolCallStatus::Completed),
        Some(CommandRunResult { exit_status: success, output: Some("out".to_string()) })
    );
    assert_eq!(
        run(Some("{}"), ToolCallStatus::InProgress),
        Some(CommandRunResult { exit_status: None, output: Some(String::new()) })
    );
    assert_eq!(run(Some("\"text\""), ToolCallStatus::InProgress), None);
    assert_eq!(
        run(Some("{\"exit_code\":\"0\"}"), ToolCallStatus::Completed),
        Some(CommandRunResult { exit_status: success, output: None })
    );
}

#[test]
fn command_result_from_report() {
    assert_eq!(command_run_result(None, false), None);
    assert_eq!(command_run_result(Some(None), false), None);
    assert_eq!(
        command_run_result(Some(None), true),
        Some(CommandRunResult {
            exit_status: Some(CommandExitStatus::Success { success: true }),
            output: None,
        })
    );
    let report = ShellOutput { exit_code: Some(-1), stdout: None, stderr: None };
    assert_eq!(
        command_run_result(Some(Some(report)), true),
        Some(CommandRunResult {
            exit_status: Some(CommandExitStatus::ExitCode { code: -1 }),
            output: Some(String::new()),
        })
    );
}

#[test]
fn shell_report_is_read_from_object_or_array() {
    let full = ShellOutput {
        exit_code: Some(0),
        stdout: Some("o".to_string()),
        stderr: Some("e".to_string()),
    };
    let none = ShellOutput { exit_code: None, stdout: None, stderr: None };
    assert_eq!(
        ShellOutput::from_value(&json(
            "{\"stderr\":\"e\",\"extra\":[1],\"exit_code\":0,\"stdout\":\"o\"}"
        )),
        Some(full.clone())
    );
    assert_eq!(ShellOutput::from_value(&json("[0,\"o\",\"e\"]")), Some(full));
    assert_eq!(ShellOutput::from_value(&json("[]")), Some(none.clone()));
    assert_eq!(
        ShellOutput::from_value(&json("{\"exit_code\":null,\"stdout\":null}")),
        Some(none.clone())
    );
    assert_eq!(
        ShellOutput::from_value(&json("[null,\"o\"]")),
        Some(ShellOutput { exit_code: None, stdout: Some("o".to_string()), stderr: None })
    );
    assert_eq!(ShellOutput::from_value(&json("[0,\"o\",\"e\",1]")), None);
    assert_eq!(ShellOutput::from_value(&json("null")), None);
    assert_eq!(ShellOutput::from_value(&json("7")), None);
    assert_eq!(ShellOutput::from_value(&json("{\"exit_code\":1.5}")), None);
    assert_eq!(ShellOutput::from_value(&json("{\"exit_code\":2147483648}")), None);
    assert_eq!(ShellOutput::from_value(&json("{\"exit_code\":-2147483649}")), None);
    assert_eq!(ShellOutput::from_value(&json("{\"exit_code\":18446744073709551615}")), None);
    assert_eq!(ShellOutput::from_value(&json("{\"stdout\":5}")), None);
    assert_eq!(
        ShellOutput::from_value(&json("{\"exit_code\":2147483647}")),
        Some(ShellOutput { exit_code: Some(2147483647), stdout: None, stderr: None })
    );
    assert_eq!(
        ShellOutput::from_value(&json("{\"exit_code\":-2147483648}")),
        Some(ShellOutput { exit_code: Some(-2147483648), stdout: None, stderr: None })
    );
}

#[test]
fn search_and_fetch_arguments_are_read() {
    assert_eq!(read_search_query(&json("{\"query\":\"q\",\"n\":1}")), Some("q".to_string()));
    assert_eq!(read_search_query(&json("[\"q\"]")), Some("q".to_string()));
    assert_eq!(read_search_query(&json("[\"q\",1]")), None);
    assert_eq!(read_search_query(&json("[]")), None);
    assert_eq!(read_search_query(&json("{}")), None);
    assert_eq!(read_search_query(&json("{\"query\":null}")), None);
    assert_eq!(read_search_query(&json("{\"query\":3}")), None);
    assert_eq!(read_search_query(&json("\"q\"")), None);
    assert_eq!(read_fetch_url(&json("{\"url\":\"https://a\"}")), Some("https://a".to_string()));
    assert_eq!(read_fetch_url(&json("{\"query\":\"q\"}")), None);
}

#[test]
fn search_takes_query_or_title() {
    let mut data = record("s-1", ToolKind::Search, "find things");
    assert_eq!(map_to_action_type(&data), ActionType::Search { query: "find things".to_string() });
    data.raw_input = Some(json("{\"query\":\"needle\"}"));
    assert_eq!(map_to_action_type(&data), ActionType::Search { query: "needle".to_string() });
    data.raw_input = Some(json("{\"pattern\":\"needle\"}"));
    assert_eq!(map_to_action_type(&data), ActionType::Search { query: "find things".to_string() });
    data.raw_input = Some(json("{\"query\":\"\"}"));
    assert_eq!(map_to_action_type(&data), ActionType::Search { query: String::new() });
}

#[test]
fn fetch_takes_url_or_first_address_in_title() {
    let mut data = record("f-1", ToolKind::Fetch, "Fetching https://t.io/x, please");
    assert_eq!(
        map_to_action_type(&data),
        ActionType::WebFetch { url: "https://t.io/x,".to_string() }
    );
    data.raw_input = Some(json("{\"url\":\"https://given.io\"}"));
    assert_eq!(
        map_to_action_type(&data),
        ActionType::WebFetch { url: "https://given.io".to_string() }
    );
    data.raw_input = Some(json("{\"url\":\"\"}"));
    assert_eq!(
        map_to_action_type(&data),
        ActionType::WebFetch { url: "https://t.io/x,".to_string() }
    );
    let plain = record("f-2", ToolKind::Fetch, "no address");
    assert_eq!(map_to_action_type(&plain), ActionType::WebFetch { url: String::new() });
}

#[test]
fn think_carries_title_and_text() {
    let mut data = record("save_memory-4", ToolKind::Think, "Remember this");
    assert_eq!(
        map_to_action_type(&data),
        ActionType::Tool {
            tool_name: "save_memory".to_string(),
            arguments: Some(json("{\"title\":\"Remember this\"}")),
            result: None,
        }
    );
    data.content = vec![text_block("fact")];
    assert_eq!(
        map_to_action_type(&data),
        ActionType::Tool {
            tool_name: "save_memory".to_string(),
            arguments: Some(json("{\"title\":\"Remember this\",\"content\":\"fact\\n\"}")),
            result: Some(ToolResult {
                value_type: ToolResultValueType::Markdown,
                value: json("\"fact\\n\""),
            }),
        }
    );
    data.raw_output = Some(json("{\"ok\":true}"));
    data.id = "think".to_string();
    assert_eq!(
        map_to_action_type(&data),
        ActionType::Tool {
            tool_name: "Remember this".to_string(),
            arguments: Some(json("{\"title\":\"Remember this\",\"content\":\"fact\\n\"}")),
            result: Some(ToolResult {
                value_type: ToolResultValueType::Json,
                value: json("{\"ok\":true}"),
            }),
        }
    );
    assert_eq!(get_tool_content(&data), "Saving memory");
}

#[test]
fn switch_mode_maps_to_other() {
    let data = record("m-1", ToolKind::SwitchMode, "to architect");
    assert_eq!(
        map_to_action_type(&data),
        ActionType::Other { description: "switch_mode".to_string() }
    );
    assert_eq!(get_tool_content(&data), "to architect");
}

#[test]
fn other_and_move_map_to_generic_tool() {
    let mut data = record("glob-12", ToolKind::Other, "  {\"pattern\":\"*.rs\"}");
    assert_eq!(
        map_to_action_type(&data),
        ActionType::Tool {
            tool_name: "glob".to_string(),
            arguments: Some(json("{\"pattern\":\"*.rs\"}")),
            result: None,
        }
    );
    data.title = "{not json".to_string();
    assert_eq!(
        map_to_action_type(&data),
        ActionType::Tool { tool_name: "glob".to_string(), arguments: None, result: None }
    );
    data.title = "plain".to_string();
    data.raw_input = Some(json("[1,2]"));
    data.kind = ToolKind::Move;
    data.id = "mv".to_string();
    assert_eq!(
        map_to_action_type(&data),
        ActionType::Tool {
            tool_name: "plain".to_string(),
            arguments: Some(json("[1,2]")),
            result: None,
        }
    );
    assert_eq!(get_tool_content(&data), "plain");
}

#[test]
fn content_of_other_tools_names_the_tool() {
    assert_eq!(get_tool_content(&record("glob-12", ToolKind::Other, "*.rs")), "glob: *.rs");
    assert_eq!(get_tool_content(&record("glob-12", ToolKind::Other, "")), "glob");
    assert_eq!(get_tool_content(&record("glob", ToolKind::Other, "*.rs")), "tool: *.rs");
    assert_eq!(get_tool_content(&record("glob", ToolKind::Other, "")), "tool");
    assert_eq!(get_tool_content(&record("x", ToolKind::Execute, " ls (cwd)")), "ls");
    assert_eq!(get_tool_content(&record("x", ToolKind::Edit, "edit a")), "edit a");
}

#[test]
fn tool_entry_shows_title_action_and_status() {
    let mut data = record("x-1", ToolKind::Execute, "ls (here)");
    data.status = ToolCallStatus::Failed;
    let entry = tool_use_entry(&data);
    assert_eq!(entry.timestamp, None);
    assert_eq!(entry.metadata, None);
    assert_eq!(entry.content, "ls");
    assert_eq!(
        entry.entry_type,
        NormalizedEntryType::ToolUse {
            tool_name: "ls (here)".to_string(),
            action_type: ActionType::CommandRun { command: "ls".to_string(), result: None },
            status: ToolStatus::Failed,
        }
    );
}

#[test]
fn update_becomes_tool_call_only_with_title() {
    let fields = ToolCallUpdateFields {
        kind: None,
        status: None,
        title: None,
        content: None,
        locations: None,
        raw_input: Some(json("1")),
        raw_output: None,
    };
    let missing = ToolCallUpdate { id: "u".to_string(), fields: fields.clone() };
    assert_eq!(ToolCall::try_from(missing), Err(ToolCallError::TitleRequired));
    let titled = ToolCallUpdate {
        id: "u".to_string(),
        fields: ToolCallUpdateFields { title: Some("t".to_string()), ..fields },
    };
    assert_eq!(
        ToolCall::try_from(titled),
        Ok(ToolCall {
            id: "u".to_string(),
            title: "t".to_string(),
            kind: ToolKind::Other,
            status: ToolCallStatus::Pending,
            content: vec![],
            locations: vec![],
            raw_input: Some(json("1")),
            raw_output: None,
        })
    );
    let full = ToolCallUpdate {
        id: "v".to_string(),
        fields: ToolCallUpdateFields {
            kind: Some(ToolKind::Edit),
            status: Some(ToolCallStatus::Failed),
            title: Some(String::new()),
            content: Some(vec![text_block("c")]),
            locations: Some(vec![ToolCallLocation { path: "p".to_string() }]),
            raw_input: None,
            raw_output: Some(json("2")),
        },
    };
    assert_eq!(
        ToolCall::try_from(full),
        Ok(ToolCall {
            id: "v".to_string(),
            title: String::new(),
            kind: ToolKind::Edit,
            status: ToolCallStatus::Failed,
            content: vec![text_block("c")],
            locations: vec![ToolCallLocation { path: "p".to_string() }],
            raw_input: None,
            raw_output: Some(json("2")),
        })
    );
}

#[test]
fn notification_becomes_event() {
    let note = |update: SessionUpdate| SessionNotification { session_id: "s".to_string(), update };
    let block = || ContentBlock::Text("x".to_string());
    assert_eq!(
        AcpEvent::try_from(note(SessionUpdate::UserMessageChunk { content: block() })),
        Err(())
    );
    assert_eq!(
        AcpEvent::try_from(note(SessionUpdate::AgentMessageChunk { content: block() })),
        Ok(AcpEvent::Message(block()))
    );
    assert_eq!(
        AcpEvent::try_from(note(SessionUpdate::AgentThoughtChunk { content: block() })),
        Ok(AcpEvent::Thought(block()))
    );
    assert_eq!(
        AcpEvent::try_from(note(SessionUpdate::ToolCall(snapshot("t")))),
        Ok(AcpEvent::ToolCall(snapshot("t")))
    );
    let plan = Plan { entries: vec![PlanEntry { content: "p".to_string() }] };
    assert_eq!(
        AcpEvent::try_from(note(SessionUpdate::Plan(plan.clone()))),
        Ok(AcpEvent::Plan(plan))
    );
    let commands = vec![AvailableCommand { name: "c".to_string() }];
    assert_eq!(
        AcpEvent::try_from(note(SessionUpdate::AvailableCommandsUpdate {
            available_commands: commands.clone()
        })),
        Ok(AcpEvent::AvailableCommands(commands))
    );
    assert_eq!(
        AcpEvent::try_from(note(SessionUpdate::CurrentModeUpdate {
            current_mode_id: "m".to_string()
        })),
        Ok(AcpEvent::CurrentMode("m".to_string()))
    );
}

#[test]
fn members_are_read_as_serde_reads_them() {
    let samples = [
        "0", "-1", "2147483647", "2147483648", "-2147483648", "-2147483649", "1.0", "1.5", "1e3",
        "\"1\"", "\"text\"", "\"\"", "true", "null", "[]", "{}", "18446744073709551615",
        "-9223372036854775808", "[1]", "{\"a\":1}",
    ];
    for sample in samples {
        let member = json(sample);
        let object = json(&format!("{{\"exit_code\":{sample},\"stdout\":{sample}}}"));
        let code = serde_json::from_value::<Option<i32>>(member.clone()).ok();
        let text = serde_json::from_value::<Option<String>>(member.clone()).ok();
        let only_code = json(&format!("{{\"exit_code\":{sample}}}"));
        let only_text = json(&format!("{{\"stderr\":{sample}}}"));
        assert_eq!(
            ShellOutput::from_value(&only_code),
            code.map(|exit_code| ShellOutput { exit_code, stdout: None, stderr: None })
        );
        assert_eq!(
            ShellOutput::from_value(&only_text),
            text.clone().map(|stderr| ShellOutput { exit_code: None, stdout: None, stderr })
        );
        let both = match (code, text.clone()) {
            (Some(exit_code), Some(stdout)) => {
                Some(ShellOutput { exit_code, stdout, stderr: None })
            }
            _ => None,
        };
        assert_eq!(ShellOutput::from_value(&object), both);
        let query = json(&format!("{{\"query\":{sample}}}"));
        assert_eq!(read_search_query(&query), serde_json::from_value::<String>(member).ok());
    }
}
