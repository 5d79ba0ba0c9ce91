use acp_harness::bridge::{
    build_history_meta, build_user_record, check_benign_shutdown, BridgeAction, BridgeEvent,
    BridgePhase, PromptOutcome, SessionBridge,
};
use acp_harness::harness::{AcpAgentHarness, ChildCommand};
use acp_harness::protocol::AcpEvent;

fn json(text: &str) -> serde_json::Value {
    serde_json::from_str(text).unwrap()
}

fn s(text: &str) -> String {
    text.to_string()
}

fn drive_to_prompting(bridge: &mut SessionBridge, acp_id: &str) -> Vec<BridgeAction> {
    bridge.step(BridgeEvent::Launched);
    bridge.step(BridgeEvent::StoreOpened { ok: true });
    bridge.step(BridgeEvent::Initialized);
    bridge.step(BridgeEvent::SessionCreated { session_id: Some(s(acp_id)) })
}

#[test]
fn fresh_session_turn() {
    let mut bridge = AcpAgentHarness::new().bridge(s("hello"));
    assert_eq!(bridge.phase(), BridgePhase::Created);
    assert_eq!(
        bridge.step(BridgeEvent::Launched),
        vec![BridgeAction::OpenStore { namespace: s("gemini_sessions") }]
    );
    assert_eq!(
        bridge.step(BridgeEvent::StoreOpened { ok: true }),
        vec![
            BridgeAction::RecordUserPrompt { prompt: s("hello") },
            BridgeAction::Initialize {
                read_text_file: false,
                write_text_file: false,
                terminal: false
            },
        ]
    );
    assert_eq!(
        bridge.step(BridgeEvent::Initialized),
        vec![BridgeAction::NewSession { meta: None }]
    );
    assert_eq!(
        bridge.step(BridgeEvent::SessionCreated { session_id: Some(s("S1")) }),
        vec![
            BridgeAction::Emit { event: AcpEvent::SessionStart(s("S1")) },
            BridgeAction::StartForwarder { session_id: s("S1") },
            BridgeAction::Persist { session_id: s("S1"), line: s("{\"user\":\"hello\"}") },
            BridgeAction::SendPrompt { session_id: s("S1"), text: s("hello") },
        ]
    );
    assert_eq!(bridge.phase(), BridgePhase::Prompting);
    assert_eq!(bridge.ui_session_id(), "S1");
    assert_eq!(bridge.acp_session_id(), "S1");
    assert_eq!(
        bridge.step(BridgeEvent::PromptFinished {
            outcome: PromptOutcome::Stopped { stop_reason: Some(s("\"end_turn\"")) }
        }),
        vec![
            BridgeAction::Emit { event: AcpEvent::Done(s("\"end_turn\"")) },
            BridgeAction::SignalExit,
            BridgeAction::Cancel { session_id: s("S1") },
            BridgeAction::Shutdown,
        ]
    );
    assert_eq!(bridge.phase(), BridgePhase::Finished);
}

#[test]
fn forked_session() {
    let history = "{\"user\":\"hi\"}\n";
    let mut bridge = AcpAgentHarness::new().follow_up_bridge(s("and now?"), "U0");
    bridge.step(BridgeEvent::Launched);
    bridge.step(BridgeEvent::StoreOpened { ok: true });
    assert_eq!(
        bridge.step_with(BridgeEvent::Initialized, s("U1")),
        vec![
            BridgeAction::ForkSession { existing: s("U0"), new_id: s("U1") },
            BridgeAction::ReadSession { session_id: s("U1") },
        ]
    );
    assert_eq!(bridge.ui_session_id(), "U1");
    let expected_meta = json("{\"history_jsonl\":\"{\\\"user\\\":\\\"hi\\\"}\\n\"}");
    assert_eq!(expected_meta["history_jsonl"].as_str(), Some(history));
    assert_eq!(
        bridge.step(BridgeEvent::HistoryRead { history: Some(s(history)) }),
        vec![BridgeAction::NewSession { meta: Some(expected_meta) }]
    );
    assert_eq!(
        bridge.step(BridgeEvent::SessionCreated { session_id: Some(s("A7")) }),
        vec![BridgeAction::GenerateResumePrompt { session_id: s("U1"), prompt: s("and now?") }]
    );
    assert_eq!(
        bridge.step(BridgeEvent::ResumePrompt { prompt: Some(s("[history] and now?")) }),
        vec![
            BridgeAction::Emit { event: AcpEvent::SessionStart(s("U1")) },
            BridgeAction::StartForwarder { session_id: s("U1") },
            BridgeAction::Persist {
                session_id: s("U1"),
                line: s("{\"user\":\"[history] and now?\"}")
            },
            BridgeAction::SendPrompt { session_id: s("A7"), text: s("[history] and now?") },
        ]
    );
    assert_eq!(bridge.acp_session_id(), "A7");
    assert_eq!(bridge.ui_session_id(), "U1");
}

#[test]
fn fork_draws_a_new_identifier() {
    let mut first = AcpAgentHarness::new().follow_up_bridge(s("p"), "U0");
    first.step(BridgeEvent::Launched);
    first.step(BridgeEvent::StoreOpened { ok: true });
    assert!(first.mints_session_id(&BridgeEvent::Initialized));
    assert!(!first.mints_session_id(&BridgeEvent::Launched));
    let actions = first.step(BridgeEvent::Initialized);
    let minted = first.ui_session_id().to_string();
    assert_eq!(minted.chars().count(), 36);
    assert_ne!(minted, "U0");
    assert_eq!(
        actions,
        vec![
            BridgeAction::ForkSession { existing: s("U0"), new_id: minted.clone() },
            BridgeAction::ReadSession { session_id: minted.clone() },
        ]
    );
    let mut second = AcpAgentHarness::new().follow_up_bridge(s("p"), "U0");
    second.step(BridgeEvent::Launched);
    second.step(BridgeEvent::StoreOpened { ok: true });
    second.step(BridgeEvent::Initialized);
    assert_ne!(second.ui_session_id(), minted);
    let fresh = AcpAgentHarness::new().bridge(s("p"));
    assert!(!fresh.mints_session_id(&BridgeEvent::Initialized));
}

#[test]
fn fork_without_history_or_resume_prompt() {
    let mut bridge = AcpAgentHarness::new().follow_up_bridge(s("p"), "gone");
    bridge.step(BridgeEvent::Launched);
    bridge.step(BridgeEvent::StoreOpened { ok: true });
    bridge.step_with(BridgeEvent::Initialized, s("N"));
    assert_eq!(
        bridge.step(BridgeEvent::HistoryRead { history: None }),
        vec![BridgeAction::NewSession { meta: None }]
    );
    bridge.step(BridgeEvent::SessionCreated { session_id: Some(s("A")) });
    let actions = bridge.step(BridgeEvent::ResumePrompt { prompt: None });
    assert_eq!(actions[0], BridgeAction::Emit { event: AcpEvent::SessionStart(s("N")) });
    assert_eq!(actions[3], BridgeAction::SendPrompt { session_id: s("A"), text: s("p") });
}

#[test]
fn benign_server_shutdown() {
    let mut bridge = AcpAgentHarness::new().bridge(s("p"));
    drive_to_prompting(&mut bridge, "S");
    let actions = bridge.step(BridgeEvent::PromptFinished {
        outcome: PromptOutcome::Failed {
            code: -32603,
            data: Some(json("\"server shut down unexpectedly\"")),
            message: s("Internal error"),
        },
    });
    assert_eq!(
        actions,
        vec![
            BridgeAction::SignalExit,
            BridgeAction::Cancel { session_id: s("S") },
            BridgeAction::Shutdown,
        ]
    );
    assert_eq!(bridge.phase(), BridgePhase::Finished);
}

#[test]
fn other_failures_are_shown() {
    let cases = vec![
        (-32603, None),
        (-32603, Some(json("\"server shut down\""))),
        (-32603, Some(json("{\"reason\":\"server shut down unexpectedly\"}"))),
        (-32000, Some(json("\"server shut down unexpectedly\""))),
        (0, None),
    ];
    for (code, data) in cases {
        assert!(!check_benign_shutdown(code, &data));
        let mut bridge = AcpAgentHarness::new().bridge(s("p"));
        drive_to_prompting(&mut bridge, "S");
        let actions = bridge.step(BridgeEvent::PromptFinished {
            outcome: PromptOutcome::Failed { code, data, message: s("it broke") },
        });
        assert_eq!(
            actions,
            vec![
                BridgeAction::Emit { event: AcpEvent::Error(s("it broke")) },
                BridgeAction::SignalExit,
                BridgeAction::Cancel { session_id: s("S") },
                BridgeAction::Shutdown,
            ]
        );
    }
    assert!(check_benign_shutdown(-32603, &Some(json("\"server shut down unexpectedly\""))));
}

#[test]
fn stop_reason_that_has_no_text_is_empty() {
    let mut bridge = AcpAgentHarness::new().bridge(s("p"));
    drive_to_prompting(&mut bridge, "S");
    let actions = bridge.step(BridgeEvent::PromptFinished {
        outcome: PromptOutcome::Stopped { stop_reason: None },
    });
    assert_eq!(actions[0], BridgeAction::Emit { event: AcpEvent::Done(String::new()) });
}

#[test]
fn failures_before_the_turn_end_it_silently() {
    let mut no_store = AcpAgentHarness::new().bridge(s("p"));
    no_store.step(BridgeEvent::Launched);
    assert_eq!(no_store.step(BridgeEvent::StoreOpened { ok: false }), vec![]);
    assert_eq!(no_store.phase(), BridgePhase::Finished);
    let mut no_session = AcpAgentHarness::new().bridge(s("p"));
    no_session.step(BridgeEvent::Launched);
    no_session.step(BridgeEvent::StoreOpened { ok: true });
    no_session.step(BridgeEvent::Initialized);
    assert_eq!(no_session.step(BridgeEvent::SessionCreated { session_id: None }), vec![]);
    assert_eq!(no_session.phase(), BridgePhase::Finished);
    assert_eq!(no_session.step(BridgeEvent::Launched), vec![]);
    assert_eq!(no_session.phase(), BridgePhase::Finished);
}

#[test]
fn session_start_is_emitted_once_whatever_arrives() {
    let events = || {
        vec![
            BridgeEvent::PromptFinished { outcome: PromptOutcome::Stopped { stop_reason: None } },
            BridgeEvent::Launched,
            BridgeEvent::SessionCreated { session_id: Some(s("early")) },
            BridgeEvent::StoreOpened { ok: true },
            BridgeEvent::Launched,
            BridgeEvent::Initialized,
            BridgeEvent::Initialized,
            BridgeEvent::HistoryRead { history: None },
            BridgeEvent::SessionCreated { session_id: Some(s("S")) },
            BridgeEvent::SessionCreated { session_id: Some(s("T")) },
            BridgeEvent::ResumePrompt { prompt: None },
            BridgeEvent::PromptFinished { outcome: PromptOutcome::Stopped { stop_reason: None } },
            BridgeEvent::SessionCreated { session_id: Some(s("U")) },
            BridgeEvent::PromptFinished { outcome: PromptOutcome::Stopped { stop_reason: None } },
        ]
    };
    let mut bridge = AcpAgentHarness::new().bridge(s("p"));
    let mut actions: Vec<BridgeAction> = Vec::new();
    for event in events() {
        actions.extend(bridge.step(event));
    }
    let starts: Vec<usize> = actions
        .iter()
        .enumerate()
        .filter(|(_, a)| matches!(a, BridgeAction::Emit { event: AcpEvent::SessionStart(_) }))
        .map(|(i, _)| i)
        .collect();
    assert_eq!(starts.len(), 1);
    let first_log = actions
        .iter()
        .position(|a| {
            matches!(a, BridgeAction::StartForwarder { .. })
                || matches!(a, BridgeAction::Emit { event: AcpEvent::Done(_) })
        })
        .unwrap();
    assert!(starts[0] < first_log);
    let exits = actions.iter().filter(|a| matches!(a, BridgeAction::SignalExit)).count();
    assert_eq!(exits, 1);
}

#[test]
fn records_and_meta_are_json() {
    assert_eq!(build_user_record("hi"), "{\"user\":\"hi\"}");
    assert_eq!(build_user_record("a \"b\"\n"), "{\"user\":\"a \\\"b\\\"\\n\"}");
    assert_eq!(build_history_meta(None), None);
    assert_eq!(build_history_meta(Some(s("h"))), Some(json("{\"history_jsonl\":\"h\"}")));
}

#[test]
fn harness_namespaces() {
    assert_eq!(AcpAgentHarness::new().session_namespace(), "gemini_sessions");
    assert_eq!(AcpAgentHarness::default().session_namespace(), "gemini_sessions");
    let qwen = AcpAgentHarness::with_session_namespace("qwen_sessions");
    assert_eq!(qwen.session_namespace(), "qwen_sessions");
    let mut bridge = qwen.bridge(s("p"));
    assert_eq!(
        bridge.step(BridgeEvent::Launched),
        vec![BridgeAction::OpenStore { namespace: s("qwen_sessions") }]
    );
}

#[test]
fn child_is_a_shell_with_the_command() {
    let command = AcpAgentHarness::new().child_command("sh", "-c", s("npx agent --acp"));
    assert_eq!(
        command,
        ChildCommand {
            program: s("sh"),
            args: vec![s("-c"), s("npx agent --acp")],
            env: vec![(s("NODE_NO_WARNINGS"), s("1"))],
            kill_on_drop: true,
            piped_stdio: true,
        }
    );
}
