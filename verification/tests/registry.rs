use std::sync::Arc;

use atomcode_coding::conversation::{Message, SessionSnapshot};
use atomcode_coding::event::{
    AgentEvent, CodingRuntimeEvent, RuntimeRequest, RuntimeSnapshotError, RuntimeTurnStats,
    StopReason, ToolResult, TurnCompletion, UserInput,
};
use atomcode_coding::phase::{RuntimeExit, RuntimeExitReason};
use atomcode_coding::session_runtime_registry::{
    activity_from_runtime_event, clip_key, consecutive_runtime_key,
    OpenOutcome, RegistryError, RuntimeActivity, SessionRuntimeRegistry, SessionViewEvent,
    JOURNAL_CAP, MAX_LIVE_SESSIONS,
};

const USER_INPUT: &str = "request_user_input";

fn opened(ids: &[&str]) -> SessionRuntimeRegistry {
    let mut reg = SessionRuntimeRegistry::new();
    for id in ids {
        reg.open_or_attach((*id).into(), "/p".into()).unwrap();
    }
    reg
}

fn delta(text: &str) -> CodingRuntimeEvent {
    CodingRuntimeEvent::Agent(AgentEvent::TextDelta(text.into()))
}

#[test]
fn open_or_attach_is_idempotent_per_session() {
    let mut reg = SessionRuntimeRegistry::new();
    let (o1, e1) = reg.open_or_attach("s1".into(), "/proj".into()).unwrap();
    assert_eq!(o1, OpenOutcome::Registered);
    let (o2, e2) = reg.open_or_attach("s1".into(), "/proj".into()).unwrap();
    assert_eq!(o2, OpenOutcome::Attached);
    assert_eq!(e1.session_id, e2.session_id);
    assert_eq!(reg.live_count(), 1);
}

#[test]
fn list_activity_scopes_by_working_dir() {
    let mut reg = SessionRuntimeRegistry::new();
    reg.open_or_attach("a".into(), "/p1".into()).unwrap();
    reg.open_or_attach("b".into(), "/p2".into()).unwrap();
    let p1 = reg.list_activity("/p1");
    assert_eq!(p1.len(), 1);
    assert_eq!(p1[0].0, "a");
    assert_eq!(reg.list_all().len(), 2);
}

#[test]
fn select_semantics_do_not_require_reconfigure() {
    let mut reg = opened(&["a", "b"]);
    assert!(reg.set_activity("a", RuntimeActivity::Running).is_some());
    assert_eq!(reg.activity("a"), Some(RuntimeActivity::Running));
    assert_eq!(reg.activity("b"), Some(RuntimeActivity::Starting));
    assert!(reg.activity("a").unwrap().is_busy());
    assert_eq!(reg.activity("c"), None);
}

#[test]
fn retain_sessions_drops_idle_stale_only() {
    let mut reg = opened(&["keep", "drop", "busy"]);
    reg.bind_handle("drop", Some(4));
    reg.set_activity("drop", RuntimeActivity::Ready);
    reg.set_activity("keep", RuntimeActivity::Running);
    reg.set_activity("busy", RuntimeActivity::Running);
    assert_eq!(reg.retain_sessions(&vec!["keep".into()]), vec!["drop".to_string()]);
    assert!(reg.lookup("keep").is_some());
    assert!(reg.lookup("drop").is_none());
    assert!(reg.lookup("busy").is_some());
}

#[test]
fn subscribe_replays_journal_after_sequence() {
    let mut reg = opened(&["s"]);
    reg.set_activity("s", RuntimeActivity::Ready);
    reg.set_activity("s", RuntimeActivity::Running);
    let replay = reg.subscribe("s", Some(0)).unwrap();
    assert_eq!(replay.len(), 1);
    assert!(replay.iter().any(|e| e.activity == RuntimeActivity::Running));
    assert_eq!(reg.subscribe("s", None).unwrap().len(), 2);
    assert_eq!(
        reg.subscribe("t", None),
        Err(RegistryError::UnknownSession { session_id: "t".into() })
    );
    assert_eq!(reg.subscribe_or_empty("t", "/p".into(), None).unwrap().len(), 0);
    assert_eq!(reg.live_count(), 2);
    assert_eq!(reg.subscribe_or_empty("s", "/p".into(), Some(0)).unwrap().len(), 1);
}

#[test]
fn turn_finished_clears_delta_journal_so_reconnect_does_not_duplicate() {
    let mut reg = opened(&["s"]);
    assert!(reg.push_runtime_event("s", 1, delta("hi"), USER_INPUT).is_some());
    assert!(reg
        .push_runtime_event(
            "s",
            1,
            CodingRuntimeEvent::TurnFinished(TurnCompletion::SnapshotUnavailable {
                turn_id: 1,
                reason: StopReason::Stopped,
                error: RuntimeSnapshotError { message: "done".into() },
                stats: RuntimeTurnStats::default(),
            }),
            USER_INPUT,
        )
        .is_some());
    let replay = reg.subscribe("s", None).unwrap();
    assert!(replay.iter().all(|event| !matches!(
        event.runtime,
        Some(CodingRuntimeEvent::Agent(AgentEvent::TextDelta(_)))
    )));
    assert!(replay
        .iter()
        .any(|event| matches!(event.runtime, Some(CodingRuntimeEvent::TurnFinished(_)))));
    assert!(reg.push_runtime_event("s", 1, delta("hi"), USER_INPUT).is_some());
}

#[test]
fn push_runtime_event_fans_out_text_delta_to_subscribers() {
    let mut reg = opened(&["s"]);
    assert!(reg.subscribe("s", None).unwrap().is_empty());
    let got = reg.push_runtime_event("s", 1, delta("hi"), USER_INPUT).expect("fan-out");
    assert_eq!(got.runtime, Some(delta("hi")));
    assert_eq!(got.activity, RuntimeActivity::Running);
    assert_eq!((got.session_id.as_str(), got.generation, got.sequence), ("s", 1, 0));
    assert!(reg.push_runtime_event("t", 1, delta("hi"), USER_INPUT).is_none());
}

#[test]
fn push_runtime_event_drops_consecutive_duplicate_agent_observations() {
    let mut reg = opened(&["s"]);
    assert!(reg.push_runtime_event("s", 1, delta("正在查看 grok-build"), USER_INPUT).is_some());
    assert!(reg.push_runtime_event("s", 1, delta("正在查看 grok-build"), USER_INPUT).is_none());
    assert_eq!(reg.subscribe("s", None).unwrap().len(), 1);
    assert!(reg.push_runtime_event("s", 1, delta("下一句"), USER_INPUT).is_some());
}

#[test]
fn push_runtime_event_breaks_alternating_observer_echo() {
    let mut reg = opened(&["s"]);
    assert!(reg.push_runtime_event("s", 1, delta("正在查看并发与锁"), USER_INPUT).is_some());
    assert!(reg.push_runtime_event("s", 1, delta("正在查看 FileOperationLockManager"), USER_INPUT).is_some());
    assert!(reg.push_runtime_event("s", 1, delta("正在查看并发与锁"), USER_INPUT).is_none());
    assert!(reg.push_runtime_event("s", 1, delta("正在查看 FileOperationLockManager"), USER_INPUT).is_none());
}

#[test]
fn push_view_event_fans_out_input_accepted() {
    let mut reg = opened(&["s"]);
    let got = reg
        .push_view_event(
            "s",
            SessionViewEvent::InputAccepted {
                input: UserInput::from("hello"),
                client_input_id: Some("c1".into()),
            },
        )
        .expect("view fan-out");
    match &got.view {
        Some(SessionViewEvent::InputAccepted { input, client_input_id }) => {
            assert_eq!(input.text, "hello");
            assert_eq!(client_input_id.as_deref(), Some("c1"));
        }
        other => panic!("expected InputAccepted, got {other:?}"),
    }
    assert_eq!(got.activity, RuntimeActivity::Running);
    let shown = reg.push_view_event("s", SessionViewEvent::CommandOutput("x".into())).unwrap();
    assert_eq!(shown.activity, RuntimeActivity::Running);
}

#[test]
fn view_only_rows_are_not_live_turns() {
    assert!(!RuntimeActivity::Starting.is_live_turn());
    assert!(!RuntimeActivity::Ready.is_live_turn());
    assert!(!RuntimeActivity::Reconfiguring.is_live_turn());
    assert!(RuntimeActivity::Running.is_live_turn());
    assert!(RuntimeActivity::WaitingApproval.is_live_turn());
    assert!(RuntimeActivity::WaitingUserInput.is_live_turn());

    let mut reg = SessionRuntimeRegistry::new();
    reg.open_or_attach("a".into(), "/p".into()).unwrap();
    assert!(reg.live_turn_session_ids().is_empty());
    reg.set_activity("a", RuntimeActivity::Running);
    assert!(reg.live_turn_session_ids().is_empty());
    reg.bind_handle("a", None);
    assert_eq!(reg.live_turn_session_ids(), vec!["a".to_string()]);
}

#[test]
fn request_user_input_activity_is_not_approval() {
    let request = |kind: &str| {
        CodingRuntimeEvent::Request(RuntimeRequest {
            id: 1,
            kind: kind.into(),
            payload: "{}".into(),
            snapshot: None,
        })
    };
    assert_eq!(
        activity_from_runtime_event(&request(USER_INPUT), RuntimeActivity::Running, USER_INPUT),
        RuntimeActivity::WaitingUserInput
    );
    assert_eq!(
        activity_from_runtime_event(&request("approval"), RuntimeActivity::Running, USER_INPUT),
        RuntimeActivity::WaitingApproval
    );
}

#[test]
fn activities_follow_the_runtime() {
    let exit = RuntimeExit { reason: RuntimeExitReason::OwnerStopped, forced: false };
    assert_eq!(
        activity_from_runtime_event(
            &CodingRuntimeEvent::RuntimeStopped(exit),
            RuntimeActivity::Running,
            USER_INPUT
        ),
        RuntimeActivity::Stopped
    );
    assert_eq!(
        activity_from_runtime_event(
            &CodingRuntimeEvent::ControllerWarning("w".into()),
            RuntimeActivity::Failed,
            USER_INPUT
        ),
        RuntimeActivity::Failed
    );
    assert_eq!(
        activity_from_runtime_event(
            &CodingRuntimeEvent::Agent(AgentEvent::Other("x".into())),
            RuntimeActivity::Ready,
            USER_INPUT
        ),
        RuntimeActivity::Ready
    );
}

#[test]
fn the_cap_on_live_sessions_holds() {
    let mut reg = SessionRuntimeRegistry::new();
    for i in 0..MAX_LIVE_SESSIONS {
        reg.open_or_attach(format!("s{i}"), "/p".into()).unwrap();
    }
    let error = reg.open_or_attach("one more".into(), "/p".into()).unwrap_err();
    assert_eq!(error, RegistryError::LiveLimit { max: 32 });
    assert_eq!(error.message(), "too many live sessions (max 32)");
    assert!(reg.open_or_attach("s3".into(), "/p".into()).is_ok());
    let view = SessionViewEvent::CommandOutput("x".into());
    assert!(reg.ensure_and_push_view("one more".into(), "/p".into(), view.clone()).is_none());
    assert!(reg.ensure_and_push_view("s4".into(), "/p".into(), view).is_some());
}

#[test]
fn the_journal_is_a_ring() {
    let mut reg = opened(&["s"]);
    for _ in 0..JOURNAL_CAP + 3 {
        reg.set_activity("s", RuntimeActivity::Running);
    }
    let replay = reg.subscribe("s", None).unwrap();
    assert_eq!(replay.len(), JOURNAL_CAP);
    assert_eq!(replay[0].sequence, 3);
}

#[test]
fn binding_wakes_a_starting_session() {
    let mut reg = opened(&["s"]);
    let (known, entry) = reg.bind_handle("s", Some(9));
    assert!(known);
    assert_eq!(entry.unwrap().activity, RuntimeActivity::Ready);
    assert_eq!(reg.session_id_for_runtime_id(9).as_deref(), Some("s"));
    assert_eq!(reg.session_id_for_runtime_id(8), None);
    assert!(reg.push_runtime_event_by_runtime_id(9, 5, delta("x"), USER_INPUT).is_some());
    assert!(reg.push_runtime_event_by_runtime_id(8, 5, delta("x"), USER_INPUT).is_none());
    assert_eq!(reg.lookup("s").unwrap().generation, 5);
    assert!(!reg.bind_handle("t", None).0);
    reg.set_activity("s", RuntimeActivity::Running);
    assert!(reg.bind_handle("s", None).1.is_none());
}

#[test]
fn commands_are_routed_to_bound_runners() {
    let mut reg = opened(&["s"]);
    assert_eq!(
        reg.submit("t", true),
        Err(RegistryError::UnknownSession { session_id: "t".into() })
    );
    let error = reg.submit("s", true).unwrap_err();
    assert_eq!(error, RegistryError::HandleNotReady { session_id: "s".into() });
    assert_eq!(error.message(), "session s runtime handle is not ready");
    reg.bind_handle("s", None);
    assert_eq!(
        reg.submit("s", false),
        Err(RegistryError::Unavailable { session_id: "s".into() })
    );
    assert_eq!(reg.activity("s"), Some(RuntimeActivity::Ready));
    let entry = reg.submit("s", true).unwrap().unwrap();
    assert_eq!(entry.activity, RuntimeActivity::Running);
    assert_eq!(reg.subscribe("s", None).unwrap().last(), Some(&entry));
    assert_eq!(reg.activity("s"), Some(RuntimeActivity::Running));
    assert_eq!(reg.dispatch("s", true), Ok(()));
    assert_eq!(reg.route("s"), Ok(()));
}

#[test]
fn requests_are_pending_until_answered() {
    let mut reg = opened(&["s"]);
    reg.bind_handle("s", None);
    let request = CodingRuntimeEvent::Request(RuntimeRequest {
        id: 42,
        kind: "tool_approval".into(),
        payload: "{}".into(),
        snapshot: None,
    });
    reg.push_runtime_event("s", 0, request, USER_INPUT);
    assert_eq!(reg.pending_request_id("s"), Some(42));
    assert_eq!(reg.lookup("s").unwrap().generation, 1);
    assert_eq!(reg.resolve_request("s", 41, true), Ok(()));
    assert_eq!(reg.pending_request_id("s"), Some(42));
    assert_eq!(reg.resolve_request("s", 42, true), Ok(()));
    assert_eq!(reg.pending_request_id("s"), None);
    assert!(reg.set_pending_request("s", Some(7)).1.is_some());
    assert_eq!(reg.activity("s"), Some(RuntimeActivity::WaitingApproval));
    let resolved = SessionViewEvent::RequestResolved { request_id: 7, kind: "k".into() };
    reg.push_view_event("s", resolved);
    assert_eq!(reg.pending_request_id("s"), None);
    assert_eq!(reg.set_pending_request("s", None), (true, None));
}

#[test]
fn snapshots_follow_completed_turns() {
    let mut reg = opened(&["s"]);
    let first = Arc::new(SessionSnapshot::new(vec![Message::user("a")]));
    assert!(reg.set_snapshot("s", first.clone()));
    assert!(!reg.set_snapshot("t", first.clone()));
    assert_eq!(reg.snapshot("s"), Some(first));
    let second = Arc::new(SessionSnapshot::new(vec![Message::user("b")]));
    reg.push_runtime_event(
        "s",
        1,
        CodingRuntimeEvent::TurnFinished(TurnCompletion::Completed {
            turn_id: 1,
            reason: StopReason::Stopped,
            snapshot: second.clone(),
            stats: RuntimeTurnStats::default(),
        }),
        USER_INPUT,
    );
    assert_eq!(reg.snapshot("s"), Some(second));
    assert_eq!(reg.activity("s"), Some(RuntimeActivity::Ready));
}

#[test]
fn only_idle_sessions_are_released() {
    let mut reg = opened(&["idle", "busy"]);
    reg.set_activity("busy", RuntimeActivity::Running);
    reg.bind_handle("idle", None);
    assert!(!reg.release_if_idle("busy").removed);
    let removal = reg.release_if_idle("idle");
    assert!(removal.removed && removal.shut_down);
    let forced = reg.force_remove("busy");
    assert!(forced.removed && !forced.shut_down);
    assert!(!reg.force_remove("busy").removed);
    reg.open_or_attach("x".into(), "/p".into()).unwrap();
    assert!(reg.detach("x"));
    assert!(!reg.detach("x"));
    reg.open_or_attach("y".into(), "/p".into()).unwrap();
    reg.open_or_attach("z".into(), "/p".into()).unwrap();
    reg.bind_handle("z", None);
    assert_eq!(reg.shutdown_all(), vec!["z".to_string()]);
    assert_eq!(reg.live_count(), 0);
}

#[test]
fn fingerprints_cut_long_texts() {
    assert_eq!(clip_key("td:", "short"), "td:short");
    let long = "é".repeat(200);
    assert_eq!(clip_key("", &long), format!("{}…", "é".repeat(192)));
    assert_eq!(clip_key("", &"é".repeat(192)), "é".repeat(192));
    let result = ToolResult { call_id: "c".into(), content: "out".into(), is_error: false };
    assert_eq!(
        consecutive_runtime_key(&CodingRuntimeEvent::Agent(AgentEvent::ToolResult { result }))
            .as_deref(),
        Some("tr:c:out")
    );
    assert_eq!(
        consecutive_runtime_key(&CodingRuntimeEvent::Agent(AgentEvent::TurnStarted)),
        None
    );
}

#[test]
fn replays_have_no_gaps() {
    let mut reg = opened(&["s"]);
    for activity in [RuntimeActivity::Ready, RuntimeActivity::Running, RuntimeActivity::Ready] {
        reg.set_activity("s", activity);
    }
    let all = reg.subscribe("s", None).unwrap();
    let numbers: Vec<u64> = all.iter().map(|entry| entry.sequence).collect();
    assert_eq!(numbers, vec![0, 1, 2]);
    assert_eq!(reg.subscribe("s", Some(0)).unwrap(), all[1..].to_vec());
    assert!(reg.subscribe("s", Some(2)).unwrap().is_empty());
}

#[test]
fn directories_are_compared_by_components() {
    let mut reg = SessionRuntimeRegistry::new();
    reg.open_or_attach("a".into(), "/p1".into()).unwrap();
    reg.open_or_attach("b".into(), "/p1/x/../y".into()).unwrap();
    for same in ["/p1", "/p1/", "//p1", "/p1/.", "/./p1//"] {
        assert_eq!(reg.list_activity(same), vec![("a".into(), RuntimeActivity::Starting)]);
    }
    for other in ["p1", "./p1", "/p1/y", "/", ""] {
        assert!(reg.list_activity(other).is_empty(), "{other}");
    }
    assert_eq!(reg.list_activity("/p1/x/..//y/").len(), 1);
}

#[test]
fn picked_sessions_are_listed_in_order() {
    let reg = opened(&["a", "b", "c"]);
    let listed = reg.list_picked(&vec![true, false, true]);
    assert_eq!(
        listed,
        vec![
            ("a".into(), RuntimeActivity::Starting),
            ("c".into(), RuntimeActivity::Starting),
        ]
    );
}
