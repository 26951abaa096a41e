use std::sync::Arc;

use atomcode_coding::conversation::{Message, SessionSnapshot};
use atomcode_coding::error::{
    persistence_fail_close_reason, runtime_prepare_error, runtime_start_prepare_error,
    NativePersistenceError, PrepareFailure, RuntimeError, RuntimeStartError, StoreFailure,
};
use atomcode_coding::event::{
    RewindCatalog, RewindPoint, RuntimeSnapshotReceipt, UndoResult,
};
use atomcode_coding::mode::RewindScope;
use atomcode_coding::phase::RuntimeGeneration;
use atomcode_coding::rewind::{
    after_undo, choose_point, code_rewound, compensated, plan_rewind, RewindNext,
};
use atomcode_coding::undo::{
    compute_runtime_undo, count_prompts, persist_runtime_undo, plan_restore, restore_runtime_undo,
    restore_base, undo_message_count, undo_snapshot_to_prompt, DisplayAnchor, MutationRefusal,
    PresentationEntry, PresentationRole, RestorePlan, SessionRecords, TurnStat,
};

fn conversation() -> Vec<Message> {
    vec![
        Message::system("system"),
        Message::user("first"),
        Message::assistant("answer", Vec::new()),
        Message::user("second"),
        Message::assistant("answer 2", Vec::new()),
    ]
}

#[test]
fn offline_undo_preserves_snapshot_counters_and_truncates_at_selected_prompt() {
    let mut snapshot = SessionSnapshot::new(conversation());
    snapshot.turn_counter = 9;
    snapshot.request_counter = 12;

    let undo = undo_snapshot_to_prompt(&snapshot, Some(2)).unwrap();

    assert_eq!(undo.restored_prompt, "second");
    assert_eq!(undo.prompts_before, 2);
    assert_eq!(undo.snapshot.messages.len(), 3);
    assert_eq!(undo.snapshot.turn_counter, 9);
    assert_eq!(undo.snapshot.request_counter, 12);
}

#[test]
fn undo_without_a_number_takes_the_last_prompt() {
    let mut messages = conversation();
    messages.push(Message::synthetic_user("reminder".into()));
    let plan = compute_runtime_undo(&messages, None).unwrap();
    assert_eq!(plan.restored_prompt, "second");
    assert_eq!(plan.target_n, 2);
    assert_eq!(plan.truncated, conversation()[..3].to_vec());
    assert_eq!(count_prompts(&plan.truncated), 1);
}

#[test]
fn undo_out_of_range_names_what_is_available() {
    let messages = conversation();
    for nth in [0, 3, usize::MAX] {
        assert_eq!(
            compute_runtime_undo(&messages, Some(nth)).unwrap_err(),
            RuntimeError::UndoOutOfRange { requested: nth, available: 2 }
        );
    }
    assert_eq!(
        compute_runtime_undo(&vec![Message::system("s")], None).unwrap_err(),
        RuntimeError::UndoOutOfRange { requested: 0, available: 0 }
    );
}

#[test]
fn uncertain_session_commit_requires_runtime_fail_close() {
    let error = NativePersistenceError::from_store(
        StoreFailure {
            message: "session \"s1\" commit failed (meta fsync failed) and rollback was incomplete: snapshot rollback failed".into(),
            uncertain_commit: true,
        },
        false,
    );
    assert!(error.requires_fail_close());
    assert!(error.message().contains("rollback was incomplete"));
    assert_eq!(persistence_fail_close_reason(&error, None), Some(error.message()));
    let certain_candidate = NativePersistenceError::certain("provider build failed".into());
    let restore_error = NativePersistenceError::certain("rollback write failed".into());
    assert_eq!(
        persistence_fail_close_reason(&certain_candidate, Some(&restore_error)),
        Some("snapshot rollback persistence failed: rollback write failed".into())
    );
    assert_eq!(persistence_fail_close_reason(&certain_candidate, None), None);
    let conflict = NativePersistenceError::from_store(
        StoreFailure { message: "changed".into(), uncertain_commit: true },
        true,
    );
    assert!(conflict.is_snapshot_conflict() && !conflict.requires_fail_close());
}

fn stat(turn_id: u64, after_message: usize, total_tokens: u64) -> TurnStat {
    TurnStat {
        after_message,
        position_valid: true,
        turn_id,
        round_count: 1,
        tool_call_count: 0,
        duration_ms: 10,
        total_tokens,
        errored: false,
        used_tokens: 10,
        ctx_window: 1_000,
        model_usage: String::new(),
    }
}

fn empty_records() -> SessionRecords {
    SessionRecords {
        message_count: 5,
        turn_count: 0,
        turn_stats: vec![],
        updated_at: 1,
        rest: String::new(),
    }
}

fn entry(anchor: DisplayAnchor, text: &str) -> PresentationEntry {
    PresentationEntry { anchor, role: PresentationRole::Assistant, text: text.into() }
}

#[test]
fn native_undo_rollback_merges_concurrent_sidecar_updates() {
    let original_snapshot = SessionSnapshot::new(vec![
        Message::user("first"),
        Message::assistant("first answer", Vec::new()),
        Message::user("second"),
        Message::assistant("second answer", Vec::new()),
    ]);
    let original_stats = vec![
        stat(1, 2, 20),
        TurnStat {
            tool_call_count: 1,
            duration_ms: 30,
            used_tokens: 20,
            model_usage: "[{\"model\":\"m\"}]".into(),
            ..stat(2, 4, 40)
        },
    ];
    let at_start = entry(DisplayAnchor::AtStart, "session header");
    let first_turn = entry(DisplayAnchor::AfterTurn { turn_id: 1 }, "first divider");
    let removed_second_turn = entry(DisplayAnchor::AfterTurn { turn_id: 2 }, "second divider");
    let mut presentation =
        vec![at_start.clone(), first_turn.clone(), removed_second_turn.clone()];
    let mut records = SessionRecords {
        message_count: 4,
        turn_count: 2,
        turn_stats: original_stats.clone(),
        updated_at: 100,
        rest: "{\"name\":\"undo-sidecar-merge\"}".into(),
    };
    let mut truncated = original_snapshot.clone();
    truncated.messages.truncate(2);
    let count = undo_message_count(&truncated).unwrap();

    let receipt = persist_runtime_undo(
        Some(&original_snapshot),
        &original_snapshot,
        &truncated,
        count,
        &mut records,
        &mut presentation,
        200,
    )
    .unwrap();
    assert_eq!(records.turn_stats, vec![original_stats[0].clone()]);
    assert_eq!((records.message_count, records.turn_count, records.updated_at), (2, 1, 200));
    assert_eq!(receipt.archived_turn_stats, vec![original_stats[1].clone()]);
    assert_eq!(presentation, vec![at_start.clone(), first_turn.clone()]);

    let concurrent_rest = "{\"name\":\"renamed while undo rebuilds\",\"ai_named\":true}";
    records.rest = concurrent_rest.into();
    records.updated_at = 1;
    let concurrent_append = PresentationEntry {
        anchor: DisplayAnchor::AfterTurn { turn_id: 1 },
        role: PresentationRole::User,
        text: "appended while undo rebuilds".into(),
    };
    presentation.push(concurrent_append.clone());

    restore_runtime_undo(&truncated, &truncated, receipt, &mut records, &mut presentation, 300)
        .unwrap();
    assert_eq!(records.rest, concurrent_rest);
    assert_eq!((records.message_count, records.turn_count, records.updated_at), (4, 2, 300));
    assert_eq!(records.turn_stats, original_stats);
    assert_eq!(
        presentation,
        vec![at_start, first_turn, removed_second_turn, concurrent_append]
    );

    let second_receipt = persist_runtime_undo(
        Some(&original_snapshot),
        &original_snapshot,
        &truncated,
        count,
        &mut records,
        &mut presentation,
        400,
    )
    .unwrap();
    let concurrently_advanced = SessionSnapshot::new(vec![
        Message::user("concurrent"),
        Message::assistant("newer answer", Vec::new()),
    ]);
    let before = records.clone();
    let refused = restore_runtime_undo(
        &truncated,
        &concurrently_advanced,
        second_receipt,
        &mut records,
        &mut presentation,
        500,
    );
    assert_eq!(refused, Err(MutationRefusal::Conflict));
    assert_eq!(records, before);
}

#[test]
fn undo_keeps_and_compares_what_else_is_stored() {
    let mut snapshot = SessionSnapshot::new(conversation());
    snapshot.rest = "{\"v\":2}".into();
    snapshot.messages[1].rest = "{\"meta\":{\"used_tokens\":7}}".into();
    let undo = undo_snapshot_to_prompt(&snapshot, None).unwrap();
    assert_eq!(undo.snapshot.rest, snapshot.rest);
    assert_eq!(undo.snapshot.messages[1], snapshot.messages[1]);
    let mut other = snapshot.clone();
    other.messages[1].rest.clear();
    let mut records = SessionRecords {
        message_count: 5,
        turn_count: 0,
        turn_stats: vec![],
        updated_at: 1,
        rest: String::new(),
    };
    assert_eq!(
        persist_runtime_undo(
            Some(&snapshot),
            &other,
            &undo.snapshot,
            undo_message_count(&undo.snapshot).unwrap(),
            &mut records,
            &mut vec![],
            2
        ),
        Err(MutationRefusal::Conflict)
    );
}

#[test]
fn native_undo_snapshot_cas_preserves_a_newer_canonical_snapshot() {
    let original = SessionSnapshot::new(conversation());
    let mut newer = original.clone();
    newer.messages.push(Message::user("concurrent prompt"));
    let mut records =
        empty_records();
    let before = records.clone();
    let mut presentation = vec![];
    let truncated = undo_snapshot_to_prompt(&original, None).unwrap().snapshot;
    assert_eq!(
        persist_runtime_undo(
            Some(&original),
            &newer,
            &truncated,
            3,
            &mut records,
            &mut presentation,
            2
        ),
        Err(MutationRefusal::Conflict)
    );
    assert_eq!(records, before);
    assert!(persist_runtime_undo(
        None,
        &newer,
        &truncated,
        3,
        &mut records,
        &mut presentation,
        2
    )
    .is_ok());
}

#[test]
fn turns_without_a_place_are_kept_and_anchor_nothing() {
    let mut lost = stat(7, 99, 1);
    lost.position_valid = false;
    let mut records = SessionRecords {
        message_count: 5,
        turn_count: 2,
        turn_stats: vec![lost, stat(0, 1, 1)],
        updated_at: 0,
        rest: String::new(),
    };
    let snapshot = SessionSnapshot::new(conversation()[..2].to_vec());
    let mut presentation = vec![
        entry(DisplayAnchor::AfterTurn { turn_id: 7 }, "seven"),
        entry(DisplayAnchor::AfterTurn { turn_id: 0 }, "zero"),
    ];
    let sidecars = persist_runtime_undo(
        None,
        &snapshot,
        &snapshot,
        2,
        &mut records,
        &mut presentation,
        1,
    )
    .unwrap();
    assert_eq!(records.turn_count, 2);
    assert!(presentation.is_empty());
    assert_eq!(sidecars.removed_presentation.len(), 2);
    assert_eq!(sidecars.removed_presentation[1].index, 1);
}

#[test]
fn a_restore_needs_the_session_it_belongs_to() {
    assert_eq!(plan_restore(None, false), RestorePlan::Snapshot);
    let sidecars = persist_runtime_undo(
        None,
        &SessionSnapshot::new(vec![]),
        &SessionSnapshot::new(vec![]),
        0,
        &mut empty_records(),
        &mut vec![],
        0,
    )
    .unwrap();
    assert_eq!(
        plan_restore(Some(sidecars.clone()), true),
        RestorePlan::Sidecars(sidecars.clone())
    );
    match plan_restore(Some(sidecars), false) {
        RestorePlan::Lost(error) => assert_eq!(
            error.message,
            "native undo rollback lost its session binding"
        ),
        other => panic!("unexpected plan {other:?}"),
    }
}

fn point(turn_id: u64, prompt_number: usize) -> RewindPoint {
    RewindPoint {
        turn_id,
        prompt_number,
        prompt_preview: "first".into(),
        files: vec!["generated.txt".into()],
    }
}

fn catalog(code_unavailable: Option<&str>) -> RewindCatalog {
    RewindCatalog {
        generation: RuntimeGeneration(3),
        revision: 5,
        points: vec![point(1, 1), point(2, 2)],
        code_unavailable: code_unavailable.map(|reason| reason.to_string()),
    }
}

fn receipt(revision: u64) -> RuntimeSnapshotReceipt {
    let snapshot = Arc::new(SessionSnapshot::new(conversation()));
    RuntimeSnapshotReceipt { snapshot: snapshot.clone(), undo_snapshot: snapshot, revision }
}

#[test]
fn a_rewind_point_is_chosen_from_the_catalog() {
    assert_eq!(choose_point(&catalog(None), 2, RewindScope::Code), Ok(1));
    assert_eq!(
        choose_point(&catalog(None), 9, RewindScope::Code),
        Err(RuntimeError::RewindPointUnavailable { turn_id: 9 })
    );
    assert_eq!(
        choose_point(&catalog(Some("dirty")), 2, RewindScope::ConversationAndCode),
        Err(RuntimeError::CodeRewindUnavailable("dirty".into()))
    );
    assert_eq!(choose_point(&catalog(Some("dirty")), 2, RewindScope::Conversation), Ok(1));
}

#[test]
fn rewind_from_stale_catalog_is_not_reinterpreted_against_live_state() {
    assert_eq!(
        plan_rewind(5, 1, RewindScope::Conversation, &receipt(6)).unwrap_err(),
        RuntimeError::Busy
    );
}

#[test]
fn code_only_rewind_restores_workspace_but_keeps_conversation() {
    let original = receipt(5);
    assert_eq!(plan_rewind(5, 1, RewindScope::Code, &original), Ok(None));
    let result = code_rewound(
        RuntimeGeneration(3),
        point(1, 1),
        original.undo_snapshot.clone(),
        vec!["generated.txt".into()],
    );
    assert_eq!(result.restored_prompt, None);
    assert_eq!(result.restored_files, vec!["generated.txt"]);
    assert_eq!(result.snapshot, original.undo_snapshot);
}

#[test]
fn combined_rewind_restores_workspace_and_conversation() {
    let plan = plan_rewind(5, 2, RewindScope::ConversationAndCode, &receipt(5)).unwrap().unwrap();
    assert_eq!(plan.restored_prompt, "second");
    assert_eq!(plan.snapshot.messages.len(), 3);
    let undo = UndoResult {
        generation: RuntimeGeneration(4),
        snapshot: Arc::new(plan.snapshot),
        restored_prompt: plan.restored_prompt,
        target_n: plan.target_n,
        prompts_before: plan.prompts_before,
    };
    match after_undo(
        RuntimeGeneration(3),
        Ok(undo),
        RewindScope::ConversationAndCode,
        point(2, 2),
        vec!["generated.txt".into()],
    ) {
        RewindNext::Commit { generation, result } => {
            assert_eq!(generation, 4);
            assert_eq!(result.generation, RuntimeGeneration(4));
            assert_eq!(result.restored_prompt.as_deref(), Some("second"));
        }
        other => panic!("unexpected step {other:?}"),
    }
}

#[test]
fn combined_rewind_compensates_workspace_when_agent_rebuild_fails() {
    let error = RuntimeError::ReconfigureFailed("candidate provider failed".into());
    let next = after_undo(
        RuntimeGeneration(3),
        Err(error.clone()),
        RewindScope::ConversationAndCode,
        point(2, 2),
        vec![],
    );
    assert_eq!(next, RewindNext::Compensate { generation: 3, error: error.clone() });
    assert_eq!(compensated(error.clone(), None), error);
    assert_eq!(
        compensated(RuntimeError::Busy, Some(RuntimeError::Unavailable)),
        RuntimeError::ReconfigureFailed(
            "coding runtime is busy; rewind compensation failed: coding runtime is unavailable"
                .into()
        )
    );
}

#[test]
fn session_conflicts_are_told_apart_from_other_failures() {
    let conflict = PrepareFailure::SessionInUse { id: "session-b".into() };
    assert_eq!(
        runtime_prepare_error(conflict.clone()),
        RuntimeError::SessionInUse { id: "session-b".into() }
    );
    assert_eq!(
        runtime_start_prepare_error(conflict),
        RuntimeStartError::SessionInUse { id: "session-b".into() }
    );
    let other = PrepareFailure::Other("not found".into());
    assert_eq!(
        runtime_prepare_error(other.clone()),
        RuntimeError::ReconfigureFailed("not found".into())
    );
    assert_eq!(
        runtime_start_prepare_error(other),
        RuntimeStartError::Prepare("not found".into())
    );
}

#[test]
fn refused_mutations_name_their_cause() {
    assert_eq!(
        MutationRefusal::Conflict.store_error(false),
        ("session mutation conflict", "canonical snapshot changed before undo commit")
    );
    assert_eq!(
        MutationRefusal::Conflict.store_error(true).1,
        "canonical snapshot changed before undo rollback"
    );
    assert_eq!(
        MutationRefusal::TooManyTurns.store_error(false),
        ("session mutation", "turn count exceeds native metadata")
    );
}

#[test]
fn a_restore_replaces_what_is_known_best() {
    let shot = |text: &str| Some(Arc::new(SessionSnapshot::new(vec![Message::user(text)])));
    assert_eq!(restore_base(shot("a"), shot("b"), shot("c")), shot("a"));
    assert_eq!(restore_base(None, shot("b"), shot("c")), shot("b"));
    assert_eq!(restore_base(None, None, shot("c")), shot("c"));
    assert_eq!(restore_base(None, None, None), None);
}
