use atomcode_coding::compaction::{
    compact_snapshot, compaction_window, snapshot_mutation, CompactTrigger, CompactionCompletion,
    CompactionInterruption, CompactionOutcome, CompactionPlanSpan, CompactionReport,
    CompactionTracker, SnapshotCompactionMutation,
};
use atomcode_coding::conversation::Message;

fn manual(focus: Option<&str>) -> CompactTrigger {
    CompactTrigger::Manual { focus: focus.map(|f| f.to_string()) }
}

#[test]
fn outcome_scales_observed_usage_by_byte_ratio() {
    let outcome = CompactionOutcome::from_kernel(
        CompactTrigger::Auto { utilization_bits: 0.8f64.to_bits() },
        2,
        129,
        170_000,
        44_000,
        true,
        Some(42_900),
    );

    assert_eq!(outcome.estimated_tokens_after, 11_103);
    assert!(!outcome.is_manual());
    assert!(!outcome.summary_would_grow());
}

#[test]
fn outcome_falls_back_to_bytes_when_usage_is_missing() {
    let outcome = CompactionOutcome::from_kernel(manual(None), 1, 3, 40_000, 20_000, true, None);

    assert_eq!(
        (outcome.estimated_tokens_before, outcome.estimated_tokens_after),
        (10_000, 5_000)
    );
}

#[test]
fn outcome_keeps_usage_when_input_bytes_are_zero() {
    let outcome = CompactionOutcome::from_kernel(manual(None), 0, 0, 0, 0, false, Some(5_000));

    assert_eq!(outcome.estimated_tokens_after, 5_000);
}

#[test]
fn zero_usage_counts_as_missing() {
    let outcome = CompactionOutcome::from_kernel(manual(None), 0, 0, 8, 80, false, Some(0));
    assert_eq!((outcome.estimated_tokens_before, outcome.estimated_tokens_after), (2, 20));
    assert!(outcome.summary_would_grow());
}

#[test]
fn completions_know_their_trigger() {
    let interrupted = CompactionCompletion::Interrupted {
        trigger: manual(Some("f")),
        reason: CompactionInterruption::RuntimeShutdown,
    };
    assert!(interrupted.is_manual());
    assert_eq!(interrupted.trigger(), &manual(Some("f")));
    let completed = CompactionCompletion::Completed(CompactionOutcome::from_kernel(
        CompactTrigger::Overflow { attempt: 1 },
        0,
        0,
        0,
        0,
        false,
        None,
    ));
    assert!(!completed.is_manual());
}

#[test]
fn plans_are_clamped_to_the_conversation() {
    let plan = |from, to, has_summary| CompactionPlanSpan {
        drain_from: from,
        drain_to: to,
        has_summary,
    };
    assert_eq!(
        snapshot_mutation(10, 2, plan(0, 6, true)),
        SnapshotCompactionMutation::Replace { old_start: 2, old_end: 6, new_end: 3 }
    );
    assert_eq!(
        snapshot_mutation(10, 2, plan(4, 99, false)),
        SnapshotCompactionMutation::Replace { old_start: 4, old_end: 10, new_end: 4 }
    );
    assert_eq!(
        snapshot_mutation(10, 2, plan(5, 5, false)),
        SnapshotCompactionMutation::RewriteOnly
    );
    assert_eq!(
        snapshot_mutation(3, 50, plan(9, 0, true)),
        SnapshotCompactionMutation::Replace { old_start: 3, old_end: 0, new_end: 4 }
    );
}

#[test]
fn an_uncommitted_plan_changes_nothing() {
    let plan = CompactionPlanSpan { drain_from: 1, drain_to: 4, has_summary: true };
    let mut report = CompactionReport {
        epoch_after: 1,
        removed: 3,
        bytes_before: 400,
        bytes_after: 100,
        committed: true,
    };
    let messages = vec![Message::system("persona")];
    let result = compact_snapshot(6, 1, plan, report, 1_000, Some("f".into()), messages.clone());
    assert_eq!(
        result.mutation,
        SnapshotCompactionMutation::Replace { old_start: 1, old_end: 4, new_end: 2 }
    );
    assert_eq!(result.outcome.estimated_tokens_after, 250);
    assert_eq!(result.messages, messages);
    report.committed = false;
    let refused = compact_snapshot(6, 1, plan, report, 0, None, messages);
    assert_eq!(refused.mutation, SnapshotCompactionMutation::Noop);
    assert_eq!(refused.outcome.estimated_tokens_before, 100);
    assert_eq!(compaction_window(0, 7), 7);
    assert_eq!(compaction_window(5, 7), 5);
}

#[test]
fn flights_are_booked_per_trigger() {
    let mut tracker = CompactionTracker::new();
    tracker.accepted_manual(manual(Some("a")));
    tracker.accepted_manual(manual(Some("b")));
    tracker.started(&manual(Some("b")));
    assert!(!tracker.manual[0].started && tracker.manual[1].started);
    tracker.started(&manual(Some("b")));
    assert_eq!(tracker.manual.len(), 3);
    tracker.finished(&manual(Some("b")));
    tracker.finished(&manual(Some("never accepted")));
    assert_eq!(tracker.manual.len(), 2);
    let auto_trigger = CompactTrigger::Auto { utilization_bits: 1 };
    tracker.started(&auto_trigger);
    assert_eq!(
        tracker.take_open(),
        vec![manual(Some("a")), manual(Some("b")), auto_trigger]
    );
    assert!(!tracker.is_active());
    tracker.started(&CompactTrigger::Overflow { attempt: 0 });
    assert!(tracker.is_active());
    tracker.finished(&CompactTrigger::Auto { utilization_bits: 9 });
    assert!(!tracker.is_active());
}
