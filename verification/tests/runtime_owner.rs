use std::sync::Arc;

use atomcode_coding::compaction::{
    CompactTrigger, CompactionCheckpointError, CompactionCompletion, CompactionInterruption,
};
use atomcode_coding::config::CodingAgentConfig;
use atomcode_coding::control::{
    compact, runtime_phase_accepts_command, CodingRuntimeControl, DriverCommand,
};
use atomcode_coding::controllers::{GoalResult, GoalTerminal, WakeupRequest};
use atomcode_coding::conversation::{Message, SessionSnapshot, ToolCall};
use atomcode_coding::error::{
    NativePersistenceError, ProviderBuildError, RuntimeError, RuntimeUnavailable,
};
use atomcode_coding::event::{
    AgentCommand, AgentEvent, CodingRuntimeEvent, GenerationTaggedRuntimeEvent, ImageContent,
    LocalContextInput, MessageMeta, ProviderBootstrap, ReconfigureKind, ReplyValue, RewindPoint,
    RuntimeTurnStats, StopReason, SubmitReceipt, TokenUsage, TurnCompletion, UserInput,
    VisionNotice,
};
use atomcode_coding::goal_evaluator::{evaluator_step, EvaluatorStep};
use atomcode_coding::mode::RuntimeMode;
use atomcode_coding::owner::controls::{
    RewindBeginFailure, RewindFinalization, RewindFinishFailure, RewindLedger,
};
use atomcode_coding::owner::events::EventFacts;
use atomcode_coding::owner::goals::EvalOutcome;
use atomcode_coding::owner::reconfigure::{DeactivateStart, Rollback};
use atomcode_coding::owner::stopping::StopReport;
use atomcode_coding::owner::{LostCommand, OwnerAction, RuntimeOwner};
use atomcode_coding::phase::{
    runtime_phase_state, ProviderUnavailableReason, RuntimeExitReason, RuntimeGeneration, RuntimePhase, RuntimeStatus,
};
use atomcode_coding::start::{initial_phase, provider_gap, shutdown_answer, EventSequencer};

fn native() -> RuntimeOwner {
    RuntimeOwner::new(true, RuntimePhase::Ready, None, true, true, false)
}

fn facts() -> EventFacts {
    EventFacts {
        doubt: None,
        cost_warning: None,
        elapsed_nanos: 0,
        stored: None,
        naming_enabled: false,
        goal_cap: None,
        max_unproductive: 3,
    }
}

fn manual(focus: Option<&str>) -> CompactTrigger {
    CompactTrigger::Manual { focus: focus.map(|f| f.to_string()) }
}

fn compacted(focus: Option<&str>, snapshot: Option<Arc<SessionSnapshot>>) -> AgentEvent {
    AgentEvent::Compacted {
        trigger: manual(focus),
        epoch: 1,
        removed: 2,
        bytes_before: 100,
        bytes_after: 50,
        committed: true,
        snapshot,
    }
}

fn shot(text: &str) -> Arc<SessionSnapshot> {
    Arc::new(SessionSnapshot::new(vec![Message::assistant(text, vec![])]))
}

fn submit(owner: &mut RuntimeOwner, text: &str) -> SubmitReceipt {
    let turn = owner.begin_submit(owner.generation, UserInput::from(text)).unwrap();
    owner.finish_submit(turn.receipt, turn.input, None).unwrap()
}

fn finish_turn(owner: &mut RuntimeOwner, reason: StopReason, facts: &EventFacts) {
    owner.on_agent_event(AgentEvent::TurnComplete { reason }, facts);
    owner.on_agent_event(AgentEvent::Snapshot { snapshot: shot("done") }, facts);
}

fn events(owner: &mut RuntimeOwner) -> Vec<CodingRuntimeEvent> {
    owner
        .take_actions()
        .into_iter()
        .filter_map(|action| match action {
            OwnerAction::Emit { event, .. } => Some(event),
            _ => None,
        })
        .collect()
}

fn commands(owner: &mut RuntimeOwner) -> Vec<AgentCommand> {
    owner
        .take_actions()
        .into_iter()
        .filter_map(|action| match action {
            OwnerAction::Send(command) => Some(command),
            _ => None,
        })
        .collect()
}

fn terminals(events: &[CodingRuntimeEvent]) -> Vec<(u64, StopReason, bool)> {
    events
        .iter()
        .filter_map(|event| match event {
            CodingRuntimeEvent::TurnFinished(TurnCompletion::Completed {
                turn_id, reason, ..
            }) => Some((*turn_id, *reason, true)),
            CodingRuntimeEvent::TurnFinished(TurnCompletion::SnapshotUnavailable {
                turn_id,
                reason,
                ..
            }) => Some((*turn_id, *reason, false)),
            _ => None,
        })
        .collect()
}

fn goal_ends(events: &[CodingRuntimeEvent]) -> Vec<(Option<GoalTerminal>, String)> {
    events
        .iter()
        .filter_map(|event| match event {
            CodingRuntimeEvent::GoalChanged(progress) if !progress.active => Some((
                progress.terminal,
                progress.last_reason.clone().unwrap_or_default(),
            )),
            _ => None,
        })
        .collect()
}

fn loop_ends(events: &[CodingRuntimeEvent]) -> Vec<String> {
    events
        .iter()
        .filter_map(|event| match event {
            CodingRuntimeEvent::LoopChanged(progress) if !progress.active => {
                Some(progress.last_reason.clone().unwrap_or_default())
            }
            _ => None,
        })
        .collect()
}

fn errors(events: &[CodingRuntimeEvent]) -> Vec<String> {
    events
        .iter()
        .filter_map(|event| match event {
            CodingRuntimeEvent::Agent(AgentEvent::Error { message, .. }) => Some(message.clone()),
            _ => None,
        })
        .collect()
}

fn interruptions(events: &[CodingRuntimeEvent]) -> Vec<(CompactTrigger, CompactionInterruption)> {
    events
        .iter()
        .filter_map(|event| match event {
            CodingRuntimeEvent::CompactionFinished {
                completion: CompactionCompletion::Interrupted { trigger, reason },
            } => Some((trigger.clone(), *reason)),
            _ => None,
        })
        .collect()
}

fn evaluated(owner: &RuntimeOwner, result: GoalResult) -> EvalOutcome {
    EvalOutcome {
        generation: owner.generation,
        controller_id: owner.next_controller_id,
        result,
        usage: Some(TokenUsage { prompt: 7, completion: 3, cached: 0 }),
    }
}

fn wakeup(delay_seconds: u32) -> WakeupRequest {
    WakeupRequest { delay_seconds, reason: "wait for CI".into(), prompt: "check CI".into() }
}

#[test]
fn goal_and_loop_are_mutually_exclusive_runtime_controllers() {
    let mut owner = native();
    owner.start_goal(0, "tests pass".into()).unwrap();
    let started = events(&mut owner);
    assert!(matches!(&started[0],
        CodingRuntimeEvent::GoalChanged(p) if p.active && p.condition == "tests pass"));
    owner.start_loop(0, "watch CI".into()).unwrap();
    let replaced = events(&mut owner);
    assert_eq!(
        goal_ends(&replaced),
        vec![(Some(GoalTerminal::Failed), "superseded by /loop".to_string())]
    );
    assert!(matches!(&replaced[1],
        CodingRuntimeEvent::LoopChanged(p) if p.active && p.label == "watch CI"));
    assert!(owner.goal.is_none() && owner.loop_active);
    owner.stop_loop(0).unwrap();
    assert_eq!(loop_ends(&events(&mut owner)), vec!["cleared by user"]);
    assert!(!owner.loop_active);
}

#[test]
fn native_turn_steers_and_finishes_only_after_real_snapshot() {
    let mut owner = native();
    assert_eq!(
        submit(&mut owner, "first"),
        SubmitReceipt::Started { generation: 0, turn_id: 1 }
    );
    assert_eq!(
        submit(&mut owner, "steer"),
        SubmitReceipt::Steered { generation: 0, turn_id: 1 }
    );
    let sent = commands(&mut owner);
    assert!(matches!(&sent[0], AgentCommand::SendMessage { text, .. } if text == "first"));
    assert!(matches!(&sent[1], AgentCommand::SendMessage { text, .. } if text == "steer"));

    owner.on_agent_event(AgentEvent::TurnStarted, &facts());
    let mut late = facts();
    late.elapsed_nanos = 5;
    owner.on_agent_event(AgentEvent::TurnComplete { reason: StopReason::Stopped }, &late);
    let actions = owner.take_actions();
    assert_eq!(
        actions,
        vec![
            OwnerAction::Emit {
                generation: 0,
                event: CodingRuntimeEvent::Agent(AgentEvent::TurnStarted),
            },
            OwnerAction::Send(AgentCommand::Snapshot),
        ]
    );
    assert_eq!(owner.status(), RuntimeStatus { generation: 0, phase: RuntimePhase::InTurn });

    let expected = Arc::new(SessionSnapshot::new(vec![Message::user("persisted")]));
    owner.on_agent_event(AgentEvent::Snapshot { snapshot: expected.clone() }, &facts());
    let finished = events(&mut owner);
    match &finished[0] {
        CodingRuntimeEvent::TurnFinished(TurnCompletion::Completed {
            turn_id,
            reason,
            snapshot,
            stats,
        }) => {
            assert_eq!((*turn_id, *reason), (1, StopReason::Stopped));
            assert_eq!(snapshot, &expected);
            assert_eq!(stats.duration_nanos, 5);
        }
        other => panic!("unexpected event {other:?}"),
    }
    assert_eq!(owner.phase, RuntimePhase::Ready);
    assert_eq!(owner.conversation_revision, 1);
}

#[test]
fn native_turn_gets_terminal_when_kernel_event_stream_closes_early() {
    let mut owner = native();
    submit(&mut owner, "accepted");
    let _ = owner.take_actions();
    owner.on_stream_closed();
    assert_eq!(
        terminals(&events(&mut owner)),
        vec![(1, StopReason::ProviderError, false)]
    );
    owner.begin_exit(false);
    let exit = owner.finish_exit(&no_report(), &None);
    assert_eq!(exit.reason, RuntimeExitReason::OwnerStopped);
    assert_eq!(owner.phase, RuntimePhase::Stopped);
}

fn no_report() -> StopReport {
    StopReport {
        forced: false,
        reason: None,
        snapshot: None,
        conversation_changed: false,
        persistence_failure: None,
    }
}

#[test]
fn uncertain_snapshot_hook_commit_fail_closes_the_completed_turn() {
    let mut owner = native();
    submit(&mut owner, "turn");
    let _ = owner.take_actions();
    let mut doubtful = facts();
    doubtful.doubt = Some("session commit failed and rollback was incomplete".into());
    owner.on_agent_event(AgentEvent::TurnComplete { reason: StopReason::Stopped }, &doubtful);
    assert!(owner
        .outbox
        .iter()
        .any(|action| *action == OwnerAction::Send(AgentCommand::Shutdown)));
    let told = events(&mut owner);
    assert!(errors(&told)[0].contains("persistence became uncertain"));
    assert_eq!(terminals(&told), vec![(1, StopReason::ProviderError, false)]);
    assert_eq!(owner.phase, RuntimePhase::Failed);
    let refused = CodingRuntimeControl::Submit { generation: 0, input: UserInput::from("no") };
    assert!(!owner.admits(&refused));
    assert!(owner.admits(&CodingRuntimeControl::Shutdown { generation: 0 }));
    assert_eq!(
        owner.reject_runtime_control(refused, CompactionInterruption::RuntimeUnavailable),
        Some(RuntimeError::Unavailable)
    );
}

#[test]
fn uncertain_compaction_checkpoint_fail_closes_the_runtime() {
    let mut owner = native();
    owner.compact(0, None);
    assert_eq!(commands(&mut owner), vec![AgentCommand::Compact { focus: None }]);
    let mut doubtful = facts();
    doubtful.doubt = Some("compaction commit failed and rollback was incomplete".into());
    owner.on_agent_event(
        AgentEvent::CompactionFailed {
            trigger: manual(None),
            error: CompactionCheckpointError { message: "checkpoint failed".into() },
        },
        &doubtful,
    );
    let told = events(&mut owner);
    assert!(matches!(
        told[0],
        CodingRuntimeEvent::CompactionFinished { completion: CompactionCompletion::Failed { .. } }
    ));
    assert!(errors(&told)[0].contains("compaction persistence became uncertain"));
    assert_eq!(owner.phase, RuntimePhase::Failed);
    assert!(!owner.agent_attached && owner.persistence_failure.is_some());
}

#[test]
fn met_goal_overrides_held_max_rounds_terminal() {
    let mut owner = native();
    owner.start_goal(0, "tests pass".into()).unwrap();
    submit(&mut owner, "initial turn");
    let _ = owner.take_actions();
    finish_turn(&mut owner, StopReason::MaxRounds, &facts());
    assert!(owner
        .outbox
        .iter()
        .any(|action| matches!(action, OwnerAction::EvaluateGoal { condition, .. }
            if condition == "tests pass")));
    let _ = owner.take_actions();
    let outcome = evaluated(&owner, GoalResult::Met("goal met".into()));
    owner.on_goal_evaluated(outcome);
    let told = events(&mut owner);
    assert_eq!(goal_ends(&told), vec![(Some(GoalTerminal::Met), "goal met".to_string())]);
    assert_eq!(terminals(&told), vec![(1, StopReason::Stopped, true)]);
    assert_eq!(owner.phase, RuntimePhase::Ready);
}

#[test]
fn goal_evaluator_failure_stops_without_replaying_the_main_agent() {
    let mut owner = native();
    owner.start_goal(0, "tests pass".into()).unwrap();
    submit(&mut owner, "initial turn");
    finish_turn(&mut owner, StopReason::Stopped, &facts());
    let _ = owner.take_actions();
    let outcome =
        evaluated(&owner, GoalResult::Error("could not build evaluator provider".into()));
    owner.on_goal_evaluated(outcome);
    assert!(!owner.outbox.iter().any(|a| matches!(a, OwnerAction::ContinueGoal { .. })));
    let told = events(&mut owner);
    assert_eq!(
        goal_ends(&told),
        vec![(
            Some(GoalTerminal::Failed),
            "evaluator failed: could not build evaluator provider".to_string()
        )]
    );
    assert_eq!(terminals(&told), vec![(1, StopReason::ProviderError, true)]);
    assert_eq!(owner.phase, RuntimePhase::Ready);
}

#[test]
fn goal_evaluator_continuation_is_a_synthetic_turn() {
    let mut owner = native();
    owner.start_goal(0, "tests pass".into()).unwrap();
    submit(&mut owner, "initial turn");
    finish_turn(&mut owner, StopReason::Stopped, &facts());
    let _ = owner.take_actions();
    let outcome = evaluated(&owner, GoalResult::NotMet("needs more work".into()));
    owner.on_goal_evaluated(outcome);
    assert!(owner.outbox.iter().any(|action| *action
        == OwnerAction::ContinueGoal {
            reason: "needs more work".into(),
            condition: "tests pass".into(),
        }));
    assert_eq!(terminals(&events(&mut owner)), vec![]);
    assert_eq!(owner.active_turn, Some(1));
    let goal = owner.goal.as_ref().unwrap();
    assert_eq!((goal.round, goal.tokens_used), (1, 10));
    let stale = evaluated(&owner, GoalResult::Met("late".into()));
    owner.on_goal_evaluated(stale);
    assert!(owner.take_actions().is_empty());
}

#[test]
fn goal_round_cap_reports_max_rounds() {
    let mut owner = native();
    owner.start_goal(0, "tests pass".into()).unwrap();
    submit(&mut owner, "initial turn");
    finish_turn(&mut owner, StopReason::Stopped, &facts());
    let outcome = evaluated(&owner, GoalResult::NotMet("needs more work".into()));
    owner.on_goal_evaluated(outcome);
    let _ = owner.take_actions();
    let mut capped = facts();
    capped.goal_cap = Some("round limit".into());
    finish_turn(&mut owner, StopReason::Stopped, &capped);
    let told = events(&mut owner);
    assert_eq!(terminals(&told), vec![(1, StopReason::MaxRounds, true)]);
    assert!(told.contains(&CodingRuntimeEvent::ControllerWarning(
        "goal stopped: round limit — goal not met; run /goal again to continue".into()
    )));
    assert!(owner.goal.is_none());
}

#[test]
fn tool_loop_detected_terminates_goal_without_continuation() {
    let mut owner = native();
    owner.start_goal(0, "tests pass".into()).unwrap();
    submit(&mut owner, "initial turn");
    let _ = owner.take_actions();
    finish_turn(&mut owner, StopReason::ToolLoopDetected, &facts());
    assert!(!owner.outbox.iter().any(|a| matches!(
        a,
        OwnerAction::EvaluateGoal { .. } | OwnerAction::ContinueGoal { .. }
    )));
    let told = events(&mut owner);
    assert_eq!(goal_ends(&told)[0].1, "ended: ToolLoopDetected");
    assert_eq!(terminals(&told), vec![(1, StopReason::ToolLoopDetected, true)]);
}

#[test]
fn recoverable_goal_continuation_send_failure_deactivates_goal_and_fails_runtime() {
    let mut owner = native();
    owner.start_goal(0, "tests pass".into()).unwrap();
    submit(&mut owner, "initial turn");
    owner.on_agent_event(AgentEvent::TurnComplete { reason: StopReason::ProviderError }, &facts());
    let _ = owner.take_actions();
    owner.observe_agent(false);
    owner.on_agent_event(AgentEvent::Snapshot { snapshot: shot("x") }, &facts());
    let told = events(&mut owner);
    assert_eq!(goal_ends(&told)[0].1, "continuation dispatch failed");
    assert_eq!(terminals(&told), vec![(1, StopReason::ProviderError, true)]);
    assert_eq!(owner.phase, RuntimePhase::Failed);
}

#[test]
fn failed_rounds_are_retried_until_too_many() {
    let mut owner = native();
    owner.start_goal(0, "tests pass".into()).unwrap();
    submit(&mut owner, "initial turn");
    let _ = owner.take_actions();
    finish_turn(&mut owner, StopReason::Timeout, &facts());
    let actions = owner.take_actions();
    assert!(actions.contains(&OwnerAction::ContinueGoal {
        reason: "round ended: Timeout".into(),
        condition: "tests pass".into(),
    }));
    finish_turn(&mut owner, StopReason::ProviderError, &facts());
    let _ = owner.take_actions();
    finish_turn(&mut owner, StopReason::Timeout, &facts());
    let told = events(&mut owner);
    assert_eq!(goal_ends(&told)[0].1, "stopped: too many failed rounds");
    assert_eq!(terminals(&told), vec![(1, StopReason::ProviderError, true)]);
}

#[test]
fn loop_round_cap_reports_max_rounds() {
    let mut owner = native();
    owner.start_loop(0, "watch CI".into()).unwrap();
    submit(&mut owner, "initial turn");
    owner.on_wakeup(wakeup(0));
    let noted = events(&mut owner);
    assert!(matches!(noted.last().unwrap(), CodingRuntimeEvent::LoopChanged(p)
        if p.last_reason.as_deref() == Some("scheduled in 0s: wait for CI")));
    finish_turn(&mut owner, StopReason::Stopped, &facts());
    assert!(owner.outbox.iter().any(|a| matches!(a, OwnerAction::ScheduleLoop { .. })));
    let _ = owner.take_actions();
    owner.on_loop_fired(0, owner.next_controller_id, wakeup(0), false);
    let sent = commands(&mut owner);
    assert!(matches!(&sent[0], AgentCommand::SendMessage { text, .. } if text == "check CI"));
    owner.on_wakeup(wakeup(0));
    finish_turn(&mut owner, StopReason::Stopped, &facts());
    let _ = owner.take_actions();
    owner.on_loop_fired(0, owner.next_controller_id, wakeup(0), true);
    let told = events(&mut owner);
    assert_eq!(loop_ends(&told), vec!["round limit"]);
    assert_eq!(terminals(&told), vec![(1, StopReason::MaxRounds, true)]);
}

#[test]
fn loop_continuation_send_failure_reports_provider_error() {
    let mut owner = native();
    owner.start_loop(0, "watch CI".into()).unwrap();
    submit(&mut owner, "initial turn");
    owner.on_wakeup(wakeup(0));
    finish_turn(&mut owner, StopReason::Stopped, &facts());
    let _ = owner.take_actions();
    owner.observe_agent(false);
    owner.on_loop_fired(0, owner.next_controller_id, wakeup(0), false);
    let told = events(&mut owner);
    assert_eq!(terminals(&told), vec![(1, StopReason::ProviderError, true)]);
    assert!(!owner.loop_active);
    assert_eq!(owner.phase, RuntimePhase::Failed);
}

#[test]
fn goal_snapshot_dispatch_failure_deactivates_controller() {
    let mut owner = native();
    owner.start_goal(0, "tests pass".into()).unwrap();
    submit(&mut owner, "initial turn");
    let _ = owner.take_actions();
    owner.observe_agent(false);
    owner.on_agent_event(AgentEvent::TurnComplete { reason: StopReason::Stopped }, &facts());
    let told = events(&mut owner);
    assert_eq!(goal_ends(&told)[0].1, "ended: kernel snapshot command delivery failed");
    assert_eq!(terminals(&told), vec![(1, StopReason::ProviderError, false)]);
    assert_eq!(owner.phase, RuntimePhase::Failed);
}

#[test]
fn loop_snapshot_dispatch_failure_clears_wakeup_and_active_state() {
    let mut owner = native();
    owner.start_loop(0, "watch CI".into()).unwrap();
    submit(&mut owner, "initial turn");
    owner.on_wakeup(wakeup(60));
    let _ = owner.take_actions();
    owner.observe_agent(false);
    owner.on_agent_event(AgentEvent::TurnComplete { reason: StopReason::Stopped }, &facts());
    let told = events(&mut owner);
    assert_eq!(loop_ends(&told).len(), 1);
    assert!(!owner.loop_active && owner.pending_wakeup.is_none());
    assert_eq!(terminals(&told), vec![(1, StopReason::ProviderError, false)]);
}

#[test]
fn loop_kernel_stream_failure_clears_wakeup_and_active_state() {
    let mut owner = native();
    owner.start_loop(0, "watch CI".into()).unwrap();
    submit(&mut owner, "initial turn");
    owner.on_wakeup(wakeup(60));
    let _ = owner.take_actions();
    owner.on_stream_closed();
    let told = events(&mut owner);
    assert_eq!(loop_ends(&told), vec!["ended: kernel event stream closed"]);
    assert!(!owner.loop_active && owner.pending_wakeup.is_none());
    assert_eq!(terminals(&told), vec![(1, StopReason::ProviderError, false)]);
}

#[test]
fn owner_routes_compaction_without_exposing_it_to_adapter() {
    let mut owner = RuntimeOwner::new(false, RuntimePhase::Ready, None, true, false, false);
    owner.compact(0, Some("files".into()));
    assert_eq!(
        commands(&mut owner),
        vec![AgentCommand::Compact { focus: Some("files".into()) }]
    );
    let started = AgentEvent::CompactionStarted { trigger: manual(Some("files")) };
    assert_eq!(owner.on_agent_event(started, &facts()), None);
    let snapshot = Arc::new(SessionSnapshot::new(vec![Message::user("after compact")]));
    let done = AgentEvent::Compacted {
        trigger: manual(Some("files")),
        epoch: 1,
        removed: 4,
        bytes_before: 400,
        bytes_after: 100,
        committed: true,
        snapshot: Some(snapshot.clone()),
    };
    assert_eq!(owner.on_agent_event(done, &facts()), None);
    let told = events(&mut owner);
    assert!(matches!(told[0], CodingRuntimeEvent::CompactionStarted { .. }));
    match &told[1] {
        CodingRuntimeEvent::CompactionFinished {
            completion: CompactionCompletion::Completed(outcome),
        } => {
            assert!(outcome.committed);
            assert_eq!(outcome.removed_messages, 4);
            assert_eq!(outcome.committed_snapshot, Some(snapshot));
        }
        other => panic!("unexpected event {other:?}"),
    }
    assert_eq!(owner.observed_tokens, Some(25));
    assert_eq!(
        owner.on_agent_event(AgentEvent::TurnStarted, &facts()),
        Some(AgentEvent::TurnStarted)
    );
}

#[test]
fn owner_routes_checkpoint_failure_as_terminal_without_adapter_leak() {
    let mut owner = RuntimeOwner::new(false, RuntimePhase::Ready, None, true, false, false);
    owner.compact(0, None);
    let failed = AgentEvent::CompactionFailed {
        trigger: manual(None),
        error: CompactionCheckpointError { message: "read-only filesystem".into() },
    };
    assert_eq!(owner.on_agent_event(failed, &facts()), None);
    let told = events(&mut owner);
    assert!(matches!(&told[0], CodingRuntimeEvent::CompactionFinished {
        completion: CompactionCompletion::Failed { error, .. }
    } if error.message == "read-only filesystem"));
    assert!(!owner.compactions.is_active());
}

#[test]
fn suspended_runtime_rejects_until_replacement_is_resumed() {
    let mut owner = RuntimeOwner::new(false, RuntimePhase::Ready, None, true, false, false);
    owner.suspend_compaction();
    assert_eq!(
        owner.status(),
        RuntimeStatus { generation: 1, phase: RuntimePhase::Reconfiguring }
    );
    owner.suspend_compaction();
    assert_eq!(owner.generation, 1);
    assert_eq!(owner.begin_replace(), Some(false));
    let report = owner.stop_current_agent(
        vec![],
        false,
        CompactionInterruption::RuntimeReconfigured,
        None,
    );
    assert!(owner.finish_replace(&report, &None, false));
    assert_eq!(owner.phase, RuntimePhase::Reconfiguring);
    owner.resume_compaction();
    assert_eq!(owner.phase, RuntimePhase::Ready);
    let _ = owner.take_actions();
    owner.compact(1, Some("after rebuild".into()));
    assert_eq!(
        commands(&mut owner),
        vec![AgentCommand::Compact { focus: Some("after rebuild".into()) }]
    );
}

#[test]
fn replace_drains_compacted_before_dropping_old_agent() {
    let mut owner = RuntimeOwner::new(false, RuntimePhase::Ready, None, true, false, false);
    owner.compact(0, Some("old agent".into()));
    let started = AgentEvent::CompactionStarted { trigger: manual(Some("old agent")) };
    owner.on_agent_event(started, &facts());
    let _ = owner.take_actions();
    assert_eq!(owner.begin_replace(), Some(true));
    let report = owner.stop_current_agent(
        vec![compacted(Some("old agent"), None)],
        false,
        CompactionInterruption::RuntimeReconfigured,
        None,
    );
    assert!(owner.finish_replace(&report, &None, true));
    let told = events(&mut owner);
    assert_eq!(told.len(), 1);
    assert!(matches!(&told[0], CodingRuntimeEvent::CompactionFinished {
        completion: CompactionCompletion::Completed(outcome)
    } if outcome.committed && outcome.removed_messages == 2));
    assert_eq!(owner.status(), RuntimeStatus { generation: 1, phase: RuntimePhase::Ready });
}

#[test]
fn stopped_agent_retains_a_committed_compaction_snapshot_and_revision() {
    let snapshot = Arc::new(SessionSnapshot::new(vec![Message::user("compacted")]));
    let mut owner = native();
    owner.compact(0, Some("before reload".into()));
    owner.conversation_revision = 7;
    let report = owner.stop_current_agent(
        vec![compacted(Some("before reload"), Some(snapshot.clone()))],
        false,
        CompactionInterruption::RuntimeReconfigured,
        None,
    );
    assert!(report.conversation_changed);
    assert_eq!(report.snapshot, Some(snapshot));
    owner.finish_stopped_native_turn(&report, &None);
    assert_eq!(owner.conversation_revision, 8);
}

#[test]
fn replace_interrupts_started_compaction_without_kernel_terminal() {
    let mut owner = RuntimeOwner::new(false, RuntimePhase::Ready, None, true, false, false);
    owner.compact(0, Some("old agent".into()));
    let _ = owner.take_actions();
    owner.begin_replace();
    let report = owner.stop_current_agent(
        vec![AgentEvent::CompactionStarted { trigger: manual(Some("old agent")) }],
        false,
        CompactionInterruption::RuntimeReconfigured,
        None,
    );
    owner.finish_replace(&report, &None, true);
    assert_eq!(
        interruptions(&events(&mut owner)),
        vec![(manual(Some("old agent")), CompactionInterruption::RuntimeReconfigured)]
    );
}

#[test]
fn shutdown_interrupts_started_compaction_with_shutdown_reason() {
    let mut owner = RuntimeOwner::new(false, RuntimePhase::Ready, None, true, false, false);
    owner.compact(0, None);
    let _ = owner.take_actions();
    owner.begin_managed_shutdown();
    assert_eq!(commands(&mut owner), vec![AgentCommand::Shutdown]);
    let report =
        owner.stop_current_agent(vec![], true, CompactionInterruption::RuntimeShutdown, None);
    let exit = owner.finish_shutdown(&report, &None);
    assert!(exit.forced);
    assert_eq!(exit.reason, RuntimeExitReason::ShutdownRequested);
    assert_eq!(
        interruptions(&events(&mut owner)),
        vec![(manual(None), CompactionInterruption::RuntimeShutdown)]
    );
}

#[test]
fn shutdown_interrupts_control_accepted_but_not_yet_delivered() {
    let mut owner = RuntimeOwner::new(false, RuntimePhase::Ready, None, true, false, false);
    owner.begin_managed_shutdown();
    let _ = owner.take_actions();
    let queued = CodingRuntimeControl::Compact {
        generation: 0,
        focus: Some("queued before shutdown".into()),
    };
    assert_eq!(
        owner.reject_runtime_control(queued, CompactionInterruption::RuntimeShutdown),
        None
    );
    assert_eq!(
        interruptions(&events(&mut owner)),
        vec![(
            manual(Some("queued before shutdown")),
            CompactionInterruption::RuntimeShutdown
        )]
    );
}

#[test]
fn stale_generation_is_interrupted_instead_of_reaching_replacement() {
    let mut owner = RuntimeOwner::new(false, RuntimePhase::Ready, None, true, false, false);
    owner.suspend_compaction();
    owner.resume_compaction();
    owner.compact(0, Some("stale".into()));
    assert_eq!(
        interruptions(&events(&mut owner)),
        vec![(manual(Some("stale")), CompactionInterruption::RuntimeReconfigured)]
    );
}

#[test]
fn an_unavailable_agent_interrupts_compactions() {
    let mut owner = native();
    owner.observe_agent(false);
    owner.compact(0, None);
    assert_eq!(owner.phase, RuntimePhase::Failed);
    owner.compact(0, Some("x".into()));
    assert_eq!(
        interruptions(&events(&mut owner)),
        vec![
            (manual(None), CompactionInterruption::RuntimeUnavailable),
            (manual(Some("x")), CompactionInterruption::RuntimeUnavailable),
        ]
    );
}

#[test]
fn text_only_submit_skips_preprocessor() {
    let plain = UserInput::from("no images here");
    assert!(!RuntimeOwner::wants_vision_pass(&plain, true));
    let image = ImageContent { media_type: "image/png".into(), data: "AAAA".into() };
    let with_image = UserInput { text: "look at this".into(), images: vec![image] };
    assert!(RuntimeOwner::wants_vision_pass(&with_image, true));
    assert!(!RuntimeOwner::wants_vision_pass(&with_image, false));
}

#[test]
fn image_submit_runs_installed_preprocessor_before_kernel() {
    let mut owner = native();
    let image = ImageContent { media_type: "image/png".into(), data: "AAAA".into() };
    let input = UserInput { text: "look at this".into(), images: vec![image] };
    let turn = owner.begin_submit(0, input).unwrap();
    let notice = VisionNotice::Recognised { vl_model: "vl".into(), char_count: 3 };
    owner
        .finish_submit(turn.receipt, UserInput::from("VL[look at this]"), Some(notice))
        .unwrap();
    let actions = owner.take_actions();
    assert_eq!(
        actions[0],
        OwnerAction::Emit {
            generation: 0,
            event: CodingRuntimeEvent::VisionPreprocessSuccess {
                vl_model: "vl".into(),
                char_count: 3,
            },
        }
    );
    assert_eq!(
        actions[1],
        OwnerAction::Send(AgentCommand::SendMessage {
            text: "VL[look at this]".into(),
            images: vec![],
        })
    );
}

#[test]
fn image_submit_failure_emits_failed_event_and_text_only_turn() {
    let mut owner = native();
    let turn = owner.begin_submit(0, UserInput::from("look")).unwrap();
    owner
        .finish_submit(
            turn.receipt,
            turn.input,
            Some(VisionNotice::Failed { reason: "boom".into() }),
        )
        .unwrap();
    assert_eq!(
        events(&mut owner),
        vec![CodingRuntimeEvent::VisionPreprocessFailed { reason: "boom".into() }]
    );
}

#[test]
fn local_context_goes_in_front_of_the_next_turn() {
    let mut owner = native();
    for content in ["one", "", "two"] {
        owner
            .queue_local_context(0, LocalContextInput { content: content.into() })
            .unwrap();
    }
    assert_eq!(
        owner.queue_local_context(4, LocalContextInput { content: "x".into() }),
        Err(RuntimeError::Busy)
    );
    let turn = owner.begin_submit(0, UserInput::from("prompt")).unwrap();
    assert_eq!(turn.input.text, "one\n\ntwo\n\nprompt");
    owner.queue_local_context(0, LocalContextInput { content: "alone".into() }).unwrap();
    assert_eq!(owner.begin_submit(0, UserInput::from("")).unwrap().input.text, "alone");
    assert_eq!(owner.begin_submit(0, UserInput::from("")).unwrap().input.text, "");
}

#[test]
fn a_turn_that_cannot_be_delivered_is_refused() {
    let mut owner = native();
    owner.observe_agent(false);
    let turn = owner.begin_submit(0, UserInput::from("x")).unwrap();
    assert_eq!(
        owner.finish_submit(turn.receipt, turn.input, None),
        Err(RuntimeError::DeliveryFailed)
    );
    assert_eq!((owner.active_turn, owner.phase), (None, RuntimePhase::Failed));
    assert_eq!(
        owner.begin_submit(0, UserInput::from("x")),
        Err(RuntimeError::Unavailable)
    );
    assert_eq!(
        owner.begin_submit(1, UserInput::from("x")),
        Err(RuntimeError::Unavailable)
    );
}

#[test]
fn a_cut_off_prompt_is_replayed_as_a_turn() {
    let mut owner = native();
    assert!(owner.replay_pending_resume_prompt(UserInput::from("continue after crash")));
    assert_eq!((owner.active_turn, owner.phase), (Some(1), RuntimePhase::InTurn));
    let mut gone = native();
    gone.observe_agent(false);
    assert!(!gone.replay_pending_resume_prompt(UserInput::from("x")));
    assert_eq!((gone.active_turn, gone.phase), (None, RuntimePhase::Failed));
}

#[test]
fn cancelled_first_turn_does_not_build_ai_naming_provider() {
    let mut owner = native();
    let mut naming = facts();
    naming.naming_enabled = true;
    submit(&mut owner, "cancel me");
    owner.on_agent_event(AgentEvent::TurnComplete { reason: StopReason::Cancelled }, &naming);
    let said = Arc::new(SessionSnapshot::new(vec![Message::user("cancel me")]));
    owner.on_agent_event(AgentEvent::Snapshot { snapshot: said.clone() }, &naming);
    let names = |owner: &mut RuntimeOwner| {
        owner
            .take_actions()
            .into_iter()
            .filter(|a| matches!(a, OwnerAction::SuggestName { .. }))
            .count()
    };
    assert_eq!(names(&mut owner), 0);
    for expected in [1, 0] {
        submit(&mut owner, "go on");
        owner.on_agent_event(AgentEvent::TurnComplete { reason: StopReason::Stopped }, &naming);
        owner.on_agent_event(AgentEvent::Snapshot { snapshot: said.clone() }, &naming);
        assert_eq!(names(&mut owner), expected);
    }
    owner.on_session_name(1, "stale".into());
    owner.on_session_name(0, "A name".into());
    assert_eq!(
        events(&mut owner),
        vec![CodingRuntimeEvent::SessionNameSuggested { name: "A name".into() }]
    );
}

#[test]
fn replacing_loop_with_goal_finishes_held_turn_once() {
    let mut owner = native();
    owner.start_loop(0, "watch CI".into()).unwrap();
    submit(&mut owner, "initial turn");
    assert_eq!(owner.start_goal(0, "tests pass".into()), Err(RuntimeError::Busy));
    owner.on_wakeup(wakeup(60));
    finish_turn(&mut owner, StopReason::Stopped, &facts());
    let _ = owner.take_actions();
    owner.start_goal(0, "tests pass".into()).unwrap();
    let told = events(&mut owner);
    assert_eq!(loop_ends(&told), vec!["superseded by /goal"]);
    assert_eq!(terminals(&told), vec![(1, StopReason::Cancelled, true)]);
    assert!(matches!(told.last().unwrap(), CodingRuntimeEvent::GoalChanged(p) if p.active));
    assert_eq!(owner.phase, RuntimePhase::Ready);
}

#[test]
fn replacing_goal_with_loop_finishes_held_turn_once() {
    let mut owner = native();
    owner.start_goal(0, "tests pass".into()).unwrap();
    submit(&mut owner, "initial turn");
    finish_turn(&mut owner, StopReason::Stopped, &facts());
    let _ = owner.take_actions();
    owner.start_loop(0, "watch CI".into()).unwrap();
    let told = events(&mut owner);
    assert_eq!(goal_ends(&told)[0].1, "superseded by /loop");
    assert_eq!(terminals(&told), vec![(1, StopReason::Cancelled, true)]);
    assert!(matches!(told.last().unwrap(), CodingRuntimeEvent::LoopChanged(p) if p.active));
}

#[test]
fn native_approval_is_correlated_and_shutdown_fails_it_closed() {
    let mut owner = native();
    submit(&mut owner, "needs approval");
    for id in [42, 7, 42] {
        owner.on_agent_event(
            AgentEvent::Request {
                id,
                kind: "tool_approval".into(),
                payload: "{\"tool\":\"bash\"}".into(),
            },
            &facts(),
        );
    }
    assert_eq!(owner.phase, RuntimePhase::WaitingApproval);
    assert_eq!(owner.pending_requests, vec![7, 42]);
    assert_eq!(
        owner.respond(0, 41, ReplyValue::Null),
        Err(RuntimeError::StaleRequest { id: 41 })
    );
    assert_eq!(owner.respond(0, 7, ReplyValue::Json("true".into())), Ok(()));
    assert_eq!(owner.phase, RuntimePhase::WaitingApproval);
    let _ = owner.take_actions();
    owner.begin_shutdown(0);
    assert_eq!(
        commands(&mut owner),
        vec![
            AgentCommand::Respond { id: 42, value: ReplyValue::Null },
            AgentCommand::Cancel,
            AgentCommand::Shutdown,
        ]
    );
    assert_eq!(owner.phase, RuntimePhase::ShuttingDown);
}

#[test]
fn the_last_answer_puts_the_turn_back_in_progress() {
    let mut owner = native();
    submit(&mut owner, "x");
    let request =
        AgentEvent::Request { id: 1, kind: "k".into(), payload: "{}".into() };
    owner.on_agent_event(request, &facts());
    assert_eq!(owner.respond(0, 1, ReplyValue::Null), Ok(()));
    assert_eq!(owner.phase, RuntimePhase::InTurn);
    assert_eq!(owner.respond(3, 1, ReplyValue::Null), Err(RuntimeError::Unavailable));
}

#[test]
fn cancelling_turns_requests_down_and_waits_for_the_agent() {
    let mut owner = native();
    assert_eq!(owner.cancel(0), Ok(()));
    submit(&mut owner, "x");
    let request = AgentEvent::Request { id: 1, kind: "k".into(), payload: "{}".into() };
    owner.on_agent_event(request, &facts());
    let _ = owner.take_actions();
    assert_eq!(owner.cancel(0), Ok(()));
    assert_eq!(
        commands(&mut owner),
        vec![
            AgentCommand::Respond { id: 1, value: ReplyValue::Null },
            AgentCommand::Cancel,
        ]
    );
    assert_eq!((owner.active_turn, owner.phase), (Some(1), RuntimePhase::InTurn));
    owner.observe_agent(false);
    assert_eq!(owner.cancel(0), Err(RuntimeError::DeliveryFailed));
    assert_eq!(owner.cancel(0), Err(RuntimeError::Unavailable));
}

#[test]
fn cancelling_a_held_turn_ends_it_at_once() {
    let mut owner = native();
    owner.start_goal(0, "tests pass".into()).unwrap();
    submit(&mut owner, "initial turn");
    finish_turn(&mut owner, StopReason::Stopped, &facts());
    let _ = owner.take_actions();
    assert_eq!(owner.cancel(0), Ok(()));
    let told = events(&mut owner);
    assert_eq!(
        goal_ends(&told),
        vec![(Some(GoalTerminal::Cancelled), "cancelled by user".to_string())]
    );
    assert_eq!(terminals(&told), vec![(1, StopReason::Cancelled, true)]);
    assert_eq!(owner.cancel(0), Ok(()));
    assert!(owner.take_actions().is_empty());
}

#[test]
fn snapshot_waiters_share_one_snapshot() {
    let mut owner = native();
    assert_eq!(owner.snapshot(0, 11), Ok(()));
    assert_eq!(owner.snapshot(0, 12), Ok(()));
    assert_eq!(commands(&mut owner), vec![AgentCommand::Snapshot]);
    let stored = shot("stored");
    let mut with_store = facts();
    with_store.stored = Some(stored.clone());
    let live = shot("live");
    owner.on_agent_event(AgentEvent::Snapshot { snapshot: live.clone() }, &with_store);
    let answered: Vec<u64> = owner
        .take_actions()
        .into_iter()
        .filter_map(|action| match action {
            OwnerAction::AnswerSnapshot { waiter, result } => {
                let receipt = result.unwrap();
                assert_eq!((&receipt.snapshot, &receipt.undo_snapshot), (&live, &stored));
                Some(waiter)
            }
            _ => None,
        })
        .collect();
    assert_eq!(answered, vec![11, 12]);
    assert_eq!(owner.snapshot(9, 13), Err(RuntimeError::Unavailable));
    owner.observe_agent(false);
    assert_eq!(owner.snapshot(0, 14), Ok(()));
    assert!(owner.take_actions().contains(&OwnerAction::AnswerSnapshot {
        waiter: 14,
        result: Err(RuntimeError::DeliveryFailed),
    }));
}

#[test]
fn mcp_withdrawal_and_same_session_reload_reject_an_active_turn() {
    let mut owner = native();
    assert_eq!(owner.check_tool_servers_idle(0), Ok(()));
    submit(&mut owner, "active");
    assert_eq!(owner.check_tool_servers_idle(0), Err(RuntimeError::Busy));
    assert_eq!(owner.check_tool_servers(0), Ok(RuntimeGeneration(0)));
    assert_eq!(owner.check_tool_servers(1), Err(RuntimeError::Busy));
    let session = Some("s".to_string());
    let same = atomcode_coding::config::SessionMode::Resume("s".into());
    assert_eq!(owner.check_reprepare(&session, &same), Err(RuntimeError::Busy));
    let other = atomcode_coding::config::SessionMode::Resume("t".into());
    assert_eq!(owner.check_reprepare(&session, &other), Ok(()));
    assert_eq!(owner.phase, RuntimePhase::InTurn);
}

#[test]
fn modes_are_set_between_reconfigurations() {
    let mut owner = native();
    assert_eq!(owner.set_mode(0, RuntimeMode::Plan), Ok((true, false, false)));
    assert_eq!(
        events(&mut owner),
        vec![CodingRuntimeEvent::ModeChanged { mode: RuntimeMode::Plan }]
    );
    assert_eq!(owner.set_mode(1, RuntimeMode::Plan), Err(RuntimeError::Busy));
    let mut bare = RuntimeOwner::new(true, RuntimePhase::Ready, None, true, false, false);
    assert_eq!(bare.set_mode(0, RuntimeMode::Plan), Err(RuntimeError::Unavailable));
}

#[test]
fn context_use_is_the_usage_last_seen() {
    let mut owner = native();
    let meta = MessageMeta {
        used_tokens: 900,
        ctx_window: 1000,
        elapsed_ms: 1,
        tokens: TokenUsage { prompt: 800, completion: 100, cached: 0 },
    };
    owner.on_agent_event(AgentEvent::Usage(meta), &facts());
    let call = ToolCall { id: "1".into(), name: "bash".into(), args: "{}".into() };
    owner.on_agent_event(AgentEvent::ToolStarted { call }, &facts());
    assert_eq!(
        owner.turn_stats,
        RuntimeTurnStats {
            last_usage: Some(meta),
            duration_nanos: 0,
            turn_count: 1,
            tool_call_count: 1,
        }
    );
    let stats = owner.context_stats(0, 1000, "model".into(), "/p".into()).unwrap();
    assert_eq!((stats.used_tokens, stats.context_window), (900, 1000));
    assert_eq!(
        owner.context_stats(1, 0, "m".into(), "/p".into()),
        Err(RuntimeError::Busy)
    );
}

#[test]
fn provider_reassemble_commits_one_generation_and_tags_events_at_emit_time() {
    let mut owner = native();
    assert_eq!(owner.check_replace(0), Ok(()));
    assert!(owner.begin_reassemble());
    let report = owner.stop_current_agent(
        vec![],
        false,
        CompactionInterruption::RuntimeReconfigured,
        None,
    );
    assert_eq!(owner.settle_stop(&report, &None), None);
    let (generation, replayed) =
        owner.commit_reassemble("next-provider".into(), "next-model".into(), None);
    assert_eq!((generation, replayed), (RuntimeGeneration(1), false));
    assert_eq!(owner.status(), RuntimeStatus { generation: 1, phase: RuntimePhase::Ready });
    let emitted: Vec<(u64, CodingRuntimeEvent)> = owner
        .take_actions()
        .into_iter()
        .filter_map(|action| match action {
            OwnerAction::Emit { generation, event } => Some((generation, event)),
            _ => None,
        })
        .collect();
    assert_eq!(
        emitted,
        vec![
            (0, CodingRuntimeEvent::Reconfiguring { operation: ReconfigureKind::Provider }),
            (
                1,
                CodingRuntimeEvent::ProviderChanged {
                    provider: "next-provider".into(),
                    model: "next-model".into(),
                }
            ),
            (1, CodingRuntimeEvent::Reconfigured { operation: ReconfigureKind::Provider }),
        ]
    );
    assert_eq!(owner.check_replace(0), Err(RuntimeError::Busy));
}

#[test]
fn a_provider_change_replays_a_cut_off_prompt() {
    let mut owner = native();
    owner.begin_reassemble();
    let committed =
        owner.commit_reassemble("p".into(), "m".into(), Some(UserInput::from("again")));
    assert_eq!(committed, (RuntimeGeneration(1), true));
    assert_eq!((owner.active_turn, owner.phase), (Some(1), RuntimePhase::InTurn));
}

#[test]
fn provider_reconfigure_fails_when_stop_drains_an_uncertain_turn_commit() {
    let mut owner = native();
    submit(&mut owner, "active turn");
    owner.begin_reassemble();
    let report = owner.stop_current_agent(
        vec![AgentEvent::TurnComplete { reason: StopReason::Cancelled }],
        false,
        CompactionInterruption::RuntimeReconfigured,
        Some("shutdown checkpoint failed and rollback was incomplete".into()),
    );
    let error = owner.settle_stop(&report, &None).unwrap();
    assert!(error.message().contains("persistence became uncertain"));
    assert_eq!(owner.status(), RuntimeStatus { generation: 0, phase: RuntimePhase::Failed });
    let told = events(&mut owner);
    assert_eq!(terminals(&told), vec![(1, StopReason::ProviderError, false)]);
    assert!(errors(&told)[0].contains("persistence became uncertain"));
    let next = CodingRuntimeControl::StopGoal { generation: 0 };
    assert!(!owner.admits(&next));
    assert_eq!(owner.begin_replace(), None);
}

#[test]
fn provider_reconfigure_fails_when_stop_drains_an_uncertain_compaction() {
    let mut owner = native();
    owner.compact(0, None);
    owner.begin_reassemble();
    let failed = AgentEvent::CompactionFailed {
        trigger: manual(None),
        error: CompactionCheckpointError { message: "checkpoint failed".into() },
    };
    let report = owner.stop_current_agent(
        vec![failed],
        false,
        CompactionInterruption::RuntimeReconfigured,
        Some("rollback was incomplete".into()),
    );
    assert!(owner.settle_stop(&report, &None).is_some());
    let told = events(&mut owner);
    assert_eq!(terminals(&told), vec![]);
    assert!(told.iter().any(|event| matches!(
        event,
        CodingRuntimeEvent::CompactionFinished { completion: CompactionCompletion::Failed { .. } }
    )));
}

#[test]
fn a_stopped_turn_completes_with_the_snapshot_that_is_left() {
    let mut owner = native();
    submit(&mut owner, "x");
    owner.begin_reassemble();
    let left = shot("left");
    let report = owner.stop_current_agent(
        vec![AgentEvent::Snapshot { snapshot: left.clone() }],
        false,
        CompactionInterruption::RuntimeReconfigured,
        None,
    );
    owner.settle_stop(&report, &Some(shot("stored")));
    assert!(owner.outbox.contains(&OwnerAction::KeepResume(left.clone())));
    match events(&mut owner).last().unwrap() {
        CodingRuntimeEvent::TurnFinished(TurnCompletion::Completed { snapshot, reason, .. }) => {
            assert_eq!((snapshot, *reason), (&left, StopReason::Cancelled));
        }
        other => panic!("unexpected event {other:?}"),
    }
    let mut bare = native();
    submit(&mut bare, "x");
    bare.finish_stopped_native_turn(&no_report(), &None);
    assert_eq!(terminals(&events(&mut bare)), vec![(1, StopReason::Cancelled, false)]);
}

#[test]
fn a_failed_candidate_brings_the_old_agent_back() {
    let mut owner = native();
    owner.begin_reassemble();
    let error = owner.abort_reassemble("candidate provider failed".into(), Rollback::Rebuilt);
    assert_eq!(error, RuntimeError::ReconfigureFailed("candidate provider failed".into()));
    assert_eq!(owner.status(), RuntimeStatus { generation: 0, phase: RuntimePhase::Ready });
    owner.abort_reassemble("x".into(), Rollback::Failed("no".into()));
    assert_eq!(owner.phase, RuntimePhase::Failed);
    assert_eq!(
        errors(&events(&mut owner)),
        vec!["provider reconfigure rollback failed: no"]
    );
    owner.abort_reassemble("x".into(), Rollback::NoAgent);
    assert!(!owner.agent_attached);
}

#[test]
fn deactivate_provider_drops_ready_agent_and_allows_recovery() {
    let reason = ProviderUnavailableReason::AuthenticationRequired;
    let mut owner = native();
    assert_eq!(owner.begin_deactivate(0, reason), DeactivateStart::Stopping);
    let report = owner.stop_current_agent(
        vec![],
        false,
        CompactionInterruption::RuntimeReconfigured,
        None,
    );
    assert_eq!(owner.settle_stop(&report, &None), None);
    assert_eq!(owner.finish_deactivate(reason, report.forced), RuntimeGeneration(1));
    assert_eq!(owner.phase, RuntimePhase::AwaitingProvider);
    assert!(events(&mut owner)
        .contains(&CodingRuntimeEvent::ProviderUnavailable { reason, forced: false }));
    assert_eq!(
        owner.begin_submit(1, UserInput::from("blocked")),
        Err(RuntimeError::ProviderUnavailable(reason))
    );
    assert_eq!(
        owner.begin_deactivate(1, reason),
        DeactivateStart::Already(RuntimeGeneration(1))
    );
    assert_eq!(
        owner.begin_deactivate(0, reason),
        DeactivateStart::Refused(RuntimeError::Busy)
    );
    assert!(!owner.begin_reassemble());
    let (generation, _) = owner.commit_reassemble("p".into(), "ready".into(), None);
    assert_eq!(generation, RuntimeGeneration(2));
    assert_eq!(owner.phase, RuntimePhase::Ready);
    assert_eq!(owner.provider_unavailable_reason, None);
}

#[test]
fn a_runtime_without_a_provider_says_so_at_the_start() {
    let reason = ProviderUnavailableReason::NotConfigured;
    let mut owner =
        RuntimeOwner::new(true, RuntimePhase::AwaitingProvider, Some(reason), false, true, false);
    assert_eq!(
        events(&mut owner),
        vec![CodingRuntimeEvent::ProviderUnavailable { reason, forced: false }]
    );
    assert_eq!(
        owner.begin_submit(0, UserInput::from("blocked")),
        Err(RuntimeError::ProviderUnavailable(reason))
    );
}

#[test]
fn reprepare_preflight_failure_does_not_stop_active_agent() {
    let mut owner = native();
    submit(&mut owner, "still running");
    let _ = owner.take_actions();
    let previous = owner.begin_reprepare(ReconfigureKind::ResumeSession);
    let error = owner.abort_reprepare(previous, "not found".into(), Some("cleanup".into()));
    assert_eq!(error, RuntimeError::ReconfigureFailed("not found; cleanup".into()));
    assert_eq!(owner.phase, RuntimePhase::InTurn);
    let actions = owner.take_actions();
    assert_eq!(
        actions,
        vec![OwnerAction::Emit {
            generation: 0,
            event: CodingRuntimeEvent::Reconfiguring {
                operation: ReconfigureKind::ResumeSession,
            },
        }]
    );
}

#[test]
fn fresh_session_clears_held_loop_without_duplicate_terminal() {
    let mut owner = native();
    owner.start_loop(0, "watch CI".into()).unwrap();
    submit(&mut owner, "initial turn");
    owner.on_wakeup(wakeup(60));
    finish_turn(&mut owner, StopReason::Stopped, &facts());
    let _ = owner.take_actions();
    owner.ai_name_attempted = true;
    owner.begin_reprepare(ReconfigureKind::FreshSession);
    let interrupted = owner.begin_switch();
    assert!(interrupted);
    let report = owner.stop_current_agent(
        vec![],
        false,
        CompactionInterruption::RuntimeReconfigured,
        None,
    );
    let report = RuntimeOwner::switched_report(report, interrupted);
    assert_eq!(report.reason, Some(StopReason::Cancelled));
    assert_eq!(owner.settle_stop(&report, &None), None);
    let changed =
        owner.finish_switch(ReconfigureKind::FreshSession, Some("s2".into()), "/p".into());
    assert_eq!(changed.generation, RuntimeGeneration(1));
    assert!(owner.has_session && !owner.ai_name_attempted);
    let told = events(&mut owner);
    assert_eq!(loop_ends(&told), vec!["runtime reconfigured"]);
    assert_eq!(terminals(&told), vec![(1, StopReason::Cancelled, true)]);
    assert_eq!(
        told[told.len() - 2..],
        [
            CodingRuntimeEvent::SessionChanged(changed),
            CodingRuntimeEvent::Reconfigured { operation: ReconfigureKind::FreshSession },
        ]
    );
    assert_eq!(owner.phase, RuntimePhase::Ready);
    owner.stop_loop(1).unwrap();
    assert!(owner.take_actions().is_empty());
}

#[test]
fn a_changed_directory_is_announced() {
    let mut owner = native();
    owner.finish_switch(ReconfigureKind::ChangeDirectory, None, "/there".into());
    assert!(events(&mut owner)
        .contains(&CodingRuntimeEvent::WorkingDirectoryChanged("/there".into())));
    assert_eq!(
        RuntimeOwner::switch_doubted(RuntimeError::Busy, Some("disk".into())),
        RuntimeError::ReconfigureFailed(
            "coding runtime is busy; candidate cleanup failed: disk".into()
        )
    );
    assert_eq!(RuntimeOwner::switch_doubted(RuntimeError::Busy, None), RuntimeError::Busy);
}

#[test]
fn undo_rejects_an_accepted_compaction_before_mutating_state() {
    let mut owner = native();
    assert_eq!(owner.check_undo(0, 0), Ok(()));
    owner.compact(0, Some("in flight".into()));
    assert_eq!(owner.check_undo(0, 0), Err(RuntimeError::Busy));
}

#[test]
fn undo_rejects_a_snapshot_after_the_conversation_revision_changes() {
    let mut owner = native();
    submit(&mut owner, "first prompt");
    assert_eq!(owner.check_undo(0, 0), Err(RuntimeError::Busy));
    finish_turn(&mut owner, StopReason::Stopped, &facts());
    assert_eq!(owner.check_undo(0, 0), Err(RuntimeError::Busy));
    assert_eq!(owner.check_undo(0, 1), Ok(()));
}

#[test]
fn undo_preserves_snapshot_identity_and_reassembles_sessionless_runtime() {
    let mut owner = native();
    owner.begin_undo();
    assert_eq!(owner.phase, RuntimePhase::Reconfiguring);
    let report = owner.stop_current_agent(
        vec![],
        false,
        CompactionInterruption::RuntimeReconfigured,
        None,
    );
    assert_eq!(owner.settle_undo(&report, &None), None);
    let result = owner.finish_undo(shot("left"), "first prompt".into(), 1, 1);
    assert_eq!(result.generation, RuntimeGeneration(1));
    assert_eq!(result.restored_prompt, "first prompt");
    assert_eq!(owner.phase, RuntimePhase::Ready);
}

#[test]
fn native_undo_persistence_error_fail_closes_an_unhealthy_aggregate() {
    let mut owner = native();
    let conflict = NativePersistenceError::snapshot_conflict("changed".into());
    assert_eq!(owner.undo_not_persisted(conflict, None), RuntimeError::Busy);
    let error = NativePersistenceError::certain("missing presentation".into());
    assert_eq!(
        owner.undo_not_persisted(error.clone(), None),
        RuntimeError::ReconfigureFailed("missing presentation".into())
    );
    assert_eq!(owner.phase, RuntimePhase::Ready);
    owner.undo_not_persisted(error, Some("unreadable".into()));
    assert_eq!(owner.phase, RuntimePhase::Failed);
    assert_eq!(
        errors(&events(&mut owner)),
        vec!["undo persistence could not be proven safe; runtime stopped: missing presentation; canonical native session health check failed: unreadable"]
    );
    assert!(!owner.admits(&CodingRuntimeControl::Cancel { generation: 0 }));
}

#[test]
fn native_undo_rollback_persistence_failure_is_sticky() {
    let mut owner = native();
    owner.begin_undo();
    let error = owner.abort_undo(
        "candidate provider failed".into(),
        Some("disk full".into()),
        Rollback::Rebuilt,
    );
    assert!(error.message().contains("snapshot restore failed: disk full"));
    assert_eq!(owner.phase, RuntimePhase::Failed);
    assert_eq!(
        owner.persistence_failure.as_deref(),
        Some("undo rollback persistence failed: disk full")
    );
    let mut recovered = native();
    recovered.begin_undo();
    recovered.abort_undo("x".into(), None, Rollback::Rebuilt);
    assert_eq!(recovered.phase, RuntimePhase::Ready);
    assert_eq!(recovered.generation, 0);
}

#[test]
fn failed_sessionless_restore_rolls_back_to_the_original_snapshot() {
    let mut owner = native();
    owner.begin_restore();
    let candidate = NativePersistenceError::certain("candidate provider failed".into());
    let error = owner.abort_restore(&candidate, None, Rollback::Rebuilt);
    assert_eq!(error, RuntimeError::ReconfigureFailed("candidate provider failed".into()));
    assert_eq!(owner.status(), RuntimeStatus { generation: 0, phase: RuntimePhase::Ready });
    let changed = owner.finish_restore(None, "/p".into());
    assert_eq!(changed.generation, RuntimeGeneration(1));
}

#[test]
fn restore_snapshot_rollback_persistence_failure_is_sticky() {
    let mut owner = native();
    owner.begin_restore();
    let _ = owner.take_actions();
    let candidate = NativePersistenceError::certain("candidate provider failed".into());
    let restore = NativePersistenceError::certain("presentation is gone".into());
    let error = owner.abort_restore(&candidate, Some(restore), Rollback::Rebuilt);
    assert!(error.message().contains("snapshot restore failed"));
    assert_eq!(owner.phase, RuntimePhase::Failed);
    assert!(errors(&events(&mut owner))[0].contains("snapshot rollback persistence failed"));
    assert!(!owner.admits(&CodingRuntimeControl::Cancel { generation: 0 }));
}

fn point() -> RewindPoint {
    RewindPoint {
        turn_id: 1,
        prompt_number: 1,
        prompt_preview: "first rewind prompt".into(),
        files: vec!["generated.txt".into()],
    }
}

#[test]
fn rewind_catalog_and_conversation_scope_are_runtime_owned() {
    let mut owner = native();
    let catalog = owner.rewind_catalog(0, None).unwrap();
    assert_eq!(
        catalog.code_unavailable.as_deref(),
        Some("rewind requires a persistent session")
    );
    let ledger = RewindLedger {
        transaction_unavailable: None,
        points: vec![point()],
        code_unavailable: None,
    };
    let catalog = owner.rewind_catalog(0, Some(ledger.clone())).unwrap();
    assert_eq!((catalog.points, catalog.revision), (vec![point()], 0));
    let closed = RewindLedger { transaction_unavailable: Some("busy ledger".into()), ..ledger };
    assert_eq!(
        owner.rewind_catalog(0, Some(closed)),
        Err(RuntimeError::ReconfigureFailed("busy ledger".into()))
    );
    submit(&mut owner, "x");
    assert_eq!(owner.rewind_catalog(0, None), Err(RuntimeError::Busy));
}

#[test]
fn a_rewind_closes_the_runtime_until_it_is_finished() {
    let mut owner = native();
    let points = vec![point()];
    assert_eq!(
        owner.check_rewind(0, 4, &point(), Some(&points)),
        Err(RuntimeError::Busy)
    );
    let mut other = point();
    other.prompt_number = 2;
    assert_eq!(
        owner.check_rewind(0, 0, &other, Some(&points)),
        Err(RuntimeError::RewindPointUnavailable { turn_id: 1 })
    );
    assert_eq!(
        owner.check_rewind(0, 0, &point(), None),
        Err(RuntimeError::CodeRewindUnavailable(
            "rewind requires a persistent session".into()
        ))
    );
    assert_eq!(owner.check_rewind(0, 0, &point(), Some(&points)), Ok(()));
    assert_eq!(owner.phase, RuntimePhase::Reconfiguring);
    assert_eq!(
        owner.check_finish_rewind(3, RewindFinalization::Commit),
        Err(RuntimeError::Busy)
    );
    assert_eq!(owner.check_finish_rewind(3, RewindFinalization::Recover), Ok(()));
    assert_eq!(owner.rewind_finished(RewindFinalization::Commit, None), Ok(()));
    assert_eq!(owner.phase, RuntimePhase::Ready);
}

#[test]
fn code_rewind_preserves_workspace_changes_made_after_the_turn() {
    let mut owner = native();
    let refused = RewindBeginFailure::Checkpoint {
        message: "workspace changed".into(),
        compensation_failed: false,
    };
    assert_eq!(
        owner.rewind_not_begun(refused, true),
        RuntimeError::CodeRewindUnavailable("workspace changed".into())
    );
    assert_eq!(owner.phase, RuntimePhase::Ready);
    let half = RewindBeginFailure::Checkpoint {
        message: "half".into(),
        compensation_failed: true,
    };
    assert_eq!(
        owner.rewind_not_begun(half, false),
        RuntimeError::ReconfigureFailed("rewind checkpoint update failed: half".into())
    );
    assert_eq!((owner.phase, owner.agent_attached), (RuntimePhase::Failed, false));
    assert_eq!(
        owner.rewind_not_begun(RewindBeginFailure::Task("panic".into()), false),
        RuntimeError::CodeRewindUnavailable("rewind checkpoint task failed: panic".into())
    );
}

#[test]
fn a_rewind_that_cannot_be_finished_stops_the_runtime() {
    for (outcome, failure, message) in [
        (
            RewindFinalization::Commit,
            RewindFinishFailure::Ledger("x".into()),
            "runtime reconfiguration failed: rewind commit failed: x",
        ),
        (
            RewindFinalization::Compensate,
            RewindFinishFailure::Task("y".into()),
            "runtime reconfiguration failed: rewind compensation task failed: y",
        ),
        (
            RewindFinalization::Recover,
            RewindFinishFailure::NoCheckpoint,
            "code rewind is unavailable: rewind finalization lost its session checkpoint",
        ),
    ] {
        let mut owner = native();
        let error = owner.rewind_finished(outcome, Some(failure)).unwrap_err();
        assert_eq!(error.message(), message);
        assert_eq!(owner.phase, RuntimePhase::Failed);
        assert_eq!(commands(&mut owner), vec![AgentCommand::Shutdown]);
    }
}

#[test]
fn clearing_a_goal_cancels_the_turn() {
    let mut owner = native();
    owner.start_goal(0, "tests pass".into()).unwrap();
    submit(&mut owner, "x");
    let _ = owner.take_actions();
    assert_eq!(owner.stop_goal(0), Ok(()));
    let actions = owner.take_actions();
    assert!(actions.contains(&OwnerAction::Send(AgentCommand::Cancel)));
    assert!(actions.contains(&OwnerAction::CancelController { id: 1 }));
    assert_eq!(owner.active_turn, Some(1));
    assert_eq!(owner.stop_goal(7), Err(RuntimeError::Unavailable));
    assert_eq!(owner.stop_loop(7), Err(RuntimeError::Unavailable));
}

#[test]
fn a_stopped_agent_leaves_no_usable_runtime() {
    let mut owner = native();
    owner.begin_stop();
    let report = owner.stop_current_agent(
        vec![],
        false,
        CompactionInterruption::RuntimeReconfigured,
        None,
    );
    owner.agent_stopped(&report, &None);
    assert!(!owner.agent_attached && !owner.agent_available);
    assert_eq!(owner.status(), RuntimeStatus { generation: 1, phase: RuntimePhase::Reconfiguring });
    owner.snapshot_waiters.push(5);
    owner.begin_exit(true);
    assert!(owner.take_actions().contains(&OwnerAction::AnswerSnapshot {
        waiter: 5,
        result: Err(RuntimeError::Unavailable),
    }));
}

#[test]
fn max_rounds_goal_terminal_is_evaluated_before_continuing() {
    let mut owner = native();
    owner.start_goal(0, "tests pass".into()).unwrap();
    submit(&mut owner, "initial turn");
    let _ = owner.take_actions();
    finish_turn(&mut owner, StopReason::MaxRounds, &facts());
    let actions = owner.take_actions();
    assert!(actions.iter().any(|a| matches!(a, OwnerAction::EvaluateGoal { .. })));
    assert!(!actions.iter().any(|a| matches!(a, OwnerAction::ContinueGoal { .. })));
    let outcome = evaluated(&owner, GoalResult::NotMet("needs more work".into()));
    owner.on_goal_evaluated(outcome);
    assert!(owner.take_actions().iter().any(|a| matches!(a,
        OwnerAction::ContinueGoal { reason, .. } if reason.contains("needs more work"))));
}

#[test]
fn goal_evaluator_panic_produces_turn_finished_and_allows_shutdown() {
    let mut owner = native();
    owner.start_goal(0, "tests pass".into()).unwrap();
    submit(&mut owner, "initial turn");
    finish_turn(&mut owner, StopReason::Stopped, &facts());
    let _ = owner.take_actions();
    let mut outcome = evaluated(&owner, GoalResult::Error("evaluator task failed".into()));
    outcome.usage = None;
    owner.on_goal_evaluated(outcome);
    let told = events(&mut owner);
    assert_eq!(goal_ends(&told).len(), 1);
    assert_eq!(terminals(&told), vec![(1, StopReason::ProviderError, true)]);
    assert!(told.contains(&CodingRuntimeEvent::ControllerWarning(
        "goal evaluator failed: evaluator task failed".into()
    )));
    owner.begin_shutdown(0);
    assert_eq!(owner.phase, RuntimePhase::ShuttingDown);
}

#[test]
fn goal_evaluator_failure_finishes_the_held_snapshot_without_failing_runtime() {
    let mut owner = native();
    owner.start_goal(0, "tests pass".into()).unwrap();
    submit(&mut owner, "initial turn");
    owner.on_agent_event(AgentEvent::TurnComplete { reason: StopReason::Stopped }, &facts());
    let expected = Arc::new(SessionSnapshot::new(vec![Message::user("persisted")]));
    owner.on_agent_event(AgentEvent::Snapshot { snapshot: expected.clone() }, &facts());
    let _ = owner.take_actions();
    let outcome = evaluated(&owner, GoalResult::Error("no provider".into()));
    owner.on_goal_evaluated(outcome);
    assert!(events(&mut owner).iter().any(|event| matches!(event,
        CodingRuntimeEvent::TurnFinished(TurnCompletion::Completed { snapshot, reason, .. })
            if *snapshot == expected && *reason == StopReason::ProviderError)));
    assert_eq!((owner.phase, owner.agent_available), (RuntimePhase::Ready, true));
}

#[test]
fn stop_agent_drains_compacted_before_returning() {
    let mut owner = RuntimeOwner::new(false, RuntimePhase::Ready, None, true, false, false);
    owner.compact(0, Some("before reload".into()));
    let started = AgentEvent::CompactionStarted { trigger: manual(Some("before reload")) };
    owner.on_agent_event(started, &facts());
    let _ = owner.take_actions();
    owner.begin_stop();
    let report = owner.stop_current_agent(
        vec![compacted(Some("before reload"), None)],
        false,
        CompactionInterruption::RuntimeReconfigured,
        None,
    );
    owner.agent_stopped(&report, &None);
    let told = events(&mut owner);
    assert_eq!(told.len(), 1);
    assert!(matches!(&told[0], CodingRuntimeEvent::CompactionFinished {
        completion: CompactionCompletion::Completed(outcome)
    } if outcome.committed && outcome.removed_messages == 2));
}

#[test]
fn replace_interrupts_delivered_compaction_that_never_started() {
    let mut owner = RuntimeOwner::new(false, RuntimePhase::Ready, None, true, false, false);
    owner.compact(0, Some("queued in old agent".into()));
    let _ = owner.take_actions();
    owner.begin_replace();
    let report = owner.stop_current_agent(
        vec![],
        false,
        CompactionInterruption::RuntimeReconfigured,
        None,
    );
    owner.finish_replace(&report, &None, true);
    let told = events(&mut owner);
    assert_eq!(told.len(), 1);
    assert_eq!(
        interruptions(&told),
        vec![(
            manual(Some("queued in old agent")),
            CompactionInterruption::RuntimeReconfigured
        )]
    );
}

#[test]
fn stable_handle_targets_replacement_agent() {
    let mut owner = RuntimeOwner::new(false, RuntimePhase::Ready, None, true, false, false);
    let resume = owner.begin_replace().unwrap();
    let report = owner.stop_current_agent(
        vec![],
        false,
        CompactionInterruption::RuntimeReconfigured,
        None,
    );
    assert!(owner.finish_replace(&report, &None, resume));
    let _ = owner.take_actions();
    let status = owner.status();
    assert_eq!(status, RuntimeStatus { generation: 1, phase: RuntimePhase::Ready });
    owner.compact(status.generation, Some("new agent".into()));
    assert_eq!(
        commands(&mut owner),
        vec![AgentCommand::Compact { focus: Some("new agent".into()) }]
    );
}

#[test]
fn stopped_or_degraded_runtime_rejects_compaction() {
    let owner = RuntimeOwner::new(false, RuntimePhase::Failed, None, true, false, false);
    let state = runtime_phase_state(owner.generation, owner.phase);
    assert_eq!(compact(state, None), Err(RuntimeUnavailable));
    let accepts = |command| runtime_phase_accepts_command(owner.phase, &command);
    assert!(!accepts(DriverCommand::Submit(UserInput::from("blocked"))));
    assert!(accepts(DriverCommand::ReloadProvider(CodingAgentConfig::new(
        "key",
        "https://example.test/v1",
        "model",
        ".",
    ))));
    assert!(accepts(DriverCommand::Shutdown));
    assert!(owner.outbox.is_empty());
}

fn starts_awaiting_provider_and_can_reassemble(
    error: ProviderBuildError,
    reason: ProviderUnavailableReason,
) {
    let gap = provider_gap(ProviderBootstrap::RecoverAuthentication, error, "printed".into());
    assert_eq!(gap, Ok(reason));
    let mut owner =
        RuntimeOwner::new(true, initial_phase(Some(reason)), Some(reason), false, true, false);
    assert_eq!(owner.phase, RuntimePhase::AwaitingProvider);
    assert_eq!(
        owner.begin_submit(0, UserInput::from("blocked")),
        Err(RuntimeError::ProviderUnavailable(reason))
    );
    assert!(!owner.begin_reassemble());
    let committed = owner.commit_reassemble("p".into(), "ready".into(), None);
    assert_eq!(committed, (RuntimeGeneration(1), false));
    assert_eq!(owner.phase, RuntimePhase::Ready);
    assert_eq!(owner.provider_unavailable_reason, None);
}

#[test]
fn recoverable_auth_gap_starts_awaiting_provider_and_can_reassemble() {
    starts_awaiting_provider_and_can_reassemble(
        ProviderBuildError::Authentication("missing".into()),
        ProviderUnavailableReason::AuthenticationRequired,
    );
}

#[test]
fn source_build_gateway_gap_starts_awaiting_provider_and_can_switch() {
    starts_awaiting_provider_and_can_reassemble(
        ProviderBuildError::SourceBuildGatewayUnsupported {
            base_url: "https://llm-api.atomgit.com/v1".into(),
        },
        ProviderUnavailableReason::UnsupportedBuild,
    );
}

#[test]
fn abandoned_rewind_recovers_after_undo_advances_generation() {
    let mut owner = native();
    let points = vec![point()];
    owner.check_rewind(0, 0, &point(), Some(&points)).unwrap();
    assert_eq!(owner.check_undo(0, 0), Ok(()));
    owner.begin_undo();
    let report = owner.stop_current_agent(
        vec![],
        false,
        CompactionInterruption::RuntimeReconfigured,
        None,
    );
    assert_eq!(owner.settle_undo(&report, &None), None);
    let applied = owner.finish_undo(shot("target"), "p".into(), 1, 1);
    assert_ne!(applied.generation, RuntimeGeneration(0));
    assert_eq!(
        owner.check_finish_rewind(0, RewindFinalization::Commit),
        Err(RuntimeError::Busy)
    );
    assert_eq!(owner.check_finish_rewind(0, RewindFinalization::Recover), Ok(()));
    assert_eq!(owner.rewind_finished(RewindFinalization::Recover, None), Ok(()));
    assert_eq!(owner.status(), RuntimeStatus { generation: 1, phase: RuntimePhase::Ready });
}

#[test]
fn provider_reassemble_preserves_the_latest_sessionless_snapshot() {
    let mut owner = native();
    submit(&mut owner, "first prompt");
    let before = shot("before");
    owner.on_agent_event(AgentEvent::TurnComplete { reason: StopReason::Stopped }, &facts());
    owner.on_agent_event(AgentEvent::Snapshot { snapshot: before.clone() }, &facts());
    assert!(owner.take_actions().contains(&OwnerAction::KeepResume(before)));
    let mut bound = RuntimeOwner::new(true, RuntimePhase::Ready, None, true, true, true);
    let stored = shot("stored");
    bound.on_agent_event(AgentEvent::Snapshot { snapshot: stored.clone() }, &facts());
    assert!(!bound.take_actions().contains(&OwnerAction::KeepResume(stored)));
}

#[test]
fn fresh_session_is_runtime_owned_and_returns_new_identity() {
    let mut owner = native();
    owner.begin_reprepare(ReconfigureKind::FreshSession);
    assert!(!owner.begin_switch());
    let report = owner.stop_current_agent(
        vec![],
        false,
        CompactionInterruption::RuntimeReconfigured,
        None,
    );
    assert_eq!(owner.settle_stop(&report, &None), None);
    let changed =
        owner.finish_switch(ReconfigureKind::FreshSession, Some("fresh".into()), ".".into());
    assert_eq!(changed.generation, RuntimeGeneration(1));
    assert_eq!(changed.session_id.as_deref(), Some("fresh"));
    assert_eq!(owner.status().generation, 1);
}

#[test]
fn failed_fresh_candidate_keeps_previous_runtime_ready() {
    let mut owner = native();
    let previous = owner.begin_reprepare(ReconfigureKind::FreshSession);
    let error = owner.abort_reprepare(previous, "candidate provider failed".into(), None);
    assert_eq!(error, RuntimeError::ReconfigureFailed("candidate provider failed".into()));
    assert_eq!(owner.phase, RuntimePhase::Ready);
    assert_eq!(
        submit(&mut owner, "old runtime still works"),
        SubmitReceipt::Started { generation: 0, turn_id: 1 }
    );
}

#[test]
fn compactions_end_once() {
    let mut owner = native();
    let finished = |owner: &mut RuntimeOwner| {
        events(owner)
            .iter()
            .filter(|event| matches!(event, CodingRuntimeEvent::CompactionFinished { .. }))
            .count()
    };
    owner.compact(0, Some("a".into()));
    owner.compact(0, Some("b".into()));
    owner.compact(5, Some("c".into()));
    assert_eq!(finished(&mut owner), 1);
    owner.on_agent_event(compacted(Some("b"), None), &facts());
    assert_eq!(finished(&mut owner), 1);
    owner.begin_stop();
    let report = owner.stop_current_agent(
        vec![],
        false,
        CompactionInterruption::RuntimeReconfigured,
        None,
    );
    owner.agent_stopped(&report, &None);
    let told = events(&mut owner);
    assert_eq!(
        interruptions(&told),
        vec![(manual(Some("a")), CompactionInterruption::RuntimeReconfigured)]
    );
    assert!(!owner.compactions.is_active());
}

#[test]
fn one_terminal_over_a_whole_course() {
    let mut owner = native();
    owner.start_goal(0, "tests pass".into()).unwrap();
    submit(&mut owner, "initial turn");
    submit(&mut owner, "and this");
    finish_turn(&mut owner, StopReason::Timeout, &facts());
    finish_turn(&mut owner, StopReason::Stopped, &facts());
    let outcome = evaluated(&owner, GoalResult::NotMet("more".into()));
    owner.on_goal_evaluated(outcome);
    finish_turn(&mut owner, StopReason::Stopped, &facts());
    assert_eq!(owner.cancel(0), Ok(()));
    assert_eq!(owner.cancel(0), Ok(()));
    let stale = evaluated(&owner, GoalResult::Met("late".into()));
    owner.on_goal_evaluated(stale);
    owner.on_stream_closed();
    assert_eq!(
        terminals(&events(&mut owner)),
        vec![(1, StopReason::Cancelled, true)]
    );
}

#[test]
fn events_ask_only_for_what_they_need() {
    let mut owner = native();
    submit(&mut owner, "x");
    let ended = AgentEvent::TurnComplete { reason: StopReason::Stopped };
    let asked = owner.questions(&ended);
    assert!(asked.doubt && asked.cost_warning && asked.elapsed && !asked.stored);
    let snapshot = AgentEvent::Snapshot { snapshot: shot("s") };
    let asked = owner.questions(&snapshot);
    assert!(asked.stored && !asked.naming && !asked.goal_cap && !asked.doubt);
    owner.on_agent_event(ended, &facts());
    assert!(owner.questions(&snapshot).naming && !owner.questions(&snapshot).goal_cap);
    let asked = owner.questions(&compacted(None, None));
    assert!(asked.cost_warning && !asked.doubt);
    let asked = owner.questions(&AgentEvent::TurnStarted);
    assert!(!asked.doubt && !asked.cost_warning && !asked.elapsed && !asked.stored);
}

#[test]
fn a_steer_that_cannot_be_delivered_keeps_the_accepted_turn() {
    let mut owner = native();
    submit(&mut owner, "first");
    owner.observe_agent(false);
    let steer = owner.begin_submit(0, UserInput::from("second")).unwrap();
    assert_eq!(steer.receipt, SubmitReceipt::Steered { generation: 0, turn_id: 1 });
    assert_eq!(
        owner.finish_submit(steer.receipt, steer.input, None),
        Err(RuntimeError::DeliveryFailed)
    );
    assert_eq!((owner.active_turn, owner.phase), (Some(1), RuntimePhase::Failed));
    owner.on_stream_closed();
    owner.begin_exit(false);
    owner.finish_exit(&no_report(), &None);
    assert_eq!(
        terminals(&events(&mut owner)),
        vec![(1, StopReason::ProviderError, false)]
    );
    assert_eq!(owner.phase, RuntimePhase::Stopped);
}

#[test]
fn an_owner_that_ends_by_itself_reports_the_turn() {
    let mut owner = native();
    submit(&mut owner, "first");
    owner.begin_exit(false);
    let exit = owner.finish_exit(&no_report(), &Some(shot("stored")));
    assert_eq!(exit.reason, RuntimeExitReason::OwnerStopped);
    assert_eq!(terminals(&events(&mut owner)), vec![(1, StopReason::Cancelled, true)]);
    owner.finish_exit(&no_report(), &None);
    assert!(events(&mut owner).is_empty());
}

#[test]
fn a_turn_that_a_goal_holds_is_reported_once_when_the_provider_changes() {
    let mut owner = native();
    owner.start_goal(0, "tests pass".into()).unwrap();
    submit(&mut owner, "initial turn");
    finish_turn(&mut owner, StopReason::Stopped, &facts());
    owner.begin_reassemble();
    let report = owner.stop_current_agent(
        vec![],
        false,
        CompactionInterruption::RuntimeReconfigured,
        None,
    );
    assert_eq!(owner.settle_stop(&report, &Some(shot("s"))), None);
    owner.commit_reassemble("p".into(), "m".into(), None);
    assert_eq!(owner.cancel(1), Ok(()));
    assert_eq!(terminals(&events(&mut owner)), vec![(1, StopReason::Cancelled, true)]);
}

#[test]
fn a_turn_that_is_steered_while_held_is_reported_once() {
    let mut owner = native();
    owner.start_goal(0, "tests pass".into()).unwrap();
    submit(&mut owner, "initial turn");
    finish_turn(&mut owner, StopReason::Stopped, &facts());
    submit(&mut owner, "one more thing");
    let mut capped = facts();
    capped.goal_cap = Some("round limit".into());
    finish_turn(&mut owner, StopReason::Stopped, &capped);
    assert_eq!(owner.cancel(0), Ok(()));
    assert_eq!(terminals(&events(&mut owner)), vec![(1, StopReason::MaxRounds, true)]);
    assert_eq!(owner.held_turn, None);
    assert_eq!(
        submit(&mut owner, "next"),
        SubmitReceipt::Started { generation: 0, turn_id: 2 }
    );
}

#[test]
fn a_ready_runtime_names_no_reason() {
    let reason = ProviderUnavailableReason::AuthenticationRequired;
    let awaiting =
        || RuntimeOwner::new(true, RuntimePhase::AwaitingProvider, Some(reason), false, true, true);
    let mut switched = awaiting();
    switched.finish_switch(ReconfigureKind::FreshSession, Some("s".into()), ".".into());
    let mut undone = awaiting();
    undone.finish_undo(shot("x"), "p".into(), 1, 1);
    let mut restored = awaiting();
    restored.finish_restore(None, ".".into());
    let mut rolled_back = awaiting();
    rolled_back.abort_undo("x".into(), None, Rollback::Rebuilt);
    let mut replaced = awaiting();
    replaced.begin_replace();
    replaced.finish_replace(&no_report(), &None, true);
    for owner in [switched, undone, restored, rolled_back, replaced] {
        assert_eq!(owner.phase, RuntimePhase::Ready);
        assert_eq!(owner.provider_unavailable_reason, None);
    }
    let mut rewound = awaiting();
    rewound.check_rewind(0, 0, &point(), Some(&vec![point()])).unwrap();
    assert_eq!(rewound.rewind_finished(RewindFinalization::Commit, None), Ok(()));
    assert_eq!(rewound.phase, RuntimePhase::AwaitingProvider);
    let contradictory =
        RuntimeOwner::new(true, RuntimePhase::Ready, Some(reason), false, true, false);
    assert_eq!(contradictory.phase, RuntimePhase::AwaitingProvider);
}

#[test]
fn a_goal_is_asked_about_with_the_turn_charged() {
    let mut owner = native();
    assert!(owner.charged_goal().is_none());
    owner.start_goal(0, "tests pass".into()).unwrap();
    submit(&mut owner, "x");
    assert_eq!(owner.charged_goal().unwrap().tokens_used, 0);
    let meta = MessageMeta {
        used_tokens: 900,
        ctx_window: 1000,
        elapsed_ms: 1,
        tokens: TokenUsage { prompt: 800, completion: 100, cached: 0 },
    };
    owner.on_agent_event(AgentEvent::Usage(meta), &facts());
    assert_eq!(owner.charged_goal().unwrap().tokens_used, 900);
    assert_eq!(owner.goal.as_ref().unwrap().tokens_used, 0);
}

#[test]
fn concurrent_handle_shutdown_waiters_share_one_terminal_result() {
    let mut owner = native();
    owner.begin_shutdown(0);
    let report =
        owner.stop_current_agent(vec![], false, CompactionInterruption::RuntimeShutdown, None);
    let exit = owner.finish_shutdown(&report, &None);
    owner.begin_exit(true);
    assert_eq!(exit.reason, RuntimeExitReason::ShutdownRequested);
    assert_eq!(shutdown_answer(None, false), None);
    for owner_gone in [false, true, true] {
        assert_eq!(shutdown_answer(Some(exit), owner_gone), Some(Ok(exit)));
    }
    assert_eq!(shutdown_answer(None, true), Some(Err(RuntimeUnavailable)));
    let state = runtime_phase_state(owner.generation, owner.phase);
    assert_eq!(owner.phase, RuntimePhase::Stopped);
    assert_eq!(compact(state, None), Err(RuntimeUnavailable));
}

#[test]
fn the_stop_is_announced_once_and_last() {
    let exit = atomcode_coding::phase::RuntimeExit {
        reason: RuntimeExitReason::OwnerStopped,
        forced: false,
    };
    let mut sequencer = EventSequencer::new();
    let tagged = |event| GenerationTaggedRuntimeEvent { generation: 0, event };
    let stop = CodingRuntimeEvent::RuntimeStopped(exit);
    assert_eq!(sequencer.stamp(tagged(stop)), None);
    let first = sequencer
        .stamp(tagged(CodingRuntimeEvent::ControllerWarning("w".into())))
        .unwrap();
    let last = sequencer.stamp_exit(3, exit);
    assert_eq!((first.sequence, last.sequence, last.generation), (0, 1, 3));
    assert_eq!(last.event, CodingRuntimeEvent::RuntimeStopped(exit));
}

#[test]
fn the_host_judges_only_where_the_evaluator_does_not_build() {
    assert_eq!(evaluator_step(2, &vec![]), EvaluatorStep::Build(0));
    assert_eq!(evaluator_step(2, &vec![true]), EvaluatorStep::Use(0));
    assert_eq!(evaluator_step(2, &vec![false]), EvaluatorStep::Build(1));
    assert_eq!(evaluator_step(2, &vec![false, true]), EvaluatorStep::Use(1));
    assert_eq!(evaluator_step(2, &vec![false, false]), EvaluatorStep::GiveUp);
    assert_eq!(evaluator_step(1, &vec![false]), EvaluatorStep::GiveUp);
}

#[test]
fn a_command_that_does_not_arrive_fails_the_runtime() {
    let mut owner = native();
    submit(&mut owner, "x");
    owner.agent_unreachable(LostCommand::Other);
    assert_eq!((owner.phase, owner.active_turn), (RuntimePhase::Failed, Some(1)));
    assert_eq!(owner.begin_submit(0, UserInput::from("y")), Err(RuntimeError::Unavailable));
    owner.on_stream_closed();
    assert_eq!(
        terminals(&events(&mut owner)),
        vec![(1, StopReason::ProviderError, false)]
    );
}

#[test]
fn a_turn_whose_prompt_is_lost_was_never_accepted() {
    let mut owner = native();
    submit(&mut owner, "x");
    owner.agent_unreachable(LostCommand::Opening);
    assert_eq!((owner.phase, owner.active_turn), (RuntimePhase::Failed, None));
    owner.on_stream_closed();
    assert!(terminals(&events(&mut owner)).is_empty());
}

#[test]
fn a_lost_question_refuses_every_waiter() {
    let mut owner = native();
    owner.snapshot(0, 7).unwrap();
    assert!(owner.snapshot_in_flight);
    owner.take_actions();
    owner.agent_unreachable(LostCommand::Snapshot);
    assert!(!owner.snapshot_in_flight && owner.snapshot_waiters.is_empty());
    assert_eq!(
        owner.take_actions(),
        vec![OwnerAction::AnswerSnapshot {
            waiter: 7,
            result: Err(RuntimeError::DeliveryFailed),
        }]
    );
}
