use atomcode_coding::control::{
    compact, dispatch, runtime_phase_accepts_command, CodingRuntimeControl, Dispatch, DriverCommand,
};
use atomcode_coding::config::CodingAgentConfig;
use atomcode_coding::conversation::SessionSnapshot;
use atomcode_coding::error::{
    ProviderBuildError, RuntimeError, RuntimeStartError, RuntimeUnavailable,
};
use atomcode_coding::event::{
    CodingRuntimeEvent, GenerationTaggedRuntimeEvent, ProviderBootstrap, ReconfigureKind,
    ReplyValue, UserInput,
};
use atomcode_coding::mode::{RewindScope, RuntimeMode};
use atomcode_coding::phase::{
    decode_provider_unavailable_reason, encode_provider_unavailable_reason, runtime_phase_state,
    runtime_state, runtime_state_available, runtime_status, ProviderUnavailableReason, RuntimeExit,
    RuntimeExitReason, RuntimePhase, RuntimeStatus,
};
use atomcode_coding::start::{
    exit_or_forced, initial_phase, provider_gap, session_info, unavailable_at_start, EventSequencer,
};

const MODES: [RuntimeMode; 4] = [
    RuntimeMode::Build,
    RuntimeMode::AcceptEdits,
    RuntimeMode::Auto,
    RuntimeMode::Plan,
];

const PHASES: [RuntimePhase; 8] = [
    RuntimePhase::Ready,
    RuntimePhase::InTurn,
    RuntimePhase::WaitingApproval,
    RuntimePhase::Reconfiguring,
    RuntimePhase::AwaitingProvider,
    RuntimePhase::ShuttingDown,
    RuntimePhase::Stopped,
    RuntimePhase::Failed,
];

#[test]
fn modes_cycle_in_four_steps() {
    assert_eq!(RuntimeMode::default(), RuntimeMode::Build);
    assert_eq!(RuntimeMode::Build.next(), RuntimeMode::AcceptEdits);
    assert_eq!(RuntimeMode::AcceptEdits.next(), RuntimeMode::Auto);
    assert_eq!(RuntimeMode::Auto.next(), RuntimeMode::Plan);
    assert_eq!(RuntimeMode::Plan.next(), RuntimeMode::Build);
    for mode in MODES {
        assert_eq!(mode.next().prev(), mode);
        assert_eq!(mode.prev().next(), mode);
        assert_eq!(mode.next().next().next().next(), mode);
    }
}

#[test]
fn mode_flags_and_names() {
    assert_eq!(RuntimeMode::Build.to_flags(), (false, false, false));
    assert_eq!(RuntimeMode::AcceptEdits.to_flags(), (false, false, true));
    assert_eq!(RuntimeMode::Auto.to_flags(), (false, true, false));
    assert_eq!(RuntimeMode::Plan.to_flags(), (true, false, false));
    let wires: Vec<&str> = MODES.iter().map(|mode| mode.wire()).collect();
    assert_eq!(wires, vec!["build", "accept_edits", "bypass", "plan"]);
    let labels: Vec<&str> = MODES.iter().map(|mode| mode.label()).collect();
    assert_eq!(labels, vec!["Build", "AcceptEdits", "Auto", "Plan"]);
    assert!(RuntimeMode::Plan.is_plan() && !RuntimeMode::Auto.is_plan());
    assert!(RuntimeMode::Auto.is_auto() && !RuntimeMode::Plan.is_auto());
    assert!(RuntimeMode::AcceptEdits.is_accept_edits() && !RuntimeMode::Build.is_accept_edits());
}

#[test]
fn rewind_scopes_restore_what_they_name() {
    assert!(RewindScope::Conversation.restores_conversation());
    assert!(!RewindScope::Conversation.restores_code());
    assert!(!RewindScope::Code.restores_conversation());
    assert!(RewindScope::Code.restores_code());
    assert!(RewindScope::ConversationAndCode.restores_conversation());
    assert!(RewindScope::ConversationAndCode.restores_code());
}

#[test]
fn packed_status_is_read_back() {
    for phase in PHASES {
        for generation in [0u64, 1, 7, (1 << 61) - 1] {
            assert_eq!(
                runtime_status(runtime_phase_state(generation, phase)),
                RuntimeStatus { generation, phase }
            );
        }
    }
    assert_eq!(runtime_phase_state(5, RuntimePhase::WaitingApproval), 42);
    assert_eq!(runtime_phase_state(1 << 61, RuntimePhase::Failed), 6);
    assert_eq!(runtime_state(2, true), 16);
    assert_eq!(runtime_state(2, false), 22);
}

#[test]
fn availability_follows_the_phase() {
    for phase in PHASES {
        let expected = matches!(
            phase,
            RuntimePhase::Ready | RuntimePhase::InTurn | RuntimePhase::WaitingApproval
        );
        assert_eq!(runtime_state_available(runtime_phase_state(3, phase)), expected);
    }
}

#[test]
fn provider_reasons_are_read_back() {
    let reasons = [
        None,
        Some(ProviderUnavailableReason::NotConfigured),
        Some(ProviderUnavailableReason::AuthenticationRequired),
        Some(ProviderUnavailableReason::UnsupportedBuild),
    ];
    for (code, reason) in reasons.into_iter().enumerate() {
        assert_eq!(encode_provider_unavailable_reason(reason) as usize, code);
        assert_eq!(decode_provider_unavailable_reason(code as u8), reason);
    }
    assert_eq!(decode_provider_unavailable_reason(9), None);
}

#[test]
fn commands_are_accepted_by_phase() {
    let reload = DriverCommand::ReloadProvider(CodingAgentConfig::new("k", "u", "m", "."));
    let submit = DriverCommand::Submit(UserInput::from("blocked"));
    assert!(runtime_phase_accepts_command(RuntimePhase::InTurn, &submit));
    assert!(!runtime_phase_accepts_command(RuntimePhase::Failed, &submit));
    assert!(runtime_phase_accepts_command(RuntimePhase::Failed, &reload));
    assert!(runtime_phase_accepts_command(RuntimePhase::AwaitingProvider, &reload));
    assert!(!runtime_phase_accepts_command(RuntimePhase::Reconfiguring, &reload));
    assert!(runtime_phase_accepts_command(RuntimePhase::ShuttingDown, &DriverCommand::Shutdown));
    assert!(!runtime_phase_accepts_command(RuntimePhase::Stopped, &DriverCommand::Shutdown));
}

#[test]
fn compact_emits_kernel_command() {
    assert_eq!(
        compact(runtime_phase_state(3, RuntimePhase::Ready), Some("recent tool output".into())),
        Ok(CodingRuntimeControl::Compact {
            generation: 3,
            focus: Some("recent tool output".into()),
        })
    );
    assert_eq!(
        compact(runtime_phase_state(3, RuntimePhase::Failed), None),
        Err(RuntimeUnavailable)
    );
}

#[test]
fn dispatch_carries_the_generation_of_the_handle() {
    let state = runtime_phase_state(4, RuntimePhase::Ready);
    assert_eq!(
        dispatch(state, false, DriverCommand::Cancel),
        Ok(Dispatch::Control(CodingRuntimeControl::Cancel { generation: 4 }))
    );
    assert_eq!(
        dispatch(state, false, DriverCommand::Respond { id: 7, value: ReplyValue::Null }),
        Ok(Dispatch::Control(CodingRuntimeControl::Respond {
            generation: 4,
            id: 7,
            value: ReplyValue::Null,
        }))
    );
    assert_eq!(
        dispatch(
            state,
            false,
            DriverCommand::RestoreSnapshotCorrelated {
                snapshot: SessionSnapshot::new(vec![]),
                correlation_id: 9,
            }
        ),
        Ok(Dispatch::Control(CodingRuntimeControl::RestoreSnapshot {
            generation: 4,
            snapshot: SessionSnapshot::new(vec![]),
        }))
    );
    assert_eq!(
        dispatch(state, false, DriverCommand::UndoToPrompt(Some(2))),
        Ok(Dispatch::Undo(Some(2)))
    );
    assert_eq!(
        dispatch(
            state,
            false,
            DriverCommand::Rewind { turn_id: 3, scope: RewindScope::Code }
        ),
        Ok(Dispatch::Rewind { turn_id: 3, scope: RewindScope::Code })
    );
    assert_eq!(
        dispatch(state, false, DriverCommand::RefreshContextStats),
        Ok(Dispatch::ContextStats)
    );
    assert_eq!(dispatch(state, true, DriverCommand::Cancel), Err(RuntimeUnavailable));
    assert_eq!(
        dispatch(
            runtime_phase_state(4, RuntimePhase::Reconfiguring),
            false,
            DriverCommand::StopGoal
        ),
        Err(RuntimeUnavailable)
    );
}

#[test]
fn recoverable_provider_gaps_start_awaiting_a_provider() {
    assert_eq!(
        provider_gap(
            ProviderBootstrap::RecoverAuthentication,
            ProviderBuildError::Authentication("login required".into()),
            "login required".into()
        ),
        Ok(ProviderUnavailableReason::AuthenticationRequired)
    );
    assert_eq!(
        provider_gap(
            ProviderBootstrap::RecoverAuthentication,
            ProviderBuildError::SourceBuildGatewayUnsupported {
                base_url: "https://llm-api.atomgit.com/v1".into(),
            },
            "unsupported".into()
        ),
        Ok(ProviderUnavailableReason::UnsupportedBuild)
    );
    assert_eq!(
        initial_phase(Some(ProviderUnavailableReason::UnsupportedBuild)),
        RuntimePhase::AwaitingProvider
    );
    assert_eq!(initial_phase(None), RuntimePhase::Ready);
    assert_eq!(
        unavailable_at_start(ProviderBootstrap::Unavailable(
            ProviderUnavailableReason::NotConfigured
        )),
        Some(ProviderUnavailableReason::NotConfigured)
    );
    assert_eq!(unavailable_at_start(ProviderBootstrap::Required), None);
}

#[test]
fn required_source_build_gateway_gap_remains_startup_error() {
    let error = ProviderBuildError::SourceBuildGatewayUnsupported {
        base_url: "https://llm-api.atomgit.com/v1".into(),
    };
    assert_eq!(
        provider_gap(ProviderBootstrap::Required, error.clone(), "no".into()),
        Err(RuntimeStartError::Provider { error, printed: "no".into() })
    );
}

#[test]
fn native_start_returns_provider_error_without_degraded_handle() {
    let error = ProviderBuildError::Adapter("expected failure".into());
    let failed = provider_gap(
        ProviderBootstrap::RecoverAuthentication,
        error.clone(),
        "expected failure".into(),
    )
    .unwrap_err();
    assert_eq!(
        failed.message(),
        "coding runtime provider failed: expected failure"
    );
}

#[test]
fn events_are_numbered_in_order() {
    let mut sequencer = EventSequencer::new();
    let first = sequencer.stamp(GenerationTaggedRuntimeEvent {
        generation: 0,
        event: CodingRuntimeEvent::Reconfiguring { operation: ReconfigureKind::Provider },
    })
    .unwrap();
    let second = sequencer.stamp_agent(1, atomcode_coding::event::AgentEvent::TurnStarted);
    let exit = RuntimeExit { reason: RuntimeExitReason::ShutdownRequested, forced: false };
    let last = sequencer.stamp_exit(1, exit);
    assert_eq!((first.generation, first.sequence), (0, 0));
    assert_eq!((second.generation, second.sequence), (1, 1));
    assert_eq!(last.sequence, 2);
    assert_eq!(last.event, CodingRuntimeEvent::RuntimeStopped(exit));
    let mut wrapped = EventSequencer { next: u64::MAX };
    let _ = wrapped.stamp_agent(0, atomcode_coding::event::AgentEvent::TurnStarted);
    assert_eq!(wrapped.next, 0);
    assert_eq!(exit_or_forced(Some(exit)), exit);
    assert_eq!(
        exit_or_forced(None),
        RuntimeExit { reason: RuntimeExitReason::OwnerStopped, forced: true }
    );
    assert_eq!(session_info(None, true), None);
    assert!(session_info(Some("s".into()), true).unwrap().resumed);
}

#[test]
fn error_messages_read_as_documented() {
    assert_eq!(RuntimeError::Busy.message(), "coding runtime is busy");
    assert_eq!(
        RuntimeError::SessionInUse { id: "a\"b".into() }.message(),
        "session \"a\\\"b\" is already in use by another runtime"
    );
    assert_eq!(
        RuntimeError::StaleRequest { id: 41 }.message(),
        "runtime request 41 is stale"
    );
    assert_eq!(
        RuntimeError::UndoOutOfRange { requested: 120, available: 7 }.message(),
        "cannot undo prompt 120; only 7 user prompts are available"
    );
    assert_eq!(
        RuntimeError::RewindPointUnavailable { turn_id: 0 }.message(),
        "rewind point for turn 0 is unavailable"
    );
    assert_eq!(
        RuntimeError::ProviderUnavailable(ProviderUnavailableReason::AuthenticationRequired)
            .message(),
        "provider unavailable: provider authentication required — run /login"
    );
    assert_eq!(
        RuntimeError::SnapshotUnavailable("x".into()).message(),
        "snapshot unavailable: x"
    );
    assert_eq!(
        RuntimeError::ReconfigureFailed("x".into()).message(),
        "runtime reconfiguration failed: x"
    );
    assert_eq!(RuntimeError::InvalidWorkingDirectory("x".into()).message(), "x");
    assert_eq!(
        RuntimeError::CodeRewindUnavailable("x".into()).message(),
        "code rewind is unavailable: x"
    );
    assert_eq!(RuntimeError::DeliveryFailed.message(), "kernel command delivery failed");
    assert_eq!(RuntimeError::Unavailable.message(), "coding runtime is unavailable");
    assert_eq!(RuntimeUnavailable.message(), "coding runtime is unavailable");
    assert_eq!(
        RuntimeStartError::Prepare("disk".into()).message(),
        "coding runtime prepare failed: disk"
    );
    assert_eq!(
        RuntimeStartError::Assemble("graph".into()).message(),
        "coding runtime assemble failed: graph"
    );
}
