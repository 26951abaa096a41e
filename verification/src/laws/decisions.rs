//! Decisions that are made from plain values: how a command is handed over, in which phase a
//! runtime is, how it starts, which past it goes back to, and what it is prepared for.
use super::texts::{before_is_decided_at_a_difference, precedes};
use crate::config::{CodingAgentConfig, PrepareOptions, ResolvedModel, SessionMode};
use crate::control::{
    compact, dispatch, runtime_phase_accepts_command, CodingRuntimeControl, Dispatch, DriverCommand,
    ReprepareTarget,
};
use crate::conversation::SessionSnapshot;
use crate::error::{
    persistence_fail_close_reason, runtime_prepare_error, runtime_start_prepare_error,
    NativePersistenceError, PrepareFailure, ProviderBuildError, RuntimeError, RuntimeStartError,
    RuntimeUnavailable, StoreFailure,
};
use crate::event::{
    AgentEvent, CodingRuntimeEvent, GenerationTaggedRuntimeEvent, ProviderBootstrap,
    ReconfigureKind, RewindCatalog, RewindPoint, RewindResult, RuntimeSessionInfo,
    RuntimeSnapshotReceipt, SequencedRuntimeEvent, StopReason, UndoResult,
};
use crate::goal_evaluator::{
    build_goal_evaluator_provider, evaluator_config, evaluator_step, EvaluatorStep,
};
use crate::mode::{RewindScope, RuntimeMode};
use crate::phase::{
    decode_provider_unavailable_reason, encode_provider_unavailable_reason, phase_code,
    runtime_phase_state, runtime_state, runtime_state_available, runtime_state_generation,
    runtime_status, ProviderUnavailableReason, RuntimeExit, RuntimeGeneration, RuntimePhase,
    RuntimeStatus,
};
use crate::reprepare::{
    discard_failure, discards_candidate, inherits_continuity, lease_source, reuses_session,
    resolve_reprepare_input, withdraws_tools, CurrentRuntime, LeaseSource, ObservedTarget,
    ResolvedReprepare,
};
use crate::rewind::{
    after_undo, choose_point, code_rewound, compensated, conversation_rewound, plan_rewind,
    RewindNext,
};
use crate::start::{
    exit_or_forced, initial_phase, provider_gap, session_info, shutdown_answer,
    unavailable_at_start, EventSequencer,
};
use crate::subagent_tiers::{resolve_tier_keys, CatalogModel};
use crate::text::{debug_text, decimal};
use crate::undo::{undo_snapshot_to_prompt, SnapshotUndoResult};
use std::sync::Arc;
use vstd::prelude::*;
use vstd::string::*;

verus! {

/// A status is read back from its word as it was written, and whether turns are taken with it:
/// where the runtime is ready, in a turn or waiting for approval.
pub proof fn a_status_is_read_back(
    generation: u64,
    phase: RuntimePhase,
    state: u64,
    status: RuntimeStatus,
    read: u64,
    available: bool,
)
    requires
        call_ensures(runtime_phase_state, (generation, phase), state),
        call_ensures(runtime_status, (state,), status),
        call_ensures(runtime_state_generation, (state,), read),
        call_ensures(runtime_state_available, (state,), available),
        generation < 0x2000_0000_0000_0000,
    ensures
        status.generation == generation && status.phase == phase && read == generation,
        available <==> phase is Ready || phase is InTurn || phase is WaitingApproval,
{
}

/// The short form of the word says ready or failed.
pub proof fn the_short_word_says_ready_or_failed(
    generation: u64,
    available: bool,
    state: u64,
    status: RuntimeStatus,
)
    requires
        call_ensures(runtime_state, (generation, available), state),
        call_ensures(runtime_status, (state,), status),
        generation < 0x2000_0000_0000_0000,
    ensures
        status.generation == generation,
        available ==> status.phase is Ready,
        !available ==> status.phase is Failed,
{
}

/// A reason is read back from its code as it was written; no other code is a reason.
pub proof fn a_reason_is_read_back(
    reason: Option<ProviderUnavailableReason>,
    code: u8,
    read: Option<ProviderUnavailableReason>,
    other: u8,
    other_read: Option<ProviderUnavailableReason>,
)
    requires
        call_ensures(encode_provider_unavailable_reason, (reason,), code),
        call_ensures(decode_provider_unavailable_reason, (code,), read),
        call_ensures(decode_provider_unavailable_reason, (other,), other_read),
    ensures
        read == reason,
        other > 3 || other == 0 ==> other_read is None,
        1 <= other <= 3 ==> other_read is Some,
        code == 0 <==> reason is None,
{
}

/// Modes are passed through in a circle: build, accept edits, auto, plan. Each is known by its
/// switches and its names.
pub proof fn modes_go_round(
    mode: RuntimeMode,
    next: RuntimeMode,
    prev: RuntimeMode,
    flags: (bool, bool, bool),
    wire: &'static str,
    label: &'static str,
)
    requires
        call_ensures(RuntimeMode::next, (mode,), next),
        call_ensures(RuntimeMode::prev, (next,), prev),
        call_ensures(RuntimeMode::to_flags, (mode,), flags),
        call_ensures(RuntimeMode::wire, (mode,), wire),
        call_ensures(RuntimeMode::label, (mode,), label),
    ensures
        prev == mode,
        mode is Build ==> next is AcceptEdits && flags == (false, false, false) && wire@
            == "build"@ && label@ == "Build"@,
        mode is AcceptEdits ==> next is Auto && flags == (false, false, true) && wire@
            == "accept_edits"@ && label@ == "AcceptEdits"@,
        mode is Auto ==> next is Plan && flags == (false, true, false) && wire@ == "bypass"@
            && label@ == "Auto"@,
        mode is Plan ==> next is Build && flags == (true, false, false) && wire@ == "plan"@
            && label@ == "Plan"@,
{
}

/// What is asked of a mode or a scope is answered by it alone.
pub proof fn modes_and_scopes_answer(
    mode: RuntimeMode,
    plan: bool,
    auto: bool,
    accepts: bool,
    scope: RewindScope,
    conversation: bool,
    code: bool,
)
    requires
        call_ensures(RuntimeMode::is_plan, (mode,), plan),
        call_ensures(RuntimeMode::is_auto, (mode,), auto),
        call_ensures(RuntimeMode::is_accept_edits, (mode,), accepts),
        call_ensures(RewindScope::restores_conversation, (scope,), conversation),
        call_ensures(RewindScope::restores_code, (scope,), code),
    ensures
        plan <==> mode is Plan,
        auto <==> mode is Auto,
        accepts <==> mode is AcceptEdits,
        conversation <==> scope is Conversation || scope is ConversationAndCode,
        code <==> scope is Code || scope is ConversationAndCode,
{
}

/// Why an agent ends a turn is told by its name.
pub proof fn reasons_are_told_by_name(reason: StopReason, name: &'static str)
    requires
        call_ensures(StopReason::name, (reason,), name),
    ensures
        name@ == reason.text(),
        reason is Stopped ==> name@ == "Stopped"@,
        reason is MaxContinuations ==> name@ == "MaxContinuations"@,
        reason is MaxRounds ==> name@ == "MaxRounds"@,
        reason is Timeout ==> name@ == "Timeout"@,
        reason is ProviderError ==> name@ == "ProviderError"@,
        reason is Cancelled ==> name@ == "Cancelled"@,
        reason is ToolLoopDetected ==> name@ == "ToolLoopDetected"@,
{
}

/// A runtime that takes turns takes every command; without a provider, or failed, it takes
/// only what concerns the provider, and a shutdown; while it is rebuilt or shuts down only a
/// shutdown; once it has stopped, none.
pub proof fn commands_are_taken_by_phase(phase: RuntimePhase, command: &DriverCommand, taken: bool)
    requires
        call_ensures(runtime_phase_accepts_command, (phase, command), taken),
    ensures
        phase is Ready || phase is InTurn || phase is WaitingApproval ==> taken,
        phase is AwaitingProvider || phase is Failed ==> (taken <==> *command is ReloadProvider
            || *command is DeactivateProvider || *command is Shutdown),
        phase is Reconfiguring || phase is ShuttingDown ==> (taken <==> *command is Shutdown),
        phase is Stopped ==> !taken,
{
}

/// A command that is taken is handed over as it is, for the generation that the handle sees;
/// the others are refused.
pub proof fn a_command_is_handed_over_as_it_is(
    generation: u64,
    phase: RuntimePhase,
    state: u64,
    stopped: bool,
    command: DriverCommand,
    taken: bool,
    result: Result<Dispatch, RuntimeUnavailable>,
)
    requires
        call_ensures(runtime_phase_state, (generation, phase), state),
        call_ensures(runtime_phase_accepts_command, (phase, &command), taken),
        call_ensures(dispatch, (state, stopped, command), result),
        generation < 0x2000_0000_0000_0000,
    ensures
        result is Ok <==> !stopped && taken,
        result is Ok ==> {
            let handed = result->Ok_0;
            &&& command matches DriverCommand::Submit(input) ==> handed == Dispatch::Control(
                CodingRuntimeControl::Submit { generation, input },
            )
            &&& command matches DriverCommand::Respond { id, value } ==> handed
                == Dispatch::Control(CodingRuntimeControl::Respond { generation, id, value })
            &&& command is Cancel ==> handed == Dispatch::Control(
                CodingRuntimeControl::Cancel { generation },
            )
            &&& command matches DriverCommand::Compact(focus) ==> handed == Dispatch::Control(
                CodingRuntimeControl::Compact { generation, focus },
            )
            &&& command matches DriverCommand::SetMode(mode) ==> handed == Dispatch::Control(
                CodingRuntimeControl::SetMode { generation, mode },
            )
            &&& command matches DriverCommand::QueueLocalContext(input) ==> handed
                == Dispatch::Control(CodingRuntimeControl::QueueLocalContext { generation, input })
            &&& command matches DriverCommand::ReloadProvider(next) ==> handed
                == Dispatch::Control(CodingRuntimeControl::ReassembleProvider { generation, next })
            &&& command matches DriverCommand::DeactivateProvider(reason) ==> handed
                == Dispatch::Control(
                CodingRuntimeControl::DeactivateProvider { generation, reason },
            )
            &&& command matches DriverCommand::UndoToPrompt(nth) ==> handed == Dispatch::Undo(nth)
            &&& command matches DriverCommand::Rewind { turn_id, scope } ==> handed
                == (Dispatch::Rewind { turn_id, scope })
            &&& command is RefreshContextStats ==> handed is ContextStats
            &&& command matches DriverCommand::RestoreSnapshot(snapshot) ==> handed
                == Dispatch::Control(
                CodingRuntimeControl::RestoreSnapshot { generation, snapshot },
            )
            &&& command matches DriverCommand::RestoreSnapshotCorrelated {
                snapshot,
                correlation_id,
            } ==> handed == Dispatch::Control(
                CodingRuntimeControl::RestoreSnapshot { generation, snapshot },
            )
            &&& command matches DriverCommand::StartGoal(condition) ==> handed
                == Dispatch::Control(CodingRuntimeControl::StartGoal { generation, condition })
            &&& command is StopGoal ==> handed == Dispatch::Control(
                CodingRuntimeControl::StopGoal { generation },
            )
            &&& command matches DriverCommand::StartLoop(prompt) ==> handed == Dispatch::Control(
                CodingRuntimeControl::StartLoop { generation, prompt },
            )
            &&& command is StopLoop ==> handed == Dispatch::Control(
                CodingRuntimeControl::StopLoop { generation },
            )
            &&& command is Shutdown ==> handed == Dispatch::Control(
                CodingRuntimeControl::Shutdown { generation },
            )
        },
{
    assert(crate::phase::phase_number(phase) == state as int % 8);
}

/// A compaction is asked for with its focus, of a runtime that takes turns.
pub proof fn a_compaction_is_asked_for_with_its_focus(
    generation: u64,
    phase: RuntimePhase,
    state: u64,
    focus: Option<String>,
    result: Result<CodingRuntimeControl, RuntimeUnavailable>,
)
    requires
        call_ensures(runtime_phase_state, (generation, phase), state),
        call_ensures(compact, (state, focus), result),
        generation < 0x2000_0000_0000_0000,
    ensures
        result is Ok <==> phase is Ready || phase is InTurn || phase is WaitingApproval,
        result matches Ok(control) ==> control == (CodingRuntimeControl::Compact {
            generation,
            focus,
        }),
{
}

/// Errors say what went wrong, with the thing that it went wrong with.
pub proof fn errors_say_what_went_wrong(error: &RuntimeError, message: String)
    requires
        call_ensures(RuntimeError::message, (error,), message),
    ensures
        message@ == error.text(),
        *error is Busy ==> message@ == "coding runtime is busy"@,
        error matches RuntimeError::SessionInUse { id } ==> message@ == "session "@ + debug_text(
            id@,
        ) + " is already in use by another runtime"@,
        error matches RuntimeError::StaleRequest { id } ==> message@ == "runtime request "@
            + decimal(id as nat) + " is stale"@,
        *error is DeliveryFailed ==> message@ == "kernel command delivery failed"@,
        *error is Unavailable ==> message@ == "coding runtime is unavailable"@,
        error matches RuntimeError::ProviderUnavailable(reason) ==> message@
            == "provider unavailable: "@ + reason.text(),
        error matches RuntimeError::SnapshotUnavailable(why) ==> message@
            == "snapshot unavailable: "@ + why@,
        error matches RuntimeError::ReconfigureFailed(why) ==> message@
            == "runtime reconfiguration failed: "@ + why@,
        error matches RuntimeError::InvalidWorkingDirectory(why) ==> message@ == why@,
        error matches RuntimeError::UndoOutOfRange { requested, available } ==> message@
            == "cannot undo prompt "@ + decimal(requested as nat) + "; only "@ + decimal(
            available as nat,
        ) + " user prompts are available"@,
        error matches RuntimeError::RewindPointUnavailable { turn_id } ==> message@
            == "rewind point for turn "@ + decimal(turn_id as nat) + " is unavailable"@,
        error matches RuntimeError::CodeRewindUnavailable(why) ==> message@
            == "code rewind is unavailable: "@ + why@,
{
}

/// The missing provider is told in words that name the way out.
pub proof fn a_missing_provider_is_told(reason: ProviderUnavailableReason, message: &'static str)
    requires
        call_ensures(ProviderUnavailableReason::message, (reason,), message),
    ensures
        message@ == reason.text(),
        reason is NotConfigured ==> message@ == "no provider configured — run /login or /provider"@,
        reason is AuthenticationRequired ==> message@
            == "provider authentication required — run /login"@,
        reason is UnsupportedBuild ==> message@
            == "this build cannot access the AtomGit gateway — use an official build or switch provider"@,
{
}

/// A start that fails says in which of its steps.
pub proof fn a_failed_start_says_where(
    error: &RuntimeStartError,
    message: String,
    gone: RuntimeUnavailable,
    gone_message: &'static str,
)
    requires
        call_ensures(RuntimeStartError::message, (error,), message),
        call_ensures(RuntimeUnavailable::message, (gone,), gone_message),
    ensures
        error matches RuntimeStartError::Prepare(why) ==> message@
            == "coding runtime prepare failed: "@ + why@,
        error matches RuntimeStartError::SessionInUse { id } ==> message@ == "session "@
            + debug_text(id@) + " is already in use by another runtime"@,
        error matches RuntimeStartError::Provider { error: build, printed } ==> message@
            == "coding runtime provider failed: "@ + printed@,
        error matches RuntimeStartError::Assemble(why) ==> message@
            == "coding runtime assemble failed: "@ + why@,
        gone_message@ == "coding runtime is unavailable"@,
{
}

/// A session that another runtime holds is told as such; whatever else keeps a session from
/// being prepared is told as it prints.
pub proof fn a_held_session_is_told_as_such(
    failure: PrepareFailure,
    start: RuntimeStartError,
    running: RuntimeError,
)
    requires
        call_ensures(runtime_start_prepare_error, (failure,), start),
        call_ensures(runtime_prepare_error, (failure,), running),
    ensures
        failure matches PrepareFailure::SessionInUse { id } ==> start == (
        RuntimeStartError::SessionInUse { id }) && running == (RuntimeError::SessionInUse { id }),
        failure matches PrepareFailure::Other(why) ==> start == RuntimeStartError::Prepare(why)
            && running == RuntimeError::ReconfigureFailed(why),
{
}

/// A refused commit is a conflict where one was seen, and then it is certain; else it is as
/// certain as the store says.
pub proof fn a_refused_commit_is_a_conflict_or_as_certain_as_the_store_says(
    failure: StoreFailure,
    conflict_seen: bool,
    error: NativePersistenceError,
    stops: bool,
    conflicts: bool,
    certain: NativePersistenceError,
    conflict: NativePersistenceError,
    message: String,
)
    requires
        call_ensures(NativePersistenceError::from_store, (failure, conflict_seen), error),
        call_ensures(NativePersistenceError::requires_fail_close, (&error,), stops),
        call_ensures(NativePersistenceError::is_snapshot_conflict, (&error,), conflicts),
        call_ensures(NativePersistenceError::certain, (failure.message,), certain),
        call_ensures(NativePersistenceError::snapshot_conflict, (failure.message,), conflict),
        call_ensures(NativePersistenceError::message, (&error,), message),
    ensures
        error.message == failure.message && message == failure.message,
        conflicts <==> conflict_seen,
        stops <==> !conflict_seen && failure.uncertain_commit,
        certain.message == failure.message && !certain.uncertain_commit
            && !certain.snapshot_conflict,
        conflict.message == failure.message && !conflict.uncertain_commit
            && conflict.snapshot_conflict,
{
}

/// A runtime is stopped where a commit may be half done, for that reason, or else where it
/// could not be taken back, for that.
pub proof fn a_runtime_is_stopped_for_the_first_doubt(
    candidate: &NativePersistenceError,
    restore: Option<&NativePersistenceError>,
    reason: Option<String>,
)
    requires
        call_ensures(persistence_fail_close_reason, (candidate, restore), reason),
    ensures
        reason is Some <==> candidate.uncertain_commit || restore is Some,
        candidate.uncertain_commit ==> reason->0@ == candidate.message@,
        !candidate.uncertain_commit && restore is Some ==> reason->0@
            == "snapshot rollback persistence failed: "@ + restore->0.message@,
{
}

/// A start goes on without a provider only where it is told to, or where it may recover and
/// the user can do something about it.
pub proof fn a_start_goes_on_without_a_provider(
    bootstrap: ProviderBootstrap,
    error: ProviderBuildError,
    printed: String,
    told: Option<ProviderUnavailableReason>,
    gap: Result<ProviderUnavailableReason, RuntimeStartError>,
    phase: RuntimePhase,
)
    requires
        call_ensures(unavailable_at_start, (bootstrap,), told),
        call_ensures(provider_gap, (bootstrap, error, printed), gap),
        call_ensures(initial_phase, (told,), phase),
    ensures
        told is Some <==> bootstrap is Unavailable,
        bootstrap matches ProviderBootstrap::Unavailable(why) ==> told == Some(why),
        told is Some ==> phase is AwaitingProvider,
        told is None ==> phase is Ready,
        gap is Ok <==> bootstrap is RecoverAuthentication && !(error is Adapter),
        gap matches Ok(why) ==> (error is Authentication ==> why is AuthenticationRequired) && (
        error is SourceBuildGatewayUnsupported ==> why is UnsupportedBuild),
        gap matches Err(failure) ==> failure == (RuntimeStartError::Provider { error, printed }),
{
}

/// Drivers are told of the session that there is; a shutdown is answered once the end is
/// known, or nobody is left; without a word from the owner the end was forced.
pub proof fn ends_are_told_as_they_are(
    id: Option<String>,
    resumed: bool,
    session: Option<RuntimeSessionInfo>,
    terminal: Option<RuntimeExit>,
    gone: bool,
    answer: Option<Result<RuntimeExit, RuntimeUnavailable>>,
    ended: RuntimeExit,
)
    requires
        call_ensures(session_info, (id, resumed), session),
        call_ensures(shutdown_answer, (terminal, gone), answer),
        call_ensures(exit_or_forced, (terminal,), ended),
    ensures
        session is Some <==> id is Some,
        session matches Some(info) ==> Some(info.id) == id && info.resumed == resumed,
        answer is None <==> terminal is None && !gone,
        terminal matches Some(exit) ==> answer == Some(
            Ok::<RuntimeExit, RuntimeUnavailable>(exit),
        ) && ended == exit,
        terminal is None && gone ==> answer is Some && answer->0 is Err,
        terminal is None ==> ended.forced && ended.reason is OwnerStopped,
{
}

/// Events are numbered one after the other, as they come, in their own generation; a stop is
/// numbered only as the end.
pub proof fn events_are_numbered_as_they_come(
    fresh: EventSequencer,
    sequencer: &mut EventSequencer,
    tagged: GenerationTaggedRuntimeEvent,
    event: Option<SequencedRuntimeEvent>,
    agent: &mut EventSequencer,
    generation: u64,
    observed: AgentEvent,
    envelope: SequencedRuntimeEvent,
    last: EventSequencer,
    exit: RuntimeExit,
    end: SequencedRuntimeEvent,
)
    requires
        call_ensures(EventSequencer::new, (), fresh),
        call_ensures(EventSequencer::stamp, (sequencer, tagged), event),
        call_ensures(EventSequencer::stamp_agent, (agent, generation, observed), envelope),
        call_ensures(EventSequencer::stamp_exit, (last, generation, exit), end),
    ensures
        fresh.next == 0,
        event is None <==> tagged.event is RuntimeStopped,
        event is None ==> final(sequencer).next == old(sequencer).next,
        event matches Some(numbered) ==> numbered.event == tagged.event && numbered.generation
            == tagged.generation && numbered.sequence == old(sequencer).next && (old(
            sequencer,
        ).next < u64::MAX ==> final(sequencer).next == old(sequencer).next + 1),
        envelope.event == CodingRuntimeEvent::Agent(observed) && envelope.generation == generation
            && envelope.sequence == old(agent).next,
        old(agent).next < u64::MAX ==> final(agent).next == old(agent).next + 1,
        end.event == CodingRuntimeEvent::RuntimeStopped(exit) && end.generation == generation
            && end.sequence == last.next,
{
}

/// A rewind goes to the first point of the turn, where there is one and, for code, where code
/// can go back.
pub proof fn a_rewind_goes_to_the_point_of_the_turn(
    catalog: &RewindCatalog,
    turn_id: u64,
    scope: RewindScope,
    result: Result<usize, RuntimeError>,
)
    requires
        call_ensures(choose_point, (catalog, turn_id, scope), result),
    ensures
        result matches Ok(at) ==> at < catalog.points@.len() && catalog.points@[at as int].turn_id
            == turn_id && (scope is Conversation || catalog.code_unavailable is None),
        (exists|i: int|
            0 <= i < catalog.points@.len() && (#[trigger] catalog.points@[i]).turn_id == turn_id)
            && (scope is Conversation || catalog.code_unavailable is None) ==> result is Ok,
        (forall|i: int|
            0 <= i < catalog.points@.len() ==> (#[trigger] catalog.points@[i]).turn_id != turn_id)
            ==> result == Err::<usize, RuntimeError>(
            RuntimeError::RewindPointUnavailable { turn_id },
        ),
        result matches Err(error) ==> error == (RuntimeError::RewindPointUnavailable { turn_id })
            || (catalog.code_unavailable is Some && error == RuntimeError::CodeRewindUnavailable(
            catalog.code_unavailable->0,
        )),
{
    crate::rewind::the_chosen_point_belongs_to_the_turn(catalog.points@, turn_id);
    let found = crate::rewind::first_point(catalog.points@, turn_id);
    if found is Some {
        let i = catalog.points@.index_of(found->0);
        assert(catalog.points@[i].turn_id == turn_id);
    }
}

/// The result of a rewind is what was undone and restored; it is committed in the generation
/// that the undo made, or taken back in that of the catalog.
pub proof fn a_rewind_results_in_what_was_restored(
    generation: RuntimeGeneration,
    point: RewindPoint,
    snapshot: Arc<SessionSnapshot>,
    files: Vec<String>,
    code: RewindResult,
    undo: Result<UndoResult, RuntimeError>,
    scope: RewindScope,
    next: RewindNext,
    done: UndoResult,
    talk: RewindResult,
)
    requires
        call_ensures(code_rewound, (generation, point, snapshot, files), code),
        call_ensures(after_undo, (generation, undo, scope, point, files), next),
        call_ensures(conversation_rewound, (done, scope, point, files), talk),
    ensures
        code.generation == generation && code.scope is Code && code.point == point,
        code.snapshot == snapshot && code.restored_prompt is None && code.restored_files == files,
        talk.generation == done.generation && talk.scope == scope && talk.point == point,
        talk.snapshot == done.snapshot && talk.restored_prompt == Some(done.restored_prompt),
        talk.restored_files == files,
        next is Commit <==> undo is Ok,
        undo matches Ok(left) ==> (next matches RewindNext::Commit { generation: at, result }
            && at == left.generation.0 && result.generation == left.generation && result.scope
            == scope && result.point == point && result.snapshot == left.snapshot
            && result.restored_prompt == Some(left.restored_prompt) && result.restored_files
            == files),
        undo matches Err(why) ==> (next matches RewindNext::Compensate { generation: at, error }
            && at == generation.0 && error == why),
{
}

/// A rewind that was taken back fails with its own error, and with what went wrong on the way.
pub proof fn a_rewind_taken_back_fails_with_its_error(
    error: RuntimeError,
    compensation: Option<RuntimeError>,
    failure: RuntimeError,
)
    requires
        call_ensures(compensated, (error, compensation), failure),
    ensures
        compensation is None ==> failure == error,
        compensation matches Some(second) ==> failure is ReconfigureFailed
            && failure->ReconfigureFailed_0@ == error.text() + "; rewind compensation failed: "@
            + second.text(),
{
}

/// The session that a mode goes back to is its own; a fresh one and none are never the current
/// one. The driver's lease goes first, the current one is good for the current session alone.
pub proof fn a_session_is_reused_by_its_id(
    current: &Option<String>,
    target: &SessionMode,
    prepared: bool,
    reuses: bool,
    source: LeaseSource,
)
    requires
        call_ensures(reuses_session, (current, target), reuses),
        call_ensures(lease_source, (prepared, current, target), source),
    ensures
        *target is Fresh || *target is Disabled || *current is None ==> !reuses,
        *target matches SessionMode::Resume(id) ==> *current is Some ==> (reuses <==> id@
            == current->0@),
        *target matches SessionMode::ExternalSnapshot { id, snapshot } ==> *current is Some ==> (
        reuses <==> id@ == current->0@),
        prepared ==> source is Prepared,
        !prepared && reuses ==> source is Current,
        !prepared && !reuses ==> source is Fresh,
{
}

/// Only a reload withdraws tools first, only a preparation in place inherits what is
/// remembered, and only what creates a session may throw one away.
pub proof fn operations_differ_in_what_they_touch(
    target: &ReprepareTarget,
    withdraws: bool,
    operation: ReconfigureKind,
    inherits: bool,
    discards: bool,
    session_id: &str,
    error: &str,
    message: String,
)
    requires
        call_ensures(withdraws_tools, (target,), withdraws),
        call_ensures(inherits_continuity, (operation,), inherits),
        call_ensures(discards_candidate, (operation,), discards),
        call_ensures(discard_failure, (session_id, error), message),
    ensures
        withdraws <==> *target is Reload,
        inherits <==> operation is Reprepare,
        discards <==> operation is FreshSession || operation is ChangeDirectory,
        message@ == "failed to discard uncommitted session "@ + session_id@ + ": "@ + error@,
{
}

/// Whether all but the session and the skills of the options is the same.
pub open spec fn same_capabilities(left: PrepareOptions, right: PrepareOptions) -> bool {
    left.request_user_input == right.request_user_input && left.mcp == right.mcp && left.memory
        == right.memory && left.web == right.web && left.review == right.review
}

/// A runtime is prepared again with what it works with now, but for what the target asks for:
/// the session, the directory, the skills. A given input is taken as it is.
pub proof fn a_runtime_is_prepared_for_its_target(
    current: &CurrentRuntime,
    target: ObservedTarget,
    result: Result<Option<ResolvedReprepare>, RuntimeError>,
)
    requires
        call_ensures(resolve_reprepare_input, (current, target), result),
    ensures
        target matches ObservedTarget::Exact(input) ==> result is Ok && result->Ok_0 is Some
            && result->Ok_0->0.input == input && !result->Ok_0->0.uses_prepared_lease,
        target is Reload || target is Fresh || target is Resume ==> result is Ok
            && result->Ok_0 is Some && result->Ok_0->0.input.config == current.config
            && !result->Ok_0->0.uses_prepared_lease,
        result is Ok && result->Ok_0 is Some && !(target is Exact) ==> same_capabilities(
            result->Ok_0->0.input.prepare,
            current.prepare,
        ),
        target matches ObservedTarget::Reload { plugin_skill_dirs } ==> {
            let input = result->Ok_0->0.input;
            &&& input.operation is Reprepare
            &&& input.prepare.plugin_skill_dirs == match plugin_skill_dirs {
                Some(dirs) => dirs,
                None => current.prepare.plugin_skill_dirs,
            }
            &&& current.session_id is None ==> input.prepare.session is Disabled
            &&& current.session_id matches Some(id) ==> input.prepare.session
                == SessionMode::Resume(id)
        },
        target is Fresh ==> result->Ok_0->0.input.operation is FreshSession
            && result->Ok_0->0.input.prepare.session is Fresh
            && result->Ok_0->0.input.prepare.plugin_skill_dirs
            == current.prepare.plugin_skill_dirs,
        target matches ObservedTarget::Resume(id) ==> result->Ok_0->0.input.operation
            is ResumeSession && result->Ok_0->0.input.prepare.session == SessionMode::Resume(id)
            && result->Ok_0->0.input.prepare.plugin_skill_dirs
            == current.prepare.plugin_skill_dirs,
{
}

/// A session is resumed elsewhere with the lease that is for it, in its own directory, which
/// must be absolute and there; the refusal says what is wrong.
pub proof fn a_session_is_resumed_with_its_own_lease(
    current: &CurrentRuntime,
    id: String,
    working_dir: String,
    lease_id: String,
    facts: crate::reprepare::DirectoryFacts,
    result: Result<Option<ResolvedReprepare>, RuntimeError>,
)
    requires
        call_ensures(
            resolve_reprepare_input,
            (current, ObservedTarget::ResumeWithLease { id, working_dir, lease_id, facts }),
            result,
        ),
    ensures
        result is Ok <==> lease_id@ == id@ && facts.is_absolute && facts.is_dir,
        result matches Ok(chosen) ==> {
            &&& chosen is Some && chosen->0.uses_prepared_lease
            &&& chosen->0.input.operation is ResumeSession
            &&& chosen->0.input.prepare.session == SessionMode::Resume(id)
            &&& chosen->0.input.config.working_dir == working_dir
            &&& chosen->0.input.config == (CodingAgentConfig {
                working_dir,
                ..current.config
            })
        },
        lease_id@ != id@ ==> result->Err_0 is ReconfigureFailed
            && result->Err_0->ReconfigureFailed_0@ == "prepared session lease is for "@
            + debug_text(lease_id@) + ", not "@ + debug_text(id@),
        lease_id@ == id@ && !facts.is_absolute ==> result->Err_0 is InvalidWorkingDirectory
            && result->Err_0->InvalidWorkingDirectory_0@
            == "session working directory is not absolute: "@ + facts.printed@,
        lease_id@ == id@ && facts.is_absolute && !facts.is_dir ==> result->Err_0
            is InvalidWorkingDirectory && result->Err_0->InvalidWorkingDirectory_0@
            == "session working directory is not a directory: "@ + facts.printed@,
{
}

/// A directory is changed to as it really is, with a fresh session; the current one needs no
/// change, and what is no directory is refused.
pub proof fn a_directory_is_changed_to_as_it_is(
    current: &CurrentRuntime,
    facts: crate::reprepare::ChangeFacts,
    result: Result<Option<ResolvedReprepare>, RuntimeError>,
)
    requires
        call_ensures(
            resolve_reprepare_input,
            (current, ObservedTarget::ChangeDirectory(facts)),
            result,
        ),
    ensures
        result is Ok <==> facts.canonical is Ok && facts.is_dir,
        result is Ok && facts.is_current ==> result->Ok_0 is None,
        result is Ok && !facts.is_current ==> result->Ok_0 is Some && {
            let chosen = result->Ok_0->0;
            &&& !chosen.uses_prepared_lease
            &&& chosen.input.operation is ChangeDirectory
            &&& chosen.input.prepare.session is Fresh
            &&& chosen.input.config == (CodingAgentConfig {
                working_dir: facts.canonical->Ok_0,
                ..current.config
            })
        },
        facts.canonical matches Err(why) ==> result->Err_0 is InvalidWorkingDirectory
            && result->Err_0->InvalidWorkingDirectory_0@ == "cannot change directory to "@
            + facts.asked@ + ": "@ + why@,
        facts.canonical is Ok && !facts.is_dir ==> result->Err_0 is InvalidWorkingDirectory
            && result->Err_0->InvalidWorkingDirectory_0@
            == "working directory is not a directory: "@ + facts.canonical->Ok_0@,
{
}

/// The evaluator stands at a boundary of its own: it is the model that the key names, with no
/// credential or endpoint of the host, and no subagents; only the directory is the host's.
pub proof fn an_evaluator_takes_nothing_from_the_host(
    host: &CodingAgentConfig,
    key: &str,
    resolved: &ResolvedModel,
    config: CodingAgentConfig,
)
    requires
        call_ensures(evaluator_config, (host, key, resolved), config),
    ensures
        config.provider_name@ == key@ && config.model == resolved.model,
        config.provider_type == resolved.provider_type,
        resolved.api_key is None ==> config.api_key@.len() == 0,
        resolved.base_url is None ==> config.base_url@.len() == 0,
        resolved.api_key matches Some(secret) ==> config.api_key@ == secret@,
        resolved.base_url matches Some(url) ==> config.base_url@ == url@,
        resolved.context_window < 0x1_0000_0000 ==> config.context_window
            == resolved.context_window,
        resolved.max_tokens is None <==> config.max_tokens is None,
        resolved.max_tokens matches Some(tokens) ==> tokens < 0x1_0000_0000
            ==> config.max_tokens->0 == tokens,
        config.thinking_type == resolved.thinking_type && config.thinking_keep
            == resolved.thinking_keep,
        config.reasoning_history == resolved.reasoning_history && config.thinking_enabled
            == resolved.thinking_enabled,
        config.user_agent == resolved.user_agent && config.skip_tls_verify
            == resolved.skip_tls_verify,
        config.working_dir == host.working_dir,
        config.subagent_config is None && config.subagent_fast_provider is None
            && config.subagent_capable_provider is None,
{
}

/// The evaluator of the key is tried first, where its key resolves; the host's own provider is
/// tried last, as it is.
pub proof fn the_host_is_tried_last(
    host: &CodingAgentConfig,
    key: &Option<String>,
    resolved: &Option<ResolvedModel>,
    candidates: Vec<CodingAgentConfig>,
)
    requires
        call_ensures(build_goal_evaluator_provider, (host, key, resolved), candidates),
    ensures
        candidates@.len() > 0 && candidates@.last() == *host,
        *key is None || *resolved is None ==> candidates@.len() == 1,
        *key is Some && *resolved is Some ==> candidates@.len() == 2
            && candidates@[0].provider_name@ == key->0@ && candidates@[0].model
            == resolved->0.model && candidates@[0].working_dir == host.working_dir && (
        resolved->0.api_key is None ==> candidates@[0].api_key@.len() == 0),
{
}

proof fn the_first_built_is_first(outcomes: Seq<bool>)
    ensures
        ({
            let first = crate::goal_evaluator::first_built(outcomes);
            &&& 0 <= first <= outcomes.len()
            &&& first < outcomes.len() ==> outcomes[first]
            &&& forall|i: int| 0 <= i < first ==> !#[trigger] outcomes[i]
        }),
    decreases outcomes.len(),
{
    if outcomes.len() > 0 {
        let front = outcomes.drop_last();
        the_first_built_is_first(front);
        let first = crate::goal_evaluator::first_built(outcomes);
        assert forall|i: int| 0 <= i < first implies !#[trigger] outcomes[i] by {
            if i < front.len() {
                assert(front[i] == outcomes[i]);
            }
        }
    }
}

/// The first provider that builds is used; the next is built only after all before it failed,
/// and nothing is given up while one is left.
pub proof fn the_first_provider_that_builds_is_used(
    candidates: usize,
    outcomes: &Vec<bool>,
    step: EvaluatorStep,
)
    requires
        call_ensures(evaluator_step, (candidates, outcomes), step),
    ensures
        step matches EvaluatorStep::Use(at) ==> at < outcomes@.len() && outcomes@[at as int]
            && forall|i: int| 0 <= i < at ==> !#[trigger] outcomes@[i],
        (exists|i: int| 0 <= i < outcomes@.len() && #[trigger] outcomes@[i]) ==> step is Use,
        step matches EvaluatorStep::Build(at) ==> at == outcomes@.len() && at < candidates,
        step is GiveUp ==> outcomes@.len() >= candidates,
        step is GiveUp || step is Build ==> forall|i: int|
            0 <= i < outcomes@.len() ==> !#[trigger] outcomes@[i],
{
    the_first_built_is_first(outcomes@);
    assert(outcomes@.len() == outcomes.len());
}

/// Whether a model of the catalog takes part.
pub open spec fn takes_part(model: CatalogModel) -> bool {
    model.capable_model is Some
}

/// Subagents get a fast and a capable model of the catalog, which take part: none that takes
/// part ranks below the fast one or above the capable one, and of equals the fast one is the
/// first by its id and the capable one the last. There are two such models only
/// where the host's own takes part.
pub proof fn the_fast_model_ranks_lowest_and_the_capable_highest(
    models: &Vec<CatalogModel>,
    host: &str,
    keys: Option<(String, String)>,
)
    requires
        call_ensures(resolve_tier_keys, (models, host), keys),
    ensures
        keys is Some ==> exists|i: int|
            0 <= i < models@.len() && (#[trigger] models@[i]).model@ == host@ && takes_part(
                models@[i],
            ),
        keys matches Some((fast, capable)) ==> exists|low: int, high: int|
            #![trigger models@[low], models@[high]]
            {
                &&& 0 <= low < models@.len() && 0 <= high < models@.len()
                &&& models@[low].id == fast && models@[high].id == capable
                &&& takes_part(models@[low]) && takes_part(models@[high])
                &&& forall|i: int|
                    0 <= i < models@.len() && takes_part(#[trigger] models@[i])
                        ==> models@[low].capable_model->0 <= models@[i].capable_model->0
                        <= models@[high].capable_model->0
                &&& forall|i: int, at: int|
                    0 <= i < models@.len() && takes_part(models@[i])
                        && models@[i].capable_model == models@[low].capable_model
                        ==> !#[trigger] precedes(models@[i].id@, fast@, at)
                &&& forall|i: int, at: int|
                    0 <= i < models@.len() && takes_part(models@[i])
                        && models@[i].capable_model == models@[high].capable_model
                        ==> !#[trigger] precedes(capable@, models@[i].id@, at)
            },
        keys is None ==> (forall|i: int|
            0 <= i < models@.len() && takes_part(#[trigger] models@[i]) ==> models@[i].model@
                != host@) || crate::subagent_tiers::participants(models@) < 2,
{
    if keys is Some {
        let (fast, capable) = keys->0;
        let (low, high) = choose|low: int, high: int|
            crate::subagent_tiers::is_extreme(models@, low, true)
                && crate::subagent_tiers::is_extreme(models@, high, false) && fast
                == #[trigger] models@[low].id && capable == #[trigger] models@[high].id;
        assert forall|i: int| 0 <= i < models@.len() && takes_part(#[trigger] models@[i]) implies
            models@[low].capable_model->0 <= models@[i].capable_model->0
            <= models@[high].capable_model->0 by {
            assert(!crate::subagent_tiers::ranks_below(models@[i], models@[low]));
            assert(!crate::subagent_tiers::ranks_below(models@[high], models@[i]));
        }
        assert forall|i: int, at: int|
            0 <= i < models@.len() && takes_part(models@[i]) && models@[i].capable_model
                == models@[low].capable_model implies !#[trigger] precedes(
            models@[i].id@,
            fast@,
            at,
        ) by {
            before_is_decided_at_a_difference(models@[i].id@, fast@);
            assert(!crate::subagent_tiers::ranks_below(models@[i], models@[low]));
        }
        assert forall|i: int, at: int|
            0 <= i < models@.len() && takes_part(models@[i]) && models@[i].capable_model
                == models@[high].capable_model implies !#[trigger] precedes(
            capable@,
            models@[i].id@,
            at,
        ) by {
            before_is_decided_at_a_difference(capable@, models@[i].id@);
            assert(!crate::subagent_tiers::ranks_below(models@[high], models@[i]));
        }
        assert(models@[low].id == fast && models@[high].id == capable);
    }
}

/// Two models that take part are enough to count; one is not.
pub proof fn those_that_take_part_are_counted(models: Seq<CatalogModel>, model: CatalogModel)
    ensures
        crate::subagent_tiers::participants(Seq::<CatalogModel>::empty()) == 0,
        crate::subagent_tiers::participants(models.push(model))
            == crate::subagent_tiers::participants(models) + if takes_part(model) {
            1int
        } else {
            0
        },
{
    assert(models.push(model).drop_last() =~= models);
}

/// A rewind fits only the revision that it was asked for; of code alone nothing is undone, and
/// else exactly what undoing the prompt of the point leaves.
pub proof fn a_rewind_undoes_the_prompt_of_its_point(
    revision: u64,
    number: usize,
    scope: RewindScope,
    original: &RuntimeSnapshotReceipt,
    result: Result<Option<SnapshotUndoResult>, RuntimeError>,
    snapshot: &SessionSnapshot,
    undo: Result<SnapshotUndoResult, RuntimeError>,
)
    requires
        call_ensures(plan_rewind, (revision, number, scope, original), result),
        *snapshot == *original.undo_snapshot,
        call_ensures(undo_snapshot_to_prompt, (snapshot, Some(number)), undo),
    ensures
        original.revision != revision ==> result is Err && result->Err_0 is Busy,
        original.revision == revision && scope is Code ==> result is Ok && result->Ok_0 is None,
        original.revision == revision && !(scope is Code) ==> {
            &&& result is Ok <==> undo is Ok
            &&& result is Err ==> result->Err_0 == undo->Err_0
            &&& result is Ok ==> result->Ok_0 is Some && {
                let (planned, undone) = (result->Ok_0->0, undo->Ok_0);
                &&& planned.snapshot@ == undone.snapshot@
                &&& planned.restored_prompt@ == undone.restored_prompt@
                &&& planned.target_n == undone.target_n && planned.prompts_before
                    == undone.prompts_before
            }
        },
{
    if result is Ok && undo is Ok && result->Ok_0 is Some {
        crate::undo::an_undone_conversation_keeps_the_earlier_prompts(
            snapshot@.messages,
            result->Ok_0->0.snapshot@.messages.len() as int,
            undo->Ok_0.snapshot@.messages.len() as int,
            number as int,
        );
    }
}

/// A configuration begins with what it is given and nothing else, and is copied whole.
pub proof fn a_configuration_begins_with_what_it_is_given(
    api_key: &str,
    base_url: &str,
    model: &str,
    working_dir: &str,
    config: CodingAgentConfig,
    copy: CodingAgentConfig,
)
    requires
        call_ensures(CodingAgentConfig::new, (api_key, base_url, model, working_dir), config),
        call_ensures(CodingAgentConfig::duplicate, (&config,), copy),
    ensures
        config.api_key@ == api_key@ && config.base_url@ == base_url@ && config.model@ == model@,
        config.working_dir@ == working_dir@,
        config.provider_name@.len() == 0 && config.provider_type@.len() == 0,
        config.context_window == 0 && config.max_tokens is None && !config.skip_tls_verify,
        config.thinking_type is None && config.thinking_keep is None && config.thinking_enabled
            is None,
        config.reasoning_history is None && config.user_agent is None,
        config.subagent_config is None && config.subagent_fast_provider is None
            && config.subagent_capable_provider is None,
        copy == config,
{
}

/// Phases have codes of their own, below eight.
pub proof fn phases_have_codes_of_their_own(
    phase: RuntimePhase,
    other: RuntimePhase,
    code: u64,
    second: u64,
)
    requires
        call_ensures(phase_code, (phase,), code),
        call_ensures(phase_code, (other,), second),
    ensures
        code < 8,
        code == second <==> phase == other,
{
}

} // verus!
