//! Replacing the agent on purpose: another provider, another session, an undo, a restored
//! conversation, and the way back from each.
use super::agent_events::publishes_error;
use super::controllers::{cancels, idle_phase, shows_ended_loop};
use super::lifecycle::is_told_to_stop;
use super::turns::{
    actions_are_kept, added, adds, publishes, reachable, sends, sends_message, unchanged,
};
use crate::config::{CodingAgentConfig, SessionMode};
use crate::conversation::SessionSnapshot;
use crate::error::{NativePersistenceError, RuntimeError};
use crate::event::{
    AgentCommand, CodingRuntimeEvent, ReconfigureKind, SessionChanged, StopReason, UndoResult,
    UserInput,
};
use crate::owner::reconfigure::{route_subagents, DeactivateStart, Rollback, RoutingStep};
use crate::owner::stopping::StopReport;
use crate::owner::{OwnerAction, OwnerView, RuntimeOwner};
use crate::phase::{ProviderUnavailableReason, RuntimeGeneration, RuntimePhase};
use std::sync::Arc;
use vstd::prelude::*;
use vstd::string::*;

verus! {

/// The agent may be replaced in the current generation, while it is open, where the owner has
/// what it needs.
pub proof fn an_agent_may_be_replaced_while_open(
    owner: &RuntimeOwner,
    generation: u64,
    result: Result<(), RuntimeError>,
)
    requires
        call_ensures(RuntimeOwner::check_replace, (owner, generation), result),
    ensures
        result is Ok <==> generation == owner.generation && !owner.compaction_suspended
            && owner.has_resources,
        result matches Err(error) ==> error == if generation == owner.generation
            && !owner.compaction_suspended {
            RuntimeError::Unavailable
        } else {
            RuntimeError::Busy
        },
{
}

proof fn closing_comes_first(
    before: RuntimeOwner,
    after: RuntimeOwner,
    operation: ReconfigureKind,
    turn_down: bool,
)
    requires
        after@ == before@.closed_for(operation).ask_to_stop(turn_down),
    ensures
        after.phase == RuntimePhase::Reconfiguring,
        publishes(
            before,
            added(before, after, 0),
            CodingRuntimeEvent::Reconfiguring { operation },
        ),
        is_told_to_stop(before, after, 1, turn_down),
{
    super::lifecycle::farewells_are_said(before, before@.closed_for(operation), after, 1, turn_down);
    let n = before.outbox@.len() as int;
    assert(after@.outbox[n] == before@.closed_for(operation).outbox[n]);
    assert(after@.outbox[n] == after.outbox@[n]@);
}

/// Before its agent is replaced the runtime closes and says for what, and then the agent is
/// told to stop. For an undo, at rest, there is nothing to turn down.
pub proof fn a_runtime_closes_before_its_agent_stops(
    provider: &mut RuntimeOwner,
    undo: &mut RuntimeOwner,
    restore: &mut RuntimeOwner,
    had_agent: bool,
    undone: (),
    restored: (),
)
    requires
        call_ensures(RuntimeOwner::begin_reassemble, (provider,), had_agent),
        call_ensures(RuntimeOwner::begin_undo, (undo,), undone),
        call_ensures(RuntimeOwner::begin_restore, (restore,), restored),
    ensures
        had_agent == old(provider).agent_available,
        final(provider).phase == RuntimePhase::Reconfiguring,
        publishes(
            *old(provider),
            added(*old(provider), *final(provider), 0),
            CodingRuntimeEvent::Reconfiguring { operation: ReconfigureKind::Provider },
        ),
        is_told_to_stop(*old(provider), *final(provider), 1, true),
        final(provider).generation == old(provider).generation,
        final(undo).phase == RuntimePhase::Reconfiguring,
        publishes(
            *old(undo),
            added(*old(undo), *final(undo), 0),
            CodingRuntimeEvent::Reconfiguring { operation: ReconfigureKind::Undo },
        ),
        is_told_to_stop(*old(undo), *final(undo), 1, false),
        final(undo).generation == old(undo).generation,
        final(restore).phase == RuntimePhase::Reconfiguring,
        publishes(
            *old(restore),
            added(*old(restore), *final(restore), 0),
            CodingRuntimeEvent::Reconfiguring { operation: ReconfigureKind::RestoreSession },
        ),
        is_told_to_stop(*old(restore), *final(restore), 1, true),
        final(restore).generation == old(restore).generation,
{
    closing_comes_first(*old(provider), *final(provider), ReconfigureKind::Provider, true);
    closing_comes_first(*old(undo), *final(undo), ReconfigureKind::Undo, false);
    closing_comes_first(*old(restore), *final(restore), ReconfigureKind::RestoreSession, true);
}

/// Whether a new agent is in place, of the next generation, with a provider and nothing known
/// of it.
pub open spec fn is_adopted(before: RuntimeOwner, after: RuntimeOwner) -> bool {
    &&& after.agent_attached && after.agent_open && after.agent_available
    &&& after.provider_unavailable_reason is None
    &&& after.observed_tokens is None && !after.snapshot_in_flight
    &&& before.generation < u64::MAX ==> after.generation == before.generation + 1
    &&& before.generation == u64::MAX ==> after.generation == 0
}

/// A provider change ends with the new agent in place, of the next generation, which is what
/// the driver is given. A prompt that a crash cut off is sent to it first, as it was; then
/// drivers are told of the provider and the model, and that the change is over.
pub proof fn a_provider_change_ends_with_the_new_agent(
    owner: &mut RuntimeOwner,
    provider: String,
    model: String,
    prompt: Option<UserInput>,
    committed: (RuntimeGeneration, bool),
)
    requires
        call_ensures(RuntimeOwner::commit_reassemble, (owner, provider, model, prompt), committed),
    ensures
        is_adopted(*old(owner), *final(owner)),
        committed.0 == RuntimeGeneration(final(owner).generation),
        committed.1 <==> prompt is Some,
        !final(owner).compaction_suspended,
        ({
            let sent: int = if prompt is Some {
                1
            } else {
                0
            };
            &&& adds(*old(owner), *final(owner), sent + 2)
            &&& prompt matches Some(input) ==> sends_message(
                added(*old(owner), *final(owner), 0),
                input,
            )
            &&& publishes(
                *final(owner),
                added(*old(owner), *final(owner), sent),
                CodingRuntimeEvent::ProviderChanged { provider, model },
            )
            &&& publishes(
                *final(owner),
                added(*old(owner), *final(owner), sent + 1),
                CodingRuntimeEvent::Reconfigured { operation: ReconfigureKind::Provider },
            )
        }),
        prompt is Some ==> final(owner).active_turn is Some && final(owner).phase
            == RuntimePhase::InTurn,
        prompt is None && old(owner).active_turn is None ==> final(owner).phase
            == RuntimePhase::Ready && final(owner).active_turn is None,
{
    actions_are_kept(*old(owner), *final(owner));
    let n = old(owner).outbox@.len() as int;
    let m = final(owner).outbox@.len() as int;
    assert(final(owner)@.outbox[n] == final(owner).outbox@[n]@);
    assert(final(owner)@.outbox[m - 1] == final(owner).outbox@[m - 1]@);
    assert(final(owner)@.outbox[m - 2] == final(owner).outbox@[m - 2]@);
}

/// Whether the runtime went back as the attempt came out: to no agent, to the old agent, ready,
/// or to no agent, with the words and the error told to the drivers.
pub open spec fn went_back(
    before: RuntimeOwner,
    after: RuntimeOwner,
    rollback: Rollback,
    words: Seq<char>,
) -> bool {
    match rollback {
        Rollback::NoAgent => adds(before, after, 0) && after.phase == RuntimePhase::Failed
            && !after.agent_available && !after.agent_attached,
        Rollback::Rebuilt => adds(before, after, 0) && after.phase == RuntimePhase::Ready
            && after.agent_available && after.agent_attached && after.agent_open
            && after.provider_unavailable_reason is None,
        Rollback::Failed(error) => adds(before, after, 1) && after.phase == RuntimePhase::Failed
            && !after.agent_available && !after.agent_attached && publishes_error(
            before,
            added(before, after, 0),
            words + error@,
        ),
    }
}

/// A provider change that failed goes back, in the old generation, and the error is the
/// candidate's own.
pub proof fn a_failed_provider_change_goes_back(
    owner: &mut RuntimeOwner,
    candidate_error: String,
    rollback: Rollback,
    error: RuntimeError,
)
    requires
        call_ensures(RuntimeOwner::abort_reassemble, (owner, candidate_error, rollback), error),
    ensures
        error == RuntimeError::ReconfigureFailed(candidate_error),
        went_back(*old(owner), *final(owner), rollback, "provider reconfigure rollback failed: "@),
        final(owner).generation == old(owner).generation,
        final(owner)@.persistence_failure == old(owner)@.persistence_failure,
{
    actions_are_kept(*old(owner), *final(owner));
    let n = old(owner).outbox@.len() as int;
    if final(owner).outbox@.len() > n {
        assert(final(owner)@.outbox[n] == final(owner).outbox@[n]@);
    }
}

/// A provider goes away only in the current generation, while it is open, and only once for
/// one reason; the runtime closes, its controllers give way and its agent is told to stop.
pub proof fn a_provider_goes_away_once(
    owner: &mut RuntimeOwner,
    generation: u64,
    reason: ProviderUnavailableReason,
    start: DeactivateStart,
)
    requires
        call_ensures(RuntimeOwner::begin_deactivate, (owner, generation, reason), start),
        !(old(owner).goal is Some && old(owner).loop_state is Some),
    ensures
        ({
            let closed = generation != old(owner).generation || old(owner).compaction_suspended;
            let gone = !old(owner).agent_available && old(owner).provider_unavailable_reason
                == Some(reason);
            &&& closed ==> start == DeactivateStart::Refused(RuntimeError::Busy)
            &&& !closed && gone ==> start == DeactivateStart::Already(
                RuntimeGeneration(old(owner).generation),
            )
            &&& closed || gone ==> unchanged(*old(owner), *final(owner))
            &&& !closed && !gone ==> {
                &&& start is Stopping
                &&& final(owner).phase == RuntimePhase::Reconfiguring
                &&& final(owner).goal is None && final(owner).loop_state is None
                &&& final(owner).held_turn is None && final(owner).pending_requests@.len() == 0
                &&& publishes(
                    *old(owner),
                    added(*old(owner), *final(owner), 0),
                    CodingRuntimeEvent::Reconfiguring { operation: ReconfigureKind::Provider },
                )
                &&& reachable(*old(owner)) ==> sends(
                    final(owner).outbox@.last(),
                    AgentCommand::Shutdown,
                )
                &&& old(owner).goal is Some ==> cancels(
                    added(*old(owner), *final(owner), 1),
                    old(owner).goal->0.id,
                ) && super::agent_events::shows_ended_goal(
                    *old(owner),
                    added(*old(owner), *final(owner), 2),
                    crate::controllers::GoalTerminal::Failed,
                    "provider deactivated"@,
                )
                &&& old(owner).loop_state is Some ==> cancels(
                    added(*old(owner), *final(owner), 1),
                    old(owner).loop_state->0.id,
                ) && shows_ended_loop(
                    *old(owner),
                    added(*old(owner), *final(owner), 2),
                    "provider deactivated"@,
                )
            }
        }),
{
    actions_are_kept(*old(owner), *final(owner));
    let n = old(owner).outbox@.len() as int;
    let m = final(owner).outbox@.len() as int;
    if m > n {
        assert(final(owner)@.outbox[n] == final(owner).outbox@[n]@);
        assert(final(owner)@.outbox.last() == final(owner).outbox@.last()@);
    }
    if m > n + 2 {
        assert(final(owner)@.outbox[n + 1] == final(owner).outbox@[n + 1]@);
        assert(final(owner)@.outbox[n + 2] == final(owner).outbox@[n + 2]@);
    }
}

/// Without its provider the runtime is of the next generation and waits for one; drivers are
/// told why, and whether the agent had to be forced.
pub proof fn a_runtime_waits_for_a_provider(
    owner: &mut RuntimeOwner,
    reason: ProviderUnavailableReason,
    forced: bool,
    generation: RuntimeGeneration,
)
    requires
        call_ensures(RuntimeOwner::finish_deactivate, (owner, reason, forced), generation),
    ensures
        generation == RuntimeGeneration(final(owner).generation),
        old(owner).generation < u64::MAX ==> final(owner).generation == old(owner).generation + 1,
        final(owner).phase == RuntimePhase::AwaitingProvider && !final(owner).agent_available,
        final(owner).provider_unavailable_reason == Some(reason),
        final(owner).observed_tokens is None && !final(owner).snapshot_in_flight,
        adds(*old(owner), *final(owner), 1),
        publishes(
            *final(owner),
            added(*old(owner), *final(owner), 0),
            CodingRuntimeEvent::ProviderUnavailable { reason, forced },
        ),
{
    actions_are_kept(*old(owner), *final(owner));
    let n = old(owner).outbox@.len() as int;
    assert(final(owner)@.outbox[n] == final(owner).outbox@[n]@);
}

/// A replacement is not prepared for the session that a turn in progress runs in.
pub proof fn a_turn_keeps_its_session(
    owner: &RuntimeOwner,
    current: &Option<String>,
    target: &SessionMode,
    result: Result<(), RuntimeError>,
    reused: bool,
)
    requires
        call_ensures(RuntimeOwner::check_reprepare, (owner, current, target), result),
        call_ensures(crate::reprepare::reuses_session, (current, target), reused),
    ensures
        result is Err <==> owner.active_turn is Some && reused,
        result matches Err(error) ==> error == RuntimeError::Busy,
{
}

/// While a replacement is prepared the runtime is closed, and says for what; where that fails
/// it goes on in the phase it had, and the error tells the cause, and what went wrong with the
/// cleaning up.
pub proof fn a_runtime_goes_on_where_it_was(
    owner: &mut RuntimeOwner,
    operation: ReconfigureKind,
    previous: RuntimePhase,
    aborted: &mut RuntimeOwner,
    error: String,
    cleanup: Option<String>,
    failure: RuntimeError,
)
    requires
        call_ensures(RuntimeOwner::begin_reprepare, (owner, operation), previous),
        call_ensures(RuntimeOwner::abort_reprepare, (aborted, previous, error, cleanup), failure),
    ensures
        previous == old(owner).phase,
        final(owner).phase == RuntimePhase::Reconfiguring,
        adds(*old(owner), *final(owner), 1),
        publishes(
            *old(owner),
            added(*old(owner), *final(owner), 0),
            CodingRuntimeEvent::Reconfiguring { operation },
        ),
        adds(*old(aborted), *final(aborted), 0),
        final(aborted).phase == if old(owner).phase == RuntimePhase::Ready {
            idle_phase(*old(aborted))
        } else {
            old(owner).phase
        },
        failure is ReconfigureFailed,
        cleanup is None ==> failure->ReconfigureFailed_0@ == error@,
        cleanup matches Some(detail) ==> failure->ReconfigureFailed_0@ == error@ + "; "@ + detail@,
{
    actions_are_kept(*old(owner), *final(owner));
    actions_are_kept(*old(aborted), *final(aborted));
    let n = old(owner).outbox@.len() as int;
    assert(final(owner)@.outbox[n] == final(owner).outbox@[n]@);
}

/// A replacement that is published has the controllers give way and the agent told to stop;
/// the turn of an interrupted controller counts as cancelled.
pub proof fn a_published_replacement_stops_the_agent(
    owner: &mut RuntimeOwner,
    interrupted: bool,
    report: StopReport,
    adjusted: StopReport,
)
    requires
        call_ensures(RuntimeOwner::begin_switch, (owner,), interrupted),
        call_ensures(RuntimeOwner::switched_report, (report, interrupted), adjusted),
    ensures
        interrupted <==> old(owner).goal is Some || old(owner).loop_state is Some,
        final(owner).goal is None && final(owner).loop_state is None
            && final(owner).held_turn is None,
        final(owner).pending_requests@.len() == 0,
        reachable(*old(owner)) ==> final(owner).outbox@.len() > old(owner).outbox@.len() && sends(
            final(owner).outbox@.last(),
            AgentCommand::Shutdown,
        ),
        interrupted ==> adjusted.reason == Some(StopReason::Cancelled),
        !interrupted ==> adjusted.reason == report.reason,
        adjusted.snapshot == report.snapshot && adjusted.forced == report.forced
            && adjusted.conversation_changed == report.conversation_changed
            && adjusted.persistence_failure == report.persistence_failure,
{
    assert(final(owner)@.outbox.len() == final(owner).outbox@.len());
    assert(old(owner)@.outbox.len() == old(owner).outbox@.len());
    if reachable(*old(owner)) {
        assert(final(owner)@.outbox.last() == final(owner).outbox@.last()@);
    }
}

/// A switch ends with the replacement in place, ready, of the next generation. Drivers are
/// told of the session it serves, of its directory where that is what changed, and that the
/// change is over. A fresh session, or another directory, may be named anew.
pub proof fn a_switch_ends_with_the_replacement(
    owner: &mut RuntimeOwner,
    operation: ReconfigureKind,
    session_id: Option<String>,
    working_dir: String,
    changed: SessionChanged,
)
    requires
        call_ensures(
            RuntimeOwner::finish_switch,
            (owner, operation, session_id, working_dir),
            changed,
        ),
    ensures
        is_adopted(*old(owner), *final(owner)),
        final(owner).phase == RuntimePhase::Ready && !final(owner).compaction_suspended,
        final(owner).has_session <==> session_id is Some,
        final(owner).ai_name_attempted <==> old(owner).ai_name_attempted && !(
        operation is FreshSession) && !(operation is ChangeDirectory),
        changed.generation == RuntimeGeneration(final(owner).generation),
        changed.session_id == session_id && changed.working_dir == working_dir,
        ({
            let moved: int = if operation is ChangeDirectory {
                1
            } else {
                0
            };
            &&& adds(*old(owner), *final(owner), moved + 2)
            &&& publishes(
                *final(owner),
                added(*old(owner), *final(owner), 0),
                CodingRuntimeEvent::SessionChanged(changed),
            )
            &&& moved == 1 ==> publishes(
                *final(owner),
                added(*old(owner), *final(owner), 1),
                CodingRuntimeEvent::WorkingDirectoryChanged(working_dir),
            )
            &&& publishes(
                *final(owner),
                added(*old(owner), *final(owner), moved + 1),
                CodingRuntimeEvent::Reconfigured { operation },
            )
        }),
{
    actions_are_kept(*old(owner), *final(owner));
    let n = old(owner).outbox@.len() as int;
    let m = final(owner).outbox@.len() as int;
    assert(final(owner)@.outbox[n] == final(owner).outbox@[n]@);
    assert(final(owner)@.outbox[n + 1] == final(owner).outbox@[n + 1]@);
    assert(final(owner)@.outbox[m - 1] == final(owner).outbox@[m - 1]@);
}

/// A replacement thrown away for doubt fails with the doubt, and with what went wrong with the
/// cleaning up.
pub proof fn a_doubted_switch_fails_with_the_doubt(
    error: RuntimeError,
    cleanup: Option<String>,
    failure: RuntimeError,
)
    requires
        call_ensures(RuntimeOwner::switch_doubted, (error, cleanup), failure),
    ensures
        cleanup is None ==> failure == error,
        cleanup matches Some(detail) ==> failure is ReconfigureFailed
            && failure->ReconfigureFailed_0@ == error.text() + "; candidate cleanup failed: "@
            + detail@,
{
}

/// An undo that was not persisted is no fault where the conversation moved on; it ends the
/// runtime where it may be half done or the session no longer reads; else nothing happened.
pub proof fn an_undo_that_was_not_persisted(
    owner: &mut RuntimeOwner,
    error: NativePersistenceError,
    health: Option<String>,
    failure: RuntimeError,
)
    requires
        call_ensures(RuntimeOwner::undo_not_persisted, (owner, error, health), failure),
    ensures
        error.snapshot_conflict ==> failure == RuntimeError::Busy,
        !error.snapshot_conflict ==> failure == RuntimeError::ReconfigureFailed(error.message),
        error.snapshot_conflict || (!error.uncertain_commit && health is None) ==> unchanged(
            *old(owner),
            *final(owner),
        ),
        !error.snapshot_conflict && (error.uncertain_commit || health is Some) ==> {
            let text = error.message@ + match health {
                Some(words) => "; canonical native session health check failed: "@ + words@,
                None => Seq::<char>::empty(),
            };
            &&& final(owner).phase == RuntimePhase::Failed && !final(owner).agent_attached
            &&& final(owner).persistence_failure matches Some(doubt) && doubt@ == text
            &&& final(owner).outbox@.len() > old(owner).outbox@.len()
            &&& publishes_error(
                *old(owner),
                final(owner).outbox@.last(),
                "undo persistence could not be proven safe; runtime stopped: "@ + text,
            )
            &&& reachable(*old(owner)) ==> sends(
                added(*old(owner), *final(owner), 0),
                AgentCommand::Shutdown,
            )
        },
{
    actions_are_kept(*old(owner), *final(owner));
    let n = old(owner).outbox@.len() as int;
    if final(owner).outbox@.len() > n {
        assert(final(owner)@.outbox[n] == final(owner).outbox@[n]@);
        assert(final(owner)@.outbox.last() == final(owner).outbox@.last()@);
    }
}

/// An undo ends with the agent of the undone conversation in place, ready, of the next
/// generation; whoever asked gets the conversation and the prompt that was undone.
pub proof fn an_undo_ends_with_the_undone_conversation(
    owner: &mut RuntimeOwner,
    snapshot: Arc<SessionSnapshot>,
    prompt: String,
    target: usize,
    before: usize,
    result: UndoResult,
)
    requires
        call_ensures(RuntimeOwner::finish_undo, (owner, snapshot, prompt, target, before), result),
    ensures
        is_adopted(*old(owner), *final(owner)),
        final(owner).phase == RuntimePhase::Ready,
        result.generation == RuntimeGeneration(final(owner).generation),
        result.snapshot == snapshot && result.restored_prompt == prompt,
        result.target_n == target && result.prompts_before == before,
        adds(*old(owner), *final(owner), 1),
        publishes(
            *final(owner),
            added(*old(owner), *final(owner), 0),
            CodingRuntimeEvent::Reconfigured { operation: ReconfigureKind::Undo },
        ),
{
    actions_are_kept(*old(owner), *final(owner));
    let n = old(owner).outbox@.len() as int;
    assert(final(owner)@.outbox[n] == final(owner).outbox@[n]@);
}

/// An undo whose agent could not be built goes back; where it could not be taken back either,
/// the runtime ends. The error tells both.
pub proof fn a_failed_undo_goes_back(
    owner: &mut RuntimeOwner,
    candidate_error: String,
    restore_error: Option<String>,
    rollback: Rollback,
    failure: RuntimeError,
)
    requires
        call_ensures(
            RuntimeOwner::abort_undo,
            (owner, candidate_error, restore_error, rollback),
            failure,
        ),
    ensures
        failure is ReconfigureFailed,
        restore_error is None ==> failure->ReconfigureFailed_0@ == candidate_error@ && went_back(
            *old(owner),
            *final(owner),
            rollback,
            "undo rollback failed: "@,
        ),
        restore_error matches Some(error) ==> {
            &&& failure->ReconfigureFailed_0@ == candidate_error@ + (
            "; snapshot restore failed: "@ + error@)
            &&& final(owner).phase == RuntimePhase::Failed && !final(owner).agent_attached
            &&& final(owner).persistence_failure matches Some(doubt) && doubt@
                == "undo rollback persistence failed: "@ + error@
            &&& adds(*old(owner), *final(owner), 1)
            &&& publishes_error(
                *old(owner),
                added(*old(owner), *final(owner), 0),
                "undo rollback persistence failed; runtime stopped: "@ + error@,
            )
        },
{
    actions_are_kept(*old(owner), *final(owner));
    let n = old(owner).outbox@.len() as int;
    if final(owner).outbox@.len() > n {
        assert(final(owner)@.outbox[n] == final(owner).outbox@[n]@);
    }
}

/// A restore ends with the agent of the restored conversation in place, ready, of the next
/// generation; drivers are told of the session, and that the change is over.
pub proof fn a_restore_ends_with_the_restored_conversation(
    owner: &mut RuntimeOwner,
    session_id: Option<String>,
    working_dir: String,
    changed: SessionChanged,
)
    requires
        call_ensures(RuntimeOwner::finish_restore, (owner, session_id, working_dir), changed),
    ensures
        is_adopted(*old(owner), *final(owner)),
        final(owner).phase == RuntimePhase::Ready,
        changed.generation == RuntimeGeneration(final(owner).generation),
        changed.session_id == session_id && changed.working_dir == working_dir,
        adds(*old(owner), *final(owner), 2),
        publishes(
            *final(owner),
            added(*old(owner), *final(owner), 0),
            CodingRuntimeEvent::SessionChanged(changed),
        ),
        publishes(
            *final(owner),
            added(*old(owner), *final(owner), 1),
            CodingRuntimeEvent::Reconfigured { operation: ReconfigureKind::RestoreSession },
        ),
{
    actions_are_kept(*old(owner), *final(owner));
    let n = old(owner).outbox@.len() as int;
    assert(final(owner)@.outbox[n] == final(owner).outbox@[n]@);
    assert(final(owner)@.outbox[n + 1] == final(owner).outbox@[n + 1]@);
}

/// A restore that failed goes back, unless a commit may be half done or the old conversation
/// could not be put back: then the runtime ends. The error tells both.
pub proof fn a_failed_restore_goes_back(
    owner: &mut RuntimeOwner,
    candidate_error: &NativePersistenceError,
    restore_error: Option<NativePersistenceError>,
    rollback: Rollback,
    failure: RuntimeError,
)
    requires
        call_ensures(
            RuntimeOwner::abort_restore,
            (owner, candidate_error, restore_error, rollback),
            failure,
        ),
    ensures
        failure is ReconfigureFailed,
        restore_error is None ==> failure->ReconfigureFailed_0@ == candidate_error.message@,
        restore_error matches Some(error) ==> failure->ReconfigureFailed_0@
            == candidate_error.message@ + ("; snapshot restore failed: "@ + error.message@),
        !candidate_error.uncertain_commit && restore_error is None ==> went_back(
            *old(owner),
            *final(owner),
            rollback,
            "conversation restore rollback failed: "@,
        ),
        candidate_error.uncertain_commit || restore_error is Some ==> final(owner).phase
            == RuntimePhase::Failed && !final(owner).agent_attached && (
        final(owner).persistence_failure matches Some(doubt) && adds(
            *old(owner),
            *final(owner),
            1,
        ) && publishes_error(
            *old(owner),
            added(*old(owner), *final(owner), 0),
            "conversation restore persistence failed; runtime stopped: "@ + doubt@,
        )),
{
    actions_are_kept(*old(owner), *final(owner));
    let n = old(owner).outbox@.len() as int;
    if final(owner).outbox@.len() > n {
        assert(final(owner)@.outbox[n] == final(owner).outbox@[n]@);
    }
}

/// The agent that stopped for a replacement ends its turn; where the stored session is not in
/// doubt, what it left is the resume point of a runtime without one.
pub proof fn what_a_stopped_agent_left_is_kept(
    owner: &mut RuntimeOwner,
    ended: &mut RuntimeOwner,
    report: &StopReport,
    stored: &Option<Arc<SessionSnapshot>>,
    error: Option<RuntimeError>,
    result: (),
)
    requires
        call_ensures(RuntimeOwner::settle_stop, (owner, report, stored), error),
        call_ensures(RuntimeOwner::finish_stopped_native_turn, (ended, report, stored), result),
        *old(owner) == *old(ended),
        report.persistence_failure is None,
    ensures
        error is None,
        ({
            let keeps = old(owner).has_resources && !old(owner).has_session
                && report.snapshot is Some;
            &&& !keeps ==> final(owner)@ == final(ended)@
            &&& keeps ==> final(owner).outbox@.len() == final(ended).outbox@.len() + 1 && (
            final(owner).outbox@.last() matches OwnerAction::KeepResume(kept) && kept
                == report.snapshot->0)
        }),
        final(owner).active_turn is None,
{
    reveal(OwnerView::settled);
    assert(final(owner)@.outbox.len() == final(owner).outbox@.len());
    assert(final(ended)@.outbox.len() == final(ended).outbox@.len());
    if old(owner).has_resources && !old(owner).has_session && report.snapshot is Some {
        assert(final(owner)@.outbox.last() == final(owner).outbox@.last()@);
    }
}

/// A stop that came with doubt ends the runtime, whatever it was for.
pub proof fn a_doubtful_stop_ends_the_runtime(
    settle: &mut RuntimeOwner,
    undo: &mut RuntimeOwner,
    report: &StopReport,
    stored: &Option<Arc<SessionSnapshot>>,
    error: Option<RuntimeError>,
    undo_error: Option<RuntimeError>,
    doubt: String,
)
    requires
        call_ensures(RuntimeOwner::settle_stop, (settle, report, stored), error),
        call_ensures(RuntimeOwner::settle_undo, (undo, report, stored), undo_error),
        report.persistence_failure == Some(doubt),
    ensures
        final(settle).phase == RuntimePhase::Failed && final(undo).phase == RuntimePhase::Failed,
        final(settle).active_turn is None && final(undo).active_turn is None,
        error matches Some(RuntimeError::ReconfigureFailed(words)) && words@
            == "session persistence became uncertain while stopping the current agent; runtime stopped: "@
            + doubt@,
        undo_error matches Some(RuntimeError::ReconfigureFailed(words)) && words@
            == "session persistence became uncertain while stopping the current agent; runtime stopped: "@
            + doubt@,
        final(settle).persistence_failure matches Some(why) && why@ == doubt@,
        final(undo).persistence_failure matches Some(why) && why@ == doubt@,
{
    reveal(OwnerView::settled);
}

/// A new configuration carries its own routing table, or else the current one, and the current
/// providers; they are installed where there is a table and no provider yet. All else is its
/// own.
pub proof fn subagents_keep_their_providers(
    next: CodingAgentConfig,
    current: &CodingAgentConfig,
    routed: (CodingAgentConfig, RoutingStep),
)
    requires
        call_ensures(route_subagents, (next, current), routed),
    ensures
        next.subagent_config is Some ==> routed.0.subagent_config == next.subagent_config,
        next.subagent_config is None ==> routed.0.subagent_config == current.subagent_config,
        routed.0.subagent_fast_provider == current.subagent_fast_provider,
        routed.0.subagent_capable_provider == current.subagent_capable_provider,
        routed.1 is Nothing <==> next.subagent_config is None && current.subagent_config is None,
        !(routed.1 is Nothing) ==> (routed.1 is Install <==> current.subagent_fast_provider is None
            && current.subagent_capable_provider is None),
        next == (CodingAgentConfig {
            subagent_config: next.subagent_config,
            subagent_fast_provider: next.subagent_fast_provider,
            subagent_capable_provider: next.subagent_capable_provider,
            ..routed.0
        }),
{
}

} // verus!
