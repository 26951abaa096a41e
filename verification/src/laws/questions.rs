//! What drivers ask of the owner between and during turns: snapshots, compactions, modes,
//! figures and the past of the conversation.
use super::turns::{
    actions_are_kept, added, adds, at_rest, gives_up, publishes, reachable, sends, unchanged,
};
use crate::compaction::{CompactTrigger, CompactionCompletion, CompactionInterruption};
use crate::control::CodingRuntimeControl;
use crate::error::RuntimeError;
use crate::event::{AgentCommand, CodingRuntimeEvent, RewindCatalog, RewindPoint, RuntimeContextStats};
use crate::mode::RuntimeMode;
use crate::owner::controls::{
    RewindBeginFailure, RewindFinalization, RewindFinishFailure, RewindLedger,
};
use crate::owner::{LostCommand, OwnerAction, RuntimeOwner};
use crate::phase::{RuntimeGeneration, RuntimePhase, RuntimeStatus};
use vstd::prelude::*;
use vstd::string::*;

verus! {

/// Whether the action refuses the waiter with the error.
pub open spec fn refuses(action: OwnerAction, waiter: u64, error: RuntimeError) -> bool {
    action matches OwnerAction::AnswerSnapshot { waiter: told, result } && told == waiter && result
        == Err::<crate::event::RuntimeSnapshotReceipt, RuntimeError>(error)
}

/// Whoever asks for a snapshot is refused or waits. The agent is asked for one exactly where
/// no turn is in progress and none is on its way.
pub proof fn a_snapshot_is_asked_for_when_it_can_come(
    owner: &mut RuntimeOwner,
    generation: u64,
    waiter: u64,
    result: Result<(), RuntimeError>,
)
    requires
        call_ensures(RuntimeOwner::snapshot, (owner, generation, waiter), result),
    ensures
        result is Ok <==> old(owner).native && generation == old(owner).generation
            && old(owner).agent_available,
        result matches Err(error) ==> error == RuntimeError::Unavailable && unchanged(
            *old(owner),
            *final(owner),
        ),
        result is Ok && (old(owner).active_turn is Some || old(owner).snapshot_in_flight) ==> {
            &&& adds(*old(owner), *final(owner), 0)
            &&& final(owner).snapshot_waiters@ == old(owner).snapshot_waiters@.push(waiter)
            &&& final(owner).snapshot_in_flight == old(owner).snapshot_in_flight
        },
        result is Ok && old(owner).active_turn is None && !old(owner).snapshot_in_flight
            && reachable(*old(owner)) ==> {
            &&& adds(*old(owner), *final(owner), 1)
            &&& sends(added(*old(owner), *final(owner), 0), AgentCommand::Snapshot)
            &&& final(owner).snapshot_waiters@ == old(owner).snapshot_waiters@.push(waiter)
            &&& final(owner).snapshot_in_flight
        },
        result is Ok && old(owner).active_turn is None && !old(owner).snapshot_in_flight
            && !reachable(*old(owner)) ==> {
            let all = old(owner).snapshot_waiters@.push(waiter);
            &&& adds(*old(owner), *final(owner), all.len() as int)
            &&& forall|i: int|
                0 <= i < all.len() ==> refuses(
                    #[trigger] added(*old(owner), *final(owner), i),
                    all[i],
                    RuntimeError::DeliveryFailed,
                )
            &&& final(owner).snapshot_waiters@.len() == 0
            &&& final(owner).phase == RuntimePhase::Failed
        },
{
    actions_are_kept(*old(owner), *final(owner));
    let n = old(owner).outbox@.len() as int;
    if final(owner).outbox@.len() > n {
        assert(final(owner)@.outbox[n] == final(owner).outbox@[n]@);
    }
    if result is Ok && old(owner).active_turn is None && !old(owner).snapshot_in_flight
        && !reachable(*old(owner)) {
        let all = old(owner).snapshot_waiters@.push(waiter);
        assert forall|i: int| 0 <= i < all.len() implies refuses(
            #[trigger] added(*old(owner), *final(owner), i),
            all[i],
            RuntimeError::DeliveryFailed,
        ) by {
            assert(final(owner)@.outbox[n + i] == final(owner).outbox@[n + i]@);
        }
    }
}

/// A compaction that the user asks for is handed to the agent with its focus, or drivers are
/// told at once that it was interrupted, and why. Either way one thing is done.
pub proof fn a_compaction_is_handed_over_or_ends(
    owner: &mut RuntimeOwner,
    generation: u64,
    focus: Option<String>,
    result: (),
)
    requires
        call_ensures(RuntimeOwner::compact, (owner, generation, focus), result),
    ensures
        ({
            let closed = generation != old(owner).generation || old(owner).compaction_suspended;
            let trigger = CompactTrigger::Manual { focus };
            let action = added(*old(owner), *final(owner), 0);
            let taken = !closed && old(owner).agent_available && reachable(*old(owner));
            &&& adds(*old(owner), *final(owner), 1)
            &&& taken ==> sends(action, AgentCommand::Compact { focus })
            &&& !taken ==> publishes(
                *old(owner),
                action,
                CodingRuntimeEvent::CompactionFinished {
                    completion: CompactionCompletion::Interrupted {
                        trigger,
                        reason: if closed {
                            CompactionInterruption::RuntimeReconfigured
                        } else {
                            CompactionInterruption::RuntimeUnavailable
                        },
                    },
                },
            )
            &&& !closed && old(owner).agent_available && !reachable(*old(owner))
                ==> final(owner).phase == RuntimePhase::Failed && !final(owner).agent_available
            &&& closed || !old(owner).agent_available ==> final(owner).phase == old(owner).phase
        }),
{
    actions_are_kept(*old(owner), *final(owner));
    let n = old(owner).outbox@.len() as int;
    assert(final(owner)@.outbox[n] == final(owner).outbox@[n]@);
}

/// A mode is set by its switches, of which at most one is on, and drivers are told of it.
pub proof fn a_mode_is_set_and_told(
    owner: &mut RuntimeOwner,
    generation: u64,
    mode: RuntimeMode,
    result: Result<(bool, bool, bool), RuntimeError>,
)
    requires
        call_ensures(RuntimeOwner::set_mode, (owner, generation, mode), result),
    ensures
        !old(owner).has_resources ==> result == Err::<(bool, bool, bool), RuntimeError>(
            RuntimeError::Unavailable,
        ),
        old(owner).has_resources ==> (result is Ok <==> generation == old(owner).generation
            && !old(owner).compaction_suspended),
        result is Err ==> unchanged(*old(owner), *final(owner)),
        result matches Err(error) ==> old(owner).has_resources ==> error == RuntimeError::Busy,
        result matches Ok((plan, auto, accept_edits)) ==> {
            &&& plan <==> mode is Plan
            &&& auto <==> mode is Auto
            &&& accept_edits <==> mode is AcceptEdits
            &&& adds(*old(owner), *final(owner), 1)
            &&& publishes(
                *old(owner),
                added(*old(owner), *final(owner), 0),
                CodingRuntimeEvent::ModeChanged { mode },
            )
        },
{
    actions_are_kept(*old(owner), *final(owner));
    if result is Ok {
        let n = old(owner).outbox@.len() as int;
        assert(final(owner)@.outbox[n] == final(owner).outbox@[n]@);
    }
}

/// The figures are those of the configuration and the tokens last seen in use.
pub proof fn figures_are_the_ones_last_seen(
    owner: &RuntimeOwner,
    generation: u64,
    context_window: u32,
    model: String,
    working_dir: String,
    result: Result<RuntimeContextStats, RuntimeError>,
)
    requires
        call_ensures(
            RuntimeOwner::context_stats,
            (owner, generation, context_window, model, working_dir),
            result,
        ),
    ensures
        result is Ok <==> owner.has_resources && generation == owner.generation,
        result matches Err(error) ==> error == if owner.has_resources {
            RuntimeError::Busy
        } else {
            RuntimeError::Unavailable
        },
        result matches Ok(stats) ==> {
            &&& stats.context_window == context_window
            &&& stats.model == model
            &&& stats.working_dir == working_dir
            &&& owner.observed_tokens is None ==> stats.used_tokens == 0
            &&& owner.observed_tokens matches Some(tokens) ==> (tokens <= 0xffff_ffff
                ==> stats.used_tokens == tokens) && (tokens > 0xffff_ffff ==> stats.used_tokens
                == 0xffff_ffffu32)
        },
{
}

/// A driver reads the generation and the phase as they are.
pub proof fn the_status_is_what_holds(owner: &RuntimeOwner, status: RuntimeStatus)
    requires
        call_ensures(RuntimeOwner::status, (owner,), status),
    ensures
        status.generation == owner.generation,
        status.phase == owner.phase,
{
}

/// What is to be done is handed out whole and in order, and only once.
pub proof fn actions_are_handed_out_once(owner: &mut RuntimeOwner, actions: Vec<OwnerAction>)
    requires
        call_ensures(RuntimeOwner::take_actions, (owner,), actions),
    ensures
        actions@.len() == old(owner).outbox@.len(),
        forall|i: int|
            0 <= i < actions@.len() ==> (#[trigger] actions@[i])@ == old(owner).outbox@[i]@,
        final(owner).outbox@.len() == 0,
        final(owner).active_turn == old(owner).active_turn,
        final(owner).phase == old(owner).phase,
        final(owner).generation == old(owner).generation,
{
    let views = crate::owner::action_views(actions@);
    assert(views.len() == old(owner)@.outbox.len());
    assert forall|i: int| 0 <= i < actions@.len() implies (#[trigger] actions@[i])@
        == old(owner).outbox@[i]@ by {
        assert(views[i] == actions@[i]@);
        assert(old(owner)@.outbox[i] == old(owner).outbox@[i]@);
    }
    assert(final(owner)@.outbox.len() == final(owner).outbox@.len());
}

/// The catalog is the ledger's own list, dated with the generation and the revision of the
/// conversation; without a stored session it is empty and says why.
pub proof fn the_catalog_is_the_ledger(
    owner: &RuntimeOwner,
    generation: u64,
    ledger: Option<RewindLedger>,
    result: Result<RewindCatalog, RuntimeError>,
)
    requires
        call_ensures(RuntimeOwner::rewind_catalog, (owner, generation, ledger), result),
    ensures
        !at_rest(*owner, generation) ==> result == Err::<RewindCatalog, RuntimeError>(
            RuntimeError::Busy,
        ),
        result matches Ok(catalog) ==> {
            &&& catalog.generation == RuntimeGeneration(owner.generation)
            &&& catalog.revision == owner.conversation_revision
            &&& owner.has_resources
            &&& ledger is None ==> catalog.points@.len() == 0 && catalog.code_unavailable is Some
            &&& ledger matches Some(open) ==> catalog.points == open.points
                && catalog.code_unavailable == open.code_unavailable
                && open.transaction_unavailable is None
        },
        result matches Err(error) ==> error == RuntimeError::Busy || error
            == RuntimeError::Unavailable || (ledger matches Some(open)
            && open.transaction_unavailable is Some && error == RuntimeError::ReconfigureFailed(
            open.transaction_unavailable->0,
        )),
        !owner.has_resources ==> result is Err,
        at_rest(*owner, generation) && !owner.has_resources ==> result == Err::<
            RewindCatalog,
            RuntimeError,
        >(RuntimeError::Unavailable),
        at_rest(*owner, generation) && owner.has_resources && (ledger matches Some(open)
            ==> open.transaction_unavailable is None) ==> result is Ok,
{
}

/// A rewind begins only from the revision it was chosen from, and only to a point that the
/// ledger holds now; then the runtime is closed for it.
pub proof fn a_rewind_begins_at_a_point_that_is_there(
    owner: &mut RuntimeOwner,
    generation: u64,
    expected_revision: u64,
    point: &RewindPoint,
    points: Option<&Vec<RewindPoint>>,
    result: Result<(), RuntimeError>,
)
    requires
        call_ensures(
            RuntimeOwner::check_rewind,
            (owner, generation, expected_revision, point, points),
            result,
        ),
    ensures
        ({
            let open = at_rest(*old(owner), generation) && expected_revision
                == old(owner).conversation_revision;
            let held = points is Some && exists|i: int|
                0 <= i < points->0@.len() && (#[trigger] points->0@[i])@ == point@;
            &&& result is Ok <==> open && old(owner).has_resources && held
            &&& !open ==> result == Err::<(), RuntimeError>(RuntimeError::Busy)
            &&& open && !old(owner).has_resources ==> result == Err::<(), RuntimeError>(
                RuntimeError::Unavailable,
            )
            &&& open && old(owner).has_resources && points is Some && !held ==> result == Err::<
                (),
                RuntimeError,
            >(RuntimeError::RewindPointUnavailable { turn_id: point.turn_id })
            &&& open && old(owner).has_resources && points is None ==> result is Err
                && result->Err_0 is CodeRewindUnavailable
        }),
        result is Ok ==> final(owner).phase == RuntimePhase::Reconfiguring && adds(
            *old(owner),
            *final(owner),
            0,
        ),
        result is Err ==> unchanged(*old(owner), *final(owner)),
{
    actions_are_kept(*old(owner), *final(owner));
}

/// A point is found only by all of it: number, prompt and files.
pub proof fn points_are_told_apart(left: &RewindPoint, right: &RewindPoint, same: bool)
    requires
        call_ensures(RewindPoint::same, (left, right), same),
    ensures
        same <==> left.turn_id == right.turn_id && left.prompt_number == right.prompt_number
            && left.prompt_preview@ == right.prompt_preview@ && left.files@.len()
            == right.files@.len() && forall|i: int|
            0 <= i < left.files@.len() ==> (#[trigger] left.files@[i])@ == right.files@[i]@,
{
    let l = crate::text::texts(left.files@);
    let r = crate::text::texts(right.files@);
    assert forall|i: int| 0 <= i < left.files@.len() implies #[trigger] l[i] == left.files@[i]@ by {}
    assert forall|i: int| 0 <= i < right.files@.len() implies #[trigger] r[i] == right.files@[i]@ by {}
    if left.files@.len() == right.files@.len() && (forall|i: int|
        0 <= i < left.files@.len() ==> (#[trigger] left.files@[i])@ == right.files@[i]@) {
        assert forall|i: int| 0 <= i < l.len() implies l[i] == r[i] by {
            assert(left.files@[i]@ == right.files@[i]@);
        }
        assert(l =~= r);
    }
    if same {
        assert(l == r);
        assert(l.len() == left.files@.len() && r.len() == right.files@.len());
        assert forall|i: int| 0 <= i < left.files@.len() implies (#[trigger] left.files@[i])@
            == right.files@[i]@ by {
            assert(l[i] == r[i]);
        }
    }
}

/// A rewind that did not begin opens the runtime again, unless the workspace may be half
/// changed; the error says what went wrong.
pub proof fn a_rewind_that_did_not_begin(
    owner: &mut RuntimeOwner,
    failure: RewindBeginFailure,
    restore_code: bool,
    error: RuntimeError,
)
    requires
        call_ensures(RuntimeOwner::rewind_not_begun, (owner, failure, restore_code), error),
    ensures
        failure matches RewindBeginFailure::Checkpoint { message, compensation_failed } ==> {
            &&& compensation_failed ==> gives_up(*old(owner), *final(owner))
            &&& !compensation_failed ==> adds(*old(owner), *final(owner), 0) && final(owner).phase
                == if old(owner).provider_unavailable_reason is Some {
                RuntimePhase::AwaitingProvider
            } else {
                RuntimePhase::Ready
            } && final(owner).agent_available == old(owner).agent_available
            &&& restore_code ==> error == RuntimeError::CodeRewindUnavailable(message)
            &&& !restore_code ==> error is ReconfigureFailed && error->ReconfigureFailed_0@
                == "rewind checkpoint update failed: "@ + message@
        },
        failure matches RewindBeginFailure::Task(message) ==> gives_up(*old(owner), *final(owner))
            && error is CodeRewindUnavailable && error->CodeRewindUnavailable_0@
            == "rewind checkpoint task failed: "@ + message@,
{
    actions_are_kept(*old(owner), *final(owner));
    let n = old(owner).outbox@.len() as int;
    if final(owner).outbox@.len() > n {
        assert(final(owner)@.outbox[n] == final(owner).outbox@[n]@);
    }
}

/// Closing a rewind is open to the current generation, and recovery to every one.
pub proof fn closing_a_rewind_is_open_to_the_current_generation(
    owner: &RuntimeOwner,
    generation: u64,
    outcome: RewindFinalization,
    result: Result<(), RuntimeError>,
)
    requires
        call_ensures(RuntimeOwner::check_finish_rewind, (owner, generation, outcome), result),
    ensures
        result is Ok <==> (outcome is Recover || generation == owner.generation)
            && owner.has_resources,
        result matches Err(error) ==> error == if outcome is Recover || generation
            == owner.generation {
            RuntimeError::Unavailable
        } else {
            RuntimeError::Busy
        },
{
}

/// How the closing of a rewind is named.
pub open spec fn closing_word(outcome: RewindFinalization) -> Seq<char> {
    match outcome {
        RewindFinalization::Commit => "commit"@,
        RewindFinalization::Compensate => "compensation"@,
        RewindFinalization::Recover => "recovery"@,
    }
}

/// A rewind that is closed opens a runtime that was closed for it; one that could not be
/// closed ends the runtime, and the error names the step and the cause.
pub proof fn a_closed_rewind_opens_the_runtime(
    owner: &mut RuntimeOwner,
    outcome: RewindFinalization,
    failure: Option<RewindFinishFailure>,
    result: Result<(), RuntimeError>,
)
    requires
        call_ensures(RuntimeOwner::rewind_finished, (owner, outcome, failure), result),
    ensures
        result is Ok <==> failure is None,
        failure is None && old(owner).phase != RuntimePhase::Reconfiguring ==> unchanged(
            *old(owner),
            *final(owner),
        ),
        failure is None && old(owner).phase == RuntimePhase::Reconfiguring ==> adds(
            *old(owner),
            *final(owner),
            0,
        ) && final(owner).phase == if old(owner).provider_unavailable_reason is Some {
            RuntimePhase::AwaitingProvider
        } else {
            RuntimePhase::Ready
        },
        failure is Some ==> gives_up(*old(owner), *final(owner)),
        failure matches Some(RewindFinishFailure::Ledger(message)) ==> result is Err
            && result->Err_0 is ReconfigureFailed && result->Err_0->ReconfigureFailed_0@
            == "rewind "@ + closing_word(outcome) + " failed: "@ + message@,
        failure matches Some(RewindFinishFailure::Task(message)) ==> result is Err
            && result->Err_0 is ReconfigureFailed && result->Err_0->ReconfigureFailed_0@
            == "rewind "@ + closing_word(outcome) + " task failed: "@ + message@,
        failure matches Some(RewindFinishFailure::NoCheckpoint) ==> result is Err
            && result->Err_0 is CodeRewindUnavailable && result->Err_0->CodeRewindUnavailable_0@
            == "rewind finalization lost its session checkpoint"@,
{
    actions_are_kept(*old(owner), *final(owner));
    let n = old(owner).outbox@.len() as int;
    if final(owner).outbox@.len() > n {
        assert(final(owner)@.outbox[n] == final(owner).outbox@[n]@);
    }
}

/// An undo is applied only to the revision it was computed from, at rest.
pub proof fn an_undo_fits_the_revision(
    owner: &RuntimeOwner,
    generation: u64,
    expected_revision: u64,
    result: Result<(), RuntimeError>,
)
    requires
        call_ensures(RuntimeOwner::check_undo, (owner, generation, expected_revision), result),
    ensures
        ({
            let fits = at_rest(*owner, generation) && expected_revision
                == owner.conversation_revision;
            &&& result is Ok <==> fits && owner.has_resources
            &&& result matches Err(error) ==> error == if fits {
                RuntimeError::Unavailable
            } else {
                RuntimeError::Busy
            }
        }),
{
}

/// Tool servers are read in the current generation, and waited for only between turns.
pub proof fn tool_servers_are_asked_between_turns(
    owner: &RuntimeOwner,
    generation: u64,
    idle: Result<(), RuntimeError>,
    read: Result<RuntimeGeneration, RuntimeError>,
)
    requires
        call_ensures(RuntimeOwner::check_tool_servers_idle, (owner, generation), idle),
        call_ensures(RuntimeOwner::check_tool_servers, (owner, generation), read),
    ensures
        idle is Ok <==> generation == owner.generation && owner.active_turn is None
            && !owner.compaction_suspended && owner.has_resources,
        read is Ok <==> generation == owner.generation && owner.has_resources,
        read matches Ok(current) ==> current == RuntimeGeneration(owner.generation),
        read matches Err(error) ==> error == if generation == owner.generation {
            RuntimeError::Unavailable
        } else {
            RuntimeError::Busy
        },
        idle matches Err(error) ==> error == if generation == owner.generation
            && owner.active_turn is None && !owner.compaction_suspended {
            RuntimeError::Unavailable
        } else {
            RuntimeError::Busy
        },
{
}

/// Once the stored session is in doubt, nothing but a shutdown is looked at.
pub proof fn doubt_admits_a_shutdown_alone(
    owner: &RuntimeOwner,
    control: &CodingRuntimeControl,
    admitted: bool,
)
    requires
        call_ensures(RuntimeOwner::admits, (owner, control), admitted),
    ensures
        admitted <==> owner.persistence_failure is None || *control is Shutdown,
{
}

/// A control that is not looked at is answered: a compaction by its end, anybody else who
/// waits by the error.
pub proof fn a_rejected_control_is_answered(
    owner: &mut RuntimeOwner,
    control: CodingRuntimeControl,
    reason: CompactionInterruption,
    answer: Option<RuntimeError>,
)
    requires
        call_ensures(RuntimeOwner::reject_runtime_control, (owner, control, reason), answer),
    ensures
        answer is Some <==> !(control is Compact) && !(control is Shutdown),
        answer matches Some(error) ==> error == RuntimeError::Unavailable,
        !(control is Compact) ==> unchanged(*old(owner), *final(owner)),
        control matches CodingRuntimeControl::Compact { generation, focus } ==> adds(
            *old(owner),
            *final(owner),
            1,
        ) && publishes(
            *old(owner),
            added(*old(owner), *final(owner), 0),
            CodingRuntimeEvent::CompactionFinished {
                completion: CompactionCompletion::Interrupted {
                    trigger: CompactTrigger::Manual { focus },
                    reason,
                },
            },
        ),
{
    actions_are_kept(*old(owner), *final(owner));
    if control is Compact {
        let n = old(owner).outbox@.len() as int;
        assert(final(owner)@.outbox[n] == final(owner).outbox@[n]@);
    }
}

/// A command that did not arrive fails the runtime. The turn that it was to open was never
/// accepted; a lost question for a snapshot refuses everybody who waits for one.
pub proof fn a_lost_command_fails_the_runtime(owner: &mut RuntimeOwner, lost: LostCommand, result: ())
    requires
        call_ensures(RuntimeOwner::agent_unreachable, (owner, lost), result),
    ensures
        final(owner).phase == RuntimePhase::Failed,
        !final(owner).agent_available && !final(owner).agent_open,
        lost is Opening ==> final(owner).active_turn is None,
        !(lost is Opening) ==> final(owner).active_turn == old(owner).active_turn,
        lost is Snapshot ==> !final(owner).snapshot_in_flight
            && final(owner).snapshot_waiters@.len() == 0 && adds(
            *old(owner),
            *final(owner),
            old(owner).snapshot_waiters@.len() as int,
        ) && forall|i: int|
            0 <= i < old(owner).snapshot_waiters@.len() ==> refuses(
                #[trigger] added(*old(owner), *final(owner), i),
                old(owner).snapshot_waiters@[i],
                RuntimeError::DeliveryFailed,
            ),
        !(lost is Snapshot) ==> adds(*old(owner), *final(owner), 0)
            && final(owner).snapshot_waiters@ == old(owner).snapshot_waiters@,
{
    actions_are_kept(*old(owner), *final(owner));
    let n = old(owner).outbox@.len() as int;
    if lost is Snapshot {
        let all = old(owner).snapshot_waiters@;
        assert forall|i: int| 0 <= i < all.len() implies refuses(
            #[trigger] added(*old(owner), *final(owner), i),
            all[i],
            RuntimeError::DeliveryFailed,
        ) by {
            assert(final(owner)@.outbox[n + i] == final(owner).outbox@[n + i]@);
        }
    }
}

} // verus!
