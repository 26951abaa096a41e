//! Stopping, replacing and shutting down: what the old agent is told, what is kept of it, and
//! what drivers see.
use super::agent_events::{publishes_error, reports_completed, reports_lost, shows_ended_goal};
use super::controllers::{cancels, idle_phase, reports_held, shows_ended_loop};
use super::turns::{actions_are_kept, added, adds, publishes, reachable, sends, unchanged};
use crate::compaction::{CompactionCompletion, CompactionInterruption};
use crate::controllers::GoalTerminal;
use crate::conversation::SessionSnapshot;
use crate::error::RuntimeError;
use crate::event::{
    AgentCommand, AgentEvent, CodingRuntimeEvent, ReplyValue, SessionChanged, StopReason, UserInput,
};
use crate::owner::events::EventQuestions;
use crate::owner::stopping::StopReport;
use crate::owner::{OwnerAction, OwnerView, RuntimeOwner};
use crate::phase::{ProviderUnavailableReason, RuntimeExit, RuntimePhase};
use std::sync::Arc;
use vstd::prelude::*;
use vstd::string::*;

verus! {

/// Whether the event ends a turn.
pub open spec fn ends_turn(event: AgentEvent) -> bool {
    event is TurnComplete
}

/// Whether the event moves the conversation on: it ends a turn or commits a compaction.
pub open spec fn moves_on(event: AgentEvent) -> bool {
    event is TurnComplete || (event is Compacted && event->Compacted_committed)
}

/// The conversation that the event leaves, if it does.
pub open spec fn leaves(event: AgentEvent) -> Option<Arc<SessionSnapshot>> {
    match event {
        AgentEvent::Snapshot { snapshot } => Some(snapshot),
        AgentEvent::Compacted {
            trigger,
            epoch,
            removed,
            bytes_before,
            bytes_after,
            committed,
            snapshot,
        } => if committed {
            snapshot
        } else {
            None
        },
        _ => None,
    }
}

proof fn reports_are_of_the_last_word(events: Seq<AgentEvent>)
    ensures
        ({
            let report = StopReport::none().record_all(events);
            &&& report.conversation_changed <==> exists|i: int|
                0 <= i < events.len() && moves_on(#[trigger] events[i])
            &&& report.reason is None <==> forall|i: int|
                0 <= i < events.len() ==> !ends_turn(#[trigger] events[i])
            &&& report.snapshot is None <==> forall|i: int|
                0 <= i < events.len() ==> leaves(#[trigger] events[i]) is None
            &&& forall|i: int|
                0 <= i < events.len() && ends_turn(#[trigger] events[i]) && (forall|j: int|
                    i < j < events.len() ==> !ends_turn(#[trigger] events[j])) ==> report.reason
                    == Some(events[i]->TurnComplete_reason)
            &&& forall|i: int|
                0 <= i < events.len() && leaves(#[trigger] events[i]) is Some && (forall|j: int|
                    i < j < events.len() ==> leaves(#[trigger] events[j]) is None)
                    ==> report.snapshot == leaves(events[i])
        }),
    decreases events.len(),
{
    if events.len() > 0 {
        let front = events.drop_last();
        reports_are_of_the_last_word(front);
        let last = events.len() - 1;
        let report = StopReport::none().record_all(events);
        let before = StopReport::none().record_all(front);
        assert(report == before.record(events[last]));
        assert forall|i: int| 0 <= i < front.len() implies #[trigger] front[i] == events[i] by {}
        if exists|i: int| 0 <= i < front.len() && moves_on(#[trigger] front[i]) {
            let i = choose|i: int| 0 <= i < front.len() && moves_on(#[trigger] front[i]);
            assert(moves_on(events[i]));
        }
        if report.conversation_changed && !moves_on(events[last]) {
            let i = choose|i: int| 0 <= i < front.len() && moves_on(#[trigger] front[i]);
            assert(moves_on(events[i]));
        }
        if exists|i: int| 0 <= i < events.len() && moves_on(#[trigger] events[i]) {
            let i = choose|i: int| 0 <= i < events.len() && moves_on(#[trigger] events[i]);
            if i < last {
                assert(moves_on(front[i]));
            }
        }
        if forall|i: int| 0 <= i < events.len() ==> !ends_turn(#[trigger] events[i]) {
            assert forall|i: int| 0 <= i < front.len() implies !ends_turn(#[trigger] front[i]) by {
                assert(!ends_turn(events[i]));
            }
        }
        if report.reason is None {
            assert forall|i: int| 0 <= i < events.len() implies !ends_turn(#[trigger] events[i]) by {
                if i < last {
                    assert(!ends_turn(front[i]));
                }
            }
        }
        if forall|i: int| 0 <= i < events.len() ==> leaves(#[trigger] events[i]) is None {
            assert forall|i: int| 0 <= i < front.len() implies leaves(
                #[trigger] front[i],
            ) is None by {
                assert(leaves(events[i]) is None);
            }
        }
        if report.snapshot is None {
            assert forall|i: int| 0 <= i < events.len() implies leaves(
                #[trigger] events[i],
            ) is None by {
                if i < last {
                    assert(leaves(front[i]) is None);
                }
            }
        }
        assert forall|i: int|
            0 <= i < events.len() && ends_turn(#[trigger] events[i]) && (forall|j: int|
                i < j < events.len() ==> !ends_turn(#[trigger] events[j])) implies report.reason
            == Some(events[i]->TurnComplete_reason) by {
            if i < last {
                assert(!ends_turn(events[last]));
                assert(ends_turn(front[i]));
                assert forall|j: int| i < j < front.len() implies !ends_turn(
                    #[trigger] front[j],
                ) by {
                    assert(!ends_turn(events[j]));
                }
            }
        }
        assert forall|i: int|
            0 <= i < events.len() && leaves(#[trigger] events[i]) is Some && (forall|j: int|
                i < j < events.len() ==> leaves(#[trigger] events[j]) is None) implies report.snapshot
            == leaves(events[i]) by {
            if i < last {
                assert(leaves(events[last]) is None);
                assert(leaves(front[i]) is Some);
                assert forall|j: int| i < j < front.len() implies leaves(
                    #[trigger] front[j],
                ) is None by {
                    assert(leaves(events[j]) is None);
                }
            }
        }
    }
}

/// What a stopped agent left is its last word: the last reason it gave for the end of a turn,
/// the last conversation it showed, and whether the conversation moved on. The owner lets the
/// agent go, and no compaction is without its end any more.
pub proof fn a_stopped_agent_leaves_its_last_word(
    owner: &mut RuntimeOwner,
    drained: Vec<AgentEvent>,
    forced: bool,
    why: CompactionInterruption,
    doubt: Option<String>,
    report: StopReport,
)
    requires
        call_ensures(
            RuntimeOwner::stop_current_agent,
            (owner, drained, forced, why, doubt),
            report,
        ),
    ensures
        report.forced == forced && report.persistence_failure == doubt,
        report.conversation_changed <==> exists|i: int|
            0 <= i < drained@.len() && moves_on(#[trigger] drained@[i]),
        report.reason is None <==> forall|i: int|
            0 <= i < drained@.len() ==> !ends_turn(#[trigger] drained@[i]),
        report.snapshot is None <==> forall|i: int|
            0 <= i < drained@.len() ==> leaves(#[trigger] drained@[i]) is None,
        forall|i: int|
            0 <= i < drained@.len() && ends_turn(#[trigger] drained@[i]) && (forall|j: int|
                i < j < drained@.len() ==> !ends_turn(#[trigger] drained@[j])) ==> report.reason
                == Some(drained@[i]->TurnComplete_reason),
        forall|i: int|
            0 <= i < drained@.len() && leaves(#[trigger] drained@[i]) is Some && (forall|j: int|
                i < j < drained@.len() ==> leaves(#[trigger] drained@[j]) is None)
                ==> report.snapshot == leaves(drained@[i]),
        !final(owner).agent_attached,
        !super::turns::compacting(*final(owner)),
        drained@.len() > 0 ==> (drained@.last() matches AgentEvent::Usage(meta)
            ==> final(owner).observed_tokens == Some(meta.used_tokens as usize)),
{
    reports_are_of_the_last_word(drained@);
}

/// Where the agent said nothing more, each compaction that was without its end is told to be
/// interrupted, for the reason, in order, and nothing else is done.
pub proof fn open_compactions_end_with_the_agent(
    owner: &mut RuntimeOwner,
    drained: Vec<AgentEvent>,
    forced: bool,
    why: CompactionInterruption,
    doubt: Option<String>,
    report: StopReport,
)
    requires
        call_ensures(
            RuntimeOwner::stop_current_agent,
            (owner, drained, forced, why, doubt),
            report,
        ),
        drained@.len() == 0,
    ensures
        ({
            let flights = old(owner).compactions.manual@;
            let other = old(owner).compactions.non_manual_started;
            &&& adds(*old(owner), *final(owner), flights.len() + if other is Some {
                1int
            } else {
                0
            })
            &&& forall|i: int|
                0 <= i < flights.len() ==> publishes(
                    *old(owner),
                    #[trigger] added(*old(owner), *final(owner), i),
                    CodingRuntimeEvent::CompactionFinished {
                        completion: CompactionCompletion::Interrupted {
                            trigger: flights[i].trigger,
                            reason: why,
                        },
                    },
                )
            &&& other matches Some(trigger) ==> publishes(
                *old(owner),
                added(*old(owner), *final(owner), flights.len() as int),
                CodingRuntimeEvent::CompactionFinished {
                    completion: CompactionCompletion::Interrupted { trigger, reason: why },
                },
            )
        }),
        final(owner).observed_tokens == old(owner).observed_tokens,
        final(owner).active_turn == old(owner).active_turn,
{
    actions_are_kept(*old(owner), *final(owner));
    let n = old(owner).outbox@.len() as int;
    let flights = old(owner).compactions.manual@;
    assert forall|i: int| 0 <= i < flights.len() implies publishes(
        *old(owner),
        #[trigger] added(*old(owner), *final(owner), i),
        CodingRuntimeEvent::CompactionFinished {
            completion: CompactionCompletion::Interrupted {
                trigger: flights[i].trigger,
                reason: why,
            },
        },
    ) by {
        assert(final(owner)@.outbox[n + i] == final(owner).outbox@[n + i]@);
    }
    if old(owner).compactions.non_manual_started is Some {
        let k = n + flights.len();
        assert(final(owner)@.outbox[k] == final(owner).outbox@[k]@);
    }
}

/// The snapshot that stands for the conversation of a stopped agent: what it left, or else the
/// stored one.
pub open spec fn last_conversation(
    report: StopReport,
    stored: Option<Arc<SessionSnapshot>>,
) -> Option<Arc<SessionSnapshot>> {
    if report.snapshot is Some {
        report.snapshot
    } else {
        stored
    }
}

/// The turn of a stopped agent ends: everybody who waits for a snapshot gets one or is told
/// why not, and then the turn, if there is one, is reported, with the reason the agent gave,
/// or that it was cancelled. Doubt about the stored session goes before everything.
pub proof fn the_turn_of_a_stopped_agent_ends(
    owner: &mut RuntimeOwner,
    report: &StopReport,
    stored: &Option<Arc<SessionSnapshot>>,
    result: (),
)
    requires
        call_ensures(RuntimeOwner::finish_stopped_native_turn, (owner, report, stored), result),
    ensures
        ({
            let waiters = old(owner).snapshot_waiters@;
            let reported: int = if old(owner).active_turn is Some {
                1
            } else {
                0
            };
            let why = match report.reason {
                Some(reason) => reason,
                None => match old(owner).terminal_reason {
                    Some(reason) => reason,
                    None => StopReason::Cancelled,
                },
            };
            let last = last_conversation(*report, *stored);
            let told = added(*old(owner), *final(owner), waiters.len() as int);
            &&& adds(*old(owner), *final(owner), waiters.len() + reported)
            &&& forall|i: int|
                0 <= i < waiters.len() ==> (#[trigger] added(
                    *old(owner),
                    *final(owner),
                    i,
                ) matches OwnerAction::AnswerSnapshot { waiter, result: answer } && waiter
                    == waiters[i] && match report.persistence_failure {
                    Some(doubt) => answer matches Err(RuntimeError::SnapshotUnavailable(words))
                        && words@
                        == "session persistence became uncertain while stopping the current agent: "@
                        + doubt@,
                    None => match last {
                        Some(snapshot) => answer matches Ok(receipt) && receipt.snapshot
                            == snapshot && receipt.undo_snapshot == (match *stored {
                            Some(kept) => kept,
                            None => snapshot,
                        }) && receipt.revision == final(owner).conversation_revision,
                        None => answer matches Err(RuntimeError::SnapshotUnavailable(words))
                            && words@
                            == "runtime stopped before a canonical snapshot was available"@,
                    },
                })
            &&& old(owner).active_turn matches Some(turn) ==> match report.persistence_failure {
                Some(doubt) => reports_lost(
                    *old(owner),
                    told,
                    turn,
                    StopReason::ProviderError,
                    "session persistence became uncertain while stopping the current agent: "@
                        + doubt@,
                ),
                None => match last {
                    Some(snapshot) => reports_completed(*old(owner), told, turn, why, snapshot),
                    None => reports_lost(
                        *old(owner),
                        told,
                        turn,
                        why,
                        "runtime stopped before a canonical snapshot was available"@,
                    ),
                },
            }
        }),
        final(owner).active_turn is None && final(owner).held_turn is None,
        final(owner).snapshot_waiters@.len() == 0 && final(owner).terminal_reason is None,
        old(owner).active_turn is Some ==> final(owner).turn_stats.turn_count == 0
            && final(owner).turn_stats.tool_call_count == 0
            && final(owner).turn_stats.last_usage is None,
        old(owner).active_turn is None ==> final(owner).turn_stats == old(owner).turn_stats,
        !report.conversation_changed && old(owner).active_turn is None
            ==> final(owner).conversation_revision == old(owner).conversation_revision,
        (report.conversation_changed || old(owner).active_turn is Some) && old(
            owner,
        ).conversation_revision < u64::MAX ==> final(owner).conversation_revision
            == old(owner).conversation_revision + 1,
        final(owner).phase == old(owner).phase,
{
    reveal(OwnerView::settled);
    actions_are_kept(*old(owner), *final(owner));
    let n = old(owner).outbox@.len() as int;
    let waiters = old(owner).snapshot_waiters@;
    let last = last_conversation(*report, *stored);
    assert forall|i: int| 0 <= i < waiters.len() implies (#[trigger] added(
        *old(owner),
        *final(owner),
        i,
    ) matches OwnerAction::AnswerSnapshot { waiter, result: answer } && waiter == waiters[i]
        && match report.persistence_failure {
        Some(doubt) => answer matches Err(RuntimeError::SnapshotUnavailable(words)) && words@
            == "session persistence became uncertain while stopping the current agent: "@ + doubt@,
        None => match last {
            Some(snapshot) => answer matches Ok(receipt) && receipt.snapshot == snapshot
                && receipt.undo_snapshot == (match *stored {
                Some(kept) => kept,
                None => snapshot,
            }) && receipt.revision == final(owner).conversation_revision,
            None => answer matches Err(RuntimeError::SnapshotUnavailable(words)) && words@
                == "runtime stopped before a canonical snapshot was available"@,
        },
    }) by {
        assert(final(owner)@.outbox[n + i] == final(owner).outbox@[n + i]@);
    }
    if old(owner).active_turn is Some {
        let k = n + waiters.len();
        assert(final(owner)@.outbox[k] == final(owner).outbox@[k]@);
    }
}

/// Doubt about the stored session, after the agent has stopped, ends the runtime: nothing is
/// left open, drivers are told, last, and so is whoever asked. Without doubt nothing happens.
pub proof fn doubt_after_a_stop_ends_the_runtime(
    owner: &mut RuntimeOwner,
    report: &StopReport,
    stored: &Option<Arc<SessionSnapshot>>,
    error: Option<RuntimeError>,
)
    requires
        call_ensures(
            RuntimeOwner::fail_close_after_stopped_persistence,
            (owner, report, stored),
            error,
        ),
    ensures
        error is Some <==> report.persistence_failure is Some,
        report.persistence_failure is None ==> unchanged(*old(owner), *final(owner)),
        report.persistence_failure matches Some(doubt) ==> {
            let words =
                "session persistence became uncertain while stopping the current agent; runtime stopped: "@
                + doubt@;
            &&& error->0 is ReconfigureFailed && error->0->ReconfigureFailed_0@ == words
            &&& final(owner).phase == RuntimePhase::Failed && !final(owner).agent_available
            &&& final(owner).active_turn is None && final(owner).held_turn is None
            &&& final(owner).goal is None && final(owner).loop_state is None
            &&& final(owner).snapshot_waiters@.len() == 0
            &&& final(owner).outbox@.len() > old(owner).outbox@.len()
            &&& publishes_error(*old(owner), final(owner).outbox@.last(), words)
        },
{
    reveal(OwnerView::settled);
    assert(final(owner)@.outbox.len() == final(owner).outbox@.len());
    assert(old(owner)@.outbox.len() == old(owner).outbox@.len());
    if report.persistence_failure is Some {
        assert(final(owner)@.outbox.last() == final(owner).outbox@.last()@);
    }
}

/// Both controllers give way, in order, with the detail as their note; a turn that one of them
/// held back is cancelled.
pub proof fn controllers_give_way(
    owner: &mut RuntimeOwner,
    phase: RuntimePhase,
    detail: &str,
    had: bool,
)
    requires
        call_ensures(
            RuntimeOwner::cancel_controllers_and_finish_held,
            (owner, phase, detail),
            had,
        ),
        !(old(owner).goal is Some && old(owner).loop_state is Some),
    ensures
        had <==> old(owner).goal is Some || old(owner).loop_state is Some,
        final(owner).goal is None && final(owner).loop_state is None,
        final(owner).held_turn is None && final(owner).pending_wakeup is None,
        old(owner).held_turn is Some ==> final(owner).terminal_reason is None,
        old(owner).held_turn is None ==> final(owner).terminal_reason == old(
            owner,
        ).terminal_reason,
        ({
            let ends: int = if had {
                2
            } else {
                0
            };
            let reported: int = if old(owner).held_turn is Some {
                1
            } else {
                0
            };
            &&& adds(*old(owner), *final(owner), ends + reported)
            &&& old(owner).goal is Some ==> cancels(
                added(*old(owner), *final(owner), 0),
                old(owner).goal->0.id,
            ) && shows_ended_goal(
                *old(owner),
                added(*old(owner), *final(owner), 1),
                GoalTerminal::Failed,
                detail@,
            )
            &&& old(owner).loop_state is Some ==> cancels(
                added(*old(owner), *final(owner), 0),
                old(owner).loop_state->0.id,
            ) && shows_ended_loop(*old(owner), added(*old(owner), *final(owner), 1), detail@)
            &&& old(owner).held_turn matches Some(held) ==> reports_held(
                *old(owner),
                added(*old(owner), *final(owner), ends),
                held,
                StopReason::Cancelled,
            )
        }),
        old(owner).held_turn is Some ==> final(owner).active_turn is None && final(owner).phase
            == if phase is Ready {
            idle_phase(*old(owner))
        } else {
            phase
        },
        old(owner).held_turn is None ==> final(owner).active_turn == old(owner).active_turn
            && final(owner).phase == old(owner).phase,
{
    actions_are_kept(*old(owner), *final(owner));
    let n = old(owner).outbox@.len() as int;
    let m = final(owner).outbox@.len() as int;
    if m > n {
        assert(final(owner)@.outbox[n] == final(owner).outbox@[n]@);
    }
    if m > n + 1 {
        assert(final(owner)@.outbox[n + 1] == final(owner).outbox@[n + 1]@);
    }
    if m > n + 2 {
        assert(final(owner)@.outbox[n + 2] == final(owner).outbox@[n + 2]@);
    }
}

/// How many things an agent is told that is to stop.
pub open spec fn farewell_length(owner: RuntimeOwner, turn_down: bool) -> int {
    if !reachable(owner) {
        0
    } else if !turn_down {
        1
    } else {
        owner.pending_requests@.len() + if owner.active_turn is Some {
            2int
        } else {
            1
        }
    }
}

/// Whether an agent that is to stop is told so, from the place on: where its requests are
/// turned down, each of them is, in order, and its turn is cancelled; last it is told to shut
/// down. An agent that takes no commands is told nothing.
pub open spec fn is_told_to_stop(
    before: RuntimeOwner,
    after: RuntimeOwner,
    from: int,
    turn_down: bool,
) -> bool {
    let length = farewell_length(before, turn_down);
    &&& adds(before, after, from + length)
    &&& length > 0 ==> sends(added(before, after, from + length - 1), AgentCommand::Shutdown)
    &&& length > 0 && turn_down ==> {
        &&& forall|i: int|
            0 <= i < before.pending_requests@.len() ==> sends(
                #[trigger] added(before, after, from + i),
                AgentCommand::Respond {
                    id: before.pending_requests@[i],
                    value: ReplyValue::Null,
                },
            )
        &&& before.active_turn is Some ==> sends(
            added(before, after, from + length - 2),
            AgentCommand::Cancel,
        )
    }
    &&& turn_down ==> after.pending_requests@.len() == 0
}

pub(crate) proof fn farewells_are_said(before: RuntimeOwner, told: OwnerView, after: RuntimeOwner, from: int, turn_down: bool)
    requires
        0 <= from,
        told.outbox.len() == before@.outbox.len() + from,
        forall|i: int|
            0 <= i < before@.outbox.len() ==> #[trigger] told.outbox[i] == before@.outbox[i],
        told.pending_requests == before@.pending_requests,
        told.active_turn == before@.active_turn,
        told.agent_attached == before@.agent_attached && told.agent_open == before@.agent_open,
        after@ == told.ask_to_stop(turn_down),
    ensures
        is_told_to_stop(before, after, from, turn_down),
        forall|i: int|
            0 <= i < from ==> #[trigger] after@.outbox[before@.outbox.len() + i]
                == told.outbox[before@.outbox.len() + i],
        before@.outbox.len() == before.outbox@.len(),
        after@.outbox.len() == after.outbox@.len(),
        forall|i: int|
            0 <= i < after.outbox@.len() ==> #[trigger] after@.outbox[i] == after.outbox@[i]@,
{
    assert forall|i: int| 0 <= i < before@.outbox.len() implies #[trigger] after@.outbox[i]
        == before@.outbox[i] by {
        assert(after@.outbox[i] == told.outbox[i]);
    }
    actions_are_kept(before, after);
    let n = before.outbox@.len() as int;
    let length = farewell_length(before, turn_down);
    assert(after@.outbox.len() == n + from + length);
    if length > 0 {
        let k = n + from + length - 1;
        assert(after@.outbox[k] == after.outbox@[k]@);
        if turn_down {
            assert forall|i: int| 0 <= i < before.pending_requests@.len() implies sends(
                #[trigger] added(before, after, from + i),
                AgentCommand::Respond {
                    id: before.pending_requests@[i],
                    value: ReplyValue::Null,
                },
            ) by {
                let p = n + (from + i);
                assert(after@.outbox[p] == after.outbox@[p]@);
                assert(after@.outbox[p] == crate::owner::denial(before.pending_requests@[i]));
            }
            if before.active_turn is Some {
                assert(after@.outbox[k - 1] == after.outbox@[k - 1]@);
            }
        }
    }
}

/// Whether the generation is a new one: the next, unless the current one is closed already.
pub open spec fn next_unless_closed(before: RuntimeOwner, after: RuntimeOwner) -> bool {
    &&& before.compaction_suspended ==> after.generation == before.generation
    &&& !before.compaction_suspended && before.generation < u64::MAX ==> after.generation
        == before.generation + 1
}

/// Compaction is suspended under a new generation, and resumed under the same.
pub proof fn compaction_is_suspended_and_resumed(
    owner: &mut RuntimeOwner,
    resumed: &mut RuntimeOwner,
    suspended: (),
    opened: (),
)
    requires
        call_ensures(RuntimeOwner::suspend_compaction, (owner,), suspended),
        call_ensures(RuntimeOwner::resume_compaction, (resumed,), opened),
    ensures
        final(owner).compaction_suspended && next_unless_closed(*old(owner), *final(owner)),
        !old(owner).compaction_suspended ==> final(owner).phase == RuntimePhase::Reconfiguring,
        old(owner).compaction_suspended ==> unchanged(*old(owner), *final(owner)),
        adds(*old(owner), *final(owner), 0),
        !final(resumed).compaction_suspended && final(resumed).generation
            == old(resumed).generation,
        old(resumed).agent_available ==> final(resumed).phase == idle_phase(*old(resumed)),
        !old(resumed).agent_available ==> final(resumed).phase == RuntimePhase::Failed,
        adds(*old(resumed), *final(resumed), 0),
{
    actions_are_kept(*old(owner), *final(owner));
    actions_are_kept(*old(resumed), *final(resumed));
}

/// An agent that is to stop, to be replaced or to be shut down is told so, once, under the
/// phase and the generation of the occasion.
#[verifier::rlimit(60)]
pub proof fn an_agent_is_told_to_stop(
    stop: &mut RuntimeOwner,
    managed: &mut RuntimeOwner,
    shut: &mut RuntimeOwner,
    generation: u64,
    stopped: (),
    managed_done: (),
    shut_done: (),
)
    requires
        call_ensures(RuntimeOwner::begin_stop, (stop,), stopped),
        call_ensures(RuntimeOwner::begin_managed_shutdown, (managed,), managed_done),
        call_ensures(RuntimeOwner::begin_shutdown, (shut, generation), shut_done),
    ensures
        is_told_to_stop(*old(stop), *final(stop), 0, old(stop).native),
        next_unless_closed(*old(stop), *final(stop)),
        final(stop).phase == RuntimePhase::Reconfiguring && final(stop).compaction_suspended,
        final(stop).active_turn == old(stop).active_turn,
        is_told_to_stop(*old(managed), *final(managed), 0, old(managed).native),
        next_unless_closed(*old(managed), *final(managed)),
        final(managed).phase == RuntimePhase::ShuttingDown,
        final(managed).active_turn == old(managed).active_turn,
        is_told_to_stop(*old(shut), *final(shut), 0, old(shut).native),
        final(shut).generation == old(shut).generation,
        final(shut).phase == if generation == old(shut).generation {
            RuntimePhase::ShuttingDown
        } else {
            old(shut).phase
        },
        final(shut).active_turn == old(shut).active_turn,
{
    let a = OwnerView {
        generation: old(stop)@.next_generation(),
        compaction_suspended: true,
        phase: RuntimePhase::Reconfiguring,
        ..old(stop)@
    };
    farewells_are_said(*old(stop), a, *final(stop), 0, old(stop).native);
    let b = OwnerView {
        generation: old(managed)@.next_generation(),
        phase: RuntimePhase::ShuttingDown,
        ..old(managed)@
    };
    farewells_are_said(*old(managed), b, *final(managed), 0, old(managed).native);
    let c = OwnerView { phase: final(shut)@.phase, ..old(shut)@ };
    farewells_are_said(*old(shut), c, *final(shut), 0, old(shut).native);
}

/// Another agent takes the place of one that is told to stop; never once the stored session is
/// in doubt.
pub proof fn an_agent_gives_way_to_another(owner: &mut RuntimeOwner, resume: Option<bool>)
    requires
        call_ensures(RuntimeOwner::begin_replace, (owner,), resume),
    ensures
        resume is None <==> old(owner).persistence_failure is Some,
        resume is None ==> adds(*old(owner), *final(owner), 0) && final(owner).phase
            == RuntimePhase::Failed && !final(owner).agent_available
            && !final(owner).agent_attached,
        resume matches Some(opens) ==> {
            &&& opens == !old(owner).compaction_suspended
            &&& is_told_to_stop(*old(owner), *final(owner), 0, old(owner).native)
            &&& next_unless_closed(*old(owner), *final(owner))
            &&& final(owner).compaction_suspended
            &&& opens ==> final(owner).phase == RuntimePhase::Reconfiguring
            &&& !opens ==> final(owner).phase == old(owner).phase
        },
{
    if old(owner).persistence_failure is None {
        let told = OwnerView {
            generation: old(owner)@.next_generation(),
            compaction_suspended: true,
            phase: if old(owner)@.compaction_suspended {
                old(owner)@.phase
            } else {
                RuntimePhase::Reconfiguring
            },
            ..old(owner)@
        };
        farewells_are_said(*old(owner), told, *final(owner), 0, old(owner).native);
    } else {
        actions_are_kept(*old(owner), *final(owner));
    }
}

/// The new agent is in place once the old one has stopped without doubt; it has a provider,
/// nothing is known of its tokens, and the runtime is open again where it opens by itself.
pub proof fn a_new_agent_is_in_place(
    owner: &mut RuntimeOwner,
    report: &StopReport,
    stored: &Option<Arc<SessionSnapshot>>,
    resume: bool,
    installed: bool,
)
    requires
        call_ensures(RuntimeOwner::finish_replace, (owner, report, stored, resume), installed),
    ensures
        installed <==> report.persistence_failure is None,
        installed ==> {
            &&& adds(*old(owner), *final(owner), 0)
            &&& final(owner).agent_attached && final(owner).agent_open
                && final(owner).agent_available
            &&& final(owner).provider_unavailable_reason is None
            &&& final(owner).observed_tokens is None
            &&& resume ==> final(owner).phase == RuntimePhase::Ready
                && !final(owner).compaction_suspended
            &&& !resume ==> final(owner).phase == old(owner).phase
                && final(owner).compaction_suspended == old(owner).compaction_suspended
            &&& final(owner).generation == old(owner).generation
            &&& final(owner).active_turn == old(owner).active_turn
        },
        !installed ==> final(owner).phase == RuntimePhase::Failed && !final(owner).agent_attached
            && !final(owner).compaction_suspended && final(owner).observed_tokens is None
            && final(owner).active_turn is None && (final(owner).persistence_failure matches Some(
            doubt,
        ) && doubt@ == report.persistence_failure->0@),
{
    reveal(OwnerView::settled);
    if installed {
        actions_are_kept(*old(owner), *final(owner));
    }
}

/// An agent that stopped for good is gone, and nothing is known of its tokens.
pub proof fn a_stopped_agent_is_gone(
    owner: &mut RuntimeOwner,
    report: &StopReport,
    stored: &Option<Arc<SessionSnapshot>>,
    result: (),
)
    requires
        call_ensures(RuntimeOwner::agent_stopped, (owner, report, stored), result),
    ensures
        !final(owner).agent_attached && !final(owner).agent_available,
        final(owner).observed_tokens is None,
        report.persistence_failure is None ==> adds(*old(owner), *final(owner), 0)
            && final(owner).phase == old(owner).phase && final(owner).active_turn
            == old(owner).active_turn,
        report.persistence_failure matches Some(doubt) ==> final(owner).phase
            == RuntimePhase::Failed && final(owner).active_turn is None && (
        final(owner).persistence_failure matches Some(words) && words@ == doubt@),
{
    reveal(OwnerView::settled);
    if report.persistence_failure is None {
        actions_are_kept(*old(owner), *final(owner));
    }
}

/// A runtime that ends says why, and whether its agent had to be forced; no turn is left.
pub proof fn a_runtime_says_how_it_ended(
    owner: &mut RuntimeOwner,
    other: &mut RuntimeOwner,
    report: &StopReport,
    stored: &Option<Arc<SessionSnapshot>>,
    shut: RuntimeExit,
    ended: RuntimeExit,
)
    requires
        call_ensures(RuntimeOwner::finish_shutdown, (owner, report, stored), shut),
        call_ensures(RuntimeOwner::finish_exit, (other, report, stored), ended),
    ensures
        shut.reason is ShutdownRequested && shut.forced == report.forced,
        ended.reason is OwnerStopped && ended.forced == report.forced,
        final(other).phase == RuntimePhase::Stopped,
        old(owner).native ==> final(owner).active_turn is None
            && final(owner).snapshot_waiters@.len() == 0,
        old(other).native ==> final(other).active_turn is None
            && final(other).snapshot_waiters@.len() == 0,
        report.persistence_failure is Some ==> final(owner).active_turn is None
            && final(owner).phase == RuntimePhase::Failed,
{
    reveal(OwnerView::settled);
}

/// The end of the owner's loop stops the runtime: everybody who still waits for a snapshot is
/// refused, and the agent is told to stop unless it was already.
pub proof fn an_ending_owner_refuses_everybody(
    owner: &mut RuntimeOwner,
    handled: bool,
    result: (),
)
    requires
        call_ensures(RuntimeOwner::begin_exit, (owner, handled), result),
    ensures
        final(owner).phase == RuntimePhase::Stopped,
        final(owner).snapshot_waiters@.len() == 0,
        ({
            let waiters = old(owner).snapshot_waiters@;
            let told: int = if !handled && reachable(*old(owner)) {
                1
            } else {
                0
            };
            &&& adds(*old(owner), *final(owner), waiters.len() + told)
            &&& forall|i: int|
                0 <= i < waiters.len() ==> super::questions::refuses(
                    #[trigger] added(*old(owner), *final(owner), i),
                    waiters[i],
                    RuntimeError::Unavailable,
                )
            &&& told == 1 ==> sends(
                added(*old(owner), *final(owner), waiters.len() as int),
                AgentCommand::Shutdown,
            )
        }),
{
    actions_are_kept(*old(owner), *final(owner));
    let n = old(owner).outbox@.len() as int;
    let waiters = old(owner).snapshot_waiters@;
    assert forall|i: int| 0 <= i < waiters.len() implies super::questions::refuses(
        #[trigger] added(*old(owner), *final(owner), i),
        waiters[i],
        RuntimeError::Unavailable,
    ) by {
        assert(final(owner)@.outbox[n + i] == final(owner).outbox@[n + i]@);
    }
    if !handled && reachable(*old(owner)) {
        let k = n + waiters.len();
        assert(final(owner)@.outbox[k] == final(owner).outbox@[k]@);
    }
}

/// A runtime begins with what it is given and nothing in hand. One without a provider waits
/// for it, and says so.
pub proof fn a_runtime_begins_with_nothing_in_hand(
    native: bool,
    phase: RuntimePhase,
    reason: Option<ProviderUnavailableReason>,
    has_agent: bool,
    has_resources: bool,
    has_session: bool,
    owner: RuntimeOwner,
)
    requires
        call_ensures(
            RuntimeOwner::new,
            (native, phase, reason, has_agent, has_resources, has_session),
            owner,
        ),
    ensures
        owner.native == native && owner.has_resources == has_resources && owner.has_session
            == has_session,
        owner.generation == 0 && owner.provider_unavailable_reason == reason,
        phase is Ready && reason is Some ==> owner.phase is AwaitingProvider,
        !(phase is Ready && reason is Some) ==> owner.phase == phase,
        owner.agent_available <==> owner.phase is Ready,
        owner.agent_attached == has_agent && owner.agent_open == has_agent,
        owner.active_turn is None && owner.held_turn is None && owner.terminal_reason is None,
        owner.goal is None && owner.loop_state is None && owner.pending_wakeup is None,
        owner.pending_requests@.len() == 0 && owner.snapshot_waiters@.len() == 0,
        owner.pending_local_context@.len() == 0 && !owner.snapshot_in_flight,
        owner.compactions.manual@.len() == 0 && owner.compactions.non_manual_started is None,
        owner.conversation_revision == 0 && owner.next_turn_id == 0,
        owner.observed_tokens is None && owner.persistence_failure is None,
        reason is None ==> owner.outbox@.len() == 0,
        reason matches Some(why) ==> owner.outbox@.len() == 1 && (
        owner.outbox@[0] matches OwnerAction::Emit {
            generation,
            event: CodingRuntimeEvent::ProviderUnavailable { reason: told, forced },
        } && generation == 0 && told == why && !forced),
{
    assert(owner@.outbox.len() == owner.outbox@.len());
    if owner.outbox@.len() > 0 {
        assert(owner@.outbox[0] == owner.outbox@[0]@);
    }
    assert(owner@.pending_requests.len() == owner.pending_requests@.len());
    assert(owner@.pending_local_context.len() == owner.pending_local_context@.len());
}

/// Whether the agent still listens is noted, and nothing else.
pub proof fn whether_the_agent_listens_is_noted(owner: &mut RuntimeOwner, open: bool)
    requires
        call_ensures(RuntimeOwner::observe_agent, (owner, open), ()),
    ensures
        final(owner).agent_open == open,
        final(owner)@ == (OwnerView { agent_open: open, ..old(owner)@ }),
        final(owner).phase == old(owner).phase && final(owner).active_turn == old(
            owner,
        ).active_turn,
{
}

/// A changed session is told with the runtime's generation, its id and its directory; a plain
/// text is a turn without pictures, and pictures are looked at where somebody can.
pub proof fn sessions_and_inputs_are_told_as_they_are(
    owner: &RuntimeOwner,
    id: Option<String>,
    dir: String,
    changed: SessionChanged,
    copy: SessionChanged,
    text: String,
    input: UserInput,
    given: &UserInput,
    installed: bool,
    wanted: bool,
)
    requires
        call_ensures(RuntimeOwner::session_changed, (owner, id, dir), changed),
        call_ensures(SessionChanged::duplicate, (&changed,), copy),
        call_ensures(UserInput::from_text, (text,), input),
        call_ensures(RuntimeOwner::wants_vision_pass, (given, installed), wanted),
    ensures
        changed.generation.0 == owner.generation && changed.session_id == id && changed.working_dir
            == dir,
        copy == changed,
        input.text == text && input.images@.len() == 0,
        wanted <==> installed && given.images@.len() > 0,
{
}

/// An event asks for what its handling needs: the end of a turn for doubt, costs and time, a
/// compaction for costs, a request or a snapshot for what is stored.
pub proof fn an_event_asks_for_what_it_needs(
    owner: &RuntimeOwner,
    event: &AgentEvent,
    questions: EventQuestions,
)
    requires
        call_ensures(RuntimeOwner::questions, (owner, event), questions),
    ensures
        questions.doubt <==> *event is CompactionFailed || (owner.native && *event is TurnComplete),
        questions.cost_warning <==> *event is CompactionFailed || *event is Compacted || (
        owner.native && *event is TurnComplete),
        questions.elapsed <==> owner.native && *event is TurnComplete,
        questions.stored <==> owner.native && (*event is Request || *event is Snapshot),
        questions.naming <==> owner.native && *event is Snapshot && !owner.ai_name_attempted
            && owner.terminal_reason is Some && owner.terminal_reason != Some(
            StopReason::Cancelled,
        ),
        questions.goal_cap ==> owner.native && *event is Snapshot && owner.terminal_reason is Some
            && owner.goal is Some && owner.goal->0.active,
        owner.native && *event is Snapshot && owner.terminal_reason is Some && owner.goal is Some
            && owner.goal->0.active ==> questions.goal_cap,
{
}

} // verus!
