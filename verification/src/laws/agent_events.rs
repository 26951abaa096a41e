//! What the agent reports: what drivers see of it, and how a turn ends.
use super::turns::{actions_are_kept, added, adds, publishes, reachable, sends, unchanged};
use crate::event::{
    AgentCommand, AgentEvent, CodingRuntimeEvent, RequestId, RuntimeRequest, StopReason,
    TurnCompletion,
};
use crate::controllers::{GoalTerminal, WakeupRequest};
use crate::conversation::{message_views, SessionSnapshot};
use crate::error::RuntimeError;
use crate::owner::events::EventFacts;
use crate::owner::{OwnerAction, OwnerView, RuntimeOwner};
use crate::phase::RuntimePhase;
use crate::session_title::first_exchange;
use std::sync::Arc;
use vstd::prelude::*;
use vstd::string::*;

verus! {

/// Whether the action publishes that the turn ended with the snapshot.
pub open spec fn reports_completed(
    owner: RuntimeOwner,
    action: OwnerAction,
    turn: u64,
    why: StopReason,
    left: Arc<SessionSnapshot>,
) -> bool {
    action matches OwnerAction::Emit {
        generation,
        event: CodingRuntimeEvent::TurnFinished(
            TurnCompletion::Completed { turn_id, reason, snapshot, stats },
        ),
    } && generation == owner.generation && turn_id == turn && reason == why && snapshot == left
        && stats == owner.turn_stats
}

/// Whether the action publishes that the turn ended without a snapshot.
pub open spec fn reports_lost(
    owner: RuntimeOwner,
    action: OwnerAction,
    turn: u64,
    why: StopReason,
    words: Seq<char>,
) -> bool {
    action matches OwnerAction::Emit {
        generation,
        event: CodingRuntimeEvent::TurnFinished(
            TurnCompletion::SnapshotUnavailable { turn_id, reason, error, stats },
        ),
    } && generation == owner.generation && turn_id == turn && reason == why && error.message@
        == words
}

/// Whether the action publishes the error text.
pub open spec fn publishes_error(owner: RuntimeOwner, action: OwnerAction, words: Seq<char>) -> bool {
    action matches OwnerAction::Emit {
        generation,
        event: CodingRuntimeEvent::Agent(AgentEvent::Error { message, http_status, code }),
    } && generation == owner.generation && message@ == words && http_status is None && code is None
}

/// Whether the action publishes the warning.
pub open spec fn publishes_warning(owner: RuntimeOwner, action: OwnerAction, words: Seq<char>) -> bool {
    action matches OwnerAction::Emit {
        generation,
        event: CodingRuntimeEvent::ControllerWarning(text),
    } && generation == owner.generation && text@ == words
}

/// Whether the event is only passed on: it neither asks, nor ends or seals a turn, nor belongs
/// to a compaction.
pub open spec fn passes_through(event: AgentEvent) -> bool {
    !(event is Request) && !(event is TurnComplete) && !(event is Snapshot) && !(
    event is CompactionStarted) && !(event is Compacted) && !(event is CompactionFailed)
}

/// Drivers see an event that is only passed on as it is, and nothing else is done. It touches
/// neither the turn nor the requests.
pub proof fn an_event_is_passed_on_as_it_is(
    owner: &mut RuntimeOwner,
    event: AgentEvent,
    facts: &EventFacts,
    rest: Option<AgentEvent>,
)
    requires
        call_ensures(RuntimeOwner::on_agent_event, (owner, event, facts), rest),
        old(owner).native,
        passes_through(event),
    ensures
        rest is None,
        adds(*old(owner), *final(owner), 1),
        !(event is Error) ==> publishes(
            *old(owner),
            added(*old(owner), *final(owner), 0),
            CodingRuntimeEvent::Agent(event),
        ),
        event matches AgentEvent::Error { message, http_status, code } ==> (added(
            *old(owner),
            *final(owner),
            0,
        ) matches OwnerAction::Emit {
            generation,
            event: CodingRuntimeEvent::Agent(
                AgentEvent::Error { message: told, http_status: status, code: name },
            ),
        } && generation == old(owner).generation && told@ == message@ && status == http_status
            && name == code),
        final(owner).active_turn == old(owner).active_turn,
        final(owner).held_turn == old(owner).held_turn,
        final(owner).terminal_reason == old(owner).terminal_reason,
        final(owner).pending_requests@ == old(owner).pending_requests@,
        final(owner).conversation_revision == old(owner).conversation_revision,
        event is TurnStarted ==> final(owner).turn_clock && final(owner).phase
            == RuntimePhase::InTurn,
        !(event is TurnStarted) ==> final(owner).turn_clock == old(owner).turn_clock
            && final(owner).phase == old(owner).phase,
{
    actions_are_kept(*old(owner), *final(owner));
    let n = old(owner).outbox@.len() as int;
    assert(final(owner)@.outbox[n] == final(owner).outbox@[n]@);
}

/// Each tool call is counted once, and each report of usage once; the last report is kept, and
/// so is the number of tokens in use.
pub proof fn a_turn_is_counted(
    owner: &mut RuntimeOwner,
    event: AgentEvent,
    facts: &EventFacts,
    rest: Option<AgentEvent>,
)
    requires
        call_ensures(RuntimeOwner::on_agent_event, (owner, event, facts), rest),
        old(owner).native,
        passes_through(event),
    ensures
        final(owner).turn_stats.tool_call_count == if event is ToolStarted
            && old(owner).turn_stats.tool_call_count < usize::MAX {
            old(owner).turn_stats.tool_call_count + 1
        } else {
            old(owner).turn_stats.tool_call_count as int
        },
        final(owner).turn_stats.turn_count == if event is Usage
            && old(owner).turn_stats.turn_count < usize::MAX {
            old(owner).turn_stats.turn_count + 1
        } else {
            old(owner).turn_stats.turn_count as int
        },
        event matches AgentEvent::Usage(meta) ==> final(owner).turn_stats.last_usage == Some(meta)
            && final(owner).observed_tokens == Some(meta.used_tokens as usize),
        !(event is Usage) ==> final(owner).turn_stats.last_usage
            == old(owner).turn_stats.last_usage && final(owner).observed_tokens
            == old(owner).observed_tokens,
        final(owner).turn_stats.duration_nanos == old(owner).turn_stats.duration_nanos,
{
}

/// An owner that does not speak the native protocol hands every event but those of a
/// compaction on, and keeps only the number of tokens in use.
pub proof fn events_are_handed_on_without_the_native_protocol(
    owner: &mut RuntimeOwner,
    event: AgentEvent,
    facts: &EventFacts,
    rest: Option<AgentEvent>,
)
    requires
        call_ensures(RuntimeOwner::on_agent_event, (owner, event, facts), rest),
        !old(owner).native,
        !(event is CompactionStarted) && !(event is Compacted) && !(event is CompactionFailed),
    ensures
        rest == Some(event),
        adds(*old(owner), *final(owner), 0),
        event matches AgentEvent::Usage(meta) ==> final(owner).observed_tokens == Some(
            meta.used_tokens as usize,
        ),
        !(event is Usage) ==> unchanged(*old(owner), *final(owner)),
        final(owner).active_turn == old(owner).active_turn,
        final(owner).phase == old(owner).phase,
{
    actions_are_kept(*old(owner), *final(owner));
}

/// A request of the agent waits for an answer under its number and is shown to the drivers
/// as it was asked, with the snapshot of the bound session.
pub proof fn a_request_is_shown_and_waits(
    owner: &mut RuntimeOwner,
    id: RequestId,
    kind: String,
    payload: String,
    facts: &EventFacts,
    rest: Option<AgentEvent>,
)
    requires
        call_ensures(
            RuntimeOwner::on_agent_event,
            (owner, AgentEvent::Request { id, kind, payload }, facts),
            rest,
        ),
        old(owner).native,
        old(owner)@.wf(),
    ensures
        forall|other: RequestId| #[trigger]
            final(owner).pending_requests@.contains(other) <==> other == id
                || old(owner).pending_requests@.contains(other),
        final(owner).phase == RuntimePhase::WaitingApproval,
        final(owner).active_turn == old(owner).active_turn,
        adds(*old(owner), *final(owner), 1),
        publishes(
            *old(owner),
            added(*old(owner), *final(owner), 0),
            CodingRuntimeEvent::Request(
                RuntimeRequest { id, kind, payload, snapshot: facts.stored },
            ),
        ),
{
    crate::owner::events::with_request_is_ascending(old(owner).pending_requests@, id);
    actions_are_kept(*old(owner), *final(owner));
    let n = old(owner).outbox@.len() as int;
    assert(final(owner)@.outbox[n] == final(owner).outbox@[n]@);
    assert(final(owner).pending_requests@ == crate::owner::events::with_request(
        old(owner).pending_requests@,
        id,
    ));
}

/// The end of a turn is noted with its reason, and the snapshot that seals it is asked for,
/// unless one is on its way. A warning about the costs is passed on first. The turn is not
/// over before its snapshot.
pub proof fn the_end_of_a_turn_asks_for_its_snapshot(
    owner: &mut RuntimeOwner,
    reason: StopReason,
    facts: &EventFacts,
    rest: Option<AgentEvent>,
)
    requires
        call_ensures(
            RuntimeOwner::on_agent_event,
            (owner, AgentEvent::TurnComplete { reason }, facts),
            rest,
        ),
        old(owner).native,
        facts.doubt is None,
        old(owner).snapshot_in_flight || reachable(*old(owner)),
    ensures
        final(owner).terminal_reason == Some(reason),
        final(owner).snapshot_in_flight,
        final(owner).active_turn == old(owner).active_turn,
        final(owner).phase == old(owner).phase,
        !final(owner).turn_clock,
        final(owner).turn_stats.duration_nanos == if old(owner).turn_clock {
            facts.elapsed_nanos
        } else {
            0
        },
        final(owner).turn_stats.last_usage == old(owner).turn_stats.last_usage,
        final(owner).turn_stats.turn_count == old(owner).turn_stats.turn_count,
        final(owner).turn_stats.tool_call_count == old(owner).turn_stats.tool_call_count,
        ({
            let warnings: int = if facts.cost_warning is Some {
                1
            } else {
                0
            };
            &&& facts.cost_warning matches Some(words) ==> publishes_warning(
                *old(owner),
                added(*old(owner), *final(owner), 0),
                words@,
            )
            &&& old(owner).snapshot_in_flight ==> adds(*old(owner), *final(owner), warnings)
            &&& !old(owner).snapshot_in_flight ==> adds(*old(owner), *final(owner), warnings + 1)
                && sends(added(*old(owner), *final(owner), warnings), AgentCommand::Snapshot)
        }),
{
    actions_are_kept(*old(owner), *final(owner));
    let n = old(owner).outbox@.len() as int;
    if final(owner).outbox@.len() > n {
        assert(final(owner)@.outbox[n] == final(owner).outbox@[n]@);
    }
    if final(owner).outbox@.len() > n + 1 {
        assert(final(owner)@.outbox[n + 1] == final(owner).outbox@[n + 1]@);
    }
}

/// A turn whose end leaves the stored session in doubt is reported as lost, with the doubt,
/// and the runtime stops for good: no turn, no controller and no request is left.
pub proof fn doubt_at_the_end_of_a_turn_stops_the_runtime(
    owner: &mut RuntimeOwner,
    reason: StopReason,
    facts: &EventFacts,
    rest: Option<AgentEvent>,
    doubt: String,
)
    requires
        call_ensures(
            RuntimeOwner::on_agent_event,
            (owner, AgentEvent::TurnComplete { reason }, facts),
            rest,
        ),
        old(owner).native,
        facts.doubt == Some(doubt),
    ensures
        final(owner).phase == RuntimePhase::Failed,
        !final(owner).agent_available && !final(owner).agent_attached,
        final(owner).active_turn is None && final(owner).held_turn is None,
        final(owner).goal is None && final(owner).loop_state is None,
        final(owner).pending_requests@.len() == 0 && final(owner).snapshot_waiters@.len() == 0,
        final(owner).persistence_failure is Some && final(owner).persistence_failure->0@ == doubt@,
        final(owner).terminal_reason is None && !final(owner).snapshot_in_flight,
        final(owner).turn_stats.turn_count == 0 && final(owner).turn_stats.tool_call_count == 0
            && final(owner).turn_stats.last_usage is None,
        ({
            let added_count = final(owner).outbox@.len() - old(owner).outbox@.len();
            let words = "session persistence became uncertain; runtime stopped: "@ + doubt@;
            let last = if reachable(*old(owner)) {
                added_count - 2
            } else {
                added_count - 1
            };
            &&& added_count >= 2
            &&& reports_lost(
                *old(owner),
                added(*old(owner), *final(owner), last),
                match old(owner).active_turn {
                    Some(turn) => turn,
                    None => 0,
                },
                StopReason::ProviderError,
                words,
            )
            &&& publishes_error(*old(owner), added(*old(owner), *final(owner), last - 1), words)
            &&& reachable(*old(owner)) ==> sends(
                added(*old(owner), *final(owner), last + 1),
                AgentCommand::Shutdown,
            )
        }),
{
    reveal(OwnerView::turn_doubted);
    actions_are_kept(*old(owner), *final(owner));
    let m = final(owner).outbox@.len() as int;
    assert(final(owner)@.outbox[m - 1] == final(owner).outbox@[m - 1]@);
    assert(final(owner)@.outbox[m - 2] == final(owner).outbox@[m - 2]@);
    if reachable(*old(owner)) {
        assert(final(owner)@.outbox[m - 3] == final(owner).outbox@[m - 3]@);
    }
}

/// Actions that come before the fate of a sealed turn: the resume point is kept, the waiters
/// are answered, and a name may be asked for.
pub open spec fn preliminaries(owner: RuntimeOwner, snapshot: Arc<SessionSnapshot>, facts: EventFacts) -> int {
    keeps_resume_point(owner) + owner.snapshot_waiters@.len() + if asks_for_name(
        owner,
        snapshot,
        facts,
    ) {
        1int
    } else {
        0
    }
}

/// A runtime without a stored session keeps the snapshot as its resume point.
pub open spec fn keeps_resume_point(owner: RuntimeOwner) -> int {
    if owner.has_resources && !owner.has_session {
        1
    } else {
        0
    }
}

/// Whether a sealed turn brings the question for a name: naming is on, none was asked for
/// before, the turn was not cancelled, and there is an exchange to name.
pub open spec fn asks_for_name(
    owner: RuntimeOwner,
    snapshot: Arc<SessionSnapshot>,
    facts: EventFacts,
) -> bool {
    &&& owner.terminal_reason is Some
    &&& owner.terminal_reason != Some(StopReason::Cancelled)
    &&& !owner.ai_name_attempted
    &&& facts.naming_enabled
    &&& first_exchange(message_views(snapshot.messages@)) is Some
}

/// Whether a goal decides what becomes of a turn.
pub open spec fn has_running_goal(owner: RuntimeOwner) -> bool {
    owner.goal matches Some(goal) && goal.active
}

/// Whether a loop does: one that runs, where no goal does.
pub open spec fn has_running_loop(owner: RuntimeOwner) -> bool {
    !has_running_goal(owner) && (owner.loop_state matches Some(state) && state.active)
}

/// Whoever waits for a snapshot gets the one that came, in order, with the stored one to undo
/// from where there is one, and the revision that it belongs to: the end of a turn makes a new
/// one. A runtime without a stored session keeps it as its resume point.
pub proof fn everybody_who_waits_gets_the_snapshot(
    owner: &mut RuntimeOwner,
    snapshot: Arc<SessionSnapshot>,
    facts: &EventFacts,
    rest: Option<AgentEvent>,
)
    requires
        call_ensures(
            RuntimeOwner::on_agent_event,
            (owner, AgentEvent::Snapshot { snapshot }, facts),
            rest,
        ),
        old(owner).native,
    ensures
        final(owner).snapshot_waiters@.len() == 0,
        !final(owner).snapshot_in_flight,
        old(owner).terminal_reason is None ==> final(owner).conversation_revision
            == old(owner).conversation_revision,
        old(owner).terminal_reason is Some && old(owner).conversation_revision < u64::MAX
            ==> final(owner).conversation_revision == old(owner).conversation_revision + 1,
        final(owner).outbox@.len() >= old(owner).outbox@.len() + keeps_resume_point(*old(owner))
            + old(owner).snapshot_waiters@.len(),
        keeps_resume_point(*old(owner)) == 1 ==> (added(
            *old(owner),
            *final(owner),
            0,
        ) matches OwnerAction::KeepResume(kept) && kept == snapshot),
        forall|i: int|
            0 <= i < old(owner).snapshot_waiters@.len() ==> (#[trigger] added(
                *old(owner),
                *final(owner),
                keeps_resume_point(*old(owner)) + i,
            ) matches OwnerAction::AnswerSnapshot { waiter, result } && waiter
                == old(owner).snapshot_waiters@[i] && (result matches Ok(receipt)
                && receipt.snapshot == snapshot && receipt.undo_snapshot == match facts.stored {
                Some(stored) => stored,
                None => snapshot,
            } && receipt.revision == final(owner).conversation_revision)),
        old(owner).terminal_reason is None ==> adds(
            *old(owner),
            *final(owner),
            keeps_resume_point(*old(owner)) + old(owner).snapshot_waiters@.len(),
        ) && final(owner).active_turn == old(owner).active_turn && final(owner).phase
            == old(owner).phase,
{
    sealed_turns_go_on(*old(owner), *final(owner), snapshot, *facts);
    let k = keeps_resume_point(*old(owner));
    let n = old(owner).outbox@.len() as int;
    if k == 1 {
        assert(final(owner)@.outbox[n] == final(owner).outbox@[n]@);
    }
    assert forall|i: int| 0 <= i < old(owner).snapshot_waiters@.len() implies (#[trigger] added(
        *old(owner),
        *final(owner),
        k + i,
    ) matches OwnerAction::AnswerSnapshot { waiter, result } && waiter
        == old(owner).snapshot_waiters@[i] && (result matches Ok(receipt) && receipt.snapshot
        == snapshot && receipt.undo_snapshot == match facts.stored {
        Some(stored) => stored,
        None => snapshot,
    } && receipt.revision == final(owner).conversation_revision)) by {
        assert(final(owner)@.outbox[n + k + i] == final(owner).outbox@[n + k + i]@);
    }
}

/// What the steps behind a snapshot have in common.
proof fn sealed_turns_go_on(
    before: RuntimeOwner,
    after: RuntimeOwner,
    snapshot: Arc<SessionSnapshot>,
    facts: EventFacts,
)
    requires
        before.native,
        after@ == before@.on_event(AgentEvent::Snapshot { snapshot }, facts),
    ensures
        ({
            let taken = before@.snapshot_taken(snapshot, facts.stored);
            let k = keeps_resume_point(before) + before.snapshot_waiters@.len();
            &&& taken.outbox.len() == before@.outbox.len() + k
            &&& after@.outbox.len() >= taken.outbox.len()
            &&& forall|i: int|
                0 <= i < taken.outbox.len() ==> #[trigger] after@.outbox[i] == taken.outbox[i]
            &&& after@.conversation_revision == taken.conversation_revision
            &&& after@.snapshot_waiters.len() == 0
            &&& !after@.snapshot_in_flight
        }),
        before@.outbox.len() == before.outbox@.len(),
        after@.outbox.len() == after.outbox@.len(),
        forall|i: int|
            0 <= i < after.outbox@.len() ==> #[trigger] after@.outbox[i] == after.outbox@[i]@,
        forall|i: int|
            0 <= i < before.outbox@.len() ==> (#[trigger] after.outbox@[i])@
                == before.outbox@[i]@,
{
    reveal(OwnerView::turn_disposed);
    reveal(OwnerView::goal_capped);
    reveal(OwnerView::goal_held);
    reveal(OwnerView::goal_retried);
    reveal(OwnerView::goal_dropped);
    reveal(OwnerView::loop_turn);
    let taken = before@.snapshot_taken(snapshot, facts.stored);
    assert forall|i: int| 0 <= i < before@.outbox.len() implies #[trigger] taken.outbox[i]
        == before@.outbox[i] by {}
    assert forall|i: int| 0 <= i < taken.outbox.len() implies #[trigger] after@.outbox[i]
        == taken.outbox[i] by {}
    assert forall|i: int| 0 <= i < before@.outbox.len() implies #[trigger] after@.outbox[i]
        == before@.outbox[i] by {
        assert(after@.outbox[i] == taken.outbox[i]);
    }
    actions_are_kept(before, after);
}

/// A turn is over when its snapshot is in, unless a goal or a loop runs: it is reported once,
/// last, under its number, with the reason that the agent gave, that snapshot and what it
/// cost; the runtime is ready for the next.
pub proof fn a_sealed_turn_is_reported(
    owner: &mut RuntimeOwner,
    snapshot: Arc<SessionSnapshot>,
    facts: &EventFacts,
    rest: Option<AgentEvent>,
)
    requires
        call_ensures(
            RuntimeOwner::on_agent_event,
            (owner, AgentEvent::Snapshot { snapshot }, facts),
            rest,
        ),
        old(owner).native,
        old(owner).terminal_reason is Some,
        !has_running_goal(*old(owner)) && !has_running_loop(*old(owner)),
    ensures
        adds(*old(owner), *final(owner), preliminaries(*old(owner), snapshot, *facts) + 1),
        reports_completed(
            *old(owner),
            final(owner).outbox@.last(),
            match old(owner).active_turn {
                Some(turn) => turn,
                None => 0,
            },
            old(owner).terminal_reason->0,
            snapshot,
        ),
        final(owner).active_turn is None && final(owner).held_turn is None,
        final(owner).terminal_reason is None,
        final(owner).turn_stats.turn_count == 0 && final(owner).turn_stats.tool_call_count == 0
            && final(owner).turn_stats.last_usage is None,
        final(owner).pending_requests@.len() == 0,
        final(owner).phase == if old(owner).provider_unavailable_reason is Some {
            RuntimePhase::AwaitingProvider
        } else {
            RuntimePhase::Ready
        },
{
    sealed_turns_go_on(*old(owner), *final(owner), snapshot, *facts);
    reveal(OwnerView::turn_disposed);
    assert(final(owner)@.outbox.last() == final(owner).outbox@.last()@);
}

/// Where a name is asked for, it is asked once, of the first exchange of the conversation.
pub proof fn a_name_is_asked_for_once(
    owner: &mut RuntimeOwner,
    snapshot: Arc<SessionSnapshot>,
    facts: &EventFacts,
    rest: Option<AgentEvent>,
)
    requires
        call_ensures(
            RuntimeOwner::on_agent_event,
            (owner, AgentEvent::Snapshot { snapshot }, facts),
            rest,
        ),
        old(owner).native,
    ensures
        final(owner).ai_name_attempted == (old(owner).ai_name_attempted || asks_for_name(
            *old(owner),
            snapshot,
            *facts,
        )),
        asks_for_name(*old(owner), snapshot, *facts) ==> final(owner).outbox@.len()
            > old(owner).outbox@.len() + preliminaries(*old(owner), snapshot, *facts) - 1 && (added(
            *old(owner),
            *final(owner),
            preliminaries(*old(owner), snapshot, *facts) - 1,
        ) matches OwnerAction::SuggestName { generation, conversation } && generation
            == old(owner).generation && Some(conversation@) == first_exchange(
            message_views(snapshot.messages@),
        )),
{
    sealed_turns_go_on(*old(owner), *final(owner), snapshot, *facts);
    reveal(OwnerView::turn_disposed);
    reveal(OwnerView::goal_capped);
    reveal(OwnerView::goal_held);
    reveal(OwnerView::goal_retried);
    reveal(OwnerView::goal_dropped);
    reveal(OwnerView::loop_turn);
    if asks_for_name(*old(owner), snapshot, *facts) {
        let p = old(owner).outbox@.len() + preliminaries(*old(owner), snapshot, *facts) - 1;
        let taken = old(owner)@.snapshot_taken(snapshot, facts.stored).sealed();
        let named = taken.named(old(owner)@.sealed_turn(snapshot), facts.naming_enabled);
        assert(named.outbox[p] is SuggestName);
        assert(final(owner)@.outbox[p] == named.outbox[p]);
        assert(final(owner)@.outbox[p] == final(owner).outbox@[p]@);
    }
}

/// A loop whose turn stopped with a wakeup asked for is woken up by that very request: same
/// delay, same reason, same prompt. The turn is held back meanwhile, and not reported.
pub proof fn a_loop_is_scheduled_as_it_was_asked(
    owner: &mut RuntimeOwner,
    snapshot: Arc<SessionSnapshot>,
    facts: &EventFacts,
    rest: Option<AgentEvent>,
    wakeup: WakeupRequest,
)
    requires
        call_ensures(
            RuntimeOwner::on_agent_event,
            (owner, AgentEvent::Snapshot { snapshot }, facts),
            rest,
        ),
        old(owner).native,
        has_running_loop(*old(owner)),
        old(owner).terminal_reason == Some(StopReason::Stopped),
        old(owner).pending_wakeup == Some(wakeup),
    ensures
        adds(*old(owner), *final(owner), preliminaries(*old(owner), snapshot, *facts) + 1),
        final(owner).outbox@.last() matches OwnerAction::ScheduleLoop {
            generation,
            controller_id,
            wakeup: scheduled,
        } && generation == old(owner).generation && controller_id == old(owner).loop_state->0.id
            && scheduled.delay_seconds == wakeup.delay_seconds && scheduled.reason@
            == wakeup.reason@ && scheduled.prompt@ == wakeup.prompt@,
        final(owner).pending_wakeup is None,
        final(owner).active_turn == old(owner).active_turn,
        final(owner).phase == old(owner).phase,
        final(owner).held_turn matches Some(held) && held.reason == StopReason::Stopped
            && held.snapshot == snapshot && held.stats == old(owner).turn_stats && held.turn_id
            == match old(owner).active_turn {
            Some(turn) => turn,
            None => 0,
        },
        final(owner).loop_state is Some && final(owner).loop_state->0.id
            == old(owner).loop_state->0.id && final(owner).loop_state->0.active,
{
    sealed_turns_go_on(*old(owner), *final(owner), snapshot, *facts);
    reveal(OwnerView::turn_disposed);
    reveal(OwnerView::loop_turn);
    assert(final(owner)@.outbox.last() == final(owner).outbox@.last()@);
}

/// A loop whose turn stopped without a wakeup, or did not stop by itself, ends: its work is
/// cancelled, drivers see it inactive, and the turn is reported with the agent's reason.
pub proof fn a_loop_without_a_wakeup_ends(
    owner: &mut RuntimeOwner,
    snapshot: Arc<SessionSnapshot>,
    facts: &EventFacts,
    rest: Option<AgentEvent>,
)
    requires
        call_ensures(
            RuntimeOwner::on_agent_event,
            (owner, AgentEvent::Snapshot { snapshot }, facts),
            rest,
        ),
        old(owner).native,
        has_running_loop(*old(owner)),
        old(owner).terminal_reason is Some,
        old(owner).terminal_reason != Some(StopReason::Stopped)
            || old(owner).pending_wakeup is None,
    ensures
        ({
            let p = preliminaries(*old(owner), snapshot, *facts);
            let state = old(owner).loop_state->0;
            &&& adds(*old(owner), *final(owner), p + 3)
            &&& added(*old(owner), *final(owner), p) matches OwnerAction::CancelController { id }
                && id == state.id
            &&& added(*old(owner), *final(owner), p + 1) matches OwnerAction::Emit {
                generation,
                event: CodingRuntimeEvent::LoopChanged(progress),
            } && generation == old(owner).generation && progress.id == state.id && progress.label@
                == state.label@ && !progress.active && progress.round == state.round && (
            progress.last_reason matches Some(note) && (old(owner).terminal_reason == Some(
                StopReason::Stopped,
            ) ==> note@ == "completed"@) && (old(owner).terminal_reason != Some(
                StopReason::Stopped,
            ) ==> note@ == "ended: "@ + old(owner).terminal_reason->0.text()))
            &&& reports_completed(
                *old(owner),
                added(*old(owner), *final(owner), p + 2),
                match old(owner).active_turn {
                    Some(turn) => turn,
                    None => 0,
                },
                old(owner).terminal_reason->0,
                snapshot,
            )
        }),
        final(owner).loop_state is None && final(owner).pending_wakeup is None,
        old(owner).has_resources ==> !final(owner).loop_active,
        final(owner).active_turn is None,
{
    sealed_turns_go_on(*old(owner), *final(owner), snapshot, *facts);
    reveal(OwnerView::turn_disposed);
    reveal(OwnerView::loop_turn);
    let m = final(owner).outbox@.len() as int;
    assert(final(owner)@.outbox[m - 1] == final(owner).outbox@[m - 1]@);
    assert(final(owner)@.outbox[m - 2] == final(owner).outbox@[m - 2]@);
    assert(final(owner)@.outbox[m - 3] == final(owner).outbox@[m - 3]@);
}

/// Whether drivers see the goal as it ended.
pub open spec fn shows_ended_goal(
    owner: RuntimeOwner,
    action: OwnerAction,
    end: GoalTerminal,
    note: Seq<char>,
) -> bool {
    action matches OwnerAction::Emit {
        generation,
        event: CodingRuntimeEvent::GoalChanged(progress),
    } && generation == owner.generation && progress.id == owner.goal->0.id && progress.condition@
        == owner.goal->0.condition@ && !progress.active && progress.round == owner.goal->0.round
        && progress.terminal == Some(end) && (progress.last_reason matches Some(text) && text@
        == note)
}

/// Tokens of a goal once those of the turn are charged to it.
pub open spec fn charged_tokens(owner: RuntimeOwner) -> int {
    let total = owner.goal->0.tokens_used + match owner.turn_stats.last_usage {
        Some(meta) => meta.tokens.prompt + meta.tokens.completion,
        None => 0,
    };
    if total > u64::MAX {
        u64::MAX as int
    } else {
        total
    }
}

/// A goal that ran into a limit is stopped, with the limit in its note and in a warning, and
/// the turn ends for a reason that names the limit.
pub proof fn a_goal_at_its_limit_is_stopped(
    owner: &mut RuntimeOwner,
    snapshot: Arc<SessionSnapshot>,
    facts: &EventFacts,
    rest: Option<AgentEvent>,
    why: String,
)
    requires
        call_ensures(
            RuntimeOwner::on_agent_event,
            (owner, AgentEvent::Snapshot { snapshot }, facts),
            rest,
        ),
        old(owner).native,
        has_running_goal(*old(owner)),
        old(owner).terminal_reason is Some,
        facts.goal_cap == Some(why),
    ensures
        ({
            let p = preliminaries(*old(owner), snapshot, *facts);
            &&& adds(*old(owner), *final(owner), p + 3)
            &&& shows_ended_goal(
                *old(owner),
                added(*old(owner), *final(owner), p),
                GoalTerminal::Stopped,
                "stopped: "@ + why@,
            )
            &&& publishes_warning(
                *old(owner),
                added(*old(owner), *final(owner), p + 1),
                "goal stopped: "@ + why@ + " — goal not met; run /goal again to continue"@,
            )
            &&& reports_completed(
                *old(owner),
                added(*old(owner), *final(owner), p + 2),
                match old(owner).active_turn {
                    Some(turn) => turn,
                    None => 0,
                },
                if why@ == "round limit"@ {
                    StopReason::MaxRounds
                } else if why@ == "time limit"@ {
                    StopReason::Timeout
                } else {
                    StopReason::ProviderError
                },
                snapshot,
            )
        }),
        final(owner).goal is None && final(owner).active_turn is None,
{
    sealed_turns_go_on(*old(owner), *final(owner), snapshot, *facts);
    reveal(OwnerView::turn_disposed);
    reveal(OwnerView::goal_capped);
    let m = final(owner).outbox@.len() as int;
    assert(final(owner)@.outbox[m - 1] == final(owner).outbox@[m - 1]@);
    assert(final(owner)@.outbox[m - 2] == final(owner).outbox@[m - 2]@);
    assert(final(owner)@.outbox[m - 3] == final(owner).outbox@[m - 3]@);
}

/// A turn that stopped, by itself or at a bound of its own, has the goal evaluated: by its own
/// condition, on the snapshot of the turn. The turn is held back meanwhile, and its tokens are
/// charged to the goal, whose failed rounds are forgotten.
pub proof fn a_goal_is_evaluated_on_the_turn(
    owner: &mut RuntimeOwner,
    snapshot: Arc<SessionSnapshot>,
    facts: &EventFacts,
    rest: Option<AgentEvent>,
)
    requires
        call_ensures(
            RuntimeOwner::on_agent_event,
            (owner, AgentEvent::Snapshot { snapshot }, facts),
            rest,
        ),
        old(owner).native,
        has_running_goal(*old(owner)),
        facts.goal_cap is None,
        old(owner).terminal_reason == Some(StopReason::Stopped) || old(owner).terminal_reason
            == Some(StopReason::MaxContinuations) || old(owner).terminal_reason == Some(
            StopReason::MaxRounds,
        ),
    ensures
        adds(*old(owner), *final(owner), preliminaries(*old(owner), snapshot, *facts) + 1),
        final(owner).outbox@.last() matches OwnerAction::EvaluateGoal {
            generation,
            controller_id,
            condition,
            last_reason,
            snapshot: judged,
        } && generation == old(owner).generation && controller_id == old(owner).goal->0.id
            && condition@ == old(owner).goal->0.condition@ && judged == snapshot && (
        last_reason is Some <==> old(owner).goal->0.last_reason is Some) && (
        last_reason is Some ==> last_reason->0@ == old(owner).goal->0.last_reason->0@),
        final(owner).active_turn == old(owner).active_turn,
        final(owner).held_turn matches Some(held) && held.reason
            == old(owner).terminal_reason->0 && held.snapshot == snapshot && held.stats
            == old(owner).turn_stats,
        final(owner).goal matches Some(goal) && goal.id == old(owner).goal->0.id
            && goal.condition@ == old(owner).goal->0.condition@ && goal.active && goal.unproductive
            == 0 && goal.round == old(owner).goal->0.round && goal.tokens_used == charged_tokens(
            *old(owner),
        ),
{
    sealed_turns_go_on(*old(owner), *final(owner), snapshot, *facts);
    reveal(OwnerView::turn_disposed);
    reveal(OwnerView::goal_held);
    assert(final(owner)@.outbox.last() == final(owner).outbox@.last()@);
    assert(final(owner)@.goal == crate::owner::goal_view(final(owner).goal));
}

/// A turn that failed at the provider or ran out of time counts against the goal. Below the
/// limit the goal goes on with another round; at the limit it has failed.
pub proof fn a_goal_survives_failed_rounds_below_the_limit(
    owner: &mut RuntimeOwner,
    snapshot: Arc<SessionSnapshot>,
    facts: &EventFacts,
    rest: Option<AgentEvent>,
)
    requires
        call_ensures(
            RuntimeOwner::on_agent_event,
            (owner, AgentEvent::Snapshot { snapshot }, facts),
            rest,
        ),
        old(owner).native,
        has_running_goal(*old(owner)),
        facts.goal_cap is None,
        old(owner).goal->0.unproductive < u32::MAX && old(owner).goal->0.round < u32::MAX,
        old(owner).terminal_reason == Some(StopReason::Timeout) || old(owner).terminal_reason
            == Some(StopReason::ProviderError),
    ensures
        ({
            let p = preliminaries(*old(owner), snapshot, *facts);
            let failed = old(owner).goal->0.unproductive + 1;
            let turn = match old(owner).active_turn {
                Some(turn) => turn,
                None => 0,
            };
            &&& failed >= facts.max_unproductive ==> {
                &&& adds(*old(owner), *final(owner), p + 3)
                &&& shows_ended_goal(
                    *old(owner),
                    added(*old(owner), *final(owner), p),
                    GoalTerminal::Failed,
                    "stopped: too many failed rounds"@,
                )
                &&& publishes_warning(
                    *old(owner),
                    added(*old(owner), *final(owner), p + 1),
                    "goal stopped: too many failed rounds"@,
                )
                &&& reports_completed(
                    *old(owner),
                    added(*old(owner), *final(owner), p + 2),
                    turn,
                    StopReason::ProviderError,
                    snapshot,
                )
                &&& final(owner).goal is None && final(owner).active_turn is None
            }
            &&& failed < facts.max_unproductive && reachable(*old(owner)) ==> {
                &&& adds(*old(owner), *final(owner), p + 2)
                &&& added(*old(owner), *final(owner), p) matches OwnerAction::ContinueGoal {
                    reason,
                    condition,
                } && reason@ == "round ended: "@ + old(owner).terminal_reason->0.text()
                    && condition@ == old(owner).goal->0.condition@
                &&& added(*old(owner), *final(owner), p + 1) matches OwnerAction::Emit {
                    generation,
                    event: CodingRuntimeEvent::GoalChanged(progress),
                } && generation == old(owner).generation && progress@ == final(owner).goal->0@
                &&& final(owner).goal matches Some(goal) && goal.unproductive == failed
                    && goal.round == old(owner).goal->0.round + 1 && goal.active && goal.id
                    == old(owner).goal->0.id && goal.condition@ == old(owner).goal->0.condition@
                    && goal.tokens_used == charged_tokens(*old(owner))
                &&& final(owner).active_turn == old(owner).active_turn
                &&& final(owner).held_turn is None
            }
            &&& failed < facts.max_unproductive && !reachable(*old(owner)) ==> {
                &&& final(owner).goal is None && final(owner).active_turn is None
                &&& final(owner).held_turn is None && !final(owner).agent_available
                &&& final(owner).phase == RuntimePhase::Failed
                &&& final(owner).outbox@.len() > old(owner).outbox@.len()
                &&& reports_completed(
                    *old(owner),
                    final(owner).outbox@.last(),
                    turn,
                    StopReason::ProviderError,
                    snapshot,
                )
            }
        }),
{
    sealed_turns_go_on(*old(owner), *final(owner), snapshot, *facts);
    reveal(OwnerView::turn_disposed);
    reveal(OwnerView::goal_retried);
    let m = final(owner).outbox@.len() as int;
    assert(final(owner)@.outbox.last() == final(owner).outbox@.last()@);
    assert(final(owner)@.outbox[m - 1] == final(owner).outbox@[m - 1]@);
    if m - 2 >= old(owner).outbox@.len() {
        assert(final(owner)@.outbox[m - 2] == final(owner).outbox@[m - 2]@);
    }
    if m - 3 >= old(owner).outbox@.len() {
        assert(final(owner)@.outbox[m - 3] == final(owner).outbox@[m - 3]@);
    }
    assert(final(owner)@.goal == crate::owner::goal_view(final(owner).goal));
}

/// A turn that was cancelled or went round in circles ends the goal with it.
pub proof fn a_goal_ends_with_a_cancelled_turn(
    owner: &mut RuntimeOwner,
    snapshot: Arc<SessionSnapshot>,
    facts: &EventFacts,
    rest: Option<AgentEvent>,
)
    requires
        call_ensures(
            RuntimeOwner::on_agent_event,
            (owner, AgentEvent::Snapshot { snapshot }, facts),
            rest,
        ),
        old(owner).native,
        has_running_goal(*old(owner)),
        facts.goal_cap is None,
        old(owner).terminal_reason == Some(StopReason::Cancelled) || old(owner).terminal_reason
            == Some(StopReason::ToolLoopDetected),
    ensures
        ({
            let p = preliminaries(*old(owner), snapshot, *facts);
            &&& adds(*old(owner), *final(owner), p + 2)
            &&& shows_ended_goal(
                *old(owner),
                added(*old(owner), *final(owner), p),
                GoalTerminal::Failed,
                "ended: "@ + old(owner).terminal_reason->0.text(),
            )
            &&& reports_completed(
                *old(owner),
                added(*old(owner), *final(owner), p + 1),
                match old(owner).active_turn {
                    Some(turn) => turn,
                    None => 0,
                },
                old(owner).terminal_reason->0,
                snapshot,
            )
        }),
        final(owner).goal is None && final(owner).active_turn is None,
{
    sealed_turns_go_on(*old(owner), *final(owner), snapshot, *facts);
    reveal(OwnerView::turn_disposed);
    reveal(OwnerView::goal_dropped);
    let m = final(owner).outbox@.len() as int;
    assert(final(owner)@.outbox[m - 1] == final(owner).outbox@[m - 1]@);
    assert(final(owner)@.outbox[m - 2] == final(owner).outbox@[m - 2]@);
}

/// The goal is judged with the tokens of the turn already charged to it.
pub proof fn a_goal_is_judged_with_its_costs(
    owner: &RuntimeOwner,
    goal: Option<crate::controllers::GoalState>,
)
    requires
        call_ensures(RuntimeOwner::charged_goal, (owner,), goal),
    ensures
        goal is Some <==> owner.goal is Some,
        goal matches Some(charged) ==> charged.tokens_used == charged_tokens(*owner) && charged.id
            == owner.goal->0.id && charged.condition@ == owner.goal->0.condition@ && charged.round
            == owner.goal->0.round && charged.active == owner.goal->0.active
            && charged.unproductive == owner.goal->0.unproductive,
{
}

/// An agent that is gone leaves nothing open: everybody who waits for a snapshot is refused,
/// no controller goes on, and a turn in progress is reported once, as lost, with the reason
/// that the agent gave if it gave one.
pub proof fn a_closed_stream_leaves_nothing_open(owner: &mut RuntimeOwner, result: ())
    requires
        call_ensures(RuntimeOwner::on_stream_closed, (owner,), result),
    ensures
        !old(owner).native ==> unchanged(*old(owner), *final(owner)),
        old(owner).native ==> {
            &&& final(owner).active_turn is None && final(owner).held_turn is None
            &&& final(owner).goal is None && final(owner).loop_state is None
            &&& final(owner).pending_wakeup is None
            &&& final(owner).snapshot_waiters@.len() == 0
            &&& final(owner).terminal_reason == if old(owner).active_turn is Some {
                None
            } else {
                old(owner).terminal_reason
            }
            &&& forall|i: int|
                0 <= i < old(owner).snapshot_waiters@.len() ==> (#[trigger] added(
                    *old(owner),
                    *final(owner),
                    i,
                ) matches OwnerAction::AnswerSnapshot { waiter, result } && waiter
                    == old(owner).snapshot_waiters@[i] && (result matches Err(
                    RuntimeError::SnapshotUnavailable(words),
                ) && words@ == "kernel event stream closed before snapshot terminal"@))
        },
        old(owner).native && old(owner).active_turn is Some
            ==> final(owner).turn_stats.turn_count == 0 && final(owner).turn_stats.tool_call_count
            == 0 && final(owner).turn_stats.last_usage is None,
        old(owner).active_turn is None ==> final(owner).turn_stats == old(owner).turn_stats,
        old(owner).native && old(owner).active_turn is Some ==> final(owner).outbox@.len()
            > old(owner).outbox@.len() && reports_lost(
            *old(owner),
            final(owner).outbox@.last(),
            old(owner).active_turn->0,
            match old(owner).terminal_reason {
                Some(reason) => reason,
                None => StopReason::ProviderError,
            },
            "kernel event stream closed before snapshot terminal"@,
        ),
{
    actions_are_kept(*old(owner), *final(owner));
    let n = old(owner).outbox@.len() as int;
    if old(owner).native {
        assert forall|i: int| 0 <= i < old(owner).snapshot_waiters@.len() implies (
        #[trigger] added(*old(owner), *final(owner), i) matches OwnerAction::AnswerSnapshot {
            waiter,
            result,
        } && waiter == old(owner).snapshot_waiters@[i] && (result matches Err(
            RuntimeError::SnapshotUnavailable(words),
        ) && words@ == "kernel event stream closed before snapshot terminal"@)) by {
            assert(final(owner)@.outbox[n + i] == final(owner).outbox@[n + i]@);
        }
    }
    if old(owner).native && old(owner).active_turn is Some {
        assert(final(owner)@.outbox.last() == final(owner).outbox@.last()@);
    }
}

/// A turn whose snapshot cannot even be asked for is lost, and the runtime has failed.
pub proof fn a_turn_that_cannot_be_sealed_is_lost(
    owner: &mut RuntimeOwner,
    reason: StopReason,
    facts: &EventFacts,
    rest: Option<AgentEvent>,
)
    requires
        call_ensures(
            RuntimeOwner::on_agent_event,
            (owner, AgentEvent::TurnComplete { reason }, facts),
            rest,
        ),
        old(owner).native,
        facts.doubt is None,
        !old(owner).snapshot_in_flight && !reachable(*old(owner)),
    ensures
        final(owner).phase == RuntimePhase::Failed && !final(owner).agent_available,
        final(owner).active_turn is None && final(owner).held_turn is None,
        final(owner).goal is None && final(owner).loop_state is None,
        final(owner).pending_requests@.len() == 0 && final(owner).snapshot_waiters@.len() == 0,
        final(owner).terminal_reason is None,
        final(owner).turn_stats.turn_count == 0 && final(owner).turn_stats.tool_call_count == 0
            && final(owner).turn_stats.last_usage is None,
        final(owner).outbox@.len() > old(owner).outbox@.len(),
        reports_lost(
            *old(owner),
            final(owner).outbox@.last(),
            match old(owner).active_turn {
                Some(turn) => turn,
                None => 0,
            },
            StopReason::ProviderError,
            "kernel snapshot command delivery failed"@,
        ),
{
    reveal(OwnerView::unsealed);
    assert(final(owner)@.outbox.len() == final(owner).outbox@.len());
    assert(old(owner)@.outbox.len() == old(owner).outbox@.len());
    assert(final(owner)@.outbox.last() == final(owner).outbox@.last()@);
}

} // verus!
