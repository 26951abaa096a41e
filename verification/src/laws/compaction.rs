//! Compactions: what is estimated, what is replaced, and how each of them ends.
use super::turns::{actions_are_kept, added, adds, publishes, reachable, sends};
use crate::compaction::{
    compact_snapshot, compaction_window, estimate_after_tokens, snapshot_mutation, CompactTrigger,
    CompactionCheckpointError, CompactionCompletion, CompactionOutcome, CompactionPlanSpan,
    CompactionReport, CompactionTracker, SnapshotCompaction, SnapshotCompactionMutation,
};
use crate::conversation::{Message, SessionSnapshot};
use crate::event::{AgentCommand, AgentEvent, CodingRuntimeEvent, StopReason};
use crate::owner::events::EventFacts;
use crate::owner::{OwnerAction, OwnerView, RuntimeOwner};
use crate::phase::RuntimePhase;
use std::sync::Arc;
use vstd::prelude::*;
use vstd::string::*;

verus! {

/// Tokens shrink as bytes do: the estimate is the old one times the bytes after over the bytes
/// before, rounded down, where that fits; without bytes before it stays.
pub proof fn tokens_shrink_as_bytes_do(
    tokens: usize,
    bytes_before: usize,
    bytes_after: usize,
    estimate: usize,
)
    requires
        call_ensures(estimate_after_tokens, (tokens, bytes_before, bytes_after), estimate),
    ensures
        bytes_before == 0 ==> estimate == tokens,
        bytes_before > 0 && tokens * bytes_after / bytes_before as int <= usize::MAX ==> estimate
            == tokens * bytes_after / bytes_before as int,
        bytes_after == bytes_before ==> estimate == tokens,
        bytes_after == 0 && bytes_before > 0 ==> estimate == 0,
{
    reveal(crate::compaction::tokens_after);
    if bytes_before > 0 {
        let t = tokens as int;
        let a = bytes_after as int;
        let b = bytes_before as int;
        assert(0 <= t * a / b) by (nonlinear_arith)
            requires
                0 <= t,
                0 <= a,
                b > 0,
        ;
        if t * a / b <= usize::MAX {
            assert((t * a / b) % (usize::MAX + 1) == t * a / b) by (nonlinear_arith)
                requires
                    0 <= t * a / b <= usize::MAX,
            ;
        }
        if a == b {
            assert(t * b / b == t) by (nonlinear_arith)
                requires
                    b > 0,
            ;
        }
        if a == 0 {
            assert(t * 0 / b == 0) by (nonlinear_arith)
                requires
                    b > 0,
            ;
        }
    }
}

/// Whether the outcome says what the kernel reported, with the tokens that the provider last
/// reported, or else a quarter of the bytes, before it.
pub open spec fn says_what_was_reported(
    outcome: CompactionOutcome,
    trigger: CompactTrigger,
    epoch: u64,
    removed: usize,
    bytes_before: usize,
    bytes_after: usize,
    committed: bool,
    observed: Option<usize>,
) -> bool {
    &&& outcome.trigger == trigger && outcome.epoch == epoch && outcome.removed_messages == removed
    &&& outcome.bytes_before == bytes_before && outcome.bytes_after == bytes_after
    &&& outcome.committed == committed
    &&& observed is Some && observed->0 > 0 ==> outcome.estimated_tokens_before == observed->0
    &&& observed is None || observed->0 == 0 ==> outcome.estimated_tokens_before == bytes_before / 4
    &&& bytes_before == 0 ==> outcome.estimated_tokens_after == outcome.estimated_tokens_before
    &&& bytes_before > 0 && outcome.estimated_tokens_before * bytes_after / bytes_before as int
        <= usize::MAX ==> outcome.estimated_tokens_after == outcome.estimated_tokens_before
        * bytes_after / bytes_before as int
}

proof fn estimates_fit(tokens: usize, bytes_before: usize, bytes_after: usize)
    ensures
        bytes_before == 0 ==> crate::compaction::tokens_after(tokens, bytes_before, bytes_after)
            == tokens,
        bytes_before > 0 && tokens * bytes_after / bytes_before as int <= usize::MAX
            ==> crate::compaction::tokens_after(tokens, bytes_before, bytes_after) == tokens
            * bytes_after / bytes_before as int,
        0 <= crate::compaction::tokens_after(tokens, bytes_before, bytes_after) <= usize::MAX,
{
    reveal(crate::compaction::tokens_after);
    if bytes_before > 0 {
        let t = tokens as int;
        let a = bytes_after as int;
        let b = bytes_before as int;
        assert(0 <= t * a / b) by (nonlinear_arith)
            requires
                0 <= t,
                0 <= a,
                b > 0,
        ;
        if t * a / b <= usize::MAX {
            assert((t * a / b) % (usize::MAX + 1) == t * a / b) by (nonlinear_arith)
                requires
                    0 <= t * a / b <= usize::MAX,
            ;
        }
        assert(0 <= (t * a / b) % (usize::MAX + 1) <= usize::MAX) by (nonlinear_arith);
    }
}

/// An outcome says what the kernel reported.
pub proof fn an_outcome_says_what_was_reported(
    trigger: CompactTrigger,
    epoch: u64,
    removed: usize,
    bytes_before: usize,
    bytes_after: usize,
    committed: bool,
    observed: Option<usize>,
    outcome: CompactionOutcome,
)
    requires
        call_ensures(
            CompactionOutcome::from_kernel,
            (trigger, epoch, removed, bytes_before, bytes_after, committed, observed),
            outcome,
        ),
    ensures
        says_what_was_reported(
            outcome,
            trigger,
            epoch,
            removed,
            bytes_before,
            bytes_after,
            committed,
            observed,
        ),
        outcome.committed_snapshot is None,
{
    estimates_fit(outcome.estimated_tokens_before, bytes_before, bytes_after);
}

/// What is asked of an outcome: who asked for it, and whether it would have grown.
pub proof fn an_outcome_is_asked(
    outcome: &CompactionOutcome,
    manual: bool,
    grows: bool,
    completion: &CompactionCompletion,
    trigger: &CompactTrigger,
    ended_manual: bool,
)
    requires
        call_ensures(CompactionOutcome::is_manual, (outcome,), manual),
        call_ensures(CompactionOutcome::summary_would_grow, (outcome,), grows),
        call_ensures(CompactionCompletion::trigger, (completion,), trigger),
        call_ensures(CompactionCompletion::is_manual, (completion,), ended_manual),
    ensures
        manual <==> outcome.trigger is Manual,
        grows <==> outcome.bytes_after > outcome.bytes_before,
        match *completion {
            CompactionCompletion::Completed(done) => *trigger == done.trigger,
            CompactionCompletion::Failed { trigger: of, error } => *trigger == of,
            CompactionCompletion::Interrupted { trigger: of, reason } => *trigger == of,
        },
        ended_manual <==> *trigger is Manual,
{
}

/// A plan replaces a span of the conversation that starts behind the protected head and ends
/// within it, by a summary if there is one. Without a span and a summary, only bodies change.
pub proof fn a_plan_spares_the_protected_head(
    count: usize,
    floor: usize,
    plan: CompactionPlanSpan,
    mutation: SnapshotCompactionMutation,
)
    requires
        count < usize::MAX,
        call_ensures(snapshot_mutation, (count, floor, plan), mutation),
    ensures
        !(mutation is Noop),
        mutation matches SnapshotCompactionMutation::Replace { old_start, old_end, new_end } ==> {
            &&& old_start <= count && old_end <= count
            &&& floor <= count ==> old_start >= floor
            &&& floor > count ==> old_start == count
            &&& floor <= plan.drain_from <= count ==> old_start == plan.drain_from
            &&& plan.drain_from < floor <= count ==> old_start == floor
            &&& plan.drain_to <= count ==> old_end == plan.drain_to
            &&& plan.drain_to > count ==> old_end == count
            &&& plan.has_summary ==> new_end == old_start + 1
            &&& !plan.has_summary ==> new_end == old_start && old_start < old_end
        },
        plan.has_summary ==> mutation is Replace,
        floor <= plan.drain_from < plan.drain_to <= count ==> mutation is Replace,
        !plan.has_summary && plan.drain_from >= plan.drain_to ==> mutation is RewriteOnly,
        !plan.has_summary && floor >= plan.drain_to ==> mutation is RewriteOnly,
{
}

/// A manual compaction of a stored conversation leaves what the kernel left and reports what
/// it reported; a plan that was not committed changed nothing.
pub proof fn a_stored_conversation_is_compacted_as_reported(
    count: usize,
    floor: usize,
    plan: CompactionPlanSpan,
    report: CompactionReport,
    used_tokens: u32,
    focus: Option<String>,
    messages: Vec<Message>,
    planned: SnapshotCompactionMutation,
    result: SnapshotCompaction,
)
    requires
        count < usize::MAX,
        call_ensures(
            compact_snapshot,
            (count, floor, plan, report, used_tokens, focus, messages),
            result,
        ),
        call_ensures(snapshot_mutation, (count, floor, plan), planned),
    ensures
        result.messages == messages,
        says_what_was_reported(
            result.outcome,
            CompactTrigger::Manual { focus },
            report.epoch_after,
            report.removed,
            report.bytes_before,
            report.bytes_after,
            report.committed,
            Some(used_tokens as usize),
        ),
        result.mutation is Noop <==> !report.committed,
        report.committed ==> result.mutation == planned,
{
    estimates_fit(
        result.outcome.estimated_tokens_before,
        report.bytes_before,
        report.bytes_after,
    );
}

/// The window is the provider's own where it gives one.
pub proof fn the_live_window_comes_first(live: u32, recorded: u32, window: u32)
    requires
        call_ensures(compaction_window, (live, recorded), window),
    ensures
        live > 0 ==> window == live,
        live == 0 ==> window == recorded,
{
}

/// A compaction that starts is told to the drivers, and is then without its end.
pub proof fn a_started_compaction_is_told(
    owner: &mut RuntimeOwner,
    trigger: CompactTrigger,
    facts: &EventFacts,
    rest: Option<AgentEvent>,
)
    requires
        call_ensures(
            RuntimeOwner::on_agent_event,
            (owner, AgentEvent::CompactionStarted { trigger }, facts),
            rest,
        ),
    ensures
        rest is None,
        adds(*old(owner), *final(owner), 1),
        publishes(
            *old(owner),
            added(*old(owner), *final(owner), 0),
            CodingRuntimeEvent::CompactionStarted { trigger },
        ),
        super::turns::compacting(*final(owner)),
        !(trigger is Manual) ==> final(owner).compactions.non_manual_started == Some(trigger),
        final(owner).active_turn == old(owner).active_turn,
{
    actions_are_kept(*old(owner), *final(owner));
    let n = old(owner).outbox@.len() as int;
    assert(final(owner)@.outbox[n] == final(owner).outbox@[n]@);
    crate::compaction::first_flight_is_first(old(owner).compactions.manual@, trigger@, true);
}

/// A compaction that reached a result is told to the drivers as it was reported, last. Once it
/// is committed the conversation has moved on, the tokens in use are the estimate, and a
/// runtime without a stored session keeps the compacted conversation as its resume point.
pub proof fn a_finished_compaction_is_told(
    owner: &mut RuntimeOwner,
    trigger: CompactTrigger,
    epoch: u64,
    removed: usize,
    bytes_before: usize,
    bytes_after: usize,
    committed: bool,
    snapshot: Option<Arc<SessionSnapshot>>,
    facts: &EventFacts,
    rest: Option<AgentEvent>,
)
    requires
        call_ensures(
            RuntimeOwner::on_agent_event,
            (
                owner,
                AgentEvent::Compacted {
                    trigger,
                    epoch,
                    removed,
                    bytes_before,
                    bytes_after,
                    committed,
                    snapshot,
                },
                facts,
            ),
            rest,
        ),
    ensures
        rest is None,
        ({
            let keeps: int = if committed && snapshot is Some && old(owner).has_resources && !old(
                owner,
            ).has_session {
                1
            } else {
                0
            };
            let warns: int = if facts.cost_warning is Some {
                1
            } else {
                0
            };
            &&& adds(*old(owner), *final(owner), keeps + warns + 1)
            &&& keeps == 1 ==> (added(
                *old(owner),
                *final(owner),
                0,
            ) matches OwnerAction::KeepResume(kept) && kept == snapshot->0)
            &&& facts.cost_warning matches Some(words) ==> super::agent_events::publishes_warning(
                *old(owner),
                added(*old(owner), *final(owner), keeps),
                words@,
            )
            &&& added(*old(owner), *final(owner), keeps + warns) matches OwnerAction::Emit {
                generation,
                event: CodingRuntimeEvent::CompactionFinished {
                    completion: CompactionCompletion::Completed(outcome),
                },
            } && generation == old(owner).generation && says_what_was_reported(
                outcome,
                trigger,
                epoch,
                removed,
                bytes_before,
                bytes_after,
                committed,
                old(owner).observed_tokens,
            ) && outcome.committed_snapshot == snapshot && (committed
                ==> final(owner).observed_tokens == Some(outcome.estimated_tokens_after))
        }),
        !committed ==> final(owner).observed_tokens == old(owner).observed_tokens
            && final(owner).conversation_revision == old(owner).conversation_revision,
        committed && old(owner).conversation_revision < u64::MAX
            ==> final(owner).conversation_revision == old(owner).conversation_revision + 1,
        !(trigger is Manual) ==> final(owner).compactions.non_manual_started is None,
        final(owner).active_turn == old(owner).active_turn,
        final(owner).phase == old(owner).phase,
{
    actions_are_kept(*old(owner), *final(owner));
    let n = old(owner).outbox@.len() as int;
    let m = final(owner).outbox@.len() as int;
    estimates_fit(
        crate::compaction::tokens_before(old(owner).observed_tokens, bytes_before),
        bytes_before,
        bytes_after,
    );
    assert(final(owner)@.outbox[n] == final(owner).outbox@[n]@);
    assert(final(owner)@.outbox[m - 1] == final(owner).outbox@[m - 1]@);
    if m > n + 1 {
        assert(final(owner)@.outbox[n + 1] == final(owner).outbox@[n + 1]@);
    }
}

/// A compaction that failed is told to the drivers with its error, and changes nothing else.
pub proof fn a_failed_compaction_is_told(
    owner: &mut RuntimeOwner,
    trigger: CompactTrigger,
    error: CompactionCheckpointError,
    facts: &EventFacts,
    rest: Option<AgentEvent>,
)
    requires
        call_ensures(
            RuntimeOwner::on_agent_event,
            (owner, AgentEvent::CompactionFailed { trigger, error }, facts),
            rest,
        ),
        facts.doubt is None,
    ensures
        ({
            let warns: int = if facts.cost_warning is Some {
                1
            } else {
                0
            };
            &&& adds(*old(owner), *final(owner), warns + 1)
            &&& publishes(
                *old(owner),
                added(*old(owner), *final(owner), warns),
                CodingRuntimeEvent::CompactionFinished {
                    completion: CompactionCompletion::Failed { trigger, error },
                },
            )
        }),
        final(owner).phase == old(owner).phase,
        final(owner).active_turn == old(owner).active_turn,
        final(owner).conversation_revision == old(owner).conversation_revision,
        final(owner).observed_tokens == old(owner).observed_tokens,
        !(trigger is Manual) ==> final(owner).compactions.non_manual_started is None,
{
    actions_are_kept(*old(owner), *final(owner));
    let n = old(owner).outbox@.len() as int;
    let m = final(owner).outbox@.len() as int;
    assert(final(owner)@.outbox[n] == final(owner).outbox@[n]@);
    if m > n + 1 {
        assert(final(owner)@.outbox[n + 1] == final(owner).outbox@[n + 1]@);
    }
}

/// A failed compaction that leaves the stored session in doubt stops the runtime for good: no
/// turn, no controller and no request is left, and a turn in progress is reported as lost.
#[verifier::rlimit(60)]
pub proof fn doubt_after_a_compaction_stops_the_runtime(
    owner: &mut RuntimeOwner,
    trigger: CompactTrigger,
    error: CompactionCheckpointError,
    facts: &EventFacts,
    rest: Option<AgentEvent>,
    doubt: String,
)
    requires
        call_ensures(
            RuntimeOwner::on_agent_event,
            (owner, AgentEvent::CompactionFailed { trigger, error }, facts),
            rest,
        ),
        facts.doubt == Some(doubt),
    ensures
        final(owner).phase == RuntimePhase::Failed && !final(owner).agent_attached,
        final(owner).active_turn is None && final(owner).held_turn is None,
        final(owner).goal is None && final(owner).loop_state is None,
        final(owner).pending_requests@.len() == 0 && final(owner).snapshot_waiters@.len() == 0,
        final(owner).persistence_failure is Some && final(owner).persistence_failure->0@ == doubt@,
        final(owner).terminal_reason is None && !final(owner).snapshot_in_flight,
        final(owner).turn_stats.turn_count == 0 && final(owner).turn_stats.tool_call_count == 0
            && final(owner).turn_stats.last_usage is None,
        final(owner).outbox@.len() >= old(owner).outbox@.len() + 2,
        old(owner).active_turn is Some ==> super::agent_events::reports_lost(
            *old(owner),
            final(owner).outbox@[final(owner).outbox@.len() - if reachable(*old(owner)) {
                2int
            } else {
                1
            }],
            old(owner).active_turn->0,
            StopReason::ProviderError,
            "compaction persistence became uncertain; runtime stopped: "@ + doubt@,
        ),
        reachable(*old(owner)) ==> sends(final(owner).outbox@.last(), AgentCommand::Shutdown),
{
    reveal(OwnerView::compaction_doubted);
    let m = final(owner).outbox@.len() as int;
    assert(final(owner)@.outbox.len() == m);
    assert(old(owner)@.outbox.len() == old(owner).outbox@.len());
    let event = AgentEvent::CompactionFailed { trigger, error };
    let booked = old(owner)@.compaction_committed(event).warned(
        facts.cost_warning,
    ).compaction_event(event);
    assert(booked.outbox.len() >= old(owner)@.outbox.len() + 1);
    assert(final(owner)@ == booked.compaction_doubted(doubt@));
    assert(final(owner)@.outbox[m - 1] == final(owner).outbox@[m - 1]@);
    assert(final(owner)@.outbox[m - 2] == final(owner).outbox@[m - 2]@);
}

/// An accepted compaction is in flight, behind those that already are, until it ends; its end
/// takes away one flight of its own focus, the first, and no other.
pub proof fn a_flight_ends_with_its_own_end(
    tracker: &mut CompactionTracker,
    ended: &mut CompactionTracker,
    trigger: CompactTrigger,
    accepted: (),
    finished: (),
    active: bool,
)
    requires
        call_ensures(CompactionTracker::accepted_manual, (tracker, trigger), accepted),
        call_ensures(CompactionTracker::finished, (ended, &trigger), finished),
        call_ensures(CompactionTracker::is_active, (&*final(tracker),), active),
        trigger is Manual,
    ensures
        active,
        final(tracker).manual@.len() == old(tracker).manual@.len() + 1,
        final(tracker).manual@.drop_last() == old(tracker).manual@,
        final(tracker).manual@.last().trigger == trigger && !final(tracker).manual@.last().started,
        final(ended).non_manual_started == old(ended).non_manual_started,
        forall|i: int|
            0 <= i < old(ended).manual@.len() && (#[trigger] old(ended).manual@[i]).trigger@
                == trigger@ && (forall|j: int|
                0 <= j < i ==> (#[trigger] old(ended).manual@[j]).trigger@ != trigger@)
                ==> final(ended).manual@ == old(ended).manual@.remove(i),
        (forall|i: int|
            0 <= i < old(ended).manual@.len() ==> (#[trigger] old(ended).manual@[i]).trigger@
                != trigger@) ==> final(ended).manual@ == old(ended).manual@,
{
    assert(final(tracker).manual@.drop_last() =~= old(tracker).manual@);
    let flights = old(ended).manual@;
    let left = final(ended).manual@;
    crate::compaction::first_flight_is_first(flights, trigger@, false);
    let first = crate::compaction::first_flight(flights, trigger@, false);
    assert forall|i: int|
        0 <= i < flights.len() && (#[trigger] flights[i]).trigger@ == trigger@ && (forall|j: int|
            0 <= j < i ==> (#[trigger] flights[j]).trigger@ != trigger@) implies left
        == flights.remove(i) by {
        if first < i {
            assert(flights[first].trigger@ != trigger@);
        } else if i < first {
            assert(flights[i].trigger@ != trigger@);
        }
    }
}

/// What is open is handed out once: the accepted ones in order, then the other.
pub proof fn open_compactions_are_handed_out_once(
    tracker: &mut CompactionTracker,
    open: Vec<CompactTrigger>,
)
    requires
        call_ensures(CompactionTracker::take_open, (tracker,), open),
    ensures
        final(tracker).manual@.len() == 0 && final(tracker).non_manual_started is None,
        open@.len() == old(tracker).manual@.len() + if old(tracker).non_manual_started is Some {
            1int
        } else {
            0
        },
        forall|i: int|
            0 <= i < old(tracker).manual@.len() ==> #[trigger] open@[i]
                == old(tracker).manual@[i].trigger,
        old(tracker).non_manual_started matches Some(trigger) ==> open@.last() == trigger,
{
}

/// Two triggers are the same exactly where all of them is.
pub proof fn triggers_are_told_apart(left: &CompactTrigger, right: &CompactTrigger, same: bool)
    requires
        call_ensures(CompactTrigger::same, (left, right), same),
    ensures
        match (*left, *right) {
            (CompactTrigger::Manual { focus: a }, CompactTrigger::Manual { focus: b }) => same == ((
            a is Some <==> b is Some) && (a is Some && b is Some ==> a->0@ == b->0@)),
            (
                CompactTrigger::Auto { utilization_bits: a },
                CompactTrigger::Auto { utilization_bits: b },
            ) => same == (a == b),
            (CompactTrigger::Overflow { attempt: a }, CompactTrigger::Overflow { attempt: b }) =>
                same == (a == b),
            _ => !same,
        },
{
}

/// A trigger is copied as it is, and is manual where the user gave it; a fresh tracker tracks
/// nothing.
pub proof fn triggers_are_copied(
    trigger: &CompactTrigger,
    copy: CompactTrigger,
    manual: bool,
    tracker: CompactionTracker,
)
    requires
        call_ensures(CompactTrigger::duplicate, (trigger,), copy),
        call_ensures(CompactTrigger::is_manual, (trigger,), manual),
        call_ensures(CompactionTracker::new, (), tracker),
    ensures
        copy == *trigger,
        manual <==> *trigger is Manual,
        tracker.manual@.len() == 0 && tracker.non_manual_started is None,
{
}

/// A compaction that starts is marked where it was accepted: the first of its focus that has
/// not started; one that nobody asked for is noted beside them.
pub proof fn a_started_compaction_is_marked(
    tracker: &mut CompactionTracker,
    trigger: CompactTrigger,
    at: int,
)
    requires
        call_ensures(CompactionTracker::started, (tracker, &trigger), ()),
        trigger is Manual ==> 0 <= at < old(tracker).manual@.len() && old(
            tracker,
        ).manual@[at].trigger@ == trigger@ && !old(tracker).manual@[at].started,
        trigger is Manual ==> forall|i: int|
            0 <= i < at ==> (#[trigger] old(tracker).manual@[i]).trigger@ != trigger@ || old(
                tracker,
            ).manual@[i].started,
    ensures
        !(trigger is Manual) ==> final(tracker).non_manual_started == Some(trigger)
            && final(tracker).manual@ == old(tracker).manual@,
        trigger is Manual ==> {
            &&& final(tracker).non_manual_started == old(tracker).non_manual_started
            &&& final(tracker).manual@.len() == old(tracker).manual@.len()
            &&& final(tracker).manual@[at].started
            &&& final(tracker).manual@[at].trigger == old(tracker).manual@[at].trigger
            &&& forall|i: int|
                0 <= i < old(tracker).manual@.len() && i != at ==> (final(tracker).manual@[i])
                    == #[trigger] old(tracker).manual@[i]
        },
{
    if trigger is Manual {
        let flights = old(tracker).manual@;
        crate::compaction::first_flight_is_first(flights, trigger@, true);
        let first = crate::compaction::first_flight(flights, trigger@, true);
        if first < at {
            assert(flights[first].trigger@ != trigger@ || flights[first].started);
        } else if at < first {
            assert(flights[at].trigger@ != trigger@ || flights[at].started);
        }
    }
}

/// While a runtime stops, compactions are still told as they come; every other event is handed
/// back, and changes nothing.
pub proof fn compactions_are_told_while_stopping(
    owner: &mut RuntimeOwner,
    event: AgentEvent,
    rest: Option<AgentEvent>,
)
    requires
        call_ensures(RuntimeOwner::handle_compaction_event, (owner, event), rest),
    ensures
        ({
            let compaction = event is CompactionStarted || event is Compacted || event
                is CompactionFailed;
            &&& rest is None <==> compaction
            &&& !compaction ==> rest == Some(event) && final(owner)@ == old(owner)@
        }),
        event matches AgentEvent::CompactionStarted { trigger } ==> adds(
            *old(owner),
            *final(owner),
            1,
        ) && publishes(
            *old(owner),
            added(*old(owner), *final(owner), 0),
            CodingRuntimeEvent::CompactionStarted { trigger },
        ),
        event matches AgentEvent::CompactionFailed { trigger, error } ==> adds(
            *old(owner),
            *final(owner),
            1,
        ) && publishes(
            *old(owner),
            added(*old(owner), *final(owner), 0),
            CodingRuntimeEvent::CompactionFinished {
                completion: CompactionCompletion::Failed { trigger, error },
            },
        ),
{
    if !(event is Compacted) {
        actions_are_kept(*old(owner), *final(owner));
        let n = old(owner).outbox@.len() as int;
        if final(owner).outbox@.len() > n {
            assert(final(owner)@.outbox[n] == final(owner).outbox@[n]@);
        }
    }
}

/// A compaction that ends while the runtime stops is told as it was reported; once it is
/// committed, the tokens in use are the estimate.
pub proof fn a_compaction_that_ends_while_stopping_is_told(
    owner: &mut RuntimeOwner,
    trigger: CompactTrigger,
    epoch: u64,
    removed: usize,
    bytes_before: usize,
    bytes_after: usize,
    committed: bool,
    snapshot: Option<Arc<SessionSnapshot>>,
    rest: Option<AgentEvent>,
)
    requires
        call_ensures(
            RuntimeOwner::handle_compaction_event,
            (
                owner,
                AgentEvent::Compacted {
                    trigger,
                    epoch,
                    removed,
                    bytes_before,
                    bytes_after,
                    committed,
                    snapshot,
                },
            ),
            rest,
        ),
    ensures
        ({
            let last = final(owner).outbox@.last();
            &&& final(owner).outbox@.len() == old(owner).outbox@.len() + 1
            &&& last matches OwnerAction::Emit {
                generation,
                event: CodingRuntimeEvent::CompactionFinished {
                    completion: CompactionCompletion::Completed(outcome),
                },
            } && generation == old(owner).generation && says_what_was_reported(
                outcome,
                trigger,
                epoch,
                removed,
                bytes_before,
                bytes_after,
                committed,
                old(owner).observed_tokens,
            ) && outcome.committed_snapshot == snapshot && (committed
                ==> final(owner).observed_tokens == Some(outcome.estimated_tokens_after))
        }),
        !committed ==> final(owner).observed_tokens == old(owner).observed_tokens,
        final(owner).conversation_revision == old(owner).conversation_revision,
        !(trigger is Manual) ==> final(owner).compactions.non_manual_started is None,
        final(owner).active_turn == old(owner).active_turn && final(owner).phase == old(
            owner,
        ).phase,
{
    let m = final(owner)@.outbox.len() as int;
    assert(m == final(owner).outbox@.len());
    assert(old(owner)@.outbox.len() == old(owner).outbox@.len());
    estimates_fit(
        crate::compaction::tokens_before(old(owner).observed_tokens, bytes_before),
        bytes_before,
        bytes_after,
    );
    assert(final(owner)@.outbox[m - 1] == final(owner).outbox@[m - 1]@);
}

} // verus!
