//! Every compaction reaches exactly one terminal: it is refused at once, or it stays in
//! flight until the agent reports its end or the agent is stopped.
use super::{interrupted, ActionView, OwnerView};
use crate::compaction::{
    first_flight_is_first, CompactTrigger, CompactionCompletion, CompactionInterruption,
    TrackerView, TriggerView,
};
use crate::event::{AgentEvent, CodingRuntimeEvent, EventView};
use vstd::prelude::*;

verus! {

/// What set off the compaction that the action reports as ended, if it reports one.
pub open spec fn ended_by(action: ActionView) -> Option<TriggerView> {
    match action {
        ActionView::Emit {
            generation,
            event: EventView::Plain(CodingRuntimeEvent::CompactionFinished { completion }),
        } => Some(
            match completion {
                CompactionCompletion::Completed(outcome) => outcome.trigger@,
                CompactionCompletion::Failed { trigger, error } => trigger@,
                CompactionCompletion::Interrupted { trigger, reason } => trigger@,
            },
        ),
        _ => None,
    }
}

/// What set off the compactions that the actions report as ended, in order.
pub open spec fn ended_compactions(actions: Seq<ActionView>) -> Seq<TriggerView>
    decreases actions.len(),
{
    if actions.len() == 0 {
        Seq::empty()
    } else {
        let earlier = ended_compactions(actions.drop_last());
        match ended_by(actions.last()) {
            Some(trigger) => earlier.push(trigger),
            None => earlier,
        }
    }
}

/// The step reports the ends of the compactions, and of no other.
pub open spec fn ends(before: OwnerView, after: OwnerView, triggers: Seq<TriggerView>) -> bool {
    &&& before.outbox.len() <= after.outbox.len()
    &&& after.outbox.take(before.outbox.len() as int) == before.outbox
    &&& ended_compactions(after.outbox.skip(before.outbox.len() as int)) == triggers
}

proof fn one_action(before: OwnerView, after: OwnerView, action: ActionView)
    requires
        after.outbox == before.outbox.push(action),
    ensures
        ends(
            before,
            after,
            match ended_by(action) {
                Some(trigger) => seq![trigger],
                None => Seq::empty(),
            },
        ),
{
    let n = before.outbox.len() as int;
    let added = after.outbox.skip(n);
    assert(after.outbox.take(n) =~= before.outbox);
    assert(added =~= seq![action]);
    assert(added.drop_last() =~= Seq::empty());
    assert(ended_compactions(added.drop_last()) =~= Seq::empty());
    match ended_by(action) {
        Some(trigger) => assert(Seq::<TriggerView>::empty().push(trigger) =~= seq![trigger]),
        None => {},
    }
}

/// A compaction that the user asks for ends at once, or it is in flight from then on; never
/// both.
pub proof fn a_compaction_ends_or_is_in_flight(
    s: OwnerView,
    generation: u64,
    focus: Option<String>,
)
    ensures
        ({
            let trigger = CompactTrigger::Manual { focus };
            let after = s.compact_asked(generation, focus);
            ||| ends(s, after, seq![trigger@]) && after.compactions == s.compactions
            ||| ends(s, after, Seq::empty()) && after.compactions == s.compactions.accept(trigger)
        }),
{
    let trigger = CompactTrigger::Manual { focus };
    let after = s.compact_asked(generation, focus);
    one_action(s, after, after.outbox.last());
    assert(after.outbox =~= s.outbox.push(after.outbox.last()));
}

/// When the agent reports the end of a compaction, that end is told once, and one
/// compaction with that trigger is no longer in flight; the report of a start tells no end.
pub proof fn a_terminal_ends_one_compaction(s: OwnerView, event: AgentEvent)
    ensures
        ({
            let after = s.compaction_event(event);
            let open = s.compactions.open_triggers();
            let left = after.compactions.open_triggers();
            match event {
                AgentEvent::Compacted {
                    trigger,
                    epoch,
                    removed,
                    bytes_before,
                    bytes_after,
                    committed,
                    snapshot,
                } => {
                    &&& ends(s, after, seq![trigger@])
                    &&& s.compactions.tracks(trigger) ==> left.len() == open.len() - 1
                    &&& !s.compactions.tracks(trigger) ==> left == open
                },
                AgentEvent::CompactionFailed { trigger, error } => {
                    &&& ends(s, after, seq![trigger@])
                    &&& s.compactions.tracks(trigger) ==> left.len() == open.len() - 1
                    &&& !s.compactions.tracks(trigger) ==> left == open
                },
                _ => ends(s, after, Seq::empty()),
            }
        }),
{
    let after = s.compaction_event(event);
    match event {
        AgentEvent::Compacted { trigger, .. } => {
            one_action(s, after, after.outbox.last());
            finish_leaves(s.compactions, trigger);
        },
        AgentEvent::CompactionFailed { trigger, .. } => {
            one_action(s, after, after.outbox.last());
            finish_leaves(s.compactions, trigger);
        },
        AgentEvent::CompactionStarted { .. } => {
            one_action(s, after, after.outbox.last());
        },
        _ => {
            let n = s.outbox.len() as int;
            assert(after.outbox.take(n) =~= s.outbox);
            assert(after.outbox.skip(n) =~= Seq::empty());
        },
    }
}

proof fn finish_leaves(tracker: TrackerView, trigger: CompactTrigger)
    ensures
        tracker.tracks(trigger) ==> tracker.finish(trigger).open_triggers().len()
            == tracker.open_triggers().len() - 1,
        !tracker.tracks(trigger) ==> tracker.finish(trigger) == tracker,
{
    first_flight_is_first(tracker.manual, trigger@, false);
}

/// When the agent is stopped, the end of every compaction in flight is told once, and none
/// is in flight afterwards.
pub proof fn an_interruption_ends_every_compaction(s: OwnerView, reason: CompactionInterruption)
    ensures
        ends(
            s,
            s.interrupt_all(reason),
            s.compactions.open_triggers().map_values(|trigger: CompactTrigger| trigger@),
        ),
        s.interrupt_all(reason).compactions.open_triggers().len() == 0,
{
    let after = s.interrupt_all(reason);
    let n = s.outbox.len() as int;
    let told = s.interruptions(reason);
    assert(after.outbox.take(n) =~= s.outbox);
    assert(after.outbox.skip(n) =~= told);
    interruptions_end(s.generation, s.compactions.open_triggers(), reason);
    assert(told =~= s.compactions.open_triggers().map_values(
        |trigger: CompactTrigger| interrupted(s.generation, trigger, reason),
    ));
}

proof fn interruptions_end(
    generation: u64,
    open: Seq<CompactTrigger>,
    reason: CompactionInterruption,
)
    ensures
        ended_compactions(
            open.map_values(|trigger: CompactTrigger| interrupted(generation, trigger, reason)),
        ) == open.map_values(|trigger: CompactTrigger| trigger@),
    decreases open.len(),
{
    let told = open.map_values(|trigger: CompactTrigger| interrupted(generation, trigger, reason));
    let views = open.map_values(|trigger: CompactTrigger| trigger@);
    if open.len() > 0 {
        let fewer = open.drop_last();
        interruptions_end(generation, fewer, reason);
        assert(told.drop_last() =~= fewer.map_values(
            |trigger: CompactTrigger| interrupted(generation, trigger, reason),
        ));
        assert(views =~= fewer.map_values(|trigger: CompactTrigger| trigger@).push(
            open.last()@,
        ));
    } else {
        assert(views =~= Seq::empty());
        assert(told =~= Seq::empty());
    }
}

} // verus!
