//! A runtime is ready only with a provider, and the other things that every operation keeps.
use super::goals::EvalOutcome;
use super::laws::events_keep_the_owner_well_formed;
use super::stopping::{absorbing_keeps_the_owner_well_formed, StopReport};
use super::turn_law::TurnStep;
use super::OwnerView;
use crate::compaction::CompactionInterruption;
use crate::controllers::{GoalResult, WakeupRequest};
use crate::conversation::SessionSnapshot;
use crate::event::{AgentEvent, ImageContent, VisionNotice};
use crate::phase::{ProviderUnavailableReason, RuntimePhase};
use std::sync::Arc;
use vstd::prelude::*;

verus! {

proof fn submitting_keeps(
    s: OwnerView,
    generation: u64,
    text: Seq<char>,
    images: Seq<ImageContent>,
    notice: Option<VisionNotice>,
    open: bool,
)
    requires
        s.wf(),
    ensures
        s.turn_submitted(generation, text, images, notice, open).wf(),
        s.prompt_replayed(text, images).wf(),
{
}

proof fn evaluating_keeps(s: OwnerView, outcome: EvalOutcome)
    requires
        s.wf(),
    ensures
        s.goal_evaluated(outcome).wf(),
{
    reveal(OwnerView::goal_decided);
    reveal(OwnerView::evaluation_failed);
    reveal(OwnerView::goal_continues);
    match outcome.result {
        GoalResult::Met(_) => {},
        GoalResult::NotMet(_) => {},
        GoalResult::Error(_) => {},
    }
}

proof fn firing_keeps(
    s: OwnerView,
    generation: u64,
    controller_id: u64,
    wakeup: WakeupRequest,
    at_limit: bool,
)
    requires
        s.wf(),
    ensures
        s.loop_fired(generation, controller_id, wakeup, at_limit).wf(),
        s.wakeup_asked(wakeup).wf(),
{
    reveal(OwnerView::loop_continues);
    reveal(OwnerView::loop_exhausted);
}

proof fn cancelling_keeps(s: OwnerView, generation: u64)
    requires
        s.wf(),
    ensures
        s.cancel_asked(generation).wf(),
        s.goal_cleared(generation).wf(),
        s.loop_cleared(generation).wf(),
{
}

proof fn starting_keeps(s: OwnerView, generation: u64, text: Seq<char>)
    requires
        s.wf(),
    ensures
        s.goal_asked(generation, text).wf(),
        s.loop_asked(generation, text).wf(),
{
}

proof fn stopping_keeps(s: OwnerView, report: StopReport, stored: Option<Arc<SessionSnapshot>>)
    requires
        s.wf(),
    ensures
        s.finish_stopped(report, stored).wf(),
        s.doubted(report, stored).wf(),
{
    reveal(OwnerView::settled);
}

proof fn settling_keeps(
    s: OwnerView,
    report: StopReport,
    stored: Option<Arc<SessionSnapshot>>,
    resume: bool,
)
    requires
        s.wf(),
    ensures
        s.stop_settled(report, stored).wf(),
        s.agent_gone(report, stored).wf(),
        s.replacement_settled(report, stored, resume).wf(),
{
    stopping_keeps(s, report, stored);
    stopping_keeps(s.finish_stopped(report, stored), report, stored);
}

proof fn ending_keeps(
    s: OwnerView,
    report: StopReport,
    stored: Option<Arc<SessionSnapshot>>,
    shutdown_handled: bool,
)
    requires
        s.wf(),
    ensures
        s.stopped_for_good(report, stored).wf(),
        s.stopped_for_good(report, stored).in_phase(RuntimePhase::Stopped).wf(),
        s.exiting(shutdown_handled).wf(),
        s.agent_closed().wf(),
{
    stopping_keeps(s, report, stored);
    stopping_keeps(s.finish_stopped(report, stored), report, stored);
}

proof fn draining_keeps(
    s: OwnerView,
    events: Seq<AgentEvent>,
    reason: CompactionInterruption,
    turn_down: bool,
)
    requires
        s.wf(),
    ensures
        s.agent_drained(events, reason).wf(),
        s.ask_to_stop(turn_down).wf(),
        s.adopted().wf(),
{
    absorbing_keeps_the_owner_well_formed(s, events);
}

/// A runtime that is ready has a provider: no step leaves it ready with a reason why the
/// provider is unavailable. Neither does a step leave two controllers or requests out of
/// order.
pub proof fn a_ready_runtime_has_a_provider(s: OwnerView, step: TurnStep)
    requires
        s.wf(),
        step matches TurnStep::Adjusted(state) ==> state.wf(),
    ensures
        s.take_step(step).wf(),
        s.take_step(step).phase == RuntimePhase::Ready ==> s.take_step(
            step,
        ).provider_unavailable_reason is None,
{
    reveal(OwnerView::take_step);
    match step {
        TurnStep::Adjusted(state) => {},
        TurnStep::Acted(action) => {},
        TurnStep::Event { event, facts } => events_keep_the_owner_well_formed(s, event, facts),
        TurnStep::Submitted { generation, text, images, notice, open } => submitting_keeps(
            s,
            generation,
            text,
            images,
            notice,
            open,
        ),
        TurnStep::Replayed { text, images } => submitting_keeps(s, 0, text, images, None, true),
        TurnStep::CompactionAsked { generation, focus } => {},
        TurnStep::Evaluated(outcome) => evaluating_keeps(s, outcome),
        TurnStep::Fired { generation, controller_id, wakeup, at_limit } => firing_keeps(
            s,
            generation,
            controller_id,
            wakeup,
            at_limit,
        ),
        TurnStep::Wakeup(wakeup) => firing_keeps(s, 0, 0, wakeup, true),
        TurnStep::Cancelled { generation } => cancelling_keeps(s, generation),
        TurnStep::GoalCleared { generation } => cancelling_keeps(s, generation),
        TurnStep::LoopCleared { generation } => cancelling_keeps(s, generation),
        TurnStep::GoalAsked { generation, condition } => starting_keeps(s, generation, condition),
        TurnStep::LoopAsked { generation, prompt } => starting_keeps(s, generation, prompt),
        TurnStep::ControllersEnded { phase, detail } => {},
        TurnStep::StopAsked { turn_down } => draining_keeps(
            s,
            Seq::empty(),
            CompactionInterruption::RuntimeShutdown,
            turn_down,
        ),
        TurnStep::Drained { events, reason } => draining_keeps(s, events, reason, true),
        TurnStep::StopSettled { report, stored } => settling_keeps(s, report, stored, true),
        TurnStep::UndoSettled { report, stored } => stopping_keeps(s, report, stored),
        TurnStep::AgentStopped { report, stored } => settling_keeps(s, report, stored, true),
        TurnStep::Replaced { report, stored, resume } => settling_keeps(
            s,
            report,
            stored,
            resume,
        ),
        TurnStep::Adopted => draining_keeps(
            s,
            Seq::empty(),
            CompactionInterruption::RuntimeShutdown,
            true,
        ),
        TurnStep::ShutDown { report, stored } => ending_keeps(s, report, stored, true),
        TurnStep::Exiting { shutdown_handled } => ending_keeps(
            s,
            StopReport::none(),
            None,
            shutdown_handled,
        ),
        TurnStep::Exited { report, stored } => ending_keeps(s, report, stored, true),
        TurnStep::Closed => ending_keeps(s, StopReport::none(), None, true),
    }
}

/// A new agent takes the reason away: after a switch, an undo or a restored conversation
/// nothing says any more that the provider is unavailable.
pub proof fn a_new_agent_has_a_provider(s: OwnerView)
    ensures
        s.adopted().provider_unavailable_reason is None,
        s.adopted().agent_available,
{
}

/// A provider that goes away is named until one is back.
pub proof fn a_runtime_without_a_provider_is_not_ready(
    s: OwnerView,
    reason: ProviderUnavailableReason,
)
    requires
        s.provider_unavailable_reason == Some(reason),
    ensures
        s.in_phase(RuntimePhase::Ready).phase == RuntimePhase::AwaitingProvider,
{
}

} // verus!
