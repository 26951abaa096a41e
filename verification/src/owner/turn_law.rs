//! Every turn in progress gets exactly one terminal, over any course of the operations that
//! begin, end or hold back turns.
use super::events::EventFacts;
use super::goals::EvalOutcome;
use super::laws::{
    close_then_hush, closes, compaction_accounts, continued_goal_accounts,
    continued_loop_accounts, evaluation_failure_closes, exhausted_loop_closes,
    goal_decision_closes, halted_turn_accounts, hush_abandoned, hush_answers, hush_chain,
    hush_controllers, hush_offer, hush_push, hush_same, hush_then_close, hushed,
    only_the_turn_in_progress_is_held, released_turn_closes, replaced_controllers_account,
    reports, reports_added, reports_chain, silent, snapshot_accounts, turn_complete_accounts,
};
use super::reconfigure::Rollback;
use super::stopping::{
    answers_finish_no_turn, is_compaction_event, turn_report_finishes, StopReport,
};
use super::{
    bump, denial, finished_turns, finished_turns_of_sum, interrupted, ActionView, AnswerView,
    HeldTurn, OwnerView,
};
use crate::compaction::{CompactTrigger, CompactionInterruption};
use crate::controllers::{GoalResult, GoalTerminal, WakeupRequest};
use crate::conversation::SessionSnapshot;
use crate::event::{
    AgentCommand, AgentEvent, CommandView, ImageContent, ReconfigureKind, RequestId, StopReason,
    VisionNotice,
};
use crate::phase::RuntimePhase;
use std::sync::Arc;
use vstd::prelude::*;

verus! {

/// What can happen to a turn. The operations of the owner that begin, end or hold back turns,
/// or take an agent away, are steps of their own; every other operation is a course of
/// adjustments and actions, or of these and the named ones.
pub enum TurnStep {
    /// Anything changes but the turn in progress, the turn held back, the number of turns and
    /// the actions.
    Adjusted(OwnerView),
    /// Something is to be done that reports no turn as finished.
    Acted(ActionView),
    /// The agent reports something.
    Event { event: AgentEvent, facts: EventFacts },
    /// A driver hands in a turn, or adds to the one in progress. `open` says whether the agent
    /// takes commands once the turn is prepared.
    Submitted {
        generation: u64,
        text: Seq<char>,
        images: Seq<ImageContent>,
        notice: Option<VisionNotice>,
        open: bool,
    },
    /// A prompt that a crash cut off is sent again.
    Replayed { text: Seq<char>, images: Seq<ImageContent> },
    /// The user asks for a compaction.
    CompactionAsked { generation: u64, focus: Option<String> },
    /// The goal was evaluated.
    Evaluated(EvalOutcome),
    /// The delay of the loop is over.
    Fired { generation: u64, controller_id: u64, wakeup: WakeupRequest, at_limit: bool },
    /// The agent asks to be woken up.
    Wakeup(WakeupRequest),
    /// The user cancels.
    Cancelled { generation: u64 },
    /// The user clears the goal.
    GoalCleared { generation: u64 },
    /// The user clears the loop.
    LoopCleared { generation: u64 },
    /// The user asks for a goal.
    GoalAsked { generation: u64, condition: Seq<char> },
    /// The user asks for a loop.
    LoopAsked { generation: u64, prompt: Seq<char> },
    /// The controllers give way.
    ControllersEnded { phase: RuntimePhase, detail: Seq<char> },
    /// The agent is asked to stop.
    StopAsked { turn_down: bool },
    /// What the agent still had to say has come in.
    Drained { events: Seq<AgentEvent>, reason: CompactionInterruption },
    /// The agent was stopped for a replacement.
    StopSettled { report: StopReport, stored: Option<Arc<SessionSnapshot>> },
    /// The agent was stopped for an undo.
    UndoSettled { report: StopReport, stored: Option<Arc<SessionSnapshot>> },
    /// The agent was stopped and none takes its place.
    AgentStopped { report: StopReport, stored: Option<Arc<SessionSnapshot>> },
    /// The agent was stopped and another takes its place.
    Replaced { report: StopReport, stored: Option<Arc<SessionSnapshot>>, resume: bool },
    /// A new agent of a new generation is in place.
    Adopted,
    /// The agent was stopped for a shutdown.
    ShutDown { report: StopReport, stored: Option<Arc<SessionSnapshot>> },
    /// The owner's loop has ended.
    Exiting { shutdown_handled: bool },
    /// The agent of an owner that ended was stopped.
    Exited { report: StopReport, stored: Option<Arc<SessionSnapshot>> },
    /// The agent went away.
    Closed,
}

impl OwnerView {
    /// The state with everything of the other that is not about turns.
    pub open spec fn adjusted(self, state: OwnerView) -> OwnerView {
        OwnerView {
            active_turn: self.active_turn,
            held_turn: self.held_turn,
            next_turn_id: self.next_turn_id,
            outbox: self.outbox,
            ..state
        }
    }

    /// A turn is prepared and handed over.
    pub open spec fn turn_submitted(
        self,
        generation: u64,
        text: Seq<char>,
        images: Seq<ImageContent>,
        notice: Option<VisionNotice>,
        open: bool,
    ) -> OwnerView {
        if self.submit_refusal(generation) is Some {
            self
        } else {
            (OwnerView { agent_open: open, ..self.submitted() }).handed_over(
                self.submit_receipt(),
                text,
                images,
                notice,
            )
        }
    }

    #[verifier::opaque]
    pub open spec fn take_step(self, step: TurnStep) -> OwnerView {
        match step {
            TurnStep::Adjusted(state) => self.adjusted(state),
            TurnStep::Acted(action) => if silent(action) {
                self.act(action)
            } else {
                self
            },
            TurnStep::Event { event, facts } => self.on_event(event, facts),
            TurnStep::Submitted { generation, text, images, notice, open } => self.turn_submitted(
                generation,
                text,
                images,
                notice,
                open,
            ),
            TurnStep::Replayed { text, images } => self.prompt_replayed(text, images),
            TurnStep::CompactionAsked { generation, focus } => self.compact_asked(
                generation,
                focus,
            ),
            TurnStep::Evaluated(outcome) => self.goal_evaluated(outcome),
            TurnStep::Fired { generation, controller_id, wakeup, at_limit } => self.loop_fired(
                generation,
                controller_id,
                wakeup,
                at_limit,
            ),
            TurnStep::Wakeup(wakeup) => self.wakeup_asked(wakeup),
            TurnStep::Cancelled { generation } => self.cancel_asked(generation),
            TurnStep::GoalCleared { generation } => self.goal_cleared(generation),
            TurnStep::LoopCleared { generation } => self.loop_cleared(generation),
            TurnStep::GoalAsked { generation, condition } => self.goal_asked(
                generation,
                condition,
            ),
            TurnStep::LoopAsked { generation, prompt } => self.loop_asked(generation, prompt),
            TurnStep::ControllersEnded { phase, detail } => self.cancel_controllers(phase, detail),
            TurnStep::StopAsked { turn_down } => self.ask_to_stop(turn_down),
            TurnStep::Drained { events, reason } => self.agent_drained(events, reason),
            TurnStep::StopSettled { report, stored } => self.stop_settled(report, stored),
            TurnStep::UndoSettled { report, stored } => self.doubted(report, stored),
            TurnStep::AgentStopped { report, stored } => self.agent_gone(report, stored),
            TurnStep::Replaced { report, stored, resume } => self.replacement_settled(
                report,
                stored,
                resume,
            ),
            TurnStep::Adopted => self.adopted(),
            TurnStep::ShutDown { report, stored } => self.stopped_for_good(report, stored),
            TurnStep::Exiting { shutdown_handled } => self.exiting(shutdown_handled),
            TurnStep::Exited { report, stored } => self.stopped_for_good(report, stored).in_phase(
                RuntimePhase::Stopped,
            ),
            TurnStep::Closed => self.agent_closed(),
        }
    }

    /// The state after the steps, one by one.
    pub open spec fn take_steps(self, steps: Seq<TurnStep>) -> OwnerView
        decreases steps.len(),
    {
        if steps.len() == 0 {
            self
        } else {
            self.take_steps(steps.drop_last()).take_step(steps.last())
        }
    }
}

/// A turn begins: the next one, where none was in progress.
pub open spec fn begins(before: OwnerView, after: OwnerView) -> bool {
    &&& reports(before, after, Seq::empty())
    &&& before.active_turn is None
    &&& after.active_turn == Some(bump(before.next_turn_id))
    &&& after.next_turn_id == bump(before.next_turn_id)
}

/// The step keeps what is in progress and reports nothing, or it ends the turn and reports
/// exactly it, or it begins one. Where no turn is in progress, the turn that an agent ended by
/// itself goes by the number zero.
#[verifier::opaque]
pub open spec fn settles(before: OwnerView, after: OwnerView) -> bool {
    &&& after.held_linked()
    &&& {
        ||| hushed(before, after) && (after.next_turn_id == before.next_turn_id
            || after.next_turn_id == bump(before.next_turn_id))
        ||| closes(before, after, before.turn_of()) && after.next_turn_id == before.next_turn_id
        ||| begins(before, after)
    }
}

proof fn events_settle(s: OwnerView, event: AgentEvent, facts: EventFacts)
    requires
        s.held_linked(),
    ensures
        settles(s, s.on_event(event, facts)),
{
    reveal(settles);
    let after = s.on_event(event, facts);
    only_the_turn_in_progress_is_held(s, event, facts);
    events_number_no_turn(s, event, facts);
    if is_compaction_event(event) {
        compaction_accounts(s, event, facts);
    } else if !s.native {
        hush_same(s, after);
    } else {
        match event {
            AgentEvent::TurnComplete { reason } => turn_complete_accounts(s, reason, facts),
            AgentEvent::Snapshot { snapshot } => snapshot_accounts(s, snapshot, facts),
            _ => hush_push(s, after, after.outbox.last()),
        }
    }
}

proof fn events_number_no_turn(s: OwnerView, event: AgentEvent, facts: EventFacts)
    ensures
        s.on_event(event, facts).next_turn_id == s.next_turn_id,
{
    if is_compaction_event(event) {
        reveal(OwnerView::compaction_doubted);
    } else if s.native {
        match event {
            AgentEvent::TurnComplete { reason } => {
                reveal(OwnerView::turn_doubted);
                reveal(OwnerView::unsealed);
            },
            AgentEvent::Snapshot { snapshot } => {
                if s.terminal_reason is Some {
                    let done = s.sealed_turn(snapshot);
                    let named = s.snapshot_taken(snapshot, facts.stored).sealed().named(
                        done,
                        facts.naming_enabled,
                    );
                    disposals_number_no_turn(named, done, facts);
                }
            },
            _ => {},
        }
    }
}

proof fn disposals_number_no_turn(s: OwnerView, done: HeldTurn, facts: EventFacts)
    ensures
        s.turn_disposed(done, facts).next_turn_id == s.next_turn_id,
{
    reveal(OwnerView::turn_disposed);
    reveal(OwnerView::goal_capped);
    reveal(OwnerView::goal_held);
    reveal(OwnerView::goal_retried);
    reveal(OwnerView::goal_dropped);
    reveal(OwnerView::loop_turn);
}

proof fn submitting_settles(
    s: OwnerView,
    generation: u64,
    text: Seq<char>,
    images: Seq<ImageContent>,
    notice: Option<VisionNotice>,
    open: bool,
)
    requires
        s.held_linked(),
    ensures
        settles(s, s.turn_submitted(generation, text, images, notice, open)),
{
    reveal(settles);
    let after = s.turn_submitted(generation, text, images, notice, open);
    if s.submit_refusal(generation) is Some {
        hush_same(s, after);
    } else {
        let begun = OwnerView { agent_open: open, ..s.submitted() };
        let report = super::controls::vision_report(begun.generation, notice);
        let told = begun.act_all(report);
        let base = OwnerView { active_turn: begun.active_turn, ..s };
        vision_reports_finish_no_turn(begun.generation, notice);
        reports_added(base, told, report);
        if begun.deliverable() {
            let action = ActionView::Send(CommandView::SendMessage { text, images });
            hush_push(told, after, action);
            hush_chain(base, told, after);
        } else {
            reports_added(s, after, report);
        }
    }
}

proof fn vision_reports_finish_no_turn(generation: u64, notice: Option<VisionNotice>)
    ensures
        finished_turns(super::controls::vision_report(generation, notice)) == Seq::<u64>::empty(),
{
    reveal_with_fuel(finished_turns, 2);
    let report = super::controls::vision_report(generation, notice);
    if report.len() > 0 {
        assert(report.drop_last() =~= Seq::empty());
    }
    assert(finished_turns(report) =~= Seq::empty());
}

proof fn replaying_settles(s: OwnerView, text: Seq<char>, images: Seq<ImageContent>)
    requires
        s.held_linked(),
    ensures
        settles(s, s.prompt_replayed(text, images)),
{
    reveal(settles);
    let after = s.prompt_replayed(text, images);
    if s.deliverable() {
        let base = OwnerView { active_turn: after.active_turn, ..s };
        hush_push(base, after, after.outbox.last());
    } else {
        hush_same(s, after);
    }
}

proof fn evaluations_settle(s: OwnerView, outcome: EvalOutcome)
    requires
        s.held_linked(),
    ensures
        settles(s, s.goal_evaluated(outcome)),
{
    reveal(settles);
    let after = s.goal_evaluated(outcome);
    if s.awaits_evaluation(outcome.generation, outcome.controller_id) {
        let rest = OwnerView { goal: None, ..s };
        let goal = s.goal->0.charge(super::goals::evaluation_cost(outcome.usage));
        hush_same(s, rest);
        reveal(OwnerView::goal_decided);
        reveal(OwnerView::evaluation_failed);
        reveal(OwnerView::goal_continues);
        match outcome.result {
            GoalResult::Met(verdict) => {
                goal_decision_closes(
                    rest,
                    goal.finish(GoalTerminal::Met, verdict@),
                    StopReason::Stopped,
                );
                hush_then_close(s, rest, after, s.turn_of());
            },
            GoalResult::NotMet(verdict) => {
                continued_goal_accounts(rest, goal, verdict@);
                if hushed(rest, after) {
                    hush_chain(s, rest, after);
                } else {
                    hush_then_close(s, rest, after, s.turn_of());
                }
            },
            GoalResult::Error(error) => {
                evaluation_failure_closes(rest, goal, error@);
                hush_then_close(s, rest, after, s.turn_of());
            },
        }
    } else {
        hush_same(s, after);
    }
}

proof fn wakeups_settle(
    s: OwnerView,
    generation: u64,
    controller_id: u64,
    wakeup: WakeupRequest,
    at_limit: bool,
)
    requires
        s.held_linked(),
    ensures
        settles(s, s.loop_fired(generation, controller_id, wakeup, at_limit)),
{
    reveal(settles);
    let after = s.loop_fired(generation, controller_id, wakeup, at_limit);
    if !s.awaits_wakeup(generation, controller_id) {
        hush_same(s, after);
    } else if at_limit {
        exhausted_loop_closes(s);
        reveal(OwnerView::loop_exhausted);
    } else {
        let rest = OwnerView { loop_state: None, ..s };
        hush_same(s, rest);
        continued_loop_accounts(rest, s.loop_state->0, wakeup);
        reveal(OwnerView::loop_continues);
        if hushed(rest, after) {
            hush_chain(s, rest, after);
        } else {
            hush_then_close(s, rest, after, s.turn_of());
        }
    }
}

proof fn denials_finish_no_turn(ids: Seq<RequestId>)
    ensures
        finished_turns(ids.map_values(|id: RequestId| denial(id))) == Seq::<u64>::empty(),
    decreases ids.len(),
{
    let told = ids.map_values(|id: RequestId| denial(id));
    if ids.len() > 0 {
        denials_finish_no_turn(ids.drop_last());
        assert(told.drop_last() =~= ids.drop_last().map_values(|id: RequestId| denial(id)));
        assert(told.last() == denial(ids.last()));
    }
}

proof fn turned_down_requests_hush(s: OwnerView, cancel_turn: bool)
    ensures
        hushed(s, s.fail_close_pending(cancel_turn)),
{
    let after = s.fail_close_pending(cancel_turn);
    let denied = OwnerView { outbox: s.outbox + s.denials(), ..s };
    if s.deliverable() {
        denials_finish_no_turn(s.pending_requests);
    }
    assert(finished_turns(s.denials()) =~= Seq::empty());
    reports_added(s, denied, s.denials());
    if cancel_turn && s.deliverable() {
        hush_push(
            denied,
            after,
            ActionView::Send(CommandView::Plain(AgentCommand::Cancel)),
        );
    } else {
        assert(after.outbox =~= denied.outbox);
        hush_same(denied, after);
    }
    hush_chain(s, denied, after);
}

proof fn cancelling_settles(s: OwnerView, generation: u64)
    requires
        s.held_linked(),
    ensures
        settles(s, s.cancel_asked(generation)),
{
    reveal(settles);
    let after = s.cancel_asked(generation);
    let ended = s.end_controllers(GoalTerminal::Cancelled, "cancelled by user"@);
    if !s.serves(generation) {
        hush_same(s, after);
    } else if s.held_turn is Some {
        let released = ended.release_held(StopReason::Cancelled);
        hush_controllers(s, GoalTerminal::Cancelled, "cancelled by user"@);
        released_turn_closes(ended, StopReason::Cancelled);
        hush_then_close(s, ended, released, s.turn_of());
        hush_same(released, after);
        close_then_hush(s, released, after, s.turn_of());
    } else if s.active_turn is None {
        hush_same(s, after);
    } else {
        let denied = ended.fail_close_pending(true);
        hush_controllers(s, GoalTerminal::Cancelled, "cancelled by user"@);
        turned_down_requests_hush(ended, true);
        hush_chain(s, ended, denied);
        hush_same(denied, after);
        hush_chain(s, denied, after);
    }
}

proof fn clearing_settles(s: OwnerView, generation: u64)
    requires
        s.held_linked(),
    ensures
        settles(s, s.goal_cleared(generation)),
        settles(s, s.loop_cleared(generation)),
{
    reveal(settles);
    if !s.native || generation != s.generation {
        hush_same(s, s);
    } else {
        let note = "cleared by user"@;
        let no_goal = s.end_goal(GoalTerminal::Cancelled, note);
        let no_loop = OwnerView {
            loop_active: s.loop_active && !s.has_resources,
            pending_wakeup: None,
            ..s.end_loop(note)
        };
        hush_controllers(s, GoalTerminal::Cancelled, note);
        hush_same(s.end_loop(note), no_loop);
        hush_chain(s, s.end_loop(note), no_loop);
        halting_settles(s, no_goal);
        halting_settles(s, no_loop);
    }
}

proof fn halting_settles(s: OwnerView, cleared: OwnerView)
    requires
        s.held_linked(),
        hushed(s, cleared),
        cleared.held_turn == s.held_turn,
        cleared.next_turn_id == s.next_turn_id,
    ensures
        settles(s, cleared.halt_turn()),
{
    reveal(settles);
    let after = cleared.halt_turn();
    halted_turn_accounts(cleared);
    if s.held_turn is Some {
        hush_then_close(s, cleared, after, s.turn_of());
    } else {
        hush_chain(s, cleared, after);
    }
}

proof fn replacing_settles(s: OwnerView, phase: RuntimePhase, detail: Seq<char>)
    requires
        s.held_linked(),
    ensures
        settles(s, s.cancel_controllers(phase, detail)),
{
    reveal(settles);
    replaced_controllers_account(s, phase, detail);
}

proof fn starting_settles(s: OwnerView, generation: u64, text: Seq<char>)
    requires
        s.held_linked(),
    ensures
        settles(s, s.goal_asked(generation, text)),
        settles(s, s.loop_asked(generation, text)),
{
    reveal(settles);
    if s.controller_refusal(generation) is Some {
        hush_same(s, s);
    } else {
        let by_goal = s.cancel_controllers(RuntimePhase::Ready, "superseded by /goal"@);
        let by_loop = s.cancel_controllers(RuntimePhase::Ready, "superseded by /loop"@);
        replaced_controllers_account(s, RuntimePhase::Ready, "superseded by /goal"@);
        replaced_controllers_account(s, RuntimePhase::Ready, "superseded by /loop"@);
        let goal = s.goal_started(text);
        let looped = s.loop_started(text);
        hush_push(by_goal, goal, goal.outbox.last());
        hush_push(by_loop, looped, looped.outbox.last());
        if s.held_turn is Some {
            close_then_hush(s, by_goal, goal, s.turn_of());
            close_then_hush(s, by_loop, looped, s.turn_of());
        } else {
            hush_chain(s, by_goal, goal);
            hush_chain(s, by_loop, looped);
        }
    }
}

proof fn asking_to_stop_hushes(s: OwnerView, turn_down: bool)
    ensures
        hushed(s, s.ask_to_stop(turn_down)),
{
    let shutdown = CommandView::Plain(AgentCommand::Shutdown);
    if turn_down {
        let denied = s.fail_close_pending(s.active_turn is Some);
        turned_down_requests_hush(s, s.active_turn is Some);
        hush_offer(denied, shutdown);
        hush_chain(s, denied, denied.offer(shutdown));
    } else {
        hush_offer(s, shutdown);
    }
}

proof fn draining_hushes(s: OwnerView, events: Seq<AgentEvent>, reason: CompactionInterruption)
    ensures
        hushed(s, s.agent_drained(events, reason)),
        s.agent_drained(events, reason).held_turn == s.held_turn,
        s.agent_drained(events, reason).next_turn_id == s.next_turn_id,
{
    let absorbed = s.absorb_all(events);
    let after = s.agent_drained(events, reason);
    absorbing_hushes(s, events);
    interruptions_finish_no_turn(
        absorbed.generation,
        absorbed.compactions.open_triggers(),
        reason,
    );
    reports_added(absorbed, after, absorbed.interruptions(reason));
    hush_chain(s, absorbed, after);
}

proof fn absorbing_hushes(s: OwnerView, events: Seq<AgentEvent>)
    ensures
        hushed(s, s.absorb_all(events)),
        s.absorb_all(events).held_turn == s.held_turn,
        s.absorb_all(events).next_turn_id == s.next_turn_id,
    decreases events.len(),
{
    if events.len() == 0 {
        hush_same(s, s);
    } else {
        let middle = s.absorb_all(events.drop_last());
        let after = s.absorb_all(events);
        absorbing_hushes(s, events.drop_last());
        if is_compaction_event(events.last()) {
            hush_push(middle, after, after.outbox.last());
        } else {
            hush_same(middle, after);
        }
        hush_chain(s, middle, after);
    }
}

proof fn interruptions_finish_no_turn(
    generation: u64,
    open: Seq<CompactTrigger>,
    reason: CompactionInterruption,
)
    ensures
        finished_turns(
            open.map_values(|trigger: CompactTrigger| interrupted(generation, trigger, reason)),
        ) == Seq::<u64>::empty(),
    decreases open.len(),
{
    let told = open.map_values(|trigger: CompactTrigger| interrupted(generation, trigger, reason));
    if open.len() > 0 {
        interruptions_finish_no_turn(generation, open.drop_last(), reason);
        assert(told.drop_last() =~= open.drop_last().map_values(
            |trigger: CompactTrigger| interrupted(generation, trigger, reason),
        ));
        assert(told.last() == interrupted(generation, open.last(), reason));
    }
}

/// After this the turn in progress is over and was reported, once.
spec fn ends_the_turn(before: OwnerView, after: OwnerView) -> bool {
    &&& after.active_turn is None && after.held_turn is None
    &&& after.next_turn_id == before.next_turn_id
    &&& if before.active_turn is Some {
        closes(before, after, before.turn_of())
    } else {
        hushed(before, after)
    }
}

proof fn finishing_ends_the_turn(
    s: OwnerView,
    report: StopReport,
    stored: Option<Arc<SessionSnapshot>>,
)
    ensures
        ends_the_turn(s, s.finish_stopped(report, stored)),
{
    reveal(OwnerView::settled);
    let after = s.finish_stopped(report, stored);
    let answer = s.stopped_answer(report, stored);
    let told = s.answers(answer);
    let ended = s.turn_report(s.stopped_completion(report, stored));
    answers_finish_no_turn(s.snapshot_waiters, answer);
    turn_report_finishes(s, s.stopped_completion(report, stored));
    finished_turns_of_sum(told, ended);
    assert(after.outbox =~= s.outbox + (told + ended));
    assert(finished_turns(told + ended) =~= finished_turns(ended));
    reports_added(s, after, told + ended);
}

proof fn failing_closed_ends_the_turn(
    s: OwnerView,
    report: StopReport,
    error: Seq<char>,
    stored: Option<Arc<SessionSnapshot>>,
)
    ensures
        ends_the_turn(s, s.fail_close_stopped(report, error, stored)),
{
    let note = "ended: session persistence became uncertain"@;
    let ended = s.finish_stopped(report, stored);
    let quiet = ended.end_controllers(GoalTerminal::Failed, note);
    let failed = (OwnerView { held_turn: None, ..quiet }).failed();
    let after = s.fail_close_stopped(report, error, stored);
    finishing_ends_the_turn(s, report, stored);
    hush_controllers(ended, GoalTerminal::Failed, note);
    hush_same(quiet, failed);
    hush_chain(ended, quiet, failed);
    hush_push(failed, after, after.outbox.last());
    hush_chain(ended, failed, after);
    if s.active_turn is Some {
        close_then_hush(s, ended, after, s.turn_of());
    } else {
        hush_chain(s, ended, after);
    }
}

proof fn doubting_settles(s: OwnerView, report: StopReport, stored: Option<Arc<SessionSnapshot>>)
    requires
        s.held_linked(),
    ensures
        report.persistence_failure is Some ==> ends_the_turn(s, s.doubted(report, stored)),
        settles(s, s.doubted(report, stored)),
{
    reveal(settles);
    match report.persistence_failure {
        Some(error) => {
            let closed = s.fail_close_stopped(report, error@, stored);
            let after = s.doubted(report, stored);
            failing_closed_ends_the_turn(s, report, error@, stored);
            hush_same(closed, after);
            if s.active_turn is Some {
                close_then_hush(s, closed, after, s.turn_of());
            } else {
                hush_chain(s, closed, after);
            }
        },
        None => hush_same(s, s),
    }
}

proof fn followed_quietly(s: OwnerView, middle: OwnerView, after: OwnerView)
    requires
        settles(s, middle),
        hushed(middle, after),
        after.held_turn == middle.held_turn,
        after.next_turn_id == middle.next_turn_id,
    ensures
        settles(s, after),
{
    reveal(settles);
    if hushed(s, middle) {
        hush_chain(s, middle, after);
    } else if closes(s, middle, s.turn_of()) {
        close_then_hush(s, middle, after, s.turn_of());
    } else {
        reports_chain(s, middle, after, Seq::empty(), Seq::empty());
        assert(Seq::<u64>::empty() + Seq::<u64>::empty() =~= Seq::empty());
    }
}

proof fn both_end_the_turn(a: OwnerView, b: OwnerView, c: OwnerView)
    requires
        ends_the_turn(a, b),
        ends_the_turn(b, c),
    ensures
        ends_the_turn(a, c),
{
    if a.active_turn is Some {
        close_then_hush(a, b, c, a.turn_of());
    } else {
        hush_chain(a, b, c);
    }
}

proof fn stopping_settles(s: OwnerView, report: StopReport, stored: Option<Arc<SessionSnapshot>>)
    ensures
        settles(s, s.stop_settled(report, stored)),
        s.stop_settled(report, stored).active_turn is None,
{
    reveal(settles);
    let ended = s.finish_stopped(report, stored);
    let after = s.stop_settled(report, stored);
    finishing_ends_the_turn(s, report, stored);
    match report.persistence_failure {
        Some(error) => {
            doubting_settles(ended, report, stored);
            both_end_the_turn(s, ended, after);
        },
        None => {
            if after.outbox == ended.outbox {
                hush_same(ended, after);
            } else {
                hush_push(ended, after, after.outbox.last());
            }
            followed_quietly(s, ended, after);
        },
    }
}

proof fn ending_for_good_settles(
    s: OwnerView,
    report: StopReport,
    stored: Option<Arc<SessionSnapshot>>,
)
    requires
        s.held_linked(),
    ensures
        settles(s, s.stopped_for_good(report, stored)),
        s.native ==> ends_the_turn(s, s.stopped_for_good(report, stored)),
{
    reveal(settles);
    let after = s.stopped_for_good(report, stored);
    let ended = if s.native {
        s.finish_stopped(report, stored)
    } else {
        s
    };
    hush_same(s, s);
    if s.native {
        finishing_ends_the_turn(s, report, stored);
    }
    match report.persistence_failure {
        Some(error) => {
            failing_closed_ends_the_turn(ended, report, error@, stored);
            if s.native {
                both_end_the_turn(s, ended, after);
            }
        },
        None => {},
    }
}

proof fn closing_settles(s: OwnerView)
    requires
        s.held_linked(),
    ensures
        settles(s, s.agent_closed()),
        s.native ==> ends_the_turn(s, s.agent_closed()),
{
    reveal(settles);
    if !s.native {
        hush_same(s, s);
    } else if s.active_turn is Some {
        super::laws::a_closed_stream_accounts_for_the_turn(s);
    } else {
        let answer = AnswerView::SnapshotUnavailable(super::events::stream_closed_text());
        let answered = s.answer_all(answer);
        let ended = answered.end_controllers(
            GoalTerminal::Failed,
            "ended: kernel event stream closed"@,
        );
        hush_answers(s, answer);
        hush_controllers(answered, GoalTerminal::Failed, "ended: kernel event stream closed"@);
        hush_chain(s, answered, ended);
        assert(s.stream_closed().outbox =~= ended.outbox);
        hush_same(ended, s.stream_closed());
        hush_chain(s, ended, s.stream_closed());
    }
}

proof fn exiting_hushes(s: OwnerView, shutdown_handled: bool)
    ensures
        hushed(s, s.exiting(shutdown_handled)),
        s.exiting(shutdown_handled).held_turn == s.held_turn,
        s.exiting(shutdown_handled).next_turn_id == s.next_turn_id,
{
    let answer = AnswerView::Refused(crate::error::RuntimeError::Unavailable);
    let stopped = s.in_phase(RuntimePhase::Stopped);
    let ended = stopped.answer_all(answer);
    let shutdown = CommandView::Plain(AgentCommand::Shutdown);
    hush_same(s, stopped);
    hush_answers(stopped, answer);
    hush_chain(s, stopped, ended);
    if !shutdown_handled {
        hush_offer(ended, shutdown);
        hush_chain(s, ended, ended.offer(shutdown));
    }
}

proof fn quiet_steps_settle(s: OwnerView, after: OwnerView)
    requires
        s.held_linked(),
        hushed(s, after),
        after.held_turn == s.held_turn,
        after.next_turn_id == s.next_turn_id,
    ensures
        settles(s, after),
{
    reveal(settles);
}

proof fn adjusting_settles(s: OwnerView, state: OwnerView)
    requires
        s.held_linked(),
    ensures
        settles(s, s.adjusted(state)),
{
    hush_same(s, s.adjusted(state));
    quiet_steps_settle(s, s.adjusted(state));
}

proof fn acting_settles(s: OwnerView, action: ActionView)
    requires
        s.held_linked(),
    ensures
        settles(s, s),
        silent(action) ==> settles(s, s.act(action)),
{
    hush_same(s, s);
    quiet_steps_settle(s, s);
    if silent(action) {
        hush_push(s, s.act(action), action);
        quiet_steps_settle(s, s.act(action));
    }
}

proof fn compaction_controls_settle(s: OwnerView, generation: u64, focus: Option<String>)
    requires
        s.held_linked(),
    ensures
        settles(s, s.compact_asked(generation, focus)),
{
    let after = s.compact_asked(generation, focus);
    hush_push(s, after, after.outbox.last());
    quiet_steps_settle(s, after);
}

proof fn wakeup_requests_settle(s: OwnerView, wakeup: WakeupRequest)
    requires
        s.held_linked(),
    ensures
        settles(s, s.wakeup_asked(wakeup)),
{
    let after = s.wakeup_asked(wakeup);
    if s.native && s.loop_runs() {
        hush_push(s, after, after.outbox.last());
    } else {
        hush_same(s, after);
    }
    quiet_steps_settle(s, after);
}

proof fn stopping_quietly_settles(
    s: OwnerView,
    turn_down: bool,
    events: Seq<AgentEvent>,
    reason: CompactionInterruption,
    shutdown_handled: bool,
)
    requires
        s.held_linked(),
    ensures
        settles(s, s.ask_to_stop(turn_down)),
        settles(s, s.agent_drained(events, reason)),
        settles(s, s.exiting(shutdown_handled)),
        settles(s, s.adopted()),
{
    asking_to_stop_hushes(s, turn_down);
    quiet_steps_settle(s, s.ask_to_stop(turn_down));
    draining_hushes(s, events, reason);
    quiet_steps_settle(s, s.agent_drained(events, reason));
    exiting_hushes(s, shutdown_handled);
    quiet_steps_settle(s, s.exiting(shutdown_handled));
    hush_same(s, s.adopted());
    quiet_steps_settle(s, s.adopted());
}

proof fn gone_agents_settle(
    s: OwnerView,
    report: StopReport,
    stored: Option<Arc<SessionSnapshot>>,
    resume: bool,
)
    requires
        s.held_linked(),
    ensures
        settles(s, s.agent_gone(report, stored)),
        settles(s, s.replacement_settled(report, stored, resume)),
{
    let doubted = s.doubted(report, stored);
    let gone = s.agent_gone(report, stored);
    let replaced = s.replacement_settled(report, stored, resume);
    doubting_settles(s, report, stored);
    hush_same(doubted, gone);
    followed_quietly(s, doubted, gone);
    if report.persistence_failure is None {
        hush_same(s, replaced);
        quiet_steps_settle(s, replaced);
    } else {
        hush_same(doubted, replaced);
        followed_quietly(s, doubted, replaced);
    }
}

proof fn exits_settle(s: OwnerView, report: StopReport, stored: Option<Arc<SessionSnapshot>>)
    requires
        s.held_linked(),
    ensures
        settles(s, s.stopped_for_good(report, stored).in_phase(RuntimePhase::Stopped)),
{
    let middle = s.stopped_for_good(report, stored);
    ending_for_good_settles(s, report, stored);
    hush_same(middle, middle.in_phase(RuntimePhase::Stopped));
    followed_quietly(s, middle, middle.in_phase(RuntimePhase::Stopped));
}

/// Whatever happens, a step keeps the turn in progress, ends it with one report, or begins
/// one where there was none; and no other turn is held back.
pub proof fn every_step_settles(s: OwnerView, step: TurnStep)
    requires
        s.held_linked(),
    ensures
        settles(s, s.take_step(step)),
{
    reveal(OwnerView::take_step);
    match step {
        TurnStep::Adjusted(state) => adjusting_settles(s, state),
        TurnStep::Acted(action) => acting_settles(s, action),
        TurnStep::Event { event, facts } => events_settle(s, event, facts),
        TurnStep::Submitted { generation, text, images, notice, open } => submitting_settles(
            s,
            generation,
            text,
            images,
            notice,
            open,
        ),
        TurnStep::Replayed { text, images } => replaying_settles(s, text, images),
        TurnStep::CompactionAsked { generation, focus } => compaction_controls_settle(
            s,
            generation,
            focus,
        ),
        TurnStep::Evaluated(outcome) => evaluations_settle(s, outcome),
        TurnStep::Fired { generation, controller_id, wakeup, at_limit } => wakeups_settle(
            s,
            generation,
            controller_id,
            wakeup,
            at_limit,
        ),
        TurnStep::Wakeup(wakeup) => wakeup_requests_settle(s, wakeup),
        TurnStep::Cancelled { generation } => cancelling_settles(s, generation),
        TurnStep::GoalCleared { generation } => clearing_settles(s, generation),
        TurnStep::LoopCleared { generation } => clearing_settles(s, generation),
        TurnStep::GoalAsked { generation, condition } => starting_settles(
            s,
            generation,
            condition,
        ),
        TurnStep::LoopAsked { generation, prompt } => starting_settles(s, generation, prompt),
        TurnStep::ControllersEnded { phase, detail } => replacing_settles(s, phase, detail),
        TurnStep::StopAsked { turn_down } => stopping_quietly_settles(
            s,
            turn_down,
            Seq::empty(),
            CompactionInterruption::RuntimeShutdown,
            true,
        ),
        TurnStep::Drained { events, reason } => stopping_quietly_settles(
            s,
            true,
            events,
            reason,
            true,
        ),
        TurnStep::StopSettled { report, stored } => stopping_settles(s, report, stored),
        TurnStep::UndoSettled { report, stored } => doubting_settles(s, report, stored),
        TurnStep::AgentStopped { report, stored } => gone_agents_settle(s, report, stored, true),
        TurnStep::Replaced { report, stored, resume } => gone_agents_settle(
            s,
            report,
            stored,
            resume,
        ),
        TurnStep::Adopted => stopping_quietly_settles(
            s,
            true,
            Seq::empty(),
            CompactionInterruption::RuntimeShutdown,
            true,
        ),
        TurnStep::ShutDown { report, stored } => ending_for_good_settles(s, report, stored),
        TurnStep::Exiting { shutdown_handled } => stopping_quietly_settles(
            s,
            true,
            Seq::empty(),
            CompactionInterruption::RuntimeShutdown,
            shutdown_handled,
        ),
        TurnStep::Exited { report, stored } => exits_settle(s, report, stored),
        TurnStep::Closed => closing_settles(s),
    }
}

/// What the other operations are made of settles too: phases, failures, closing for an
/// operation, going back, commands, answers and refusals.
pub proof fn other_operations_settle(
    s: OwnerView,
    phase: RuntimePhase,
    operation: ReconfigureKind,
    command: CommandView,
    answer: AnswerView,
    cancel_turn: bool,
)
    requires
        s.held_linked(),
    ensures
        settles(s, s.in_phase(phase)),
        settles(s, s.failed()),
        settles(s, s.closed_for(operation)),
        settles(s, s.offer(command)),
        settles(s, s.answer_all(answer)),
        settles(s, s.fail_close_pending(cancel_turn)),
        settles(s, s.abandoned()),
        settles(s, s.bereft()),
        settles(s, s.back()),
{
    hush_same(s, s.in_phase(phase));
    quiet_steps_settle(s, s.in_phase(phase));
    hush_same(s, s.failed());
    quiet_steps_settle(s, s.failed());
    let closed = s.closed_for(operation);
    hush_push(s, closed, closed.outbox.last());
    quiet_steps_settle(s, closed);
    hush_offer(s, command);
    quiet_steps_settle(s, s.offer(command));
    hush_answers(s, answer);
    quiet_steps_settle(s, s.answer_all(answer));
    turned_down_requests_hush(s, cancel_turn);
    quiet_steps_settle(s, s.fail_close_pending(cancel_turn));
    hush_abandoned(s);
    quiet_steps_settle(s, s.abandoned());
    hush_same(s, s.bereft());
    quiet_steps_settle(s, s.bereft());
    hush_same(s, s.back());
    quiet_steps_settle(s, s.back());
}

/// So does what is left of a replacement that failed.
pub proof fn failed_replacements_settle(
    s: OwnerView,
    rollback: Rollback,
    reason: Seq<char>,
    words: Seq<char>,
)
    requires
        s.held_linked(),
    ensures
        settles(s, s.rolled_back(rollback, words)),
        settles(s, s.fail_closed(reason, words)),
{
    let bereft = s.bereft();
    let doubted = OwnerView { persistence_failure: Some(reason), ..bereft };
    let closed = s.fail_closed(reason, words);
    hush_same(s, doubted);
    hush_push(doubted, closed, closed.outbox.last());
    hush_chain(s, doubted, closed);
    quiet_steps_settle(s, closed);
    let after = s.rolled_back(rollback, words);
    hush_same(s, bereft);
    hush_same(s, s.back());
    if rollback is Failed {
        hush_push(bereft, after, after.outbox.last());
        hush_chain(s, bereft, after);
    }
    quiet_steps_settle(s, after);
}

/// How often the turn is among the reported ones.
pub open spec fn times(turns: Seq<u64>, turn: u64) -> nat
    decreases turns.len(),
{
    if turns.len() == 0 {
        0
    } else {
        times(turns.drop_last(), turn) + if turns.last() == turn {
            1nat
        } else {
            0
        }
    }
}

proof fn times_of_sum(left: Seq<u64>, right: Seq<u64>, turn: u64)
    ensures
        times(left + right, turn) == times(left, turn) + times(right, turn),
    decreases right.len(),
{
    if right.len() == 0 {
        assert(left + right =~= left);
    } else {
        assert((left + right).drop_last() =~= left + right.drop_last());
        times_of_sum(left, right.drop_last(), turn);
    }
}

/// The turns that were reported as finished from the one state to the other.
pub open spec fn reported(before: OwnerView, after: OwnerView) -> Seq<u64> {
    finished_turns(after.outbox.skip(before.outbox.len() as int))
}

/// Every turn in progress gets exactly one terminal. After any course of steps the turn is
/// still in progress and was not reported as finished, or it is not in progress and was
/// reported exactly once; turns that came after it make no difference. The number of turns is
/// only bounded by what a turn number can hold.
pub proof fn every_turn_gets_one_terminal(s: OwnerView, steps: Seq<TurnStep>, turn: u64)
    requires
        s.active_turn == Some(turn),
        0 < turn <= s.next_turn_id,
        s.next_turn_id + steps.len() <= u64::MAX,
        s.held_linked(),
    ensures
        ({
            let after = s.take_steps(steps);
            &&& s.outbox.len() <= after.outbox.len()
            &&& after.outbox.take(s.outbox.len() as int) == s.outbox
            &&& times(reported(s, after), turn) == if after.active_turn == Some(turn) {
                0nat
            } else {
                1
            }
            &&& after.held_linked()
            &&& turn <= after.next_turn_id <= s.next_turn_id + steps.len()
        }),
    decreases steps.len(),
{
    if steps.len() == 0 {
        hush_same(s, s);
    } else {
        let middle = s.take_steps(steps.drop_last());
        let after = s.take_steps(steps);
        every_turn_gets_one_terminal(s, steps.drop_last(), turn);
        every_step_settles(middle, steps.last());
        settled_step_counts(middle, after, turn);
        reports_chain(s, middle, after, reported(s, middle), reported(middle, after));
        times_of_sum(reported(s, middle), reported(middle, after), turn);
    }
}

/// What one step adds to the count.
proof fn settled_step_counts(s: OwnerView, after: OwnerView, turn: u64)
    requires
        settles(s, after),
        0 < turn <= s.next_turn_id < u64::MAX,
    ensures
        reports(s, after, reported(s, after)),
        after.held_linked(),
        s.next_turn_id <= after.next_turn_id <= s.next_turn_id + 1,
        times(reported(s, after), turn) == if s.active_turn == Some(turn) && after.active_turn
            != Some(turn) {
            1nat
        } else {
            0
        },
        after.active_turn == Some(turn) ==> s.active_turn == Some(turn),
{
    reveal(settles);
    reveal_with_fuel(times, 2);
    if closes(s, after, s.turn_of()) {
        let told = seq![s.turn_of()];
        assert(told.drop_last() =~= Seq::empty());
        assert(told.last() == s.turn_of());
    }
}

/// A shutdown ends with the runtime stopped.
pub proof fn a_shutdown_ends_stopped(
    s: OwnerView,
    report: StopReport,
    stored: Option<Arc<SessionSnapshot>>,
)
    ensures
        s.stopped_for_good(report, stored).exiting(true).phase == RuntimePhase::Stopped,
        s.stopped_for_good(report, stored).in_phase(RuntimePhase::Stopped).phase
            == RuntimePhase::Stopped,
{
}

/// By the time the runtime is stopped, whether by a shutdown or by itself, no turn is in
/// progress: every one was reported.
pub proof fn no_turn_outlives_the_runtime(
    s: OwnerView,
    report: StopReport,
    stored: Option<Arc<SessionSnapshot>>,
)
    requires
        s.native,
        s.held_linked(),
    ensures
        s.stopped_for_good(report, stored).active_turn is None,
        s.agent_closed().active_turn is None,
{
    ending_for_good_settles(s, report, stored);
    closing_settles(s);
}

} // verus!
