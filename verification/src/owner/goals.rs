//! Controllers at work: starting and stopping them, cancelling a turn, and what follows
//! from an evaluation or a wakeup.
use super::{bump, finished_turns, ActionView, OwnerAction, OwnerView, RuntimeOwner};
use crate::controllers::{
    GoalResult, GoalState, GoalTerminal, GoalView, LoopState, LoopView, WakeupRequest,
};
use crate::error::RuntimeError;
use crate::event::{
    AgentCommand, CodingRuntimeEvent, CommandView, EventView, ImageContent, RuntimeTurnStats,
    StopReason, TokenUsage,
};
use crate::phase::RuntimePhase;
use crate::text::join2;
use vstd::prelude::*;

verus! {

/// Outcome of a goal evaluation.
#[derive(Clone, Debug, PartialEq, Eq)]
pub struct EvalOutcome {
    pub generation: u64,
    pub controller_id: u64,
    pub result: GoalResult,
    pub usage: Option<TokenUsage>,
}

/// Tokens to charge for an evaluation.
pub open spec fn evaluation_cost(usage: Option<TokenUsage>) -> int {
    match usage {
        Some(tokens) => tokens.spent(),
        None => 0,
    }
}

impl OwnerView {
    /// Whether the goal of the outcome is the one that waits for it.
    pub open spec fn awaits_evaluation(self, generation: u64, controller_id: u64) -> bool {
        self.native && generation == self.generation && self.held_turn is Some
            && self.goal is Some && self.goal->0.id == controller_id
    }

    /// Whether the loop that was woken up is the one that waits for it.
    pub open spec fn awaits_wakeup(self, generation: u64, controller_id: u64) -> bool {
        self.native && generation == self.generation && self.held_turn is Some
            && self.loop_state is Some && self.loop_state->0.id == controller_id
    }

    /// The goal ended by itself: drivers see it as it is now.
    pub open spec fn conclude_goal(self, goal: GoalView) -> OwnerView {
        (OwnerView { goal: None, ..self }).emit(EventView::GoalChanged(goal))
    }

    /// The turn that was held back goes on.
    pub open spec fn resume_turn(self) -> OwnerView {
        OwnerView {
            held_turn: None,
            terminal_reason: None,
            turn_stats: RuntimeTurnStats::none(),
            ..self
        }
    }

    /// The turn that was held back could not go on: the agent no longer answers.
    pub open spec fn strand_held(self) -> OwnerView {
        OwnerView {
            terminal_reason: None,
            turn_stats: RuntimeTurnStats::none(),
            ..self.release_held(StopReason::ProviderError)
        }
    }

    /// The goal is met or its evaluation failed, and the turn ends for the reason.
    #[verifier::opaque]
    pub open spec fn goal_decided(self, goal: GoalView, reason: StopReason) -> OwnerView {
        self.conclude_goal(goal).release_held(reason).in_phase(RuntimePhase::Ready)
    }

    /// The goal goes on with another round.
    #[verifier::opaque]
    pub open spec fn goal_continues(self, current: GoalView, verdict: Seq<char>) -> OwnerView {
        let goal = current.next_round(verdict);
        let told = (OwnerView { goal: Some(goal), ..self }).emit(EventView::GoalChanged(goal));
        if self.deliverable() {
            told.act(
                ActionView::ContinueGoal { reason: verdict, condition: goal.condition },
            ).resume_turn()
        } else {
            told.failed().end_goal(
                GoalTerminal::Failed,
                "continuation dispatch failed"@,
            ).emit(
                EventView::ControllerWarning("goal stopped: continuation dispatch failed"@),
            ).strand_held()
        }
    }

    /// The goal could not be evaluated.
    #[verifier::opaque]
    pub open spec fn evaluation_failed(self, goal: GoalView, error: Seq<char>) -> OwnerView {
        self.conclude_goal(
            goal.finish(GoalTerminal::Failed, "evaluator failed: "@ + error),
        ).emit(
            EventView::ControllerWarning("goal evaluator failed: "@ + error),
        ).release_held(StopReason::ProviderError).in_phase(RuntimePhase::Ready)
    }

    /// The loop goes on with another round.
    #[verifier::opaque]
    pub open spec fn loop_continues(self, current: LoopView, wakeup: WakeupRequest) -> OwnerView {
        let state = current.next_round(wakeup.reason@);
        let told = (OwnerView { loop_state: Some(state), ..self }).emit(
            EventView::LoopChanged(state),
        );
        if self.deliverable() {
            told.act(
                ActionView::Send(
                    CommandView::SendMessage { text: wakeup.prompt@, images: Seq::empty() },
                ),
            ).resume_turn()
        } else {
            let ended = told.failed().end_loop("continuation dispatch failed"@);
            (OwnerView {
                loop_active: self.loop_active && !self.has_resources,
                ..ended
            }).emit(
                EventView::ControllerWarning("loop stopped: continuation dispatch failed"@),
            ).strand_held()
        }
    }

    /// A loop that has used up its rounds ends, and the turn with it.
    #[verifier::opaque]
    pub open spec fn loop_exhausted(self) -> OwnerView {
        (OwnerView {
            loop_active: self.loop_active && !self.has_resources,
            ..self.end_loop("round limit"@)
        }).release_held(StopReason::MaxRounds).in_phase(RuntimePhase::Ready)
    }

    /// Why a controller may not start, if it may not.
    pub open spec fn controller_refusal(self, generation: u64) -> Option<RuntimeError> {
        if !self.native || generation != self.generation || self.compaction_suspended {
            Some(RuntimeError::Busy)
        } else if !self.has_resources {
            Some(RuntimeError::Unavailable)
        } else if self.active_turn is Some && self.held_turn is None {
            Some(RuntimeError::Busy)
        } else {
            None
        }
    }

    /// A new goal takes the place of whatever controller there was.
    pub open spec fn goal_started(self, condition: Seq<char>) -> OwnerView {
        let cleared = self.cancel_controllers(RuntimePhase::Ready, "superseded by /goal"@);
        let goal = GoalView::fresh(bump(self.next_controller_id), condition);
        (OwnerView {
            next_controller_id: bump(self.next_controller_id),
            goal: Some(goal),
            ..cleared
        }).emit(EventView::GoalChanged(goal))
    }

    /// A new loop does likewise, and lets the agent ask for wakeups.
    pub open spec fn loop_started(self, prompt: Seq<char>) -> OwnerView {
        let cleared = self.cancel_controllers(RuntimePhase::Ready, "superseded by /loop"@);
        let state = LoopView::fresh(bump(self.next_controller_id), prompt);
        (OwnerView {
            next_controller_id: bump(self.next_controller_id),
            loop_state: Some(state),
            loop_active: true,
            ..cleared
        }).emit(EventView::LoopChanged(state))
    }

    /// A goal is asked for: it starts, unless it is refused.
    pub open spec fn goal_asked(self, generation: u64, condition: Seq<char>) -> OwnerView {
        if self.controller_refusal(generation) is Some {
            self
        } else {
            self.goal_started(condition)
        }
    }

    /// A loop is asked for: it starts, unless it is refused.
    pub open spec fn loop_asked(self, generation: u64, prompt: Seq<char>) -> OwnerView {
        if self.controller_refusal(generation) is Some {
            self
        } else {
            self.loop_started(prompt)
        }
    }

    /// The user cancels: a turn that is held back ends at once, a turn in progress is
    /// cancelled at the agent, and no controller goes on.
    pub open spec fn cancel_asked(self, generation: u64) -> OwnerView {
        let ended = self.end_controllers(GoalTerminal::Cancelled, "cancelled by user"@);
        if !self.serves(generation) {
            self
        } else if self.held_turn is Some {
            ended.release_held(StopReason::Cancelled).in_phase(RuntimePhase::Ready)
        } else if self.active_turn is None {
            self
        } else if self.deliverable() {
            ended.fail_close_pending(true).in_phase(RuntimePhase::InTurn)
        } else {
            ended.fail_close_pending(true).failed()
        }
    }

    /// The user clears the goal.
    pub open spec fn goal_cleared(self, generation: u64) -> OwnerView {
        if !self.native || generation != self.generation {
            self
        } else {
            self.end_goal(GoalTerminal::Cancelled, "cleared by user"@).halt_turn()
        }
    }

    /// The user clears the loop.
    pub open spec fn loop_cleared(self, generation: u64) -> OwnerView {
        if !self.native || generation != self.generation {
            self
        } else {
            (OwnerView {
                loop_active: self.loop_active && !self.has_resources,
                pending_wakeup: None,
                ..self.end_loop("cleared by user"@)
            }).halt_turn()
        }
    }

    /// The agent asks to be woken up: a running loop takes note.
    pub open spec fn wakeup_asked(self, wakeup: WakeupRequest) -> OwnerView {
        if self.native && self.loop_state is Some && self.loop_state->0.active {
            let noted = self.loop_state->0.note(wakeup.note());
            (OwnerView {
                loop_state: Some(noted),
                pending_wakeup: Some(wakeup),
                ..self
            }).emit(EventView::LoopChanged(noted))
        } else {
            self
        }
    }

    /// The goal was evaluated; an outcome that nothing waits for changes nothing.
    pub open spec fn goal_evaluated(self, outcome: EvalOutcome) -> OwnerView {
        let goal = self.goal->0.charge(evaluation_cost(outcome.usage));
        let rest = OwnerView { goal: None, ..self };
        if !self.awaits_evaluation(outcome.generation, outcome.controller_id) {
            self
        } else {
            match outcome.result {
                GoalResult::Met(verdict) => rest.goal_decided(
                    goal.finish(GoalTerminal::Met, verdict@),
                    StopReason::Stopped,
                ),
                GoalResult::NotMet(verdict) => rest.goal_continues(goal, verdict@),
                GoalResult::Error(error) => rest.evaluation_failed(goal, error@),
            }
        }
    }

    /// The delay of the loop is over; a wakeup that nothing waits for changes nothing.
    pub open spec fn loop_fired(
        self,
        generation: u64,
        controller_id: u64,
        wakeup: WakeupRequest,
        at_limit: bool,
    ) -> OwnerView {
        if !self.awaits_wakeup(generation, controller_id) {
            self
        } else if at_limit {
            self.loop_exhausted()
        } else {
            (OwnerView { loop_state: None, ..self }).loop_continues(self.loop_state->0, wakeup)
        }
    }

    /// The turn in progress is cancelled; one that is held back ends at once.
    pub open spec fn halt_turn(self) -> OwnerView {
        OwnerView {
            held_turn: None,
            active_turn: if self.held_turn is Some {
                None
            } else {
                self.active_turn
            },
            phase: if self.held_turn is Some {
                self.fitting(RuntimePhase::Ready)
            } else {
                self.phase
            },
            outbox: if self.active_turn is Some && self.deliverable() {
                self.outbox.push(ActionView::Send(CommandView::Plain(AgentCommand::Cancel)))
                    + self.held_farewell(StopReason::Cancelled)
            } else {
                self.outbox + self.held_farewell(StopReason::Cancelled)
            },
            ..self
        }
    }
}

/// Releasing a held turn that is the turn in progress reports exactly that turn.
pub proof fn held_farewell_finishes(before: OwnerView, reason: StopReason)
    requires
        before.held_linked(),
        before.held_turn is Some,
    ensures
        finished_turns(before.held_farewell(reason)) == seq![before.held_turn->0.turn_id],
{
    reveal_with_fuel(finished_turns, 2);
    let report = before.held_farewell(reason);
    assert(report.drop_last() =~= Seq::empty());
    assert(finished_turns(report) =~= seq![before.held_turn->0.turn_id]);
}

impl RuntimeOwner {
    fn cancel_held(&mut self)
        requires
            old(self)@.held_turn is Some,
        ensures
            final(self)@ == old(self)@.end_controllers(
                GoalTerminal::Cancelled,
                "cancelled by user"@,
            ).release_held(StopReason::Cancelled).in_phase(RuntimePhase::Ready),
    {
        self.end_controllers(GoalTerminal::Cancelled, "cancelled by user");
        let _ = self.release_held(StopReason::Cancelled);
        self.enter(RuntimePhase::Ready);
    }

    /// The user cancels. A turn that is held back ends at once; a turn in progress is
    /// cancelled at the agent and ends when the agent says so.
    pub fn cancel(&mut self, generation: u64) -> (result: Result<(), RuntimeError>)
        ensures
            result == if !old(self)@.serves(generation) {
                Err::<(), RuntimeError>(RuntimeError::Unavailable)
            } else if old(self)@.held_turn is None && old(self)@.active_turn is Some && !old(
                self,
            )@.deliverable() {
                Err(RuntimeError::DeliveryFailed)
            } else {
                Ok(())
            },
            final(self)@ == old(self)@.cancel_asked(generation),
            old(self)@.wf() ==> final(self)@.wf(),
    {
        if !self.native || generation != self.generation || !self.agent_available {
            return Err(RuntimeError::Unavailable);
        }
        if self.held_turn.is_some() {
            self.cancel_held();
            return Ok(());
        }
        if self.active_turn.is_none() {
            return Ok(());
        }
        let delivered = self.agent_attached && self.agent_open;
        self.end_controllers(GoalTerminal::Cancelled, "cancelled by user");
        self.fail_close_pending_requests(true);
        if delivered {
            self.phase = RuntimePhase::InTurn;
            Ok(())
        } else {
            self.fail();
            Err(RuntimeError::DeliveryFailed)
        }
    }

    fn check_controller(&self, generation: u64) -> (refusal: Option<RuntimeError>)
        ensures
            refusal == self@.controller_refusal(generation),
    {
        if !self.native || generation != self.generation || self.compaction_suspended {
            Some(RuntimeError::Busy)
        } else if !self.has_resources {
            Some(RuntimeError::Unavailable)
        } else if self.active_turn.is_some() && self.held_turn.is_none() {
            Some(RuntimeError::Busy)
        } else {
            None
        }
    }

    fn install_goal(&mut self, condition: String)
        ensures
            ({
                let id = bump(old(self)@.next_controller_id);
                final(self)@ == (OwnerView {
                    next_controller_id: id,
                    goal: Some(GoalView::fresh(id, condition@)),
                    ..old(self)@
                }).emit(EventView::GoalChanged(GoalView::fresh(id, condition@)))
            }),
    {
        self.next_controller_id = self.next_controller_id.wrapping_add(1);
        let goal = GoalState::new(self.next_controller_id, condition);
        let progress = goal.progress();
        self.goal = Some(goal);
        self.emit(CodingRuntimeEvent::GoalChanged(progress));
    }

    fn install_loop(&mut self, prompt: String)
        ensures
            ({
                let id = bump(old(self)@.next_controller_id);
                final(self)@ == (OwnerView {
                    next_controller_id: id,
                    loop_state: Some(LoopView::fresh(id, prompt@)),
                    loop_active: true,
                    ..old(self)@
                }).emit(EventView::LoopChanged(LoopView::fresh(id, prompt@)))
            }),
    {
        self.next_controller_id = self.next_controller_id.wrapping_add(1);
        let state = LoopState::new(self.next_controller_id, prompt);
        let progress = state.progress();
        self.loop_active = true;
        self.loop_state = Some(state);
        self.emit(CodingRuntimeEvent::LoopChanged(progress));
    }

    /// Starts a goal. A controller that ran before gives way.
    pub fn start_goal(&mut self, generation: u64, condition: String) -> (result: Result<
        (),
        RuntimeError,
    >)
        ensures
            result == match old(self)@.controller_refusal(generation) {
                Some(error) => Err::<(), RuntimeError>(error),
                None => Ok(()),
            },
            final(self)@ == old(self)@.goal_asked(generation, condition@),
            old(self)@.wf() ==> final(self)@.wf(),
    {
        if let Some(error) = self.check_controller(generation) {
            return Err(error);
        }
        let _ = self.cancel_controllers_and_finish_held(
            RuntimePhase::Ready,
            "superseded by /goal",
        );
        self.install_goal(condition);
        Ok(())
    }

    /// Starts a loop. A controller that ran before gives way.
    pub fn start_loop(&mut self, generation: u64, prompt: String) -> (result: Result<
        (),
        RuntimeError,
    >)
        ensures
            result == match old(self)@.controller_refusal(generation) {
                Some(error) => Err::<(), RuntimeError>(error),
                None => Ok(()),
            },
            final(self)@ == old(self)@.loop_asked(generation, prompt@),
            old(self)@.wf() ==> final(self)@.wf(),
    {
        if let Some(error) = self.check_controller(generation) {
            return Err(error);
        }
        let _ = self.cancel_controllers_and_finish_held(
            RuntimePhase::Ready,
            "superseded by /loop",
        );
        self.install_loop(prompt);
        Ok(())
    }

    fn cancel_at_agent(&mut self)
        ensures
            final(self)@ == (OwnerView {
                outbox: if old(self)@.active_turn is Some && old(self)@.deliverable() {
                    old(self)@.outbox.push(
                        ActionView::Send(CommandView::Plain(AgentCommand::Cancel)),
                    )
                } else {
                    old(self)@.outbox
                },
                ..old(self)@
            }),
    {
        if self.active_turn.is_some() {
            let _ = self.offer(AgentCommand::Cancel);
        }
    }

    fn halt_turn(&mut self)
        ensures
            final(self)@ == old(self)@.halt_turn(),
    {
        self.cancel_at_agent();
        if self.release_held(StopReason::Cancelled) {
            self.enter(RuntimePhase::Ready);
        }
    }

    /// The user clears the goal.
    pub fn stop_goal(&mut self, generation: u64) -> (result: Result<(), RuntimeError>)
        ensures
            result == if !old(self)@.native || generation != old(self)@.generation {
                Err::<(), RuntimeError>(RuntimeError::Unavailable)
            } else {
                Ok(())
            },
            final(self)@ == old(self)@.goal_cleared(generation),
            old(self)@.wf() ==> final(self)@.wf(),
    {
        if !self.native || generation != self.generation {
            return Err(RuntimeError::Unavailable);
        }
        self.end_goal(GoalTerminal::Cancelled, "cleared by user");
        self.halt_turn();
        Ok(())
    }

    /// The user clears the loop.
    pub fn stop_loop(&mut self, generation: u64) -> (result: Result<(), RuntimeError>)
        ensures
            result == if !old(self)@.native || generation != old(self)@.generation {
                Err::<(), RuntimeError>(RuntimeError::Unavailable)
            } else {
                Ok(())
            },
            final(self)@ == old(self)@.loop_cleared(generation),
            old(self)@.wf() ==> final(self)@.wf(),
    {
        if !self.native || generation != self.generation {
            return Err(RuntimeError::Unavailable);
        }
        self.end_loop("cleared by user");
        if self.has_resources {
            self.loop_active = false;
        }
        self.pending_wakeup = None;
        self.halt_turn();
        Ok(())
    }

    fn note_wakeup(&mut self, state: LoopState, wakeup: WakeupRequest)
        ensures
            ({
                let noted = state@.note(wakeup.note());
                final(self)@ == (OwnerView {
                    loop_state: Some(noted),
                    pending_wakeup: Some(wakeup),
                    ..old(self)@
                }).emit(EventView::LoopChanged(noted))
            }),
    {
        let mut state = state;
        state.note(wakeup.schedule_note());
        let progress = state.progress();
        self.loop_state = Some(state);
        self.pending_wakeup = Some(wakeup);
        self.emit(CodingRuntimeEvent::LoopChanged(progress));
    }

    /// The agent asks to be woken up. Only a running loop listens.
    pub fn on_wakeup(&mut self, wakeup: WakeupRequest)
        ensures
            final(self)@ == old(self)@.wakeup_asked(wakeup),
            old(self)@.wf() ==> final(self)@.wf(),
    {
        let listening = match &self.loop_state {
            Some(state) => state.active,
            None => false,
        };
        if self.native && listening {
            if let Some(state) = self.take_loop() {
                self.note_wakeup(state, wakeup);
            }
        }
    }

    /// A name for the session was found.
    pub fn on_session_name(&mut self, generation: u64, name: String)
        ensures
            final(self)@ == if old(self)@.native && generation == old(self)@.generation {
                old(self)@.emit(
                    EventView::Plain(CodingRuntimeEvent::SessionNameSuggested { name }),
                )
            } else {
                old(self)@
            },
            old(self)@.wf() ==> final(self)@.wf(),
    {
        if self.native && generation == self.generation {
            self.emit(CodingRuntimeEvent::SessionNameSuggested { name });
        }
    }

    fn decide_goal(&mut self, goal: GoalState, reason: StopReason)
        requires
            old(self)@.held_turn is Some,
        ensures
            final(self)@ == old(self)@.goal_decided(goal@, reason),
            old(self)@.wf() ==> final(self)@.wf(),
    {
        proof {
            reveal(OwnerView::goal_decided);
        }
        self.goal = None;
        self.emit(CodingRuntimeEvent::GoalChanged(goal.progress()));
        let _ = self.release_held(reason);
        self.enter(RuntimePhase::Ready);
    }

    fn resume_turn(&mut self)
        ensures
            final(self)@ == old(self)@.resume_turn(),
    {
        self.held_turn = None;
        self.terminal_reason = None;
        self.turn_stats = RuntimeTurnStats::default();
    }

    fn strand_held(&mut self)
        ensures
            final(self)@ == old(self)@.strand_held(),
    {
        let _ = self.release_held(StopReason::ProviderError);
        self.terminal_reason = None;
        self.turn_stats = RuntimeTurnStats::default();
    }

    fn continue_goal(&mut self, goal: GoalState, verdict: String)
        requires
            old(self)@.held_turn is Some,
        ensures
            final(self)@ == old(self)@.goal_continues(goal@, verdict@),
            old(self)@.wf() && old(self)@.loop_state is None ==> final(self)@.wf(),
    {
        proof {
            reveal(OwnerView::goal_continues);
        }
        let mut goal = goal;
        let reason = verdict.clone();
        let condition = goal.condition.clone();
        goal.next_round(verdict);
        let progress = goal.progress();
        self.goal = Some(goal);
        self.emit(CodingRuntimeEvent::GoalChanged(progress));
        if self.agent_attached && self.agent_open {
            self.push(OwnerAction::ContinueGoal { reason, condition });
            self.resume_turn();
        } else {
            self.fail();
            self.end_goal(GoalTerminal::Failed, "continuation dispatch failed");
            self.warn("goal stopped: continuation dispatch failed");
            self.strand_held();
        }
    }

    fn fail_evaluation(&mut self, goal: GoalState, error: String)
        requires
            old(self)@.held_turn is Some,
        ensures
            final(self)@ == old(self)@.evaluation_failed(goal@, error@),
            old(self)@.wf() ==> final(self)@.wf(),
    {
        proof {
            reveal(OwnerView::evaluation_failed);
        }
        let mut goal = goal;
        goal.finish(GoalTerminal::Failed, join2("evaluator failed: ", error.as_str()));
        self.goal = None;
        self.emit(CodingRuntimeEvent::GoalChanged(goal.progress()));
        let warning = join2("goal evaluator failed: ", error.as_str());
        self.warn(warning.as_str());
        let _ = self.release_held(StopReason::ProviderError);
        self.enter(RuntimePhase::Ready);
    }

    /// The goal was evaluated. An outcome that nothing waits for changes nothing. Otherwise
    /// the goal is met and the turn ends, or it goes on with another round, or the
    /// evaluation failed and the turn ends without one.
    pub fn on_goal_evaluated(&mut self, outcome: EvalOutcome)
        ensures
            final(self)@ == old(self)@.goal_evaluated(outcome),
            old(self)@.wf() ==> final(self)@.wf(),
    {
        let waiting = match &self.goal {
            Some(goal) => goal.id == outcome.controller_id,
            None => false,
        };
        if !self.native || outcome.generation != self.generation || !waiting
            || self.held_turn.is_none() {
            return ;
        }
        if let Some(goal) = self.take_goal() {
            let mut goal = goal;
            let cost: u64 = match outcome.usage {
                Some(tokens) => tokens.prompt as u64 + tokens.completion as u64,
                None => 0,
            };
            goal.charge(cost);
            match outcome.result {
                GoalResult::Met(verdict) => {
                    goal.finish(GoalTerminal::Met, verdict);
                    self.decide_goal(goal, StopReason::Stopped);
                },
                GoalResult::NotMet(verdict) => {
                    self.continue_goal(goal, verdict);
                },
                GoalResult::Error(error) => {
                    self.fail_evaluation(goal, error);
                },
            }
        }
    }

    fn continue_loop(&mut self, state: LoopState, wakeup: WakeupRequest)
        requires
            old(self)@.held_turn is Some,
        ensures
            final(self)@ == old(self)@.loop_continues(state@, wakeup),
            old(self)@.wf() && old(self)@.goal is None ==> final(self)@.wf(),
    {
        proof {
            reveal(OwnerView::loop_continues);
        }
        let mut state = state;
        let WakeupRequest { delay_seconds: _, reason, prompt } = wakeup;
        state.next_round(reason);
        let progress = state.progress();
        self.loop_state = Some(state);
        self.emit(CodingRuntimeEvent::LoopChanged(progress));
        let images: Vec<ImageContent> = Vec::new();
        if self.offer(AgentCommand::SendMessage { text: prompt, images }) {
            self.resume_turn();
        } else {
            self.fail();
            self.end_loop("continuation dispatch failed");
            if self.has_resources {
                self.loop_active = false;
            }
            self.warn("loop stopped: continuation dispatch failed");
            self.strand_held();
        }
    }

    fn exhaust_loop(&mut self)
        requires
            old(self)@.held_turn is Some,
        ensures
            final(self)@ == old(self)@.loop_exhausted(),
            old(self)@.wf() ==> final(self)@.wf(),
    {
        proof {
            reveal(OwnerView::loop_exhausted);
        }
        self.end_loop("round limit");
        if self.has_resources {
            self.loop_active = false;
        }
        let _ = self.release_held(StopReason::MaxRounds);
        self.enter(RuntimePhase::Ready);
    }

    /// The delay of a loop is over. A wakeup that nothing waits for changes nothing.
    /// `at_limit` says that the loop has used up its rounds.
    pub fn on_loop_fired(
        &mut self,
        generation: u64,
        controller_id: u64,
        wakeup: WakeupRequest,
        at_limit: bool,
    )
        ensures
            final(self)@ == old(self)@.loop_fired(generation, controller_id, wakeup, at_limit),
            old(self)@.wf() ==> final(self)@.wf(),
    {
        let waiting = match &self.loop_state {
            Some(state) => state.id == controller_id,
            None => false,
        };
        if !self.native || generation != self.generation || !waiting || self.held_turn.is_none() {
            return ;
        }
        if at_limit {
            self.exhaust_loop();
        } else if let Some(state) = self.take_loop() {
            self.continue_loop(state, wakeup);
        }
    }
}

} // verus!
