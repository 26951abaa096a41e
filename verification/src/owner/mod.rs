//! The runtime owner: the one place that decides what happens to the agent, to the turn in
//! progress and to everybody who waits for either.
//!
//! The owner is a plain value. Each method takes one fact from the outside (a control, an
//! event of the agent, the result of outside work), updates the value and appends to the
//! outbox what is to be done, in order. Whoever runs the owner carries the outbox out.
pub mod compaction_laws;
pub mod controls;
pub mod events;
pub mod goals;
pub mod laws;
pub mod management;
pub mod provider_law;
pub mod reconfigure;
pub mod stopping;
pub mod turn_law;

use crate::compaction::{
    CompactTrigger, CompactionCompletion, CompactionInterruption, CompactionTracker, TrackerView,
};
use crate::controllers::{
    GoalState, GoalTerminal, GoalView, LoopState, LoopView, WakeupRequest,
};
use crate::conversation::SessionSnapshot;
use crate::error::RuntimeError;
use crate::event::{
    AgentCommand, AgentEvent, CodingRuntimeEvent, CommandView, CompletionView, EventView,
    ReplyValue, RequestId, RuntimeSnapshotReceipt, RuntimeTurnStats, StopReason, TurnCompletion,
};
use crate::phase::{ProviderUnavailableReason, RuntimePhase, RuntimeStatus};
use crate::text::{opt_text, share, texts};
use std::sync::Arc;
use vstd::prelude::*;

verus! {

/// A finished turn that a controller holds back until it has decided how to go on.
#[derive(Clone, Debug, PartialEq, Eq)]
pub struct HeldTurn {
    pub turn_id: u64,
    pub reason: StopReason,
    pub snapshot: Arc<SessionSnapshot>,
    pub stats: RuntimeTurnStats,
}

/// Something the owner wants done.
#[derive(Debug, PartialEq, Eq)]
pub enum OwnerAction {
    /// Publish an event of the generation.
    Emit { generation: u64, event: CodingRuntimeEvent },
    /// Hand a command to the agent.
    Send(AgentCommand),
    /// Answer a snapshot waiter.
    AnswerSnapshot { waiter: u64, result: Result<RuntimeSnapshotReceipt, RuntimeError> },
    /// Cancel the outside work of a controller.
    CancelController { id: u64 },
    /// Keep the snapshot as the resume point of a runtime without a session.
    KeepResume(Arc<SessionSnapshot>),
    /// Have the goal evaluated.
    EvaluateGoal {
        generation: u64,
        controller_id: u64,
        condition: String,
        last_reason: Option<String>,
        snapshot: Arc<SessionSnapshot>,
    },
    /// Send the agent a synthetic message that goes on with the goal.
    ContinueGoal { reason: String, condition: String },
    /// Wake the loop up after the delay.
    ScheduleLoop { generation: u64, controller_id: u64, wakeup: WakeupRequest },
    /// Ask a model for a name of the session.
    SuggestName { generation: u64, conversation: String },
}

/// The answer to a snapshot waiter as a value.
pub enum AnswerView {
    Ready(RuntimeSnapshotReceipt),
    SnapshotUnavailable(Seq<char>),
    Refused(RuntimeError),
}

/// An action as a value.
pub enum ActionView {
    Emit { generation: u64, event: EventView },
    Send(CommandView),
    AnswerSnapshot { waiter: u64, answer: AnswerView },
    CancelController { id: u64 },
    KeepResume(Arc<SessionSnapshot>),
    EvaluateGoal {
        generation: u64,
        controller_id: u64,
        condition: Seq<char>,
        last_reason: Option<Seq<char>>,
        snapshot: Arc<SessionSnapshot>,
    },
    ContinueGoal { reason: Seq<char>, condition: Seq<char> },
    ScheduleLoop { generation: u64, controller_id: u64, wakeup: WakeupRequest },
    SuggestName { generation: u64, conversation: Seq<char> },
}

impl View for OwnerAction {
    type V = ActionView;

    open spec fn view(&self) -> ActionView {
        match *self {
            OwnerAction::Emit { generation, event } => ActionView::Emit {
                generation,
                event: event@,
            },
            OwnerAction::Send(command) => ActionView::Send(command@),
            OwnerAction::AnswerSnapshot { waiter, result } => ActionView::AnswerSnapshot {
                waiter,
                answer: match result {
                    Ok(receipt) => AnswerView::Ready(receipt),
                    Err(RuntimeError::SnapshotUnavailable(message)) =>
                        AnswerView::SnapshotUnavailable(message@),
                    Err(error) => AnswerView::Refused(error),
                },
            },
            OwnerAction::CancelController { id } => ActionView::CancelController { id },
            OwnerAction::KeepResume(snapshot) => ActionView::KeepResume(snapshot),
            OwnerAction::EvaluateGoal {
                generation,
                controller_id,
                condition,
                last_reason,
                snapshot,
            } => ActionView::EvaluateGoal {
                generation,
                controller_id,
                condition: condition@,
                last_reason: opt_text(last_reason),
                snapshot,
            },
            OwnerAction::ContinueGoal { reason, condition } => ActionView::ContinueGoal {
                reason: reason@,
                condition: condition@,
            },
            OwnerAction::ScheduleLoop { generation, controller_id, wakeup } =>
                ActionView::ScheduleLoop { generation, controller_id, wakeup },
            OwnerAction::SuggestName { generation, conversation } => ActionView::SuggestName {
                generation,
                conversation: conversation@,
            },
        }
    }
}

/// State of the runtime owner.
#[derive(Debug)]
pub struct RuntimeOwner {
    /// Whether drivers speak the native protocol (turns, requests and controllers).
    pub native: bool,
    pub generation: u64,
    pub phase: RuntimePhase,
    /// Whether the owner has what it needs to build agents.
    pub has_resources: bool,
    /// Whether those resources are bound to a stored session.
    pub has_session: bool,
    pub agent_attached: bool,
    /// Whether the attached agent still takes commands.
    pub agent_open: bool,
    pub agent_available: bool,
    pub compaction_suspended: bool,
    pub provider_unavailable_reason: Option<ProviderUnavailableReason>,
    pub observed_tokens: Option<usize>,
    pub compactions: CompactionTracker,
    pub next_turn_id: u64,
    pub conversation_revision: u64,
    pub active_turn: Option<u64>,
    /// Requests without an answer, in ascending order.
    pub pending_requests: Vec<RequestId>,
    pub snapshot_waiters: Vec<u64>,
    pub snapshot_in_flight: bool,
    pub terminal_reason: Option<StopReason>,
    pub turn_stats: RuntimeTurnStats,
    /// Whether the clock of the turn runs.
    pub turn_clock: bool,
    pub pending_local_context: Vec<String>,
    pub next_controller_id: u64,
    pub goal: Option<GoalState>,
    pub loop_state: Option<LoopState>,
    /// Whether the agent may ask for wakeups.
    pub loop_active: bool,
    pub pending_wakeup: Option<WakeupRequest>,
    pub held_turn: Option<HeldTurn>,
    pub ai_name_attempted: bool,
    /// Why the stored session can no longer be trusted.
    pub persistence_failure: Option<String>,
    pub outbox: Vec<OwnerAction>,
}

/// A command that did not reach the agent.
#[derive(Clone, Copy, Debug, PartialEq, Eq)]
pub enum LostCommand {
    /// The prompt of a turn that it was to open.
    Opening,
    /// A driver's question for a snapshot.
    Snapshot,
    Other,
}

/// State of the runtime owner as a value.
pub struct OwnerView {
    pub native: bool,
    pub generation: u64,
    pub phase: RuntimePhase,
    pub has_resources: bool,
    pub has_session: bool,
    pub agent_attached: bool,
    pub agent_open: bool,
    pub agent_available: bool,
    pub compaction_suspended: bool,
    pub provider_unavailable_reason: Option<ProviderUnavailableReason>,
    pub observed_tokens: Option<usize>,
    pub compactions: TrackerView,
    pub next_turn_id: u64,
    pub conversation_revision: u64,
    pub active_turn: Option<u64>,
    pub pending_requests: Seq<RequestId>,
    pub snapshot_waiters: Seq<u64>,
    pub snapshot_in_flight: bool,
    pub terminal_reason: Option<StopReason>,
    pub turn_stats: RuntimeTurnStats,
    pub turn_clock: bool,
    pub pending_local_context: Seq<Seq<char>>,
    pub next_controller_id: u64,
    pub goal: Option<GoalView>,
    pub loop_state: Option<LoopView>,
    pub loop_active: bool,
    pub pending_wakeup: Option<WakeupRequest>,
    pub held_turn: Option<HeldTurn>,
    pub ai_name_attempted: bool,
    pub persistence_failure: Option<Seq<char>>,
    pub outbox: Seq<ActionView>,
}

pub open spec fn goal_view(goal: Option<GoalState>) -> Option<GoalView> {
    match goal {
        Some(state) => Some(state@),
        None => None,
    }
}

pub open spec fn loop_view(loop_state: Option<LoopState>) -> Option<LoopView> {
    match loop_state {
        Some(state) => Some(state@),
        None => None,
    }
}

pub open spec fn action_views(actions: Seq<OwnerAction>) -> Seq<ActionView> {
    actions.map_values(|action: OwnerAction| action@)
}

impl View for RuntimeOwner {
    type V = OwnerView;

    open spec fn view(&self) -> OwnerView {
        OwnerView {
            native: self.native,
            generation: self.generation,
            phase: self.phase,
            has_resources: self.has_resources,
            has_session: self.has_session,
            agent_attached: self.agent_attached,
            agent_open: self.agent_open,
            agent_available: self.agent_available,
            compaction_suspended: self.compaction_suspended,
            provider_unavailable_reason: self.provider_unavailable_reason,
            observed_tokens: self.observed_tokens,
            compactions: self.compactions@,
            next_turn_id: self.next_turn_id,
            conversation_revision: self.conversation_revision,
            active_turn: self.active_turn,
            pending_requests: self.pending_requests@,
            snapshot_waiters: self.snapshot_waiters@,
            snapshot_in_flight: self.snapshot_in_flight,
            terminal_reason: self.terminal_reason,
            turn_stats: self.turn_stats,
            turn_clock: self.turn_clock,
            pending_local_context: texts(self.pending_local_context@),
            next_controller_id: self.next_controller_id,
            goal: goal_view(self.goal),
            loop_state: loop_view(self.loop_state),
            loop_active: self.loop_active,
            pending_wakeup: self.pending_wakeup,
            held_turn: self.held_turn,
            ai_name_attempted: self.ai_name_attempted,
            persistence_failure: opt_text(self.persistence_failure),
            outbox: action_views(self.outbox@),
        }
    }
}

/// The next number, starting again at zero after the largest.
pub open spec fn bump(number: u64) -> u64 {
    if number == u64::MAX {
        0
    } else {
        (number + 1) as u64
    }
}

/// Ascending, each value once.
pub open spec fn ascending(ids: Seq<RequestId>) -> bool {
    forall|i: int, j: int| 0 <= i < j < ids.len() ==> ids[i] < ids[j]
}

impl OwnerView {
    /// What every operation keeps: at most one controller, each pending request listed once,
    /// in order, and a provider wherever the runtime is ready.
    pub open spec fn wf(self) -> bool {
        &&& !(self.goal is Some && self.loop_state is Some)
        &&& ascending(self.pending_requests)
        &&& self.phase == RuntimePhase::Ready ==> self.provider_unavailable_reason is None
    }

    /// The turn in progress, or zero where there is none.
    pub open spec fn turn_of(self) -> u64 {
        match self.active_turn {
            Some(turn_id) => turn_id,
            None => 0,
        }
    }

    /// A turn that is held back is the turn in progress; where there is none it has no
    /// number.
    pub open spec fn held_linked(self) -> bool {
        self.held_turn matches Some(held) ==> held.turn_id == self.turn_of()
    }

    /// Whether a command reaches the agent.
    pub open spec fn deliverable(self) -> bool {
        self.agent_attached && self.agent_open
    }

    pub open spec fn act(self, action: ActionView) -> OwnerView {
        OwnerView { outbox: self.outbox.push(action), ..self }
    }

    pub open spec fn act_all(self, actions: Seq<ActionView>) -> OwnerView {
        OwnerView { outbox: self.outbox + actions, ..self }
    }

    pub open spec fn emit(self, event: EventView) -> OwnerView {
        self.act(ActionView::Emit { generation: self.generation, event })
    }

    /// Hands the agent a command if it takes one.
    pub open spec fn offer(self, command: CommandView) -> OwnerView {
        OwnerView {
            outbox: if self.deliverable() {
                self.outbox.push(ActionView::Send(command))
            } else {
                self.outbox
            },
            ..self
        }
    }

    /// The phase, or the one in its place: without a provider the runtime is not ready.
    pub open spec fn fitting(self, phase: RuntimePhase) -> RuntimePhase {
        if phase == RuntimePhase::Ready && self.provider_unavailable_reason is Some {
            RuntimePhase::AwaitingProvider
        } else {
            phase
        }
    }

    pub open spec fn in_phase(self, phase: RuntimePhase) -> OwnerView {
        OwnerView { phase: self.fitting(phase), ..self }
    }

    /// The agent no longer answers.
    pub open spec fn failed(self) -> OwnerView {
        OwnerView { phase: RuntimePhase::Failed, agent_available: false, ..self }
    }

    /// A command did not arrive.
    pub open spec fn unreachable(self, lost: LostCommand) -> OwnerView {
        let cut_off = OwnerView { agent_open: false, ..self.failed() };
        match lost {
            LostCommand::Opening => OwnerView { active_turn: None, ..cut_off },
            LostCommand::Snapshot => (OwnerView {
                snapshot_in_flight: false,
                ..cut_off
            }).answer_all(AnswerView::Refused(RuntimeError::DeliveryFailed)),
            LostCommand::Other => cut_off,
        }
    }

    /// The agent is told to stop and let go, and the runtime takes no more turns.
    pub open spec fn abandoned(self) -> OwnerView {
        OwnerView {
            phase: RuntimePhase::Failed,
            agent_available: false,
            agent_attached: false,
            ..self.offer(CommandView::Plain(AgentCommand::Shutdown))
        }
    }

    /// The same answer for every snapshot waiter.
    pub open spec fn answers(self, answer: AnswerView) -> Seq<ActionView> {
        self.snapshot_waiters.map_values(
            |waiter: u64| ActionView::AnswerSnapshot { waiter, answer },
        )
    }

    /// Every snapshot waiter gets the same answer.
    pub open spec fn answer_all(self, answer: AnswerView) -> OwnerView {
        OwnerView {
            snapshot_waiters: Seq::empty(),
            outbox: self.outbox + self.answers(answer),
            ..self
        }
    }

    /// What is done about the goal when it ends: its outside work is cancelled and drivers
    /// learn of it.
    pub open spec fn goal_farewell(self, terminal: GoalTerminal, note: Seq<char>) -> Seq<
        ActionView,
    > {
        match self.goal {
            Some(goal) => seq![
                ActionView::CancelController { id: goal.id },
                ActionView::Emit {
                    generation: self.generation,
                    event: EventView::GoalChanged(goal.finish(terminal, note)),
                },
            ],
            None => Seq::empty(),
        }
    }

    /// The same for the loop.
    pub open spec fn loop_farewell(self, note: Seq<char>) -> Seq<ActionView> {
        match self.loop_state {
            Some(state) => seq![
                ActionView::CancelController { id: state.id },
                ActionView::Emit {
                    generation: self.generation,
                    event: EventView::LoopChanged(state.stop(note)),
                },
            ],
            None => Seq::empty(),
        }
    }

    /// The goal, if there is one, ends.
    pub open spec fn end_goal(self, terminal: GoalTerminal, note: Seq<char>) -> OwnerView {
        OwnerView { goal: None, outbox: self.outbox + self.goal_farewell(terminal, note), ..self }
    }

    /// The loop, if there is one, ends.
    pub open spec fn end_loop(self, note: Seq<char>) -> OwnerView {
        OwnerView { loop_state: None, outbox: self.outbox + self.loop_farewell(note), ..self }
    }

    /// Both controllers end, no wakeup is left, and the agent may not ask for another.
    pub open spec fn end_controllers(self, terminal: GoalTerminal, note: Seq<char>) -> OwnerView {
        OwnerView {
            goal: None,
            loop_state: None,
            pending_wakeup: None,
            loop_active: self.loop_active && !self.has_resources,
            outbox: self.outbox + self.goal_farewell(terminal, note) + self.loop_farewell(note),
            ..self
        }
    }

    /// The report of the turn that was held back.
    pub open spec fn held_farewell(self, reason: StopReason) -> Seq<ActionView> {
        match self.held_turn {
            Some(held) => seq![
                ActionView::Emit {
                    generation: self.generation,
                    event: EventView::TurnFinished(
                        CompletionView::Completed {
                            turn_id: held.turn_id,
                            reason,
                            snapshot: held.snapshot,
                            stats: held.stats,
                        },
                    ),
                },
            ],
            None => Seq::empty(),
        }
    }

    /// The turn that was held back, if any, ends for the reason; no turn is left after it.
    pub open spec fn release_held(self, reason: StopReason) -> OwnerView {
        OwnerView {
            held_turn: None,
            active_turn: if self.held_turn is Some {
                None
            } else {
                self.active_turn
            },
            outbox: self.outbox + self.held_farewell(reason),
            ..self
        }
    }

    /// What drivers are told of the compactions that end without a result.
    pub open spec fn interruptions(self, reason: CompactionInterruption) -> Seq<ActionView> {
        let generation = self.generation;
        self.compactions.open_triggers().map_values(
            |trigger: CompactTrigger| interrupted(generation, trigger, reason),
        )
    }

    /// Every open compaction is interrupted for the reason.
    pub open spec fn interrupt_all(self, reason: CompactionInterruption) -> OwnerView {
        OwnerView {
            compactions: TrackerView::none(),
            outbox: self.outbox + self.interruptions(reason),
            ..self
        }
    }

    /// The commands that turn every pending request down.
    pub open spec fn denials(self) -> Seq<ActionView> {
        if self.deliverable() {
            self.pending_requests.map_values(|id: RequestId| denial(id))
        } else {
            Seq::empty()
        }
    }

    /// Every pending request is turned down, and the turn in progress is cancelled.
    pub open spec fn fail_close_pending(self, cancel_turn: bool) -> OwnerView {
        OwnerView {
            pending_requests: Seq::empty(),
            outbox: if cancel_turn && self.deliverable() {
                (self.outbox + self.denials()).push(
                    ActionView::Send(CommandView::Plain(AgentCommand::Cancel)),
                )
            } else {
                self.outbox + self.denials()
            },
            ..self
        }
    }
}

/// The action that tells drivers of an interrupted compaction.
pub open spec fn interrupted(
    generation: u64,
    trigger: CompactTrigger,
    reason: CompactionInterruption,
) -> ActionView {
    ActionView::Emit {
        generation,
        event: EventView::Plain(
            CodingRuntimeEvent::CompactionFinished {
                completion: CompactionCompletion::Interrupted { trigger, reason },
            },
        ),
    }
}

/// The action that turns a request down.
pub open spec fn denial(id: RequestId) -> ActionView {
    ActionView::Send(
        CommandView::Plain(AgentCommand::Respond { id, value: ReplyValue::Null }),
    )
}

/// The turns that a list of actions reports as finished, in order.
pub open spec fn finished_turns(actions: Seq<ActionView>) -> Seq<u64>
    decreases actions.len(),
{
    if actions.len() == 0 {
        Seq::empty()
    } else {
        let rest = finished_turns(actions.drop_last());
        match actions.last() {
            ActionView::Emit { generation, event: EventView::TurnFinished(completion) } =>
                rest.push(completion.turn()),
            _ => rest,
        }
    }
}

/// A step answers for the turn in progress: where it takes the turn away it reports exactly
/// that turn as finished, and where it keeps it, none.
pub open spec fn accounts_for_turn(before: OwnerView, after: OwnerView) -> bool {
    &&& before.outbox.len() <= after.outbox.len()
    &&& after.outbox.take(before.outbox.len() as int) == before.outbox
    &&& before.active_turn matches Some(turn) ==> finished_turns(
        after.outbox.skip(before.outbox.len() as int),
    ) == if after.active_turn == Some(turn) {
        Seq::empty()
    } else {
        seq![turn]
    }
}

/// Reports of a longer list are those of its two parts.
pub proof fn finished_turns_of_sum(left: Seq<ActionView>, right: Seq<ActionView>)
    ensures
        finished_turns(left + right) == finished_turns(left) + finished_turns(right),
    decreases right.len(),
{
    if right.len() == 0 {
        assert(left + right =~= left);
        assert(finished_turns(left) + finished_turns(right) =~= finished_turns(left));
    } else {
        assert((left + right).drop_last() =~= left + right.drop_last());
        finished_turns_of_sum(left, right.drop_last());
        assert((left + right).last() == right.last());
        assert(finished_turns(left + right) =~= finished_turns(left) + finished_turns(right));
    }
}

impl RuntimeOwner {
    /// An owner at its start.
    pub fn new(
        native: bool,
        phase: RuntimePhase,
        reason: Option<ProviderUnavailableReason>,
        has_agent: bool,
        has_resources: bool,
        has_session: bool,
    ) -> (owner: RuntimeOwner)
        ensures
            owner@.wf(),
            owner@.native == native,
            owner@.phase == if phase == RuntimePhase::Ready && reason is Some {
                RuntimePhase::AwaitingProvider
            } else {
                phase
            },
            owner@.generation == 0,
            owner@.has_resources == has_resources,
            owner@.has_session == has_session,
            owner@.agent_attached == has_agent,
            owner@.agent_open == has_agent,
            owner@.agent_available == (owner@.phase == RuntimePhase::Ready),
            owner@.provider_unavailable_reason == reason,
            !owner@.compaction_suspended && owner@.observed_tokens is None,
            owner@.compactions == TrackerView::none(),
            owner@.next_turn_id == 0 && owner@.conversation_revision == 0,
            owner@.active_turn is None && owner@.held_turn is None,
            owner@.pending_requests.len() == 0 && owner@.snapshot_waiters.len() == 0,
            !owner@.snapshot_in_flight && owner@.terminal_reason is None,
            owner@.turn_stats == RuntimeTurnStats::none() && !owner@.turn_clock,
            owner@.pending_local_context.len() == 0,
            owner@.next_controller_id == 0,
            owner@.goal is None && owner@.loop_state is None && !owner@.loop_active,
            owner@.pending_wakeup is None,
            !owner@.ai_name_attempted && owner@.persistence_failure is None,
            owner@.outbox == (match reason {
                Some(why) => seq![
                    ActionView::Emit {
                        generation: 0,
                        event: EventView::Plain(
                            CodingRuntimeEvent::ProviderUnavailable { reason: why, forced: false },
                        ),
                    },
                ],
                None => Seq::empty(),
            }),
    {
        let phase = if phase == RuntimePhase::Ready && reason.is_some() {
            RuntimePhase::AwaitingProvider
        } else {
            phase
        };
        let mut owner = RuntimeOwner {
            native,
            generation: 0,
            phase,
            has_resources,
            has_session,
            agent_attached: has_agent,
            agent_open: has_agent,
            agent_available: matches!(phase, RuntimePhase::Ready),
            compaction_suspended: false,
            provider_unavailable_reason: reason,
            observed_tokens: None,
            compactions: CompactionTracker::new(),
            next_turn_id: 0,
            conversation_revision: 0,
            active_turn: None,
            pending_requests: Vec::new(),
            snapshot_waiters: Vec::new(),
            snapshot_in_flight: false,
            terminal_reason: None,
            turn_stats: RuntimeTurnStats::default(),
            turn_clock: false,
            pending_local_context: Vec::new(),
            next_controller_id: 0,
            goal: None,
            loop_state: None,
            loop_active: false,
            pending_wakeup: None,
            held_turn: None,
            ai_name_attempted: false,
            persistence_failure: None,
            outbox: Vec::new(),
        };
        assert(owner@.outbox =~= Seq::empty());
        if let Some(why) = reason {
            owner.emit(CodingRuntimeEvent::ProviderUnavailable { reason: why, forced: false });
            assert(owner@.outbox =~= seq![owner@.outbox[0]]);
        }
        owner
    }

    /// A command that was on its way to the agent did not arrive: the agent takes none any
    /// more, and the runtime has failed. A turn that the command was to open was never
    /// accepted; any other turn in progress is reported when the agent's events end.
    pub fn agent_unreachable(&mut self, lost: LostCommand)
        ensures
            final(self)@ == old(self)@.unreachable(lost),
            old(self)@.wf() ==> final(self)@.wf(),
    {
        self.agent_open = false;
        self.fail();
        match lost {
            LostCommand::Opening => {
                self.active_turn = None;
            },
            LostCommand::Snapshot => {
                self.snapshot_in_flight = false;
                self.deny_waiters(true);
            },
            LostCommand::Other => {},
        }
    }

    /// Notes whether the attached agent still takes commands.
    pub fn observe_agent(&mut self, open: bool)
        ensures
            final(self)@ == (OwnerView { agent_open: open, ..old(self)@ }),
            old(self)@.wf() ==> final(self)@.wf(),
    {
        self.agent_open = open;
    }

    /// Lifecycle state that handles read.
    pub(crate) fn enter(&mut self, phase: RuntimePhase)
        ensures
            final(self)@ == old(self)@.in_phase(phase),
    {
        self.phase = if phase == RuntimePhase::Ready && self.provider_unavailable_reason.is_some() {
            RuntimePhase::AwaitingProvider
        } else {
            phase
        };
    }

    pub fn status(&self) -> (status: RuntimeStatus)
        ensures
            status == (RuntimeStatus { generation: self@.generation, phase: self@.phase }),
    {
        RuntimeStatus { generation: self.generation, phase: self.phase }
    }

    /// Hands out what is to be done, and leaves nothing.
    pub fn take_actions(&mut self) -> (actions: Vec<OwnerAction>)
        ensures
            action_views(actions@) == old(self)@.outbox,
            final(self)@ == (OwnerView { outbox: Seq::empty(), ..old(self)@ }),
            old(self)@.wf() ==> final(self)@.wf(),
    {
        let mut actions: Vec<OwnerAction> = Vec::new();
        core::mem::swap(&mut actions, &mut self.outbox);
        assert(self@.outbox =~= Seq::empty());
        actions
    }

    pub(crate) fn take_goal(&mut self) -> (goal: Option<GoalState>)
        ensures
            goal_view(goal) == old(self)@.goal,
            final(self)@ == (OwnerView { goal: None, ..old(self)@ }),
    {
        self.goal.take()
    }

    pub(crate) fn take_loop(&mut self) -> (state: Option<LoopState>)
        ensures
            loop_view(state) == old(self)@.loop_state,
            final(self)@ == (OwnerView { loop_state: None, ..old(self)@ }),
    {
        self.loop_state.take()
    }

    pub(crate) fn take_held(&mut self) -> (held: Option<HeldTurn>)
        ensures
            held == old(self)@.held_turn,
            final(self)@ == (OwnerView { held_turn: None, ..old(self)@ }),
    {
        self.held_turn.take()
    }

    pub(crate) fn take_wakeup(&mut self) -> (wakeup: Option<WakeupRequest>)
        ensures
            wakeup == old(self)@.pending_wakeup,
            final(self)@ == (OwnerView { pending_wakeup: None, ..old(self)@ }),
    {
        self.pending_wakeup.take()
    }

    pub(crate) fn take_compactions(&mut self) -> (open: Vec<CompactTrigger>)
        ensures
            open@ == old(self)@.compactions.open_triggers(),
            final(self)@ == (OwnerView { compactions: TrackerView::none(), ..old(self)@ }),
    {
        self.compactions.take_open()
    }

    pub(crate) fn note_accepted(&mut self, trigger: CompactTrigger)
        ensures
            final(self)@ == (OwnerView {
                compactions: old(self)@.compactions.accept(trigger),
                ..old(self)@
            }),
    {
        self.compactions.accepted_manual(trigger);
    }

    pub(crate) fn note_started(&mut self, trigger: &CompactTrigger)
        ensures
            final(self)@ == (OwnerView {
                compactions: old(self)@.compactions.start(*trigger),
                ..old(self)@
            }),
    {
        self.compactions.started(trigger);
    }

    pub(crate) fn note_finished(&mut self, trigger: &CompactTrigger)
        ensures
            final(self)@ == (OwnerView {
                compactions: old(self)@.compactions.finish(*trigger),
                ..old(self)@
            }),
    {
        self.compactions.finished(trigger);
    }

    pub(crate) fn clear_waiters(&mut self)
        ensures
            final(self)@ == (OwnerView { snapshot_waiters: Seq::empty(), ..old(self)@ }),
    {
        self.snapshot_waiters.clear();
    }

    pub(crate) fn clear_requests(&mut self)
        ensures
            final(self)@ == (OwnerView { pending_requests: Seq::empty(), ..old(self)@ }),
    {
        self.pending_requests.clear();
    }

    pub(crate) fn push(&mut self, action: OwnerAction)
        ensures
            final(self)@ == old(self)@.act(action@),
    {
        self.outbox.push(action);
        assert(self@.outbox =~= old(self)@.outbox.push(action@));
    }

    pub(crate) fn emit(&mut self, event: CodingRuntimeEvent)
        ensures
            final(self)@ == old(self)@.emit(event@),
    {
        let generation: u64 = self.generation;
        self.push(OwnerAction::Emit { generation, event });
    }

    pub(crate) fn warn(&mut self, text: &str)
        ensures
            final(self)@ == old(self)@.emit(EventView::ControllerWarning(text@)),
    {
        self.emit(CodingRuntimeEvent::ControllerWarning(text.to_owned()));
    }

    pub(crate) fn emit_error(&mut self, message: &str)
        ensures
            final(self)@ == old(self)@.emit(EventView::AgentError(message@)),
    {
        self.emit(
            CodingRuntimeEvent::Agent(
                AgentEvent::Error { message: message.to_owned(), http_status: None, code: None },
            ),
        );
    }

    pub(crate) fn offer(&mut self, command: AgentCommand) -> (sent: bool)
        ensures
            sent == old(self)@.deliverable(),
            final(self)@ == old(self)@.offer(command@),
    {
        if self.agent_attached && self.agent_open {
            self.push(OwnerAction::Send(command));
            true
        } else {
            false
        }
    }

    pub(crate) fn fail(&mut self)
        ensures
            final(self)@ == old(self)@.failed(),
    {
        self.agent_available = false;
        self.phase = RuntimePhase::Failed;
    }

    pub(crate) fn abandon(&mut self)
        ensures
            final(self)@ == old(self)@.abandoned(),
    {
        self.fail();
        let _ = self.offer(AgentCommand::Shutdown);
        self.agent_attached = false;
    }

    pub(crate) fn refuse_waiters(&mut self, message: &str)
        ensures
            final(self)@ == old(self)@.answer_all(AnswerView::SnapshotUnavailable(message@)),
    {
        let ghost answer = AnswerView::SnapshotUnavailable(message@);
        let ghost told = |waiter: u64| ActionView::AnswerSnapshot { waiter, answer };
        let mut i: usize = 0;
        while i < self.snapshot_waiters.len()
            invariant
                0 <= i <= self.snapshot_waiters.len(),
                answer == AnswerView::SnapshotUnavailable(message@),
                told == (|waiter: u64| ActionView::AnswerSnapshot { waiter, answer }),
                self@ == old(self)@.act_all(
                    old(self)@.snapshot_waiters.take(i as int).map_values(told),
                ),
            decreases self.snapshot_waiters.len() - i,
        {
            let waiter: u64 = self.snapshot_waiters[i];
            self.push(
                OwnerAction::AnswerSnapshot {
                    waiter,
                    result: Err(RuntimeError::SnapshotUnavailable(message.to_owned())),
                },
            );
            assert(self@.outbox =~= old(self)@.outbox + old(self)@.snapshot_waiters.take(
                i + 1,
            ).map_values(told));
            i = i + 1;
        }
        self.clear_waiters();
        assert(old(self)@.snapshot_waiters.take(i as int) =~= old(self)@.snapshot_waiters);
        assert(self@.outbox =~= old(self)@.outbox + old(self)@.answers(answer));
    }

    pub(crate) fn deny_waiters(&mut self, delivery: bool)
        ensures
            final(self)@ == old(self)@.answer_all(
                AnswerView::Refused(
                    if delivery {
                        RuntimeError::DeliveryFailed
                    } else {
                        RuntimeError::Unavailable
                    },
                ),
            ),
    {
        let ghost error = if delivery {
            RuntimeError::DeliveryFailed
        } else {
            RuntimeError::Unavailable
        };
        let ghost answer = AnswerView::Refused(error);
        let ghost told = |waiter: u64| ActionView::AnswerSnapshot { waiter, answer };
        let mut i: usize = 0;
        while i < self.snapshot_waiters.len()
            invariant
                0 <= i <= self.snapshot_waiters.len(),
                error == if delivery {
                    RuntimeError::DeliveryFailed
                } else {
                    RuntimeError::Unavailable
                },
                answer == AnswerView::Refused(error),
                told == (|waiter: u64| ActionView::AnswerSnapshot { waiter, answer }),
                self@ == old(self)@.act_all(
                    old(self)@.snapshot_waiters.take(i as int).map_values(told),
                ),
            decreases self.snapshot_waiters.len() - i,
        {
            let waiter: u64 = self.snapshot_waiters[i];
            let refusal = if delivery {
                RuntimeError::DeliveryFailed
            } else {
                RuntimeError::Unavailable
            };
            self.push(OwnerAction::AnswerSnapshot { waiter, result: Err(refusal) });
            assert(self@.outbox =~= old(self)@.outbox + old(self)@.snapshot_waiters.take(
                i + 1,
            ).map_values(told));
            i = i + 1;
        }
        self.clear_waiters();
        assert(old(self)@.snapshot_waiters.take(i as int) =~= old(self)@.snapshot_waiters);
        assert(self@.outbox =~= old(self)@.outbox + old(self)@.answers(answer));
    }

    pub(crate) fn serve_waiters(
        &mut self,
        snapshot: &Arc<SessionSnapshot>,
        undo_snapshot: &Arc<SessionSnapshot>,
    )
        ensures
            final(self)@ == old(self)@.answer_all(
                AnswerView::Ready(
                    RuntimeSnapshotReceipt {
                        snapshot: *snapshot,
                        undo_snapshot: *undo_snapshot,
                        revision: old(self)@.conversation_revision,
                    },
                ),
            ),
    {
        let ghost receipt = RuntimeSnapshotReceipt {
            snapshot: *snapshot,
            undo_snapshot: *undo_snapshot,
            revision: self.conversation_revision,
        };
        let ghost answer = AnswerView::Ready(receipt);
        let ghost told = |waiter: u64| ActionView::AnswerSnapshot { waiter, answer };
        let mut i: usize = 0;
        while i < self.snapshot_waiters.len()
            invariant
                0 <= i <= self.snapshot_waiters.len(),
                receipt == (RuntimeSnapshotReceipt {
                    snapshot: *snapshot,
                    undo_snapshot: *undo_snapshot,
                    revision: old(self)@.conversation_revision,
                }),
                answer == AnswerView::Ready(receipt),
                told == (|waiter: u64| ActionView::AnswerSnapshot { waiter, answer }),
                self@ == old(self)@.act_all(
                    old(self)@.snapshot_waiters.take(i as int).map_values(told),
                ),
            decreases self.snapshot_waiters.len() - i,
        {
            let waiter: u64 = self.snapshot_waiters[i];
            let revision: u64 = self.conversation_revision;
            self.push(
                OwnerAction::AnswerSnapshot {
                    waiter,
                    result: Ok(
                        RuntimeSnapshotReceipt {
                            snapshot: share(snapshot),
                            undo_snapshot: share(undo_snapshot),
                            revision,
                        },
                    ),
                },
            );
            assert(self@.outbox =~= old(self)@.outbox + old(self)@.snapshot_waiters.take(
                i + 1,
            ).map_values(told));
            i = i + 1;
        }
        self.clear_waiters();
        assert(old(self)@.snapshot_waiters.take(i as int) =~= old(self)@.snapshot_waiters);
        assert(self@.outbox =~= old(self)@.outbox + old(self)@.answers(answer));
    }

    pub(crate) fn end_goal(&mut self, terminal: GoalTerminal, note: &str)
        ensures
            final(self)@ == old(self)@.end_goal(terminal, note@),
    {
        if let Some(mut state) = self.take_goal() {
            self.push(OwnerAction::CancelController { id: state.id });
            state.finish(terminal, note.to_owned());
            self.emit(CodingRuntimeEvent::GoalChanged(state.progress()));
        }
        assert(self@.outbox =~= old(self)@.outbox + old(self)@.goal_farewell(terminal, note@));
    }

    pub(crate) fn end_loop(&mut self, note: &str)
        ensures
            final(self)@ == old(self)@.end_loop(note@),
    {
        if let Some(mut state) = self.take_loop() {
            self.push(OwnerAction::CancelController { id: state.id });
            state.stop(note.to_owned());
            self.emit(CodingRuntimeEvent::LoopChanged(state.progress()));
        }
        assert(self@.outbox =~= old(self)@.outbox + old(self)@.loop_farewell(note@));
    }

    pub(crate) fn end_controllers(&mut self, terminal: GoalTerminal, note: &str)
        ensures
            final(self)@ == old(self)@.end_controllers(terminal, note@),
    {
        self.end_goal(terminal, note);
        self.end_loop(note);
        if self.has_resources {
            self.loop_active = false;
        }
        self.pending_wakeup = None;
    }

    pub(crate) fn release_held(&mut self, reason: StopReason) -> (released: bool)
        ensures
            released == (old(self)@.held_turn is Some),
            final(self)@ == old(self)@.release_held(reason),
    {
        match self.take_held() {
            Some(held) => {
                self.active_turn = None;
                self.emit(
                    CodingRuntimeEvent::TurnFinished(
                        TurnCompletion::Completed {
                            turn_id: held.turn_id,
                            reason,
                            snapshot: held.snapshot,
                            stats: held.stats,
                        },
                    ),
                );
                assert(self@.outbox =~= old(self)@.outbox + old(self)@.held_farewell(reason));
                true
            },
            None => {
                assert(self@.outbox =~= old(self)@.outbox + old(self)@.held_farewell(reason));
                false
            },
        }
    }

    pub(crate) fn interrupt_all(&mut self, reason: CompactionInterruption)
        ensures
            final(self)@ == old(self)@.interrupt_all(reason),
    {
        let open = self.take_compactions();
        let ghost triggers = open@;
        let ghost generation = self.generation;
        let ghost told = |trigger: CompactTrigger| interrupted(generation, trigger, reason);
        let ghost base = self@;
        let mut i: usize = 0;
        while i < open.len()
            invariant
                0 <= i <= open.len(),
                open@ == triggers,
                generation == base.generation,
                told == (|trigger: CompactTrigger| interrupted(generation, trigger, reason)),
                self@ == base.act_all(triggers.take(i as int).map_values(told)),
            decreases open.len() - i,
        {
            let trigger = open[i].duplicate();
            self.emit(
                CodingRuntimeEvent::CompactionFinished {
                    completion: CompactionCompletion::Interrupted { trigger, reason },
                },
            );
            assert(self@.outbox =~= base.outbox + triggers.take(i + 1).map_values(told));
            i = i + 1;
        }
        assert(triggers.take(i as int) =~= triggers);
        assert(self@.outbox =~= old(self)@.outbox + old(self)@.interruptions(reason));
    }

    /// Turns every pending request down and, where asked, cancels the turn in progress.
    pub(crate) fn fail_close_pending_requests(&mut self, cancel_turn: bool)
        ensures
            final(self)@ == old(self)@.fail_close_pending(cancel_turn),
    {
        let ghost told = |id: RequestId| denial(id);
        let ghost ids = self.pending_requests@;
        let mut i: usize = 0;
        if self.agent_attached && self.agent_open {
            while i < self.pending_requests.len()
                invariant
                    0 <= i <= self.pending_requests.len(),
                    ids == old(self)@.pending_requests,
                    told == (|id: RequestId| denial(id)),
                    old(self)@.deliverable(),
                    self@ == old(self)@.act_all(ids.take(i as int).map_values(told)),
                decreases self.pending_requests.len() - i,
            {
                let id: u64 = self.pending_requests[i];
                let _ = self.offer(AgentCommand::Respond { id, value: ReplyValue::Null });
                assert(self@.outbox =~= old(self)@.outbox + ids.take(i + 1).map_values(told));
                i = i + 1;
            }
            assert(ids.take(i as int) =~= ids);
        }
        assert(self@.outbox =~= old(self)@.outbox + old(self)@.denials());
        self.clear_requests();
        if cancel_turn {
            let _ = self.offer(AgentCommand::Cancel);
        }
    }
}

} // verus!
