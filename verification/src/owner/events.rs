//! Events of the agent: compactions, usage, requests, the end of a turn and the snapshot
//! that seals it.
use super::laws::{
    a_closed_stream_accounts_for_the_turn, events_account_for_the_turn,
    events_keep_the_owner_well_formed,
};
use super::stopping::is_compaction_event;
use super::{
    accounts_for_turn, ascending, bump, ActionView, AnswerView, HeldTurn, OwnerAction, OwnerView,
    RuntimeOwner,
};
use crate::controllers::{saturated, GoalState, GoalTerminal, GoalView, WakeupRequest};
use crate::conversation::{message_views, SessionSnapshot, ToolCall};
use crate::event::{
    AgentCommand, AgentEvent, CodingRuntimeEvent, CommandView, CompletionView, EventView,
    MessageMeta, RequestId, RuntimeRequest, RuntimeSnapshotError, RuntimeSnapshotReceipt,
    RuntimeTurnStats, StopReason, TurnCompletion,
};
use crate::phase::RuntimePhase;
use crate::session_title::{first_exchange, first_exchange_text};
use crate::text::{copy_opt, join2, join3, same_text, share};
use std::sync::Arc;
use vstd::prelude::*;

verus! {

/// What the outside knows when an event comes in.
#[derive(Clone, Debug, PartialEq, Eq)]
pub struct EventFacts {
    /// Doubt about the stored session, asked for at the end of a turn and after a failed
    /// compaction.
    pub doubt: Option<String>,
    /// A warning about the cost records.
    pub cost_warning: Option<String>,
    /// Time since the turn started.
    pub elapsed_nanos: u64,
    /// Snapshot of the bound session.
    pub stored: Option<Arc<SessionSnapshot>>,
    /// Whether sessions are named by a model.
    pub naming_enabled: bool,
    /// The limit that the goal has run into, with the turn charged to it (see
    /// [`RuntimeOwner::charged_goal`]).
    pub goal_cap: Option<String>,
    /// Failed rounds in a row that a goal survives, plus one.
    pub max_unproductive: u32,
}

/// Which of the facts an event asks for. Asking has effects outside: doubt and warnings are
/// handed out once, and the clock of a turn is read once.
#[derive(Clone, Copy, Debug, PartialEq, Eq, Structural)]
pub struct EventQuestions {
    pub doubt: bool,
    pub cost_warning: bool,
    pub elapsed: bool,
    pub stored: bool,
    pub naming: bool,
    pub goal_cap: bool,
}

impl EventQuestions {
    /// Whether the facts agree on everything that is asked for.
    pub open spec fn agree(self, facts: EventFacts, other: EventFacts) -> bool {
        &&& self.doubt ==> facts.doubt == other.doubt
        &&& self.cost_warning ==> facts.cost_warning == other.cost_warning
        &&& self.elapsed ==> facts.elapsed_nanos == other.elapsed_nanos
        &&& self.stored ==> facts.stored == other.stored
        &&& self.naming ==> facts.naming_enabled == other.naming_enabled
        &&& self.goal_cap ==> facts.goal_cap == other.goal_cap
        &&& facts.max_unproductive == other.max_unproductive
    }
}

/// Whether a goal is evaluated after a turn that ended so.
pub open spec fn evaluates(reason: StopReason) -> bool {
    reason == StopReason::Stopped || reason == StopReason::MaxContinuations || reason
        == StopReason::MaxRounds
}

/// Whether a goal tries again after a turn that ended so.
pub open spec fn recoverable(reason: StopReason) -> bool {
    reason == StopReason::Timeout || reason == StopReason::ProviderError
}

/// Reason of a turn that ends because the goal ran into a limit.
pub open spec fn cap_reason(why: Seq<char>) -> StopReason {
    if why == "round limit"@ {
        StopReason::MaxRounds
    } else if why == "time limit"@ {
        StopReason::Timeout
    } else {
        StopReason::ProviderError
    }
}

fn reason_of_cap(why: &str) -> (reason: StopReason)
    ensures
        reason == cap_reason(why@),
{
    if same_text(why, "round limit") {
        StopReason::MaxRounds
    } else if same_text(why, "time limit") {
        StopReason::Timeout
    } else {
        StopReason::ProviderError
    }
}

/// What is said of a turn whose agent went away.
pub open spec fn stream_closed_text() -> Seq<char> {
    "kernel event stream closed before snapshot terminal"@
}

/// The list with the value in its place.
pub open spec fn with_request(ids: Seq<RequestId>, id: RequestId) -> Seq<RequestId>
    decreases ids.len(),
{
    if ids.len() == 0 {
        seq![id]
    } else if ids.last() == id {
        ids
    } else if ids.last() < id {
        ids.push(id)
    } else {
        with_request(ids.drop_last(), id).push(ids.last())
    }
}

/// Putting a value in its place keeps the list ascending, and adds that value alone.
pub proof fn with_request_is_ascending(ids: Seq<RequestId>, id: RequestId)
    requires
        ascending(ids),
    ensures
        ascending(with_request(ids, id)),
        forall|x: RequestId| #[trigger]
            with_request(ids, id).contains(x) <==> ids.contains(x) || x == id,
        with_request(ids, id).len() > 0,
        ids.len() > 0 ==> with_request(ids, id).last() == if ids.last() < id {
            id
        } else {
            ids.last()
        },
        ids.len() == 0 ==> with_request(ids, id).last() == id,
    decreases ids.len(),
{
    let all = with_request(ids, id);
    if ids.len() == 0 {
        assert(all[0] == id);
    } else if ids.last() == id {
        assert(ids[ids.len() - 1] == id);
    } else if ids.last() < id {
        assert forall|x: RequestId| #[trigger] all.contains(x) <==> ids.contains(x) || x == id by {
            assert(all[ids.len() as int] == id);
            if ids.contains(x) {
                let i = ids.index_of(x);
                assert(all[i] == x);
            }
            if all.contains(x) && x != id {
                let i = all.index_of(x);
                assert(ids[i] == x);
            }
        }
        assert forall|i: int, j: int| 0 <= i < j < all.len() implies all[i] < all[j] by {
            if j == ids.len() {
                assert(ids[i] <= ids[ids.len() - 1]);
            }
        }
    } else {
        let front = ids.drop_last();
        assert(ascending(front));
        with_request_is_ascending(front, id);
        let placed = with_request(front, id);
        assert forall|x: RequestId| #[trigger] all.contains(x) <==> ids.contains(x) || x == id by {
            assert(all[placed.len() as int] == ids.last());
            if ids.contains(x) {
                let i = ids.index_of(x);
                if i < front.len() {
                    assert(front[i] == x);
                    assert(placed.contains(x));
                    assert(all[placed.index_of(x)] == x);
                }
            }
            if x == id {
                assert(placed.contains(x));
                assert(all[placed.index_of(x)] == x);
            }
            if all.contains(x) {
                let i = all.index_of(x);
                if i < placed.len() {
                    assert(placed[i] == x);
                    assert(placed.contains(x));
                    if x != id {
                        assert(front.contains(x));
                        assert(ids[front.index_of(x)] == x);
                    }
                } else {
                    assert(ids[ids.len() - 1] == x);
                }
            }
        }
        assert forall|i: int, j: int| 0 <= i < j < all.len() implies all[i] < all[j] by {
            if j == placed.len() {
                assert(placed.contains(placed[i]));
                if placed[i] != id {
                    assert(front.contains(placed[i]));
                    let k = front.index_of(placed[i]);
                    assert(ids[k] < ids[ids.len() - 1]);
                }
            } else {
                assert(placed[i] < placed[j]);
            }
        }
    }
}

/// Where a value that is not in the list belongs.
fn request_slot(ids: &Vec<RequestId>, id: RequestId) -> (slot: Option<usize>)
    ensures
        match slot {
            Some(at) => at <= ids@.len() && with_request(ids@, id) == ids@.insert(at as int, id),
            None => with_request(ids@, id) == ids@,
        },
{
    let mut i: usize = ids.len();
    proof {
        assert(ids@.take(ids@.len() as int) =~= ids@);
        assert(with_request(ids@, id) + ids@.skip(ids@.len() as int) =~= with_request(ids@, id));
    }
    while i > 0 && ids[i - 1] > id
        invariant
            0 <= i <= ids@.len(),
            with_request(ids@, id) == with_request(ids@.take(i as int), id) + ids@.skip(i as int),
        decreases i,
    {
        proof {
            let head = ids@.take(i as int);
            assert(head.last() == ids@[i - 1]);
            assert(head.drop_last() =~= ids@.take(i - 1));
            let shorter = with_request(ids@.take(i - 1), id);
            assert(with_request(head, id) == shorter.push(ids@[i - 1]));
            assert(shorter.push(ids@[i - 1]) + ids@.skip(i as int) =~= shorter + ids@.skip(i - 1));
        }
        i = i - 1;
    }
    proof {
        let head = ids@.take(i as int);
        if i > 0 {
            assert(head.last() == ids@[i - 1]);
        }
    }
    if i > 0 && ids[i - 1] == id {
        assert(ids@.take(i as int) + ids@.skip(i as int) =~= ids@);
        None
    } else {
        assert(ids@.insert(i as int, id) =~= with_request(ids@.take(i as int), id) + ids@.skip(
            i as int,
        ));
        Some(i)
    }
}

impl OwnerView {
    /// The turn in progress ends without a snapshot; where there is none, turn zero does.
    pub open spec fn lose_any_turn(self, message: Seq<char>) -> OwnerView {
        (OwnerView {
            active_turn: None,
            held_turn: None,
            turn_stats: RuntimeTurnStats::none(),
            ..self
        }).emit(
            EventView::TurnFinished(self.lost(StopReason::ProviderError, message)),
        )
    }

    /// What ends with the session in doubt: the requests, the controllers, whoever waits for
    /// a snapshot.
    pub open spec fn in_doubt(
        self,
        error: Seq<char>,
        note: Seq<char>,
        message: Seq<char>,
    ) -> OwnerView {
        (OwnerView {
            persistence_failure: Some(error),
            pending_requests: Seq::empty(),
            terminal_reason: None,
            snapshot_in_flight: false,
            ..self.end_controllers(GoalTerminal::Failed, note)
        }).answer_all(AnswerView::SnapshotUnavailable(message)).emit(EventView::AgentError(message))
    }

    /// A compaction left the stored session in doubt: the runtime stops.
    #[verifier::opaque]
    pub open spec fn compaction_doubted(self, error: Seq<char>) -> OwnerView {
        let message = "compaction persistence became uncertain; runtime stopped: "@ + error;
        let shut = (OwnerView { held_turn: None, ..self }).in_doubt(
            error,
            "ended: compaction persistence became uncertain"@,
            message,
        );
        let ended = OwnerView {
            turn_stats: RuntimeTurnStats::none(),
            ..shut.end_turn(shut.lost(StopReason::ProviderError, message))
        };
        ended.abandoned()
    }

    /// The end of a turn left the stored session in doubt: the runtime stops.
    #[verifier::opaque]
    pub open spec fn turn_doubted(self, error: Seq<char>) -> OwnerView {
        let message = "session persistence became uncertain; runtime stopped: "@ + error;
        self.in_doubt(error, "ended: session persistence became uncertain"@, message).lose_any_turn(
            message,
        ).abandoned()
    }

    /// The agent could not be asked for the snapshot that seals the turn.
    #[verifier::opaque]
    pub open spec fn unsealed(self) -> OwnerView {
        let message = "kernel snapshot command delivery failed"@;
        (OwnerView {
            terminal_reason: None,
            pending_requests: Seq::empty(),
            ..self.end_controllers(
                GoalTerminal::Failed,
                "ended: kernel snapshot command delivery failed"@,
            )
        }).answer_all(AnswerView::SnapshotUnavailable(message)).lose_any_turn(message).failed()
    }

    pub open spec fn warned(self, warning: Option<String>) -> OwnerView {
        match warning {
            Some(text) => self.emit(EventView::ControllerWarning(text@)),
            None => self,
        }
    }

    /// A committed compaction moves the conversation on, and is the new resume point of a
    /// runtime without a session.
    pub open spec fn compaction_committed(self, event: AgentEvent) -> OwnerView {
        match event {
            AgentEvent::Compacted {
                trigger,
                epoch,
                removed,
                bytes_before,
                bytes_after,
                committed: true,
                snapshot,
            } => OwnerView {
                conversation_revision: bump(self.conversation_revision),
                outbox: if snapshot is Some && self.has_resources && !self.has_session {
                    self.outbox.push(ActionView::KeepResume(snapshot->0))
                } else {
                    self.outbox
                },
                ..self
            },
            _ => self,
        }
    }

    /// The clock of the turn stops.
    pub open spec fn clock_stopped(self, elapsed_nanos: u64) -> OwnerView {
        OwnerView {
            turn_clock: false,
            turn_stats: RuntimeTurnStats {
                duration_nanos: if self.turn_clock {
                    elapsed_nanos
                } else {
                    0
                },
                ..self.turn_stats
            },
            ..self
        }
    }

    /// The agent ended the turn: its snapshot is asked for, unless one is on its way.
    pub open spec fn turn_ended(self, reason: StopReason) -> OwnerView {
        let noted = OwnerView { terminal_reason: Some(reason), ..self };
        if self.snapshot_in_flight {
            noted
        } else if self.deliverable() {
            (OwnerView {
                snapshot_in_flight: true,
                ..noted.offer(CommandView::Plain(AgentCommand::Snapshot))
            })
        } else {
            noted.unsealed()
        }
    }

    /// The snapshot that `stored` or else the agent gives for undoing.
    pub open spec fn undo_base(
        snapshot: Arc<SessionSnapshot>,
        stored: Option<Arc<SessionSnapshot>>,
    ) -> Arc<SessionSnapshot> {
        match stored {
            Some(kept) => kept,
            None => snapshot,
        }
    }

    /// A snapshot came: whoever waits for one gets it.
    pub open spec fn snapshot_taken(
        self,
        snapshot: Arc<SessionSnapshot>,
        stored: Option<Arc<SessionSnapshot>>,
    ) -> OwnerView {
        let revision = if self.terminal_reason is Some {
            bump(self.conversation_revision)
        } else {
            self.conversation_revision
        };
        (OwnerView {
            snapshot_in_flight: false,
            conversation_revision: revision,
            outbox: if self.has_resources && !self.has_session {
                self.outbox.push(ActionView::KeepResume(snapshot))
            } else {
                self.outbox
            },
            ..self
        }).answer_all(
            AnswerView::Ready(
                RuntimeSnapshotReceipt {
                    snapshot,
                    undo_snapshot: OwnerView::undo_base(snapshot, stored),
                    revision,
                },
            ),
        )
    }

    /// The turn that the snapshot seals.
    pub open spec fn sealed_turn(self, snapshot: Arc<SessionSnapshot>) -> HeldTurn {
        HeldTurn {
            turn_id: match self.active_turn {
                Some(turn_id) => turn_id,
                None => 0,
            },
            reason: self.terminal_reason->0,
            snapshot,
            stats: self.turn_stats,
        }
    }

    /// Nothing of the sealed turn is open any more.
    pub open spec fn sealed(self) -> OwnerView {
        OwnerView {
            terminal_reason: None,
            pending_requests: Seq::empty(),
            turn_stats: RuntimeTurnStats::none(),
            ..self
        }
    }

    /// Whether the session is to be named now.
    pub open spec fn names_session(self, done: HeldTurn, naming_enabled: bool) -> bool {
        done.reason != StopReason::Cancelled && !self.ai_name_attempted && naming_enabled
            && first_exchange(message_views(done.snapshot.messages@)) is Some
    }

    /// A name is asked for, once, after the first turn that was not cancelled.
    pub open spec fn named(self, done: HeldTurn, naming_enabled: bool) -> OwnerView {
        OwnerView {
            ai_name_attempted: self.ai_name_attempted || self.names_session(done, naming_enabled),
            outbox: if self.names_session(done, naming_enabled) {
                self.outbox.push(
                    ActionView::SuggestName {
                        generation: self.generation,
                        conversation: first_exchange(message_views(done.snapshot.messages@))->0,
                    },
                )
            } else {
                self.outbox
            },
            ..self
        }
    }

    /// The turn ends for the reason, and the runtime is ready for the next.
    pub open spec fn turn_closed(self, done: HeldTurn, reason: StopReason) -> OwnerView {
        (OwnerView {
            active_turn: None,
            held_turn: None,
            phase: self.fitting(RuntimePhase::Ready),
            ..self
        }).emit(
            EventView::TurnFinished(
                CompletionView::Completed {
                    turn_id: done.turn_id,
                    reason,
                    snapshot: done.snapshot,
                    stats: done.stats,
                },
            ),
        )
    }

    /// The goal as it stands after the turn.
    pub open spec fn charged_goal(goal: GoalView, done: HeldTurn) -> GoalView {
        match done.stats.last_usage {
            Some(meta) => goal.charge(meta.tokens.spent()),
            None => goal,
        }
    }

    /// The goal ran into a limit.
    #[verifier::opaque]
    pub open spec fn goal_capped(self, goal: GoalView, done: HeldTurn, why: Seq<char>) -> OwnerView {
        self.conclude_goal(goal.finish(GoalTerminal::Stopped, "stopped: "@ + why)).emit(
            EventView::ControllerWarning(
                "goal stopped: "@ + why + " — goal not met; run /goal again to continue"@,
            ),
        ).turn_closed(done, cap_reason(why))
    }

    /// The goal is to be evaluated; the turn is held back meanwhile.
    #[verifier::opaque]
    pub open spec fn goal_held(self, goal: GoalView, done: HeldTurn) -> OwnerView {
        (OwnerView {
            goal: Some(GoalView { unproductive: 0, ..goal }),
            held_turn: Some(done),
            ..self
        }).act(
            ActionView::EvaluateGoal {
                generation: self.generation,
                controller_id: goal.id,
                condition: goal.condition,
                last_reason: goal.last_reason,
                snapshot: done.snapshot,
            },
        )
    }

    /// The turn failed, and the goal tries again or gives up.
    #[verifier::opaque]
    pub open spec fn goal_retried(self, goal: GoalView, done: HeldTurn, limit: u32) -> OwnerView {
        let failed = GoalView {
            unproductive: saturated(goal.unproductive as int, 1, u32::MAX as int) as u32,
            ..goal
        };
        let why = "round ended: "@ + done.reason.text();
        let next = failed.next_round(why);
        if failed.unproductive >= limit {
            self.conclude_goal(
                failed.finish(GoalTerminal::Failed, "stopped: too many failed rounds"@),
            ).emit(
                EventView::ControllerWarning("goal stopped: too many failed rounds"@),
            ).turn_closed(done, StopReason::ProviderError)
        } else if self.deliverable() {
            (OwnerView { goal: Some(next), held_turn: None, ..self }).act(
                ActionView::ContinueGoal { reason: why, condition: goal.condition },
            ).emit(EventView::GoalChanged(next))
        } else {
            (OwnerView { goal: Some(next), held_turn: None, ..self }).end_goal(
                GoalTerminal::Failed,
                "continuation dispatch failed"@,
            ).emit(
                EventView::ControllerWarning("goal stopped: continuation dispatch failed"@),
            ).turn_closed(done, StopReason::ProviderError).failed()
        }
    }

    /// The turn ended in a way that ends the goal.
    #[verifier::opaque]
    pub open spec fn goal_dropped(self, goal: GoalView, done: HeldTurn) -> OwnerView {
        self.conclude_goal(
            goal.finish(GoalTerminal::Failed, "ended: "@ + done.reason.text()),
        ).turn_closed(done, done.reason)
    }

    /// What the goal makes of a sealed turn.
    pub open spec fn goal_turn(
        self,
        goal: GoalView,
        done: HeldTurn,
        cap: Option<String>,
        limit: u32,
    ) -> OwnerView {
        match cap {
            Some(why) => self.goal_capped(goal, done, why@),
            None => if evaluates(done.reason) {
                self.goal_held(goal, done)
            } else if recoverable(done.reason) {
                self.goal_retried(goal, done, limit)
            } else {
                self.goal_dropped(goal, done)
            },
        }
    }

    /// What the loop makes of a sealed turn: it waits for the wakeup that was asked for, or
    /// it ends.
    #[verifier::opaque]
    pub open spec fn loop_turn(self, done: HeldTurn) -> OwnerView {
        if done.reason == StopReason::Stopped && self.pending_wakeup is Some {
            (OwnerView { pending_wakeup: None, held_turn: Some(done), ..self }).act(
                ActionView::ScheduleLoop {
                    generation: self.generation,
                    controller_id: self.loop_state->0.id,
                    wakeup: self.pending_wakeup->0,
                },
            )
        } else {
            let note = if done.reason == StopReason::Stopped {
                "completed"@
            } else {
                "ended: "@ + done.reason.text()
            };
            (OwnerView {
                pending_wakeup: None,
                loop_active: self.loop_active && !self.has_resources,
                ..self.end_loop(note)
            }).turn_closed(done, done.reason)
        }
    }

    pub open spec fn goal_runs(self) -> bool {
        self.goal is Some && self.goal->0.active
    }

    pub open spec fn loop_runs(self) -> bool {
        self.loop_state is Some && self.loop_state->0.active
    }

    /// What becomes of a sealed turn: a running goal or loop decides.
    #[verifier::opaque]
    pub open spec fn turn_disposed(self, done: HeldTurn, facts: EventFacts) -> OwnerView {
        if self.goal_runs() {
            (OwnerView { goal: None, ..self }).goal_turn(
                OwnerView::charged_goal(self.goal->0, done),
                done,
                facts.goal_cap,
                facts.max_unproductive,
            )
        } else if self.loop_runs() {
            self.loop_turn(done)
        } else {
            self.turn_closed(done, done.reason)
        }
    }

    /// A sealed turn may bring the session a name; then its fate is decided.
    pub open spec fn turn_sealed(self, done: HeldTurn, facts: EventFacts) -> OwnerView {
        self.named(done, facts.naming_enabled).turn_disposed(done, facts)
    }

    /// The snapshot that seals a turn or answers a question.
    pub open spec fn on_snapshot(self, snapshot: Arc<SessionSnapshot>, facts: EventFacts) -> OwnerView {
        let taken = self.snapshot_taken(snapshot, facts.stored);
        if self.terminal_reason is None {
            taken
        } else {
            taken.sealed().turn_sealed(self.sealed_turn(snapshot), facts)
        }
    }

    /// The end of a turn, as the agent reports it.
    pub open spec fn on_turn_complete(self, reason: StopReason, facts: EventFacts) -> OwnerView {
        let stopped = self.warned(facts.cost_warning).clock_stopped(facts.elapsed_nanos);
        match facts.doubt {
            Some(error) => stopped.turn_doubted(error@),
            None => stopped.turn_ended(reason),
        }
    }

    /// What the event asks for.
    pub open spec fn questions(self, event: AgentEvent) -> EventQuestions {
        let ends_turn = self.native && event is TurnComplete;
        let seals = self.native && event is Snapshot && self.terminal_reason is Some;
        EventQuestions {
            doubt: ends_turn || event is CompactionFailed,
            cost_warning: ends_turn || event is Compacted || event is CompactionFailed,
            elapsed: ends_turn,
            stored: self.native && (event is Request || event is Snapshot),
            naming: seals && !self.ai_name_attempted && self.terminal_reason != Some(
                StopReason::Cancelled,
            ),
            goal_cap: seals && self.goal_runs(),
        }
    }

    /// An event that is only passed on, after it was counted.
    pub open spec fn on_plain(self, event: AgentEvent) -> OwnerView {
        let counted = match event {
            AgentEvent::TurnStarted => OwnerView {
                turn_clock: true,
                phase: RuntimePhase::InTurn,
                ..self
            },
            AgentEvent::ToolStarted { call } => OwnerView {
                turn_stats: RuntimeTurnStats {
                    tool_call_count: saturated(
                        self.turn_stats.tool_call_count as int,
                        1,
                        usize::MAX as int,
                    ) as usize,
                    ..self.turn_stats
                },
                ..self
            },
            AgentEvent::Usage(meta) => OwnerView {
                observed_tokens: Some(meta.used_tokens as usize),
                turn_stats: RuntimeTurnStats {
                    turn_count: saturated(self.turn_stats.turn_count as int, 1, usize::MAX as int)
                        as usize,
                    last_usage: Some(meta),
                    ..self.turn_stats
                },
                ..self
            },
            _ => self,
        };
        counted.emit(CodingRuntimeEvent::Agent(event)@)
    }

    /// The agent asks something and waits for the answer.
    pub open spec fn on_request(
        self,
        id: RequestId,
        kind: String,
        payload: String,
        stored: Option<Arc<SessionSnapshot>>,
    ) -> OwnerView {
        (OwnerView {
            pending_requests: with_request(self.pending_requests, id),
            phase: RuntimePhase::WaitingApproval,
            ..self
        }).emit(
            EventView::Plain(
                CodingRuntimeEvent::Request(
                    RuntimeRequest { id, kind, payload, snapshot: stored },
                ),
            ),
        )
    }

    /// An event that is not a compaction, under the native protocol.
    pub open spec fn on_native(self, event: AgentEvent, facts: EventFacts) -> OwnerView {
        match event {
            AgentEvent::Request { id, kind, payload } => self.on_request(
                id,
                kind,
                payload,
                facts.stored,
            ),
            AgentEvent::TurnComplete { reason } => self.on_turn_complete(reason, facts),
            AgentEvent::Snapshot { snapshot } => self.on_snapshot(snapshot, facts),
            _ => self.on_plain(event),
        }
    }

    /// Any event of the agent.
    pub open spec fn on_event(self, event: AgentEvent, facts: EventFacts) -> OwnerView {
        if is_compaction_event(event) {
            self.on_compaction(event, facts)
        } else if self.native {
            self.on_native(event, facts)
        } else {
            match event {
                AgentEvent::Usage(meta) => OwnerView {
                    observed_tokens: Some(meta.used_tokens as usize),
                    ..self
                },
                _ => self,
            }
        }
    }

    /// The agent is gone: nobody gets a snapshot, no controller goes on, and the turn in
    /// progress is lost.
    pub open spec fn stream_closed(self) -> OwnerView {
        let reason = match self.terminal_reason {
            Some(reason) => reason,
            None => StopReason::ProviderError,
        };
        (OwnerView {
            terminal_reason: if self.active_turn is Some {
                None
            } else {
                self.terminal_reason
            },
            ..self.answer_all(
                AnswerView::SnapshotUnavailable(stream_closed_text()),
            ).end_controllers(GoalTerminal::Failed, "ended: kernel event stream closed"@)
        }).end_turn(self.lost(reason, stream_closed_text()))
    }

    /// The agent's events have ended.
    pub open spec fn agent_closed(self) -> OwnerView {
        if self.native {
            self.stream_closed()
        } else {
            self
        }
    }

    /// A compaction event, with what the session store says of it.
    pub open spec fn on_compaction(self, event: AgentEvent, facts: EventFacts) -> OwnerView {
        let booked = if event is CompactionStarted {
            self.compaction_event(event)
        } else {
            self.compaction_committed(event).warned(facts.cost_warning).compaction_event(event)
        };
        if event is CompactionFailed && facts.doubt is Some {
            booked.compaction_doubted(facts.doubt->0@)
        } else {
            booked
        }
    }
}

impl RuntimeOwner {
    fn warn_of(&mut self, warning: &Option<String>)
        ensures
            final(self)@ == old(self)@.warned(*warning),
    {
        if let Some(text) = warning {
            self.warn(text.as_str());
        }
    }

    fn book_committed(&mut self, event: &AgentEvent)
        ensures
            final(self)@ == old(self)@.compaction_committed(*event),
    {
        match event {
            AgentEvent::Compacted { committed, snapshot, .. } => {
                if *committed {
                    self.conversation_revision = self.conversation_revision.wrapping_add(1);
                    if let Some(kept) = snapshot {
                        if self.has_resources && !self.has_session {
                            self.push(OwnerAction::KeepResume(share(kept)));
                        }
                    }
                }
            },
            _ => {},
        }
    }

    fn shut_in_doubt(&mut self, error: &String, note: &str, message: &str)
        ensures
            final(self)@ == old(self)@.in_doubt(error@, note@, message@),
    {
        self.end_controllers(GoalTerminal::Failed, note);
        self.persistence_failure = Some(error.clone());
        self.clear_requests();
        self.terminal_reason = None;
        self.snapshot_in_flight = false;
        self.refuse_waiters(message);
        self.emit_error(message);
    }

    fn doubt_compaction(&mut self, error: &String)
        ensures
            final(self)@ == old(self)@.compaction_doubted(error@),
    {
        proof {
            reveal(OwnerView::compaction_doubted);
        }
        let message = join2(
            "compaction persistence became uncertain; runtime stopped: ",
            error.as_str(),
        );
        self.held_turn = None;
        self.shut_in_doubt(
            error,
            "ended: compaction persistence became uncertain",
            message.as_str(),
        );
        self.lose_turn(StopReason::ProviderError, message.as_str());
        self.turn_stats = RuntimeTurnStats::default();
        self.abandon();
    }

    fn lose_any_turn(&mut self, message: &str)
        ensures
            final(self)@ == old(self)@.lose_any_turn(message@),
    {
        let turn_id: u64 = match self.active_turn {
            Some(turn_id) => turn_id,
            None => 0,
        };
        self.active_turn = None;
        self.held_turn = None;
        let stats = self.turn_stats;
        self.turn_stats = RuntimeTurnStats::default();
        self.emit(
            CodingRuntimeEvent::TurnFinished(
                TurnCompletion::SnapshotUnavailable {
                    turn_id,
                    reason: StopReason::ProviderError,
                    error: RuntimeSnapshotError { message: message.to_owned() },
                    stats,
                },
            ),
        );
    }

    fn doubt_turn(&mut self, error: &String)
        ensures
            final(self)@ == old(self)@.turn_doubted(error@),
    {
        proof {
            reveal(OwnerView::turn_doubted);
        }
        let message = join2(
            "session persistence became uncertain; runtime stopped: ",
            error.as_str(),
        );
        self.shut_in_doubt(
            error,
            "ended: session persistence became uncertain",
            message.as_str(),
        );
        self.lose_any_turn(message.as_str());
        self.abandon();
    }

    fn leave_unsealed(&mut self)
        ensures
            final(self)@ == old(self)@.unsealed(),
    {
        proof {
            reveal(OwnerView::unsealed);
        }
        let message = "kernel snapshot command delivery failed";
        self.end_controllers(
            GoalTerminal::Failed,
            "ended: kernel snapshot command delivery failed",
        );
        self.terminal_reason = None;
        self.clear_requests();
        self.refuse_waiters(message);
        self.lose_any_turn(message);
        self.fail();
    }

    /// A compaction started, ended or failed. A failure that leaves the stored session in
    /// doubt stops the runtime.
    fn on_compaction(&mut self, event: AgentEvent, facts: &EventFacts)
        requires
            is_compaction_event(event),
        ensures
            final(self)@ == old(self)@.on_compaction(event, *facts),
    {
        let failed = matches!(event, AgentEvent::CompactionFailed { .. });
        let started = matches!(event, AgentEvent::CompactionStarted { .. });
        if !started {
            self.book_committed(&event);
            self.warn_of(&facts.cost_warning);
        }
        let _ = self.handle_compaction_event(event);
        if failed {
            if let Some(error) = &facts.doubt {
                self.doubt_compaction(error);
            }
        }
    }

    /// The provider reported usage.
    fn on_usage(&mut self, meta: MessageMeta)
        ensures
            final(self)@ == old(self)@.on_plain(AgentEvent::Usage(meta)),
    {
        self.observed_tokens = Some(meta.used_tokens as usize);
        self.turn_stats = RuntimeTurnStats {
            last_usage: Some(meta),
            duration_nanos: self.turn_stats.duration_nanos,
            turn_count: self.turn_stats.turn_count.saturating_add(1),
            tool_call_count: self.turn_stats.tool_call_count,
        };
        self.emit(CodingRuntimeEvent::Agent(AgentEvent::Usage(meta)));
    }

    fn place_request(&mut self, id: RequestId)
        ensures
            final(self)@ == (OwnerView {
                pending_requests: with_request(old(self)@.pending_requests, id),
                ..old(self)@
            }),
    {
        if let Some(slot) = request_slot(&self.pending_requests, id) {
            self.insert_request(slot, id);
        }
    }

    fn insert_request(&mut self, index: usize, id: RequestId)
        requires
            index <= old(self).pending_requests.len(),
        ensures
            final(self)@ == (OwnerView {
                pending_requests: old(self)@.pending_requests.insert(index as int, id),
                ..old(self)@
            }),
    {
        self.pending_requests.insert(index, id);
    }

    /// The agent asks something and waits.
    fn on_request(
        &mut self,
        id: RequestId,
        kind: String,
        payload: String,
        stored: Option<Arc<SessionSnapshot>>,
    )
        ensures
            final(self)@ == old(self)@.on_request(id, kind, payload, stored),
    {
        self.place_request(id);
        self.phase = RuntimePhase::WaitingApproval;
        self.emit(
            CodingRuntimeEvent::Request(RuntimeRequest { id, kind, payload, snapshot: stored }),
        );
    }

    fn stop_clock(&mut self, elapsed_nanos: u64)
        ensures
            final(self)@ == old(self)@.clock_stopped(elapsed_nanos),
    {
        self.turn_stats = RuntimeTurnStats {
            last_usage: self.turn_stats.last_usage,
            duration_nanos: if self.turn_clock {
                elapsed_nanos
            } else {
                0
            },
            turn_count: self.turn_stats.turn_count,
            tool_call_count: self.turn_stats.tool_call_count,
        };
        self.turn_clock = false;
    }

    fn end_turn(&mut self, reason: StopReason)
        ensures
            final(self)@ == old(self)@.turn_ended(reason),
    {
        self.terminal_reason = Some(reason);
        if !self.snapshot_in_flight {
            if self.offer(AgentCommand::Snapshot) {
                self.snapshot_in_flight = true;
            } else {
                self.leave_unsealed();
            }
        }
    }

    /// The agent ended the turn.
    fn on_turn_complete(&mut self, reason: StopReason, facts: &EventFacts)
        ensures
            final(self)@ == old(self)@.on_turn_complete(reason, *facts),
    {
        self.warn_of(&facts.cost_warning);
        self.stop_clock(facts.elapsed_nanos);
        match &facts.doubt {
            Some(error) => self.doubt_turn(error),
            None => self.end_turn(reason),
        }
    }

    fn keep_resume(&mut self, snapshot: &Arc<SessionSnapshot>)
        ensures
            final(self)@ == (OwnerView {
                outbox: if old(self)@.has_resources && !old(self)@.has_session {
                    old(self)@.outbox.push(ActionView::KeepResume(*snapshot))
                } else {
                    old(self)@.outbox
                },
                ..old(self)@
            }),
    {
        if self.has_resources && !self.has_session {
            self.push(OwnerAction::KeepResume(share(snapshot)));
        }
    }

    fn note_arrival(&mut self)
        ensures
            final(self)@ == (OwnerView {
                snapshot_in_flight: false,
                conversation_revision: if old(self)@.terminal_reason is Some {
                    bump(old(self)@.conversation_revision)
                } else {
                    old(self)@.conversation_revision
                },
                ..old(self)@
            }),
    {
        self.snapshot_in_flight = false;
        if self.terminal_reason.is_some() {
            self.conversation_revision = self.conversation_revision.wrapping_add(1);
        }
    }

    fn take_snapshot(
        &mut self,
        snapshot: &Arc<SessionSnapshot>,
        stored: &Option<Arc<SessionSnapshot>>,
    )
        ensures
            final(self)@ == old(self)@.snapshot_taken(*snapshot, *stored),
    {
        self.note_arrival();
        self.keep_resume(snapshot);
        let undo_snapshot = match stored {
            Some(kept) => share(kept),
            None => share(snapshot),
        };
        self.serve_waiters(snapshot, &undo_snapshot);
    }

    fn suggest_name(&mut self, done: &HeldTurn, naming_enabled: bool)
        ensures
            final(self)@ == old(self)@.named(*done, naming_enabled),
    {
        if done.reason != StopReason::Cancelled && !self.ai_name_attempted && naming_enabled {
            if let Some(conversation) = first_exchange_text(&done.snapshot.messages) {
                self.ai_name_attempted = true;
                let generation: u64 = self.generation;
                self.push(OwnerAction::SuggestName { generation, conversation });
            }
        }
    }

    fn close_turn(&mut self, done: HeldTurn, reason: StopReason)
        ensures
            final(self)@ == old(self)@.turn_closed(done, reason),
    {
        self.active_turn = None;
        self.held_turn = None;
        self.enter(RuntimePhase::Ready);
        self.emit(
            CodingRuntimeEvent::TurnFinished(
                TurnCompletion::Completed {
                    turn_id: done.turn_id,
                    reason,
                    snapshot: done.snapshot,
                    stats: done.stats,
                },
            ),
        );
    }

    fn conclude_goal(&mut self, goal: GoalState)
        ensures
            final(self)@ == old(self)@.conclude_goal(goal@),
    {
        self.goal = None;
        self.emit(CodingRuntimeEvent::GoalChanged(goal.progress()));
    }

    fn cap_goal(&mut self, goal: GoalState, done: HeldTurn, why: &str)
        ensures
            final(self)@ == old(self)@.goal_capped(goal@, done, why@),
    {
        proof {
            reveal(OwnerView::goal_capped);
        }
        let mut goal = goal;
        goal.finish(GoalTerminal::Stopped, join2("stopped: ", why));
        self.conclude_goal(goal);
        let warning = join3(
            "goal stopped: ",
            why,
            " — goal not met; run /goal again to continue",
        );
        self.warn(warning.as_str());
        self.close_turn(done, reason_of_cap(why));
    }

    fn hold_for_goal(&mut self, goal: GoalState, done: HeldTurn)
        ensures
            final(self)@ == old(self)@.goal_held(goal@, done),
    {
        proof {
            reveal(OwnerView::goal_held);
        }
        let mut goal = goal;
        goal.unproductive = 0;
        let generation: u64 = self.generation;
        let action = OwnerAction::EvaluateGoal {
            generation,
            controller_id: goal.id,
            condition: goal.condition.clone(),
            last_reason: copy_opt(&goal.last_reason),
            snapshot: share(&done.snapshot),
        };
        self.goal = Some(goal);
        self.held_turn = Some(done);
        self.push(action);
    }

    fn give_goal_up(&mut self, goal: GoalState, done: HeldTurn)
        ensures
            final(self)@ == old(self)@.conclude_goal(
                goal@.finish(GoalTerminal::Failed, "stopped: too many failed rounds"@),
            ).emit(
                EventView::ControllerWarning("goal stopped: too many failed rounds"@),
            ).turn_closed(done, StopReason::ProviderError),
    {
        let mut goal = goal;
        goal.finish(GoalTerminal::Failed, "stopped: too many failed rounds".to_owned());
        self.conclude_goal(goal);
        self.warn("goal stopped: too many failed rounds");
        self.close_turn(done, StopReason::ProviderError);
    }

    fn go_on_with_goal(&mut self, goal: GoalState, reason: String)
        ensures
            final(self)@ == (OwnerView { goal: Some(goal@), held_turn: None, ..old(self)@ }).act(
                ActionView::ContinueGoal { reason: reason@, condition: goal@.condition },
            ).emit(EventView::GoalChanged(goal@)),
    {
        let condition = goal.condition.clone();
        let progress = goal.progress();
        self.goal = Some(goal);
        self.held_turn = None;
        self.push(OwnerAction::ContinueGoal { reason, condition });
        self.emit(CodingRuntimeEvent::GoalChanged(progress));
    }

    fn strand_goal(&mut self, goal: GoalState, done: HeldTurn)
        ensures
            final(self)@ == (OwnerView {
                goal: Some(goal@),
                held_turn: None,
                ..old(self)@
            }).end_goal(GoalTerminal::Failed, "continuation dispatch failed"@).emit(
                EventView::ControllerWarning("goal stopped: continuation dispatch failed"@),
            ).turn_closed(done, StopReason::ProviderError).failed(),
    {
        self.goal = Some(goal);
        self.held_turn = None;
        self.end_goal(GoalTerminal::Failed, "continuation dispatch failed");
        self.warn("goal stopped: continuation dispatch failed");
        self.close_turn(done, StopReason::ProviderError);
        self.fail();
    }

    fn retry_goal(&mut self, goal: GoalState, done: HeldTurn, limit: u32)
        ensures
            final(self)@ == old(self)@.goal_retried(goal@, done, limit),
    {
        proof {
            reveal(OwnerView::goal_retried);
        }
        let mut goal = goal;
        goal.unproductive = goal.unproductive.saturating_add(1);
        if goal.unproductive >= limit {
            self.give_goal_up(goal, done);
        } else {
            let why = join2("round ended: ", done.reason.name());
            goal.next_round(why.clone());
            if self.agent_attached && self.agent_open {
                self.go_on_with_goal(goal, why);
            } else {
                self.strand_goal(goal, done);
            }
        }
    }

    fn drop_goal(&mut self, goal: GoalState, done: HeldTurn)
        ensures
            final(self)@ == old(self)@.goal_dropped(goal@, done),
    {
        proof {
            reveal(OwnerView::goal_dropped);
        }
        let mut goal = goal;
        let reason = done.reason;
        goal.finish(GoalTerminal::Failed, join2("ended: ", reason.name()));
        self.conclude_goal(goal);
        self.close_turn(done, reason);
    }

    fn goal_turn(&mut self, goal: GoalState, done: HeldTurn, facts: &EventFacts)
        ensures
            final(self)@ == old(self)@.goal_turn(
                OwnerView::charged_goal(goal@, done),
                done,
                facts.goal_cap,
                facts.max_unproductive,
            ),
    {
        let mut goal = goal;
        if let Some(meta) = done.stats.last_usage {
            goal.charge(meta.tokens.prompt as u64 + meta.tokens.completion as u64);
        }
        match &facts.goal_cap {
            Some(why) => self.cap_goal(goal, done, why.as_str()),
            None => match done.reason {
                StopReason::Stopped | StopReason::MaxContinuations | StopReason::MaxRounds => {
                    self.hold_for_goal(goal, done);
                },
                StopReason::Timeout | StopReason::ProviderError => {
                    self.retry_goal(goal, done, facts.max_unproductive);
                },
                _ => self.drop_goal(goal, done),
            },
        }
    }

    fn hold_for_wakeup(&mut self, done: HeldTurn, wakeup: WakeupRequest, id: u64)
        ensures
            final(self)@ == (OwnerView { held_turn: Some(done), ..old(self)@ }).act(
                ActionView::ScheduleLoop {
                    generation: old(self)@.generation,
                    controller_id: id,
                    wakeup,
                },
            ),
    {
        self.held_turn = Some(done);
        let generation: u64 = self.generation;
        self.push(OwnerAction::ScheduleLoop { generation, controller_id: id, wakeup });
    }

    fn end_loop_turn(&mut self, done: HeldTurn, note: &str)
        ensures
            final(self)@ == (OwnerView {
                pending_wakeup: None,
                loop_active: old(self)@.loop_active && !old(self)@.has_resources,
                ..old(self)@.end_loop(note@)
            }).turn_closed(done, done.reason),
    {
        self.pending_wakeup = None;
        self.end_loop(note);
        if self.has_resources {
            self.loop_active = false;
        }
        let reason = done.reason;
        self.close_turn(done, reason);
    }

    fn stopped_loop_turn(&mut self, done: HeldTurn, id: u64)
        requires
            old(self)@.loop_state is Some,
            old(self)@.loop_state->0.id == id,
            done.reason == StopReason::Stopped,
        ensures
            final(self)@ == old(self)@.loop_turn(done),
    {
        proof {
            reveal(OwnerView::loop_turn);
        }
        match self.take_wakeup() {
            Some(wakeup) => self.hold_for_wakeup(done, wakeup, id),
            None => self.end_loop_turn(done, "completed"),
        }
    }

    fn failed_loop_turn(&mut self, done: HeldTurn)
        requires
            done.reason != StopReason::Stopped,
        ensures
            final(self)@ == old(self)@.loop_turn(done),
    {
        proof {
            reveal(OwnerView::loop_turn);
        }
        let note = join2("ended: ", done.reason.name());
        self.end_loop_turn(done, note.as_str());
    }

    fn loop_turn(&mut self, done: HeldTurn, id: u64)
        requires
            old(self)@.loop_state is Some,
            old(self)@.loop_state->0.id == id,
        ensures
            final(self)@ == old(self)@.loop_turn(done),
    {
        if done.reason == StopReason::Stopped {
            self.stopped_loop_turn(done, id);
        } else {
            self.failed_loop_turn(done);
        }
    }

    fn goal_runs(&self) -> (runs: bool)
        ensures
            runs == self@.goal_runs(),
    {
        match &self.goal {
            Some(goal) => goal.active,
            None => false,
        }
    }

    fn running_loop(&self) -> (id: Option<u64>)
        ensures
            id == if self@.loop_runs() {
                Some(self@.loop_state->0.id)
            } else {
                None
            },
    {
        match &self.loop_state {
            Some(state) => if state.active {
                Some(state.id)
            } else {
                None
            },
            None => None,
        }
    }

    fn dispose_turn(&mut self, done: HeldTurn, facts: &EventFacts)
        ensures
            final(self)@ == old(self)@.turn_disposed(done, *facts),
    {
        proof {
            reveal(OwnerView::turn_disposed);
        }
        if self.goal_runs() {
            if let Some(goal) = self.take_goal() {
                self.goal_turn(goal, done, facts);
            }
        } else if let Some(id) = self.running_loop() {
            self.loop_turn(done, id);
        } else {
            let reason = done.reason;
            self.close_turn(done, reason);
        }
    }

    fn seal_turn(&mut self, done: HeldTurn, facts: &EventFacts)
        ensures
            final(self)@ == old(self)@.turn_sealed(done, *facts),
    {
        self.suggest_name(&done, facts.naming_enabled);
        self.dispose_turn(done, facts);
    }

    fn open_sealed(&mut self)
        ensures
            final(self)@ == old(self)@.sealed(),
    {
        self.terminal_reason = None;
        self.clear_requests();
        self.turn_stats = RuntimeTurnStats::default();
    }

    /// A snapshot of the agent: it answers whoever waits for one, and seals the turn that
    /// ended.
    fn on_snapshot(&mut self, snapshot: Arc<SessionSnapshot>, facts: &EventFacts)
        ensures
            final(self)@ == old(self)@.on_snapshot(snapshot, *facts),
    {
        let turn_id: u64 = match self.active_turn {
            Some(turn_id) => turn_id,
            None => 0,
        };
        let ended = self.terminal_reason;
        let stats = self.turn_stats;
        self.take_snapshot(&snapshot, &facts.stored);
        if let Some(reason) = ended {
            self.open_sealed();
            self.seal_turn(HeldTurn { turn_id, reason, snapshot, stats }, facts);
        }
    }

    fn on_turn_started(&mut self)
        ensures
            final(self)@ == old(self)@.on_plain(AgentEvent::TurnStarted),
    {
        self.turn_clock = true;
        self.phase = RuntimePhase::InTurn;
        self.emit(CodingRuntimeEvent::Agent(AgentEvent::TurnStarted));
    }

    fn on_tool_started(&mut self, call: ToolCall)
        ensures
            final(self)@ == old(self)@.on_plain(AgentEvent::ToolStarted { call }),
    {
        self.turn_stats = RuntimeTurnStats {
            last_usage: self.turn_stats.last_usage,
            duration_nanos: self.turn_stats.duration_nanos,
            turn_count: self.turn_stats.turn_count,
            tool_call_count: self.turn_stats.tool_call_count.saturating_add(1),
        };
        self.emit(CodingRuntimeEvent::Agent(AgentEvent::ToolStarted { call }));
    }

    fn on_native_event(&mut self, event: AgentEvent, facts: &EventFacts)
        requires
            !is_compaction_event(event),
        ensures
            final(self)@ == old(self)@.on_native(event, *facts),
    {
        match event {
            AgentEvent::Usage(meta) => self.on_usage(meta),
            AgentEvent::Request { id, kind, payload } => {
                let stored = match &facts.stored {
                    Some(kept) => Some(share(kept)),
                    None => None,
                };
                self.on_request(id, kind, payload, stored);
            },
            AgentEvent::TurnComplete { reason } => self.on_turn_complete(reason, facts),
            AgentEvent::Snapshot { snapshot } => self.on_snapshot(snapshot, facts),
            AgentEvent::TurnStarted => self.on_turn_started(),
            AgentEvent::ToolStarted { call } => self.on_tool_started(call),
            other => self.emit(CodingRuntimeEvent::Agent(other)),
        }
    }

    /// The goal as it will stand once the turn that ends now is charged to it: the one that
    /// the question about its limits is about.
    pub fn charged_goal(&self) -> (goal: Option<GoalState>)
        ensures
            match self@.goal {
                Some(current) => goal matches Some(charged) && charged@ == match self@.turn_stats.last_usage {
                    Some(meta) => current.charge(meta.tokens.spent()),
                    None => current,
                },
                None => goal is None,
            },
    {
        match &self.goal {
            Some(current) => {
                let mut goal = current.duplicate();
                if let Some(meta) = self.turn_stats.last_usage {
                    goal.charge(meta.tokens.prompt as u64 + meta.tokens.completion as u64);
                }
                Some(goal)
            },
            None => None,
        }
    }

    /// What the event asks the outside before it is taken.
    pub fn questions(&self, event: &AgentEvent) -> (questions: EventQuestions)
        ensures
            questions == self@.questions(*event),
    {
        let ends_turn = self.native && matches!(event, AgentEvent::TurnComplete { .. });
        let snapshot = self.native && matches!(event, AgentEvent::Snapshot { .. });
        let failed = matches!(event, AgentEvent::CompactionFailed { .. });
        let compacted = matches!(event, AgentEvent::Compacted { .. });
        let request = self.native && matches!(event, AgentEvent::Request { .. });
        let runs = match &self.goal {
            Some(goal) => goal.active,
            None => false,
        };
        let (seals, cancelled) = match self.terminal_reason {
            Some(reason) => (snapshot, reason == StopReason::Cancelled),
            None => (false, false),
        };
        EventQuestions {
            doubt: ends_turn || failed,
            cost_warning: ends_turn || compacted || failed,
            elapsed: ends_turn,
            stored: request || snapshot,
            naming: seals && !self.ai_name_attempted && !cancelled,
            goal_cap: seals && runs,
        }
    }

    /// Takes one event of the agent. Compactions are the owner's own affair. Of the rest, an
    /// owner without the native protocol only notes the usage and hands the event on.
    pub fn on_agent_event(&mut self, event: AgentEvent, facts: &EventFacts) -> (rest: Option<
        AgentEvent,
    >)
        ensures
            rest == if is_compaction_event(event) || old(self)@.native {
                None::<AgentEvent>
            } else {
                Some(event)
            },
            final(self)@ == old(self)@.on_event(event, *facts),
            old(self)@.wf() ==> final(self)@.wf(),
            old(self)@.active_turn is Some ==> accounts_for_turn(old(self)@, final(self)@),
    {
        proof {
            if self@.wf() {
                events_keep_the_owner_well_formed(self@, event, *facts);
            }
            if self@.active_turn is Some {
                events_account_for_the_turn(self@, event, *facts);
            }
        }
        match event {
            AgentEvent::CompactionStarted { .. }
            | AgentEvent::Compacted { .. }
            | AgentEvent::CompactionFailed { .. } => {
                self.on_compaction(event, facts);
                None
            },
            other => if self.native {
                self.on_native_event(other, facts);
                None
            } else {
                if let AgentEvent::Usage(meta) = &other {
                    self.observed_tokens = Some(meta.used_tokens as usize);
                }
                Some(other)
            },
        }
    }

    fn close_controllers(&mut self)
        ensures
            final(self)@ == old(self)@.answer_all(
                AnswerView::SnapshotUnavailable(stream_closed_text()),
            ).end_controllers(GoalTerminal::Failed, "ended: kernel event stream closed"@),
    {
        self.refuse_waiters("kernel event stream closed before snapshot terminal");
        self.end_controllers(GoalTerminal::Failed, "ended: kernel event stream closed");
    }

    fn drop_terminal(&mut self)
        ensures
            final(self)@ == (OwnerView {
                terminal_reason: if old(self)@.active_turn is Some {
                    None
                } else {
                    old(self)@.terminal_reason
                },
                ..old(self)@
            }),
    {
        if self.active_turn.is_some() {
            self.terminal_reason = None;
        }
    }

    fn close_stream(&mut self, reason: StopReason)
        requires
            reason == match old(self)@.terminal_reason {
                Some(reason) => reason,
                None => StopReason::ProviderError,
            },
        ensures
            final(self)@ == old(self)@.stream_closed(),
    {
        self.close_controllers();
        self.drop_terminal();
        self.lose_turn(reason, "kernel event stream closed before snapshot terminal");
    }

    /// The agent is gone without a word. The owner's loop ends after this.
    pub fn on_stream_closed(&mut self)
        ensures
            final(self)@ == old(self)@.agent_closed(),
            old(self)@.native && old(self)@.active_turn is Some ==> accounts_for_turn(
                old(self)@,
                final(self)@,
            ),
            old(self)@.wf() ==> final(self)@.wf(),
    {
        proof {
            if self@.active_turn is Some {
                a_closed_stream_accounts_for_the_turn(self@);
            }
        }
        if self.native {
            let reason = match self.terminal_reason {
                Some(reason) => reason,
                None => StopReason::ProviderError,
            };
            self.close_stream(reason);
        }
    }
}

} // verus!
