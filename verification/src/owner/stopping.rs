//! Stopping the current agent: what it still reports while it stops, how the turn that it
//! leaves behind ends, and what happens when the stored session can no longer be trusted.
use super::{
    accounts_for_turn, bump, finished_turns, finished_turns_of_sum, ActionView, AnswerView,
    OwnerView, RuntimeOwner,
};
use crate::compaction::{
    tokens_after, tokens_before, CompactTrigger, CompactionCompletion, CompactionInterruption,
    CompactionOutcome,
};
use crate::controllers::GoalTerminal;
use crate::conversation::SessionSnapshot;
use crate::error::RuntimeError;
use crate::event::{
    AgentEvent, CodingRuntimeEvent, CompletionView, EventView, RuntimeSnapshotError,
    RuntimeSnapshotReceipt, RuntimeTurnStats, StopReason, TurnCompletion,
};
use crate::phase::RuntimePhase;
use crate::text::{join2, share};
use std::sync::Arc;
use vstd::prelude::*;

verus! {

/// What a stopped agent left behind.
#[derive(Clone, Debug, PartialEq, Eq)]
pub struct StopReport {
    /// The agent exceeded the bounded shutdown window and was aborted.
    pub forced: bool,
    pub reason: Option<StopReason>,
    pub snapshot: Option<Arc<SessionSnapshot>>,
    pub conversation_changed: bool,
    pub persistence_failure: Option<String>,
}

impl StopReport {
    pub open spec fn none() -> StopReport {
        StopReport {
            forced: false,
            reason: None,
            snapshot: None,
            conversation_changed: false,
            persistence_failure: None,
        }
    }

    /// The report after one more event of the stopping agent.
    pub open spec fn record(self, event: AgentEvent) -> StopReport {
        match event {
            AgentEvent::TurnComplete { reason } => StopReport {
                conversation_changed: true,
                reason: Some(reason),
                ..self
            },
            AgentEvent::Compacted {
                trigger,
                epoch,
                removed,
                bytes_before,
                bytes_after,
                committed: true,
                snapshot,
            } => StopReport {
                conversation_changed: true,
                snapshot: if snapshot is Some {
                    snapshot
                } else {
                    self.snapshot
                },
                ..self
            },
            AgentEvent::Snapshot { snapshot } => StopReport { snapshot: Some(snapshot), ..self },
            _ => self,
        }
    }

    /// The report after all of the events.
    pub open spec fn record_all(self, events: Seq<AgentEvent>) -> StopReport
        decreases events.len(),
    {
        if events.len() == 0 {
            self
        } else {
            self.record_all(events.drop_last()).record(events.last())
        }
    }
}

/// Outcome of a compaction that the kernel reported.
pub open spec fn kernel_outcome(
    trigger: CompactTrigger,
    epoch: u64,
    removed: usize,
    bytes_before: usize,
    bytes_after: usize,
    committed: bool,
    observed: Option<usize>,
    snapshot: Option<Arc<SessionSnapshot>>,
) -> CompactionOutcome {
    CompactionOutcome {
        trigger,
        epoch,
        removed_messages: removed,
        bytes_before,
        bytes_after,
        committed,
        estimated_tokens_before: tokens_before(observed, bytes_before),
        estimated_tokens_after: tokens_after(
            tokens_before(observed, bytes_before),
            bytes_before,
            bytes_after,
        ) as usize,
        committed_snapshot: snapshot,
    }
}

/// Whether the event belongs to a compaction, which the owner keeps to itself.
pub open spec fn is_compaction_event(event: AgentEvent) -> bool {
    event is CompactionStarted || event is Compacted || event is CompactionFailed
}

/// Text of the end of a turn whose agent stopped with the session in doubt.
pub open spec fn uncertain_stop_text(error: Seq<char>) -> Seq<char> {
    "session persistence became uncertain while stopping the current agent: "@ + error
}

/// Text of the error that then stops the runtime.
pub open spec fn uncertain_runtime_text(error: Seq<char>) -> Seq<char> {
    "session persistence became uncertain while stopping the current agent; runtime stopped: "@
        + error
}

/// Text of the end of a turn whose agent left no snapshot.
pub open spec fn no_snapshot_text() -> Seq<char> {
    "runtime stopped before a canonical snapshot was available"@
}

/// The value if there is one, else the other.
pub open spec fn or_else<T>(value: Option<T>, other: Option<T>) -> Option<T> {
    if value is Some {
        value
    } else {
        other
    }
}

impl OwnerView {
    /// A compaction event is booked and told to the drivers; any other changes nothing.
    pub open spec fn compaction_event(self, event: AgentEvent) -> OwnerView {
        match event {
            AgentEvent::CompactionStarted { trigger } => (OwnerView {
                compactions: self.compactions.start(trigger),
                ..self
            }).emit(EventView::Plain(CodingRuntimeEvent::CompactionStarted { trigger })),
            AgentEvent::Compacted {
                trigger,
                epoch,
                removed,
                bytes_before,
                bytes_after,
                committed,
                snapshot,
            } => self.compacted(
                kernel_outcome(
                    trigger,
                    epoch,
                    removed,
                    bytes_before,
                    bytes_after,
                    committed,
                    self.observed_tokens,
                    snapshot,
                ),
            ),
            AgentEvent::CompactionFailed { trigger, error } => (OwnerView {
                compactions: self.compactions.finish(trigger),
                ..self
            }).emit(
                EventView::Plain(
                    CodingRuntimeEvent::CompactionFinished {
                        completion: CompactionCompletion::Failed { trigger, error },
                    },
                ),
            ),
            _ => self,
        }
    }

    /// A compaction that reached a result. Once it is committed, the context is known to
    /// hold what was estimated.
    pub open spec fn compacted(self, outcome: CompactionOutcome) -> OwnerView {
        (OwnerView {
            compactions: self.compactions.finish(outcome.trigger),
            observed_tokens: if outcome.committed {
                Some(outcome.estimated_tokens_after)
            } else {
                self.observed_tokens
            },
            ..self
        }).emit(
            EventView::Plain(
                CodingRuntimeEvent::CompactionFinished {
                    completion: CompactionCompletion::Completed(outcome),
                },
            ),
        )
    }

    /// One event of the stopping agent: only compactions and token use matter any more.
    pub open spec fn absorb(self, event: AgentEvent) -> OwnerView {
        match event {
            AgentEvent::Usage(meta) => OwnerView {
                observed_tokens: Some(meta.used_tokens as usize),
                ..self
            },
            _ => self.compaction_event(event),
        }
    }

    pub open spec fn absorb_all(self, events: Seq<AgentEvent>) -> OwnerView
        decreases events.len(),
    {
        if events.len() == 0 {
            self
        } else {
            self.absorb_all(events.drop_last()).absorb(events.last())
        }
    }

    /// The agent is gone: what it still had to say has come in, and its compactions end.
    pub open spec fn agent_drained(
        self,
        events: Seq<AgentEvent>,
        reason: CompactionInterruption,
    ) -> OwnerView {
        OwnerView {
            agent_attached: false,
            ..self.absorb_all(events).interrupt_all(reason)
        }
    }

    /// The report of a turn that ends as told.
    pub open spec fn turn_report(self, completion: CompletionView) -> Seq<ActionView> {
        if self.active_turn is Some {
            seq![
                ActionView::Emit {
                    generation: self.generation,
                    event: EventView::TurnFinished(completion),
                },
            ]
        } else {
            Seq::empty()
        }
    }

    /// The turn in progress, if there is one, ends as told. It is held back no longer.
    pub open spec fn end_turn(self, completion: CompletionView) -> OwnerView {
        OwnerView {
            active_turn: None,
            held_turn: None,
            turn_stats: if self.active_turn is Some {
                RuntimeTurnStats::none()
            } else {
                self.turn_stats
            },
            outbox: self.outbox + self.turn_report(completion),
            ..self
        }
    }

    /// The end of the turn in progress without a snapshot.
    pub open spec fn lost(self, reason: StopReason, message: Seq<char>) -> CompletionView {
        CompletionView::SnapshotUnavailable {
            turn_id: match self.active_turn {
                Some(turn_id) => turn_id,
                None => 0,
            },
            reason,
            message,
            stats: self.turn_stats,
        }
    }

    /// The end of the turn in progress with the snapshot.
    pub open spec fn completed(
        self,
        reason: StopReason,
        snapshot: Arc<SessionSnapshot>,
    ) -> CompletionView {
        CompletionView::Completed {
            turn_id: match self.active_turn {
                Some(turn_id) => turn_id,
                None => 0,
            },
            reason,
            snapshot,
            stats: self.turn_stats,
        }
    }

    /// The revision after a stop: the conversation may have moved on meanwhile.
    pub open spec fn stopped_revision(self, report: StopReport) -> u64 {
        if report.conversation_changed || self.active_turn is Some {
            bump(self.conversation_revision)
        } else {
            self.conversation_revision
        }
    }

    /// Why the turn of a stopped agent ended.
    pub open spec fn stopped_reason(self, report: StopReport) -> StopReason {
        match or_else(report.reason, self.terminal_reason) {
            Some(reason) => reason,
            None => StopReason::Cancelled,
        }
    }

    /// What the snapshot waiters of a stopped agent get. `stored` is the snapshot of the
    /// bound session.
    pub open spec fn stopped_answer(
        self,
        report: StopReport,
        stored: Option<Arc<SessionSnapshot>>,
    ) -> AnswerView {
        match report.persistence_failure {
            Some(error) => AnswerView::SnapshotUnavailable(uncertain_stop_text(error@)),
            None => match or_else(report.snapshot, stored) {
                Some(snapshot) => AnswerView::Ready(
                    RuntimeSnapshotReceipt {
                        snapshot,
                        undo_snapshot: match stored {
                            Some(kept) => kept,
                            None => snapshot,
                        },
                        revision: self.stopped_revision(report),
                    },
                ),
                None => AnswerView::SnapshotUnavailable(no_snapshot_text()),
            },
        }
    }

    /// How the turn of a stopped agent ends.
    pub open spec fn stopped_completion(
        self,
        report: StopReport,
        stored: Option<Arc<SessionSnapshot>>,
    ) -> CompletionView {
        match report.persistence_failure {
            Some(error) => self.lost(StopReason::ProviderError, uncertain_stop_text(error@)),
            None => match or_else(report.snapshot, stored) {
                Some(snapshot) => self.completed(self.stopped_reason(report), snapshot),
                None => self.lost(self.stopped_reason(report), no_snapshot_text()),
            },
        }
    }

    /// The snapshot waiters get the answer, and the turn in progress ends as told.
    #[verifier::opaque]
    pub open spec fn settled(self, answer: AnswerView, completion: CompletionView) -> OwnerView {
        OwnerView {
            snapshot_waiters: Seq::empty(),
            active_turn: None,
            held_turn: None,
            terminal_reason: None,
            turn_stats: if self.active_turn is Some {
                RuntimeTurnStats::none()
            } else {
                self.turn_stats
            },
            outbox: self.outbox + self.answers(answer) + self.turn_report(completion),
            ..self
        }
    }

    /// The turn of a stopped agent ends, and the snapshot waiters get their answer.
    pub open spec fn finish_stopped(
        self,
        report: StopReport,
        stored: Option<Arc<SessionSnapshot>>,
    ) -> OwnerView {
        (OwnerView { conversation_revision: self.stopped_revision(report), ..self }).settled(
            self.stopped_answer(report, stored),
            self.stopped_completion(report, stored),
        )
    }

    /// The runtime stops for good after the stored session came into doubt.
    pub open spec fn fail_close_stopped(
        self,
        report: StopReport,
        error: Seq<char>,
        stored: Option<Arc<SessionSnapshot>>,
    ) -> OwnerView {
        let note = "ended: session persistence became uncertain"@;
        (OwnerView {
            held_turn: None,
            ..self.finish_stopped(report, stored).end_controllers(GoalTerminal::Failed, note)
        }).failed().emit(EventView::AgentError(uncertain_runtime_text(error)))
    }

    /// Both controllers give way, and a turn that one of them held back is cancelled.
    pub open spec fn cancel_controllers(
        self,
        phase_after_held: RuntimePhase,
        detail: Seq<char>,
    ) -> OwnerView {
        OwnerView {
            terminal_reason: if self.held_turn is Some {
                None
            } else {
                self.terminal_reason
            },
            phase: if self.held_turn is Some {
                self.fitting(phase_after_held)
            } else {
                self.phase
            },
            ..self.end_controllers(GoalTerminal::Failed, detail).release_held(
                StopReason::Cancelled,
            )
        }
    }
}

fn record_stopped_conversation_event(report: &mut StopReport, event: &AgentEvent)
    ensures
        *final(report) == (match *event {
            AgentEvent::TurnComplete { reason } => StopReport {
                conversation_changed: true,
                ..*old(report)
            },
            AgentEvent::Compacted {
                trigger,
                epoch,
                removed,
                bytes_before,
                bytes_after,
                committed: true,
                snapshot,
            } => old(report).record(*event),
            _ => *old(report),
        }),
{
    match event {
        AgentEvent::TurnComplete { .. } => {
            report.conversation_changed = true;
        },
        AgentEvent::Compacted { committed, snapshot, .. } => {
            if *committed {
                report.conversation_changed = true;
                if let Some(kept) = snapshot {
                    report.snapshot = Some(share(kept));
                }
            }
        },
        _ => {},
    }
}

impl RuntimeOwner {
    fn book_outcome(&mut self, outcome: CompactionOutcome)
        ensures
            final(self)@ == old(self)@.compacted(outcome),
    {
        self.note_finished(&outcome.trigger);
        if outcome.committed {
            self.observed_tokens = Some(outcome.estimated_tokens_after);
        }
        self.emit(
            CodingRuntimeEvent::CompactionFinished {
                completion: CompactionCompletion::Completed(outcome),
            },
        );
    }

    /// Books a compaction event and tells the drivers; hands any other event back.
    pub fn handle_compaction_event(&mut self, event: AgentEvent) -> (rest: Option<AgentEvent>)
        ensures
            rest == if is_compaction_event(event) {
                None::<AgentEvent>
            } else {
                Some(event)
            },
            final(self)@ == old(self)@.compaction_event(event),
            old(self)@.wf() ==> final(self)@.wf(),
    {
        match event {
            AgentEvent::CompactionStarted { trigger } => {
                self.note_started(&trigger);
                self.emit(CodingRuntimeEvent::CompactionStarted { trigger });
                None
            },
            AgentEvent::Compacted {
                trigger,
                epoch,
                removed,
                bytes_before,
                bytes_after,
                committed,
                snapshot,
            } => {
                let mut outcome = CompactionOutcome::from_kernel(
                    trigger,
                    epoch,
                    removed,
                    bytes_before,
                    bytes_after,
                    committed,
                    self.observed_tokens,
                );
                outcome.committed_snapshot = snapshot;
                self.book_outcome(outcome);
                None
            },
            AgentEvent::CompactionFailed { trigger, error } => {
                self.note_finished(&trigger);
                self.emit(
                    CodingRuntimeEvent::CompactionFinished {
                        completion: CompactionCompletion::Failed { trigger, error },
                    },
                );
                None
            },
            other => Some(other),
        }
    }

    /// Takes one event of the stopping agent.
    fn absorb_stopped_event(&mut self, report: &mut StopReport, event: AgentEvent)
        ensures
            final(self)@ == old(self)@.absorb(event),
            *final(report) == old(report).record(event),
    {
        record_stopped_conversation_event(report, &event);
        match self.handle_compaction_event(event) {
            Some(AgentEvent::Usage(meta)) => {
                self.observed_tokens = Some(meta.used_tokens as usize);
            },
            Some(AgentEvent::TurnComplete { reason }) => {
                report.reason = Some(reason);
            },
            Some(AgentEvent::Snapshot { snapshot }) => {
                report.snapshot = Some(snapshot);
            },
            _ => {},
        }
    }

    /// The agent has stopped. `drained` is what it still reported, `persistence_failure` what
    /// the session store says of its last commit. Compactions without a terminal end here.
    pub fn stop_current_agent(
        &mut self,
        drained: Vec<AgentEvent>,
        forced: bool,
        reason: CompactionInterruption,
        persistence_failure: Option<String>,
    ) -> (report: StopReport)
        ensures
            report == (StopReport {
                forced,
                persistence_failure,
                ..StopReport::none().record_all(drained@)
            }),
            final(self)@ == old(self)@.agent_drained(drained@, reason),
            old(self)@.wf() ==> final(self)@.wf(),
    {
        let mut report = self.absorb_drained(drained);
        self.interrupt_all(reason);
        self.agent_attached = false;
        report.forced = forced;
        report.persistence_failure = persistence_failure;
        report
    }

    fn absorb_drained(&mut self, drained: Vec<AgentEvent>) -> (report: StopReport)
        ensures
            report == StopReport::none().record_all(drained@),
            report.forced == false && report.persistence_failure is None,
            final(self)@ == old(self)@.absorb_all(drained@),
            old(self)@.wf() ==> final(self)@.wf(),
    {
        let mut report = StopReport {
            forced: false,
            reason: None,
            snapshot: None,
            conversation_changed: false,
            persistence_failure: None,
        };
        let ghost events = drained@;
        let ghost mut taken: int = 0;
        for event in drain: drained
            invariant
                drain.seq() == events,
                taken == drain.index(),
                self@ == old(self)@.absorb_all(events.take(taken)),
                report == StopReport::none().record_all(events.take(taken)),
        {
            self.absorb_stopped_event(&mut report, event);
            proof {
                assert(events.take(taken + 1).drop_last() =~= events.take(taken));
                assert(events.take(taken + 1).last() == event);
                taken = taken + 1;
            }
        }
        assert(events.take(taken) =~= events);
        proof {
            record_all_keeps_flags(StopReport::none(), events);
            if old(self)@.wf() {
                absorbing_keeps_the_owner_well_formed(old(self)@, events);
            }
        }
        report
    }

    pub(crate) fn lose_turn(&mut self, reason: StopReason, message: &str)
        ensures
            final(self)@ == old(self)@.end_turn(old(self)@.lost(reason, message@)),
    {
        self.held_turn = None;
        if let Some(turn_id) = self.active_turn {
            self.active_turn = None;
            let stats = self.turn_stats;
            self.turn_stats = RuntimeTurnStats::default();
            self.emit(
                CodingRuntimeEvent::TurnFinished(
                    TurnCompletion::SnapshotUnavailable {
                        turn_id,
                        reason,
                        error: RuntimeSnapshotError { message: message.to_owned() },
                        stats,
                    },
                ),
            );
        }
        assert(self@.outbox =~= old(self)@.outbox + old(self)@.turn_report(
            old(self)@.lost(reason, message@),
        ));
    }

    pub(crate) fn complete_turn(&mut self, reason: StopReason, snapshot: Arc<SessionSnapshot>)
        ensures
            final(self)@ == old(self)@.end_turn(old(self)@.completed(reason, snapshot)),
    {
        let ghost completion = self@.completed(reason, snapshot);
        self.held_turn = None;
        if let Some(turn_id) = self.active_turn {
            self.active_turn = None;
            let stats = self.turn_stats;
            self.turn_stats = RuntimeTurnStats::default();
            self.emit(
                CodingRuntimeEvent::TurnFinished(
                    TurnCompletion::Completed { turn_id, reason, snapshot, stats },
                ),
            );
        }
        assert(self@.outbox =~= old(self)@.outbox + old(self)@.turn_report(completion));
    }

    fn settle_lost(&mut self, reason: StopReason, message: &str)
        ensures
            final(self)@ == old(self)@.settled(
                AnswerView::SnapshotUnavailable(message@),
                old(self)@.lost(reason, message@),
            ),
    {
        proof {
            reveal(OwnerView::settled);
        }
        self.refuse_waiters(message);
        self.lose_turn(reason, message);
        self.terminal_reason = None;
    }

    fn settle_completed(
        &mut self,
        reason: StopReason,
        snapshot: Arc<SessionSnapshot>,
        undo_snapshot: Arc<SessionSnapshot>,
    )
        ensures
            final(self)@ == old(self)@.settled(
                AnswerView::Ready(
                    RuntimeSnapshotReceipt {
                        snapshot,
                        undo_snapshot,
                        revision: old(self)@.conversation_revision,
                    },
                ),
                old(self)@.completed(reason, snapshot),
            ),
    {
        proof {
            reveal(OwnerView::settled);
        }
        self.serve_waiters(&snapshot, &undo_snapshot);
        self.complete_turn(reason, snapshot);
        self.terminal_reason = None;
    }

    fn revise(&mut self, report: &StopReport)
        ensures
            final(self)@ == (OwnerView {
                conversation_revision: old(self)@.stopped_revision(*report),
                ..old(self)@
            }),
    {
        if report.conversation_changed || self.active_turn.is_some() {
            self.conversation_revision = self.conversation_revision.wrapping_add(1);
        }
    }

    fn settle_stopped(&mut self, report: &StopReport, stored: &Option<Arc<SessionSnapshot>>)
        ensures
            final(self)@ == old(self)@.finish_stopped(*report, *stored),
    {
        let reason = match report.reason {
            Some(reason) => reason,
            None => match self.terminal_reason {
                Some(reason) => reason,
                None => StopReason::Cancelled,
            },
        };
        self.revise(report);
        let ghost revised = self@;
        assert(forall|r: StopReason, m: Seq<char>| #[trigger]
            revised.lost(r, m) == old(self)@.lost(r, m));
        assert(forall|r: StopReason, s: Arc<SessionSnapshot>| #[trigger]
            revised.completed(r, s) == old(self)@.completed(r, s));
        if let Some(error) = &report.persistence_failure {
            let message = join2(
                "session persistence became uncertain while stopping the current agent: ",
                error.as_str(),
            );
            self.settle_lost(StopReason::ProviderError, message.as_str());
        } else if let Some(left) = &report.snapshot {
            let undo_snapshot = match stored {
                Some(kept) => share(kept),
                None => share(left),
            };
            self.settle_completed(reason, share(left), undo_snapshot);
        } else if let Some(kept) = stored {
            self.settle_completed(reason, share(kept), share(kept));
        } else {
            self.settle_lost(reason, "runtime stopped before a canonical snapshot was available");
        }
    }

    /// Ends the turn that a stopped agent left and answers the snapshot waiters.
    pub fn finish_stopped_native_turn(
        &mut self,
        report: &StopReport,
        stored: &Option<Arc<SessionSnapshot>>,
    )
        ensures
            final(self)@ == old(self)@.finish_stopped(*report, *stored),
            accounts_for_turn(old(self)@, final(self)@),
            old(self)@.wf() ==> final(self)@.wf(),
    {
        self.settle_stopped(report, stored);
        proof {
            reveal(OwnerView::settled);
            finish_stopped_accounts(old(self)@, *report, *stored);
        }
    }

    /// Stops the runtime for good if the report says that the stored session is in doubt,
    /// and gives the error for whoever asked.
    pub fn fail_close_after_stopped_persistence(
        &mut self,
        report: &StopReport,
        stored: &Option<Arc<SessionSnapshot>>,
    ) -> (error: Option<RuntimeError>)
        ensures
            match report.persistence_failure {
                None => error is None && final(self)@ == old(self)@,
                Some(doubt) => {
                    &&& error matches Some(RuntimeError::ReconfigureFailed(message))
                        && message@ == uncertain_runtime_text(doubt@)
                    &&& final(self)@ == old(self)@.fail_close_stopped(*report, doubt@, *stored)
                    &&& final(self)@.phase == RuntimePhase::Failed
                    &&& !final(self)@.agent_available
                    &&& final(self)@.active_turn is None
                },
            },
            accounts_for_turn(old(self)@, final(self)@),
            old(self)@.wf() ==> final(self)@.wf(),
    {
        let ghost before = self@;
        match &report.persistence_failure {
            None => {
                assert(before.outbox.skip(before.outbox.len() as int) =~= Seq::empty());
                assert(before.outbox.take(before.outbox.len() as int) =~= before.outbox);
                None
            },
            Some(doubt) => {
                proof {
                    fail_close_accounts(before, *report, doubt@, *stored);
                }
                self.finish_stopped_native_turn(report, stored);
                self.end_controllers(
                    GoalTerminal::Failed,
                    "ended: session persistence became uncertain",
                );
                self.held_turn = None;
                self.fail();
                let message = join2(
                    "session persistence became uncertain while stopping the current agent; runtime stopped: ",
                    doubt.as_str(),
                );
                self.emit_error(message.as_str());
                proof {
                    reveal(OwnerView::settled);
                }
                Some(RuntimeError::ReconfigureFailed(message))
            },
        }
    }

    /// Ends both controllers and cancels the turn that one of them held back. Tells whether
    /// there was a controller.
    pub fn cancel_controllers_and_finish_held(
        &mut self,
        phase_after_held: RuntimePhase,
        detail: &str,
    ) -> (had_controller: bool)
        ensures
            had_controller == (old(self)@.goal is Some || old(self)@.loop_state is Some),
            final(self)@ == old(self)@.cancel_controllers(phase_after_held, detail@),
            final(self)@.goal is None && final(self)@.loop_state is None,
            final(self)@.held_turn is None,
            old(self)@.wf() ==> final(self)@.wf(),
    {
        let had_controller = self.goal.is_some() || self.loop_state.is_some();
        self.end_controllers(GoalTerminal::Failed, detail);
        self.release_into(phase_after_held);
        had_controller
    }

    fn release_into(&mut self, phase_after_held: RuntimePhase)
        ensures
            final(self)@ == (OwnerView {
                terminal_reason: if old(self)@.held_turn is Some {
                    None
                } else {
                    old(self)@.terminal_reason
                },
                phase: if old(self)@.held_turn is Some {
                    old(self)@.fitting(phase_after_held)
                } else {
                    old(self)@.phase
                },
                ..old(self)@.release_held(StopReason::Cancelled)
            }),
            old(self)@.wf() ==> final(self)@.wf(),
    {
        if self.release_held(StopReason::Cancelled) {
            self.terminal_reason = None;
            self.enter(phase_after_held);
        }
    }
}

/// Only the final classification of a stop sets the flags that the events do not.
proof fn record_all_keeps_flags(report: StopReport, events: Seq<AgentEvent>)
    ensures
        report.record_all(events).forced == report.forced,
        report.record_all(events).persistence_failure == report.persistence_failure,
    decreases events.len(),
{
    if events.len() > 0 {
        record_all_keeps_flags(report, events.drop_last());
    }
}

/// Answers to waiters finish no turn.
pub proof fn answers_finish_no_turn(waiters: Seq<u64>, answer: AnswerView)
    ensures
        finished_turns(
            waiters.map_values(|waiter: u64| ActionView::AnswerSnapshot { waiter, answer }),
        ) == Seq::<u64>::empty(),
    decreases waiters.len(),
{
    let told = waiters.map_values(|waiter: u64| ActionView::AnswerSnapshot { waiter, answer });
    if waiters.len() > 0 {
        answers_finish_no_turn(waiters.drop_last(), answer);
        assert(told.drop_last() =~= waiters.drop_last().map_values(
            |waiter: u64| ActionView::AnswerSnapshot { waiter, answer },
        ));
    }
}

pub(crate) proof fn absorbing_keeps_the_owner_well_formed(before: OwnerView, events: Seq<AgentEvent>)
    requires
        before.wf(),
    ensures
        before.absorb_all(events).wf(),
    decreases events.len(),
{
    if events.len() > 0 {
        absorbing_keeps_the_owner_well_formed(before, events.drop_last());
    }
}

/// Stopping reports the turn in progress as finished, once.
proof fn finish_stopped_accounts(
    before: OwnerView,
    report: StopReport,
    stored: Option<Arc<SessionSnapshot>>,
)
    ensures
        accounts_for_turn(before, before.finish_stopped(report, stored)),
{
    reveal(OwnerView::settled);
    let after = before.finish_stopped(report, stored);
    let answer = before.stopped_answer(report, stored);
    let told = before.answers(answer);
    let ended = before.turn_report(before.stopped_completion(report, stored));
    answers_finish_no_turn(before.snapshot_waiters, answer);
    assert(after.outbox =~= before.outbox + (told + ended));
    finished_turns_of_sum(told, ended);
    turn_report_finishes(before, before.stopped_completion(report, stored));
    appended_accounts(before, after, told + ended);
}

/// So does failing closed.
proof fn fail_close_accounts(
    before: OwnerView,
    report: StopReport,
    error: Seq<char>,
    stored: Option<Arc<SessionSnapshot>>,
)
    ensures
        accounts_for_turn(before, before.fail_close_stopped(report, error, stored)),
{
    reveal(OwnerView::settled);
    let note = "ended: session persistence became uncertain"@;
    let answer = before.stopped_answer(report, stored);
    let told = before.answers(answer);
    let ended = before.turn_report(before.stopped_completion(report, stored));
    let farewells = before.goal_farewell(GoalTerminal::Failed, note) + before.loop_farewell(note);
    let last = seq![
        ActionView::Emit {
            generation: before.generation,
            event: EventView::AgentError(uncertain_runtime_text(error)),
        },
    ];
    let after = before.fail_close_stopped(report, error, stored);
    answers_finish_no_turn(before.snapshot_waiters, answer);
    farewells_finish_no_turn(before, GoalTerminal::Failed, note);
    turn_report_finishes(before, before.stopped_completion(report, stored));
    let middle = before.finish_stopped(report, stored);
    assert(middle.goal_farewell(GoalTerminal::Failed, note) == before.goal_farewell(
        GoalTerminal::Failed,
        note,
    ));
    assert(middle.loop_farewell(note) == before.loop_farewell(note));
    assert(after.outbox =~= before.outbox + (told + ended + (farewells + last)));
    finished_turns_of_sum(told, ended);
    finished_turns_of_sum(told + ended, farewells + last);
    finished_turns_of_sum(farewells, last);
    reveal_with_fuel(finished_turns, 2);
    assert(last.drop_last() =~= Seq::empty());
    assert(finished_turns(last) =~= Seq::empty());
    appended_accounts(before, after, told + ended + (farewells + last));
}

/// The report of the turn in progress finishes exactly that turn.
pub proof fn turn_report_finishes(before: OwnerView, completion: CompletionView)
    requires
        before.active_turn is Some ==> completion.turn() == before.active_turn->0,
    ensures
        finished_turns(before.turn_report(completion)) == match before.active_turn {
            Some(turn) => seq![turn],
            None => Seq::empty(),
        },
{
    reveal_with_fuel(finished_turns, 2);
    let report = before.turn_report(completion);
    if before.active_turn is Some {
        assert(report.drop_last() =~= Seq::empty());
        assert(finished_turns(report) =~= seq![completion.turn()]);
    }
}

/// Ending the controllers finishes no turn.
pub proof fn farewells_finish_no_turn(before: OwnerView, terminal: GoalTerminal, note: Seq<char>)
    ensures
        finished_turns(before.goal_farewell(terminal, note)) == Seq::<u64>::empty(),
        finished_turns(before.loop_farewell(note)) == Seq::<u64>::empty(),
        finished_turns(before.goal_farewell(terminal, note) + before.loop_farewell(note)) == Seq::<
            u64,
        >::empty(),
{
    reveal_with_fuel(finished_turns, 3);
    finished_turns_of_sum(before.goal_farewell(terminal, note), before.loop_farewell(note));
    assert(finished_turns(before.goal_farewell(terminal, note)) =~= Seq::empty());
    assert(finished_turns(before.loop_farewell(note)) =~= Seq::empty());
}

/// A step that appends actions accounts for the turn if those actions do.
pub proof fn appended_accounts(before: OwnerView, after: OwnerView, actions: Seq<ActionView>)
    requires
        after.outbox == before.outbox + actions,
        before.active_turn matches Some(turn) ==> finished_turns(actions) == if after.active_turn
            == Some(turn) {
            Seq::<u64>::empty()
        } else {
            seq![turn]
        },
    ensures
        accounts_for_turn(before, after),
{
    let n = before.outbox.len() as int;
    assert(after.outbox.take(n) =~= before.outbox);
    assert(after.outbox.skip(n) =~= actions);
}

} // verus!
