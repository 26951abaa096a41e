//! Controls that act on the current agent: turns, requests, snapshots, rewinds, modes and
//! the questions that drivers ask.
use super::{ascending, bump, interrupted, ActionView, AnswerView, OwnerView, RuntimeOwner};
use crate::compaction::{CompactTrigger, CompactionCompletion, CompactionInterruption};
use crate::error::RuntimeError;
use crate::event::{
    AgentCommand, CodingRuntimeEvent, CommandView, EventView, ImageContent, LocalContextInput,
    ReplyValue, RequestId, RewindCatalog, RewindPoint, RuntimeContextStats, RuntimeTurnStats,
    SubmitReceipt, UserInput, VisionNotice,
};
use crate::mode::RuntimeMode;
use crate::phase::{RuntimeGeneration, RuntimePhase};
use crate::text::{copy_opt, join2, join3, join_all, joined, opt_text, texts};
use vstd::prelude::*;
use vstd::string::*;

verus! {

/// A turn that the owner has taken in and not yet handed to the agent.
#[derive(Clone, Debug, PartialEq, Eq)]
pub struct PreparedTurn {
    pub receipt: SubmitReceipt,
    pub input: UserInput,
}

/// What the rewind ledger of the session holds.
#[derive(Clone, Debug, PartialEq, Eq)]
pub struct RewindLedger {
    /// Why no rewind can start, if none can.
    pub transaction_unavailable: Option<String>,
    pub points: Vec<RewindPoint>,
    pub code_unavailable: Option<String>,
}

/// Why a rewind transaction did not begin.
#[derive(Clone, Debug, PartialEq, Eq)]
pub enum RewindBeginFailure {
    /// The checkpoint refused. `compensation_failed` says that undoing its work failed too.
    Checkpoint { message: String, compensation_failed: bool },
    /// The transaction died on the way.
    Task(String),
}

/// How a rewind transaction is closed.
#[derive(Clone, Copy, Debug, PartialEq, Eq, Structural)]
pub enum RewindFinalization {
    Commit,
    Compensate,
    Recover,
}

/// Why closing a rewind transaction failed.
#[derive(Clone, Debug, PartialEq, Eq)]
pub enum RewindFinishFailure {
    /// The ledger refused.
    Ledger(String),
    /// The work died on the way.
    Task(String),
    /// The session no longer has a checkpoint.
    NoCheckpoint,
}

impl RewindFinalization {
    pub open spec fn text(self) -> Seq<char> {
        match self {
            RewindFinalization::Commit => "commit"@,
            RewindFinalization::Compensate => "compensation"@,
            RewindFinalization::Recover => "recovery"@,
        }
    }

    fn name(self) -> (name: &'static str)
        ensures
            name@ == self.text(),
    {
        match self {
            RewindFinalization::Commit => "commit",
            RewindFinalization::Compensate => "compensation",
            RewindFinalization::Recover => "recovery",
        }
    }
}

/// Text of a turn after the local context that waited for it was put in front.
pub open spec fn with_context(context: Seq<Seq<char>>, text: Seq<char>) -> Seq<char> {
    if context.len() == 0 {
        text
    } else if text.len() == 0 {
        joined(context, "\n\n"@)
    } else {
        joined(context, "\n\n"@) + "\n\n"@ + text
    }
}

/// What drivers are told of the vision pass.
pub open spec fn vision_report(generation: u64, notice: Option<VisionNotice>) -> Seq<ActionView> {
    match notice {
        Some(VisionNotice::Recognised { vl_model, char_count }) => seq![
            ActionView::Emit {
                generation,
                event: EventView::Plain(
                    CodingRuntimeEvent::VisionPreprocessSuccess { vl_model, char_count },
                ),
            },
        ],
        Some(VisionNotice::Failed { reason }) => seq![
            ActionView::Emit {
                generation,
                event: EventView::Plain(CodingRuntimeEvent::VisionPreprocessFailed { reason }),
            },
        ],
        None => Seq::empty(),
    }
}

impl OwnerView {
    /// The user asks for a compaction: it is handed to the agent, or ends at once.
    pub open spec fn compact_asked(self, generation: u64, focus: Option<String>) -> OwnerView {
        let trigger = CompactTrigger::Manual { focus };
        if generation != self.generation || self.compaction_suspended {
            self.act(
                interrupted(
                    self.generation,
                    trigger,
                    CompactionInterruption::RuntimeReconfigured,
                ),
            )
        } else if !self.agent_available {
            self.act(
                interrupted(
                    self.generation,
                    trigger,
                    CompactionInterruption::RuntimeUnavailable,
                ),
            )
        } else if self.deliverable() {
            OwnerView {
                compactions: self.compactions.accept(trigger),
                ..self.offer(CommandView::Plain(AgentCommand::Compact { focus }))
            }
        } else {
            self.failed().act(
                interrupted(
                    self.generation,
                    trigger,
                    CompactionInterruption::RuntimeUnavailable,
                ),
            )
        }
    }

    /// Why a turn is refused, if it is.
    pub open spec fn submit_refusal(self, generation: u64) -> Option<RuntimeError> {
        if !self.native || generation != self.generation {
            Some(RuntimeError::Unavailable)
        } else if !self.agent_available {
            match self.provider_unavailable_reason {
                Some(reason) => Some(RuntimeError::ProviderUnavailable(reason)),
                None => Some(RuntimeError::Unavailable),
            }
        } else {
            None
        }
    }

    /// There is a turn in progress: the one that was, or a new one.
    pub open spec fn turn_begun(self) -> OwnerView {
        let started = self.active_turn is None;
        OwnerView {
            next_turn_id: if started {
                bump(self.next_turn_id)
            } else {
                self.next_turn_id
            },
            active_turn: if started {
                Some(bump(self.next_turn_id))
            } else {
                self.active_turn
            },
            held_turn: if started {
                None
            } else {
                self.held_turn
            },
            turn_stats: if started {
                RuntimeTurnStats::none()
            } else {
                self.turn_stats
            },
            phase: if started {
                RuntimePhase::InTurn
            } else {
                self.phase
            },
            ..self
        }
    }

    /// A turn that is taken in joins the one in progress or starts a new one, and takes the
    /// waiting local context with it.
    pub open spec fn submitted(self) -> OwnerView {
        OwnerView { pending_local_context: Seq::empty(), ..self.turn_begun() }
    }

    /// A prepared turn goes to the agent. Where the agent does not take it, a turn that was
    /// to start is not in progress; one that was to be added to still is.
    pub open spec fn handed_over(
        self,
        receipt: SubmitReceipt,
        text: Seq<char>,
        images: Seq<ImageContent>,
        notice: Option<VisionNotice>,
    ) -> OwnerView {
        let told = self.act_all(vision_report(self.generation, notice));
        if self.deliverable() {
            told.act(ActionView::Send(CommandView::SendMessage { text, images }))
        } else {
            OwnerView {
                active_turn: if receipt is Steered {
                    told.active_turn
                } else {
                    None
                },
                ..told.failed()
            }
        }
    }

    /// A prompt that a crash cut off is sent again, as a turn of its own; a turn that is in
    /// progress is added to.
    pub open spec fn prompt_replayed(self, text: Seq<char>, images: Seq<ImageContent>) -> OwnerView {
        let begun = self.turn_begun();
        if self.deliverable() {
            (OwnerView { phase: RuntimePhase::InTurn, ..begun }).act(
                ActionView::Send(CommandView::SendMessage { text, images }),
            )
        } else {
            OwnerView { active_turn: self.active_turn, ..begun.failed() }
        }
    }

    /// Receipt of the turn that is taken in.
    pub open spec fn submit_receipt(self) -> SubmitReceipt {
        match self.active_turn {
            Some(turn_id) => SubmitReceipt::Steered { generation: self.generation, turn_id },
            None => SubmitReceipt::Started {
                generation: self.generation,
                turn_id: bump(self.next_turn_id),
            },
        }
    }

    /// Whether a native control of the generation reaches a usable agent.
    pub open spec fn serves(self, generation: u64) -> bool {
        self.native && generation == self.generation && self.agent_available
    }

    /// Whether nothing stands in the way of looking at or changing the past of the
    /// conversation.
    pub open spec fn settled_at(self, generation: u64) -> bool {
        generation == self.generation && self.active_turn is None && !self.compaction_suspended
            && !self.compactions.is_active()
    }
}

/// Where a value stands in a list, or its length where it does not occur.
pub open spec fn position(ids: Seq<RequestId>, id: RequestId) -> int {
    if ids.contains(id) {
        ids.index_of(id)
    } else {
        ids.len() as int
    }
}

/// Leaving a value out of an ascending list leaves it ascending.
proof fn removal_keeps_ascending(ids: Seq<RequestId>, i: int)
    requires
        ascending(ids),
        0 <= i < ids.len(),
    ensures
        ascending(ids.remove(i)),
{
    let rest = ids.remove(i);
    assert forall|a: int, b: int| 0 <= a < b < rest.len() implies rest[a] < rest[b] by {
        let x = if a < i {
            a
        } else {
            a + 1
        };
        let y = if b < i {
            b
        } else {
            b + 1
        };
        assert(rest[a] == ids[x] && rest[b] == ids[y]);
    }
}

/// Whether the list holds the point.
fn holds_point(list: &Vec<RewindPoint>, point: &RewindPoint) -> (holds: bool)
    ensures
        holds == exists|i: int| 0 <= i < list@.len() && (#[trigger] list@[i])@ == point@,
{
    let mut i: usize = 0;
    while i < list.len()
        invariant
            0 <= i <= list.len(),
            forall|j: int| 0 <= j < i ==> (#[trigger] list@[j])@ != point@,
        decreases list.len() - i,
    {
        if list[i].same(point) {
            assert(list@[i as int]@ == point@);
            return true;
        }
        i = i + 1;
    }
    false
}

impl RuntimeOwner {
    fn refuse_compaction(&mut self, focus: Option<String>, reason: CompactionInterruption)
        ensures
            final(self)@ == old(self)@.act(
                interrupted(old(self)@.generation, CompactTrigger::Manual { focus }, reason),
            ),
    {
        self.emit(
            CodingRuntimeEvent::CompactionFinished {
                completion: CompactionCompletion::Interrupted {
                    trigger: CompactTrigger::Manual { focus },
                    reason,
                },
            },
        );
    }

    /// The user asks for a compaction. It is handed to the agent, or ends at once.
    pub fn compact(&mut self, generation: u64, focus: Option<String>)
        ensures
            final(self)@ == old(self)@.compact_asked(generation, focus),
            old(self)@.wf() ==> final(self)@.wf(),
    {
        if generation != self.generation || self.compaction_suspended {
            self.refuse_compaction(focus, CompactionInterruption::RuntimeReconfigured);
        } else if !self.agent_available {
            self.refuse_compaction(focus, CompactionInterruption::RuntimeUnavailable);
        } else if self.offer(AgentCommand::Compact { focus: copy_opt(&focus) }) {
            self.note_accepted(CompactTrigger::Manual { focus });
        } else {
            self.fail();
            self.refuse_compaction(focus, CompactionInterruption::RuntimeUnavailable);
        }
    }

    fn take_context(&mut self) -> (context: Vec<String>)
        ensures
            texts(context@) == old(self)@.pending_local_context,
            final(self)@ == (OwnerView { pending_local_context: Seq::empty(), ..old(self)@ }),
    {
        let mut context: Vec<String> = Vec::new();
        core::mem::swap(&mut context, &mut self.pending_local_context);
        assert(texts(self.pending_local_context@) =~= Seq::empty());
        context
    }

    fn begin_turn(&mut self)
        ensures
            final(self)@ == old(self)@.turn_begun(),
    {
        if self.active_turn.is_none() {
            self.next_turn_id = self.next_turn_id.wrapping_add(1);
            self.active_turn = Some(self.next_turn_id);
            self.held_turn = None;
            self.turn_stats = RuntimeTurnStats::default();
            self.phase = RuntimePhase::InTurn;
        }
    }

    /// Takes a turn in: it joins the turn in progress or starts one, and carries the local
    /// context that waited.
    pub fn begin_submit(&mut self, generation: u64, input: UserInput) -> (prepared: Result<
        PreparedTurn,
        RuntimeError,
    >)
        ensures
            match old(self)@.submit_refusal(generation) {
                Some(error) => prepared == Err::<PreparedTurn, RuntimeError>(error)
                    && final(self)@ == old(self)@,
                None => {
                    &&& prepared matches Ok(turn) && turn.receipt == old(self)@.submit_receipt()
                        && turn.input.text@ == with_context(
                        old(self)@.pending_local_context,
                        input.text@,
                    ) && turn.input.images == input.images
                    &&& final(self)@ == old(self)@.submitted()
                },
            },
            old(self)@.wf() ==> final(self)@.wf(),
    {
        if !self.native || generation != self.generation {
            return Err(RuntimeError::Unavailable);
        }
        if !self.agent_available {
            return Err(
                match self.provider_unavailable_reason {
                    Some(reason) => RuntimeError::ProviderUnavailable(reason),
                    None => RuntimeError::Unavailable,
                },
            );
        }
        let receipt = match self.active_turn {
            Some(turn_id) => SubmitReceipt::Steered { generation: self.generation, turn_id },
            None => SubmitReceipt::Started {
                generation: self.generation,
                turn_id: self.next_turn_id.wrapping_add(1),
            },
        };
        self.begin_turn();
        let UserInput { text, images } = input;
        let context = self.take_context();
        let text = if context.len() == 0 {
            text
        } else {
            let prefix = join_all(&context, "\n\n");
            if text.as_str().is_empty() {
                prefix
            } else {
                join3(prefix.as_str(), "\n\n", text.as_str())
            }
        };
        Ok(PreparedTurn { receipt, input: UserInput { text, images } })
    }

    /// Whether a turn goes through the vision pass first: it carries images and a pass is
    /// installed.
    pub fn wants_vision_pass(input: &UserInput, installed: bool) -> (wanted: bool)
        ensures
            wanted == (installed && input.images@.len() > 0),
    {
        installed && input.images.len() > 0
    }

    fn report_vision(&mut self, notice: Option<VisionNotice>)
        ensures
            final(self)@ == old(self)@.act_all(vision_report(old(self)@.generation, notice)),
    {
        let ghost told = vision_report(self.generation, notice);
        match notice {
            Some(VisionNotice::Recognised { vl_model, char_count }) => {
                self.emit(CodingRuntimeEvent::VisionPreprocessSuccess { vl_model, char_count });
            },
            Some(VisionNotice::Failed { reason }) => {
                self.emit(CodingRuntimeEvent::VisionPreprocessFailed { reason });
            },
            None => {},
        }
        assert(self@.outbox =~= old(self)@.outbox + told);
    }

    /// Hands a prepared turn to the agent. `input` is the turn as the vision pass left it. A
    /// turn that could not be started was never accepted; one that could not be added to is
    /// still in progress.
    pub fn finish_submit(
        &mut self,
        receipt: SubmitReceipt,
        input: UserInput,
        notice: Option<VisionNotice>,
    ) -> (result: Result<SubmitReceipt, RuntimeError>)
        ensures
            result == if old(self)@.deliverable() {
                Ok::<SubmitReceipt, RuntimeError>(receipt)
            } else {
                Err(RuntimeError::DeliveryFailed)
            },
            final(self)@ == old(self)@.handed_over(receipt, input.text@, input.images@, notice),
            old(self)@.wf() ==> final(self)@.wf(),
    {
        self.report_vision(notice);
        let UserInput { text, images } = input;
        if self.offer(AgentCommand::SendMessage { text, images }) {
            Ok(receipt)
        } else {
            self.fail();
            if matches!(receipt, SubmitReceipt::Started { .. }) {
                self.active_turn = None;
            }
            Err(RuntimeError::DeliveryFailed)
        }
    }

    /// Sends the prompt that a crash cut off, as a turn of its own. Tells whether it was
    /// delivered, so that it is not sent again.
    pub fn replay_pending_resume_prompt(&mut self, prompt: UserInput) -> (delivered: bool)
        ensures
            delivered == old(self)@.deliverable(),
            final(self)@ == old(self)@.prompt_replayed(prompt.text@, prompt.images@),
            old(self)@.wf() ==> final(self)@.wf(),
    {
        let before: Option<u64> = self.active_turn;
        self.begin_turn();
        let UserInput { text, images } = prompt;
        if self.offer(AgentCommand::SendMessage { text, images }) {
            self.phase = RuntimePhase::InTurn;
            true
        } else {
            self.fail();
            self.active_turn = before;
            false
        }
    }

    fn find_request(&self, id: RequestId) -> (index: usize)
        ensures
            index <= self.pending_requests.len(),
            index < self.pending_requests.len() ==> self@.pending_requests[index as int] == id,
            index == self.pending_requests.len() ==> !self@.pending_requests.contains(id),
    {
        let mut i: usize = 0;
        while i < self.pending_requests.len()
            invariant
                0 <= i <= self.pending_requests.len(),
                forall|j: int| 0 <= j < i ==> self@.pending_requests[j] != id,
            decreases self.pending_requests.len() - i,
        {
            if self.pending_requests[i] == id {
                return i;
            }
            i = i + 1;
        }
        i
    }

    fn drop_request(&mut self, index: usize)
        requires
            index < old(self).pending_requests.len(),
        ensures
            final(self)@ == (OwnerView {
                pending_requests: old(self)@.pending_requests.remove(index as int),
                ..old(self)@
            }),
    {
        let _ = self.pending_requests.remove(index);
    }

    /// A driver answers a request of the agent. A request is answered once.
    pub fn respond(&mut self, generation: u64, id: RequestId, value: ReplyValue) -> (result: Result<
        (),
        RuntimeError,
    >)
        requires
            old(self)@.wf(),
        ensures
            ({
                let before = old(self)@;
                let rest = before.pending_requests.remove(
                    position(before.pending_requests, id),
                );
                let taken = OwnerView { pending_requests: rest, ..before };
                if !before.serves(generation) {
                    &&& result == Err::<(), RuntimeError>(RuntimeError::Unavailable)
                    &&& final(self)@ == before
                } else if !before.pending_requests.contains(id) {
                    &&& result == Err::<(), RuntimeError>(RuntimeError::StaleRequest { id })
                    &&& final(self)@ == before
                } else if !before.deliverable() {
                    &&& result == Err::<(), RuntimeError>(RuntimeError::DeliveryFailed)
                    &&& final(self)@ == taken.failed()
                } else {
                    &&& result == Ok::<(), RuntimeError>(())
                    &&& final(self)@ == taken.act(
                        ActionView::Send(CommandView::Plain(AgentCommand::Respond { id, value })),
                    ).in_phase(
                        if rest.len() == 0 {
                            RuntimePhase::InTurn
                        } else {
                            before.phase
                        },
                    )
                }
            }),
            final(self)@.wf(),
            !final(self)@.pending_requests.contains(id) || !old(self)@.serves(generation),
    {
        if !self.native || generation != self.generation || !self.agent_available {
            return Err(RuntimeError::Unavailable);
        }
        let index: usize = self.find_request(id);
        if index == self.pending_requests.len() {
            return Err(RuntimeError::StaleRequest { id });
        }
        let ghost ids = self@.pending_requests;
        proof {
            let first = ids.index_of(id);
            assert(0 <= first < ids.len() && ids[first] == id);
            assert(ids[index as int] == id);
            assert(first == index) by {
                if first < index {
                    assert(ids[first] < ids[index as int]);
                } else if index < first {
                    assert(ids[index as int] < ids[first]);
                }
            }
            removal_keeps_ascending(ids, index as int);
            let rest = ids.remove(index as int);
            assert forall|j: int| 0 <= j < rest.len() implies rest[j] != id by {
                if j < index {
                    assert(rest[j] == ids[j]);
                } else {
                    assert(rest[j] == ids[j + 1]);
                }
            }
        }
        self.drop_request(index);
        if !self.offer(AgentCommand::Respond { id, value }) {
            self.fail();
            Err(RuntimeError::DeliveryFailed)
        } else {
            if self.pending_requests.len() == 0 {
                self.phase = RuntimePhase::InTurn;
            }
            Ok(())
        }
    }

    fn queue_waiter(&mut self, waiter: u64)
        ensures
            final(self)@ == (OwnerView {
                snapshot_waiters: old(self)@.snapshot_waiters.push(waiter),
                ..old(self)@
            }),
    {
        self.snapshot_waiters.push(waiter);
    }

    /// A driver asks for a snapshot. It is refused at once, or answered later: with the next
    /// snapshot of the agent, which is asked for one unless a turn is in progress or a
    /// snapshot is already on its way.
    pub fn snapshot(&mut self, generation: u64, waiter: u64) -> (result: Result<(), RuntimeError>)
        ensures
            ({
                let before = old(self)@;
                let queued = OwnerView {
                    snapshot_waiters: before.snapshot_waiters.push(waiter),
                    ..before
                };
                if !before.serves(generation) {
                    &&& result == Err::<(), RuntimeError>(RuntimeError::Unavailable)
                    &&& final(self)@ == before
                } else {
                    &&& result == Ok::<(), RuntimeError>(())
                    &&& final(self)@ == if before.active_turn is Some || before.snapshot_in_flight {
                        queued
                    } else if before.deliverable() {
                        (OwnerView {
                            snapshot_in_flight: true,
                            ..queued.offer(CommandView::Plain(AgentCommand::Snapshot))
                        })
                    } else {
                        queued.failed().answer_all(
                            AnswerView::Refused(RuntimeError::DeliveryFailed),
                        )
                    }
                }
            }),
            old(self)@.wf() ==> final(self)@.wf(),
    {
        if !self.native || generation != self.generation || !self.agent_available {
            return Err(RuntimeError::Unavailable);
        }
        self.queue_waiter(waiter);
        if self.active_turn.is_none() && !self.snapshot_in_flight {
            if self.offer(AgentCommand::Snapshot) {
                self.snapshot_in_flight = true;
            } else {
                self.fail();
                self.deny_waiters(true);
            }
        }
        Ok(())
    }

    fn settled_for(&self, generation: u64) -> (settled: bool)
        ensures
            settled == self@.settled_at(generation),
    {
        generation == self.generation && self.active_turn.is_none() && !self.compaction_suspended
            && !self.compactions.is_active()
    }

    /// The turns that the session can be rewound to. `ledger` is absent where no session is
    /// stored.
    pub fn rewind_catalog(&self, generation: u64, ledger: Option<RewindLedger>) -> (result: Result<
        RewindCatalog,
        RuntimeError,
    >)
        ensures
            if !self@.settled_at(generation) {
                result == Err::<RewindCatalog, RuntimeError>(RuntimeError::Busy)
            } else if !self@.has_resources {
                result == Err::<RewindCatalog, RuntimeError>(RuntimeError::Unavailable)
            } else {
                match ledger {
                    None => result matches Ok(catalog) && catalog.generation.0 == self@.generation
                        && catalog.revision == self@.conversation_revision
                        && catalog.points@.len() == 0 && opt_text(catalog.code_unavailable) == Some(
                        "rewind requires a persistent session"@,
                    ),
                    Some(open) => match open.transaction_unavailable {
                        Some(reason) => result == Err::<RewindCatalog, RuntimeError>(
                            RuntimeError::ReconfigureFailed(reason),
                        ),
                        None => result == Ok::<RewindCatalog, RuntimeError>(
                            RewindCatalog {
                                generation: RuntimeGeneration(self@.generation),
                                revision: self@.conversation_revision,
                                points: open.points,
                                code_unavailable: open.code_unavailable,
                            },
                        ),
                    },
                }
            },
    {
        if !self.settled_for(generation) {
            return Err(RuntimeError::Busy);
        }
        if !self.has_resources {
            return Err(RuntimeError::Unavailable);
        }
        match ledger {
            None => Ok(
                RewindCatalog {
                    generation: RuntimeGeneration(self.generation),
                    revision: self.conversation_revision,
                    points: Vec::new(),
                    code_unavailable: Some("rewind requires a persistent session".to_owned()),
                },
            ),
            Some(open) => match open.transaction_unavailable {
                Some(reason) => Err(RuntimeError::ReconfigureFailed(reason)),
                None => Ok(
                    RewindCatalog {
                        generation: RuntimeGeneration(self.generation),
                        revision: self.conversation_revision,
                        points: open.points,
                        code_unavailable: open.code_unavailable,
                    },
                ),
            },
        }
    }

    /// Checks that a rewind to the point may begin, and if so closes the runtime for it.
    /// `points` is what the ledger holds now; it is absent where no session is stored.
    pub fn check_rewind(
        &mut self,
        generation: u64,
        expected_revision: u64,
        point: &RewindPoint,
        points: Option<&Vec<RewindPoint>>,
    ) -> (result: Result<(), RuntimeError>)
        ensures
            if !old(self)@.settled_at(generation) || expected_revision
                != old(self)@.conversation_revision {
                &&& result == Err::<(), RuntimeError>(RuntimeError::Busy)
                &&& final(self)@ == old(self)@
            } else if !old(self)@.has_resources {
                &&& result == Err::<(), RuntimeError>(RuntimeError::Unavailable)
                &&& final(self)@ == old(self)@
            } else {
                match points {
                    None => {
                        &&& result matches Err(RuntimeError::CodeRewindUnavailable(message))
                            && message@ == "rewind requires a persistent session"@
                        &&& final(self)@ == old(self)@
                    },
                    Some(list) => if exists|i: int|
                        0 <= i < list@.len() && (#[trigger] list@[i])@ == point@ {
                        &&& result == Ok::<(), RuntimeError>(())
                        &&& final(self)@ == old(self)@.in_phase(RuntimePhase::Reconfiguring)
                    } else {
                        &&& result == Err::<(), RuntimeError>(
                            RuntimeError::RewindPointUnavailable { turn_id: point.turn_id },
                        )
                        &&& final(self)@ == old(self)@
                    },
                }
            },
            old(self)@.wf() ==> final(self)@.wf(),
    {
        if !self.settled_for(generation) || expected_revision != self.conversation_revision {
            return Err(RuntimeError::Busy);
        }
        if !self.has_resources {
            return Err(RuntimeError::Unavailable);
        }
        match points {
            None => Err(
                RuntimeError::CodeRewindUnavailable(
                    "rewind requires a persistent session".to_owned(),
                ),
            ),
            Some(list) => if holds_point(list, point) {
                self.phase = RuntimePhase::Reconfiguring;
                Ok(())
            } else {
                Err(RuntimeError::RewindPointUnavailable { turn_id: point.turn_id })
            },
        }
    }

    /// A rewind that was closed for did not begin. The runtime opens again unless the
    /// workspace may have been left half changed.
    pub fn rewind_not_begun(&mut self, failure: RewindBeginFailure, restore_code: bool) -> (error:
        RuntimeError)
        ensures
            match failure {
                RewindBeginFailure::Checkpoint { message, compensation_failed } => {
                    &&& final(self)@ == if compensation_failed {
                        old(self)@.abandoned()
                    } else {
                        old(self)@.in_phase(RuntimePhase::Ready)
                    }
                    &&& restore_code ==> error == RuntimeError::CodeRewindUnavailable(message)
                    &&& !restore_code ==> (error matches RuntimeError::ReconfigureFailed(text)
                        && text@ == "rewind checkpoint update failed: "@ + message@)
                },
                RewindBeginFailure::Task(message) => {
                    &&& final(self)@ == old(self)@.abandoned()
                    &&& error matches RuntimeError::CodeRewindUnavailable(text) && text@
                        == "rewind checkpoint task failed: "@ + message@
                },
            },
            old(self)@.wf() ==> final(self)@.wf(),
    {
        match failure {
            RewindBeginFailure::Checkpoint { message, compensation_failed } => {
                if compensation_failed {
                    self.abandon();
                } else {
                    self.enter(RuntimePhase::Ready);
                }
                if restore_code {
                    RuntimeError::CodeRewindUnavailable(message)
                } else {
                    RuntimeError::ReconfigureFailed(
                        join2("rewind checkpoint update failed: ", message.as_str()),
                    )
                }
            },
            RewindBeginFailure::Task(message) => {
                self.abandon();
                RuntimeError::CodeRewindUnavailable(
                    join2("rewind checkpoint task failed: ", message.as_str()),
                )
            },
        }
    }

    /// Checks that a rewind may be closed. Recovery is open to every generation.
    pub fn check_finish_rewind(&self, generation: u64, outcome: RewindFinalization) -> (result:
        Result<(), RuntimeError>)
        ensures
            result == if outcome != RewindFinalization::Recover && generation
                != self@.generation {
                Err::<(), RuntimeError>(RuntimeError::Busy)
            } else if !self@.has_resources {
                Err(RuntimeError::Unavailable)
            } else {
                Ok(())
            },
    {
        if outcome != RewindFinalization::Recover && generation != self.generation {
            return Err(RuntimeError::Busy);
        }
        if !self.has_resources {
            return Err(RuntimeError::Unavailable);
        }
        Ok(())
    }

    /// Closing a rewind succeeded or failed. After a failure the conversation and the
    /// workspace are no longer known to agree, and the runtime takes no more turns.
    pub fn rewind_finished(
        &mut self,
        outcome: RewindFinalization,
        failure: Option<RewindFinishFailure>,
    ) -> (result: Result<(), RuntimeError>)
        ensures
            match failure {
                None => {
                    &&& result == Ok::<(), RuntimeError>(())
                    &&& final(self)@ == if old(self)@.phase == RuntimePhase::Reconfiguring {
                        old(self)@.in_phase(RuntimePhase::Ready)
                    } else {
                        old(self)@
                    }
                },
                Some(RewindFinishFailure::Ledger(message)) => {
                    &&& final(self)@ == old(self)@.abandoned()
                    &&& result matches Err(RuntimeError::ReconfigureFailed(text)) && text@
                        == "rewind "@ + outcome.text() + " failed: "@ + message@
                },
                Some(RewindFinishFailure::Task(message)) => {
                    &&& final(self)@ == old(self)@.abandoned()
                    &&& result matches Err(RuntimeError::ReconfigureFailed(text)) && text@
                        == "rewind "@ + outcome.text() + " task failed: "@ + message@
                },
                Some(RewindFinishFailure::NoCheckpoint) => {
                    &&& final(self)@ == old(self)@.abandoned()
                    &&& result matches Err(RuntimeError::CodeRewindUnavailable(text)) && text@
                        == "rewind finalization lost its session checkpoint"@
                },
            },
            old(self)@.wf() ==> final(self)@.wf(),
    {
        match failure {
            None => {
                if self.phase == RuntimePhase::Reconfiguring {
                    self.enter(RuntimePhase::Ready);
                }
                Ok(())
            },
            Some(RewindFinishFailure::Ledger(message)) => {
                self.abandon();
                let mut text = join3("rewind ", outcome.name(), " failed: ");
                text.append(message.as_str());
                Err(RuntimeError::ReconfigureFailed(text))
            },
            Some(RewindFinishFailure::Task(message)) => {
                self.abandon();
                let mut text = join3("rewind ", outcome.name(), " task failed: ");
                text.append(message.as_str());
                Err(RuntimeError::ReconfigureFailed(text))
            },
            Some(RewindFinishFailure::NoCheckpoint) => {
                self.abandon();
                Err(
                    RuntimeError::CodeRewindUnavailable(
                        "rewind finalization lost its session checkpoint".to_owned(),
                    ),
                )
            },
        }
    }

    /// Changes the permission mode. Gives the switches `(plan, auto, accept_edits)`.
    pub fn set_mode(&mut self, generation: u64, mode: RuntimeMode) -> (result: Result<
        (bool, bool, bool),
        RuntimeError,
    >)
        ensures
            if !old(self)@.has_resources {
                &&& result == Err::<(bool, bool, bool), RuntimeError>(RuntimeError::Unavailable)
                &&& final(self)@ == old(self)@
            } else if generation != old(self)@.generation || old(self)@.compaction_suspended {
                &&& result == Err::<(bool, bool, bool), RuntimeError>(RuntimeError::Busy)
                &&& final(self)@ == old(self)@
            } else {
                &&& result == Ok::<(bool, bool, bool), RuntimeError>(
                    (
                        mode == RuntimeMode::Plan,
                        mode == RuntimeMode::Auto,
                        mode == RuntimeMode::AcceptEdits,
                    ),
                )
                &&& final(self)@ == old(self)@.emit(
                    EventView::Plain(CodingRuntimeEvent::ModeChanged { mode }),
                )
            },
            old(self)@.wf() ==> final(self)@.wf(),
    {
        if !self.has_resources {
            return Err(RuntimeError::Unavailable);
        }
        if generation != self.generation || self.compaction_suspended {
            return Err(RuntimeError::Busy);
        }
        self.emit(CodingRuntimeEvent::ModeChanged { mode });
        Ok(mode.to_flags())
    }

    /// How full the context is. The rest is the configuration of the current agent.
    pub fn context_stats(
        &self,
        generation: u64,
        context_window: u32,
        model: String,
        working_dir: String,
    ) -> (result: Result<RuntimeContextStats, RuntimeError>)
        ensures
            result == if !self@.has_resources {
                Err::<RuntimeContextStats, RuntimeError>(RuntimeError::Unavailable)
            } else if generation != self@.generation {
                Err(RuntimeError::Busy)
            } else {
                Ok(
                    RuntimeContextStats {
                        context_window,
                        used_tokens: match self@.observed_tokens {
                            Some(tokens) => if tokens > u32::MAX {
                                u32::MAX
                            } else {
                                tokens as u32
                            },
                            None => 0,
                        },
                        model,
                        working_dir,
                    },
                )
            },
    {
        if !self.has_resources {
            return Err(RuntimeError::Unavailable);
        }
        if generation != self.generation {
            return Err(RuntimeError::Busy);
        }
        let used_tokens: u32 = match self.observed_tokens {
            Some(tokens) => if tokens > u32::MAX as usize {
                u32::MAX
            } else {
                tokens as u32
            },
            None => 0,
        };
        Ok(RuntimeContextStats { context_window, used_tokens, model, working_dir })
    }

    /// Whether a driver may wait for the tool servers, or withdraw their tools: only between
    /// turns.
    pub fn check_tool_servers_idle(&self, generation: u64) -> (result: Result<(), RuntimeError>)
        ensures
            result == if generation != self@.generation || self@.active_turn is Some
                || self@.compaction_suspended {
                Err::<(), RuntimeError>(RuntimeError::Busy)
            } else if !self@.has_resources {
                Err(RuntimeError::Unavailable)
            } else {
                Ok(())
            },
    {
        if generation != self.generation || self.active_turn.is_some()
            || self.compaction_suspended {
            return Err(RuntimeError::Busy);
        }
        if !self.has_resources {
            return Err(RuntimeError::Unavailable);
        }
        Ok(())
    }

    /// Whether a driver may read the state of the tool servers.
    pub fn check_tool_servers(&self, generation: u64) -> (result: Result<
        RuntimeGeneration,
        RuntimeError,
    >)
        ensures
            result == if generation != self@.generation {
                Err::<RuntimeGeneration, RuntimeError>(RuntimeError::Busy)
            } else if !self@.has_resources {
                Err(RuntimeError::Unavailable)
            } else {
                Ok(RuntimeGeneration(self@.generation))
            },
    {
        if generation != self.generation {
            return Err(RuntimeError::Busy);
        }
        if !self.has_resources {
            return Err(RuntimeError::Unavailable);
        }
        Ok(RuntimeGeneration(self.generation))
    }

    fn queue_context(&mut self, content: String)
        ensures
            final(self)@ == (OwnerView {
                pending_local_context: old(self)@.pending_local_context.push(content@),
                ..old(self)@
            }),
    {
        self.pending_local_context.push(content);
        assert(texts(self.pending_local_context@) =~= old(self)@.pending_local_context.push(
            content@,
        ));
    }

    /// Keeps local context for the next turn. Empty context is dropped.
    pub fn queue_local_context(&mut self, generation: u64, input: LocalContextInput) -> (result:
        Result<(), RuntimeError>)
        ensures
            if generation != old(self)@.generation || old(self)@.compaction_suspended {
                &&& result == Err::<(), RuntimeError>(RuntimeError::Busy)
                &&& final(self)@ == old(self)@
            } else {
                &&& result == Ok::<(), RuntimeError>(())
                &&& final(self)@ == (OwnerView {
                    pending_local_context: if input.content@.len() == 0 {
                        old(self)@.pending_local_context
                    } else {
                        old(self)@.pending_local_context.push(input.content@)
                    },
                    ..old(self)@
                })
            },
            old(self)@.wf() ==> final(self)@.wf(),
    {
        if generation != self.generation || self.compaction_suspended {
            return Err(RuntimeError::Busy);
        }
        if !input.content.as_str().is_empty() {
            self.queue_context(input.content);
        }
        Ok(())
    }
}

} // verus!
