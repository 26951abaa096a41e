//! Conversation compaction: outcomes, the shape of a snapshot mutation, and the record of
//! the compactions in flight.
use crate::conversation::{Message, SessionSnapshot};
use crate::text::{copy_opt, opt_text, same_opt_text};
use std::sync::Arc;
use vstd::prelude::*;

verus! {

/// What started a compaction.
#[derive(Clone, Debug, PartialEq, Eq)]
pub enum CompactTrigger {
    /// Asked for by the user, with an optional focus.
    Manual { focus: Option<String> },
    /// Context pressure. The ratio is carried as the bits of its double, unread.
    Auto { utilization_bits: u64 },
    /// The provider refused an oversized request. Carried unread.
    Overflow { attempt: u64 },
}

/// A trigger as a value.
pub enum TriggerView {
    Manual { focus: Option<Seq<char>> },
    Auto { utilization_bits: u64 },
    Overflow { attempt: u64 },
}

impl View for CompactTrigger {
    type V = TriggerView;

    open spec fn view(&self) -> TriggerView {
        match *self {
            CompactTrigger::Manual { focus } => TriggerView::Manual { focus: opt_text(focus) },
            CompactTrigger::Auto { utilization_bits } => TriggerView::Auto { utilization_bits },
            CompactTrigger::Overflow { attempt } => TriggerView::Overflow { attempt },
        }
    }
}

impl CompactTrigger {
    pub fn is_manual(&self) -> (manual: bool)
        ensures
            manual == (self is Manual),
    {
        matches!(self, CompactTrigger::Manual { .. })
    }

    pub fn duplicate(&self) -> (copy: CompactTrigger)
        ensures
            copy == *self,
    {
        match self {
            CompactTrigger::Manual { focus } => CompactTrigger::Manual { focus: copy_opt(focus) },
            CompactTrigger::Auto { utilization_bits } => CompactTrigger::Auto {
                utilization_bits: *utilization_bits,
            },
            CompactTrigger::Overflow { attempt } => CompactTrigger::Overflow { attempt: *attempt },
        }
    }

    /// Whether two triggers are equal.
    pub fn same(&self, other: &CompactTrigger) -> (same: bool)
        ensures
            same == (self@ == other@),
    {
        match (self, other) {
            (
                CompactTrigger::Manual { focus: left },
                CompactTrigger::Manual { focus: right },
            ) => same_opt_text(left, right),
            (
                CompactTrigger::Auto { utilization_bits: left },
                CompactTrigger::Auto { utilization_bits: right },
            ) => *left == *right,
            (
                CompactTrigger::Overflow { attempt: left },
                CompactTrigger::Overflow { attempt: right },
            ) => *left == *right,
            _ => false,
        }
    }
}

/// Why a compaction checkpoint could not be written.
#[derive(Clone, Debug, PartialEq, Eq)]
pub struct CompactionCheckpointError {
    pub message: String,
}

/// Why a compaction could not reach a kernel result.
#[derive(Clone, Copy, Debug, PartialEq, Eq, Structural)]
pub enum CompactionInterruption {
    /// The agent/session/provider owning the request was replaced.
    RuntimeReconfigured,
    /// The coding runtime was shut down.
    RuntimeShutdown,
    /// The current agent was already unavailable when delivery was attempted.
    RuntimeUnavailable,
}

/// The driver-neutral result of a compaction attempt.
#[derive(Clone, Debug, PartialEq, Eq)]
pub struct CompactionOutcome {
    pub trigger: CompactTrigger,
    pub epoch: u64,
    pub removed_messages: usize,
    pub bytes_before: usize,
    pub bytes_after: usize,
    pub committed: bool,
    pub estimated_tokens_before: usize,
    pub estimated_tokens_after: usize,
    /// Exact candidate used for a committed manual compaction.
    pub committed_snapshot: Option<Arc<SessionSnapshot>>,
}

/// Terminal state of a compaction accepted by the coding runtime.
#[derive(Clone, Debug, PartialEq, Eq)]
pub enum CompactionCompletion {
    /// The kernel returned a normal compaction result.
    Completed(CompactionOutcome),
    /// The prepared result could not be durably checkpointed, so it was not committed.
    Failed { trigger: CompactTrigger, error: CompactionCheckpointError },
    /// The owning runtime was replaced or stopped before the kernel returned a result.
    Interrupted { trigger: CompactTrigger, reason: CompactionInterruption },
}

impl CompactionCompletion {
    pub open spec fn trigger_of(self) -> CompactTrigger {
        match self {
            CompactionCompletion::Completed(outcome) => outcome.trigger,
            CompactionCompletion::Failed { trigger, error } => trigger,
            CompactionCompletion::Interrupted { trigger, reason } => trigger,
        }
    }

    /// Trigger that initiated this compaction attempt.
    pub fn trigger(&self) -> (trigger: &CompactTrigger)
        ensures
            *trigger == self.trigger_of(),
    {
        match self {
            CompactionCompletion::Completed(outcome) => &outcome.trigger,
            CompactionCompletion::Failed { trigger, error: _ } => trigger,
            CompactionCompletion::Interrupted { trigger, reason: _ } => trigger,
        }
    }

    /// Whether this terminal belongs to a user-requested `/compact`.
    pub fn is_manual(&self) -> (manual: bool)
        ensures
            manual == (self.trigger_of() is Manual),
    {
        self.trigger().is_manual()
    }
}

/// Tokens before the compaction: the usage last seen, or a quarter of the bytes.
pub open spec fn tokens_before(observed: Option<usize>, bytes_before: usize) -> usize {
    match observed {
        Some(tokens) if tokens > 0 => tokens,
        _ => (bytes_before / 4) as usize,
    }
}

/// Tokens after it: scaled as the bytes were, cut to the width of a machine word.
#[verifier::opaque]
pub open spec fn tokens_after(tokens: usize, bytes_before: usize, bytes_after: usize) -> int {
    if bytes_before == 0 {
        tokens as int
    } else {
        (tokens * bytes_after / bytes_before as int) % (usize::MAX + 1)
    }
}

pub fn estimate_after_tokens(tokens_before: usize, bytes_before: usize, bytes_after: usize) -> (
    tokens: usize)
    ensures
        tokens == tokens_after(tokens_before, bytes_before, bytes_after),
{
    proof {
        reveal(tokens_after);
    }
    if bytes_before == 0 {
        return tokens_before;
    }
    proof {
        let t = tokens_before as int;
        let a = bytes_after as int;
        assert(0 <= t * a <= 0xffff_ffff_ffff_ffff * 0xffff_ffff_ffff_ffff) by (nonlinear_arith)
            requires
                0 <= t <= 0xffff_ffff_ffff_ffff,
                0 <= a <= 0xffff_ffff_ffff_ffff,
        ;
    }
    let scaled: u128 = (tokens_before as u128 * bytes_after as u128) / bytes_before as u128;
    let modulus: u128 = usize::MAX as u128 + 1;
    (scaled % modulus) as usize
}

/// A compaction that did not grow the conversation does not grow its token estimate either.
pub proof fn compaction_never_raises_the_estimate(
    tokens: usize,
    bytes_before: usize,
    bytes_after: usize,
)
    requires
        bytes_after <= bytes_before,
    ensures
        0 <= tokens_after(tokens, bytes_before, bytes_after) <= tokens,
{
    reveal(tokens_after);
    if bytes_before != 0 {
        let t = tokens as int;
        let a = bytes_after as int;
        let b = bytes_before as int;
        assert(0 <= t * a <= t * b) by (nonlinear_arith)
            requires
                0 <= t,
                0 <= a <= b,
        ;
        assert(0 <= t * a / b <= t) by (nonlinear_arith)
            requires
                0 <= t * a <= t * b,
                b > 0,
        ;
        assert((t * a / b) % (usize::MAX + 1) == t * a / b) by (nonlinear_arith)
            requires
                0 <= t * a / b <= usize::MAX,
        ;
    }
}

impl CompactionOutcome {
    /// Build an outcome from the kernel audit fields and the most recent real
    /// provider usage observed by the runtime owner.
    pub fn from_kernel(
        trigger: CompactTrigger,
        epoch: u64,
        removed_messages: usize,
        bytes_before: usize,
        bytes_after: usize,
        committed: bool,
        observed_tokens_before: Option<usize>,
    ) -> (outcome: Self)
        ensures
            outcome.trigger == trigger,
            outcome.epoch == epoch,
            outcome.removed_messages == removed_messages,
            outcome.bytes_before == bytes_before,
            outcome.bytes_after == bytes_after,
            outcome.committed == committed,
            outcome.estimated_tokens_before == tokens_before(observed_tokens_before, bytes_before),
            outcome.estimated_tokens_after == tokens_after(
                tokens_before(observed_tokens_before, bytes_before),
                bytes_before,
                bytes_after,
            ),
            outcome.committed_snapshot is None,
    {
        let estimated_tokens_before: usize = match observed_tokens_before {
            Some(tokens) if tokens > 0 => tokens,
            _ => bytes_before / 4,
        };
        let estimated_tokens_after: usize = estimate_after_tokens(
            estimated_tokens_before,
            bytes_before,
            bytes_after,
        );
        CompactionOutcome {
            trigger,
            epoch,
            removed_messages,
            bytes_before,
            bytes_after,
            committed,
            estimated_tokens_before,
            estimated_tokens_after,
            committed_snapshot: None,
        }
    }

    /// Whether the attempt was explicitly requested by a user.
    pub fn is_manual(&self) -> (manual: bool)
        ensures
            manual == (self.trigger is Manual),
    {
        self.trigger.is_manual()
    }

    /// Whether the proposed compacted conversation was larger than the input.
    pub fn summary_would_grow(&self) -> (grows: bool)
        ensures
            grows == (self.bytes_after > self.bytes_before),
    {
        self.bytes_after > self.bytes_before
    }
}

/// Shape of the committed snapshot mutation.
#[derive(Clone, Copy, Debug, PartialEq, Eq, Structural)]
pub enum SnapshotCompactionMutation {
    /// The kernel refused the plan or the policy proposed no changes.
    Noop,
    /// Existing message positions were retained; only message bodies changed in place.
    RewriteOnly,
    /// One contiguous old span was replaced by a new span.
    Replace { old_start: usize, old_end: usize, new_end: usize },
}

/// The span that a compaction policy proposes to drain, and whether it leaves a summary.
#[derive(Clone, Copy, Debug, PartialEq, Eq, Structural)]
pub struct CompactionPlanSpan {
    pub drain_from: usize,
    pub drain_to: usize,
    pub has_summary: bool,
}

pub open spec fn at_most(value: int, bound: int) -> int {
    if value <= bound {
        value
    } else {
        bound
    }
}

pub open spec fn at_least(value: int, bound: int) -> int {
    if value >= bound {
        value
    } else {
        bound
    }
}

/// First drained message: the plan's, raised to the protected head and cut to the length.
pub open spec fn drained_start(message_count: usize, floor: usize, plan: CompactionPlanSpan) -> int {
    at_most(
        at_least(plan.drain_from as int, at_most(floor as int, message_count as int)),
        message_count as int,
    )
}

fn min_of(left: usize, right: usize) -> (least: usize)
    ensures
        least == at_most(left as int, right as int),
{
    if left <= right {
        left
    } else {
        right
    }
}

fn max_of(left: usize, right: usize) -> (most: usize)
    ensures
        most == at_least(left as int, right as int),
{
    if left >= right {
        left
    } else {
        right
    }
}

/// What applying the plan does to a conversation of `message_count` messages whose first
/// `sacred_floor` messages are protected.
pub fn snapshot_mutation(message_count: usize, sacred_floor: usize, plan: CompactionPlanSpan) -> (
    mutation: SnapshotCompactionMutation)
    requires
        message_count < usize::MAX,
    ensures
        ({
            let start = drained_start(message_count, sacred_floor, plan);
            let end = at_most(plan.drain_to as int, message_count as int);
            if start < end || plan.has_summary {
                mutation == (SnapshotCompactionMutation::Replace {
                    old_start: start as usize,
                    old_end: end as usize,
                    new_end: (start + if plan.has_summary {
                        1int
                    } else {
                        0int
                    }) as usize,
                })
            } else {
                mutation == SnapshotCompactionMutation::RewriteOnly
            }
        }),
{
    let floor: usize = min_of(sacred_floor, message_count);
    let old_start: usize = min_of(max_of(plan.drain_from, floor), message_count);
    let old_end: usize = min_of(plan.drain_to, message_count);
    if old_start < old_end || plan.has_summary {
        let new_end: usize = if plan.has_summary {
            old_start + 1
        } else {
            old_start
        };
        SnapshotCompactionMutation::Replace { old_start, old_end, new_end }
    } else {
        SnapshotCompactionMutation::RewriteOnly
    }
}

/// Window that a persisted conversation is compacted against: the provider's own where it
/// gives one, else the one last recorded.
pub fn compaction_window(live_window: u32, recorded_window: u32) -> (window: u32)
    ensures
        window == if live_window > 0 {
            live_window
        } else {
            recorded_window
        },
{
    if live_window > 0 {
        live_window
    } else {
        recorded_window
    }
}

/// What the kernel reports of an applied plan.
#[derive(Clone, Copy, Debug, PartialEq, Eq, Structural)]
pub struct CompactionReport {
    pub epoch_after: u64,
    pub removed: usize,
    pub bytes_before: usize,
    pub bytes_after: usize,
    pub committed: bool,
}

/// Result of compacting an already-persisted conversation without starting an agent loop.
#[derive(Clone, Debug, PartialEq, Eq)]
pub struct SnapshotCompaction {
    pub messages: Vec<Message>,
    pub outcome: CompactionOutcome,
    pub mutation: SnapshotCompactionMutation,
}

/// Result of a manual compaction of a persisted conversation: `messages` is what the kernel
/// left, `message_count` the length before the plan was applied. A plan that was not
/// committed changed nothing.
pub fn compact_snapshot(
    message_count: usize,
    sacred_floor: usize,
    plan: CompactionPlanSpan,
    report: CompactionReport,
    used_tokens: u32,
    focus: Option<String>,
    messages: Vec<Message>,
) -> (result: SnapshotCompaction)
    requires
        message_count < usize::MAX,
    ensures
        result.messages == messages,
        result.outcome.trigger == (CompactTrigger::Manual { focus }),
        result.outcome.epoch == report.epoch_after,
        result.outcome.removed_messages == report.removed,
        result.outcome.bytes_before == report.bytes_before,
        result.outcome.bytes_after == report.bytes_after,
        result.outcome.committed == report.committed,
        result.outcome.estimated_tokens_before == tokens_before(
            Some(used_tokens as usize),
            report.bytes_before,
        ),
        result.outcome.estimated_tokens_after == tokens_after(
            tokens_before(Some(used_tokens as usize), report.bytes_before),
            report.bytes_before,
            report.bytes_after,
        ),
        result.outcome.committed_snapshot is None,
        !report.committed ==> result.mutation == SnapshotCompactionMutation::Noop,
        report.committed ==> ({
            let start = drained_start(message_count, sacred_floor, plan);
            let end = at_most(plan.drain_to as int, message_count as int);
            if start < end || plan.has_summary {
                result.mutation == (SnapshotCompactionMutation::Replace {
                    old_start: start as usize,
                    old_end: end as usize,
                    new_end: (start + if plan.has_summary {
                        1int
                    } else {
                        0int
                    }) as usize,
                })
            } else {
                result.mutation == SnapshotCompactionMutation::RewriteOnly
            }
        }),
{
    let planned = snapshot_mutation(message_count, sacred_floor, plan);
    let outcome = CompactionOutcome::from_kernel(
        CompactTrigger::Manual { focus },
        report.epoch_after,
        report.removed,
        report.bytes_before,
        report.bytes_after,
        report.committed,
        Some(used_tokens as usize),
    );
    let mutation = if report.committed {
        planned
    } else {
        SnapshotCompactionMutation::Noop
    };
    SnapshotCompaction { messages, outcome, mutation }
}

/// A manual compaction that was handed to the agent and has no terminal yet.
#[derive(Clone, Debug, PartialEq, Eq)]
pub struct ManualCompactionFlight {
    pub trigger: CompactTrigger,
    pub started: bool,
}

/// The compactions in flight.
#[derive(Clone, Debug)]
pub struct CompactionTracker {
    pub manual: Vec<ManualCompactionFlight>,
    pub non_manual_started: Option<CompactTrigger>,
}

pub struct TrackerView {
    pub manual: Seq<ManualCompactionFlight>,
    pub non_manual_started: Option<CompactTrigger>,
}

impl View for CompactionTracker {
    type V = TrackerView;

    open spec fn view(&self) -> TrackerView {
        TrackerView { manual: self.manual@, non_manual_started: self.non_manual_started }
    }
}

/// Position of the first flight of the trigger (of those not started yet, where
/// `unstarted` is set), or the number of flights where there is none.
pub open spec fn first_flight(
    flights: Seq<ManualCompactionFlight>,
    trigger: TriggerView,
    unstarted: bool,
) -> int
    decreases flights.len(),
{
    if flights.len() == 0 {
        0
    } else if flights[0].trigger@ == trigger && !(unstarted && flights[0].started) {
        0
    } else {
        1 + first_flight(flights.drop_first(), trigger, unstarted)
    }
}

impl TrackerView {
    pub open spec fn is_active(self) -> bool {
        self.manual.len() > 0 || self.non_manual_started is Some
    }

    /// The tracker after a manual compaction was handed to the agent.
    pub open spec fn accept(self, trigger: CompactTrigger) -> TrackerView {
        TrackerView {
            manual: self.manual.push(ManualCompactionFlight { trigger, started: false }),
            ..self
        }
    }

    /// The tracker after the agent reported the start of a compaction.
    pub open spec fn start(self, trigger: CompactTrigger) -> TrackerView {
        if trigger is Manual {
            let i = first_flight(self.manual, trigger@, true);
            if i < self.manual.len() {
                TrackerView {
                    manual: self.manual.update(
                        i,
                        ManualCompactionFlight { started: true, ..self.manual[i] },
                    ),
                    ..self
                }
            } else {
                TrackerView {
                    manual: self.manual.push(ManualCompactionFlight { trigger, started: true }),
                    ..self
                }
            }
        } else {
            TrackerView { non_manual_started: Some(trigger), ..self }
        }
    }

    /// The tracker after the agent reported the end of a compaction.
    pub open spec fn finish(self, trigger: CompactTrigger) -> TrackerView {
        if trigger is Manual {
            let i = first_flight(self.manual, trigger@, false);
            if i < self.manual.len() {
                TrackerView { manual: self.manual.remove(i), ..self }
            } else {
                self
            }
        } else {
            TrackerView { non_manual_started: None, ..self }
        }
    }

    /// Whether a compaction of the trigger's kind is in flight: of the very trigger, where it
    /// is a manual one.
    pub open spec fn tracks(self, trigger: CompactTrigger) -> bool {
        if trigger is Manual {
            first_flight(self.manual, trigger@, false) < self.manual.len()
        } else {
            self.non_manual_started is Some
        }
    }

    /// The triggers without a terminal, manual ones first, each in the order it was accepted.
    pub open spec fn open_triggers(self) -> Seq<CompactTrigger> {
        let manual = self.manual.map_values(|flight: ManualCompactionFlight| flight.trigger);
        match self.non_manual_started {
            Some(trigger) => manual.push(trigger),
            None => manual,
        }
    }

    pub open spec fn none() -> TrackerView {
        TrackerView { manual: Seq::empty(), non_manual_started: None }
    }
}

/// The first flight that matches is the first: it matches, and none before it does.
pub proof fn first_flight_is_first(
    flights: Seq<ManualCompactionFlight>,
    trigger: TriggerView,
    unstarted: bool,
)
    ensures
        ({
            let i = first_flight(flights, trigger, unstarted);
            &&& 0 <= i <= flights.len()
            &&& i < flights.len() ==> flights[i].trigger@ == trigger && !(unstarted
                && flights[i].started)
            &&& forall|j: int|
                0 <= j < i ==> #[trigger] flights[j].trigger@ != trigger || (unstarted
                    && flights[j].started)
        }),
    decreases flights.len(),
{
    if flights.len() > 0 {
        let rest = flights.drop_first();
        first_flight_is_first(rest, trigger, unstarted);
        assert(forall|j: int| 0 < j < flights.len() ==> flights[j] == #[trigger] rest[j - 1]);
        assert forall|j: int| 0 <= j < first_flight(flights, trigger, unstarted) implies #[trigger] flights[j].trigger@
            != trigger || (unstarted && flights[j].started) by {
            if j > 0 {
                assert(flights[j] == rest[j - 1]);
            }
        }
    }
}

proof fn first_flight_step(
    flights: Seq<ManualCompactionFlight>,
    trigger: TriggerView,
    unstarted: bool,
    i: int,
)
    requires
        0 <= i <= flights.len(),
        forall|j: int|
            0 <= j < i ==> #[trigger] flights[j].trigger@ != trigger || (unstarted
                && flights[j].started),
        i < flights.len() ==> flights[i].trigger@ == trigger && !(unstarted
            && flights[i].started),
    ensures
        first_flight(flights, trigger, unstarted) == i,
    decreases flights.len(),
{
    if i > 0 {
        let rest = flights.drop_first();
        assert(flights[0].trigger@ != trigger || (unstarted && flights[0].started));
        assert forall|j: int| 0 <= j < i - 1 implies #[trigger] rest[j].trigger@ != trigger || (
        unstarted && rest[j].started) by {
            assert(rest[j] == flights[j + 1]);
        }
        first_flight_step(rest, trigger, unstarted, i - 1);
    }
}

/// A compaction that was accepted is open until a terminal for its trigger is reported, and
/// the terminal of one trigger leaves every flight of another in place.
pub proof fn finishing_ends_one_flight(tracker: TrackerView, trigger: CompactTrigger)
    requires
        trigger is Manual,
    ensures
        ({
            let after = tracker.finish(trigger);
            let i = first_flight(tracker.manual, trigger@, false);
            &&& after.non_manual_started == tracker.non_manual_started
            &&& i < tracker.manual.len() ==> {
                &&& tracker.manual[i].trigger@ == trigger@
                &&& after.manual == tracker.manual.remove(i)
                &&& after.manual.len() == tracker.manual.len() - 1
            }
            &&& i == tracker.manual.len() ==> after == tracker
        }),
        first_flight(tracker.accept(trigger).manual, trigger@, false) <= tracker.manual.len(),
        tracker.accept(trigger).is_active(),
{
    first_flight_is_first(tracker.manual, trigger@, false);
    let accepted = tracker.accept(trigger).manual;
    first_flight_is_first(accepted, trigger@, false);
    assert(accepted[tracker.manual.len() as int].trigger@ == trigger@);
}

impl CompactionTracker {
    pub fn new() -> (tracker: Self)
        ensures
            tracker@ == TrackerView::none(),
    {
        CompactionTracker { manual: Vec::new(), non_manual_started: None }
    }

    pub fn is_active(&self) -> (active: bool)
        ensures
            active == self@.is_active(),
    {
        self.manual.len() > 0 || self.non_manual_started.is_some()
    }

    pub fn accepted_manual(&mut self, trigger: CompactTrigger)
        ensures
            final(self)@ == old(self)@.accept(trigger),
    {
        self.manual.push(ManualCompactionFlight { trigger, started: false });
    }

    fn find(&self, trigger: &CompactTrigger, unstarted: bool) -> (index: usize)
        ensures
            index == first_flight(self.manual@, trigger@, unstarted),
            index <= self.manual.len(),
    {
        let mut i: usize = 0;
        while i < self.manual.len()
            invariant
                0 <= i <= self.manual.len(),
                forall|j: int|
                    0 <= j < i ==> #[trigger] self.manual@[j].trigger@ != trigger@ || (unstarted
                        && self.manual@[j].started),
            decreases self.manual.len() - i,
        {
            if self.manual[i].trigger.same(trigger) && !(unstarted && self.manual[i].started) {
                proof {
                    first_flight_step(self.manual@, trigger@, unstarted, i as int);
                }
                return i;
            }
            i = i + 1;
        }
        proof {
            first_flight_step(self.manual@, trigger@, unstarted, i as int);
        }
        i
    }

    pub fn started(&mut self, trigger: &CompactTrigger)
        ensures
            final(self)@ == old(self)@.start(*trigger),
    {
        match trigger {
            CompactTrigger::Manual { .. } => {
                let index: usize = self.find(trigger, true);
                if index < self.manual.len() {
                    let flight = ManualCompactionFlight {
                        trigger: self.manual[index].trigger.duplicate(),
                        started: true,
                    };
                    self.manual.set(index, flight);
                } else {
                    self.manual.push(
                        ManualCompactionFlight { trigger: trigger.duplicate(), started: true },
                    );
                }
            },
            CompactTrigger::Auto { .. } | CompactTrigger::Overflow { .. } => {
                self.non_manual_started = Some(trigger.duplicate());
            },
        }
    }

    pub fn finished(&mut self, trigger: &CompactTrigger)
        ensures
            final(self)@ == old(self)@.finish(*trigger),
    {
        match trigger {
            CompactTrigger::Manual { .. } => {
                let index: usize = self.find(trigger, false);
                if index < self.manual.len() {
                    let _ = self.manual.remove(index);
                }
            },
            CompactTrigger::Auto { .. } | CompactTrigger::Overflow { .. } => {
                self.non_manual_started = None;
            },
        }
    }

    /// Forgets every open compaction and hands their triggers out.
    pub fn take_open(&mut self) -> (open: Vec<CompactTrigger>)
        ensures
            open@ == old(self)@.open_triggers(),
            final(self)@ == TrackerView::none(),
    {
        let mut open: Vec<CompactTrigger> = Vec::new();
        let ghost flights = self.manual@;
        let mut i: usize = 0;
        while i < self.manual.len()
            invariant
                0 <= i <= self.manual.len(),
                self.manual@ == flights,
                self.non_manual_started == old(self).non_manual_started,
                open@ == flights.map_values(|flight: ManualCompactionFlight| flight.trigger).take(
                    i as int,
                ),
            decreases self.manual.len() - i,
        {
            open.push(self.manual[i].trigger.duplicate());
            assert(open@ =~= flights.map_values(
                |flight: ManualCompactionFlight| flight.trigger,
            ).take(i + 1));
            i = i + 1;
        }
        assert(open@ =~= flights.map_values(|flight: ManualCompactionFlight| flight.trigger));
        self.manual.clear();
        if let Some(trigger) = self.non_manual_started.take() {
            open.push(trigger);
        }
        open
    }
}

} // verus!
