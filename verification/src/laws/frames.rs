//! What the operations of a runtime leave alone.
use super::turns::reachable;
use crate::controllers::WakeupRequest;
use crate::error::RuntimeError;
use crate::event::{
    AgentEvent, LocalContextInput, ReplyValue, RequestId, RewindPoint, SubmitReceipt, UserInput,
    VisionNotice,
};
use crate::mode::RuntimeMode;
use crate::owner::controls::{
    PreparedTurn, RewindBeginFailure, RewindFinalization, RewindFinishFailure,
};
use crate::owner::events::EventFacts;
use crate::owner::goals::EvalOutcome;
use crate::owner::{LostCommand, OwnerView, RuntimeOwner};
use vstd::prelude::*;

verus! {

/// What a runtime is: its protocol, its generation, its session and its agent.
pub open spec fn same_runtime(before: OwnerView, after: OwnerView) -> bool {
    &&& after.native == before.native && after.generation == before.generation
    &&& after.has_resources == before.has_resources && after.has_session == before.has_session
    &&& after.provider_unavailable_reason == before.provider_unavailable_reason
    &&& after.compaction_suspended == before.compaction_suspended
    &&& after.agent_attached == before.agent_attached && after.agent_open == before.agent_open
    &&& after.ai_name_attempted == before.ai_name_attempted
    &&& after.persistence_failure == before.persistence_failure
}

/// What is known of the conversation: its revision, its tokens, its compactions.
pub open spec fn same_conversation(before: OwnerView, after: OwnerView) -> bool {
    &&& after.conversation_revision == before.conversation_revision
    &&& after.observed_tokens == before.observed_tokens
    &&& after.compactions == before.compactions
}

/// The goal and the loop.
pub open spec fn same_controllers(before: OwnerView, after: OwnerView) -> bool {
    &&& after.goal == before.goal && after.loop_state == before.loop_state
    &&& after.loop_active == before.loop_active && after.pending_wakeup == before.pending_wakeup
    &&& after.next_controller_id == before.next_controller_id
}

/// How the turn in progress is measured, and how it ended.
pub open spec fn same_measures(before: OwnerView, after: OwnerView) -> bool {
    &&& after.terminal_reason == before.terminal_reason && after.turn_stats == before.turn_stats
    &&& after.turn_clock == before.turn_clock
}

/// The turn in progress, or held.
pub open spec fn same_turn(before: OwnerView, after: OwnerView) -> bool {
    &&& after.active_turn == before.active_turn && after.held_turn == before.held_turn
    &&& after.next_turn_id == before.next_turn_id
    &&& same_measures(before, after)
}

/// Whoever waits for a snapshot.
pub open spec fn same_waiters(before: OwnerView, after: OwnerView) -> bool {
    &&& after.snapshot_waiters == before.snapshot_waiters
    &&& after.snapshot_in_flight == before.snapshot_in_flight
}

/// Who and what waits: requests, local context, snapshots.
pub open spec fn same_waiting(before: OwnerView, after: OwnerView) -> bool {
    &&& after.pending_requests == before.pending_requests
    &&& after.pending_local_context == before.pending_local_context
    &&& same_waiters(before, after)
}

/// Taking a turn in and handing it over touch the turn, the context that goes with it and the
/// runtime's standing.
pub proof fn a_submission_touches_the_turn_alone(
    taken: &mut RuntimeOwner,
    generation: u64,
    input: UserInput,
    prepared: Result<PreparedTurn, RuntimeError>,
    handed: &mut RuntimeOwner,
    receipt: SubmitReceipt,
    notice: Option<VisionNotice>,
    result: Result<SubmitReceipt, RuntimeError>,
    replayed: &mut RuntimeOwner,
    delivered: bool,
)
    requires
        call_ensures(RuntimeOwner::begin_submit, (taken, generation, input), prepared),
        call_ensures(RuntimeOwner::finish_submit, (handed, receipt, input, notice), result),
        call_ensures(RuntimeOwner::replay_pending_resume_prompt, (replayed, input), delivered),
    ensures
        same_runtime(old(taken)@, final(taken)@) && same_conversation(old(taken)@, final(taken)@),
        same_controllers(old(taken)@, final(taken)@) && same_waiters(old(taken)@, final(taken)@),
        final(taken).agent_available == old(taken).agent_available,
        final(taken)@.pending_requests == old(taken)@.pending_requests,
        final(taken).turn_clock == old(taken).turn_clock && final(taken).terminal_reason == old(
            taken,
        ).terminal_reason,
        prepared is Ok && old(taken).active_turn is None ==> final(taken).turn_stats.turn_count
            == 0 && final(taken).turn_stats.tool_call_count == 0
            && final(taken).turn_stats.duration_nanos == 0
            && final(taken).turn_stats.last_usage is None,
        old(taken).active_turn is Some ==> final(taken).turn_stats == old(taken).turn_stats,
        same_runtime(old(handed)@, final(handed)@),
        same_conversation(old(handed)@, final(handed)@),
        same_controllers(old(handed)@, final(handed)@),
        same_waiting(old(handed)@, final(handed)@),
        same_measures(old(handed)@, final(handed)@),
        final(handed).held_turn == old(handed).held_turn && final(handed).next_turn_id == old(
            handed,
        ).next_turn_id,
        reachable(*old(handed)) ==> same_turn(old(handed)@, final(handed)@)
            && final(handed).phase == old(handed).phase && final(handed).agent_available == old(
            handed,
        ).agent_available,
        same_runtime(old(replayed)@, final(replayed)@),
        same_conversation(old(replayed)@, final(replayed)@),
        same_controllers(old(replayed)@, final(replayed)@),
        same_waiting(old(replayed)@, final(replayed)@),
        final(replayed).turn_clock == old(replayed).turn_clock,
        final(replayed).terminal_reason == old(replayed).terminal_reason,
{
}

/// An answer leaves the turn, the controllers and the other things that wait alone.
pub proof fn an_answer_leaves_the_turn_alone(
    owner: &mut RuntimeOwner,
    generation: u64,
    id: RequestId,
    value: ReplyValue,
    reply: Result<(), RuntimeError>,
)
    requires
        call_ensures(RuntimeOwner::respond, (owner, generation, id, value), reply),
    ensures
        same_runtime(old(owner)@, final(owner)@) && same_conversation(old(owner)@, final(owner)@),
        same_controllers(old(owner)@, final(owner)@) && same_turn(old(owner)@, final(owner)@),
        same_waiters(old(owner)@, final(owner)@),
        final(owner)@.pending_local_context == old(owner)@.pending_local_context,
{
}

/// Local context and a mode change nothing but themselves.
pub proof fn context_and_modes_change_nothing_else(
    queued: &mut RuntimeOwner,
    generation: u64,
    context: LocalContextInput,
    waiting: Result<(), RuntimeError>,
    switched: &mut RuntimeOwner,
    mode: RuntimeMode,
    switches: Result<(bool, bool, bool), RuntimeError>,
)
    requires
        call_ensures(RuntimeOwner::queue_local_context, (queued, generation, context), waiting),
        call_ensures(RuntimeOwner::set_mode, (switched, generation, mode), switches),
    ensures
        final(queued)@ == (OwnerView {
            pending_local_context: final(queued)@.pending_local_context,
            ..old(queued)@
        }),
        final(switched)@ == (OwnerView { outbox: final(switched)@.outbox, ..old(switched)@ }),
{
}

/// Questions and compactions leave the turn and the controllers alone.
pub proof fn questions_leave_the_turn_alone(
    asked: &mut RuntimeOwner,
    generation: u64,
    waiter: u64,
    promised: Result<(), RuntimeError>,
    compacted: &mut RuntimeOwner,
    focus: Option<String>,
)
    requires
        call_ensures(RuntimeOwner::snapshot, (asked, generation, waiter), promised),
        call_ensures(RuntimeOwner::compact, (compacted, generation, focus), ()),
    ensures
        same_runtime(old(asked)@, final(asked)@) && same_conversation(old(asked)@, final(asked)@),
        same_controllers(old(asked)@, final(asked)@) && same_turn(old(asked)@, final(asked)@),
        final(asked)@.pending_requests == old(asked)@.pending_requests,
        final(asked)@.pending_local_context == old(asked)@.pending_local_context,
        same_runtime(old(compacted)@, final(compacted)@),
        same_controllers(old(compacted)@, final(compacted)@),
        same_turn(old(compacted)@, final(compacted)@),
        same_waiting(old(compacted)@, final(compacted)@),
        final(compacted).conversation_revision == old(compacted).conversation_revision,
        final(compacted).observed_tokens == old(compacted).observed_tokens,
{
}

/// A compaction is in flight once it was handed over, behind those that are, and else nothing
/// is.
pub proof fn a_compaction_is_in_flight_once_it_is_handed_over(
    owner: &mut RuntimeOwner,
    generation: u64,
    focus: Option<String>,
)
    requires
        call_ensures(RuntimeOwner::compact, (owner, generation, focus), ()),
    ensures
        ({
            let taken = generation == old(owner).generation && !old(owner).compaction_suspended
                && old(owner).agent_available && reachable(*old(owner));
            let before = old(owner).compactions.manual@;
            let after = final(owner).compactions.manual@;
            &&& taken ==> after.len() == before.len() + 1 && after.drop_last() == before
                && !after.last().started && (after.last().trigger
                matches crate::compaction::CompactTrigger::Manual { focus: kept } && kept == focus)
            &&& !taken ==> after == before
            &&& final(owner).compactions.non_manual_started == old(
                owner,
            ).compactions.non_manual_started
        }),
{
    let (before, after) = (old(owner).compactions.manual@, final(owner).compactions.manual@);
    if after.len() == before.len() + 1 {
        assert(after.drop_last() =~= before);
    }
}

/// Looking back and rewinding leave the turn, the controllers and whoever waits alone.
pub proof fn rewinding_leaves_the_turn_alone(
    checked: &mut RuntimeOwner,
    generation: u64,
    revision: u64,
    point: &RewindPoint,
    points: Option<&Vec<RewindPoint>>,
    allowed: Result<(), RuntimeError>,
    failed: &mut RuntimeOwner,
    failure: RewindBeginFailure,
    restore_code: bool,
    error: RuntimeError,
    closed: &mut RuntimeOwner,
    outcome: RewindFinalization,
    doubt: Option<RewindFinishFailure>,
    result: Result<(), RuntimeError>,
)
    requires
        call_ensures(
            RuntimeOwner::check_rewind,
            (checked, generation, revision, point, points),
            allowed,
        ),
        call_ensures(RuntimeOwner::rewind_not_begun, (failed, failure, restore_code), error),
        call_ensures(RuntimeOwner::rewind_finished, (closed, outcome, doubt), result),
    ensures
        final(checked)@ == (OwnerView { phase: final(checked).phase, ..old(checked)@ }),
        final(failed)@ == (OwnerView {
            phase: final(failed).phase,
            agent_available: final(failed).agent_available,
            agent_attached: final(failed).agent_attached,
            outbox: final(failed)@.outbox,
            ..old(failed)@
        }),
        final(closed)@ == (OwnerView {
            phase: final(closed).phase,
            agent_available: final(closed).agent_available,
            agent_attached: final(closed).agent_attached,
            outbox: final(closed)@.outbox,
            ..old(closed)@
        }),
{
}

/// Goals and loops that start, stop or are cancelled leave the runtime, the conversation and
/// whoever waits for a snapshot alone.
pub proof fn controllers_leave_the_conversation_alone(
    goal: &mut RuntimeOwner,
    looped: &mut RuntimeOwner,
    goal_over: &mut RuntimeOwner,
    loop_over: &mut RuntimeOwner,
    cancelled: &mut RuntimeOwner,
    generation: u64,
    words: String,
    started: Result<(), RuntimeError>,
    woken: Result<(), RuntimeError>,
    cleared: Result<(), RuntimeError>,
    stopped: Result<(), RuntimeError>,
    done: Result<(), RuntimeError>,
)
    requires
        call_ensures(RuntimeOwner::start_goal, (goal, generation, words), started),
        call_ensures(RuntimeOwner::start_loop, (looped, generation, words), woken),
        call_ensures(RuntimeOwner::stop_goal, (goal_over, generation), cleared),
        call_ensures(RuntimeOwner::stop_loop, (loop_over, generation), stopped),
        call_ensures(RuntimeOwner::cancel, (cancelled, generation), done),
    ensures
        same_runtime(old(goal)@, final(goal)@) && same_conversation(old(goal)@, final(goal)@),
        same_waiters(old(goal)@, final(goal)@),
        final(goal)@.pending_local_context == old(goal)@.pending_local_context,
        same_runtime(old(looped)@, final(looped)@) && same_conversation(
            old(looped)@,
            final(looped)@,
        ),
        same_waiters(old(looped)@, final(looped)@),
        final(looped)@.pending_local_context == old(looped)@.pending_local_context,
        same_runtime(old(goal_over)@, final(goal_over)@),
        same_conversation(old(goal_over)@, final(goal_over)@),
        same_waiting(old(goal_over)@, final(goal_over)@),
        same_measures(old(goal_over)@, final(goal_over)@),
        final(goal_over).next_turn_id == old(goal_over).next_turn_id,
        final(goal_over).next_controller_id == old(goal_over).next_controller_id,
        final(goal_over)@.loop_state == old(goal_over)@.loop_state,
        same_runtime(old(loop_over)@, final(loop_over)@),
        same_conversation(old(loop_over)@, final(loop_over)@),
        same_waiting(old(loop_over)@, final(loop_over)@),
        same_measures(old(loop_over)@, final(loop_over)@),
        final(loop_over).next_turn_id == old(loop_over).next_turn_id,
        final(loop_over).next_controller_id == old(loop_over).next_controller_id,
        final(loop_over)@.goal == old(loop_over)@.goal,
        same_runtime(old(cancelled)@, final(cancelled)@),
        same_conversation(old(cancelled)@, final(cancelled)@),
        same_waiters(old(cancelled)@, final(cancelled)@),
        same_measures(old(cancelled)@, final(cancelled)@),
        final(cancelled)@.pending_local_context == old(cancelled)@.pending_local_context,
        final(cancelled).next_turn_id == old(cancelled).next_turn_id,
        final(cancelled).next_controller_id == old(cancelled).next_controller_id,
{
}

/// Wakeups and names change nothing but the loop.
pub proof fn wakeups_and_names_change_nothing_else(
    woken: &mut RuntimeOwner,
    wakeup: WakeupRequest,
    named: &mut RuntimeOwner,
    generation: u64,
    name: String,
)
    requires
        call_ensures(RuntimeOwner::on_wakeup, (woken, wakeup), ()),
        call_ensures(RuntimeOwner::on_session_name, (named, generation, name), ()),
    ensures
        same_runtime(old(woken)@, final(woken)@) && same_conversation(old(woken)@, final(woken)@),
        same_turn(old(woken)@, final(woken)@) && same_waiting(old(woken)@, final(woken)@),
        final(woken)@.goal == old(woken)@.goal && final(woken).loop_active == old(
            woken,
        ).loop_active,
        final(woken).phase == old(woken).phase && final(woken).agent_available == old(
            woken,
        ).agent_available,
        same_runtime(old(named)@, final(named)@) && same_conversation(old(named)@, final(named)@),
        same_turn(old(named)@, final(named)@) && same_waiting(old(named)@, final(named)@),
        same_controllers(old(named)@, final(named)@),
        final(named).phase == old(named).phase && final(named).agent_available == old(
            named,
        ).agent_available,
{
}

/// A verdict leaves the runtime, the conversation, the loop and whoever waits alone.
pub proof fn a_verdict_leaves_the_conversation_alone(owner: &mut RuntimeOwner, outcome: EvalOutcome)
    requires
        call_ensures(RuntimeOwner::on_goal_evaluated, (owner, outcome), ()),
    ensures
        same_runtime(old(owner)@, final(owner)@) && same_conversation(old(owner)@, final(owner)@),
        same_waiting(old(owner)@, final(owner)@),
        final(owner)@.loop_state == old(owner)@.loop_state,
        final(owner).next_controller_id == old(owner).next_controller_id,
{
    reveal(OwnerView::goal_decided);
    reveal(OwnerView::goal_continues);
    reveal(OwnerView::evaluation_failed);
}

/// A wakeup that fires leaves the runtime, the conversation, the goal and whoever waits alone.
pub proof fn a_fired_wakeup_leaves_the_conversation_alone(
    owner: &mut RuntimeOwner,
    generation: u64,
    controller_id: u64,
    wakeup: WakeupRequest,
    at_limit: bool,
)
    requires
        call_ensures(
            RuntimeOwner::on_loop_fired,
            (owner, generation, controller_id, wakeup, at_limit),
            (),
        ),
    ensures
        same_runtime(old(owner)@, final(owner)@) && same_conversation(old(owner)@, final(owner)@),
        same_waiting(old(owner)@, final(owner)@),
        final(owner)@.goal == old(owner)@.goal,
        final(owner).next_controller_id == old(owner).next_controller_id,
{
    reveal(OwnerView::loop_continues);
    reveal(OwnerView::loop_exhausted);
}

/// Suspending, resuming and stopping leave the turn, the controllers and whoever waits alone.
pub proof fn stopping_leaves_the_turn_alone(
    suspended: &mut RuntimeOwner,
    resumed: &mut RuntimeOwner,
    stopping: &mut RuntimeOwner,
    replaced: &mut RuntimeOwner,
    resume: Option<bool>,
    lost: &mut RuntimeOwner,
    command: LostCommand,
)
    requires
        call_ensures(RuntimeOwner::suspend_compaction, (suspended,), ()),
        call_ensures(RuntimeOwner::resume_compaction, (resumed,), ()),
        call_ensures(RuntimeOwner::begin_stop, (stopping,), ()),
        call_ensures(RuntimeOwner::begin_replace, (replaced,), resume),
        call_ensures(RuntimeOwner::agent_unreachable, (lost, command), ()),
    ensures
        final(suspended)@ == (OwnerView {
            generation: final(suspended).generation,
            compaction_suspended: final(suspended).compaction_suspended,
            phase: final(suspended).phase,
            ..old(suspended)@
        }),
        final(resumed)@ == (OwnerView {
            compaction_suspended: final(resumed).compaction_suspended,
            phase: final(resumed).phase,
            ..old(resumed)@
        }),
        same_conversation(old(stopping)@, final(stopping)@),
        same_measures(old(stopping)@, final(stopping)@),
        same_waiters(old(stopping)@, final(stopping)@),
        final(stopping).has_session == old(stopping).has_session,
        same_conversation(old(replaced)@, final(replaced)@),
        same_measures(old(replaced)@, final(replaced)@),
        same_waiters(old(replaced)@, final(replaced)@),
        final(replaced).has_session == old(replaced).has_session,
        same_conversation(old(lost)@, final(lost)@),
        same_controllers(old(lost)@, final(lost)@),
        same_measures(old(lost)@, final(lost)@),
        final(lost).held_turn == old(lost).held_turn && final(lost).next_turn_id == old(
            lost,
        ).next_turn_id,
        final(lost)@.pending_requests == old(lost)@.pending_requests,
        !(command is Snapshot) ==> final(lost).snapshot_in_flight == old(lost).snapshot_in_flight,
        final(lost).generation == old(lost).generation && final(lost).agent_attached == old(
            lost,
        ).agent_attached,
{
}

/// What the agent reports of its work counts, and leaves the controllers and whoever waits
/// alone; it never changes what the runtime is.
pub proof fn reports_leave_the_controllers_alone(
    owner: &mut RuntimeOwner,
    event: AgentEvent,
    facts: &EventFacts,
    rest: Option<AgentEvent>,
)
    requires
        call_ensures(RuntimeOwner::on_agent_event, (owner, event, facts), rest),
        event is TextDelta || event is Reasoning || event is ToolStarted || event is ToolProgress
            || event is ToolResult || event is Usage || event is TurnStarted || event is Request,
    ensures
        same_runtime(old(owner)@, final(owner)@),
        same_controllers(old(owner)@, final(owner)@),
        same_waiters(old(owner)@, final(owner)@),
        !(event is Request) ==> final(owner)@.pending_requests == old(owner)@.pending_requests,
        final(owner)@.pending_local_context == old(owner)@.pending_local_context,
        final(owner).active_turn == old(owner).active_turn && final(owner).held_turn == old(
            owner,
        ).held_turn,
        final(owner).next_turn_id == old(owner).next_turn_id,
        final(owner).terminal_reason == old(owner).terminal_reason,
        final(owner).conversation_revision == old(owner).conversation_revision,
        final(owner)@.compactions == old(owner)@.compactions,
        final(owner).agent_available == old(owner).agent_available,
        !(event is TurnStarted || event is Request) ==> final(owner).phase == old(owner).phase,
        !(event is Usage) ==> final(owner).observed_tokens == old(owner).observed_tokens,
{
}

} // verus!
