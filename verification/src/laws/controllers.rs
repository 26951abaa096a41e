//! Goals and loops: how they start, go on and end.
use super::agent_events::{publishes_warning, shows_ended_goal};
use super::turns::{actions_are_kept, added, adds, publishes, reachable, sends, unchanged};
use crate::controllers::{
    GoalProgress, GoalResult, GoalState, GoalTerminal, GoalView, LoopProgress, LoopState, LoopView,
    WakeupRequest,
};
use crate::error::RuntimeError;
use crate::event::{
    AgentCommand, CodingRuntimeEvent, ReplyValue, StopReason, TokenUsage, TurnCompletion,
};
use crate::owner::goals::EvalOutcome;
use crate::owner::{HeldTurn, OwnerAction, OwnerView, RuntimeOwner};
use crate::phase::RuntimePhase;
use crate::text::decimal;
use vstd::prelude::*;
use vstd::string::*;

verus! {

/// Whether the action publishes the end of the turn that was held back, as it was held but
/// for the reason.
pub open spec fn reports_held(
    owner: RuntimeOwner,
    action: OwnerAction,
    held: HeldTurn,
    why: StopReason,
) -> bool {
    action matches OwnerAction::Emit {
        generation,
        event: CodingRuntimeEvent::TurnFinished(
            TurnCompletion::Completed { turn_id, reason, snapshot, stats },
        ),
    } && generation == owner.generation && turn_id == held.turn_id && reason == why && snapshot
        == held.snapshot && stats == held.stats
}

/// Whether drivers see the loop as it ended.
pub open spec fn shows_ended_loop(owner: RuntimeOwner, action: OwnerAction, note: Seq<char>) -> bool {
    action matches OwnerAction::Emit {
        generation,
        event: CodingRuntimeEvent::LoopChanged(progress),
    } && generation == owner.generation && progress.id == owner.loop_state->0.id && progress.label@
        == owner.loop_state->0.label@ && !progress.active && progress.round
        == owner.loop_state->0.round && (progress.last_reason matches Some(text) && text@ == note)
}

/// Whether the action cancels the outside work of the controller.
pub open spec fn cancels(action: OwnerAction, controller: u64) -> bool {
    action matches OwnerAction::CancelController { id } && id == controller
}

/// The phase of a runtime that has nothing to do.
pub open spec fn idle_phase(owner: RuntimeOwner) -> RuntimePhase {
    if owner.provider_unavailable_reason is Some {
        RuntimePhase::AwaitingProvider
    } else {
        RuntimePhase::Ready
    }
}

/// Whether a controller may start: drivers speak the native protocol of this generation, the
/// runtime is whole, and no turn is in progress but one that is held back.
pub open spec fn may_start(owner: RuntimeOwner, generation: u64) -> bool {
    owner.native && generation == owner.generation && !owner.compaction_suspended
        && owner.has_resources && (owner.active_turn is None || owner.held_turn is Some)
}

/// A goal starts with the condition it was given and a number of its own; drivers see it,
/// last. Whatever controller ran before has given way, and a turn that it held back is
/// cancelled.
pub proof fn a_goal_starts_with_its_condition(
    owner: &mut RuntimeOwner,
    generation: u64,
    condition: String,
    result: Result<(), RuntimeError>,
)
    requires
        call_ensures(RuntimeOwner::start_goal, (owner, generation, condition), result),
    ensures
        result is Ok <==> may_start(*old(owner), generation),
        result is Err ==> unchanged(*old(owner), *final(owner)),
        result matches Err(error) ==> error == if old(owner).native && generation
            == old(owner).generation && !old(owner).compaction_suspended
            && !old(owner).has_resources {
            RuntimeError::Unavailable
        } else {
            RuntimeError::Busy
        },
        result is Ok ==> {
            &&& final(owner).goal matches Some(goal) && goal.condition@ == condition@ && goal.active
                && goal.round == 0 && goal.unproductive == 0 && goal.tokens_used == 0
                && goal.last_reason is None && goal.terminal is None && goal.id
                == final(owner).next_controller_id
            &&& old(owner).next_controller_id < u64::MAX ==> final(owner).next_controller_id
                == old(owner).next_controller_id + 1
            &&& final(owner).loop_state is None && final(owner).pending_wakeup is None
            &&& !final(owner).loop_active
            &&& final(owner).held_turn is None
            &&& old(owner).held_turn is Some ==> final(owner).active_turn is None
                && final(owner).phase == idle_phase(*old(owner))
            &&& final(owner).outbox@.len() > old(owner).outbox@.len()
            &&& final(owner).outbox@.last() matches OwnerAction::Emit {
                generation: at,
                event: CodingRuntimeEvent::GoalChanged(progress),
            } && at == old(owner).generation && progress@ == final(owner).goal->0@
        },
        result is Ok && old(owner).goal is None && old(owner).loop_state is None
            && old(owner).held_turn is None ==> adds(*old(owner), *final(owner), 1),
        result is Ok && old(owner).goal is Some && old(owner).loop_state is None ==> cancels(
            added(*old(owner), *final(owner), 0),
            old(owner).goal->0.id,
        ) && shows_ended_goal(
            *old(owner),
            added(*old(owner), *final(owner), 1),
            GoalTerminal::Failed,
            "superseded by /goal"@,
        ) && (old(owner).held_turn matches Some(held) ==> reports_held(
            *old(owner),
            added(*old(owner), *final(owner), 2),
            held,
            StopReason::Cancelled,
        )),
        result is Ok && old(owner).goal is None && old(owner).loop_state is Some ==> cancels(
            added(*old(owner), *final(owner), 0),
            old(owner).loop_state->0.id,
        ) && shows_ended_loop(
            *old(owner),
            added(*old(owner), *final(owner), 1),
            "superseded by /goal"@,
        ) && (old(owner).held_turn matches Some(held) ==> reports_held(
            *old(owner),
            added(*old(owner), *final(owner), 2),
            held,
            StopReason::Cancelled,
        )),
{
    actions_are_kept(*old(owner), *final(owner));
    assert(final(owner)@.goal == crate::owner::goal_view(final(owner).goal));
    let n = old(owner).outbox@.len() as int;
    if result is Ok {
        assert(final(owner)@.outbox.last() == final(owner).outbox@.last()@);
        if final(owner).outbox@.len() > n + 2 {
            assert(final(owner)@.outbox[n] == final(owner).outbox@[n]@);
            assert(final(owner)@.outbox[n + 1] == final(owner).outbox@[n + 1]@);
            assert(final(owner)@.outbox[n + 2] == final(owner).outbox@[n + 2]@);
        }
    }
}

/// A loop does likewise, with the prompt it was given, and lets the agent ask for wakeups.
pub proof fn a_loop_starts_with_its_prompt(
    owner: &mut RuntimeOwner,
    generation: u64,
    prompt: String,
    result: Result<(), RuntimeError>,
)
    requires
        call_ensures(RuntimeOwner::start_loop, (owner, generation, prompt), result),
    ensures
        result is Ok <==> may_start(*old(owner), generation),
        result is Err ==> unchanged(*old(owner), *final(owner)),
        result matches Err(error) ==> error == if old(owner).native && generation
            == old(owner).generation && !old(owner).compaction_suspended
            && !old(owner).has_resources {
            RuntimeError::Unavailable
        } else {
            RuntimeError::Busy
        },
        result is Ok ==> {
            &&& final(owner).loop_state matches Some(state) && state.label@ == prompt@
                && state.active && state.round == 0 && state.last_reason is None && state.id
                == final(owner).next_controller_id
            &&& old(owner).next_controller_id < u64::MAX ==> final(owner).next_controller_id
                == old(owner).next_controller_id + 1
            &&& final(owner).goal is None && final(owner).pending_wakeup is None
            &&& final(owner).loop_active
            &&& final(owner).held_turn is None
            &&& old(owner).held_turn is Some ==> final(owner).active_turn is None
                && final(owner).phase == idle_phase(*old(owner))
            &&& final(owner).outbox@.len() > old(owner).outbox@.len()
            &&& final(owner).outbox@.last() matches OwnerAction::Emit {
                generation: at,
                event: CodingRuntimeEvent::LoopChanged(progress),
            } && at == old(owner).generation && progress@ == final(owner).loop_state->0@
        },
        result is Ok && old(owner).goal is None && old(owner).loop_state is None
            && old(owner).held_turn is None ==> adds(*old(owner), *final(owner), 1),
        result is Ok && old(owner).goal is Some && old(owner).loop_state is None ==> cancels(
            added(*old(owner), *final(owner), 0),
            old(owner).goal->0.id,
        ) && shows_ended_goal(
            *old(owner),
            added(*old(owner), *final(owner), 1),
            GoalTerminal::Failed,
            "superseded by /loop"@,
        ) && (old(owner).held_turn matches Some(held) ==> reports_held(
            *old(owner),
            added(*old(owner), *final(owner), 2),
            held,
            StopReason::Cancelled,
        )),
        result is Ok && old(owner).goal is None && old(owner).loop_state is Some ==> cancels(
            added(*old(owner), *final(owner), 0),
            old(owner).loop_state->0.id,
        ) && shows_ended_loop(
            *old(owner),
            added(*old(owner), *final(owner), 1),
            "superseded by /loop"@,
        ) && (old(owner).held_turn matches Some(held) ==> reports_held(
            *old(owner),
            added(*old(owner), *final(owner), 2),
            held,
            StopReason::Cancelled,
        )),
{
    actions_are_kept(*old(owner), *final(owner));
    assert(final(owner)@.loop_state == crate::owner::loop_view(final(owner).loop_state));
    let n = old(owner).outbox@.len() as int;
    if result is Ok {
        assert(final(owner)@.outbox.last() == final(owner).outbox@.last()@);
        if final(owner).outbox@.len() > n + 2 {
            assert(final(owner)@.outbox[n] == final(owner).outbox@[n]@);
            assert(final(owner)@.outbox[n + 1] == final(owner).outbox@[n + 1]@);
            assert(final(owner)@.outbox[n + 2] == final(owner).outbox@[n + 2]@);
        }
    }
}

/// What drivers see of a goal or a loop is all of it.
pub proof fn progress_shows_everything(
    goal: &GoalState,
    seen: GoalProgress,
    state: &LoopState,
    shown: LoopProgress,
)
    requires
        call_ensures(GoalState::progress, (goal,), seen),
        call_ensures(LoopState::progress, (state,), shown),
    ensures
        seen.id == goal.id && seen.condition@ == goal.condition@ && seen.active == goal.active,
        seen.round == goal.round && seen.unproductive == goal.unproductive,
        seen.tokens_used == goal.tokens_used && seen.terminal == goal.terminal,
        seen.last_reason is Some <==> goal.last_reason is Some,
        seen.last_reason is Some ==> seen.last_reason->0@ == goal.last_reason->0@,
        shown.id == state.id && shown.label@ == state.label@ && shown.active == state.active,
        shown.round == state.round,
        shown.last_reason is Some <==> state.last_reason is Some,
        shown.last_reason is Some ==> shown.last_reason->0@ == state.last_reason->0@,
{
}

/// The agent's wish to be woken up is kept as it was made, in place of an earlier one, and
/// drivers see when and why; only a running loop listens.
pub proof fn a_wakeup_is_kept_as_it_was_asked(owner: &mut RuntimeOwner, wakeup: WakeupRequest, result: ())
    requires
        call_ensures(RuntimeOwner::on_wakeup, (owner, wakeup), result),
    ensures
        ({
            let listens = old(owner).native && (old(owner).loop_state matches Some(state)
                && state.active);
            &&& !listens ==> unchanged(*old(owner), *final(owner))
            &&& listens ==> {
                &&& final(owner).pending_wakeup == Some(wakeup)
                &&& adds(*old(owner), *final(owner), 1)
                &&& added(*old(owner), *final(owner), 0) matches OwnerAction::Emit {
                    generation,
                    event: CodingRuntimeEvent::LoopChanged(progress),
                } && generation == old(owner).generation && progress@ == final(owner).loop_state->0@
                &&& final(owner).loop_state matches Some(state) && state.id
                    == old(owner).loop_state->0.id && state.label@
                    == old(owner).loop_state->0.label@ && state.active && state.round
                    == old(owner).loop_state->0.round && (state.last_reason matches Some(note)
                    && note@ == "scheduled in "@ + decimal(wakeup.delay_seconds as nat) + "s: "@
                    + wakeup.reason@)
            }
        }),
{
    actions_are_kept(*old(owner), *final(owner));
    assert(final(owner)@.loop_state == crate::owner::loop_view(final(owner).loop_state));
    let n = old(owner).outbox@.len() as int;
    if final(owner).outbox@.len() > n {
        assert(final(owner)@.outbox[n] == final(owner).outbox@[n]@);
    }
}

/// Whether the loop that was woken up is the one that waits.
pub open spec fn awaits_wakeup(owner: RuntimeOwner, generation: u64, controller: u64) -> bool {
    owner.native && generation == owner.generation && owner.held_turn is Some && (
    owner.loop_state matches Some(state) && state.id == controller)
}

/// A loop that is woken up goes on with the prompt of the wakeup, in the turn that was held
/// back; drivers see the next round. Nobody else's wakeup changes anything.
pub proof fn a_woken_loop_sends_the_prompt(
    owner: &mut RuntimeOwner,
    generation: u64,
    controller_id: u64,
    wakeup: WakeupRequest,
    at_limit: bool,
    result: (),
)
    requires
        call_ensures(
            RuntimeOwner::on_loop_fired,
            (owner, generation, controller_id, wakeup, at_limit),
            result,
        ),
    ensures
        !awaits_wakeup(*old(owner), generation, controller_id) ==> unchanged(
            *old(owner),
            *final(owner),
        ),
        awaits_wakeup(*old(owner), generation, controller_id) && !at_limit && reachable(
            *old(owner),
        ) ==> {
            &&& adds(*old(owner), *final(owner), 2)
            &&& added(*old(owner), *final(owner), 0) matches OwnerAction::Emit {
                generation: at,
                event: CodingRuntimeEvent::LoopChanged(progress),
            } && at == old(owner).generation && progress@ == final(owner).loop_state->0@
            &&& added(*old(owner), *final(owner), 1) matches OwnerAction::Send(
                AgentCommand::SendMessage { text, images },
            ) && text@ == wakeup.prompt@ && images@.len() == 0
            &&& final(owner).loop_state matches Some(state) && state.id == controller_id
                && state.label@ == old(owner).loop_state->0.label@ && state.active
                == old(owner).loop_state->0.active && (state.last_reason matches Some(note)
                && note@ == wakeup.reason@) && (old(owner).loop_state->0.round < u32::MAX
                ==> state.round == old(owner).loop_state->0.round + 1)
            &&& final(owner).held_turn is None && final(owner).active_turn
                == old(owner).active_turn
            &&& final(owner).terminal_reason is None
            &&& final(owner).phase == old(owner).phase
        },
        awaits_wakeup(*old(owner), generation, controller_id) && !at_limit && !reachable(
            *old(owner),
        ) ==> {
            &&& final(owner).loop_state is None && final(owner).held_turn is None
            &&& final(owner).active_turn is None
            &&& final(owner).phase == RuntimePhase::Failed
            &&& adds(*old(owner), *final(owner), 5)
            &&& cancels(added(*old(owner), *final(owner), 1), controller_id)
            &&& publishes_warning(
                *old(owner),
                added(*old(owner), *final(owner), 3),
                "loop stopped: continuation dispatch failed"@,
            )
            &&& reports_held(
                *old(owner),
                added(*old(owner), *final(owner), 4),
                old(owner).held_turn->0,
                StopReason::ProviderError,
            )
        },
        awaits_wakeup(*old(owner), generation, controller_id) && at_limit ==> {
            &&& final(owner).loop_state is None && final(owner).held_turn is None
            &&& final(owner).active_turn is None
            &&& old(owner).has_resources ==> !final(owner).loop_active
            &&& final(owner).phase == idle_phase(*old(owner))
            &&& adds(*old(owner), *final(owner), 3)
            &&& cancels(added(*old(owner), *final(owner), 0), controller_id)
            &&& shows_ended_loop(
                *old(owner),
                added(*old(owner), *final(owner), 1),
                "round limit"@,
            )
            &&& reports_held(
                *old(owner),
                added(*old(owner), *final(owner), 2),
                old(owner).held_turn->0,
                StopReason::MaxRounds,
            )
        },
{
    reveal(OwnerView::loop_continues);
    reveal(OwnerView::loop_exhausted);
    actions_are_kept(*old(owner), *final(owner));
    assert(final(owner)@.loop_state == crate::owner::loop_view(final(owner).loop_state));
    let n = old(owner).outbox@.len() as int;
    let m = final(owner).outbox@.len() as int;
    if m > n {
        assert(final(owner)@.outbox[n] == final(owner).outbox@[n]@);
        assert(final(owner)@.outbox[n + 1] == final(owner).outbox@[n + 1]@);
    }
    if m > n + 2 {
        assert(final(owner)@.outbox[n + 2] == final(owner).outbox@[n + 2]@);
    }
    if m > n + 3 {
        assert(final(owner)@.outbox[n + 3] == final(owner).outbox@[n + 3]@);
        assert(final(owner)@.outbox[n + 4] == final(owner).outbox@[n + 4]@);
    }
}

/// Whether the goal that was evaluated is the one that waits.
pub open spec fn awaits_verdict(owner: RuntimeOwner, outcome: EvalOutcome) -> bool {
    owner.native && outcome.generation == owner.generation && owner.held_turn is Some && (
    owner.goal matches Some(goal) && goal.id == outcome.controller_id)
}

/// Tokens of the goal once those of the evaluation are charged to it.
pub open spec fn evaluated_tokens(owner: RuntimeOwner, usage: Option<TokenUsage>) -> int {
    let total = owner.goal->0.tokens_used + match usage {
        Some(tokens) => tokens.prompt + tokens.completion,
        None => 0,
    };
    if total > u64::MAX {
        u64::MAX as int
    } else {
        total
    }
}

/// A goal that is met ends so, with the verdict, and the turn that was held back is reported
/// as stopped. A verdict that nobody waits for changes nothing.
pub proof fn a_met_goal_ends_the_turn(
    owner: &mut RuntimeOwner,
    outcome: EvalOutcome,
    result: (),
    verdict: String,
)
    requires
        call_ensures(RuntimeOwner::on_goal_evaluated, (owner, outcome), result),
        outcome.result == GoalResult::Met(verdict),
    ensures
        !awaits_verdict(*old(owner), outcome) ==> unchanged(*old(owner), *final(owner)),
        awaits_verdict(*old(owner), outcome) ==> {
            &&& adds(*old(owner), *final(owner), 2)
            &&& shows_ended_goal(
                *old(owner),
                added(*old(owner), *final(owner), 0),
                GoalTerminal::Met,
                verdict@,
            )
            &&& added(*old(owner), *final(owner), 0) matches OwnerAction::Emit {
                generation,
                event: CodingRuntimeEvent::GoalChanged(progress),
            } && progress.tokens_used == evaluated_tokens(*old(owner), outcome.usage)
            &&& reports_held(
                *old(owner),
                added(*old(owner), *final(owner), 1),
                old(owner).held_turn->0,
                StopReason::Stopped,
            )
            &&& final(owner).goal is None && final(owner).held_turn is None
            &&& final(owner).active_turn is None
            &&& final(owner).phase == idle_phase(*old(owner))
        },
{
    reveal(OwnerView::goal_decided);
    actions_are_kept(*old(owner), *final(owner));
    let n = old(owner).outbox@.len() as int;
    if final(owner).outbox@.len() > n {
        assert(final(owner)@.outbox[n] == final(owner).outbox@[n]@);
        assert(final(owner)@.outbox[n + 1] == final(owner).outbox@[n + 1]@);
    }
}

/// A goal that is not met goes on in the turn that was held back: the agent is told the
/// verdict and the condition, and drivers see the next round.
pub proof fn an_unmet_goal_goes_on(
    owner: &mut RuntimeOwner,
    outcome: EvalOutcome,
    result: (),
    verdict: String,
)
    requires
        call_ensures(RuntimeOwner::on_goal_evaluated, (owner, outcome), result),
        outcome.result == GoalResult::NotMet(verdict),
    ensures
        !awaits_verdict(*old(owner), outcome) ==> unchanged(*old(owner), *final(owner)),
        awaits_verdict(*old(owner), outcome) && reachable(*old(owner)) ==> {
            &&& adds(*old(owner), *final(owner), 2)
            &&& added(*old(owner), *final(owner), 0) matches OwnerAction::Emit {
                generation,
                event: CodingRuntimeEvent::GoalChanged(progress),
            } && generation == old(owner).generation && progress@ == final(owner).goal->0@
            &&& added(*old(owner), *final(owner), 1) matches OwnerAction::ContinueGoal {
                reason,
                condition,
            } && reason@ == verdict@ && condition@ == old(owner).goal->0.condition@
            &&& final(owner).goal matches Some(goal) && goal.id == outcome.controller_id
                && goal.condition@ == old(owner).goal->0.condition@ && goal.active
                == old(owner).goal->0.active && goal.terminal == old(owner).goal->0.terminal && (
            goal.last_reason matches Some(note) && note@ == verdict@) && (old(
                owner,
            ).goal->0.round < u32::MAX ==> goal.round == old(owner).goal->0.round + 1)
                && goal.tokens_used == evaluated_tokens(*old(owner), outcome.usage)
            &&& final(owner).held_turn is None && final(owner).terminal_reason is None
            &&& final(owner).active_turn == old(owner).active_turn
            &&& final(owner).phase == old(owner).phase
        },
        awaits_verdict(*old(owner), outcome) && !reachable(*old(owner)) ==> {
            &&& final(owner).goal is None && final(owner).held_turn is None
            &&& final(owner).active_turn is None
            &&& final(owner).phase == RuntimePhase::Failed
            &&& adds(*old(owner), *final(owner), 5)
            &&& cancels(added(*old(owner), *final(owner), 1), outcome.controller_id)
            &&& publishes_warning(
                *old(owner),
                added(*old(owner), *final(owner), 3),
                "goal stopped: continuation dispatch failed"@,
            )
            &&& reports_held(
                *old(owner),
                added(*old(owner), *final(owner), 4),
                old(owner).held_turn->0,
                StopReason::ProviderError,
            )
        },
{
    reveal(OwnerView::goal_continues);
    actions_are_kept(*old(owner), *final(owner));
    assert(final(owner)@.goal == crate::owner::goal_view(final(owner).goal));
    let n = old(owner).outbox@.len() as int;
    let m = final(owner).outbox@.len() as int;
    if m > n {
        assert(final(owner)@.outbox[n] == final(owner).outbox@[n]@);
        assert(final(owner)@.outbox[n + 1] == final(owner).outbox@[n + 1]@);
    }
    if m > n + 2 {
        assert(final(owner)@.outbox[n + 2] == final(owner).outbox@[n + 2]@);
        assert(final(owner)@.outbox[n + 3] == final(owner).outbox@[n + 3]@);
        assert(final(owner)@.outbox[n + 4] == final(owner).outbox@[n + 4]@);
    }
}

/// A goal that could not be evaluated has failed, with the error in its note and in a warning,
/// and the turn that was held back ends with it.
pub proof fn a_failed_evaluation_ends_the_goal(
    owner: &mut RuntimeOwner,
    outcome: EvalOutcome,
    result: (),
    error: String,
)
    requires
        call_ensures(RuntimeOwner::on_goal_evaluated, (owner, outcome), result),
        outcome.result == GoalResult::Error(error),
    ensures
        !awaits_verdict(*old(owner), outcome) ==> unchanged(*old(owner), *final(owner)),
        awaits_verdict(*old(owner), outcome) ==> {
            &&& adds(*old(owner), *final(owner), 3)
            &&& shows_ended_goal(
                *old(owner),
                added(*old(owner), *final(owner), 0),
                GoalTerminal::Failed,
                "evaluator failed: "@ + error@,
            )
            &&& publishes_warning(
                *old(owner),
                added(*old(owner), *final(owner), 1),
                "goal evaluator failed: "@ + error@,
            )
            &&& reports_held(
                *old(owner),
                added(*old(owner), *final(owner), 2),
                old(owner).held_turn->0,
                StopReason::ProviderError,
            )
            &&& final(owner).goal is None && final(owner).held_turn is None
            &&& final(owner).active_turn is None
            &&& final(owner).phase == idle_phase(*old(owner))
        },
{
    reveal(OwnerView::evaluation_failed);
    actions_are_kept(*old(owner), *final(owner));
    let n = old(owner).outbox@.len() as int;
    if final(owner).outbox@.len() > n {
        assert(final(owner)@.outbox[n] == final(owner).outbox@[n]@);
        assert(final(owner)@.outbox[n + 1] == final(owner).outbox@[n + 1]@);
        assert(final(owner)@.outbox[n + 2] == final(owner).outbox@[n + 2]@);
    }
}

/// A cleared goal is gone: its work is cancelled, drivers see it cancelled, and the turn is
/// cancelled too, at the agent or, where it was held back, at once.
pub proof fn a_cleared_goal_is_gone(
    owner: &mut RuntimeOwner,
    generation: u64,
    result: Result<(), RuntimeError>,
)
    requires
        call_ensures(RuntimeOwner::stop_goal, (owner, generation), result),
    ensures
        result is Ok <==> old(owner).native && generation == old(owner).generation,
        result matches Err(error) ==> error == RuntimeError::Unavailable && unchanged(
            *old(owner),
            *final(owner),
        ),
        result is Ok ==> final(owner).goal is None && final(owner).held_turn is None
            && final(owner)@.loop_state == old(owner)@.loop_state,
        result is Ok && old(owner).held_turn is Some ==> final(owner).active_turn is None
            && final(owner).phase == idle_phase(*old(owner)),
        result is Ok && old(owner).held_turn is None ==> final(owner).active_turn
            == old(owner).active_turn && final(owner).phase == old(owner).phase,
        result is Ok ==> {
            let ends: int = if old(owner).goal is Some {
                2
            } else {
                0
            };
            let cancelled: int = if old(owner).active_turn is Some && reachable(*old(owner)) {
                1
            } else {
                0
            };
            let reported: int = if old(owner).held_turn is Some {
                1
            } else {
                0
            };
            &&& adds(*old(owner), *final(owner), ends + cancelled + reported)
            &&& ends > 0 ==> cancels(
                added(*old(owner), *final(owner), 0),
                old(owner).goal->0.id,
            ) && shows_ended_goal(
                *old(owner),
                added(*old(owner), *final(owner), 1),
                GoalTerminal::Cancelled,
                "cleared by user"@,
            )
            &&& cancelled > 0 ==> sends(
                added(*old(owner), *final(owner), ends),
                AgentCommand::Cancel,
            )
            &&& reported > 0 ==> reports_held(
                *old(owner),
                added(*old(owner), *final(owner), ends + cancelled),
                old(owner).held_turn->0,
                StopReason::Cancelled,
            )
        },
{
    actions_are_kept(*old(owner), *final(owner));
    let n = old(owner).outbox@.len() as int;
    let m = final(owner).outbox@.len() as int;
    if m > n {
        assert(final(owner)@.outbox[n] == final(owner).outbox@[n]@);
    }
    if m > n + 1 {
        assert(final(owner)@.outbox[n + 1] == final(owner).outbox@[n + 1]@);
    }
    if m > n + 2 {
        assert(final(owner)@.outbox[n + 2] == final(owner).outbox@[n + 2]@);
    }
    if m > n + 3 {
        assert(final(owner)@.outbox[n + 3] == final(owner).outbox@[n + 3]@);
    }
}

/// A cleared loop is gone likewise, and no wakeup is left of it.
pub proof fn a_cleared_loop_is_gone(
    owner: &mut RuntimeOwner,
    generation: u64,
    result: Result<(), RuntimeError>,
)
    requires
        call_ensures(RuntimeOwner::stop_loop, (owner, generation), result),
    ensures
        result is Ok <==> old(owner).native && generation == old(owner).generation,
        result matches Err(error) ==> error == RuntimeError::Unavailable && unchanged(
            *old(owner),
            *final(owner),
        ),
        result is Ok ==> final(owner).loop_state is None && final(owner).pending_wakeup is None
            && final(owner).held_turn is None && (old(owner).has_resources
            ==> !final(owner).loop_active),
        result is Ok && old(owner).held_turn is Some ==> final(owner).active_turn is None
            && final(owner).phase == idle_phase(*old(owner)),
        result is Ok && old(owner).held_turn is None ==> final(owner).active_turn
            == old(owner).active_turn && final(owner).phase == old(owner).phase,
        result is Ok ==> {
            let ends: int = if old(owner).loop_state is Some {
                2
            } else {
                0
            };
            let cancelled: int = if old(owner).active_turn is Some && reachable(*old(owner)) {
                1
            } else {
                0
            };
            let reported: int = if old(owner).held_turn is Some {
                1
            } else {
                0
            };
            &&& adds(*old(owner), *final(owner), ends + cancelled + reported)
            &&& ends > 0 ==> cancels(
                added(*old(owner), *final(owner), 0),
                old(owner).loop_state->0.id,
            ) && shows_ended_loop(
                *old(owner),
                added(*old(owner), *final(owner), 1),
                "cleared by user"@,
            )
            &&& cancelled > 0 ==> sends(
                added(*old(owner), *final(owner), ends),
                AgentCommand::Cancel,
            )
            &&& reported > 0 ==> reports_held(
                *old(owner),
                added(*old(owner), *final(owner), ends + cancelled),
                old(owner).held_turn->0,
                StopReason::Cancelled,
            )
        },
{
    actions_are_kept(*old(owner), *final(owner));
    let n = old(owner).outbox@.len() as int;
    let m = final(owner).outbox@.len() as int;
    if m > n {
        assert(final(owner)@.outbox[n] == final(owner).outbox@[n]@);
    }
    if m > n + 1 {
        assert(final(owner)@.outbox[n + 1] == final(owner).outbox@[n + 1]@);
    }
    if m > n + 2 {
        assert(final(owner)@.outbox[n + 2] == final(owner).outbox@[n + 2]@);
    }
    if m > n + 3 {
        assert(final(owner)@.outbox[n + 3] == final(owner).outbox@[n + 3]@);
    }
}

/// The user cancels. No controller goes on and no request waits: each is turned down, in
/// order, and then the turn is cancelled at the agent. A turn that was held back ends at once.
pub proof fn a_cancelled_turn_is_cancelled_at_the_agent(
    owner: &mut RuntimeOwner,
    generation: u64,
    result: Result<(), RuntimeError>,
)
    requires
        call_ensures(RuntimeOwner::cancel, (owner, generation), result),
    ensures
        ({
            let served = old(owner).native && generation == old(owner).generation
                && old(owner).agent_available;
            let idle = old(owner).held_turn is None && old(owner).active_turn is None;
            &&& !served ==> result == Err::<(), RuntimeError>(RuntimeError::Unavailable)
            &&& !served || idle ==> unchanged(*old(owner), *final(owner))
            &&& served && idle ==> result is Ok
            &&& served && old(owner).held_turn is Some ==> result is Ok
                && final(owner).active_turn is None && final(owner).held_turn is None
                && final(owner).phase == idle_phase(*old(owner)) && final(owner).outbox@.len()
                > old(owner).outbox@.len() && reports_held(
                *old(owner),
                final(owner).outbox@.last(),
                old(owner).held_turn->0,
                StopReason::Cancelled,
            )
            &&& served && !idle ==> final(owner).goal is None && final(owner).loop_state is None
                && final(owner).pending_wakeup is None
            &&& served && !idle && old(owner).held_turn is None ==> {
                &&& final(owner).active_turn == old(owner).active_turn
                &&& final(owner).pending_requests@.len() == 0
                &&& result is Ok <==> reachable(*old(owner))
                &&& result is Err ==> result->Err_0 == RuntimeError::DeliveryFailed
                    && final(owner).phase == RuntimePhase::Failed
                &&& result is Ok ==> final(owner).phase == RuntimePhase::InTurn
            }
            &&& served && old(owner).active_turn is Some && old(owner).held_turn is None
                && reachable(*old(owner)) && old(owner).goal is None
                && old(owner).loop_state is None ==> {
                let waits = old(owner).pending_requests@;
                &&& adds(*old(owner), *final(owner), waits.len() as int + 1)
                &&& sends(
                    added(*old(owner), *final(owner), waits.len() as int),
                    AgentCommand::Cancel,
                )
                &&& forall|i: int|
                    0 <= i < waits.len() ==> sends(
                        #[trigger] added(*old(owner), *final(owner), i),
                        AgentCommand::Respond { id: waits[i], value: ReplyValue::Null },
                    )
            }
            &&& served && !idle && old(owner).goal is Some ==> cancels(
                added(*old(owner), *final(owner), 0),
                old(owner).goal->0.id,
            ) && shows_ended_goal(
                *old(owner),
                added(*old(owner), *final(owner), 1),
                GoalTerminal::Cancelled,
                "cancelled by user"@,
            )
            &&& served && !idle && old(owner).goal is None && old(owner).loop_state is Some
                ==> cancels(
                added(*old(owner), *final(owner), 0),
                old(owner).loop_state->0.id,
            ) && shows_ended_loop(
                *old(owner),
                added(*old(owner), *final(owner), 1),
                "cancelled by user"@,
            )
        }),
{
    actions_are_kept(*old(owner), *final(owner));
    let n = old(owner).outbox@.len() as int;
    let m = final(owner).outbox@.len() as int;
    if m > n {
        assert(final(owner)@.outbox.last() == final(owner).outbox@.last()@);
        assert(final(owner)@.outbox[n] == final(owner).outbox@[n]@);
    }
    if m > n + 1 {
        assert(final(owner)@.outbox[n + 1] == final(owner).outbox@[n + 1]@);
    }
    let waits = old(owner).pending_requests@;
    if old(owner)@.serves(generation) && old(owner).active_turn is Some
        && old(owner).held_turn is None && reachable(*old(owner)) && old(owner).goal is None
        && old(owner).loop_state is None {
        assert forall|i: int| 0 <= i < waits.len() implies sends(
            #[trigger] added(*old(owner), *final(owner), i),
            AgentCommand::Respond { id: waits[i], value: ReplyValue::Null },
        ) by {
            assert(final(owner)@.outbox[n + i] == final(owner).outbox@[n + i]@);
        }
    }
}

/// A name that was found is told to the drivers of the generation that asked for it.
pub proof fn a_found_name_is_told(owner: &mut RuntimeOwner, generation: u64, name: String, result: ())
    requires
        call_ensures(RuntimeOwner::on_session_name, (owner, generation, name), result),
    ensures
        old(owner).native && generation == old(owner).generation ==> adds(
            *old(owner),
            *final(owner),
            1,
        ) && publishes(
            *old(owner),
            added(*old(owner), *final(owner), 0),
            CodingRuntimeEvent::SessionNameSuggested { name },
        ),
        !old(owner).native || generation != old(owner).generation ==> unchanged(
            *old(owner),
            *final(owner),
        ),
{
    actions_are_kept(*old(owner), *final(owner));
    let n = old(owner).outbox@.len() as int;
    if final(owner).outbox@.len() > n {
        assert(final(owner)@.outbox[n] == final(owner).outbox@[n]@);
    }
}

/// A goal starts with nothing spent; spending, a further round and the end change what they
/// say, and nothing else.
pub proof fn a_goal_changes_step_by_step(
    id: u64,
    condition: String,
    fresh: GoalState,
    charged: &mut GoalState,
    tokens: u64,
    advanced: &mut GoalState,
    ended: &mut GoalState,
    terminal: GoalTerminal,
    reason: String,
    goal: &GoalState,
    copy: GoalState,
)
    requires
        call_ensures(GoalState::new, (id, condition), fresh),
        call_ensures(GoalState::charge, (charged, tokens), ()),
        call_ensures(GoalState::next_round, (advanced, reason), ()),
        call_ensures(GoalState::finish, (ended, terminal, reason), ()),
        call_ensures(GoalState::duplicate, (goal,), copy),
    ensures
        fresh.id == id && fresh.condition@ == condition@ && fresh.active,
        fresh.round == 0 && fresh.unproductive == 0 && fresh.tokens_used == 0,
        fresh.last_reason is None && fresh.terminal is None,
        old(charged).tokens_used + tokens <= u64::MAX ==> final(charged).tokens_used == old(
            charged,
        ).tokens_used + tokens,
        old(charged).tokens_used + tokens > u64::MAX ==> final(charged).tokens_used == u64::MAX,
        final(charged)@ == (GoalView { tokens_used: final(charged).tokens_used, ..old(charged)@ }),
        old(advanced).round < u32::MAX ==> final(advanced).round == old(advanced).round + 1,
        final(advanced).last_reason is Some && final(advanced).last_reason->0@ == reason@,
        final(advanced)@ == (GoalView {
            round: final(advanced).round,
            last_reason: Some(reason@),
            ..old(advanced)@
        }),
        !final(ended).active && final(ended).terminal == Some(terminal),
        final(ended).last_reason is Some && final(ended).last_reason->0@ == reason@,
        final(ended)@ == (GoalView {
            active: false,
            terminal: Some(terminal),
            last_reason: Some(reason@),
            ..old(ended)@
        }),
        copy@ == goal@,
{
}

/// A loop starts in its first round; a note, a further round and the end change what they say,
/// and nothing else.
pub proof fn a_loop_changes_step_by_step(
    id: u64,
    label: String,
    fresh: LoopState,
    noted: &mut LoopState,
    advanced: &mut LoopState,
    ended: &mut LoopState,
    reason: String,
    wakeup: &WakeupRequest,
    note: String,
)
    requires
        call_ensures(LoopState::new, (id, label), fresh),
        call_ensures(LoopState::note, (noted, reason), ()),
        call_ensures(LoopState::next_round, (advanced, reason), ()),
        call_ensures(LoopState::stop, (ended, reason), ()),
        call_ensures(WakeupRequest::schedule_note, (wakeup,), note),
    ensures
        fresh.id == id && fresh.label@ == label@ && fresh.active && fresh.round == 0,
        fresh.last_reason is None,
        final(noted)@ == (LoopView { last_reason: Some(reason@), ..old(noted)@ }),
        old(advanced).round < u32::MAX ==> final(advanced).round == old(advanced).round + 1,
        final(advanced)@ == (LoopView {
            round: final(advanced).round,
            last_reason: Some(reason@),
            ..old(advanced)@
        }),
        final(ended)@ == (LoopView {
            active: false,
            last_reason: Some(reason@),
            ..old(ended)@
        }),
        note@ == "scheduled in "@ + crate::text::decimal(wakeup.delay_seconds as nat) + "s: "@
            + wakeup.reason@,
{
}

} // verus!
