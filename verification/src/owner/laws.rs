//! What holds across the operations of the owner: a step that takes the turn in progress
//! away reports it, at most one controller runs, a stale generation is always refused, and
//! doubt about the stored session is never taken back.
use super::events::{with_request_is_ascending, EventFacts};
use super::stopping::{
    answers_finish_no_turn, farewells_finish_no_turn, is_compaction_event, StopReport,
};
use super::{
    accounts_for_turn, finished_turns, finished_turns_of_sum, ActionView, AnswerView, HeldTurn,
    OwnerView,
};
use crate::controllers::{GoalTerminal, GoalView};
use crate::conversation::SessionSnapshot;
use crate::error::RuntimeError;
use crate::event::{
    AgentCommand, AgentEvent, CommandView, CompletionView, EventView, StopReason,
};
use crate::phase::RuntimePhase;
use std::sync::Arc;
use vstd::prelude::*;

verus! {

/// The step only appends to the outbox, and what it appends reports the turns as finished.
pub open spec fn reports(before: OwnerView, after: OwnerView, turns: Seq<u64>) -> bool {
    &&& before.outbox.len() <= after.outbox.len()
    &&& after.outbox.take(before.outbox.len() as int) == before.outbox
    &&& finished_turns(after.outbox.skip(before.outbox.len() as int)) == turns
}

/// The step finishes no turn and keeps the one in progress.
pub open spec fn hushed(before: OwnerView, after: OwnerView) -> bool {
    reports(before, after, Seq::empty()) && after.active_turn == before.active_turn
}

/// The step finishes the turn, and none is in progress after it.
pub open spec fn closes(before: OwnerView, after: OwnerView, turn: u64) -> bool {
    reports(before, after, seq![turn]) && after.active_turn is None
}

pub(crate) proof fn reports_added(before: OwnerView, after: OwnerView, actions: Seq<ActionView>)
    requires
        after.outbox == before.outbox + actions,
    ensures
        reports(before, after, finished_turns(actions)),
{
    let n = before.outbox.len() as int;
    assert(after.outbox.take(n) =~= before.outbox);
    assert(after.outbox.skip(n) =~= actions);
}

pub(crate) proof fn reports_chain(a: OwnerView, b: OwnerView, c: OwnerView, first: Seq<u64>, second: Seq<u64>)
    requires
        reports(a, b, first),
        reports(b, c, second),
    ensures
        reports(a, c, first + second),
{
    let n = a.outbox.len() as int;
    let m = b.outbox.len() as int;
    assert(c.outbox.take(n) =~= a.outbox) by {
        assert(c.outbox.take(m).take(n) =~= c.outbox.take(n));
    }
    let left = b.outbox.skip(n);
    let right = c.outbox.skip(m);
    assert(c.outbox.skip(n) =~= left + right) by {
        assert(c.outbox.take(m) == b.outbox);
        assert forall|i: int| 0 <= i < c.outbox.len() - n implies c.outbox.skip(n)[i] == (left
            + right)[i] by {
            if i + n < m {
                assert(c.outbox.take(m)[i + n] == c.outbox[i + n]);
            }
        }
    }
    finished_turns_of_sum(left, right);
}

pub(crate) proof fn hush_chain(a: OwnerView, b: OwnerView, c: OwnerView)
    requires
        hushed(a, b),
        hushed(b, c),
    ensures
        hushed(a, c),
{
    reports_chain(a, b, c, Seq::empty(), Seq::empty());
    assert(Seq::<u64>::empty() + Seq::<u64>::empty() =~= Seq::empty());
}

pub(crate) proof fn hush_then_close(a: OwnerView, b: OwnerView, c: OwnerView, turn: u64)
    requires
        hushed(a, b),
        closes(b, c, turn),
    ensures
        closes(a, c, turn),
{
    reports_chain(a, b, c, Seq::empty(), seq![turn]);
    assert(Seq::<u64>::empty() + seq![turn] =~= seq![turn]);
}

pub(crate) proof fn close_then_hush(a: OwnerView, b: OwnerView, c: OwnerView, turn: u64)
    requires
        closes(a, b, turn),
        hushed(b, c),
    ensures
        closes(a, c, turn),
{
    reports_chain(a, b, c, seq![turn], Seq::empty());
    assert(seq![turn] + Seq::<u64>::empty() =~= seq![turn]);
}

pub(crate) proof fn hush_same(a: OwnerView, b: OwnerView)
    requires
        a.outbox == b.outbox,
        a.active_turn == b.active_turn,
    ensures
        hushed(a, b),
{
    assert(b.outbox =~= a.outbox + Seq::empty());
    reports_added(a, b, Seq::empty());
}

/// Whether the action reports no turn as finished.
pub open spec fn silent(action: ActionView) -> bool {
    !(action is Emit && action->event is TurnFinished)
}

pub(crate) proof fn hush_push(a: OwnerView, b: OwnerView, action: ActionView)
    requires
        b.outbox == a.outbox.push(action),
        b.active_turn == a.active_turn,
        silent(action),
    ensures
        hushed(a, b),
{
    let one = seq![action];
    assert(b.outbox =~= a.outbox + one);
    reports_added(a, b, one);
    reveal_with_fuel(finished_turns, 2);
    assert(one.drop_last() =~= Seq::empty());
    assert(one.last() == action);
    assert(finished_turns(one) =~= Seq::empty());
}

proof fn close_push(a: OwnerView, b: OwnerView, generation: u64, completion: CompletionView)
    requires
        b.outbox == a.outbox.push(
            ActionView::Emit { generation, event: EventView::TurnFinished(completion) },
        ),
        b.active_turn is None,
    ensures
        closes(a, b, completion.turn()),
{
    let action = ActionView::Emit { generation, event: EventView::TurnFinished(completion) };
    let one = seq![action];
    assert(b.outbox =~= a.outbox + one);
    reports_added(a, b, one);
    reveal_with_fuel(finished_turns, 2);
    assert(one.drop_last() =~= Seq::empty());
    assert(one.last() == action);
    assert(finished_turns(one) =~= seq![completion.turn()]);
}

pub(crate) proof fn hush_emit(s: OwnerView, event: EventView)
    requires
        !(event is TurnFinished),
    ensures
        hushed(s, s.emit(event)),
{
    hush_push(s, s.emit(event), ActionView::Emit { generation: s.generation, event });
}

pub(crate) proof fn hush_offer(s: OwnerView, command: CommandView)
    ensures
        hushed(s, s.offer(command)),
{
    if s.deliverable() {
        hush_push(s, s.offer(command), ActionView::Send(command));
    } else {
        hush_same(s, s.offer(command));
    }
}

pub(crate) proof fn hush_answers(s: OwnerView, answer: AnswerView)
    ensures
        hushed(s, s.answer_all(answer)),
{
    answers_finish_no_turn(s.snapshot_waiters, answer);
    reports_added(s, s.answer_all(answer), s.answers(answer));
}

pub(crate) proof fn hush_controllers(s: OwnerView, terminal: GoalTerminal, note: Seq<char>)
    ensures
        hushed(s, s.end_controllers(terminal, note)),
        hushed(s, s.end_goal(terminal, note)),
        hushed(s, s.end_loop(note)),
{
    farewells_finish_no_turn(s, terminal, note);
    let after = s.end_controllers(terminal, note);
    let farewells = s.goal_farewell(terminal, note) + s.loop_farewell(note);
    assert(after.outbox =~= s.outbox + farewells);
    reports_added(s, after, farewells);
    reports_added(s, s.end_goal(terminal, note), s.goal_farewell(terminal, note));
    reports_added(s, s.end_loop(note), s.loop_farewell(note));
}

pub(crate) proof fn hush_abandoned(s: OwnerView)
    ensures
        hushed(s, s.abandoned()),
{
    hush_offer(s, CommandView::Plain(AgentCommand::Shutdown));
    hush_same(s.offer(CommandView::Plain(AgentCommand::Shutdown)), s.abandoned());
    hush_chain(s, s.offer(CommandView::Plain(AgentCommand::Shutdown)), s.abandoned());
}

pub(crate) proof fn hush_doubt(s: OwnerView, error: Seq<char>, note: Seq<char>, message: Seq<char>)
    ensures
        hushed(s, s.in_doubt(error, note, message)),
{
    let ended = s.end_controllers(GoalTerminal::Failed, note);
    let noted = OwnerView {
        persistence_failure: Some(error),
        pending_requests: Seq::empty(),
        terminal_reason: None,
        snapshot_in_flight: false,
        ..ended
    };
    let answer = AnswerView::SnapshotUnavailable(message);
    hush_controllers(s, GoalTerminal::Failed, note);
    hush_same(ended, noted);
    hush_chain(s, ended, noted);
    hush_answers(noted, answer);
    hush_chain(s, noted, noted.answer_all(answer));
    hush_emit(noted.answer_all(answer), EventView::AgentError(message));
    hush_chain(s, noted.answer_all(answer), s.in_doubt(error, note, message));
}

proof fn lost_turn_closes(s: OwnerView, message: Seq<char>)
    ensures
        closes(s, s.lose_any_turn(message), s.turn_of()),
{
    close_push(
        s,
        s.lose_any_turn(message),
        s.generation,
        s.lost(StopReason::ProviderError, message),
    );
}

proof fn ended_turn_closes(s: OwnerView, completion: CompletionView)
    requires
        s.active_turn is Some,
        completion.turn() == s.turn_of(),
    ensures
        closes(s, s.end_turn(completion), s.turn_of()),
{
    let action = ActionView::Emit {
        generation: s.generation,
        event: EventView::TurnFinished(completion),
    };
    assert(s.outbox + s.turn_report(completion) =~= s.outbox.push(action));
    close_push(s, s.end_turn(completion), s.generation, completion);
}

pub(crate) proof fn compaction_accounts(s: OwnerView, event: AgentEvent, facts: EventFacts)
    requires
        is_compaction_event(event),
    ensures
        hushed(s, s.on_compaction(event, facts)) || closes(
            s,
            s.on_compaction(event, facts),
            s.turn_of(),
        ),
{
    let committed = s.compaction_committed(event);
    let warned = committed.warned(facts.cost_warning);
    let booked = if event is CompactionStarted {
        s.compaction_event(event)
    } else {
        warned.compaction_event(event)
    };
    if committed.outbox == s.outbox {
        hush_same(s, committed);
    } else {
        hush_push(s, committed, committed.outbox.last());
    }
    match facts.cost_warning {
        Some(text) => hush_emit(committed, EventView::ControllerWarning(text@)),
        None => hush_same(committed, warned),
    }
    hush_chain(s, committed, warned);
    let base = if event is CompactionStarted {
        s
    } else {
        warned
    };
    hush_push(base, booked, booked.outbox.last());
    if !(event is CompactionStarted) {
        hush_chain(s, warned, booked);
    }
    if event is CompactionFailed && facts.doubt is Some {
        if s.active_turn is Some {
            doubted_compaction_closes(booked, facts.doubt->0@);
            hush_then_close(s, booked, s.on_compaction(event, facts), s.turn_of());
        } else {
            idle_doubt_hushes(booked, facts.doubt->0@);
            hush_chain(s, booked, s.on_compaction(event, facts));
        }
    }
}

proof fn idle_doubt_hushes(s: OwnerView, error: Seq<char>)
    requires
        s.active_turn is None,
    ensures
        hushed(s, s.compaction_doubted(error)),
{
    reveal(OwnerView::compaction_doubted);
    let message = "compaction persistence became uncertain; runtime stopped: "@ + error;
    let note = "ended: compaction persistence became uncertain"@;
    let dropped = OwnerView { held_turn: None, ..s };
    let shut = dropped.in_doubt(error, note, message);
    hush_same(s, dropped);
    hush_doubt(dropped, error, note, message);
    hush_chain(s, dropped, shut);
    let ended = OwnerView {
        turn_stats: crate::event::RuntimeTurnStats::none(),
        ..shut.end_turn(shut.lost(StopReason::ProviderError, message))
    };
    assert(ended.outbox =~= shut.outbox);
    hush_same(shut, ended);
    hush_chain(s, shut, ended);
    hush_abandoned(ended);
    hush_chain(s, ended, ended.abandoned());
}

proof fn doubted_compaction_closes(s: OwnerView, error: Seq<char>)
    requires
        s.active_turn is Some,
    ensures
        closes(s, s.compaction_doubted(error), s.turn_of()),
{
    reveal(OwnerView::compaction_doubted);
    let message = "compaction persistence became uncertain; runtime stopped: "@ + error;
    let note = "ended: compaction persistence became uncertain"@;
    let dropped = OwnerView { held_turn: None, ..s };
    let shut = dropped.in_doubt(error, note, message);
    hush_same(s, dropped);
    hush_doubt(dropped, error, note, message);
    hush_chain(s, dropped, shut);
    let lost = shut.lost(StopReason::ProviderError, message);
    ended_turn_closes(shut, lost);
    hush_then_close(s, shut, shut.end_turn(lost), s.turn_of());
    let ended = OwnerView {
        turn_stats: crate::event::RuntimeTurnStats::none(),
        ..shut.end_turn(lost)
    };
    hush_same(shut.end_turn(lost), ended);
    close_then_hush(s, shut.end_turn(lost), ended, s.turn_of());
    hush_abandoned(ended);
    close_then_hush(s, ended, ended.abandoned(), s.turn_of());
}

proof fn doubted_turn_closes(s: OwnerView, error: Seq<char>)
    ensures
        closes(s, s.turn_doubted(error), s.turn_of()),
{
    reveal(OwnerView::turn_doubted);
    let message = "session persistence became uncertain; runtime stopped: "@ + error;
    let note = "ended: session persistence became uncertain"@;
    let shut = s.in_doubt(error, note, message);
    hush_doubt(s, error, note, message);
    lost_turn_closes(shut, message);
    hush_then_close(s, shut, shut.lose_any_turn(message), s.turn_of());
    hush_abandoned(shut.lose_any_turn(message));
    close_then_hush(
        s,
        shut.lose_any_turn(message),
        shut.lose_any_turn(message).abandoned(),
        s.turn_of(),
    );
}

proof fn unsealed_closes(s: OwnerView)
    ensures
        closes(s, s.unsealed(), s.turn_of()),
{
    reveal(OwnerView::unsealed);
    let message = "kernel snapshot command delivery failed"@;
    let note = "ended: kernel snapshot command delivery failed"@;
    let answer = AnswerView::SnapshotUnavailable(message);
    let ended = s.end_controllers(GoalTerminal::Failed, note);
    let noted = OwnerView { terminal_reason: None, pending_requests: Seq::empty(), ..ended };
    hush_controllers(s, GoalTerminal::Failed, note);
    hush_same(ended, noted);
    hush_chain(s, ended, noted);
    hush_answers(noted, answer);
    hush_chain(s, noted, noted.answer_all(answer));
    let lost = noted.answer_all(answer).lose_any_turn(message);
    lost_turn_closes(noted.answer_all(answer), message);
    hush_then_close(s, noted.answer_all(answer), lost, s.turn_of());
    hush_same(lost, lost.failed());
    close_then_hush(s, lost, lost.failed(), s.turn_of());
}

pub(crate) proof fn turn_complete_accounts(s: OwnerView, reason: StopReason, facts: EventFacts)
    ensures
        hushed(s, s.on_turn_complete(reason, facts)) || closes(
            s,
            s.on_turn_complete(reason, facts),
            s.turn_of(),
        ),
{
    let warned = s.warned(facts.cost_warning);
    match facts.cost_warning {
        Some(text) => hush_emit(s, EventView::ControllerWarning(text@)),
        None => hush_same(s, warned),
    }
    let stopped = warned.clock_stopped(facts.elapsed_nanos);
    hush_same(warned, stopped);
    hush_chain(s, warned, stopped);
    match facts.doubt {
        Some(error) => {
            doubted_turn_closes(stopped, error@);
            hush_then_close(s, stopped, stopped.turn_doubted(error@), s.turn_of());
        },
        None => {
            let noted = OwnerView { terminal_reason: Some(reason), ..stopped };
            hush_same(stopped, noted);
            hush_chain(s, stopped, noted);
            if stopped.snapshot_in_flight {
            } else if stopped.deliverable() {
                let command = CommandView::Plain(AgentCommand::Snapshot);
                hush_offer(noted, command);
                hush_same(noted.offer(command), stopped.turn_ended(reason));
                hush_chain(s, noted, noted.offer(command));
                hush_chain(s, noted.offer(command), stopped.turn_ended(reason));
            } else {
                unsealed_closes(noted);
                hush_then_close(s, noted, noted.unsealed(), s.turn_of());
            }
        },
    }
}

proof fn closed_turn_closes(s: OwnerView, done: HeldTurn, reason: StopReason)
    ensures
        closes(s, s.turn_closed(done, reason), done.turn_id),
{
    close_push(
        s,
        s.turn_closed(done, reason),
        s.generation,
        CompletionView::Completed {
            turn_id: done.turn_id,
            reason,
            snapshot: done.snapshot,
            stats: done.stats,
        },
    );
}

proof fn concluded_goal_hushes(s: OwnerView, goal: GoalView)
    ensures
        hushed(s, s.conclude_goal(goal)),
{
    let none = OwnerView { goal: None, ..s };
    hush_same(s, none);
    hush_emit(none, EventView::GoalChanged(goal));
    hush_chain(s, none, s.conclude_goal(goal));
}

proof fn goal_turn_accounts(
    s: OwnerView,
    goal: GoalView,
    done: HeldTurn,
    cap: Option<String>,
    limit: u32,
)
    ensures
        hushed(s, s.goal_turn(goal, done, cap, limit)) || closes(
            s,
            s.goal_turn(goal, done, cap, limit),
            done.turn_id,
        ),
{
    reveal(OwnerView::goal_capped);
    reveal(OwnerView::goal_held);
    reveal(OwnerView::goal_dropped);
    if cap is Some {
        let why = cap->0@;
        let ended = goal.finish(GoalTerminal::Stopped, "stopped: "@ + why);
        let warning = EventView::ControllerWarning(
            "goal stopped: "@ + why + " — goal not met; run /goal again to continue"@,
        );
        let told = s.conclude_goal(ended).emit(warning);
        concluded_goal_hushes(s, ended);
        hush_emit(s.conclude_goal(ended), warning);
        hush_chain(s, s.conclude_goal(ended), told);
        closed_turn_closes(told, done, super::events::cap_reason(why));
        hush_then_close(s, told, s.goal_capped(goal, done, why), done.turn_id);
    } else if super::events::evaluates(done.reason) {
        let held = s.goal_held(goal, done);
        hush_push(s, held, held.outbox.last());
    } else if super::events::recoverable(done.reason) {
        retried_goal_accounts(s, goal, done, limit);
    } else {
        let ended = goal.finish(GoalTerminal::Failed, "ended: "@ + done.reason.text());
        concluded_goal_hushes(s, ended);
        closed_turn_closes(s.conclude_goal(ended), done, done.reason);
        hush_then_close(s, s.conclude_goal(ended), s.goal_dropped(goal, done), done.turn_id);
    }
}

proof fn retried_goal_accounts(s: OwnerView, goal: GoalView, done: HeldTurn, limit: u32)
    ensures
        hushed(s, s.goal_retried(goal, done, limit)) || closes(
            s,
            s.goal_retried(goal, done, limit),
            done.turn_id,
        ),
{
    reveal(OwnerView::goal_retried);
    let failed = GoalView {
        unproductive: crate::controllers::saturated(
            goal.unproductive as int,
            1,
            u32::MAX as int,
        ) as u32,
        ..goal
    };
    let why = "round ended: "@ + done.reason.text();
    let next = failed.next_round(why);
    let after = s.goal_retried(goal, done, limit);
    if failed.unproductive >= limit {
        let ended = failed.finish(GoalTerminal::Failed, "stopped: too many failed rounds"@);
        let warning = EventView::ControllerWarning("goal stopped: too many failed rounds"@);
        let told = s.conclude_goal(ended).emit(warning);
        concluded_goal_hushes(s, ended);
        hush_emit(s.conclude_goal(ended), warning);
        hush_chain(s, s.conclude_goal(ended), told);
        closed_turn_closes(told, done, StopReason::ProviderError);
        hush_then_close(s, told, after, done.turn_id);
    } else {
        let set = OwnerView { goal: Some(next), held_turn: None, ..s };
        hush_same(s, set);
        if s.deliverable() {
            let action = ActionView::ContinueGoal { reason: why, condition: goal.condition };
            hush_push(set, set.act(action), action);
            hush_chain(s, set, set.act(action));
            hush_emit(set.act(action), EventView::GoalChanged(next));
            hush_chain(s, set.act(action), after);
        } else {
            let note = "continuation dispatch failed"@;
            let warning = EventView::ControllerWarning(
                "goal stopped: continuation dispatch failed"@,
            );
            let ended = set.end_goal(GoalTerminal::Failed, note);
            let told = ended.emit(warning);
            let closed = told.turn_closed(done, StopReason::ProviderError);
            hush_controllers(set, GoalTerminal::Failed, note);
            hush_chain(s, set, ended);
            hush_emit(ended, warning);
            hush_chain(s, ended, told);
            closed_turn_closes(told, done, StopReason::ProviderError);
            hush_then_close(s, told, closed, done.turn_id);
            hush_same(closed, closed.failed());
            close_then_hush(s, closed, after, done.turn_id);
        }
    }
}

proof fn loop_turn_accounts(s: OwnerView, done: HeldTurn)
    ensures
        hushed(s, s.loop_turn(done)) || closes(s, s.loop_turn(done), done.turn_id),
{
    reveal(OwnerView::loop_turn);
    let after = s.loop_turn(done);
    if done.reason == StopReason::Stopped && s.pending_wakeup is Some {
        hush_push(s, after, after.outbox.last());
    } else {
        let note = if done.reason == StopReason::Stopped {
            "completed"@
        } else {
            "ended: "@ + done.reason.text()
        };
        let ended = s.end_loop(note);
        let quiet = OwnerView {
            pending_wakeup: None,
            loop_active: s.loop_active && !s.has_resources,
            ..ended
        };
        hush_controllers(s, GoalTerminal::Failed, note);
        hush_same(ended, quiet);
        hush_chain(s, ended, quiet);
        closed_turn_closes(quiet, done, done.reason);
        hush_then_close(s, quiet, after, done.turn_id);
    }
}

pub(crate) proof fn snapshot_accounts(s: OwnerView, snapshot: Arc<SessionSnapshot>, facts: EventFacts)
    ensures
        hushed(s, s.on_snapshot(snapshot, facts)) || closes(
            s,
            s.on_snapshot(snapshot, facts),
            s.turn_of(),
        ),
{
    let taken = s.snapshot_taken(snapshot, facts.stored);
    snapshot_taken_hushes(s, snapshot, facts.stored);
    if s.terminal_reason is Some {
        let done = s.sealed_turn(snapshot);
        let sealed = taken.sealed();
        let named = sealed.named(done, facts.naming_enabled);
        hush_same(taken, sealed);
        hush_chain(s, taken, sealed);
        if sealed.names_session(done, facts.naming_enabled) {
            hush_push(sealed, named, named.outbox.last());
        } else {
            hush_same(sealed, named);
        }
        hush_chain(s, sealed, named);
        reveal(OwnerView::turn_disposed);
        let after = named.turn_disposed(done, facts);
        if named.goal_runs() {
            let bare = OwnerView { goal: None, ..named };
            hush_same(named, bare);
            hush_chain(s, named, bare);
            let goal = OwnerView::charged_goal(named.goal->0, done);
            goal_turn_accounts(bare, goal, done, facts.goal_cap, facts.max_unproductive);
            if hushed(bare, after) {
                hush_chain(s, bare, after);
            } else {
                hush_then_close(s, bare, after, done.turn_id);
            }
        } else if named.loop_runs() {
            loop_turn_accounts(named, done);
            if hushed(named, after) {
                hush_chain(s, named, after);
            } else {
                hush_then_close(s, named, after, done.turn_id);
            }
        } else {
            closed_turn_closes(named, done, done.reason);
            hush_then_close(s, named, after, done.turn_id);
        }
    }
}

pub(crate) proof fn snapshot_taken_hushes(
    s: OwnerView,
    snapshot: Arc<SessionSnapshot>,
    stored: Option<Arc<SessionSnapshot>>,
)
    ensures
        hushed(s, s.snapshot_taken(snapshot, stored)),
{
    let revision = if s.terminal_reason is Some {
        super::bump(s.conversation_revision)
    } else {
        s.conversation_revision
    };
    let kept = OwnerView {
        snapshot_in_flight: false,
        conversation_revision: revision,
        outbox: if s.has_resources && !s.has_session {
            s.outbox.push(ActionView::KeepResume(snapshot))
        } else {
            s.outbox
        },
        ..s
    };
    if s.has_resources && !s.has_session {
        hush_push(s, kept, ActionView::KeepResume(snapshot));
    } else {
        hush_same(s, kept);
    }
    let answer = AnswerView::Ready(
        crate::event::RuntimeSnapshotReceipt {
            snapshot,
            undo_snapshot: OwnerView::undo_base(snapshot, stored),
            revision,
        },
    );
    hush_answers(kept, answer);
    hush_chain(s, kept, s.snapshot_taken(snapshot, stored));
}

/// Every event of the agent answers for the turn in progress: the turn goes on and nothing
/// is reported, or it is over and exactly this turn is reported as finished.
pub proof fn events_account_for_the_turn(s: OwnerView, event: AgentEvent, facts: EventFacts)
    requires
        s.active_turn is Some,
    ensures
        accounts_for_turn(s, s.on_event(event, facts)),
{
    let turn = s.turn_of();
    let after = s.on_event(event, facts);
    if is_compaction_event(event) {
        compaction_accounts(s, event, facts);
    } else if !s.native {
        hush_same(s, after);
    } else {
        match event {
            AgentEvent::Request { id, kind, payload } => {
                hush_push(s, after, after.outbox.last());
            },
            AgentEvent::TurnComplete { reason } => turn_complete_accounts(s, reason, facts),
            AgentEvent::Snapshot { snapshot } => snapshot_accounts(s, snapshot, facts),
            _ => {
                hush_push(s, after, after.outbox.last());
            },
        }
    }
    if !hushed(s, after) {
        assert(closes(s, after, turn));
    }
}

/// An agent that goes away does not take the turn with it unreported.
pub proof fn a_closed_stream_accounts_for_the_turn(s: OwnerView)
    requires
        s.active_turn is Some,
    ensures
        accounts_for_turn(s, s.stream_closed()),
{
    let answer = AnswerView::SnapshotUnavailable(super::events::stream_closed_text());
    let note = "ended: kernel event stream closed"@;
    let answered = s.answer_all(answer);
    let ended = answered.end_controllers(GoalTerminal::Failed, note);
    let noted = OwnerView { terminal_reason: None, ..ended };
    hush_answers(s, answer);
    hush_controllers(answered, GoalTerminal::Failed, note);
    hush_chain(s, answered, ended);
    hush_same(ended, noted);
    hush_chain(s, ended, noted);
    let reason = match s.terminal_reason {
        Some(reason) => reason,
        None => StopReason::ProviderError,
    };
    let lost = s.lost(reason, super::events::stream_closed_text());
    ended_turn_closes(noted, lost);
    hush_then_close(s, noted, s.stream_closed(), s.turn_of());
}

/// No event holds back another turn than the one in progress, nor keeps a turn held back that
/// it reports.
pub proof fn only_the_turn_in_progress_is_held(s: OwnerView, event: AgentEvent, facts: EventFacts)
    requires
        s.held_linked(),
    ensures
        s.on_event(event, facts).held_linked(),
{
    if is_compaction_event(event) {
        reveal(OwnerView::compaction_doubted);
    } else if s.native {
        match event {
            AgentEvent::TurnComplete { reason } => {
                reveal(OwnerView::turn_doubted);
                reveal(OwnerView::unsealed);
            },
            AgentEvent::Snapshot { snapshot } => {
                if s.terminal_reason is Some {
                    let named = s.snapshot_taken(snapshot, facts.stored).sealed().named(
                        s.sealed_turn(snapshot),
                        facts.naming_enabled,
                    );
                    disposed_turns_are_linked(named, s.sealed_turn(snapshot), facts);
                }
            },
            _ => {},
        }
    }
}

proof fn disposed_turns_are_linked(s: OwnerView, done: HeldTurn, facts: EventFacts)
    requires
        s.held_linked(),
        s.turn_of() == done.turn_id,
    ensures
        s.turn_disposed(done, facts).held_linked(),
{
    reveal(OwnerView::turn_disposed);
    reveal(OwnerView::goal_capped);
    reveal(OwnerView::goal_held);
    reveal(OwnerView::goal_retried);
    reveal(OwnerView::goal_dropped);
    reveal(OwnerView::loop_turn);
}

pub(crate) proof fn released_turn_closes(s: OwnerView, reason: StopReason)
    requires
        s.held_linked(),
        s.held_turn is Some,
    ensures
        closes(s, s.release_held(reason), s.turn_of()),
{
    super::goals::held_farewell_finishes(s, reason);
    reports_added(s, s.release_held(reason), s.held_farewell(reason));
}

proof fn stranded_turn_closes(s: OwnerView)
    requires
        s.held_linked(),
        s.held_turn is Some,
    ensures
        closes(s, s.strand_held(), s.turn_of()),
{
    let released = s.release_held(StopReason::ProviderError);
    released_turn_closes(s, StopReason::ProviderError);
    hush_same(released, s.strand_held());
    close_then_hush(s, released, s.strand_held(), s.turn_of());
}

/// A goal that is decided, goes on or cannot be evaluated answers for the turn that it held
/// back.
pub proof fn evaluations_account_for_the_turn(
    s: OwnerView,
    goal: GoalView,
    reason: StopReason,
    text: Seq<char>,
)
    requires
        s.held_linked(),
        s.held_turn is Some,
    ensures
        accounts_for_turn(s, s.goal_decided(goal, reason)),
        accounts_for_turn(s, s.evaluation_failed(goal, text)),
        accounts_for_turn(s, s.goal_continues(goal, text)),
{
    let turn = s.turn_of();
    goal_decision_closes(s, goal, reason);
    evaluation_failure_closes(s, goal, text);
    continued_goal_accounts(s, goal, text);
}

pub(crate) proof fn goal_decision_closes(s: OwnerView, goal: GoalView, reason: StopReason)
    requires
        s.held_linked(),
        s.held_turn is Some,
    ensures
        closes(s, s.goal_decided(goal, reason), s.turn_of()),
{
    reveal(OwnerView::goal_decided);
    let told = s.conclude_goal(goal);
    concluded_goal_hushes(s, goal);
    released_turn_closes(told, reason);
    hush_then_close(s, told, told.release_held(reason), s.turn_of());
    hush_same(told.release_held(reason), s.goal_decided(goal, reason));
    close_then_hush(s, told.release_held(reason), s.goal_decided(goal, reason), s.turn_of());
}

pub(crate) proof fn evaluation_failure_closes(s: OwnerView, goal: GoalView, error: Seq<char>)
    requires
        s.held_linked(),
        s.held_turn is Some,
    ensures
        closes(s, s.evaluation_failed(goal, error), s.turn_of()),
{
    reveal(OwnerView::evaluation_failed);
    let ended = goal.finish(GoalTerminal::Failed, "evaluator failed: "@ + error);
    let warning = EventView::ControllerWarning("goal evaluator failed: "@ + error);
    let concluded = s.conclude_goal(ended);
    let told = concluded.emit(warning);
    let released = told.release_held(StopReason::ProviderError);
    concluded_goal_hushes(s, ended);
    hush_emit(concluded, warning);
    hush_chain(s, concluded, told);
    released_turn_closes(told, StopReason::ProviderError);
    hush_then_close(s, told, released, s.turn_of());
    hush_same(released, s.evaluation_failed(goal, error));
    close_then_hush(s, released, s.evaluation_failed(goal, error), s.turn_of());
}

pub(crate) proof fn continued_goal_accounts(s: OwnerView, current: GoalView, verdict: Seq<char>)
    requires
        s.held_linked(),
        s.held_turn is Some,
    ensures
        hushed(s, s.goal_continues(current, verdict)) || closes(
            s,
            s.goal_continues(current, verdict),
            s.turn_of(),
        ),
{
    reveal(OwnerView::goal_continues);
    let goal = current.next_round(verdict);
    let set = OwnerView { goal: Some(goal), ..s };
    let told = set.emit(EventView::GoalChanged(goal));
    let after = s.goal_continues(current, verdict);
    hush_same(s, set);
    hush_emit(set, EventView::GoalChanged(goal));
    hush_chain(s, set, told);
    if s.deliverable() {
        let action = ActionView::ContinueGoal { reason: verdict, condition: goal.condition };
        hush_push(told, told.act(action), action);
        hush_chain(s, told, told.act(action));
        hush_same(told.act(action), after);
        hush_chain(s, told.act(action), after);
    } else {
        let note = "continuation dispatch failed"@;
        let warning = EventView::ControllerWarning("goal stopped: continuation dispatch failed"@);
        let failed = told.failed();
        let ended = failed.end_goal(GoalTerminal::Failed, note);
        let warned = ended.emit(warning);
        hush_same(told, failed);
        hush_chain(s, told, failed);
        hush_controllers(failed, GoalTerminal::Failed, note);
        hush_chain(s, failed, ended);
        hush_emit(ended, warning);
        hush_chain(s, ended, warned);
        stranded_turn_closes(warned);
        hush_then_close(s, warned, after, s.turn_of());
    }
}

/// A loop that goes on or has used up its rounds answers for the turn that it held back.
pub proof fn wakeups_account_for_the_turn(
    s: OwnerView,
    current: crate::controllers::LoopView,
    wakeup: crate::controllers::WakeupRequest,
)
    requires
        s.held_linked(),
        s.held_turn is Some,
    ensures
        accounts_for_turn(s, s.loop_continues(current, wakeup)),
        accounts_for_turn(s, s.loop_exhausted()),
{
    continued_loop_accounts(s, current, wakeup);
    exhausted_loop_closes(s);
}

pub(crate) proof fn exhausted_loop_closes(s: OwnerView)
    requires
        s.held_linked(),
        s.held_turn is Some,
    ensures
        closes(s, s.loop_exhausted(), s.turn_of()),
{
    reveal(OwnerView::loop_exhausted);
    let note = "round limit"@;
    let ended = s.end_loop(note);
    let quiet = OwnerView { loop_active: s.loop_active && !s.has_resources, ..ended };
    let released = quiet.release_held(StopReason::MaxRounds);
    hush_controllers(s, GoalTerminal::Failed, note);
    hush_same(ended, quiet);
    hush_chain(s, ended, quiet);
    released_turn_closes(quiet, StopReason::MaxRounds);
    hush_then_close(s, quiet, released, s.turn_of());
    hush_same(released, s.loop_exhausted());
    close_then_hush(s, released, s.loop_exhausted(), s.turn_of());
}

pub(crate) proof fn continued_loop_accounts(
    s: OwnerView,
    current: crate::controllers::LoopView,
    wakeup: crate::controllers::WakeupRequest,
)
    requires
        s.held_linked(),
        s.held_turn is Some,
    ensures
        hushed(s, s.loop_continues(current, wakeup)) || closes(
            s,
            s.loop_continues(current, wakeup),
            s.turn_of(),
        ),
{
    reveal(OwnerView::loop_continues);
    let state = current.next_round(wakeup.reason@);
    let set = OwnerView { loop_state: Some(state), ..s };
    let told = set.emit(EventView::LoopChanged(state));
    let after = s.loop_continues(current, wakeup);
    hush_same(s, set);
    hush_emit(set, EventView::LoopChanged(state));
    hush_chain(s, set, told);
    if s.deliverable() {
        let action = ActionView::Send(
            CommandView::SendMessage { text: wakeup.prompt@, images: Seq::empty() },
        );
        hush_push(told, told.act(action), action);
        hush_chain(s, told, told.act(action));
        hush_same(told.act(action), after);
        hush_chain(s, told.act(action), after);
    } else {
        let note = "continuation dispatch failed"@;
        let warning = EventView::ControllerWarning("loop stopped: continuation dispatch failed"@);
        let failed = told.failed();
        let ended = failed.end_loop(note);
        let quiet = OwnerView { loop_active: s.loop_active && !s.has_resources, ..ended };
        let warned = quiet.emit(warning);
        hush_same(told, failed);
        hush_chain(s, told, failed);
        hush_controllers(failed, GoalTerminal::Failed, note);
        hush_chain(s, failed, ended);
        hush_same(ended, quiet);
        hush_chain(s, ended, quiet);
        hush_emit(quiet, warning);
        hush_chain(s, quiet, warned);
        stranded_turn_closes(warned);
        hush_then_close(s, warned, after, s.turn_of());
    }
}

/// Controllers that give way answer for the turn that one of them held back.
pub proof fn replaced_controllers_account_for_the_turn(
    s: OwnerView,
    phase: RuntimePhase,
    detail: Seq<char>,
)
    requires
        s.held_linked(),
        s.active_turn is Some,
    ensures
        accounts_for_turn(s, s.cancel_controllers(phase, detail)),
        s.held_turn is Some ==> s.cancel_controllers(phase, detail).active_turn is None,
{
    replaced_controllers_account(s, phase, detail);
}

pub(crate) proof fn replaced_controllers_account(
    s: OwnerView,
    phase: RuntimePhase,
    detail: Seq<char>,
)
    requires
        s.held_linked(),
    ensures
        s.held_turn is Some ==> closes(
            s,
            s.cancel_controllers(phase, detail),
            s.turn_of(),
        ),
        s.held_turn is None ==> hushed(s, s.cancel_controllers(phase, detail)),
{
    let ended = s.end_controllers(GoalTerminal::Failed, detail);
    let released = ended.release_held(StopReason::Cancelled);
    let after = s.cancel_controllers(phase, detail);
    hush_controllers(s, GoalTerminal::Failed, detail);
    hush_same(released, after);
    if s.held_turn is Some {
        released_turn_closes(ended, StopReason::Cancelled);
        hush_then_close(s, ended, released, s.turn_of());
        close_then_hush(s, released, after, s.turn_of());
    } else {
        assert(released.outbox =~= ended.outbox);
        hush_same(ended, released);
        hush_chain(s, ended, released);
        hush_chain(s, released, after);
    }
}

/// Clearing a controller answers for the turn that it held back.
pub proof fn halting_accounts_for_the_turn(s: OwnerView)
    requires
        s.held_linked(),
        s.active_turn is Some,
    ensures
        accounts_for_turn(s, s.halt_turn()),
{
    halted_turn_accounts(s);
}

pub(crate) proof fn halted_turn_accounts(s: OwnerView)
    requires
        s.held_linked(),
    ensures
        s.held_turn is Some ==> closes(s, s.halt_turn(), s.turn_of()),
        s.held_turn is None ==> hushed(s, s.halt_turn()),
{
    let command = CommandView::Plain(AgentCommand::Cancel);
    let told = if s.active_turn is Some {
        s.offer(command)
    } else {
        s
    };
    let released = told.release_held(StopReason::Cancelled);
    let after = s.halt_turn();
    hush_offer(s, command);
    hush_same(s, s);
    assert(released.outbox =~= after.outbox);
    hush_same(released, after);
    if s.held_turn is Some {
        released_turn_closes(told, StopReason::Cancelled);
        hush_then_close(s, told, released, s.turn_of());
        close_then_hush(s, released, after, s.turn_of());
    } else {
        assert(released.outbox =~= told.outbox);
        hush_same(told, released);
        hush_chain(s, told, released);
        hush_chain(s, released, after);
    }
}

/// A control of another generation than the current one is refused, whatever it is.
pub proof fn stale_controls_are_refused(s: OwnerView, generation: u64)
    requires
        generation != s.generation,
    ensures
        s.submit_refusal(generation) == Some(RuntimeError::Unavailable),
        !s.serves(generation),
        !s.settled_at(generation),
        s.replace_refusal(generation) == Some(RuntimeError::Busy),
        s.controller_refusal(generation) == Some(RuntimeError::Busy),
{
}

/// A runtime without a usable provider says which one it lacks.
pub proof fn a_missing_provider_is_named(s: OwnerView, generation: u64)
    requires
        s.native && generation == s.generation && !s.agent_available,
        s.provider_unavailable_reason is Some,
    ensures
        s.submit_refusal(generation) == Some(
            RuntimeError::ProviderUnavailable(s.provider_unavailable_reason->0),
        ),
{
}

/// Whether the step keeps what every event keeps.
pub open spec fn keeps_the_owner_well_formed(before: OwnerView, after: OwnerView) -> bool {
    &&& after.wf()
    &&& after.generation == before.generation
    &&& before.persistence_failure is Some ==> after.persistence_failure is Some
    &&& before.ai_name_attempted ==> after.ai_name_attempted
    &&& after.loop_active ==> before.loop_active
}

/// Events keep what every operation keeps: at most one controller, requests in order. They
/// never change the generation, and never take doubt about the stored session back.
pub proof fn events_keep_the_owner_well_formed(s: OwnerView, event: AgentEvent, facts: EventFacts)
    requires
        s.wf(),
    ensures
        keeps_the_owner_well_formed(s, s.on_event(event, facts)),
{
    if is_compaction_event(event) {
        compactions_keep_the_owner_well_formed(s, event, facts);
    } else if s.native {
        match event {
            AgentEvent::Request { id, kind, payload } => {
                with_request_is_ascending(s.pending_requests, id);
            },
            AgentEvent::TurnComplete { reason } => {
                ended_turns_keep_the_owner_well_formed(s, reason, facts);
            },
            AgentEvent::Snapshot { snapshot } => {
                snapshots_keep_the_owner_well_formed(s, snapshot, facts);
            },
            _ => {},
        }
    }
}

proof fn compactions_keep_the_owner_well_formed(s: OwnerView, event: AgentEvent, facts: EventFacts)
    requires
        s.wf(),
        is_compaction_event(event),
    ensures
        keeps_the_owner_well_formed(s, s.on_compaction(event, facts)),
{
    reveal(OwnerView::compaction_doubted);
}

proof fn ended_turns_keep_the_owner_well_formed(s: OwnerView, reason: StopReason, facts: EventFacts)
    requires
        s.wf(),
    ensures
        keeps_the_owner_well_formed(s, s.on_turn_complete(reason, facts)),
{
    reveal(OwnerView::turn_doubted);
    reveal(OwnerView::unsealed);
}

proof fn snapshots_keep_the_owner_well_formed(
    s: OwnerView,
    snapshot: Arc<SessionSnapshot>,
    facts: EventFacts,
)
    requires
        s.wf(),
    ensures
        keeps_the_owner_well_formed(s, s.on_snapshot(snapshot, facts)),
{
    if s.terminal_reason is Some {
        let done = s.sealed_turn(snapshot);
        let named = s.snapshot_taken(snapshot, facts.stored).sealed().named(
            done,
            facts.naming_enabled,
        );
        disposed_turns_keep_the_owner_well_formed(named, done, facts);
    }
}

proof fn disposed_turns_keep_the_owner_well_formed(s: OwnerView, done: HeldTurn, facts: EventFacts)
    requires
        s.wf(),
    ensures
        s.turn_disposed(done, facts).wf(),
        s.turn_disposed(done, facts).generation == s.generation,
        s.turn_disposed(done, facts).persistence_failure == s.persistence_failure,
        s.turn_disposed(done, facts).ai_name_attempted == s.ai_name_attempted,
        s.turn_disposed(done, facts).loop_active ==> s.loop_active,
{
    reveal(OwnerView::turn_disposed);
    reveal(OwnerView::goal_capped);
    reveal(OwnerView::goal_held);
    reveal(OwnerView::goal_retried);
    reveal(OwnerView::goal_dropped);
    reveal(OwnerView::loop_turn);
}

/// What an event does not ask for does not matter to it.
pub proof fn unasked_facts_do_not_matter(
    s: OwnerView,
    event: AgentEvent,
    facts: EventFacts,
    other: EventFacts,
)
    requires
        s.questions(event).agree(facts, other),
    ensures
        s.on_event(event, facts) == s.on_event(event, other),
{
    if !is_compaction_event(event) && s.native {
        match event {
            AgentEvent::Snapshot { snapshot } => {
                if s.terminal_reason is Some {
                    reveal(OwnerView::turn_disposed);
                    let done = s.sealed_turn(snapshot);
                    let sealed = s.snapshot_taken(snapshot, facts.stored).sealed();
                    assert(sealed.named(done, facts.naming_enabled) == sealed.named(
                        done,
                        other.naming_enabled,
                    ));
                }
            },
            _ => {},
        }
    }
}

/// Doubt about the stored session is never taken back: neither by a verdict on the goal, a
/// wakeup, the end of the agent's events, nor by stopping the agent or ending controllers.
/// Doubt that a stop brings is kept.
pub proof fn doubt_is_never_taken_back(
    s: OwnerView,
    goal: GoalView,
    looped: crate::controllers::LoopView,
    wakeup: crate::controllers::WakeupRequest,
    reason: StopReason,
    text: Seq<char>,
    report: StopReport,
    stored: Option<Arc<SessionSnapshot>>,
)
    ensures
        s.goal_decided(goal, reason).persistence_failure == s.persistence_failure,
        s.evaluation_failed(goal, text).persistence_failure == s.persistence_failure,
        s.goal_continues(goal, text).persistence_failure == s.persistence_failure,
        s.loop_continues(looped, wakeup).persistence_failure == s.persistence_failure,
        s.loop_exhausted().persistence_failure == s.persistence_failure,
        s.stream_closed().persistence_failure == s.persistence_failure,
        s.halt_turn().persistence_failure == s.persistence_failure,
        s.cancel_controllers(s.phase, text).persistence_failure == s.persistence_failure,
        s.finish_stopped(report, stored).persistence_failure == s.persistence_failure,
        s.doubted(report, stored).persistence_failure == match report.persistence_failure {
            Some(error) => Some(error@),
            None => s.persistence_failure,
        },
{
    reveal(OwnerView::goal_decided);
    reveal(OwnerView::evaluation_failed);
    reveal(OwnerView::goal_continues);
    reveal(OwnerView::loop_continues);
    reveal(OwnerView::loop_exhausted);
    reveal(OwnerView::settled);
}

/// A session is named at most once: after an attempt no event asks for another name.
pub proof fn a_session_is_named_once(s: OwnerView, done: HeldTurn, naming_enabled: bool)
    ensures
        s.names_session(done, naming_enabled) ==> !s.ai_name_attempted && s.named(
            done,
            naming_enabled,
        ).ai_name_attempted,
        s.ai_name_attempted ==> s.named(done, naming_enabled) == s,
        done.reason == StopReason::Cancelled ==> s.named(done, naming_enabled) == s,
{
}

} // verus!
