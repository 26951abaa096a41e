//! The two controllers that keep a conversation going by themselves: a goal that is
//! evaluated after each turn, and a loop that is woken up again.
use crate::text::{copy_opt, decimal, decimal_text, join3, opt_text};
use vstd::prelude::*;
use vstd::string::*;

verus! {

/// How a goal ended.
#[derive(Clone, Copy, Debug, PartialEq, Eq, Structural)]
pub enum GoalTerminal {
    Met,
    Stopped,
    Failed,
    Cancelled,
}

/// What drivers see of a goal.
#[derive(Clone, Debug, PartialEq, Eq)]
pub struct GoalProgress {
    pub id: u64,
    pub condition: String,
    pub active: bool,
    pub round: u32,
    pub unproductive: u32,
    pub tokens_used: u64,
    pub last_reason: Option<String>,
    pub terminal: Option<GoalTerminal>,
}

/// What drivers see of a loop.
#[derive(Clone, Debug, PartialEq, Eq)]
pub struct LoopProgress {
    pub id: u64,
    pub label: String,
    pub active: bool,
    pub round: u32,
    pub last_reason: Option<String>,
}

/// A goal as a value.
pub struct GoalView {
    pub id: u64,
    pub condition: Seq<char>,
    pub active: bool,
    pub round: u32,
    pub unproductive: u32,
    pub tokens_used: u64,
    pub last_reason: Option<Seq<char>>,
    pub terminal: Option<GoalTerminal>,
}

/// A loop as a value.
pub struct LoopView {
    pub id: u64,
    pub label: Seq<char>,
    pub active: bool,
    pub round: u32,
    pub last_reason: Option<Seq<char>>,
}

impl View for GoalProgress {
    type V = GoalView;

    open spec fn view(&self) -> GoalView {
        GoalView {
            id: self.id,
            condition: self.condition@,
            active: self.active,
            round: self.round,
            unproductive: self.unproductive,
            tokens_used: self.tokens_used,
            last_reason: opt_text(self.last_reason),
            terminal: self.terminal,
        }
    }
}

impl View for LoopProgress {
    type V = LoopView;

    open spec fn view(&self) -> LoopView {
        LoopView {
            id: self.id,
            label: self.label@,
            active: self.active,
            round: self.round,
            last_reason: opt_text(self.last_reason),
        }
    }
}

/// A goal that the runtime works towards.
#[derive(Clone, Debug, PartialEq, Eq)]
pub struct GoalState {
    pub id: u64,
    pub condition: String,
    pub active: bool,
    pub round: u32,
    pub unproductive: u32,
    pub tokens_used: u64,
    pub last_reason: Option<String>,
    pub terminal: Option<GoalTerminal>,
}

impl View for GoalState {
    type V = GoalView;

    open spec fn view(&self) -> GoalView {
        GoalView {
            id: self.id,
            condition: self.condition@,
            active: self.active,
            round: self.round,
            unproductive: self.unproductive,
            tokens_used: self.tokens_used,
            last_reason: opt_text(self.last_reason),
            terminal: self.terminal,
        }
    }
}

/// A value raised by `amount`, at most the largest of its width.
pub open spec fn saturated(value: int, amount: int, largest: int) -> int {
    if value + amount > largest {
        largest
    } else {
        value + amount
    }
}

impl GoalView {
    pub open spec fn fresh(id: u64, condition: Seq<char>) -> GoalView {
        GoalView {
            id,
            condition,
            active: true,
            round: 0,
            unproductive: 0,
            tokens_used: 0,
            last_reason: None,
            terminal: None,
        }
    }

    /// The goal once it has ended.
    pub open spec fn finish(self, terminal: GoalTerminal, reason: Seq<char>) -> GoalView {
        GoalView { active: false, last_reason: Some(reason), terminal: Some(terminal), ..self }
    }

    /// The goal charged with tokens.
    pub open spec fn charge(self, tokens: int) -> GoalView {
        GoalView {
            tokens_used: saturated(self.tokens_used as int, tokens, u64::MAX as int) as u64,
            ..self
        }
    }

    /// The goal after a round that did not meet it.
    pub open spec fn next_round(self, reason: Seq<char>) -> GoalView {
        GoalView {
            round: saturated(self.round as int, 1, u32::MAX as int) as u32,
            last_reason: Some(reason),
            ..self
        }
    }
}

impl GoalState {
    pub fn new(id: u64, condition: String) -> (goal: GoalState)
        ensures
            goal@ == GoalView::fresh(id, condition@),
    {
        GoalState {
            id,
            condition,
            active: true,
            round: 0,
            unproductive: 0,
            tokens_used: 0,
            last_reason: None,
            terminal: None,
        }
    }

    pub fn finish(&mut self, terminal: GoalTerminal, reason: String)
        ensures
            final(self)@ == old(self)@.finish(terminal, reason@),
    {
        self.active = false;
        self.last_reason = Some(reason);
        self.terminal = Some(terminal);
    }

    pub fn duplicate(&self) -> (copy: GoalState)
        ensures
            copy@ == self@,
    {
        GoalState {
            id: self.id,
            condition: self.condition.clone(),
            active: self.active,
            round: self.round,
            unproductive: self.unproductive,
            tokens_used: self.tokens_used,
            last_reason: copy_opt(&self.last_reason),
            terminal: self.terminal,
        }
    }

    pub fn charge(&mut self, tokens: u64)
        ensures
            final(self)@ == old(self)@.charge(tokens as int),
    {
        self.tokens_used = self.tokens_used.saturating_add(tokens);
    }

    pub fn next_round(&mut self, reason: String)
        ensures
            final(self)@ == old(self)@.next_round(reason@),
    {
        self.round = self.round.saturating_add(1);
        self.last_reason = Some(reason);
    }

    pub fn progress(&self) -> (progress: GoalProgress)
        ensures
            progress@ == self@,
    {
        GoalProgress {
            id: self.id,
            condition: self.condition.clone(),
            active: self.active,
            round: self.round,
            unproductive: self.unproductive,
            tokens_used: self.tokens_used,
            last_reason: copy_opt(&self.last_reason),
            terminal: self.terminal,
        }
    }
}

/// A prompt that the runtime repeats when the agent asks to be woken up.
#[derive(Clone, Debug, PartialEq, Eq)]
pub struct LoopState {
    pub id: u64,
    pub label: String,
    pub active: bool,
    pub round: u32,
    pub last_reason: Option<String>,
}

impl View for LoopState {
    type V = LoopView;

    open spec fn view(&self) -> LoopView {
        LoopView {
            id: self.id,
            label: self.label@,
            active: self.active,
            round: self.round,
            last_reason: opt_text(self.last_reason),
        }
    }
}

impl LoopView {
    pub open spec fn fresh(id: u64, label: Seq<char>) -> LoopView {
        LoopView { id, label, active: true, round: 0, last_reason: None }
    }

    /// The loop with another note.
    pub open spec fn note(self, reason: Seq<char>) -> LoopView {
        LoopView { last_reason: Some(reason), ..self }
    }

    /// The loop once it has ended.
    pub open spec fn stop(self, reason: Seq<char>) -> LoopView {
        LoopView { active: false, last_reason: Some(reason), ..self }
    }

    /// The loop after another wakeup.
    pub open spec fn next_round(self, reason: Seq<char>) -> LoopView {
        LoopView {
            round: saturated(self.round as int, 1, u32::MAX as int) as u32,
            last_reason: Some(reason),
            ..self
        }
    }
}

impl LoopState {
    pub fn new(id: u64, label: String) -> (looped: LoopState)
        ensures
            looped@ == LoopView::fresh(id, label@),
    {
        LoopState { id, label, active: true, round: 0, last_reason: None }
    }

    pub fn note(&mut self, reason: String)
        ensures
            final(self)@ == old(self)@.note(reason@),
    {
        self.last_reason = Some(reason);
    }

    pub fn stop(&mut self, reason: String)
        ensures
            final(self)@ == old(self)@.stop(reason@),
    {
        self.active = false;
        self.last_reason = Some(reason);
    }

    pub fn next_round(&mut self, reason: String)
        ensures
            final(self)@ == old(self)@.next_round(reason@),
    {
        self.round = self.round.saturating_add(1);
        self.last_reason = Some(reason);
    }

    pub fn progress(&self) -> (progress: LoopProgress)
        ensures
            progress@ == self@,
    {
        LoopProgress {
            id: self.id,
            label: self.label.clone(),
            active: self.active,
            round: self.round,
            last_reason: copy_opt(&self.last_reason),
        }
    }
}

/// The agent's wish to be woken up again.
#[derive(Clone, Debug, PartialEq, Eq)]
pub struct WakeupRequest {
    pub delay_seconds: u32,
    pub reason: String,
    pub prompt: String,
}

impl WakeupRequest {
    /// Note of a loop that waits for the wakeup.
    pub open spec fn note(self) -> Seq<char> {
        "scheduled in "@ + decimal(self.delay_seconds as nat) + "s: "@ + self.reason@
    }

    pub fn schedule_note(&self) -> (note: String)
        ensures
            note@ == self.note(),
    {
        let mut note = join3("scheduled in ", decimal_text(self.delay_seconds as u64).as_str(), "s: ");
        note.append(self.reason.as_str());
        note
    }
}

/// Verdict of a goal evaluation.
#[derive(Clone, Debug, PartialEq, Eq)]
pub enum GoalResult {
    Met(String),
    NotMet(String),
    Error(String),
}

} // verus!
