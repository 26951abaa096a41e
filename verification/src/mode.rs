//! Permission modes of a runtime and the scopes of a rewind.
use vstd::prelude::*;

verus! {

/// How much a running agent may do without asking.
#[derive(Clone, Copy, Debug, PartialEq, Eq, Structural)]
pub enum RuntimeMode {
    Build,
    AcceptEdits,
    Auto,
    Plan,
}

impl Default for RuntimeMode {
    fn default() -> (mode: Self)
        ensures
            mode == RuntimeMode::Build,
    {
        RuntimeMode::Build
    }
}

impl RuntimeMode {
    /// Place of the mode in the cycle Build, AcceptEdits, Auto, Plan.
    pub open spec fn rank(self) -> int {
        match self {
            RuntimeMode::Build => 0,
            RuntimeMode::AcceptEdits => 1,
            RuntimeMode::Auto => 2,
            RuntimeMode::Plan => 3,
        }
    }

    /// Name of the mode on the wire.
    pub open spec fn wire_name(self) -> Seq<char> {
        match self {
            RuntimeMode::Build => "build"@,
            RuntimeMode::AcceptEdits => "accept_edits"@,
            RuntimeMode::Auto => "bypass"@,
            RuntimeMode::Plan => "plan"@,
        }
    }

    /// Name of the mode for display.
    pub open spec fn label_name(self) -> Seq<char> {
        match self {
            RuntimeMode::Build => "Build"@,
            RuntimeMode::AcceptEdits => "AcceptEdits"@,
            RuntimeMode::Auto => "Auto"@,
            RuntimeMode::Plan => "Plan"@,
        }
    }

    /// The mode after this one in the cycle.
    pub fn next(self) -> (mode: Self)
        ensures
            mode.rank() == (self.rank() + 1) % 4,
    {
        match self {
            RuntimeMode::Build => RuntimeMode::AcceptEdits,
            RuntimeMode::AcceptEdits => RuntimeMode::Auto,
            RuntimeMode::Auto => RuntimeMode::Plan,
            RuntimeMode::Plan => RuntimeMode::Build,
        }
    }

    /// The mode before this one in the cycle.
    pub fn prev(self) -> (mode: Self)
        ensures
            mode.rank() == (self.rank() + 3) % 4,
    {
        match self {
            RuntimeMode::Build => RuntimeMode::Plan,
            RuntimeMode::Plan => RuntimeMode::Auto,
            RuntimeMode::Auto => RuntimeMode::AcceptEdits,
            RuntimeMode::AcceptEdits => RuntimeMode::Build,
        }
    }

    pub fn is_plan(self) -> (plan: bool)
        ensures
            plan == (self == RuntimeMode::Plan),
    {
        matches!(self, RuntimeMode::Plan)
    }

    pub fn is_auto(self) -> (auto_mode: bool)
        ensures
            auto_mode == (self == RuntimeMode::Auto),
    {
        matches!(self, RuntimeMode::Auto)
    }

    pub fn is_accept_edits(self) -> (accepts: bool)
        ensures
            accepts == (self == RuntimeMode::AcceptEdits),
    {
        matches!(self, RuntimeMode::AcceptEdits)
    }

    /// The three switches `(plan, auto, accept_edits)` that the mode stands for.
    pub fn to_flags(self) -> (flags: (bool, bool, bool))
        ensures
            flags == (
                self == RuntimeMode::Plan,
                self == RuntimeMode::Auto,
                self == RuntimeMode::AcceptEdits,
            ),
    {
        match self {
            RuntimeMode::Build => (false, false, false),
            RuntimeMode::AcceptEdits => (false, false, true),
            RuntimeMode::Auto => (false, true, false),
            RuntimeMode::Plan => (true, false, false),
        }
    }

    pub fn wire(self) -> (name: &'static str)
        ensures
            name@ == self.wire_name(),
    {
        match self {
            RuntimeMode::Build => "build",
            RuntimeMode::AcceptEdits => "accept_edits",
            RuntimeMode::Auto => "bypass",
            RuntimeMode::Plan => "plan",
        }
    }

    pub fn label(self) -> (name: &'static str)
        ensures
            name@ == self.label_name(),
    {
        match self {
            RuntimeMode::Build => "Build",
            RuntimeMode::AcceptEdits => "AcceptEdits",
            RuntimeMode::Auto => "Auto",
            RuntimeMode::Plan => "Plan",
        }
    }
}

/// A mode is determined by its place in the cycle, so stepping forward and back
/// (in either order) returns to it, and four steps forward do too.
pub proof fn mode_cycle(mode: RuntimeMode, forward: RuntimeMode, back: RuntimeMode)
    requires
        forward.rank() == (mode.rank() + 1) % 4,
        back.rank() == (mode.rank() + 3) % 4,
    ensures
        forall|m: RuntimeMode| m.rank() == (forward.rank() + 3) % 4 ==> m == mode,
        forall|m: RuntimeMode| m.rank() == (back.rank() + 1) % 4 ==> m == mode,
        forall|m: RuntimeMode| m.rank() == (mode.rank() + 4) % 4 ==> m == mode,
{
}

/// No two modes share a wire name or a label.
pub proof fn mode_names_are_distinct(left: RuntimeMode, right: RuntimeMode)
    ensures
        left.wire_name() == right.wire_name() <==> left == right,
        left.label_name() == right.label_name() <==> left == right,
{
    reveal_strlit("build");
    reveal_strlit("accept_edits");
    reveal_strlit("bypass");
    reveal_strlit("plan");
    reveal_strlit("Build");
    reveal_strlit("AcceptEdits");
    reveal_strlit("Auto");
    reveal_strlit("Plan");
    assert("build"@.len() == 5 && "accept_edits"@.len() == 12);
    assert("bypass"@.len() == 6 && "plan"@.len() == 4);
    assert("Build"@.len() == 5 && "AcceptEdits"@.len() == 11);
    assert("Auto"@[0] == 'A' && "Auto"@.len() == 4);
    assert("Plan"@[0] == 'P' && "Plan"@.len() == 4);
}

/// What a rewind takes back.
#[derive(Clone, Copy, Debug, PartialEq, Eq, Structural)]
pub enum RewindScope {
    Conversation,
    Code,
    ConversationAndCode,
}

impl RewindScope {
    pub fn restores_conversation(self) -> (yes: bool)
        ensures
            yes == (self != RewindScope::Code),
    {
        matches!(self, RewindScope::Conversation | RewindScope::ConversationAndCode)
    }

    pub fn restores_code(self) -> (yes: bool)
        ensures
            yes == (self != RewindScope::Conversation),
    {
        matches!(self, RewindScope::Code | RewindScope::ConversationAndCode)
    }
}

} // verus!
