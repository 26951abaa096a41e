//! A reminder that makes a weak model look for a matching skill before it does anything
//! else. It is given once, on the opening turn.
use crate::conversation::{
    message_views, prompt_count, prompt_count_grows, Message, MessageView, Role,
};
use vstd::prelude::*;

verus! {

/// Gives the reminder, where it is enabled.
#[derive(Clone, Copy, Debug, PartialEq, Eq, Structural)]
pub struct SkillFirstHook {
    pub enabled: bool,
}

impl SkillFirstHook {
    /// Enabled for a model that needs firm steering, where there are skills to use.
    pub fn new(needs_firm_execution: bool, has_skills: bool) -> (hook: Self)
        ensures
            hook.enabled == (has_skills && needs_firm_execution),
    {
        SkillFirstHook { enabled: has_skills && needs_firm_execution }
    }

    pub open spec fn text() -> Seq<char> {
        "Before you explore the codebase, plan, or propose a solution: check the \"=== AVAILABLE SKILLS ===\" catalog above. If this request matches a skill's description shown in that catalog, you MUST call `use_skill` with that exact listed name NOW and let it drive. Never infer a skill name merely from the task type. If no listed description matches, proceed normally without `use_skill`."@
    }

    /// The body of the reminder.
    pub fn body() -> (body: &'static str)
        ensures
            body@ == SkillFirstHook::text(),
    {
        "Before you explore the codebase, plan, or propose a solution: check the \"=== AVAILABLE SKILLS ===\" catalog above. If this request matches a skill's description shown in that catalog, you MUST call `use_skill` with that exact listed name NOW and let it drive. Never infer a skill name merely from the task type. If no listed description matches, proceed normally without `use_skill`."
    }

    /// The body of the reminder that goes above the user's query, if one does: only on the
    /// opening turn, when the conversation holds a single prompt and no answer yet.
    pub fn turn_start(&self, messages: &Vec<Message>) -> (reminder: Option<&'static str>)
        ensures
            reminder is Some <==> self.enabled && is_opening(message_views(messages@)),
            reminder matches Some(body) ==> body@ == SkillFirstHook::text(),
    {
        if !self.enabled {
            return None;
        }
        if crate::undo::count_prompts(messages) != 1 || holds_answer(messages) {
            return None;
        }
        Some(SkillFirstHook::body())
    }
}

/// Whether the conversation is at its opening turn: one prompt, and nothing answered yet.
pub open spec fn is_opening(messages: Seq<MessageView>) -> bool {
    &&& prompt_count(messages) == 1
    &&& forall|i: int| 0 <= i < messages.len() ==> (#[trigger] messages[i]).role != Role::Assistant
}

fn holds_answer(messages: &Vec<Message>) -> (holds: bool)
    ensures
        holds == exists|i: int|
            0 <= i < messages@.len() && (#[trigger] message_views(messages@)[i]).role
                == Role::Assistant,
{
    let mut i: usize = 0;
    while i < messages.len()
        invariant
            0 <= i <= messages.len(),
            forall|j: int|
                0 <= j < i ==> (#[trigger] message_views(messages@)[j]).role != Role::Assistant,
        decreases messages.len() - i,
    {
        assert(message_views(messages@)[i as int] == messages@[i as int]@);
        if messages[i].role == Role::Assistant {
            return true;
        }
        i = i + 1;
    }
    false
}

/// The reminder is given on the opening turn alone: once the conversation holds an answer or
/// another prompt, it never comes again, whatever follows.
pub proof fn only_the_opening_turn_is_reminded(
    messages: Seq<MessageView>,
    next: MessageView,
    later: Seq<MessageView>,
)
    requires
        prompt_count(messages) >= 1,
        next.is_prompt() || next.role == Role::Assistant,
    ensures
        !is_opening(messages.push(next) + later),
{
    let all = messages.push(next) + later;
    let n = messages.len() as int;
    assert(all[n] == next);
    if next.is_prompt() {
        assert(messages.push(next).drop_last() =~= messages);
        assert(all.take(n + 1) =~= messages.push(next));
        assert(all.take(all.len() as int) =~= all);
        prompt_count_grows(all, n + 1, all.len() as int);
    }
}

} // verus!
