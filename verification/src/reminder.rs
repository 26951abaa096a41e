//! Reminders above the user's query: stored with the conversation, directly above the last
//! prompt, and each kind only once.
use crate::conversation::{message_views, Message, MessageView, Role};
use crate::skill_first::{is_opening, SkillFirstHook};
use crate::text::occurs;
use crate::todo::{
    all_completed, current_real_user_start, everything_done, is_eager_todo_reminder, is_nudge,
    is_todo_list_reminder, list_reminders_are_recognised, nudges_are_recognised, reminder_text,
    the_turn_starts_at_the_last_prompt, turn_start_of, TodoEagerHook, TodoEagerness, TodoHook,
    TodoItem,
};
use vstd::prelude::*;

verus! {

/// The reminders that are looked for before one is added.
#[derive(Clone, Copy, Debug, PartialEq, Eq, Structural)]
pub enum ReminderKind {
    /// Asks for a task list.
    Nudge,
    /// Repeats the task list.
    TaskList,
}

impl ReminderKind {
    pub open spec fn recognises(self, text: Seq<char>) -> bool {
        match self {
            ReminderKind::Nudge => is_nudge(text),
            ReminderKind::TaskList => occurs("Current task list"@, text),
        }
    }

    fn holds(self, text: &str) -> (holds: bool)
        ensures
            holds == self.recognises(text@),
    {
        match self {
            ReminderKind::Nudge => is_eager_todo_reminder(text),
            ReminderKind::TaskList => is_todo_list_reminder(text),
        }
    }
}

/// Whether the conversation holds a prompt.
pub open spec fn is_asked(messages: Seq<MessageView>) -> bool {
    messages.len() > 0 && messages[turn_start_of(messages)].is_prompt()
}

/// Whether the message was injected in the user's name.
pub open spec fn is_injected(message: MessageView) -> bool {
    message.role == Role::User && message.synthetic
}

/// Whether a reminder of the kind stands above the last prompt: among the injected messages
/// that lead up to it without a break.
pub open spec fn is_reminded(messages: Seq<MessageView>, kind: ReminderKind) -> bool {
    exists|i: int|
        0 <= i < turn_start_of(messages) && kind.recognises((#[trigger] messages[i]).text) && (
        forall|j: int| i <= j < turn_start_of(messages) ==> is_injected(#[trigger] messages[j]))
}

/// The conversation with the reminder directly above the last prompt.
pub open spec fn with_reminder(messages: Seq<MessageView>, text: Seq<char>) -> Seq<MessageView> {
    messages.insert(turn_start_of(messages), MessageView::plain(Role::User, text, true))
}

fn find_reminder(messages: &Vec<Message>, kind: ReminderKind) -> (found: bool)
    ensures
        found == is_reminded(message_views(messages@), kind),
{
    let ghost views = message_views(messages@);
    let start: usize = current_real_user_start(messages);
    let mut i: usize = start;
    while i > 0
        invariant
            0 <= i <= start <= messages.len(),
            views == message_views(messages@),
            start == turn_start_of(views),
            forall|j: int| i <= j < start ==> is_injected(#[trigger] views[j]),
            forall|j: int| i <= j < start ==> !kind.recognises((#[trigger] views[j]).text),
        decreases i,
    {
        let message = &messages[i - 1];
        assert(views[i - 1] == message@);
        if message.role != Role::User || !message.synthetic {
            assert forall|k: int| 0 <= k < start && kind.recognises((#[trigger] views[k]).text)
                implies !(forall|j: int| k <= j < start ==> is_injected(#[trigger] views[j])) by {
                assert(k <= i - 1 && !is_injected(views[i - 1]));
            }
            return false;
        }
        if kind.holds(message.text.as_str()) {
            assert(kind.recognises(views[i - 1].text));
            return true;
        }
        i = i - 1;
    }
    false
}

fn place_reminder(messages: &mut Vec<Message>, text: String)
    ensures
        message_views(final(messages)@) == with_reminder(message_views(old(messages)@), text@),
{
    let start: usize = current_real_user_start(messages);
    let reminder = Message::synthetic_user(text);
    messages.insert(start, reminder);
    assert(message_views(messages@) =~= with_reminder(message_views(old(messages)@), text@));
}

/// A reminder above the prompt leaves the prompt the last one, one place further on.
proof fn reminders_move_the_prompt(messages: Seq<MessageView>, text: Seq<char>)
    requires
        is_asked(messages),
    ensures
        turn_start_of(with_reminder(messages, text)) == turn_start_of(messages) + 1,
        is_asked(with_reminder(messages, text)),
{
    let start = turn_start_of(messages);
    let after = with_reminder(messages, text);
    the_turn_starts_at_the_last_prompt(messages);
    the_turn_starts_at_the_last_prompt(after);
    assert(after[start + 1] == messages[start]);
    let found = turn_start_of(after);
    if found > start + 1 {
        assert(after[found] == messages[found - 1]);
    }
}

/// A reminder that was placed is found.
proof fn placed_reminders_are_found(messages: Seq<MessageView>, text: Seq<char>, kind: ReminderKind)
    requires
        is_asked(messages),
        kind.recognises(text),
    ensures
        is_reminded(with_reminder(messages, text), kind),
{
    let start = turn_start_of(messages);
    let after = with_reminder(messages, text);
    the_turn_starts_at_the_last_prompt(messages);
    reminders_move_the_prompt(messages, text);
    assert(after[start] == MessageView::plain(Role::User, text, true));
    assert(kind.recognises(after[start].text));
}

impl TodoEagerHook {
    /// The conversation after a turn started: with the nudge, unless it is not wanted or is
    /// already there. `stored` is the nudge as it is stored.
    pub open spec fn started(
        self,
        messages: Seq<MessageView>,
        todos: Seq<TodoItem>,
        stored: Seq<char>,
    ) -> Seq<MessageView> {
        if self.eagerness == TodoEagerness::Auto || !all_completed(todos) || is_reminded(
            messages,
            ReminderKind::Nudge,
        ) {
            messages
        } else {
            with_reminder(messages, stored)
        }
    }

    /// A turn starts: the nudge goes directly above the last prompt. `stored` is the nudge as
    /// it is stored, with what is put around its text. Nothing is said of a conversation
    /// without a prompt, in which no turn starts.
    pub fn start(&self, messages: &mut Vec<Message>, todos: &Vec<TodoItem>, stored: String)
        requires
            is_asked(message_views(old(messages)@)),
            occurs(self.text(), stored@),
        ensures
            message_views(final(messages)@) == self.started(
                message_views(old(messages)@),
                todos@,
                stored@,
            ),
    {
        if self.eagerness == TodoEagerness::Auto || !everything_done(todos) || find_reminder(
            messages,
            ReminderKind::Nudge,
        ) {
            return ;
        }
        place_reminder(messages, stored);
    }
}

/// Starting a turn twice adds nothing the second time. The first start adds at most one
/// message, injected in the user's name directly above the last prompt, and none where no
/// nudge is wanted.
pub proof fn a_second_start_adds_no_nudge(
    hook: TodoEagerHook,
    messages: Seq<MessageView>,
    todos: Seq<TodoItem>,
    stored: Seq<char>,
)
    requires
        is_asked(messages),
        occurs(hook.text(), stored),
    ensures
        ({
            let once = hook.started(messages, todos, stored);
            &&& hook.started(once, todos, stored) == once
            &&& is_asked(once)
            &&& once == messages || once == with_reminder(messages, stored)
            &&& hook.eagerness == TodoEagerness::Auto || !all_completed(todos) ==> once == messages
        }),
{
    nudges_are_recognised(hook, stored);
    placed_reminders_are_found(messages, stored, ReminderKind::Nudge);
    reminders_move_the_prompt(messages, stored);
}

impl TodoHook {
    /// The conversation after a turn started: with the task list, unless it is empty or
    /// already there.
    pub open spec fn started(
        self,
        messages: Seq<MessageView>,
        todos: Seq<TodoItem>,
        stored: Seq<char>,
    ) -> Seq<MessageView> {
        if todos.len() == 0 || is_reminded(messages, ReminderKind::TaskList) {
            messages
        } else {
            with_reminder(messages, stored)
        }
    }

    /// A turn starts: the reminder of the task list goes directly above the last prompt.
    /// `stored` is the reminder as it is stored, with what is put around its text. Nothing is
    /// said of a conversation without a prompt, in which no turn starts.
    pub fn start(&self, messages: &mut Vec<Message>, todos: &Vec<TodoItem>, rendered: &str, stored: String)
        requires
            is_asked(message_views(old(messages)@)),
            occurs(reminder_text(todos@, rendered@), stored@),
        ensures
            message_views(final(messages)@) == self.started(
                message_views(old(messages)@),
                todos@,
                stored@,
            ),
    {
        if todos.len() == 0 || find_reminder(messages, ReminderKind::TaskList) {
            return ;
        }
        place_reminder(messages, stored);
    }
}

/// Starting a turn twice repeats the task list once.
pub proof fn a_second_start_adds_no_list(
    hook: TodoHook,
    messages: Seq<MessageView>,
    todos: Seq<TodoItem>,
    rendered: Seq<char>,
    stored: Seq<char>,
)
    requires
        is_asked(messages),
        occurs(reminder_text(todos, rendered), stored),
    ensures
        ({
            let once = hook.started(messages, todos, stored);
            &&& hook.started(once, todos, stored) == once
            &&& once == messages || once == with_reminder(messages, stored)
            &&& todos.len() == 0 ==> once == messages
        }),
{
    list_reminders_are_recognised(todos, rendered, stored);
    placed_reminders_are_found(messages, stored, ReminderKind::TaskList);
}

impl SkillFirstHook {
    /// A turn starts: on the opening turn the reminder goes directly above the prompt.
    /// `stored` is the reminder as it is stored, with what is put around its text.
    pub fn start(&self, messages: &mut Vec<Message>, stored: String)
        ensures
            message_views(final(messages)@) == if self.enabled && is_opening(
                message_views(old(messages)@),
            ) {
                with_reminder(message_views(old(messages)@), stored@)
            } else {
                message_views(old(messages)@)
            },
    {
        if self.turn_start(messages).is_some() {
            place_reminder(messages, stored);
        }
    }
}

/// Whether the conversation holds a prompt.
pub fn holds_prompt(messages: &Vec<Message>) -> (asked: bool)
    ensures
        asked == is_asked(message_views(messages@)),
{
    let start: usize = current_real_user_start(messages);
    proof {
        the_turn_starts_at_the_last_prompt(message_views(messages@));
    }
    if start < messages.len() {
        assert(message_views(messages@)[start as int] == messages@[start as int]@);
        messages[start].is_prompt()
    } else {
        false
    }
}

} // verus!
