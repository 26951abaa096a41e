//! Reminders about the task list: when a model is asked to make one, what it is told of the
//! one it has, and when it is held back from stopping with tasks open.
use crate::conversation::{message_views, Message, MessageView, Role};
use crate::text::{
    ascii_lowercase, ascii_lowercased, chars_of, contains, decimal, decimal_text, join2, join3,
    occurs, occurs_here, occurs_inside, same_text, starts_with, trim_front, without_front, TrimSet,
};
use vstd::prelude::*;
use vstd::string::*;

verus! {

#[derive(Clone, Copy, Debug, PartialEq, Eq, Structural)]
pub enum TodoStatus {
    Pending,
    InProgress,
    Completed,
}

/// One task of the list.
#[derive(Clone, Debug, PartialEq, Eq)]
pub struct TodoItem {
    pub content: String,
    pub status: TodoStatus,
}

/// How eagerly a model is asked to make a task list.
#[derive(Clone, Copy, Debug, PartialEq, Eq, Structural)]
pub enum TodoEagerness {
    Auto,
    Preferred,
    Always,
}

/// Whether every task of the list is done.
pub open spec fn all_completed(todos: Seq<TodoItem>) -> bool {
    forall|i: int| 0 <= i < todos.len() ==> (#[trigger] todos[i]).status == TodoStatus::Completed
}

pub(crate) fn everything_done(todos: &Vec<TodoItem>) -> (done: bool)
    ensures
        done == all_completed(todos@),
{
    let mut i: usize = 0;
    while i < todos.len()
        invariant
            0 <= i <= todos.len(),
            forall|j: int| 0 <= j < i ==> (#[trigger] todos@[j]).status == TodoStatus::Completed,
        decreases todos.len() - i,
    {
        if todos[i].status != TodoStatus::Completed {
            assert(todos@[i as int].status != TodoStatus::Completed);
            return false;
        }
        i = i + 1;
    }
    true
}

/// Model name with its letters in lower case and its separators made alike.
pub open spec fn normalized(model: Seq<char>) -> Seq<char> {
    ascii_lowercase(model).map_values(
        |c: char|
            if c == '_' || c == ' ' {
                '-'
            } else {
                c
            },
    )
}

fn normalize(model: &str) -> (name: String)
    ensures
        name@ == normalized(model@),
{
    let lower = ascii_lowercased(model);
    let chars = chars_of(lower.as_str());
    let mut name = String::new();
    let mut i: usize = 0;
    while i < chars.len()
        invariant
            0 <= i <= chars.len(),
            chars@ == ascii_lowercase(model@),
            name@ == normalized(model@).take(i as int),
        decreases chars.len() - i,
    {
        let c: char = chars[i];
        name.push(
            if c == '_' || c == ' ' {
                '-'
            } else {
                c
            },
        );
        assert(name@ =~= normalized(model@).take(i + 1));
        i = i + 1;
    }
    assert(name@ =~= normalized(model@));
    name
}

/// Whether the model is one that plans too little by itself.
pub open spec fn is_hasty_model(model: Seq<char>) -> bool {
    let name = normalized(model);
    occurs("deepseek"@, name) && occurs("v4"@, name) && occurs("flash"@, name)
}

/// The eagerness in force: a hasty model is nudged where nothing else is configured, and a
/// provider that cannot be forced is asked instead.
pub open spec fn effective_eagerness(
    model: Seq<char>,
    provider_type: Seq<char>,
    configured: TodoEagerness,
) -> TodoEagerness {
    if configured == TodoEagerness::Auto && is_hasty_model(model) {
        TodoEagerness::Preferred
    } else if is_degraded(provider_type, configured) {
        TodoEagerness::Preferred
    } else {
        configured
    }
}

/// Whether a tool is to be forced by a provider that cannot.
pub open spec fn is_degraded(provider_type: Seq<char>, configured: TodoEagerness) -> bool {
    configured == TodoEagerness::Always && ascii_lowercase(provider_type) == ascii_lowercase(
        "ollama"@,
    )
}

/// What the user is told where the configured eagerness is not supported, if it is not.
pub fn degradation_notice(provider_type: &str, configured: TodoEagerness) -> (notice: Option<
    &'static str,
>)
    ensures
        notice is Some <==> is_degraded(provider_type@, configured),
        notice matches Some(text) ==> text@
            == "[todo] eager=always is unsupported by provider type ollama; using preferred"@,
{
    if configured == TodoEagerness::Always && same_text(
        ascii_lowercased(provider_type).as_str(),
        ascii_lowercased("ollama").as_str(),
    ) {
        Some("[todo] eager=always is unsupported by provider type ollama; using preferred")
    } else {
        None
    }
}

/// Asks for a task list on the first round of a turn, while there is none with open tasks.
#[derive(Clone, Copy, Debug, PartialEq, Eq, Structural)]
pub struct TodoEagerHook {
    pub eagerness: TodoEagerness,
}

impl TodoEagerHook {
    pub fn new(model: &str, provider_type: &str, configured: TodoEagerness) -> (hook: Self)
        ensures
            hook.eagerness == effective_eagerness(model@, provider_type@, configured),
    {
        let name = normalize(model);
        let mut eagerness = configured;
        if eagerness == TodoEagerness::Auto && contains(name.as_str(), "deepseek") && contains(
            name.as_str(),
            "v4",
        ) && contains(name.as_str(), "flash") {
            eagerness = TodoEagerness::Preferred;
        } else if degradation_notice(provider_type, configured).is_some() {
            eagerness = TodoEagerness::Preferred;
        }
        TodoEagerHook { eagerness }
    }

    /// Whether the model is to be asked for a list.
    pub fn should_nudge(&self, todos: &Vec<TodoItem>) -> (nudge: bool)
        ensures
            nudge == (self.eagerness != TodoEagerness::Auto && all_completed(todos@)),
    {
        self.eagerness != TodoEagerness::Auto && everything_done(todos)
    }

    /// Whether it is to be asked in this round.
    pub fn should_activate(&self, todos: &Vec<TodoItem>, round: u32) -> (activate: bool)
        ensures
            activate == (round == 1 && self.eagerness != TodoEagerness::Auto && all_completed(
                todos@,
            )),
    {
        round == 1 && self.should_nudge(todos)
    }

    pub open spec fn text(self) -> Seq<char> {
        if self.eagerness == TodoEagerness::Always {
            "You MUST call `todowrite` now, before any other tool or prose, to create the task list."@
        } else {
            "Before acting, decide whether this \
            task benefits from a todo list. If it has multiple requests, phases, files, \
            dependencies, ambiguity, or requires investigation plus changes, call `todowrite` \
            now. Skip it only for a genuinely simple one-step or purely informational request."@
        }
    }

    /// What the model is told.
    pub fn body(&self) -> (body: &'static str)
        ensures
            body@ == self.text(),
    {
        if self.eagerness == TodoEagerness::Always {
            "You MUST call `todowrite` now, before any other tool or prose, to create the task list."
        } else {
            "Before acting, decide whether this \
            task benefits from a todo list. If it has multiple requests, phases, files, \
            dependencies, ambiguity, or requires investigation plus changes, call `todowrite` \
            now. Skip it only for a genuinely simple one-step or purely informational request."
        }
    }

    /// The nudge that goes above the user's query when a turn starts, if one does. One that
    /// is already there is not repeated.
    pub fn turn_start(&self, todos: &Vec<TodoItem>, already_present: bool) -> (nudge: Option<
        &'static str,
    >)
        ensures
            nudge is Some <==> self.eagerness != TodoEagerness::Auto && all_completed(todos@)
                && !already_present,
            nudge matches Some(body) ==> body@ == self.text() && is_nudge(body@),
    {
        proof {
            nudges_are_recognised(*self, self.text());
        }
        if !self.should_nudge(todos) || already_present {
            return None;
        }
        Some(self.body())
    }

    /// The tool that the model is forced to call, if any.
    pub fn forced_tool(&self, todos: &Vec<TodoItem>, round: u32) -> (tool: Option<&'static str>)
        ensures
            tool is Some <==> self.eagerness == TodoEagerness::Always && round == 1
                && all_completed(todos@),
            tool matches Some(name) ==> name@ == "todowrite"@,
    {
        if self.eagerness == TodoEagerness::Always && self.should_activate(todos, round) {
            Some("todowrite")
        } else {
            None
        }
    }
}

/// Whether the text holds one of the two nudges.
pub open spec fn is_nudge(text: Seq<char>) -> bool {
    occurs("You MUST call `todowrite` now"@, text) || occurs(
        "whether this \
            task benefits from a todo list"@,
        text,
    )
}

/// Whether the text is one of the two nudges.
pub fn is_eager_todo_reminder(text: &str) -> (yes: bool)
    ensures
        yes == is_nudge(text@),
{
    contains(text, "You MUST call `todowrite` now") || contains(
        text,
        "whether this \
            task benefits from a todo list",
    )
}

/// A nudge is recognised as one, also where it stands inside a longer text. So a turn that
/// starts with the nudge in place gets no second one.
pub proof fn nudges_are_recognised(hook: TodoEagerHook, text: Seq<char>)
    requires
        text == hook.text() || occurs(hook.text(), text),
    ensures
        is_nudge(text),
{
    let body = hook.text();
    if text == body {
        assert(text.subrange(0, 0int + text.len()) =~= body);
        occurs_here(body, text, 0);
    }
    if hook.eagerness == TodoEagerness::Always {
        the_order_is_marked();
        occurs_inside("You MUST call `todowrite` now"@, body, text);
    } else {
        the_question_is_marked();
        occurs_inside(
            "whether this \
            task benefits from a todo list"@,
            body,
            text,
        );
    }
}

proof fn the_order_is_marked()
    ensures
        occurs(
            "You MUST call `todowrite` now"@,
            TodoEagerHook { eagerness: TodoEagerness::Always }.text(),
        ),
{
    let body = TodoEagerHook { eagerness: TodoEagerness::Always }.text();
    let mark = "You MUST call `todowrite` now"@;
    reveal_strlit("You MUST call `todowrite` now");
    reveal_strlit(
        "You MUST call `todowrite` now, before any other tool or prose, to create the task list.",
    );
    assert(body.subrange(0, 0int + mark.len()) =~= mark);
    occurs_here(mark, body, 0);
}

proof fn the_question_is_marked()
    ensures
        occurs(
            "whether this \
            task benefits from a todo list"@,
            TodoEagerHook { eagerness: TodoEagerness::Preferred }.text(),
        ),
{
    let body = TodoEagerHook { eagerness: TodoEagerness::Preferred }.text();
    let mark = "whether this \
            task benefits from a todo list"@;
    reveal_strlit(
        "whether this \
            task benefits from a todo list",
    );
    reveal_strlit(
        "Before acting, decide whether this \
            task benefits from a todo list. If it has multiple requests, phases, files, \
            dependencies, ambiguity, or requires investigation plus changes, call `todowrite` \
            now. Skip it only for a genuinely simple one-step or purely informational request.",
    );
    assert(body.subrange(22, 22int + mark.len()) =~= mark);
    occurs_here(mark, body, 22);
}

/// Whether the text is a reminder of the task list.
pub fn is_todo_list_reminder(text: &str) -> (yes: bool)
    ensures
        yes == occurs("Current task list"@, text@),
{
    contains(text, "Current task list")
}

/// Where the current turn starts: the last prompt, or the beginning.
pub open spec fn turn_start_of(messages: Seq<MessageView>) -> int
    decreases messages.len(),
{
    if messages.len() == 0 {
        0
    } else if messages.last().is_prompt() {
        messages.len() - 1
    } else {
        turn_start_of(messages.drop_last())
    }
}

/// The start of the current turn is in range, is a prompt or the beginning, and no prompt
/// comes after it.
pub proof fn the_turn_starts_at_the_last_prompt(messages: Seq<MessageView>)
    ensures
        ({
            let start = turn_start_of(messages);
            &&& 0 <= start <= messages.len()
            &&& messages.len() > 0 ==> start < messages.len()
            &&& start > 0 ==> messages[start].is_prompt()
            &&& forall|i: int| start < i < messages.len() ==> !(#[trigger] messages[i]).is_prompt()
        }),
    decreases messages.len(),
{
    if messages.len() > 0 && !messages.last().is_prompt() {
        let front = messages.drop_last();
        the_turn_starts_at_the_last_prompt(front);
        let start = turn_start_of(messages);
        if start > 0 {
            assert(front[start] == messages[start]);
        }
        assert forall|i: int| start < i < messages.len() implies !(
        #[trigger] messages[i]).is_prompt() by {
            if i < messages.len() - 1 {
                assert(front[i] == messages[i]);
            }
        }
    }
}

pub fn current_real_user_start(messages: &Vec<Message>) -> (start: usize)
    ensures
        start == turn_start_of(message_views(messages@)),
        start <= messages.len(),
{
    let ghost views = message_views(messages@);
    let mut i: usize = messages.len();
    assert(views.take(i as int) =~= views);
    while i > 0
        invariant
            0 <= i <= messages.len(),
            views == message_views(messages@),
            turn_start_of(views) == turn_start_of(views.take(i as int)),
        decreases i,
    {
        let ghost head = views.take(i as int);
        proof {
            assert(head.last() == messages@[i - 1]@);
            assert(head.drop_last() =~= views.take(i - 1));
        }
        if messages[i - 1].is_prompt() {
            return i - 1;
        }
        i = i - 1;
    }
    0
}

/// What a model is told when it stops with tasks open.
pub open spec fn completion_nudge() -> Seq<char> {
    "Before you finish: the task list still has open items. If you have actually completed them, mark each one done now with `todowrite` (`{\"action\":\"update\",\"id\":<id>,\"status\":\"completed\"}`). If some are NOT done, keep working through them. Only stop with open items if you genuinely need approval/input, are stuck, or the request is ambiguous — in that case say so briefly."@
}

/// The nudge as text.
pub fn todo_completion_nudge() -> (nudge: &'static str)
    ensures
        nudge@ == completion_nudge(),
{
    "Before you finish: the task list still has open items. If you have actually completed them, mark each one done now with `todowrite` (`{\"action\":\"update\",\"id\":<id>,\"status\":\"completed\"}`). If some are NOT done, keep working through them. Only stop with open items if you genuinely need approval/input, are stuck, or the request is ambiguous — in that case say so briefly."
}

/// Whether the message is that nudge.
pub open spec fn is_completion_nudge(message: MessageView) -> bool {
    &&& message.role == Role::User
    &&& message.synthetic
    &&& completion_nudge().is_prefix_of(trim_front(message.text, |c: char| TrimSet::Space.has(c)))
}

/// Whether the message touches the task list.
pub open spec fn manages_todos(message: MessageView) -> bool {
    exists|i: int|
        0 <= i < message.tool_calls.len() && ((#[trigger] message.tool_calls[i]).name == "todo"@
            || message.tool_calls[i].name == "todowrite"@)
}

/// Whether the model was nudged in the current turn.
pub open spec fn nudged_this_turn(messages: Seq<MessageView>) -> bool {
    exists|i: int|
        turn_start_of(messages) <= i < messages.len() && is_completion_nudge(#[trigger] messages[i])
}

/// Whether the model touched the task list in the current turn.
pub open spec fn managed_this_turn(messages: Seq<MessageView>) -> bool {
    exists|i: int|
        turn_start_of(messages) <= i < messages.len() && manages_todos(#[trigger] messages[i])
}

fn message_is_nudge(message: &Message) -> (yes: bool)
    ensures
        yes == is_completion_nudge(message@),
{
    message.role == Role::User && message.synthetic && starts_with(
        without_front(message.text.as_str(), TrimSet::Space).as_str(),
        todo_completion_nudge(),
    )
}

fn message_manages(message: &Message) -> (yes: bool)
    ensures
        yes == manages_todos(message@),
{
    let mut i: usize = 0;
    while i < message.tool_calls.len()
        invariant
            0 <= i <= message.tool_calls.len(),
            forall|j: int|
                0 <= j < i ==> (#[trigger] message@.tool_calls[j]).name != "todo"@
                    && message@.tool_calls[j].name != "todowrite"@,
        decreases message.tool_calls.len() - i,
    {
        assert(message@.tool_calls[i as int] == message.tool_calls@[i as int]@);
        if same_text(message.tool_calls[i].name.as_str(), "todo") || same_text(
            message.tool_calls[i].name.as_str(),
            "todowrite",
        ) {
            return true;
        }
        i = i + 1;
    }
    false
}

/// Whether the completion nudge was already given in the current turn.
pub fn completion_nudge_already_present(messages: &Vec<Message>) -> (yes: bool)
    ensures
        yes == nudged_this_turn(message_views(messages@)),
{
    let ghost views = message_views(messages@);
    let start: usize = current_real_user_start(messages);
    let mut i: usize = start;
    while i < messages.len()
        invariant
            start <= i <= messages.len(),
            views == message_views(messages@),
            start == turn_start_of(views),
            forall|j: int| start <= j < i ==> !is_completion_nudge(#[trigger] views[j]),
        decreases messages.len() - i,
    {
        assert(views[i as int] == messages@[i as int]@);
        if message_is_nudge(&messages[i]) {
            return true;
        }
        i = i + 1;
    }
    false
}

/// Whether the model touched the task list in the current turn.
pub fn managed_todos_this_turn(messages: &Vec<Message>) -> (yes: bool)
    ensures
        yes == managed_this_turn(message_views(messages@)),
{
    let ghost views = message_views(messages@);
    let start: usize = current_real_user_start(messages);
    let mut i: usize = start;
    while i < messages.len()
        invariant
            start <= i <= messages.len(),
            views == message_views(messages@),
            start == turn_start_of(views),
            forall|j: int| start <= j < i ==> !manages_todos(#[trigger] views[j]),
        decreases messages.len() - i,
    {
        assert(views[i as int] == messages@[i as int]@);
        if message_manages(&messages[i]) {
            return true;
        }
        i = i + 1;
    }
    false
}

/// Place of the first task with the status, or the number of tasks.
pub open spec fn first_with(todos: Seq<TodoItem>, status: TodoStatus) -> int
    decreases todos.len(),
{
    if todos.len() == 0 {
        0
    } else if todos[0].status == status {
        0
    } else {
        1 + first_with(todos.drop_first(), status)
    }
}

proof fn first_with_found(todos: Seq<TodoItem>, status: TodoStatus, i: int)
    requires
        0 <= i <= todos.len(),
        forall|j: int| 0 <= j < i ==> (#[trigger] todos[j]).status != status,
        i < todos.len() ==> todos[i].status == status,
    ensures
        first_with(todos, status) == i,
    decreases todos.len(),
{
    if i > 0 {
        let rest = todos.drop_first();
        assert(todos[0].status != status);
        assert forall|j: int| 0 <= j < i - 1 implies (#[trigger] rest[j]).status != status by {
            assert(rest[j] == todos[j + 1]);
        }
        first_with_found(rest, status, i - 1);
    }
}

fn find_status(todos: &Vec<TodoItem>, status: TodoStatus) -> (place: usize)
    ensures
        place == first_with(todos@, status),
        place <= todos@.len(),
{
    let mut i: usize = 0;
    while i < todos.len()
        invariant
            0 <= i <= todos.len(),
            forall|j: int| 0 <= j < i ==> (#[trigger] todos@[j]).status != status,
        decreases todos.len() - i,
    {
        if todos[i].status == status {
            proof {
                first_with_found(todos@, status, i as int);
            }
            return i;
        }
        i = i + 1;
    }
    proof {
        first_with_found(todos@, status, i as int);
    }
    i
}

/// What a model is told of the task it is on. `number` counts from one.
pub open spec fn anchor_of(number: nat, content: Seq<char>) -> Seq<char> {
    ">> You are currently ON task #"@ + decimal(number) + " \""@ + content
        + "\". Before your NEXT action, reconcile: if it is actually DONE, mark it completed now (`{\"action\":\"update\",\"id\":"@
        + decimal(number)
        + ",\"status\":\"completed\"}`); if you have moved on to a DIFFERENT task, switch in_progress to THAT id FIRST. Do not leave in_progress pointing at a task you are no longer working on."@
}

/// What it is told where tasks are open and none is marked as being worked on.
pub open spec fn unmarked_text() -> Seq<char> {
    ">> NOTHING is in_progress but tasks remain. Before you act, mark the task you are actually working on as in_progress (`{\"action\":\"update\",\"id\":<id>,\"status\":\"in_progress\"}`)."@
}

/// The line that points a model at the task it is on, if there is anything to point at.
pub open spec fn anchor_text(todos: Seq<TodoItem>) -> Option<Seq<char>> {
    let current = first_with(todos, TodoStatus::InProgress);
    if current < todos.len() {
        Some(anchor_of((current + 1) as nat, todos[current].content@))
    } else if first_with(todos, TodoStatus::Pending) < todos.len() {
        Some(unmarked_text())
    } else {
        None
    }
}

pub fn todo_anchor_line(todos: &Vec<TodoItem>) -> (line: Option<String>)
    ensures
        crate::text::opt_text(line) == anchor_text(todos@),
{
    let current: usize = find_status(todos, TodoStatus::InProgress);
    if current < todos.len() {
        let number = decimal_text(current as u64 + 1);
        let mut line = join3(">> You are currently ON task #", number.as_str(), " \"");
        line.append(todos[current].content.as_str());
        line.append(
            "\". Before your NEXT action, reconcile: if it is actually DONE, mark it completed now (`{\"action\":\"update\",\"id\":",
        );
        line.append(number.as_str());
        line.append(
            ",\"status\":\"completed\"}`); if you have moved on to a DIFFERENT task, switch in_progress to THAT id FIRST. Do not leave in_progress pointing at a task you are no longer working on.",
        );
        return Some(line);
    }
    if find_status(todos, TodoStatus::Pending) < todos.len() {
        return Some(
            ">> NOTHING is in_progress but tasks remain. Before you act, mark the task you are actually working on as in_progress (`{\"action\":\"update\",\"id\":<id>,\"status\":\"in_progress\"}`).".to_owned(),
        );
    }
    None
}

/// The rules that stand above the task list.
pub open spec fn list_rules() -> Seq<char> {
    "Current task list (each line is `#<id> <task>`) — keep it accurate and finish it:\n- The MOMENT you START or FINISH items: one `todowrite` with `actions` covering every status change you already know (e.g. complete #1 and set #2 `in_progress` in the SAME array).\n- Skip `todowrite` this turn if the list already matches reality. Never re-mark an item already in that status.\n- First plan / replace a plan: `actions` of `add`s (plus `clear` first if replacing). Do NOT resend a full `todos` list.\n- Do NOT stop, summarize, or hand back while ANY item is still pending or in_progress — keep working through them, unless you truly need approval, are genuinely stuck, or the request is ambiguous.\n"@
}

/// The reminder of the task list: the anchor, if there is one, the rules, and the list as it
/// is rendered.
pub open spec fn reminder_text(todos: Seq<TodoItem>, rendered: Seq<char>) -> Seq<char> {
    match anchor_text(todos) {
        Some(anchor) => anchor + "\n\n"@ + list_rules() + rendered,
        None => list_rules() + rendered,
    }
}

pub fn todo_reminder_body(todos: &Vec<TodoItem>, rendered: &str) -> (body: String)
    ensures
        body@ == reminder_text(todos@, rendered@),
{
    let rules = "Current task list (each line is `#<id> <task>`) — keep it accurate and finish it:\n- The MOMENT you START or FINISH items: one `todowrite` with `actions` covering every status change you already know (e.g. complete #1 and set #2 `in_progress` in the SAME array).\n- Skip `todowrite` this turn if the list already matches reality. Never re-mark an item already in that status.\n- First plan / replace a plan: `actions` of `add`s (plus `clear` first if replacing). Do NOT resend a full `todos` list.\n- Do NOT stop, summarize, or hand back while ANY item is still pending or in_progress — keep working through them, unless you truly need approval, are genuinely stuck, or the request is ambiguous.\n";
    match todo_anchor_line(todos) {
        Some(anchor) => {
            let mut body = join3(anchor.as_str(), "\n\n", rules);
            body.append(rendered);
            body
        },
        None => join2(rules, rendered),
    }
}

/// Reminds a model of its task list.
#[derive(Clone, Copy, Debug, PartialEq, Eq, Structural)]
pub struct TodoHook;

impl TodoHook {
    pub fn new() -> (hook: Self)
        ensures
            hook == TodoHook,
    {
        TodoHook
    }

    /// The reminder that goes above the user's query when a turn starts, if one does: not
    /// for an empty list, and not where one is already there.
    pub fn turn_start(&self, todos: &Vec<TodoItem>, rendered: &str, already_present: bool) -> (reminder:
        Option<String>)
        ensures
            crate::text::opt_text(reminder) == if todos@.len() == 0 || already_present {
                None
            } else {
                Some(reminder_text(todos@, rendered@))
            },
    {
        if todos.len() == 0 || already_present {
            return None;
        }
        Some(todo_reminder_body(todos, rendered))
    }

    /// The model wants to stop. It is held back once in a turn, where tasks are open and it
    /// touched the list in this turn.
    pub fn offer_continuation(&self, messages: &Vec<Message>, todos: &Vec<TodoItem>) -> (nudge:
        Option<String>)
        ensures
            crate::text::opt_text(nudge) == if all_completed(todos@) || !managed_this_turn(
                message_views(messages@),
            ) || nudged_this_turn(message_views(messages@)) {
                None
            } else {
                Some(completion_nudge())
            },
    {
        if everything_done(todos) || !managed_todos_this_turn(messages)
            || completion_nudge_already_present(messages) {
            return None;
        }
        Some(todo_completion_nudge().to_owned())
    }
}

/// A model that was held back is not held back again in the same turn, whatever is said
/// next: the nudge is recognised, and only a new prompt starts a new turn.
pub proof fn a_model_is_held_back_once(
    messages: Seq<MessageView>,
    nudge: MessageView,
    later: Seq<MessageView>,
)
    requires
        is_completion_nudge(nudge),
        forall|i: int| 0 <= i < later.len() ==> !(#[trigger] later[i]).is_prompt(),
    ensures
        nudged_this_turn(messages.push(nudge) + later),
    decreases later.len(),
{
    let all = messages.push(nudge) + later;
    turn_start_stays(messages, nudge, later);
    the_turn_starts_at_the_last_prompt(messages);
    assert(all[messages.len() as int] == nudge);
    assert(is_completion_nudge(all[messages.len() as int]));
}

proof fn turn_start_stays(
    messages: Seq<MessageView>,
    nudge: MessageView,
    later: Seq<MessageView>,
)
    requires
        !nudge.is_prompt(),
        forall|i: int| 0 <= i < later.len() ==> !(#[trigger] later[i]).is_prompt(),
    ensures
        turn_start_of(messages.push(nudge) + later) == turn_start_of(messages),
    decreases later.len(),
{
    let all = messages.push(nudge) + later;
    if later.len() == 0 {
        assert(all.drop_last() =~= messages);
        assert(all.last() == nudge);
    } else {
        assert(all.drop_last() =~= messages.push(nudge) + later.drop_last());
        assert(all.last() == later[later.len() - 1]);
        turn_start_stays(messages, nudge, later.drop_last());
    }
}

proof fn list_rules_are_recognised()
    ensures
        list_rules().len() >= "Current task list"@.len(),
        list_rules().subrange(0, "Current task list"@.len() as int) == "Current task list"@,
{
    reveal_strlit("Current task list");
    reveal_strlit(
        "Current task list (each line is `#<id> <task>`) — keep it accurate and finish it:\n- The MOMENT you START or FINISH items: one `todowrite` with `actions` covering every status change you already know (e.g. complete #1 and set #2 `in_progress` in the SAME array).\n- Skip `todowrite` this turn if the list already matches reality. Never re-mark an item already in that status.\n- First plan / replace a plan: `actions` of `add`s (plus `clear` first if replacing). Do NOT resend a full `todos` list.\n- Do NOT stop, summarize, or hand back while ANY item is still pending or in_progress — keep working through them, unless you truly need approval, are genuinely stuck, or the request is ambiguous.\n",
    );
    assert(list_rules().subrange(0, "Current task list"@.len() as int) =~= "Current task list"@);
}

/// A reminder of the task list is recognised as one, also inside a longer text. So a turn
/// that starts with it in place gets no second one.
pub proof fn list_reminders_are_recognised(
    todos: Seq<TodoItem>,
    rendered: Seq<char>,
    text: Seq<char>,
)
    requires
        text == reminder_text(todos, rendered) || occurs(reminder_text(todos, rendered), text),
    ensures
        occurs("Current task list"@, text),
{
    let body = reminder_text(todos, rendered);
    let mark = "Current task list"@;
    if text == body {
        assert(text.subrange(0, 0int + text.len()) =~= body);
        occurs_here(body, text, 0);
    }
    reveal_strlit("Current task list");
    list_rules_are_recognised();
    let rules = list_rules();
    match anchor_text(todos) {
        Some(anchor) => {
            let n = (anchor + "\n\n"@).len() as int;
            assert(body.subrange(n, n + mark.len()) =~= rules.subrange(0, mark.len() as int));
            occurs_here(mark, body, n);
        },
        None => {
            assert(body.subrange(0, 0int + mark.len()) =~= rules.subrange(0, mark.len() as int));
            occurs_here(mark, body, 0);
        },
    }
    occurs_inside(mark, body, text);
}

} // verus!
