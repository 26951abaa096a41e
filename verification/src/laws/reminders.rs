//! What a model is reminded of, when, and where the reminder goes.
use crate::conversation::{message_views, prompt_count, Message, MessageView, Role};
use crate::laws::undoing::{asked, equal_views_are_same_messages, same_message};
use crate::reminder::{holds_prompt, is_asked, is_reminded, ReminderKind};
use crate::skill_first::SkillFirstHook;
use crate::text::{
    ascii_lowercased, contains, decimal, is_space, occurs, trim_front, TrimSet,
};
use crate::todo::{
    anchor_text, completion_nudge_already_present, current_real_user_start, degradation_notice,
    first_with, is_completion_nudge, is_eager_todo_reminder, is_todo_list_reminder,
    managed_todos_this_turn, manages_todos, normalized, the_turn_starts_at_the_last_prompt,
    todo_anchor_line, todo_completion_nudge, todo_reminder_body, turn_start_of, TodoEagerHook,
    TodoEagerness, TodoHook, TodoItem,
};
use vstd::prelude::*;
use vstd::string::*;

verus! {

/// Whether nothing of the list is left to do.
pub open spec fn is_done(todos: Seq<TodoItem>) -> bool {
    forall|i: int| 0 <= i < todos.len() ==> (#[trigger] todos[i]).status is Completed
}

/// A forced list is given up for a provider that cannot force a tool, and a hasty model is
/// asked for a list without being told to; else the model is asked as configured.
pub proof fn a_model_is_asked_as_configured(
    model: &str,
    provider_type: &str,
    configured: TodoEagerness,
    hook: TodoEagerHook,
    notice: Option<&'static str>,
    lower: String,
)
    requires
        call_ensures(TodoEagerHook::new, (model, provider_type, configured), hook),
        call_ensures(degradation_notice, (provider_type, configured), notice),
        call_ensures(ascii_lowercased, (provider_type,), lower),
    ensures
        configured is Preferred ==> hook.eagerness is Preferred,
        configured is Always && lower@ != "ollama"@ ==> hook.eagerness is Always,
        configured is Always && lower@ == "ollama"@ ==> hook.eagerness is Preferred,
        configured is Auto ==> !(hook.eagerness is Always),
        notice is Some <==> configured is Always && lower@ == "ollama"@,
        notice matches Some(text) ==> text@
            == "[todo] eager=always is unsupported by provider type ollama; using preferred"@,
{
    ollama_is_in_small_letters();
}

proof fn ollama_is_in_small_letters()
    ensures
        crate::text::ascii_lowercase("ollama"@) == "ollama"@,
{
    reveal_strlit("ollama");
    assert(crate::text::ascii_lowercase("ollama"@) =~= "ollama"@);
}

/// A model is hasty where its name, in small letters and with hyphens for blanks and
/// underscores, holds the family, the generation and the size, wherever they stand.
pub proof fn a_hasty_model_is_known_by_its_name(
    model: &str,
    provider_type: &str,
    lower: String,
    name: &str,
    family: bool,
    generation: bool,
    size: bool,
    hook: TodoEagerHook,
)
    requires
        call_ensures(TodoEagerHook::new, (model, provider_type, TodoEagerness::Auto), hook),
        call_ensures(ascii_lowercased, (model,), lower),
        name@.len() == lower@.len(),
        forall|i: int|
            0 <= i < lower@.len() ==> #[trigger] name@[i] == (if lower@[i] == '_' || lower@[i]
                == ' ' {
                '-'
            } else {
                lower@[i]
            }),
        call_ensures(contains, (name, "deepseek"), family),
        call_ensures(contains, (name, "v4"), generation),
        call_ensures(contains, (name, "flash"), size),
    ensures
        hook.eagerness is Preferred <==> family && generation && size,
        hook.eagerness is Auto <==> !(family && generation && size),
{
    assert(name@ =~= normalized(model@));
}

/// A list is asked for where the model is asked at all and nothing is left to do; it is forced
/// in the first round alone.
pub proof fn a_list_is_asked_for_where_nothing_is_left(
    hook: &TodoEagerHook,
    todos: &Vec<TodoItem>,
    round: u32,
    nudge: bool,
    activate: bool,
    tool: Option<&'static str>,
    body: &'static str,
    present: bool,
    given: Option<&'static str>,
    known: bool,
)
    requires
        call_ensures(TodoEagerHook::should_nudge, (hook, todos), nudge),
        call_ensures(TodoEagerHook::should_activate, (hook, todos, round), activate),
        call_ensures(TodoEagerHook::forced_tool, (hook, todos, round), tool),
        call_ensures(TodoEagerHook::body, (hook,), body),
        call_ensures(TodoEagerHook::turn_start, (hook, todos, present), given),
        call_ensures(is_eager_todo_reminder, (body,), known),
    ensures
        nudge <==> !(hook.eagerness is Auto) && is_done(todos@),
        activate <==> nudge && round == 1,
        tool is Some <==> hook.eagerness is Always && is_done(todos@) && round == 1,
        tool matches Some(name) ==> name@ == "todowrite"@,
        hook.eagerness is Always ==> body@
            == "You MUST call `todowrite` now, before any other tool or prose, to create the task list."@,
        !(hook.eagerness is Always) ==> body@
            == "Before acting, decide whether this \
            task benefits from a todo list. If it has multiple requests, phases, files, \
            dependencies, ambiguity, or requires investigation plus changes, call `todowrite` \
            now. Skip it only for a genuinely simple one-step or purely informational request."@,
        given is Some <==> nudge && !present,
        given matches Some(text) ==> text@ == body@,
        known,
{
    crate::todo::nudges_are_recognised(*hook, body@);
    assert(is_done(todos@) == crate::todo::all_completed(todos@));
}

/// Reminders are known by their own words.
pub proof fn reminders_are_known_by_their_words(
    text: &str,
    eager: bool,
    list: bool,
    forced: bool,
    asked_for: bool,
    listed: bool,
)
    requires
        call_ensures(is_eager_todo_reminder, (text,), eager),
        call_ensures(is_todo_list_reminder, (text,), list),
        call_ensures(contains, (text, "You MUST call `todowrite` now"), forced),
        call_ensures(
            contains,
            (
                text,
                "whether this \
            task benefits from a todo list",
            ),
            asked_for,
        ),
        call_ensures(contains, (text, "Current task list"), listed),
    ensures
        eager <==> forced || asked_for,
        list <==> listed,
{
}

/// The turn begins at the last prompt.
pub proof fn the_turn_begins_at_the_last_prompt(messages: &Vec<Message>, start: usize)
    requires
        call_ensures(current_real_user_start, (messages,), start),
    ensures
        forall|i: int| start < i < messages@.len() ==> !asked(#[trigger] messages@[i]),
        (exists|i: int| 0 <= i < messages@.len() && asked(#[trigger] messages@[i])) ==> start
            < messages@.len() && asked(messages@[start as int]),
        (forall|i: int| 0 <= i < messages@.len() ==> !asked(#[trigger] messages@[i])) ==> start
            == 0,
{
    the_last_prompt_is_found(messages@);
}

/// Whether the last prompt stands there.
pub open spec fn is_last_prompt(messages: Seq<Message>, at: int) -> bool {
    &&& 0 <= at < messages.len() && asked(messages[at])
    &&& forall|i: int| at < i < messages.len() ==> !asked(#[trigger] messages[i])
}

proof fn the_last_prompt_is_found(messages: Seq<Message>)
    ensures
        ({
            let start = turn_start_of(message_views(messages));
            &&& 0 <= start <= messages.len()
            &&& forall|i: int| start < i < messages.len() ==> !asked(#[trigger] messages[i])
            &&& (exists|i: int| 0 <= i < messages.len() && asked(#[trigger] messages[i])) ==> start
                < messages.len() && asked(messages[start])
            &&& (forall|i: int| 0 <= i < messages.len() ==> !asked(#[trigger] messages[i]))
                ==> start == 0
        }),
{
    let views = message_views(messages);
    let start = turn_start_of(views);
    the_turn_starts_at_the_last_prompt(views);
    assert(views.len() == messages.len());
    assert forall|i: int| start < i < messages.len() implies !asked(#[trigger] messages[i]) by {
        assert(!views[i].is_prompt());
        assert(views[i] == messages[i]@);
    }
    if messages.len() > 0 {
        assert(views[start] == messages[start]@);
        if exists|i: int| 0 <= i < messages.len() && asked(#[trigger] messages[i]) {
            let i = choose|i: int| 0 <= i < messages.len() && asked(#[trigger] messages[i]);
            if start == 0 && i > 0 {
                assert(!asked(messages[i]));
            }
        }
    }
}

/// Whether the message names a tool of the list.
pub open spec fn works_on_the_list(message: Message) -> bool {
    exists|i: int|
        0 <= i < message.tool_calls@.len() && ((#[trigger] message.tool_calls@[i]).name@
            == "todo"@ || message.tool_calls@[i].name@ == "todowrite"@)
}

/// Whether the message holds a model back, behind any white space.
pub open spec fn holds_back(message: Message) -> bool {
    &&& message.role is User && message.synthetic
    &&& exists|cut: int|
        0 <= cut <= message.text@.len() && (forall|i: int|
            0 <= i < cut ==> is_space(#[trigger] message.text@[i])) && held_back_words().is_prefix_of(
            #[trigger] message.text@.skip(cut),
        )
}

/// What a model is told that stops too early.
pub open spec fn held_back_words() -> Seq<char> {
    "Before you finish: the task list still has open items. If you have actually completed them, mark each one done now with `todowrite` (`{\"action\":\"update\",\"id\":<id>,\"status\":\"completed\"}`). If some are NOT done, keep working through them. Only stop with open items if you genuinely need approval/input, are stuck, or the request is ambiguous — in that case say so briefly."@
}

proof fn the_words_are_found_behind_white_space(text: Seq<char>)
    ensures
        held_back_words().is_prefix_of(trim_front(text, |c: char| TrimSet::Space.has(c)))
            <==> exists|cut: int|
            0 <= cut <= text.len() && (forall|i: int|
                0 <= i < cut ==> is_space(#[trigger] text[i])) && held_back_words().is_prefix_of(
                #[trigger] text.skip(cut),
            ),
{
    reveal_strlit("Before you finish: the task list still has open items. If you have actually completed them, mark each one done now with `todowrite` (`{\"action\":\"update\",\"id\":<id>,\"status\":\"completed\"}`). If some are NOT done, keep working through them. Only stop with open items if you genuinely need approval/input, are stuck, or the request is ambiguous — in that case say so briefly.");
    let set = |c: char| TrimSet::Space.has(c);
    let words = held_back_words();
    let cut = crate::laws::texts::the_front_is_trimmed(text, set);
    assert forall|i: int| 0 <= i < cut implies is_space(#[trigger] text[i]) by {
        assert(set(text.take(cut)[i]));
    }
    if exists|at: int|
        0 <= at <= text.len() && (forall|i: int| 0 <= i < at ==> is_space(#[trigger] text[i]))
            && words.is_prefix_of(#[trigger] text.skip(at)) {
        let at = choose|at: int|
            0 <= at <= text.len() && (forall|i: int| 0 <= i < at ==> is_space(#[trigger] text[i]))
                && words.is_prefix_of(#[trigger] text.skip(at));
        assert(text.skip(at).subrange(0, words.len() as int)[0] == words[0]);
        assert(text[at] == words[0]);
        assert(!is_space(text[at]));
        if cut < at {
            assert(is_space(text[cut]));
            assert(trim_front(text, set)[0] == text[cut]);
        }
        if at < cut {
            assert(is_space(text[at]));
        }
    }
}

/// A model is held back once a turn, where it works on the list in it and something is left to
/// do.
pub proof fn a_model_that_left_tasks_open_is_held_back_once(
    hook: &TodoHook,
    messages: &Vec<Message>,
    todos: &Vec<TodoItem>,
    start: usize,
    present: bool,
    managed: bool,
    nudge: Option<String>,
    words: &'static str,
)
    requires
        call_ensures(current_real_user_start, (messages,), start),
        call_ensures(completion_nudge_already_present, (messages,), present),
        call_ensures(managed_todos_this_turn, (messages,), managed),
        call_ensures(TodoHook::offer_continuation, (hook, messages, todos), nudge),
        call_ensures(todo_completion_nudge, (), words),
    ensures
        words@ == held_back_words(),
        present <==> exists|i: int|
            start <= i < messages@.len() && holds_back(#[trigger] messages@[i]),
        managed <==> exists|i: int|
            start <= i < messages@.len() && works_on_the_list(#[trigger] messages@[i]),
        nudge is Some <==> managed && !present && !is_done(todos@),
        nudge matches Some(text) ==> text@ == words@,
{
    let views = message_views(messages@);
    assert(is_done(todos@) == crate::todo::all_completed(todos@));
    assert forall|i: int| 0 <= i < messages@.len() implies (is_completion_nudge(
        #[trigger] views[i],
    ) <==> holds_back(messages@[i])) && (manages_todos(views[i]) <==> works_on_the_list(
        messages@[i],
    )) by {
        let message = messages@[i];
        assert(views[i] == message@);
        the_words_are_found_behind_white_space(message.text@);
        assert(message@.tool_calls.len() == message.tool_calls@.len());
        if manages_todos(views[i]) {
            let k = choose|k: int|
                0 <= k < message@.tool_calls.len() && ((#[trigger] message@.tool_calls[k]).name
                    == "todo"@ || message@.tool_calls[k].name == "todowrite"@);
            assert(message@.tool_calls[k] == message.tool_calls@[k]@);
        }
        if works_on_the_list(message) {
            let k = choose|k: int|
                0 <= k < message.tool_calls@.len() && ((#[trigger] message.tool_calls@[k]).name@
                    == "todo"@ || message.tool_calls@[k].name@ == "todowrite"@);
            assert(message@.tool_calls[k] == message.tool_calls@[k]@);
        }
    }
    if present {
        let i = choose|i: int|
            turn_start_of(views) <= i < views.len() && is_completion_nudge(#[trigger] views[i]);
        assert(holds_back(messages@[i]));
    }
    if managed {
        let i = choose|i: int|
            turn_start_of(views) <= i < views.len() && manages_todos(#[trigger] views[i]);
        assert(works_on_the_list(messages@[i]));
    }
    if exists|i: int| start <= i < messages@.len() && holds_back(#[trigger] messages@[i]) {
        let i = choose|i: int| start <= i < messages@.len() && holds_back(#[trigger] messages@[i]);
        assert(is_completion_nudge(views[i]));
    }
    if exists|i: int| start <= i < messages@.len() && works_on_the_list(#[trigger] messages@[i]) {
        let i = choose|i: int|
            start <= i < messages@.len() && works_on_the_list(#[trigger] messages@[i]);
        assert(manages_todos(views[i]));
    }
}

/// Whether the first task that is worked on stands there.
pub open spec fn is_worked_on(todos: Seq<TodoItem>, at: int) -> bool {
    &&& 0 <= at < todos.len() && todos[at].status is InProgress
    &&& forall|i: int| 0 <= i < at ==> !((#[trigger] todos[i]).status is InProgress)
}

proof fn the_first_with_a_status_is_found(todos: Seq<TodoItem>, status: crate::todo::TodoStatus)
    ensures
        ({
            let at = first_with(todos, status);
            &&& 0 <= at <= todos.len()
            &&& at < todos.len() ==> todos[at].status == status
            &&& forall|i: int| 0 <= i < at ==> (#[trigger] todos[i]).status != status
        }),
    decreases todos.len(),
{
    if todos.len() > 0 && todos[0].status != status {
        let rest = todos.drop_first();
        the_first_with_a_status_is_found(rest, status);
        let at = first_with(todos, status);
        assert forall|i: int| 0 <= i < at implies (#[trigger] todos[i]).status != status by {
            if i > 0 {
                assert(rest[i - 1] == todos[i]);
            }
        }
        if at < todos.len() {
            assert(rest[at - 1] == todos[at]);
        }
    }
}

/// The anchor names the first task that is worked on, by its number from one and its words,
/// or says that none is where tasks wait; there is none where nothing waits.
pub proof fn the_anchor_names_the_task_at_hand(
    todos: &Vec<TodoItem>,
    line: Option<String>,
    at: int,
)
    requires
        call_ensures(todo_anchor_line, (todos,), line),
        is_worked_on(todos@, at) || (at == todos@.len() && forall|i: int|
            0 <= i < todos@.len() ==> !((#[trigger] todos@[i]).status is InProgress)),
    ensures
        at < todos@.len() ==> line is Some && line->0@ == ">> You are currently ON task #"@
            + decimal((at + 1) as nat) + " \""@ + todos@[at].content@
            + "\". Before your NEXT action, reconcile: if it is actually DONE, mark it completed now (`{\"action\":\"update\",\"id\":"@
            + decimal((at + 1) as nat)
            + ",\"status\":\"completed\"}`); if you have moved on to a DIFFERENT task, switch in_progress to THAT id FIRST. Do not leave in_progress pointing at a task you are no longer working on."@,
        at == todos@.len() ==> (line is Some <==> exists|i: int|
            0 <= i < todos@.len() && (#[trigger] todos@[i]).status is Pending),
        at == todos@.len() && line is Some ==> line->0@
            == ">> NOTHING is in_progress but tasks remain. Before you act, mark the task you are actually working on as in_progress (`{\"action\":\"update\",\"id\":<id>,\"status\":\"in_progress\"}`)."@,
{
    the_first_with_a_status_is_found(todos@, crate::todo::TodoStatus::InProgress);
    the_first_with_a_status_is_found(todos@, crate::todo::TodoStatus::Pending);
    let first = first_with(todos@, crate::todo::TodoStatus::InProgress);
    let waiting = first_with(todos@, crate::todo::TodoStatus::Pending);
    if at < todos@.len() {
        if first < at {
            assert(!(todos@[first].status is InProgress));
        }
        if at < first {
            assert(todos@[at].status != crate::todo::TodoStatus::InProgress);
        }
    } else {
        if first < todos@.len() {
            assert(!(todos@[first].status is InProgress));
        }
        if waiting < todos@.len() {
            assert(todos@[waiting].status is Pending);
        }
    }
}

/// The reminder is the anchor, the rules and the list as it is shown, in this order; it is
/// given of a list that holds something and of which the model was not told.
pub proof fn the_list_is_shown_below_its_rules(
    hook: &TodoHook,
    todos: &Vec<TodoItem>,
    rendered: &str,
    present: bool,
    line: Option<String>,
    body: String,
    given: Option<String>,
    bare: &Vec<TodoItem>,
    rules: String,
    nothing: &str,
)
    requires
        call_ensures(todo_anchor_line, (todos,), line),
        call_ensures(todo_reminder_body, (todos, rendered), body),
        call_ensures(TodoHook::turn_start, (hook, todos, rendered, present), given),
        bare@.len() == 0 && nothing@.len() == 0,
        call_ensures(todo_reminder_body, (bare, nothing), rules),
    ensures
        line is None ==> body@ == rules@ + rendered@,
        line matches Some(anchor) ==> body@ == anchor@ + "\n\n"@ + rules@ + rendered@,
        given is Some <==> todos@.len() > 0 && !present,
        given matches Some(text) ==> text@ == body@,
        rules@
            == "Current task list (each line is `#<id> <task>`) — keep it accurate and finish it:\n- The MOMENT you START or FINISH items: one `todowrite` with `actions` covering every status change you already know (e.g. complete #1 and set #2 `in_progress` in the SAME array).\n- Skip `todowrite` this turn if the list already matches reality. Never re-mark an item already in that status.\n- First plan / replace a plan: `actions` of `add`s (plus `clear` first if replacing). Do NOT resend a full `todos` list.\n- Do NOT stop, summarize, or hand back while ANY item is still pending or in_progress — keep working through them, unless you truly need approval, are genuinely stuck, or the request is ambiguous.\n"@,
{
    assert(anchor_text(bare@) is None);
    assert(rules@ =~= crate::todo::list_rules() + nothing@);
    assert(rules@ =~= crate::todo::list_rules());
}

/// Whether the conversation is the other one with a message of the user's put in at the place,
/// which the user did not write.
pub open spec fn is_put_in(
    after: Seq<Message>,
    before: Seq<Message>,
    place: int,
    words: Seq<char>,
) -> bool {
    &&& 0 <= place <= before.len() && after.len() == before.len() + 1
    &&& after[place].role is User && after[place].synthetic && after[place].text@ == words
    &&& after[place].tool_calls@.len() == 0 && after[place].rest@.len() == 0
    &&& forall|i: int| 0 <= i < place ==> same_message(#[trigger] after[i], before[i])
    &&& forall|i: int| place < i < after.len() ==> same_message(#[trigger] after[i], before[i - 1])
}

/// Whether the conversation is the other one.
pub open spec fn is_kept(after: Seq<Message>, before: Seq<Message>) -> bool {
    after.len() == before.len() && forall|i: int|
        0 <= i < before.len() ==> same_message(#[trigger] after[i], before[i])
}

proof fn equal_views_are_kept(after: Seq<Message>, before: Seq<Message>)
    requires
        message_views(after) == message_views(before),
    ensures
        is_kept(after, before),
{
    assert(message_views(after).len() == after.len());
    assert(message_views(before).len() == before.len());
    assert forall|i: int| 0 <= i < before.len() implies same_message(
        #[trigger] after[i],
        before[i],
    ) by {
        assert(message_views(after)[i] == after[i]@);
        assert(message_views(before)[i] == before[i]@);
        equal_views_are_same_messages(after[i], before[i]);
    }
}

proof fn an_inserted_view_is_put_in(
    after: Seq<Message>,
    before: Seq<Message>,
    place: int,
    words: Seq<char>,
)
    requires
        0 <= place <= before.len(),
        message_views(after) == message_views(before).insert(
            place,
            MessageView::plain(Role::User, words, true),
        ),
    ensures
        is_put_in(after, before, place, words),
{
    let (a, b) = (message_views(after), message_views(before));
    assert(a.len() == b.len() + 1);
    assert(a[place] == after[place]@);
    assert(after[place]@.tool_calls.len() == after[place].tool_calls@.len());
    assert forall|i: int| 0 <= i < place implies same_message(#[trigger] after[i], before[i]) by {
        assert(a[i] == after[i]@ && b[i] == before[i]@);
        equal_views_are_same_messages(after[i], before[i]);
    }
    assert forall|i: int| place < i < after.len() implies same_message(
        #[trigger] after[i],
        before[i - 1],
    ) by {
        assert(a[i] == after[i]@ && b[i - 1] == before[i - 1]@);
        equal_views_are_same_messages(after[i], before[i - 1]);
    }
}

/// Whether a message that the user did not write, directly above the prompt or among others
/// such, holds the words.
pub open spec fn stands_above(messages: Seq<Message>, at: int, known: spec_fn(Message) -> bool) -> bool {
    exists|i: int|
        0 <= i < at && known(#[trigger] messages[i]) && (forall|j: int|
            i <= j < at ==> (#[trigger] messages[j]).role is User && messages[j].synthetic)
}

proof fn reminded_is_standing_above(messages: Seq<Message>, kind: ReminderKind)
    ensures
        is_reminded(message_views(messages), kind) <==> stands_above(
            messages,
            turn_start_of(message_views(messages)),
            |message: Message| kind.recognises(message.text@),
        ),
{
    let views = message_views(messages);
    let at = turn_start_of(views);
    let known = |message: Message| kind.recognises(message.text@);
    the_turn_starts_at_the_last_prompt(views);
    assert forall|i: int| 0 <= i < messages.len() implies #[trigger] views[i] == messages[i]@ by {}
    if is_reminded(views, kind) {
        let i = choose|i: int|
            0 <= i < at && kind.recognises((#[trigger] views[i]).text) && (forall|j: int|
                i <= j < at ==> crate::reminder::is_injected(#[trigger] views[j]));
        assert(known(messages[i]));
        assert forall|j: int| i <= j < at implies (#[trigger] messages[j]).role is User
            && messages[j].synthetic by {
            assert(crate::reminder::is_injected(views[j]));
        }
    }
    if stands_above(messages, at, known) {
        let i = choose|i: int|
            0 <= i < at && known(#[trigger] messages[i]) && (forall|j: int|
                i <= j < at ==> (#[trigger] messages[j]).role is User && messages[j].synthetic);
        assert(kind.recognises(views[i].text));
        assert forall|j: int| i <= j < at implies crate::reminder::is_injected(
            #[trigger] views[j],
        ) by {
            assert(messages[j].role is User && messages[j].synthetic);
        }
    }
}

/// The nudge goes directly above the last prompt, where a list is asked for and no nudge
/// stands there already; else the conversation stays.
pub proof fn a_nudge_goes_above_the_last_prompt(
    hook: &TodoEagerHook,
    messages: &mut Vec<Message>,
    todos: &Vec<TodoItem>,
    stored: String,
    at: int,
)
    requires
        call_ensures(TodoEagerHook::start, (hook, messages, todos, stored), ()),
        is_last_prompt(old(messages)@, at),
    ensures
        ({
            let above = stands_above(
                old(messages)@,
                at,
                |message: Message|
                    occurs("You MUST call `todowrite` now"@, message.text@) || occurs(
                        "whether this \
            task benefits from a todo list"@,
                        message.text@,
                    ),
            );
            &&& !(hook.eagerness is Auto) && is_done(todos@) && !above ==> is_put_in(
                final(messages)@,
                old(messages)@,
                at,
                stored@,
            )
            &&& hook.eagerness is Auto || !is_done(todos@) || above ==> is_kept(
                final(messages)@,
                old(messages)@,
            )
        }),
{
    a_last_prompt_starts_the_turn(old(messages)@, at);
    reminded_is_standing_above(old(messages)@, ReminderKind::Nudge);
    assert(is_done(todos@) == crate::todo::all_completed(todos@));
    let known = |message: Message| ReminderKind::Nudge.recognises(message.text@);
    let words = |message: Message|
        occurs("You MUST call `todowrite` now"@, message.text@) || occurs(
            "whether this \
            task benefits from a todo list"@,
            message.text@,
        );
    assert(known =~= words);
    if message_views(final(messages)@) == message_views(old(messages)@) {
        equal_views_are_kept(final(messages)@, old(messages)@);
    } else {
        an_inserted_view_is_put_in(final(messages)@, old(messages)@, at, stored@);
    }
}

proof fn a_last_prompt_starts_the_turn(messages: Seq<Message>, at: int)
    requires
        is_last_prompt(messages, at),
    ensures
        turn_start_of(message_views(messages)) == at,
        is_asked(message_views(messages)),
{
    let start = turn_start_of(message_views(messages));
    the_last_prompt_is_found(messages);
    assert(message_views(messages).len() == messages.len());
    assert(asked(messages[at]));
    assert(asked(messages[start]));
    if start < at {
        assert(!asked(messages[at]));
    }
    if at < start {
        assert(!asked(messages[start]));
    }
    assert(message_views(messages)[at] == messages[at]@);
}

/// The list goes directly above the last prompt, where there is one and none stands there
/// already; else the conversation stays.
pub proof fn a_list_goes_above_the_last_prompt(
    hook: &TodoHook,
    messages: &mut Vec<Message>,
    todos: &Vec<TodoItem>,
    rendered: &str,
    stored: String,
    at: int,
)
    requires
        call_ensures(TodoHook::start, (hook, messages, todos, rendered, stored), ()),
        is_last_prompt(old(messages)@, at),
    ensures
        ({
            let above = stands_above(
                old(messages)@,
                at,
                |message: Message| occurs("Current task list"@, message.text@),
            );
            &&& todos@.len() > 0 && !above ==> is_put_in(
                final(messages)@,
                old(messages)@,
                at,
                stored@,
            )
            &&& todos@.len() == 0 || above ==> is_kept(final(messages)@, old(messages)@)
        }),
{
    a_last_prompt_starts_the_turn(old(messages)@, at);
    reminded_is_standing_above(old(messages)@, ReminderKind::TaskList);
    let known = |message: Message| ReminderKind::TaskList.recognises(message.text@);
    let words = |message: Message| occurs("Current task list"@, message.text@);
    assert(known =~= words);
    if message_views(final(messages)@) == message_views(old(messages)@) {
        equal_views_are_kept(final(messages)@, old(messages)@);
    } else {
        an_inserted_view_is_put_in(final(messages)@, old(messages)@, at, stored@);
    }
}

/// Whether one prompt was asked, and nothing was answered.
pub open spec fn is_unanswered_opening(messages: Seq<Message>, at: int) -> bool {
    &&& 0 <= at < messages.len() && asked(messages[at])
    &&& forall|i: int|
        0 <= i < messages.len() ==> (asked(#[trigger] messages[i]) <==> i == at) && !(
        messages[i].role is Assistant)
}

proof fn one_prompt_counts_as_one(messages: Seq<Message>, at: int)
    requires
        0 <= at < messages.len(),
        forall|i: int| 0 <= i < messages.len() ==> (asked(#[trigger] messages[i]) <==> i == at),
    ensures
        prompt_count(message_views(messages)) == 1,
    decreases messages.len(),
{
    let front = messages.drop_last();
    let views = message_views(messages);
    assert(views.drop_last() =~= message_views(front));
    assert(views.last() == messages[messages.len() - 1]@);
    assert(asked(messages[messages.len() - 1]) <==> messages.len() - 1 == at);
    assert forall|i: int| 0 <= i < front.len() implies (asked(#[trigger] front[i]) <==> i == at) by {
        assert(front[i] == messages[i]);
    }
    if at < front.len() {
        one_prompt_counts_as_one(front, at);
    } else {
        no_prompt_counts_as_none(front);
    }
}

proof fn no_prompt_counts_as_none(messages: Seq<Message>)
    requires
        forall|i: int| 0 <= i < messages.len() ==> !asked(#[trigger] messages[i]),
    ensures
        prompt_count(message_views(messages)) == 0,
    decreases messages.len(),
{
    if messages.len() > 0 {
        let front = messages.drop_last();
        let views = message_views(messages);
        assert(views.drop_last() =~= message_views(front));
        assert(views.last() == messages[messages.len() - 1]@);
        assert(!asked(messages[messages.len() - 1]));
        assert forall|i: int| 0 <= i < front.len() implies !asked(#[trigger] front[i]) by {
            assert(front[i] == messages[i]);
        }
        no_prompt_counts_as_none(front);
    } else {
        assert(message_views(messages).len() == 0);
    }
}

/// Skills are brought to mind of a model that needs it, where there are any, on the opening
/// turn alone, above its prompt.
pub proof fn skills_are_brought_to_mind_on_the_opening_turn(
    firm: bool,
    skills: bool,
    hook: SkillFirstHook,
    messages: &mut Vec<Message>,
    stored: String,
    at: int,
)
    requires
        call_ensures(SkillFirstHook::new, (firm, skills), hook),
        call_ensures(SkillFirstHook::start, (&hook, messages, stored), ()),
        is_unanswered_opening(old(messages)@, at),
    ensures
        hook.enabled <==> firm && skills,
        firm && skills ==> is_put_in(final(messages)@, old(messages)@, at, stored@),
        !(firm && skills) ==> is_kept(final(messages)@, old(messages)@),
{
    let views = message_views(old(messages)@);
    one_prompt_counts_as_one(old(messages)@, at);
    assert forall|i: int| 0 <= i < views.len() implies (#[trigger] views[i]).role
        != Role::Assistant by {
        assert(views[i] == old(messages)@[i]@);
        assert(!(old(messages)@[i].role is Assistant));
    }
    assert(is_last_prompt(old(messages)@, at));
    a_last_prompt_starts_the_turn(old(messages)@, at);
    if firm && skills {
        an_inserted_view_is_put_in(final(messages)@, old(messages)@, at, stored@);
    } else {
        equal_views_are_kept(final(messages)@, old(messages)@);
    }
}

/// After an answer, or without a prompt, skills are not brought to mind.
pub proof fn skills_are_not_brought_to_mind_later(
    hook: &SkillFirstHook,
    messages: &mut Vec<Message>,
    stored: String,
    seen: &Vec<Message>,
    reminder: Option<&'static str>,
    body: &'static str,
    count: usize,
)
    requires
        call_ensures(SkillFirstHook::start, (hook, messages, stored), ()),
        call_ensures(SkillFirstHook::turn_start, (hook, seen), reminder),
        call_ensures(SkillFirstHook::body, (), body),
        call_ensures(crate::undo::count_prompts, (seen,), count),
        seen@ == old(messages)@,
    ensures
        count != 1 || !hook.enabled || (exists|i: int|
            0 <= i < seen@.len() && (#[trigger] seen@[i]).role is Assistant) ==> is_kept(
            final(messages)@,
            old(messages)@,
        ) && reminder is None,
        count == 1 && hook.enabled && (forall|i: int|
            0 <= i < seen@.len() ==> !((#[trigger] seen@[i]).role is Assistant)) ==> reminder
            is Some && reminder->0@ == body@,
        body@
            == "Before you explore the codebase, plan, or propose a solution: check the \"=== AVAILABLE SKILLS ===\" catalog above. If this request matches a skill's description shown in that catalog, you MUST call `use_skill` with that exact listed name NOW and let it drive. Never infer a skill name merely from the task type. If no listed description matches, proceed normally without `use_skill`."@,
{
    let views = message_views(seen@);
    assert(views.len() == seen@.len());
    assert forall|i: int| 0 <= i < views.len() implies #[trigger] views[i] == seen@[i]@ by {}
    if exists|i: int| 0 <= i < seen@.len() && (#[trigger] seen@[i]).role is Assistant {
        let i = choose|i: int| 0 <= i < seen@.len() && (#[trigger] seen@[i]).role is Assistant;
        assert(views[i].role == Role::Assistant);
    }
    if forall|i: int| 0 <= i < seen@.len() ==> !((#[trigger] seen@[i]).role is Assistant) {
        assert forall|i: int| 0 <= i < views.len() implies (#[trigger] views[i]).role
            != Role::Assistant by {
            assert(!(seen@[i].role is Assistant));
        }
    }
    if message_views(final(messages)@) == message_views(old(messages)@) {
        equal_views_are_kept(final(messages)@, old(messages)@);
    }
}

/// A conversation is asked where somebody asked in it.
pub proof fn a_conversation_is_asked_where_somebody_asked(messages: &Vec<Message>, holds: bool)
    requires
        call_ensures(holds_prompt, (messages,), holds),
    ensures
        holds <==> exists|i: int| 0 <= i < messages@.len() && asked(#[trigger] messages@[i]),
{
    the_last_prompt_is_found(messages@);
    the_turn_starts_at_the_last_prompt(message_views(messages@));
    assert(message_views(messages@).len() == messages@.len());
    let at = turn_start_of(message_views(messages@));
    if messages@.len() > 0 {
        assert(message_views(messages@)[at] == messages@[at]@);
        if holds {
            assert(asked(messages@[at]));
        }
    }
}

} // verus!
