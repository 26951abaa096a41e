use atomcode_coding::conversation::{Message, Role, ToolCall};
use atomcode_coding::reminder::holds_prompt;
use atomcode_coding::skill_first::SkillFirstHook;
use atomcode_coding::todo::{
    completion_nudge_already_present, degradation_notice, is_eager_todo_reminder, is_todo_list_reminder,
    managed_todos_this_turn,
    todo_anchor_line, todo_completion_nudge, todo_reminder_body, TodoEagerHook, TodoEagerness,
    TodoHook, TodoItem, TodoStatus,
};

fn item(content: &str, status: TodoStatus) -> TodoItem {
    TodoItem { content: content.into(), status }
}

fn wrapped(body: &str) -> String {
    format!("<system-reminder>\n{body}\n</system-reminder>")
}

fn todowrite_msg() -> Message {
    Message::assistant(
        "",
        vec![ToolCall { id: "1".into(), name: "todowrite".into(), args: "{}".into() }],
    )
}

#[test]
fn body_requires_an_exact_catalog_match_without_naming_a_skill() {
    let b = SkillFirstHook::body();
    assert!(b.contains("use_skill"), "{b}");
    assert!(b.contains("exact listed name"), "{b}");
    assert!(b.contains("Never infer a skill name"), "{b}");
    assert!(!b.contains("brainstorming"), "{b}");
}

#[test]
fn deepseek_opening_turn_injects_one_wrapped_reminder() {
    let hook = SkillFirstHook::new(true, true);
    let messages = vec![Message::system("s"), Message::user("hi")];
    assert_eq!(hook.turn_start(&messages), Some(SkillFirstHook::body()));
    let mut stored = messages.clone();
    hook.start(&mut stored, wrapped(SkillFirstHook::body()));
    assert_eq!(stored.len(), 3, "opening turn inserts exactly one reminder");
    assert!(stored[1].synthetic && stored[1].text.starts_with("<system-reminder>"));
    assert!(stored[1].text.contains("use_skill"));
    assert_eq!(stored[2].text, "hi");
}

#[test]
fn does_not_fire_after_the_opening_turn() {
    let hook = SkillFirstHook::new(true, true);
    let messages = vec![
        Message::user("hi"),
        Message::assistant("a", vec![]),
        Message::user("again"),
    ];
    assert_eq!(hook.turn_start(&messages), None);
    assert_eq!(hook.turn_start(&vec![Message::system("s")]), None);
    let continued = vec![
        Message::user("hi"),
        Message::assistant("done", vec![]),
        Message::synthetic_user("continue".into()),
    ];
    assert_eq!(hook.turn_start(&continued), None);
}

#[test]
fn disabled_for_glm_frontier_and_empty_catalog() {
    for (firm, has_skills) in [(false, true), (false, false), (true, false)] {
        let hook = SkillFirstHook::new(firm, has_skills);
        assert_eq!(hook.turn_start(&vec![Message::user("hi")]), None);
    }
}

#[test]
fn anchor_names_in_progress_id_and_title() {
    let todos = vec![
        item("first", TodoStatus::Completed),
        item("do the thing", TodoStatus::InProgress),
        item("later", TodoStatus::Pending),
    ];
    let a = todo_anchor_line(&todos).expect("in_progress → anchor");
    assert!(a.contains("#2"), "must name the 1-based id: {a}");
    assert!(a.contains("do the thing"), "must name the title: {a}");
    assert!(
        a.contains("reconcile") && a.contains("moved on"),
        "must force reconcile: {a}"
    );
    assert!(a.contains("{\"action\":\"update\",\"id\":2,\"status\":\"completed\"}"), "{a}");
}

#[test]
fn anchor_when_nothing_in_progress_but_open_items_remain() {
    let todos = vec![
        item("first", TodoStatus::Completed),
        item("second", TodoStatus::Pending),
    ];
    let a = todo_anchor_line(&todos).expect("open + no in_progress → anchor");
    assert!(a.contains("NOTHING is in_progress"), "{a}");
    assert!(a.contains("in_progress"), "must tell it to mark one: {a}");
}

#[test]
fn no_anchor_when_all_completed() {
    let todos = vec![
        item("a", TodoStatus::Completed),
        item("b", TodoStatus::Completed),
    ];
    assert!(todo_anchor_line(&todos).is_none());
}

#[test]
fn turn_start_prepends_anchor_for_in_progress() {
    let todos = vec![item("step one", TodoStatus::InProgress)];
    let text = TodoHook::new().turn_start(&todos, "#1 step one", false).unwrap();
    assert!(text.contains("currently ON task #1"), "{text}");
    assert!(text.contains("Skip `todowrite` this turn if the list already matches"), "{text}");
    let anchor_at = text.find("currently ON task").unwrap();
    let list_at = text.find("Current task list").unwrap();
    assert!(anchor_at < list_at, "anchor must come before the list: {text}");
    assert!(text.ends_with("#1 step one"));
}

#[test]
fn no_injection_when_no_list() {
    assert_eq!(TodoHook::new().turn_start(&vec![], "", false), None);
    let todos = vec![item("a", TodoStatus::Pending)];
    assert_eq!(TodoHook::new().turn_start(&todos, "#1 a", true), None);
}

#[test]
fn a_finished_list_is_reminded_without_anchor() {
    let todos = vec![item("a", TodoStatus::Completed)];
    assert!(todo_reminder_body(&todos, "#1 a").starts_with("Current task list"));
}

#[test]
fn auto_prefers_deepseek_v4_flash_on_each_new_task() {
    for name in ["deepseek-v4-flash", "DeepSeek V4_Flash"] {
        let hook = TodoEagerHook::new(name, "openai", TodoEagerness::Auto);
        assert_eq!(hook.eagerness, TodoEagerness::Preferred);
        let nudge = hook.turn_start(&vec![], false).unwrap();
        assert!(nudge.contains("todowrite"));
        assert!(is_eager_todo_reminder(nudge));
    }
}

#[test]
fn auto_policy_is_resolved_again_for_a_model_generation() {
    let ordinary = TodoEagerHook::new("ordinary-model", "openai", TodoEagerness::Auto);
    assert_eq!(ordinary.turn_start(&vec![], false), None);
    let deepseek = TodoEagerHook::new("deepseek-v4-flash", "openai", TodoEagerness::Auto);
    assert!(deepseek.turn_start(&vec![], false).is_some());
}

#[test]
fn an_eager_nudge_is_not_repeated() {
    let hook = TodoEagerHook::new("deepseek-v4-flash", "openai", TodoEagerness::Auto);
    assert_eq!(hook.turn_start(&vec![], true), None);
    assert!(!is_eager_todo_reminder("something else"));
}

#[test]
fn always_selects_todowrite_only_without_an_existing_list() {
    let hook = TodoEagerHook::new("any-model", "openai", TodoEagerness::Always);
    assert_eq!(hook.forced_tool(&vec![], 1), Some("todowrite"));
    assert_eq!(hook.forced_tool(&vec![], 2), None);
    assert_eq!(hook.forced_tool(&vec![item("a", TodoStatus::Pending)], 1), None);
    assert_eq!(
        hook.forced_tool(&vec![item("old", TodoStatus::Completed)], 1),
        Some("todowrite")
    );
    let preferred = TodoEagerHook::new("any-model", "openai", TodoEagerness::Preferred);
    assert_eq!(preferred.forced_tool(&vec![], 1), None);
    assert!(is_eager_todo_reminder(hook.body()));
}

#[test]
fn always_degrades_explicitly_for_ollama() {
    let hook = TodoEagerHook::new("any-model", "ollama", TodoEagerness::Always);
    assert_eq!(hook.eagerness, TodoEagerness::Preferred);
    let shouted = TodoEagerHook::new("any-model", "OLLAMA", TodoEagerness::Always);
    assert_eq!(shouted.eagerness, TodoEagerness::Preferred);
}

#[test]
fn always_remains_strict_for_supported_adapters() {
    let hook = TodoEagerHook::new("any-model", "openai", TodoEagerness::Always);
    assert_eq!(hook.eagerness, TodoEagerness::Always);
}

#[test]
fn nudges_to_close_out_open_items_on_stop() {
    let messages = vec![
        Message::user("do the audit"),
        todowrite_msg(),
        Message::assistant("here is the summary…", vec![]),
    ];
    let todos = vec![item("a", TodoStatus::Completed), item("b", TodoStatus::InProgress)];
    assert_eq!(
        TodoHook::new().offer_continuation(&messages, &todos).as_deref(),
        Some(todo_completion_nudge())
    );
}

#[test]
fn no_nudge_when_all_completed() {
    let messages = vec![
        Message::user("do it"),
        todowrite_msg(),
        Message::assistant("all done", vec![]),
    ];
    let todos = vec![item("a", TodoStatus::Completed), item("b", TodoStatus::Completed)];
    assert!(TodoHook::new().offer_continuation(&messages, &todos).is_none());
}

#[test]
fn no_nudge_when_no_todos() {
    let messages = vec![Message::user("hi"), Message::assistant("hi there", vec![])];
    assert!(TodoHook::new().offer_continuation(&messages, &vec![]).is_none());
}

#[test]
fn no_nudge_when_list_untouched_this_turn() {
    let messages = vec![
        Message::user("plan it"),
        todowrite_msg(),
        Message::assistant("planned", vec![]),
        Message::user("what does foo do?"),
        Message::assistant("foo does X.", vec![]),
    ];
    let todos = vec![item("a", TodoStatus::InProgress)];
    assert!(!managed_todos_this_turn(&messages));
    assert!(TodoHook::new().offer_continuation(&messages, &todos).is_none());
}

#[test]
fn nudges_at_most_once_per_turn() {
    let mut messages = vec![
        Message::user("do it"),
        todowrite_msg(),
        Message::assistant("summary", vec![]),
    ];
    let todos = vec![item("a", TodoStatus::InProgress)];
    assert!(TodoHook::new().offer_continuation(&messages, &todos).is_some());
    messages.push(Message::synthetic_user(format!("  {}", todo_completion_nudge())));
    messages.push(Message::assistant("still open", vec![]));
    assert!(completion_nudge_already_present(&messages));
    assert!(TodoHook::new().offer_continuation(&messages, &todos).is_none());
    assert_eq!(messages[0].role, Role::User);
}

#[test]
fn a_second_start_finds_the_reminder() {
    for eagerness in [TodoEagerness::Preferred, TodoEagerness::Always] {
        let hook = TodoEagerHook { eagerness };
        let body = hook.turn_start(&vec![], false).unwrap();
        let stored = format!("<system-reminder>\n{body}\n</system-reminder>");
        assert!(is_eager_todo_reminder(&stored));
        assert_eq!(hook.turn_start(&vec![], is_eager_todo_reminder(&stored)), None);
    }
    let todos = vec![item("a", TodoStatus::Pending)];
    let body = TodoHook::new().turn_start(&todos, "#1 a", false).unwrap();
    assert!(is_todo_list_reminder(&body) && !is_eager_todo_reminder(&body));
    assert!(!is_todo_list_reminder("tasks"));
    assert_eq!(TodoHook::new().turn_start(&todos, "#1 a", is_todo_list_reminder(&body)), None);
}

#[test]
fn the_nudge_holds_for_the_rest_of_the_turn() {
    let todos = vec![item("a", TodoStatus::Pending)];
    let mut messages = vec![Message::user("go"), todowrite_msg()];
    let nudge = TodoHook::new().offer_continuation(&messages, &todos).unwrap();
    messages.push(Message::synthetic_user(nudge));
    for text in ["one", "two", "three"] {
        messages.push(Message::assistant(text, vec![]));
        messages.push(todowrite_msg());
        assert_eq!(TodoHook::new().offer_continuation(&messages, &todos), None);
    }
    messages.push(Message::user("again"));
    messages.push(todowrite_msg());
    assert!(TodoHook::new().offer_continuation(&messages, &todos).is_some());
}

#[test]
fn injects_reminder_above_the_user_query() {
    let todos = vec![item("step one", TodoStatus::InProgress)];
    let mut messages = vec![Message::user("do the thing"), todowrite_msg()];
    let rendered = "#1 step one";
    let stored = wrapped(&todo_reminder_body(&todos, rendered));
    TodoHook::new().start(&mut messages, &todos, rendered, stored.clone());
    assert_eq!(messages.len(), 3, "one reminder inserted");
    assert!(messages[0].synthetic && messages[0].text.contains("system-reminder"));
    assert!(messages[0].text.contains("step one"));
    assert_eq!(messages[1].text, "do the thing");
    let before = messages.clone();
    TodoHook::new().start(&mut messages, &todos, rendered, stored);
    assert_eq!(messages, before);
}

#[test]
fn eager_nudge_is_stored_on_turn_start_and_pre_request_stays_append_only() {
    let hook = TodoEagerHook::new("deepseek-v4-flash", "openai", TodoEagerness::Auto);
    let mut messages = vec![Message::user("analyze and fix this")];
    hook.start(&mut messages, &vec![], wrapped(hook.body()));
    let stored = messages.clone();
    assert!(stored.len() > 1, "turn_start must persist the nudge");
    assert_eq!(stored.last().unwrap().text, "analyze and fix this");
    hook.start(&mut messages, &vec![], wrapped(hook.body()));
    assert_eq!(messages, stored, "second turn_start on the same query is idempotent");
    messages.push(Message::assistant("a", vec![]));
    messages.push(Message::user("next"));
    hook.start(&mut messages, &vec![], wrapped(hook.body()));
    assert_eq!(messages.len(), 5);
    assert!(messages[3].synthetic && !messages[4].synthetic);
    let open = vec![item("a", TodoStatus::Pending)];
    hook.start(&mut messages, &open, wrapped(hook.body()));
    assert_eq!(messages.len(), 5);
    assert!(holds_prompt(&messages) && !holds_prompt(&vec![Message::system("s")]));
}

#[test]
fn a_provider_that_cannot_be_forced_is_told_so() {
    assert_eq!(
        degradation_notice("Ollama", TodoEagerness::Always),
        Some("[todo] eager=always is unsupported by provider type ollama; using preferred")
    );
    assert_eq!(degradation_notice("ollama", TodoEagerness::Preferred), None);
    assert_eq!(degradation_notice("openai", TodoEagerness::Always), None);
}
