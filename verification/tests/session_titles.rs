use atomcode_coding::conversation::Message;
use atomcode_coding::session_title::{
    first_exchange_text, sanitize_generated_title, session_title_prompt, should_accept_ai_name,
    TitleCollector, TitlePiece, TitleStep,
};

#[test]
fn first_exchange_skips_synthetic_context() {
    let messages = vec![
        Message::synthetic_user("[context compressed]".into()),
        Message::user("修复登录错误"),
        Message::assistant("已修复", vec![]),
    ];
    assert_eq!(
        first_exchange_text(&messages).as_deref(),
        Some("User: 修复登录错误\nAssistant: 已修复")
    );
}

#[test]
fn generated_title_is_sanitized() {
    let mut collector = TitleCollector::new();
    assert_eq!(
        collector.take(TitlePiece::Text("Title: \"修复登录错误。\"".into())),
        TitleStep::More
    );
    assert_eq!(
        collector.take(TitlePiece::Done),
        TitleStep::Finished(Some("修复登录错误".into()))
    );
}

#[test]
fn acceptance_preserves_explicit_or_existing_names() {
    assert!(should_accept_ai_name(false, false));
    assert!(!should_accept_ai_name(true, false));
    assert!(!should_accept_ai_name(false, true));
}

#[test]
fn a_failed_stream_gives_no_title() {
    let mut collector = TitleCollector::new();
    let _ = collector.take(TitlePiece::Text("half a ti".into()));
    assert_eq!(collector.take(TitlePiece::Other), TitleStep::More);
    assert_eq!(collector.take(TitlePiece::Failed), TitleStep::Finished(None));
    assert_eq!(collector.finish().as_deref(), Some("half a ti"));
}

#[test]
fn titles_are_one_line_without_wrapping() {
    assert_eq!(
        sanitize_generated_title("  title:  `Fix \t the\nlogin  bug`.  ").as_deref(),
        Some("Fix the login bug`")
    );
    assert_eq!(sanitize_generated_title("标题：‘x’").as_deref(), Some("‘x’"));
    assert_eq!(sanitize_generated_title("Title: title: nested").as_deref(), Some("nested"));
    assert_eq!(sanitize_generated_title("\u{7}bell\u{7}").as_deref(), Some("bell"));
    assert_eq!(sanitize_generated_title(" \n\t "), None);
    assert_eq!(sanitize_generated_title("\"...\""), None);
}

#[test]
fn titles_are_cut_to_forty_characters() {
    let long = "字".repeat(60);
    assert_eq!(sanitize_generated_title(&long), Some("字".repeat(40)));
    let exact = "x".repeat(40);
    assert_eq!(sanitize_generated_title(&exact), Some(exact));
}

#[test]
fn the_prompt_carries_the_conversation() {
    let prompt = session_title_prompt("User: hi");
    assert!(prompt.starts_with("Generate a short, specific title for this conversation. Rules:"));
    assert!(prompt.ends_with("Reply with only the title.\n\nUser: hi"));
    assert!(prompt.contains("no leading label like \"Title:\""));
}

#[test]
fn a_blank_first_prompt_has_no_exchange() {
    assert_eq!(first_exchange_text(&vec![]), None);
    assert_eq!(
        first_exchange_text(&vec![Message::user("  \n "), Message::user("later")]),
        None
    );
    assert_eq!(
        first_exchange_text(&vec![Message::user(" hi "), Message::assistant("  ", vec![])]),
        Some("User: hi".into())
    );
}

#[test]
fn titles_are_one_line() {
    let title = sanitize_generated_title(" Fix\u{7}the\n\tbuild\u{3000}now. ").unwrap();
    assert_eq!(title, "Fix the build now");
}

#[test]
fn titles_start_with_no_space_and_hold_single_spaces() {
    let title = sanitize_generated_title("\" ' fix\u{a0}\u{a0} the   build '.").unwrap();
    assert!(!title.starts_with(' ') && !title.contains("  "), "{title:?}");
}
