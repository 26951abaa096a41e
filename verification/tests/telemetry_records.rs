use atomcode_coding::conversation::Message;
use atomcode_coding::event::{MessageMeta, StopReason, TokenUsage, ToolResult};
use atomcode_coding::telemetry::{
    classify_llm_error, Attribution, LlmErrorKind, TelemetryHook, ToolDef, ToolErrorKind,
    ToolTelemetryMiddleware,
};

fn attribution(model: &str) -> Attribution {
    Attribution::new("openai".into(), Some("x".into()), model.into())
}

fn meta(elapsed_ms: u64) -> MessageMeta {
    MessageMeta {
        used_tokens: 120,
        ctx_window: 128_000,
        elapsed_ms,
        tokens: TokenUsage { prompt: 100, completion: 20, cached: 8 },
    }
}

#[test]
fn emits_one_llm_chat_per_response_with_attribution() {
    let mut hook = TelemetryHook::new(attribution("deepseek-v4"));
    let messages = vec![Message::user("a"), Message::user("b")];
    let tool = ToolDef {
        name: "bash".into(),
        description: "runs a bit".into(),
        parameters: "{\"type\":\"object\",\"é\":\"xy\"}".into(),
    };
    assert_eq!(tool.parameters.len(), 27);
    hook.on_request(&messages, &vec![tool]);
    let record = hook.on_model_response(Some(meta(1234)), 3).unwrap();
    assert_eq!(record.context.provider.as_deref(), Some("openai"));
    assert_eq!(record.context.provider_host.as_deref(), Some("x"));
    assert_eq!(record.context.model.as_deref(), Some("deepseek-v4"));
    let chat = record.chat;
    assert_eq!(chat.input_tokens, 100);
    assert_eq!(chat.output_tokens, 20);
    assert_eq!(chat.cached_tokens, 8);
    assert_eq!(chat.duration_ms, 1234);
    assert_eq!(chat.context_window, 128_000);
    assert_eq!(chat.messages_count, 2);
    assert_eq!(chat.tool_calls_count, 3);
    assert_eq!(chat.tool_def_tokens, 10);
    assert!(!chat.had_error && chat.error_kind.is_none());
    assert_eq!(hook.on_model_response(Some(meta((1 << 32) + 7)), 0).unwrap().chat.duration_ms, 7);
}

#[test]
fn no_meta_emits_nothing() {
    assert!(TelemetryHook::new(attribution("m")).on_model_response(None, 0).is_none());
}

#[test]
fn provider_error_turn_emits_had_error_llm_chat() {
    let mut hook = TelemetryHook::new(attribution("m"));
    hook.on_error("HTTP 429: rate limited");
    let chat = hook.turn_complete(StopReason::ProviderError).unwrap().chat;
    assert!(chat.had_error);
    assert_eq!(chat.error_kind, Some(LlmErrorKind::RateLimited));
    assert_eq!(chat.error_data.as_deref(), Some("HTTP 429: rate limited"));
    let again = hook.turn_complete(StopReason::ProviderError).unwrap().chat;
    assert_eq!((again.error_kind, again.error_data), (Some(LlmErrorKind::Other), None));
}

#[test]
fn normal_stop_emits_no_extra_llm_chat() {
    let mut hook = TelemetryHook::new(attribution("m"));
    hook.on_error("tool failed");
    assert!(hook.turn_complete(StopReason::Stopped).is_none());
    assert_eq!(hook.last_error, None);
}

#[test]
fn a_timeout_is_a_stream_timeout() {
    let mut hook = TelemetryHook::new(attribution("m"));
    hook.on_error(&"e".repeat(300));
    let chat = hook.turn_complete(StopReason::Timeout).unwrap().chat;
    assert_eq!(chat.error_kind, Some(LlmErrorKind::StreamTimeout));
    assert_eq!(chat.error_data, Some("e".repeat(200)));
}

#[test]
fn error_texts_are_classified_in_order() {
    for (text, kind) in [
        ("HTTP 401", LlmErrorKind::AuthError),
        ("UNAUTHORIZED, rate", LlmErrorKind::AuthError),
        ("Throttled", LlmErrorKind::RateLimited),
        ("502 bad gateway", LlmErrorKind::ServerError),
        ("no event for 30s", LlmErrorKind::StreamTimeout),
        ("body mid-flight", LlmErrorKind::StreamInterrupted),
        ("Token Limit reached", LlmErrorKind::ContextOverflow),
        ("DNS lookup", LlmErrorKind::NetworkError),
        ("whatever", LlmErrorKind::Other),
    ] {
        assert_eq!(classify_llm_error(text), kind, "{text}");
    }
}

#[test]
fn denied_tool_emits_tool_call_denied() {
    let mut middleware = ToolTelemetryMiddleware::new(attribution("m"));
    middleware.before("c9".into(), "bash".into(), 10);
    let record = middleware
        .after(
            &ToolResult {
                call_id: "c9".into(),
                content: "blocked: user denied".into(),
                is_error: true,
            },
            25,
        )
        .unwrap()
        .call;
    assert_eq!(record.name, "bash");
    assert!(!record.success);
    assert_eq!(record.duration_ms, 15);
    assert_eq!(record.error_kind, Some(ToolErrorKind::DeniedByUser));
}

#[test]
fn tool_middleware_emits_tool_call() {
    let mut middleware = ToolTelemetryMiddleware::new(attribution("m"));
    middleware.before("c1".into(), "bash".into(), 0);
    middleware.before("c2".into(), "read".into(), 5);
    let ok = ToolResult { call_id: "c1".into(), content: "ok".into(), is_error: false };
    let record = middleware.after(&ok, 7).unwrap();
    assert_eq!(record.context.model.as_deref(), Some("m"));
    let record = record.call;
    assert_eq!((record.name.as_str(), record.success, record.error_kind), ("bash", true, None));
    assert!(middleware.after(&ok, 8).is_none());
    let unknown = ToolResult {
        call_id: "c2".into(),
        content: "unknown or unmounted tool: read".into(),
        is_error: true,
    };
    assert_eq!(
        middleware.after(&unknown, 9).unwrap().call.error_kind,
        Some(ToolErrorKind::NotFound)
    );
    middleware.before("c3".into(), "x".into(), 1);
    middleware.before("c3".into(), "y".into(), 2);
    let failed = ToolResult { call_id: "c3".into(), content: "boom".into(), is_error: true };
    let record = middleware.after(&failed, 3).unwrap().call;
    assert_eq!((record.name.as_str(), record.duration_ms), ("y", 1));
    assert_eq!(record.error_kind, Some(ToolErrorKind::ExecutionFailed));
}

#[test]
fn a_failed_round_carries_its_attribution_too() {
    let mut hook = TelemetryHook::new(Attribution::new("openai".into(), None, "m".into()));
    hook.on_error("boom");
    let record = hook.turn_complete(StopReason::ProviderError).unwrap();
    assert_eq!(record.context, hook.attribution.scope_ctx());
    assert_eq!(
        (record.context.provider_host, record.context.model.as_deref()),
        (None, Some("m"))
    );
}

#[test]
fn each_start_gives_one_record() {
    let mut middleware = ToolTelemetryMiddleware::new(attribution("m"));
    let over = |id: &str| ToolResult { call_id: id.into(), content: "ok".into(), is_error: false };
    for _ in 0..3 {
        middleware.before("a".into(), "bash".into(), 0);
    }
    assert_eq!(middleware.inflight.len(), 1);
    assert!(middleware.after(&over("a"), 1).is_some());
    assert!(middleware.after(&over("a"), 1).is_none());
    assert!(middleware.after(&over("b"), 1).is_none());
    middleware.before("a".into(), "bash".into(), 2);
    assert!(middleware.after(&over("a"), 3).is_some());
}
