//! Records: what is measured of model rounds and tool calls, and of what kind a failure is.
use crate::conversation::Message;
use crate::event::{MessageMeta, StopReason, ToolResult};
use crate::telemetry::{
    classify_llm_error, classify_lowercased, classify_tool_result, Attribution, ChatRecord,
    CurrentContext, LlmErrorKind, StartedCall, TelemetryHook, ToolDef, ToolErrorKind, ToolRecord,
    ToolTelemetryMiddleware,
};
use crate::text::{contains, lowercase};
use vstd::prelude::*;
use vstd::string::*;
use vstd::utf8::encode_utf8;

verus! {

/// Whether the text holds the words somewhere.
pub open spec fn holds(text: Seq<char>, words: Seq<char>) -> bool {
    exists|i: int|
        0 <= i <= text.len() - words.len() && #[trigger] text.subrange(i, i + words.len()) == words
}

/// Whether the text speaks of refused access.
pub open spec fn speaks_of_access(text: Seq<char>) -> bool {
    holds(text, "401"@)
        || holds(text, "403"@)
        || holds(text, "unauthorized"@)
        || holds(text, "auth"@)
}

/// Whether the text speaks of a rate limit.
pub open spec fn speaks_of_limits(text: Seq<char>) -> bool {
    holds(text, "429"@)
        || holds(text, "rate"@)
        || holds(text, "throttl"@)
}

/// Whether the text speaks of a failure of the server.
pub open spec fn speaks_of_the_server(text: Seq<char>) -> bool {
    holds(text, "500"@)
        || holds(text, "502"@)
        || holds(text, "503"@)
}

/// Whether the text speaks of a stream that fell silent.
pub open spec fn speaks_of_silence(text: Seq<char>) -> bool {
    holds(text, "stream timeout"@)
        || holds(text, "no event for"@)
}

/// Whether the text speaks of a stream that broke off.
pub open spec fn speaks_of_a_broken_stream(text: Seq<char>) -> bool {
    holds(text, "decode"@)
        || holds(text, "mid-flight"@)
        || holds(text, "terminated"@)
}

/// Whether the text speaks of a context that is too long.
pub open spec fn speaks_of_the_context(text: Seq<char>) -> bool {
    holds(text, "context"@)
        || holds(text, "max_tokens"@)
        || holds(text, "token limit"@)
}

/// Whether the text speaks of the network.
pub open spec fn speaks_of_the_network(text: Seq<char>) -> bool {
    holds(text, "connect"@)
        || holds(text, "dns"@)
        || holds(text, "network"@)
        || holds(text, "timeout"@)
}

/// A text in lower case is of the kind of the first matter that it speaks of, in the order in
/// which they stand here, and of no kind where it speaks of none.
pub proof fn a_failure_is_of_the_kind_it_speaks_of(text: &str, kind: LlmErrorKind)
    requires
        call_ensures(classify_lowercased, (text,), kind),
    ensures
        holds(text@, "401"@) ==> kind is AuthError,
        holds(text@, "403"@) ==> kind is AuthError,
        holds(text@, "unauthorized"@) ==> kind is AuthError,
        holds(text@, "auth"@) ==> kind is AuthError,
        holds(text@, "429"@) && !speaks_of_access(text@) ==> kind is RateLimited,
        holds(text@, "rate"@) && !speaks_of_access(text@) ==> kind is RateLimited,
        holds(text@, "throttl"@) && !speaks_of_access(text@) ==> kind is RateLimited,
        holds(text@, "500"@) && !speaks_of_access(text@) && !speaks_of_limits(text@) ==> kind is ServerError,
        holds(text@, "502"@) && !speaks_of_access(text@) && !speaks_of_limits(text@) ==> kind is ServerError,
        holds(text@, "503"@) && !speaks_of_access(text@) && !speaks_of_limits(text@) ==> kind is ServerError,
        holds(text@, "stream timeout"@) && !speaks_of_access(text@) && !speaks_of_limits(text@) && !speaks_of_the_server(text@) ==> kind is StreamTimeout,
        holds(text@, "no event for"@) && !speaks_of_access(text@) && !speaks_of_limits(text@) && !speaks_of_the_server(text@) ==> kind is StreamTimeout,
        holds(text@, "decode"@) && !speaks_of_access(text@) && !speaks_of_limits(text@) && !speaks_of_the_server(text@) && !speaks_of_silence(text@) ==> kind is StreamInterrupted,
        holds(text@, "mid-flight"@) && !speaks_of_access(text@) && !speaks_of_limits(text@) && !speaks_of_the_server(text@) && !speaks_of_silence(text@) ==> kind is StreamInterrupted,
        holds(text@, "terminated"@) && !speaks_of_access(text@) && !speaks_of_limits(text@) && !speaks_of_the_server(text@) && !speaks_of_silence(text@) ==> kind is StreamInterrupted,
        holds(text@, "context"@) && !speaks_of_access(text@) && !speaks_of_limits(text@) && !speaks_of_the_server(text@) && !speaks_of_silence(text@) && !speaks_of_a_broken_stream(text@) ==> kind is ContextOverflow,
        holds(text@, "max_tokens"@) && !speaks_of_access(text@) && !speaks_of_limits(text@) && !speaks_of_the_server(text@) && !speaks_of_silence(text@) && !speaks_of_a_broken_stream(text@) ==> kind is ContextOverflow,
        holds(text@, "token limit"@) && !speaks_of_access(text@) && !speaks_of_limits(text@) && !speaks_of_the_server(text@) && !speaks_of_silence(text@) && !speaks_of_a_broken_stream(text@) ==> kind is ContextOverflow,
        holds(text@, "connect"@) && !speaks_of_access(text@) && !speaks_of_limits(text@) && !speaks_of_the_server(text@) && !speaks_of_silence(text@) && !speaks_of_a_broken_stream(text@) && !speaks_of_the_context(text@) ==> kind is NetworkError,
        holds(text@, "dns"@) && !speaks_of_access(text@) && !speaks_of_limits(text@) && !speaks_of_the_server(text@) && !speaks_of_silence(text@) && !speaks_of_a_broken_stream(text@) && !speaks_of_the_context(text@) ==> kind is NetworkError,
        holds(text@, "network"@) && !speaks_of_access(text@) && !speaks_of_limits(text@) && !speaks_of_the_server(text@) && !speaks_of_silence(text@) && !speaks_of_a_broken_stream(text@) && !speaks_of_the_context(text@) ==> kind is NetworkError,
        holds(text@, "timeout"@) && !speaks_of_access(text@) && !speaks_of_limits(text@) && !speaks_of_the_server(text@) && !speaks_of_silence(text@) && !speaks_of_a_broken_stream(text@) && !speaks_of_the_context(text@) ==> kind is NetworkError,
        !speaks_of_access(text@) && !speaks_of_limits(text@) && !speaks_of_the_server(text@) && !speaks_of_silence(text@) && !speaks_of_a_broken_stream(text@) && !speaks_of_the_context(text@) && !speaks_of_the_network(text@) ==> kind is Other,
{
    occurring_is_being_held(text@, "401"@);
    occurring_is_being_held(text@, "403"@);
    occurring_is_being_held(text@, "unauthorized"@);
    occurring_is_being_held(text@, "auth"@);
    occurring_is_being_held(text@, "429"@);
    occurring_is_being_held(text@, "rate"@);
    occurring_is_being_held(text@, "throttl"@);
    occurring_is_being_held(text@, "500"@);
    occurring_is_being_held(text@, "502"@);
    occurring_is_being_held(text@, "503"@);
    occurring_is_being_held(text@, "stream timeout"@);
    occurring_is_being_held(text@, "no event for"@);
    occurring_is_being_held(text@, "decode"@);
    occurring_is_being_held(text@, "mid-flight"@);
    occurring_is_being_held(text@, "terminated"@);
    occurring_is_being_held(text@, "context"@);
    occurring_is_being_held(text@, "max_tokens"@);
    occurring_is_being_held(text@, "token limit"@);
    occurring_is_being_held(text@, "connect"@);
    occurring_is_being_held(text@, "dns"@);
    occurring_is_being_held(text@, "network"@);
    occurring_is_being_held(text@, "timeout"@);
}

/// A failure is of the kind of its text in lower case.
pub proof fn case_makes_no_difference(
    reason: &str,
    lower: &str,
    kind: LlmErrorKind,
    lower_kind: LlmErrorKind,
)
    requires
        call_ensures(classify_llm_error, (reason,), kind),
        call_ensures(classify_lowercased, (lower,), lower_kind),
        lower@ == lowercase(reason@),
    ensures
        kind == lower_kind,
{
}

proof fn occurring_is_being_held(text: Seq<char>, words: Seq<char>)
    ensures
        crate::text::occurs(words, text) == holds(text, words),
{
}

/// A search finds words exactly where they stand in the text.
pub proof fn a_search_finds_what_is_there(text: &str, words: &str, found: bool)
    requires
        call_ensures(contains, (text, words), found),
    ensures
        found == holds(text@, words@),
{
    occurring_is_being_held(text@, words@);
}

/// A record says where it came from: the provider, the host and the model it was attributed
/// to.
pub open spec fn comes_from(context: CurrentContext, attribution: Attribution) -> bool {
    context.provider == attribution.provider && context.provider_host
        == attribution.provider_host && context.model == Some(attribution.model)
}

/// An attribution is made of what it was given, and every record of it carries all of it.
pub proof fn an_attribution_is_carried(
    vendor: String,
    host: Option<String>,
    model: String,
    attribution: Attribution,
    context: CurrentContext,
)
    requires
        call_ensures(Attribution::new, (vendor, host, model), attribution),
        call_ensures(Attribution::scope_ctx, (&attribution,), context),
    ensures
        attribution.provider == Some(vendor) && attribution.provider_host == host,
        attribution.model == model,
        comes_from(context, attribution),
{
}

/// The bytes of the tool definitions, one tool after the other.
pub proof fn tool_definitions_are_added_up(tools: Seq<ToolDef>, tool: ToolDef)
    ensures
        crate::telemetry::definition_bytes(Seq::<ToolDef>::empty()) == 0,
        encode_utf8(tool.name@).len() <= usize::MAX && encode_utf8(tool.description@).len()
            <= usize::MAX && encode_utf8(tool.parameters@).len() <= usize::MAX
            ==> crate::telemetry::definition_bytes(tools.push(tool))
            == crate::telemetry::definition_bytes(tools) + encode_utf8(tool.name@).len()
            + encode_utf8(tool.description@).len() + encode_utf8(tool.parameters@).len(),
{
    assert(tools.push(tool).drop_last() =~= tools);
}

/// A response is recorded exactly where the provider reported usage: with its tokens, its
/// time and the size of the request it answers, and no error.
pub proof fn a_response_is_recorded_with_its_usage(
    sent: &mut TelemetryHook,
    hook: &TelemetryHook,
    messages: &Vec<Message>,
    tools: &Vec<ToolDef>,
    result: (),
    meta: Option<MessageMeta>,
    tool_calls: usize,
    record: Option<ChatRecord>,
)
    requires
        call_ensures(TelemetryHook::on_request, (sent, messages, tools), result),
        *final(sent) == *hook,
        call_ensures(TelemetryHook::on_model_response, (hook, meta, tool_calls), record),
    ensures
        final(sent).attribution == old(sent).attribution,
        final(sent).last_error == old(sent).last_error,
        record is Some <==> meta is Some,
        record is Some ==> {
            let chat = record->0.chat;
            let usage = meta->0;
            &&& comes_from(record->0.context, old(sent).attribution)
            &&& chat.input_tokens == usage.tokens.prompt
            &&& chat.output_tokens == usage.tokens.completion
            &&& chat.cached_tokens == usage.tokens.cached
            &&& chat.context_window == usage.ctx_window
            &&& usage.elapsed_ms < 0x1_0000_0000 ==> chat.duration_ms == usage.elapsed_ms
            &&& tool_calls < 0x1_0000_0000 ==> chat.tool_calls_count == tool_calls
            &&& messages@.len() < 0x1_0000_0000 ==> chat.messages_count == messages@.len()
            &&& crate::telemetry::definition_bytes(tools@) < 0x1_0000_0000
                ==> chat.tool_def_tokens == crate::telemetry::definition_bytes(tools@) / 4
            &&& !chat.had_error && chat.error_kind is None && chat.error_data is None
            &&& chat.system_tokens == 0 && chat.tool_result_tokens == 0 && chat.message_tokens
                == 0
        },
{
}

/// A failed turn is recorded exactly where the provider failed or was too slow, with the kind
/// of the error that was noted and its first 200 characters, and nothing of it stays noted.
pub proof fn a_failed_turn_is_recorded_with_its_error(
    noted: &mut TelemetryHook,
    hook: &mut TelemetryHook,
    error: &str,
    result: (),
    reason: StopReason,
    record: Option<ChatRecord>,
    kind: LlmErrorKind,
)
    requires
        call_ensures(TelemetryHook::on_error, (noted, error), result),
        *final(noted) == *old(hook),
        call_ensures(TelemetryHook::turn_complete, (hook, reason), record),
        call_ensures(classify_llm_error, (error,), kind),
    ensures
        record is Some <==> reason is ProviderError || reason is Timeout,
        final(hook).last_error is None,
        final(hook).attribution == old(noted).attribution,
        record is Some ==> {
            let chat = record->0.chat;
            &&& comes_from(record->0.context, old(noted).attribution)
            &&& chat.had_error
            &&& reason is Timeout ==> chat.error_kind == Some(LlmErrorKind::StreamTimeout)
            &&& reason is ProviderError ==> chat.error_kind == Some(kind)
            &&& chat.error_data is Some
            &&& error@.len() <= 200 ==> chat.error_data->0@ == error@
            &&& error@.len() > 200 ==> chat.error_data->0@ == error@.take(200)
            &&& chat.messages_count == old(noted).last_messages_count
            &&& chat.input_tokens == 0 && chat.output_tokens == 0 && chat.cached_tokens == 0
            &&& chat.duration_ms == 0 && chat.tool_calls_count == 0
        },
{
}

/// A turn that fails without a noted error is of no kind and carries no text.
pub proof fn a_failure_without_a_text(
    hook: &mut TelemetryHook,
    reason: StopReason,
    record: Option<ChatRecord>,
)
    requires
        call_ensures(TelemetryHook::turn_complete, (hook, reason), record),
        old(hook).last_error is None,
        reason is ProviderError,
    ensures
        record is Some && record->0.chat.error_kind == Some(LlmErrorKind::Other)
            && record->0.chat.error_data is None,
{
}

/// Whether the text starts with the words.
pub open spec fn begins(text: Seq<char>, words: Seq<char>) -> bool {
    words.len() <= text.len() && text.take(words.len() as int) == words
}

/// A tool result is no failure, or was denied, or asked for a tool that is not there, or
/// failed.
pub proof fn a_tool_failure_is_told_apart(result: &ToolResult, kind: Option<ToolErrorKind>)
    requires
        call_ensures(classify_tool_result, (result,), kind),
    ensures
        kind is Some <==> result.is_error,
        result.is_error && begins(result.content@, "blocked:"@) ==> kind == Some(
            ToolErrorKind::DeniedByUser,
        ),
        result.is_error && begins(result.content@, "unknown or unmounted tool"@) ==> kind == Some(
            ToolErrorKind::NotFound,
        ),
        result.is_error && !begins(result.content@, "blocked:"@) && !begins(
            result.content@,
            "unknown or unmounted tool"@,
        ) ==> kind == Some(ToolErrorKind::ExecutionFailed),
{
    let denied = "blocked:"@;
    let unknown = "unknown or unmounted tool"@;
    reveal_strlit("blocked:");
    reveal_strlit("unknown or unmounted tool");
    let text = result.content@;
    if denied.len() <= text.len() {
        assert(text.take(denied.len() as int) =~= text.subrange(0, denied.len() as int));
    }
    if unknown.len() <= text.len() {
        assert(text.take(unknown.len() as int) =~= text.subrange(0, unknown.len() as int));
    }
    if begins(text, denied) && begins(text, unknown) {
        assert(text[0] == denied[0] && text[0] == unknown[0]) by {
            assert(text.take(denied.len() as int)[0] == text[0]);
            assert(text.take(unknown.len() as int)[0] == text[0]);
        }
    }
    if begins(text, denied) {
        assert(denied.is_prefix_of(text));
    }
    if denied.is_prefix_of(text) {
        assert(begins(text, denied));
    }
    if begins(text, unknown) {
        assert(unknown.is_prefix_of(text));
    }
    if unknown.is_prefix_of(text) {
        assert(begins(text, unknown));
    }
}

proof fn started_calls_are_found(calls: Seq<StartedCall>, call_id: Seq<char>)
    ensures
        ({
            let place = crate::telemetry::call_place(calls, call_id);
            &&& 0 <= place <= calls.len()
            &&& place < calls.len() ==> calls[place].call_id@ == call_id
            &&& forall|i: int| 0 <= i < place ==> (#[trigger] calls[i]).call_id@ != call_id
        }),
    decreases calls.len(),
{
    if calls.len() > 0 {
        let rest = calls.drop_first();
        started_calls_are_found(rest, call_id);
        assert forall|i: int| 0 <= i < crate::telemetry::call_place(calls, call_id) implies (
        #[trigger] calls[i]).call_id@ != call_id by {
            if i > 0 {
                assert(calls[i] == rest[i - 1]);
            }
        }
        let place = crate::telemetry::call_place(calls, call_id);
        if 0 < place < calls.len() {
            assert(calls[place] == rest[place - 1]);
        }
    }
}

/// A tool call that was seen to start, and is over, is recorded under its name, with the time
/// between and what became of it; it is not in flight any more, and every other call is.
pub proof fn a_tool_call_is_recorded_from_start_to_end(
    middleware: &mut ToolTelemetryMiddleware,
    ended: &mut ToolTelemetryMiddleware,
    call_id: String,
    name: String,
    started_ms: u64,
    begun: (),
    result: &ToolResult,
    now_ms: u64,
    record: Option<ToolRecord>,
    kind: Option<ToolErrorKind>,
)
    requires
        call_ensures(
            ToolTelemetryMiddleware::before,
            (middleware, call_id, name, started_ms),
            begun,
        ),
        *final(middleware) == *old(ended),
        call_ensures(ToolTelemetryMiddleware::after, (ended, result, now_ms), record),
        call_ensures(classify_tool_result, (result,), kind),
        result.call_id@ == call_id@,
        forall|i: int|
            0 <= i < old(middleware).inflight@.len() ==> (
            #[trigger] old(middleware).inflight@[i]).call_id@ != call_id@,
    ensures
        record is Some ==> {
            let call = record->0.call;
            &&& comes_from(record->0.context, old(middleware).attribution)
            &&& call.name == name
            &&& call.success == !result.is_error
            &&& call.error_kind == kind
            &&& call.error_data is None
            &&& started_ms <= now_ms < started_ms + 0x1_0000_0000 ==> call.duration_ms == now_ms
                - started_ms
            &&& now_ms < started_ms ==> call.duration_ms == 0
        },
        record is Some,
        final(ended).inflight@ == old(middleware).inflight@,
{
    let calls = old(middleware).inflight@;
    started_calls_are_found(calls, call_id@);
    let place = crate::telemetry::call_place(calls, call_id@);
    if place < calls.len() {
        assert(calls[place].call_id@ != call_id@);
    }
    let flying = final(middleware).inflight@;
    let started = StartedCall { call_id, name, started_ms };
    assert(flying == calls.push(started));
    started_calls_are_found(flying, call_id@);
    let at = crate::telemetry::call_place(flying, call_id@);
    assert(flying[calls.len() as int] == started);
    if at < calls.len() {
        assert(flying[at] == calls[at]);
    }
    assert(at == calls.len());
    assert(flying.remove(at) =~= calls);
}

/// The end of a call that was not seen to start is not recorded, and changes nothing.
pub proof fn an_unknown_call_is_not_recorded(
    middleware: &mut ToolTelemetryMiddleware,
    result: &ToolResult,
    now_ms: u64,
    record: Option<ToolRecord>,
)
    requires
        call_ensures(ToolTelemetryMiddleware::after, (middleware, result, now_ms), record),
        forall|i: int|
            0 <= i < old(middleware).inflight@.len() ==> (
            #[trigger] old(middleware).inflight@[i]).call_id@ != result.call_id@,
    ensures
        record is None,
        final(middleware).inflight@ == old(middleware).inflight@,
{
    started_calls_are_found(old(middleware).inflight@, result.call_id@);
    let place = crate::telemetry::call_place(old(middleware).inflight@, result.call_id@);
    if place < old(middleware).inflight@.len() {
        assert(old(middleware).inflight@[place].call_id@ != result.call_id@);
    }
}

/// A hook and a middleware begin with nothing seen, under their attribution.
pub proof fn records_begin_with_nothing_seen(
    attribution: Attribution,
    hook: TelemetryHook,
    middleware: ToolTelemetryMiddleware,
)
    requires
        call_ensures(TelemetryHook::new, (attribution,), hook),
        call_ensures(ToolTelemetryMiddleware::new, (attribution,), middleware),
    ensures
        hook.attribution == attribution && middleware.attribution == attribution,
        hook.last_error is None && hook.last_messages_count == 0 && hook.last_tool_def_bytes == 0,
        middleware.inflight@.len() == 0,
{
}

} // verus!
