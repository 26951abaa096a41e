//! What is measured of model rounds and tool calls: which records are made, and of what
//! kind an error is.
use crate::conversation::Message;
use crate::event::{MessageMeta, StopReason, ToolResult};
use crate::text::{
    clip, clipped, contains, copy_opt, lowercase, lowercased, occurs, opt_text, starts_with,
};
use vstd::prelude::*;
use vstd::string::*;
use vstd::utf8::encode_utf8;

verus! {

/// Kind of a failed model round.
#[derive(Clone, Copy, Debug, PartialEq, Eq, Structural)]
pub enum LlmErrorKind {
    AuthError,
    RateLimited,
    ServerError,
    StreamTimeout,
    StreamInterrupted,
    ContextOverflow,
    NetworkError,
    Other,
}

/// Kind of a failed tool call.
#[derive(Clone, Copy, Debug, PartialEq, Eq, Structural)]
pub enum ToolErrorKind {
    DeniedByUser,
    NotFound,
    ExecutionFailed,
}

/// Kind of an error text in lower case: the first rule that finds one of its words decides.
pub open spec fn error_kind_of(text: Seq<char>) -> LlmErrorKind {
    if occurs("401"@, text) || occurs("403"@, text) || occurs("unauthorized"@, text) || occurs(
        "auth"@,
        text,
    ) {
        LlmErrorKind::AuthError
    } else if occurs("429"@, text) || occurs("rate"@, text) || occurs("throttl"@, text) {
        LlmErrorKind::RateLimited
    } else if occurs("500"@, text) || occurs("502"@, text) || occurs("503"@, text) {
        LlmErrorKind::ServerError
    } else if occurs("stream timeout"@, text) || occurs("no event for"@, text) {
        LlmErrorKind::StreamTimeout
    } else if occurs("decode"@, text) || occurs("mid-flight"@, text) || occurs(
        "terminated"@,
        text,
    ) {
        LlmErrorKind::StreamInterrupted
    } else if occurs("context"@, text) || occurs("max_tokens"@, text) || occurs(
        "token limit"@,
        text,
    ) {
        LlmErrorKind::ContextOverflow
    } else if occurs("connect"@, text) || occurs("dns"@, text) || occurs("network"@, text)
        || occurs("timeout"@, text) {
        LlmErrorKind::NetworkError
    } else {
        LlmErrorKind::Other
    }
}

/// Kind of an error text that is already in lower case.
pub fn classify_lowercased(text: &str) -> (kind: LlmErrorKind)
    ensures
        kind == error_kind_of(text@),
{
    if contains(text, "401") || contains(text, "403") || contains(text, "unauthorized")
        || contains(text, "auth") {
        LlmErrorKind::AuthError
    } else if contains(text, "429") || contains(text, "rate") || contains(text, "throttl") {
        LlmErrorKind::RateLimited
    } else if contains(text, "500") || contains(text, "502") || contains(text, "503") {
        LlmErrorKind::ServerError
    } else if contains(text, "stream timeout") || contains(text, "no event for") {
        LlmErrorKind::StreamTimeout
    } else if contains(text, "decode") || contains(text, "mid-flight") || contains(
        text,
        "terminated",
    ) {
        LlmErrorKind::StreamInterrupted
    } else if contains(text, "context") || contains(text, "max_tokens") || contains(
        text,
        "token limit",
    ) {
        LlmErrorKind::ContextOverflow
    } else if contains(text, "connect") || contains(text, "dns") || contains(text, "network")
        || contains(text, "timeout") {
        LlmErrorKind::NetworkError
    } else {
        LlmErrorKind::Other
    }
}

/// Kind of a provider or stream error, by its text in any case.
pub fn classify_llm_error(reason: &str) -> (kind: LlmErrorKind)
    ensures
        kind == error_kind_of(lowercase(reason@)),
{
    let text = lowercased(reason);
    classify_lowercased(text.as_str())
}

/// A tool that is offered to a model.
#[derive(Clone, Debug, PartialEq, Eq)]
pub struct ToolDef {
    pub name: String,
    pub description: String,
    /// The schema of the parameters, as JSON text.
    pub parameters: String,
}

/// The length of a text in bytes.
pub open spec fn byte_count(text: Seq<char>) -> nat {
    encode_utf8(text).len() as usize as nat
}

/// Bytes of all tool definitions.
pub open spec fn definition_bytes(tools: Seq<ToolDef>) -> nat
    decreases tools.len(),
{
    if tools.len() == 0 {
        0
    } else {
        definition_bytes(tools.drop_last()) + byte_count(tools.last().name@) + byte_count(
            tools.last().description@,
        ) + byte_count(tools.last().parameters@)
    }
}

/// A number cut to the low 32 bits.
pub open spec fn low32(value: int) -> int {
    value % 0x1_0000_0000
}

fn add_low(sum: u64, value: usize, Ghost(total): Ghost<int>) -> (next: u64)
    requires
        sum == low32(total),
    ensures
        next == low32(total + value),
        next < 0x1_0000_0000,
{
    proof {
        vstd::arithmetic::div_mod::lemma_add_mod_noop(total, value as int, 0x1_0000_0000);
    }
    (sum + value as u64 % 0x1_0000_0000) % 0x1_0000_0000
}

/// One record of a model round.
#[derive(Clone, Debug, PartialEq, Eq)]
pub struct LlmChat {
    pub duration_ms: u32,
    pub tool_calls_count: u32,
    pub input_tokens: u32,
    pub output_tokens: u32,
    pub cached_tokens: u32,
    pub had_error: bool,
    pub context_window: u32,
    pub system_tokens: u32,
    pub tool_def_tokens: u32,
    pub tool_result_tokens: u32,
    pub message_tokens: u32,
    pub messages_count: u32,
    pub error_kind: Option<LlmErrorKind>,
    pub error_data: Option<String>,
}

/// Which provider, host and model records are attributed to.
#[derive(Clone, Debug, PartialEq, Eq)]
pub struct Attribution {
    pub provider: Option<String>,
    pub provider_host: Option<String>,
    pub model: String,
}

/// What a record says of where it came from.
#[derive(Clone, Debug, PartialEq, Eq)]
pub struct CurrentContext {
    pub provider: Option<String>,
    pub provider_host: Option<String>,
    pub model: Option<String>,
}

impl Attribution {
    /// `vendor` is the family of the provider; `provider_host` is the host that its address
    /// resolves to, if any.
    pub fn new(vendor: String, provider_host: Option<String>, model: String) -> (attribution: Self)
        ensures
            attribution == (Attribution { provider: Some(vendor), provider_host, model }),
    {
        Attribution { provider: Some(vendor), provider_host, model }
    }

    pub open spec fn context(self) -> CurrentContext {
        CurrentContext {
            provider: self.provider,
            provider_host: self.provider_host,
            model: Some(self.model),
        }
    }

    /// The context that every record of this attribution carries.
    pub fn scope_ctx(&self) -> (context: CurrentContext)
        ensures
            context == self.context(),
    {
        CurrentContext {
            provider: copy_opt(&self.provider),
            provider_host: copy_opt(&self.provider_host),
            model: Some(self.model.clone()),
        }
    }
}

/// A record of a model round, with where it came from.
#[derive(Clone, Debug, PartialEq, Eq)]
pub struct ChatRecord {
    pub context: CurrentContext,
    pub chat: LlmChat,
}

/// Makes one record for each model round.
#[derive(Clone, Debug, PartialEq, Eq)]
pub struct TelemetryHook {
    pub attribution: Attribution,
    pub last_messages_count: u32,
    pub last_tool_def_bytes: u32,
    /// The last error, until the turn ends.
    pub last_error: Option<String>,
}

impl TelemetryHook {
    pub fn new(attribution: Attribution) -> (hook: Self)
        ensures
            hook.attribution == attribution,
            hook.last_messages_count == 0,
            hook.last_tool_def_bytes == 0,
            hook.last_error is None,
    {
        TelemetryHook {
            attribution,
            last_messages_count: 0,
            last_tool_def_bytes: 0,
            last_error: None,
        }
    }

    /// A request goes out: its size is remembered for the record of the round.
    pub fn on_request(&mut self, messages: &Vec<Message>, tools: &Vec<ToolDef>)
        ensures
            final(self).last_messages_count == low32(messages@.len() as int),
            final(self).last_tool_def_bytes == low32(definition_bytes(tools@) as int),
            final(self).last_error == old(self).last_error,
            final(self).attribution == old(self).attribution,
    {
        let mut bytes: u64 = 0;
        let mut i: usize = 0;
        while i < tools.len()
            invariant
                0 <= i <= tools.len(),
                bytes == low32(definition_bytes(tools@.take(i as int)) as int),
                bytes < 0x1_0000_0000,
            decreases tools.len() - i,
        {
            proof {
                assert(tools@.take(i + 1).drop_last() =~= tools@.take(i as int));
                assert(tools@.take(i + 1).last() == tools@[i as int]);
            }
            let ghost before = definition_bytes(tools@.take(i as int)) as int;
            let tool = &tools[i];
            let name: usize = tool.name.as_str().len();
            let description: usize = tool.description.as_str().len();
            let parameters: usize = tool.parameters.as_str().len();
            bytes = add_low(bytes, name, Ghost(before));
            bytes = add_low(bytes, description, Ghost(before + name));
            bytes = add_low(bytes, parameters, Ghost(before + name + description));
            i = i + 1;
        }
        assert(tools@.take(i as int) =~= tools@);
        self.last_messages_count = (messages.len() as u64 % 0x1_0000_0000) as u32;
        self.last_tool_def_bytes = bytes as u32;
    }

    /// A response came: its record, if the provider reported usage.
    pub fn on_model_response(&self, meta: Option<MessageMeta>, tool_calls: usize) -> (record: Option<
        ChatRecord,
    >)
        ensures
            match meta {
                None => record is None,
                Some(usage) => record == Some(
                    ChatRecord {
                        context: self.attribution.context(),
                        chat: LlmChat {
                            duration_ms: low32(usage.elapsed_ms as int) as u32,
                            tool_calls_count: low32(tool_calls as int) as u32,
                            input_tokens: usage.tokens.prompt,
                            output_tokens: usage.tokens.completion,
                            cached_tokens: usage.tokens.cached,
                            had_error: false,
                            context_window: usage.ctx_window,
                            system_tokens: 0,
                            tool_def_tokens: (self.last_tool_def_bytes / 4) as u32,
                            tool_result_tokens: 0,
                            message_tokens: 0,
                            messages_count: self.last_messages_count,
                            error_kind: None,
                            error_data: None,
                        },
                    },
                ),
            },
    {
        match meta {
            None => None,
            Some(usage) => Some(
                ChatRecord {
                    context: self.attribution.scope_ctx(),
                    chat: LlmChat {
                        duration_ms: (usage.elapsed_ms % 0x1_0000_0000) as u32,
                        tool_calls_count: (tool_calls as u64 % 0x1_0000_0000) as u32,
                        input_tokens: usage.tokens.prompt,
                        output_tokens: usage.tokens.completion,
                        cached_tokens: usage.tokens.cached,
                        had_error: false,
                        context_window: usage.ctx_window,
                        system_tokens: 0,
                        tool_def_tokens: self.last_tool_def_bytes / 4,
                        tool_result_tokens: 0,
                        message_tokens: 0,
                        messages_count: self.last_messages_count,
                        error_kind: None,
                        error_data: None,
                    },
                },
            ),
        }
    }

    /// Something went wrong; whether it counts is known when the turn ends.
    pub fn on_error(&mut self, error: &str)
        ensures
            opt_text(final(self).last_error) == Some(error@),
            final(self).last_messages_count == old(self).last_messages_count,
            final(self).last_tool_def_bytes == old(self).last_tool_def_bytes,
            final(self).attribution == old(self).attribution,
    {
        self.last_error = Some(error.to_owned());
    }

    /// The turn ended: a failure of the provider gets a record, with the error that was
    /// noted, cut to 200 characters. Whatever was noted is forgotten.
    pub fn turn_complete(&mut self, reason: StopReason) -> (record: Option<ChatRecord>)
        ensures
            final(self).last_error is None,
            final(self).last_messages_count == old(self).last_messages_count,
            final(self).last_tool_def_bytes == old(self).last_tool_def_bytes,
            final(self).attribution == old(self).attribution,
            record is Some <==> reason == StopReason::ProviderError || reason
                == StopReason::Timeout,
            record matches Some(ChatRecord { context, chat }) ==> {
                &&& context == old(self).attribution.context()
                &&& chat.had_error
                &&& chat.messages_count == old(self).last_messages_count
                &&& chat.duration_ms == 0 && chat.tool_calls_count == 0
                &&& chat.input_tokens == 0 && chat.output_tokens == 0 && chat.cached_tokens == 0
                &&& chat.context_window == 0 && chat.system_tokens == 0 && chat.tool_def_tokens
                    == 0 && chat.tool_result_tokens == 0 && chat.message_tokens == 0
                &&& chat.error_kind == Some(
                    if reason == StopReason::Timeout {
                        LlmErrorKind::StreamTimeout
                    } else {
                        match old(self).last_error {
                            Some(error) => error_kind_of(lowercase(error@)),
                            None => LlmErrorKind::Other,
                        }
                    },
                )
                &&& opt_text(chat.error_data) == match old(self).last_error {
                    Some(error) => Some(clipped(error@, 200)),
                    None => None,
                }
            },
    {
        let mut last: Option<String> = None;
        core::mem::swap(&mut last, &mut self.last_error);
        let kind = match reason {
            StopReason::ProviderError => match &last {
                Some(error) => classify_llm_error(error.as_str()),
                None => LlmErrorKind::Other,
            },
            StopReason::Timeout => LlmErrorKind::StreamTimeout,
            _ => return None,
        };
        let error_data = match &last {
            Some(error) => Some(clip(error.as_str(), 200)),
            None => None,
        };
        Some(
            ChatRecord {
                context: self.attribution.scope_ctx(),
                chat: LlmChat {
                    duration_ms: 0,
                    tool_calls_count: 0,
                    input_tokens: 0,
                    output_tokens: 0,
                    cached_tokens: 0,
                    had_error: true,
                    context_window: 0,
                    system_tokens: 0,
                    tool_def_tokens: 0,
                    tool_result_tokens: 0,
                    message_tokens: 0,
                    messages_count: self.last_messages_count,
                    error_kind: Some(kind),
                    error_data,
                },
            },
        )
    }
}

/// One record of a tool call.
#[derive(Clone, Debug, PartialEq, Eq)]
pub struct ToolCallRecord {
    pub name: String,
    pub success: bool,
    pub duration_ms: u32,
    pub error_kind: Option<ToolErrorKind>,
    pub error_data: Option<String>,
}

/// A record of a tool call, with where it came from.
#[derive(Clone, Debug, PartialEq, Eq)]
pub struct ToolRecord {
    pub context: CurrentContext,
    pub call: ToolCallRecord,
}

/// A tool call that has started.
#[derive(Clone, Debug, PartialEq, Eq)]
pub struct StartedCall {
    pub call_id: String,
    pub name: String,
    pub started_ms: u64,
}

/// Makes one record for each tool call that ran.
#[derive(Clone, Debug, PartialEq, Eq)]
pub struct ToolTelemetryMiddleware {
    pub attribution: Attribution,
    pub inflight: Vec<StartedCall>,
}

/// Place of the call in the list, or the length of the list.
pub open spec fn call_place(calls: Seq<StartedCall>, call_id: Seq<char>) -> int
    decreases calls.len(),
{
    if calls.len() == 0 {
        0
    } else if calls[0].call_id@ == call_id {
        0
    } else {
        1 + call_place(calls.drop_first(), call_id)
    }
}

/// The calls in flight once this one has started; the same call seen again starts anew.
pub open spec fn with_call(calls: Seq<StartedCall>, started: StartedCall) -> Seq<StartedCall> {
    let place = call_place(calls, started.call_id@);
    if place < calls.len() {
        calls.update(place, started)
    } else {
        calls.push(started)
    }
}

/// The calls in flight once the one with the id is over.
pub open spec fn without_call(calls: Seq<StartedCall>, call_id: Seq<char>) -> Seq<StartedCall> {
    let place = call_place(calls, call_id);
    if place < calls.len() {
        calls.remove(place)
    } else {
        calls
    }
}

/// Whether a call with the id is in flight.
pub open spec fn in_flight(calls: Seq<StartedCall>, call_id: Seq<char>) -> bool {
    exists|i: int| 0 <= i < calls.len() && (#[trigger] calls[i]).call_id@ == call_id
}

/// No call is in flight twice.
pub open spec fn are_distinct(calls: Seq<StartedCall>) -> bool {
    forall|i: int, j: int|
        0 <= i < j < calls.len() ==> (#[trigger] calls[i]).call_id@ != (
        #[trigger] calls[j]).call_id@
}

proof fn call_place_found(calls: Seq<StartedCall>, call_id: Seq<char>, i: int)
    requires
        0 <= i <= calls.len(),
        forall|j: int| 0 <= j < i ==> (#[trigger] calls[j]).call_id@ != call_id,
        i < calls.len() ==> calls[i].call_id@ == call_id,
    ensures
        call_place(calls, call_id) == i,
    decreases calls.len(),
{
    if i > 0 {
        let rest = calls.drop_first();
        assert(calls[0].call_id@ != call_id);
        assert forall|j: int| 0 <= j < i - 1 implies (#[trigger] rest[j]).call_id@ != call_id by {
            assert(rest[j] == calls[j + 1]);
        }
        call_place_found(rest, call_id, i - 1);
    }
}

/// Kind of the error of a tool result, if it is one.
pub open spec fn tool_error_of(result: ToolResult) -> Option<ToolErrorKind> {
    if !result.is_error {
        None
    } else if "blocked:"@.is_prefix_of(result.content@) {
        Some(ToolErrorKind::DeniedByUser)
    } else if "unknown or unmounted tool"@.is_prefix_of(result.content@) {
        Some(ToolErrorKind::NotFound)
    } else {
        Some(ToolErrorKind::ExecutionFailed)
    }
}

/// Kind of the error of a tool result: denied, unknown, or a real failure.
pub fn classify_tool_result(result: &ToolResult) -> (kind: Option<ToolErrorKind>)
    ensures
        kind == tool_error_of(*result),
{
    if !result.is_error {
        None
    } else if starts_with(result.content.as_str(), "blocked:") {
        Some(ToolErrorKind::DeniedByUser)
    } else if starts_with(result.content.as_str(), "unknown or unmounted tool") {
        Some(ToolErrorKind::NotFound)
    } else {
        Some(ToolErrorKind::ExecutionFailed)
    }
}

/// Time between two readings of the clock, in milliseconds cut to 32 bits.
pub open spec fn elapsed(started: u64, now: u64) -> u32 {
    if now >= started {
        low32(now - started) as u32
    } else {
        0
    }
}

impl ToolTelemetryMiddleware {
    pub fn new(attribution: Attribution) -> (middleware: Self)
        ensures
            middleware.attribution == attribution,
            middleware.inflight@.len() == 0,
    {
        ToolTelemetryMiddleware { attribution, inflight: Vec::new() }
    }

    fn find(&self, call_id: &str) -> (place: usize)
        ensures
            place == call_place(self.inflight@, call_id@),
            place <= self.inflight@.len(),
    {
        let mut i: usize = 0;
        while i < self.inflight.len()
            invariant
                0 <= i <= self.inflight.len(),
                forall|j: int|
                    0 <= j < i ==> (#[trigger] self.inflight@[j]).call_id@ != call_id@,
            decreases self.inflight.len() - i,
        {
            if crate::text::same_text(self.inflight[i].call_id.as_str(), call_id) {
                proof {
                    call_place_found(self.inflight@, call_id@, i as int);
                }
                return i;
            }
            i = i + 1;
        }
        proof {
            call_place_found(self.inflight@, call_id@, i as int);
        }
        i
    }

    /// A tool call is about to run. The same call seen again starts anew.
    pub fn before(&mut self, call_id: String, name: String, now_ms: u64)
        ensures
            final(self).inflight@ == with_call(
                old(self).inflight@,
                StartedCall { call_id, name, started_ms: now_ms },
            ),
            final(self).attribution == old(self).attribution,
    {
        let place: usize = self.find(call_id.as_str());
        let started = StartedCall { call_id, name, started_ms: now_ms };
        if place < self.inflight.len() {
            self.inflight.set(place, started);
        } else {
            self.inflight.push(started);
        }
    }

    /// A tool call is over: its record, if it was seen to start. Each start gives one record.
    pub fn after(&mut self, result: &ToolResult, now_ms: u64) -> (record: Option<ToolRecord>)
        ensures
            ({
                let calls = old(self).inflight@;
                let place = call_place(calls, result.call_id@);
                if place < calls.len() {
                    record == Some(
                        ToolRecord {
                            context: old(self).attribution.context(),
                            call: ToolCallRecord {
                                name: calls[place].name,
                                success: !result.is_error,
                                duration_ms: elapsed(calls[place].started_ms, now_ms),
                                error_kind: tool_error_of(*result),
                                error_data: None,
                            },
                        },
                    )
                } else {
                    record is None
                }
            }),
            final(self).inflight@ == without_call(old(self).inflight@, result.call_id@),
            final(self).attribution == old(self).attribution,
    {
        let place: usize = self.find(result.call_id.as_str());
        if place == self.inflight.len() {
            return None;
        }
        let call = self.inflight.remove(place);
        let duration_ms: u32 = if now_ms >= call.started_ms {
            ((now_ms - call.started_ms) % 0x1_0000_0000) as u32
        } else {
            0
        };
        Some(
            ToolRecord {
                context: self.attribution.scope_ctx(),
                call: ToolCallRecord {
                    name: call.name,
                    success: !result.is_error,
                    duration_ms,
                    error_kind: classify_tool_result(result),
                    error_data: None,
                },
            },
        )
    }
}

/// What happens to tool calls.
pub enum CallStep {
    /// A call is about to run.
    Before(StartedCall),
    /// The call with the id is over.
    After(Seq<char>),
}

/// The calls in flight after the steps, from none.
pub open spec fn calls_after(steps: Seq<CallStep>) -> Seq<StartedCall>
    decreases steps.len(),
{
    if steps.len() == 0 {
        Seq::empty()
    } else {
        let calls = calls_after(steps.drop_last());
        match steps.last() {
            CallStep::Before(started) => with_call(calls, started),
            CallStep::After(call_id) => without_call(calls, call_id),
        }
    }
}

/// How often a call with the id was started.
pub open spec fn starts_of(steps: Seq<CallStep>, call_id: Seq<char>) -> nat
    decreases steps.len(),
{
    if steps.len() == 0 {
        0
    } else {
        starts_of(steps.drop_last(), call_id) + match steps.last() {
            CallStep::Before(started) => if started.call_id@ == call_id {
                1nat
            } else {
                0
            },
            CallStep::After(_) => 0,
        }
    }
}

/// How many records there are of calls with the id.
pub open spec fn records_of(steps: Seq<CallStep>, call_id: Seq<char>) -> nat
    decreases steps.len(),
{
    if steps.len() == 0 {
        0
    } else {
        records_of(steps.drop_last(), call_id) + match steps.last() {
            CallStep::Before(_) => 0,
            CallStep::After(ended) => if ended == call_id && in_flight(
                calls_after(steps.drop_last()),
                ended,
            ) {
                1nat
            } else {
                0
            },
        }
    }
}

/// Over any history of calls, no call is in flight twice, and each start gives at most one
/// record: the records of a call and the one still in flight, if it is, are no more than its
/// starts.
pub proof fn each_start_gives_at_most_one_record(steps: Seq<CallStep>, call_id: Seq<char>)
    ensures
        are_distinct(calls_after(steps)),
        records_of(steps, call_id) + if in_flight(calls_after(steps), call_id) {
            1nat
        } else {
            0
        } <= starts_of(steps, call_id),
    decreases steps.len(),
{
    if steps.len() > 0 {
        let calls = calls_after(steps.drop_last());
        each_start_gives_at_most_one_record(steps.drop_last(), call_id);
        match steps.last() {
            CallStep::Before(started) => {
                starting_keeps_calls_distinct(calls, started);
                starting_changes_one_call(calls, started, call_id);
            },
            CallStep::After(ended) => {
                ending_takes_one_call(calls, ended, call_id);
            },
        }
    }
}

proof fn call_place_is_first(calls: Seq<StartedCall>, call_id: Seq<char>)
    ensures
        0 <= call_place(calls, call_id) <= calls.len(),
        call_place(calls, call_id) < calls.len() ==> calls[call_place(calls, call_id)].call_id@
            == call_id,
        in_flight(calls, call_id) <==> call_place(calls, call_id) < calls.len(),
    decreases calls.len(),
{
    if calls.len() > 0 {
        let rest = calls.drop_first();
        call_place_is_first(rest, call_id);
        if calls[0].call_id@ == call_id {
            assert(in_flight(calls, call_id));
        } else {
            if in_flight(rest, call_id) {
                let i = choose|i: int| 0 <= i < rest.len() && (#[trigger] rest[i]).call_id@ == call_id;
                assert(calls[i + 1] == rest[i]);
            }
            if in_flight(calls, call_id) {
                let i = choose|i: int|
                    0 <= i < calls.len() && (#[trigger] calls[i]).call_id@ == call_id;
                assert(rest[i - 1] == calls[i]);
            }
        }
    }
}

proof fn starting_keeps_calls_distinct(calls: Seq<StartedCall>, started: StartedCall)
    requires
        are_distinct(calls),
    ensures
        are_distinct(with_call(calls, started)),
{
    let id = started.call_id@;
    let after = with_call(calls, started);
    let place = call_place(calls, id);
    call_place_is_first(calls, id);
    assert forall|i: int, j: int| 0 <= i < j < after.len() implies (#[trigger] after[i]).call_id@
        != (#[trigger] after[j]).call_id@ by {
        if place < calls.len() {
            assert(after[i].call_id@ == calls[i].call_id@);
            assert(after[j].call_id@ == calls[j].call_id@);
        } else if j == calls.len() {
            assert(after[i] == calls[i]);
            assert(!in_flight(calls, id));
        } else {
            assert(after[i] == calls[i] && after[j] == calls[j]);
        }
    }
}

proof fn starting_changes_one_call(calls: Seq<StartedCall>, started: StartedCall, call_id: Seq<char>)
    ensures
        in_flight(with_call(calls, started), call_id) == (in_flight(calls, call_id)
            || started.call_id@ == call_id),
{
    let after = with_call(calls, started);
    let place = call_place(calls, started.call_id@);
    call_place_is_first(calls, started.call_id@);
    assert(after[place] == started);
    if in_flight(calls, call_id) && started.call_id@ != call_id {
        let i = choose|i: int| 0 <= i < calls.len() && (#[trigger] calls[i]).call_id@ == call_id;
        assert(after[i] == calls[i]);
    }
    if in_flight(after, call_id) && started.call_id@ != call_id {
        let i = choose|i: int| 0 <= i < after.len() && (#[trigger] after[i]).call_id@ == call_id;
        assert(calls[i] == after[i]);
    }
}

proof fn ending_takes_one_call(calls: Seq<StartedCall>, ended: Seq<char>, call_id: Seq<char>)
    requires
        are_distinct(calls),
    ensures
        are_distinct(without_call(calls, ended)),
        in_flight(without_call(calls, ended), call_id) == (in_flight(calls, call_id) && ended
            != call_id),
{
    let after = without_call(calls, ended);
    let place = call_place(calls, ended);
    call_place_is_first(calls, ended);
    if place < calls.len() {
        let back = |i: int|
            if i < place {
                i
            } else {
                i + 1
            };
        assert forall|i: int| 0 <= i < after.len() implies #[trigger] after[i] == calls[back(i)] by {}
        assert forall|i: int, j: int| 0 <= i < j < after.len() implies (
        #[trigger] after[i]).call_id@ != (#[trigger] after[j]).call_id@ by {
            assert(calls[back(i)].call_id@ != calls[back(j)].call_id@);
        }
        if in_flight(after, call_id) {
            let i = choose|i: int|
                0 <= i < after.len() && (#[trigger] after[i]).call_id@ == call_id;
            assert(after[i] == calls[back(i)]);
            if back(i) < place {
                assert(calls[back(i)].call_id@ != calls[place].call_id@);
            } else {
                assert(calls[place].call_id@ != calls[back(i)].call_id@);
            }
        }
        if in_flight(calls, call_id) && ended != call_id {
            let i = choose|i: int|
                0 <= i < calls.len() && (#[trigger] calls[i]).call_id@ == call_id;
            let k = if i < place {
                i
            } else {
                i - 1
            };
            assert(after[k] == calls[i]);
        }
    }
}

} // verus!
