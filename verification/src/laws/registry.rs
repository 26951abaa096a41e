//! Live sessions: what is journalled, what is replayed, and who is found, opened and let go.
use crate::event::{AgentEvent, CodingRuntimeEvent, RequestId, TurnCompletion};
use crate::conversation::SessionSnapshot;
use crate::session_runtime_registry::{
    activity_from_runtime_event, clip_key, consecutive_runtime_key, entries_after, place_of,
    place_of_is_first, place_of_runtime, registry_wf, LiveSession, LiveView, OpenOutcome,
    RegistryError, Removal, RuntimeActivity, SequencedSessionEvent, SessionKey,
    SessionRuntimeEntry, SessionRuntimeRegistry, SessionViewEvent,
};
use crate::text::{decimal, texts};
use std::sync::Arc;
use vstd::prelude::*;
use vstd::string::*;

verus! {

/// Whether two texts look the same to whoever reads the first 192 characters, and whether
/// there are more.
pub open spec fn looks_same(left: Seq<char>, right: Seq<char>) -> bool {
    left == right || (left.len() > 192 && right.len() > 192 && left.take(192) == right.take(192))
}

/// The text of a chunk that the agent streams.
pub open spec fn chunk(event: CodingRuntimeEvent) -> Option<Seq<char>> {
    match event {
        CodingRuntimeEvent::Agent(AgentEvent::TextDelta(text)) => Some(text@),
        CodingRuntimeEvent::Agent(AgentEvent::Reasoning(text)) => Some(text@),
        _ => None,
    }
}

/// The call that the agent reports on, where it does.
pub open spec fn reported_call(event: CodingRuntimeEvent) -> Option<Seq<char>> {
    match event {
        CodingRuntimeEvent::Agent(AgentEvent::ToolProgress { call_id, message }) => Some(call_id@),
        CodingRuntimeEvent::Agent(AgentEvent::ToolResult { result }) => Some(result.call_id@),
        _ => None,
    }
}

/// What it reports of the call.
pub open spec fn reported_words(event: CodingRuntimeEvent) -> Option<Seq<char>> {
    match event {
        CodingRuntimeEvent::Agent(AgentEvent::ToolProgress { call_id, message }) => Some(message@),
        CodingRuntimeEvent::Agent(AgentEvent::ToolResult { result }) => Some(result.content@),
        _ => None,
    }
}

/// Whether two observations are of the same kind.
pub open spec fn same_kind(left: CodingRuntimeEvent, right: CodingRuntimeEvent) -> bool {
    match (left, right) {
        (
            CodingRuntimeEvent::Agent(AgentEvent::TextDelta(a)),
            CodingRuntimeEvent::Agent(AgentEvent::TextDelta(b)),
        ) => true,
        (
            CodingRuntimeEvent::Agent(AgentEvent::Reasoning(a)),
            CodingRuntimeEvent::Agent(AgentEvent::Reasoning(b)),
        ) => true,
        (
            CodingRuntimeEvent::Agent(AgentEvent::ToolStarted { call: a }),
            CodingRuntimeEvent::Agent(AgentEvent::ToolStarted { call: b }),
        ) => true,
        (
            CodingRuntimeEvent::Agent(AgentEvent::ToolProgress { call_id: a, message: x }),
            CodingRuntimeEvent::Agent(AgentEvent::ToolProgress { call_id: b, message: y }),
        ) => true,
        (
            CodingRuntimeEvent::Agent(AgentEvent::ToolResult { result: a }),
            CodingRuntimeEvent::Agent(AgentEvent::ToolResult { result: b }),
        ) => true,
        _ => false,
    }
}

/// Whether the observation has a fingerprint: what the agent streams, and what it reports of a
/// tool call.
pub open spec fn is_printed(event: CodingRuntimeEvent) -> bool {
    chunk(event) is Some || reported_call(event) is Some || (event matches CodingRuntimeEvent::Agent(
        AgentEvent::ToolStarted { call },
    ))
}

proof fn prefixed_texts_differ(prefix: Seq<char>, left: Seq<char>, right: Seq<char>)
    ensures
        prefix + left == prefix + right <==> left == right,
{
    if prefix + left == prefix + right {
        let n = prefix.len() as int;
        assert((prefix + left).skip(n) =~= left);
        assert((prefix + right).skip(n) =~= right);
    }
}

proof fn suffixed_texts_differ(left: Seq<char>, right: Seq<char>, suffix: Seq<char>)
    ensures
        left + suffix == right + suffix <==> left == right,
{
    if left + suffix == right + suffix {
        assert((left + suffix).len() == left.len() + suffix.len());
        assert((right + suffix).len() == right.len() + suffix.len());
        assert((left + suffix).take(left.len() as int) =~= left);
        assert((right + suffix).take(right.len() as int) =~= right);
    }
}

proof fn clips_tell_texts_apart(prefix: Seq<char>, left: Seq<char>, right: Seq<char>)
    ensures
        crate::session_runtime_registry::clip_text(prefix, left)
            == crate::session_runtime_registry::clip_text(prefix, right) <==> looks_same(
            left,
            right,
        ),
{
    reveal_strlit("…");
    let dots = "…"@;
    assert(dots.len() == 1);
    let l = if left.len() > 192 {
        left.take(192) + dots
    } else {
        left
    };
    let r = if right.len() > 192 {
        right.take(192) + dots
    } else {
        right
    };
    assert(crate::session_runtime_registry::clip_text(prefix, left) =~= prefix + l);
    assert(crate::session_runtime_registry::clip_text(prefix, right) =~= prefix + r);
    prefixed_texts_differ(prefix, l, r);
    if left.len() > 192 && right.len() > 192 {
        suffixed_texts_differ(left.take(192), right.take(192), dots);
    }
}

/// Exactly what the agent streams, and what it reports of a tool call, has a fingerprint.
pub proof fn only_observations_of_the_agent_are_printed(
    event: &CodingRuntimeEvent,
    print: Option<String>,
)
    requires
        call_ensures(consecutive_runtime_key, (event,), print),
    ensures
        print is Some <==> is_printed(*event),
{
}

/// Two chunks of one kind have the same fingerprint exactly where they look the same: short
/// ones exactly where they are the same.
pub proof fn different_chunks_have_different_prints(
    left: &CodingRuntimeEvent,
    right: &CodingRuntimeEvent,
    left_print: Option<String>,
    right_print: Option<String>,
)
    requires
        call_ensures(consecutive_runtime_key, (left,), left_print),
        call_ensures(consecutive_runtime_key, (right,), right_print),
        chunk(*left) is Some && same_kind(*left, *right),
    ensures
        left_print is Some && right_print is Some,
        left_print->0@ == right_print->0@ <==> looks_same(chunk(*left)->0, chunk(*right)->0),
{
    clips_tell_texts_apart("td:"@, chunk(*left)->0, chunk(*right)->0);
    clips_tell_texts_apart("rd:"@, chunk(*left)->0, chunk(*right)->0);
}

/// Two reports of one kind on the same call have the same fingerprint exactly where their
/// words look the same; two with the same words, exactly where they are on the same call.
pub proof fn different_reports_have_different_prints(
    left: &CodingRuntimeEvent,
    right: &CodingRuntimeEvent,
    left_print: Option<String>,
    right_print: Option<String>,
)
    requires
        call_ensures(consecutive_runtime_key, (left,), left_print),
        call_ensures(consecutive_runtime_key, (right,), right_print),
        reported_call(*left) is Some && same_kind(*left, *right),
    ensures
        left_print is Some && right_print is Some,
        reported_call(*left)->0 == reported_call(*right)->0 ==> (left_print->0@ == right_print->0@
            <==> looks_same(reported_words(*left)->0, reported_words(*right)->0)),
        reported_words(*left)->0 == reported_words(*right)->0 ==> (left_print->0@ == right_print->0@
            <==> reported_call(*left)->0 == reported_call(*right)->0),
{
    let a = reported_call(*left)->0;
    let x = reported_words(*left)->0;
    let b = reported_call(*right)->0;
    let y = reported_words(*right)->0;
    let kind = if *left matches CodingRuntimeEvent::Agent(AgentEvent::ToolResult { result }) {
        "tr:"@
    } else {
        "tp:"@
    };
    let p = crate::session_runtime_registry::clip_text(""@, x);
    let q = crate::session_runtime_registry::clip_text(""@, y);
    assert(left_print->0@ == kind + a + ":"@ + p);
    assert(right_print->0@ == kind + b + ":"@ + q);
    if a == b {
        prefixed_texts_differ(kind + a + ":"@, p, q);
        clips_tell_texts_apart(""@, x, y);
    }
    if x == y {
        suffixed_texts_differ(kind + a + ":"@, kind + b + ":"@, p);
        suffixed_texts_differ(kind + a, kind + b, ":"@);
        prefixed_texts_differ(kind, a, b);
    }
}

/// Two calls that start under one name have the same fingerprint exactly where they are the
/// same call; one call that starts under two names has two.
pub proof fn different_calls_have_different_prints(
    left: &CodingRuntimeEvent,
    right: &CodingRuntimeEvent,
    left_call: crate::conversation::ToolCall,
    right_call: crate::conversation::ToolCall,
    left_print: Option<String>,
    right_print: Option<String>,
)
    requires
        call_ensures(consecutive_runtime_key, (left,), left_print),
        call_ensures(consecutive_runtime_key, (right,), right_print),
        *left == CodingRuntimeEvent::Agent(AgentEvent::ToolStarted { call: left_call }),
        *right == CodingRuntimeEvent::Agent(AgentEvent::ToolStarted { call: right_call }),
    ensures
        left_print is Some && right_print is Some,
        left_call.name@ == right_call.name@ ==> (left_print->0@ == right_print->0@
            <==> left_call.id@ == right_call.id@),
        left_call.id@ == right_call.id@ ==> (left_print->0@ == right_print->0@
            <==> left_call.name@ == right_call.name@),
{
    let kind = "ts:"@;
    let a = left_call.id@;
    let b = right_call.id@;
    if left_call.name@ == right_call.name@ {
        suffixed_texts_differ(kind + a + ":"@, kind + b + ":"@, left_call.name@);
        suffixed_texts_differ(kind + a, kind + b, ":"@);
        prefixed_texts_differ(kind, a, b);
    }
    if a == b {
        prefixed_texts_differ(kind + a + ":"@, left_call.name@, right_call.name@);
    }
}

/// Observations of different kinds never have the same fingerprint.
pub proof fn kinds_have_different_prints(
    left: &CodingRuntimeEvent,
    right: &CodingRuntimeEvent,
    left_print: Option<String>,
    right_print: Option<String>,
)
    requires
        call_ensures(consecutive_runtime_key, (left,), left_print),
        call_ensures(consecutive_runtime_key, (right,), right_print),
        is_printed(*left) && is_printed(*right),
        !same_kind(*left, *right),
    ensures
        left_print->0@ != right_print->0@,
{
    reveal_strlit("td:");
    reveal_strlit("rd:");
    reveal_strlit("ts:");
    reveal_strlit("tp:");
    reveal_strlit("tr:");
    let l = left_print->0@;
    let r = right_print->0@;
    assert(l.len() >= 3 && r.len() >= 3);
    assert(l[0] != r[0] || l[1] != r[1]);
}

/// Whether the session of the key stands at the place.
pub open spec fn stands_at(registry: SessionRuntimeRegistry, key: Seq<char>, at: int) -> bool {
    0 <= at < registry.entries@.len() && registry.entries@[at].meta.session_id@ == key
}

/// Whether no session of the key is open.
pub open spec fn is_absent(registry: SessionRuntimeRegistry, key: Seq<char>) -> bool {
    forall|i: int|
        0 <= i < registry.entries@.len() ==> (#[trigger] registry.entries@[i]).meta.session_id@
            != key
}

/// Whether every session but the one at the place is as it was.
pub open spec fn others_stay(
    before: SessionRuntimeRegistry,
    after: SessionRuntimeRegistry,
    at: int,
) -> bool {
    &&& after.entries@.len() == before.entries@.len()
    &&& forall|i: int|
        0 <= i < before.entries@.len() && i != at ==> (#[trigger] after.entries@[i])@
            == before.entries@[i]@
}

proof fn a_session_is_found(registry: SessionRuntimeRegistry, key: Seq<char>, at: int)
    requires
        registry_wf(registry@),
        stands_at(registry, key, at),
    ensures
        place_of(registry@, key) == at,
        registry@.len() == registry.entries@.len(),
        forall|i: int|
            0 <= i < registry.entries@.len() ==> #[trigger] registry@[i] == registry.entries@[i]@,
{
    place_of_is_first(registry@, key);
    let p = place_of(registry@, key);
    assert(registry@[at] == registry.entries@[at]@);
    if p < at {
        assert(registry@[p].key() != registry@[at].key());
    } else if at < p {
        assert(registry@[at].key() != key);
    }
}

proof fn a_session_is_missed(registry: SessionRuntimeRegistry, key: Seq<char>)
    requires
        is_absent(registry, key),
    ensures
        place_of(registry@, key) == registry@.len(),
        registry@.len() == registry.entries@.len(),
{
    place_of_is_first(registry@, key);
    let p = place_of(registry@, key);
    if p < registry@.len() {
        assert(registry@[p] == registry.entries@[p]@);
    }
}

proof fn entries_are_seen(registry: SessionRuntimeRegistry)
    ensures
        registry@.len() == registry.entries@.len(),
        forall|i: int|
            0 <= i < registry.entries@.len() ==> #[trigger] registry@[i] == registry.entries@[i]@,
{
}

/// Whether the session remembers the fingerprint.
pub open spec fn remembers(session: LiveSession, print: Seq<char>) -> bool {
    exists|i: int|
        0 <= i < session.recent_runtime_keys@.len() && (
        #[trigger] session.recent_runtime_keys@[i])@ == print
}

/// An observation is journalled and fanned out unless its fingerprint is remembered; one
/// without a fingerprint always is.
pub proof fn what_was_not_seen_is_journalled(
    registry: &mut SessionRuntimeRegistry,
    key: &str,
    generation: u64,
    event: CodingRuntimeEvent,
    kind: &str,
    entry: Option<Arc<SequencedSessionEvent>>,
    print: Option<String>,
    at: int,
)
    requires
        call_ensures(
            SessionRuntimeRegistry::push_runtime_event,
            (registry, key, generation, event, kind),
            entry,
        ),
        call_ensures(consecutive_runtime_key, (&event,), print),
        registry_wf(old(registry)@),
        stands_at(*old(registry), key@, at),
    ensures
        others_stay(*old(registry), *final(registry), at),
        entry is None <==> print is Some && remembers(old(registry).entries@[at], print->0@),
        entry is Some && print is Some ==> remembers(final(registry).entries@[at], print->0@),
        !(event is TurnFinished) && !(event is RuntimeStopped) && old(
            registry,
        ).entries@[at].recent_runtime_keys@.len() < 64 ==> forall|seen: Seq<char>|
            remembers(old(registry).entries@[at], seen) ==> #[trigger] remembers(
                final(registry).entries@[at],
                seen,
            ),
        forall|seen: Seq<char>| #[trigger]
            remembers(final(registry).entries@[at], seen) ==> remembers(
                old(registry).entries@[at],
                seen,
            ) || (print is Some && print->0@ == seen),
{
    a_session_is_found(*old(registry), key@, at);
    entries_are_seen(*final(registry));
    let before = old(registry).entries@[at];
    let after = final(registry).entries@[at];
    assert(final(registry)@[at] == after@);
    let recent = before@.recent;
    let later = after@.recent;
    assert(forall|i: int|
        0 <= i < recent.len() ==> #[trigger] recent[i] == before.recent_runtime_keys@[i]@);
    assert(forall|i: int|
        0 <= i < later.len() ==> #[trigger] later[i] == after.recent_runtime_keys@[i]@);
    assert forall|seen: Seq<char>| #[trigger] remembers(before, seen) == recent.contains(seen) by {
        if recent.contains(seen) {
            let i = recent.index_of(seen);
            assert(before.recent_runtime_keys@[i]@ == seen);
        }
        if remembers(before, seen) {
            let i = choose|i: int|
                0 <= i < before.recent_runtime_keys@.len() && (
                #[trigger] before.recent_runtime_keys@[i])@ == seen;
            assert(recent[i] == seen);
        }
    }
    assert forall|seen: Seq<char>| #[trigger] remembers(after, seen) == later.contains(seen) by {
        if later.contains(seen) {
            let i = later.index_of(seen);
            assert(after.recent_runtime_keys@[i]@ == seen);
        }
        if remembers(after, seen) {
            let i = choose|i: int|
                0 <= i < after.recent_runtime_keys@.len() && (
                #[trigger] after.recent_runtime_keys@[i])@ == seen;
            assert(later[i] == seen);
        }
    }
    if print is Some && !recent.contains(print->0@) {
        assert(later.last() == print->0@);
        assert(later[later.len() - 1] == print->0@);
        if recent.len() < 64 {
            assert forall|seen: Seq<char>| recent.contains(seen) implies #[trigger] later.contains(
                seen,
            ) by {
                let i = recent.index_of(seen);
                assert(later[i] == seen);
            }
        }
        assert forall|seen: Seq<char>| #[trigger] later.contains(seen) implies recent.contains(
            seen,
        ) || print->0@ == seen by {
            let i = later.index_of(seen);
            if recent.len() < 64 {
                if i < recent.len() {
                    assert(recent[i] == seen);
                }
            } else if i + 1 < recent.len() {
                assert(recent[i + 1] == seen);
            }
        }
    }
    assert forall|i: int| 0 <= i < old(registry).entries@.len() && i != at implies (
    #[trigger] final(registry).entries@[i])@ == old(registry).entries@[i]@ by {
        assert(final(registry)@[i] == final(registry).entries@[i]@);
        assert(old(registry)@[i] == old(registry).entries@[i]@);
    }
}

/// Two chunks of reasoning that do not look the same, one after the other, are both taken in.
pub proof fn two_chunks_are_both_taken_in(
    first: &mut SessionRuntimeRegistry,
    second: &mut SessionRuntimeRegistry,
    key: &str,
    generation: u64,
    kind: &str,
    one: CodingRuntimeEvent,
    other: CodingRuntimeEvent,
    entry: Option<Arc<SequencedSessionEvent>>,
    later: Option<Arc<SequencedSessionEvent>>,
    one_print: Option<String>,
    other_print: Option<String>,
    at: int,
)
    requires
        call_ensures(
            SessionRuntimeRegistry::push_runtime_event,
            (first, key, generation, one, kind),
            entry,
        ),
        call_ensures(
            SessionRuntimeRegistry::push_runtime_event,
            (second, key, generation, other, kind),
            later,
        ),
        call_ensures(consecutive_runtime_key, (&one,), one_print),
        call_ensures(consecutive_runtime_key, (&other,), other_print),
        *old(second) == *final(first),
        registry_wf(old(first)@),
        stands_at(*old(first), key@, at),
        chunk(one) is Some && same_kind(one, other),
        !looks_same(chunk(one)->0, chunk(other)->0),
        !remembers(old(first).entries@[at], other_print->0@),
    ensures
        later is Some,
{
    different_chunks_have_different_prints(&one, &other, one_print, other_print);
    what_was_not_seen_is_journalled(first, key, generation, one, kind, entry, one_print, at);
    a_session_is_found(*old(first), key@, at);
    entries_are_seen(*final(first));
    assert(final(first)@[at].key() == key@);
    assert(final(first).entries@[at]@ == final(first)@[at]);
    what_was_not_seen_is_journalled(second, key, generation, other, kind, later, other_print, at);
}

/// Whether the session took one entry more into its journal, the oldest giving way at 2048,
/// and numbered it next.
pub open spec fn journals(
    before: LiveSession,
    after: LiveSession,
    entry: SequencedSessionEvent,
    from: Seq<Arc<SequencedSessionEvent>>,
) -> bool {
    &&& after.journal@.len() > 0 && *after.journal@.last() == entry
    &&& from.len() < 2048 ==> after.journal@.drop_last() == from
    &&& from.len() >= 2048 ==> after.journal@.drop_last() == from.drop_first()
    &&& entry.sequence == before.next_sequence
    &&& before.next_sequence < u64::MAX ==> after.next_sequence == before.next_sequence + 1
    &&& entry.session_id == before.meta.session_id
    &&& entry.generation == after.meta.generation
    &&& entry.activity == after.meta.activity
    &&& after.meta.session_id == before.meta.session_id
    &&& after.meta.working_dir == before.meta.working_dir
}

/// An observation that is journalled is written down as it was observed, with the activity
/// that it shows; the end of a turn or of the runtime leaves only itself in the journal. It
/// carries the generation it was observed in, if it has one. A request is noted as pending,
/// the end of a turn forgets it and leaves its snapshot. With the end nothing is remembered.
pub proof fn an_observation_is_written_down_as_it_is(
    registry: &mut SessionRuntimeRegistry,
    key: &str,
    generation: u64,
    event: CodingRuntimeEvent,
    kind: &str,
    entry: Option<Arc<SequencedSessionEvent>>,
    at: int,
    shown: RuntimeActivity,
)
    requires
        call_ensures(
            SessionRuntimeRegistry::push_runtime_event,
            (registry, key, generation, event, kind),
            entry,
        ),
        registry_wf(old(registry)@),
        stands_at(*old(registry), key@, at),
        call_ensures(
            activity_from_runtime_event,
            (&event, old(registry).entries@[at].meta.activity, kind),
            shown,
        ),
    ensures
        others_stay(*old(registry), *final(registry), at),
        ({
            let before = old(registry).entries@[at];
            let after = final(registry).entries@[at];
            &&& entry matches Some(written) ==> {
                &&& journals(
                    before,
                    after,
                    *written,
                    if event is TurnFinished || event is RuntimeStopped {
                        Seq::empty()
                    } else {
                        before.journal@
                    },
                )
                &&& written.runtime == Some(event) && written.view is None
                &&& written.activity == shown
                &&& after.meta.generation == if generation > 0 {
                    generation
                } else {
                    before.meta.generation
                }
            }
            &&& after.pending_request_id == match event {
                CodingRuntimeEvent::Request(request) => Some(request.id),
                CodingRuntimeEvent::TurnFinished(completion) => None,
                _ => before.pending_request_id,
            }
            &&& after.meta.snapshot == match event {
                CodingRuntimeEvent::TurnFinished(
                    TurnCompletion::Completed { turn_id, reason, snapshot, stats },
                ) => Some(snapshot),
                _ => before.meta.snapshot,
            }
            &&& after.bound == before.bound && after.meta.runtime_id == before.meta.runtime_id
            &&& event is TurnFinished || event is RuntimeStopped ==> entry is Some
                && after.recent_runtime_keys@.len() == 0
            &&& !(event is Agent || event is TurnFinished || event is RuntimeStopped) ==> texts(
                after.recent_runtime_keys@,
            ) == texts(before.recent_runtime_keys@)
            &&& entry is None ==> after.journal@ == before.journal@ && after.next_sequence
                == before.next_sequence && after.meta.activity == before.meta.activity
        }),
{
    a_session_is_found(*old(registry), key@, at);
    entries_are_seen(*final(registry));
    let before = old(registry).entries@[at];
    let after = final(registry).entries@[at];
    assert(final(registry)@[at] == after@);
    assert(after@.recent.len() == after.recent_runtime_keys@.len());
    assert forall|i: int| 0 <= i < old(registry).entries@.len() && i != at implies (
    #[trigger] final(registry).entries@[i])@ == old(registry).entries@[i]@ by {
        assert(final(registry)@[i] == final(registry).entries@[i]@);
        assert(old(registry)@[i] == old(registry).entries@[i]@);
    }
    if entry is Some {
        let from = if event is TurnFinished || event is RuntimeStopped {
            Seq::empty()
        } else {
            before.journal@
        };
        if from.len() < 2048 {
            assert(after.journal@.drop_last() =~= from);
        } else {
            assert(after.journal@.drop_last() =~= from.drop_first());
        }
    }
}

/// What is observed of a runner shows what it does: streaming and tool work show that it runs,
/// a request that it waits for approval or, of the given kind, for input, the end of a turn
/// that it is ready. Everything else shows nothing new.
pub proof fn an_observation_shows_what_the_runner_does(
    event: &CodingRuntimeEvent,
    previous: RuntimeActivity,
    kind: &str,
    shown: RuntimeActivity,
)
    requires
        call_ensures(activity_from_runtime_event, (event, previous, kind), shown),
    ensures
        is_printed(*event) && !(event matches CodingRuntimeEvent::Agent(AgentEvent::ToolProgress {
            call_id,
            message,
        })) ==> shown is Running,
        *event == CodingRuntimeEvent::Agent(AgentEvent::TurnStarted) ==> shown is Running,
        event matches CodingRuntimeEvent::Agent(AgentEvent::ToolCallStreaming { call_id })
            ==> shown is Running,
        event matches CodingRuntimeEvent::Agent(AgentEvent::ToolBatchStarted { count })
            ==> shown is Running,
        event matches CodingRuntimeEvent::Agent(AgentEvent::ToolProgress { call_id, message })
            ==> shown == previous,
        event matches CodingRuntimeEvent::Agent(AgentEvent::Usage(meta)) ==> shown == previous,
        event matches CodingRuntimeEvent::Agent(AgentEvent::Error { message, http_status, code })
            ==> shown == previous,
        event matches CodingRuntimeEvent::Agent(AgentEvent::Other(name)) ==> shown == previous,
        event matches CodingRuntimeEvent::Request(request) ==> (if request.kind@ == kind@ {
            shown is WaitingUserInput
        } else {
            shown is WaitingApproval
        }),
        *event is TurnFinished ==> shown is Ready,
        *event is Reconfigured ==> shown is Ready,
        *event is Reconfiguring ==> shown is Reconfiguring,
        *event is RuntimeStopped ==> shown is Stopped,
        *event is ProviderUnavailable ==> shown is Failed,
        !(*event is Agent) && !(*event is Request) && !(*event is TurnFinished) && !(
        *event is Reconfigured) && !(*event is Reconfiguring) && !(*event is RuntimeStopped) && !(
        *event is ProviderUnavailable) ==> shown == previous,
{
}

/// The three questions about an activity: whether a turn runs, whether the session is busy,
/// and whether it may be let go.
pub proof fn activities_answer_their_questions(
    activity: RuntimeActivity,
    busy: bool,
    releasable: bool,
    live: bool,
)
    requires
        call_ensures(RuntimeActivity::is_busy, (activity,), busy),
        call_ensures(RuntimeActivity::is_idle_releasable, (activity,), releasable),
        call_ensures(RuntimeActivity::is_live_turn, (activity,), live),
    ensures
        live <==> activity is Running || activity is WaitingApproval || activity
            is WaitingUserInput,
        busy <==> live || activity is Starting || activity is Reconfiguring,
        releasable <==> activity is Ready || activity is Stopped || activity is Failed,
{
}

/// An event of a view is written down as it is. It shows that the session runs, unless it is
/// the output of a command. The answer to the pending request settles it, and no other.
pub proof fn a_view_event_is_written_down_as_it_is(
    registry: &mut SessionRuntimeRegistry,
    key: &str,
    view: SessionViewEvent,
    entry: Option<Arc<SequencedSessionEvent>>,
    at: int,
)
    requires
        call_ensures(SessionRuntimeRegistry::push_view_event, (registry, key, view), entry),
        registry_wf(old(registry)@),
        stands_at(*old(registry), key@, at),
    ensures
        others_stay(*old(registry), *final(registry), at),
        entry is Some,
        ({
            let before = old(registry).entries@[at];
            let after = final(registry).entries@[at];
            &&& journals(before, after, *entry->0, before.journal@)
            &&& entry->0.view == Some(view) && entry->0.runtime is None
            &&& after.meta.activity == if view is CommandOutput {
                before.meta.activity
            } else {
                RuntimeActivity::Running
            }
            &&& after.pending_request_id == match view {
                SessionViewEvent::RequestResolved { request_id, kind } => if before.pending_request_id
                    == Some(request_id) {
                    None
                } else {
                    before.pending_request_id
                },
                _ => before.pending_request_id,
            }
            &&& after.meta.generation == before.meta.generation && after.meta.snapshot
                == before.meta.snapshot
            &&& texts(after.recent_runtime_keys@) == texts(before.recent_runtime_keys@)
        }),
{
    a_session_is_found(*old(registry), key@, at);
    entries_are_seen(*final(registry));
    let before = old(registry).entries@[at];
    let after = final(registry).entries@[at];
    assert(final(registry)@[at] == after@);
    assert forall|i: int| 0 <= i < old(registry).entries@.len() && i != at implies (
    #[trigger] final(registry).entries@[i])@ == old(registry).entries@[i]@ by {
        assert(final(registry)@[i] == final(registry).entries@[i]@);
        assert(old(registry)@[i] == old(registry).entries@[i]@);
    }
    if before.journal@.len() < 2048 {
        assert(after.journal@.drop_last() =~= before.journal@);
    } else {
        assert(after.journal@.drop_last() =~= before.journal@.drop_first());
    }
}

/// Nobody's session is touched by what belongs to none that is open.
pub proof fn a_session_that_is_not_open_takes_nothing(
    registry: &mut SessionRuntimeRegistry,
    key: &str,
    generation: u64,
    event: CodingRuntimeEvent,
    kind: &str,
    entry: Option<Arc<SequencedSessionEvent>>,
)
    requires
        call_ensures(
            SessionRuntimeRegistry::push_runtime_event,
            (registry, key, generation, event, kind),
            entry,
        ),
        registry_wf(old(registry)@),
        is_absent(*old(registry), key@),
    ensures
        entry is None,
        final(registry)@ == old(registry)@,
{
    a_session_is_missed(*old(registry), key@);
}

/// A session is opened once: where it is open whoever asks is attached to it as it is, and
/// else it is opened at the end, with nothing in it, unless 32 are open already.
pub proof fn a_session_is_opened_once(
    registry: &mut SessionRuntimeRegistry,
    session_id: SessionKey,
    working_dir: String,
    result: Result<(OpenOutcome, SessionRuntimeEntry), RegistryError>,
    at: int,
)
    requires
        call_ensures(
            SessionRuntimeRegistry::open_or_attach,
            (registry, session_id, working_dir),
            result,
        ),
        registry_wf(old(registry)@),
        stands_at(*old(registry), session_id@, at) || is_absent(*old(registry), session_id@),
    ensures
        stands_at(*old(registry), session_id@, at) ==> final(registry)@ == old(registry)@
            && result == Ok::<(OpenOutcome, SessionRuntimeEntry), RegistryError>(
            (OpenOutcome::Attached, old(registry).entries@[at].meta),
        ),
        is_absent(*old(registry), session_id@) && old(registry).entries@.len() >= 32
            ==> final(registry)@ == old(registry)@ && result == Err::<
            (OpenOutcome, SessionRuntimeEntry),
            RegistryError,
        >(RegistryError::LiveLimit { max: 32 }),
        is_absent(*old(registry), session_id@) && old(registry).entries@.len() < 32 ==> {
            let opened = final(registry).entries@.last();
            &&& others_stay_before(*old(registry), *final(registry))
            &&& opened.meta.session_id == session_id && opened.meta.working_dir == working_dir
            &&& opened.meta.activity is Starting && opened.meta.generation == 1
            &&& opened.meta.snapshot is None && opened.meta.runtime_id is None
            &&& !opened.bound && opened.journal@.len() == 0 && opened.next_sequence == 0
            &&& opened.pending_request_id is None && opened.recent_runtime_keys@.len() == 0
            &&& result == Ok::<(OpenOutcome, SessionRuntimeEntry), RegistryError>(
                (OpenOutcome::Registered, opened.meta),
            )
        },
{
    entries_are_seen(*old(registry));
    entries_are_seen(*final(registry));
    if stands_at(*old(registry), session_id@, at) {
        a_session_is_found(*old(registry), session_id@, at);
    } else {
        a_session_is_missed(*old(registry), session_id@);
        if old(registry).entries@.len() < 32 {
            let n = old(registry).entries@.len() as int;
            assert(final(registry)@[n] == final(registry).entries@[n]@);
            let opened = final(registry).entries@[n];
            assert(opened@.recent.len() == opened.recent_runtime_keys@.len());
            assert forall|i: int| 0 <= i < n implies (#[trigger] final(registry).entries@[i])@
                == old(registry).entries@[i]@ by {
                assert(final(registry)@[i] == old(registry)@[i]);
            }
        }
    }
}

/// Whether one session more is open and those before it are as they were.
pub open spec fn others_stay_before(before: SessionRuntimeRegistry, after: SessionRuntimeRegistry) -> bool {
    &&& after.entries@.len() == before.entries@.len() + 1
    &&& forall|i: int|
        0 <= i < before.entries@.len() ==> (#[trigger] after.entries@[i])@ == before.entries@[i]@
}

/// A session is read as it stands, and one that is not open is not read.
pub proof fn a_session_is_read_as_it_stands(
    registry: &SessionRuntimeRegistry,
    key: &str,
    at: int,
    entry: Option<SessionRuntimeEntry>,
    activity: Option<RuntimeActivity>,
    snapshot: Option<Arc<SessionSnapshot>>,
    pending: Option<RequestId>,
)
    requires
        call_ensures(SessionRuntimeRegistry::lookup, (registry, key), entry),
        call_ensures(SessionRuntimeRegistry::activity, (registry, key), activity),
        call_ensures(SessionRuntimeRegistry::snapshot, (registry, key), snapshot),
        call_ensures(SessionRuntimeRegistry::pending_request_id, (registry, key), pending),
        registry_wf(registry@),
        stands_at(*registry, key@, at) || is_absent(*registry, key@),
    ensures
        stands_at(*registry, key@, at) ==> {
            &&& entry == Some(registry.entries@[at].meta)
            &&& activity == Some(registry.entries@[at].meta.activity)
            &&& snapshot == registry.entries@[at].meta.snapshot
            &&& pending == registry.entries@[at].pending_request_id
        },
        is_absent(*registry, key@) ==> entry is None && activity is None && snapshot is None
            && pending is None,
{
    if stands_at(*registry, key@, at) {
        a_session_is_found(*registry, key@, at);
    } else {
        a_session_is_missed(*registry, key@);
    }
}

/// A runner is bound under its transport id; a session that waited for one is ready, and says
/// so.
pub proof fn a_runner_is_bound(
    registry: &mut SessionRuntimeRegistry,
    key: &str,
    runtime_id: Option<u64>,
    result: (bool, Option<Arc<SequencedSessionEvent>>),
    at: int,
)
    requires
        call_ensures(SessionRuntimeRegistry::bind_handle, (registry, key, runtime_id), result),
        registry_wf(old(registry)@),
        stands_at(*old(registry), key@, at),
    ensures
        others_stay(*old(registry), *final(registry), at),
        result.0,
        ({
            let before = old(registry).entries@[at];
            let after = final(registry).entries@[at];
            let waited = before.meta.activity is Starting || before.meta.activity is Stopped;
            &&& after.bound && after.meta.runtime_id == runtime_id
            &&& result.1 is Some <==> waited
            &&& waited ==> journals(before, after, *result.1->0, before.journal@)
                && after.meta.activity is Ready && result.1->0.runtime is None
                && result.1->0.view is None
            &&& !waited ==> after.meta.activity == before.meta.activity && after.journal@
                == before.journal@
            &&& after.pending_request_id == before.pending_request_id
        }),
{
    a_session_is_found(*old(registry), key@, at);
    entries_are_seen(*final(registry));
    let before = old(registry).entries@[at];
    let after = final(registry).entries@[at];
    assert(final(registry)@[at] == after@);
    assert forall|i: int| 0 <= i < old(registry).entries@.len() && i != at implies (
    #[trigger] final(registry).entries@[i])@ == old(registry).entries@[i]@ by {
        assert(final(registry)@[i] == final(registry).entries@[i]@);
        assert(old(registry)@[i] == old(registry).entries@[i]@);
    }
    if after.journal@.len() > 0 {
        if before.journal@.len() < 2048 {
            assert(before@.wakes_when_bound() ==> after.journal@.drop_last() =~= before.journal@);
        } else {
            assert(before@.wakes_when_bound() ==> after.journal@.drop_last()
                =~= before.journal@.drop_first());
        }
    }
}

/// A command goes to a session that is open and bound, and is refused by name where it is
/// not; a turn that was handed over shows that the session runs.
pub proof fn a_turn_runs_once_it_is_handed_over(
    registry: &mut SessionRuntimeRegistry,
    key: &str,
    delivered: bool,
    result: Result<Option<Arc<SequencedSessionEvent>>, RegistryError>,
    at: int,
)
    requires
        call_ensures(SessionRuntimeRegistry::submit, (registry, key, delivered), result),
        registry_wf(old(registry)@),
        stands_at(*old(registry), key@, at) || is_absent(*old(registry), key@),
    ensures
        is_absent(*old(registry), key@) ==> (result matches Err(RegistryError::UnknownSession {
            session_id,
        }) && session_id@ == key@),
        stands_at(*old(registry), key@, at) && !old(registry).entries@[at].bound ==> (
        result matches Err(RegistryError::HandleNotReady { session_id }) && session_id@ == key@),
        stands_at(*old(registry), key@, at) && old(registry).entries@[at].bound && !delivered ==> (
        result matches Err(RegistryError::Unavailable { session_id }) && session_id@ == key@),
        result is Err ==> final(registry)@ == old(registry)@,
        stands_at(*old(registry), key@, at) && old(registry).entries@[at].bound && delivered ==> {
            let before = old(registry).entries@[at];
            let after = final(registry).entries@[at];
            &&& result is Ok && result->Ok_0 is Some
            &&& others_stay(*old(registry), *final(registry), at)
            &&& journals(before, after, *result->Ok_0->0, before.journal@)
            &&& after.meta.activity is Running
        },
{
    if stands_at(*old(registry), key@, at) {
        a_session_is_found(*old(registry), key@, at);
        entries_are_seen(*final(registry));
        if old(registry).entries@[at].bound && delivered {
            let before = old(registry).entries@[at];
            let after = final(registry).entries@[at];
            assert(final(registry)@[at] == after@);
            assert forall|i: int| 0 <= i < old(registry).entries@.len() && i != at implies (
            #[trigger] final(registry).entries@[i])@ == old(registry).entries@[i]@ by {
                assert(final(registry)@[i] == final(registry).entries@[i]@);
                assert(old(registry)@[i] == old(registry).entries@[i]@);
            }
            if before.journal@.len() < 2048 {
                assert(after.journal@.drop_last() =~= before.journal@);
            } else {
                assert(after.journal@.drop_last() =~= before.journal@.drop_first());
            }
        }
    } else {
        a_session_is_missed(*old(registry), key@);
    }
}

/// Who may be handed a command: a session that is open and bound.
pub proof fn a_command_is_routed_to_a_bound_session(
    registry: &SessionRuntimeRegistry,
    key: &str,
    delivered: bool,
    route: Result<(), RegistryError>,
    dispatched: Result<(), RegistryError>,
    at: int,
)
    requires
        call_ensures(SessionRuntimeRegistry::route, (registry, key), route),
        call_ensures(SessionRuntimeRegistry::dispatch, (registry, key, delivered), dispatched),
        registry_wf(registry@),
        stands_at(*registry, key@, at) || is_absent(*registry, key@),
    ensures
        route is Ok <==> stands_at(*registry, key@, at) && registry.entries@[at].bound,
        is_absent(*registry, key@) ==> (route matches Err(RegistryError::UnknownSession {
            session_id,
        }) && session_id@ == key@),
        stands_at(*registry, key@, at) && !registry.entries@[at].bound ==> (route matches Err(
            RegistryError::HandleNotReady { session_id },
        ) && session_id@ == key@),
        dispatched is Ok <==> route is Ok && delivered,
        route is Ok && !delivered ==> (dispatched matches Err(RegistryError::Unavailable {
            session_id,
        }) && session_id@ == key@),
        route is Err ==> (dispatched matches Err(error) && error.text() == route->Err_0.text()),
{
    if stands_at(*registry, key@, at) {
        a_session_is_found(*registry, key@, at);
    } else {
        a_session_is_missed(*registry, key@);
    }
}

/// An answer that was delivered settles the pending request that it is for, and no other.
pub proof fn an_answer_settles_its_request(
    registry: &mut SessionRuntimeRegistry,
    key: &str,
    id: RequestId,
    delivered: bool,
    result: Result<(), RegistryError>,
    at: int,
)
    requires
        call_ensures(SessionRuntimeRegistry::resolve_request, (registry, key, id, delivered), result),
        registry_wf(old(registry)@),
        stands_at(*old(registry), key@, at),
    ensures
        result is Ok <==> old(registry).entries@[at].bound && delivered,
        result is Err ==> final(registry)@ == old(registry)@,
        result is Ok ==> {
            let before = old(registry).entries@[at];
            let after = final(registry).entries@[at];
            &&& others_stay(*old(registry), *final(registry), at)
            &&& before.pending_request_id == Some(id) ==> after.pending_request_id is None
            &&& before.pending_request_id != Some(id) ==> after.pending_request_id
                == before.pending_request_id
            &&& after.journal@ == before.journal@ && after.meta == before.meta
        },
{
    a_session_is_found(*old(registry), key@, at);
    entries_are_seen(*final(registry));
    if result is Ok {
        assert(final(registry)@[at] == final(registry).entries@[at]@);
        assert forall|i: int| 0 <= i < old(registry).entries@.len() && i != at implies (
        #[trigger] final(registry).entries@[i])@ == old(registry).entries@[i]@ by {
            assert(final(registry)@[i] == final(registry).entries@[i]@);
            assert(old(registry)@[i] == old(registry).entries@[i]@);
        }
    }
}

/// The pending request is noted, and shows that the session waits for approval; that there is
/// none is noted in silence.
pub proof fn a_pending_request_is_noted(
    registry: &mut SessionRuntimeRegistry,
    key: &str,
    id: Option<RequestId>,
    result: (bool, Option<Arc<SequencedSessionEvent>>),
    at: int,
)
    requires
        call_ensures(SessionRuntimeRegistry::set_pending_request, (registry, key, id), result),
        registry_wf(old(registry)@),
        stands_at(*old(registry), key@, at),
    ensures
        result.0,
        others_stay(*old(registry), *final(registry), at),
        final(registry).entries@[at].pending_request_id == id,
        result.1 is Some <==> id is Some,
        id is Some ==> journals(
            old(registry).entries@[at],
            final(registry).entries@[at],
            *result.1->0,
            old(registry).entries@[at].journal@,
        ) && final(registry).entries@[at].meta.activity is WaitingApproval,
        id is None ==> final(registry).entries@[at].journal@ == old(registry).entries@[at].journal@
            && final(registry).entries@[at].meta == old(registry).entries@[at].meta,
{
    a_session_is_found(*old(registry), key@, at);
    entries_are_seen(*final(registry));
    let before = old(registry).entries@[at];
    let after = final(registry).entries@[at];
    assert(final(registry)@[at] == after@);
    assert forall|i: int| 0 <= i < old(registry).entries@.len() && i != at implies (
    #[trigger] final(registry).entries@[i])@ == old(registry).entries@[i]@ by {
        assert(final(registry)@[i] == final(registry).entries@[i]@);
        assert(old(registry)@[i] == old(registry).entries@[i]@);
    }
    if id is Some {
        if before.journal@.len() < 2048 {
            assert(after.journal@.drop_last() =~= before.journal@);
        } else {
            assert(after.journal@.drop_last() =~= before.journal@.drop_first());
        }
    }
}

/// An activity that is set is shown; a snapshot that is set is kept, in silence.
pub proof fn what_is_set_is_kept(
    registry: &mut SessionRuntimeRegistry,
    other: &mut SessionRuntimeRegistry,
    key: &str,
    activity: RuntimeActivity,
    snapshot: Arc<SessionSnapshot>,
    entry: Option<Arc<SequencedSessionEvent>>,
    known: bool,
    at: int,
)
    requires
        call_ensures(SessionRuntimeRegistry::set_activity, (registry, key, activity), entry),
        call_ensures(SessionRuntimeRegistry::set_snapshot, (other, key, snapshot), known),
        registry_wf(old(registry)@) && registry_wf(old(other)@),
        stands_at(*old(registry), key@, at),
        stands_at(*old(other), key@, at),
    ensures
        entry is Some && others_stay(*old(registry), *final(registry), at),
        journals(
            old(registry).entries@[at],
            final(registry).entries@[at],
            *entry->0,
            old(registry).entries@[at].journal@,
        ),
        final(registry).entries@[at].meta.activity == activity,
        known && others_stay(*old(other), *final(other), at),
        final(other).entries@[at].meta.snapshot == Some(snapshot),
        final(other).entries@[at].meta.activity == old(other).entries@[at].meta.activity,
        final(other).entries@[at].journal@ == old(other).entries@[at].journal@,
{
    a_session_is_found(*old(registry), key@, at);
    a_session_is_found(*old(other), key@, at);
    entries_are_seen(*final(registry));
    entries_are_seen(*final(other));
    assert(final(registry)@[at] == final(registry).entries@[at]@);
    assert(final(other)@[at] == final(other).entries@[at]@);
    assert forall|i: int| 0 <= i < old(registry).entries@.len() && i != at implies (
    #[trigger] final(registry).entries@[i])@ == old(registry).entries@[i]@ by {
        assert(final(registry)@[i] == final(registry).entries@[i]@);
        assert(old(registry)@[i] == old(registry).entries@[i]@);
    }
    assert forall|i: int| 0 <= i < old(other).entries@.len() && i != at implies (
    #[trigger] final(other).entries@[i])@ == old(other).entries@[i]@ by {
        assert(final(other)@[i] == final(other).entries@[i]@);
        assert(old(other)@[i] == old(other).entries@[i]@);
    }
    let before = old(registry).entries@[at].journal@;
    let after = final(registry).entries@[at].journal@;
    if before.len() < 2048 {
        assert(after.drop_last() =~= before);
    } else {
        assert(after.drop_last() =~= before.drop_first());
    }
}

/// Whether the entries are those of the journal behind the number, in order: each of them is
/// there, and nothing else is.
pub open spec fn replays(
    replay: Seq<Arc<SequencedSessionEvent>>,
    journal: Seq<Arc<SequencedSessionEvent>>,
    after: Option<u64>,
) -> bool {
    replay == journal.filter(
        |entry: Arc<SequencedSessionEvent>| after is None || entry.sequence > after->0,
    )
}

proof fn later_entries_are_filtered(journal: Seq<Arc<SequencedSessionEvent>>, after: Option<u64>)
    ensures
        replays(entries_after(journal, after), journal, after),
    decreases journal.len(),
{
    reveal(Seq::filter);
    if journal.len() > 0 {
        later_entries_are_filtered(journal.drop_last(), after);
    } else {
        assert(journal =~= Seq::<Arc<SequencedSessionEvent>>::empty());
    }
}

/// A view that joins replays the entries of the journal that it has not seen, in order; all of
/// them where it has seen none.
pub proof fn a_view_replays_what_it_has_not_seen(
    registry: &SessionRuntimeRegistry,
    key: &str,
    after: Option<u64>,
    result: Result<Vec<Arc<SequencedSessionEvent>>, RegistryError>,
    at: int,
)
    requires
        call_ensures(SessionRuntimeRegistry::subscribe, (registry, key, after), result),
        registry_wf(registry@),
        stands_at(*registry, key@, at) || is_absent(*registry, key@),
    ensures
        stands_at(*registry, key@, at) ==> result is Ok && replays(
            result->Ok_0@,
            registry.entries@[at].journal@,
            after,
        ),
        is_absent(*registry, key@) ==> (result matches Err(RegistryError::UnknownSession {
            session_id,
        }) && session_id@ == key@),
{
    if stands_at(*registry, key@, at) {
        a_session_is_found(*registry, key@, at);
        later_entries_are_filtered(registry.entries@[at].journal@, after);
    } else {
        a_session_is_missed(*registry, key@);
    }
}

/// A session is let go only where it is idle, or by force; whoever is bound to it is to be shut
/// down. The others stay, in order.
pub proof fn an_idle_session_is_let_go(
    registry: &mut SessionRuntimeRegistry,
    key: &str,
    removal: Removal,
    at: int,
)
    requires
        call_ensures(SessionRuntimeRegistry::release_if_idle, (registry, key), removal),
        registry_wf(old(registry)@),
        stands_at(*old(registry), key@, at),
    ensures
        ({
            let session = old(registry).entries@[at];
            let idle = session.meta.activity is Ready || session.meta.activity is Stopped
                || session.meta.activity is Failed;
            &&& removal.removed <==> idle
            &&& removal.shut_down <==> idle && session.bound
            &&& !idle ==> final(registry)@ == old(registry)@
            &&& idle ==> final(registry)@ == old(registry)@.remove(at)
        }),
{
    a_session_is_found(*old(registry), key@, at);
}

/// By force a session is let go whatever it does; detached, its runner is left alone.
pub proof fn a_session_is_let_go_by_force(
    registry: &mut SessionRuntimeRegistry,
    other: &mut SessionRuntimeRegistry,
    key: &str,
    removal: Removal,
    removed: bool,
    at: int,
)
    requires
        call_ensures(SessionRuntimeRegistry::force_remove, (registry, key), removal),
        call_ensures(SessionRuntimeRegistry::detach, (other, key), removed),
        registry_wf(old(registry)@) && registry_wf(old(other)@),
        stands_at(*old(registry), key@, at),
        stands_at(*old(other), key@, at),
    ensures
        removal.removed && removal.shut_down == old(registry).entries@[at].bound,
        final(registry)@ == old(registry)@.remove(at),
        removed && final(other)@ == old(other)@.remove(at),
{
    a_session_is_found(*old(registry), key@, at);
    a_session_is_found(*old(other), key@, at);
}

proof fn bound_sessions_are_filtered(sessions: Seq<LiveView>)
    ensures
        crate::session_runtime_registry::bound_ids(sessions) == sessions.filter(
            |session: LiveView| session.bound,
        ).map_values(|session: LiveView| session.meta.session_id),
    decreases sessions.len(),
{
    reveal(Seq::filter);
    if sessions.len() > 0 {
        bound_sessions_are_filtered(sessions.drop_last());
        let kept = sessions.drop_last().filter(|session: LiveView| session.bound);
        let last = sessions.last();
        if last.bound {
            assert(kept.push(last).map_values(|session: LiveView| session.meta.session_id)
                =~= kept.map_values(|session: LiveView| session.meta.session_id).push(
                last.meta.session_id,
            ));
        }
    } else {
        assert(sessions.filter(|session: LiveView| session.bound).map_values(
            |session: LiveView| session.meta.session_id,
        ) =~= Seq::<SessionKey>::empty());
    }
}

/// At the end every session is let go, and exactly the bound ones are to be shut down.
pub proof fn a_shutdown_lets_every_session_go(
    registry: &mut SessionRuntimeRegistry,
    bound: Vec<SessionKey>,
)
    requires
        call_ensures(SessionRuntimeRegistry::shutdown_all, (registry,), bound),
    ensures
        final(registry).entries@.len() == 0,
        bound@ == old(registry)@.filter(|session: LiveView| session.bound).map_values(
            |session: LiveView| session.meta.session_id,
        ),
{
    bound_sessions_are_filtered(old(registry)@);
    entries_are_seen(*final(registry));
}

proof fn running_sessions_are_filtered(sessions: Seq<LiveView>)
    ensures
        crate::session_runtime_registry::ids_in_turn(sessions) == sessions.filter(
            |session: LiveView|
                session.bound && (session.meta.activity is Running || session.meta.activity
                    is WaitingApproval || session.meta.activity is WaitingUserInput),
        ).map_values(|session: LiveView| session.meta.session_id),
    decreases sessions.len(),
{
    reveal(Seq::filter);
    let runs = |session: LiveView|
        session.bound && (session.meta.activity is Running || session.meta.activity
            is WaitingApproval || session.meta.activity is WaitingUserInput);
    if sessions.len() > 0 {
        running_sessions_are_filtered(sessions.drop_last());
        let kept = sessions.drop_last().filter(runs);
        let last = sessions.last();
        if runs(last) {
            assert(kept.push(last).map_values(|session: LiveView| session.meta.session_id)
                =~= kept.map_values(|session: LiveView| session.meta.session_id).push(
                last.meta.session_id,
            ));
        }
    } else {
        assert(sessions.filter(runs).map_values(|session: LiveView| session.meta.session_id)
            =~= Seq::<SessionKey>::empty());
    }
}

/// The sessions in a turn are exactly the bound ones that run or wait, in order; all sessions
/// are listed in order, and counted.
pub proof fn sessions_are_listed_in_order(
    registry: &SessionRuntimeRegistry,
    ids: Vec<SessionKey>,
    all: Vec<SessionRuntimeEntry>,
    count: usize,
)
    requires
        call_ensures(SessionRuntimeRegistry::live_turn_session_ids, (registry,), ids),
        call_ensures(SessionRuntimeRegistry::list_all, (registry,), all),
        call_ensures(SessionRuntimeRegistry::live_count, (registry,), count),
    ensures
        count == registry.entries@.len(),
        all@.len() == registry.entries@.len(),
        forall|i: int|
            0 <= i < all@.len() ==> #[trigger] all@[i] == registry.entries@[i].meta,
        ids@ == registry@.filter(
            |session: LiveView|
                session.bound && (session.meta.activity is Running || session.meta.activity
                    is WaitingApproval || session.meta.activity is WaitingUserInput),
        ).map_values(|session: LiveView| session.meta.session_id),
{
    entries_are_seen(*registry);
    running_sessions_are_filtered(registry@);
    assert forall|i: int| 0 <= i < all@.len() implies #[trigger] all@[i]
        == registry.entries@[i].meta by {
        assert(registry@[i] == registry.entries@[i]@);
    }
}

/// What a refusal says names the session, or the limit.
pub proof fn a_refusal_names_its_cause(error: &RegistryError, message: String)
    requires
        call_ensures(RegistryError::message, (error,), message),
    ensures
        error matches RegistryError::UnknownSession { session_id } ==> message@ == "session "@
            + session_id@ + " is not in the runtime registry"@,
        error matches RegistryError::HandleNotReady { session_id } ==> message@ == "session "@
            + session_id@ + " runtime handle is not ready"@,
        error matches RegistryError::Unavailable { session_id } ==> message@ == "session "@
            + session_id@ + " coding runtime is unavailable"@,
        error matches RegistryError::LiveLimit { max } ==> message@
            == "too many live sessions (max "@ + decimal(max as nat) + ")"@,
{
}

/// Whether the first session that runs under the transport id stands at the place.
pub open spec fn runs_at(registry: SessionRuntimeRegistry, runtime_id: u64, at: int) -> bool {
    &&& 0 <= at < registry.entries@.len() && registry.entries@[at].meta.runtime_id == Some(
        runtime_id,
    )
    &&& forall|i: int|
        0 <= i < at ==> (#[trigger] registry.entries@[i]).meta.runtime_id != Some(runtime_id)
}

proof fn the_first_of_a_transport_is_found(sessions: Seq<LiveView>, runtime_id: u64)
    ensures
        ({
            let place = place_of_runtime(sessions, runtime_id);
            &&& 0 <= place <= sessions.len()
            &&& place < sessions.len() ==> sessions[place].meta.runtime_id == Some(runtime_id)
            &&& forall|i: int|
                0 <= i < place ==> (#[trigger] sessions[i]).meta.runtime_id != Some(runtime_id)
        }),
    decreases sessions.len(),
{
    if sessions.len() > 0 && sessions[0].meta.runtime_id != Some(runtime_id) {
        let rest = sessions.drop_first();
        the_first_of_a_transport_is_found(rest, runtime_id);
        let place = place_of_runtime(sessions, runtime_id);
        assert forall|i: int| 0 <= i < place implies (#[trigger] sessions[i]).meta.runtime_id
            != Some(runtime_id) by {
            if i > 0 {
                assert(rest[i - 1] == sessions[i]);
            }
        }
        if place < sessions.len() {
            assert(rest[place - 1] == sessions[place]);
        }
    }
}

/// A transport id leads to the first session that runs under it, and to none where none does.
pub proof fn a_transport_id_leads_to_its_session(
    registry: &SessionRuntimeRegistry,
    runtime_id: u64,
    key: Option<SessionKey>,
    at: int,
)
    requires
        call_ensures(SessionRuntimeRegistry::session_id_for_runtime_id, (registry, runtime_id), key),
        runs_at(*registry, runtime_id, at) || (forall|i: int|
            0 <= i < registry.entries@.len() ==> (#[trigger] registry.entries@[i]).meta.runtime_id
                != Some(runtime_id)),
    ensures
        runs_at(*registry, runtime_id, at) ==> key == Some(registry.entries@[at].meta.session_id),
        !runs_at(*registry, runtime_id, at) ==> key is None,
{
    entries_are_seen(*registry);
    the_first_of_a_transport_is_found(registry@, runtime_id);
    let place = place_of_runtime(registry@, runtime_id);
    if place < registry@.len() {
        assert(registry@[place] == registry.entries@[place]@);
    }
    if runs_at(*registry, runtime_id, at) {
        assert(registry@[at] == registry.entries@[at]@);
        if at < place {
            assert(registry@[at].meta.runtime_id != Some(runtime_id));
        }
    }
}

/// What comes under a transport id is taken in as what comes for its session.
pub proof fn what_comes_under_a_transport_id_comes_for_its_session(
    registry: &mut SessionRuntimeRegistry,
    other: &mut SessionRuntimeRegistry,
    runtime_id: u64,
    key: &str,
    at: int,
    generation: u64,
    event: CodingRuntimeEvent,
    kind: &str,
    entry: Option<Arc<SequencedSessionEvent>>,
    expected: Option<Arc<SequencedSessionEvent>>,
)
    requires
        call_ensures(
            SessionRuntimeRegistry::push_runtime_event_by_runtime_id,
            (registry, runtime_id, generation, event, kind),
            entry,
        ),
        call_ensures(
            SessionRuntimeRegistry::push_runtime_event,
            (other, key, generation, event, kind),
            expected,
        ),
        *old(other) == *old(registry),
        registry_wf(old(registry)@),
        runs_at(*old(registry), runtime_id, at),
        key@ == old(registry).entries@[at].meta.session_id@,
    ensures
        entry == expected,
        final(registry)@ == final(other)@,
{
    a_session_is_found(*old(registry), key@, at);
    the_first_of_a_transport_is_found(old(registry)@, runtime_id);
    let place = place_of_runtime(old(registry)@, runtime_id);
    assert(old(registry)@[at] == old(registry).entries@[at]@);
    if place < at {
        assert(old(registry)@[place] == old(registry).entries@[place]@);
    }
}

/// What comes under a transport id that nobody runs under is dropped.
pub proof fn what_comes_under_an_unknown_transport_id_is_dropped(
    registry: &mut SessionRuntimeRegistry,
    runtime_id: u64,
    generation: u64,
    event: CodingRuntimeEvent,
    kind: &str,
    entry: Option<Arc<SequencedSessionEvent>>,
)
    requires
        call_ensures(
            SessionRuntimeRegistry::push_runtime_event_by_runtime_id,
            (registry, runtime_id, generation, event, kind),
            entry,
        ),
        forall|i: int|
            0 <= i < old(registry).entries@.len() ==> (#[trigger] old(
                registry,
            ).entries@[i]).meta.runtime_id != Some(runtime_id),
    ensures
        entry is None && final(registry)@ == old(registry)@,
{
    entries_are_seen(*old(registry));
    the_first_of_a_transport_is_found(old(registry)@, runtime_id);
    let place = place_of_runtime(old(registry)@, runtime_id);
    if place < old(registry)@.len() {
        assert(old(registry)@[place] == old(registry).entries@[place]@);
    }
}

/// An event of a view for a session that need not be open is written down as it is once the
/// session is opened; where it cannot be opened, it is dropped.
pub proof fn a_view_event_opens_its_session(
    registry: &mut SessionRuntimeRegistry,
    opened: &mut SessionRuntimeRegistry,
    viewed: &mut SessionRuntimeRegistry,
    key: SessionKey,
    name: &str,
    working_dir: String,
    view: SessionViewEvent,
    entry: Option<Arc<SequencedSessionEvent>>,
    outcome: Result<(OpenOutcome, SessionRuntimeEntry), RegistryError>,
    expected: Option<Arc<SequencedSessionEvent>>,
)
    requires
        call_ensures(
            SessionRuntimeRegistry::ensure_and_push_view,
            (registry, key, working_dir, view),
            entry,
        ),
        call_ensures(SessionRuntimeRegistry::open_or_attach, (opened, key, working_dir), outcome),
        call_ensures(SessionRuntimeRegistry::push_view_event, (viewed, name, view), expected),
        *old(opened) == *old(registry) && *old(viewed) == *final(opened),
        name@ == key@,
        registry_wf(old(registry)@),
    ensures
        entry == expected,
        final(registry)@ == final(viewed)@,
        entry is Some <==> outcome is Ok,
{
    let before = old(registry)@;
    place_of_is_first(before, key@);
    place_of_is_first(final(opened)@, key@);
    if outcome is Ok && !crate::session_runtime_registry::is_open(before, key@) {
        let n = before.len() as int;
        let after = final(opened)@;
        assert(after[n].key() == key@);
        let place = place_of(after, key@);
        if place < n {
            assert(after[place] == before[place]);
            assert(before[place].key() != key@);
        }
    }
}

/// A view that joins a session that need not be open replays what it has not seen, or opens
/// the session and replays nothing; past the limit it is refused.
pub proof fn a_view_may_join_before_the_session_is_open(
    registry: &mut SessionRuntimeRegistry,
    seen: &SessionRuntimeRegistry,
    key: &str,
    working_dir: String,
    after: Option<u64>,
    result: Result<Vec<Arc<SequencedSessionEvent>>, RegistryError>,
    expected: Result<Vec<Arc<SequencedSessionEvent>>, RegistryError>,
    at: int,
)
    requires
        call_ensures(
            SessionRuntimeRegistry::subscribe_or_empty,
            (registry, key, working_dir, after),
            result,
        ),
        call_ensures(SessionRuntimeRegistry::subscribe, (seen, key, after), expected),
        *seen == *old(registry),
        registry_wf(old(registry)@),
        stands_at(*old(registry), key@, at) || is_absent(*old(registry), key@),
    ensures
        stands_at(*old(registry), key@, at) ==> result is Ok && expected is Ok && result->Ok_0@
            == expected->Ok_0@ && final(registry)@ == old(registry)@,
        is_absent(*old(registry), key@) && old(registry).entries@.len() >= 32 ==> final(registry)@
            == old(registry)@ && (result matches Err(RegistryError::LiveLimit { max }) && max
            == 32),
        is_absent(*old(registry), key@) && old(registry).entries@.len() < 32 ==> {
            &&& result is Ok && result->Ok_0@.len() == 0
            &&& final(registry).entries@.len() == old(registry).entries@.len() + 1
            &&& final(registry).entries@.last().meta.session_id@ == key@
            &&& final(registry).entries@.last().meta.working_dir == working_dir
            &&& final(registry).entries@.last().meta.activity is Starting
            &&& !final(registry).entries@.last().bound
            &&& final(registry).entries@.last().journal@.len() == 0
            &&& final(registry)@.drop_last() == old(registry)@
        },
{
    if stands_at(*old(registry), key@, at) {
        a_session_is_found(*old(registry), key@, at);
    } else {
        a_session_is_missed(*old(registry), key@);
        entries_are_seen(*final(registry));
        let n = final(registry).entries@.len() as int;
        if n > old(registry).entries@.len() {
            assert(final(registry)@[n - 1] == final(registry).entries@[n - 1]@);
        }
    }
}

proof fn picked_sessions_are_filtered(sessions: Seq<LiveView>, picks: Seq<bool>)
    requires
        sessions.len() <= picks.len(),
    ensures
        crate::session_runtime_registry::activities_picked(sessions, picks) == Seq::new(
            sessions.len(),
            |i: int| i,
        ).filter(|i: int| picks[i]).map_values(
            |i: int| (sessions[i].meta.session_id, sessions[i].meta.activity),
        ),
    decreases sessions.len(),
{
    reveal(Seq::filter);
    let n = sessions.len() as int;
    let places = Seq::new(sessions.len(), |i: int| i);
    let picked = |i: int| picks[i];
    let shown = |i: int| (sessions[i].meta.session_id, sessions[i].meta.activity);
    if n > 0 {
        let front = sessions.drop_last();
        picked_sessions_are_filtered(front, picks);
        let fewer = Seq::new(front.len(), |i: int| i);
        assert(places.drop_last() =~= fewer);
        let kept = fewer.filter(picked);
        let earlier = |i: int| (front[i].meta.session_id, front[i].meta.activity);
        assert forall|i: int| 0 <= i < kept.len() implies 0 <= #[trigger] kept[i] < front.len() by {
            fewer.lemma_filter_contains_rev(picked, kept[i]);
            let j = fewer.index_of(kept[i]);
            assert(fewer[j] == kept[i]);
        }
        assert(kept.map_values(earlier) =~= kept.map_values(shown)) by {
            assert forall|i: int| 0 <= i < kept.len() implies kept.map_values(earlier)[i]
                == kept.map_values(shown)[i] by {
                assert(front[kept[i]] == sessions[kept[i]]);
            }
        }
        assert(places.last() == n - 1);
        if picks[n - 1] {
            assert(kept.push(n - 1).map_values(shown) =~= kept.map_values(shown).push(
                shown(n - 1),
            ));
        }
    } else {
        assert(places.filter(picked).map_values(shown) =~= Seq::empty());
    }
}

/// The sessions that are picked are listed with what they do, in order, and no others are.
pub proof fn picked_sessions_are_listed(
    registry: &SessionRuntimeRegistry,
    picks: &Vec<bool>,
    list: Vec<(SessionKey, RuntimeActivity)>,
)
    requires
        call_ensures(SessionRuntimeRegistry::list_picked, (registry, picks), list),
        picks@.len() == registry.entries@.len(),
    ensures
        list@ == Seq::new(registry.entries@.len(), |i: int| i).filter(
            |i: int| picks@[i],
        ).map_values(
            |i: int|
                (registry.entries@[i].meta.session_id, registry.entries@[i].meta.activity),
        ),
{
    entries_are_seen(*registry);
    picked_sessions_are_filtered(registry@, picks@);
    places_show_the_same(*registry, picks@);
}

proof fn places_show_the_same(registry: SessionRuntimeRegistry, picks: Seq<bool>)
    requires
        picks.len() == registry.entries@.len(),
    ensures
        Seq::new(registry@.len(), |i: int| i).filter(|i: int| picks[i]).map_values(
            |i: int| (registry@[i].meta.session_id, registry@[i].meta.activity),
        ) == Seq::new(registry.entries@.len(), |i: int| i).filter(|i: int| picks[i]).map_values(
            |i: int|
                (registry.entries@[i].meta.session_id, registry.entries@[i].meta.activity),
        ),
{
    entries_are_seen(registry);
    let places = Seq::new(registry.entries@.len(), |i: int| i);
    let picked = |i: int| picks[i];
    let kept = places.filter(picked);
    let left = kept.map_values(|i: int| (registry@[i].meta.session_id, registry@[i].meta.activity));
    let right = kept.map_values(
        |i: int| (registry.entries@[i].meta.session_id, registry.entries@[i].meta.activity),
    );
    assert(left =~= right) by {
        assert forall|i: int| 0 <= i < kept.len() implies left[i] == right[i] by {
            places.lemma_filter_contains_rev(picked, kept[i]);
            let j = places.index_of(kept[i]);
            assert(places[j] == kept[i]);
            assert(registry@[kept[i]] == registry.entries@[kept[i]]@);
        }
    }
}

/// The sessions of a directory are listed with what they do, in order. A directory that is
/// written alike is the same; one of other components, where paths are plain, is not.
pub proof fn the_sessions_of_a_directory_are_listed(
    registry: &SessionRuntimeRegistry,
    working_dir: &str,
    list: Vec<(SessionKey, RuntimeActivity)>,
)
    requires
        call_ensures(SessionRuntimeRegistry::list_activity, (registry, working_dir), list),
    ensures
        exists|picks: Seq<bool>|
            #![trigger picks.len()]
            {
                &&& picks.len() == registry.entries@.len()
                &&& forall|i: int|
                    0 <= i < picks.len() && registry.entries@[i].meta.working_dir@
                        == working_dir@ ==> #[trigger] picks[i]
                &&& forall|i: int|
                    0 <= i < picks.len() && #[trigger] picks[i]
                        && crate::path::is_plain_path(working_dir@)
                        && crate::path::is_plain_path(registry.entries@[i].meta.working_dir@)
                        ==> crate::path::is_same_path(
                        registry.entries@[i].meta.working_dir@,
                        working_dir@,
                    )
                &&& list@ == Seq::new(registry.entries@.len(), |i: int| i).filter(
                    |i: int| picks[i],
                ).map_values(
                    |i: int|
                        (registry.entries@[i].meta.session_id, registry.entries@[i].meta.activity),
                )
            },
{
    entries_are_seen(*registry);
    let picks = choose|picks: Seq<bool>| #[trigger]
        crate::session_runtime_registry::picks_directory(registry@, working_dir@, picks) && list@
            == crate::session_runtime_registry::activities_picked(registry@, picks);
    picked_sessions_are_filtered(registry@, picks);
    places_show_the_same(*registry, picks);
    assert forall|i: int|
        0 <= i < picks.len() && registry.entries@[i].meta.working_dir@
            == working_dir@ implies #[trigger] picks[i] by {
        assert(registry@[i] == registry.entries@[i]@);
    }
    assert forall|i: int|
        0 <= i < picks.len() && #[trigger] picks[i] && crate::path::is_plain_path(working_dir@)
            && crate::path::is_plain_path(
            registry.entries@[i].meta.working_dir@,
        ) implies crate::path::is_same_path(
        registry.entries@[i].meta.working_dir@,
        working_dir@,
    ) by {
        assert(registry@[i] == registry.entries@[i]@);
    }
    assert(picks.len() == registry.entries@.len());
}

/// Whether the session stays: it is tracked, or it does something.
pub open spec fn is_tracked_or_busy(session: LiveView, keep: Seq<Seq<char>>) -> bool {
    keep.contains(session.meta.session_id@) || !(session.meta.activity is Ready
        || session.meta.activity is Stopped || session.meta.activity is Failed)
}

proof fn kept_sessions_are_filtered(sessions: Seq<LiveView>, keep: Seq<Seq<char>>)
    ensures
        crate::session_runtime_registry::retained(sessions, keep) == sessions.filter(
            |session: LiveView| is_tracked_or_busy(session, keep),
        ),
        crate::session_runtime_registry::released(sessions, keep) == sessions.filter(
            |session: LiveView| !is_tracked_or_busy(session, keep),
        ),
    decreases sessions.len(),
{
    let stays = |session: LiveView| is_tracked_or_busy(session, keep);
    let goes = |session: LiveView| !is_tracked_or_busy(session, keep);
    if sessions.len() == 0 {
        reveal(Seq::filter);
        assert(sessions =~= Seq::empty());
    } else {
        let rest = sessions.drop_first();
        kept_sessions_are_filtered(rest, keep);
        let first = seq![sessions[0]];
        assert(first + rest =~= sessions);
        Seq::filter_distributes_over_add(first, rest, stays);
        Seq::filter_distributes_over_add(first, rest, goes);
        reveal_with_fuel(Seq::filter, 2);
        assert(first.drop_last() =~= Seq::empty());
        assert(first.filter(stays) =~= if stays(sessions[0]) {
            first
        } else {
            Seq::empty()
        });
        assert(first.filter(goes) =~= if goes(sessions[0]) {
            first
        } else {
            Seq::empty()
        });
    }
}

/// Sessions that are neither tracked nor busy are let go, the others stay in order, and of
/// those that go exactly the bound ones are to be shut down.
pub proof fn untracked_idle_sessions_are_let_go(
    registry: &mut SessionRuntimeRegistry,
    keep: &Vec<SessionKey>,
    bound: Vec<SessionKey>,
)
    requires
        call_ensures(SessionRuntimeRegistry::retain_sessions, (registry, keep), bound),
    ensures
        final(registry)@ == old(registry)@.filter(
            |session: LiveView| is_tracked_or_busy(session, texts(keep@)),
        ),
        bound@ == old(registry)@.filter(
            |session: LiveView| !is_tracked_or_busy(session, texts(keep@)),
        ).filter(|session: LiveView| session.bound).map_values(
            |session: LiveView| session.meta.session_id,
        ),
{
    kept_sessions_are_filtered(old(registry)@, texts(keep@));
    bound_sessions_are_filtered(
        old(registry)@.filter(|session: LiveView| !is_tracked_or_busy(session, texts(keep@))),
    );
}

/// A registry begins empty; an entry is copied whole; a fingerprint shows at most 192 letters
/// behind its prefix, and says where it was cut.
pub proof fn a_registry_begins_empty(
    registry: SessionRuntimeRegistry,
    entry: &SessionRuntimeEntry,
    copy: SessionRuntimeEntry,
    prefix: &str,
    value: &str,
    key: String,
)
    requires
        call_ensures(SessionRuntimeRegistry::new, (), registry),
        call_ensures(SessionRuntimeEntry::duplicate, (entry,), copy),
        call_ensures(clip_key, (prefix, value), key),
    ensures
        registry.entries@.len() == 0,
        copy == *entry,
        value@.len() <= 192 ==> key@ == prefix@ + value@,
        value@.len() > 192 ==> key@ == prefix@ + value@.take(192) + "…"@,
{
    assert(registry@.len() == registry.entries@.len());
}

} // verus!
