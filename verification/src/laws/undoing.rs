//! What undoing does to a conversation and to the records beside it, and how it is taken back.
use crate::conversation::{
    copy_prefix, message_views, prompt_count, Message, SessionSnapshot, ToolCall,
};
use crate::error::{NativePersistenceError, RuntimeError};
use crate::undo::{
    compute_runtime_undo, count_prompts, kept_entries, persist_runtime_undo, plan_restore,
    restore_base, restore_runtime_undo, stays, turns_where, undo_message_count,
    undo_of_entries_is_reversible, undo_snapshot_to_prompt, DisplayAnchor, MutationRefusal,
    NativeUndoSidecars, PresentationEntry, RestorePlan, RuntimeUndoPlan, SessionRecords,
    SnapshotUndoResult, TurnStat,
};
use std::sync::Arc;
use vstd::prelude::*;
use vstd::string::*;

verus! {

/// Whether the user asked the message.
pub open spec fn asked(message: Message) -> bool {
    message.role is User && !message.synthetic
}

/// Whether two calls of tools are the same, letter by letter.
pub open spec fn same_call(left: ToolCall, right: ToolCall) -> bool {
    left.id@ == right.id@ && left.name@ == right.name@ && left.args@ == right.args@
}

/// Whether two messages are the same, letter by letter.
pub open spec fn same_message(left: Message, right: Message) -> bool {
    &&& left.role == right.role && left.text@ == right.text@
    &&& left.synthetic == right.synthetic && left.rest@ == right.rest@
    &&& left.tool_calls@.len() == right.tool_calls@.len()
    &&& forall|i: int|
        0 <= i < left.tool_calls@.len() ==> same_call(
            #[trigger] left.tool_calls@[i],
            right.tool_calls@[i],
        )
}

/// Whether the first messages of the one conversation are the other one.
pub open spec fn starts_as(messages: Seq<Message>, left: Seq<Message>) -> bool {
    left.len() <= messages.len() && forall|i: int|
        0 <= i < left.len() ==> same_message(#[trigger] left[i], messages[i])
}

pub(crate) proof fn equal_views_are_same_messages(left: Message, right: Message)
    requires
        left@ == right@,
    ensures
        same_message(left, right),
{
    assert(left@.tool_calls.len() == left.tool_calls@.len());
    assert(right@.tool_calls.len() == right.tool_calls@.len());
    assert forall|i: int| 0 <= i < left.tool_calls@.len() implies same_call(
        #[trigger] left.tool_calls@[i],
        right.tool_calls@[i],
    ) by {
        assert(left@.tool_calls[i] == left.tool_calls@[i]@);
        assert(right@.tool_calls[i] == right.tool_calls@[i]@);
    }
}

pub(crate) proof fn same_messages_have_equal_views(left: Message, right: Message)
    requires
        same_message(left, right),
    ensures
        left@ == right@,
{
    assert(left@.tool_calls =~= right@.tool_calls) by {
        assert forall|i: int| 0 <= i < left.tool_calls@.len() implies left@.tool_calls[i]
            == right@.tool_calls[i] by {
            assert(same_call(left.tool_calls@[i], right.tool_calls@[i]));
        }
    }
}

proof fn equal_prefixes_start_alike(messages: Seq<Message>, left: Seq<Message>)
    requires
        left.len() <= messages.len(),
        message_views(left) == message_views(messages).take(left.len() as int),
    ensures
        starts_as(messages, left),
{
    assert forall|i: int| 0 <= i < left.len() implies same_message(
        #[trigger] left[i],
        messages[i],
    ) by {
        assert(message_views(left)[i] == message_views(messages)[i]);
        equal_views_are_same_messages(left[i], messages[i]);
    }
}

proof fn pushing_pushes_the_view(messages: Seq<Message>, message: Message)
    ensures
        prompt_count(message_views(messages.push(message))) == prompt_count(message_views(messages))
            + if asked(message) {
            1nat
        } else {
            0nat
        },
{
    assert(message_views(messages.push(message)).drop_last() =~= message_views(messages));
}

/// One more prompt counts as one more; what the user did not ask does not count.
pub proof fn prompts_are_counted_one_by_one(
    messages: &Vec<Message>,
    longer: &Vec<Message>,
    message: Message,
    count: usize,
    larger: usize,
    prompt: bool,
)
    requires
        call_ensures(count_prompts, (messages,), count),
        call_ensures(count_prompts, (longer,), larger),
        call_ensures(Message::is_prompt, (&message,), prompt),
        longer@ == messages@.push(message),
    ensures
        messages@.len() == 0 ==> count == 0,
        asked(message) ==> larger == count + 1,
        !asked(message) ==> larger == count,
        prompt <==> asked(message),
{
    pushing_pushes_the_view(messages@, message);
}

/// Undoing goes back to before a prompt: what stood before it is left, letter by letter, the
/// prompt's words are given back, and one prompt less than its number is left. The last prompt
/// is meant where none is asked for.
pub proof fn undoing_goes_back_to_before_a_prompt(
    messages: &Vec<Message>,
    nth: Option<usize>,
    result: Result<RuntimeUndoPlan, RuntimeError>,
    before: usize,
    plan: RuntimeUndoPlan,
    left: usize,
)
    requires
        call_ensures(compute_runtime_undo, (messages, nth), result),
        call_ensures(count_prompts, (messages,), before),
        result == Ok::<RuntimeUndoPlan, RuntimeError>(plan),
        call_ensures(count_prompts, (&plan.truncated,), left),
    ensures
        starts_as(messages@, plan.truncated@),
        plan.truncated@.len() < messages@.len(),
        asked(messages@[plan.truncated@.len() as int]),
        plan.restored_prompt@ == messages@[plan.truncated@.len() as int].text@,
        plan.prompts_before == before,
        left + 1 == plan.target_n,
        nth matches Some(n) ==> plan.target_n == n,
        nth is None ==> plan.target_n == before,
{
    let views = message_views(messages@);
    let at = plan.truncated@.len() as int;
    assert(views[at] == messages@[at]@);
    equal_prefixes_start_alike(messages@, plan.truncated@);
}

/// Undoing is refused exactly where there is no such prompt, with both numbers.
pub proof fn undoing_is_refused_where_there_is_no_such_prompt(
    messages: &Vec<Message>,
    nth: Option<usize>,
    result: Result<RuntimeUndoPlan, RuntimeError>,
    count: usize,
)
    requires
        call_ensures(compute_runtime_undo, (messages, nth), result),
        call_ensures(count_prompts, (messages,), count),
    ensures
        nth matches Some(n) ==> (result is Err <==> n == 0 || n > count),
        nth is None ==> (result is Err <==> count == 0),
        result matches Err(error) ==> (error matches RuntimeError::UndoOutOfRange {
            requested,
            available,
        } && available == count && (nth matches Some(n) ==> requested == n) && (nth is None
            ==> requested == 0)),
{
}

/// A snapshot is undone as its conversation is; its counters and the rest stay.
pub proof fn a_snapshot_is_undone_as_its_conversation(
    snapshot: &SessionSnapshot,
    nth: Option<usize>,
    result: Result<SnapshotUndoResult, RuntimeError>,
    count: usize,
    undo: SnapshotUndoResult,
    left: usize,
)
    requires
        call_ensures(undo_snapshot_to_prompt, (snapshot, nth), result),
        call_ensures(count_prompts, (&snapshot.messages,), count),
        result == Ok::<SnapshotUndoResult, RuntimeError>(undo),
        call_ensures(count_prompts, (&undo.snapshot.messages,), left),
    ensures
        starts_as(snapshot.messages@, undo.snapshot.messages@),
        undo.snapshot.messages@.len() < snapshot.messages@.len(),
        asked(snapshot.messages@[undo.snapshot.messages@.len() as int]),
        undo.restored_prompt@ == snapshot.messages@[undo.snapshot.messages@.len() as int].text@,
        undo.prompts_before == count && left + 1 == undo.target_n,
        nth matches Some(n) ==> undo.target_n == n,
        nth is None ==> undo.target_n == count,
        undo.snapshot.turn_counter == snapshot.turn_counter,
        undo.snapshot.request_counter == snapshot.request_counter,
        undo.snapshot.rest@ == snapshot.rest@,
{
    let at = undo.snapshot.messages@.len() as int;
    assert(snapshot@.messages[at] == snapshot.messages@[at]@);
    equal_prefixes_start_alike(snapshot.messages@, undo.snapshot.messages@);
}

/// A snapshot is refused exactly where its conversation has no such prompt.
pub proof fn a_snapshot_without_such_a_prompt_is_refused(
    snapshot: &SessionSnapshot,
    nth: Option<usize>,
    result: Result<SnapshotUndoResult, RuntimeError>,
    count: usize,
)
    requires
        call_ensures(undo_snapshot_to_prompt, (snapshot, nth), result),
        call_ensures(count_prompts, (&snapshot.messages,), count),
    ensures
        nth matches Some(n) ==> (result is Err <==> n == 0 || n > count),
        nth is None ==> (result is Err <==> count == 0),
        result matches Err(error) ==> (error matches RuntimeError::UndoOutOfRange {
            requested,
            available,
        } && available == count && (nth matches Some(n) ==> requested == n)),
{
}

/// Whether a turn ended within the first `count` messages, or its place is unknown.
pub open spec fn is_within(stat: TurnStat, count: int) -> bool {
    !stat.position_valid || stat.after_message <= count
}

/// Whether an entry hangs on nothing, or on a turn of known place among those.
pub open spec fn hangs_on(entry: PresentationEntry, turns: Seq<TurnStat>) -> bool {
    entry.anchor matches DisplayAnchor::AfterTurn { turn_id } ==> turn_id != 0 && exists|i: int|
        0 <= i < turns.len() && (#[trigger] turns[i]).position_valid && turns[i].turn_id == turn_id
}

proof fn turns_are_filtered(stats: Seq<TurnStat>, count: int)
    ensures
        turns_where(stats, count, false) == stats.filter(|stat: TurnStat| is_within(stat, count)),
        turns_where(stats, count, true) == stats.filter(|stat: TurnStat| !is_within(stat, count)),
    decreases stats.len(),
{
    reveal(Seq::filter);
    if stats.len() > 0 {
        turns_are_filtered(stats.drop_last(), count);
    }
}

proof fn entries_are_filtered(entries: Seq<PresentationEntry>, kept: Seq<TurnStat>)
    ensures
        kept_entries(entries, kept) == entries.filter(
            |entry: PresentationEntry| hangs_on(entry, kept),
        ),
    decreases entries.len(),
{
    let set = |entry: PresentationEntry| hangs_on(entry, kept);
    if entries.len() == 0 {
        reveal(Seq::filter);
    } else {
        let rest = entries.drop_first();
        entries_are_filtered(rest, kept);
        let first = seq![entries[0]];
        assert(first + rest =~= entries);
        Seq::filter_distributes_over_add(first, rest, set);
        assert(first.filter(set) =~= if set(entries[0]) {
            first
        } else {
            Seq::empty()
        }) by {
            reveal_with_fuel(Seq::filter, 2);
            assert(first.drop_last() =~= Seq::empty());
        }
        assert(stays(entries[0], kept) == set(entries[0]));
    }
}

/// An undo keeps the turns that ended within what is left, in their order, and the entries
/// that hang on them; the rest goes into the sidecars, with the records as they were.
pub proof fn an_undo_keeps_what_belongs_to_what_is_left(
    expected: Option<&SessionSnapshot>,
    current: &SessionSnapshot,
    snapshot: &SessionSnapshot,
    message_count: u32,
    records: &mut SessionRecords,
    presentation: &mut Vec<PresentationEntry>,
    now: u64,
    result: Result<NativeUndoSidecars, MutationRefusal>,
)
    requires
        call_ensures(
            persist_runtime_undo,
            (expected, current, snapshot, message_count, records, presentation, now),
            result,
        ),
        message_count == snapshot.messages@.len(),
    ensures
        final(records).rest == old(records).rest,
        result is Err ==> *final(records) == *old(records) && *final(presentation) == *old(
            presentation,
        ),
        result matches Ok(sidecars) ==> {
            let before = old(records).turn_stats@;
            let within = |stat: TurnStat| is_within(stat, message_count as int);
            let beyond = |stat: TurnStat| !is_within(stat, message_count as int);
            let kept = final(records).turn_stats@;
            &&& kept == before.filter(within)
            &&& final(records).turn_count == kept.len()
            &&& final(records).message_count == message_count
            &&& final(records).updated_at == now
            &&& final(presentation)@ == old(presentation)@.filter(
                |entry: PresentationEntry| hangs_on(entry, kept),
            )
            &&& sidecars.archived_turn_stats@ == before.filter(beyond)
            &&& sidecars.turn_stats@ == before
            &&& sidecars.message_count == old(records).message_count
            &&& sidecars.turn_count == old(records).turn_count
        },
{
    turns_are_filtered(old(records).turn_stats@, message_count as int);
    entries_are_filtered(
        old(presentation)@,
        turns_where(old(records).turn_stats@, message_count as int, false),
    );
}

/// An undo is refused for a snapshot that is no longer the one expected, and for more turns
/// than can be counted; for nothing else.
pub proof fn an_undo_is_refused_for_another_snapshot(
    expected: Option<&SessionSnapshot>,
    current: &SessionSnapshot,
    snapshot: &SessionSnapshot,
    message_count: u32,
    records: &mut SessionRecords,
    presentation: &mut Vec<PresentationEntry>,
    now: u64,
    result: Result<NativeUndoSidecars, MutationRefusal>,
    same: bool,
)
    requires
        call_ensures(
            persist_runtime_undo,
            (expected, current, snapshot, message_count, records, presentation, now),
            result,
        ),
        message_count == snapshot.messages@.len(),
        expected is Some ==> call_ensures(SessionSnapshot::same, (expected->0, current), same),
        expected is None ==> same,
    ensures
        !same <==> (result matches Err(refusal) && refusal is Conflict),
        result matches Err(refusal) ==> refusal is Conflict || (refusal is TooManyTurns
            && old(records).turn_stats@.len() > u32::MAX),
{
    turns_are_filtered(old(records).turn_stats@, message_count as int);
    let within = |stat: TurnStat| is_within(stat, message_count as int);
    old(records).turn_stats@.lemma_filter_len(within);
}

/// A rollback undoes an undo: the turns, the counts and the entries are as they were before,
/// and what was appended meanwhile stands behind them.
pub proof fn a_rollback_undoes_an_undo(
    expected: Option<&SessionSnapshot>,
    current: &SessionSnapshot,
    snapshot: &SessionSnapshot,
    message_count: u32,
    records: &mut SessionRecords,
    presentation: &mut Vec<PresentationEntry>,
    now: u64,
    sidecars: NativeUndoSidecars,
    kept: &SessionSnapshot,
    found: &SessionSnapshot,
    again: &mut SessionRecords,
    shown: &mut Vec<PresentationEntry>,
    appended: Seq<PresentationEntry>,
    later: u64,
    result: Result<(), MutationRefusal>,
    same: bool,
)
    requires
        call_ensures(
            persist_runtime_undo,
            (expected, current, snapshot, message_count, records, presentation, now),
            Ok::<NativeUndoSidecars, MutationRefusal>(sidecars),
        ),
        message_count == snapshot.messages@.len(),
        call_ensures(restore_runtime_undo, (kept, found, sidecars, again, shown, later), result),
        call_ensures(SessionSnapshot::same, (found, kept), same),
        *old(again) == *final(records),
        old(shown)@ == final(presentation)@ + appended,
    ensures
        result is Ok <==> same,
        result matches Err(refusal) ==> refusal is Conflict && *final(again) == *old(again)
            && *final(shown) == *old(shown),
        same ==> {
            &&& final(again).turn_stats@ == old(records).turn_stats@
            &&& final(again).turn_count == old(records).turn_count
            &&& final(again).message_count == old(records).message_count
            &&& final(again).rest == old(records).rest
            &&& final(again).updated_at == later
            &&& final(shown)@ == old(presentation)@ + appended
        },
{
    let kept_turns = turns_where(old(records).turn_stats@, message_count as int, false);
    assert(old(presentation)@.len() == old(presentation).len());
    undo_of_entries_is_reversible(old(presentation)@, appended, kept_turns);
}

/// The refusal is told as the store would tell it.
pub proof fn a_refusal_is_told_as_by_the_store(
    refusal: MutationRefusal,
    rolling_back: bool,
    error: (&'static str, &'static str),
)
    requires
        call_ensures(MutationRefusal::store_error, (refusal, rolling_back), error),
    ensures
        refusal is Conflict ==> error.0@ == "session mutation conflict"@,
        refusal is Conflict && rolling_back ==> error.1@
            == "canonical snapshot changed before undo rollback"@,
        refusal is Conflict && !rolling_back ==> error.1@
            == "canonical snapshot changed before undo commit"@,
        refusal is TooManyTurns ==> error.0@ == "session mutation"@ && error.1@
            == "turn count exceeds native metadata"@,
{
}

/// Messages are counted as far as the records can hold the number.
pub proof fn messages_are_counted_as_far_as_they_can(
    snapshot: &SessionSnapshot,
    count: Result<u32, NativePersistenceError>,
)
    requires
        call_ensures(undo_message_count, (snapshot,), count),
    ensures
        count is Ok <==> snapshot.messages@.len() <= u32::MAX,
        count matches Ok(n) ==> n == snapshot.messages@.len(),
        count matches Err(error) ==> !error.uncertain_commit && !error.snapshot_conflict
            && error.message@ == "snapshot message count exceeds native metadata"@,
{
}

/// A restore starts from what the store holds, else from what was last left, else from where
/// the session was resumed; sidecars are put back where a session is bound.
pub proof fn a_restore_starts_from_the_nearest_snapshot(
    stored: Option<Arc<SessionSnapshot>>,
    left: Option<Arc<SessionSnapshot>>,
    resume: Option<Arc<SessionSnapshot>>,
    base: Option<Arc<SessionSnapshot>>,
    sidecars: Option<NativeUndoSidecars>,
    bound: bool,
    plan: RestorePlan,
)
    requires
        call_ensures(restore_base, (stored, left, resume), base),
        call_ensures(plan_restore, (sidecars, bound), plan),
    ensures
        stored is Some ==> base == stored,
        stored is None && left is Some ==> base == left,
        stored is None && left is None ==> base == resume,
        sidecars is None <==> plan is Snapshot,
        sidecars matches Some(kept) ==> bound ==> plan == RestorePlan::Sidecars(kept),
        sidecars is Some && !bound ==> (plan matches RestorePlan::Lost(error)
            && !error.uncertain_commit && !error.snapshot_conflict && error.message@
            == "native undo rollback lost its session binding"@),
{
}

/// A message is made of what it is made from, and of nothing else.
pub proof fn a_message_is_made_of_its_parts(
    words: &str,
    owned: String,
    calls: Vec<ToolCall>,
    system: Message,
    user: Message,
    injected: Message,
    answer: Message,
)
    requires
        call_ensures(Message::system, (words,), system),
        call_ensures(Message::user, (words,), user),
        call_ensures(Message::synthetic_user, (owned,), injected),
        call_ensures(Message::assistant, (words, calls), answer),
    ensures
        system.role is System && user.role is User && injected.role is User && answer.role
            is Assistant,
        !system.synthetic && !user.synthetic && injected.synthetic && !answer.synthetic,
        system.text@ == words@ && user.text@ == words@ && injected.text@ == owned@ && answer.text@
            == words@,
        system.tool_calls@.len() == 0 && user.tool_calls@.len() == 0
            && injected.tool_calls@.len() == 0,
        answer.tool_calls@.len() == calls@.len(),
        forall|i: int|
            0 <= i < calls@.len() ==> same_call(#[trigger] answer.tool_calls@[i], calls@[i]),
        system.rest@.len() == 0 && user.rest@.len() == 0 && injected.rest@.len() == 0
            && answer.rest@.len() == 0,
{
    assert(system@.tool_calls.len() == 0 && user@.tool_calls.len() == 0
        && injected@.tool_calls.len() == 0);
    assert(answer@.tool_calls.len() == calls@.len());
    assert forall|i: int| 0 <= i < calls@.len() implies same_call(
        #[trigger] answer.tool_calls@[i],
        calls@[i],
    ) by {
        assert(answer@.tool_calls[i] == calls@[i]@);
    }
}

/// Copies are the same, and sameness is that of every letter.
pub proof fn copies_are_the_same(
    message: &Message,
    copy: Message,
    other: &Message,
    same: bool,
    call: &ToolCall,
    call_copy: ToolCall,
    messages: &Vec<Message>,
    count: usize,
    prefix: Vec<Message>,
)
    requires
        call_ensures(Message::duplicate, (message,), copy),
        call_ensures(Message::same, (message, other), same),
        call_ensures(ToolCall::duplicate, (call,), call_copy),
        call_ensures(copy_prefix, (messages, count), prefix),
        count <= messages@.len(),
    ensures
        same_message(copy, *message),
        same <==> same_message(*message, *other),
        same_call(call_copy, *call),
        prefix@.len() == count && starts_as(messages@, prefix@),
{
    equal_views_are_same_messages(copy, *message);
    if message@ == other@ {
        equal_views_are_same_messages(*message, *other);
    }
    if same_message(*message, *other) {
        same_messages_have_equal_views(*message, *other);
    }
    assert(message_views(prefix@).len() == message_views(messages@).take(count as int).len());
    equal_prefixes_start_alike(messages@, prefix@);
}

/// Snapshots are compared and copied with all that they hold; a new one has counted nothing.
pub proof fn snapshots_are_compared_as_a_whole(
    snapshot: &SessionSnapshot,
    other: &SessionSnapshot,
    same: bool,
    copy: SessionSnapshot,
    messages: Vec<Message>,
    fresh: SessionSnapshot,
)
    requires
        call_ensures(SessionSnapshot::same, (snapshot, other), same),
        call_ensures(SessionSnapshot::duplicate, (snapshot,), copy),
        call_ensures(SessionSnapshot::new, (messages,), fresh),
    ensures
        same <==> snapshot.messages@.len() == other.messages@.len() && starts_as(
            snapshot.messages@,
            other.messages@,
        ) && snapshot.turn_counter == other.turn_counter && snapshot.request_counter
            == other.request_counter && snapshot.rest@ == other.rest@,
        copy.messages@.len() == snapshot.messages@.len() && starts_as(
            snapshot.messages@,
            copy.messages@,
        ),
        copy.turn_counter == snapshot.turn_counter && copy.request_counter
            == snapshot.request_counter && copy.rest@ == snapshot.rest@,
        fresh.messages@.len() == messages@.len() && starts_as(messages@, fresh.messages@),
        fresh.turn_counter == 0 && fresh.request_counter == 0 && fresh.rest@.len() == 0,
{
    equal_lists_start_alike(snapshot.messages@, copy.messages@);
    equal_lists_start_alike(messages@, fresh.messages@);
    if snapshot@ == other@ {
        equal_lists_start_alike(snapshot.messages@, other.messages@);
    }
    if snapshot.messages@.len() == other.messages@.len() && starts_as(
        snapshot.messages@,
        other.messages@,
    ) {
        assert(message_views(snapshot.messages@) =~= message_views(other.messages@)) by {
            assert forall|i: int| 0 <= i < snapshot.messages@.len() implies message_views(
                snapshot.messages@,
            )[i] == message_views(other.messages@)[i] by {
                assert(same_message(other.messages@[i], snapshot.messages@[i]));
                same_messages_have_equal_views(other.messages@[i], snapshot.messages@[i]);
            }
        }
    }
}

proof fn equal_lists_start_alike(messages: Seq<Message>, left: Seq<Message>)
    requires
        message_views(left) == message_views(messages),
    ensures
        left.len() == messages.len(),
        starts_as(messages, left),
{
    assert(message_views(left).len() == message_views(messages).len());
    assert(message_views(messages).take(left.len() as int) =~= message_views(messages));
    equal_prefixes_start_alike(messages, left);
}

} // verus!
