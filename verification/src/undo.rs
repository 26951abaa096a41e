//! Undoing prompts: what is left of the conversation, and what happens to the records that
//! hang on the turns that go.
use crate::conversation::{
    copy_prefix, message_views, prompt_count, prompt_count_grows, Message, MessageView,
    SessionSnapshot, SnapshotView,
};
use crate::error::{NativePersistenceError, RuntimeError};
use std::sync::Arc;
use vstd::prelude::*;

verus! {

/// What is left after an undo, and what it took away.
#[derive(Clone, Debug, PartialEq, Eq)]
pub struct RuntimeUndoPlan {
    pub truncated: Vec<Message>,
    pub restored_prompt: String,
    pub target_n: usize,
    pub prompts_before: usize,
}

/// The same for a snapshot.
#[derive(Clone, Debug, PartialEq, Eq)]
pub struct SnapshotUndoResult {
    pub snapshot: SessionSnapshot,
    pub restored_prompt: String,
    pub target_n: usize,
    pub prompts_before: usize,
}

/// The prompt to go back to, counted from one: the one asked for, else the last.
pub open spec fn undo_target(messages: Seq<MessageView>, nth: Option<usize>) -> int {
    match nth {
        Some(n) => n as int,
        None => prompt_count(messages) as int,
    }
}

/// Whether the message at `at` is the prompt with the number.
pub open spec fn is_nth_prompt(messages: Seq<MessageView>, at: int, number: int) -> bool {
    &&& 0 <= at < messages.len()
    &&& messages[at].is_prompt()
    &&& prompt_count(messages.take(at)) + 1 == number
}

/// How many prompts a conversation holds.
pub fn count_prompts(messages: &Vec<Message>) -> (count: usize)
    ensures
        count == prompt_count(message_views(messages@)),
{
    let ghost views = message_views(messages@);
    let mut count: usize = 0;
    let mut i: usize = 0;
    while i < messages.len()
        invariant
            0 <= i <= messages.len(),
            views == message_views(messages@),
            count == prompt_count(views.take(i as int)),
            count <= i,
        decreases messages.len() - i,
    {
        proof {
            assert(views.take(i + 1).drop_last() =~= views.take(i as int));
            assert(views.take(i + 1).last() == messages@[i as int]@);
        }
        if messages[i].is_prompt() {
            count = count + 1;
        }
        i = i + 1;
    }
    assert(views.take(i as int) =~= views);
    count
}

fn find_prompt(messages: &Vec<Message>, number: usize) -> (at: usize)
    requires
        1 <= number <= prompt_count(message_views(messages@)),
    ensures
        is_nth_prompt(message_views(messages@), at as int, number as int),
{
    let ghost views = message_views(messages@);
    let mut seen: usize = 0;
    let mut i: usize = 0;
    while i < messages.len()
        invariant
            0 <= i <= messages.len(),
            views == message_views(messages@),
            seen == prompt_count(views.take(i as int)),
            seen < number,
            seen <= i,
            number <= prompt_count(views),
        decreases messages.len() - i,
    {
        proof {
            assert(views.take(i + 1).drop_last() =~= views.take(i as int));
            assert(views.take(i + 1).last() == messages@[i as int]@);
        }
        if messages[i].is_prompt() {
            seen = seen + 1;
            if seen == number {
                return i;
            }
        }
        i = i + 1;
    }
    assert(views.take(i as int) =~= views);
    i
}

/// Cuts a conversation in front of the prompt asked for, counted from one; without a number,
/// in front of the last.
pub fn compute_runtime_undo(messages: &Vec<Message>, nth: Option<usize>) -> (result: Result<
    RuntimeUndoPlan,
    RuntimeError,
>)
    ensures
        ({
            let views = message_views(messages@);
            let target = undo_target(views, nth);
            match result {
                Err(error) => {
                    &&& target < 1 || target > prompt_count(views)
                    &&& error matches RuntimeError::UndoOutOfRange { requested, available }
                        && requested == target && available == prompt_count(views)
                },
                Ok(plan) => {
                    let at = plan.truncated@.len() as int;
                    &&& 1 <= target <= prompt_count(views)
                    &&& plan.target_n == target
                    &&& plan.prompts_before == prompt_count(views)
                    &&& is_nth_prompt(views, at, target)
                    &&& message_views(plan.truncated@) == views.take(at)
                    &&& plan.restored_prompt@ == views[at].text
                },
            }
        }),
{
    let available: usize = count_prompts(messages);
    let target: usize = match nth {
        Some(n) => n,
        None => available,
    };
    if target == 0 || target > available {
        return Err(RuntimeError::UndoOutOfRange { requested: target, available });
    }
    let at: usize = find_prompt(messages, target);
    let truncated = copy_prefix(messages, at);
    assert(message_views(truncated@).len() == at);
    assert(message_views(messages@)[at as int] == messages@[at as int]@);
    Ok(
        RuntimeUndoPlan {
            truncated,
            restored_prompt: messages[at].text.clone(),
            target_n: target,
            prompts_before: available,
        },
    )
}

/// Undoes a snapshot in the same way. Its counters stay.
pub fn undo_snapshot_to_prompt(snapshot: &SessionSnapshot, nth: Option<usize>) -> (result: Result<
    SnapshotUndoResult,
    RuntimeError,
>)
    ensures
        ({
            let views = snapshot@.messages;
            let target = undo_target(views, nth);
            match result {
                Err(error) => {
                    &&& target < 1 || target > prompt_count(views)
                    &&& error matches RuntimeError::UndoOutOfRange { requested, available }
                        && requested == target && available == prompt_count(views)
                },
                Ok(undo) => {
                    let at = undo.snapshot@.messages.len() as int;
                    &&& 1 <= target <= prompt_count(views)
                    &&& undo.target_n == target
                    &&& undo.prompts_before == prompt_count(views)
                    &&& is_nth_prompt(views, at, target)
                    &&& undo.snapshot@ == (SnapshotView {
                        messages: views.take(at),
                        ..snapshot@
                    })
                    &&& undo.restored_prompt@ == views[at].text
                },
            }
        }),
{
    match compute_runtime_undo(&snapshot.messages, nth) {
        Err(error) => Err(error),
        Ok(plan) => {
            assert(message_views(plan.truncated@).len() == plan.truncated@.len());
            Ok(
                SnapshotUndoResult {
                    snapshot: SessionSnapshot {
                        messages: plan.truncated,
                        turn_counter: snapshot.turn_counter,
                        request_counter: snapshot.request_counter,
                        rest: snapshot.rest.clone(),
                    },
                    restored_prompt: plan.restored_prompt,
                    target_n: plan.target_n,
                    prompts_before: plan.prompts_before,
                },
            )
        },
    }
}

/// A conversation that is cut in front of a prompt holds exactly the prompts before it, and
/// no two messages are the same prompt.
pub proof fn an_undone_conversation_keeps_the_earlier_prompts(
    messages: Seq<MessageView>,
    at: int,
    other: int,
    number: int,
)
    requires
        is_nth_prompt(messages, at, number),
        is_nth_prompt(messages, other, number),
    ensures
        prompt_count(messages.take(at)) == number - 1,
        at == other,
{
    if at < other {
        assert(messages.take(at + 1).drop_last() =~= messages.take(at));
        prompt_count_grows(messages, at + 1, other);
    } else if other < at {
        assert(messages.take(other + 1).drop_last() =~= messages.take(other));
        prompt_count_grows(messages, other + 1, at);
    }
}

/// What a turn cost, and where in the conversation it ended.
#[derive(Clone, Debug, PartialEq, Eq)]
pub struct TurnStat {
    pub after_message: usize,
    /// Whether `after_message` still says where the turn ended.
    pub position_valid: bool,
    pub turn_id: u64,
    pub round_count: u32,
    pub tool_call_count: u32,
    pub duration_ms: u64,
    pub total_tokens: u64,
    pub errored: bool,
    pub used_tokens: u32,
    pub ctx_window: u32,
    /// What each model used, as JSON text.
    pub model_usage: String,
}

impl TurnStat {
    fn duplicate(&self) -> (copy: TurnStat)
        ensures
            copy == *self,
    {
        TurnStat {
            after_message: self.after_message,
            position_valid: self.position_valid,
            turn_id: self.turn_id,
            round_count: self.round_count,
            tool_call_count: self.tool_call_count,
            duration_ms: self.duration_ms,
            total_tokens: self.total_tokens,
            errored: self.errored,
            used_tokens: self.used_tokens,
            ctx_window: self.ctx_window,
            model_usage: self.model_usage.clone(),
        }
    }
}

/// What a display entry is attached to.
#[derive(Clone, Copy, Debug, PartialEq, Eq, Structural)]
pub enum DisplayAnchor {
    AtStart,
    AfterTurn { turn_id: u64 },
}

#[derive(Clone, Copy, Debug, PartialEq, Eq, Structural)]
pub enum PresentationRole {
    User,
    Assistant,
}

/// Something shown in the conversation that is not part of it.
#[derive(Clone, Debug, PartialEq, Eq)]
pub struct PresentationEntry {
    pub anchor: DisplayAnchor,
    pub role: PresentationRole,
    pub text: String,
}

impl PresentationEntry {
    fn duplicate(&self) -> (copy: PresentationEntry)
        ensures
            copy == *self,
    {
        PresentationEntry { anchor: self.anchor, role: self.role, text: self.text.clone() }
    }
}

/// The records of a session that hang on its conversation.
#[derive(Clone, Debug, PartialEq, Eq)]
pub struct SessionRecords {
    pub message_count: u32,
    pub turn_count: u32,
    pub turn_stats: Vec<TurnStat>,
    pub updated_at: u64,
    /// What else is known of the session, such as its name and where it came from, as JSON
    /// text.
    pub rest: String,
}

/// An entry that was taken out, and where it stood.
#[derive(Clone, Debug, PartialEq, Eq)]
pub struct RemovedEntry {
    pub index: usize,
    pub entry: PresentationEntry,
}

/// What an undo took away, so that it can be put back.
#[derive(Clone, Debug, PartialEq, Eq)]
pub struct NativeUndoSidecars {
    pub message_count: u32,
    pub turn_count: u32,
    pub turn_stats: Vec<TurnStat>,
    pub archived_turn_stats: Vec<TurnStat>,
    pub removed_presentation: Vec<RemovedEntry>,
}

/// Why a mutation of a stored session was refused.
#[derive(Clone, Copy, Debug, PartialEq, Eq, Structural)]
pub enum MutationRefusal {
    /// The stored snapshot is not the one the mutation was computed from.
    Conflict,
    /// There are more turns than the records can count.
    TooManyTurns,
}

impl MutationRefusal {
    /// The kind and the words of the store's error for the refusal, of an undo or of the way
    /// back from one.
    pub fn store_error(self, rolling_back: bool) -> (error: (&'static str, &'static str))
        ensures
            error.0@ == match self {
                MutationRefusal::Conflict => "session mutation conflict"@,
                MutationRefusal::TooManyTurns => "session mutation"@,
            },
            error.1@ == match self {
                MutationRefusal::Conflict => if rolling_back {
                    "canonical snapshot changed before undo rollback"@
                } else {
                    "canonical snapshot changed before undo commit"@
                },
                MutationRefusal::TooManyTurns => "turn count exceeds native metadata"@,
            },
    {
        match self {
            MutationRefusal::Conflict => if rolling_back {
                (
                    "session mutation conflict",
                    "canonical snapshot changed before undo rollback",
                )
            } else {
                ("session mutation conflict", "canonical snapshot changed before undo commit")
            },
            MutationRefusal::TooManyTurns => (
                "session mutation",
                "turn count exceeds native metadata",
            ),
        }
    }
}

/// Whether the turn ended behind the last message that is left.
pub open spec fn is_archived(stat: TurnStat, message_count: int) -> bool {
    stat.position_valid && stat.after_message > message_count
}

/// The turns on one side of the cut, in order.
pub open spec fn turns_where(stats: Seq<TurnStat>, message_count: int, archived: bool) -> Seq<
    TurnStat,
>
    decreases stats.len(),
{
    if stats.len() == 0 {
        Seq::empty()
    } else {
        let rest = turns_where(stats.drop_last(), message_count, archived);
        if is_archived(stats.last(), message_count) == archived {
            rest.push(stats.last())
        } else {
            rest
        }
    }
}

/// Whether a turn with a number of its own survives with its place known.
pub open spec fn survives(stats: Seq<TurnStat>, turn_id: u64) -> bool {
    exists|i: int|
        0 <= i < stats.len() && (#[trigger] stats[i]).position_valid && stats[i].turn_id == turn_id
            && turn_id != 0
}

/// Whether the entry stays: it hangs on the start or on a surviving turn.
pub open spec fn stays(entry: PresentationEntry, kept: Seq<TurnStat>) -> bool {
    match entry.anchor {
        DisplayAnchor::AtStart => true,
        DisplayAnchor::AfterTurn { turn_id } => survives(kept, turn_id),
    }
}

/// The entries that stay, in order.
pub open spec fn kept_entries(entries: Seq<PresentationEntry>, kept: Seq<TurnStat>) -> Seq<
    PresentationEntry,
>
    decreases entries.len(),
{
    if entries.len() == 0 {
        Seq::empty()
    } else {
        let rest = kept_entries(entries.drop_first(), kept);
        if stays(entries[0], kept) {
            seq![entries[0]] + rest
        } else {
            rest
        }
    }
}

/// The entries that go, each with its place; the first entry stands at `base`.
pub open spec fn removed_entries(
    entries: Seq<PresentationEntry>,
    kept: Seq<TurnStat>,
    base: int,
) -> Seq<RemovedEntry>
    decreases entries.len(),
{
    if entries.len() == 0 {
        Seq::empty()
    } else {
        let rest = removed_entries(entries.drop_first(), kept, base + 1);
        if stays(entries[0], kept) {
            rest
        } else {
            seq![RemovedEntry { index: base as usize, entry: entries[0] }] + rest
        }
    }
}

/// The entries after the removed ones were put back, each at its place or at the end.
pub open spec fn put_back(entries: Seq<PresentationEntry>, removed: Seq<RemovedEntry>) -> Seq<
    PresentationEntry,
>
    decreases removed.len(),
{
    if removed.len() == 0 {
        entries
    } else {
        let place = if removed[0].index <= entries.len() {
            removed[0].index as int
        } else {
            entries.len() as int
        };
        put_back(entries.insert(place, removed[0].entry), removed.drop_first())
    }
}

proof fn putting_back_restores(
    head: Seq<PresentationEntry>,
    rest: Seq<PresentationEntry>,
    tail: Seq<PresentationEntry>,
    kept: Seq<TurnStat>,
)
    requires
        head.len() + rest.len() <= usize::MAX,
    ensures
        put_back(
            head + kept_entries(rest, kept) + tail,
            removed_entries(rest, kept, head.len() as int),
        ) == head + rest + tail,
    decreases rest.len(),
{
    let current = head + kept_entries(rest, kept) + tail;
    let removed = removed_entries(rest, kept, head.len() as int);
    if rest.len() == 0 {
        assert(current =~= head + rest + tail);
    } else {
        let next = head.push(rest[0]);
        let others = rest.drop_first();
        putting_back_restores(next, others, tail, kept);
        assert(next + others + tail =~= head + rest + tail);
        let after = next + kept_entries(others, kept) + tail;
        if stays(rest[0], kept) {
            assert(current =~= after);
        } else {
            assert(removed.drop_first() =~= removed_entries(others, kept, head.len() as int + 1));
            assert(removed[0].index == head.len());
            assert(current.insert(head.len() as int, rest[0]) =~= after);
        }
    }
}

/// Taking an undo back puts every entry where it was, in front of what was appended
/// meanwhile.
pub proof fn undo_of_entries_is_reversible(
    entries: Seq<PresentationEntry>,
    appended: Seq<PresentationEntry>,
    kept: Seq<TurnStat>,
)
    requires
        entries.len() <= usize::MAX,
    ensures
        put_back(kept_entries(entries, kept) + appended, removed_entries(entries, kept, 0))
            == entries + appended,
{
    let none = Seq::<PresentationEntry>::empty();
    putting_back_restores(none, entries, appended, kept);
    assert(none + kept_entries(entries, kept) + appended =~= kept_entries(entries, kept)
        + appended);
    assert(none + entries + appended =~= entries + appended);
}

/// Every turn is on exactly one side of the cut.
pub proof fn every_turn_is_kept_or_archived(stats: Seq<TurnStat>, message_count: int)
    ensures
        turns_where(stats, message_count, true).len() + turns_where(
            stats,
            message_count,
            false,
        ).len() == stats.len(),
    decreases stats.len(),
{
    if stats.len() > 0 {
        every_turn_is_kept_or_archived(stats.drop_last(), message_count);
    }
}

fn turns_on(stats: &Vec<TurnStat>, message_count: usize, archived: bool) -> (turns: Vec<TurnStat>)
    ensures
        turns@ == turns_where(stats@, message_count as int, archived),
{
    let mut turns: Vec<TurnStat> = Vec::new();
    let mut i: usize = 0;
    while i < stats.len()
        invariant
            0 <= i <= stats.len(),
            turns@ == turns_where(stats@.take(i as int), message_count as int, archived),
        decreases stats.len() - i,
    {
        proof {
            assert(stats@.take(i + 1).drop_last() =~= stats@.take(i as int));
            assert(stats@.take(i + 1).last() == stats@[i as int]);
        }
        let stat = stats[i].duplicate();
        if (stat.position_valid && stat.after_message > message_count) == archived {
            turns.push(stat);
        }
        i = i + 1;
    }
    assert(stats@.take(i as int) =~= stats@);
    turns
}

fn turn_survives(stats: &Vec<TurnStat>, turn_id: u64) -> (yes: bool)
    ensures
        yes == survives(stats@, turn_id),
{
    let mut i: usize = 0;
    while i < stats.len()
        invariant
            0 <= i <= stats.len(),
            forall|j: int|
                0 <= j < i ==> !((#[trigger] stats@[j]).position_valid && stats@[j].turn_id
                    == turn_id && turn_id != 0),
        decreases stats.len() - i,
    {
        if stats[i].position_valid && stats[i].turn_id == turn_id && turn_id != 0 {
            assert(stats@[i as int].position_valid);
            return true;
        }
        i = i + 1;
    }
    false
}

fn entry_stays(entry: &PresentationEntry, kept: &Vec<TurnStat>) -> (yes: bool)
    ensures
        yes == stays(*entry, kept@),
{
    match entry.anchor {
        DisplayAnchor::AtStart => true,
        DisplayAnchor::AfterTurn { turn_id } => turn_survives(kept, turn_id),
    }
}

fn split_entries(entries: &Vec<PresentationEntry>, kept: &Vec<TurnStat>) -> (split: (
    Vec<PresentationEntry>,
    Vec<RemovedEntry>,
))
    ensures
        split.0@ == kept_entries(entries@, kept@),
        split.1@ == removed_entries(entries@, kept@, 0),
{
    let mut staying: Vec<PresentationEntry> = Vec::new();
    let mut going: Vec<RemovedEntry> = Vec::new();
    let mut i: usize = 0;
    proof {
        assert(entries@.skip(0) =~= entries@);
        assert(staying@ + kept_entries(entries@, kept@) =~= kept_entries(entries@, kept@));
        assert(going@ + removed_entries(entries@, kept@, 0) =~= removed_entries(
            entries@,
            kept@,
            0,
        ));
    }
    while i < entries.len()
        invariant
            0 <= i <= entries.len(),
            staying@ + kept_entries(entries@.skip(i as int), kept@) == kept_entries(
                entries@,
                kept@,
            ),
            going@ + removed_entries(entries@.skip(i as int), kept@, i as int) == removed_entries(
                entries@,
                kept@,
                0,
            ),
        decreases entries.len() - i,
    {
        let ghost rest = entries@.skip(i as int);
        let ghost later_kept = kept_entries(entries@.skip(i + 1), kept@);
        let ghost later_removed = removed_entries(entries@.skip(i + 1), kept@, i + 1);
        proof {
            assert(rest[0] == entries@[i as int]);
            assert(rest.drop_first() =~= entries@.skip(i + 1));
        }
        let ghost staying_before = staying@;
        let ghost going_before = going@;
        let entry = entries[i].duplicate();
        if entry_stays(&entry, kept) {
            staying.push(entry);
            assert(staying@ + later_kept =~= staying_before + (seq![rest[0]] + later_kept));
        } else {
            going.push(RemovedEntry { index: i, entry });
            assert(going@ + later_removed =~= going_before + (seq![
                RemovedEntry { index: i, entry: rest[0] },
            ] + later_removed));
        }
        i = i + 1;
    }
    proof {
        let none = entries@.skip(i as int);
        assert(none.len() == 0);
        assert(staying@ + kept_entries(none, kept@) =~= staying@);
        assert(going@ + removed_entries(none, kept@, i as int) =~= going@);
    }
    (staying, going)
}

/// The number of messages that the records are to hold.
pub fn undo_message_count(snapshot: &SessionSnapshot) -> (count: Result<
    u32,
    NativePersistenceError,
>)
    ensures
        match count {
            Ok(n) => n == snapshot@.messages.len(),
            Err(error) => snapshot@.messages.len() > u32::MAX && !error.uncertain_commit
                && !error.snapshot_conflict && error.message@
                == "snapshot message count exceeds native metadata"@,
        },
{
    assert(snapshot@.messages.len() == snapshot.messages@.len());
    let length: usize = snapshot.messages.len();
    if length > u32::MAX as usize {
        return Err(
            NativePersistenceError::certain(
                "snapshot message count exceeds native metadata".to_owned(),
            ),
        );
    }
    Ok(length as u32)
}

/// Applies an undo to the records of the stored session: turns that ended behind the cut are
/// archived, entries that hang on them go. The snapshot that the undo was computed from, if
/// one is given, must be the stored one. Refused, nothing changes. `message_count` comes from
/// [`undo_message_count`].
pub fn persist_runtime_undo(
    expected: Option<&SessionSnapshot>,
    current: &SessionSnapshot,
    snapshot: &SessionSnapshot,
    message_count: u32,
    records: &mut SessionRecords,
    presentation: &mut Vec<PresentationEntry>,
    now: u64,
) -> (result: Result<NativeUndoSidecars, MutationRefusal>)
    requires
        message_count == snapshot@.messages.len(),
    ensures
        final(records).rest == old(records).rest,
        ({
            let cut = snapshot@.messages.len() as int;
            let before = old(records).turn_stats@;
            let kept = turns_where(before, cut, false);
            let conflict = expected matches Some(wanted) && wanted@ != current@;
            if conflict {
                &&& result == Err::<NativeUndoSidecars, MutationRefusal>(MutationRefusal::Conflict)
                &&& *final(records) == *old(records)
                &&& *final(presentation) == *old(presentation)
            } else if kept.len() > u32::MAX {
                &&& result == Err::<NativeUndoSidecars, MutationRefusal>(
                    MutationRefusal::TooManyTurns,
                )
                &&& *final(records) == *old(records)
                &&& *final(presentation) == *old(presentation)
            } else {
                &&& final(records).message_count == cut
                &&& final(records).turn_count == kept.len()
                &&& final(records).turn_stats@ == kept
                &&& final(records).updated_at == now
                &&& final(presentation)@ == kept_entries(old(presentation)@, kept)
                &&& result matches Ok(sidecars) && {
                    &&& sidecars.message_count == old(records).message_count
                    &&& sidecars.turn_count == old(records).turn_count
                    &&& sidecars.turn_stats@ == before
                    &&& sidecars.archived_turn_stats@ == turns_where(before, cut, true)
                    &&& sidecars.removed_presentation@ == removed_entries(
                        old(presentation)@,
                        kept,
                        0,
                    )
                }
            }
        }),
{
    if let Some(wanted) = expected {
        if !wanted.same(current) {
            return Err(MutationRefusal::Conflict);
        }
    }
    assert(snapshot@.messages.len() == snapshot.messages@.len());
    let cut: usize = snapshot.messages.len();
    let kept = turns_on(&records.turn_stats, cut, false);
    if kept.len() > u32::MAX as usize {
        return Err(MutationRefusal::TooManyTurns);
    }
    let archived_turn_stats = turns_on(&records.turn_stats, cut, true);
    let (staying, going) = split_entries(presentation, &kept);
    let turn_count: u32 = kept.len() as u32;
    let mut turn_stats: Vec<TurnStat> = kept;
    core::mem::swap(&mut turn_stats, &mut records.turn_stats);
    let sidecars = NativeUndoSidecars {
        message_count: records.message_count,
        turn_count: records.turn_count,
        turn_stats,
        archived_turn_stats,
        removed_presentation: going,
    };
    *presentation = staying;
    records.message_count = message_count;
    records.turn_count = turn_count;
    records.updated_at = now;
    Ok(sidecars)
}

fn restore_entries(presentation: &mut Vec<PresentationEntry>, removed: Vec<RemovedEntry>)
    ensures
        final(presentation)@ == put_back(old(presentation)@, removed@),
{
    let mut i: usize = 0;
    assert(removed@.skip(0) =~= removed@);
    while i < removed.len()
        invariant
            0 <= i <= removed.len(),
            put_back(presentation@, removed@.skip(i as int)) == put_back(
                old(presentation)@,
                removed@,
            ),
        decreases removed.len() - i,
    {
        let ghost rest = removed@.skip(i as int);
        assert(rest[0] == removed@[i as int]);
        assert(rest.drop_first() =~= removed@.skip(i + 1));
        let length: usize = presentation.len();
        let index: usize = if removed[i].index <= length {
            removed[i].index
        } else {
            length
        };
        let entry = removed[i].entry.duplicate();
        presentation.insert(index, entry);
        i = i + 1;
    }
    assert(removed@.skip(i as int).len() == 0);
}

/// Takes an undo back: the records count as before, and the entries that went are put back
/// where they were. What was appended meanwhile stays. The stored snapshot must still be the
/// one that the undo left. Refused, nothing changes.
pub fn restore_runtime_undo(
    expected_current: &SessionSnapshot,
    current: &SessionSnapshot,
    sidecars: NativeUndoSidecars,
    records: &mut SessionRecords,
    presentation: &mut Vec<PresentationEntry>,
    now: u64,
) -> (result: Result<(), MutationRefusal>)
    ensures
        final(records).rest == old(records).rest,
        if current@ != expected_current@ {
            &&& result == Err::<(), MutationRefusal>(MutationRefusal::Conflict)
            &&& *final(records) == *old(records)
            &&& *final(presentation) == *old(presentation)
        } else {
            &&& result == Ok::<(), MutationRefusal>(())
            &&& final(records).message_count == sidecars.message_count
            &&& final(records).turn_count == sidecars.turn_count
            &&& final(records).turn_stats@ == sidecars.turn_stats@
            &&& final(records).updated_at == now
            &&& final(presentation)@ == put_back(
                old(presentation)@,
                sidecars.removed_presentation@,
            )
        },
{
    if !current.same(expected_current) {
        return Err(MutationRefusal::Conflict);
    }
    records.message_count = sidecars.message_count;
    records.turn_count = sidecars.turn_count;
    records.turn_stats = sidecars.turn_stats;
    records.updated_at = now;
    restore_entries(presentation, sidecars.removed_presentation);
    Ok(())
}

/// The conversation that a restore replaces: the stored one, or else what the stopped agent
/// left, or else the resume point.
pub fn restore_base(
    stored: Option<Arc<SessionSnapshot>>,
    left: Option<Arc<SessionSnapshot>>,
    resume: Option<Arc<SessionSnapshot>>,
) -> (base: Option<Arc<SessionSnapshot>>)
    ensures
        base == match stored {
            Some(kept) => Some(kept),
            None => match left {
                Some(last) => Some(last),
                None => resume,
            },
        },
{
    match stored {
        Some(kept) => Some(kept),
        None => match left {
            Some(last) => Some(last),
            None => resume,
        },
    }
}

/// How an undo is taken back.
#[derive(Clone, Debug, PartialEq, Eq)]
pub enum RestorePlan {
    /// Only the snapshot is written again.
    Snapshot,
    /// The records go back too.
    Sidecars(NativeUndoSidecars),
    /// The session is no longer bound.
    Lost(NativePersistenceError),
}

/// How to take an undo back: with the sidecars that it left, if it left any; those need the
/// session that they belong to.
pub fn plan_restore(sidecars: Option<NativeUndoSidecars>, session_bound: bool) -> (plan:
    RestorePlan)
    ensures
        match sidecars {
            None => plan == RestorePlan::Snapshot,
            Some(left) => if session_bound {
                plan == RestorePlan::Sidecars(left)
            } else {
                plan matches RestorePlan::Lost(error) && !error.uncertain_commit
                    && !error.snapshot_conflict && error.message@
                    == "native undo rollback lost its session binding"@
            },
        },
{
    match sidecars {
        None => RestorePlan::Snapshot,
        Some(left) => if session_bound {
            RestorePlan::Sidecars(left)
        } else {
            RestorePlan::Lost(
                NativePersistenceError::certain(
                    "native undo rollback lost its session binding".to_owned(),
                ),
            )
        },
    }
}

} // verus!
