//! A rewind as drivers run it: from a choice in a catalog, through the undo of the
//! conversation and the workspace, to a commit or a compensation.
use crate::conversation::{prompt_count, SessionSnapshot, SnapshotView};
use crate::error::RuntimeError;
use crate::event::{
    RewindCatalog, RewindPoint, RewindResult, RuntimeSnapshotReceipt, UndoResult,
};
use crate::mode::RewindScope;
use crate::phase::RuntimeGeneration;
use crate::text::join3;
use crate::undo::{is_nth_prompt, undo_snapshot_to_prompt, SnapshotUndoResult};
use std::sync::Arc;
use vstd::prelude::*;

verus! {

/// The first point of the turn in the list.
pub open spec fn first_point(points: Seq<RewindPoint>, turn_id: u64) -> Option<RewindPoint>
    decreases points.len(),
{
    if points.len() == 0 {
        None
    } else if points[0].turn_id == turn_id {
        Some(points[0])
    } else {
        first_point(points.drop_first(), turn_id)
    }
}

proof fn first_point_skips(points: Seq<RewindPoint>, turn_id: u64, i: int)
    requires
        0 <= i <= points.len(),
        forall|j: int| 0 <= j < i ==> (#[trigger] points[j]).turn_id != turn_id,
    ensures
        first_point(points, turn_id) == first_point(points.skip(i), turn_id),
    decreases i,
{
    if i > 0 {
        let rest = points.drop_first();
        assert(points[0].turn_id != turn_id);
        assert forall|j: int| 0 <= j < i - 1 implies (#[trigger] rest[j]).turn_id != turn_id by {
            assert(rest[j] == points[j + 1]);
        }
        first_point_skips(rest, turn_id, i - 1);
        assert(rest.skip(i - 1) =~= points.skip(i));
    } else {
        assert(points.skip(0) =~= points);
    }
}

/// The choice that a driver made in a catalog: its place, checked. The point must be in the
/// catalog, and a choice that touches code needs code that can be rewound.
pub fn choose_point(catalog: &RewindCatalog, turn_id: u64, scope: RewindScope) -> (result: Result<
    usize,
    RuntimeError,
>)
    ensures
        match first_point(catalog.points@, turn_id) {
            None => result == Err::<usize, RuntimeError>(
                RuntimeError::RewindPointUnavailable { turn_id },
            ),
            Some(point) => match catalog.code_unavailable {
                Some(reason) if scope != RewindScope::Conversation => result == Err::<
                    usize,
                    RuntimeError,
                >(RuntimeError::CodeRewindUnavailable(reason)),
                _ => result matches Ok(at) && at < catalog.points@.len() && catalog.points@[at as int]
                    == point,
            },
        },
{
    let mut i: usize = 0;
    while i < catalog.points.len() && catalog.points[i].turn_id != turn_id
        invariant
            0 <= i <= catalog.points.len(),
            forall|j: int| 0 <= j < i ==> (#[trigger] catalog.points@[j]).turn_id != turn_id,
        decreases catalog.points.len() - i,
    {
        i = i + 1;
    }
    proof {
        first_point_skips(catalog.points@, turn_id, i as int);
        if i < catalog.points@.len() {
            assert(catalog.points@.skip(i as int)[0] == catalog.points@[i as int]);
        }
    }
    if i == catalog.points.len() {
        return Err(RuntimeError::RewindPointUnavailable { turn_id });
    }
    if scope.restores_code() {
        if let Some(reason) = &catalog.code_unavailable {
            return Err(RuntimeError::CodeRewindUnavailable(reason.clone()));
        }
    }
    Ok(i)
}

/// What a rewind does to the conversation: nothing where only code goes back. A conversation
/// that is no longer the one of the catalog is not touched.
pub fn plan_rewind(
    revision: u64,
    prompt_number: usize,
    scope: RewindScope,
    original: &RuntimeSnapshotReceipt,
) -> (result: Result<Option<SnapshotUndoResult>, RuntimeError>)
    ensures
        if original.revision != revision {
            result == Err::<Option<SnapshotUndoResult>, RuntimeError>(RuntimeError::Busy)
        } else if scope == RewindScope::Code {
            result == Ok::<Option<SnapshotUndoResult>, RuntimeError>(None)
        } else {
            let views = original.undo_snapshot@.messages;
            match result {
                Err(error) => {
                    &&& prompt_number < 1 || prompt_number > prompt_count(views)
                    &&& error matches RuntimeError::UndoOutOfRange { requested, available }
                        && requested == prompt_number && available == prompt_count(views)
                },
                Ok(undo) => undo matches Some(plan) && {
                    let at = plan.snapshot@.messages.len() as int;
                    &&& 1 <= prompt_number <= prompt_count(views)
                    &&& is_nth_prompt(views, at, prompt_number as int)
                    &&& plan.target_n == prompt_number
                    &&& plan.prompts_before == prompt_count(views)
                    &&& plan.snapshot@ == (SnapshotView {
                        messages: views.take(at),
                        ..original.undo_snapshot@
                    })
                    &&& plan.restored_prompt@ == views[at].text
                },
            }
        },
{
    if original.revision != revision {
        return Err(RuntimeError::Busy);
    }
    if scope.restores_conversation() {
        match undo_snapshot_to_prompt(&original.undo_snapshot, Some(prompt_number)) {
            Ok(plan) => Ok(Some(plan)),
            Err(error) => Err(error),
        }
    } else {
        Ok(None)
    }
}

/// A rewind of code alone is over: the conversation is as it was.
pub fn code_rewound(
    generation: RuntimeGeneration,
    point: RewindPoint,
    snapshot: Arc<SessionSnapshot>,
    restored_files: Vec<String>,
) -> (result: RewindResult)
    ensures
        result == (RewindResult {
            generation,
            scope: RewindScope::Code,
            point,
            snapshot,
            restored_prompt: None,
            restored_files,
        }),
{
    RewindResult {
        generation,
        scope: RewindScope::Code,
        point,
        snapshot,
        restored_prompt: None,
        restored_files,
    }
}

/// A rewind of the conversation is over: the result is that of the undo.
pub fn conversation_rewound(
    undo: UndoResult,
    scope: RewindScope,
    point: RewindPoint,
    restored_files: Vec<String>,
) -> (result: RewindResult)
    ensures
        result == (RewindResult {
            generation: undo.generation,
            scope,
            point,
            snapshot: undo.snapshot,
            restored_prompt: Some(undo.restored_prompt),
            restored_files,
        }),
{
    RewindResult {
        generation: undo.generation,
        scope,
        point,
        snapshot: undo.snapshot,
        restored_prompt: Some(undo.restored_prompt),
        restored_files,
    }
}

/// What comes after the rewind transaction has begun.
#[derive(Debug, PartialEq, Eq)]
pub enum RewindNext {
    /// The transaction is committed in the generation, and this is the result.
    Commit { generation: u64, result: RewindResult },
    /// The transaction is taken back in the generation, because of the error.
    Compensate { generation: u64, error: RuntimeError },
}

/// The undo of a conversation rewind went through or not. The commit belongs to the
/// generation that the undo made, the compensation to the one of the catalog.
pub fn after_undo(
    catalog_generation: RuntimeGeneration,
    undo: Result<UndoResult, RuntimeError>,
    scope: RewindScope,
    point: RewindPoint,
    restored_files: Vec<String>,
) -> (next: RewindNext)
    ensures
        next == match undo {
            Ok(done) => RewindNext::Commit {
                generation: done.generation.0,
                result: RewindResult {
                    generation: done.generation,
                    scope,
                    point,
                    snapshot: done.snapshot,
                    restored_prompt: Some(done.restored_prompt),
                    restored_files,
                },
            },
            Err(error) => RewindNext::Compensate { generation: catalog_generation.0, error },
        },
{
    match undo {
        Ok(done) => RewindNext::Commit {
            generation: done.generation.0,
            result: conversation_rewound(done, scope, point, restored_files),
        },
        Err(error) => RewindNext::Compensate { generation: catalog_generation.0, error },
    }
}

/// The error of a rewind that was taken back, with what went wrong on the way back.
pub fn compensated(error: RuntimeError, compensation: Option<RuntimeError>) -> (failure:
    RuntimeError)
    ensures
        match compensation {
            None => failure == error,
            Some(second) => failure matches RuntimeError::ReconfigureFailed(message) && message@
                == error.text() + "; rewind compensation failed: "@ + second.text(),
        },
{
    match compensation {
        None => error,
        Some(second) => RuntimeError::ReconfigureFailed(
            join3(
                error.message().as_str(),
                "; rewind compensation failed: ",
                second.message().as_str(),
            ),
        ),
    }
}

/// The point that is found is the first of the turn.
pub proof fn the_chosen_point_belongs_to_the_turn(points: Seq<RewindPoint>, turn_id: u64)
    ensures
        first_point(points, turn_id) matches Some(point) ==> point.turn_id == turn_id
            && points.contains(point),
        first_point(points, turn_id) is None ==> forall|i: int|
            0 <= i < points.len() ==> (#[trigger] points[i]).turn_id != turn_id,
    decreases points.len(),
{
    if points.len() > 0 {
        let rest = points.drop_first();
        the_chosen_point_belongs_to_the_turn(rest, turn_id);
        if points[0].turn_id == turn_id {
            assert(points.contains(points[0]));
        } else if first_point(rest, turn_id) is Some {
            let i = rest.index_of(first_point(rest, turn_id)->0);
            assert(points[i + 1] == rest[i]);
        } else {
            assert forall|i: int| 0 <= i < points.len() implies (#[trigger] points[i]).turn_id
                != turn_id by {
                if i > 0 {
                    assert(rest[i - 1] == points[i]);
                }
            }
        }
    }
}

} // verus!
