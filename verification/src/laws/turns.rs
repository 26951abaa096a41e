//! Turns: what reaches the agent, and what drivers are told.
use crate::error::RuntimeError;
use crate::event::{
    AgentCommand, CodingRuntimeEvent, ReplyValue, RequestId, SubmitReceipt, UserInput,
    VisionNotice,
};
use crate::owner::controls::PreparedTurn;
use crate::owner::{OwnerAction, RuntimeOwner};
use crate::phase::RuntimePhase;
use crate::text::joined;
use vstd::prelude::*;
use vstd::string::*;

verus! {

/// Whether the agent takes commands.
pub open spec fn reachable(owner: RuntimeOwner) -> bool {
    owner.agent_attached && owner.agent_open
}

/// What was to be done before is still to be done first, and `count` things more are.
pub open spec fn adds(before: RuntimeOwner, after: RuntimeOwner, count: int) -> bool {
    &&& after.outbox@.len() == before.outbox@.len() + count
    &&& forall|i: int|
        0 <= i < before.outbox@.len() ==> (#[trigger] after.outbox@[i])@ == before.outbox@[i]@
}

/// The added action at the place.
pub open spec fn added(before: RuntimeOwner, after: RuntimeOwner, place: int) -> OwnerAction {
    after.outbox@[before.outbox@.len() + place]
}

/// Whether the action sends the agent the message.
pub open spec fn sends_message(action: OwnerAction, input: UserInput) -> bool {
    action matches OwnerAction::Send(AgentCommand::SendMessage { text, images }) && text@
        == input.text@ && images@ == input.images@
}

/// Whether the action publishes the event, of the owner's generation.
pub open spec fn publishes(owner: RuntimeOwner, action: OwnerAction, event: CodingRuntimeEvent) -> bool {
    action matches OwnerAction::Emit { generation, event: told } && generation == owner.generation
        && told == event
}

/// Whether the action hands the agent the command.
pub open spec fn sends(action: OwnerAction, command: AgentCommand) -> bool {
    action matches OwnerAction::Send(sent) && sent == command
}

/// Whether a compaction is without its end.
pub open spec fn compacting(owner: RuntimeOwner) -> bool {
    owner.compactions.manual@.len() > 0 || owner.compactions.non_manual_started is Some
}

/// Whether the past of the conversation may be looked at: the generation is the current one,
/// and no turn, compaction or rebuilding is under way.
pub open spec fn at_rest(owner: RuntimeOwner, generation: u64) -> bool {
    generation == owner.generation && owner.active_turn is None && !owner.compaction_suspended
        && !compacting(owner)
}

/// Whether the runtime has given up: it has failed, the agent is let go, and one that still
/// takes commands is told to stop; nothing else is done.
pub open spec fn gives_up(before: RuntimeOwner, after: RuntimeOwner) -> bool {
    &&& after.phase == RuntimePhase::Failed
    &&& !after.agent_available
    &&& !after.agent_attached
    &&& reachable(before) ==> adds(before, after, 1) && sends(
        added(before, after, 0),
        AgentCommand::Shutdown,
    )
    &&& !reachable(before) ==> adds(before, after, 0)
}

/// Whether nothing changed that an outsider can see.
pub open spec fn unchanged(before: RuntimeOwner, after: RuntimeOwner) -> bool {
    after@ == before@
}

pub(crate) proof fn actions_are_kept(before: RuntimeOwner, after: RuntimeOwner)
    requires
        before@.outbox.len() <= after@.outbox.len(),
        forall|i: int|
            0 <= i < before@.outbox.len() ==> #[trigger] after@.outbox[i] == before@.outbox[i],
    ensures
        before@.outbox.len() == before.outbox@.len(),
        after@.outbox.len() == after.outbox@.len(),
        forall|i: int|
            0 <= i < after.outbox@.len() ==> #[trigger] after@.outbox[i] == after.outbox@[i]@,
        forall|i: int|
            0 <= i < before.outbox@.len() ==> (#[trigger] after.outbox@[i])@
                == before.outbox@[i]@,
{
    assert forall|i: int| 0 <= i < before.outbox@.len() implies (#[trigger] after.outbox@[i])@
        == before.outbox@[i]@ by {
        assert(after@.outbox[i] == before@.outbox[i]);
    }
}

/// A turn that is handed over to an agent that takes commands is sent as it was given, with
/// all of its images, after what the vision pass has to say; nothing else is done.
pub proof fn a_submitted_turn_is_sent_as_it_was_given(
    owner: &mut RuntimeOwner,
    receipt: SubmitReceipt,
    input: UserInput,
    notice: Option<VisionNotice>,
    result: Result<SubmitReceipt, RuntimeError>,
)
    requires
        call_ensures(RuntimeOwner::finish_submit, (owner, receipt, input, notice), result),
        reachable(*old(owner)),
    ensures
        result == Ok::<SubmitReceipt, RuntimeError>(receipt),
        final(owner).outbox@.len() > 0,
        sends_message(final(owner).outbox@.last(), input),
        notice is None ==> adds(*old(owner), *final(owner), 1),
        notice matches Some(VisionNotice::Recognised { vl_model, char_count }) ==> adds(
            *old(owner),
            *final(owner),
            2,
        ) && publishes(
            *old(owner),
            added(*old(owner), *final(owner), 0),
            CodingRuntimeEvent::VisionPreprocessSuccess { vl_model, char_count },
        ),
        notice matches Some(VisionNotice::Failed { reason }) ==> adds(
            *old(owner),
            *final(owner),
            2,
        ) && publishes(
            *old(owner),
            added(*old(owner), *final(owner), 0),
            CodingRuntimeEvent::VisionPreprocessFailed { reason },
        ),
        final(owner).active_turn == old(owner).active_turn,
        final(owner).phase == old(owner).phase,
{
    actions_are_kept(*old(owner), *final(owner));
    let n = old(owner).outbox@.len() as int;
    assert(final(owner)@.outbox.last() == final(owner).outbox@.last()@);
    if notice is Some {
        assert(final(owner)@.outbox[n] == final(owner).outbox@[n]@);
    }
}

/// A turn that the agent does not take is refused and the runtime has failed. A turn that was
/// to start is not in progress; one that was to be added to still is.
pub proof fn an_undelivered_turn_is_refused(
    owner: &mut RuntimeOwner,
    receipt: SubmitReceipt,
    input: UserInput,
    notice: Option<VisionNotice>,
    result: Result<SubmitReceipt, RuntimeError>,
)
    requires
        call_ensures(RuntimeOwner::finish_submit, (owner, receipt, input, notice), result),
        !reachable(*old(owner)),
    ensures
        result == Err::<SubmitReceipt, RuntimeError>(RuntimeError::DeliveryFailed),
        final(owner).phase == RuntimePhase::Failed,
        !final(owner).agent_available,
        receipt is Started ==> final(owner).active_turn is None,
        receipt is Steered ==> final(owner).active_turn == old(owner).active_turn,
        forall|i: int|
            old(owner).outbox@.len() <= i < final(owner).outbox@.len() ==> !((
            #[trigger] final(owner).outbox@[i]) is Send),
{
    actions_are_kept(*old(owner), *final(owner));
    assert forall|i: int|
        old(owner).outbox@.len() <= i < final(owner).outbox@.len() implies !((
    #[trigger] final(owner).outbox@[i]) is Send) by {
        assert(final(owner)@.outbox[i] == final(owner).outbox@[i]@);
    }
}

/// A turn is taken in exactly where a driver of the native protocol speaks of the current
/// generation and the agent can be used. It joins the turn in progress, or else starts one
/// with the next number. It keeps its images. Its text stands last, behind the local context
/// that waited, and no context waits any more. Nothing is done yet.
pub proof fn a_turn_is_taken_in(
    owner: &mut RuntimeOwner,
    generation: u64,
    input: UserInput,
    prepared: Result<PreparedTurn, RuntimeError>,
)
    requires
        call_ensures(RuntimeOwner::begin_submit, (owner, generation, input), prepared),
    ensures
        adds(*old(owner), *final(owner), 0),
        prepared is Ok <==> old(owner).native && generation == old(owner).generation
            && old(owner).agent_available,
        prepared is Err ==> unchanged(*old(owner), *final(owner)),
        prepared matches Err(error) ==> error == if old(owner).native && generation
            == old(owner).generation && old(owner).provider_unavailable_reason is Some {
            RuntimeError::ProviderUnavailable(old(owner).provider_unavailable_reason->0)
        } else {
            RuntimeError::Unavailable
        },
        prepared matches Ok(turn) ==> {
            &&& turn.input.images == input.images
            &&& final(owner).pending_local_context@.len() == 0
            &&& match turn.receipt {
                SubmitReceipt::Steered { generation: at, turn_id } => at == generation
                    && old(owner).active_turn == Some(turn_id) && final(owner).active_turn == Some(
                    turn_id,
                ) && final(owner).next_turn_id == old(owner).next_turn_id && final(owner).phase
                    == old(owner).phase && final(owner).held_turn == old(owner).held_turn,
                SubmitReceipt::Started { generation: at, turn_id } => at == generation
                    && old(owner).active_turn is None && final(owner).active_turn == Some(turn_id)
                    && turn_id == final(owner).next_turn_id && (old(owner).next_turn_id < u64::MAX
                    ==> turn_id == old(owner).next_turn_id + 1) && final(owner).phase
                    == RuntimePhase::InTurn && final(owner).held_turn is None,
            }
        },
        prepared matches Ok(turn) ==> {
            let waiting = old(owner).pending_local_context@;
            let text = turn.input.text@;
            &&& waiting.len() == 0 ==> text == input.text@
            &&& waiting.len() > 0 && input.text@.len() == 0 ==> text == joined(
                Seq::new(waiting.len(), |i: int| waiting[i]@),
                seq!['\n', '\n'],
            )
            &&& waiting.len() > 0 && input.text@.len() > 0 ==> text == joined(
                Seq::new(waiting.len(), |i: int| waiting[i]@),
                seq!['\n', '\n'],
            ) + seq!['\n', '\n'] + input.text@
        },
{
    reveal_strlit("\n\n");
    assert("\n\n"@ =~= seq!['\n', '\n']);
    actions_are_kept(*old(owner), *final(owner));
    let waiting = old(owner).pending_local_context@;
    assert(old(owner)@.pending_local_context =~= Seq::new(waiting.len(), |i: int| waiting[i]@));
    assert(final(owner)@.pending_local_context.len() == final(owner).pending_local_context@.len());
}

/// Joining puts the separator between two neighbours, and nowhere else.
pub proof fn joining_separates_neighbours(parts: Seq<Seq<char>>, part: Seq<char>, separator: Seq<char>)
    ensures
        joined(seq![part], separator) == part,
        parts.len() > 0 ==> joined(parts.push(part), separator) == joined(parts, separator)
            + separator + part,
        joined(Seq::empty(), separator).len() == 0,
{
    reveal_with_fuel(joined, 2);
    assert(parts.push(part).drop_last() =~= parts);
    assert(seq![part].drop_last() =~= Seq::empty());
    assert(joined(seq![part], separator) =~= part);
}

/// Local context waits for the next turn, behind what waits already; empty context is dropped.
pub proof fn local_context_waits_in_order(
    owner: &mut RuntimeOwner,
    generation: u64,
    input: crate::event::LocalContextInput,
    result: Result<(), RuntimeError>,
)
    requires
        call_ensures(RuntimeOwner::queue_local_context, (owner, generation, input), result),
    ensures
        result is Ok <==> generation == old(owner).generation && !old(owner).compaction_suspended,
        result matches Err(error) ==> error == RuntimeError::Busy && unchanged(
            *old(owner),
            *final(owner),
        ),
        result is Ok && input.content@.len() == 0 ==> unchanged(*old(owner), *final(owner)),
        result is Ok && input.content@.len() > 0 ==> {
            let waited = old(owner).pending_local_context@;
            let waits = final(owner).pending_local_context@;
            &&& waits.len() == waited.len() + 1
            &&& waits.last()@ == input.content@
            &&& forall|i: int| 0 <= i < waited.len() ==> (#[trigger] waits[i])@ == waited[i]@
        },
        adds(*old(owner), *final(owner), 0),
{
    actions_are_kept(*old(owner), *final(owner));
    let waited = old(owner).pending_local_context@;
    let waits = final(owner).pending_local_context@;
    assert(final(owner)@.pending_local_context.len() == waits.len());
    if result is Ok && input.content@.len() > 0 {
        assert(final(owner)@.pending_local_context.last() == waits.last()@);
        assert forall|i: int| 0 <= i < waited.len() implies (#[trigger] waits[i])@ == waited[i]@ by {
            assert(final(owner)@.pending_local_context[i] == old(owner)@.pending_local_context[i]);
        }
    }
}

/// A prompt that a crash cut off is sent again as it was, and nothing else is done; it is a
/// turn of its own unless one is in progress. Where the agent does not take it, it does not
/// count as delivered.
pub proof fn a_cut_off_prompt_is_sent_again(
    owner: &mut RuntimeOwner,
    prompt: UserInput,
    delivered: bool,
)
    requires
        call_ensures(RuntimeOwner::replay_pending_resume_prompt, (owner, prompt), delivered),
    ensures
        delivered == reachable(*old(owner)),
        delivered ==> adds(*old(owner), *final(owner), 1) && sends_message(
            added(*old(owner), *final(owner), 0),
            prompt,
        ) && final(owner).phase == RuntimePhase::InTurn && final(owner).active_turn is Some,
        delivered && old(owner).active_turn is Some ==> final(owner).active_turn
            == old(owner).active_turn,
        delivered && old(owner).active_turn is None ==> final(owner).active_turn == Some(
            final(owner).next_turn_id,
        ) && (old(owner).next_turn_id < u64::MAX ==> final(owner).next_turn_id
            == old(owner).next_turn_id + 1),
        !delivered ==> adds(*old(owner), *final(owner), 0) && final(owner).phase
            == RuntimePhase::Failed && final(owner).active_turn == old(owner).active_turn,
{
    actions_are_kept(*old(owner), *final(owner));
    if delivered {
        let n = old(owner).outbox@.len() as int;
        assert(final(owner)@.outbox[n] == final(owner).outbox@[n]@);
    }
}

/// A request is answered with the very value that was given, once: it waits no longer, the
/// others still do, and an answer to a request that does not wait is refused.
pub proof fn a_request_is_answered_once(
    owner: &mut RuntimeOwner,
    generation: u64,
    id: RequestId,
    value: ReplyValue,
    result: Result<(), RuntimeError>,
)
    requires
        call_ensures(RuntimeOwner::respond, (owner, generation, id, value), result),
        old(owner)@.wf(),
    ensures
        ({
            let served = old(owner).native && generation == old(owner).generation
                && old(owner).agent_available;
            let waits = old(owner).pending_requests@.contains(id);
            &&& result is Ok <==> served && waits && reachable(*old(owner))
            &&& !served ==> result == Err::<(), RuntimeError>(RuntimeError::Unavailable)
            &&& served && !waits ==> result == Err::<(), RuntimeError>(
                RuntimeError::StaleRequest { id },
            )
            &&& served && waits && !reachable(*old(owner)) ==> result == Err::<(), RuntimeError>(
                RuntimeError::DeliveryFailed,
            ) && final(owner).phase == RuntimePhase::Failed
            &&& !served || !waits ==> unchanged(*old(owner), *final(owner))
            &&& served ==> !final(owner).pending_requests@.contains(id)
        }),
        result is Ok ==> adds(*old(owner), *final(owner), 1) && sends(
            added(*old(owner), *final(owner), 0),
            AgentCommand::Respond { id, value },
        ),
        forall|other: RequestId|
            other != id ==> #[trigger] final(owner).pending_requests@.contains(other)
                == old(owner).pending_requests@.contains(other),
        result is Ok && final(owner).pending_requests@.len() == 0 ==> final(owner).phase
            == RuntimePhase::InTurn,
        result is Ok && final(owner).pending_requests@.len() > 0 && old(owner).phase
            != RuntimePhase::Ready ==> final(owner).phase == old(owner).phase,
{
    let waiting = old(owner).pending_requests@;
    if old(owner)@.serves(generation) && waiting.contains(id) {
        let at = waiting.index_of(id);
        assert(0 <= at < waiting.len() && waiting[at] == id);
        let rest = waiting.remove(at);
        assert(final(owner).pending_requests@ == rest);
        assert forall|other: RequestId| other != id implies #[trigger] rest.contains(other)
            == waiting.contains(other) by {
            if waiting.contains(other) {
                let i = waiting.index_of(other);
                assert(waiting[i] == other);
                let j = if i < at {
                    i
                } else {
                    i - 1
                };
                assert(rest[j] == other);
            }
            if rest.contains(other) {
                let i = rest.index_of(other);
                let j = if i < at {
                    i
                } else {
                    i + 1
                };
                assert(waiting[j] == other);
            }
        }
    }
    actions_are_kept(*old(owner), *final(owner));
    if result is Ok {
        let n = old(owner).outbox@.len() as int;
        assert(final(owner)@.outbox[n] == final(owner).outbox@[n]@);
    }
}

} // verus!
