//! Starting a runtime: with which provider, in which phase, and how its events are numbered.
use crate::error::{ProviderBuildError, RuntimeStartError, RuntimeUnavailable};
use crate::event::{
    AgentEvent, CodingRuntimeEvent, GenerationTaggedRuntimeEvent, ProviderBootstrap,
    RuntimeSessionInfo, SequencedRuntimeEvent,
};
use crate::owner::bump;
use crate::phase::{ProviderUnavailableReason, RuntimeExit, RuntimeExitReason, RuntimePhase};
use vstd::prelude::*;

verus! {

/// Why no provider is built at the start, if none is to be.
pub fn unavailable_at_start(bootstrap: ProviderBootstrap) -> (reason: Option<
    ProviderUnavailableReason,
>)
    ensures
        reason == match bootstrap {
            ProviderBootstrap::Unavailable(why) => Some(why),
            _ => None,
        },
{
    match bootstrap {
        ProviderBootstrap::Unavailable(why) => Some(why),
        _ => None,
    }
}

/// The provider could not be built. A start that may recover goes on without one where the
/// user can do something about it; every other start fails. `printed` is the error as it
/// prints.
pub fn provider_gap(bootstrap: ProviderBootstrap, error: ProviderBuildError, printed: String) -> (result:
    Result<ProviderUnavailableReason, RuntimeStartError>)
    ensures
        result == if bootstrap == ProviderBootstrap::RecoverAuthentication && error
            is Authentication {
            Ok::<ProviderUnavailableReason, RuntimeStartError>(
                ProviderUnavailableReason::AuthenticationRequired,
            )
        } else if bootstrap == ProviderBootstrap::RecoverAuthentication && error
            is SourceBuildGatewayUnsupported {
            Ok(ProviderUnavailableReason::UnsupportedBuild)
        } else {
            Err(RuntimeStartError::Provider { error, printed })
        },
{
    if bootstrap == ProviderBootstrap::RecoverAuthentication {
        match error {
            ProviderBuildError::Authentication(_) => {
                return Ok(ProviderUnavailableReason::AuthenticationRequired);
            },
            ProviderBuildError::SourceBuildGatewayUnsupported { .. } => {
                return Ok(ProviderUnavailableReason::UnsupportedBuild);
            },
            _ => {},
        }
    }
    Err(RuntimeStartError::Provider { error, printed })
}

/// Phase that a runtime starts in.
pub fn initial_phase(unavailable: Option<ProviderUnavailableReason>) -> (phase: RuntimePhase)
    ensures
        phase == if unavailable is Some {
            RuntimePhase::AwaitingProvider
        } else {
            RuntimePhase::Ready
        },
{
    if unavailable.is_some() {
        RuntimePhase::AwaitingProvider
    } else {
        RuntimePhase::Ready
    }
}

/// What drivers are told of the session that the runtime started with.
pub fn session_info(id: Option<String>, resumed: bool) -> (session: Option<RuntimeSessionInfo>)
    ensures
        session == match id {
            Some(id) => Some(RuntimeSessionInfo { id, resumed }),
            None => None,
        },
{
    match id {
        Some(id) => Some(RuntimeSessionInfo { id, resumed }),
        None => None,
    }
}

/// Numbers the events of a runtime, one after the other.
#[derive(Debug, PartialEq, Eq)]
pub struct EventSequencer {
    pub next: u64,
}

impl EventSequencer {
    pub fn new() -> (sequencer: Self)
        ensures
            sequencer.next == 0,
    {
        EventSequencer { next: 0 }
    }

    /// Numbers an event that carries the generation it was emitted in. A stop is not among
    /// them: it is announced by [`EventSequencer::stamp_exit`] alone.
    pub fn stamp(&mut self, tagged: GenerationTaggedRuntimeEvent) -> (event: Option<
        SequencedRuntimeEvent,
    >)
        ensures
            event == if tagged.event is RuntimeStopped {
                None
            } else {
                Some(
                    SequencedRuntimeEvent {
                        generation: tagged.generation,
                        sequence: old(self).next,
                        event: tagged.event,
                    },
                )
            },
            final(self).next == if tagged.event is RuntimeStopped {
                old(self).next
            } else {
                bump(old(self).next)
            },
    {
        if matches!(tagged.event, CodingRuntimeEvent::RuntimeStopped(_)) {
            return None;
        }
        let sequence: u64 = self.next;
        self.next = self.next.wrapping_add(1);
        Some(
            SequencedRuntimeEvent {
                generation: tagged.generation,
                sequence,
                event: tagged.event,
            },
        )
    }

    /// Numbers an event that comes from the agent, in the generation of now.
    pub fn stamp_agent(&mut self, generation: u64, event: AgentEvent) -> (envelope:
        SequencedRuntimeEvent)
        ensures
            envelope == (SequencedRuntimeEvent {
                generation,
                sequence: old(self).next,
                event: CodingRuntimeEvent::Agent(event),
            }),
            final(self).next == bump(old(self).next),
    {
        let sequence: u64 = self.next;
        self.next = self.next.wrapping_add(1);
        SequencedRuntimeEvent { generation, sequence, event: CodingRuntimeEvent::Agent(event) }
    }

    /// The last event: the runtime has stopped. Nothing can be numbered after it.
    pub fn stamp_exit(self, generation: u64, exit: RuntimeExit) -> (envelope:
        SequencedRuntimeEvent)
        ensures
            envelope == stop_event(generation, self.next, exit),
    {
        SequencedRuntimeEvent {
            generation,
            sequence: self.next,
            event: CodingRuntimeEvent::RuntimeStopped(exit),
        }
    }
}

/// The event that ends the stream.
pub open spec fn stop_event(generation: u64, sequence: u64, exit: RuntimeExit) -> SequencedRuntimeEvent {
    SequencedRuntimeEvent {
        generation,
        sequence,
        event: CodingRuntimeEvent::RuntimeStopped(exit),
    }
}

/// The events as they are numbered, one after the other.
pub open spec fn stamped(events: Seq<GenerationTaggedRuntimeEvent>) -> Seq<SequencedRuntimeEvent>
    decreases events.len(),
{
    if events.len() == 0 {
        Seq::empty()
    } else {
        let earlier = stamped(events.drop_last());
        if events.last().event is RuntimeStopped {
            earlier
        } else {
            earlier.push(
                SequencedRuntimeEvent {
                    generation: events.last().generation,
                    sequence: number_after(0, earlier.len()),
                    event: events.last().event,
                },
            )
        }
    }
}

/// The whole stream of a runtime: its events, and the stop at the end.
pub open spec fn whole_stream(
    events: Seq<GenerationTaggedRuntimeEvent>,
    generation: u64,
    exit: RuntimeExit,
) -> Seq<SequencedRuntimeEvent> {
    let told = stamped(events);
    told.push(stop_event(generation, number_after(0, told.len()), exit))
}

proof fn stamped_events_are_in_order(events: Seq<GenerationTaggedRuntimeEvent>)
    requires
        events.len() < u64::MAX,
    ensures
        stamped(events).len() <= events.len(),
        forall|k: int|
            0 <= k < stamped(events).len() ==> (#[trigger] stamped(events)[k]).sequence == k
                && !(stamped(events)[k].event is RuntimeStopped),
    decreases events.len(),
{
    if events.len() > 0 {
        let earlier = stamped(events.drop_last());
        stamped_events_are_in_order(events.drop_last());
        number_is_count(earlier.len());
    }
}

proof fn number_is_count(events: nat)
    requires
        events <= u64::MAX,
    ensures
        number_after(0, events) == events,
{
    if events > 0 {
        events_are_totally_ordered(0, 0, events);
    }
}

/// In the stream of a runtime the event at each place carries the number of that place, and
/// exactly one event is the stop, which comes last and carries the exit.
pub proof fn the_stop_comes_once_and_last(
    events: Seq<GenerationTaggedRuntimeEvent>,
    generation: u64,
    exit: RuntimeExit,
)
    requires
        events.len() < u64::MAX,
    ensures
        ({
            let stream = whole_stream(events, generation, exit);
            &&& forall|k: int| 0 <= k < stream.len() ==> (#[trigger] stream[k]).sequence == k
            &&& forall|k: int|
                0 <= k < stream.len() ==> ((#[trigger] stream[k]).event is RuntimeStopped <==> k
                    == stream.len() - 1)
            &&& stream.last().event == CodingRuntimeEvent::RuntimeStopped(exit)
        }),
{
    let told = stamped(events);
    let stream = whole_stream(events, generation, exit);
    stamped_events_are_in_order(events);
    number_is_count(told.len());
    assert forall|k: int| 0 <= k < told.len() implies #[trigger] stream[k] == told[k] by {}
}

/// What a caller of a shutdown is told, if there is anything to tell yet: the exit once it is
/// known, or that nobody is left to stop.
pub fn shutdown_answer(terminal: Option<RuntimeExit>, owner_gone: bool) -> (answer: Option<
    Result<RuntimeExit, RuntimeUnavailable>,
>)
    ensures
        answer == shutdown_told(terminal, owner_gone),
{
    match terminal {
        Some(exit) => Some(Ok(exit)),
        None => if owner_gone {
            Some(Err(RuntimeUnavailable))
        } else {
            None
        },
    }
}

pub open spec fn shutdown_told(terminal: Option<RuntimeExit>, owner_gone: bool) -> Option<
    Result<RuntimeExit, RuntimeUnavailable>,
> {
    match terminal {
        Some(exit) => Some(Ok(exit)),
        None => if owner_gone {
            Some(Err(RuntimeUnavailable))
        } else {
            None
        },
    }
}

/// All callers of a shutdown are told the same exit, whenever they ask and whether or not the
/// owner is still there: none is told anything else before, and every one is told it once it
/// is known.
pub proof fn shutdown_callers_share_one_exit(exit: RuntimeExit, gone: bool, gone_later: bool)
    ensures
        shutdown_told(Some(exit), gone) == Some(Ok::<RuntimeExit, RuntimeUnavailable>(exit)),
        shutdown_told(Some(exit), gone) == shutdown_told(Some(exit), gone_later),
        shutdown_told(None, false) is None,
{
}

/// The number after so many events.
pub open spec fn number_after(next: u64, events: nat) -> u64
    decreases events,
{
    if events == 0 {
        next
    } else {
        bump(number_after(next, (events - 1) as nat))
    }
}

/// The events of a runtime are totally ordered: a later one has a greater number, and the
/// numbers have no gaps, up to the last number.
pub proof fn events_are_totally_ordered(next: u64, earlier: nat, later: nat)
    requires
        next + later <= u64::MAX,
        earlier < later,
    ensures
        number_after(next, later) == next + later,
        number_after(next, earlier) < number_after(next, later),
    decreases later,
{
    if earlier + 1 < later {
        events_are_totally_ordered(next, earlier, (later - 1) as nat);
    } else if earlier > 0 {
        events_are_totally_ordered(next, (earlier - 1) as nat, earlier);
    }
    reveal_with_fuel(number_after, 2);
}

/// How the runtime ended; without a word from the owner it was forced to.
pub fn exit_or_forced(exit: Option<RuntimeExit>) -> (ended: RuntimeExit)
    ensures
        ended == match exit {
            Some(known) => known,
            None => RuntimeExit { reason: RuntimeExitReason::OwnerStopped, forced: true },
        },
{
    match exit {
        Some(known) => known,
        None => RuntimeExit { reason: RuntimeExitReason::OwnerStopped, forced: true },
    }
}

} // verus!
