//! Lifecycle phase of a runtime, and the packed word in which handles read it.
use vstd::prelude::*;

verus! {

/// Public runtime lifecycle phase. The owner is the sole writer; handles only observe it.
#[derive(Clone, Copy, Debug, PartialEq, Eq, Structural)]
pub enum RuntimePhase {
    Ready,
    InTurn,
    WaitingApproval,
    Reconfiguring,
    AwaitingProvider,
    ShuttingDown,
    Stopped,
    Failed,
}

/// Generation-bound lifecycle snapshot.
#[derive(Clone, Copy, Debug, PartialEq, Eq, Structural)]
pub struct RuntimeStatus {
    pub generation: u64,
    pub phase: RuntimePhase,
}

/// A generation of the runtime: it advances each time a replacement agent is committed.
#[derive(Clone, Copy, Debug, PartialEq, Eq, Structural)]
pub struct RuntimeGeneration(pub u64);

/// Why the runtime owner terminated.
#[derive(Clone, Copy, Debug, PartialEq, Eq, Structural)]
pub enum RuntimeExitReason {
    ShutdownRequested,
    OwnerStopped,
}

/// Stable terminal shared by all shutdown waiters.
#[derive(Clone, Copy, Debug, PartialEq, Eq, Structural)]
pub struct RuntimeExit {
    pub reason: RuntimeExitReason,
    /// The kernel task exceeded the bounded shutdown window and was aborted.
    pub forced: bool,
}

/// Why a runtime has no usable provider.
#[derive(Clone, Copy, Debug, PartialEq, Eq, Structural)]
pub enum ProviderUnavailableReason {
    NotConfigured,
    AuthenticationRequired,
    UnsupportedBuild,
}

pub open spec fn reason_code(reason: Option<ProviderUnavailableReason>) -> u8 {
    match reason {
        None => 0,
        Some(ProviderUnavailableReason::NotConfigured) => 1,
        Some(ProviderUnavailableReason::AuthenticationRequired) => 2,
        Some(ProviderUnavailableReason::UnsupportedBuild) => 3,
    }
}

pub fn encode_provider_unavailable_reason(reason: Option<ProviderUnavailableReason>) -> (code: u8)
    ensures
        code == reason_code(reason),
{
    match reason {
        None => 0,
        Some(ProviderUnavailableReason::NotConfigured) => 1,
        Some(ProviderUnavailableReason::AuthenticationRequired) => 2,
        Some(ProviderUnavailableReason::UnsupportedBuild) => 3,
    }
}

/// Reads back what [`encode_provider_unavailable_reason`] wrote; any other code is no reason.
pub fn decode_provider_unavailable_reason(value: u8) -> (reason: Option<ProviderUnavailableReason>)
    ensures
        value <= 3 ==> reason_code(reason) == value,
        value > 3 ==> reason is None,
{
    match value {
        1 => Some(ProviderUnavailableReason::NotConfigured),
        2 => Some(ProviderUnavailableReason::AuthenticationRequired),
        3 => Some(ProviderUnavailableReason::UnsupportedBuild),
        _ => None,
    }
}

/// A provider reason is read back as it was written.
pub proof fn provider_reason_round_trip(
    reason: Option<ProviderUnavailableReason>,
    decoded: Option<ProviderUnavailableReason>,
)
    requires
        reason_code(decoded) == reason_code(reason),
    ensures
        decoded == reason,
        reason_code(reason) <= 3,
{
}

/// Low bits of the packed word that hold the phase.
pub const RUNTIME_PHASE_BITS: u64 = 3;

pub open spec fn phase_number(phase: RuntimePhase) -> u64 {
    match phase {
        RuntimePhase::Ready => 0,
        RuntimePhase::InTurn => 1,
        RuntimePhase::WaitingApproval => 2,
        RuntimePhase::Reconfiguring => 3,
        RuntimePhase::ShuttingDown => 4,
        RuntimePhase::Stopped => 5,
        RuntimePhase::Failed => 6,
        RuntimePhase::AwaitingProvider => 7,
    }
}

/// The packed word: the generation, cut to its low 61 bits, above the phase.
pub open spec fn packed(generation: u64, phase: RuntimePhase) -> int {
    (generation as int % 0x2000_0000_0000_0000) * 8 + phase_number(phase)
}

/// Whether the runtime takes turns in this phase.
pub open spec fn phase_available(phase: RuntimePhase) -> bool {
    phase == RuntimePhase::Ready || phase == RuntimePhase::InTurn || phase
        == RuntimePhase::WaitingApproval
}

pub fn phase_code(phase: RuntimePhase) -> (code: u64)
    ensures
        code == phase_number(phase),
        code < 8,
{
    match phase {
        RuntimePhase::Ready => 0,
        RuntimePhase::InTurn => 1,
        RuntimePhase::WaitingApproval => 2,
        RuntimePhase::Reconfiguring => 3,
        RuntimePhase::ShuttingDown => 4,
        RuntimePhase::Stopped => 5,
        RuntimePhase::Failed => 6,
        RuntimePhase::AwaitingProvider => 7,
    }
}

/// Packs a generation and a phase into one word.
pub fn runtime_phase_state(generation: u64, phase: RuntimePhase) -> (state: u64)
    ensures
        state == packed(generation, phase),
{
    let code: u64 = phase_code(phase);
    let state: u64 = (generation << RUNTIME_PHASE_BITS) | code;
    assert(((generation << 3) | code) == ((generation % 0x2000_0000_0000_0000) * 8 + code) as u64)
        by (bit_vector)
        requires
            code < 8,
    ;
    state
}

/// The word of a runtime that is either ready or failed.
pub fn runtime_state(generation: u64, available: bool) -> (state: u64)
    ensures
        state == packed(
            generation,
            if available {
                RuntimePhase::Ready
            } else {
                RuntimePhase::Failed
            },
        ),
{
    runtime_phase_state(
        generation,
        if available {
            RuntimePhase::Ready
        } else {
            RuntimePhase::Failed
        },
    )
}

pub fn runtime_state_generation(state: u64) -> (generation: u64)
    ensures
        generation == state as int / 8,
{
    assert(state >> 3 == state / 8) by (bit_vector);
    state >> RUNTIME_PHASE_BITS
}

/// Unpacks a word. Every word is the packing of exactly one status whose
/// generation fits in 61 bits.
pub fn runtime_status(state: u64) -> (status: RuntimeStatus)
    ensures
        status.generation == state as int / 8,
        phase_number(status.phase) == state as int % 8,
{
    assert(1u64 << 3 == 8) by (bit_vector);
    let code: u64 = state & ((1 << RUNTIME_PHASE_BITS) - 1);
    assert(state & ((1u64 << 3) - 1) as u64 == state % 8) by (bit_vector);
    let phase = match code {
        0 => RuntimePhase::Ready,
        1 => RuntimePhase::InTurn,
        2 => RuntimePhase::WaitingApproval,
        3 => RuntimePhase::Reconfiguring,
        4 => RuntimePhase::ShuttingDown,
        5 => RuntimePhase::Stopped,
        6 => RuntimePhase::Failed,
        _ => RuntimePhase::AwaitingProvider,
    };
    RuntimeStatus { generation: runtime_state_generation(state), phase }
}

pub fn runtime_state_available(state: u64) -> (available: bool)
    ensures
        available == (state as int % 8 <= 2),
{
    matches!(
        runtime_status(state).phase,
        RuntimePhase::Ready | RuntimePhase::InTurn | RuntimePhase::WaitingApproval
    )
}

/// A status whose generation fits in 61 bits is read back from its word unchanged.
pub proof fn packed_status_round_trip(generation: u64, phase: RuntimePhase, read: RuntimeStatus)
    requires
        generation < 0x2000_0000_0000_0000,
        read.generation == packed(generation, phase) / 8,
        phase_number(read.phase) == packed(generation, phase) % 8,
    ensures
        read.generation == generation,
        read.phase == phase,
        packed(generation, phase) % 8 <= 2 <==> phase_available(phase),
{
}

} // verus!
