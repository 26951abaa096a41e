//! Requests of drivers and the control that each becomes for the runtime owner.
use crate::config::{CodingAgentConfig, PluginSkillDir, PrepareOptions};
use crate::conversation::SessionSnapshot;
use crate::error::RuntimeUnavailable;
use crate::event::{
    LocalContextInput, ReconfigureKind, ReplyValue, RequestId, RewindPoint, UserInput,
};
use crate::mode::{RewindScope, RuntimeMode};
use crate::owner::controls::RewindFinalization;
use crate::phase::{
    packed, phase_available, phase_number, runtime_status, ProviderUnavailableReason, RuntimePhase,
};
use std::sync::Arc;
use vstd::prelude::*;

verus! {

/// Ordered, fire-and-forget driver requests.
#[derive(Clone, Debug, PartialEq, Eq)]
pub enum DriverCommand {
    Submit(UserInput),
    Respond { id: RequestId, value: ReplyValue },
    Cancel,
    Compact(Option<String>),
    SetMode(RuntimeMode),
    QueueLocalContext(LocalContextInput),
    ReloadProvider(CodingAgentConfig),
    DeactivateProvider(ProviderUnavailableReason),
    UndoToPrompt(Option<usize>),
    Rewind { turn_id: u64, scope: RewindScope },
    RefreshContextStats,
    RestoreSnapshot(SessionSnapshot),
    RestoreSnapshotCorrelated { snapshot: SessionSnapshot, correlation_id: u64 },
    StartGoal(String),
    StopGoal,
    StartLoop(String),
    StopLoop,
    Shutdown,
}

/// A complete input for preparing the runtime anew.
#[derive(Clone, Debug, PartialEq, Eq)]
pub struct ReprepareInput {
    pub config: CodingAgentConfig,
    pub prepare: PrepareOptions,
    pub operation: ReconfigureKind,
}

/// What the runtime is to be prepared for.
#[derive(Clone, Debug, PartialEq, Eq)]
pub enum ReprepareTarget {
    Exact(ReprepareInput),
    Reload { plugin_skill_dirs: Option<Arc<Vec<PluginSkillDir>>> },
    Fresh,
    Resume(String),
    /// `lease_id` is the session that the prepared lease is for.
    ResumeWithLease { id: String, working_dir: String, lease_id: String },
    ChangeDirectory(String),
}

/// A control of the runtime owner. Those that carry a generation are meant for it.
#[derive(Clone, Debug, PartialEq, Eq)]
pub enum CodingRuntimeControl {
    Compact { generation: u64, focus: Option<String> },
    Shutdown { generation: u64 },
    Submit { generation: u64, input: UserInput },
    Respond { generation: u64, id: RequestId, value: ReplyValue },
    Snapshot { generation: u64 },
    Cancel { generation: u64 },
    SetMode { generation: u64, mode: RuntimeMode },
    ContextStats { generation: u64 },
    WaitMcpReady { generation: u64, timeout_millis: u64 },
    McpStatus { generation: u64 },
    McpTools { generation: u64, server: String },
    WithdrawMcpTools { generation: u64 },
    QueueLocalContext { generation: u64, input: LocalContextInput },
    ReassembleProvider { generation: u64, next: CodingAgentConfig },
    DeactivateProvider { generation: u64, reason: ProviderUnavailableReason },
    Reprepare { generation: u64, target: ReprepareTarget },
    ApplyUndo {
        generation: u64,
        expected_revision: u64,
        original: Arc<SessionSnapshot>,
        truncated: SessionSnapshot,
        restored_prompt: String,
        target_n: usize,
        prompts_before: usize,
    },
    RewindCatalog { generation: u64 },
    BeginRewind {
        generation: u64,
        expected_revision: u64,
        point: RewindPoint,
        restore_code: bool,
        target_snapshot: Option<SessionSnapshot>,
    },
    FinishRewind { generation: u64, outcome: RewindFinalization },
    RestoreSnapshot { generation: u64, snapshot: SessionSnapshot },
    StartGoal { generation: u64, condition: String },
    StopGoal { generation: u64 },
    StartLoop { generation: u64, prompt: String },
    StopLoop { generation: u64 },
}

/// What becomes of an accepted driver command.
#[derive(Clone, Debug, PartialEq, Eq)]
pub enum Dispatch {
    /// It goes to the owner as this control.
    Control(CodingRuntimeControl),
    /// It is carried out beside the owner, in several controls.
    Undo(Option<usize>),
    Rewind { turn_id: u64, scope: RewindScope },
    ContextStats,
}

/// Whether a driver command is accepted in the phase.
pub open spec fn phase_accepts(phase: RuntimePhase, command: DriverCommand) -> bool {
    match phase {
        RuntimePhase::Ready | RuntimePhase::InTurn | RuntimePhase::WaitingApproval => true,
        RuntimePhase::AwaitingProvider | RuntimePhase::Failed => command is ReloadProvider
            || command is DeactivateProvider || command is Shutdown,
        RuntimePhase::Reconfiguring | RuntimePhase::ShuttingDown => command is Shutdown,
        RuntimePhase::Stopped => false,
    }
}

pub fn runtime_phase_accepts_command(phase: RuntimePhase, command: &DriverCommand) -> (accepted:
    bool)
    ensures
        accepted == phase_accepts(phase, *command),
{
    match phase {
        RuntimePhase::Ready | RuntimePhase::InTurn | RuntimePhase::WaitingApproval => true,
        RuntimePhase::AwaitingProvider | RuntimePhase::Failed => matches!(
            command,
            DriverCommand::ReloadProvider(_)
                | DriverCommand::DeactivateProvider(_)
                | DriverCommand::Shutdown
        ),
        RuntimePhase::Reconfiguring | RuntimePhase::ShuttingDown => matches!(
            command,
            DriverCommand::Shutdown
        ),
        RuntimePhase::Stopped => false,
    }
}

/// A runtime that takes turns accepts every command; a stopped one accepts none; a shutdown
/// is accepted by every other.
pub proof fn acceptance_by_phase(phase: RuntimePhase, command: DriverCommand)
    ensures
        phase_available(phase) ==> phase_accepts(phase, command),
        phase == RuntimePhase::Stopped ==> !phase_accepts(phase, command),
        phase != RuntimePhase::Stopped ==> phase_accepts(phase, DriverCommand::Shutdown),
        phase_accepts(phase, command) && command is Submit ==> phase_available(phase),
{
}

/// Generation that the packed state word carries.
pub open spec fn word_generation(state: u64) -> u64 {
    (state / 8) as u64
}

/// What becomes of the command, for the generation that the handle sees.
pub open spec fn dispatched(generation: u64, command: DriverCommand) -> Dispatch {
    match command {
        DriverCommand::UndoToPrompt(nth) => Dispatch::Undo(nth),
        DriverCommand::Rewind { turn_id, scope } => Dispatch::Rewind { turn_id, scope },
        DriverCommand::RefreshContextStats => Dispatch::ContextStats,
        DriverCommand::Submit(input) => Dispatch::Control(
            CodingRuntimeControl::Submit { generation, input },
        ),
        DriverCommand::Respond { id, value } => Dispatch::Control(
            CodingRuntimeControl::Respond { generation, id, value },
        ),
        DriverCommand::Cancel => Dispatch::Control(CodingRuntimeControl::Cancel { generation }),
        DriverCommand::Compact(focus) => Dispatch::Control(
            CodingRuntimeControl::Compact { generation, focus },
        ),
        DriverCommand::SetMode(mode) => Dispatch::Control(
            CodingRuntimeControl::SetMode { generation, mode },
        ),
        DriverCommand::QueueLocalContext(input) => Dispatch::Control(
            CodingRuntimeControl::QueueLocalContext { generation, input },
        ),
        DriverCommand::ReloadProvider(next) => Dispatch::Control(
            CodingRuntimeControl::ReassembleProvider { generation, next },
        ),
        DriverCommand::DeactivateProvider(reason) => Dispatch::Control(
            CodingRuntimeControl::DeactivateProvider { generation, reason },
        ),
        DriverCommand::RestoreSnapshot(snapshot) => Dispatch::Control(
            CodingRuntimeControl::RestoreSnapshot { generation, snapshot },
        ),
        DriverCommand::RestoreSnapshotCorrelated { snapshot, correlation_id } => Dispatch::Control(
            CodingRuntimeControl::RestoreSnapshot { generation, snapshot },
        ),
        DriverCommand::StartGoal(condition) => Dispatch::Control(
            CodingRuntimeControl::StartGoal { generation, condition },
        ),
        DriverCommand::StopGoal => Dispatch::Control(CodingRuntimeControl::StopGoal { generation }),
        DriverCommand::StartLoop(prompt) => Dispatch::Control(
            CodingRuntimeControl::StartLoop { generation, prompt },
        ),
        DriverCommand::StopLoop => Dispatch::Control(CodingRuntimeControl::StopLoop { generation }),
        DriverCommand::Shutdown => Dispatch::Control(CodingRuntimeControl::Shutdown { generation }),
    }
}

/// Turns a driver command into what is to be done with it. `state` is the packed word that
/// the handle sees, `stopped` whether the owner has ended.
pub fn dispatch(state: u64, stopped: bool, command: DriverCommand) -> (result: Result<
    Dispatch,
    RuntimeUnavailable,
>)
    ensures
        forall|phase: RuntimePhase| #[trigger]
            phase_number(phase) == state as int % 8 ==> result == if stopped || !phase_accepts(
                phase,
                command,
            ) {
                Err::<Dispatch, RuntimeUnavailable>(RuntimeUnavailable)
            } else {
                Ok(dispatched(word_generation(state), command))
            },
{
    let status = runtime_status(state);
    if stopped || !runtime_phase_accepts_command(status.phase, &command) {
        return Err(RuntimeUnavailable);
    }
    let generation: u64 = status.generation;
    let control = match command {
        DriverCommand::UndoToPrompt(nth) => return Ok(Dispatch::Undo(nth)),
        DriverCommand::Rewind { turn_id, scope } => return Ok(Dispatch::Rewind { turn_id, scope }),
        DriverCommand::RefreshContextStats => return Ok(Dispatch::ContextStats),
        DriverCommand::Submit(input) => CodingRuntimeControl::Submit { generation, input },
        DriverCommand::Respond { id, value } => CodingRuntimeControl::Respond {
            generation,
            id,
            value,
        },
        DriverCommand::Cancel => CodingRuntimeControl::Cancel { generation },
        DriverCommand::Compact(focus) => CodingRuntimeControl::Compact { generation, focus },
        DriverCommand::SetMode(mode) => CodingRuntimeControl::SetMode { generation, mode },
        DriverCommand::QueueLocalContext(input) => CodingRuntimeControl::QueueLocalContext {
            generation,
            input,
        },
        DriverCommand::ReloadProvider(next) => CodingRuntimeControl::ReassembleProvider {
            generation,
            next,
        },
        DriverCommand::DeactivateProvider(reason) => CodingRuntimeControl::DeactivateProvider {
            generation,
            reason,
        },
        DriverCommand::RestoreSnapshot(snapshot) => CodingRuntimeControl::RestoreSnapshot {
            generation,
            snapshot,
        },
        DriverCommand::RestoreSnapshotCorrelated { snapshot, correlation_id: _ } =>
            CodingRuntimeControl::RestoreSnapshot { generation, snapshot },
        DriverCommand::StartGoal(condition) => CodingRuntimeControl::StartGoal {
            generation,
            condition,
        },
        DriverCommand::StopGoal => CodingRuntimeControl::StopGoal { generation },
        DriverCommand::StartLoop(prompt) => CodingRuntimeControl::StartLoop { generation, prompt },
        DriverCommand::StopLoop => CodingRuntimeControl::StopLoop { generation },
        DriverCommand::Shutdown => CodingRuntimeControl::Shutdown { generation },
    };
    Ok(Dispatch::Control(control))
}

/// Requests a manual compaction: only a runtime that takes turns takes it.
pub fn compact(state: u64, focus: Option<String>) -> (result: Result<
    CodingRuntimeControl,
    RuntimeUnavailable,
>)
    ensures
        result == if state as int % 8 <= 2 {
            Ok::<CodingRuntimeControl, RuntimeUnavailable>(
                CodingRuntimeControl::Compact { generation: word_generation(state), focus },
            )
        } else {
            Err(RuntimeUnavailable)
        },
{
    if !crate::phase::runtime_state_available(state) {
        return Err(RuntimeUnavailable);
    }
    Ok(
        CodingRuntimeControl::Compact {
            generation: crate::phase::runtime_state_generation(state),
            focus,
        },
    )
}

/// A stopped runtime takes nothing: neither a compaction nor any command.
pub proof fn a_stopped_runtime_takes_nothing(generation: u64, command: DriverCommand, state: u64)
    requires
        generation < 0x2000_0000_0000_0000,
        state == packed(generation, RuntimePhase::Stopped),
    ensures
        phase_number(RuntimePhase::Stopped) == state as int % 8,
        state as int % 8 > 2,
        !phase_accepts(RuntimePhase::Stopped, command),
{
}

/// A command is handed to the owner with the generation that the state word was packed
/// with, and only if the phase it was packed with accepts it.
pub proof fn dispatch_reads_the_packed_status(
    generation: u64,
    phase: RuntimePhase,
    state: u64,
)
    requires
        generation < 0x2000_0000_0000_0000,
        state == packed(generation, phase),
    ensures
        word_generation(state) == generation,
        phase_number(phase) == state as int % 8,
{
}

} // verus!
