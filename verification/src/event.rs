//! What flows between the agent, the runtime owner and the drivers.
use crate::compaction::{CompactTrigger, CompactionCheckpointError, CompactionCompletion};
use crate::controllers::{GoalProgress, GoalView, LoopProgress, LoopView};
use crate::conversation::{SessionSnapshot, ToolCall};
use crate::error::RuntimeError;
use crate::mode::{RewindScope, RuntimeMode};
use crate::phase::{ProviderUnavailableReason, RuntimeExit, RuntimeGeneration};
use std::sync::Arc;
use vstd::prelude::*;

verus! {

/// Identifies a request of the agent that waits for an answer.
pub type RequestId = u64;

/// Why the agent ended a turn.
#[derive(Clone, Copy, Debug, PartialEq, Eq, Structural)]
pub enum StopReason {
    Stopped,
    MaxContinuations,
    MaxRounds,
    Timeout,
    ProviderError,
    Cancelled,
    ToolLoopDetected,
}

impl StopReason {
    pub open spec fn text(self) -> Seq<char> {
        match self {
            StopReason::Stopped => "Stopped"@,
            StopReason::MaxContinuations => "MaxContinuations"@,
            StopReason::MaxRounds => "MaxRounds"@,
            StopReason::Timeout => "Timeout"@,
            StopReason::ProviderError => "ProviderError"@,
            StopReason::Cancelled => "Cancelled"@,
            StopReason::ToolLoopDetected => "ToolLoopDetected"@,
        }
    }

    /// Name of the reason.
    pub fn name(self) -> (name: &'static str)
        ensures
            name@ == self.text(),
    {
        match self {
            StopReason::Stopped => "Stopped",
            StopReason::MaxContinuations => "MaxContinuations",
            StopReason::MaxRounds => "MaxRounds",
            StopReason::Timeout => "Timeout",
            StopReason::ProviderError => "ProviderError",
            StopReason::Cancelled => "Cancelled",
            StopReason::ToolLoopDetected => "ToolLoopDetected",
        }
    }
}

/// An image of a user turn.
#[derive(Clone, Debug, PartialEq, Eq)]
pub struct ImageContent {
    pub media_type: String,
    pub data: String,
}

/// A user turn.
#[derive(Clone, Debug, PartialEq, Eq)]
pub struct UserInput {
    pub text: String,
    pub images: Vec<ImageContent>,
}

impl UserInput {
    /// A turn of text alone.
    pub fn from_text(text: String) -> (input: UserInput)
        ensures
            input.text == text,
            input.images@ == Seq::<ImageContent>::empty(),
    {
        UserInput { text, images: Vec::new() }
    }
}

impl From<String> for UserInput {
    fn from(text: String) -> (input: UserInput)
        ensures
            input.text == text,
            input.images@ == Seq::<ImageContent>::empty(),
    {
        UserInput::from_text(text)
    }
}

impl vstd::std_specs::convert::FromSpecImpl<String> for UserInput {
    open spec fn obeys_from_spec() -> bool {
        false
    }

    open spec fn from_spec(text: String) -> UserInput {
        arbitrary()
    }
}

impl From<&str> for UserInput {
    fn from(text: &str) -> (input: UserInput)
        ensures
            input.text@ == text@,
            input.images@ == Seq::<ImageContent>::empty(),
    {
        UserInput::from_text(text.to_owned())
    }
}

impl vstd::std_specs::convert::FromSpecImpl<&str> for UserInput {
    open spec fn obeys_from_spec() -> bool {
        false
    }

    open spec fn from_spec(text: &str) -> UserInput {
        arbitrary()
    }
}

/// Tokens of one provider call.
#[derive(Clone, Copy, Debug, PartialEq, Eq, Structural)]
pub struct TokenUsage {
    pub prompt: u32,
    pub completion: u32,
    pub cached: u32,
}

impl TokenUsage {
    /// Prompt and completion tokens together.
    pub open spec fn spent(self) -> int {
        self.prompt + self.completion
    }
}

/// Usage that the provider reported for a message.
#[derive(Clone, Copy, Debug, PartialEq, Eq, Structural)]
pub struct MessageMeta {
    pub used_tokens: u32,
    pub ctx_window: u32,
    pub elapsed_ms: u64,
    pub tokens: TokenUsage,
}

/// What a turn cost.
#[derive(Clone, Copy, Debug, PartialEq, Eq, Structural)]
pub struct RuntimeTurnStats {
    pub last_usage: Option<MessageMeta>,
    pub duration_nanos: u64,
    pub turn_count: usize,
    pub tool_call_count: usize,
}

impl RuntimeTurnStats {
    pub open spec fn none() -> RuntimeTurnStats {
        RuntimeTurnStats { last_usage: None, duration_nanos: 0, turn_count: 0, tool_call_count: 0 }
    }
}

impl Default for RuntimeTurnStats {
    fn default() -> (stats: Self)
        ensures
            stats == RuntimeTurnStats::none(),
    {
        RuntimeTurnStats { last_usage: None, duration_nanos: 0, turn_count: 0, tool_call_count: 0 }
    }
}

/// Why no snapshot came with the end of a turn.
#[derive(Clone, Debug, PartialEq, Eq)]
pub struct RuntimeSnapshotError {
    pub message: String,
}

/// End of an accepted turn.
#[derive(Clone, Debug, PartialEq, Eq)]
pub enum TurnCompletion {
    Completed {
        turn_id: u64,
        reason: StopReason,
        snapshot: Arc<SessionSnapshot>,
        stats: RuntimeTurnStats,
    },
    SnapshotUnavailable {
        turn_id: u64,
        reason: StopReason,
        error: RuntimeSnapshotError,
        stats: RuntimeTurnStats,
    },
}

/// The end of a turn as a value.
pub enum CompletionView {
    Completed {
        turn_id: u64,
        reason: StopReason,
        snapshot: Arc<SessionSnapshot>,
        stats: RuntimeTurnStats,
    },
    SnapshotUnavailable {
        turn_id: u64,
        reason: StopReason,
        message: Seq<char>,
        stats: RuntimeTurnStats,
    },
}

impl CompletionView {
    pub open spec fn turn(self) -> u64 {
        match self {
            CompletionView::Completed { turn_id, reason, snapshot, stats } => turn_id,
            CompletionView::SnapshotUnavailable { turn_id, reason, message, stats } => turn_id,
        }
    }
}

impl View for TurnCompletion {
    type V = CompletionView;

    open spec fn view(&self) -> CompletionView {
        match *self {
            TurnCompletion::Completed { turn_id, reason, snapshot, stats } =>
                CompletionView::Completed { turn_id, reason, snapshot, stats },
            TurnCompletion::SnapshotUnavailable { turn_id, reason, error, stats } =>
                CompletionView::SnapshotUnavailable {
                    turn_id,
                    reason,
                    message: error.message@,
                    stats,
                },
        }
    }
}

/// Result of one tool call.
#[derive(Clone, Debug, PartialEq, Eq)]
pub struct ToolResult {
    pub call_id: String,
    pub content: String,
    pub is_error: bool,
}

/// What the agent reports.
#[derive(Clone, Debug, PartialEq, Eq)]
pub enum AgentEvent {
    TurnStarted,
    TextDelta(String),
    Reasoning(String),
    ToolCallStreaming { call_id: String },
    ToolBatchStarted { count: usize },
    ToolStarted { call: ToolCall },
    ToolProgress { call_id: String, message: String },
    ToolResult { result: ToolResult },
    Usage(MessageMeta),
    /// `payload` is serialized JSON.
    Request { id: RequestId, kind: String, payload: String },
    TurnComplete { reason: StopReason },
    Snapshot { snapshot: Arc<SessionSnapshot> },
    CompactionStarted { trigger: CompactTrigger },
    Compacted {
        trigger: CompactTrigger,
        epoch: u64,
        removed: usize,
        bytes_before: usize,
        bytes_after: usize,
        committed: bool,
        snapshot: Option<Arc<SessionSnapshot>>,
    },
    CompactionFailed { trigger: CompactTrigger, error: CompactionCheckpointError },
    Error { message: String, http_status: Option<u16>, code: Option<String> },
    /// Any other observation, named; the runtime only passes it on.
    Other(String),
}

/// Answer to a request of the agent.
#[derive(Clone, Debug, PartialEq, Eq)]
pub enum ReplyValue {
    /// JSON null: the request is turned down.
    Null,
    /// Serialized JSON.
    Json(String),
}

/// What the owner asks of the agent.
#[derive(Clone, Debug, PartialEq, Eq)]
pub enum AgentCommand {
    SendMessage { text: String, images: Vec<ImageContent> },
    Respond { id: RequestId, value: ReplyValue },
    Compact { focus: Option<String> },
    Snapshot,
    Cancel,
    Shutdown,
}

/// A command as a value.
pub enum CommandView {
    SendMessage { text: Seq<char>, images: Seq<ImageContent> },
    Plain(AgentCommand),
}

impl View for AgentCommand {
    type V = CommandView;

    open spec fn view(&self) -> CommandView {
        match *self {
            AgentCommand::SendMessage { text, images } => CommandView::SendMessage {
                text: text@,
                images: images@,
            },
            _ => CommandView::Plain(*self),
        }
    }
}

/// An operation that replaces the agent.
#[derive(Clone, Copy, Debug, PartialEq, Eq, Structural)]
pub enum ReconfigureKind {
    Provider,
    Reprepare,
    FreshSession,
    ResumeSession,
    ChangeDirectory,
    RestoreSession,
    Undo,
}

/// The session that a runtime serves after a change.
#[derive(Clone, Debug, PartialEq, Eq)]
pub struct SessionChanged {
    pub generation: RuntimeGeneration,
    pub session_id: Option<String>,
    pub working_dir: String,
}

impl SessionChanged {
    pub fn duplicate(&self) -> (copy: SessionChanged)
        ensures
            copy == *self,
    {
        SessionChanged {
            generation: self.generation,
            session_id: crate::text::copy_opt(&self.session_id),
            working_dir: self.working_dir.clone(),
        }
    }
}

/// A request of the agent, as drivers see it.
#[derive(Clone, Debug, PartialEq, Eq)]
pub struct RuntimeRequest {
    pub id: RequestId,
    pub kind: String,
    /// Serialized JSON.
    pub payload: String,
    pub snapshot: Option<Arc<SessionSnapshot>>,
}

/// What an undo left.
#[derive(Clone, Debug, PartialEq, Eq)]
pub struct UndoResult {
    pub generation: RuntimeGeneration,
    pub snapshot: Arc<SessionSnapshot>,
    pub restored_prompt: String,
    pub target_n: usize,
    pub prompts_before: usize,
}

/// A turn that can be rewound to.
#[derive(Clone, Debug, PartialEq, Eq)]
pub struct RewindPoint {
    pub turn_id: u64,
    pub prompt_number: usize,
    pub prompt_preview: String,
    pub files: Vec<String>,
}

/// A rewind point as a value.
pub struct RewindPointView {
    pub turn_id: u64,
    pub prompt_number: usize,
    pub prompt_preview: Seq<char>,
    pub files: Seq<Seq<char>>,
}

impl View for RewindPoint {
    type V = RewindPointView;

    open spec fn view(&self) -> RewindPointView {
        RewindPointView {
            turn_id: self.turn_id,
            prompt_number: self.prompt_number,
            prompt_preview: self.prompt_preview@,
            files: crate::text::texts(self.files@),
        }
    }
}

impl RewindPoint {
    /// Whether two points are equal.
    pub fn same(&self, other: &RewindPoint) -> (same: bool)
        ensures
            same == (self@ == other@),
    {
        if self.turn_id != other.turn_id || self.prompt_number != other.prompt_number {
            return false;
        }
        if self.prompt_preview != other.prompt_preview {
            return false;
        }
        crate::text::same_texts(&self.files, &other.files)
    }
}

/// The turns that a session can be rewound to.
#[derive(Clone, Debug, PartialEq, Eq)]
pub struct RewindCatalog {
    pub generation: RuntimeGeneration,
    pub revision: u64,
    pub points: Vec<RewindPoint>,
    pub code_unavailable: Option<String>,
}

/// What a rewind left.
#[derive(Clone, Debug, PartialEq, Eq)]
pub struct RewindResult {
    pub generation: RuntimeGeneration,
    pub scope: RewindScope,
    pub point: RewindPoint,
    pub snapshot: Arc<SessionSnapshot>,
    pub restored_prompt: Option<String>,
    pub restored_files: Vec<String>,
}

/// Context use of the current agent.
#[derive(Clone, Debug, PartialEq, Eq)]
pub struct RuntimeContextStats {
    pub context_window: u32,
    pub used_tokens: u32,
    pub model: String,
    pub working_dir: String,
}

/// Result of a vision preprocessing pass.
#[derive(Clone, Debug, PartialEq, Eq)]
pub enum VisionNotice {
    /// The images were turned into text.
    Recognised { vl_model: String, char_count: usize },
    /// They were not, and were dropped from the turn.
    Failed { reason: String },
}

/// Local context that the next turn carries in front of its text.
#[derive(Clone, Debug, PartialEq, Eq)]
pub struct LocalContextInput {
    pub content: String,
}

/// Receipt for a submitted turn.
#[derive(Clone, Copy, Debug, PartialEq, Eq, Structural)]
pub enum SubmitReceipt {
    Started { generation: u64, turn_id: u64 },
    Steered { generation: u64, turn_id: u64 },
}

/// A snapshot handed to a waiter.
#[derive(Clone, Debug, PartialEq, Eq)]
pub struct RuntimeSnapshotReceipt {
    pub snapshot: Arc<SessionSnapshot>,
    pub undo_snapshot: Arc<SessionSnapshot>,
    pub revision: u64,
}

/// The session of a started runtime.
#[derive(Clone, Debug, PartialEq, Eq)]
pub struct RuntimeSessionInfo {
    pub id: String,
    pub resumed: bool,
}

/// How a start treats a provider that cannot be built.
#[derive(Clone, Copy, Debug, PartialEq, Eq, Structural)]
pub enum ProviderBootstrap {
    Required,
    RecoverAuthentication,
    Unavailable(ProviderUnavailableReason),
}

/// Runtime facts emitted to the drivers.
#[derive(Debug, PartialEq, Eq)]
pub enum CodingRuntimeEvent {
    /// A kernel observation that is not owned as a runtime terminal/request.
    Agent(AgentEvent),
    VisionPreprocessSuccess { vl_model: String, char_count: usize },
    VisionPreprocessFailed { reason: String },
    /// A potentially slow compaction strategy has started.
    CompactionStarted { trigger: CompactTrigger },
    /// A compaction attempt reached exactly one terminal state.
    CompactionFinished { completion: CompactionCompletion },
    /// Exactly-once runtime terminal on the event stream.
    RuntimeStopped(RuntimeExit),
    /// Driver-correlated approval or other middleware request.
    Request(RuntimeRequest),
    /// Exactly one terminal for an accepted foreground turn.
    TurnFinished(TurnCompletion),
    ModeChanged { mode: RuntimeMode },
    Reconfiguring { operation: ReconfigureKind },
    Reconfigured { operation: ReconfigureKind },
    ProviderChanged { provider: String, model: String },
    ProviderUnavailable { reason: ProviderUnavailableReason, forced: bool },
    SessionNameSuggested { name: String },
    SessionChanged(SessionChanged),
    WorkingDirectoryChanged(String),
    GoalChanged(GoalProgress),
    LoopChanged(LoopProgress),
    UndoFinished(Result<UndoResult, RuntimeError>),
    RewindCatalogRefreshed(Result<RewindCatalog, RuntimeError>),
    RewindFinished(Result<RewindResult, RuntimeError>),
    ContextStatsRefreshed(Result<RuntimeContextStats, RuntimeError>),
    SnapshotRestoreFinished {
        correlation_id: u64,
        result: Result<Arc<SessionSnapshot>, RuntimeError>,
    },
    SessionResumeFinished(Result<SessionChanged, RuntimeError>),
    ProviderReloadFinished(Result<RuntimeGeneration, RuntimeError>),
    ProviderDeactivationFinished(Result<RuntimeGeneration, RuntimeError>),
    ControllerWarning(String),
}

/// An event as a value: the ones whose text the runtime writes itself are taken by their
/// text, the others as they are.
pub enum EventView {
    AgentError(Seq<char>),
    TurnFinished(CompletionView),
    GoalChanged(GoalView),
    LoopChanged(LoopView),
    ControllerWarning(Seq<char>),
    Plain(CodingRuntimeEvent),
}

impl View for CodingRuntimeEvent {
    type V = EventView;

    open spec fn view(&self) -> EventView {
        match *self {
            CodingRuntimeEvent::Agent(
                AgentEvent::Error { message, http_status: None, code: None },
            ) => EventView::AgentError(message@),
            CodingRuntimeEvent::TurnFinished(completion) => EventView::TurnFinished(completion@),
            CodingRuntimeEvent::GoalChanged(progress) => EventView::GoalChanged(progress@),
            CodingRuntimeEvent::LoopChanged(progress) => EventView::LoopChanged(progress@),
            CodingRuntimeEvent::ControllerWarning(text) => EventView::ControllerWarning(text@),
            _ => EventView::Plain(*self),
        }
    }
}

/// One event with the generation of the runtime that emitted it.
#[derive(Debug, PartialEq, Eq)]
pub struct GenerationTaggedRuntimeEvent {
    pub generation: u64,
    pub event: CodingRuntimeEvent,
}

/// One totally ordered event emitted by a runtime instance.
#[derive(Debug, PartialEq, Eq)]
pub struct SequencedRuntimeEvent {
    pub generation: u64,
    pub sequence: u64,
    pub event: CodingRuntimeEvent,
}

} // verus!
