//! One live runner per session. Views attach to a session and replay its journal; they never
//! take a runner from one another.
use crate::conversation::SessionSnapshot;
use crate::event::{AgentEvent, CodingRuntimeEvent, RequestId, TurnCompletion, UserInput};
use crate::owner::bump;
use crate::path::{is_plain_path, is_same_path, path_verdict, same_path};
use crate::text::{decimal, decimal_text, join2, join3, opt_text, same_text, share, texts};
use std::collections::VecDeque;
use std::sync::Arc;
use vstd::prelude::*;
use vstd::string::*;

verus! {

/// Stable session identifier.
pub type SessionKey = String;

/// Cap on concurrent live runners in one process.
pub const MAX_LIVE_SESSIONS: usize = 32;

/// Events kept for replay.
pub const JOURNAL_CAP: usize = 2048;

/// Fingerprints of observations that are remembered.
pub const RECENT_KEY_CAP: usize = 64;

/// Characters of a text that go into its fingerprint.
pub const CLIP_CHARS: usize = 192;

/// Neutral runtime activity, from which drivers project labels.
#[derive(Clone, Copy, Debug, PartialEq, Eq, Structural)]
pub enum RuntimeActivity {
    Starting,
    Ready,
    Running,
    WaitingApproval,
    WaitingUserInput,
    Reconfiguring,
    Stopping,
    Stopped,
    Failed,
}

impl RuntimeActivity {
    pub open spec fn busy(self) -> bool {
        self == RuntimeActivity::Running || self == RuntimeActivity::WaitingApproval || self
            == RuntimeActivity::WaitingUserInput || self == RuntimeActivity::Starting || self
            == RuntimeActivity::Reconfiguring
    }

    pub open spec fn idle_releasable(self) -> bool {
        self == RuntimeActivity::Stopped || self == RuntimeActivity::Failed || self
            == RuntimeActivity::Ready
    }

    pub open spec fn live_turn(self) -> bool {
        self == RuntimeActivity::Running || self == RuntimeActivity::WaitingApproval || self
            == RuntimeActivity::WaitingUserInput
    }

    pub fn is_busy(self) -> (busy: bool)
        ensures
            busy == self.busy(),
    {
        matches!(
            self,
            RuntimeActivity::Running
                | RuntimeActivity::WaitingApproval
                | RuntimeActivity::WaitingUserInput
                | RuntimeActivity::Starting
                | RuntimeActivity::Reconfiguring
        )
    }

    pub fn is_idle_releasable(self) -> (releasable: bool)
        ensures
            releasable == self.idle_releasable(),
    {
        matches!(self, RuntimeActivity::Stopped | RuntimeActivity::Failed | RuntimeActivity::Ready)
    }

    /// A bound runner is mid-turn. `Starting` only says that the row exists.
    pub fn is_live_turn(self) -> (live: bool)
        ensures
            live == self.live_turn(),
    {
        matches!(
            self,
            RuntimeActivity::Running
                | RuntimeActivity::WaitingApproval
                | RuntimeActivity::WaitingUserInput
        )
    }
}

/// A session in a turn is busy, and one that may be released is neither.
pub proof fn activities_do_not_overlap(activity: RuntimeActivity)
    ensures
        activity.live_turn() ==> activity.busy(),
        !(activity.busy() && activity.idle_releasable()),
{
}

/// Outcome of opening a session.
#[derive(Clone, Copy, Debug, PartialEq, Eq, Structural)]
pub enum OpenOutcome {
    /// The registry already held a live entry for this session.
    Attached,
    /// A new entry was registered for this session.
    Registered,
}

/// A steered input, as views show it.
#[derive(Clone, Debug, PartialEq, Eq)]
pub struct SteeredInput {
    pub text: String,
}

/// Fan-out events that are not runtime events but must reach every view of a session.
#[derive(Clone, Debug, PartialEq, Eq)]
pub enum SessionViewEvent {
    InputAccepted { input: UserInput, client_input_id: Option<String> },
    Steered { count: usize, inputs: Vec<SteeredInput>, client_input_ids: Vec<Option<String>> },
    CommandOutput(String),
    RequestResolved { request_id: RequestId, kind: String },
}

/// Sequenced observation for one session.
#[derive(Debug, PartialEq, Eq)]
pub struct SequencedSessionEvent {
    pub session_id: SessionKey,
    pub generation: u64,
    pub sequence: u64,
    pub activity: RuntimeActivity,
    /// The runtime observation; absent for pure activity and lifecycle markers.
    pub runtime: Option<CodingRuntimeEvent>,
    /// View-layer coordination.
    pub view: Option<SessionViewEvent>,
}

/// In-memory record for one session's live runner.
#[derive(Clone, Debug, PartialEq, Eq)]
pub struct SessionRuntimeEntry {
    pub session_id: SessionKey,
    pub working_dir: String,
    pub activity: RuntimeActivity,
    pub generation: u64,
    /// Last known conversation snapshot.
    pub snapshot: Option<Arc<SessionSnapshot>>,
    /// Transport id used by event fan-in.
    pub runtime_id: Option<u64>,
}

impl SessionRuntimeEntry {
    pub fn duplicate(&self) -> (copy: SessionRuntimeEntry)
        ensures
            copy == *self,
    {
        SessionRuntimeEntry {
            session_id: self.session_id.clone(),
            working_dir: self.working_dir.clone(),
            activity: self.activity,
            generation: self.generation,
            snapshot: match &self.snapshot {
                Some(snapshot) => Some(share(snapshot)),
                None => None,
            },
            runtime_id: self.runtime_id,
        }
    }
}

/// Why the registry refuses.
#[derive(Clone, Debug, PartialEq, Eq)]
pub enum RegistryError {
    UnknownSession { session_id: SessionKey },
    HandleNotReady { session_id: SessionKey },
    Unavailable { session_id: SessionKey },
    LiveLimit { max: usize },
}

impl RegistryError {
    pub open spec fn text(self) -> Seq<char> {
        match self {
            RegistryError::UnknownSession { session_id } => "session "@ + session_id@
                + " is not in the runtime registry"@,
            RegistryError::HandleNotReady { session_id } => "session "@ + session_id@
                + " runtime handle is not ready"@,
            RegistryError::Unavailable { session_id } => "session "@ + session_id@
                + " coding runtime is unavailable"@,
            RegistryError::LiveLimit { max } => "too many live sessions (max "@ + decimal(
                max as nat,
            ) + ")"@,
        }
    }

    /// The text shown for the error.
    pub fn message(&self) -> (message: String)
        ensures
            message@ == self.text(),
    {
        match self {
            RegistryError::UnknownSession { session_id } => join3(
                "session ",
                session_id.as_str(),
                " is not in the runtime registry",
            ),
            RegistryError::HandleNotReady { session_id } => join3(
                "session ",
                session_id.as_str(),
                " runtime handle is not ready",
            ),
            RegistryError::Unavailable { session_id } => join3(
                "session ",
                session_id.as_str(),
                " coding runtime is unavailable",
            ),
            RegistryError::LiveLimit { max } => join3(
                "too many live sessions (max ",
                decimal_text(*max as u64).as_str(),
                ")",
            ),
        }
    }
}

/// The first characters of a text behind a prefix, with a mark where it was cut.
pub open spec fn clip_text(prefix: Seq<char>, value: Seq<char>) -> Seq<char> {
    if value.len() > CLIP_CHARS {
        prefix + value.take(CLIP_CHARS as int) + "…"@
    } else {
        prefix + value
    }
}

pub fn clip_key(prefix: &str, value: &str) -> (key: String)
    ensures
        key@ == clip_text(prefix@, value@),
{
    let chars = crate::text::chars_of(value);
    if chars.len() > CLIP_CHARS {
        let head = crate::text::text_of(&chars, 0, CLIP_CHARS);
        assert(head@ =~= value@.take(CLIP_CHARS as int));
        join3(prefix, head.as_str(), "…")
    } else {
        join2(prefix, value)
    }
}

/// Fingerprint of an observation of the agent, where it has one.
pub open spec fn runtime_key(event: CodingRuntimeEvent) -> Option<Seq<char>> {
    match event {
        CodingRuntimeEvent::Agent(AgentEvent::TextDelta(text)) => Some(clip_text("td:"@, text@)),
        CodingRuntimeEvent::Agent(AgentEvent::Reasoning(text)) => Some(clip_text("rd:"@, text@)),
        CodingRuntimeEvent::Agent(AgentEvent::ToolStarted { call }) => Some(
            "ts:"@ + call.id@ + ":"@ + call.name@,
        ),
        CodingRuntimeEvent::Agent(AgentEvent::ToolProgress { call_id, message }) => Some(
            "tp:"@ + call_id@ + ":"@ + clip_text(""@, message@),
        ),
        CodingRuntimeEvent::Agent(AgentEvent::ToolResult { result }) => Some(
            "tr:"@ + result.call_id@ + ":"@ + clip_text(""@, result.content@),
        ),
        _ => None,
    }
}

pub fn consecutive_runtime_key(event: &CodingRuntimeEvent) -> (key: Option<String>)
    ensures
        opt_text(key) == runtime_key(*event),
{
    match event {
        CodingRuntimeEvent::Agent(AgentEvent::TextDelta(text)) => Some(
            clip_key("td:", text.as_str()),
        ),
        CodingRuntimeEvent::Agent(AgentEvent::Reasoning(text)) => Some(
            clip_key("rd:", text.as_str()),
        ),
        CodingRuntimeEvent::Agent(AgentEvent::ToolStarted { call }) => {
            let mut key = join3("ts:", call.id.as_str(), ":");
            key.append(call.name.as_str());
            Some(key)
        },
        CodingRuntimeEvent::Agent(AgentEvent::ToolProgress { call_id, message }) => {
            let mut key = join3("tp:", call_id.as_str(), ":");
            key.append(clip_key("", message.as_str()).as_str());
            Some(key)
        },
        CodingRuntimeEvent::Agent(AgentEvent::ToolResult { result }) => {
            let mut key = join3("tr:", result.call_id.as_str(), ":");
            key.append(clip_key("", result.content.as_str()).as_str());
            Some(key)
        },
        _ => None,
    }
}

/// The activity that an observation shows. `user_input_kind` is the kind of the requests that
/// ask the user for input rather than for approval.
pub open spec fn activity_after(
    event: CodingRuntimeEvent,
    previous: RuntimeActivity,
    user_input_kind: Seq<char>,
) -> RuntimeActivity {
    match event {
        CodingRuntimeEvent::Agent(observed) => if observed is TurnStarted || observed is TextDelta
            || observed is ToolCallStreaming || observed is ToolBatchStarted || observed
            is ToolStarted || observed is ToolResult || observed is Reasoning {
            RuntimeActivity::Running
        } else {
            previous
        },
        CodingRuntimeEvent::Request(request) => if request.kind@ == user_input_kind {
            RuntimeActivity::WaitingUserInput
        } else {
            RuntimeActivity::WaitingApproval
        },
        CodingRuntimeEvent::TurnFinished(completion) => RuntimeActivity::Ready,
        CodingRuntimeEvent::RuntimeStopped(exit) => RuntimeActivity::Stopped,
        CodingRuntimeEvent::Reconfiguring { operation } => RuntimeActivity::Reconfiguring,
        CodingRuntimeEvent::Reconfigured { operation } => RuntimeActivity::Ready,
        CodingRuntimeEvent::ProviderUnavailable { reason, forced } => RuntimeActivity::Failed,
        _ => previous,
    }
}

/// The activity that an observation shows.
pub fn activity_from_runtime_event(
    event: &CodingRuntimeEvent,
    previous: RuntimeActivity,
    user_input_kind: &str,
) -> (activity: RuntimeActivity)
    ensures
        activity == activity_after(*event, previous, user_input_kind@),
{
    match event {
        CodingRuntimeEvent::Agent(
            AgentEvent::TurnStarted
            | AgentEvent::TextDelta(_)
            | AgentEvent::ToolCallStreaming { .. }
            | AgentEvent::ToolBatchStarted { .. }
            | AgentEvent::ToolStarted { .. }
            | AgentEvent::ToolResult { .. }
            | AgentEvent::Reasoning(_),
        ) => RuntimeActivity::Running,
        CodingRuntimeEvent::Request(request) => {
            if same_text(request.kind.as_str(), user_input_kind) {
                RuntimeActivity::WaitingUserInput
            } else {
                RuntimeActivity::WaitingApproval
            }
        },
        CodingRuntimeEvent::TurnFinished(_) => RuntimeActivity::Ready,
        CodingRuntimeEvent::RuntimeStopped(_) => RuntimeActivity::Stopped,
        CodingRuntimeEvent::Reconfiguring { .. } => RuntimeActivity::Reconfiguring,
        CodingRuntimeEvent::Reconfigured { .. } => RuntimeActivity::Ready,
        CodingRuntimeEvent::ProviderUnavailable { .. } => RuntimeActivity::Failed,
        _ => previous,
    }
}

/// A session with its journal.
#[derive(Debug)]
pub struct LiveSession {
    pub meta: SessionRuntimeEntry,
    /// Whether a runner is bound.
    pub bound: bool,
    pub journal: VecDeque<Arc<SequencedSessionEvent>>,
    pub next_sequence: u64,
    pub pending_request_id: Option<RequestId>,
    /// Recent fingerprints: an observer that echoes the journal back is cut off.
    pub recent_runtime_keys: VecDeque<String>,
}

/// A session as a value.
pub struct LiveView {
    pub meta: SessionRuntimeEntry,
    pub bound: bool,
    pub journal: Seq<Arc<SequencedSessionEvent>>,
    pub next_sequence: u64,
    pub pending_request_id: Option<RequestId>,
    pub recent: Seq<Seq<char>>,
}

impl View for LiveSession {
    type V = LiveView;

    open spec fn view(&self) -> LiveView {
        LiveView {
            meta: self.meta,
            bound: self.bound,
            journal: self.journal@,
            next_sequence: self.next_sequence,
            pending_request_id: self.pending_request_id,
            recent: texts(self.recent_runtime_keys@),
        }
    }
}

impl LiveView {
    /// A journal and a memory of bounded size.
    pub open spec fn wf(self) -> bool {
        self.journal.len() <= JOURNAL_CAP && self.recent.len() <= RECENT_KEY_CAP
    }

    /// The entries of the journal carry the numbers just before the next one, without a gap.
    pub open spec fn numbered(self) -> bool {
        forall|i: int|
            0 <= i < self.journal.len() ==> (#[trigger] self.journal[i]).sequence
                == self.next_sequence - self.journal.len() + i
    }

    pub open spec fn key(self) -> Seq<char> {
        self.meta.session_id@
    }

    /// The session with a new activity, which is written to the journal. The oldest entry
    /// gives way.
    pub open spec fn pushed(
        self,
        activity: RuntimeActivity,
        runtime: Option<CodingRuntimeEvent>,
        view: Option<SessionViewEvent>,
    ) -> LiveView {
        let event = SequencedSessionEvent {
            session_id: self.meta.session_id,
            generation: self.meta.generation,
            sequence: self.next_sequence,
            activity,
            runtime,
            view,
        };
        LiveView {
            meta: SessionRuntimeEntry { activity, ..self.meta },
            next_sequence: bump(self.next_sequence),
            journal: if self.journal.len() >= JOURNAL_CAP {
                self.journal.drop_first().push(Arc::new(event))
            } else {
                self.journal.push(Arc::new(event))
            },
            ..self
        }
    }

    /// What an observation settles before it is written down: the snapshot, the pending
    /// request, and whether the turn's journal is still of use.
    pub open spec fn settled(self, event: CodingRuntimeEvent) -> LiveView {
        let over = event is TurnFinished || event is RuntimeStopped;
        LiveView {
            meta: SessionRuntimeEntry {
                snapshot: match event {
                    CodingRuntimeEvent::TurnFinished(
                        TurnCompletion::Completed { turn_id, reason, snapshot, stats },
                    ) => Some(snapshot),
                    _ => self.meta.snapshot,
                },
                ..self.meta
            },
            pending_request_id: match event {
                CodingRuntimeEvent::Request(request) => Some(request.id),
                CodingRuntimeEvent::TurnFinished(completion) => None,
                _ => self.pending_request_id,
            },
            journal: if over {
                Seq::empty()
            } else {
                self.journal
            },
            recent: if over {
                Seq::empty()
            } else {
                self.recent
            },
            ..self
        }
    }

    /// Whether the observation is an echo of a recent one.
    pub open spec fn echoes(self, event: CodingRuntimeEvent) -> bool {
        runtime_key(event) matches Some(key) && self.recent.contains(key)
    }

    /// The fingerprint is remembered; the oldest gives way.
    pub open spec fn remembered(self, event: CodingRuntimeEvent) -> LiveView {
        LiveView {
            recent: match runtime_key(event) {
                Some(key) => if self.recent.len() >= RECENT_KEY_CAP {
                    self.recent.drop_first().push(key)
                } else {
                    self.recent.push(key)
                },
                None => self.recent,
            },
            ..self
        }
    }

    /// The session after an observation of its runner.
    pub open spec fn observed(
        self,
        generation: u64,
        event: CodingRuntimeEvent,
        user_input_kind: Seq<char>,
    ) -> LiveView {
        let settled = self.settled(event);
        if settled.echoes(event) {
            settled
        } else {
            let known = settled.remembered(event);
            let dated = LiveView {
                meta: SessionRuntimeEntry {
                    generation: if generation > 0 {
                        generation
                    } else {
                        known.meta.generation
                    },
                    ..known.meta
                },
                ..known
            };
            dated.pushed(
                activity_after(event, dated.meta.activity, user_input_kind),
                Some(event),
                None,
            )
        }
    }

    /// The session after an event of a view.
    pub open spec fn viewed(self, view: SessionViewEvent) -> LiveView {
        let answered = LiveView {
            pending_request_id: match view {
                SessionViewEvent::RequestResolved { request_id, kind } => if self.pending_request_id
                    == Some(request_id) {
                    None
                } else {
                    self.pending_request_id
                },
                _ => self.pending_request_id,
            },
            ..self
        };
        answered.pushed(
            if view is CommandOutput {
                self.meta.activity
            } else {
                RuntimeActivity::Running
            },
            None,
            Some(view),
        )
    }

    pub open spec fn fresh(session_id: SessionKey, working_dir: String) -> LiveView {
        LiveView {
            meta: SessionRuntimeEntry {
                session_id,
                working_dir,
                activity: RuntimeActivity::Starting,
                generation: 1,
                snapshot: None,
                runtime_id: None,
            },
            bound: false,
            journal: Seq::empty(),
            next_sequence: 0,
            pending_request_id: None,
            recent: Seq::empty(),
        }
    }

    /// Whether a runner that is bound to the session makes it ready.
    pub open spec fn wakes_when_bound(self) -> bool {
        self.meta.activity == RuntimeActivity::Starting || self.meta.activity
            == RuntimeActivity::Stopped
    }

    /// The session after a runner was bound to it.
    pub open spec fn bound_to(self, runtime_id: Option<u64>) -> LiveView {
        let bound = LiveView {
            bound: true,
            meta: SessionRuntimeEntry { runtime_id, ..self.meta },
            ..self
        };
        if self.wakes_when_bound() {
            bound.pushed(RuntimeActivity::Ready, None, None)
        } else {
            bound
        }
    }

    /// The session with another pending request.
    pub open spec fn with_pending(self, id: Option<RequestId>) -> LiveView {
        let noted = LiveView { pending_request_id: id, ..self };
        if id is Some {
            noted.pushed(RuntimeActivity::WaitingApproval, None, None)
        } else {
            noted
        }
    }
}

impl LiveSession {
    fn new(session_id: SessionKey, working_dir: String) -> (session: LiveSession)
        ensures
            session@ == LiveView::fresh(session_id, working_dir),
    {
        let session = LiveSession {
            meta: SessionRuntimeEntry {
                session_id,
                working_dir,
                activity: RuntimeActivity::Starting,
                generation: 1,
                snapshot: None,
                runtime_id: None,
            },
            bound: false,
            journal: VecDeque::new(),
            next_sequence: 0,
            pending_request_id: None,
            recent_runtime_keys: VecDeque::new(),
        };
        assert(session@.recent =~= Seq::empty());
        session
    }

    fn append(&mut self, event: Arc<SequencedSessionEvent>)
        ensures
            final(self)@ == (LiveView {
                journal: if old(self)@.journal.len() >= JOURNAL_CAP {
                    old(self)@.journal.drop_first().push(event)
                } else {
                    old(self)@.journal.push(event)
                },
                ..old(self)@
            }),
    {
        if self.journal.len() >= JOURNAL_CAP {
            let _ = self.journal.pop_front();
            assert(self.journal@ =~= old(self)@.journal.drop_first());
        }
        self.journal.push_back(event);
    }

    fn push(
        &mut self,
        activity: RuntimeActivity,
        runtime: Option<CodingRuntimeEvent>,
        view: Option<SessionViewEvent>,
    ) -> (event: Arc<SequencedSessionEvent>)
        ensures
            final(self)@ == old(self)@.pushed(activity, runtime, view),
            event == final(self)@.journal.last(),
    {
        let event = Arc::new(
            SequencedSessionEvent {
                session_id: self.meta.session_id.clone(),
                generation: self.meta.generation,
                sequence: self.next_sequence,
                activity,
                runtime,
                view,
            },
        );
        self.next_sequence = self.next_sequence.wrapping_add(1);
        self.meta.activity = activity;
        self.append(share(&event));
        event
    }

    fn clear_turn(&mut self)
        ensures
            final(self)@ == (LiveView {
                journal: Seq::empty(),
                recent: Seq::empty(),
                ..old(self)@
            }),
    {
        self.journal.clear();
        self.recent_runtime_keys.clear();
        assert(self@.recent =~= Seq::empty());
    }

    fn settle(&mut self, event: &CodingRuntimeEvent)
        ensures
            final(self)@ == old(self)@.settled(*event),
    {
        match event {
            CodingRuntimeEvent::TurnFinished(completion) => {
                if let TurnCompletion::Completed { snapshot, .. } = completion {
                    self.meta.snapshot = Some(share(snapshot));
                }
                self.pending_request_id = None;
                self.clear_turn();
            },
            CodingRuntimeEvent::RuntimeStopped(_) => {
                self.clear_turn();
            },
            CodingRuntimeEvent::Request(request) => {
                self.pending_request_id = Some(request.id);
            },
            _ => {},
        }
    }

    fn knows(&self, key: &str) -> (known: bool)
        ensures
            known == self@.recent.contains(key@),
    {
        let mut i: usize = 0;
        while i < self.recent_runtime_keys.len()
            invariant
                0 <= i <= self.recent_runtime_keys.len(),
                forall|j: int| 0 <= j < i ==> #[trigger] self@.recent[j] != key@,
            decreases self.recent_runtime_keys.len() - i,
        {
            if same_text(self.recent_runtime_keys[i].as_str(), key) {
                assert(self@.recent[i as int] == key@);
                return true;
            }
            i = i + 1;
        }
        false
    }

    fn remember(&mut self, key: String)
        ensures
            final(self)@ == (LiveView {
                recent: if old(self)@.recent.len() >= RECENT_KEY_CAP {
                    old(self)@.recent.drop_first().push(key@)
                } else {
                    old(self)@.recent.push(key@)
                },
                ..old(self)@
            }),
    {
        if self.recent_runtime_keys.len() >= RECENT_KEY_CAP {
            let _ = self.recent_runtime_keys.pop_front();
        }
        self.recent_runtime_keys.push_back(key);
        assert(self@.recent =~= if old(self)@.recent.len() >= RECENT_KEY_CAP {
            old(self)@.recent.drop_first().push(key@)
        } else {
            old(self)@.recent.push(key@)
        });
    }

    fn date(&mut self, generation: u64)
        ensures
            final(self)@ == (LiveView {
                meta: SessionRuntimeEntry {
                    generation: if generation > 0 {
                        generation
                    } else {
                        old(self)@.meta.generation
                    },
                    ..old(self)@.meta
                },
                ..old(self)@
            }),
    {
        if generation > 0 {
            self.meta.generation = generation;
        }
    }

    /// Takes an observation in. Gives the journal entry to fan out, unless it is an echo.
    fn observe(
        &mut self,
        generation: u64,
        event: CodingRuntimeEvent,
        user_input_kind: &str,
    ) -> (entry: Option<Arc<SequencedSessionEvent>>)
        ensures
            final(self)@ == old(self)@.observed(generation, event, user_input_kind@),
            entry is None <==> old(self)@.settled(event).echoes(event),
            entry matches Some(written) ==> written == final(self)@.journal.last(),
    {
        self.settle(&event);
        if let Some(key) = consecutive_runtime_key(&event) {
            if self.knows(key.as_str()) {
                return None;
            }
            self.remember(key);
        }
        self.date(generation);
        let activity = activity_from_runtime_event(&event, self.meta.activity, user_input_kind);
        Some(self.push(activity, Some(event), None))
    }

    fn answer_view(&mut self, view: &SessionViewEvent)
        ensures
            final(self)@ == (LiveView {
                pending_request_id: match *view {
                    SessionViewEvent::RequestResolved { request_id, kind } => if old(
                        self,
                    )@.pending_request_id == Some(request_id) {
                        None
                    } else {
                        old(self)@.pending_request_id
                    },
                    _ => old(self)@.pending_request_id,
                },
                ..old(self)@
            }),
    {
        if let SessionViewEvent::RequestResolved { request_id, .. } = view {
            if let Some(pending) = self.pending_request_id {
                if pending == *request_id {
                    self.pending_request_id = None;
                }
            }
        }
    }

    fn take_view(&mut self, view: SessionViewEvent) -> (entry: Arc<SequencedSessionEvent>)
        ensures
            final(self)@ == old(self)@.viewed(view),
            entry == final(self)@.journal.last(),
    {
        self.answer_view(&view);
        let activity = if matches!(view, SessionViewEvent::CommandOutput(_)) {
            self.meta.activity
        } else {
            RuntimeActivity::Running
        };
        self.push(activity, None, Some(view))
    }

    fn bind(&mut self, runtime_id: Option<u64>) -> (entry: Option<Arc<SequencedSessionEvent>>)
        ensures
            final(self)@ == old(self)@.bound_to(runtime_id),
            entry == if old(self)@.wakes_when_bound() {
                Some(final(self)@.journal.last())
            } else {
                None
            },
    {
        self.bound = true;
        self.meta.runtime_id = runtime_id;
        if self.meta.activity == RuntimeActivity::Starting || self.meta.activity
            == RuntimeActivity::Stopped {
            Some(self.push(RuntimeActivity::Ready, None, None))
        } else {
            None
        }
    }

    fn set_pending(&mut self, id: Option<RequestId>) -> (entry: Option<Arc<SequencedSessionEvent>>)
        ensures
            final(self)@ == old(self)@.with_pending(id),
            entry == if id is Some {
                Some(final(self)@.journal.last())
            } else {
                None
            },
    {
        self.pending_request_id = id;
        if id.is_some() {
            Some(self.push(RuntimeActivity::WaitingApproval, None, None))
        } else {
            None
        }
    }
}

/// A session never outgrows its bounds, whatever is pushed to it.
pub proof fn sessions_stay_bounded(
    session: LiveView,
    generation: u64,
    event: CodingRuntimeEvent,
    kind: Seq<char>,
    view: SessionViewEvent,
    activity: RuntimeActivity,
)
    requires
        session.wf(),
    ensures
        session.observed(generation, event, kind).wf(),
        session.viewed(view).wf(),
        session.pushed(activity, None, None).wf(),
        session.observed(generation, event, kind).key() == session.key(),
        session.viewed(view).key() == session.key(),
{
}

/// An observation that was just taken in is not taken in again: the journal stays, and so
/// does the sequence.
pub proof fn echoes_are_dropped(
    session: LiveView,
    generation: u64,
    event: CodingRuntimeEvent,
    kind: Seq<char>,
)
    requires
        session.wf(),
        runtime_key(event) is Some,
    ensures
        ({
            let once = session.observed(generation, event, kind);
            &&& once.settled(event).echoes(event)
            &&& once.observed(generation, event, kind) == once
        }),
{
    let once = session.observed(generation, event, kind);
    let key = runtime_key(event)->0;
    let settled = session.settled(event);
    assert(!(event is TurnFinished) && !(event is RuntimeStopped));
    if !settled.echoes(event) {
        let known = settled.remembered(event);
        assert(known.recent.last() == key);
        assert(known.recent[known.recent.len() - 1] == key);
        assert(once.recent.contains(key));
    }
    assert(once.settled(event) == once);
}

/// The end of a turn leaves only itself in the journal: what is replayed on top of the
/// snapshot does not repeat the turn.
pub proof fn finished_turns_are_not_replayed(
    session: LiveView,
    generation: u64,
    event: CodingRuntimeEvent,
    kind: Seq<char>,
)
    requires
        event is TurnFinished || event is RuntimeStopped,
    ensures
        session.observed(generation, event, kind).journal.len() == 1,
        session.observed(generation, event, kind).recent.len() == 0,
        session.observed(generation, event, kind).journal[0].runtime == Some(event),
{
}

/// Journals are numbered without gaps, whatever is pushed to them, up to the last number.
pub proof fn journals_have_no_gaps(
    session: LiveView,
    generation: u64,
    event: CodingRuntimeEvent,
    kind: Seq<char>,
    view: SessionViewEvent,
    activity: RuntimeActivity,
    runtime_id: Option<u64>,
    id: Option<RequestId>,
)
    requires
        session.numbered(),
        session.next_sequence < u64::MAX,
    ensures
        session.observed(generation, event, kind).numbered(),
        session.viewed(view).numbered(),
        session.pushed(activity, None, None).numbered(),
        session.bound_to(runtime_id).numbered(),
        session.with_pending(id).numbered(),
{
}

/// A view that has seen an entry of the journal is replayed all later ones, in order, and
/// no other.
pub proof fn a_replay_misses_nothing(session: LiveView, seen: int)
    requires
        session.numbered(),
        0 <= seen < session.journal.len(),
    ensures
        entries_after(session.journal, Some(session.journal[seen].sequence))
            == session.journal.skip(seen + 1),
        entries_after(session.journal, None) == session.journal,
{
    later_entries(session.journal, seen);
    all_entries(session.journal);
}

proof fn later_entries(journal: Seq<Arc<SequencedSessionEvent>>, seen: int)
    requires
        0 <= seen < journal.len(),
        forall|i: int, j: int|
            0 <= i < j < journal.len() ==> (#[trigger] journal[i]).sequence < (
            #[trigger] journal[j]).sequence,
    ensures
        entries_after(journal, Some(journal[seen].sequence)) == journal.skip(seen + 1),
    decreases journal.len(),
{
    let after = journal[seen].sequence;
    let rest = journal.drop_last();
    if seen == journal.len() - 1 {
        no_later_entries(rest, after);
        assert(journal.skip(seen + 1) =~= Seq::empty());
    } else {
        later_entries(rest, seen);
        assert(journal[seen].sequence < journal[journal.len() - 1].sequence);
        assert(rest.skip(seen + 1).push(journal.last()) =~= journal.skip(seen + 1));
    }
}

proof fn no_later_entries(journal: Seq<Arc<SequencedSessionEvent>>, after: u64)
    requires
        forall|i: int| 0 <= i < journal.len() ==> (#[trigger] journal[i]).sequence <= after,
    ensures
        entries_after(journal, Some(after)) == Seq::<Arc<SequencedSessionEvent>>::empty(),
    decreases journal.len(),
{
    if journal.len() > 0 {
        assert(journal[journal.len() - 1].sequence <= after);
        no_later_entries(journal.drop_last(), after);
    }
}

proof fn all_entries(journal: Seq<Arc<SequencedSessionEvent>>)
    ensures
        entries_after(journal, None) == journal,
    decreases journal.len(),
{
    if journal.len() > 0 {
        all_entries(journal.drop_last());
        assert(journal.drop_last().push(journal.last()) =~= journal);
    }
}

/// The live sessions of a process, in the order in which they were opened.
#[derive(Debug)]
pub struct SessionRuntimeRegistry {
    pub entries: Vec<LiveSession>,
}

pub open spec fn live_views(entries: Seq<LiveSession>) -> Seq<LiveView> {
    entries.map_values(|session: LiveSession| session@)
}

impl View for SessionRuntimeRegistry {
    type V = Seq<LiveView>;

    open spec fn view(&self) -> Seq<LiveView> {
        live_views(self.entries@)
    }
}

/// Place of the session, or the number of sessions where it is not open.
pub open spec fn place_of(sessions: Seq<LiveView>, key: Seq<char>) -> int
    decreases sessions.len(),
{
    if sessions.len() == 0 {
        0
    } else if sessions[0].key() == key {
        0
    } else {
        1 + place_of(sessions.drop_first(), key)
    }
}

/// Whether the session is open.
pub open spec fn is_open(sessions: Seq<LiveView>, key: Seq<char>) -> bool {
    place_of(sessions, key) < sessions.len()
}

/// At most one entry per session, no more sessions than the cap, each of bounded size.
pub open spec fn registry_wf(sessions: Seq<LiveView>) -> bool {
    &&& sessions.len() <= MAX_LIVE_SESSIONS
    &&& forall|i: int| 0 <= i < sessions.len() ==> (#[trigger] sessions[i]).wf()
    &&& forall|i: int, j: int|
        0 <= i < j < sessions.len() ==> (#[trigger] sessions[i]).key() != (
        #[trigger] sessions[j]).key()
}

/// Where a session is found, it is; and none before it has the key.
pub proof fn place_of_is_first(sessions: Seq<LiveView>, key: Seq<char>)
    ensures
        ({
            let i = place_of(sessions, key);
            &&& 0 <= i <= sessions.len()
            &&& i < sessions.len() ==> sessions[i].key() == key
            &&& forall|j: int| 0 <= j < i ==> (#[trigger] sessions[j]).key() != key
        }),
    decreases sessions.len(),
{
    if sessions.len() > 0 {
        let rest = sessions.drop_first();
        place_of_is_first(rest, key);
        assert forall|j: int| 0 <= j < place_of(sessions, key) implies (
        #[trigger] sessions[j]).key() != key by {
            if j > 0 {
                assert(sessions[j] == rest[j - 1]);
            }
        }
        let i = place_of(sessions, key);
        if 0 < i < sessions.len() {
            assert(sessions[i] == rest[i - 1]);
        }
    }
}

proof fn place_of_found(sessions: Seq<LiveView>, key: Seq<char>, i: int)
    requires
        0 <= i <= sessions.len(),
        forall|j: int| 0 <= j < i ==> (#[trigger] sessions[j]).key() != key,
        i < sessions.len() ==> sessions[i].key() == key,
    ensures
        place_of(sessions, key) == i,
{
    place_of_is_first(sessions, key);
    let p = place_of(sessions, key);
    if p < i {
        assert(sessions[p].key() != key);
    } else if i < p {
        assert(sessions[i].key() != key);
    }
}

/// The sessions with the one of the key replaced.
pub open spec fn with_session(
    sessions: Seq<LiveView>,
    key: Seq<char>,
    session: LiveView,
) -> Seq<LiveView> {
    sessions.update(place_of(sessions, key), session)
}

/// Replacing a session by one of the same key keeps the registry in order.
pub proof fn replacing_keeps_order(sessions: Seq<LiveView>, key: Seq<char>, session: LiveView)
    requires
        registry_wf(sessions),
        is_open(sessions, key),
        session.wf(),
        session.key() == key,
    ensures
        registry_wf(with_session(sessions, key, session)),
{
    place_of_is_first(sessions, key);
    let next = with_session(sessions, key, session);
    assert forall|i: int, j: int| 0 <= i < j < next.len() implies (#[trigger] next[i]).key() != (
    #[trigger] next[j]).key() by {
        assert(sessions[i].key() != sessions[j].key());
    }
}

/// Leaving a session out keeps the registry in order.
pub proof fn removing_keeps_order(sessions: Seq<LiveView>, at: int)
    requires
        registry_wf(sessions),
        0 <= at < sessions.len(),
    ensures
        registry_wf(sessions.remove(at)),
        !is_open(sessions.remove(at), sessions[at].key()),
{
    let rest = sessions.remove(at);
    assert forall|i: int| 0 <= i < rest.len() implies (#[trigger] rest[i]).wf() by {
        let x = if i < at {
            i
        } else {
            i + 1
        };
        assert(rest[i] == sessions[x]);
    }
    assert forall|i: int, j: int| 0 <= i < j < rest.len() implies (#[trigger] rest[i]).key() != (
    #[trigger] rest[j]).key() by {
        let x = if i < at {
            i
        } else {
            i + 1
        };
        let y = if j < at {
            j
        } else {
            j + 1
        };
        assert(rest[i] == sessions[x] && rest[j] == sessions[y]);
    }
    let key = sessions[at].key();
    place_of_is_first(rest, key);
    let p = place_of(rest, key);
    if p < rest.len() {
        let x = if p < at {
            p
        } else {
            p + 1
        };
        assert(rest[p] == sessions[x]);
        if x < at {
            assert(sessions[x].key() != sessions[at].key());
        } else {
            assert(sessions[at].key() != sessions[x].key());
        }
    }
}

/// A session that left the registry, and whether its runner is to be shut down.
#[derive(Clone, Debug, PartialEq, Eq)]
pub struct Removal {
    pub removed: bool,
    pub shut_down: bool,
}

impl SessionRuntimeRegistry {
    pub fn new() -> (registry: Self)
        ensures
            registry@ == Seq::<LiveView>::empty(),
            registry_wf(registry@),
    {
        let registry = SessionRuntimeRegistry { entries: Vec::new() };
        assert(registry@ =~= Seq::empty());
        registry
    }

    fn find(&self, key: &str) -> (place: usize)
        ensures
            place == place_of(self@, key@),
            place <= self@.len(),
            self@.len() == self.entries@.len(),
    {
        let mut i: usize = 0;
        while i < self.entries.len()
            invariant
                0 <= i <= self.entries.len(),
                self@.len() == self.entries@.len(),
                forall|j: int| 0 <= j < i ==> (#[trigger] self@[j]).key() != key@,
            decreases self.entries.len() - i,
        {
            assert(self@[i as int] == self.entries@[i as int]@);
            if same_text(self.entries[i].meta.session_id.as_str(), key) {
                proof {
                    place_of_found(self@, key@, i as int);
                }
                return i;
            }
            i = i + 1;
        }
        proof {
            place_of_found(self@, key@, i as int);
        }
        i
    }

    fn take_out(&mut self, place: usize) -> (session: LiveSession)
        requires
            place < old(self)@.len(),
        ensures
            session@ == old(self)@[place as int],
            final(self)@ == old(self)@.remove(place as int),
    {
        let session = self.entries.remove(place);
        assert(self@ =~= old(self)@.remove(place as int));
        session
    }

    fn put_in(&mut self, place: usize, session: LiveSession)
        requires
            place <= old(self)@.len(),
        ensures
            final(self)@ == old(self)@.insert(place as int, session@),
    {
        self.entries.insert(place, session);
        assert(self@ =~= old(self)@.insert(place as int, session@));
    }

    /// The record of a session.
    pub fn lookup(&self, key: &str) -> (entry: Option<SessionRuntimeEntry>)
        ensures
            entry == if is_open(self@, key@) {
                Some(self@[place_of(self@, key@)].meta)
            } else {
                None
            },
    {
        let place: usize = self.find(key);
        if place < self.entries.len() {
            Some(self.entries[place].meta.duplicate())
        } else {
            None
        }
    }

    pub fn activity(&self, key: &str) -> (activity: Option<RuntimeActivity>)
        ensures
            activity == if is_open(self@, key@) {
                Some(self@[place_of(self@, key@)].meta.activity)
            } else {
                None
            },
    {
        let place: usize = self.find(key);
        if place < self.entries.len() {
            Some(self.entries[place].meta.activity)
        } else {
            None
        }
    }

    pub fn live_count(&self) -> (count: usize)
        ensures
            count == self@.len(),
    {
        self.entries.len()
    }

    /// The sessions of a directory, each with its activity. Directories are compared as std
    /// compares paths.
    pub fn list_activity(&self, working_dir: &str) -> (list: Vec<(SessionKey, RuntimeActivity)>)
        ensures
            exists|picks: Seq<bool>| #[trigger]
                picks_directory(self@, working_dir@, picks) && list@ == activities_picked(
                    self@,
                    picks,
                ),
    {
        let mut picks: Vec<bool> = Vec::new();
        let mut i: usize = 0;
        while i < self.entries.len()
            invariant
                0 <= i <= self.entries.len(),
                self@.len() == self.entries@.len(),
                picks@.len() == i,
                forall|j: int|
                    0 <= j < i ==> path_verdict(
                        self@[j].meta.working_dir@,
                        working_dir@,
                        #[trigger] picks@[j],
                    ),
            decreases self.entries.len() - i,
        {
            assert(self@[i as int] == self.entries@[i as int]@);
            picks.push(same_path(self.entries[i].meta.working_dir.as_str(), working_dir));
            i = i + 1;
        }
        assert(picks_directory(self@, working_dir@, picks@));
        self.list_picked(&picks)
    }

    /// The sessions that were picked, each with its activity.
    pub fn list_picked(&self, picks: &Vec<bool>) -> (list: Vec<(SessionKey, RuntimeActivity)>)
        requires
            picks@.len() == self@.len(),
        ensures
            list@ == activities_picked(self@, picks@),
    {
        let mut list: Vec<(SessionKey, RuntimeActivity)> = Vec::new();
        let mut i: usize = 0;
        while i < self.entries.len()
            invariant
                0 <= i <= self.entries.len(),
                self@.len() == self.entries@.len(),
                picks@.len() == self@.len(),
                list@ == activities_picked(self@.take(i as int), picks@),
            decreases self.entries.len() - i,
        {
            proof {
                assert(self@.take(i + 1).drop_last() =~= self@.take(i as int));
                assert(self@.take(i + 1).last() == self.entries@[i as int]@);
            }
            if picks[i] {
                list.push(
                    (self.entries[i].meta.session_id.clone(), self.entries[i].meta.activity),
                );
            }
            i = i + 1;
        }
        assert(self@.take(i as int) =~= self@);
        list
    }

    /// The records of all sessions.
    pub fn list_all(&self) -> (list: Vec<SessionRuntimeEntry>)
        ensures
            list@ == self@.map_values(|session: LiveView| session.meta),
    {
        let mut list: Vec<SessionRuntimeEntry> = Vec::new();
        let mut i: usize = 0;
        while i < self.entries.len()
            invariant
                0 <= i <= self.entries.len(),
                self@.len() == self.entries@.len(),
                list@ == self@.map_values(|session: LiveView| session.meta).take(i as int),
            decreases self.entries.len() - i,
        {
            list.push(self.entries[i].meta.duplicate());
            assert(list@ =~= self@.map_values(|session: LiveView| session.meta).take(i + 1));
            i = i + 1;
        }
        assert(list@ =~= self@.map_values(|session: LiveView| session.meta));
        list
    }

    /// Sessions whose bound runner is in a turn. A row without a runner is only a view.
    pub fn live_turn_session_ids(&self) -> (ids: Vec<SessionKey>)
        ensures
            ids@ == ids_in_turn(self@),
    {
        let mut ids: Vec<SessionKey> = Vec::new();
        let mut i: usize = 0;
        while i < self.entries.len()
            invariant
                0 <= i <= self.entries.len(),
                self@.len() == self.entries@.len(),
                ids@ == ids_in_turn(self@.take(i as int)),
            decreases self.entries.len() - i,
        {
            proof {
                assert(self@.take(i + 1).drop_last() =~= self@.take(i as int));
                assert(self@.take(i + 1).last() == self.entries@[i as int]@);
            }
            if self.entries[i].bound && self.entries[i].meta.activity.is_live_turn() {
                ids.push(self.entries[i].meta.session_id.clone());
            }
            i = i + 1;
        }
        assert(self@.take(i as int) =~= self@);
        ids
    }

    /// Opens a session, or attaches to it where it is open. A session is open at most once.
    pub fn open_or_attach(&mut self, session_id: SessionKey, working_dir: String) -> (result: Result<
        (OpenOutcome, SessionRuntimeEntry),
        RegistryError,
    >)
        requires
            registry_wf(old(self)@),
        ensures
            registry_wf(final(self)@),
            if is_open(old(self)@, session_id@) {
                &&& final(self)@ == old(self)@
                &&& result == Ok::<(OpenOutcome, SessionRuntimeEntry), RegistryError>(
                    (
                        OpenOutcome::Attached,
                        old(self)@[place_of(old(self)@, session_id@)].meta,
                    ),
                )
            } else if old(self)@.len() >= MAX_LIVE_SESSIONS {
                &&& final(self)@ == old(self)@
                &&& result == Err::<(OpenOutcome, SessionRuntimeEntry), RegistryError>(
                    RegistryError::LiveLimit { max: MAX_LIVE_SESSIONS },
                )
            } else {
                &&& final(self)@ == old(self)@.push(LiveView::fresh(session_id, working_dir))
                &&& result == Ok::<(OpenOutcome, SessionRuntimeEntry), RegistryError>(
                    (OpenOutcome::Registered, LiveView::fresh(session_id, working_dir).meta),
                )
            },
    {
        let place: usize = self.find(session_id.as_str());
        if place < self.entries.len() {
            return Ok((OpenOutcome::Attached, self.entries[place].meta.duplicate()));
        }
        if self.entries.len() >= MAX_LIVE_SESSIONS {
            return Err(RegistryError::LiveLimit { max: MAX_LIVE_SESSIONS });
        }
        let ghost key = session_id@;
        let session = LiveSession::new(session_id, working_dir);
        let meta = session.meta.duplicate();
        self.entries.push(session);
        proof {
            let before = old(self)@;
            assert(self@ =~= before.push(session@));
            place_of_is_first(before, key);
            assert forall|i: int, j: int| 0 <= i < j < self@.len() implies (
            #[trigger] self@[i]).key() != (#[trigger] self@[j]).key() by {
                if j == before.len() {
                    assert(before[i].key() != key);
                } else {
                    assert(before[i].key() != before[j].key());
                }
            }
        }
        Ok((OpenOutcome::Registered, meta))
    }

    /// Binds a runner to the session. Tells whether the session is open, with the entry to
    /// fan out.
    pub fn bind_handle(&mut self, key: &str, runtime_id: Option<u64>) -> (result: (bool, Option<
        Arc<SequencedSessionEvent>,
    >))
        requires
            registry_wf(old(self)@),
        ensures
            registry_wf(final(self)@),
            result.0 == is_open(old(self)@, key@),
            ({
                let session = old(self)@[place_of(old(self)@, key@)];
                let after = session.bound_to(runtime_id);
                &&& final(self)@ == if result.0 {
                    with_session(old(self)@, key@, after)
                } else {
                    old(self)@
                }
                &&& result.1 == if result.0 && session.wakes_when_bound() {
                    Some(after.journal.last())
                } else {
                    None
                }
            }),
    {
        let place: usize = self.find(key);
        if place == self.entries.len() {
            return (false, None);
        }
        proof {
            place_of_is_first(self@, key@);
            replacing_keeps_order(self@, key@, self@[place as int].bound_to(runtime_id));
        }
        let mut session = self.take_out(place);
        let entry = session.bind(runtime_id);
        self.put_in(place, session);
        assert(self@ =~= with_session(old(self)@, key@, session@));
        (true, entry)
    }

    /// Sets the activity of a session.
    pub fn set_activity(&mut self, key: &str, activity: RuntimeActivity) -> (entry: Option<
        Arc<SequencedSessionEvent>,
    >)
        requires
            registry_wf(old(self)@),
        ensures
            registry_wf(final(self)@),
            ({
                let after = old(self)@[place_of(old(self)@, key@)].pushed(activity, None, None);
                if is_open(old(self)@, key@) {
                    &&& final(self)@ == with_session(old(self)@, key@, after)
                    &&& entry == Some(after.journal.last())
                } else {
                    entry is None && final(self)@ == old(self)@
                }
            }),
    {
        let place: usize = self.find(key);
        if place == self.entries.len() {
            return None;
        }
        proof {
            place_of_is_first(self@, key@);
            replacing_keeps_order(self@, key@, self@[place as int].pushed(activity, None, None));
        }
        let mut session = self.take_out(place);
        let entry = session.push(activity, None, None);
        self.put_in(place, session);
        assert(self@ =~= with_session(old(self)@, key@, session@));
        Some(entry)
    }

    /// Keeps the last snapshot of a session.
    pub fn set_snapshot(&mut self, key: &str, snapshot: Arc<SessionSnapshot>) -> (known: bool)
        requires
            registry_wf(old(self)@),
        ensures
            registry_wf(final(self)@),
            known == is_open(old(self)@, key@),
            ({
                let session = old(self)@[place_of(old(self)@, key@)];
                final(self)@ == if known {
                    with_session(
                        old(self)@,
                        key@,
                        LiveView {
                            meta: SessionRuntimeEntry { snapshot: Some(snapshot), ..session.meta },
                            ..session
                        },
                    )
                } else {
                    old(self)@
                }
            }),
    {
        let place: usize = self.find(key);
        if place == self.entries.len() {
            return false;
        }
        proof {
            place_of_is_first(self@, key@);
            let session = self@[place as int];
            replacing_keeps_order(
                self@,
                key@,
                LiveView {
                    meta: SessionRuntimeEntry { snapshot: Some(snapshot), ..session.meta },
                    ..session
                },
            );
        }
        let mut session = self.take_out(place);
        session.meta.snapshot = Some(snapshot);
        self.put_in(place, session);
        assert(self@ =~= with_session(old(self)@, key@, session@));
        true
    }

    pub fn snapshot(&self, key: &str) -> (snapshot: Option<Arc<SessionSnapshot>>)
        ensures
            snapshot == if is_open(self@, key@) {
                self@[place_of(self@, key@)].meta.snapshot
            } else {
                None
            },
    {
        let place: usize = self.find(key);
        if place < self.entries.len() {
            match &self.entries[place].meta.snapshot {
                Some(kept) => Some(share(kept)),
                None => None,
            }
        } else {
            None
        }
    }

    pub fn pending_request_id(&self, key: &str) -> (id: Option<RequestId>)
        ensures
            id == if is_open(self@, key@) {
                self@[place_of(self@, key@)].pending_request_id
            } else {
                None
            },
    {
        let place: usize = self.find(key);
        if place < self.entries.len() {
            self.entries[place].pending_request_id
        } else {
            None
        }
    }

    /// Notes the request that a session waits for, or that it waits for none.
    pub fn set_pending_request(&mut self, key: &str, id: Option<RequestId>) -> (result: (
        bool,
        Option<Arc<SequencedSessionEvent>>,
    ))
        requires
            registry_wf(old(self)@),
        ensures
            registry_wf(final(self)@),
            result.0 == is_open(old(self)@, key@),
            ({
                let after = old(self)@[place_of(old(self)@, key@)].with_pending(id);
                &&& final(self)@ == if result.0 {
                    with_session(old(self)@, key@, after)
                } else {
                    old(self)@
                }
                &&& result.1 == if result.0 && id is Some {
                    Some(after.journal.last())
                } else {
                    None
                }
            }),
    {
        let place: usize = self.find(key);
        if place == self.entries.len() {
            return (false, None);
        }
        proof {
            place_of_is_first(self@, key@);
            replacing_keeps_order(self@, key@, self@[place as int].with_pending(id));
        }
        let mut session = self.take_out(place);
        let entry = session.set_pending(id);
        self.put_in(place, session);
        assert(self@ =~= with_session(old(self)@, key@, session@));
        (true, entry)
    }

    /// Whether a command for the session can be handed to its runner.
    pub fn route(&self, key: &str) -> (result: Result<(), RegistryError>)
        ensures
            if !is_open(self@, key@) {
                result matches Err(RegistryError::UnknownSession { session_id }) && session_id@
                    == key@
            } else if !self@[place_of(self@, key@)].bound {
                result matches Err(RegistryError::HandleNotReady { session_id }) && session_id@
                    == key@
            } else {
                result == Ok::<(), RegistryError>(())
            },
    {
        let place: usize = self.find(key);
        if place == self.entries.len() {
            return Err(RegistryError::UnknownSession { session_id: key.to_owned() });
        }
        if !self.entries[place].bound {
            return Err(RegistryError::HandleNotReady { session_id: key.to_owned() });
        }
        Ok(())
    }

    /// A command was handed to the runner of the session, or the runner did not take it.
    pub fn dispatch(&self, key: &str, delivered: bool) -> (result: Result<(), RegistryError>)
        ensures
            if !is_open(self@, key@) {
                result matches Err(RegistryError::UnknownSession { session_id }) && session_id@
                    == key@
            } else if !self@[place_of(self@, key@)].bound {
                result matches Err(RegistryError::HandleNotReady { session_id }) && session_id@
                    == key@
            } else if !delivered {
                result matches Err(RegistryError::Unavailable { session_id }) && session_id@ == key@
            } else {
                result == Ok::<(), RegistryError>(())
            },
    {
        match self.route(key) {
            Err(error) => Err(error),
            Ok(()) => if delivered {
                Ok(())
            } else {
                Err(RegistryError::Unavailable { session_id: key.to_owned() })
            },
        }
    }

    /// A turn was handed to the runner of the session: it runs now. Gives the entry to fan
    /// out.
    pub fn submit(&mut self, key: &str, delivered: bool) -> (result: Result<
        Option<Arc<SequencedSessionEvent>>,
        RegistryError,
    >)
        requires
            registry_wf(old(self)@),
        ensures
            registry_wf(final(self)@),
            if !is_open(old(self)@, key@) {
                &&& result matches Err(RegistryError::UnknownSession { session_id }) && session_id@
                    == key@
                &&& final(self)@ == old(self)@
            } else if !old(self)@[place_of(old(self)@, key@)].bound {
                &&& result matches Err(RegistryError::HandleNotReady { session_id }) && session_id@
                    == key@
                &&& final(self)@ == old(self)@
            } else if !delivered {
                &&& result matches Err(RegistryError::Unavailable { session_id }) && session_id@
                    == key@
                &&& final(self)@ == old(self)@
            } else {
                let after = old(self)@[place_of(old(self)@, key@)].pushed(
                    RuntimeActivity::Running,
                    None,
                    None,
                );
                &&& result == Ok::<Option<Arc<SequencedSessionEvent>>, RegistryError>(
                    Some(after.journal.last()),
                )
                &&& final(self)@ == with_session(old(self)@, key@, after)
            },
    {
        match self.dispatch(key, delivered) {
            Err(error) => Err(error),
            Ok(()) => Ok(self.set_activity(key, RuntimeActivity::Running)),
        }
    }

    /// An answer to a request was handed to the runner of the session: it waits no longer
    /// for that request.
    pub fn resolve_request(&mut self, key: &str, id: RequestId, delivered: bool) -> (result: Result<
        (),
        RegistryError,
    >)
        requires
            registry_wf(old(self)@),
        ensures
            registry_wf(final(self)@),
            if !is_open(old(self)@, key@) {
                &&& result matches Err(RegistryError::UnknownSession { session_id }) && session_id@
                    == key@
                &&& final(self)@ == old(self)@
            } else if !old(self)@[place_of(old(self)@, key@)].bound {
                &&& result matches Err(RegistryError::HandleNotReady { session_id }) && session_id@
                    == key@
                &&& final(self)@ == old(self)@
            } else if !delivered {
                &&& result matches Err(RegistryError::Unavailable { session_id }) && session_id@
                    == key@
                &&& final(self)@ == old(self)@
            } else {
                let session = old(self)@[place_of(old(self)@, key@)];
                &&& result == Ok::<(), RegistryError>(())
                &&& final(self)@ == with_session(
                    old(self)@,
                    key@,
                    LiveView {
                        pending_request_id: if session.pending_request_id == Some(id) {
                            None
                        } else {
                            session.pending_request_id
                        },
                        ..session
                    },
                )
            },
    {
        if let Err(error) = self.dispatch(key, delivered) {
            return Err(error);
        }
        let place: usize = self.find(key);
        proof {
            place_of_is_first(self@, key@);
            let session = self@[place as int];
            replacing_keeps_order(
                self@,
                key@,
                LiveView {
                    pending_request_id: if session.pending_request_id == Some(id) {
                        None
                    } else {
                        session.pending_request_id
                    },
                    ..session
                },
            );
        }
        let mut session = self.take_out(place);
        if let Some(pending) = session.pending_request_id {
            if pending == id {
                session.pending_request_id = None;
            }
        }
        self.put_in(place, session);
        assert(self@ =~= with_session(old(self)@, key@, session@));
        Ok(())
    }

    /// Takes an observation of the runner of a session in. Gives the entry to fan out; there
    /// is none for a session that is not open, nor for an echo.
    pub fn push_runtime_event(
        &mut self,
        key: &str,
        generation: u64,
        event: CodingRuntimeEvent,
        user_input_kind: &str,
    ) -> (entry: Option<Arc<SequencedSessionEvent>>)
        requires
            registry_wf(old(self)@),
        ensures
            registry_wf(final(self)@),
            if is_open(old(self)@, key@) {
                let session = old(self)@[place_of(old(self)@, key@)];
                let after = session.observed(generation, event, user_input_kind@);
                &&& final(self)@ == with_session(old(self)@, key@, after)
                &&& entry is None <==> session.settled(event).echoes(event)
                &&& entry matches Some(written) ==> written == after.journal.last()
            } else {
                entry is None && final(self)@ == old(self)@
            },
    {
        let place: usize = self.find(key);
        if place == self.entries.len() {
            return None;
        }
        proof {
            place_of_is_first(self@, key@);
            sessions_stay_bounded(
                self@[place as int],
                generation,
                event,
                user_input_kind@,
                SessionViewEvent::CommandOutput(self@[place as int].meta.session_id),
                RuntimeActivity::Ready,
            );
            replacing_keeps_order(
                self@,
                key@,
                self@[place as int].observed(generation, event, user_input_kind@),
            );
        }
        let mut session = self.take_out(place);
        let entry = session.observe(generation, event, user_input_kind);
        self.put_in(place, session);
        assert(self@ =~= with_session(old(self)@, key@, session@));
        entry
    }

    /// Takes an event of a view in. Gives the entry to fan out.
    pub fn push_view_event(&mut self, key: &str, view: SessionViewEvent) -> (entry: Option<
        Arc<SequencedSessionEvent>,
    >)
        requires
            registry_wf(old(self)@),
        ensures
            registry_wf(final(self)@),
            if is_open(old(self)@, key@) {
                let after = old(self)@[place_of(old(self)@, key@)].viewed(view);
                &&& final(self)@ == with_session(old(self)@, key@, after)
                &&& entry matches Some(written) && written == after.journal.last()
            } else {
                entry is None && final(self)@ == old(self)@
            },
    {
        let place: usize = self.find(key);
        if place == self.entries.len() {
            return None;
        }
        proof {
            place_of_is_first(self@, key@);
            replacing_keeps_order(self@, key@, self@[place as int].viewed(view));
        }
        let mut session = self.take_out(place);
        let entry = session.take_view(view);
        self.put_in(place, session);
        assert(self@ =~= with_session(old(self)@, key@, session@));
        Some(entry)
    }

    /// Opens the session if need be, then takes the event of a view in. There is no entry
    /// only where the session cannot be opened.
    pub fn ensure_and_push_view(&mut self, key: SessionKey, working_dir: String, view: SessionViewEvent) -> (entry:
        Option<Arc<SequencedSessionEvent>>)
        requires
            registry_wf(old(self)@),
        ensures
            registry_wf(final(self)@),
            ({
                let opened = if is_open(old(self)@, key@) || old(self)@.len() >= MAX_LIVE_SESSIONS {
                    old(self)@
                } else {
                    old(self)@.push(LiveView::fresh(key, working_dir))
                };
                if is_open(old(self)@, key@) || old(self)@.len() < MAX_LIVE_SESSIONS {
                    let after = opened[place_of(opened, key@)].viewed(view);
                    &&& final(self)@ == with_session(opened, key@, after)
                    &&& entry matches Some(written) && written == after.journal.last()
                } else {
                    entry is None && final(self)@ == old(self)@
                }
            }),
    {
        let name = key.clone();
        let ghost dir = working_dir;
        let _ = self.open_or_attach(key, working_dir);
        proof {
            if !is_open(old(self)@, name@) && old(self)@.len() < MAX_LIVE_SESSIONS {
                let fresh = LiveView::fresh(key, dir);
                let opened = old(self)@.push(fresh);
                place_of_is_first(old(self)@, name@);
                assert forall|j: int| 0 <= j < old(self)@.len() implies (
                #[trigger] opened[j]).key() != name@ by {
                    assert(opened[j] == old(self)@[j]);
                }
                place_of_found(opened, name@, old(self)@.len() as int);
            }
        }
        self.push_view_event(name.as_str(), view)
    }

    fn find_runtime(&self, runtime_id: u64) -> (place: usize)
        ensures
            place == place_of_runtime(self@, runtime_id),
            place <= self@.len(),
            self@.len() == self.entries@.len(),
    {
        let mut i: usize = 0;
        while i < self.entries.len()
            invariant
                0 <= i <= self.entries.len(),
                self@.len() == self.entries@.len(),
                forall|j: int| 0 <= j < i ==> (#[trigger] self@[j]).meta.runtime_id != Some(
                    runtime_id,
                ),
            decreases self.entries.len() - i,
        {
            assert(self@[i as int] == self.entries@[i as int]@);
            if let Some(id) = self.entries[i].meta.runtime_id {
                if id == runtime_id {
                    proof {
                        place_of_runtime_found(self@, runtime_id, i as int);
                    }
                    return i;
                }
            }
            i = i + 1;
        }
        proof {
            place_of_runtime_found(self@, runtime_id, i as int);
        }
        i
    }

    /// The session of a transport id.
    pub fn session_id_for_runtime_id(&self, runtime_id: u64) -> (key: Option<SessionKey>)
        ensures
            key == if place_of_runtime(self@, runtime_id) < self@.len() {
                Some(self@[place_of_runtime(self@, runtime_id)].meta.session_id)
            } else {
                None
            },
    {
        let place: usize = self.find_runtime(runtime_id);
        if place < self.entries.len() {
            Some(self.entries[place].meta.session_id.clone())
        } else {
            None
        }
    }

    /// Takes an observation in that comes under a transport id.
    pub fn push_runtime_event_by_runtime_id(
        &mut self,
        runtime_id: u64,
        generation: u64,
        event: CodingRuntimeEvent,
        user_input_kind: &str,
    ) -> (entry: Option<Arc<SequencedSessionEvent>>)
        requires
            registry_wf(old(self)@),
        ensures
            registry_wf(final(self)@),
            ({
                let place = place_of_runtime(old(self)@, runtime_id);
                if place < old(self)@.len() {
                    let session = old(self)@[place];
                    let after = session.observed(generation, event, user_input_kind@);
                    &&& final(self)@ == old(self)@.update(place, after)
                    &&& entry is None <==> session.settled(event).echoes(event)
                    &&& entry matches Some(written) ==> written == after.journal.last()
                } else {
                    entry is None && final(self)@ == old(self)@
                }
            }),
    {
        let place: usize = self.find_runtime(runtime_id);
        if place == self.entries.len() {
            return None;
        }
        let key = self.entries[place].meta.session_id.clone();
        proof {
            assert(self@[place as int] == self.entries@[place as int]@);
            assert forall|j: int| 0 <= j < place implies (#[trigger] self@[j]).key() != key@ by {
                assert(self@[j].key() != self@[place as int].key());
            }
            place_of_found(self@, key@, place as int);
        }
        self.push_runtime_event(key.as_str(), generation, event, user_input_kind)
    }

    /// What a view that joins the session replays: the journal after the sequence that it
    /// has seen.
    pub fn subscribe(&self, key: &str, after_sequence: Option<u64>) -> (result: Result<
        Vec<Arc<SequencedSessionEvent>>,
        RegistryError,
    >)
        ensures
            if is_open(self@, key@) {
                result matches Ok(replay) && replay@ == entries_after(
                    self@[place_of(self@, key@)].journal,
                    after_sequence,
                )
            } else {
                result matches Err(RegistryError::UnknownSession { session_id }) && session_id@
                    == key@
            },
    {
        let place: usize = self.find(key);
        if place == self.entries.len() {
            return Err(RegistryError::UnknownSession { session_id: key.to_owned() });
        }
        Ok(replay_after(&self.entries[place].journal, after_sequence))
    }

    /// The same for a session that is opened if need be.
    pub fn subscribe_or_empty(
        &mut self,
        key: &str,
        working_dir: String,
        after_sequence: Option<u64>,
    ) -> (result: Result<Vec<Arc<SequencedSessionEvent>>, RegistryError>)
        requires
            registry_wf(old(self)@),
        ensures
            registry_wf(final(self)@),
            if is_open(old(self)@, key@) {
                &&& final(self)@ == old(self)@
                &&& result matches Ok(replay) && replay@ == entries_after(
                    old(self)@[place_of(old(self)@, key@)].journal,
                    after_sequence,
                )
            } else if old(self)@.len() >= MAX_LIVE_SESSIONS {
                &&& final(self)@ == old(self)@
                &&& result == Err::<Vec<Arc<SequencedSessionEvent>>, RegistryError>(
                    RegistryError::LiveLimit { max: MAX_LIVE_SESSIONS },
                )
            } else {
                &&& result matches Ok(replay) && replay@.len() == 0
                &&& final(self)@.len() == old(self)@.len() + 1
                &&& final(self)@.drop_last() == old(self)@
                &&& final(self)@.last() == LiveView::fresh(
                    final(self)@.last().meta.session_id,
                    working_dir,
                )
                &&& final(self)@.last().key() == key@
            },
    {
        match self.subscribe(key, after_sequence) {
            Ok(replay) => Ok(replay),
            Err(_) => {
                let name = key.to_owned();
                match self.open_or_attach(name, working_dir) {
                    Err(error) => Err(error),
                    Ok(_) => {
                        assert(self@.drop_last() =~= old(self)@);
                        Ok(Vec::new())
                    },
                }
            },
        }
    }

    /// Lets an idle session go.
    pub fn release_if_idle(&mut self, key: &str) -> (removal: Removal)
        requires
            registry_wf(old(self)@),
        ensures
            registry_wf(final(self)@),
            ({
                let place = place_of(old(self)@, key@);
                if is_open(old(self)@, key@) && old(self)@[place].meta.activity.idle_releasable() {
                    &&& removal == (Removal { removed: true, shut_down: old(self)@[place].bound })
                    &&& final(self)@ == old(self)@.remove(place)
                } else {
                    &&& removal == (Removal { removed: false, shut_down: false })
                    &&& final(self)@ == old(self)@
                }
            }),
    {
        let place: usize = self.find(key);
        if place < self.entries.len() && self.entries[place].meta.activity.is_idle_releasable() {
            proof {
                removing_keeps_order(self@, place as int);
            }
            let session = self.take_out(place);
            return Removal { removed: true, shut_down: session.bound };
        }
        Removal { removed: false, shut_down: false }
    }

    /// Lets a session go, whatever it does.
    pub fn force_remove(&mut self, key: &str) -> (removal: Removal)
        requires
            registry_wf(old(self)@),
        ensures
            registry_wf(final(self)@),
            ({
                let place = place_of(old(self)@, key@);
                if is_open(old(self)@, key@) {
                    &&& removal == (Removal { removed: true, shut_down: old(self)@[place].bound })
                    &&& final(self)@ == old(self)@.remove(place)
                } else {
                    &&& removal == (Removal { removed: false, shut_down: false })
                    &&& final(self)@ == old(self)@
                }
            }),
    {
        let place: usize = self.find(key);
        if place < self.entries.len() {
            proof {
                removing_keeps_order(self@, place as int);
            }
            let session = self.take_out(place);
            return Removal { removed: true, shut_down: session.bound };
        }
        Removal { removed: false, shut_down: false }
    }

    /// Lets a session go and leaves its runner alone.
    pub fn detach(&mut self, key: &str) -> (removed: bool)
        requires
            registry_wf(old(self)@),
        ensures
            registry_wf(final(self)@),
            removed == is_open(old(self)@, key@),
            final(self)@ == if removed {
                old(self)@.remove(place_of(old(self)@, key@))
            } else {
                old(self)@
            },
    {
        self.force_remove(key).removed
    }

    /// Lets every session go. Gives those whose runners are to be shut down.
    pub fn shutdown_all(&mut self) -> (bound: Vec<SessionKey>)
        ensures
            bound@ == bound_ids(old(self)@),
            final(self)@ == Seq::<LiveView>::empty(),
            registry_wf(final(self)@),
    {
        let mut bound: Vec<SessionKey> = Vec::new();
        let mut i: usize = 0;
        while i < self.entries.len()
            invariant
                0 <= i <= self.entries.len(),
                self@ == old(self)@,
                self@.len() == self.entries@.len(),
                bound@ == bound_ids(self@.take(i as int)),
            decreases self.entries.len() - i,
        {
            proof {
                assert(self@.take(i + 1).drop_last() =~= self@.take(i as int));
                assert(self@.take(i + 1).last() == self.entries@[i as int]@);
            }
            if self.entries[i].bound {
                bound.push(self.entries[i].meta.session_id.clone());
            }
            i = i + 1;
        }
        assert(self@.take(i as int) =~= self@);
        self.entries.clear();
        assert(self@ =~= Seq::empty());
        bound
    }

    /// Lets the idle sessions go that the driver no longer tracks. Gives those whose runners
    /// are to be shut down.
    pub fn retain_sessions(&mut self, keep: &Vec<SessionKey>) -> (bound: Vec<SessionKey>)
        requires
            registry_wf(old(self)@),
        ensures
            registry_wf(final(self)@),
            final(self)@ == retained(old(self)@, texts(keep@)),
            bound@ == bound_ids(released(old(self)@, texts(keep@))),
    {
        let mut bound: Vec<SessionKey> = Vec::new();
        let mut i: usize = 0;
        let ghost all = self@;
        proof {
            assert(all.skip(0) =~= all);
            assert(Seq::<LiveView>::empty() + retained(all, texts(keep@)) =~= retained(
                all,
                texts(keep@),
            ));
        }
        let ghost mut seen: int = 0;
        let ghost mut gone: Seq<LiveView> = Seq::empty();
        assert(self@.take(0) =~= Seq::empty());
        assert(all.skip(0) =~= self@.skip(0));
        assert(gone + released(all, texts(keep@)) =~= released(all, texts(keep@)));
        assert(self@.take(0) + retained(all, texts(keep@)) =~= retained(all, texts(keep@)));
        while i < self.entries.len()
            invariant
                0 <= i <= self.entries.len(),
                self@.len() == self.entries@.len(),
                0 <= seen <= all.len(),
                registry_wf(self@),
                self@.skip(i as int) == all.skip(seen),
                self@.take(i as int) + retained(all.skip(seen), texts(keep@)) == retained(
                    all,
                    texts(keep@),
                ),
                gone + released(all.skip(seen), texts(keep@)) == released(all, texts(keep@)),
                bound@ == bound_ids(gone),
            decreases self.entries.len() - i,
        {
            let ghost rest = all.skip(seen);
            proof {
                assert(self@.skip(i as int)[0] == self@[i as int]);
                assert(rest[0] == self@[i as int]);
                assert(rest.drop_first() =~= all.skip(seen + 1));
                assert(self@[i as int] == self.entries@[i as int]@);
            }
            let stale = !lists(keep, self.entries[i].meta.session_id.as_str())
                && self.entries[i].meta.activity.is_idle_releasable();
            if stale {
                proof {
                    removing_keeps_order(self@, i as int);
                }
                let ghost before = self@;
                let ghost gone_before = gone;
                let session = self.take_out(i);
                if session.bound {
                    bound.push(session.meta.session_id);
                }
                proof {
                    gone = gone.push(rest[0]);
                    assert(gone.drop_last() =~= gone_before);
                    assert(self@.skip(i as int) =~= before.skip(i + 1));
                    assert(before.skip(i + 1) =~= before.skip(i as int).drop_first());
                    assert(self@.take(i as int) =~= before.take(i as int));
                    assert(gone + released(all.skip(seen + 1), texts(keep@)) =~= gone_before
                        + released(rest, texts(keep@)));
                    seen = seen + 1;
                }
            } else {
                proof {
                    assert(self@.take(i + 1) =~= self@.take(i as int).push(rest[0]));
                    assert(self@.skip(i + 1) =~= self@.skip(i as int).drop_first());
                    assert(self@.take(i + 1) + retained(all.skip(seen + 1), texts(keep@))
                        =~= self@.take(i as int) + retained(rest, texts(keep@)));
                    seen = seen + 1;
                }
                i = i + 1;
            }
        }
        proof {
            assert(self@.skip(i as int).len() == 0);
            assert(all.skip(seen).len() == 0);
            assert(self@.take(i as int) =~= self@);
            assert(self@ + retained(all.skip(seen), texts(keep@)) =~= self@);
            assert(gone + released(all.skip(seen), texts(keep@)) =~= gone);
        }
        bound
    }
}

/// The picks for a directory: those whose directory is the one asked for, as far as the
/// comparison of paths can say.
pub open spec fn picks_directory(
    sessions: Seq<LiveView>,
    working_dir: Seq<char>,
    picks: Seq<bool>,
) -> bool {
    &&& picks.len() == sessions.len()
    &&& forall|i: int|
        0 <= i < sessions.len() ==> path_verdict(
            sessions[i].meta.working_dir@,
            working_dir,
            #[trigger] picks[i],
        )
}

/// The picked sessions with their activities, in order.
pub open spec fn activities_picked(sessions: Seq<LiveView>, picks: Seq<bool>) -> Seq<
    (SessionKey, RuntimeActivity),
>
    decreases sessions.len(),
{
    if sessions.len() == 0 {
        Seq::empty()
    } else {
        let rest = activities_picked(sessions.drop_last(), picks);
        if picks[sessions.len() - 1] {
            rest.push((sessions.last().meta.session_id, sessions.last().meta.activity))
        } else {
            rest
        }
    }
}

/// Where all directories split the same way on every system, the sessions of a directory are
/// exactly those whose directory has the same components.
pub proof fn plain_directories_are_picked_by_components(
    sessions: Seq<LiveView>,
    working_dir: Seq<char>,
    picks: Seq<bool>,
)
    requires
        picks_directory(sessions, working_dir, picks),
        is_plain_path(working_dir),
        forall|i: int|
            0 <= i < sessions.len() ==> is_plain_path((#[trigger] sessions[i]).meta.working_dir@),
    ensures
        picks == Seq::new(
            sessions.len(),
            |i: int| is_same_path(sessions[i].meta.working_dir@, working_dir),
        ),
{
    let wanted = Seq::new(
        sessions.len(),
        |i: int| is_same_path(sessions[i].meta.working_dir@, working_dir),
    );
    assert forall|i: int| 0 <= i < sessions.len() implies picks[i] == wanted[i] by {
        assert(is_plain_path(sessions[i].meta.working_dir@));
        assert(path_verdict(sessions[i].meta.working_dir@, working_dir, picks[i]));
    }
    assert(picks =~= wanted);
}


/// The sessions whose bound runner is in a turn.
pub open spec fn ids_in_turn(sessions: Seq<LiveView>) -> Seq<SessionKey>
    decreases sessions.len(),
{
    if sessions.len() == 0 {
        Seq::empty()
    } else {
        let rest = ids_in_turn(sessions.drop_last());
        if sessions.last().bound && sessions.last().meta.activity.live_turn() {
            rest.push(sessions.last().meta.session_id)
        } else {
            rest
        }
    }
}

/// The sessions with a bound runner.
pub open spec fn bound_ids(sessions: Seq<LiveView>) -> Seq<SessionKey>
    decreases sessions.len(),
{
    if sessions.len() == 0 {
        Seq::empty()
    } else {
        let rest = bound_ids(sessions.drop_last());
        if sessions.last().bound {
            rest.push(sessions.last().meta.session_id)
        } else {
            rest
        }
    }
}

/// Whether the session stays when the driver tracks only the given ones.
pub open spec fn is_retained(session: LiveView, keep: Seq<Seq<char>>) -> bool {
    keep.contains(session.key()) || !session.meta.activity.idle_releasable()
}

/// The sessions that stay.
pub open spec fn retained(sessions: Seq<LiveView>, keep: Seq<Seq<char>>) -> Seq<LiveView>
    decreases sessions.len(),
{
    if sessions.len() == 0 {
        Seq::empty()
    } else {
        let rest = retained(sessions.drop_first(), keep);
        if is_retained(sessions[0], keep) {
            seq![sessions[0]] + rest
        } else {
            rest
        }
    }
}

/// The sessions that go.
pub open spec fn released(sessions: Seq<LiveView>, keep: Seq<Seq<char>>) -> Seq<LiveView>
    decreases sessions.len(),
{
    if sessions.len() == 0 {
        Seq::empty()
    } else {
        let rest = released(sessions.drop_first(), keep);
        if is_retained(sessions[0], keep) {
            rest
        } else {
            seq![sessions[0]] + rest
        }
    }
}

fn lists(keep: &Vec<SessionKey>, key: &str) -> (yes: bool)
    ensures
        yes == texts(keep@).contains(key@),
{
    let mut i: usize = 0;
    while i < keep.len()
        invariant
            0 <= i <= keep.len(),
            forall|j: int| 0 <= j < i ==> #[trigger] texts(keep@)[j] != key@,
        decreases keep.len() - i,
    {
        if same_text(keep[i].as_str(), key) {
            assert(texts(keep@)[i as int] == key@);
            return true;
        }
        i = i + 1;
    }
    false
}

/// The journal entries after a sequence, or all of them.
pub open spec fn entries_after(
    journal: Seq<Arc<SequencedSessionEvent>>,
    after_sequence: Option<u64>,
) -> Seq<Arc<SequencedSessionEvent>>
    decreases journal.len(),
{
    if journal.len() == 0 {
        Seq::empty()
    } else {
        let rest = entries_after(journal.drop_last(), after_sequence);
        match after_sequence {
            Some(after) if journal.last().sequence <= after => rest,
            _ => rest.push(journal.last()),
        }
    }
}

fn replay_after(journal: &VecDeque<Arc<SequencedSessionEvent>>, after_sequence: Option<u64>) -> (replay:
    Vec<Arc<SequencedSessionEvent>>)
    ensures
        replay@ == entries_after(journal@, after_sequence),
{
    let mut replay: Vec<Arc<SequencedSessionEvent>> = Vec::new();
    let mut i: usize = 0;
    while i < journal.len()
        invariant
            0 <= i <= journal.len(),
            replay@ == entries_after(journal@.take(i as int), after_sequence),
        decreases journal.len() - i,
    {
        proof {
            assert(journal@.take(i + 1).drop_last() =~= journal@.take(i as int));
            assert(journal@.take(i + 1).last() == journal@[i as int]);
        }
        let seen = match after_sequence {
            Some(after) => journal[i].sequence <= after,
            None => false,
        };
        if !seen {
            replay.push(share(&journal[i]));
        }
        i = i + 1;
    }
    assert(journal@.take(i as int) =~= journal@);
    replay
}

/// Place of the first session with the transport id, or the number of sessions.
pub open spec fn place_of_runtime(sessions: Seq<LiveView>, runtime_id: u64) -> int
    decreases sessions.len(),
{
    if sessions.len() == 0 {
        0
    } else if sessions[0].meta.runtime_id == Some(runtime_id) {
        0
    } else {
        1 + place_of_runtime(sessions.drop_first(), runtime_id)
    }
}

proof fn place_of_runtime_found(sessions: Seq<LiveView>, runtime_id: u64, i: int)
    requires
        0 <= i <= sessions.len(),
        forall|j: int| 0 <= j < i ==> (#[trigger] sessions[j]).meta.runtime_id != Some(runtime_id),
        i < sessions.len() ==> sessions[i].meta.runtime_id == Some(runtime_id),
    ensures
        place_of_runtime(sessions, runtime_id) == i,
    decreases sessions.len(),
{
    if i > 0 {
        let rest = sessions.drop_first();
        assert(sessions[0].meta.runtime_id != Some(runtime_id));
        assert forall|j: int| 0 <= j < i - 1 implies (#[trigger] rest[j]).meta.runtime_id != Some(
            runtime_id,
        ) by {
            assert(rest[j] == sessions[j + 1]);
        }
        place_of_runtime_found(rest, runtime_id, i - 1);
    }
}

} // verus!
