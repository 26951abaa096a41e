//! Replacing the agent on purpose: another provider, another session, an undo, a restored
//! conversation. The fallible work is done outside; here stands what it may start from, what
//! its success changes, and how the runtime comes back from its failure.
use super::stopping::StopReport;
use super::{bump, ActionView, OwnerAction, OwnerView, RuntimeOwner};
use crate::config::{target_session, CodingAgentConfig, SessionMode};
use crate::conversation::SessionSnapshot;
use crate::error::{NativePersistenceError, RuntimeError};
use crate::event::{
    CodingRuntimeEvent, EventView, ReconfigureKind, SessionChanged, StopReason, UndoResult,
    UserInput,
};
use crate::phase::{ProviderUnavailableReason, RuntimeGeneration, RuntimePhase};
use crate::text::{join2, join3, opt_text, share};
use std::sync::Arc;
use vstd::prelude::*;
use vstd::string::*;

verus! {

/// How a deactivation begins.
#[derive(Clone, Debug, PartialEq, Eq)]
pub enum DeactivateStart {
    Refused(RuntimeError),
    /// The provider is already gone for that reason.
    Already(RuntimeGeneration),
    /// The agent is being stopped.
    Stopping,
}

/// What the attempt to go back to the old agent came to.
#[derive(Clone, Debug, PartialEq, Eq)]
pub enum Rollback {
    /// There was no agent before.
    NoAgent,
    /// The old agent was built again.
    Rebuilt,
    /// It was not.
    Failed(String),
}

/// What becomes of the subagent providers of a new configuration.
#[derive(Clone, Copy, Debug, PartialEq, Eq, Structural)]
pub enum RoutingStep {
    /// There is no routing table.
    Nothing,
    /// The providers are built from the routing table.
    Install,
    /// The providers are kept and brought up to date once the new agent is in place.
    Refresh,
}

/// The routing table that a new configuration carries: its own, or else the current one.
pub open spec fn routing_of(next: CodingAgentConfig, current: CodingAgentConfig) -> Option<u64> {
    match next.subagent_config {
        Some(table) => Some(table),
        None => current.subagent_config,
    }
}

/// The subagent routing that a new configuration gets from the current one: it carries its
/// own table, or else the current one, and the subagent providers of the current one, whatever
/// its own were. Where there is a table and no provider, the providers are installed; where
/// there is one, they are brought up to date.
pub fn route_subagents(next: CodingAgentConfig, current: &CodingAgentConfig) -> (routed: (
    CodingAgentConfig,
    RoutingStep,
))
    ensures
        routed.0 == (CodingAgentConfig {
            subagent_config: routing_of(next, *current),
            subagent_fast_provider: current.subagent_fast_provider,
            subagent_capable_provider: current.subagent_capable_provider,
            ..next
        }),
        routed.1 == if routing_of(next, *current) is None {
            RoutingStep::Nothing
        } else if current.subagent_fast_provider is None
            && current.subagent_capable_provider is None {
            RoutingStep::Install
        } else {
            RoutingStep::Refresh
        },
{
    let mut next = next;
    if next.subagent_config.is_none() {
        next.subagent_config = current.subagent_config;
    }
    next.subagent_fast_provider = current.subagent_fast_provider;
    next.subagent_capable_provider = current.subagent_capable_provider;
    let step = if next.subagent_config.is_none() {
        RoutingStep::Nothing
    } else if next.subagent_fast_provider.is_none() && next.subagent_capable_provider.is_none() {
        RoutingStep::Install
    } else {
        RoutingStep::Refresh
    };
    (next, step)
}

/// An error with what went wrong on the way back, if anything did.
pub open spec fn with_restore_detail(error: Seq<char>, restore: Option<Seq<char>>) -> Seq<char> {
    match restore {
        Some(detail) => error + ("; snapshot restore failed: "@ + detail),
        None => error,
    }
}

fn restore_detail(error: &str, restore: &Option<String>) -> (text: String)
    ensures
        text@ == with_restore_detail(error@, opt_text(*restore)),
{
    match restore {
        Some(detail) => {
            let tail = join2("; snapshot restore failed: ", detail.as_str());
            join2(error, tail.as_str())
        },
        None => error.to_owned(),
    }
}

/// An error with what went wrong while cleaning up after it, if anything did.
pub open spec fn with_cleanup(error: Seq<char>, cleanup: Option<Seq<char>>) -> Seq<char> {
    match cleanup {
        Some(detail) => error + "; "@ + detail,
        None => error,
    }
}

/// What is told of a session health check that failed.
pub open spec fn health_detail(health: Option<Seq<char>>) -> Seq<char> {
    match health {
        Some(text) => "; canonical native session health check failed: "@ + text,
        None => Seq::empty(),
    }
}

impl OwnerView {
    /// Why the agent may not be replaced now, if it may not.
    pub open spec fn replace_refusal(self, generation: u64) -> Option<RuntimeError> {
        if generation != self.generation || self.compaction_suspended {
            Some(RuntimeError::Busy)
        } else if !self.has_resources {
            Some(RuntimeError::Unavailable)
        } else {
            None
        }
    }

    /// The runtime closes for the operation.
    pub open spec fn closed_for(self, operation: ReconfigureKind) -> OwnerView {
        self.in_phase(RuntimePhase::Reconfiguring).emit(
            EventView::Plain(CodingRuntimeEvent::Reconfiguring { operation }),
        )
    }

    /// The snapshot that a stopped agent left is the resume point of a runtime without a
    /// session.
    pub open spec fn keep_left(self, report: StopReport) -> OwnerView {
        OwnerView {
            outbox: if self.has_resources && !self.has_session && report.snapshot is Some {
                self.outbox.push(ActionView::KeepResume(report.snapshot->0))
            } else {
                self.outbox
            },
            ..self
        }
    }

    /// The agent has stopped for a replacement: its turn ends. Doubt about the stored session
    /// stops the runtime; else the snapshot that the agent left is kept.
    pub open spec fn stop_settled(
        self,
        report: StopReport,
        stored: Option<Arc<SessionSnapshot>>,
    ) -> OwnerView {
        let ended = self.finish_stopped(report, stored);
        match report.persistence_failure {
            Some(doubt) => ended.doubted(report, stored),
            None => ended.keep_left(report),
        }
    }

    /// A new agent of a new generation is in place.
    pub open spec fn adopted(self) -> OwnerView {
        OwnerView {
            agent_attached: true,
            agent_open: true,
            agent_available: true,
            provider_unavailable_reason: None,
            generation: bump(self.generation),
            observed_tokens: None,
            snapshot_in_flight: false,
            ..self
        }
    }

    /// There is no agent.
    pub open spec fn bereft(self) -> OwnerView {
        OwnerView { agent_attached: false, ..self.failed() }
    }

    /// The old agent is back, in the old generation.
    pub open spec fn back(self) -> OwnerView {
        OwnerView {
            agent_attached: true,
            agent_open: true,
            agent_available: true,
            provider_unavailable_reason: None,
            phase: RuntimePhase::Ready,
            ..self
        }
    }

    /// What the attempt to go back leaves; a failure is told with the given words.
    pub open spec fn rolled_back(self, rollback: Rollback, words: Seq<char>) -> OwnerView {
        match rollback {
            Rollback::NoAgent => self.bereft(),
            Rollback::Rebuilt => self.back(),
            Rollback::Failed(error) => self.bereft().emit(EventView::AgentError(words + error@)),
        }
    }

    /// The stored session is in doubt: nothing is tried any more.
    pub open spec fn fail_closed(self, reason: Seq<char>, words: Seq<char>) -> OwnerView {
        (OwnerView { persistence_failure: Some(reason), ..self.bereft() }).emit(
            EventView::AgentError(words),
        )
    }

    /// A prompt that a crash cut off is sent again to the agent just put in place.
    pub open spec fn replayed(self, prompt: Option<UserInput>) -> OwnerView {
        match prompt {
            Some(input) => self.prompt_replayed(input.text@, input.images@),
            None => self,
        }
    }
}

impl RuntimeOwner {
    /// Whether the agent may be replaced now.
    pub fn check_replace(&self, generation: u64) -> (result: Result<(), RuntimeError>)
        ensures
            result == match self@.replace_refusal(generation) {
                Some(error) => Err::<(), RuntimeError>(error),
                None => Ok(()),
            },
    {
        if generation != self.generation || self.compaction_suspended {
            return Err(RuntimeError::Busy);
        }
        if !self.has_resources {
            return Err(RuntimeError::Unavailable);
        }
        Ok(())
    }

    fn close_for(&mut self, operation: ReconfigureKind)
        ensures
            final(self)@ == old(self)@.closed_for(operation),
    {
        self.phase = RuntimePhase::Reconfiguring;
        self.emit(CodingRuntimeEvent::Reconfiguring { operation });
    }

    /// The provider was built: the current agent is stopped. Tells whether there was a
    /// usable one to go back to.
    pub fn begin_reassemble(&mut self) -> (had_agent: bool)
        ensures
            had_agent == old(self)@.agent_available,
            final(self)@ == old(self)@.closed_for(ReconfigureKind::Provider).ask_to_stop(true),
            old(self)@.wf() ==> final(self)@.wf(),
    {
        let had_agent = self.agent_available;
        self.close_for(ReconfigureKind::Provider);
        self.ask_to_stop(true);
        had_agent
    }

    fn keep_left(&mut self, report: &StopReport)
        ensures
            final(self)@ == old(self)@.keep_left(*report),
    {
        if self.has_resources && !self.has_session {
            if let Some(left) = &report.snapshot {
                self.push(OwnerAction::KeepResume(share(left)));
            }
        }
    }

    /// The current agent has stopped for a replacement: its turn ends. If the stored session
    /// is in doubt the runtime stops, and the error says so; else the snapshot that the
    /// agent left is kept.
    pub fn settle_stop(&mut self, report: &StopReport, stored: &Option<Arc<SessionSnapshot>>) -> (error:
        Option<RuntimeError>)
        ensures
            final(self)@ == old(self)@.stop_settled(*report, *stored),
            match report.persistence_failure {
                Some(doubt) => error matches Some(RuntimeError::ReconfigureFailed(message))
                    && message@ == super::stopping::uncertain_runtime_text(doubt@),
                None => error is None,
            },
            old(self)@.wf() ==> final(self)@.wf(),
    {
        self.finish_stopped_native_turn(report, stored);
        let error = self.heed_doubt(report, stored);
        if report.persistence_failure.is_none() {
            self.keep_left(report);
        }
        error
    }

    fn adopt(&mut self)
        ensures
            final(self)@ == old(self)@.adopted(),
    {
        self.agent_attached = true;
        self.agent_open = true;
        self.agent_available = true;
        self.provider_unavailable_reason = None;
        self.generation = self.generation.wrapping_add(1);
        self.observed_tokens = None;
        self.snapshot_in_flight = false;
    }

    fn replay_into_new(&mut self, prompt: Option<UserInput>) -> (delivered: bool)
        requires
            old(self)@.deliverable(),
        ensures
            delivered == (prompt is Some),
            final(self)@ == old(self)@.replayed(prompt),
    {
        match prompt {
            Some(input) => self.replay_pending_resume_prompt(input),
            None => false,
        }
    }

    /// The new agent of a provider change is in place. A prompt that a crash cut off is
    /// replayed. Gives the generation, and whether the prompt was delivered.
    pub fn commit_reassemble(
        &mut self,
        provider: String,
        model: String,
        prompt: Option<UserInput>,
    ) -> (committed: (RuntimeGeneration, bool))
        ensures
            committed.0 == RuntimeGeneration(bump(old(self)@.generation)),
            committed.1 == (prompt is Some),
            ({
                let replayed = (OwnerView {
                    compaction_suspended: false,
                    ..old(self)@.adopted()
                }).replayed(prompt);
                final(self)@ == replayed.in_phase(
                    if replayed.active_turn is None {
                        RuntimePhase::Ready
                    } else {
                        replayed.phase
                    },
                ).emit(
                    EventView::Plain(CodingRuntimeEvent::ProviderChanged { provider, model }),
                ).emit(
                    EventView::Plain(
                        CodingRuntimeEvent::Reconfigured { operation: ReconfigureKind::Provider },
                    ),
                )
            }),
            old(self)@.wf() ==> final(self)@.wf(),
    {
        self.adopt();
        self.compaction_suspended = false;
        let delivered = self.replay_into_new(prompt);
        if self.active_turn.is_none() {
            self.phase = RuntimePhase::Ready;
        }
        self.emit(CodingRuntimeEvent::ProviderChanged { provider, model });
        self.emit(CodingRuntimeEvent::Reconfigured { operation: ReconfigureKind::Provider });
        (RuntimeGeneration(self.generation), delivered)
    }

    fn lose_agent(&mut self)
        ensures
            final(self)@ == old(self)@.bereft(),
    {
        self.fail();
        self.agent_attached = false;
    }

    fn regain_agent(&mut self)
        ensures
            final(self)@ == old(self)@.back(),
    {
        self.agent_attached = true;
        self.agent_open = true;
        self.agent_available = true;
        self.provider_unavailable_reason = None;
        self.phase = RuntimePhase::Ready;
    }

    fn roll_back(&mut self, rollback: Rollback, words: &str)
        ensures
            final(self)@ == old(self)@.rolled_back(rollback, words@),
    {
        match rollback {
            Rollback::NoAgent => self.lose_agent(),
            Rollback::Rebuilt => self.regain_agent(),
            Rollback::Failed(error) => {
                self.lose_agent();
                let message = join2(words, error.as_str());
                self.emit_error(message.as_str());
            },
        }
    }

    /// The new agent of a provider change could not be assembled.
    pub fn abort_reassemble(&mut self, candidate_error: String, rollback: Rollback) -> (error:
        RuntimeError)
        ensures
            error == RuntimeError::ReconfigureFailed(candidate_error),
            final(self)@ == (OwnerView {
                provider_unavailable_reason: None,
                ..old(self)@
            }).rolled_back(rollback, "provider reconfigure rollback failed: "@),
            old(self)@.wf() ==> final(self)@.wf(),
    {
        self.provider_unavailable_reason = None;
        self.roll_back(rollback, "provider reconfigure rollback failed: ");
        RuntimeError::ReconfigureFailed(candidate_error)
    }

    /// The provider is to go away.
    pub fn begin_deactivate(&mut self, generation: u64, reason: ProviderUnavailableReason) -> (start:
        DeactivateStart)
        ensures
            if generation != old(self)@.generation || old(self)@.compaction_suspended {
                &&& start == DeactivateStart::Refused(RuntimeError::Busy)
                &&& final(self)@ == old(self)@
            } else if !old(self)@.agent_available && old(self)@.provider_unavailable_reason == Some(
                reason,
            ) {
                &&& start == DeactivateStart::Already(RuntimeGeneration(old(self)@.generation))
                &&& final(self)@ == old(self)@
            } else {
                &&& start == DeactivateStart::Stopping
                &&& final(self)@ == old(self)@.closed_for(
                    ReconfigureKind::Provider,
                ).cancel_controllers(
                    RuntimePhase::Reconfiguring,
                    "provider deactivated"@,
                ).ask_to_stop(true)
            },
            old(self)@.wf() ==> final(self)@.wf(),
    {
        if generation != self.generation || self.compaction_suspended {
            return DeactivateStart::Refused(RuntimeError::Busy);
        }
        if !self.agent_available {
            if let Some(current) = self.provider_unavailable_reason {
                if current == reason {
                    return DeactivateStart::Already(RuntimeGeneration(self.generation));
                }
            }
        }
        self.stop_for_deactivation();
        DeactivateStart::Stopping
    }

    fn stop_for_deactivation(&mut self)
        ensures
            final(self)@ == old(self)@.closed_for(ReconfigureKind::Provider).cancel_controllers(
                RuntimePhase::Reconfiguring,
                "provider deactivated"@,
            ).ask_to_stop(true),
            old(self)@.wf() ==> final(self)@.wf(),
    {
        self.close_for(ReconfigureKind::Provider);
        let _ = self.cancel_controllers_and_finish_held(
            RuntimePhase::Reconfiguring,
            "provider deactivated",
        );
        self.ask_to_stop(true);
    }

    /// The provider is gone. Gives the new generation.
    pub fn finish_deactivate(&mut self, reason: ProviderUnavailableReason, forced: bool) -> (generation:
        RuntimeGeneration)
        ensures
            generation == RuntimeGeneration(bump(old(self)@.generation)),
            final(self)@ == (OwnerView {
                generation: bump(old(self)@.generation),
                agent_available: false,
                provider_unavailable_reason: Some(reason),
                observed_tokens: None,
                snapshot_in_flight: false,
                phase: RuntimePhase::AwaitingProvider,
                ..old(self)@
            }).emit(
                EventView::Plain(CodingRuntimeEvent::ProviderUnavailable { reason, forced }),
            ),
            old(self)@.wf() ==> final(self)@.wf(),
    {
        self.generation = self.generation.wrapping_add(1);
        self.agent_available = false;
        self.provider_unavailable_reason = Some(reason);
        self.observed_tokens = None;
        self.snapshot_in_flight = false;
        self.phase = RuntimePhase::AwaitingProvider;
        self.emit(CodingRuntimeEvent::ProviderUnavailable { reason, forced });
        RuntimeGeneration(self.generation)
    }

    /// What drivers are told of the session that is in place now.
    pub fn session_changed(&self, session_id: Option<String>, working_dir: String) -> (changed:
        SessionChanged)
        ensures
            changed == (SessionChanged {
                generation: RuntimeGeneration(self@.generation),
                session_id,
                working_dir,
            }),
    {
        SessionChanged { generation: RuntimeGeneration(self.generation), session_id, working_dir }
    }

    /// Whether preparing for the target would take the session from under a turn in
    /// progress.
    pub fn check_reprepare(&self, current_session: &Option<String>, target: &SessionMode) -> (result:
        Result<(), RuntimeError>)
        ensures
            result == if self@.active_turn is Some && *current_session is Some && target_session(
                *target,
            ) == opt_text(*current_session) {
                Err::<(), RuntimeError>(RuntimeError::Busy)
            } else {
                Ok(())
            },
    {
        if self.active_turn.is_some() && crate::reprepare::reuses_session(current_session, target) {
            return Err(RuntimeError::Busy);
        }
        Ok(())
    }

    /// The runtime closes while its replacement is prepared. Gives the phase to go back to.
    pub fn begin_reprepare(&mut self, operation: ReconfigureKind) -> (previous: RuntimePhase)
        ensures
            previous == old(self)@.phase,
            final(self)@ == old(self)@.closed_for(operation),
            old(self)@.wf() ==> final(self)@.wf(),
    {
        let previous = self.phase;
        self.close_for(operation);
        previous
    }

    /// The replacement could not be prepared, assembled or published: the runtime goes on as
    /// before.
    pub fn abort_reprepare(
        &mut self,
        previous: RuntimePhase,
        error: String,
        cleanup: Option<String>,
    ) -> (failure: RuntimeError)
        ensures
            final(self)@ == old(self)@.in_phase(previous),
            failure matches RuntimeError::ReconfigureFailed(message) && message@ == with_cleanup(
                error@,
                opt_text(cleanup),
            ),
            old(self)@.wf() ==> final(self)@.wf(),
    {
        self.enter(previous);
        match cleanup {
            Some(detail) => RuntimeError::ReconfigureFailed(
                join3(error.as_str(), "; ", detail.as_str()),
            ),
            None => RuntimeError::ReconfigureFailed(error),
        }
    }

    /// The replacement is published: the controllers give way and the current agent is
    /// stopped. Tells whether a controller was interrupted.
    pub fn begin_switch(&mut self) -> (interrupted: bool)
        ensures
            interrupted == (old(self)@.goal is Some || old(self)@.loop_state is Some),
            final(self)@ == old(self)@.cancel_controllers(
                RuntimePhase::Reconfiguring,
                "runtime reconfigured"@,
            ).ask_to_stop(true),
            old(self)@.wf() ==> final(self)@.wf(),
    {
        let interrupted = self.cancel_controllers_and_finish_held(
            RuntimePhase::Reconfiguring,
            "runtime reconfigured",
        );
        self.ask_to_stop(true);
        interrupted
    }

    /// The turn of an agent whose controller was interrupted counts as cancelled.
    pub fn switched_report(report: StopReport, interrupted: bool) -> (adjusted: StopReport)
        ensures
            adjusted == if interrupted {
                (StopReport { reason: Some(StopReason::Cancelled), ..report })
            } else {
                report
            },
    {
        let mut report = report;
        if interrupted {
            report.reason = Some(StopReason::Cancelled);
        }
        report
    }

    /// The replacement takes over. `session_id` and `working_dir` are its own.
    pub fn finish_switch(
        &mut self,
        operation: ReconfigureKind,
        session_id: Option<String>,
        working_dir: String,
    ) -> (changed: SessionChanged)
        ensures
            changed == (SessionChanged {
                generation: RuntimeGeneration(bump(old(self)@.generation)),
                session_id,
                working_dir,
            }),
            ({
                let moved = operation == ReconfigureKind::ChangeDirectory;
                let switched = (OwnerView {
                    compaction_suspended: false,
                    has_session: session_id is Some,
                    ai_name_attempted: old(self)@.ai_name_attempted && !moved && operation
                        != ReconfigureKind::FreshSession,
                    phase: RuntimePhase::Ready,
                    ..old(self)@.adopted()
                }).emit(EventView::Plain(CodingRuntimeEvent::SessionChanged(changed)));
                let told = if moved {
                    switched.emit(
                        EventView::Plain(CodingRuntimeEvent::WorkingDirectoryChanged(working_dir)),
                    )
                } else {
                    switched
                };
                final(self)@ == told.emit(
                    EventView::Plain(CodingRuntimeEvent::Reconfigured { operation }),
                )
            }),
            old(self)@.wf() ==> final(self)@.wf(),
    {
        self.adopt();
        self.compaction_suspended = false;
        self.has_session = session_id.is_some();
        if operation == ReconfigureKind::FreshSession || operation
            == ReconfigureKind::ChangeDirectory {
            self.ai_name_attempted = false;
        }
        self.phase = RuntimePhase::Ready;
        let changed = self.session_changed(session_id, working_dir);
        self.emit(CodingRuntimeEvent::SessionChanged(changed.duplicate()));
        if operation == ReconfigureKind::ChangeDirectory {
            self.emit(CodingRuntimeEvent::WorkingDirectoryChanged(changed.working_dir.clone()));
        }
        self.emit(CodingRuntimeEvent::Reconfigured { operation });
        changed
    }

    /// The replacement was thrown away because the stored session came into doubt; so may
    /// its session have to be.
    pub fn switch_doubted(error: RuntimeError, cleanup: Option<String>) -> (failure: RuntimeError)
        ensures
            match cleanup {
                Some(detail) => failure matches RuntimeError::ReconfigureFailed(message) && message@
                    == error.text() + "; candidate cleanup failed: "@ + detail@,
                None => failure == error,
            },
    {
        match cleanup {
            Some(detail) => RuntimeError::ReconfigureFailed(
                join3(
                    error.message().as_str(),
                    "; candidate cleanup failed: ",
                    detail.as_str(),
                ),
            ),
            None => error,
        }
    }

    /// Whether an undo that was computed from the revision may be applied.
    pub fn check_undo(&self, generation: u64, expected_revision: u64) -> (result: Result<
        (),
        RuntimeError,
    >)
        ensures
            result == if !self@.settled_at(generation) || expected_revision
                != self@.conversation_revision {
                Err::<(), RuntimeError>(RuntimeError::Busy)
            } else if !self@.has_resources {
                Err(RuntimeError::Unavailable)
            } else {
                Ok(())
            },
    {
        if generation != self.generation || expected_revision != self.conversation_revision
            || self.compaction_suspended || self.compactions.is_active()
            || self.active_turn.is_some() {
            return Err(RuntimeError::Busy);
        }
        if !self.has_resources {
            return Err(RuntimeError::Unavailable);
        }
        Ok(())
    }

    fn stop_undo(&mut self, error: &NativePersistenceError, health: &Option<String>)
        ensures
            ({
                let text = error.message@ + health_detail(opt_text(*health));
                final(self)@ == (OwnerView {
                    persistence_failure: Some(text),
                    ..old(self)@.abandoned()
                }).emit(
                    EventView::AgentError(
                        "undo persistence could not be proven safe; runtime stopped: "@ + text,
                    ),
                )
            }),
    {
        let detail = match health {
            Some(text) => join2(
                "; canonical native session health check failed: ",
                text.as_str(),
            ),
            None => String::new(),
        };
        let text = join2(error.message.as_str(), detail.as_str());
        self.abandon();
        let message = join2(
            "undo persistence could not be proven safe; runtime stopped: ",
            text.as_str(),
        );
        self.persistence_failure = Some(text);
        self.emit_error(message.as_str());
    }

    /// An undo could not be persisted. A conversation that moved on meanwhile is no fault.
    /// A commit that may be half done, or a session that no longer reads, stops the runtime.
    pub fn undo_not_persisted(&mut self, error: NativePersistenceError, health: Option<String>) -> (failure:
        RuntimeError)
        ensures
            if error.snapshot_conflict {
                &&& failure == RuntimeError::Busy
                &&& final(self)@ == old(self)@
            } else {
                &&& failure == RuntimeError::ReconfigureFailed(error.message)
                &&& final(self)@ == if error.uncertain_commit || health is Some {
                    let text = error.message@ + health_detail(opt_text(health));
                    (OwnerView { persistence_failure: Some(text), ..old(self)@.abandoned() }).emit(
                        EventView::AgentError(
                            "undo persistence could not be proven safe; runtime stopped: "@ + text,
                        ),
                    )
                } else {
                    old(self)@
                }
            },
            old(self)@.wf() ==> final(self)@.wf(),
    {
        if error.is_snapshot_conflict() {
            return RuntimeError::Busy;
        }
        if error.requires_fail_close() || health.is_some() {
            self.stop_undo(&error, &health);
        }
        RuntimeError::ReconfigureFailed(error.message)
    }

    /// The undo is persisted: the agent is stopped to be built anew.
    pub fn begin_undo(&mut self)
        ensures
            final(self)@ == old(self)@.closed_for(ReconfigureKind::Undo).ask_to_stop(false),
            old(self)@.wf() ==> final(self)@.wf(),
    {
        self.close_for(ReconfigureKind::Undo);
        self.ask_to_stop(false);
    }

    /// The agent has stopped for an undo.
    pub fn settle_undo(&mut self, report: &StopReport, stored: &Option<Arc<SessionSnapshot>>) -> (error:
        Option<RuntimeError>)
        ensures
            final(self)@ == old(self)@.doubted(*report, *stored),
            match report.persistence_failure {
                None => error is None,
                Some(doubt) => error matches Some(RuntimeError::ReconfigureFailed(message))
                    && message@ == super::stopping::uncertain_runtime_text(doubt@),
            },
            old(self)@.wf() ==> final(self)@.wf(),
    {
        self.heed_doubt(report, stored)
    }

    /// The agent of the undone conversation is in place.
    pub fn finish_undo(
        &mut self,
        snapshot: Arc<SessionSnapshot>,
        restored_prompt: String,
        target_n: usize,
        prompts_before: usize,
    ) -> (result: UndoResult)
        ensures
            result == (UndoResult {
                generation: RuntimeGeneration(bump(old(self)@.generation)),
                snapshot,
                restored_prompt,
                target_n,
                prompts_before,
            }),
            final(self)@ == old(self)@.adopted().in_phase(RuntimePhase::Ready).emit(
                EventView::Plain(
                    CodingRuntimeEvent::Reconfigured { operation: ReconfigureKind::Undo },
                ),
            ),
            old(self)@.wf() ==> final(self)@.wf(),
    {
        self.adopt();
        self.phase = RuntimePhase::Ready;
        self.emit(CodingRuntimeEvent::Reconfigured { operation: ReconfigureKind::Undo });
        UndoResult {
            generation: RuntimeGeneration(self.generation),
            snapshot,
            restored_prompt,
            target_n,
            prompts_before,
        }
    }

    fn fail_closed(&mut self, reason: String, words: &str)
        ensures
            final(self)@ == old(self)@.fail_closed(reason@, words@),
    {
        self.lose_agent();
        self.persistence_failure = Some(reason);
        self.emit_error(words);
    }

    /// The agent of the undone conversation could not be built. Where taking the undo back
    /// failed too, the runtime stops; else `rollback` says whether the old agent is back.
    pub fn abort_undo(
        &mut self,
        candidate_error: String,
        restore_error: Option<String>,
        rollback: Rollback,
    ) -> (failure: RuntimeError)
        ensures
            failure matches RuntimeError::ReconfigureFailed(message) && message@
                == with_restore_detail(candidate_error@, opt_text(restore_error)),
            final(self)@ == match restore_error {
                Some(error) => old(self)@.fail_closed(
                    "undo rollback persistence failed: "@ + error@,
                    "undo rollback persistence failed; runtime stopped: "@ + error@,
                ),
                None => old(self)@.rolled_back(rollback, "undo rollback failed: "@),
            },
            old(self)@.wf() ==> final(self)@.wf(),
    {
        match &restore_error {
            Some(error) => {
                let words = join2(
                    "undo rollback persistence failed; runtime stopped: ",
                    error.as_str(),
                );
                self.fail_closed(
                    join2("undo rollback persistence failed: ", error.as_str()),
                    words.as_str(),
                );
            },
            None => self.roll_back(rollback, "undo rollback failed: "),
        }
        RuntimeError::ReconfigureFailed(restore_detail(candidate_error.as_str(), &restore_error))
    }

    /// A conversation is to be restored: the agent is stopped.
    pub fn begin_restore(&mut self)
        ensures
            final(self)@ == old(self)@.closed_for(ReconfigureKind::RestoreSession).ask_to_stop(
                true,
            ),
            old(self)@.wf() ==> final(self)@.wf(),
    {
        self.close_for(ReconfigureKind::RestoreSession);
        self.ask_to_stop(true);
    }

    /// The agent of the restored conversation is in place.
    pub fn finish_restore(&mut self, session_id: Option<String>, working_dir: String) -> (changed:
        SessionChanged)
        ensures
            changed == (SessionChanged {
                generation: RuntimeGeneration(bump(old(self)@.generation)),
                session_id,
                working_dir,
            }),
            final(self)@ == old(self)@.adopted().in_phase(RuntimePhase::Ready).emit(
                EventView::Plain(CodingRuntimeEvent::SessionChanged(changed)),
            ).emit(
                EventView::Plain(
                    CodingRuntimeEvent::Reconfigured { operation: ReconfigureKind::RestoreSession },
                ),
            ),
            old(self)@.wf() ==> final(self)@.wf(),
    {
        self.adopt();
        self.phase = RuntimePhase::Ready;
        let changed = self.session_changed(session_id, working_dir);
        self.emit(CodingRuntimeEvent::SessionChanged(changed.duplicate()));
        self.emit(
            CodingRuntimeEvent::Reconfigured { operation: ReconfigureKind::RestoreSession },
        );
        changed
    }

    /// A conversation could not be restored. Where the stored session is in doubt the
    /// runtime stops; else `rollback` says whether the old agent is back.
    pub fn abort_restore(
        &mut self,
        candidate_error: &NativePersistenceError,
        restore_error: Option<NativePersistenceError>,
        rollback: Rollback,
    ) -> (failure: RuntimeError)
        ensures
            failure matches RuntimeError::ReconfigureFailed(message) && message@
                == with_restore_detail(
                candidate_error.message@,
                match restore_error {
                    Some(error) => Some(error.message@),
                    None => None,
                },
            ),
            final(self)@ == match crate::error::fail_close_text(*candidate_error, restore_error) {
                Some(reason) => old(self)@.fail_closed(
                    reason,
                    "conversation restore persistence failed; runtime stopped: "@ + reason,
                ),
                None => old(self)@.rolled_back(
                    rollback,
                    "conversation restore rollback failed: "@,
                ),
            },
            old(self)@.wf() ==> final(self)@.wf(),
    {
        let reason = crate::error::persistence_fail_close_reason(
            candidate_error,
            restore_error.as_ref(),
        );
        match reason {
            Some(reason) => {
                let words = join2(
                    "conversation restore persistence failed; runtime stopped: ",
                    reason.as_str(),
                );
                self.fail_closed(reason, words.as_str());
            },
            None => self.roll_back(rollback, "conversation restore rollback failed: "),
        }
        let detail = match &restore_error {
            Some(error) => Some(error.message.clone()),
            None => None,
        };
        RuntimeError::ReconfigureFailed(
            restore_detail(candidate_error.message.as_str(), &detail),
        )
    }
}

} // verus!
