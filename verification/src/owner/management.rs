//! Lifecycle management: suspending compaction, replacing the agent, shutting down, and
//! what is left to say when the owner ends.
use super::stopping::StopReport;
use super::{bump, interrupted, AnswerView, OwnerView, RuntimeOwner};
use crate::compaction::{CompactTrigger, CompactionCompletion, CompactionInterruption};
use crate::control::CodingRuntimeControl;
use crate::conversation::SessionSnapshot;
use crate::error::RuntimeError;
use crate::event::{AgentCommand, CodingRuntimeEvent, CommandView};
use crate::phase::{RuntimeExit, RuntimeExitReason, RuntimePhase};
use crate::text::copy_opt;
use std::sync::Arc;
use vstd::prelude::*;

verus! {

impl OwnerView {
    /// A new generation, unless the current one is already closed.
    pub open spec fn next_generation(self) -> u64 {
        if self.compaction_suspended {
            self.generation
        } else {
            bump(self.generation)
        }
    }

    /// The agent is asked to stop: its requests are turned down first.
    pub open spec fn ask_to_stop(self, turn_down: bool) -> OwnerView {
        if turn_down {
            self.fail_close_pending(self.active_turn is Some).offer(
                CommandView::Plain(AgentCommand::Shutdown),
            )
        } else {
            self.offer(CommandView::Plain(AgentCommand::Shutdown))
        }
    }

    /// The owner's loop has ended: whoever waits for a snapshot is refused, and the agent is
    /// asked to stop unless it already was.
    pub open spec fn exiting(self, shutdown_handled: bool) -> OwnerView {
        let ended = self.in_phase(RuntimePhase::Stopped).answer_all(
            AnswerView::Refused(RuntimeError::Unavailable),
        );
        if shutdown_handled {
            ended
        } else {
            ended.offer(CommandView::Plain(AgentCommand::Shutdown))
        }
    }

    /// The agent has stopped and nothing takes its place.
    pub open spec fn agent_gone(
        self,
        report: StopReport,
        stored: Option<Arc<SessionSnapshot>>,
    ) -> OwnerView {
        OwnerView {
            agent_attached: false,
            agent_available: false,
            observed_tokens: None,
            ..self.doubted(report, stored)
        }
    }

    /// The old agent has stopped: the new one is in place, unless the stored session came
    /// into doubt.
    pub open spec fn replacement_settled(
        self,
        report: StopReport,
        stored: Option<Arc<SessionSnapshot>>,
        resume: bool,
    ) -> OwnerView {
        if report.persistence_failure is None {
            OwnerView {
                agent_attached: true,
                agent_open: true,
                agent_available: true,
                provider_unavailable_reason: None,
                observed_tokens: None,
                compaction_suspended: !resume && self.compaction_suspended,
                phase: if resume {
                    RuntimePhase::Ready
                } else {
                    self.phase
                },
                ..self
            }
        } else {
            OwnerView {
                agent_attached: false,
                compaction_suspended: false,
                observed_tokens: None,
                ..self.doubted(report, stored)
            }
        }
    }

    /// What the end of the agent leaves when none takes its place: no turn is in progress.
    pub open spec fn stopped_for_good(
        self,
        report: StopReport,
        stored: Option<Arc<SessionSnapshot>>,
    ) -> OwnerView {
        let ended = if self.native {
            self.finish_stopped(report, stored)
        } else {
            self
        };
        match report.persistence_failure {
            Some(error) => ended.fail_close_stopped(report, error@, stored),
            None => ended,
        }
    }

    /// What a stop that came with doubt about the stored session does.
    pub open spec fn doubted(
        self,
        report: StopReport,
        stored: Option<Arc<SessionSnapshot>>,
    ) -> OwnerView {
        match report.persistence_failure {
            Some(error) => (OwnerView {
                persistence_failure: Some(error@),
                ..self.fail_close_stopped(report, error@, stored)
            }),
            None => self,
        }
    }
}

impl RuntimeOwner {
    /// Closes the generation for compactions while the agent is rebuilt.
    pub fn suspend_compaction(&mut self)
        ensures
            final(self)@ == if old(self)@.compaction_suspended {
                old(self)@
            } else {
                (OwnerView {
                    generation: bump(old(self)@.generation),
                    compaction_suspended: true,
                    phase: RuntimePhase::Reconfiguring,
                    ..old(self)@
                })
            },
            old(self)@.wf() ==> final(self)@.wf(),
    {
        if !self.compaction_suspended {
            self.generation = self.generation.wrapping_add(1);
            self.compaction_suspended = true;
            self.phase = RuntimePhase::Reconfiguring;
        }
    }

    /// Opens it again.
    pub fn resume_compaction(&mut self)
        ensures
            final(self)@ == (OwnerView {
                compaction_suspended: false,
                phase: if old(self)@.agent_available {
                    old(self)@.fitting(RuntimePhase::Ready)
                } else {
                    RuntimePhase::Failed
                },
                ..old(self)@
            }),
            old(self)@.wf() ==> final(self)@.wf(),
    {
        self.compaction_suspended = false;
        let phase = if self.agent_available {
            RuntimePhase::Ready
        } else {
            RuntimePhase::Failed
        };
        self.enter(phase);
    }

    pub(crate) fn ask_to_stop(&mut self, turn_down: bool)
        ensures
            final(self)@ == old(self)@.ask_to_stop(turn_down),
            old(self)@.wf() ==> final(self)@.wf(),
    {
        if turn_down {
            let turn = self.active_turn.is_some();
            self.fail_close_pending_requests(turn);
        }
        let _ = self.offer(AgentCommand::Shutdown);
    }

    fn open_generation(&mut self, phase: RuntimePhase, suspend: bool)
        ensures
            final(self)@ == (OwnerView {
                generation: old(self)@.next_generation(),
                compaction_suspended: suspend || old(self)@.compaction_suspended,
                phase,
                ..old(self)@
            }),
    {
        if !self.compaction_suspended {
            self.generation = self.generation.wrapping_add(1);
        }
        if suspend {
            self.compaction_suspended = true;
        }
        self.phase = phase;
    }

    /// The agent is to be stopped for good. What it leaves goes to
    /// [`RuntimeOwner::agent_stopped`].
    pub fn begin_stop(&mut self)
        ensures
            final(self)@ == (OwnerView {
                generation: old(self)@.next_generation(),
                compaction_suspended: true,
                phase: RuntimePhase::Reconfiguring,
                ..old(self)@
            }).ask_to_stop(old(self)@.native),
            old(self)@.wf() ==> final(self)@.wf(),
    {
        self.open_generation(RuntimePhase::Reconfiguring, true);
        let native = self.native;
        self.ask_to_stop(native);
    }

    pub(crate) fn heed_doubt(&mut self, report: &StopReport, stored: &Option<Arc<SessionSnapshot>>) -> (error:
        Option<RuntimeError>)
        ensures
            final(self)@ == old(self)@.doubted(*report, *stored),
            match report.persistence_failure {
                None => error is None,
                Some(doubt) => error matches Some(RuntimeError::ReconfigureFailed(message))
                    && message@ == super::stopping::uncertain_runtime_text(doubt@),
            },
            old(self)@.wf() ==> final(self)@.wf(),
    {
        let error = self.fail_close_after_stopped_persistence(report, stored);
        proof {
            reveal(OwnerView::settled);
        }
        if report.persistence_failure.is_some() {
            self.persistence_failure = copy_opt(&report.persistence_failure);
        }
        error
    }

    /// The agent has stopped and nothing takes its place.
    pub fn agent_stopped(&mut self, report: &StopReport, stored: &Option<Arc<SessionSnapshot>>)
        ensures
            final(self)@ == old(self)@.agent_gone(*report, *stored),
            old(self)@.wf() ==> final(self)@.wf(),
    {
        let _ = self.heed_doubt(report, stored);
        self.agent_attached = false;
        self.agent_available = false;
        self.observed_tokens = None;
    }

    /// Another agent is to take the place of the current one. Refused once the stored
    /// session is in doubt. Tells whether the owner opens again by itself afterwards.
    pub fn begin_replace(&mut self) -> (resume: Option<bool>)
        ensures
            if old(self)@.persistence_failure is Some {
                &&& resume is None
                &&& final(self)@ == (OwnerView { agent_attached: false, ..old(self)@.failed() })
            } else {
                &&& resume == Some(!old(self)@.compaction_suspended)
                &&& final(self)@ == (OwnerView {
                    generation: old(self)@.next_generation(),
                    compaction_suspended: true,
                    phase: if old(self)@.compaction_suspended {
                        old(self)@.phase
                    } else {
                        RuntimePhase::Reconfiguring
                    },
                    ..old(self)@
                }).ask_to_stop(old(self)@.native)
            },
            old(self)@.wf() ==> final(self)@.wf(),
    {
        if self.persistence_failure.is_some() {
            self.fail();
            self.agent_attached = false;
            return None;
        }
        Some(self.close_for_replacement())
    }

    fn close_for_replacement(&mut self) -> (resume: bool)
        ensures
            resume == !old(self)@.compaction_suspended,
            final(self)@ == (OwnerView {
                generation: old(self)@.next_generation(),
                compaction_suspended: true,
                phase: if old(self)@.compaction_suspended {
                    old(self)@.phase
                } else {
                    RuntimePhase::Reconfiguring
                },
                ..old(self)@
            }).ask_to_stop(old(self)@.native),
            old(self)@.wf() ==> final(self)@.wf(),
    {
        let resume = !self.compaction_suspended;
        let phase = if resume {
            RuntimePhase::Reconfiguring
        } else {
            self.phase
        };
        self.open_generation(phase, true);
        let native = self.native;
        self.ask_to_stop(native);
        resume
    }

    /// The old agent has stopped. Tells whether the new one is in place.
    pub fn finish_replace(
        &mut self,
        report: &StopReport,
        stored: &Option<Arc<SessionSnapshot>>,
        resume: bool,
    ) -> (installed: bool)
        ensures
            installed == (report.persistence_failure is None),
            final(self)@ == old(self)@.replacement_settled(*report, *stored, resume),
            old(self)@.wf() ==> final(self)@.wf(),
    {
        if report.persistence_failure.is_some() {
            let _ = self.heed_doubt(report, stored);
            self.agent_attached = false;
            self.compaction_suspended = false;
            self.observed_tokens = None;
            return false;
        }
        self.agent_attached = true;
        self.agent_open = true;
        self.agent_available = true;
        self.provider_unavailable_reason = None;
        self.observed_tokens = None;
        if resume {
            self.compaction_suspended = false;
            self.phase = RuntimePhase::Ready;
        }
        true
    }

    /// The owner is to shut down.
    pub fn begin_managed_shutdown(&mut self)
        ensures
            final(self)@ == (OwnerView {
                generation: old(self)@.next_generation(),
                phase: RuntimePhase::ShuttingDown,
                ..old(self)@
            }).ask_to_stop(old(self)@.native),
            old(self)@.wf() ==> final(self)@.wf(),
    {
        self.open_generation(RuntimePhase::ShuttingDown, false);
        let native = self.native;
        self.ask_to_stop(native);
    }

    /// A driver asks the runtime to shut down. A request of an older generation is honoured
    /// too.
    pub fn begin_shutdown(&mut self, generation: u64)
        ensures
            final(self)@ == (OwnerView {
                phase: if generation == old(self)@.generation {
                    RuntimePhase::ShuttingDown
                } else {
                    old(self)@.phase
                },
                ..old(self)@
            }).ask_to_stop(old(self)@.native),
            old(self)@.wf() ==> final(self)@.wf(),
    {
        if generation == self.generation {
            self.phase = RuntimePhase::ShuttingDown;
        }
        let native = self.native;
        self.ask_to_stop(native);
    }

    fn stop_for_good(&mut self, report: &StopReport, stored: &Option<Arc<SessionSnapshot>>)
        ensures
            final(self)@ == old(self)@.stopped_for_good(*report, *stored),
            old(self)@.wf() ==> final(self)@.wf(),
    {
        if self.native {
            self.finish_stopped_native_turn(report, stored);
        }
        let _ = self.fail_close_after_stopped_persistence(report, stored);
    }

    /// The agent has stopped for the shutdown.
    pub fn finish_shutdown(&mut self, report: &StopReport, stored: &Option<Arc<SessionSnapshot>>) -> (exit:
        RuntimeExit)
        ensures
            exit == (RuntimeExit {
                reason: RuntimeExitReason::ShutdownRequested,
                forced: report.forced,
            }),
            final(self)@ == old(self)@.stopped_for_good(*report, *stored),
            old(self)@.wf() ==> final(self)@.wf(),
    {
        self.stop_for_good(report, stored);
        RuntimeExit { reason: RuntimeExitReason::ShutdownRequested, forced: report.forced }
    }

    /// The owner's loop has ended. Whoever still waits for a snapshot is refused. Unless a
    /// shutdown already stopped the agent, it is asked to stop now.
    pub fn begin_exit(&mut self, shutdown_handled: bool)
        ensures
            final(self)@ == old(self)@.exiting(shutdown_handled),
            old(self)@.wf() ==> final(self)@.wf(),
    {
        self.phase = RuntimePhase::Stopped;
        self.deny_waiters(false);
        if !shutdown_handled {
            let _ = self.offer(AgentCommand::Shutdown);
        }
    }

    /// The agent of an owner that ended by itself has stopped. A turn that is still in
    /// progress ends with it.
    pub fn finish_exit(&mut self, report: &StopReport, stored: &Option<Arc<SessionSnapshot>>) -> (exit:
        RuntimeExit)
        ensures
            exit == (RuntimeExit {
                reason: RuntimeExitReason::OwnerStopped,
                forced: report.forced,
            }),
            final(self)@ == old(self)@.stopped_for_good(*report, *stored).in_phase(
                RuntimePhase::Stopped,
            ),
            old(self)@.wf() ==> final(self)@.wf(),
    {
        self.stop_for_good(report, stored);
        self.phase = RuntimePhase::Stopped;
        RuntimeExit { reason: RuntimeExitReason::OwnerStopped, forced: report.forced }
    }

    /// Whether a control is looked at. Once the stored session is in doubt only a shutdown
    /// is.
    pub fn admits(&self, control: &CodingRuntimeControl) -> (admitted: bool)
        ensures
            admitted == (self@.persistence_failure is None || control is Shutdown),
    {
        self.persistence_failure.is_none() || matches!(
            control,
            CodingRuntimeControl::Shutdown { .. }
        )
    }

    /// A control that is not looked at any more. A compaction ends at once; everybody else
    /// who waits for an answer gets the error; a shutdown has nobody waiting.
    pub fn reject_runtime_control(
        &mut self,
        control: CodingRuntimeControl,
        reason: CompactionInterruption,
    ) -> (answer: Option<RuntimeError>)
        ensures
            match control {
                CodingRuntimeControl::Compact { generation, focus } => {
                    &&& answer is None
                    &&& final(self)@ == old(self)@.act(
                        interrupted(
                            old(self)@.generation,
                            CompactTrigger::Manual { focus },
                            reason,
                        ),
                    )
                },
                CodingRuntimeControl::Shutdown { generation } => {
                    &&& answer is None
                    &&& final(self)@ == old(self)@
                },
                _ => {
                    &&& answer == Some(RuntimeError::Unavailable)
                    &&& final(self)@ == old(self)@
                },
            },
            old(self)@.wf() ==> final(self)@.wf(),
    {
        match control {
            CodingRuntimeControl::Compact { generation: _, focus } => {
                self.emit(
                    CodingRuntimeEvent::CompactionFinished {
                        completion: CompactionCompletion::Interrupted {
                            trigger: CompactTrigger::Manual { focus },
                            reason,
                        },
                    },
                );
                None
            },
            CodingRuntimeControl::Shutdown { .. } => None,
            _ => Some(RuntimeError::Unavailable),
        }
    }
}

} // verus!
