//! Errors of the runtime, with the text that each shows.
use crate::phase::ProviderUnavailableReason;
use crate::text::{debug_text, decimal, decimal_text, join2, join3, quoted};
use vstd::prelude::*;
use vstd::string::*;

verus! {

impl ProviderUnavailableReason {
    pub open spec fn text(self) -> Seq<char> {
        match self {
            ProviderUnavailableReason::NotConfigured =>
                "no provider configured — run /login or /provider"@,
            ProviderUnavailableReason::AuthenticationRequired =>
                "provider authentication required — run /login"@,
            ProviderUnavailableReason::UnsupportedBuild =>
                "this build cannot access the AtomGit gateway — use an official build or switch provider"@,
        }
    }

    pub fn message(self) -> (message: &'static str)
        ensures
            message@ == self.text(),
    {
        match self {
            ProviderUnavailableReason::NotConfigured =>
                "no provider configured — run /login or /provider",
            ProviderUnavailableReason::AuthenticationRequired =>
                "provider authentication required — run /login",
            ProviderUnavailableReason::UnsupportedBuild =>
                "this build cannot access the AtomGit gateway — use an official build or switch provider",
        }
    }
}

/// Why a runtime request was not carried out.
#[derive(Clone, Debug, PartialEq, Eq)]
pub enum RuntimeError {
    Busy,
    SessionInUse { id: String },
    StaleRequest { id: u64 },
    DeliveryFailed,
    Unavailable,
    ProviderUnavailable(ProviderUnavailableReason),
    SnapshotUnavailable(String),
    ReconfigureFailed(String),
    InvalidWorkingDirectory(String),
    UndoOutOfRange { requested: usize, available: usize },
    RewindPointUnavailable { turn_id: u64 },
    CodeRewindUnavailable(String),
}

/// Text of the error of a session that another runtime holds.
pub open spec fn session_in_use_text(id: Seq<char>) -> Seq<char> {
    "session "@ + debug_text(id) + " is already in use by another runtime"@
}

fn session_in_use_message(id: &str) -> (message: String)
    ensures
        message@ == session_in_use_text(id@),
{
    join3("session ", quoted(id).as_str(), " is already in use by another runtime")
}

impl RuntimeError {
    pub open spec fn text(self) -> Seq<char> {
        match self {
            RuntimeError::Busy => "coding runtime is busy"@,
            RuntimeError::SessionInUse { id } => session_in_use_text(id@),
            RuntimeError::StaleRequest { id } => "runtime request "@ + decimal(id as nat)
                + " is stale"@,
            RuntimeError::DeliveryFailed => "kernel command delivery failed"@,
            RuntimeError::Unavailable => "coding runtime is unavailable"@,
            RuntimeError::ProviderUnavailable(reason) => "provider unavailable: "@ + reason.text(),
            RuntimeError::SnapshotUnavailable(message) => "snapshot unavailable: "@ + message@,
            RuntimeError::ReconfigureFailed(message) => "runtime reconfiguration failed: "@
                + message@,
            RuntimeError::InvalidWorkingDirectory(message) => message@,
            RuntimeError::UndoOutOfRange { requested, available } => "cannot undo prompt "@
                + decimal(requested as nat) + "; only "@ + decimal(available as nat)
                + " user prompts are available"@,
            RuntimeError::RewindPointUnavailable { turn_id } => "rewind point for turn "@
                + decimal(turn_id as nat) + " is unavailable"@,
            RuntimeError::CodeRewindUnavailable(reason) => "code rewind is unavailable: "@
                + reason@,
        }
    }

    /// The text shown for the error.
    pub fn message(&self) -> (message: String)
        ensures
            message@ == self.text(),
    {
        match self {
            RuntimeError::Busy => "coding runtime is busy".to_owned(),
            RuntimeError::SessionInUse { id } => session_in_use_message(id.as_str()),
            RuntimeError::StaleRequest { id } => join3(
                "runtime request ",
                decimal_text(*id).as_str(),
                " is stale",
            ),
            RuntimeError::DeliveryFailed => "kernel command delivery failed".to_owned(),
            RuntimeError::Unavailable => "coding runtime is unavailable".to_owned(),
            RuntimeError::ProviderUnavailable(reason) => join2(
                "provider unavailable: ",
                reason.message(),
            ),
            RuntimeError::SnapshotUnavailable(message) => join2(
                "snapshot unavailable: ",
                message.as_str(),
            ),
            RuntimeError::ReconfigureFailed(message) => join2(
                "runtime reconfiguration failed: ",
                message.as_str(),
            ),
            RuntimeError::InvalidWorkingDirectory(message) => message.clone(),
            RuntimeError::UndoOutOfRange { requested, available } => {
                let mut text = join3(
                    "cannot undo prompt ",
                    decimal_text(*requested as u64).as_str(),
                    "; only ",
                );
                text.append(decimal_text(*available as u64).as_str());
                text.append(" user prompts are available");
                text
            },
            RuntimeError::RewindPointUnavailable { turn_id } => join3(
                "rewind point for turn ",
                decimal_text(*turn_id).as_str(),
                " is unavailable",
            ),
            RuntimeError::CodeRewindUnavailable(reason) => join2(
                "code rewind is unavailable: ",
                reason.as_str(),
            ),
        }
    }
}

/// Why a provider could not be built.
#[derive(Clone, Debug, PartialEq, Eq)]
pub enum ProviderBuildError {
    /// No usable credential.
    Authentication(String),
    /// The gateway refuses builds made from source.
    SourceBuildGatewayUnsupported { base_url: String },
    /// The adapter refused the configuration.
    Adapter(String),
}

/// Why a session could not be prepared: the store's answer, reduced to what decides.
#[derive(Clone, Debug, PartialEq, Eq)]
pub enum PrepareFailure {
    /// Another runtime holds the lease of the session.
    SessionInUse { id: String },
    /// Anything else, as the error prints.
    Other(String),
}

/// Why a runtime did not start.
#[derive(Clone, Debug, PartialEq, Eq)]
pub enum RuntimeStartError {
    Prepare(String),
    SessionInUse { id: String },
    /// The build error, and the text it prints.
    Provider { error: ProviderBuildError, printed: String },
    Assemble(String),
}

impl RuntimeStartError {
    pub open spec fn text(self) -> Seq<char> {
        match self {
            RuntimeStartError::Prepare(error) => "coding runtime prepare failed: "@ + error@,
            RuntimeStartError::SessionInUse { id } => session_in_use_text(id@),
            RuntimeStartError::Provider { error, printed } => "coding runtime provider failed: "@
                + printed@,
            RuntimeStartError::Assemble(error) => "coding runtime assemble failed: "@ + error@,
        }
    }

    /// The text shown for the error.
    pub fn message(&self) -> (message: String)
        ensures
            message@ == self.text(),
    {
        match self {
            RuntimeStartError::Prepare(error) => join2(
                "coding runtime prepare failed: ",
                error.as_str(),
            ),
            RuntimeStartError::SessionInUse { id } => session_in_use_message(id.as_str()),
            RuntimeStartError::Provider { error: _, printed } => join2(
                "coding runtime provider failed: ",
                printed.as_str(),
            ),
            RuntimeStartError::Assemble(error) => join2(
                "coding runtime assemble failed: ",
                error.as_str(),
            ),
        }
    }
}

/// A conflict over the session is reported as such, everything else as a prepare failure.
pub fn runtime_start_prepare_error(error: PrepareFailure) -> (start_error: RuntimeStartError)
    ensures
        start_error == (match error {
            PrepareFailure::SessionInUse { id } => RuntimeStartError::SessionInUse { id },
            PrepareFailure::Other(message) => RuntimeStartError::Prepare(message),
        }),
{
    match error {
        PrepareFailure::SessionInUse { id } => RuntimeStartError::SessionInUse { id },
        PrepareFailure::Other(message) => RuntimeStartError::Prepare(message),
    }
}

/// The same for a running runtime that prepares a replacement.
pub fn runtime_prepare_error(error: PrepareFailure) -> (runtime_error: RuntimeError)
    ensures
        runtime_error == (match error {
            PrepareFailure::SessionInUse { id } => RuntimeError::SessionInUse { id },
            PrepareFailure::Other(message) => RuntimeError::ReconfigureFailed(message),
        }),
{
    match error {
        PrepareFailure::SessionInUse { id } => RuntimeError::SessionInUse { id },
        PrepareFailure::Other(message) => RuntimeError::ReconfigureFailed(message),
    }
}

/// The runtime owner has stopped and can no longer accept controls.
#[derive(Clone, Copy, Debug, PartialEq, Eq, Structural)]
pub struct RuntimeUnavailable;

impl RuntimeUnavailable {
    pub fn message(self) -> (message: &'static str)
        ensures
            message@ == "coding runtime is unavailable"@,
    {
        "coding runtime is unavailable"
    }
}

/// A session store's answer to a refused commit, reduced to what decides: the text it
/// prints and whether the commit may have left the stored session half written.
#[derive(Clone, Debug, PartialEq, Eq)]
pub struct StoreFailure {
    pub message: String,
    pub uncertain_commit: bool,
}

/// Why a native session could not be persisted.
#[derive(Clone, Debug, PartialEq, Eq)]
pub struct NativePersistenceError {
    pub message: String,
    pub uncertain_commit: bool,
    pub snapshot_conflict: bool,
}

impl NativePersistenceError {
    /// A failure that left the stored session as it was.
    pub fn certain(message: String) -> (error: Self)
        ensures
            error == (NativePersistenceError {
                message,
                uncertain_commit: false,
                snapshot_conflict: false,
            }),
    {
        NativePersistenceError { message, uncertain_commit: false, snapshot_conflict: false }
    }

    /// The stored snapshot was not the one the mutation was computed from.
    pub fn snapshot_conflict(message: String) -> (error: Self)
        ensures
            error == (NativePersistenceError {
                message,
                uncertain_commit: false,
                snapshot_conflict: true,
            }),
    {
        NativePersistenceError { message, uncertain_commit: false, snapshot_conflict: true }
    }

    /// What a refused commit amounts to. A conflict seen while the mutation ran wins over
    /// the store's own classification.
    pub fn from_store(failure: StoreFailure, conflict_seen: bool) -> (error: Self)
        ensures
            error == (NativePersistenceError {
                message: failure.message,
                uncertain_commit: !conflict_seen && failure.uncertain_commit,
                snapshot_conflict: conflict_seen,
            }),
    {
        if conflict_seen {
            NativePersistenceError::snapshot_conflict(failure.message)
        } else {
            NativePersistenceError {
                message: failure.message,
                uncertain_commit: failure.uncertain_commit,
                snapshot_conflict: false,
            }
        }
    }

    /// Whether the runtime must stop: the stored session can no longer be trusted.
    pub fn requires_fail_close(&self) -> (yes: bool)
        ensures
            yes == self.uncertain_commit,
    {
        self.uncertain_commit
    }

    pub fn is_snapshot_conflict(&self) -> (yes: bool)
        ensures
            yes == self.snapshot_conflict,
    {
        self.snapshot_conflict
    }

    /// The text shown for the error.
    pub fn message(&self) -> (message: String)
        ensures
            message == self.message,
    {
        self.message.clone()
    }
}

/// Why the runtime must fail closed after a mutation did not go through, if it must: the
/// commit is uncertain, or undoing it failed.
pub open spec fn fail_close_text(
    candidate: NativePersistenceError,
    restore: Option<NativePersistenceError>,
) -> Option<Seq<char>> {
    if candidate.uncertain_commit {
        Some(candidate.message@)
    } else {
        match restore {
            Some(error) => Some("snapshot rollback persistence failed: "@ + error.message@),
            None => None,
        }
    }
}

pub fn persistence_fail_close_reason(
    candidate_error: &NativePersistenceError,
    restore_error: Option<&NativePersistenceError>,
) -> (reason: Option<String>)
    ensures
        crate::text::opt_text(reason) == fail_close_text(
            *candidate_error,
            match restore_error {
                Some(e) => Some(*e),
                None => None,
            },
        ),
{
    if candidate_error.requires_fail_close() {
        Some(candidate_error.message())
    } else {
        match restore_error {
            Some(error) => Some(
                join2("snapshot rollback persistence failed: ", error.message.as_str()),
            ),
            None => None,
        }
    }
}

} // verus!
