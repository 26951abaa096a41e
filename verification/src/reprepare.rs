//! What a runtime is prepared for when it is prepared again: the same session with other
//! capabilities, a fresh one, another one, another directory.
use crate::config::{
    target_session, CodingAgentConfig, PluginSkillDir, PrepareOptions, SessionMode,
};
use crate::control::{ReprepareInput, ReprepareTarget};
use crate::error::RuntimeError;
use crate::event::ReconfigureKind;
use crate::text::{debug_text, join2, join3, opt_text, quoted, same_text, share};
use std::sync::Arc;
use vstd::prelude::*;
use vstd::string::*;

verus! {

/// Whether the target goes back to the session that the runtime already serves.
pub fn reuses_session(current: &Option<String>, target: &SessionMode) -> (reuses: bool)
    ensures
        reuses == (*current is Some && target_session(*target) == opt_text(*current)),
{
    match current {
        Some(id) => match target {
            SessionMode::Resume(other) => same_text(id.as_str(), other.as_str()),
            SessionMode::ExternalSnapshot { id: other, snapshot: _ } => same_text(
                id.as_str(),
                other.as_str(),
            ),
            SessionMode::Fresh => false,
            SessionMode::Disabled => false,
        },
        None => false,
    }
}

/// Which lease the prepared session is held by.
#[derive(Clone, Copy, Debug, PartialEq, Eq, Structural)]
pub enum LeaseSource {
    /// The one that the driver handed over.
    Prepared,
    /// The one of the current session.
    Current,
    /// One that is taken anew.
    Fresh,
}

/// Which lease the target is prepared with. The driver's own goes first; the current one is
/// good for the current session alone.
pub fn lease_source(uses_prepared_lease: bool, current: &Option<String>, target: &SessionMode) -> (source:
    LeaseSource)
    ensures
        source == if uses_prepared_lease {
            LeaseSource::Prepared
        } else if *current is Some && target_session(*target) == opt_text(*current) {
            LeaseSource::Current
        } else {
            LeaseSource::Fresh
        },
{
    if uses_prepared_lease {
        LeaseSource::Prepared
    } else if reuses_session(current, target) {
        LeaseSource::Current
    } else {
        LeaseSource::Fresh
    }
}

/// Whether the tools of the current servers go before anything is read for the target: a
/// reload that fails must not leave tools mounted that were revoked.
pub fn withdraws_tools(target: &ReprepareTarget) -> (withdraws: bool)
    ensures
        withdraws == (*target is Reload),
{
    matches!(target, ReprepareTarget::Reload { .. })
}

/// Whether the replacement takes over what the runtime remembers, or its modes alone.
pub fn inherits_continuity(operation: ReconfigureKind) -> (inherits: bool)
    ensures
        inherits == (operation == ReconfigureKind::Reprepare),
{
    operation == ReconfigureKind::Reprepare
}

/// What the file system says of a directory.
#[derive(Clone, Debug, PartialEq, Eq)]
pub struct DirectoryFacts {
    pub is_absolute: bool,
    pub is_dir: bool,
    /// The directory as it prints.
    pub printed: String,
}

/// What the file system says of a directory to change to.
#[derive(Debug, PartialEq, Eq)]
pub struct ChangeFacts {
    /// The directory asked for, made absolute, as it prints.
    pub asked: String,
    /// The directory without links and dots, or why there is none.
    pub canonical: Result<String, String>,
    pub is_dir: bool,
    /// Whether it is the current directory.
    pub is_current: bool,
}

/// A target, with what the file system says of its directory.
#[derive(Debug, PartialEq, Eq)]
pub enum ObservedTarget {
    Exact(ReprepareInput),
    Reload { plugin_skill_dirs: Option<Arc<Vec<PluginSkillDir>>> },
    Fresh,
    Resume(String),
    /// `lease_id` is the session that the prepared lease is for.
    ResumeWithLease { id: String, working_dir: String, lease_id: String, facts: DirectoryFacts },
    ChangeDirectory(ChangeFacts),
}

/// What the runtime works with now.
#[derive(Clone, Debug, PartialEq, Eq)]
pub struct CurrentRuntime {
    pub config: CodingAgentConfig,
    pub prepare: PrepareOptions,
    pub session_id: Option<String>,
}

/// The input and whether the prepared lease goes with it.
#[derive(Clone, Debug, PartialEq, Eq)]
pub struct ResolvedReprepare {
    pub input: ReprepareInput,
    pub uses_prepared_lease: bool,
}

/// The current options for another session.
pub open spec fn for_session(prepare: PrepareOptions, session: SessionMode) -> PrepareOptions {
    PrepareOptions { session, ..prepare }
}

fn prepare_for(prepare: &PrepareOptions, session: SessionMode) -> (options: PrepareOptions)
    ensures
        options == for_session(*prepare, session),
{
    PrepareOptions {
        session,
        plugin_skill_dirs: share(&prepare.plugin_skill_dirs),
        request_user_input: prepare.request_user_input,
        mcp: prepare.mcp,
        memory: prepare.memory,
        web: prepare.web,
        review: prepare.review,
    }
}

/// The current configuration in another directory.
pub open spec fn in_directory(config: CodingAgentConfig, directory: String) -> CodingAgentConfig {
    CodingAgentConfig { working_dir: directory, ..config }
}

fn config_in(config: &CodingAgentConfig, directory: String) -> (moved: CodingAgentConfig)
    ensures
        moved == in_directory(*config, directory),
{
    let mut moved = config.duplicate();
    moved.working_dir = directory;
    moved
}

fn simple(
    config: CodingAgentConfig,
    prepare: PrepareOptions,
    operation: ReconfigureKind,
    uses_prepared_lease: bool,
) -> (result: Result<Option<ResolvedReprepare>, RuntimeError>)
    ensures
        result == Ok::<Option<ResolvedReprepare>, RuntimeError>(
            Some(resolved(config, prepare, operation, uses_prepared_lease)),
        ),
{
    Ok(
        Some(
            ResolvedReprepare {
                input: ReprepareInput { config, prepare, operation },
                uses_prepared_lease,
            },
        ),
    )
}

pub open spec fn resolved(
    config: CodingAgentConfig,
    prepare: PrepareOptions,
    operation: ReconfigureKind,
    uses_prepared_lease: bool,
) -> ResolvedReprepare {
    ResolvedReprepare {
        input: ReprepareInput { config, prepare, operation },
        uses_prepared_lease,
    }
}

/// A lease that is for another session.
pub open spec fn wrong_lease_text(lease_id: Seq<char>, id: Seq<char>) -> Seq<char> {
    "prepared session lease is for "@ + debug_text(lease_id) + ", not "@ + debug_text(id)
}

fn resolve_resume_with_lease(
    current: &CurrentRuntime,
    id: String,
    working_dir: String,
    lease_id: String,
    facts: &DirectoryFacts,
) -> (result: Result<Option<ResolvedReprepare>, RuntimeError>)
    ensures
        if lease_id@ != id@ {
            result matches Err(RuntimeError::ReconfigureFailed(message)) && message@
                == wrong_lease_text(lease_id@, id@)
        } else if !facts.is_absolute {
            result matches Err(RuntimeError::InvalidWorkingDirectory(message)) && message@
                == "session working directory is not absolute: "@ + facts.printed@
        } else if !facts.is_dir {
            result matches Err(RuntimeError::InvalidWorkingDirectory(message)) && message@
                == "session working directory is not a directory: "@ + facts.printed@
        } else {
            result == Ok::<Option<ResolvedReprepare>, RuntimeError>(
                Some(
                    resolved(
                        in_directory(current.config, working_dir),
                        for_session(current.prepare, SessionMode::Resume(id)),
                        ReconfigureKind::ResumeSession,
                        true,
                    ),
                ),
            )
        },
{
    if !same_text(lease_id.as_str(), id.as_str()) {
        let mut message = join3(
            "prepared session lease is for ",
            quoted(lease_id.as_str()).as_str(),
            ", not ",
        );
        message.append(quoted(id.as_str()).as_str());
        return Err(RuntimeError::ReconfigureFailed(message));
    }
    if !facts.is_absolute {
        return Err(
            RuntimeError::InvalidWorkingDirectory(
                join2("session working directory is not absolute: ", facts.printed.as_str()),
            ),
        );
    }
    if !facts.is_dir {
        return Err(
            RuntimeError::InvalidWorkingDirectory(
                join2("session working directory is not a directory: ", facts.printed.as_str()),
            ),
        );
    }
    simple(
        config_in(&current.config, working_dir),
        prepare_for(&current.prepare, SessionMode::Resume(id)),
        ReconfigureKind::ResumeSession,
        true,
    )
}

fn resolve_change(current: &CurrentRuntime, facts: ChangeFacts) -> (result: Result<
    Option<ResolvedReprepare>,
    RuntimeError,
>)
    ensures
        match facts.canonical {
            Err(error) => result matches Err(RuntimeError::InvalidWorkingDirectory(message))
                && message@ == "cannot change directory to "@ + facts.asked@ + ": "@ + error@,
            Ok(directory) => if !facts.is_dir {
                result matches Err(RuntimeError::InvalidWorkingDirectory(message)) && message@
                    == "working directory is not a directory: "@ + directory@
            } else if facts.is_current {
                result == Ok::<Option<ResolvedReprepare>, RuntimeError>(None)
            } else {
                result == Ok::<Option<ResolvedReprepare>, RuntimeError>(
                    Some(
                        resolved(
                            in_directory(current.config, directory),
                            for_session(current.prepare, SessionMode::Fresh),
                            ReconfigureKind::ChangeDirectory,
                            false,
                        ),
                    ),
                )
            },
        },
{
    match facts.canonical {
        Err(error) => {
            let mut message = join3("cannot change directory to ", facts.asked.as_str(), ": ");
            message.append(error.as_str());
            Err(RuntimeError::InvalidWorkingDirectory(message))
        },
        Ok(directory) => {
            if !facts.is_dir {
                return Err(
                    RuntimeError::InvalidWorkingDirectory(
                        join2("working directory is not a directory: ", directory.as_str()),
                    ),
                );
            }
            if facts.is_current {
                return Ok(None);
            }
            simple(
                config_in(&current.config, directory),
                prepare_for(&current.prepare, SessionMode::Fresh),
                ReconfigureKind::ChangeDirectory,
                false,
            )
        },
    }
}

/// The complete input for a target. A change to the current directory needs none: the
/// runtime stays as it is.
pub fn resolve_reprepare_input(
    current: &CurrentRuntime,
    target: ObservedTarget,
) -> (result: Result<Option<ResolvedReprepare>, RuntimeError>)
    ensures
        match target {
            ObservedTarget::Exact(input) => result == Ok::<
                Option<ResolvedReprepare>,
                RuntimeError,
            >(Some(ResolvedReprepare { input, uses_prepared_lease: false })),
            ObservedTarget::Reload { plugin_skill_dirs } => result == Ok::<
                Option<ResolvedReprepare>,
                RuntimeError,
            >(
                Some(
                    resolved(
                        current.config,
                        PrepareOptions {
                            plugin_skill_dirs: match plugin_skill_dirs {
                                Some(dirs) => dirs,
                                None => current.prepare.plugin_skill_dirs,
                            },
                            ..for_session(
                                current.prepare,
                                match current.session_id {
                                    Some(id) => SessionMode::Resume(id),
                                    None => SessionMode::Disabled,
                                },
                            )
                        },
                        ReconfigureKind::Reprepare,
                        false,
                    ),
                ),
            ),
            ObservedTarget::Fresh => result == Ok::<Option<ResolvedReprepare>, RuntimeError>(
                Some(
                    resolved(
                        current.config,
                        for_session(current.prepare, SessionMode::Fresh),
                        ReconfigureKind::FreshSession,
                        false,
                    ),
                ),
            ),
            ObservedTarget::Resume(id) => result == Ok::<Option<ResolvedReprepare>, RuntimeError>(
                Some(
                    resolved(
                        current.config,
                        for_session(current.prepare, SessionMode::Resume(id)),
                        ReconfigureKind::ResumeSession,
                        false,
                    ),
                ),
            ),
            ObservedTarget::ResumeWithLease { id, working_dir, lease_id, facts } => if lease_id@ != id@ {
                result matches Err(RuntimeError::ReconfigureFailed(message)) && message@
                    == wrong_lease_text(lease_id@, id@)
            } else if !facts.is_absolute {
                result matches Err(RuntimeError::InvalidWorkingDirectory(message)) && message@
                    == "session working directory is not absolute: "@ + facts.printed@
            } else if !facts.is_dir {
                result matches Err(RuntimeError::InvalidWorkingDirectory(message)) && message@
                    == "session working directory is not a directory: "@ + facts.printed@
            } else {
                result == Ok::<Option<ResolvedReprepare>, RuntimeError>(
                    Some(
                        resolved(
                            in_directory(current.config, working_dir),
                            for_session(current.prepare, SessionMode::Resume(id)),
                            ReconfigureKind::ResumeSession,
                            true,
                        ),
                    ),
                )
            },
            ObservedTarget::ChangeDirectory(facts) => match facts.canonical {
                Err(error) => result matches Err(RuntimeError::InvalidWorkingDirectory(message))
                    && message@ == "cannot change directory to "@ + facts.asked@ + ": "@
                    + error@,
                Ok(canonical) => if !facts.is_dir {
                    result matches Err(RuntimeError::InvalidWorkingDirectory(message)) && message@
                        == "working directory is not a directory: "@ + canonical@
                } else if facts.is_current {
                    result == Ok::<Option<ResolvedReprepare>, RuntimeError>(None)
                } else {
                    result == Ok::<Option<ResolvedReprepare>, RuntimeError>(
                        Some(
                            resolved(
                                in_directory(current.config, canonical),
                                for_session(current.prepare, SessionMode::Fresh),
                                ReconfigureKind::ChangeDirectory,
                                false,
                            ),
                        ),
                    )
                },
            },
        },
{
    match target {
        ObservedTarget::Exact(input) => Ok(
            Some(ResolvedReprepare { input, uses_prepared_lease: false }),
        ),
        ObservedTarget::Reload { plugin_skill_dirs } => {
            let session = match &current.session_id {
                Some(id) => SessionMode::Resume(id.clone()),
                None => SessionMode::Disabled,
            };
            let mut prepare = prepare_for(&current.prepare, session);
            if let Some(dirs) = plugin_skill_dirs {
                prepare.plugin_skill_dirs = dirs;
            }
            simple(current.config.duplicate(), prepare, ReconfigureKind::Reprepare, false)
        },
        ObservedTarget::Fresh => simple(
            current.config.duplicate(),
            prepare_for(&current.prepare, SessionMode::Fresh),
            ReconfigureKind::FreshSession,
            false,
        ),
        ObservedTarget::Resume(id) => simple(
            current.config.duplicate(),
            prepare_for(&current.prepare, SessionMode::Resume(id)),
            ReconfigureKind::ResumeSession,
            false,
        ),
        ObservedTarget::ResumeWithLease { id, working_dir, lease_id, facts } =>
            resolve_resume_with_lease(current, id, working_dir, lease_id, &facts),
        ObservedTarget::ChangeDirectory(facts) => resolve_change(current, facts),
    }
}

/// Whether a session that was created for a failed operation is thrown away: only the
/// operations that create one.
pub fn discards_candidate(operation: ReconfigureKind) -> (discards: bool)
    ensures
        discards == (operation == ReconfigureKind::FreshSession || operation
            == ReconfigureKind::ChangeDirectory),
{
    operation == ReconfigureKind::FreshSession || operation == ReconfigureKind::ChangeDirectory
}

/// What is said when it could not be thrown away.
pub fn discard_failure(session_id: &str, error: &str) -> (message: String)
    ensures
        message@ == "failed to discard uncommitted session "@ + session_id@ + ": "@ + error@,
{
    let mut message = join3("failed to discard uncommitted session ", session_id, ": ");
    message.append(error);
    message
}

} // verus!
