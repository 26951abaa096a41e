use std::sync::Arc;

use atomcode_coding::config::{
    CodingAgentConfig, PluginSkillDir, PrepareOptions, SessionMode,
};
use atomcode_coding::control::{ReprepareInput, ReprepareTarget};
use atomcode_coding::error::RuntimeError;
use atomcode_coding::event::ReconfigureKind;
use atomcode_coding::reprepare::{
    discard_failure, discards_candidate, inherits_continuity, lease_source,
    resolve_reprepare_input, reuses_session, withdraws_tools, ChangeFacts, CurrentRuntime,
    DirectoryFacts, LeaseSource, ObservedTarget,
};

fn current(session: Option<&str>) -> CurrentRuntime {
    CurrentRuntime {
        config: CodingAgentConfig::new("key", "https://example.test/v1", "test", "/here"),
        prepare: PrepareOptions {
            session: SessionMode::Disabled,
            plugin_skill_dirs: Arc::new(vec![]),
            request_user_input: true,
            mcp: false,
            memory: false,
            web: false,
            review: false,
        },
        session_id: session.map(|id| id.to_string()),
    }
}

fn resume(lease_id: &str, is_absolute: bool, is_dir: bool) -> ObservedTarget {
    ObservedTarget::ResumeWithLease {
        id: "target-session".into(),
        working_dir: "/there".into(),
        lease_id: lease_id.into(),
        facts: DirectoryFacts { is_absolute, is_dir, printed: "/there".into() },
    }
}

fn change(canonical: Result<&str, &str>, is_dir: bool, is_current: bool) -> ObservedTarget {
    ObservedTarget::ChangeDirectory(ChangeFacts {
        asked: "/asked".into(),
        canonical: canonical.map(|s| s.to_string()).map_err(|s| s.to_string()),
        is_dir,
        is_current,
    })
}

#[test]
fn change_directory_to_current_path_is_a_runtime_noop() {
    assert_eq!(
        resolve_reprepare_input(&current(None), change(Ok("/here"), true, true)),
        Ok(None)
    );
}

#[test]
fn a_change_of_directory_starts_a_fresh_session_there() {
    let resolved = resolve_reprepare_input(&current(Some("s")), change(Ok("/there"), true, false))
        .unwrap()
        .unwrap();
    assert_eq!(resolved.input.config.working_dir, "/there");
    assert_eq!(resolved.input.prepare.session, SessionMode::Fresh);
    assert_eq!(resolved.input.operation, ReconfigureKind::ChangeDirectory);
    assert!(!resolved.uses_prepared_lease);
    assert_eq!(
        resolve_reprepare_input(&current(None), change(Err("no such file"), true, false)),
        Err(RuntimeError::InvalidWorkingDirectory(
            "cannot change directory to /asked: no such file".into()
        ))
    );
    assert_eq!(
        resolve_reprepare_input(&current(None), change(Ok("/file"), false, false)),
        Err(RuntimeError::InvalidWorkingDirectory(
            "working directory is not a directory: /file".into()
        ))
    );
}

#[test]
fn prepared_resume_rejects_a_lease_for_another_session() {
    assert_eq!(
        resolve_reprepare_input(&current(None), resume("other-session", true, true)),
        Err(RuntimeError::ReconfigureFailed(
            "prepared session lease is for \"other-session\", not \"target-session\"".into()
        ))
    );
    assert_eq!(
        resolve_reprepare_input(&current(None), resume("target-session", false, true)),
        Err(RuntimeError::InvalidWorkingDirectory(
            "session working directory is not absolute: /there".into()
        ))
    );
    assert_eq!(
        resolve_reprepare_input(&current(None), resume("target-session", true, false)),
        Err(RuntimeError::InvalidWorkingDirectory(
            "session working directory is not a directory: /there".into()
        ))
    );
}

#[test]
fn prepared_resume_transfers_exact_lease_and_keeps_old_snapshot_unchanged() {
    let resolved = resolve_reprepare_input(&current(None), resume("target-session", true, true))
        .unwrap()
        .unwrap();
    assert!(resolved.uses_prepared_lease);
    assert_eq!(resolved.input.config.working_dir, "/there");
    assert_eq!(
        resolved.input.prepare.session,
        SessionMode::Resume("target-session".into())
    );
}

#[test]
fn a_reload_goes_back_to_the_current_session() {
    let dirs = Arc::new(vec![PluginSkillDir { path: "/plugins/x".into(), plugin: "x".into() }]);
    let resolved = resolve_reprepare_input(
        &current(Some("s")),
        ObservedTarget::Reload { plugin_skill_dirs: Some(dirs.clone()) },
    )
    .unwrap()
    .unwrap();
    assert_eq!(resolved.input.prepare.session, SessionMode::Resume("s".into()));
    assert_eq!(resolved.input.prepare.plugin_skill_dirs, dirs);
    assert_eq!(resolved.input.operation, ReconfigureKind::Reprepare);
    let sessionless =
        resolve_reprepare_input(&current(None), ObservedTarget::Reload { plugin_skill_dirs: None })
            .unwrap()
            .unwrap();
    assert_eq!(sessionless.input.prepare.session, SessionMode::Disabled);
}

#[test]
fn the_other_targets_are_taken_as_they_are() {
    let fresh = resolve_reprepare_input(&current(Some("s")), ObservedTarget::Fresh)
        .unwrap()
        .unwrap();
    assert_eq!(fresh.input.operation, ReconfigureKind::FreshSession);
    assert_eq!(fresh.input.config, current(None).config);
    let resumed = resolve_reprepare_input(&current(None), ObservedTarget::Resume("r".into()))
        .unwrap()
        .unwrap();
    assert_eq!(resumed.input.prepare.session, SessionMode::Resume("r".into()));
    let input = ReprepareInput {
        config: CodingAgentConfig::new("k", "u", "m", "/x"),
        prepare: current(None).prepare,
        operation: ReconfigureKind::Undo,
    };
    let exact = resolve_reprepare_input(&current(None), ObservedTarget::Exact(input.clone()))
        .unwrap()
        .unwrap();
    assert_eq!(exact.input, input);
}

#[test]
fn a_session_is_reused_only_under_its_own_id() {
    assert!(reuses_session(&Some("s".into()), &SessionMode::Resume("s".into())));
    assert!(!reuses_session(&Some("s".into()), &SessionMode::Resume("t".into())));
    assert!(!reuses_session(&Some("s".into()), &SessionMode::Fresh));
    assert!(!reuses_session(&None, &SessionMode::Resume("s".into())));
}

#[test]
fn only_created_sessions_are_discarded() {
    assert!(discards_candidate(ReconfigureKind::FreshSession));
    assert!(discards_candidate(ReconfigureKind::ChangeDirectory));
    assert!(!discards_candidate(ReconfigureKind::ResumeSession));
    assert_eq!(
        discard_failure("s1", "busy"),
        "failed to discard uncommitted session s1: busy"
    );
}

#[test]
fn leases_are_handed_over_kept_or_taken_anew() {
    let current = Some("s".to_string());
    let same = SessionMode::Resume("s".into());
    let other = SessionMode::Resume("t".into());
    assert_eq!(lease_source(true, &current, &same), LeaseSource::Prepared);
    assert_eq!(lease_source(false, &current, &same), LeaseSource::Current);
    assert_eq!(lease_source(false, &current, &other), LeaseSource::Fresh);
    assert_eq!(lease_source(false, &None, &same), LeaseSource::Fresh);
    assert_eq!(lease_source(false, &current, &SessionMode::Fresh), LeaseSource::Fresh);
    assert!(withdraws_tools(&ReprepareTarget::Reload { plugin_skill_dirs: None }));
    assert!(!withdraws_tools(&ReprepareTarget::Fresh));
    assert!(inherits_continuity(ReconfigureKind::Reprepare));
    assert!(!inherits_continuity(ReconfigureKind::FreshSession));
}
