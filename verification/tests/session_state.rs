use std::collections::BTreeMap;

use codex_logic::session::SessionIdentity;
use codex_logic::session::SessionLifecycleState;
use codex_logic::session_policy::SessionPolicyAction;
use codex_logic::session_policy::SessionPolicyDecision;
use codex_logic::session_policy::SessionPolicyError;
use codex_logic::session_policy::SessionPolicyRequest;
use codex_logic::session_state::SessionEnvironmentState;
use codex_logic::session_state::SessionEnvironmentUpdate;
use codex_logic::session_state::SessionServiceTierUpdate;
use codex_logic::session_state::SessionSettingsSnapshot;
use codex_logic::session_state::SessionSettingsUpdate;
use codex_logic::session_state::SessionStateSnapshot;
use codex_logic::session_state::SessionWorkspaceRoots;
use codex_logic::session_state::SessionWorkspaceRootsUpdate;

fn path(value: &str) -> String {
    value.to_string()
}

fn settings_snapshot() -> SessionSettingsSnapshot {
    let mut snapshot = SessionSettingsSnapshot::new(SessionWorkspaceRoots::new(
        path("C:/repo"),
        vec![path("C:/repo")],
        vec![path("C:/profile-root")],
    ));
    snapshot.service_tier = Some("flex".to_string());
    snapshot.environment = SessionEnvironmentState::new(vec!["web".to_string()]);
    snapshot.config_metadata = BTreeMap::from([("source".to_string(), "project".to_string())]);
    snapshot
}

#[test]
fn settings_update_preserves_workspace_roots_when_omitted() {
    let mut snapshot = settings_snapshot();

    snapshot.apply_update(SessionSettingsUpdate {
        service_tier: SessionServiceTierUpdate::Assign("priority".to_string()),
        ..Default::default()
    });

    assert_eq!(snapshot.workspace_roots.cwd, path("C:/repo"));
    assert_eq!(snapshot.workspace_roots.runtime_workspace_roots, vec![path("C:/repo")]);
    assert_eq!(snapshot.workspace_roots.profile_workspace_roots, vec![path("C:/profile-root")]);
    assert_eq!(snapshot.service_tier, Some("priority".to_string()));
}

#[test]
fn workspace_root_update_replaces_runtime_roots_without_dropping_profile_roots() {
    let mut snapshot = settings_snapshot();

    snapshot.apply_update(SessionSettingsUpdate {
        workspace_roots: Some(SessionWorkspaceRootsUpdate {
            runtime_workspace_roots: Some(vec![path("D:/work"), path("E:/shared")]),
            ..Default::default()
        }),
        ..Default::default()
    });

    assert_eq!(
        snapshot.workspace_roots.runtime_workspace_roots,
        vec![path("D:/work"), path("E:/shared")]
    );
    assert_eq!(snapshot.workspace_roots.profile_workspace_roots, vec![path("C:/profile-root")]);
}

#[test]
fn service_tier_update_distinguishes_preserve_set_and_clear() {
    let mut snapshot = settings_snapshot();

    snapshot.apply_update(SessionSettingsUpdate::default());
    assert_eq!(snapshot.service_tier, Some("flex".to_string()));

    snapshot.apply_update(SessionSettingsUpdate {
        service_tier: SessionServiceTierUpdate::Assign("priority".to_string()),
        ..Default::default()
    });
    assert_eq!(snapshot.service_tier, Some("priority".to_string()));

    snapshot.apply_update(SessionSettingsUpdate {
        service_tier: SessionServiceTierUpdate::Clear,
        ..Default::default()
    });
    assert_eq!(snapshot.service_tier, None);
}

#[test]
fn environment_update_distinguishes_preserve_disable_and_replace() {
    let mut snapshot = settings_snapshot();

    snapshot.apply_update(SessionSettingsUpdate::default());
    assert_eq!(snapshot.environment.selected_environments, vec!["web".to_string()]);

    snapshot.apply_update(SessionSettingsUpdate {
        environment: SessionEnvironmentUpdate::Disable,
        ..Default::default()
    });
    assert_eq!(snapshot.environment.selected_environments, Vec::<String>::new());

    snapshot.apply_update(SessionSettingsUpdate {
        environment: SessionEnvironmentUpdate::Replace(vec!["web".to_string(), "browser".to_string()]),
        ..Default::default()
    });
    assert_eq!(
        snapshot.environment.selected_environments,
        vec!["web".to_string(), "browser".to_string()]
    );
}

#[test]
fn config_metadata_update_replaces_previous_config_state() {
    let mut snapshot = settings_snapshot();

    snapshot.apply_update(SessionSettingsUpdate {
        config_metadata: Some(BTreeMap::from([
            ("source".to_string(), "cloud".to_string()),
            ("requirements".to_string(), "network".to_string()),
        ])),
        ..Default::default()
    });

    assert_eq!(
        snapshot.config_metadata,
        BTreeMap::from([
            ("requirements".to_string(), "network".to_string()),
            ("source".to_string(), "cloud".to_string()),
        ])
    );
}

#[test]
fn applying_an_update_twice_equals_applying_it_once() {
    let update = || SessionSettingsUpdate {
        workspace_roots: Some(SessionWorkspaceRootsUpdate {
            cwd: Some(path("/w")),
            ..Default::default()
        }),
        service_tier: SessionServiceTierUpdate::Clear,
        environment: SessionEnvironmentUpdate::Disable,
        config_metadata: None,
    };
    let mut once = settings_snapshot();
    once.apply_update(update());
    let mut twice = settings_snapshot();
    twice.apply_update(update());
    twice.apply_update(update());
    assert_eq!(once, twice);
    assert_eq!(once.workspace_roots.cwd, path("/w"));
}

#[test]
fn empty_update_keeps_settings() {
    let mut snapshot = settings_snapshot();
    snapshot.apply_update(SessionSettingsUpdate::default());
    assert_eq!(snapshot, settings_snapshot());
}

fn identity() -> SessionIdentity {
    SessionIdentity::new("67e55044-10b1-426f-9247-bb680e5fe0c7".to_string())
}

#[test]
fn state_snapshot_starts_without_metadata_or_pending_input() {
    let snapshot = SessionStateSnapshot::new(identity(), SessionLifecycleState::Created);
    assert!(snapshot.metadata.is_empty());
    assert_eq!(snapshot.pending_input_count, 0);
}

#[test]
fn policy_decisions_carry_denial_reasons() {
    let allowed = SessionPolicyDecision::allow();
    assert!(allowed.allowed);
    assert_eq!(allowed.reason, None);
    let denied = SessionPolicyDecision::deny("read only".to_string());
    assert!(!denied.allowed);
    assert_eq!(denied.reason, Some("read only".to_string()));
    let request = SessionPolicyRequest::new(identity(), SessionPolicyAction::Shutdown);
    assert_eq!(request.action, SessionPolicyAction::Shutdown);
    assert_eq!(
        SessionPolicyError::Failed("boom".to_string()).message(),
        "session policy evaluation failed: boom"
    );
}
