//! Session settings that can be saved, handed over or patched: each update
//! replaces what it names and keeps what it omits.
use vstd::prelude::*;

use std::collections::BTreeMap;

use crate::session::SessionIdentity;
use crate::session::SessionLifecycleState;

verus! {

/// Workspace roots active for a session; paths are kept as text.
#[derive(Clone, Debug, PartialEq, Eq)]
pub struct SessionWorkspaceRoots {
    pub cwd: String,
    pub runtime_workspace_roots: Vec<String>,
    pub profile_workspace_roots: Vec<String>,
}

/// Partial update of the workspace roots: `None` keeps a field.
#[derive(Clone, Debug, PartialEq, Eq)]
pub struct SessionWorkspaceRootsUpdate {
    pub cwd: Option<String>,
    pub runtime_workspace_roots: Option<Vec<String>>,
    pub profile_workspace_roots: Option<Vec<String>>,
}

impl Default for SessionWorkspaceRootsUpdate {
    fn default() -> (r: Self)
        ensures
            r.cwd is None,
            r.runtime_workspace_roots is None,
            r.profile_workspace_roots is None,
    {
        SessionWorkspaceRootsUpdate { cwd: None, runtime_workspace_roots: None, profile_workspace_roots: None }
    }
}

pub open spec fn keep_or<T>(update: Option<T>, current: T) -> T {
    match update {
        Some(v) => v,
        None => current,
    }
}

impl SessionWorkspaceRoots {
    pub fn new(cwd: String, runtime_workspace_roots: Vec<String>, profile_workspace_roots: Vec<String>) -> (r:
        Self)
        ensures
            r.cwd == cwd,
            r.runtime_workspace_roots == runtime_workspace_roots,
            r.profile_workspace_roots == profile_workspace_roots,
    {
        SessionWorkspaceRoots { cwd, runtime_workspace_roots, profile_workspace_roots }
    }

    pub open spec fn updated(self, update: SessionWorkspaceRootsUpdate) -> SessionWorkspaceRoots {
        SessionWorkspaceRoots {
            cwd: keep_or(update.cwd, self.cwd),
            runtime_workspace_roots: keep_or(update.runtime_workspace_roots, self.runtime_workspace_roots),
            profile_workspace_roots: keep_or(update.profile_workspace_roots, self.profile_workspace_roots),
        }
    }

    /// Applies a partial update, keeping the fields it omits.
    pub fn apply_update(&mut self, update: SessionWorkspaceRootsUpdate)
        ensures
            *final(self) == old(self).updated(update),
    {
        if let Some(cwd) = update.cwd {
            self.cwd = cwd;
        }
        if let Some(runtime_workspace_roots) = update.runtime_workspace_roots {
            self.runtime_workspace_roots = runtime_workspace_roots;
        }
        if let Some(profile_workspace_roots) = update.profile_workspace_roots {
            self.profile_workspace_roots = profile_workspace_roots;
        }
    }
}

/// Update of the service tier: keep it, clear it or assign a new one.
#[derive(Clone, Debug, PartialEq, Eq)]
pub enum SessionServiceTierUpdate {
    Preserve,
    Clear,
    Assign(String),
}

impl Default for SessionServiceTierUpdate {
    fn default() -> (r: Self)
        ensures
            r is Preserve,
    {
        SessionServiceTierUpdate::Preserve
    }
}

pub open spec fn tier_after(update: SessionServiceTierUpdate, current: Option<String>) -> Option<String> {
    match update {
        SessionServiceTierUpdate::Preserve => current,
        SessionServiceTierUpdate::Clear => None,
        SessionServiceTierUpdate::Assign(t) => Some(t),
    }
}

/// The environments selected for a session.
#[derive(Clone, Debug, PartialEq, Eq)]
pub struct SessionEnvironmentState {
    pub selected_environments: Vec<String>,
}

impl Default for SessionEnvironmentState {
    fn default() -> (r: Self)
        ensures
            r.selected_environments@.len() == 0,
    {
        SessionEnvironmentState { selected_environments: Vec::new() }
    }
}

/// Update of the environment selection: keep it, select none, or replace it.
#[derive(Clone, Debug, PartialEq, Eq)]
pub enum SessionEnvironmentUpdate {
    Preserve,
    Disable,
    Replace(Vec<String>),
}

impl Default for SessionEnvironmentUpdate {
    fn default() -> (r: Self)
        ensures
            r is Preserve,
    {
        SessionEnvironmentUpdate::Preserve
    }
}

pub open spec fn environments_after(update: SessionEnvironmentUpdate, current: Seq<String>) -> Seq<String> {
    match update {
        SessionEnvironmentUpdate::Preserve => current,
        SessionEnvironmentUpdate::Disable => Seq::<String>::empty(),
        SessionEnvironmentUpdate::Replace(v) => v@,
    }
}

impl SessionEnvironmentState {
    pub fn new(selected_environments: Vec<String>) -> (r: Self)
        ensures
            r.selected_environments == selected_environments,
    {
        SessionEnvironmentState { selected_environments }
    }

    /// Applies an environment update.
    pub fn apply_update(&mut self, update: SessionEnvironmentUpdate)
        ensures
            final(self).selected_environments@ == environments_after(update, old(self).selected_environments@),
    {
        match update {
            SessionEnvironmentUpdate::Preserve => {},
            SessionEnvironmentUpdate::Disable => self.selected_environments.clear(),
            SessionEnvironmentUpdate::Replace(selected_environments) => {
                self.selected_environments = selected_environments;
            },
        }
    }
}

/// Session settings that can be saved, handed over or patched.
#[derive(Clone, Debug, PartialEq, Eq)]
pub struct SessionSettingsSnapshot {
    pub workspace_roots: SessionWorkspaceRoots,
    pub service_tier: Option<String>,
    pub environment: SessionEnvironmentState,
    pub config_metadata: BTreeMap<String, String>,
}

/// Partial update of session settings.
#[derive(Clone, Debug, PartialEq, Eq)]
pub struct SessionSettingsUpdate {
    pub workspace_roots: Option<SessionWorkspaceRootsUpdate>,
    pub service_tier: SessionServiceTierUpdate,
    pub environment: SessionEnvironmentUpdate,
    pub config_metadata: Option<BTreeMap<String, String>>,
}

impl Default for SessionSettingsUpdate {
    fn default() -> (r: Self)
        ensures
            r.workspace_roots is None,
            r.service_tier is Preserve,
            r.environment is Preserve,
            r.config_metadata is None,
    {
        SessionSettingsUpdate {
            workspace_roots: None,
            service_tier: SessionServiceTierUpdate::Preserve,
            environment: SessionEnvironmentUpdate::Preserve,
            config_metadata: None,
        }
    }
}

impl SessionSettingsSnapshot {
    /// Settings with the given roots and no service tier, environment or metadata.
    pub fn new(workspace_roots: SessionWorkspaceRoots) -> (r: Self)
        ensures
            r.workspace_roots == workspace_roots,
            r.service_tier is None,
            r.environment.selected_environments@.len() == 0,
            r.config_metadata@ == Map::<String, String>::empty(),
    {
        SessionSettingsSnapshot {
            workspace_roots,
            service_tier: None,
            environment: SessionEnvironmentState::default(),
            config_metadata: BTreeMap::new(),
        }
    }

    /// Applies a partial update, keeping every setting it omits.
    pub fn apply_update(&mut self, update: SessionSettingsUpdate)
        ensures
            final(self).workspace_roots == match update.workspace_roots {
                Some(u) => old(self).workspace_roots.updated(u),
                None => old(self).workspace_roots,
            },
            final(self).service_tier == tier_after(update.service_tier, old(self).service_tier),
            final(self).environment.selected_environments@ == environments_after(
                update.environment,
                old(self).environment.selected_environments@,
            ),
            final(self).config_metadata == keep_or(update.config_metadata, old(self).config_metadata),
    {
        if let Some(workspace_roots) = update.workspace_roots {
            self.workspace_roots.apply_update(workspace_roots);
        }
        match update.service_tier {
            SessionServiceTierUpdate::Preserve => {},
            SessionServiceTierUpdate::Clear => self.service_tier = None,
            SessionServiceTierUpdate::Assign(service_tier) => self.service_tier = Some(service_tier),
        }
        self.environment.apply_update(update.environment);
        if let Some(config_metadata) = update.config_metadata {
            self.config_metadata = config_metadata;
        }
    }
}

/// Compact snapshot of a session for storage or handoff.
#[derive(Clone, Debug, PartialEq, Eq)]
pub struct SessionStateSnapshot {
    pub identity: SessionIdentity,
    pub lifecycle: SessionLifecycleState,
    pub metadata: BTreeMap<String, String>,
    pub pending_input_count: usize,
}

impl SessionStateSnapshot {
    /// A snapshot with no metadata and no pending input.
    pub fn new(identity: SessionIdentity, lifecycle: SessionLifecycleState) -> (r: Self)
        ensures
            r.identity == identity,
            r.lifecycle == lifecycle,
            r.metadata@ == Map::<String, String>::empty(),
            r.pending_input_count == 0,
    {
        SessionStateSnapshot { identity, lifecycle, metadata: BTreeMap::new(), pending_input_count: 0 }
    }
}

/// An update that names nothing leaves every setting as it was.
pub proof fn law_empty_update_keeps_settings(roots: SessionWorkspaceRoots, tier: Option<String>, envs: Seq<String>)
    ensures
        roots.updated(
            SessionWorkspaceRootsUpdate { cwd: None, runtime_workspace_roots: None, profile_workspace_roots: None },
        ) == roots,
        tier_after(SessionServiceTierUpdate::Preserve, tier) == tier,
        environments_after(SessionEnvironmentUpdate::Preserve, envs) == envs,
{
}

/// Applying the same update twice gives what applying it once gives.
pub proof fn law_updates_are_idempotent(
    roots: SessionWorkspaceRoots,
    roots_update: SessionWorkspaceRootsUpdate,
    tier: Option<String>,
    tier_update: SessionServiceTierUpdate,
    envs: Seq<String>,
    env_update: SessionEnvironmentUpdate,
)
    ensures
        roots.updated(roots_update).updated(roots_update) == roots.updated(roots_update),
        tier_after(tier_update, tier_after(tier_update, tier)) == tier_after(tier_update, tier),
        environments_after(env_update, environments_after(env_update, envs)) == environments_after(
            env_update,
            envs,
        ),
{
}

} // verus!
