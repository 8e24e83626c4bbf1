//! The project manifest (`commander.toml`) and the paths it resolves.
use vstd::prelude::*;

use crate::paths::{absolute_path, home_dir, is_absolute_path, join_path, joined_path, parent_of, parent_path};
use crate::text::{cat, owned, same, skip_chars, starts_with, starts_with_text, trim, trimmed};

use crate::tables::{keyed_table, sorted_keys, table_keys, unique_keys};

verus! {

#[derive(Debug, Clone)]
pub struct CommanderConfig {
    pub framework_version: String,
    pub project: ProjectConfig,
    pub runtime: RuntimeConfig,
    pub ui: UiConfig,
    pub provider: ProviderConfig,
    pub services: ServiceCatalog,
    /// The phases by name, in name order.
    pub phases: Vec<(String, PhaseConfig)>,
    /// The path the manifest was read from.
    pub source_path: String,
}

#[derive(Debug, Clone, Default)]
pub struct ProjectConfig {
    pub name: String,
    pub repo_root: String,
    pub worktree_root: String,
    pub default_phase: String,
}

#[derive(Debug, Clone, Default)]
pub struct RuntimeConfig {
    pub dir: String,
    pub poll_interval_seconds: u64,
    pub command_timeout_seconds: u64,
}

#[derive(Debug, Clone)]
pub struct UiConfig {
    pub style: String,
    pub require_live_panel_for: Vec<String>,
    pub default_stream_scope: String,
    pub default_density: String,
    pub density_persistence: String,
    pub event_buffer_size: usize,
    pub worker_list_page_size: usize,
}

#[derive(Debug, Clone, Default)]
pub struct ProviderConfig {
    pub kind: String,
    pub model_provider: String,
    pub config_path: String,
    pub default_model: String,
    pub api_mode: String,
}

#[derive(Debug, Clone, Default)]
pub struct ServiceCatalog {
    pub agent_room: Option<ServiceConfig>,
}

#[derive(Debug, Clone, Default)]
pub struct ServiceConfig {
    pub enabled: bool,
    pub url: String,
    pub auto_start: bool,
    pub command: Vec<String>,
}

#[derive(Debug, Clone, Default)]
pub struct PhaseConfig {
    pub description: String,
    pub audit_command: Vec<String>,
    pub default_start_set: Vec<String>,
    pub workers: Vec<WorkerConfig>,
}

#[derive(Debug, Clone, Default)]
pub struct WorkerConfig {
    pub name: String,
    pub branch: String,
    pub worktree: String,
    pub model: String,
    pub auto_push: bool,
    pub max_attempts: u32,
    pub timeout_seconds: u64,
    pub task_files: Vec<String>,
    pub handoff_files: Vec<String>,
    pub owned_paths: Vec<String>,
    pub validation_commands: Vec<String>,
    pub launch_command: Vec<String>,
    pub stop_command: Vec<String>,
}

/// Why a manifest lookup or check was refused.
#[derive(Debug, Clone)]
pub enum ConfigError {
    MissingDefaultPhase(String),
    UnknownPhase(String),
    VersionMismatch { config: String, workspace: String },
}

impl ConfigError {
    /// The message shown for the error.
    pub fn message(&self) -> (r: String)
        ensures
            r@ == config_error_text(*self),
    {
        match self {
            ConfigError::MissingDefaultPhase(name) => {
                let a = cat("missing default phase `", name.as_str());
                cat(a.as_str(), "` in commander.toml")
            },
            ConfigError::UnknownPhase(name) => {
                let a = cat("unknown phase `", name.as_str());
                cat(a.as_str(), "`")
            },
            ConfigError::VersionMismatch { config, workspace } => {
                let a = cat("framework version mismatch: config=", config.as_str());
                let b = cat(a.as_str(), ", workspace=");
                cat(b.as_str(), workspace.as_str())
            },
        }
    }
}

pub open spec fn config_error_text(e: ConfigError) -> Seq<char> {
    match e {
        ConfigError::MissingDefaultPhase(name) => "missing default phase `"@ + name@
            + "` in commander.toml"@,
        ConfigError::UnknownPhase(name) => "unknown phase `"@ + name@ + "`"@,
        ConfigError::VersionMismatch { config, workspace } => "framework version mismatch: config="@
            + config@ + ", workspace="@ + workspace@,
    }
}

pub fn default_poll_interval_seconds() -> (r: u64)
    ensures
        r == 5,
{
    5
}

pub fn default_command_timeout_seconds() -> (r: u64)
    ensures
        r == 600,
{
    600
}

pub fn default_worker_timeout_seconds() -> (r: u64)
    ensures
        r == 1800,
{
    1800
}

pub fn default_max_attempts() -> (r: u32)
    ensures
        r == 10,
{
    10
}

pub fn default_true() -> (r: bool)
    ensures
        r,
{
    true
}

pub fn default_ui_style() -> (r: String)
    ensures
        r@ == "hardcore-ascii"@,
{
    owned("hardcore-ascii")
}

pub fn default_start_gate_commands() -> (r: Vec<String>)
    ensures
        r@.len() == 0,
{
    Vec::new()
}

pub fn default_stream_scope() -> (r: String)
    ensures
        r@ == "all"@,
{
    owned("all")
}

pub fn default_density() -> (r: String)
    ensures
        r@ == "standard"@,
{
    owned("standard")
}

pub fn default_density_persistence() -> (r: String)
    ensures
        r@ == "session"@,
{
    owned("session")
}

pub fn default_event_buffer_size() -> (r: usize)
    ensures
        r == 5000,
{
    5000
}

pub fn default_worker_list_page_size() -> (r: usize)
    ensures
        r == 100,
{
    100
}

impl Default for UiConfig {
    fn default() -> (r: Self)
        ensures
            r.style@ == "hardcore-ascii"@,
            r.require_live_panel_for@.len() == 0,
            r.default_stream_scope@ == "all"@,
            r.default_density@ == "standard"@,
            r.density_persistence@ == "session"@,
            r.event_buffer_size == 5000,
            r.worker_list_page_size == 100,
    {
        UiConfig {
            style: default_ui_style(),
            require_live_panel_for: default_start_gate_commands(),
            default_stream_scope: default_stream_scope(),
            default_density: default_density(),
            density_persistence: default_density_persistence(),
            event_buffer_size: default_event_buffer_size(),
            worker_list_page_size: default_worker_list_page_size(),
        }
    }
}

// ---------------------------------------------------------------------------
// Path resolution
// ---------------------------------------------------------------------------

/// `~/rest` and `~` name the home directory when one is known.
pub open spec fn expanded(raw: Seq<char>, home: Option<Seq<char>>) -> Seq<char> {
    match home {
        Some(h) => if starts_with(raw, "~/"@) {
            joined_path(h, raw.subrange(2, raw.len() as int))
        } else if raw == "~"@ {
            h
        } else {
            raw
        },
        None => raw,
    }
}

/// A configured path: absolute after expansion, or joined to `base`.
pub open spec fn resolved(base: Seq<char>, raw: Seq<char>, home: Option<Seq<char>>) -> Seq<char> {
    let e = expanded(raw, home);
    if absolute_path(e) {
        e
    } else {
        joined_path(base, e)
    }
}

pub open spec fn opt_view(o: Option<String>) -> Option<Seq<char>> {
    match o {
        Some(s) => Some(s@),
        None => None,
    }
}

/// Home expansion of a configured path, given the home directory.
pub fn expand_home_in(raw: &str, home: &Option<String>) -> (r: String)
    ensures
        r@ == expanded(raw@, opt_view(*home)),
{
    match home {
        Some(h) => {
            if starts_with_text(raw, "~/") {
                let rest = skip_chars(raw, 2);
                proof {
                    reveal_strlit("~/");
                }
                return join_path(h.as_str(), rest.as_str());
            }
            if same(raw, "~") {
                return h.clone();
            }
            owned(raw)
        },
        None => owned(raw),
    }
}

/// Home expansion of a configured path, against the current home directory.
pub fn expand_home(raw: &str) -> (r: String)
    ensures
        exists|h: Option<Seq<char>>| r@ == expanded(raw@, h),
{
    let home = home_dir();
    let r = expand_home_in(raw, &home);
    assert(r@ == expanded(raw@, opt_view(home)));
    r
}

/// A configured path resolved against `base`, given the home directory.
pub fn resolve_path_in(base: &str, raw: &str, home: &Option<String>) -> (r: String)
    ensures
        r@ == resolved(base@, raw@, opt_view(*home)),
{
    let e = expand_home_in(raw, home);
    if is_absolute_path(e.as_str()) {
        return e;
    }
    join_path(base, e.as_str())
}

/// A configured path resolved against `base`, against the current home directory.
pub fn resolve_path(base: &str, raw: &str) -> (r: String)
    ensures
        exists|h: Option<Seq<char>>| r@ == resolved(base@, raw@, h),
{
    let home = home_dir();
    let r = resolve_path_in(base, raw, &home);
    assert(r@ == resolved(base@, raw@, opt_view(home)));
    r
}

/// The table entry of a phase, if any.
pub open spec fn phase_index(phases: Seq<(String, PhaseConfig)>, name: Seq<char>) -> Option<int> {
    crate::runtime::key_index(phases, name)
}

impl CommanderConfig {
    /// A manifest with its fields and the path it was read from.
    pub fn new(
        framework_version: String,
        project: ProjectConfig,
        runtime: RuntimeConfig,
        ui: UiConfig,
        provider: ProviderConfig,
        services: ServiceCatalog,
        phases: Vec<(String, PhaseConfig)>,
        source_path: String,
    ) -> (r: Self)
        ensures
            r.framework_version == framework_version,
            r.project == project,
            r.runtime == runtime,
            r.ui == ui,
            r.provider == provider,
            r.services == services,
            r.well_formed(),
            sorted_keys(phases@) ==> r.phases@ == phases@,
            forall|k: Seq<char>| table_keys(r.phases@).contains(k) <==> table_keys(phases@).contains(k),
            r.source_path_spec() == source_path@,
    {
        let phases = keyed_table(phases);
        CommanderConfig { framework_version, project, runtime, ui, provider, services, phases, source_path }
    }

    /// How many entries the session's activity feed keeps: the configured
    /// buffer size, but at least 100.
    pub fn activity_buffer_limit(&self) -> (r: usize)
        ensures
            r == if self.ui.event_buffer_size >= 100 {
                self.ui.event_buffer_size
            } else {
                100
            },
    {
        if self.ui.event_buffer_size >= 100 {
            self.ui.event_buffer_size
        } else {
            100
        }
    }

    /// The phases are in name order, each name once.
    pub open spec fn well_formed(&self) -> bool {
        sorted_keys(self.phases@) && unique_keys(self.phases@)
    }

    pub open spec fn source_path_spec(&self) -> Seq<char> {
        self.source_path@
    }

    /// The path the manifest was read from.
    pub fn source_path(&self) -> (r: &str)
        ensures
            r@ == self.source_path_spec(),
    {
        self.source_path.as_str()
    }

    pub open spec fn config_dir_spec(&self) -> Seq<char> {
        match parent_path(self.source_path_spec()) {
            Some(p) => p,
            None => "."@,
        }
    }

    pub open spec fn repo_root_spec(&self, home: Option<Seq<char>>) -> Seq<char> {
        resolved(self.config_dir_spec(), self.project.repo_root@, home)
    }

    pub open spec fn worktree_root_spec(&self, home: Option<Seq<char>>) -> Seq<char> {
        resolved(self.repo_root_spec(home), self.project.worktree_root@, home)
    }

    pub open spec fn runtime_dir_spec(&self, home: Option<Seq<char>>) -> Seq<char> {
        resolved(self.repo_root_spec(home), self.runtime.dir@, home)
    }

    pub open spec fn provider_config_path_spec(&self, home: Option<Seq<char>>) -> Option<Seq<char>> {
        let raw = trim(self.provider.config_path@);
        if raw.len() == 0 {
            None
        } else {
            Some(expanded(raw, home))
        }
    }

    /// The directory of the manifest, or `.` when the path has no parent.
    pub fn config_dir(&self) -> (r: String)
        ensures
            r@ == self.config_dir_spec(),
    {
        match parent_of(self.source_path.as_str()) {
            Some(p) => p,
            None => owned("."),
        }
    }

    pub fn repo_root_in(&self, home: &Option<String>) -> (r: String)
        ensures
            r@ == self.repo_root_spec(opt_view(*home)),
    {
        let dir = self.config_dir();
        resolve_path_in(dir.as_str(), self.project.repo_root.as_str(), home)
    }

    /// The repository root.
    pub fn repo_root(&self) -> (r: String)
        ensures
            exists|h: Option<Seq<char>>| r@ == self.repo_root_spec(h),
    {
        let home = home_dir();
        let r = self.repo_root_in(&home);
        assert(r@ == self.repo_root_spec(opt_view(home)));
        r
    }

    pub fn worktree_root_in(&self, home: &Option<String>) -> (r: String)
        ensures
            r@ == self.worktree_root_spec(opt_view(*home)),
    {
        let root = self.repo_root_in(home);
        resolve_path_in(root.as_str(), self.project.worktree_root.as_str(), home)
    }

    /// The directory that holds the worker worktrees.
    pub fn worktree_root(&self) -> (r: String)
        ensures
            exists|h: Option<Seq<char>>| r@ == self.worktree_root_spec(h),
    {
        let home = home_dir();
        let r = self.worktree_root_in(&home);
        assert(r@ == self.worktree_root_spec(opt_view(home)));
        r
    }

    pub fn runtime_dir_in(&self, home: &Option<String>) -> (r: String)
        ensures
            r@ == self.runtime_dir_spec(opt_view(*home)),
    {
        let root = self.repo_root_in(home);
        resolve_path_in(root.as_str(), self.runtime.dir.as_str(), home)
    }

    /// The runtime directory.
    pub fn runtime_dir(&self) -> (r: String)
        ensures
            exists|h: Option<Seq<char>>| r@ == self.runtime_dir_spec(h),
    {
        let home = home_dir();
        let r = self.runtime_dir_in(&home);
        assert(r@ == self.runtime_dir_spec(opt_view(home)));
        r
    }

    pub fn provider_config_path_in(&self, home: &Option<String>) -> (r: Option<String>)
        ensures
            opt_view(r) == self.provider_config_path_spec(opt_view(*home)),
    {
        let raw = trimmed(self.provider.config_path.as_str());
        if raw.unicode_len() == 0 {
            return None;
        }
        Some(expand_home_in(raw.as_str(), home))
    }

    /// The provider profile path, when one is configured.
    pub fn provider_config_path(&self) -> (r: Option<String>)
        ensures
            exists|h: Option<Seq<char>>| opt_view(r) == self.provider_config_path_spec(h),
    {
        let home = home_dir();
        let r = self.provider_config_path_in(&home);
        assert(opt_view(r) == self.provider_config_path_spec(opt_view(home)));
        r
    }

    /// The phase the manifest starts in.
    pub fn active_phase_name(&self) -> (r: &str)
        ensures
            r@ == self.project.default_phase@,
    {
        self.project.default_phase.as_str()
    }

    /// The default phase and its configuration; refused when the manifest lacks it.
    pub fn active_phase(&self) -> (r: Result<(&str, &PhaseConfig), ConfigError>)
        ensures
            match r {
                Ok((name, phase)) => name@ == self.project.default_phase@ && exists|i: int|
                    phase_index(self.phases@, name@) == Some(i) && *phase == self.phases@[i].1,
                Err(e) => phase_index(self.phases@, self.project.default_phase@) is None && (e
                    matches ConfigError::MissingDefaultPhase(n) && n@ == self.project.default_phase@),
            },
    {
        let name = self.active_phase_name();
        match crate::runtime::table_find(&self.phases, name) {
            Some(i) => Ok((name, &self.phases[i].1)),
            None => Err(ConfigError::MissingDefaultPhase(owned(name))),
        }
    }

    /// The named phase; refused when the manifest lacks it.
    pub fn phase(&self, phase_name: &str) -> (r: Result<&PhaseConfig, ConfigError>)
        ensures
            match r {
                Ok(phase) => exists|i: int|
                    phase_index(self.phases@, phase_name@) == Some(i) && *phase == self.phases@[i].1,
                Err(e) => phase_index(self.phases@, phase_name@) is None && (e
                    matches ConfigError::UnknownPhase(n) && n@ == phase_name@),
            },
    {
        match crate::runtime::table_find(&self.phases, phase_name) {
            Some(i) => Ok(&self.phases[i].1),
            None => Err(ConfigError::UnknownPhase(owned(phase_name))),
        }
    }

    /// Accepts the manifest only when its framework version is the expected one,
    /// both trimmed.
    pub fn ensure_framework_version(&self, expected: &str) -> (r: Result<(), ConfigError>)
        ensures
            r is Ok <==> trim(self.framework_version@) == trim(expected@),
            r matches Err(e) ==> e matches ConfigError::VersionMismatch { config, workspace }
                && config@ == trim(self.framework_version@) && workspace@ == trim(expected@),
    {
        let a = trimmed(self.framework_version.as_str());
        let b = trimmed(expected);
        if !same(a.as_str(), b.as_str()) {
            return Err(ConfigError::VersionMismatch { config: a, workspace: b });
        }
        Ok(())
    }
}

impl WorkerConfig {
    pub fn worktree_path_in(&self, config: &CommanderConfig, home: &Option<String>) -> (r: String)
        ensures
            r@ == resolved(config.worktree_root_spec(opt_view(*home)), self.worktree@, opt_view(*home)),
    {
        let root = config.worktree_root_in(home);
        resolve_path_in(root.as_str(), self.worktree.as_str(), home)
    }

    /// The worker's worktree.
    pub fn worktree_path(&self, config: &CommanderConfig) -> (r: String)
        ensures
            exists|h: Option<Seq<char>>|
                r@ == resolved(config.worktree_root_spec(h), self.worktree@, h),
    {
        let home = home_dir();
        let r = self.worktree_path_in(config, &home);
        assert(r@ == resolved(config.worktree_root_spec(opt_view(home)), self.worktree@, opt_view(home)));
        r
    }

    /// The worker's model, or the provider default when the worker names none.
    pub fn display_model(&self, config: &CommanderConfig) -> (r: String)
        ensures
            r@ == if trim(self.model@).len() == 0 {
                config.provider.default_model@
            } else {
                self.model@
            },
    {
        let t = trimmed(self.model.as_str());
        if t.unicode_len() == 0 {
            return config.provider.default_model.clone();
        }
        self.model.clone()
    }
}

} // verus!
