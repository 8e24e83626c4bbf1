use langgraph_commander::activity::{compact_activity, densify_message, normalize_activity_entry_at};
use langgraph_commander::config::{
    expand_home_in, resolve_path_in, CommanderConfig, ConfigError, PhaseConfig, ProjectConfig,
    ProviderConfig, RuntimeConfig, ServiceCatalog, UiConfig, WorkerConfig,
};
use langgraph_commander::policy::{
    classify_audit_result, command_matches_gate, control_is_live, control_supports_command,
    extract_audit_warning,
};
use langgraph_commander::provider::{build_profile, candidate_paths_in, CodexConfig, CodexProvider};
use langgraph_commander::runtime::{ActivityEntry, RuntimeLayout, StreamScope, WorkerSnapshot};
use langgraph_commander::stream::{
    command_target_workers, fallback_after_remote_error, render_status, sent_message,
    settle_timeout_seconds, streaming_route, view_phase_name, Fallback, StreamRoute,
};
use langgraph_commander::supervisor::{
    command_requires_live_panel, default_selected_worker, density_label, parse_command, parse_density, parse_stream_scope,
    ping_reply, review_target, stream_scope_label, worker_targets, CommandKind, SnapshotBundle,
};
use langgraph_commander::text::{cat, owned, to_lower, trimmed};

fn worker_config(name: &str, timeout: u64) -> WorkerConfig {
    WorkerConfig {
        name: name.to_string(),
        timeout_seconds: timeout,
        ..Default::default()
    }
}

fn config() -> CommanderConfig {
    CommanderConfig {
        framework_version: " 1.2.0 ".to_string(),
        project: ProjectConfig {
            name: "demo".to_string(),
            repo_root: ".".to_string(),
            worktree_root: "worktrees".to_string(),
            default_phase: "bootstrap".to_string(),
        },
        runtime: RuntimeConfig {
            dir: "runtime".to_string(),
            poll_interval_seconds: 5,
            command_timeout_seconds: 10,
        },
        ui: UiConfig::default(),
        provider: ProviderConfig::default(),
        services: ServiceCatalog::default(),
        phases: vec![
            (
                "bootstrap".to_string(),
                PhaseConfig {
                    workers: vec![worker_config("state", 90), worker_config("api-spec", 300)],
                    ..Default::default()
                },
            ),
            ("empty".to_string(), PhaseConfig::default()),
        ],
        source_path: "/work/demo/commander.toml".to_string(),
    }
}

#[test]
fn density_labels_read_back() {
    for d in [langgraph_commander::runtime::FeedDensity::Standard, langgraph_commander::runtime::FeedDensity::Realtime] {
        assert_eq!(parse_density(&density_label(d)), d);
    }
    assert_eq!(parse_density(" HIGH-density "), langgraph_commander::runtime::FeedDensity::Realtime);
    assert_eq!(parse_density("whatever"), langgraph_commander::runtime::FeedDensity::Standard);
}

#[test]
fn scope_labels_read_back() {
    for s in [
        StreamScope::All,
        StreamScope::Selected,
        StreamScope::Commander,
        StreamScope::Worker("state".to_string()),
    ] {
        assert_eq!(parse_stream_scope(&stream_scope_label(&s), ""), s);
    }
    assert_eq!(parse_stream_scope("worker", "api"), StreamScope::Worker("api".to_string()));
    assert_eq!(parse_stream_scope("Worker Beta", ""), StreamScope::Worker("beta".to_string()));
    assert_eq!(parse_stream_scope("nonsense", ""), StreamScope::All);
}

#[test]
fn commands_parse_with_their_arguments() {
    let p = parse_command("  START  state ").unwrap();
    assert_eq!(p.kind, CommandKind::Start);
    assert_eq!(p.arg, "state");
    assert_eq!(parse_command("?").unwrap().kind, CommandKind::Help);
    assert_eq!(parse_command("status").unwrap().kind, CommandKind::Refresh);
    assert_eq!(parse_command("").unwrap().kind, CommandKind::Empty);
    let ping = parse_command("ping  hello there").unwrap();
    assert_eq!(ping.kind, CommandKind::Ping);
    assert_eq!(ping.arg, "hello there");
    assert_eq!(parse_command(" frobnicate now ").unwrap_err(), "unknown command: frobnicate now");
    assert_eq!(ping_reply(""), "pong");
    assert_eq!(ping_reply("x"), "PING x");
    assert_eq!(review_target("  "), "all");
    assert_eq!(review_target(" state "), "state");
}

#[test]
fn manifest_lookups_and_their_errors() {
    let c = config();
    assert!(c.ensure_framework_version("1.2.0").is_ok());
    match c.ensure_framework_version("1.3.0") {
        Err(e) => assert_eq!(e.message(), "framework version mismatch: config=1.2.0, workspace=1.3.0"),
        Ok(()) => panic!("a different version is refused"),
    }
    match c.phase("nope") {
        Err(e) => assert_eq!(e.message(), "unknown phase `nope`"),
        Ok(_) => panic!("an unknown phase is refused"),
    }
    let mut missing = config();
    missing.project.default_phase = "later".to_string();
    match missing.active_phase() {
        Err(ConfigError::MissingDefaultPhase(name)) => assert_eq!(name, "later"),
        _ => panic!("a missing default phase is refused"),
    }
    assert_eq!(default_selected_worker(&c, "bootstrap"), "state");
    assert_eq!(default_selected_worker(&c, "empty"), "");
    assert_eq!(default_selected_worker(&c, "nope"), "");
    assert_eq!(c.config_dir(), "/work/demo");
}

#[test]
fn paths_resolve_against_base_and_home() {
    let home = Some("/home/ada".to_string());
    assert_eq!(expand_home_in("~/notes", &home), "/home/ada/notes");
    assert_eq!(expand_home_in("~", &home), "/home/ada");
    assert_eq!(expand_home_in("~/notes", &None), "~/notes");
    assert_eq!(resolve_path_in("/work/demo", "runtime", &home), "/work/demo/runtime");
    assert_eq!(resolve_path_in("/work/demo", "/var/run", &home), "/var/run");
    assert_eq!(resolve_path_in("/work/demo", "~/rt", &home), "/home/ada/rt");
    let c = config();
    assert_eq!(c.runtime_dir_in(&home), "/work/demo/./runtime");
    let layout = RuntimeLayout::new("/rt");
    assert_eq!(layout.status_file, "/rt/status.json");
    assert_eq!(layout.remote_inbox_dir, "/rt/remote/inbox");
    assert_eq!(layout.worker_thread_state_file("state"), "/rt/threads/state/state.json");
}

#[test]
fn text_building_blocks() {
    assert_eq!(owned("abc"), "abc");
    assert_eq!(cat("ab", "cd"), "abcd");
    assert_eq!(to_lower("MiXeD É"), "mixed É");
    assert_eq!(trimmed("\t x y \n"), "x y");
}

#[test]
fn start_and_stop_targets() {
    let c = config();
    let phase = &c.phases[0].1;
    assert_eq!(worker_targets(phase, "ALL"), vec!["state".to_string(), "api-spec".to_string()]);
    assert_eq!(worker_targets(phase, "state"), vec!["state".to_string()]);
    assert_eq!(command_target_workers(&c, " start all ").unwrap().len(), 2);
    assert_eq!(command_target_workers(&c, "start  ui ").unwrap(), vec!["ui".to_string()]);
    assert!(command_target_workers(&c, "stop all").unwrap().is_empty());
}

#[test]
fn waiting_uses_the_longest_target_timeout() {
    let c = config();
    assert_eq!(settle_timeout_seconds(&c, &vec!["state".to_string()]).unwrap(), 150);
    assert_eq!(
        settle_timeout_seconds(&c, &vec!["state".to_string(), "api-spec".to_string()]).unwrap(),
        360
    );
    assert_eq!(settle_timeout_seconds(&c, &vec!["ghost".to_string()]).unwrap(), 90);
    assert_eq!(view_phase_name(&c, "empty"), "empty");
    assert_eq!(view_phase_name(&c, "unknown"), "bootstrap");
    assert_eq!(view_phase_name(&c, "  "), "bootstrap");
}

#[test]
fn routing_after_a_remote_error() {
    let no_live = "no live LangGraph-Commander session is running";
    assert_eq!(fallback_after_remote_error(true, false, no_live, false), Fallback::PanelRequired);
    assert_eq!(fallback_after_remote_error(true, false, "repo mismatch: x", true), Fallback::PanelRequired);
    assert_eq!(fallback_after_remote_error(false, true, no_live, false), Fallback::Fail);
    assert_eq!(fallback_after_remote_error(false, false, "disk full", false), Fallback::Fail);
    assert_eq!(fallback_after_remote_error(false, false, no_live, false), Fallback::OneShot);
    assert_eq!(fallback_after_remote_error(false, false, no_live, true), Fallback::LocalSession);
    assert_eq!(streaming_route(true, true, true), StreamRoute::Remote);
    assert_eq!(streaming_route(false, true, false), StreamRoute::PanelRequired);
    assert_eq!(streaming_route(false, false, true), StreamRoute::NoSession);
    assert_eq!(streaming_route(false, false, false), StreamRoute::Local);
    assert_eq!(sent_message("check", "12:00"), "sent `check` at 12:00");
}

#[test]
fn status_report_lists_state_and_workers() {
    let mut snapshot = SnapshotBundle::default();
    snapshot.status.project_name = "demo".to_string();
    snapshot.status.phase = "bootstrap".to_string();
    snapshot.status.last_check_warning = "stale ref".to_string();
    snapshot.status.workers = vec![WorkerSnapshot {
        name: "state".to_string(),
        status: "running".to_string(),
        git_clean: true,
        ..Default::default()
    }];
    let report = render_status(&snapshot);
    let lines: Vec<&str> = report.lines().collect();
    assert_eq!(lines[0], "project=demo");
    assert_eq!(lines[3], "activation_required=false");
    assert_eq!(lines[7], "patrol_enabled=false");
    assert_eq!(lines[8], "last_check_warning=stale ref");
    assert_eq!(
        lines[9],
        "state status=running handoff= git_clean=true launch_blocked=false scope=full pending_action=none activity=none"
    );
    assert_eq!(lines.len(), 10);
}

#[test]
fn audits_are_classified_by_exit_and_warnings() {
    let pass = classify_audit_result(0, "all good\nOverall: PASS");
    assert_eq!(pass.status_label, "PASS");
    let warn = classify_audit_result(0, "WARN: stale ref\n  WARN: dirty tree");
    assert_eq!(warn.status_label, "WARN");
    assert_eq!(warn.warning, "stale ref | dirty tree");
    let fail = classify_audit_result(2, "broken");
    assert_eq!(fail.status_label, "FAIL");
    assert_eq!(fail.state_label, "blocked");
    assert_eq!(extract_audit_warning("nothing"), "");
}

#[test]
fn live_control_and_command_gates() {
    assert!(control_is_live(true, 10_000, 17_000));
    assert!(!control_is_live(true, 10_000, 19_000));
    assert!(!control_is_live(false, 10_000, 10_000));
    let supported = vec!["start all|<worker>".to_string(), "check".to_string()];
    assert!(control_supports_command(&supported, "START state"));
    assert!(!control_supports_command(&supported, "frobnicate"));
    let gates = vec!["start".to_string()];
    assert!(command_matches_gate(&gates, " start all"));
    assert!(!command_matches_gate(&gates, "stop all"));
}

#[test]
fn live_panel_gate_follows_the_configured_commands() {
    let mut c = config();
    assert!(!command_requires_live_panel(&c, "start all"));
    c.ui.require_live_panel_for = vec![" Start ".to_string(), "phase".to_string()];
    assert!(command_requires_live_panel(&c, "  start all  "));
    assert!(command_requires_live_panel(&c, "PHASE build"));
    assert!(!command_requires_live_panel(&c, "stop all"));
    assert!(!command_requires_live_panel(&c, "   "));
}

#[test]
fn activity_entries_are_densified_and_compacted() {
    assert_eq!(densify_message("  a \n  b\tc  "), "a b c");
    let mut entry = ActivityEntry {
        message: "  hello\n world ".to_string(),
        ..Default::default()
    };
    let mut next: u64 = 5;
    normalize_activity_entry_at(&mut entry, &mut next, "2026-03-17 10:00:00");
    assert_eq!(entry.seq, 5);
    assert_eq!(next, 6);
    assert_eq!(entry.dense_message, "hello world");
    assert_eq!(entry.timestamp, "2026-03-17 10:00:00");
    let same = ActivityEntry { message: "x".to_string(), ..Default::default() };
    let (kept, next_seq) = compact_activity(vec![same.clone(), same.clone(), same], 10, "t");
    assert_eq!(kept.len(), 1);
    assert_eq!(kept[0].repeat_count, 3);
    assert!(next_seq >= 1);
}

#[test]
fn provider_profile_reads_the_named_provider() {
    let parsed = CodexConfig {
        model_provider: " corp ".to_string(),
        model: "gpt-5".to_string(),
        model_providers: vec![(
            "corp".to_string(),
            CodexProvider {
                base_url: "https://llm.corp".to_string(),
                wire_api: "responses".to_string(),
                api_key: "SECRET-REDACTED".to_string(),
                experimental_bearer_token: String::new(),
            },
        )],
    };
    let profile = build_profile(parsed, "/home/ada/.codex/config.toml".to_string());
    assert_eq!(profile.provider_name, "corp");
    assert_eq!(profile.base_url, "https://llm.corp");
    assert!(profile.api_key_present);
}

#[test]
fn codex_configuration_candidates_keep_their_order() {
    let all = candidate_paths_in(
        Some("/etc/codex.toml".to_string()),
        Some("/srv/codex/config.toml".to_string()),
        Some("/srv/codex".to_string()),
        Some("/home/peter".to_string()),
    );
    assert_eq!(
        all,
        vec![
            "/etc/codex.toml".to_string(),
            "/srv/codex/config.toml".to_string(),
            "/home/peter/.codex/config.toml".to_string(),
        ]
    );
    let none = candidate_paths_in(None, None, None, None);
    assert!(none.is_empty());
    let home_only = candidate_paths_in(None, None, None, Some("/h".to_string()));
    assert_eq!(home_only, vec!["/h/.codex/config.toml".to_string()]);
}
