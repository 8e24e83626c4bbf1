use langgraph_commander::activity::compact_activity;
use langgraph_commander::runtime::ActivityEntry;
use langgraph_commander::supervisor::{
    coordination_finished, coordination_progress_line, coordination_run, coordination_started_line,
};
use langgraph_commander::panel::snapshot_refresh_due;
use langgraph_commander::workers::{already_running_message, launch_env};
use langgraph_commander::config::{
    CommanderConfig, PhaseConfig, ProjectConfig, ProviderConfig, RuntimeConfig, ServiceCatalog,
    UiConfig, WorkerConfig,
};
use langgraph_commander::runtime::{
    CoordinationReviewSnapshot, CoordinationSnapshot, CoordinationWorkerSnapshot, FeedDensity,
    PatrolStatus, StatusSnapshot, StreamScope, WorkerThreadState,
};
use langgraph_commander::supervisor::{
    apply_audit, command_output_text, initial_supervisor_state_in, refresh_patrol, AuditRecord,
    UiState,
};
use langgraph_commander::tables::{keyed_table, text_before};
use langgraph_commander::text::ps_quote;
use langgraph_commander::workers::{mark_held, output_line_effect, update_worker_activity_from_stream};

fn phase_with(workers: &[&str]) -> PhaseConfig {
    PhaseConfig {
        workers: workers
            .iter()
            .map(|name| WorkerConfig { name: name.to_string(), ..Default::default() })
            .collect(),
        ..Default::default()
    }
}

fn manifest() -> CommanderConfig {
    CommanderConfig::new(
        "1.2.0".to_string(),
        ProjectConfig {
            name: "demo".to_string(),
            repo_root: "/work/demo".to_string(),
            worktree_root: "worktrees".to_string(),
            default_phase: "bootstrap".to_string(),
        },
        RuntimeConfig::default(),
        UiConfig::default(),
        ProviderConfig::default(),
        ServiceCatalog::default(),
        vec![
            ("bootstrap".to_string(), phase_with(&["state", "api-spec"])),
            ("build".to_string(), phase_with(&["ui"])),
        ],
        "/work/demo/commander.toml".to_string(),
    )
}

fn ui() -> UiState {
    UiState {
        selected_worker: "state".to_string(),
        focused_panel: "feed".to_string(),
        stream_scope: StreamScope::All,
        density_mode: FeedDensity::Standard,
        follow_tail: true,
        help_visible: true,
    }
}

#[test]
fn a_held_worker_keeps_everything_but_its_activity() {
    let mut state = WorkerThreadState {
        status: "idle".to_string(),
        pid: Some(42),
        last_error: "earlier".to_string(),
        pending_action: "awaiting DAG approval".to_string(),
        current_activity: "waiting".to_string(),
        ..Default::default()
    };
    mark_held(&mut state, "awaiting DAG approval");
    assert_eq!(state.current_activity, "awaiting DAG approval");
    assert_eq!(state.pid, Some(42));
    assert_eq!(state.last_error, "earlier");
    assert_eq!(state.status, "idle");
    mark_held(&mut state, "   ");
    assert_eq!(state.current_activity, "awaiting DAG approval");
}

#[test]
fn shared_setting_commands_keep_the_other_settings() {
    let mut s = ui();
    assert_eq!(s.handle_density("HIGH").unwrap(), "density set to realtime");
    assert_eq!(s.density_mode, FeedDensity::Realtime);
    assert_eq!(s.focused_panel, "feed");
    assert!(s.help_visible);
    assert_eq!(s.handle_follow("off").unwrap(), "follow-tail disabled");
    assert!(!s.follow_tail);
    assert_eq!(s.focused_panel, "feed");
    assert!(s.help_visible);
    assert_eq!(s.handle_focus(" CMD ").unwrap(), "focus set to cmd");
    assert_eq!(s.focused_panel, "cmd");
    assert!(s.help_visible);
    assert!(s.handle_density("loud").is_err());
    assert_eq!(s.density_mode, FeedDensity::Realtime);
}

#[test]
fn refresh_and_audit_keep_the_rest_of_the_patrol() {
    let mut patrol = PatrolStatus {
        last_run_at: Some("09:00".to_string()),
        last_error: "boom".to_string(),
        last_warning: "careful".to_string(),
        summary: "old".to_string(),
        enabled: true,
        ..Default::default()
    };
    let status = StatusSnapshot {
        activation_reason: "worker state needs attention".to_string(),
        activation_required: true,
        ..Default::default()
    };
    refresh_patrol(&mut patrol, &status, "build", "10:00");
    assert_eq!(patrol.summary, "worker state needs attention");
    assert_eq!(patrol.last_run_at.as_deref(), Some("09:00"));
    assert_eq!(patrol.last_error, "boom");
    assert_eq!(patrol.last_warning, "careful");
    assert!(patrol.activation_required);
    let mut record = AuditRecord { output: String::new(), status: String::new(), warning: String::new() };
    let message = apply_audit(&mut record, &mut patrol, 0, "all good", "11:00");
    assert_eq!(message, "handoff audit PASS (exit 0)");
    assert_eq!(patrol.summary, "worker state needs attention");
    assert!(patrol.enabled);
}

#[test]
fn the_brief_with_a_plan_inserts_the_coordination_block() {
    let status = StatusSnapshot {
        updated_at: "2026-03-17 10:00:00".to_string(),
        project_name: "demo".to_string(),
        phase: "bootstrap".to_string(),
        last_check_status: "ready".to_string(),
        ..Default::default()
    };
    let plan = CoordinationSnapshot {
        plan_id: "plan-7".to_string(),
        approved: true,
        planner_mode: " ".to_string(),
        ..Default::default()
    };
    let without = status.render_brief(None);
    let with = status.render_brief(Some(&plan));
    let a: Vec<&str> = without.split('\n').collect();
    let b: Vec<&str> = with.split('\n').collect();
    let mut expected: Vec<&str> = a[..11].to_vec();
    expected.extend([
        "## Coordination",
        "",
        "- Plan ID: plan-7",
        "- Approved: true",
        "- Planner mode: none",
        "- Open escalations: 0",
        "- Launch blocked workers: 0",
        "- Latest reviews: approve 0 | rework 0 | escalate 0",
        "",
    ]);
    expected.extend(a[11..].iter().copied());
    assert_eq!(b, expected);
}

#[test]
fn a_new_session_starts_from_the_saved_phase_when_known() {
    let config = manifest();
    let home = Some("/home/peter".to_string());
    let saved = StatusSnapshot { phase: "build".to_string(), updated_at: "kept".to_string(), ..Default::default() };
    let (phase, ui, status, patrol) =
        initial_supervisor_state_in(&config, Some(saved), None, "1.2.0", "10:00", &home);
    assert_eq!(phase, "build");
    assert_eq!(ui.selected_worker, "ui");
    assert_eq!(ui.focused_panel, "workers");
    assert!(matches!(ui.stream_scope, StreamScope::All));
    assert_eq!(ui.density_mode, FeedDensity::Standard);
    assert!(ui.follow_tail && !ui.help_visible);
    assert_eq!(status.updated_at, "kept");
    assert_eq!(patrol.phase, "build");
    assert_eq!(patrol.last_result, "waiting");
    assert!(patrol.enabled);
    assert_eq!(patrol.summary, "Patrol will refresh status and audit phase health.");

    let unknown = StatusSnapshot { phase: "gone".to_string(), ..Default::default() };
    let (phase, ui, _, _) = initial_supervisor_state_in(&config, Some(unknown), None, "1.2.0", "10:00", &home);
    assert_eq!(phase, "bootstrap");
    assert_eq!(ui.selected_worker, "state");

    let (phase, _, status, _) = initial_supervisor_state_in(&config, None, None, "1.2.0", "10:00", &home);
    assert_eq!(phase, "bootstrap");
    assert_eq!(status.phase, "bootstrap");
    assert_eq!(status.updated_at, "10:00");
    assert_eq!(status.repo_root, "/work/demo");
    assert_eq!(status.framework_version, "1.2.0");
    assert_eq!(status.project_name, "demo");
    assert_eq!(status.activation_reason, "warming up");
    assert_eq!(status.last_check_status, "wait");
}

#[test]
fn tables_hold_each_name_once() {
    let table = keyed_table(vec![
        ("a".to_string(), 1),
        ("b".to_string(), 2),
        ("a".to_string(), 3),
    ]);
    assert_eq!(table, vec![("a".to_string(), 3), ("b".to_string(), 2)]);
    let ordered = keyed_table(vec![
        ("state".to_string(), 1),
        ("api-spec".to_string(), 2),
        ("ui".to_string(), 3),
        ("api".to_string(), 4),
    ]);
    let names: Vec<&str> = ordered.iter().map(|(k, _)| k.as_str()).collect();
    assert_eq!(names, vec!["api", "api-spec", "state", "ui"]);
    assert!(text_before("api", "api-spec"));
    assert!(!text_before("ui", "state"));
    assert!(!text_before("same", "same"));
    assert!(text_before("Zeta", "alpha"));
    let kept = keyed_table(vec![("x".to_string(), 1), ("y".to_string(), 2)]);
    assert_eq!(kept, vec![("x".to_string(), 1), ("y".to_string(), 2)]);
    let config = manifest();
    assert_eq!(config.phases.len(), 2);
    let plan = CoordinationSnapshot {
        workers: vec![
            ("state".to_string(), CoordinationWorkerSnapshot { launch_blocked: true, ..Default::default() }),
            ("state".to_string(), CoordinationWorkerSnapshot::default()),
        ],
        reviews: vec![(
            "state".to_string(),
            vec![CoordinationReviewSnapshot { disposition: "approve".to_string(), ..Default::default() }],
        )],
        ..Default::default()
    }
    .keyed();
    assert_eq!(plan.workers.len(), 1);
    assert!(!plan.workers[0].1.launch_blocked);
    assert_eq!(plan.reviews.len(), 1);
}

#[test]
fn command_output_joins_output_then_errors() {
    let out = vec!["one".to_string(), "two".to_string()];
    let err = vec!["warn".to_string()];
    assert_eq!(command_output_text(&out, &err), "one\ntwo\nwarn");
    assert_eq!(command_output_text(&Vec::new(), &err), "warn");
    assert_eq!(command_output_text(&out, &Vec::new()), "one\ntwo");
    assert_eq!(command_output_text(&vec!["  ".to_string()], &Vec::new()), "");
}

#[test]
fn plain_worker_lines_are_tagged_and_stdout_updates_activity() {
    let (tags, updates) = output_line_effect("stdout", "state", "building the ledger");
    assert_eq!(tags, vec!["worker".to_string(), "state".to_string(), "stdout".to_string()]);
    assert!(updates);
    let (_, updates) = output_line_effect("stderr", "state", "oops");
    assert!(!updates);
}

#[test]
fn stream_progress_changes_only_status_name_and_activity() {
    let existing = WorkerThreadState {
        worker_name: "  ".to_string(),
        status: "   ".to_string(),
        last_error: "kept error".to_string(),
        last_exit_code: Some(3),
        pid: Some(9),
        current_activity: "old".to_string(),
        ..Default::default()
    };
    let updated = update_worker_activity_from_stream(Some(existing), "state", "  compiling   crate ").unwrap();
    assert_eq!(updated.status, "running");
    assert_eq!(updated.worker_name, "state");
    assert_eq!(updated.current_activity, "compiling crate");
    assert_eq!(updated.last_error, "kept error");
    assert_eq!(updated.last_exit_code, Some(3));
    assert_eq!(updated.pid, Some(9));
    let fresh = update_worker_activity_from_stream(None, "ui", "hello").unwrap();
    assert_eq!(fresh.status, "running");
    assert_eq!(fresh.phase, "");
    assert_eq!(fresh.last_summary, "");
    assert_eq!(fresh.last_exit_code, None);
}

#[test]
fn powershell_quoting_doubles_inner_quotes() {
    assert_eq!(ps_quote("C:\\work\\demo"), "'C:\\work\\demo'");
    assert_eq!(ps_quote("Peter's repo"), "'Peter''s repo'");
    assert_eq!(ps_quote(""), "''");
}

#[test]
fn a_saved_feed_is_rebuilt_entry_by_entry() {
    let boot = ActivityEntry { message: "boot".to_string(), ..Default::default() };
    let boot_again = ActivityEntry { seq: 5, message: "boot".to_string(), ..Default::default() };
    let run = ActivityEntry { message: "run".to_string(), timestamp: "09:00".to_string(), ..Default::default() };
    let (feed, next) = compact_activity(vec![boot.clone(), boot_again.clone(), run.clone()], 10, "t0");
    assert_eq!(next, 7);
    assert_eq!(feed.len(), 2);
    assert_eq!((feed[0].seq, feed[0].repeat_count, feed[0].message.as_str()), (5, 2, "boot"));
    assert_eq!(feed[0].timestamp, "t0");
    assert_eq!(feed[0].source, "commander");
    assert_eq!((feed[1].seq, feed[1].repeat_count, feed[1].message.as_str()), (6, 1, "run"));
    assert_eq!(feed[1].timestamp, "09:00");
    let (short, next) = compact_activity(vec![boot, boot_again, run], 1, "t0");
    assert_eq!(next, 7);
    assert_eq!(short.len(), 1);
    assert_eq!(short[0].message, "run");
    let (empty, next) = compact_activity(Vec::new(), 10, "t0");
    assert!(empty.is_empty());
    assert_eq!(next, 1);
}

#[test]
fn coordination_runs_are_labelled_and_judged_by_exit_code() {
    let run = coordination_run(&vec!["review".to_string(), "all".to_string()], 30);
    assert_eq!(run.label, "coordination review all");
    assert_eq!(
        run.command,
        vec![
            "python".to_string(),
            "LangGraph-Commander/scripts/coordination_bridge.py".to_string(),
            "review".to_string(),
            "all".to_string()
        ]
    );
    assert_eq!(run.timeout_seconds, 60);
    assert_eq!(coordination_run(&Vec::new(), 600).timeout_seconds, 600);
    assert_eq!(coordination_started_line(&run), "coordination review all: started");
    assert_eq!(coordination_progress_line(&run, "step 1"), "review all | step 1");
    assert_eq!(
        coordination_finished(&run, 2, "boom", "1.0"),
        Err("coordination command failed (exit 2): boom".to_string())
    );
    assert_eq!(
        coordination_finished(&run, 0, "  done \n", "3.4"),
        Ok("coordination review all completed in 3.4s\ndone".to_string())
    );
}

#[test]
fn launching_helpers_follow_the_session_rules() {
    assert_eq!(already_running_message("state"), "state already running");
    let env = launch_env("state", "/w/state", "bootstrap", "/rt");
    assert_eq!(env[0], ("LGC_WORKER_NAME".to_string(), "state".to_string()));
    assert_eq!(env[3], ("LGC_RUNTIME_DIR".to_string(), "/rt".to_string()));
    let mut s = ui();
    s.selected_worker = "  ".to_string();
    s.select_if_unset("api");
    assert_eq!(s.selected_worker, "api");
    s.select_if_unset("ui");
    assert_eq!(s.selected_worker, "api");
    let mut config = manifest();
    assert_eq!(config.activity_buffer_limit(), 5000);
    config.ui.event_buffer_size = 20;
    assert_eq!(config.activity_buffer_limit(), 100);
    assert!(snapshot_refresh_due(true, 0));
    assert!(!snapshot_refresh_due(false, 649));
    assert!(snapshot_refresh_due(false, 650));
}
