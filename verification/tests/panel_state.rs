use std::time::Duration;
use langgraph_commander::panel::{feed_lines, AppState};
use langgraph_commander::panel_commands::execute_local_command;
use langgraph_commander::panel_text::{
    visible_input_window, worker_model_badge, worker_reasoning_badge,
};
use langgraph_commander::runtime::{
    ActivityEntry, ControlSnapshot, FeedDensity, StreamScope, WorkerSnapshot,
};
use langgraph_commander::supervisor::SnapshotBundle;

fn sample_snapshot() -> SnapshotBundle {
    let mut snapshot = SnapshotBundle::default();
    snapshot.status.phase = "bootstrap".to_string();
    snapshot.status.workers = vec![
        WorkerSnapshot {
            name: "api-spec".to_string(),
            model_name: "GPT-5.4-HIGH".to_string(),
            reasoning_effort: "high".to_string(),
            status: "finished".to_string(),
            handoff_status: "ready".to_string(),
            branch: "module/api-spec".to_string(),
            ..Default::default()
        },
        WorkerSnapshot {
            name: "state".to_string(),
            model_name: "GPT-5.4-HIGH".to_string(),
            reasoning_effort: "high".to_string(),
            status: "running".to_string(),
            handoff_status: "pending".to_string(),
            branch: "module/state".to_string(),
            pending_action: "validate fixtures".to_string(),
            git_clean: false,
            ..Default::default()
        },
        WorkerSnapshot {
            name: "verifier-proofs".to_string(),
            model_name: "GPT-5.4-HIGH".to_string(),
            reasoning_effort: "high".to_string(),
            status: "finished".to_string(),
            handoff_status: "ready".to_string(),
            branch: "module/verifier-proofs".to_string(),
            ..Default::default()
        },
    ];
    snapshot.status.recent_activity = vec![
        ActivityEntry {
            worker_name: "state".to_string(),
            source: "state".to_string(),
            timestamp: "2026-03-16 13:06:00".to_string(),
            dense_message: "validation pass".to_string(),
            ..Default::default()
        },
        ActivityEntry {
            source: "commander".to_string(),
            timestamp: "2026-03-16 13:07:00".to_string(),
            dense_message: "activation clear".to_string(),
            ..Default::default()
        },
    ];
    snapshot.control = Some(ControlSnapshot {
        selected_worker: "state".to_string(),
        stream_scope: StreamScope::All,
        density_mode: FeedDensity::Standard,
        follow_tail: true,
        ..Default::default()
    });
    snapshot
}

#[test]
fn escape_requires_two_presses() {
    let second = Duration::from_secs(1).as_nanos() as u64;
    let now: u64 = 5 * second;
    let mut app = AppState::default();
    assert!(!app.arm_or_quit(now));
    assert!(app.arm_or_quit(now + second));
    assert!(!app.arm_or_quit(now + 3 * second));
}

#[test]
fn local_view_worker_command_updates_scope_and_active_worker() {
    let snapshot = sample_snapshot();
    let mut app = AppState::default();
    app.sync_from_snapshot(&snapshot);

    let message = execute_local_command(&mut app, &snapshot, "view worker state")
        .expect("local command should be handled");

    assert_eq!(message, "Local live view pinned to worker `state`.");
    assert_eq!(app.local_view, StreamScope::Worker("state".to_string()));
    assert_eq!(app.active_worker.as_deref(), Some("state"));
}

#[test]
fn filter_command_rehomes_active_worker_to_visible_match() {
    let snapshot = sample_snapshot();
    let mut app = AppState::default();
    app.active_worker = Some("api-spec".to_string());

    let message = execute_local_command(&mut app, &snapshot, "filter state")
        .expect("filter command should be handled");

    assert_eq!(message, "Worker filter set to `state`.");
    assert_eq!(app.active_worker.as_deref(), Some("state"));
}

#[test]
fn selected_view_filters_activity() {
    let snapshot = sample_snapshot();
    let mut app = AppState::default();
    app.local_view = StreamScope::Selected;

    let lines = feed_lines(&snapshot, &app);
    let rendered = lines.join("\n");

    assert!(rendered.contains("validation pass"));
    assert!(!rendered.contains("activation clear"));
}

#[test]
fn command_history_restores_draft_after_navigation() {
    let mut app = AppState::default();
    app.push_history("start state");
    app.push_history("stop all");
    app.set_input("draft".to_string());

    app.history_prev();
    assert_eq!(app.command_input, "stop all");

    app.history_next();
    assert_eq!(app.command_input, "draft");
}

#[test]
fn visible_input_window_tracks_cursor_near_tail() {
    let input = "view worker verifier-proofs";
    let (visible, cursor) = visible_input_window(input, input.chars().count(), 10);
    assert_eq!(visible, "ier-proofs");
    assert_eq!(cursor, 10);
}

#[test]
fn worker_model_badge_shortens_alias() {
    let worker = WorkerSnapshot {
        model_name: "GPT-5.4-HIGH".to_string(),
        reasoning_effort: "high".to_string(),
        ..Default::default()
    };
    assert_eq!(worker_model_badge(&worker), "5.4-high");
    assert_eq!(worker_reasoning_badge(&worker), "high");
}
