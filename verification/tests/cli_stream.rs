use langgraph_commander::runtime::{ActivityEntry, WorkerThreadState};
use langgraph_commander::stream::{
    build_stream_watch_options, merge_worker_view, render_fleet_line, should_render_activity,
    should_render_worker_in_fleet, WorkerView,
};

fn sample_entry(
    source: &str,
    level: &str,
    channel: &str,
    worker_name: &str,
    message: &str,
) -> ActivityEntry {
    ActivityEntry {
        seq: 1,
        repeat_count: 1,
        timestamp: "2026-03-17 13:00:00".to_string(),
        source: source.to_string(),
        level: level.to_string(),
        channel: channel.to_string(),
        worker_name: worker_name.to_string(),
        message: message.to_string(),
        dense_message: message.to_string(),
        full_message: message.to_string(),
        tags: Vec::new(),
    }
}

fn worker_state(worker_name: &str, status: &str, activity: &str) -> WorkerThreadState {
    WorkerThreadState {
        worker_name: worker_name.to_string(),
        phase: "bootstrap".to_string(),
        status: status.to_string(),
        pid: Some(1000),
        last_started_at: None,
        last_finished_at: None,
        last_exit_code: None,
        last_summary: String::new(),
        last_error: String::new(),
        current_activity: activity.to_string(),
        pending_action: String::new(),
        launch_blocked: false,
        execution_scope: String::new(),
    }
}

#[test]
fn targeted_start_hides_patrol_noise() {
    let options = build_stream_watch_options("start state", &vec!["state".to_string()]);
    let entry = sample_entry("patrol", "error", "audit", "", "handoff audit FAIL (exit 2)");
    assert!(!should_render_activity(&entry, &options));
}

#[test]
fn targeted_start_shows_target_progress() {
    let options = build_stream_watch_options("start state", &vec!["state".to_string()]);
    let entry = sample_entry("state", "info", "progress", "state", "reading TASK.md");
    assert!(should_render_activity(&entry, &options));
}

#[test]
fn targeted_start_shows_target_stdout() {
    let options = build_stream_watch_options("start state", &vec!["state".to_string()]);
    let entry = sample_entry("state", "info", "stdout", "state", "cargo test");
    assert!(should_render_activity(&entry, &options));
}

#[test]
fn targeted_start_hides_bridge_telemetry_noise() {
    let options = build_stream_watch_options("start state", &vec!["state".to_string()]);
    let entry = sample_entry(
        "state",
        "info",
        "stdout",
        "state",
        "2026-03-17 14:15:01 [state] tool read_file requested_path='TASK.md'",
    );
    assert!(!should_render_activity(&entry, &options));
}

#[test]
fn targeted_start_hides_other_worker_progress() {
    let options = build_stream_watch_options("start state", &vec!["state".to_string()]);
    let entry = sample_entry("api-spec", "info", "progress", "api-spec", "reading TASK.md");
    assert!(!should_render_activity(&entry, &options));
}

#[test]
fn patrol_command_keeps_patrol_output() {
    let options = build_stream_watch_options("patrol once", &Vec::new());
    let entry = sample_entry("patrol", "info", "audit", "", "handoff audit PASS (exit 0)");
    assert!(should_render_activity(&entry, &options));
}

#[test]
fn targeted_start_fleet_only_shows_target_worker() {
    let options = build_stream_watch_options("start state", &vec!["state".to_string()]);
    assert!(should_render_worker_in_fleet("state", &options));
    assert!(!should_render_worker_in_fleet("api-spec", &options));
}

#[test]
fn targeted_start_fleet_filter_reads_only_target_worker_from_runtime() {
    let views: Vec<WorkerView> = vec![
        merge_worker_view(
            "state",
            None,
            &worker_state("state", "running", "streaming state stdout"),
        ),
        merge_worker_view(
            "api-spec",
            None,
            &worker_state("api-spec", "running", "other worker noise"),
        ),
    ];

    let options = build_stream_watch_options("start state", &vec!["state".to_string()]);
    let fleet = render_fleet_line(&views, &options);

    assert!(fleet.contains("state=running(streaming state stdout)"));
    assert!(!fleet.contains("api-spec"));
}
