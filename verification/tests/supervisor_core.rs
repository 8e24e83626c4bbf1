use langgraph_commander::activity::push_activity_entry;
use langgraph_commander::runtime::{ActivityEntry, WorkerThreadState};
use langgraph_commander::supervisor::format_coordination_result;
use langgraph_commander::workers::update_worker_activity_from_stream;
use std::time::Duration;

#[test]
fn push_activity_entry_merges_consecutive_duplicates() {
    let mut buffer = Vec::new();
    let first = ActivityEntry {
        seq: 1,
        repeat_count: 1,
        timestamp: "2026-03-17 10:00:00".to_string(),
        source: "patrol".to_string(),
        level: "info".to_string(),
        channel: "audit".to_string(),
        worker_name: String::new(),
        message: "handoff audit PASS (exit 0)".to_string(),
        dense_message: "handoff audit PASS (exit 0)".to_string(),
        full_message: "handoff audit PASS (exit 0)".to_string(),
        tags: vec!["patrol".to_string(), "audit".to_string()],
    };
    let second = ActivityEntry {
        seq: 2,
        repeat_count: 1,
        timestamp: "2026-03-17 10:00:15".to_string(),
        ..first.clone()
    };

    push_activity_entry(&mut buffer, first, 100);
    push_activity_entry(&mut buffer, second, 100);

    assert_eq!(buffer.len(), 1);
    assert_eq!(buffer[0].repeat_count, 2);
    assert_eq!(buffer[0].seq, 2);
    assert_eq!(buffer[0].timestamp, "2026-03-17 10:00:15");
}

#[test]
fn push_activity_entry_keeps_distinct_messages_separate() {
    let mut buffer = Vec::new();
    push_activity_entry(
        &mut buffer,
        ActivityEntry {
            seq: 1,
            repeat_count: 1,
            timestamp: "2026-03-17 10:00:00".to_string(),
            source: "patrol".to_string(),
            level: "info".to_string(),
            channel: "audit".to_string(),
            worker_name: String::new(),
            message: "handoff audit PASS (exit 0)".to_string(),
            dense_message: "handoff audit PASS (exit 0)".to_string(),
            full_message: "handoff audit PASS (exit 0)".to_string(),
            tags: vec!["patrol".to_string(), "audit".to_string()],
        },
        100,
    );
    push_activity_entry(
        &mut buffer,
        ActivityEntry {
            seq: 2,
            repeat_count: 1,
            timestamp: "2026-03-17 10:00:15".to_string(),
            source: "patrol".to_string(),
            level: "warning".to_string(),
            channel: "audit".to_string(),
            worker_name: String::new(),
            message: "audit warning: cached origin ref used".to_string(),
            dense_message: "audit warning: cached origin ref used".to_string(),
            full_message: "audit warning: cached origin ref used".to_string(),
            tags: vec!["patrol".to_string(), "audit".to_string()],
        },
        100,
    );

    assert_eq!(buffer.len(), 2);
    assert_eq!(buffer[0].repeat_count, 1);
    assert_eq!(buffer[1].repeat_count, 1);
}

#[test]
fn format_coordination_result_includes_elapsed_time() {
    let elapsed = format!("{:.1}", Duration::from_millis(1750).as_secs_f32());
    let rendered = format_coordination_result("coordination report", &elapsed, "report updated");
    assert!(rendered.contains("coordination report completed in 1.8s"));
    assert!(rendered.contains("report updated"));
}

fn thread_state(status: &str, activity: &str) -> WorkerThreadState {
    WorkerThreadState {
        worker_name: "dummy".to_string(),
        phase: "bootstrap".to_string(),
        status: status.to_string(),
        pid: None,
        last_started_at: None,
        last_finished_at: None,
        last_exit_code: None,
        last_summary: String::new(),
        last_error: String::new(),
        current_activity: activity.to_string(),
        pending_action: String::new(),
        launch_blocked: false,
        execution_scope: String::new(),
    }
}

#[test]
fn stdout_updates_running_worker_current_activity() {
    let mut state = thread_state("running", "starting worker round");
    state.pid = Some(1234);

    let updated = update_worker_activity_from_stream(Some(state), "dummy", "cargo test --quiet")
        .expect("a running worker takes the new activity");
    assert_eq!(updated.status, "running");
    assert_eq!(updated.current_activity, "cargo test --quiet");
}

#[test]
fn stdout_does_not_override_terminal_worker_state() {
    let mut state = thread_state("finished", "finished");
    state.last_finished_at = Some("2026-03-17 14:10:00".to_string());
    state.last_exit_code = Some(0);
    state.last_summary = "finished".to_string();

    let updated =
        update_worker_activity_from_stream(Some(state.clone()), "dummy", "post-exit trailing stdout");
    assert!(updated.is_none());
    let kept = updated.unwrap_or(state);
    assert_eq!(kept.status, "finished");
    assert_eq!(kept.current_activity, "finished");
}

#[test]
fn coordination_result_keeps_the_elapsed_text_and_drops_blank_output() {
    assert_eq!(
        format_coordination_result("coordination intake", "1.1", "   "),
        "coordination intake completed in 1.1s"
    );
    assert_eq!(
        format_coordination_result("coordination review all", "12.0", "done"),
        "coordination review all completed in 12.0s\ndone"
    );
    assert_eq!(format!("{:.1}", Duration::from_millis(1150).as_secs_f32()), "1.1");
}
