use langgraph_commander::panel::{
    active_worker_snapshot, find_worker_name, handle_escape, parse_stream_scope,
    shared_selected_worker, worker_matches_filter, AppState, COMMAND_LOG_LIMIT, HISTORY_LIMIT,
};
use langgraph_commander::panel_commands::{
    execute_local_command, record_supervisor_outcome, submit_command,
    sync_local_state_after_supervisor_command,
};
use langgraph_commander::panel_keys::{key_action, process_key, KeyAction, PanelKey};
use langgraph_commander::panel_text::{
    activity_matches_local_view, format_activity, max_scroll, render_coordination_summary,
    render_escalation_summary, render_local_help, render_retro_summary, render_review_summary,
    toggle_density_command, toggle_follow_command, truncate, visible_input_window, wrapped_index,
};
use langgraph_commander::panel_view::{
    console_log_lines, console_texts, feed_title, fleet_counts, roster_rows, settle_feed_scroll,
    settle_workers_scroll, tower_texts, worker_map_texts, Tone,
};
use langgraph_commander::runtime::{
    ActivityEntry, ControlSnapshot, CoordinationEscalation, CoordinationMetrics,
    CoordinationReviewSnapshot, CoordinationSnapshot, CoordinationWorkerSnapshot, FeedDensity,
    StreamScope, WorkerSnapshot,
};
use langgraph_commander::supervisor::{CommandOutcome, SnapshotBundle};

fn worker(name: &str, status: &str, handoff: &str, clean: bool) -> WorkerSnapshot {
    WorkerSnapshot {
        name: name.to_string(),
        status: status.to_string(),
        handoff_status: handoff.to_string(),
        git_clean: clean,
        model_name: "gpt_5_mini".to_string(),
        ..Default::default()
    }
}

fn snapshot_with(selected: &str) -> SnapshotBundle {
    let mut snapshot = SnapshotBundle::default();
    snapshot.status.workers = vec![
        worker("api-spec", "finished", "ready", true),
        worker("state", "running", "pending", false),
        worker("ui", "idle", "", true),
    ];
    snapshot.control = Some(ControlSnapshot {
        session_id: "abc".to_string(),
        selected_worker: selected.to_string(),
        follow_tail: true,
        ..Default::default()
    });
    snapshot
}

fn sample_coordination() -> CoordinationSnapshot {
    CoordinationSnapshot {
        plan_id: "plan-7".to_string(),
        approved: true,
        parallel_sets: vec![
            vec!["state".to_string(), "api-spec".to_string()],
            vec!["ui".to_string()],
        ],
        workers: vec![
            (
                "api-spec".to_string(),
                CoordinationWorkerSnapshot {
                    name: "api-spec".to_string(),
                    ..Default::default()
                },
            ),
            (
                "state".to_string(),
                CoordinationWorkerSnapshot {
                    name: "state".to_string(),
                    launch_blocked: true,
                    ..Default::default()
                },
            ),
        ],
        escalations: vec![
            CoordinationEscalation {
                id: "E1".to_string(),
                scope: "schema".to_string(),
                freeze_workers: vec!["state".to_string(), "ui".to_string()],
                question: "which id format?".to_string(),
                status: "OPEN".to_string(),
                ..Default::default()
            },
            CoordinationEscalation {
                id: "E2".to_string(),
                title: "align naming".to_string(),
                status: "tracked".to_string(),
                ..Default::default()
            },
        ],
        reviews: vec![(
            "api-spec".to_string(),
            vec![
                CoordinationReviewSnapshot {
                    disposition: "rework".to_string(),
                    summary: "first pass".to_string(),
                    ..Default::default()
                },
                CoordinationReviewSnapshot {
                    disposition: "approve".to_string(),
                    summary: "looks right".to_string(),
                    ..Default::default()
                },
            ],
        )],
        metrics: Some(CoordinationMetrics {
            workers_total: 3,
            reviewed_total: 1,
            approved_total: 1,
            rework_total: 0,
            escalated_total: 0,
            open_escalations: 1,
            average_cycle_minutes: "12".to_string(),
            recommendations: vec!["split ui".to_string(), "add tests".to_string()],
        }),
        ..Default::default()
    }
}

#[test]
fn fresh_panel_greets_and_waits_for_a_command() {
    let app = AppState::new();
    assert_eq!(app.console_lines.len(), 4);
    assert_eq!(app.console_lines[0], "! Four-quadrant command deck online.");
    assert_eq!(app.console_lines[3], "! Type `show coordination`, `show escalations`, or `show reviews` for local orchestration summaries.");
    assert_eq!(app.console_scroll, 3);
    assert_eq!(app.last_command, "help local");
    assert_eq!(app.last_feedback, "Type `show coordination`, `show escalations`, or `show reviews` for local orchestration summaries.");
    assert_eq!(app.feed_follow_override, Some(true));
    assert!(app.force_snapshot_refresh);
}

#[test]
fn history_keeps_newest_commands_and_skips_repeats() {
    let mut app = AppState::new();
    for i in 0..70 {
        app.push_history(&format!("cmd {i}"));
    }
    assert_eq!(app.command_history.len(), HISTORY_LIMIT);
    assert_eq!(app.command_history[0], "cmd 6");
    assert_eq!(app.command_history[HISTORY_LIMIT - 1], "cmd 69");
    app.push_history("cmd 69");
    assert_eq!(app.command_history.len(), HISTORY_LIMIT);
}

#[test]
fn command_log_keeps_its_newest_lines() {
    let mut app = AppState::new();
    for i in 0..200 {
        app.push_result(&format!("line {i}"));
    }
    assert_eq!(app.console_lines.len(), COMMAND_LOG_LIMIT);
    assert_eq!(app.console_lines[COMMAND_LOG_LIMIT - 1], "< line 199");
    assert_eq!(app.console_scroll, COMMAND_LOG_LIMIT - 1);
    app.push_result("two\nlines");
    assert_eq!(app.console_lines[COMMAND_LOG_LIMIT - 2], "< two");
    assert_eq!(app.console_lines[COMMAND_LOG_LIMIT - 1], "< lines");
    assert_eq!(app.last_feedback, "lines");
    app.push_notice("   ");
    assert_eq!(app.console_lines[COMMAND_LOG_LIMIT - 1], "");
}

#[test]
fn editing_keys_change_the_line_at_the_cursor() {
    let mut app = AppState::new();
    app.set_input("stat".to_string());
    app.move_cursor_left();
    app.insert_char('r');
    assert_eq!(app.command_input, "start");
    assert_eq!(app.input_cursor, 4);
    app.backspace();
    assert_eq!(app.command_input, "stat");
    app.move_cursor_home();
    app.delete();
    assert_eq!(app.command_input, "tat");
    app.move_cursor_end();
    assert_eq!(app.input_cursor, 3);
    app.move_cursor_right();
    assert_eq!(app.input_cursor, 3);
}

#[test]
fn escape_clears_then_arms_then_quits() {
    let mut app = AppState::new();
    app.set_input("half typed".to_string());
    let ms: u64 = 1_000_000;
    handle_escape(&mut app, 100 * ms);
    assert_eq!(app.command_input, "");
    assert_eq!(app.last_feedback, "Input cleared. Press Esc again within 2 seconds to quit.");
    assert!(!app.should_quit);
    handle_escape(&mut app, 200 * ms);
    assert_eq!(app.esc_quit_armed_at, Some(200 * ms));
    assert!(!app.should_quit);
    handle_escape(&mut app, 2_200 * ms);
    assert!(app.should_quit);
    assert_eq!(app.esc_quit_armed_at, None);
}

#[test]
fn a_second_esc_just_past_two_seconds_only_rearms() {
    let mut app = AppState::new();
    let t: u64 = 7_000_000_000;
    assert!(!app.arm_or_quit(t));
    assert!(!app.arm_or_quit(t + 2_000_500_000));
    assert!(app.arm_or_quit(t + 2_000_500_000 + 2_000_000_000));
}

#[test]
fn workers_are_found_ignoring_case() {
    let snapshot = snapshot_with("  state ");
    assert_eq!(find_worker_name(&snapshot, "  STATE "), Some("state".to_string()));
    assert_eq!(find_worker_name(&snapshot, "nobody"), None);
    assert_eq!(shared_selected_worker(&snapshot), Some("state".to_string()));
    let mut app = AppState::new();
    app.active_worker = Some("API-SPEC".to_string());
    assert_eq!(active_worker_snapshot(&snapshot, &app).map(|w| w.name.clone()), Some("api-spec".to_string()));
}

#[test]
fn filter_matches_any_listed_field() {
    let w = worker("state", "running", "pending", false);
    assert!(worker_matches_filter(&w, "  "));
    assert!(worker_matches_filter(&w, " RUNN "));
    assert!(worker_matches_filter(&w, "5-mini") == false);
    assert!(worker_matches_filter(&w, "5_MINI"));
    assert!(!worker_matches_filter(&w, "ready"));
}

#[test]
fn cycling_wraps_around_the_visible_workers() {
    let snapshot = snapshot_with("");
    let mut app = AppState::new();
    app.active_worker = Some("ui".to_string());
    app.local_view = StreamScope::Worker("ui".to_string());
    assert_eq!(app.cycle_active_worker(&snapshot, 1), Some("api-spec".to_string()));
    assert_eq!(app.local_view, StreamScope::Worker("api-spec".to_string()));
    assert_eq!(app.cycle_active_worker(&snapshot, -1), Some("ui".to_string()));
    app.worker_filter = "nothing matches".to_string();
    assert_eq!(app.cycle_active_worker(&snapshot, 1), None);
    assert_eq!(app.active_worker.as_deref(), Some("ui"));
}

#[test]
fn sync_takes_the_session_selection_for_an_unknown_worker() {
    let snapshot = snapshot_with("state");
    let mut app = AppState::new();
    app.active_worker = Some("gone".to_string());
    app.sync_from_snapshot(&snapshot);
    assert_eq!(app.active_worker.as_deref(), Some("state"));
    let bare = snapshot_with("");
    let mut other = AppState::new();
    other.sync_from_snapshot(&bare);
    assert_eq!(other.active_worker.as_deref(), Some("api-spec"));
}

#[test]
fn local_scope_reads_worker_names_from_the_snapshot() {
    let snapshot = snapshot_with("");
    assert_eq!(parse_stream_scope(" all ", &snapshot), Some(StreamScope::All));
    assert_eq!(parse_stream_scope("commander", &snapshot), Some(StreamScope::Commander));
    assert_eq!(parse_stream_scope("worker: STATE", &snapshot), Some(StreamScope::Worker("state".to_string())));
    assert_eq!(parse_stream_scope("worker:ghost", &snapshot), None);
    assert_eq!(parse_stream_scope("ALL", &snapshot), None);
}

#[test]
fn local_commands_answer_and_others_pass_through() {
    let snapshot = snapshot_with("state");
    let mut app = AppState::new();
    let help = execute_local_command(&mut app, &snapshot, "HELP LOCAL").unwrap();
    assert!(help.starts_with("LOCAL PANEL COMMANDS\n"));
    assert_eq!(help, render_local_help());
    assert_eq!(
        execute_local_command(&mut app, &snapshot, "view commander").as_deref(),
        Some("Local live view set to commander-only events.")
    );
    assert_eq!(app.local_view, StreamScope::Commander);
    assert_eq!(
        execute_local_command(&mut app, &snapshot, "show worker ghost").as_deref(),
        Some("Unknown worker `ghost`.")
    );
    assert_eq!(
        execute_local_command(&mut app, &snapshot, "show worker UI").as_deref(),
        Some("Local active worker -> ui")
    );
    assert_eq!(
        execute_local_command(&mut app, &snapshot, "filter clear").as_deref(),
        Some("Worker filter cleared.")
    );
    assert_eq!(
        execute_local_command(&mut app, &snapshot, "show coordination").as_deref(),
        Some("No coordination plan loaded.")
    );
    let before = app.clone();
    assert_eq!(execute_local_command(&mut app, &snapshot, "start all"), None);
    assert_eq!(app.console_lines, before.console_lines);
    assert_eq!(app.local_view, before.local_view);
}

#[test]
fn submitting_a_line_records_it_and_forwards_supervisor_commands() {
    let snapshot = snapshot_with("state");
    let mut app = AppState::new();
    app.set_input("  :: start all  ".to_string());
    app.esc_quit_armed_at = Some(5);
    let forwarded = submit_command(&mut app, &snapshot);
    assert_eq!(forwarded.as_deref(), Some("start all"));
    assert_eq!(app.command_history, vec!["start all".to_string()]);
    assert_eq!(app.last_command, "start all");
    assert_eq!(app.command_input, "");
    assert_eq!(app.esc_quit_armed_at, None);
    assert_eq!(app.console_lines.last().map(|s| s.as_str()), Some("> start all"));

    app.set_input("view all".to_string());
    assert_eq!(submit_command(&mut app, &snapshot), None);
    assert_eq!(app.console_lines.last().map(|s| s.as_str()), Some("< Local live view set to all streams."));

    app.set_input(":::".to_string());
    assert_eq!(submit_command(&mut app, &snapshot), None);
    assert_eq!(app.command_input, "");
    assert_eq!(app.command_history.len(), 2);
}

#[test]
fn supervisor_answers_move_the_local_view() {
    let snapshot = snapshot_with("state");
    let mut app = AppState::new();
    app.feed_follow_override = Some(false);
    record_supervisor_outcome(
        &mut app,
        &snapshot,
        "stream scope worker:STATE",
        &CommandOutcome { message: "stream scope -> worker:state".to_string(), quit_requested: false },
    );
    assert_eq!(app.local_view, StreamScope::Worker("state".to_string()));
    assert_eq!(app.feed_follow_override, Some(true));
    assert!(app.force_snapshot_refresh);
    assert_eq!(app.console_lines.last().map(|s| s.as_str()), Some("< stream scope -> worker:state"));

    record_supervisor_outcome(
        &mut app,
        &snapshot,
        "follow off",
        &CommandOutcome { message: "follow tail off".to_string(), quit_requested: true },
    );
    assert_eq!(app.feed_follow_override, Some(false));
    assert!(app.should_quit);

    sync_local_state_after_supervisor_command(&mut app, &snapshot, "select ui");
    assert_eq!(app.active_worker.as_deref(), Some("ui"));
    sync_local_state_after_supervisor_command(&mut app, &snapshot, "Select state");
    assert_eq!(app.active_worker.as_deref(), Some("ui"));
}

#[test]
fn keys_map_to_actions() {
    assert_eq!(key_action(PanelKey::Char('R'), true, false), KeyAction::Refresh);
    assert_eq!(key_action(PanelKey::Char('x'), true, false), KeyAction::Type('x'));
    assert_eq!(key_action(PanelKey::PageUp, false, true), KeyAction::WorkersUp);
    assert_eq!(key_action(PanelKey::PageUp, false, false), KeyAction::FeedUp);
    assert_eq!(key_action(PanelKey::F(4), false, false), KeyAction::StopAll);
    assert_eq!(key_action(PanelKey::F(9), false, false), KeyAction::Nothing);
    assert_eq!(key_action(PanelKey::Up, false, false), KeyAction::HistoryPrev);
}

#[test]
fn key_presses_drive_the_panel() {
    let snapshot = snapshot_with("state");
    let mut app = AppState::new();
    assert_eq!(process_key(&mut app, &snapshot, PanelKey::Char('s'), true, false, 0).as_deref(), Some("stop all"));
    assert_eq!(process_key(&mut app, &snapshot, PanelKey::Char('d'), true, false, 0).as_deref(), Some("density realtime"));
    assert_eq!(process_key(&mut app, &snapshot, PanelKey::Char('f'), true, false, 0).as_deref(), Some("follow off"));
    assert_eq!(app.feed_follow_override, Some(false));
    process_key(&mut app, &snapshot, PanelKey::PageDown, false, true, 0);
    assert_eq!(app.workers_scroll, 4);
    process_key(&mut app, &snapshot, PanelKey::PageUp, false, false, 0);
    assert_eq!(app.feed_scroll, 0);
    assert_eq!(app.last_feedback, "Live feed scrolled upward. Use `follow on` or Ctrl+F to tail.");
    process_key(&mut app, &snapshot, PanelKey::Char('h'), false, false, 0);
    process_key(&mut app, &snapshot, PanelKey::Char('i'), false, false, 0);
    assert_eq!(app.command_input, "hi");
    process_key(&mut app, &snapshot, PanelKey::Char('l'), true, false, 0);
    assert_eq!(app.console_lines, vec!["! Local command log cleared.".to_string()]);
    assert_eq!(app.console_scroll, 0);
    process_key(&mut app, &snapshot, PanelKey::Char('n'), true, false, 0);
    assert_eq!(app.console_lines.last().map(|s| s.as_str()), Some("! Local active worker -> state"));
    process_key(&mut app, &snapshot, PanelKey::F(3), false, false, 0);
    assert_eq!(app.local_view, StreamScope::Selected);
    let forwarded = process_key(&mut app, &snapshot, PanelKey::Enter, false, false, 0);
    assert_eq!(forwarded.as_deref(), Some("hi"));
    process_key(&mut app, &snapshot, PanelKey::Char('c'), true, false, 0);
    assert!(app.should_quit);
}

#[test]
fn cut_texts_end_in_a_mark() {
    assert_eq!(truncate("abcdef", 4), "abc~");
    assert_eq!(truncate("abcd", 4), "abcd");
    assert_eq!(truncate("abc", 0), "~");
    assert_eq!(truncate("ééé", 2), "é~");
}

#[test]
fn input_window_follows_the_cursor() {
    assert_eq!(visible_input_window("anything", 3, 0), (String::new(), 0));
    assert_eq!(visible_input_window("abcdefghij", 0, 4), ("abcd".to_string(), 0));
    assert_eq!(visible_input_window("abcdefghij", 5, 4), ("cdef".to_string(), 3));
    assert_eq!(visible_input_window("abc", 99, 10), ("abc".to_string(), 3));
    assert_eq!(max_scroll(10, 4), 6);
    assert_eq!(max_scroll(3, 4), 0);
}

#[test]
fn wrapped_steps_stay_in_the_list() {
    assert_eq!(wrapped_index(0, 3, -1), 2);
    assert_eq!(wrapped_index(2, 3, 1), 0);
    assert_eq!(wrapped_index(5, 3, 1), 0);
    assert_eq!(wrapped_index(1, 3, -7), 0);
    assert_eq!(wrapped_index(4, 0, 1), 0);
}

#[test]
fn activity_lines_follow_the_density() {
    let entry = ActivityEntry {
        seq: 7,
        timestamp: "2026-03-16 13:06:00".to_string(),
        source: "patrol".to_string(),
        channel: "audit".to_string(),
        message: "short".to_string(),
        full_message: "the whole story".to_string(),
        ..Default::default()
    };
    assert_eq!(format_activity(&entry, FeedDensity::Realtime), "#00007 2026-03-16 13:06:00 [patrol:audit] the whole story");
    assert_eq!(format_activity(&entry, FeedDensity::Standard), "2026-03-16 13:06:00 [patrol] short");
    let busy = ActivityEntry { seq: 1234567, ..entry.clone() };
    assert!(format_activity(&busy, FeedDensity::Realtime).starts_with("#1234567 "));
}

#[test]
fn local_views_pick_their_entries() {
    let worker_entry = ActivityEntry { worker_name: "State".to_string(), source: "x".to_string(), ..Default::default() };
    let commander_entry = ActivityEntry { source: "state".to_string(), ..Default::default() };
    assert!(activity_matches_local_view(&worker_entry, &StreamScope::All, ""));
    assert!(!activity_matches_local_view(&worker_entry, &StreamScope::Commander, ""));
    assert!(activity_matches_local_view(&commander_entry, &StreamScope::Commander, ""));
    assert!(activity_matches_local_view(&worker_entry, &StreamScope::Selected, "state"));
    assert!(!activity_matches_local_view(&worker_entry, &StreamScope::Selected, "  "));
    assert!(activity_matches_local_view(&commander_entry, &StreamScope::Worker("STATE".to_string()), ""));
}

#[test]
fn toggles_flip_the_shared_settings() {
    let mut snapshot = snapshot_with("");
    assert_eq!(toggle_follow_command(&snapshot), "follow off");
    assert_eq!(toggle_density_command(&snapshot), "density realtime");
    if let Some(control) = snapshot.control.as_mut() {
        control.follow_tail = false;
        control.density_mode = FeedDensity::Realtime;
    }
    assert_eq!(toggle_follow_command(&snapshot), "follow on");
    assert_eq!(toggle_density_command(&snapshot), "density standard");
    snapshot.control = None;
    assert_eq!(toggle_follow_command(&snapshot), "follow off");
}

#[test]
fn orchestration_summaries_read_the_plan() {
    let mut snapshot = snapshot_with("");
    assert_eq!(render_retro_summary(&snapshot), "No coordination plan loaded.");
    snapshot.coordination = Some(sample_coordination());
    assert_eq!(
        render_coordination_summary(&snapshot),
        "plan=plan-7 approved=true\nstages=2 open_escalations=1 blocked_workers=1\nstage 1 => state, api-spec\nstage 2 => ui"
    );
    assert_eq!(
        render_escalation_summary(&snapshot),
        "E1 [schema] blocked=state,ui :: which id format?\ntracked alignment items:\n- E2 :: align naming"
    );
    assert_eq!(
        render_review_summary(&snapshot),
        "api-spec => approve :: looks right\nstate => no independent review yet"
    );
    assert_eq!(
        render_retro_summary(&snapshot),
        "workers=3 reviewed=1 approved=1 rework=0 escalated=0 open_escalations=1\naverage_cycle_minutes=12\nrecommendations: split ui | add tests"
    );
}

#[test]
fn tower_and_map_show_the_fleet() {
    let mut snapshot = snapshot_with("state");
    snapshot.coordination = Some(sample_coordination());
    let mut app = AppState::new();
    app.active_worker = Some("state".to_string());
    let tower = tower_texts(&app, &snapshot);
    assert_eq!(tower.session, "abc");
    assert_eq!(tower.patrol, "off / idle");
    assert_eq!(tower.coordination, "plan plan-7 | approved yes | open esc 1 | blocked 1");
    assert_eq!(tower.reviews, "approve 1 | rework 0 | escalate 0");
    assert_eq!(tower.retro, "avg cycle 12m | split ui");
    assert_eq!(tower.provider, "provider unresolved");
    assert_eq!(tower.shared_selected, "state");
    assert_eq!(tower.follow, "on");
    assert_eq!(tower.activation, "CLEAR");

    assert_eq!(fleet_counts(&snapshot.status.workers), (3, 1, 1, 1));
    let map = worker_map_texts(&app, &snapshot);
    assert_eq!(map.fleet, "total 3 | running 1 | ready 1 | dirty 1");
    assert_eq!(map.filter, "none | visible 3");
    assert_eq!(map.lane, "branch  | scope full | blocked no");
    assert_eq!(map.model, "5-mini | think standard");

    let rows = roster_rows(&app, &snapshot);
    assert_eq!(rows.len(), 3);
    assert_eq!(rows[1].marker, ">*");
    assert_eq!(rows[0].marker, "  ");
    assert_eq!(rows[1].name, format!("{:<20}", "state"));
    assert_eq!(rows[1].status_tone, Tone::Good);
    assert_eq!(rows[1].handoff_tone, Tone::Warn);
    assert_eq!(rows[0].status_tone, Tone::Accent);
    assert_eq!(rows[2].handoff, "none");
    assert_eq!(rows[2].hold, "go   ");
    assert_eq!(rows[0].model, "5-mini    ");
}

#[test]
fn feed_and_console_texts() {
    let snapshot = snapshot_with("");
    let mut app = AppState::new();
    assert_eq!(feed_title(&app, &snapshot), "LIVE OUTPUT :: all :: standard :: tail on");
    app.feed_follow_override = None;
    assert_eq!(settle_feed_scroll(&mut app, &snapshot, 30, 10), 20);
    app.feed_follow_override = Some(false);
    app.feed_scroll = 50;
    assert_eq!(settle_feed_scroll(&mut app, &snapshot, 30, 10), 20);
    app.feed_scroll = 5;
    assert_eq!(settle_feed_scroll(&mut app, &snapshot, 30, 10), 5);
    app.workers_scroll = 9;
    assert_eq!(settle_workers_scroll(&mut app, 3, 10), 0);
    let texts = console_texts(&app, &snapshot);
    assert_eq!(texts.view, "all");
    assert_eq!(texts.filter, "none");
    assert_eq!(texts.selected, "none");
    app.console_lines.clear();
    assert_eq!(console_log_lines(&app), vec!["no command output yet".to_string()]);
}

#[test]
fn ctrl_f_toggles_the_effective_follow_after_manual_scrolling() {
    let snapshot = snapshot_with("state");
    let mut app = AppState::new();
    app.feed_follow_override = Some(false);
    assert!(!app.feed_follows_tail(&snapshot));
    let sent = process_key(&mut app, &snapshot, PanelKey::Char('f'), true, false, 0);
    assert_eq!(sent.as_deref(), Some("follow on"));
    assert_eq!(app.feed_follow_override, Some(true));
    assert!(app.feed_follows_tail(&snapshot));
    let sent = process_key(&mut app, &snapshot, PanelKey::Char('f'), true, false, 0);
    assert_eq!(sent.as_deref(), Some("follow off"));
    assert_eq!(app.feed_follow_override, Some(false));
}
