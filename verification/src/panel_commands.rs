//! What the live panel does with a submitted command line: the commands it
//! answers itself, and how it follows the supervisor's answer to the rest.
use vstd::prelude::*;

use crate::config::opt_view;
use crate::panel::{
    cycled, find_worker_name, first_named, history_after, history_ok, local_scope, logged,
    parse_stream_scope, rehomed, selection_frame, visible_names, AppState,
};
use crate::policy::{strip_all, strip_all_exec};
use crate::panel_text::{
    coordination_text, escalation_text, local_help_lines, render_coordination_summary,
    render_escalation_summary, render_local_help, render_retro_summary, render_review_summary,
    retro_text, review_text,
};
use crate::runtime::{scope_view, StreamScope, WorkerSnapshot};
use crate::supervisor::{CommandOutcome, SnapshotBundle};
use crate::text::{
    blank, cat, ends_with, ends_with_text, is_blank, join, lower, owned, same, skip_chars,
    starts_with, starts_with_text, to_lower, trim, trimmed, views,
};

verus! {

/// Which local command a line is, with its argument: 0 help, 1 `view all`,
/// 2 `view selected`, 3 `view commander`, 4 `show next`, 5 `show prev`,
/// 6 `filter clear`, 7 `filter <text>`, 8 `show worker <name>`,
/// 9 `view worker <name>`, 10 `show coordination` (or `show graph`),
/// 11 `show escalations`, 12 `show reviews`, 13 `show retro`, and 14 for a
/// line the panel leaves to the supervisor. Fixed commands ignore case; the
/// prefixes of the commands with an argument do not.
pub open spec fn local_kind(command: Seq<char>) -> (int, Seq<char>) {
    let l = lower(command);
    let rest12 = command.subrange(12, command.len() as int);
    if l == "help local"@ || l == "help tui"@ || l == "local help"@ {
        (0, Seq::empty())
    } else if l == "view all"@ {
        (1, Seq::empty())
    } else if l == "view selected"@ {
        (2, Seq::empty())
    } else if l == "view commander"@ {
        (3, Seq::empty())
    } else if l == "show next"@ {
        (4, Seq::empty())
    } else if l == "show prev"@ {
        (5, Seq::empty())
    } else if l == "filter clear"@ {
        (6, Seq::empty())
    } else if starts_with(command, "filter "@) {
        (7, command.subrange(7, command.len() as int))
    } else if starts_with(command, "show worker "@) {
        (8, rest12)
    } else if starts_with(command, "view worker "@) {
        (9, rest12)
    } else if l == "show coordination"@ || l == "show graph"@ {
        (10, Seq::empty())
    } else if l == "show escalations"@ {
        (11, Seq::empty())
    } else if l == "show reviews"@ {
        (12, Seq::empty())
    } else if l == "show retro"@ {
        (13, Seq::empty())
    } else {
        (14, Seq::empty())
    }
}

fn local_kind_of(command: &str) -> (r: (u8, String))
    ensures
        (r.0 as int, r.1@) == local_kind(command@),
{
    let lowered = to_lower(command);
    let l = lowered.as_str();
    proof {
        reveal_strlit("filter ");
        reveal_strlit("show worker ");
        reveal_strlit("view worker ");
    }
    if same(l, "help local") || same(l, "help tui") || same(l, "local help") {
        (0, String::new())
    } else if same(l, "view all") {
        (1, String::new())
    } else if same(l, "view selected") {
        (2, String::new())
    } else if same(l, "view commander") {
        (3, String::new())
    } else if same(l, "show next") {
        (4, String::new())
    } else if same(l, "show prev") {
        (5, String::new())
    } else if same(l, "filter clear") {
        (6, String::new())
    } else if starts_with_text(command, "filter ") {
        (7, skip_chars(command, 7))
    } else if starts_with_text(command, "show worker ") {
        (8, skip_chars(command, 12))
    } else if starts_with_text(command, "view worker ") {
        (9, skip_chars(command, 12))
    } else if same(l, "show coordination") || same(l, "show graph") {
        (10, String::new())
    } else if same(l, "show escalations") {
        (11, String::new())
    } else if same(l, "show reviews") {
        (12, String::new())
    } else if same(l, "show retro") {
        (13, String::new())
    } else {
        (14, String::new())
    }
}

/// What a local command does to the panel (`a` before, `b` after) and what
/// it answers; a line that is no local command changes nothing and gets no
/// answer.
pub open spec fn local_effect(
    a: AppState,
    b: AppState,
    snapshot: SnapshotBundle,
    command: Seq<char>,
    reply: Option<Seq<char>>,
) -> bool {
    let (k, arg) = local_kind(command);
    let ws = snapshot.status.workers@;
    if k == 14 {
        reply is None && b == a
    } else if k == 0 {
        reply == Some(join(local_help_lines(), "\n"@)) && b == a
    } else if 1 <= k <= 3 {
        &&& b == (AppState {
            local_view: b.local_view,
            feed_follow_override: Some(true),
            ..a
        })
        &&& scope_view(b.local_view) == (k - 1, Seq::<char>::empty())
        &&& reply == Some(
            if k == 1 {
                "Local live view set to all streams."@
            } else if k == 2 {
                "Local live view set to the shared selected worker."@
            } else {
                "Local live view set to commander-only events."@
            },
        )
    } else if k == 4 || k == 5 {
        match cycled(
            opt_view(a.active_worker),
            scope_view(a.local_view),
            visible_names(ws, a.worker_filter@),
            if k == 4 {
                1
            } else {
                -1
            },
        ) {
            None => b == a && reply == Some("No visible worker available."@),
            Some((chosen, view)) => {
                &&& selection_frame(a, b)
                &&& opt_view(b.active_worker) == Some(chosen)
                &&& scope_view(b.local_view) == view
                &&& reply == Some("Local active worker -> "@ + chosen)
            },
        }
    } else if k == 6 || k == 7 {
        let f = if k == 6 {
            Seq::empty()
        } else {
            trim(arg)
        };
        &&& b == (AppState {
            worker_filter: b.worker_filter,
            active_worker: b.active_worker,
            local_view: b.local_view,
            ..a
        })
        &&& b.worker_filter@ == f
        &&& (opt_view(b.active_worker), scope_view(b.local_view)) == rehomed(
            opt_view(a.active_worker),
            scope_view(a.local_view),
            visible_names(ws, f),
        )
        &&& reply == Some(
            if blank(f) {
                "Worker filter cleared."@
            } else {
                "Worker filter set to `"@ + f + "`."@
            },
        )
    } else if k == 8 || k == 9 {
        match first_named(ws, trim(arg)) {
            None => b == a && reply == Some("Unknown worker `"@ + trim(arg) + "`."@),
            Some(n) => if k == 8 {
                &&& selection_frame(a, b)
                &&& opt_view(b.active_worker) == Some(n)
                &&& scope_view(b.local_view) == if scope_view(a.local_view).0 == 3 {
                    (3, n)
                } else {
                    scope_view(a.local_view)
                }
                &&& reply == Some("Local active worker -> "@ + n)
            } else {
                &&& b == (AppState {
                    active_worker: b.active_worker,
                    local_view: b.local_view,
                    feed_follow_override: Some(true),
                    ..a
                })
                &&& opt_view(b.active_worker) == Some(n)
                &&& scope_view(b.local_view) == (3int, n)
                &&& reply == Some("Local live view pinned to worker `"@ + n + "`."@)
            },
        }
    } else {
        &&& b == a
        &&& reply == Some(
            if k == 10 {
                coordination_text(snapshot)
            } else if k == 11 {
                escalation_text(snapshot)
            } else if k == 12 {
                review_text(snapshot)
            } else {
                retro_text(snapshot)
            },
        )
    }
}

fn set_view(app: &mut AppState, k: u8) -> (r: String)
    requires
        1 <= k <= 3,
    ensures
        *final(app) == (AppState {
            local_view: final(app).local_view,
            feed_follow_override: Some(true),
            ..*old(app)
        }),
        scope_view(final(app).local_view) == (k - 1, Seq::<char>::empty()),
        r@ == if k == 1 {
            "Local live view set to all streams."@
        } else if k == 2 {
            "Local live view set to the shared selected worker."@
        } else {
            "Local live view set to commander-only events."@
        },
{
    app.feed_follow_override = Some(true);
    if k == 1 {
        app.local_view = StreamScope::All;
        owned("Local live view set to all streams.")
    } else if k == 2 {
        app.local_view = StreamScope::Selected;
        owned("Local live view set to the shared selected worker.")
    } else {
        app.local_view = StreamScope::Commander;
        owned("Local live view set to commander-only events.")
    }
}

fn set_filter(app: &mut AppState, snapshot: &SnapshotBundle, filter: String) -> (r: String)
    ensures
        *final(app) == (AppState {
            worker_filter: final(app).worker_filter,
            active_worker: final(app).active_worker,
            local_view: final(app).local_view,
            ..*old(app)
        }),
        final(app).worker_filter@ == filter@,
        (opt_view(final(app).active_worker), scope_view(final(app).local_view)) == rehomed(
            opt_view(old(app).active_worker),
            scope_view(old(app).local_view),
            visible_names(snapshot.status.workers@, filter@),
        ),
        r@ == if blank(filter@) {
            "Worker filter cleared."@
        } else {
            "Worker filter set to `"@ + filter@ + "`."@
        },
{
    app.worker_filter = filter;
    app.ensure_active_worker_visible(snapshot);
    if is_blank(app.worker_filter.as_str()) {
        owned("Worker filter cleared.")
    } else {
        let x = cat("Worker filter set to `", app.worker_filter.as_str());
        cat(x.as_str(), "`.")
    }
}

fn unknown_worker(name: &str) -> (r: String)
    ensures
        r@ == "Unknown worker `"@ + name@ + "`."@,
{
    let x = cat("Unknown worker `", name);
    cat(x.as_str(), "`.")
}

/// Runs a command the panel answers itself and returns its answer; any
/// other line changes nothing and gets `None`, to go to the supervisor.
pub fn execute_local_command(app: &mut AppState, snapshot: &SnapshotBundle, command: &str) -> (r:
    Option<String>)
    requires
        snapshot.status.workers@.len() < isize::MAX,
    ensures
        local_effect(*old(app), *final(app), *snapshot, command@, opt_view(r)),
        history_ok(*old(app)) ==> history_ok(*final(app)),
{
    let (k, arg) = local_kind_of(command);
    if k == 14 {
        return None;
    }
    if k == 0 {
        return Some(render_local_help());
    }
    if k <= 3 {
        return Some(set_view(app, k));
    }
    if k == 4 || k == 5 {
        let step: isize = if k == 4 {
            1
        } else {
            -1
        };
        return Some(
            match app.cycle_active_worker(snapshot, step) {
                Some(worker) => cat("Local active worker -> ", worker.as_str()),
                None => owned("No visible worker available."),
            },
        );
    }
    if k == 6 {
        return Some(set_filter(app, snapshot, String::new()));
    }
    if k == 7 {
        let f = trimmed(arg.as_str());
        return Some(set_filter(app, snapshot, f));
    }
    if k == 8 || k == 9 {
        let target = trimmed(arg.as_str());
        proof {
            crate::text::lemma_trim_idempotent(arg@);
        }
        return Some(
            match app.set_active_worker(snapshot, target.as_str()) {
                Some(worker) => {
                    if k == 8 {
                        cat("Local active worker -> ", worker.as_str())
                    } else {
                        app.local_view = StreamScope::Worker(worker.clone());
                        app.feed_follow_override = Some(true);
                        let x = cat("Local live view pinned to worker `", worker.as_str());
                        cat(x.as_str(), "`.")
                    }
                },
                None => unknown_worker(target.as_str()),
            },
        );
    }
    if k == 10 {
        Some(render_coordination_summary(snapshot))
    } else if k == 11 {
        Some(render_escalation_summary(snapshot))
    } else if k == 12 {
        Some(render_review_summary(snapshot))
    } else {
        Some(render_retro_summary(snapshot))
    }
}

// ---------------------------------------------------------------------------
// Following the supervisor
// ---------------------------------------------------------------------------

/// The scope a `stream scope ...` command (read in lower case) picks for the
/// local view, when it names one the panel knows.
pub open spec fn stream_pick(command: Seq<char>, ws: Seq<WorkerSnapshot>) -> Option<(int, Seq<char>)> {
    let l = lower(command);
    if starts_with(l, "stream scope "@) {
        local_scope(l.subrange(13, l.len() as int), ws)
    } else {
        None
    }
}

/// How the panel follows a supervisor command it sent (`a` before, `b`
/// after): `select <name>` makes a listed worker active, `stream scope ...`
/// moves the local view (and follows the tail), `follow on|off` sets tail
/// following.
pub open spec fn sync_effect(a: AppState, b: AppState, snapshot: SnapshotBundle, command: Seq<char>) -> bool {
    let ws = snapshot.status.workers@;
    let l = lower(command);
    let selected = if starts_with(command, "select "@) {
        first_named(ws, trim(command.subrange(7, command.len() as int)))
    } else {
        None
    };
    let picked = stream_pick(command, ws);
    let follow_after_pick = if picked is Some {
        Some(true)
    } else {
        a.feed_follow_override
    };
    &&& b == (AppState {
        active_worker: b.active_worker,
        local_view: b.local_view,
        feed_follow_override: b.feed_follow_override,
        ..a
    })
    &&& opt_view(b.active_worker) == match selected {
        Some(n) => Some(n),
        None => opt_view(a.active_worker),
    }
    &&& scope_view(b.local_view) == match picked {
        Some(v) => v,
        None => scope_view(a.local_view),
    }
    &&& b.feed_follow_override == if starts_with(l, "follow "@) {
        Some(!ends_with(l, " off"@))
    } else {
        follow_after_pick
    }
}

pub fn sync_local_state_after_supervisor_command(
    app: &mut AppState,
    snapshot: &SnapshotBundle,
    command: &str,
)
    ensures
        sync_effect(*old(app), *final(app), *snapshot, command@),
{
    let lowered = to_lower(command);
    let l = lowered.as_str();
    proof {
        reveal_strlit("select ");
        reveal_strlit("stream scope ");
    }
    if starts_with_text(command, "select ") {
        let target = skip_chars(command, 7);
        match find_worker_name(snapshot, target.as_str()) {
            Some(worker) => {
                app.active_worker = Some(worker);
            },
            None => {},
        }
    }
    if starts_with_text(l, "stream scope ") {
        let scope = skip_chars(l, 13);
        match parse_stream_scope(scope.as_str(), snapshot) {
            Some(local_view) => {
                app.local_view = local_view;
                app.feed_follow_override = Some(true);
            },
            None => {},
        }
    }
    if starts_with_text(l, "follow ") {
        app.feed_follow_override = Some(!ends_with_text(l, " off"));
    }
}

/// The panel before the supervisor's answer is synced: tail following
/// turned on unless the command was a `follow` command, the answer logged,
/// the quit request taken, and a fresh snapshot asked for.
pub open spec fn answered(
    a: AppState,
    b: AppState,
    command: Seq<char>,
    outcome: CommandOutcome,
) -> AppState {
    AppState {
        feed_follow_override: if starts_with(lower(trim(command)), "follow "@) {
            a.feed_follow_override
        } else {
            Some(true)
        },
        console_lines: b.console_lines,
        console_scroll: b.console_scroll,
        last_feedback: b.last_feedback,
        should_quit: outcome.quit_requested,
        force_snapshot_refresh: true,
        ..a
    }
}

/// Takes the supervisor's answer to a command the panel sent.
pub fn record_supervisor_outcome(
    app: &mut AppState,
    snapshot: &SnapshotBundle,
    command: &str,
    outcome: &CommandOutcome,
)
    ensures
        ({
            let mid = answered(*old(app), *final(app), command@, *outcome);
            &&& logged(
                AppState { feed_follow_override: mid.feed_follow_override, ..*old(app) },
                AppState {
                    should_quit: old(app).should_quit,
                    force_snapshot_refresh: old(app).force_snapshot_refresh,
                    ..mid
                },
                "< "@,
                outcome.message@,
            )
            &&& sync_effect(mid, *final(app), *snapshot, command@)
        }),
{
    let t = trimmed(command);
    let l = to_lower(t.as_str());
    if !starts_with_text(l.as_str(), "follow ") {
        app.feed_follow_override = Some(true);
    }
    app.push_result(outcome.message.as_str());
    app.should_quit = outcome.quit_requested;
    app.force_snapshot_refresh = true;
    let ghost mid = *app;
    sync_local_state_after_supervisor_command(app, snapshot, command);
    assert(mid == answered(*old(app), *app, command@, *outcome));
}

// ---------------------------------------------------------------------------
// Submitting the command line
// ---------------------------------------------------------------------------

/// The command a typed line sends: trimmed, without leading `:`s, trimmed
/// again; `None` when that leaves nothing.
pub open spec fn submitted(input: Seq<char>) -> Option<Seq<char>> {
    let command = trim(strip_all(trim(input), ":"@));
    if command.len() == 0 {
        None
    } else {
        Some(command)
    }
}

/// Sending a command (`a` before, `b` after): it joins the history, is
/// echoed in the log and becomes the last command; the line is emptied,
/// history browsing ends and Esc is disarmed.
pub open spec fn taken(a: AppState, b: AppState, command: Seq<char>) -> bool {
    &&& views(b.command_history@) == history_after(views(a.command_history@), command)
    &&& b.last_command@ == command
    &&& b.command_input@.len() == 0
    &&& logged(
        AppState { last_command: b.last_command, command_history: b.command_history, ..a },
        AppState {
            command_input: a.command_input,
            input_cursor: a.input_cursor,
            history_cursor: a.history_cursor,
            history_draft: a.history_draft,
            esc_quit_armed_at: a.esc_quit_armed_at,
            ..b
        },
        "> "@,
        command,
    )
    &&& b.input_cursor == 0
    &&& b.history_cursor is None
    &&& b.history_draft is None
    &&& b.esc_quit_armed_at is None
}

/// Takes the typed line as a command: records it as sent and returns it;
/// `None` when the line holds no command (an empty line is left alone, a
/// line of only `:`s is cleared).
pub fn take_command(app: &mut AppState) -> (r: Option<String>)
    ensures
        match submitted(old(app).command_input@) {
            None => {
                &&& r is None
                &&& blank(old(app).command_input@) ==> *final(app) == *old(app)
                &&& !blank(old(app).command_input@) ==> *final(app) == (AppState {
                    command_input: final(app).command_input,
                    input_cursor: 0,
                    history_cursor: None,
                    history_draft: None,
                    ..*old(app)
                }) && final(app).command_input@.len() == 0
            },
            Some(c) => opt_view(r) == Some(c) && taken(*old(app), *final(app), c),
        },
{
    let raw = trimmed(app.command_input.as_str());
    if raw.unicode_len() == 0 {
        return None;
    }
    let stripped = strip_all_exec(raw.as_str(), ":");
    let command = trimmed(stripped.as_str());
    if command.unicode_len() == 0 {
        app.clear_input();
        return None;
    }
    app.push_history(command.as_str());
    app.push_command_echo(command.as_str());
    app.clear_input();
    app.esc_quit_armed_at = None;
    Some(command)
}

/// Runs a sent command: a local command is answered in the log; any other
/// is returned, to go to the supervisor.
pub open spec fn ran(
    a: AppState,
    b: AppState,
    snapshot: SnapshotBundle,
    command: Seq<char>,
    forwarded: Option<Seq<char>>,
) -> bool {
    exists|mid: AppState, reply: Option<Seq<char>>|
        local_effect(a, mid, snapshot, command, reply) && match reply {
            None => b == mid && forwarded == Some(command),
            Some(m) => forwarded is None && logged(mid, b, "< "@, m),
        }
}

pub fn run_command(app: &mut AppState, snapshot: &SnapshotBundle, command: &str) -> (r: Option<
    String,
>)
    requires
        snapshot.status.workers@.len() < isize::MAX,
    ensures
        ran(*old(app), *final(app), *snapshot, command@, opt_view(r)),
        history_ok(*old(app)) ==> history_ok(*final(app)),
{
    let ghost before = *app;
    match execute_local_command(app, snapshot, command) {
        Some(message) => {
            let ghost mid = *app;
            app.push_result(message.as_str());
            assert(local_effect(before, mid, *snapshot, command@, Some(message@)));
            None
        },
        None => {
            assert(local_effect(before, *app, *snapshot, command@, None::<Seq<char>>));
            Some(owned(command))
        },
    }
}

/// Enter on the command line (`a` before, `b` after): the typed command
/// is taken and run; `forwarded` is what goes on to the supervisor.
pub open spec fn submit_effect(
    a: AppState,
    b: AppState,
    snapshot: SnapshotBundle,
    forwarded: Option<Seq<char>>,
) -> bool {
    match submitted(a.command_input@) {
        None => {
            &&& forwarded is None
            &&& blank(a.command_input@) ==> b == a
            &&& !blank(a.command_input@) ==> b == (AppState {
                command_input: b.command_input,
                input_cursor: 0,
                history_cursor: None,
                history_draft: None,
                ..a
            }) && b.command_input@.len() == 0
        },
        Some(c) => exists|mid: AppState| taken(a, mid, c) && ran(mid, b, snapshot, c, forwarded),
    }
}

/// Enter on the command line: takes the typed command, answers it locally
/// when the panel knows it, and returns it otherwise, for the supervisor.
pub fn submit_command(app: &mut AppState, snapshot: &SnapshotBundle) -> (r: Option<String>)
    requires
        snapshot.status.workers@.len() < isize::MAX,
    ensures
        submit_effect(*old(app), *final(app), *snapshot, opt_view(r)),
        history_ok(*old(app)) ==> history_ok(*final(app)),
{
    match take_command(app) {
        Some(command) => {
            let ghost mid = *app;
            let r = run_command(app, snapshot, command.as_str());
            assert(taken(*old(app), mid, command@));
            r
        },
        None => None,
    }
}

} // verus!
