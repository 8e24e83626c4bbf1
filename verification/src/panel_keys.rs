//! The live panel's keyboard: which action a key press asks for, and what
//! that action does to the panel. Commands for the supervisor are handed
//! back to the caller, which sends them and reports the answer.
use vstd::prelude::*;

use crate::config::opt_view;
use crate::panel::{
    backspaced, cycled, deleted, escaped, handle_escape, history_next_post, history_ok,
    follows_tail, history_prev_post, keep_last, log_lines, logged, selection_frame, typed,
    visible_names, AppState, COMMAND_LOG_LIMIT,
};
use crate::panel_commands::{submit_command, submit_effect};
use crate::panel_text::{
    local_help_lines, render_local_help, shared_density, toggle_density_command,
};
use crate::runtime::{scope_view, FeedDensity, StreamScope};
use crate::supervisor::SnapshotBundle;
use crate::text::{cat, join, lines, lower_char, owned, views};

verus! {

/// A key as the panel reads it.
#[derive(Debug, Clone, Copy, PartialEq, Eq, Structural)]
pub enum PanelKey {
    Enter,
    Backspace,
    Delete,
    Left,
    Right,
    Home,
    End,
    Up,
    Down,
    PageUp,
    PageDown,
    Esc,
    F(u8),
    Char(char),
    Other,
}

/// What a key press asks the panel to do.
#[derive(Debug, Clone, Copy, PartialEq, Eq, Structural)]
pub enum KeyAction {
    Quit,
    Refresh,
    StopAll,
    ToggleDensity,
    ToggleFollow,
    NextWorker,
    PrevWorker,
    ClearLog,
    WorkersUp,
    WorkersDown,
    LogUp,
    LogDown,
    Submit,
    Backspace,
    Delete,
    Left,
    Right,
    Home,
    End,
    HistoryPrev,
    HistoryNext,
    FeedUp,
    FeedDown,
    Escape,
    Help,
    ViewAll,
    ViewSelected,
    Type(char),
    Nothing,
}

/// Feed rows one page key scrolls.
pub const FEED_SCROLL_STEP: usize = 6;

/// Roster rows one Alt+page key scrolls.
pub const WORKER_SCROLL_STEP: usize = 4;

/// Log rows one Alt+arrow scrolls.
pub const CONSOLE_SCROLL_STEP: usize = 4;

/// The Ctrl shortcuts: C quit, R refresh, S stop all, D density, F follow,
/// N / P next or previous worker, L clear the log (either case).
pub open spec fn control_action(key: PanelKey) -> Option<KeyAction> {
    match key {
        PanelKey::Char(c) => {
            let l = lower_char(c);
            if l == 'c' {
                Some(KeyAction::Quit)
            } else if l == 'r' {
                Some(KeyAction::Refresh)
            } else if l == 's' {
                Some(KeyAction::StopAll)
            } else if l == 'd' {
                Some(KeyAction::ToggleDensity)
            } else if l == 'f' {
                Some(KeyAction::ToggleFollow)
            } else if l == 'n' {
                Some(KeyAction::NextWorker)
            } else if l == 'p' {
                Some(KeyAction::PrevWorker)
            } else if l == 'l' {
                Some(KeyAction::ClearLog)
            } else {
                None
            }
        },
        _ => None,
    }
}

/// The Alt shortcuts: page keys scroll the roster, arrows the log.
pub open spec fn alt_action(key: PanelKey) -> Option<KeyAction> {
    match key {
        PanelKey::PageUp => Some(KeyAction::WorkersUp),
        PanelKey::PageDown => Some(KeyAction::WorkersDown),
        PanelKey::Up => Some(KeyAction::LogUp),
        PanelKey::Down => Some(KeyAction::LogDown),
        _ => None,
    }
}

/// The keys without a shortcut modifier.
pub open spec fn plain_action(key: PanelKey) -> KeyAction {
    match key {
        PanelKey::Enter => KeyAction::Submit,
        PanelKey::Backspace => KeyAction::Backspace,
        PanelKey::Delete => KeyAction::Delete,
        PanelKey::Left => KeyAction::Left,
        PanelKey::Right => KeyAction::Right,
        PanelKey::Home => KeyAction::Home,
        PanelKey::End => KeyAction::End,
        PanelKey::Up => KeyAction::HistoryPrev,
        PanelKey::Down => KeyAction::HistoryNext,
        PanelKey::PageUp => KeyAction::FeedUp,
        PanelKey::PageDown => KeyAction::FeedDown,
        PanelKey::Esc => KeyAction::Escape,
        PanelKey::F(n) => if n == 1 {
            KeyAction::Help
        } else if n == 2 {
            KeyAction::ViewAll
        } else if n == 3 {
            KeyAction::ViewSelected
        } else if n == 4 {
            KeyAction::StopAll
        } else {
            KeyAction::Nothing
        },
        PanelKey::Char(c) => KeyAction::Type(c),
        PanelKey::Other => KeyAction::Nothing,
    }
}

/// A Ctrl shortcut wins, then an Alt shortcut, then the key itself.
pub open spec fn action_for(key: PanelKey, control: bool, alt: bool) -> KeyAction {
    if control && control_action(key) is Some {
        control_action(key)->0
    } else if alt && alt_action(key) is Some {
        alt_action(key)->0
    } else {
        plain_action(key)
    }
}

pub fn key_action(key: PanelKey, control: bool, alt: bool) -> (r: KeyAction)
    ensures
        r == action_for(key, control, alt),
{
    if control {
        if let PanelKey::Char(c) = key {
            let l = crate::text::ascii_lower_char(c);
            if l == 'c' {
                return KeyAction::Quit;
            } else if l == 'r' {
                return KeyAction::Refresh;
            } else if l == 's' {
                return KeyAction::StopAll;
            } else if l == 'd' {
                return KeyAction::ToggleDensity;
            } else if l == 'f' {
                return KeyAction::ToggleFollow;
            } else if l == 'n' {
                return KeyAction::NextWorker;
            } else if l == 'p' {
                return KeyAction::PrevWorker;
            } else if l == 'l' {
                return KeyAction::ClearLog;
            }
        }
    }
    if alt {
        match key {
            PanelKey::PageUp => return KeyAction::WorkersUp,
            PanelKey::PageDown => return KeyAction::WorkersDown,
            PanelKey::Up => return KeyAction::LogUp,
            PanelKey::Down => return KeyAction::LogDown,
            _ => {},
        }
    }
    match key {
        PanelKey::Enter => KeyAction::Submit,
        PanelKey::Backspace => KeyAction::Backspace,
        PanelKey::Delete => KeyAction::Delete,
        PanelKey::Left => KeyAction::Left,
        PanelKey::Right => KeyAction::Right,
        PanelKey::Home => KeyAction::Home,
        PanelKey::End => KeyAction::End,
        PanelKey::Up => KeyAction::HistoryPrev,
        PanelKey::Down => KeyAction::HistoryNext,
        PanelKey::PageUp => KeyAction::FeedUp,
        PanelKey::PageDown => KeyAction::FeedDown,
        PanelKey::Esc => KeyAction::Escape,
        PanelKey::F(n) => if n == 1 {
            KeyAction::Help
        } else if n == 2 {
            KeyAction::ViewAll
        } else if n == 3 {
            KeyAction::ViewSelected
        } else if n == 4 {
            KeyAction::StopAll
        } else {
            KeyAction::Nothing
        },
        PanelKey::Char(c) => KeyAction::Type(c),
        PanelKey::Other => KeyAction::Nothing,
    }
}

pub open spec fn sat_sub(x: usize, y: usize) -> usize {
    if x >= y {
        (x - y) as usize
    } else {
        0
    }
}

pub open spec fn saturating_sum(x: usize, y: usize) -> usize {
    if x + y <= usize::MAX {
        (x + y) as usize
    } else {
        usize::MAX
    }
}

/// A notice after a change of the active worker by Ctrl+N / Ctrl+P.
pub open spec fn cycled_then_noticed(
    a: AppState,
    b: AppState,
    snapshot: SnapshotBundle,
    step: int,
    none_note: Seq<char>,
) -> bool {
    match cycled(
        opt_view(a.active_worker),
        scope_view(a.local_view),
        visible_names(snapshot.status.workers@, a.worker_filter@),
        step,
    ) {
        None => logged(a, b, "! "@, none_note),
        Some((chosen, view)) => exists|mid: AppState|
            selection_frame(a, mid) && opt_view(mid.active_worker) == Some(chosen) && scope_view(
                mid.local_view,
            ) == view && logged(mid, b, "! "@, "Local active worker -> "@ + chosen),
    }
}

/// A view switch by function key, with its notice.
pub open spec fn viewed_then_noticed(a: AppState, b: AppState, view: int, note: Seq<char>) -> bool {
    exists|mid: AppState|
        mid == (AppState {
            local_view: mid.local_view,
            feed_follow_override: Some(true),
            ..a
        }) && scope_view(mid.local_view) == (view, Seq::<char>::empty()) && logged(
            mid,
            b,
            "! "@,
            note,
        )
}

/// What each action does (`a` before, `b` after) and which command, if
/// any, it hands on to the supervisor.
pub open spec fn key_effect(
    a: AppState,
    b: AppState,
    snapshot: SnapshotBundle,
    action: KeyAction,
    now_ns: u64,
    forwarded: Option<Seq<char>>,
) -> bool {
    match action {
        KeyAction::Quit => forwarded is None && logged(
            AppState { should_quit: true, ..a },
            b,
            "! "@,
            "Ctrl+C detected. Closing panel; supervisor shutdown will stop tracked workers."@,
        ),
        KeyAction::Refresh => forwarded == Some("refresh"@) && b == a,
        KeyAction::StopAll => forwarded == Some("stop all"@) && b == a,
        KeyAction::ToggleDensity => b == a && forwarded == Some(
            match shared_density(snapshot) {
                FeedDensity::Standard => "density realtime"@,
                FeedDensity::Realtime => "density standard"@,
            },
        ),
        KeyAction::ToggleFollow => {
            &&& b == (AppState { feed_follow_override: Some(!follows_tail(a, snapshot)), ..a })
            &&& forwarded == Some(
                if follows_tail(a, snapshot) {
                    "follow off"@
                } else {
                    "follow on"@
                },
            )
        },
        KeyAction::NextWorker => forwarded is None && cycled_then_noticed(
            a,
            b,
            snapshot,
            1,
            "No visible worker to advance to."@,
        ),
        KeyAction::PrevWorker => forwarded is None && cycled_then_noticed(
            a,
            b,
            snapshot,
            -1,
            "No visible worker to rewind to."@,
        ),
        KeyAction::ClearLog => {
            let note = "Local command log cleared."@;
            &&& forwarded is None
            &&& views(b.console_lines@) == keep_last(log_lines("! "@, note), COMMAND_LOG_LIMIT as nat)
            &&& b.console_scroll == if b.console_lines@.len() == 0 {
                0
            } else {
                (b.console_lines@.len() - 1) as usize
            }
            &&& b.last_feedback@ == if lines(note).len() > 0 {
                lines(note).last()
            } else {
                a.last_feedback@
            }
            &&& b == (AppState {
                console_lines: b.console_lines,
                console_scroll: b.console_scroll,
                last_feedback: b.last_feedback,
                ..a
            })
        },
        KeyAction::WorkersUp => forwarded is None && b == (AppState {
            workers_scroll: sat_sub(a.workers_scroll, WORKER_SCROLL_STEP),
            ..a
        }),
        KeyAction::WorkersDown => forwarded is None && b == (AppState {
            workers_scroll: saturating_sum(a.workers_scroll, WORKER_SCROLL_STEP),
            ..a
        }),
        KeyAction::LogUp => forwarded is None && b == (AppState {
            console_scroll: sat_sub(a.console_scroll, CONSOLE_SCROLL_STEP),
            ..a
        }),
        KeyAction::LogDown => forwarded is None && b == (AppState {
            console_scroll: saturating_sum(a.console_scroll, CONSOLE_SCROLL_STEP),
            ..a
        }),
        KeyAction::Submit => submit_effect(a, b, snapshot, forwarded),
        KeyAction::Backspace => forwarded is None && backspaced(a, b),
        KeyAction::Delete => forwarded is None && deleted(a, b),
        KeyAction::Left => forwarded is None && b == (AppState {
            input_cursor: sat_sub(a.input_cursor, 1),
            ..a
        }),
        KeyAction::Right => forwarded is None && b == (AppState {
            input_cursor: if a.input_cursor + 1 <= a.command_input@.len() {
                (a.input_cursor + 1) as usize
            } else {
                a.command_input@.len() as usize
            },
            ..a
        }),
        KeyAction::Home => forwarded is None && b == (AppState { input_cursor: 0, ..a }),
        KeyAction::End => forwarded is None && b == (AppState {
            input_cursor: a.command_input@.len() as usize,
            ..a
        }),
        KeyAction::HistoryPrev => forwarded is None && history_prev_post(a, b),
        KeyAction::HistoryNext => forwarded is None && history_next_post(a, b),
        KeyAction::FeedUp => {
            &&& forwarded is None
            &&& b.last_feedback@ == "Live feed scrolled upward. Use `follow on` or Ctrl+F to tail."@
            &&& b == (AppState {
                feed_follow_override: Some(false),
                feed_scroll: sat_sub(a.feed_scroll, FEED_SCROLL_STEP),
                last_feedback: b.last_feedback,
                ..a
            })
        },
        KeyAction::FeedDown => forwarded is None && b == (AppState {
            feed_follow_override: Some(false),
            feed_scroll: saturating_sum(a.feed_scroll, FEED_SCROLL_STEP),
            ..a
        }),
        KeyAction::Escape => forwarded is None && escaped(a, b, now_ns),
        KeyAction::Help => forwarded is None && logged(
            a,
            b,
            "! "@,
            join(local_help_lines(), "\n"@),
        ),
        KeyAction::ViewAll => forwarded is None && viewed_then_noticed(
            a,
            b,
            0,
            "Local live view set to all streams."@,
        ),
        KeyAction::ViewSelected => forwarded is None && viewed_then_noticed(
            a,
            b,
            1,
            "Local live view set to the shared selected worker."@,
        ),
        KeyAction::Type(c) => {
            &&& forwarded is None
            &&& typed(a, AppState { esc_quit_armed_at: a.esc_quit_armed_at, ..b }, c)
            &&& b.esc_quit_armed_at is None
        },
        KeyAction::Nothing => forwarded is None && b == a,
    }
}

fn notice_cycle(app: &mut AppState, snapshot: &SnapshotBundle, step: isize, none_note: &str)
    requires
        snapshot.status.workers@.len() < isize::MAX,
        step == 1 || step == -1,
    ensures
        cycled_then_noticed(*old(app), *final(app), *snapshot, step as int, none_note@),
        history_ok(*old(app)) ==> history_ok(*final(app)),
{
    match app.cycle_active_worker(snapshot, step) {
        Some(worker) => {
            let note = cat("Local active worker -> ", worker.as_str());
            app.push_notice(note.as_str());
        },
        None => {
            app.push_notice(none_note);
        },
    }
}

fn notice_view(app: &mut AppState, all: bool)
    ensures
        viewed_then_noticed(
            *old(app),
            *final(app),
            if all {
                0
            } else {
                1
            },
            if all {
                "Local live view set to all streams."@
            } else {
                "Local live view set to the shared selected worker."@
            },
        ),
        history_ok(*old(app)) ==> history_ok(*final(app)),
{
    if all {
        app.local_view = StreamScope::All;
    } else {
        app.local_view = StreamScope::Selected;
    }
    app.feed_follow_override = Some(true);
    if all {
        app.push_notice("Local live view set to all streams.");
    } else {
        app.push_notice("Local live view set to the shared selected worker.");
    }
}

/// Does what an action asks and returns the command, if any, for the
/// supervisor.
pub fn apply_key_action(
    app: &mut AppState,
    snapshot: &SnapshotBundle,
    action: KeyAction,
    now_ns: u64,
) -> (r: Option<String>)
    requires
        history_ok(*old(app)),
        snapshot.status.workers@.len() < isize::MAX,
    ensures
        key_effect(*old(app), *final(app), *snapshot, action, now_ns, opt_view(r)),
        history_ok(*final(app)),
{
    match action {
        KeyAction::Quit => {
            app.should_quit = true;
            app.push_notice(
                "Ctrl+C detected. Closing panel; supervisor shutdown will stop tracked workers.",
            );
            None
        },
        KeyAction::Refresh => Some(owned("refresh")),
        KeyAction::StopAll => Some(owned("stop all")),
        KeyAction::ToggleDensity => Some(toggle_density_command(snapshot)),
        KeyAction::ToggleFollow => {
            let following = app.feed_follows_tail(snapshot);
            app.feed_follow_override = Some(!following);
            if following {
                Some(owned("follow off"))
            } else {
                Some(owned("follow on"))
            }
        },
        KeyAction::NextWorker => {
            notice_cycle(app, snapshot, 1, "No visible worker to advance to.");
            None
        },
        KeyAction::PrevWorker => {
            notice_cycle(app, snapshot, -1, "No visible worker to rewind to.");
            None
        },
        KeyAction::ClearLog => {
            app.console_lines = Vec::new();
            app.console_scroll = 0;
            app.push_notice("Local command log cleared.");
            assert(views(Seq::<String>::empty()) + log_lines("! "@, "Local command log cleared."@)
                =~= log_lines("! "@, "Local command log cleared."@));
            None
        },
        KeyAction::WorkersUp => {
            app.workers_scroll = app.workers_scroll.saturating_sub(WORKER_SCROLL_STEP);
            None
        },
        KeyAction::WorkersDown => {
            app.workers_scroll = app.workers_scroll.saturating_add(WORKER_SCROLL_STEP);
            None
        },
        KeyAction::LogUp => {
            app.console_scroll = app.console_scroll.saturating_sub(CONSOLE_SCROLL_STEP);
            None
        },
        KeyAction::LogDown => {
            app.console_scroll = app.console_scroll.saturating_add(CONSOLE_SCROLL_STEP);
            None
        },
        KeyAction::Submit => submit_command(app, snapshot),
        KeyAction::Backspace => {
            app.backspace();
            None
        },
        KeyAction::Delete => {
            app.delete();
            None
        },
        KeyAction::Left => {
            app.move_cursor_left();
            None
        },
        KeyAction::Right => {
            app.move_cursor_right();
            None
        },
        KeyAction::Home => {
            app.move_cursor_home();
            None
        },
        KeyAction::End => {
            app.move_cursor_end();
            None
        },
        KeyAction::HistoryPrev => {
            app.history_prev();
            None
        },
        KeyAction::HistoryNext => {
            app.history_next();
            None
        },
        KeyAction::FeedUp => {
            app.feed_follow_override = Some(false);
            app.feed_scroll = app.feed_scroll.saturating_sub(FEED_SCROLL_STEP);
            app.last_feedback = owned(
                "Live feed scrolled upward. Use `follow on` or Ctrl+F to tail.",
            );
            None
        },
        KeyAction::FeedDown => {
            app.feed_follow_override = Some(false);
            app.feed_scroll = app.feed_scroll.saturating_add(FEED_SCROLL_STEP);
            None
        },
        KeyAction::Escape => {
            handle_escape(app, now_ns);
            None
        },
        KeyAction::Help => {
            let help = render_local_help();
            app.push_notice(help.as_str());
            None
        },
        KeyAction::ViewAll => {
            notice_view(app, true);
            None
        },
        KeyAction::ViewSelected => {
            notice_view(app, false);
            None
        },
        KeyAction::Type(c) => {
            app.insert_char(c);
            app.esc_quit_armed_at = None;
            None
        },
        KeyAction::Nothing => None,
    }
}

/// A key press: its action is done, and the command it asks of the
/// supervisor, if any, is returned.
pub fn process_key(
    app: &mut AppState,
    snapshot: &SnapshotBundle,
    key: PanelKey,
    control: bool,
    alt: bool,
    now_ns: u64,
) -> (r: Option<String>)
    requires
        history_ok(*old(app)),
        snapshot.status.workers@.len() < isize::MAX,
    ensures
        key_effect(
            *old(app),
            *final(app),
            *snapshot,
            action_for(key, control, alt),
            now_ns,
            opt_view(r),
        ),
        history_ok(*final(app)),
{
    let action = key_action(key, control, alt);
    apply_key_action(app, snapshot, action, now_ns)
}

} // verus!
