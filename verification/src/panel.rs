//! The live panel's own state: the command line with its history, the
//! command log, the local view and worker filter, and the texts it shows.
use vstd::prelude::*;

use crate::config::opt_view;
use crate::panel_text::{
    empty_feed_lines, feed_of, feed_texts, shared_density, shared_follow, wrapped, wrapped_index,
};
use crate::runtime::{scope_view, FeedDensity, StreamScope, WorkerSnapshot};
use crate::supervisor::SnapshotBundle;
use crate::text::{
    blank, cat, contains, contains_text, eq_ic, eq_ignore_case, is_blank, lines, lower, owned, same,
    skip_chars, split_lines, starts_with, starts_with_text, to_lower, trim, trimmed, views,
};

verus! {

/// How many lines the command log keeps.
pub const COMMAND_LOG_LIMIT: usize = 180;

/// How many commands the history keeps.
pub const HISTORY_LIMIT: usize = 64;

/// How long the first Esc stays armed, in nanoseconds (two seconds).
pub const ESC_QUIT_WINDOW_NS: u64 = 2_000_000_000;

/// How often the panel reads a new snapshot, in milliseconds.
pub const SNAPSHOT_REFRESH_MILLIS: u64 = 650;

/// Whether the panel reads a new snapshot now: when one is asked for, or
/// when `elapsed_ms` whole milliseconds have passed since the last one and
/// that reaches the refresh interval.
pub fn snapshot_refresh_due(forced: bool, elapsed_ms: u64) -> (r: bool)
    ensures
        r == (forced || elapsed_ms >= SNAPSHOT_REFRESH_MILLIS),
{
    forced || elapsed_ms >= SNAPSHOT_REFRESH_MILLIS
}

/// The panel's own state.
#[derive(Debug, Clone)]
pub struct AppState {
    pub command_input: String,
    /// Cursor position, in characters.
    pub input_cursor: usize,
    pub command_history: Vec<String>,
    pub history_cursor: Option<usize>,
    pub history_draft: Option<String>,
    pub console_lines: Vec<String>,
    pub console_scroll: usize,
    pub worker_filter: String,
    pub local_view: StreamScope,
    pub active_worker: Option<String>,
    pub workers_scroll: usize,
    pub feed_scroll: usize,
    pub feed_follow_override: Option<bool>,
    pub last_feedback: String,
    pub last_command: String,
    pub should_quit: bool,
    pub force_snapshot_refresh: bool,
    /// When Esc was armed, in nanoseconds on the panel's monotonic clock.
    pub esc_quit_armed_at: Option<u64>,
}

/// The history cursor points into the history.
pub open spec fn history_ok(a: AppState) -> bool {
    a.history_cursor matches Some(i) ==> i < a.command_history@.len()
}

/// The lines a message adds to the command log.
pub open spec fn log_lines(prefix: Seq<char>, message: Seq<char>) -> Seq<Seq<char>> {
    if blank(message) {
        seq![Seq::empty()]
    } else {
        lines(message).map_values(|l: Seq<char>| prefix + l)
    }
}

/// A character typed at the cursor (`a` before, `b` after): it goes in at
/// the cursor (at the end when the cursor is past it) and the cursor moves
/// one place on.
pub open spec fn typed(a: AppState, b: AppState, ch: char) -> bool {
    let s = a.command_input@;
    let at = if a.input_cursor <= s.len() {
        a.input_cursor as int
    } else {
        s.len() as int
    };
    &&& b.command_input@ == s.insert(at, ch)
    &&& b == (AppState {
        command_input: b.command_input,
        input_cursor: if a.input_cursor == usize::MAX {
            usize::MAX
        } else {
            (a.input_cursor + 1) as usize
        },
        ..a
    })
}

/// Backspace: the character before the cursor goes and the cursor moves
/// back onto its place; nothing happens at the start of the line.
pub open spec fn backspaced(a: AppState, b: AppState) -> bool {
    let s = a.command_input@;
    let c = a.input_cursor;
    if c == 0 || c - 1 >= s.len() {
        b == a
    } else {
        &&& b.command_input@ == s.remove(c - 1)
        &&& b == (AppState {
            command_input: b.command_input,
            input_cursor: (c - 1) as usize,
            ..a
        })
    }
}

/// Delete: the character at the cursor goes; nothing happens at the end of
/// the line.
pub open spec fn deleted(a: AppState, b: AppState) -> bool {
    let s = a.command_input@;
    let c = a.input_cursor;
    if c >= s.len() {
        b == a
    } else {
        &&& b.command_input@ == s.remove(c as int)
        &&& b == (AppState { command_input: b.command_input, ..a })
    }
}

/// The history after sending a command: unchanged when the command repeats
/// the newest entry, else with the command added and only the newest 64 kept.
pub open spec fn history_after(h: Seq<Seq<char>>, command: Seq<char>) -> Seq<Seq<char>> {
    if h.len() > 0 && h.last() == command {
        h
    } else {
        keep_last(h.push(command), HISTORY_LIMIT as nat)
    }
}

/// A message added to the command log (`a` before, `b` after): its lines,
/// each after the prefix, with the newest 180 lines kept, the log scrolled to
/// its end, the message's last line as feedback, and nothing else changed.
pub open spec fn logged(a: AppState, b: AppState, prefix: Seq<char>, message: Seq<char>) -> bool {
    &&& views(b.console_lines@) == keep_last(
        views(a.console_lines@) + log_lines(prefix, message),
        COMMAND_LOG_LIMIT as nat,
    )
    &&& b.console_scroll == if b.console_lines@.len() == 0 {
        0
    } else {
        (b.console_lines@.len() - 1) as usize
    }
    &&& b.last_feedback@ == if lines(message).len() > 0 {
        lines(message).last()
    } else {
        a.last_feedback@
    }
    &&& log_frame(a, b)
}

/// Only the log, its scroll position and the feedback line differ.
pub open spec fn log_frame(a: AppState, b: AppState) -> bool {
    b == (AppState {
        console_lines: b.console_lines,
        console_scroll: b.console_scroll,
        last_feedback: b.last_feedback,
        ..a
    })
}

/// The last `n` items of `s`, or all of them where there are fewer.
pub open spec fn keep_last(s: Seq<Seq<char>>, n: nat) -> Seq<Seq<char>> {
    if s.len() > n {
        s.subrange(s.len() - n, s.len() as int)
    } else {
        s
    }
}

/// The lines a message adds to the log, each after the prefix.
fn prefixed_lines(prefix: &str, message: &str) -> (r: Vec<String>)
    ensures
        views(r@) == log_lines(prefix@, message@),
{
    let mut out: Vec<String> = Vec::new();
    if is_blank(message) {
        out.push(String::new());
        assert(views(out@) =~= log_lines(prefix@, message@));
        return out;
    }
    let ls = split_lines(message);
    let mut i: usize = 0;
    while i < ls.len()
        invariant
            i <= ls.len(),
            views(out@) == views(ls@).subrange(0, i as int).map_values(|l: Seq<char>| prefix@ + l),
        decreases ls.len() - i,
    {
        let ghost cur = views(out@);
        out.push(cat(prefix, ls[i].as_str()));
        assert(views(ls@).subrange(0, i + 1).map_values(|l: Seq<char>| prefix@ + l) =~= views(
            ls@,
        ).subrange(0, i as int).map_values(|l: Seq<char>| prefix@ + l).push(prefix@ + ls@[i as int]@));
        assert(views(out@) =~= cur.push(prefix@ + ls@[i as int]@));
        i = i + 1;
    }
    assert(views(ls@).subrange(0, ls.len() as int) =~= views(ls@));
    assert(views(out@) =~= log_lines(prefix@, message@));
    out
}

/// The four greeting notices of a fresh panel.
pub open spec fn greeting_log() -> Seq<Seq<char>> {
    let n = COMMAND_LOG_LIMIT as nat;
    let p = "! "@;
    keep_last(
        keep_last(
            keep_last(
                keep_last(
                    Seq::empty() + log_lines(p, "Four-quadrant command deck online."@),
                    n,
                ) + log_lines(p, "Type `help local` for local panel commands."@),
                n,
            ) + log_lines(
                p,
                "Type supervisor commands directly: `start state`, `stop all`, `patrol once`."@,
            ),
            n,
        ) + log_lines(
            p,
            "Type `show coordination`, `show escalations`, or `show reviews` for local orchestration summaries."@,
        ),
        n,
    )
}

/// A panel as it opens: empty command line and history, no filter, local
/// view on all streams following the tail, no active worker, nothing
/// scrolled, `help local` as the last command, the greeting notices in the
/// log (scrolled to its end), and a snapshot refresh due.
pub open spec fn fresh(r: AppState) -> bool {
    &&& r.command_input@.len() == 0
    &&& r.input_cursor == 0
    &&& r.command_history@.len() == 0
    &&& r.history_cursor is None
    &&& r.history_draft is None
    &&& views(r.console_lines@) == greeting_log()
    &&& r.console_scroll == if r.console_lines@.len() == 0 {
        0
    } else {
        (r.console_lines@.len() - 1) as usize
    }
    &&& r.worker_filter@.len() == 0
    &&& r.local_view is All
    &&& r.active_worker is None
    &&& r.workers_scroll == 0
    &&& r.feed_scroll == 0
    &&& r.feed_follow_override == Some(true)
    &&& r.last_command@ == "help local"@
    &&& !r.should_quit
    &&& r.force_snapshot_refresh
    &&& r.esc_quit_armed_at is None
    &&& history_ok(r)
}

impl Default for AppState {
    fn default() -> (r: Self)
        ensures
            fresh(r),
    {
        AppState::new()
    }
}

impl AppState {
    /// A fresh panel: empty command line, local view on all streams, tail
    /// following on, and the greeting notices in the log.
    pub fn new() -> (r: Self)
        ensures
            fresh(r),
    {
        let mut state = AppState {
            command_input: String::new(),
            input_cursor: 0,
            command_history: Vec::new(),
            history_cursor: None,
            history_draft: None,
            console_lines: Vec::new(),
            console_scroll: 0,
            worker_filter: String::new(),
            local_view: StreamScope::All,
            active_worker: None,
            workers_scroll: 0,
            feed_scroll: 0,
            feed_follow_override: Some(true),
            last_feedback: owned(
                "Panel live. Right-bottom command line is the default control surface.",
            ),
            last_command: owned("help local"),
            should_quit: false,
            force_snapshot_refresh: true,
            esc_quit_armed_at: None,
        };
        state.push_notice("Four-quadrant command deck online.");
        state.push_notice("Type `help local` for local panel commands.");
        state.push_notice(
            "Type supervisor commands directly: `start state`, `stop all`, `patrol once`.",
        );
        state.push_notice(
            "Type `show coordination`, `show escalations`, or `show reviews` for local orchestration summaries.",
        );
        state
    }

    /// Length of the command line, in characters.
    pub fn input_len(&self) -> (r: usize)
        ensures
            r == self.command_input@.len(),
    {
        self.command_input.unicode_len()
    }

    /// Replaces the command line and puts the cursor at its end.
    pub fn set_input(&mut self, value: String)
        ensures
            final(self).input_cursor == value@.len(),
            *final(self) == (AppState {
                command_input: value,
                input_cursor: value@.len() as usize,
                ..*old(self)
            }),
    {
        self.command_input = value;
        self.input_cursor = self.input_len();
    }

    /// Empties the command line and leaves history browsing.
    pub fn clear_input(&mut self)
        ensures
            final(self).command_input@.len() == 0,
            *final(self) == (AppState {
                command_input: final(self).command_input,
                input_cursor: 0,
                history_cursor: None,
                history_draft: None,
                ..*old(self)
            }),
    {
        self.command_input = String::new();
        self.input_cursor = 0;
        self.history_cursor = None;
        self.history_draft = None;
    }

    /// Inserts a character at the cursor and moves the cursor past it.
    pub fn insert_char(&mut self, ch: char)
        ensures
            typed(*old(self), *final(self), ch),
    {
        let mut chars = crate::text::chars_of(self.command_input.as_str());
        let at = if self.input_cursor <= chars.len() {
            self.input_cursor
        } else {
            chars.len()
        };
        chars.insert(at, ch);
        self.command_input = crate::text::string_of(&chars);
        self.input_cursor = self.input_cursor.saturating_add(1);
    }

    /// Removes the character before the cursor.
    pub fn backspace(&mut self)
        ensures
            backspaced(*old(self), *final(self)),
    {
        if self.input_cursor == 0 {
            return;
        }
        let mut chars = crate::text::chars_of(self.command_input.as_str());
        let position = self.input_cursor - 1;
        if position < chars.len() {
            chars.remove(position);
            self.command_input = crate::text::string_of(&chars);
            self.input_cursor = position;
        }
    }

    /// Removes the character at the cursor.
    pub fn delete(&mut self)
        ensures
            deleted(*old(self), *final(self)),
    {
        let mut chars = crate::text::chars_of(self.command_input.as_str());
        if self.input_cursor >= chars.len() {
            return;
        }
        chars.remove(self.input_cursor);
        self.command_input = crate::text::string_of(&chars);
    }

    pub fn move_cursor_left(&mut self)
        ensures
            *final(self) == (AppState {
                input_cursor: if old(self).input_cursor == 0 {
                    0
                } else {
                    (old(self).input_cursor - 1) as usize
                },
                ..*old(self)
            }),
    {
        self.input_cursor = self.input_cursor.saturating_sub(1);
    }

    pub fn move_cursor_right(&mut self)
        ensures
            *final(self) == (AppState {
                input_cursor: if old(self).input_cursor + 1 <= old(self).command_input@.len() {
                    (old(self).input_cursor + 1) as usize
                } else {
                    old(self).command_input@.len() as usize
                },
                ..*old(self)
            }),
    {
        let len = self.input_len();
        self.input_cursor = if self.input_cursor < len {
            self.input_cursor + 1
        } else {
            len
        };
    }

    pub fn move_cursor_home(&mut self)
        ensures
            *final(self) == (AppState { input_cursor: 0, ..*old(self) }),
    {
        self.input_cursor = 0;
    }

    pub fn move_cursor_end(&mut self)
        ensures
            *final(self) == (AppState {
                input_cursor: old(self).command_input@.len() as usize,
                ..*old(self)
            }),
            final(self).input_cursor == old(self).command_input@.len(),
    {
        self.input_cursor = self.input_len();
    }

    /// Records a sent command, unless it repeats the last one; the history
    /// keeps the newest 64 and browsing ends.
    pub fn push_history(&mut self, command: &str)
        ensures
            views(final(self).command_history@) == history_after(
                views(old(self).command_history@),
                command@,
            ),
            *final(self) == (AppState {
                command_history: final(self).command_history,
                history_cursor: None,
                history_draft: None,
                ..*old(self)
            }),
            history_ok(*final(self)),
    {
        let n = self.command_history.len();
        if n > 0 && same(self.command_history[n - 1].as_str(), command) {
            assert(views(self.command_history@).last() == self.command_history@[n - 1]@);
            self.history_cursor = None;
            self.history_draft = None;
            return;
        }
        let ghost before = views(self.command_history@);
        self.command_history.push(owned(command));
        assert(views(self.command_history@) =~= before.push(command@));
        if self.command_history.len() > HISTORY_LIMIT {
            let overflow = self.command_history.len() - HISTORY_LIMIT;
            let kept = self.command_history.split_off(overflow);
            self.command_history = kept;
            assert(views(self.command_history@) =~= keep_last(before.push(command@), HISTORY_LIMIT as nat));
        }
        self.history_cursor = None;
        self.history_draft = None;
    }

    /// Steps back through the history; on the first step the typed line is
    /// kept as the draft.
    pub fn history_prev(&mut self)
        requires
            history_ok(*old(self)),
        ensures
            history_prev_post(*old(self), *final(self)),
            history_ok(*final(self)),
    {
        if self.command_history.len() == 0 {
            return;
        }
        if self.history_cursor.is_none() {
            self.history_draft = Some(self.command_input.clone());
        }
        let next = match self.history_cursor {
            Some(0) => 0,
            Some(index) => index - 1,
            None => self.command_history.len() - 1,
        };
        self.history_cursor = Some(next);
        let value = self.command_history[next].clone();
        self.set_input(value);
    }

    /// Steps forward through the history; past the newest entry the draft
    /// comes back.
    pub fn history_next(&mut self)
        requires
            history_ok(*old(self)),
        ensures
            history_next_post(*old(self), *final(self)),
            history_ok(*final(self)),
    {
        let index = match self.history_cursor {
            Some(i) => i,
            None => return,
        };
        if index >= self.command_history.len() - 1 {
            self.history_cursor = None;
            let draft = match self.history_draft.take() {
                Some(d) => d,
                None => String::new(),
            };
            self.set_input(draft);
            return;
        }
        let next = index + 1;
        self.history_cursor = Some(next);
        let value = self.command_history[next].clone();
        self.set_input(value);
    }

    /// Adds a message to the command log, one prefixed line per line (a
    /// blank message adds one empty line); the log keeps its newest 180
    /// lines, scrolls to the end, and the message's last line becomes the
    /// feedback.
    pub fn push_console_lines(&mut self, prefix: &str, message: &str)
        ensures
            logged(*old(self), *final(self), prefix@, message@),
    {
        let ls = split_lines(message);
        let mut added = prefixed_lines(prefix, message);
        let ghost before = views(self.console_lines@);
        let ghost more = views(added@);
        self.console_lines.append(&mut added);
        assert(views(self.console_lines@) =~= before + more);
        let ghost all = views(self.console_lines@);
        if self.console_lines.len() > COMMAND_LOG_LIMIT {
            let overflow = self.console_lines.len() - COMMAND_LOG_LIMIT;
            let kept = self.console_lines.split_off(overflow);
            self.console_lines = kept;
            assert(views(self.console_lines@) =~= keep_last(all, COMMAND_LOG_LIMIT as nat));
        }
        self.console_scroll = if self.console_lines.len() == 0 {
            0
        } else {
            self.console_lines.len() - 1
        };
        if ls.len() > 0 {
            assert(views(ls@).last() == ls@[ls.len() - 1]@);
            self.last_feedback = ls[ls.len() - 1].clone();
        }
    }

    /// A `! ` line in the log.
    pub fn push_notice(&mut self, message: &str)
        ensures
            logged(*old(self), *final(self), "! "@, message@),
    {
        self.push_console_lines("! ", message);
    }

    /// A `> ` echo of a command, which becomes the last command.
    pub fn push_command_echo(&mut self, command: &str)
        ensures
            final(self).last_command@ == command@,
            logged(
                AppState { last_command: final(self).last_command, ..*old(self) },
                *final(self),
                "> "@,
                command@,
            ),
    {
        self.last_command = owned(command);
        self.push_console_lines("> ", command);
    }

    /// A `< ` result in the log.
    pub fn push_result(&mut self, message: &str)
        ensures
            logged(*old(self), *final(self), "< "@, message@),
    {
        self.push_console_lines("< ", message);
    }

    /// The worker filter, or `none`.
    pub fn worker_filter_label(&self) -> (r: String)
        ensures
            r@ == if blank(self.worker_filter@) {
                "none"@
            } else {
                self.worker_filter@
            },
    {
        if is_blank(self.worker_filter.as_str()) {
            owned("none")
        } else {
            self.worker_filter.clone()
        }
    }

    /// The local view's label.
    pub fn local_view_label(&self) -> (r: String)
        ensures
            r@ == crate::supervisor::scope_text(self.local_view),
    {
        crate::supervisor::stream_scope_label(&self.local_view)
    }

    /// Esc quits when pressed again within two seconds of arming; otherwise
    /// it arms.
    pub fn arm_or_quit(&mut self, now_ns: u64) -> (r: bool)
        ensures
            r == esc_quits(old(self).esc_quit_armed_at, now_ns),
            *final(self) == (AppState {
                esc_quit_armed_at: if r {
                    None
                } else {
                    Some(now_ns)
                },
                ..*old(self)
            }),
    {
        let should_quit = match self.esc_quit_armed_at {
            Some(armed_at) => now_ns.saturating_sub(armed_at) <= ESC_QUIT_WINDOW_NS,
            None => false,
        };
        if should_quit {
            self.esc_quit_armed_at = None;
            true
        } else {
            self.esc_quit_armed_at = Some(now_ns);
            false
        }
    }
}

/// Whether an Esc at `now_ns` quits: one was armed at most two seconds
/// before (a clock that went back counts as no time passed).
pub open spec fn esc_quits(armed: Option<u64>, now_ns: u64) -> bool {
    match armed {
        Some(t) => (if now_ns >= t {
            now_ns - t
        } else {
            0
        }) <= ESC_QUIT_WINDOW_NS,
        None => false,
    }
}

/// Stepping back through the history.
pub open spec fn history_prev_post(a: AppState, b: AppState) -> bool {
    if a.command_history@.len() == 0 {
        b == a
    } else {
        let next: int = match a.history_cursor {
            Some(i) => if i == 0 {
                0
            } else {
                i - 1
            },
            None => a.command_history@.len() - 1,
        };
        &&& b.history_cursor == Some(next as usize)
        &&& b.command_input@ == a.command_history@[next]@
        &&& b.input_cursor == b.command_input@.len()
        &&& b.history_draft == if a.history_cursor is None {
            Some(a.command_input)
        } else {
            a.history_draft
        }
        &&& b == (AppState {
            command_input: b.command_input,
            input_cursor: b.input_cursor,
            history_cursor: b.history_cursor,
            history_draft: b.history_draft,
            ..a
        })
    }
}

/// Stepping forward through the history.
pub open spec fn history_next_post(a: AppState, b: AppState) -> bool {
    match a.history_cursor {
        None => b == a,
        Some(i) => if i + 1 >= a.command_history@.len() {
            &&& b.history_cursor is None
            &&& b.command_input@ == match a.history_draft {
                Some(d) => d@,
                None => Seq::empty(),
            }
            &&& b.input_cursor == b.command_input@.len()
            &&& b.history_draft is None
            &&& b == (AppState {
                command_input: b.command_input,
                input_cursor: b.input_cursor,
                history_cursor: b.history_cursor,
                history_draft: b.history_draft,
                ..a
            })
        } else {
            &&& b.history_cursor == Some((i + 1) as usize)
            &&& b.command_input@ == a.command_history@[i + 1]@
            &&& b.input_cursor == b.command_input@.len()
            &&& b.history_draft == a.history_draft
            &&& b == (AppState {
                command_input: b.command_input,
                input_cursor: b.input_cursor,
                history_cursor: b.history_cursor,
                history_draft: b.history_draft,
                ..a
            })
        },
    }
}

/// Browsing one step back into the history and one step forward again gives
/// the typed line back, with the cursor at its end.
pub proof fn lemma_history_round_trip(a: AppState, b: AppState, c: AppState)
    requires
        history_ok(a),
        a.history_cursor is None,
        a.command_history@.len() > 0,
        history_prev_post(a, b),
        history_next_post(b, c),
    ensures
        c.command_input@ == a.command_input@,
        c.input_cursor == a.command_input@.len(),
        c.history_cursor is None,
{
    let n = a.command_history@.len();
    assert(n == a.command_history.len());
    assert(b.history_cursor == Some((n - 1) as usize));
    assert(b.command_history == a.command_history);
    assert(b.history_draft == Some(a.command_input));
    assert(((n - 1) as usize) + 1 >= b.command_history@.len());
}

/// A lone Esc only arms; a second Esc within two seconds of it quits, and
/// one that comes later does not.
pub proof fn lemma_double_escape(t0: u64, t1: u64)
    requires
        t0 <= t1,
    ensures
        !esc_quits(None, t0),
        esc_quits(Some(t0), t1) <==> t1 - t0 <= ESC_QUIT_WINDOW_NS,
{
}

// ---------------------------------------------------------------------------
// Workers in view
// ---------------------------------------------------------------------------

/// The fields a worker filter searches.
pub open spec fn filter_fields(w: WorkerSnapshot) -> Seq<Seq<char>> {
    seq![
        w.name@,
        w.status@,
        w.handoff_status@,
        w.branch@,
        w.pending_action@,
        w.execution_scope@,
        w.model_name@,
        w.reasoning_effort@,
    ]
}

/// A worker passes a filter when the filter is blank or, ignoring case,
/// one of its fields holds the trimmed filter.
pub open spec fn filter_hit(w: WorkerSnapshot, filter: Seq<char>) -> bool {
    let f = trim(filter);
    f.len() == 0 || exists|i: int|
        0 <= i < 8 && contains(lower(#[trigger] filter_fields(w)[i]), lower(f))
}

fn field_hit(field: &str, lowered_filter: &str) -> (r: bool)
    ensures
        r == contains(lower(field@), lowered_filter@),
{
    let l = to_lower(field);
    contains_text(l.as_str(), lowered_filter)
}

pub fn worker_matches_filter(worker: &WorkerSnapshot, filter: &str) -> (r: bool)
    ensures
        r == filter_hit(*worker, filter@),
{
    let t = trimmed(filter);
    if t.unicode_len() == 0 {
        return true;
    }
    let f = to_lower(t.as_str());
    let fs = f.as_str();
    let hits = [
        field_hit(worker.name.as_str(), fs),
        field_hit(worker.status.as_str(), fs),
        field_hit(worker.handoff_status.as_str(), fs),
        field_hit(worker.branch.as_str(), fs),
        field_hit(worker.pending_action.as_str(), fs),
        field_hit(worker.execution_scope.as_str(), fs),
        field_hit(worker.model_name.as_str(), fs),
        field_hit(worker.reasoning_effort.as_str(), fs),
    ];
    let r = hits[0] || hits[1] || hits[2] || hits[3] || hits[4] || hits[5] || hits[6] || hits[7];
    proof {
        let ff = filter_fields(*worker);
        let lf = lower(trim(filter@));
        assert(forall|i: int| 0 <= i < 8 ==> hits@[i] == contains(lower(#[trigger] ff[i]), lf));
        if r {
            let k: int = if hits@[0] {
                0
            } else if hits@[1] {
                1
            } else if hits@[2] {
                2
            } else if hits@[3] {
                3
            } else if hits@[4] {
                4
            } else if hits@[5] {
                5
            } else if hits@[6] {
                6
            } else {
                7
            };
            assert(contains(lower(ff[k]), lf));
        }
    }
    r
}

/// The names of the workers that pass the filter, in order.
pub open spec fn visible_names(ws: Seq<WorkerSnapshot>, filter: Seq<char>) -> Seq<Seq<char>>
    decreases ws.len(),
{
    if ws.len() == 0 {
        Seq::empty()
    } else if filter_hit(ws.last(), filter) {
        visible_names(ws.drop_last(), filter).push(ws.last().name@)
    } else {
        visible_names(ws.drop_last(), filter)
    }
}

/// The first worker named `name` (ignoring case), by its own name.
pub open spec fn first_named(ws: Seq<WorkerSnapshot>, name: Seq<char>) -> Option<Seq<char>>
    decreases ws.len(),
{
    if ws.len() == 0 {
        None
    } else {
        match first_named(ws.drop_last(), name) {
            Some(n) => Some(n),
            None => if eq_ic(ws.last().name@, name) {
                Some(ws.last().name@)
            } else {
                None
            },
        }
    }
}

/// The position of the first name equal to `name` ignoring case.
pub open spec fn first_ic(names: Seq<Seq<char>>, name: Seq<char>) -> Option<int>
    decreases names.len(),
{
    if names.len() == 0 {
        None
    } else {
        match first_ic(names.drop_last(), name) {
            Some(i) => Some(i),
            None => if eq_ic(names.last(), name) {
                Some(names.len() - 1)
            } else {
                None
            },
        }
    }
}

/// The first case-insensitive match is a match, and no name matches when
/// there is none.
pub proof fn lemma_first_ic_bound(names: Seq<Seq<char>>, name: Seq<char>)
    ensures
        first_ic(names, name) matches Some(i) ==> 0 <= i < names.len() && eq_ic(names[i], name),
        first_ic(names, name) is None ==> forall|k: int|
            0 <= k < names.len() ==> !eq_ic(#[trigger] names[k], name),
    decreases names.len(),
{
    if names.len() > 0 {
        lemma_first_ic_bound(names.drop_last(), name);
        assert forall|k: int| 0 <= k < names.len() - 1 implies names.drop_last()[k] == names[k] by {}
    }
}

/// The worker whose name matches the trimmed request, ignoring case.
pub fn find_worker_name(snapshot: &SnapshotBundle, requested: &str) -> (r: Option<String>)
    ensures
        opt_view(r) == first_named(snapshot.status.workers@, trim(requested@)),
{
    let wanted = trimmed(requested);
    let ws = &snapshot.status.workers;
    let mut i: usize = 0;
    while i < ws.len()
        invariant
            i <= ws.len(),
            wanted@ == trim(requested@),
            ws@ == snapshot.status.workers@,
            first_named(ws@.subrange(0, i as int), wanted@) is None,
        decreases ws.len() - i,
    {
        assert(ws@.subrange(0, i + 1).drop_last() =~= ws@.subrange(0, i as int));
        if eq_ignore_case(ws[i].name.as_str(), wanted.as_str()) {
            proof {
                assert(ws@.subrange(0, i + 1).last() == ws@[i as int]);
                assert(first_named(ws@.subrange(0, i + 1), wanted@) == Some(ws@[i as int].name@));
                lemma_first_named_prefix(ws@, wanted@, i + 1);
            }
            return Some(ws[i].name.clone());
        }
        i = i + 1;
    }
    assert(ws@.subrange(0, ws.len() as int) =~= ws@);
    None
}

/// A match found in a prefix is the match of the whole list.
proof fn lemma_first_named_prefix(ws: Seq<WorkerSnapshot>, name: Seq<char>, n: int)
    requires
        0 <= n <= ws.len(),
        first_named(ws.subrange(0, n), name) is Some,
    ensures
        first_named(ws, name) == first_named(ws.subrange(0, n), name),
    decreases ws.len() - n,
{
    if n < ws.len() {
        assert(ws.subrange(0, n + 1).drop_last() =~= ws.subrange(0, n));
        lemma_first_named_prefix(ws, name, n + 1);
    } else {
        assert(ws.subrange(0, n) =~= ws);
    }
}

/// The worker selected by the live session, trimmed, when it names one.
pub open spec fn shared_selected(snapshot: SnapshotBundle) -> Option<Seq<char>> {
    match snapshot.control {
        Some(c) => if blank(c.selected_worker@) {
            None
        } else {
            Some(trim(c.selected_worker@))
        },
        None => None,
    }
}

pub fn shared_selected_worker(snapshot: &SnapshotBundle) -> (r: Option<String>)
    ensures
        opt_view(r) == shared_selected(*snapshot),
{
    match &snapshot.control {
        Some(control) => {
            let selected = trimmed(control.selected_worker.as_str());
            if selected.unicode_len() == 0 {
                None
            } else {
                Some(selected)
            }
        },
        None => None,
    }
}

/// After a worker change: the active worker and local view, given the
/// names in view. The active worker moves to the first visible name when it
/// is not among them (ignoring case), and a worker view follows it.
pub open spec fn rehomed(
    active: Option<Seq<char>>,
    view: (int, Seq<char>),
    names: Seq<Seq<char>>,
) -> (Option<Seq<char>>, (int, Seq<char>)) {
    if names.len() == 0 || (active matches Some(a) && first_ic(names, a) is Some) {
        (active, view)
    } else {
        (Some(names[0]), if view.0 == 3 {
            (3, names[0])
        } else {
            view
        })
    }
}

/// One step through the visible names from the active worker (from the
/// first name when the active one is not among them): the chosen name and
/// the local view, which follows when it shows a worker; `None` when no name
/// is visible.
pub open spec fn cycled(
    active: Option<Seq<char>>,
    view: (int, Seq<char>),
    names: Seq<Seq<char>>,
    step: int,
) -> Option<(Seq<char>, (int, Seq<char>))> {
    if names.len() == 0 {
        None
    } else {
        let current: int = match active {
            Some(a) => match first_ic(names, a) {
                Some(i) => i,
                None => 0,
            },
            None => 0,
        };
        let chosen = names[wrapped(current, names.len() as int, step)];
        Some(
            (chosen, if view.0 == 3 {
                (3, chosen)
            } else {
                view
            }),
        )
    }
}

/// Only the active worker and the local view differ.
pub open spec fn selection_frame(a: AppState, b: AppState) -> bool {
    b == (AppState { active_worker: b.active_worker, local_view: b.local_view, ..a })
}

/// The active worker a fresh snapshot leaves: the current one while the
/// snapshot still lists it, else the session's selection, else the first
/// worker.
pub open spec fn synced_active(active: Option<Seq<char>>, snapshot: SnapshotBundle) -> Option<
    Seq<char>,
> {
    let ws = snapshot.status.workers@;
    if active matches Some(a) && first_named(ws, trim(a)) is Some {
        active
    } else {
        match shared_selected(snapshot) {
            Some(s) => Some(s),
            None => if ws.len() > 0 {
                Some(ws[0].name@)
            } else {
                None
            },
        }
    }
}

/// The worker the feed's `selected` view follows: the session's selection,
/// else the local active worker.
pub open spec fn resolved_selected(app: AppState, snapshot: SnapshotBundle) -> Option<Seq<char>> {
    match shared_selected(snapshot) {
        Some(s) => Some(s),
        None => opt_view(app.active_worker),
    }
}

/// Whether the feed follows its tail: the local choice, else the session's.
pub open spec fn follows_tail(app: AppState, snapshot: SnapshotBundle) -> bool {
    match app.feed_follow_override {
        Some(b) => b,
        None => shared_follow(snapshot),
    }
}

impl AppState {
    pub fn resolved_selected_worker(&self, snapshot: &SnapshotBundle) -> (r: Option<String>)
        ensures
            opt_view(r) == resolved_selected(*self, *snapshot),
    {
        match shared_selected_worker(snapshot) {
            Some(s) => Some(s),
            None => self.active_worker.clone(),
        }
    }

    pub fn feed_follows_tail(&self, snapshot: &SnapshotBundle) -> (r: bool)
        ensures
            r == follows_tail(*self, *snapshot),
    {
        match self.feed_follow_override {
            Some(b) => b,
            None => match &snapshot.control {
                Some(control) => control.follow_tail,
                None => true,
            },
        }
    }

    /// The names of the workers that pass the worker filter.
    pub fn worker_names(&self, snapshot: &SnapshotBundle) -> (r: Vec<String>)
        ensures
            views(r@) == visible_names(snapshot.status.workers@, self.worker_filter@),
    {
        let ws = &snapshot.status.workers;
        let mut out: Vec<String> = Vec::new();
        let mut i: usize = 0;
        while i < ws.len()
            invariant
                i <= ws.len(),
                views(out@) == visible_names(ws@.subrange(0, i as int), self.worker_filter@),
            decreases ws.len() - i,
        {
            assert(ws@.subrange(0, i + 1).drop_last() =~= ws@.subrange(0, i as int));
            let ghost before = views(out@);
            if worker_matches_filter(&ws[i], self.worker_filter.as_str()) {
                out.push(ws[i].name.clone());
                assert(views(out@) =~= before.push(ws@[i as int].name@));
            }
            i = i + 1;
        }
        assert(ws@.subrange(0, ws.len() as int) =~= ws@);
        out
    }

    /// Moves the active worker to the first visible one when the filter hides
    /// it; a worker view follows.
    pub fn ensure_active_worker_visible(&mut self, snapshot: &SnapshotBundle)
        ensures
            (opt_view(final(self).active_worker), scope_view(final(self).local_view)) == rehomed(
                opt_view(old(self).active_worker),
                scope_view(old(self).local_view),
                visible_names(snapshot.status.workers@, old(self).worker_filter@),
            ),
            selection_frame(*old(self), *final(self)),
    {
        let visible = self.worker_names(snapshot);
        if visible.len() == 0 {
            return;
        }
        let shown = match &self.active_worker {
            Some(active) => position_ic(&visible, active.as_str()).is_some(),
            None => false,
        };
        if !shown {
            assert(views(visible@)[0] == visible@[0]@);
            self.active_worker = Some(visible[0].clone());
            if matches!(self.local_view, StreamScope::Worker(_)) {
                self.local_view = StreamScope::Worker(visible[0].clone());
            }
        }
    }

    /// Makes the named worker (matched ignoring case) the active one; a
    /// worker view follows. Unknown names change nothing.
    pub fn set_active_worker(&mut self, snapshot: &SnapshotBundle, requested: &str) -> (r: Option<
        String,
    >)
        ensures
            opt_view(r) == first_named(snapshot.status.workers@, trim(requested@)),
            match r {
                Some(n) => opt_view(final(self).active_worker) == Some(n@) && scope_view(
                    final(self).local_view,
                ) == if scope_view(old(self).local_view).0 == 3 {
                    (3, n@)
                } else {
                    scope_view(old(self).local_view)
                },
                None => *final(self) == *old(self),
            },
            selection_frame(*old(self), *final(self)),
    {
        let matched = match find_worker_name(snapshot, requested) {
            Some(m) => m,
            None => return None,
        };
        self.active_worker = Some(matched.clone());
        if matches!(self.local_view, StreamScope::Worker(_)) {
            self.local_view = StreamScope::Worker(matched.clone());
        }
        Some(matched)
    }

    /// Steps the active worker through the visible workers, wrapping around;
    /// a worker view follows. Nothing changes when no worker is visible.
    pub fn cycle_active_worker(&mut self, snapshot: &SnapshotBundle, step: isize) -> (r: Option<
        String,
    >)
        requires
            snapshot.status.workers@.len() <= isize::MAX,
            snapshot.status.workers@.len() + step <= isize::MAX,
        ensures
            match cycled(
                opt_view(old(self).active_worker),
                scope_view(old(self).local_view),
                visible_names(snapshot.status.workers@, old(self).worker_filter@),
                step as int,
            ) {
                None => r is None && *final(self) == *old(self),
                Some((chosen, view)) => {
                    &&& opt_view(r) == Some(chosen)
                    &&& opt_view(final(self).active_worker) == Some(chosen)
                    &&& scope_view(final(self).local_view) == view
                },
            },
            selection_frame(*old(self), *final(self)),
    {
        let visible = self.worker_names(snapshot);
        if visible.len() == 0 {
            return None;
        }
        proof {
            lemma_visible_names_len(snapshot.status.workers@, self.worker_filter@);
        }
        let current = match &self.active_worker {
            Some(active) => match position_ic(&visible, active.as_str()) {
                Some(i) => i,
                None => 0,
            },
            None => 0,
        };
        proof {
            if self.active_worker is Some {
                lemma_first_ic_bound(views(visible@), self.active_worker->0@);
            }
        }
        let next = wrapped_index(current, visible.len(), step);
        let selected = visible[next].clone();
        assert(views(visible@)[next as int] == visible@[next as int]@);
        self.active_worker = Some(selected.clone());
        if matches!(self.local_view, StreamScope::Worker(_)) {
            self.local_view = StreamScope::Worker(selected.clone());
        }
        Some(selected)
    }

    /// Takes a fresh snapshot: keeps the active worker while the snapshot
    /// lists it, else takes the session's selection or the first worker, then
    /// moves it into view.
    pub fn sync_from_snapshot(&mut self, snapshot: &SnapshotBundle)
        ensures
            (opt_view(final(self).active_worker), scope_view(final(self).local_view)) == rehomed(
                synced_active(opt_view(old(self).active_worker), *snapshot),
                scope_view(old(self).local_view),
                visible_names(snapshot.status.workers@, old(self).worker_filter@),
            ),
            selection_frame(*old(self), *final(self)),
    {
        let keep = match &self.active_worker {
            Some(name) => find_worker_name(snapshot, name.as_str()).is_some(),
            None => false,
        };
        if !keep {
            self.active_worker = match shared_selected_worker(snapshot) {
                Some(s) => Some(s),
                None => if snapshot.status.workers.len() > 0 {
                    Some(snapshot.status.workers[0].name.clone())
                } else {
                    None
                },
            };
        }
        self.ensure_active_worker_visible(snapshot);
    }
}

/// The position of the first name equal to `name` ignoring case.
fn position_ic(names: &Vec<String>, name: &str) -> (r: Option<usize>)
    ensures
        match r {
            Some(i) => first_ic(views(names@), name@) == Some(i as int),
            None => first_ic(views(names@), name@) is None,
        },
{
    let ghost vs = views(names@);
    let mut i: usize = 0;
    while i < names.len()
        invariant
            i <= names.len(),
            vs == views(names@),
            first_ic(vs.subrange(0, i as int), name@) is None,
        decreases names.len() - i,
    {
        assert(vs.subrange(0, i + 1).drop_last() =~= vs.subrange(0, i as int));
        if eq_ignore_case(names[i].as_str(), name) {
            proof {
                lemma_first_ic_prefix(vs, name@, i + 1);
            }
            return Some(i);
        }
        i = i + 1;
    }
    assert(vs.subrange(0, names.len() as int) =~= vs);
    None
}

/// A case-insensitive match found in a prefix is the match of the whole list.
proof fn lemma_first_ic_prefix(names: Seq<Seq<char>>, name: Seq<char>, n: int)
    requires
        0 <= n <= names.len(),
        first_ic(names.subrange(0, n), name) is Some,
    ensures
        first_ic(names, name) == first_ic(names.subrange(0, n), name),
    decreases names.len() - n,
{
    if n < names.len() {
        assert(names.subrange(0, n + 1).drop_last() =~= names.subrange(0, n));
        lemma_first_ic_prefix(names, name, n + 1);
    } else {
        assert(names.subrange(0, n) =~= names);
    }
}

/// Filtering never lengthens the list.
proof fn lemma_visible_names_len(ws: Seq<WorkerSnapshot>, filter: Seq<char>)
    ensures
        visible_names(ws, filter).len() <= ws.len(),
    decreases ws.len(),
{
    if ws.len() > 0 {
        lemma_visible_names_len(ws.drop_last(), filter);
    }
}

/// The first worker named `name` (ignoring case).
pub open spec fn first_worker(ws: Seq<WorkerSnapshot>, name: Seq<char>) -> Option<WorkerSnapshot>
    decreases ws.len(),
{
    if ws.len() == 0 {
        None
    } else {
        match first_worker(ws.drop_last(), name) {
            Some(w) => Some(w),
            None => if eq_ic(ws.last().name@, name) {
                Some(ws.last())
            } else {
                None
            },
        }
    }
}

/// A worker found in a prefix is the one found in the whole list.
proof fn lemma_first_worker_prefix(ws: Seq<WorkerSnapshot>, name: Seq<char>, n: int)
    requires
        0 <= n <= ws.len(),
        first_worker(ws.subrange(0, n), name) is Some,
    ensures
        first_worker(ws, name) == first_worker(ws.subrange(0, n), name),
    decreases ws.len() - n,
{
    if n < ws.len() {
        assert(ws.subrange(0, n + 1).drop_last() =~= ws.subrange(0, n));
        lemma_first_worker_prefix(ws, name, n + 1);
    } else {
        assert(ws.subrange(0, n) =~= ws);
    }
}

/// The active worker's snapshot: the first listed worker with its name,
/// ignoring case.
pub open spec fn active_snapshot(app: AppState, snapshot: SnapshotBundle) -> Option<WorkerSnapshot> {
    match app.active_worker {
        Some(a) => first_worker(snapshot.status.workers@, a@),
        None => None,
    }
}

/// The snapshot of the active worker, matched ignoring case.
pub fn active_worker_snapshot<'a>(snapshot: &'a SnapshotBundle, app: &AppState) -> (r: Option<
    &'a WorkerSnapshot,
>)
    ensures
        match r {
            Some(w) => active_snapshot(*app, *snapshot) == Some(*w),
            None => active_snapshot(*app, *snapshot) is None,
        },
{
    let active = match &app.active_worker {
        Some(a) => a,
        None => return None,
    };
    let ws = &snapshot.status.workers;
    let mut i: usize = 0;
    while i < ws.len()
        invariant
            i <= ws.len(),
            ws@ == snapshot.status.workers@,
            app.active_worker == Some(*active),
            first_worker(ws@.subrange(0, i as int), active@) is None,
        decreases ws.len() - i,
    {
        assert(ws@.subrange(0, i + 1).drop_last() =~= ws@.subrange(0, i as int));
        if eq_ignore_case(ws[i].name.as_str(), active.as_str()) {
            proof {
                assert(ws@.subrange(0, i + 1).last() == ws@[i as int]);
                lemma_first_worker_prefix(ws@, active@, i + 1);
            }
            return Some(&ws[i]);
        }
        i = i + 1;
    }
    assert(ws@.subrange(0, ws.len() as int) =~= ws@);
    None
}

/// The live feed's lines for the panel's local view, in the session's
/// density.
pub fn feed_lines(snapshot: &SnapshotBundle, app: &AppState) -> (r: Vec<String>)
    ensures
        ({
            let selected = match resolved_selected(*app, *snapshot) {
                Some(s) => s,
                None => Seq::empty(),
            };
            let lines = feed_of(
                snapshot.status.recent_activity@,
                app.local_view,
                selected,
                shared_density(*snapshot),
            );
            views(r@) == if lines.len() == 0 {
                empty_feed_lines()
            } else {
                lines
            }
        }),
{
    let density = match &snapshot.control {
        Some(control) => control.density_mode,
        None => FeedDensity::Standard,
    };
    let selected = match app.resolved_selected_worker(snapshot) {
        Some(s) => s,
        None => String::new(),
    };
    feed_texts(&snapshot.status.recent_activity, &app.local_view, selected.as_str(), density)
}

/// A live-view scope typed locally, as plain values: `all`, `selected`,
/// `commander`, or `worker:<name>` for a worker the snapshot lists (matched
/// ignoring case, and named as the snapshot names it).
pub open spec fn local_scope(scope: Seq<char>, ws: Seq<WorkerSnapshot>) -> Option<(int, Seq<char>)> {
    let t = trim(scope);
    if t == "all"@ {
        Some((0, Seq::empty()))
    } else if t == "selected"@ {
        Some((1, Seq::empty()))
    } else if t == "commander"@ {
        Some((2, Seq::empty()))
    } else if starts_with(t, "worker:"@) {
        match first_named(ws, trim(t.subrange(7, t.len() as int))) {
            Some(n) => Some((3, n)),
            None => None,
        }
    } else {
        None
    }
}

pub fn parse_stream_scope(scope: &str, snapshot: &SnapshotBundle) -> (r: Option<StreamScope>)
    ensures
        match r {
            Some(v) => local_scope(scope@, snapshot.status.workers@) == Some(scope_view(v)),
            None => local_scope(scope@, snapshot.status.workers@) is None,
        },
{
    let t = trimmed(scope);
    let v = t.as_str();
    if same(v, "all") {
        return Some(StreamScope::All);
    }
    if same(v, "selected") {
        return Some(StreamScope::Selected);
    }
    if same(v, "commander") {
        return Some(StreamScope::Commander);
    }
    if !starts_with_text(v, "worker:") {
        return None;
    }
    proof {
        reveal_strlit("worker:");
    }
    let rest = skip_chars(v, 7);
    match find_worker_name(snapshot, rest.as_str()) {
        Some(name) => Some(StreamScope::Worker(name)),
        None => None,
    }
}

/// Esc (`a` before, `b` after): a typed line is cleared (disarming Esc);
/// on an empty line Esc arms, or quits when it was armed within two
/// seconds, with a notice either way.
pub open spec fn escaped(a: AppState, b: AppState, now_ns: u64) -> bool {
    if a.command_input@.len() > 0 {
        &&& b.command_input@.len() == 0
        &&& b.last_feedback@ == "Input cleared. Press Esc again within 2 seconds to quit."@
        &&& b == (AppState {
            command_input: b.command_input,
            input_cursor: 0,
            history_cursor: None,
            history_draft: None,
            esc_quit_armed_at: None,
            last_feedback: b.last_feedback,
            ..a
        })
    } else {
        let quits = esc_quits(a.esc_quit_armed_at, now_ns);
        logged(
            AppState {
                should_quit: a.should_quit || quits,
                esc_quit_armed_at: if quits {
                    None
                } else {
                    Some(now_ns)
                },
                ..a
            },
            b,
            "! "@,
            if quits {
                "Esc Esc detected. Closing panel; supervisor shutdown will stop tracked workers."@
            } else {
                "Esc armed. Press Esc again within 2 seconds to quit."@
            },
        )
    }
}

pub fn handle_escape(app: &mut AppState, now_ns: u64)
    ensures
        escaped(*old(app), *final(app), now_ns),
{
    if app.command_input.unicode_len() > 0 {
        app.clear_input();
        app.last_feedback = owned("Input cleared. Press Esc again within 2 seconds to quit.");
        app.esc_quit_armed_at = None;
        return;
    }
    if app.arm_or_quit(now_ns) {
        app.should_quit = true;
        app.push_notice(
            "Esc Esc detected. Closing panel; supervisor shutdown will stop tracked workers.",
        );
    } else {
        app.push_notice("Esc armed. Press Esc again within 2 seconds to quit.");
    }
}

/// The history never holds more than 64 commands, and the newest entry is
/// always the command just sent.
pub proof fn lemma_history_bounded(h: Seq<Seq<char>>, command: Seq<char>)
    requires
        h.len() <= HISTORY_LIMIT,
    ensures
        history_after(h, command).len() <= HISTORY_LIMIT,
        history_after(h, command).len() > 0,
        history_after(h, command).last() == command,
{
}

/// The command log never holds more than 180 lines, and a message's lines
/// are always at its end.
pub proof fn lemma_log_bounded(log: Seq<Seq<char>>, prefix: Seq<char>, message: Seq<char>)
    ensures
        keep_last(log + log_lines(prefix, message), COMMAND_LOG_LIMIT as nat).len()
            <= COMMAND_LOG_LIMIT,
        log_lines(prefix, message).len() <= COMMAND_LOG_LIMIT ==> ({
            let kept = keep_last(log + log_lines(prefix, message), COMMAND_LOG_LIMIT as nat);
            kept.subrange(
                kept.len() - log_lines(prefix, message).len(),
                kept.len() as int,
            ) == log_lines(prefix, message)
        }),
{
    let all = log + log_lines(prefix, message);
    let m = log_lines(prefix, message);
    if m.len() <= COMMAND_LOG_LIMIT {
        let kept = keep_last(all, COMMAND_LOG_LIMIT as nat);
        assert(kept.subrange(kept.len() - m.len(), kept.len() as int) =~= m);
    }
}

/// Whenever some worker is in view, the worker a change of filter or
/// snapshot leaves active is one of those in view (ignoring case).
pub proof fn lemma_rehomed_visible(
    active: Option<Seq<char>>,
    view: (int, Seq<char>),
    names: Seq<Seq<char>>,
)
    requires
        names.len() > 0,
    ensures
        rehomed(active, view, names).0 matches Some(a) && first_ic(names, a) is Some,
{
    let r = rehomed(active, view, names);
    if !(active matches Some(a) && first_ic(names, a) is Some) {
        lemma_first_ic_bound(names, names[0]);
        lemma_first_ic_self(names);
    }
}

/// The first name always matches itself.
proof fn lemma_first_ic_self(names: Seq<Seq<char>>)
    requires
        names.len() > 0,
    ensures
        first_ic(names, names[0]) is Some,
    decreases names.len(),
{
    if names.len() > 1 {
        lemma_first_ic_self(names.drop_last());
        assert(names.drop_last()[0] == names[0]);
    }
}

} // verus!
