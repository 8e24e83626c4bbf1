//! The texts the live panel draws: badges, cut texts, the visible part of the
//! command line, feed lines and the local orchestration summaries.
use vstd::prelude::*;

use crate::policy::{strip_all, strip_all_exec};
use crate::runtime::{
    blocked_count, latest_review_of, open_escalations_of, escalation_open, ActivityEntry,
    CoordinationEscalation, CoordinationMetrics, CoordinationReviewSnapshot, CoordinationSnapshot,
    CoordinationWorkerSnapshot, FeedDensity, StreamScope, WorkerSnapshot,
};
use crate::stream::matches_worker;
use crate::supervisor::{push_text, SnapshotBundle};
use crate::text::dec_usize;
use crate::text::{
    blank, bool_str, bool_text, cat, chars_of, dec, eq_ic, eq_ignore_case, is_blank, join, join_texts, lower, owned, string_of, to_lower, trim,
    trimmed, views,
};

verus! {

// ---------------------------------------------------------------------------
// Cut texts and badges
// ---------------------------------------------------------------------------

/// At most `width` characters: a longer text keeps `width - 1` of them and
/// ends in `~`.
pub open spec fn clipped(text: Seq<char>, width: nat) -> Seq<char> {
    if text.len() <= width {
        text
    } else {
        text.subrange(0, if width >= 1 { width - 1 } else { 0 }) + seq!['~']
    }
}

pub fn truncate(text: &str, width: usize) -> (r: String)
    ensures
        r@ == clipped(text@, width as nat),
{
    let chars = chars_of(text);
    if chars.len() <= width {
        return owned(text);
    }
    let keep = if width >= 1 {
        width - 1
    } else {
        0
    };
    let mut kept: Vec<char> = Vec::new();
    let mut i: usize = 0;
    while i < keep
        invariant
            keep < chars.len(),
            i <= keep,
            chars@ == text@,
            kept@ == text@.subrange(0, i as int),
        decreases keep - i,
    {
        kept.push(chars[i]);
        i = i + 1;
    }
    kept.push('~');
    string_of(&kept)
}

/// A cut text is never longer than the width, when the width leaves room
/// for the mark.
pub proof fn lemma_clipped_fits(text: Seq<char>, width: nat)
    requires
        width >= 1,
    ensures
        clipped(text, width).len() <= width,
        text.len() <= width ==> clipped(text, width) == text,
{
}

/// `_` becomes `-`.
pub open spec fn dashed(s: Seq<char>) -> Seq<char> {
    s.map_values(|c: char| if c == '_' { '-' } else { c })
}

/// A model name as its badge shows it: lower-case, `-` for `_`, without any
/// leading `gpt-`; `n/a` when there is no model.
pub open spec fn model_badge(model_name: Seq<char>) -> Seq<char> {
    let raw = trim(model_name);
    if raw.len() == 0 {
        "n/a"@
    } else {
        strip_all(dashed(lower(raw)), "gpt-"@)
    }
}

/// A reasoning effort as its badge shows it; `standard` when none is set.
pub open spec fn reasoning_badge(effort: Seq<char>) -> Seq<char> {
    let raw = trim(effort);
    if raw.len() == 0 {
        "standard"@
    } else {
        lower(raw)
    }
}

fn dash_underscores(s: &str) -> (r: String)
    ensures
        r@ == dashed(s@),
{
    let x = chars_of(s);
    let mut out: Vec<char> = Vec::new();
    let mut i: usize = 0;
    while i < x.len()
        invariant
            x@ == s@,
            i <= x.len(),
            out@ == dashed(s@.subrange(0, i as int)),
        decreases x.len() - i,
    {
        let c = x[i];
        out.push(
            if c == '_' {
                '-'
            } else {
                c
            },
        );
        i = i + 1;
        assert(dashed(s@.subrange(0, i as int)) =~= dashed(s@.subrange(0, i - 1)).push(
            if s@[i - 1] == '_' {
                '-'
            } else {
                s@[i - 1]
            },
        ));
    }
    assert(s@.subrange(0, x.len() as int) =~= s@);
    string_of(&out)
}

pub fn worker_model_badge(worker: &WorkerSnapshot) -> (r: String)
    ensures
        r@ == model_badge(worker.model_name@),
{
    let raw = trimmed(worker.model_name.as_str());
    if raw.unicode_len() == 0 {
        return owned("n/a");
    }
    let lowered = to_lower(raw.as_str());
    let dashes = dash_underscores(lowered.as_str());
    strip_all_exec(dashes.as_str(), "gpt-")
}

pub fn worker_reasoning_badge(worker: &WorkerSnapshot) -> (r: String)
    ensures
        r@ == reasoning_badge(worker.reasoning_effort@),
{
    let raw = trimmed(worker.reasoning_effort.as_str());
    if raw.unicode_len() == 0 {
        owned("standard")
    } else {
        to_lower(raw.as_str())
    }
}

// ---------------------------------------------------------------------------
// The command line's visible window
// ---------------------------------------------------------------------------

/// Where the visible part of a line of `len` characters starts, for a
/// cursor at `cursor` (at most `len`) and a window `width` wide (at least 1):
/// the cursor stays in view, and the window is filled from the line's end
/// when the line allows it.
pub open spec fn window_start(len: nat, cursor: nat, width: nat) -> nat {
    let start: nat = if cursor >= width - 1 {
        (cursor - (width - 1)) as nat
    } else {
        0
    };
    if len - start < width {
        if len >= width {
            (len - width) as nat
        } else {
            0
        }
    } else {
        start
    }
}

/// The visible part of the command line and the cursor's column in it.
pub open spec fn input_window(input: Seq<char>, cursor: nat, width: nat) -> (Seq<char>, nat) {
    if width == 0 {
        (Seq::empty(), 0)
    } else {
        let len = input.len();
        let c: nat = if cursor <= len {
            cursor
        } else {
            len
        };
        let start = window_start(len, c, width);
        let end: nat = if start + width <= len {
            start + width
        } else {
            len
        };
        (input.subrange(start as int, end as int), (c - start) as nat)
    }
}

pub fn visible_input_window(input: &str, cursor: usize, width: usize) -> (r: (String, usize))
    ensures
        (r.0@, r.1 as nat) == input_window(input@, cursor as nat, width as nat),
{
    if width == 0 {
        return (String::new(), 0);
    }
    let chars = chars_of(input);
    let len = chars.len();
    let c = if cursor <= len {
        cursor
    } else {
        len
    };
    let mut start = c.saturating_sub(width - 1);
    if len - start < width {
        start = len.saturating_sub(width);
    }
    let end = if width <= len - start {
        start + width
    } else {
        len
    };
    let mut kept: Vec<char> = Vec::new();
    let mut i: usize = start;
    while i < end
        invariant
            start <= i <= end,
            end <= len,
            len == chars@.len(),
            chars@ == input@,
            kept@ == input@.subrange(start as int, i as int),
        decreases end - i,
    {
        kept.push(chars[i]);
        i = i + 1;
    }
    (string_of(&kept), c - start)
}

/// The visible window never exceeds its width, and the cursor's column,
/// counted from where the window starts, is the cursor's place in the line:
/// the cursor is always in view.
pub proof fn lemma_input_window_keeps_cursor(input: Seq<char>, cursor: nat, width: nat)
    requires
        width >= 1,
        cursor <= input.len(),
    ensures
        ({
            let (visible, column) = input_window(input, cursor, width);
            &&& visible.len() <= width
            &&& column <= visible.len()
            &&& column <= width
            &&& window_start(input.len(), cursor, width) + column == cursor
            &&& visible == input.subrange(
                window_start(input.len(), cursor, width) as int,
                (window_start(input.len(), cursor, width) + visible.len()) as int,
            )
        }),
{
}

// ---------------------------------------------------------------------------
// Scrolling and cycling
// ---------------------------------------------------------------------------

/// How far a list of `lines` can scroll in a pane `height` rows high.
pub fn max_scroll(lines: usize, height: usize) -> (r: usize)
    ensures
        r == if lines >= height {
            (lines - height) as usize
        } else {
            0
        },
{
    lines.saturating_sub(height)
}

/// `current + step`, wrapped into `0..len` (Euclidean remainder); 0 for an
/// empty list.
pub open spec fn wrapped(current: int, len: int, step: int) -> int {
    if len == 0 {
        0
    } else {
        (current + step) % len
    }
}

pub fn wrapped_index(current: usize, len: usize, step: isize) -> (r: usize)
    requires
        len <= isize::MAX,
        current <= isize::MAX,
        isize::MIN <= current + step <= isize::MAX,
    ensures
        r == wrapped(current as int, len as int, step as int),
        len > 0 ==> r < len,
{
    if len == 0 {
        return 0;
    }
    let x: i128 = current as i128 + step as i128;
    let n: i128 = len as i128;
    if x >= 0 {
        let r = (x as u128 % n as u128) as usize;
        r
    } else {
        let back: u128 = (-x) as u128;
        let m: u128 = back % (n as u128);
        proof {
            lemma_negative_mod(x as int, n as int, m as int);
        }
        if m == 0 {
            0
        } else {
            (n as u128 - m) as usize
        }
    }
}

/// The Euclidean remainder of a negative number by way of the remainder of
/// its absolute value.
proof fn lemma_negative_mod(x: int, n: int, m: int)
    requires
        x < 0,
        n > 0,
        m == (-x) % n,
    ensures
        x % n == if m == 0 {
            0
        } else {
            n - m
        },
{
    let q = (-x) / n;
    vstd::arithmetic::div_mod::lemma_fundamental_div_mod(-x, n);
    assert(-x == n * q + m);
    if m == 0 {
        assert(x == n * (-q) + 0) by (nonlinear_arith)
            requires
                -x == n * q + m,
                m == 0,
        ;
        vstd::arithmetic::div_mod::lemma_fundamental_div_mod_converse(x, n, -q, 0);
    } else {
        assert(x == n * (-q - 1) + (n - m)) by (nonlinear_arith)
            requires
                -x == n * q + m,
        ;
        vstd::arithmetic::div_mod::lemma_fundamental_div_mod_converse(x, n, -q - 1, n - m);
    }
}

/// A wrapped step always lands inside the list.
pub proof fn lemma_wrapped_in_range(current: int, len: int, step: int)
    requires
        len > 0,
    ensures
        0 <= wrapped(current, len, step) < len,
{
}

// ---------------------------------------------------------------------------
// Fixed texts
// ---------------------------------------------------------------------------

pub open spec fn local_help_lines() -> Seq<Seq<char>> {
    seq![
        "LOCAL PANEL COMMANDS"@,
        "--------------------"@,
        "help local"@,
        "view all"@,
        "view selected"@,
        "view commander"@,
        "view worker <name>"@,
        "show worker <name>"@,
        "show next"@,
        "show prev"@,
        "show coordination"@,
        "show escalations"@,
        "show reviews"@,
        "show retro"@,
        "filter <text>"@,
        "filter clear"@,
        ""@,
        "SUPERVISOR COMMANDS"@,
        "-------------------"@,
        "help"@,
        "help keys"@,
        "refresh"@,
        "check"@,
        "start all|<worker>"@,
        "stop all|<worker>"@,
        "patrol once|start|stop|status"@,
        "phase <name>"@,
        "select <worker>"@,
        "intake"@,
        "approve"@,
        "review all|<worker>"@,
        "report"@,
        "density standard|realtime"@,
        "follow on|off"@,
        "stream scope all|selected|commander|worker:<name>"@,
        "clear"@,
        "quit"@,
        ""@,
        "KEYBOARD"@,
        "--------"@,
        "Enter submit | Up/Down history | Left/Right edit"@,
        "PgUp/PgDn live feed scroll"@,
        "Alt+PgUp/PgDn worker roster scroll"@,
        "Alt+Up/Down command log scroll"@,
        "Ctrl+R refresh | Ctrl+S stop-all | Ctrl+D density | Ctrl+F follow"@,
        "Ctrl+N / Ctrl+P cycle local active worker"@,
        "Esc Esc quits and stops tracked workers during session shutdown"@,
    ]
}

/// The panel's own command list, one line each.
pub fn render_local_help() -> (r: String)
    ensures
        r@ == join(local_help_lines(), "\n"@),
{
    let mut v: Vec<String> = Vec::new();
    push_text(&mut v, "LOCAL PANEL COMMANDS");
    push_text(&mut v, "--------------------");
    push_text(&mut v, "help local");
    push_text(&mut v, "view all");
    push_text(&mut v, "view selected");
    push_text(&mut v, "view commander");
    push_text(&mut v, "view worker <name>");
    push_text(&mut v, "show worker <name>");
    push_text(&mut v, "show next");
    push_text(&mut v, "show prev");
    push_text(&mut v, "show coordination");
    push_text(&mut v, "show escalations");
    push_text(&mut v, "show reviews");
    push_text(&mut v, "show retro");
    push_text(&mut v, "filter <text>");
    push_text(&mut v, "filter clear");
    push_text(&mut v, "");
    push_text(&mut v, "SUPERVISOR COMMANDS");
    push_text(&mut v, "-------------------");
    push_text(&mut v, "help");
    push_text(&mut v, "help keys");
    push_text(&mut v, "refresh");
    push_text(&mut v, "check");
    push_text(&mut v, "start all|<worker>");
    push_text(&mut v, "stop all|<worker>");
    push_text(&mut v, "patrol once|start|stop|status");
    push_text(&mut v, "phase <name>");
    push_text(&mut v, "select <worker>");
    push_text(&mut v, "intake");
    push_text(&mut v, "approve");
    push_text(&mut v, "review all|<worker>");
    push_text(&mut v, "report");
    push_text(&mut v, "density standard|realtime");
    push_text(&mut v, "follow on|off");
    push_text(&mut v, "stream scope all|selected|commander|worker:<name>");
    push_text(&mut v, "clear");
    push_text(&mut v, "quit");
    push_text(&mut v, "");
    push_text(&mut v, "KEYBOARD");
    push_text(&mut v, "--------");
    push_text(&mut v, "Enter submit | Up/Down history | Left/Right edit");
    push_text(&mut v, "PgUp/PgDn live feed scroll");
    push_text(&mut v, "Alt+PgUp/PgDn worker roster scroll");
    push_text(&mut v, "Alt+Up/Down command log scroll");
    push_text(&mut v, "Ctrl+R refresh | Ctrl+S stop-all | Ctrl+D density | Ctrl+F follow");
    push_text(&mut v, "Ctrl+N / Ctrl+P cycle local active worker");
    push_text(&mut v, "Esc Esc quits and stops tracked workers during session shutdown");
    assert(views(v@) =~= local_help_lines());
    join_texts(&v, "\n")
}

/// Whether the shared feed follows its tail (it does when no session says).
pub open spec fn shared_follow(snapshot: SnapshotBundle) -> bool {
    match snapshot.control {
        Some(c) => c.follow_tail,
        None => true,
    }
}

/// The shared feed density (standard when no session says).
pub open spec fn shared_density(snapshot: SnapshotBundle) -> FeedDensity {
    match snapshot.control {
        Some(c) => c.density_mode,
        None => FeedDensity::Standard,
    }
}

/// The command that flips the shared tail following.
pub fn toggle_follow_command(snapshot: &SnapshotBundle) -> (r: String)
    ensures
        r@ == if shared_follow(*snapshot) {
            "follow off"@
        } else {
            "follow on"@
        },
{
    let follow = match &snapshot.control {
        Some(control) => control.follow_tail,
        None => true,
    };
    if follow {
        owned("follow off")
    } else {
        owned("follow on")
    }
}

/// The command that flips the shared density.
pub fn toggle_density_command(snapshot: &SnapshotBundle) -> (r: String)
    ensures
        r@ == match shared_density(*snapshot) {
            FeedDensity::Standard => "density realtime"@,
            FeedDensity::Realtime => "density standard"@,
        },
{
    let density = match &snapshot.control {
        Some(control) => control.density_mode,
        None => FeedDensity::Standard,
    };
    match density {
        FeedDensity::Standard => owned("density realtime"),
        FeedDensity::Realtime => owned("density standard"),
    }
}

// ---------------------------------------------------------------------------
// Feed lines
// ---------------------------------------------------------------------------

/// A number's digits, widened with leading zeros to at least `width`.
pub open spec fn zero_pad(digits: Seq<char>, width: nat) -> Seq<char> {
    if digits.len() >= width {
        digits
    } else {
        Seq::new((width - digits.len()) as nat, |i: int| '0') + digits
    }
}

fn zero_padded(n: u64, width: usize) -> (r: String)
    ensures
        r@ == zero_pad(dec(n as nat), width as nat),
{
    let digits = crate::text::dec_u64(n);
    let len = digits.unicode_len();
    if len >= width {
        return digits;
    }
    let mut out: Vec<char> = Vec::new();
    let mut i: usize = 0;
    while i < width - len
        invariant
            len < width,
            i <= width - len,
            out@ == Seq::new(i as nat, |k: int| '0'),
        decreases width - len - i,
    {
        out.push('0');
        i = i + 1;
        assert(out@ =~= Seq::new(i as nat, |k: int| '0'));
    }
    let zeros = string_of(&out);
    cat(zeros.as_str(), digits.as_str())
}

/// The text of an activity entry: the full message (or the message) in the
/// realtime density, the short message (or the message) in the standard one.
pub open spec fn activity_text(entry: ActivityEntry, density: FeedDensity) -> Seq<char> {
    match density {
        FeedDensity::Realtime => "#"@ + zero_pad(dec(entry.seq as nat), 5) + " "@ + entry.timestamp@
            + " ["@ + entry.source@ + ":"@ + entry.channel@ + "] "@ + if blank(entry.full_message@) {
            entry.message@
        } else {
            entry.full_message@
        },
        FeedDensity::Standard => entry.timestamp@ + " ["@ + (if blank(entry.worker_name@) {
            entry.source@
        } else {
            entry.worker_name@
        }) + "] "@ + if blank(entry.dense_message@) {
            entry.message@
        } else {
            entry.dense_message@
        },
    }
}

pub fn format_activity(entry: &ActivityEntry, density: FeedDensity) -> (r: String)
    ensures
        r@ == activity_text(*entry, density),
{
    match density {
        FeedDensity::Realtime => {
            let body = if is_blank(entry.full_message.as_str()) {
                entry.message.as_str()
            } else {
                entry.full_message.as_str()
            };
            let seq_text = zero_padded(entry.seq, 5);
            let x = cat("#", seq_text.as_str());
            let x = cat(x.as_str(), " ");
            let x = cat(x.as_str(), entry.timestamp.as_str());
            let x = cat(x.as_str(), " [");
            let x = cat(x.as_str(), entry.source.as_str());
            let x = cat(x.as_str(), ":");
            let x = cat(x.as_str(), entry.channel.as_str());
            let x = cat(x.as_str(), "] ");
            cat(x.as_str(), body)
        },
        FeedDensity::Standard => {
            let actor = if is_blank(entry.worker_name.as_str()) {
                entry.source.as_str()
            } else {
                entry.worker_name.as_str()
            };
            let body = if is_blank(entry.dense_message.as_str()) {
                entry.message.as_str()
            } else {
                entry.dense_message.as_str()
            };
            let x = cat(entry.timestamp.as_str(), " [");
            let x = cat(x.as_str(), actor);
            let x = cat(x.as_str(), "] ");
            cat(x.as_str(), body)
        },
    }
}

/// Whether an entry belongs to the local view: everything, commander events
/// (no worker), the selected worker's events, or one worker's events; a
/// worker's events are those naming it as worker or as source, ignoring case.
pub open spec fn in_local_view(
    entry: ActivityEntry,
    view: StreamScope,
    selected_worker: Seq<char>,
) -> bool {
    match view {
        StreamScope::All => true,
        StreamScope::Commander => blank(entry.worker_name@),
        StreamScope::Selected => !blank(selected_worker) && (eq_ic(entry.worker_name@, selected_worker)
            || eq_ic(entry.source@, selected_worker)),
        StreamScope::Worker(name) => eq_ic(entry.worker_name@, name@) || eq_ic(entry.source@, name@),
    }
}

pub fn activity_matches_local_view(
    entry: &ActivityEntry,
    local_view: &StreamScope,
    selected_worker: &str,
) -> (r: bool)
    ensures
        r == in_local_view(*entry, *local_view, selected_worker@),
{
    match local_view {
        StreamScope::All => true,
        StreamScope::Commander => is_blank(entry.worker_name.as_str()),
        StreamScope::Selected => !is_blank(selected_worker) && (matches_worker(
            entry.worker_name.as_str(),
            selected_worker,
        ) || matches_worker(entry.source.as_str(), selected_worker)),
        StreamScope::Worker(name) => matches_worker(entry.worker_name.as_str(), name.as_str())
            || matches_worker(entry.source.as_str(), name.as_str()),
    }
}

/// The feed's lines: each entry of the local view, in order, as text.
pub open spec fn feed_of(
    entries: Seq<ActivityEntry>,
    view: StreamScope,
    selected_worker: Seq<char>,
    density: FeedDensity,
) -> Seq<Seq<char>>
    decreases entries.len(),
{
    if entries.len() == 0 {
        Seq::empty()
    } else {
        let rest = feed_of(entries.drop_last(), view, selected_worker, density);
        if in_local_view(entries.last(), view, selected_worker) {
            rest.push(activity_text(entries.last(), density))
        } else {
            rest
        }
    }
}

/// What the feed shows when nothing matches the local view.
pub open spec fn empty_feed_lines() -> Seq<Seq<char>> {
    seq![
        "no activity matched the current local view"@,
        "try `view all`, `view selected`, or `view worker <name>`"@,
    ]
}

/// The lines of the live feed for a local view; the two hint lines when no
/// entry matches.
pub fn feed_texts(
    entries: &Vec<ActivityEntry>,
    local_view: &StreamScope,
    selected_worker: &str,
    density: FeedDensity,
) -> (r: Vec<String>)
    ensures
        views(r@) == if feed_of(entries@, *local_view, selected_worker@, density).len() == 0 {
            empty_feed_lines()
        } else {
            feed_of(entries@, *local_view, selected_worker@, density)
        },
{
    let mut out: Vec<String> = Vec::new();
    let mut i: usize = 0;
    while i < entries.len()
        invariant
            i <= entries.len(),
            views(out@) == feed_of(entries@.subrange(0, i as int), *local_view, selected_worker@, density),
        decreases entries.len() - i,
    {
        let ghost pre = entries@.subrange(0, i as int);
        assert(entries@.subrange(0, i + 1).drop_last() =~= pre);
        let ghost before = views(out@);
        if activity_matches_local_view(&entries[i], local_view, selected_worker) {
            out.push(format_activity(&entries[i], density));
            assert(views(out@) =~= before.push(activity_text(entries@[i as int], density)));
        }
        i = i + 1;
    }
    assert(entries@.subrange(0, entries.len() as int) =~= entries@);
    if out.len() == 0 {
        let mut hints: Vec<String> = Vec::new();
        push_text(&mut hints, "no activity matched the current local view");
        push_text(&mut hints, "try `view all`, `view selected`, or `view worker <name>`");
        assert(views(hints@) =~= empty_feed_lines());
        return hints;
    }
    out
}

// ---------------------------------------------------------------------------
// Orchestration summaries
// ---------------------------------------------------------------------------

/// `stage <n> => <workers>` for the stage at position `index` (counted from 0).
pub open spec fn stage_line(index: nat, stage: Seq<Seq<char>>) -> Seq<char> {
    "stage "@ + dec(index + 1) + " => "@ + join(stage, ", "@)
}

pub open spec fn stage_lines(sets: Seq<Vec<String>>) -> Seq<Seq<char>>
    decreases sets.len(),
{
    if sets.len() == 0 {
        Seq::empty()
    } else {
        stage_lines(sets.drop_last()).push(stage_line((sets.len() - 1) as nat, views(sets.last()@)))
    }
}

pub open spec fn no_plan() -> Seq<char> {
    "No coordination plan loaded."@
}

/// The plan, its approval, its counts and its stages, one line each.
pub open spec fn coordination_summary(c: CoordinationSnapshot) -> Seq<char> {
    join(
        seq![
            "plan="@ + c.plan_id@ + " approved="@ + bool_text(c.approved),
            "stages="@ + dec(c.parallel_sets@.len()) + " open_escalations="@ + dec(
                open_escalations_of(c.escalations@).len(),
            ) + " blocked_workers="@ + dec(blocked_count(c.workers@)),
        ] + stage_lines(c.parallel_sets@),
        "\n"@,
    )
}

/// What `show coordination` answers.
pub open spec fn coordination_text(snapshot: SnapshotBundle) -> Seq<char> {
    match snapshot.coordination {
        Some(c) => coordination_summary(c),
        None => no_plan(),
    }
}

pub fn render_coordination_summary(snapshot: &SnapshotBundle) -> (r: String)
    ensures
        r@ == coordination_text(*snapshot),
{
    let coordination = match &snapshot.coordination {
        Some(c) => c,
        None => return owned("No coordination plan loaded."),
    };
    let mut lines: Vec<String> = Vec::new();
    let x = cat("plan=", coordination.plan_id.as_str());
    let x = cat(x.as_str(), " approved=");
    let b = bool_str(coordination.approved);
    lines.push(cat(x.as_str(), b.as_str()));
    let open = coordination.open_escalations();
    proof {
        assert(open@.len() == open@.map_values(|e: &CoordinationEscalation| *e).len());
    }
    let y = cat("stages=", dec_usize(coordination.parallel_sets.len()).as_str());
    let y = cat(y.as_str(), " open_escalations=");
    let y = cat(y.as_str(), dec_usize(open.len()).as_str());
    let y = cat(y.as_str(), " blocked_workers=");
    let y = cat(y.as_str(), dec_usize(coordination.blocked_worker_count()).as_str());
    lines.push(y);
    let ghost head = views(lines@);
    let sets = &coordination.parallel_sets;
    let mut i: usize = 0;
    while i < sets.len()
        invariant
            i <= sets.len(),
            views(lines@) == head + stage_lines(sets@.subrange(0, i as int)),
        decreases sets.len() - i,
    {
        let ghost pre = sets@.subrange(0, i as int);
        assert(sets@.subrange(0, i + 1).drop_last() =~= pre);
        let ghost before = views(lines@);
        let z = cat("stage ", dec_usize(i + 1).as_str());
        let z = cat(z.as_str(), " => ");
        let joined = join_texts(&sets[i], ", ");
        lines.push(cat(z.as_str(), joined.as_str()));
        assert(views(lines@) =~= before.push(stage_line(i as nat, views(sets@[i as int]@))));
        i = i + 1;
    }
    assert(sets@.subrange(0, sets.len() as int) =~= sets@);
    assert(views(lines@) =~= seq![head[0], head[1]] + stage_lines(sets@));
    join_texts(&lines, "\n")
}

/// `<id> [<scope>] blocked=<workers|none> :: <question cut to 96>`.
pub open spec fn open_line(e: CoordinationEscalation) -> Seq<char> {
    e.id@ + " ["@ + e.scope@ + "] blocked="@ + (if e.freeze_workers@.len() == 0 {
        "none"@
    } else {
        join(views(e.freeze_workers@), ","@)
    }) + " :: "@ + clipped(e.question@, 96)
}

/// `- <id> :: <title cut to 88>`.
pub open spec fn tracked_line(e: CoordinationEscalation) -> Seq<char> {
    "- "@ + e.id@ + " :: "@ + clipped(e.title@, 88)
}

pub open spec fn escalation_tracked(e: CoordinationEscalation) -> bool {
    eq_ic(e.status@, "tracked"@)
}

pub open spec fn open_lines(s: Seq<CoordinationEscalation>) -> Seq<Seq<char>>
    decreases s.len(),
{
    if s.len() == 0 {
        Seq::empty()
    } else if escalation_open(s.last()) {
        open_lines(s.drop_last()).push(open_line(s.last()))
    } else {
        open_lines(s.drop_last())
    }
}

pub open spec fn tracked_lines(s: Seq<CoordinationEscalation>) -> Seq<Seq<char>>
    decreases s.len(),
{
    if s.len() == 0 {
        Seq::empty()
    } else if escalation_tracked(s.last()) {
        tracked_lines(s.drop_last()).push(tracked_line(s.last()))
    } else {
        tracked_lines(s.drop_last())
    }
}

/// The open escalations (or a line saying there are none), then the
/// tracked alignment items under their heading when there are any.
pub open spec fn escalation_summary(c: CoordinationSnapshot) -> Seq<char> {
    let open = open_lines(c.escalations@);
    let aligned = tracked_lines(c.escalations@);
    join(
        (if open.len() == 0 {
            seq!["open escalations: none"@]
        } else {
            open
        }) + (if aligned.len() == 0 {
            Seq::empty()
        } else {
            seq!["tracked alignment items:"@] + aligned
        }),
        "\n"@,
    )
}

fn open_escalation_line(e: &CoordinationEscalation) -> (r: String)
    ensures
        r@ == open_line(*e),
{
    let blocked = if e.freeze_workers.len() == 0 {
        owned("none")
    } else {
        join_texts(&e.freeze_workers, ",")
    };
    let x = cat(e.id.as_str(), " [");
    let x = cat(x.as_str(), e.scope.as_str());
    let x = cat(x.as_str(), "] blocked=");
    let x = cat(x.as_str(), blocked.as_str());
    let x = cat(x.as_str(), " :: ");
    cat(x.as_str(), truncate(e.question.as_str(), 96).as_str())
}

fn tracked_escalation_line(e: &CoordinationEscalation) -> (r: String)
    ensures
        r@ == tracked_line(*e),
{
    let x = cat("- ", e.id.as_str());
    let x = cat(x.as_str(), " :: ");
    cat(x.as_str(), truncate(e.title.as_str(), 88).as_str())
}

/// What `show escalations` answers.
pub open spec fn escalation_text(snapshot: SnapshotBundle) -> Seq<char> {
    match snapshot.coordination {
        Some(c) => escalation_summary(c),
        None => no_plan(),
    }
}

pub fn render_escalation_summary(snapshot: &SnapshotBundle) -> (r: String)
    ensures
        r@ == escalation_text(*snapshot),
{
    let coordination = match &snapshot.coordination {
        Some(c) => c,
        None => return owned("No coordination plan loaded."),
    };
    let es = &coordination.escalations;
    let mut open: Vec<String> = Vec::new();
    let mut aligned: Vec<String> = Vec::new();
    let mut i: usize = 0;
    while i < es.len()
        invariant
            i <= es.len(),
            views(open@) == open_lines(es@.subrange(0, i as int)),
            views(aligned@) == tracked_lines(es@.subrange(0, i as int)),
        decreases es.len() - i,
    {
        let ghost pre = es@.subrange(0, i as int);
        assert(es@.subrange(0, i + 1).drop_last() =~= pre);
        let ghost o = views(open@);
        let ghost t = views(aligned@);
        if eq_ignore_case(es[i].status.as_str(), "open") {
            open.push(open_escalation_line(&es[i]));
            assert(views(open@) =~= o.push(open_line(es@[i as int])));
        }
        if eq_ignore_case(es[i].status.as_str(), "tracked") {
            aligned.push(tracked_escalation_line(&es[i]));
            assert(views(aligned@) =~= t.push(tracked_line(es@[i as int])));
        }
        i = i + 1;
    }
    assert(es@.subrange(0, es.len() as int) =~= es@);
    let ghost opened = views(open@);
    let ghost heading = if opened.len() == 0 {
        seq!["open escalations: none"@]
    } else {
        opened
    };
    let mut lines: Vec<String> = Vec::new();
    if open.len() == 0 {
        push_text(&mut lines, "open escalations: none");
        assert(views(lines@) =~= heading);
    } else {
        lines.append(&mut open);
        assert(views(lines@) =~= heading);
    }
    let ghost first = views(lines@);
    if aligned.len() > 0 {
        push_text(&mut lines, "tracked alignment items:");
        let ghost mid = views(lines@);
        let ghost more = views(aligned@);
        lines.append(&mut aligned);
        assert(views(lines@) =~= mid + more);
        assert(views(lines@) =~= first + (seq!["tracked alignment items:"@] + more));
    } else {
        assert(views(lines@) =~= first + Seq::<Seq<char>>::empty());
    }
    join_texts(&lines, "\n")
}

/// One worker's review line: its latest review's disposition and summary
/// (cut to 80), or a note that it has none yet.
pub open spec fn review_line(
    name: Seq<char>,
    reviews: Seq<(String, Vec<CoordinationReviewSnapshot>)>,
) -> Seq<char> {
    match latest_review_of(reviews, name) {
        Some(r) => name + " => "@ + r.disposition@ + " :: "@ + clipped(r.summary@, 80),
        None => name + " => no independent review yet"@,
    }
}

pub open spec fn review_lines(
    workers: Seq<(String, CoordinationWorkerSnapshot)>,
    reviews: Seq<(String, Vec<CoordinationReviewSnapshot>)>,
) -> Seq<Seq<char>>
    decreases workers.len(),
{
    if workers.len() == 0 {
        Seq::empty()
    } else {
        review_lines(workers.drop_last(), reviews).push(review_line(workers.last().1.name@, reviews))
    }
}

/// What `show reviews` answers: one line per coordination worker, in table
/// order.
pub open spec fn review_text(snapshot: SnapshotBundle) -> Seq<char> {
    match snapshot.coordination {
        Some(c) => join(review_lines(c.workers@, c.reviews@), "\n"@),
        None => no_plan(),
    }
}

pub fn render_review_summary(snapshot: &SnapshotBundle) -> (r: String)
    ensures
        r@ == review_text(*snapshot),
{
    let coordination = match &snapshot.coordination {
        Some(c) => c,
        None => return owned("No coordination plan loaded."),
    };
    let ws = &coordination.workers;
    let mut lines: Vec<String> = Vec::new();
    let mut i: usize = 0;
    while i < ws.len()
        invariant
            i <= ws.len(),
            views(lines@) == review_lines(ws@.subrange(0, i as int), coordination.reviews@),
        decreases ws.len() - i,
    {
        let ghost pre = ws@.subrange(0, i as int);
        assert(ws@.subrange(0, i + 1).drop_last() =~= pre);
        let ghost before = views(lines@);
        let name = ws[i].1.name.as_str();
        let line = match coordination.latest_review(name) {
            Some(review) => {
                let x = cat(name, " => ");
                let x = cat(x.as_str(), review.disposition.as_str());
                let x = cat(x.as_str(), " :: ");
                cat(x.as_str(), truncate(review.summary.as_str(), 80).as_str())
            },
            None => cat(name, " => no independent review yet"),
        };
        lines.push(line);
        assert(views(lines@) =~= before.push(review_line(ws@[i as int].1.name@, coordination.reviews@)));
        i = i + 1;
    }
    assert(ws@.subrange(0, ws.len() as int) =~= ws@);
    join_texts(&lines, "\n")
}

/// The retro metrics: counts, average cycle and recommendations.
pub open spec fn retro_summary(m: CoordinationMetrics) -> Seq<char> {
    join(
        seq![
            "workers="@ + dec(m.workers_total as nat) + " reviewed="@ + dec(m.reviewed_total as nat)
                + " approved="@ + dec(m.approved_total as nat) + " rework="@ + dec(
                m.rework_total as nat,
            ) + " escalated="@ + dec(m.escalated_total as nat) + " open_escalations="@ + dec(
                m.open_escalations as nat,
            ),
            "average_cycle_minutes="@ + m.average_cycle_minutes@,
            if m.recommendations@.len() == 0 {
                "recommendations: none"@
            } else {
                "recommendations: "@ + join(views(m.recommendations@), " | "@)
            },
        ],
        "\n"@,
    )
}

/// What `show retro` answers.
pub open spec fn retro_text(snapshot: SnapshotBundle) -> Seq<char> {
    match snapshot.coordination {
        Some(c) => match c.metrics {
            Some(m) => retro_summary(m),
            None => "No retro metrics available yet."@,
        },
        None => no_plan(),
    }
}

pub fn render_retro_summary(snapshot: &SnapshotBundle) -> (r: String)
    ensures
        r@ == retro_text(*snapshot),
{
    let coordination = match &snapshot.coordination {
        Some(c) => c,
        None => return owned("No coordination plan loaded."),
    };
    let metrics = match &coordination.metrics {
        Some(m) => m,
        None => return owned("No retro metrics available yet."),
    };
    let mut lines: Vec<String> = Vec::new();
    let x = cat("workers=", dec_usize(metrics.workers_total).as_str());
    let x = cat(x.as_str(), " reviewed=");
    let x = cat(x.as_str(), dec_usize(metrics.reviewed_total).as_str());
    let x = cat(x.as_str(), " approved=");
    let x = cat(x.as_str(), dec_usize(metrics.approved_total).as_str());
    let x = cat(x.as_str(), " rework=");
    let x = cat(x.as_str(), dec_usize(metrics.rework_total).as_str());
    let x = cat(x.as_str(), " escalated=");
    let x = cat(x.as_str(), dec_usize(metrics.escalated_total).as_str());
    let x = cat(x.as_str(), " open_escalations=");
    let x = cat(x.as_str(), dec_usize(metrics.open_escalations).as_str());
    lines.push(x);
    lines.push(cat("average_cycle_minutes=", metrics.average_cycle_minutes.as_str()));
    if metrics.recommendations.len() == 0 {
        push_text(&mut lines, "recommendations: none");
    } else {
        let joined = join_texts(&metrics.recommendations, " | ");
        lines.push(cat("recommendations: ", joined.as_str()));
    }
    assert(views(lines@) =~= seq![views(lines@)[0], views(lines@)[1], views(lines@)[2]]);
    join_texts(&lines, "\n")
}

} // verus!
