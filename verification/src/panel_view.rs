//! What the live panel's four quadrants say: the values of the command
//! tower, the worker map and its roster rows, the feed's title and scroll,
//! and the console's status line. Drawing them is left to the caller.
use vstd::prelude::*;

use crate::config::opt_view;
use crate::panel::{
    first_named, resolved_selected, follows_tail, visible_names, AppState,
};
use crate::panel_text::{
    clipped, model_badge, reasoning_badge, shared_density, truncate, worker_model_badge,
    worker_reasoning_badge,
};
use crate::runtime::{
    blocked_count, latest_with, open_escalations_of, scope_view, CoordinationSnapshot, StreamScope,
    WorkerSnapshot,
};
use crate::supervisor::{density_label, density_text, scope_text, stream_scope_label, SnapshotBundle};
use crate::text::dec_usize;
use crate::text::{
    blank, cat, contains, contains_text, dec, eq_ic, eq_ignore_case, is_blank, lower, owned, to_lower,
    trim, trimmed,
};

verus! {

/// How a cell is coloured.
#[derive(Debug, Clone, Copy, PartialEq, Eq, Structural)]
pub enum Tone {
    Good,
    Alert,
    Accent,
    Muted,
    Warn,
}

/// Running workers look fine, failed ones alarming, finished or ready ones
/// highlighted, the rest muted.
pub open spec fn status_tone(status: Seq<char>) -> Tone {
    let l = lower(status);
    if contains(l, "running"@) {
        Tone::Good
    } else if contains(l, "fail"@) || contains(l, "error"@) {
        Tone::Alert
    } else if contains(l, "finish"@) || contains(l, "ready"@) {
        Tone::Accent
    } else {
        Tone::Muted
    }
}

/// A ready hand-off looks fine; a blocked, waiting or pending one warns.
pub open spec fn handoff_tone(status: Seq<char>) -> Tone {
    let l = lower(status);
    if contains(l, "ready"@) {
        Tone::Good
    } else if contains(l, "block"@) || contains(l, "wait"@) || contains(l, "pending"@) {
        Tone::Warn
    } else {
        Tone::Muted
    }
}

pub fn worker_status_tone(status: &str) -> (r: Tone)
    ensures
        r == status_tone(status@),
{
    let l = to_lower(status);
    let s = l.as_str();
    if contains_text(s, "running") {
        Tone::Good
    } else if contains_text(s, "fail") || contains_text(s, "error") {
        Tone::Alert
    } else if contains_text(s, "finish") || contains_text(s, "ready") {
        Tone::Accent
    } else {
        Tone::Muted
    }
}

pub fn handoff_status_tone(status: &str) -> (r: Tone)
    ensures
        r == handoff_tone(status@),
{
    let l = to_lower(status);
    let s = l.as_str();
    if contains_text(s, "ready") {
        Tone::Good
    } else if contains_text(s, "block") || contains_text(s, "wait") || contains_text(s, "pending") {
        Tone::Warn
    } else {
        Tone::Muted
    }
}

/// A text, or `none` in its place.
pub open spec fn or_none(o: Option<Seq<char>>) -> Seq<char> {
    match o {
        Some(v) => v,
        None => "none"@,
    }
}

fn text_or_none(o: &Option<String>) -> (r: String)
    ensures
        r@ == or_none(opt_view(*o)),
{
    match o {
        Some(v) => v.clone(),
        None => owned("none"),
    }
}

fn on_off(b: bool) -> (r: String)
    ensures
        r@ == if b {
            "on"@
        } else {
            "off"@
        },
{
    if b {
        owned("on")
    } else {
        owned("off")
    }
}

fn yes_no(b: bool) -> (r: String)
    ensures
        r@ == if b {
            "yes"@
        } else {
            "no"@
        },
{
    if b {
        owned("yes")
    } else {
        owned("no")
    }
}

// ---------------------------------------------------------------------------
// The command tower
// ---------------------------------------------------------------------------

/// The values the command tower shows, each after its label.
#[derive(Debug, Clone)]
pub struct TowerTexts {
    pub phase: String,
    pub session: String,
    pub activation_required: bool,
    pub activation: String,
    pub activation_reason: String,
    pub patrol: String,
    pub audit: String,
    pub audit_warning: String,
    pub coordination: String,
    pub reviews: String,
    pub retro: String,
    pub local_view: String,
    pub shared_stream: String,
    pub active_worker: String,
    pub shared_selected: String,
    pub provider: String,
    pub density: String,
    pub follow: String,
    pub last_command: String,
    pub last_result: String,
}

/// The live session's id, or `offline`.
pub open spec fn session_text(snapshot: SnapshotBundle) -> Seq<char> {
    match snapshot.control {
        Some(c) => if blank(c.session_id@) {
            "offline"@
        } else {
            c.session_id@
        },
        None => "offline"@,
    }
}

/// The provider and its endpoint, or a note that none was resolved.
pub open spec fn provider_text(snapshot: SnapshotBundle) -> Seq<char> {
    match snapshot.provider {
        Some(p) => p.provider_name@ + " @ "@ + p.base_url@,
        None => "provider unresolved"@,
    }
}

/// `on` or `off`, then the patrol's last result (or `idle`).
pub open spec fn patrol_text(snapshot: SnapshotBundle) -> Seq<char> {
    (if snapshot.patrol.enabled {
        "on"@
    } else {
        "off"@
    }) + " / "@ + if blank(snapshot.patrol.last_result@) {
        "idle"@
    } else {
        snapshot.patrol.last_result@
    }
}

/// The plan, its approval and its counts.
pub open spec fn plan_text(c: CoordinationSnapshot) -> Seq<char> {
    "plan "@ + clipped(c.plan_id@, 16) + " | approved "@ + (if c.approved {
        "yes"@
    } else {
        "no"@
    }) + " | open esc "@ + dec(open_escalations_of(c.escalations@).len()) + " | blocked "@ + dec(
        blocked_count(c.workers@),
    )
}

/// How many latest reviews approve, ask for rework, escalate.
pub open spec fn review_counts_text(c: CoordinationSnapshot) -> Seq<char> {
    "approve "@ + dec(latest_with(c.reviews@, "approve"@)) + " | rework "@ + dec(
        latest_with(c.reviews@, "rework"@),
    ) + " | escalate "@ + dec(latest_with(c.reviews@, "escalate"@))
}

/// The average cycle (or `n/a`) and the first recommendation cut to 38
/// characters (or a note that there is none).
pub open spec fn retro_line_text(c: CoordinationSnapshot) -> Seq<char> {
    let average = match c.metrics {
        Some(m) => if blank(m.average_cycle_minutes@) {
            "n/a"@
        } else {
            m.average_cycle_minutes@
        },
        None => "n/a"@,
    };
    let note = match c.metrics {
        Some(m) => if m.recommendations@.len() > 0 {
            clipped(m.recommendations@[0]@, 38)
        } else {
            "no retro note"@
        },
        None => "no retro note"@,
    };
    "avg cycle "@ + average + "m | "@ + note
}

/// The tower's values for a panel and a snapshot.
pub open spec fn tower_facts(t: TowerTexts, app: AppState, snapshot: SnapshotBundle) -> bool {
    let st = snapshot.status;
    &&& t.phase@ == st.phase@
    &&& t.session@ == session_text(snapshot)
    &&& t.activation_required == st.activation_required
    &&& t.activation@ == if st.activation_required {
        "REQUIRED"@
    } else {
        "CLEAR"@
    }
    &&& t.activation_reason@ == st.activation_reason@
    &&& t.patrol@ == patrol_text(snapshot)
    &&& t.audit@ == st.last_check_status@
    &&& t.audit_warning@ == if blank(st.last_check_warning@) {
        "none"@
    } else {
        clipped(st.last_check_warning@, 84)
    }
    &&& t.coordination@ == match snapshot.coordination {
        Some(c) => plan_text(c),
        None => "no coordination plan loaded"@,
    }
    &&& t.reviews@ == match snapshot.coordination {
        Some(c) => review_counts_text(c),
        None => "no review summary available"@,
    }
    &&& t.retro@ == match snapshot.coordination {
        Some(c) => retro_line_text(c),
        None => "no metrics yet"@,
    }
    &&& t.local_view@ == scope_text(app.local_view)
    &&& t.shared_stream@ == match snapshot.control {
        Some(c) => scope_text(c.stream_scope),
        None => "all"@,
    }
    &&& t.active_worker@ == or_none(opt_view(app.active_worker))
    &&& t.shared_selected@ == or_none(resolved_selected(app, snapshot))
    &&& t.provider@ == clipped(provider_text(snapshot), 64)
    &&& t.density@ == density_text(shared_density(snapshot))
    &&& t.follow@ == if follows_tail(app, snapshot) {
        "on"@
    } else {
        "off"@
    }
    &&& t.last_command@ == clipped(app.last_command@, 72)
    &&& t.last_result@ == clipped(app.last_feedback@, 72)
}

fn coordination_line(c: &CoordinationSnapshot) -> (r: String)
    ensures
        r@ == plan_text(*c),
{
    let open = c.open_escalations();
    proof {
        assert(open@.len() == open@.map_values(
            |e: &crate::runtime::CoordinationEscalation| *e,
        ).len());
    }
    let x = cat("plan ", truncate(c.plan_id.as_str(), 16).as_str());
    let x = cat(x.as_str(), " | approved ");
    let x = cat(x.as_str(), yes_no(c.approved).as_str());
    let x = cat(x.as_str(), " | open esc ");
    let x = cat(x.as_str(), dec_usize(open.len()).as_str());
    let x = cat(x.as_str(), " | blocked ");
    cat(x.as_str(), dec_usize(c.blocked_worker_count()).as_str())
}

fn reviews_line(c: &CoordinationSnapshot) -> (r: String)
    ensures
        r@ == review_counts_text(*c),
{
    let (approved, rework, escalated) = c.latest_review_counts();
    let x = cat("approve ", dec_usize(approved).as_str());
    let x = cat(x.as_str(), " | rework ");
    let x = cat(x.as_str(), dec_usize(rework).as_str());
    let x = cat(x.as_str(), " | escalate ");
    cat(x.as_str(), dec_usize(escalated).as_str())
}

fn retro_line(c: &CoordinationSnapshot) -> (r: String)
    ensures
        r@ == retro_line_text(*c),
{
    let average = match &c.metrics {
        Some(m) => if is_blank(m.average_cycle_minutes.as_str()) {
            owned("n/a")
        } else {
            m.average_cycle_minutes.clone()
        },
        None => owned("n/a"),
    };
    let note = match &c.metrics {
        Some(m) => if m.recommendations.len() > 0 {
            truncate(m.recommendations[0].as_str(), 38)
        } else {
            owned("no retro note")
        },
        None => owned("no retro note"),
    };
    let x = cat("avg cycle ", average.as_str());
    let x = cat(x.as_str(), "m | ");
    cat(x.as_str(), note.as_str())
}

pub fn tower_texts(app: &AppState, snapshot: &SnapshotBundle) -> (r: TowerTexts)
    ensures
        tower_facts(r, *app, *snapshot),
{
    let st = &snapshot.status;
    let session = match &snapshot.control {
        Some(c) => if is_blank(c.session_id.as_str()) {
            owned("offline")
        } else {
            c.session_id.clone()
        },
        None => owned("offline"),
    };
    let patrol_state = if snapshot.patrol.enabled {
        owned("on")
    } else {
        owned("off")
    };
    let patrol_result = if is_blank(snapshot.patrol.last_result.as_str()) {
        owned("idle")
    } else {
        snapshot.patrol.last_result.clone()
    };
    let patrol = cat(patrol_state.as_str(), " / ");
    let patrol = cat(patrol.as_str(), patrol_result.as_str());
    let audit_warning = if is_blank(st.last_check_warning.as_str()) {
        owned("none")
    } else {
        truncate(st.last_check_warning.as_str(), 84)
    };
    let (coordination, reviews, retro) = match &snapshot.coordination {
        Some(c) => (coordination_line(c), reviews_line(c), retro_line(c)),
        None => (
            owned("no coordination plan loaded"),
            owned("no review summary available"),
            owned("no metrics yet"),
        ),
    };
    let shared_stream = match &snapshot.control {
        Some(c) => stream_scope_label(&c.stream_scope),
        None => owned("all"),
    };
    let provider = match &snapshot.provider {
        Some(p) => {
            let x = cat(p.provider_name.as_str(), " @ ");
            cat(x.as_str(), p.base_url.as_str())
        },
        None => owned("provider unresolved"),
    };
    let density = match &snapshot.control {
        Some(c) => density_label(c.density_mode),
        None => density_label(crate::runtime::FeedDensity::Standard),
    };
    TowerTexts {
        phase: st.phase.clone(),
        session,
        activation_required: st.activation_required,
        activation: if st.activation_required {
            owned("REQUIRED")
        } else {
            owned("CLEAR")
        },
        activation_reason: st.activation_reason.clone(),
        patrol,
        audit: st.last_check_status.clone(),
        audit_warning,
        coordination,
        reviews,
        retro,
        local_view: app.local_view_label(),
        shared_stream,
        active_worker: text_or_none(&app.active_worker),
        shared_selected: text_or_none(&app.resolved_selected_worker(snapshot)),
        provider: truncate(provider.as_str(), 64),
        density,
        follow: on_off(app.feed_follows_tail(snapshot)),
        last_command: truncate(app.last_command.as_str(), 72),
        last_result: truncate(app.last_feedback.as_str(), 72),
    }
}

// ---------------------------------------------------------------------------
// The worker map
// ---------------------------------------------------------------------------

pub open spec fn count_running(ws: Seq<WorkerSnapshot>) -> nat
    decreases ws.len(),
{
    if ws.len() == 0 {
        0
    } else {
        count_running(ws.drop_last()) + if eq_ic(ws.last().status@, "running"@) {
            1nat
        } else {
            0nat
        }
    }
}

pub open spec fn count_ready(ws: Seq<WorkerSnapshot>) -> nat
    decreases ws.len(),
{
    if ws.len() == 0 {
        0
    } else {
        count_ready(ws.drop_last()) + if eq_ic(ws.last().handoff_status@, "ready"@) {
            1nat
        } else {
            0nat
        }
    }
}

pub open spec fn count_dirty(ws: Seq<WorkerSnapshot>) -> nat
    decreases ws.len(),
{
    if ws.len() == 0 {
        0
    } else {
        count_dirty(ws.drop_last()) + if !ws.last().git_clean {
            1nat
        } else {
            0nat
        }
    }
}

/// Each fleet count is at most the number of workers.
proof fn lemma_counts_bounded(ws: Seq<WorkerSnapshot>)
    ensures
        count_running(ws) <= ws.len(),
        count_ready(ws) <= ws.len(),
        count_dirty(ws) <= ws.len(),
    decreases ws.len(),
{
    if ws.len() > 0 {
        lemma_counts_bounded(ws.drop_last());
    }
}

/// The fleet counts: all workers, running ones, ready hand-offs, and
/// worktrees with changes.
pub fn fleet_counts(workers: &Vec<WorkerSnapshot>) -> (r: (usize, usize, usize, usize))
    ensures
        r.0 == workers@.len(),
        r.1 == count_running(workers@),
        r.2 == count_ready(workers@),
        r.3 == count_dirty(workers@),
{
    let mut running: usize = 0;
    let mut ready: usize = 0;
    let mut dirty: usize = 0;
    let mut i: usize = 0;
    while i < workers.len()
        invariant
            i <= workers.len(),
            running == count_running(workers@.subrange(0, i as int)),
            ready == count_ready(workers@.subrange(0, i as int)),
            dirty == count_dirty(workers@.subrange(0, i as int)),
        decreases workers.len() - i,
    {
        let ghost pre = workers@.subrange(0, i as int);
        assert(workers@.subrange(0, i + 1).drop_last() =~= pre);
        proof {
            lemma_counts_bounded(pre);
        }
        if eq_ignore_case(workers[i].status.as_str(), "running") {
            running = running + 1;
        }
        if eq_ignore_case(workers[i].handoff_status.as_str(), "ready") {
            ready = ready + 1;
        }
        if !workers[i].git_clean {
            dirty = dirty + 1;
        }
        i = i + 1;
    }
    assert(workers@.subrange(0, workers.len() as int) =~= workers@);
    (workers.len(), running, ready, dirty)
}

/// The values the worker map's summary shows, each after its label.
#[derive(Debug, Clone)]
pub struct WorkerMapTexts {
    pub fleet: String,
    pub filter: String,
    pub shared_selected: String,
    pub local_active: String,
    pub lane: String,
    pub gate: String,
    pub model: String,
}

/// The active worker's branch, scope and hold, or `n/a` for each.
pub open spec fn lane_text(w: Option<WorkerSnapshot>) -> Seq<char> {
    match w {
        Some(w) => "branch "@ + clipped(w.branch@, 18) + " | scope "@ + clipped(
            if blank(w.execution_scope@) {
                "full"@
            } else {
                w.execution_scope@
            },
            22,
        ) + " | blocked "@ + if w.launch_blocked {
            "yes"@
        } else {
            "no"@
        },
        None => "branch n/a | scope n/a | blocked n/a"@,
    }
}

/// The active worker's pending action, trimmed and cut to 52, or `none`.
pub open spec fn gate_text(w: Option<WorkerSnapshot>) -> Seq<char> {
    match w {
        Some(w) => if blank(w.pending_action@) {
            "none"@
        } else {
            clipped(trim(w.pending_action@), 52)
        },
        None => "none"@,
    }
}

/// The active worker's model and reasoning badges, or `n/a`.
pub open spec fn model_text(w: Option<WorkerSnapshot>) -> Seq<char> {
    match w {
        Some(w) => model_badge(w.model_name@) + " | think "@ + reasoning_badge(w.reasoning_effort@),
        None => "n/a | think n/a"@,
    }
}

pub open spec fn map_facts(t: WorkerMapTexts, app: AppState, snapshot: SnapshotBundle) -> bool {
    let ws = snapshot.status.workers@;
    let active = crate::panel::active_snapshot(app, snapshot);
    &&& t.fleet@ == "total "@ + dec(ws.len()) + " | running "@ + dec(count_running(ws))
        + " | ready "@ + dec(count_ready(ws)) + " | dirty "@ + dec(count_dirty(ws))
    &&& t.filter@ == (if blank(app.worker_filter@) {
        "none"@
    } else {
        app.worker_filter@
    }) + " | visible "@ + dec(visible_names(ws, app.worker_filter@).len())
    &&& t.shared_selected@ == or_none(resolved_selected(app, snapshot))
    &&& t.local_active@ == or_none(opt_view(app.active_worker))
    &&& t.lane@ == lane_text(active)
    &&& t.gate@ == gate_text(active)
    &&& t.model@ == model_text(active)
}

fn lane_of(w: Option<&WorkerSnapshot>) -> (r: String)
    ensures
        r@ == lane_text(
            match w {
                Some(x) => Some(*x),
                None => None,
            },
        ),
{
    match w {
        Some(w) => {
            let scope = if is_blank(w.execution_scope.as_str()) {
                owned("full")
            } else {
                w.execution_scope.clone()
            };
            let x = cat("branch ", truncate(w.branch.as_str(), 18).as_str());
            let x = cat(x.as_str(), " | scope ");
            let x = cat(x.as_str(), truncate(scope.as_str(), 22).as_str());
            let x = cat(x.as_str(), " | blocked ");
            cat(x.as_str(), yes_no(w.launch_blocked).as_str())
        },
        None => owned("branch n/a | scope n/a | blocked n/a"),
    }
}

fn gate_of(w: Option<&WorkerSnapshot>) -> (r: String)
    ensures
        r@ == gate_text(
            match w {
                Some(x) => Some(*x),
                None => None,
            },
        ),
{
    match w {
        Some(w) => if is_blank(w.pending_action.as_str()) {
            owned("none")
        } else {
            let t = trimmed(w.pending_action.as_str());
            truncate(t.as_str(), 52)
        },
        None => owned("none"),
    }
}

fn model_of(w: Option<&WorkerSnapshot>) -> (r: String)
    ensures
        r@ == model_text(
            match w {
                Some(x) => Some(*x),
                None => None,
            },
        ),
{
    match w {
        Some(w) => {
            let x = cat(worker_model_badge(w).as_str(), " | think ");
            cat(x.as_str(), worker_reasoning_badge(w).as_str())
        },
        None => owned("n/a | think n/a"),
    }
}

pub fn worker_map_texts(app: &AppState, snapshot: &SnapshotBundle) -> (r: WorkerMapTexts)
    ensures
        map_facts(r, *app, *snapshot),
{
    let (total, running, ready, dirty) = fleet_counts(&snapshot.status.workers);
    let x = cat("total ", dec_usize(total).as_str());
    let x = cat(x.as_str(), " | running ");
    let x = cat(x.as_str(), dec_usize(running).as_str());
    let x = cat(x.as_str(), " | ready ");
    let x = cat(x.as_str(), dec_usize(ready).as_str());
    let x = cat(x.as_str(), " | dirty ");
    let fleet = cat(x.as_str(), dec_usize(dirty).as_str());
    let visible = app.worker_names(snapshot);
    let y = cat(app.worker_filter_label().as_str(), " | visible ");
    let filter = cat(y.as_str(), dec_usize(visible.len()).as_str());
    let active = crate::panel::active_worker_snapshot(snapshot, app);
    WorkerMapTexts {
        fleet,
        filter,
        shared_selected: text_or_none(&app.resolved_selected_worker(snapshot)),
        local_active: text_or_none(&app.active_worker),
        lane: lane_of(active),
        gate: gate_of(active),
        model: model_of(active),
    }
}

/// A text widened with spaces to at least `width` characters.
pub open spec fn pad_right(s: Seq<char>, width: nat) -> Seq<char> {
    if s.len() >= width {
        s
    } else {
        s + Seq::new((width - s.len()) as nat, |i: int| ' ')
    }
}

fn padded(s: &str, width: usize) -> (r: String)
    ensures
        r@ == pad_right(s@, width as nat),
{
    let len = s.unicode_len();
    if len >= width {
        return owned(s);
    }
    let mut spaces: Vec<char> = Vec::new();
    let mut i: usize = 0;
    while i < width - len
        invariant
            len < width,
            i <= width - len,
            spaces@ == Seq::new(i as nat, |k: int| ' '),
        decreases width - len - i,
    {
        spaces.push(' ');
        i = i + 1;
        assert(spaces@ =~= Seq::new(i as nat, |k: int| ' '));
    }
    let tail = crate::text::string_of(&spaces);
    cat(s, tail.as_str())
}

/// One roster row's cells.
#[derive(Debug, Clone)]
pub struct RosterRow {
    pub marker: String,
    pub active: bool,
    pub name: String,
    pub status: String,
    pub status_tone: Tone,
    pub clean: String,
    pub dirty: bool,
    pub handoff: String,
    pub handoff_tone: Tone,
    pub hold: String,
    pub blocked: bool,
    pub model: String,
}

/// A worker's row: `>` marks the local active worker and `*` the selected
/// one (names compared ignoring case); the name, status and model are cut
/// and padded to fixed widths.
pub open spec fn row_facts(
    row: RosterRow,
    w: WorkerSnapshot,
    active: Option<Seq<char>>,
    selected: Seq<char>,
) -> bool {
    let is_active = active matches Some(a) && eq_ic(a, w.name@);
    let is_selected = selected.len() > 0 && eq_ic(selected, w.name@);
    &&& row.active == is_active
    &&& row.marker@ == if is_active && is_selected {
        ">*"@
    } else if is_active {
        "> "@
    } else if is_selected {
        "* "@
    } else {
        "  "@
    }
    &&& row.name@ == pad_right(clipped(w.name@, 20), 20)
    &&& row.status@ == pad_right(clipped(w.status@, 10), 10)
    &&& row.status_tone == status_tone(w.status@)
    &&& row.clean@ == if w.git_clean {
        "clean"@
    } else {
        "dirty"@
    }
    &&& row.dirty == !w.git_clean
    &&& row.handoff@ == clipped(
        if blank(w.handoff_status@) {
            "none"@
        } else {
            w.handoff_status@
        },
        10,
    )
    &&& row.handoff_tone == handoff_tone(w.handoff_status@)
    &&& row.hold@ == pad_right(
        if w.launch_blocked {
            "hold"@
        } else {
            "go"@
        },
        5,
    )
    &&& row.blocked == w.launch_blocked
    &&& row.model@ == pad_right(clipped(model_badge(w.model_name@), 10), 10)
}

pub fn roster_row(worker: &WorkerSnapshot, active: &Option<String>, selected: &str) -> (r: RosterRow)
    ensures
        row_facts(r, *worker, opt_view(*active), selected@),
{
    let is_active = match active {
        Some(a) => eq_ignore_case(a.as_str(), worker.name.as_str()),
        None => false,
    };
    let is_selected = selected.unicode_len() > 0 && eq_ignore_case(selected, worker.name.as_str());
    let marker = if is_active && is_selected {
        owned(">*")
    } else if is_active {
        owned("> ")
    } else if is_selected {
        owned("* ")
    } else {
        owned("  ")
    };
    let handoff = if is_blank(worker.handoff_status.as_str()) {
        owned("none")
    } else {
        worker.handoff_status.clone()
    };
    let hold = if worker.launch_blocked {
        padded("hold", 5)
    } else {
        padded("go", 5)
    };
    let badge = worker_model_badge(worker);
    RosterRow {
        marker,
        active: is_active,
        name: padded(truncate(worker.name.as_str(), 20).as_str(), 20),
        status: padded(truncate(worker.status.as_str(), 10).as_str(), 10),
        status_tone: worker_status_tone(worker.status.as_str()),
        clean: if worker.git_clean {
            owned("clean")
        } else {
            owned("dirty")
        },
        dirty: !worker.git_clean,
        handoff: truncate(handoff.as_str(), 10),
        handoff_tone: handoff_status_tone(worker.handoff_status.as_str()),
        hold,
        blocked: worker.launch_blocked,
        model: padded(truncate(badge.as_str(), 10).as_str(), 10),
    }
}

/// The workers that pass the filter, in order.
pub open spec fn visible_workers(ws: Seq<WorkerSnapshot>, filter: Seq<char>) -> Seq<WorkerSnapshot>
    decreases ws.len(),
{
    if ws.len() == 0 {
        Seq::empty()
    } else if crate::panel::filter_hit(ws.last(), filter) {
        visible_workers(ws.drop_last(), filter).push(ws.last())
    } else {
        visible_workers(ws.drop_last(), filter)
    }
}

/// The roster: a row for each worker that passes the filter, marked
/// against the local active worker and the shared selection (`none` when
/// there is none).
pub fn roster_rows(app: &AppState, snapshot: &SnapshotBundle) -> (r: Vec<RosterRow>)
    ensures
        ({
            let shown = visible_workers(snapshot.status.workers@, app.worker_filter@);
            let selected = or_none(resolved_selected(*app, *snapshot));
            &&& r@.len() == shown.len()
            &&& forall|k: int|
                0 <= k < r@.len() ==> row_facts(
                    #[trigger] r@[k],
                    shown[k],
                    opt_view(app.active_worker),
                    selected,
                )
        }),
{
    let selected = text_or_none(&app.resolved_selected_worker(snapshot));
    let ws = &snapshot.status.workers;
    let mut rows: Vec<RosterRow> = Vec::new();
    let mut i: usize = 0;
    while i < ws.len()
        invariant
            i <= ws.len(),
            ws@ == snapshot.status.workers@,
            selected@ == or_none(resolved_selected(*app, *snapshot)),
            rows@.len() == visible_workers(ws@.subrange(0, i as int), app.worker_filter@).len(),
            forall|k: int|
                0 <= k < rows@.len() ==> row_facts(
                    #[trigger] rows@[k],
                    visible_workers(ws@.subrange(0, i as int), app.worker_filter@)[k],
                    opt_view(app.active_worker),
                    selected@,
                ),
        decreases ws.len() - i,
    {
        let ghost pre = visible_workers(ws@.subrange(0, i as int), app.worker_filter@);
        assert(ws@.subrange(0, i + 1).drop_last() =~= ws@.subrange(0, i as int));
        assert(ws@.subrange(0, i + 1).last() == ws@[i as int]);
        if crate::panel::worker_matches_filter(&ws[i], app.worker_filter.as_str()) {
            rows.push(roster_row(&ws[i], &app.active_worker, selected.as_str()));
            assert(visible_workers(ws@.subrange(0, i + 1), app.worker_filter@) == pre.push(
                ws@[i as int],
            ));
        }
        i = i + 1;
    }
    assert(ws@.subrange(0, ws.len() as int) =~= ws@);
    rows
}

// ---------------------------------------------------------------------------
// The feed and the console
// ---------------------------------------------------------------------------

/// The feed pane's title: local view, density and tail following.
pub open spec fn feed_title_text(app: AppState, snapshot: SnapshotBundle) -> Seq<char> {
    "LIVE OUTPUT :: "@ + scope_text(app.local_view) + " :: "@ + density_text(
        shared_density(snapshot),
    ) + " :: tail "@ + if follows_tail(app, snapshot) {
        "on"@
    } else {
        "off"@
    }
}

pub fn feed_title(app: &AppState, snapshot: &SnapshotBundle) -> (r: String)
    ensures
        r@ == feed_title_text(*app, *snapshot),
{
    let density = match &snapshot.control {
        Some(c) => density_label(c.density_mode),
        None => density_label(crate::runtime::FeedDensity::Standard),
    };
    let x = cat("LIVE OUTPUT :: ", app.local_view_label().as_str());
    let x = cat(x.as_str(), " :: ");
    let x = cat(x.as_str(), density.as_str());
    let x = cat(x.as_str(), " :: tail ");
    cat(x.as_str(), on_off(app.feed_follows_tail(snapshot)).as_str())
}

/// The values of the console's status line, each after its label.
#[derive(Debug, Clone)]
pub struct ConsoleTexts {
    pub view: String,
    pub filter: String,
    pub selected: String,
    pub last: String,
}

pub fn console_texts(app: &AppState, snapshot: &SnapshotBundle) -> (r: ConsoleTexts)
    ensures
        r.view@ == scope_text(app.local_view),
        r.filter@ == if blank(app.worker_filter@) {
            "none"@
        } else {
            app.worker_filter@
        },
        r.selected@ == or_none(resolved_selected(*app, *snapshot)),
        r.last@ == clipped(app.last_feedback@, 40),
{
    ConsoleTexts {
        view: app.local_view_label(),
        filter: app.worker_filter_label(),
        selected: text_or_none(&app.resolved_selected_worker(snapshot)),
        last: truncate(app.last_feedback.as_str(), 40),
    }
}

/// The command log as the console shows it: a placeholder while it is empty.
pub fn console_log_lines(app: &AppState) -> (r: Vec<String>)
    ensures
        app.console_lines@.len() == 0 ==> crate::text::views(r@) == seq!["no command output yet"@],
        app.console_lines@.len() > 0 ==> crate::text::views(r@) == crate::text::views(
            app.console_lines@,
        ),
{
    if app.console_lines.len() == 0 {
        let mut v: Vec<String> = Vec::new();
        crate::supervisor::push_text(&mut v, "no command output yet");
        assert(crate::text::views(v@) =~= seq!["no command output yet"@]);
        return v;
    }
    let mut v: Vec<String> = Vec::new();
    let mut i: usize = 0;
    while i < app.console_lines.len()
        invariant
            i <= app.console_lines.len(),
            crate::text::views(v@) == crate::text::views(app.console_lines@).subrange(0, i as int),
        decreases app.console_lines.len() - i,
    {
        let ghost before = crate::text::views(v@);
        v.push(app.console_lines[i].clone());
        assert(crate::text::views(v@) =~= before.push(app.console_lines@[i as int]@));
        assert(crate::text::views(v@) =~= crate::text::views(app.console_lines@).subrange(
            0,
            i + 1,
        ));
        i = i + 1;
    }
    assert(crate::text::views(app.console_lines@).subrange(0, app.console_lines.len() as int)
        =~= crate::text::views(app.console_lines@));
    v
}

// ---------------------------------------------------------------------------
// Scroll positions
// ---------------------------------------------------------------------------

/// The furthest a list of `lines` scrolls in a pane `height` rows high.
pub open spec fn scroll_limit(lines: usize, height: usize) -> usize {
    if lines >= height {
        (lines - height) as usize
    } else {
        0
    }
}

pub open spec fn at_most(x: usize, limit: usize) -> usize {
    if x <= limit {
        x
    } else {
        limit
    }
}

/// The feed's scroll for this frame: its end while it follows the tail,
/// else where it was, kept within the pane.
pub fn settle_feed_scroll(app: &mut AppState, snapshot: &SnapshotBundle, lines: usize, height: usize) -> (r:
    usize)
    ensures
        r == if follows_tail(*old(app), *snapshot) {
            scroll_limit(lines, height)
        } else {
            at_most(old(app).feed_scroll, scroll_limit(lines, height))
        },
        *final(app) == (AppState { feed_scroll: r, ..*old(app) }),
{
    let limit = crate::panel_text::max_scroll(lines, height);
    let scroll = if app.feed_follows_tail(snapshot) {
        limit
    } else if app.feed_scroll <= limit {
        app.feed_scroll
    } else {
        limit
    };
    app.feed_scroll = scroll;
    scroll
}

/// The roster's scroll for this frame, kept within the pane.
pub fn settle_workers_scroll(app: &mut AppState, rows: usize, height: usize) -> (r: usize)
    ensures
        r == at_most(old(app).workers_scroll, scroll_limit(rows, height)),
        *final(app) == (AppState { workers_scroll: r, ..*old(app) }),
{
    let limit = crate::panel_text::max_scroll(rows, height);
    if app.workers_scroll > limit {
        app.workers_scroll = limit;
    }
    app.workers_scroll
}

/// The command log's scroll for this frame, kept within the pane.
pub fn settle_console_scroll(app: &mut AppState, lines: usize, height: usize) -> (r: usize)
    ensures
        r == at_most(old(app).console_scroll, scroll_limit(lines, height)),
        *final(app) == (AppState { console_scroll: r, ..*old(app) }),
{
    let limit = crate::panel_text::max_scroll(lines, height);
    if app.console_scroll > limit {
        app.console_scroll = limit;
    }
    app.console_scroll
}

/// A settled scroll never passes the end of its list.
pub proof fn lemma_settled_scroll_in_range(x: usize, lines: usize, height: usize)
    ensures
        at_most(x, scroll_limit(lines, height)) <= scroll_limit(lines, height),
        scroll_limit(lines, height) + height >= lines,
{
}

} // verus!
