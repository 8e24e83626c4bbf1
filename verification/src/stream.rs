//! What the command line prints while it follows a command: which activity
//! lines to show, the fleet line, and the final summary of target workers.
use vstd::prelude::*;

use crate::config::{phase_index, CommanderConfig};
use crate::runtime::{ActivityEntry, WorkerSnapshot, WorkerThreadState};
use crate::text::dec_usize;
use crate::text::{
    blank, bool_str, bool_text, cat, contains, contains_text, dec, eq_ic, eq_ignore_case, first_word, first_word_of,
    is_blank, join, join_texts, lower, owned, same, skip_chars, starts_with, starts_with_text,
    take_chars, to_lower, trim, trimmed, views, words,
};

verus! {

/// What the stream watcher filters by.
#[derive(Debug, Clone, Default)]
pub struct StreamWatchOptions {
    pub command_name: String,
    pub target_workers: Vec<String>,
    pub show_patrol: bool,
}

/// A worker as the fleet line shows it.
#[derive(Debug, Clone, Default)]
pub struct WorkerView {
    pub name: String,
    pub status: String,
    pub current_activity: String,
    pub launch_blocked: bool,
    pub pending_action: String,
}

/// The watch options of a command: its first word lower-cased, its target
/// workers, and whether patrol output matters (`check` and `patrol`).
pub fn build_stream_watch_options(command: &str, targets: &Vec<String>) -> (r: StreamWatchOptions)
    ensures
        r.command_name@ == lower(first_word(command@)),
        views(r.target_workers@) == views(targets@),
        r.show_patrol == (r.command_name@ == "check"@ || r.command_name@ == "patrol"@),
{
    let head = first_word_of(command);
    let name = to_lower(head.as_str());
    let show = same(name.as_str(), "check") || same(name.as_str(), "patrol");
    let mut t: Vec<String> = Vec::new();
    let mut i: usize = 0;
    while i < targets.len()
        invariant
            i <= targets.len(),
            views(t@) == views(targets@).subrange(0, i as int),
        decreases targets.len() - i,
    {
        let ghost before = views(t@);
        t.push(targets[i].clone());
        assert(views(t@) =~= before.push(targets@[i as int]@));
        assert(views(targets@).subrange(0, i + 1) =~= views(targets@).subrange(0, i as int).push(
            targets@[i as int]@,
        ));
        i = i + 1;
    }
    assert(views(targets@).subrange(0, targets.len() as int) =~= views(targets@));
    StreamWatchOptions { command_name: name, target_workers: t, show_patrol: show }
}

pub open spec fn telemetry_noise(e: ActivityEntry) -> bool {
    let w = trim(e.worker_name@);
    let m = trim(e.message@);
    eq_ic(e.channel@, "stdout"@) && w.len() > 0 && starts_with(m, "20"@) && contains(
        m,
        "["@ + w + "]"@,
    )
}

/// A timestamped bridge line on a worker's stdout that names the worker:
/// telemetry the stream hides.
pub fn is_bridge_telemetry_noise(entry: &ActivityEntry) -> (r: bool)
    ensures
        r == telemetry_noise(*entry),
{
    if !eq_ignore_case(entry.channel.as_str(), "stdout") {
        return false;
    }
    let w = trimmed(entry.worker_name.as_str());
    if w.unicode_len() == 0 {
        return false;
    }
    let m = trimmed(entry.message.as_str());
    if !starts_with_text(m.as_str(), "20") {
        return false;
    }
    let a = cat("[", w.as_str());
    let tag = cat(a.as_str(), "]");
    contains_text(m.as_str(), tag.as_str())
}

pub open spec fn mentions(message: Seq<char>, targets: Seq<Seq<char>>) -> bool {
    exists|i: int| 0 <= i < targets.len() && contains(lower(message), lower(#[trigger] targets[i]))
}

/// Whether the message names one of the targets, ignoring case.
pub fn message_mentions_targets(message: &str, targets: &Vec<String>) -> (r: bool)
    ensures
        r == mentions(message@, views(targets@)),
{
    let l = to_lower(message);
    let mut i: usize = 0;
    while i < targets.len()
        invariant
            i <= targets.len(),
            l@ == lower(message@),
            forall|k: int| 0 <= k < i ==> !contains(lower(message@), lower(#[trigger] views(targets@)[k])),
        decreases targets.len() - i,
    {
        let t = to_lower(targets[i].as_str());
        if contains_text(l.as_str(), t.as_str()) {
            assert(contains(lower(message@), lower(views(targets@)[i as int])));
            return true;
        }
        i = i + 1;
    }
    false
}

/// Worker names match ignoring case.
pub fn matches_worker(left: &str, right: &str) -> (r: bool)
    ensures
        r == eq_ic(left@, right@),
{
    eq_ignore_case(left, right)
}

pub open spec fn names_target(e: ActivityEntry, targets: Seq<Seq<char>>) -> bool {
    exists|i: int|
        0 <= i < targets.len() && (eq_ic(e.worker_name@, #[trigger] targets[i]) || eq_ic(
            e.source@,
            targets[i],
        ))
}

pub open spec fn relates(e: ActivityEntry, targets: Seq<Seq<char>>) -> bool {
    targets.len() == 0 || names_target(e, targets) || mentions(e.message@, targets) || mentions(
        e.dense_message@,
        targets,
    ) || mentions(e.full_message@, targets)
}

/// Whether an activity line concerns one of the target workers: by worker,
/// by source, or by naming one in any of its messages. No targets: all do.
pub fn activity_relates_to_targets(entry: &ActivityEntry, targets: &Vec<String>) -> (r: bool)
    ensures
        r == relates(*entry, views(targets@)),
{
    if targets.len() == 0 {
        return true;
    }
    let mut i: usize = 0;
    while i < targets.len()
        invariant
            i <= targets.len(),
            forall|k: int|
                0 <= k < i ==> !(eq_ic(entry.worker_name@, #[trigger] views(targets@)[k]) || eq_ic(
                    entry.source@,
                    views(targets@)[k],
                )),
        decreases targets.len() - i,
    {
        if matches_worker(entry.worker_name.as_str(), targets[i].as_str()) || matches_worker(
            entry.source.as_str(),
            targets[i].as_str(),
        ) {
            assert(eq_ic(entry.worker_name@, views(targets@)[i as int]) || eq_ic(
                entry.source@,
                views(targets@)[i as int],
            ));
            return true;
        }
        i = i + 1;
    }
    message_mentions_targets(entry.message.as_str(), targets) || message_mentions_targets(
        entry.dense_message.as_str(),
        targets,
    ) || message_mentions_targets(entry.full_message.as_str(), targets)
}

/// Which activity lines a streamed command prints.
pub open spec fn renders(e: ActivityEntry, o: StreamWatchOptions) -> bool {
    if eq_ic(e.channel@, "command"@) && eq_ic(e.source@, "lgc-cli"@) {
        false
    } else if telemetry_noise(e) {
        false
    } else if eq_ic(e.source@, "patrol"@) {
        o.show_patrol
    } else if o.command_name@ == "start"@ && o.target_workers@.len() > 0 && !relates(
        e,
        views(o.target_workers@),
    ) {
        eq_ic(e.level@, "error"@)
    } else if eq_ic(e.level@, "error"@) || eq_ic(e.level@, "warning"@) {
        true
    } else if eq_ic(e.channel@, "progress"@) || eq_ic(e.channel@, "coordination"@) || eq_ic(
        e.channel@,
        "worker"@,
    ) || eq_ic(e.channel@, "stdout"@) || eq_ic(e.channel@, "stderr"@) {
        true
    } else if eq_ic(e.channel@, "command"@) {
        let l = lower(e.message@);
        contains(l, "started"@) || contains(l, "finished"@) || contains(l, "failed"@) || contains(
            l,
            "blocked"@,
        ) || contains(l, "stopped"@)
    } else {
        false
    }
}

/// Progress and output always show: an entry that is not the command line's
/// own echo, not bridge telemetry, not from patrol, and (for a `start` with
/// targets) concerns a target, is printed when its channel is `worker`,
/// `progress`, `coordination`, `stdout` or `stderr`, ignoring case, whatever
/// its level and message.
pub proof fn lemma_output_channels_render(e: ActivityEntry, o: StreamWatchOptions)
    requires
        !(eq_ic(e.channel@, "command"@) && eq_ic(e.source@, "lgc-cli"@)),
        !telemetry_noise(e),
        !eq_ic(e.source@, "patrol"@),
        o.command_name@ == "start"@ && o.target_workers@.len() > 0 ==> relates(
            e,
            views(o.target_workers@),
        ),
        eq_ic(e.channel@, "worker"@) || eq_ic(e.channel@, "progress"@) || eq_ic(
            e.channel@,
            "coordination"@,
        ) || eq_ic(e.channel@, "stdout"@) || eq_ic(e.channel@, "stderr"@),
    ensures
        renders(e, o),
{
}

/// Whether a streamed command prints an activity line: never its own echo
/// or bridge telemetry; patrol lines only for `check`/`patrol`; for a
/// targeted `start`, other workers' lines only when they are errors; then
/// errors, warnings, progress and output channels, and command results that
/// report a start, finish, failure, block or stop.
pub fn should_render_activity(entry: &ActivityEntry, options: &StreamWatchOptions) -> (r: bool)
    ensures
        r == renders(*entry, *options),
{
    if eq_ignore_case(entry.channel.as_str(), "command") && eq_ignore_case(
        entry.source.as_str(),
        "lgc-cli",
    ) {
        return false;
    }
    if is_bridge_telemetry_noise(entry) {
        return false;
    }
    if eq_ignore_case(entry.source.as_str(), "patrol") {
        return options.show_patrol;
    }
    if same(options.command_name.as_str(), "start") && options.target_workers.len() > 0
        && !activity_relates_to_targets(entry, &options.target_workers) {
        return eq_ignore_case(entry.level.as_str(), "error");
    }
    if eq_ignore_case(entry.level.as_str(), "error") || eq_ignore_case(
        entry.level.as_str(),
        "warning",
    ) {
        return true;
    }
    let c = entry.channel.as_str();
    if eq_ignore_case(c, "progress") || eq_ignore_case(c, "coordination") || eq_ignore_case(
        c,
        "worker",
    ) || eq_ignore_case(c, "stdout") || eq_ignore_case(c, "stderr") {
        return true;
    }
    if eq_ignore_case(c, "command") {
        let l = to_lower(entry.message.as_str());
        let s = l.as_str();
        return contains_text(s, "started") || contains_text(s, "finished") || contains_text(
            s,
            "failed",
        ) || contains_text(s, "blocked") || contains_text(s, "stopped");
    }
    false
}

pub open spec fn in_fleet(name: Seq<char>, o: StreamWatchOptions) -> bool {
    o.command_name@ != "start"@ || o.target_workers@.len() == 0 || exists|i: int|
        0 <= i < o.target_workers@.len() && eq_ic(name, (#[trigger] o.target_workers@[i])@)
}

/// The fleet line of a targeted `start` shows only its targets.
pub fn should_render_worker_in_fleet(worker_name: &str, options: &StreamWatchOptions) -> (r: bool)
    ensures
        r == in_fleet(worker_name@, *options),
{
    if !same(options.command_name.as_str(), "start") || options.target_workers.len() == 0 {
        return true;
    }
    let mut i: usize = 0;
    while i < options.target_workers.len()
        invariant
            i <= options.target_workers.len(),
            options.command_name@ == "start"@,
            options.target_workers@.len() > 0,
            forall|k: int|
                0 <= k < i ==> !eq_ic(worker_name@, (#[trigger] options.target_workers@[k])@),
        decreases options.target_workers.len() - i,
    {
        if matches_worker(worker_name, options.target_workers[i].as_str()) {
            return true;
        }
        i = i + 1;
    }
    false
}

// ---------------------------------------------------------------------------
// Inline texts
// ---------------------------------------------------------------------------

/// At most `width` characters: longer texts keep `width - 1` and end in `…`.
pub open spec fn inline(text: Seq<char>, width: nat) -> Seq<char> {
    if text.len() <= width {
        text
    } else {
        text.subrange(0, if width >= 1 { width - 1 } else { 0 }) + seq!['…']
    }
}

pub fn truncate_inline(text: &str, width: usize) -> (r: String)
    ensures
        r@ == inline(text@, width as nat),
{
    if text.unicode_len() <= width {
        return owned(text);
    }
    let keep = if width >= 1 {
        width - 1
    } else {
        0
    };
    let mut r = take_chars(text, keep);
    crate::text::push_char(&mut r, '…');
    r
}

/// Cut texts never exceed the width (when there is room for the mark).
pub proof fn lemma_inline_fits(text: Seq<char>, width: nat)
    requires
        width >= 1,
    ensures
        inline(text, width).len() <= width,
{
}

pub open spec fn last_word(s: Seq<char>) -> Seq<char> {
    if words(s).len() > 0 {
        words(s).last()
    } else {
        s
    }
}

/// The time of a `date time` stamp: its last word.
pub fn timestamp_suffix(raw: &str) -> (r: String)
    ensures
        r@ == last_word(raw@),
{
    let ws = crate::text::split_words(raw);
    if ws.len() > 0 {
        assert(views(ws@).last() == ws@[ws.len() - 1]@);
        ws[ws.len() - 1].clone()
    } else {
        owned(raw)
    }
}

pub open spec fn first_filled(values: Seq<Seq<char>>) -> Option<Seq<char>>
    decreases values.len(),
{
    if values.len() == 0 {
        None
    } else if trim(values[0]).len() > 0 {
        Some(trim(values[0]))
    } else {
        first_filled(values.drop_first())
    }
}

/// The first value that is not blank, trimmed.
pub fn first_nonempty(values: &Vec<String>) -> (r: Option<String>)
    ensures
        match r {
            Some(v) => first_filled(views(values@)) == Some(v@),
            None => first_filled(views(values@)) is None,
        },
{
    let mut i: usize = 0;
    assert(views(values@).subrange(0, values.len() as int) =~= views(values@));
    while i < values.len()
        invariant
            i <= values.len(),
            first_filled(views(values@)) == first_filled(
                views(values@).subrange(i as int, values.len() as int),
            ),
        decreases values.len() - i,
    {
        let ghost rest = views(values@).subrange(i as int, values.len() as int);
        assert(rest.drop_first() =~= views(values@).subrange(i + 1, values.len() as int));
        let t = trimmed(values[i].as_str());
        if t.unicode_len() > 0 {
            return Some(t);
        }
        i = i + 1;
    }
    None
}

/// One activity line as the stream prints it: time, actor, the short
/// message cut to 140 characters, and the repeat count when above one.
pub fn format_stream_activity(entry: &ActivityEntry) -> (r: String)
    ensures
        r@ == "["@ + last_word(entry.timestamp@) + "] "@ + (if !blank(entry.worker_name@) {
            entry.worker_name@
        } else {
            entry.source@
        }) + " | "@ + inline(
            if !blank(entry.dense_message@) {
                entry.dense_message@
            } else {
                entry.message@
            },
            140,
        ) + if entry.repeat_count > 1 {
            " (x"@ + dec(entry.repeat_count as nat) + ")"@
        } else {
            Seq::empty()
        },
{
    let actor = if !is_blank(entry.worker_name.as_str()) {
        entry.worker_name.as_str()
    } else {
        entry.source.as_str()
    };
    let message = if !is_blank(entry.dense_message.as_str()) {
        entry.dense_message.as_str()
    } else {
        entry.message.as_str()
    };
    let ts = timestamp_suffix(entry.timestamp.as_str());
    let cut = truncate_inline(message, 140);
    let x = cat("[", ts.as_str());
    let x = cat(x.as_str(), "] ");
    let x = cat(x.as_str(), actor);
    let x = cat(x.as_str(), " | ");
    let x = cat(x.as_str(), cut.as_str());
    if entry.repeat_count > 1 {
        let n = crate::text::dec_u64(entry.repeat_count);
        let y = cat(" (x", n.as_str());
        let y = cat(y.as_str(), ")");
        cat(x.as_str(), y.as_str())
    } else {
        assert(x@ =~= x@ + Seq::<char>::empty());
        x
    }
}

/// The error a remote call gives when no live session is running.
pub fn is_no_live_session_error(message: &str) -> (r: bool)
    ensures
        r == contains(message@, "no live LangGraph-Commander session is running"@),
{
    contains_text(message, "no live LangGraph-Commander session is running")
}

// ---------------------------------------------------------------------------
// Worker states
// ---------------------------------------------------------------------------

/// A worker as the fleet line shows it, from its state file (which wins
/// when set) and the last status snapshot.
pub fn merge_worker_view(
    name: &str,
    base: Option<&WorkerSnapshot>,
    thread_state: &WorkerThreadState,
) -> (r: WorkerView)
    ensures
        r.name@ == name@,
        r.status@ == if !blank(thread_state.status@) {
            thread_state.status@
        } else {
            match base {
                Some(b) => b.status@,
                None => "idle"@,
            }
        },
        r.pending_action@ == if !blank(thread_state.pending_action@) {
            thread_state.pending_action@
        } else {
            match base {
                Some(b) => b.pending_action@,
                None => Seq::empty(),
            }
        },
        r.current_activity@ == if !blank(thread_state.current_activity@) {
            thread_state.current_activity@
        } else {
            match base {
                Some(b) => if !blank(b.current_activity@) {
                    b.current_activity@
                } else if !blank(b.pending_action@) {
                    b.pending_action@
                } else {
                    Seq::empty()
                },
                None => Seq::empty(),
            }
        },
        r.launch_blocked == (thread_state.launch_blocked || match base {
            Some(b) => b.launch_blocked,
            None => false,
        }),
{
    let status = if !is_blank(thread_state.status.as_str()) {
        thread_state.status.clone()
    } else {
        match base {
            Some(b) => b.status.clone(),
            None => owned("idle"),
        }
    };
    let pending_action = if !is_blank(thread_state.pending_action.as_str()) {
        thread_state.pending_action.clone()
    } else {
        match base {
            Some(b) => b.pending_action.clone(),
            None => String::new(),
        }
    };
    let current_activity = if !is_blank(thread_state.current_activity.as_str()) {
        thread_state.current_activity.clone()
    } else {
        match base {
            Some(b) => if !is_blank(b.current_activity.as_str()) {
                b.current_activity.clone()
            } else if !is_blank(b.pending_action.as_str()) {
                b.pending_action.clone()
            } else {
                String::new()
            },
            None => String::new(),
        }
    };
    let launch_blocked = if thread_state.launch_blocked {
        true
    } else {
        match base {
            Some(b) => b.launch_blocked,
            None => false,
        }
    };
    WorkerView { name: owned(name), status, current_activity, launch_blocked, pending_action }
}

/// The snapshot entry of a worker, by exact name.
pub fn find_snapshot<'a>(workers: &'a Vec<WorkerSnapshot>, name: &str) -> (r: Option<&'a WorkerSnapshot>)
    ensures
        match r {
            Some(w) => exists|i: int|
                0 <= i < workers@.len() && workers@[i] == *w && w.name@ == name@ && forall|k: int|
                    0 <= k < i ==> (#[trigger] workers@[k]).name@ != name@,
            None => forall|k: int| 0 <= k < workers@.len() ==> (#[trigger] workers@[k]).name@ != name@,
        },
{
    let mut i: usize = 0;
    while i < workers.len()
        invariant
            i <= workers.len(),
            forall|k: int| 0 <= k < i ==> (#[trigger] workers@[k]).name@ != name@,
        decreases workers.len() - i,
    {
        if same(workers[i].name.as_str(), name) {
            return Some(&workers[i]);
        }
        i = i + 1;
    }
    None
}

pub open spec fn held_state(w: WorkerView) -> Seq<char> {
    match first_filled(seq![w.pending_action@, w.current_activity@]) {
        Some(reason) => "blocked("@ + inline(reason, 40) + ")"@,
        None => "blocked"@,
    }
}

pub open spec fn running_state(w: WorkerView) -> Seq<char> {
    match first_filled(seq![w.current_activity@, w.pending_action@]) {
        Some(reason) => "running("@ + inline(reason, 40) + ")"@,
        None => "running"@,
    }
}

/// How the fleet line shows a worker.
pub open spec fn worker_state_text(w: WorkerView) -> Seq<char> {
    let status = trim(w.status@);
    if w.launch_blocked {
        held_state(w)
    } else if eq_ic(w.status@, "running"@) {
        running_state(w)
    } else if status.len() == 0 {
        "idle"@
    } else if (eq_ic(status, "failed"@) || eq_ic(status, "stopped"@) || eq_ic(status, "missing"@))
        && trim(w.current_activity@).len() > 0 {
        lower(status) + "("@ + inline(trim(w.current_activity@), 40) + ")"@
    } else {
        lower(status)
    }
}

fn pair(a: &String, b: &String) -> (r: Vec<String>)
    ensures
        views(r@) == seq![a@, b@],
{
    let mut v: Vec<String> = Vec::new();
    v.push(a.clone());
    v.push(b.clone());
    assert(views(v@) =~= seq![a@, b@]);
    v
}

/// A worker's state for the fleet line: held (with why), running (with
/// what), idle, a failure-like status with its activity, or the status.
pub fn render_worker_state(worker: &WorkerView) -> (r: String)
    ensures
        r@ == worker_state_text(*worker),
{
    if worker.launch_blocked {
        let values = pair(&worker.pending_action, &worker.current_activity);
        return match first_nonempty(&values) {
            Some(reason) => {
                let cut = truncate_inline(reason.as_str(), 40);
                let a = cat("blocked(", cut.as_str());
                cat(a.as_str(), ")")
            },
            None => owned("blocked"),
        };
    }
    if eq_ignore_case(worker.status.as_str(), "running") {
        let values = pair(&worker.current_activity, &worker.pending_action);
        return match first_nonempty(&values) {
            Some(reason) => {
                let cut = truncate_inline(reason.as_str(), 40);
                let a = cat("running(", cut.as_str());
                cat(a.as_str(), ")")
            },
            None => owned("running"),
        };
    }
    let status = trimmed(worker.status.as_str());
    if status.unicode_len() == 0 {
        return owned("idle");
    }
    let activity = trimmed(worker.current_activity.as_str());
    let lowered = to_lower(status.as_str());
    if (eq_ignore_case(status.as_str(), "failed") || eq_ignore_case(status.as_str(), "stopped")
        || eq_ignore_case(status.as_str(), "missing")) && activity.unicode_len() > 0 {
        let cut = truncate_inline(activity.as_str(), 40);
        let a = cat(lowered.as_str(), "(");
        let b = cat(a.as_str(), cut.as_str());
        return cat(b.as_str(), ")");
    }
    lowered
}

pub open spec fn settled(target: Seq<char>, views: Seq<WorkerView>) -> bool {
    exists|i: int|
        0 <= i < views.len() && (#[trigger] views[i]).name@ == target && (forall|k: int|
            0 <= k < i ==> (#[trigger] views[k]).name@ != target) && (views[i].launch_blocked || (
        trim(views[i].status@).len() > 0 && !eq_ic(trim(views[i].status@), "running"@)))
}

/// A target has settled when its view is held or has a status other than
/// running.
pub fn worker_has_settled(target: &str, workers: &Vec<WorkerView>) -> (r: bool)
    ensures
        r == settled(target@, workers@),
{
    let mut i: usize = 0;
    while i < workers.len()
        invariant
            i <= workers.len(),
            forall|k: int| 0 <= k < i ==> (#[trigger] workers@[k]).name@ != target@,
        decreases workers.len() - i,
    {
        if same(workers[i].name.as_str(), target) {
            let w = &workers[i];
            if w.launch_blocked {
                return true;
            }
            let status = trimmed(w.status.as_str());
            let r = status.unicode_len() > 0 && !eq_ignore_case(status.as_str(), "running");
            proof {
                if !r {
                    assert forall|j: int|
                        0 <= j < workers@.len() && (#[trigger] workers@[j]).name@ == target@
                            && (forall|k: int| 0 <= k < j ==> (#[trigger] workers@[k]).name@ != target@)
                        implies !(workers@[j].launch_blocked || (trim(workers@[j].status@).len() > 0
                        && !eq_ic(trim(workers@[j].status@), "running"@))) by {
                        if j > i {
                            assert(workers@[i as int].name@ == target@);
                        }
                    }
                }
            }
            return r;
        }
        i = i + 1;
    }
    false
}

pub open spec fn fleet_parts(views: Seq<WorkerView>, o: StreamWatchOptions) -> Seq<Seq<char>>
    decreases views.len(),
{
    if views.len() == 0 {
        Seq::empty()
    } else {
        let rest = fleet_parts(views.drop_last(), o);
        let w = views.last();
        if in_fleet(w.name@, o) {
            rest.push(w.name@ + "="@ + worker_state_text(w))
        } else {
            rest
        }
    }
}

/// `[fleet] name=state | ...` over the workers the options show, or nothing.
pub fn render_fleet_line(workers: &Vec<WorkerView>, options: &StreamWatchOptions) -> (r: String)
    ensures
        r@ == if fleet_parts(workers@, *options).len() == 0 {
            Seq::empty()
        } else {
            "[fleet] "@ + join(fleet_parts(workers@, *options), " | "@)
        },
{
    let mut parts: Vec<String> = Vec::new();
    let mut i: usize = 0;
    while i < workers.len()
        invariant
            i <= workers.len(),
            views(parts@) == fleet_parts(workers@.subrange(0, i as int), *options),
        decreases workers.len() - i,
    {
        assert(workers@.subrange(0, i + 1).drop_last() =~= workers@.subrange(0, i as int));
        let w = &workers[i];
        if should_render_worker_in_fleet(w.name.as_str(), options) {
            let state = render_worker_state(w);
            let a = cat(w.name.as_str(), "=");
            let ghost before = views(parts@);
            parts.push(cat(a.as_str(), state.as_str()));
            assert(views(parts@) =~= before.push(w.name@ + "="@ + worker_state_text(*w)));
        }
        i = i + 1;
    }
    assert(workers@.subrange(0, workers.len() as int) =~= workers@);
    if parts.len() == 0 {
        return String::new();
    }
    let joined = join_texts(&parts, " | ");
    cat("[fleet] ", joined.as_str())
}

pub open spec fn first_view(views: Seq<WorkerView>, name: Seq<char>) -> Option<WorkerView>
    decreases views.len(),
{
    if views.len() == 0 {
        None
    } else if views[0].name@ == name {
        Some(views[0])
    } else {
        first_view(views.drop_first(), name)
    }
}

pub open spec fn summary_parts(views: Seq<WorkerView>, targets: Seq<Seq<char>>) -> Seq<Seq<char>>
    decreases targets.len(),
{
    if targets.len() == 0 {
        Seq::empty()
    } else {
        let rest = summary_parts(views, targets.drop_last());
        match first_view(views, targets.last()) {
            Some(v) => rest.push(targets.last() + "="@ + worker_state_text(v)),
            None => rest,
        }
    }
}

fn find_view<'a>(views: &'a Vec<WorkerView>, name: &str) -> (r: Option<&'a WorkerView>)
    ensures
        match r {
            Some(v) => first_view(views@, name@) == Some(*v),
            None => first_view(views@, name@) is None,
        },
{
    let mut i: usize = 0;
    assert(views@.subrange(0, views.len() as int) =~= views@);
    while i < views.len()
        invariant
            i <= views.len(),
            first_view(views@, name@) == first_view(views@.subrange(i as int, views.len() as int), name@),
        decreases views.len() - i,
    {
        let ghost rest = views@.subrange(i as int, views.len() as int);
        assert(rest.drop_first() =~= views@.subrange(i + 1, views.len() as int));
        if same(views[i].name.as_str(), name) {
            return Some(&views[i]);
        }
        i = i + 1;
    }
    None
}

/// `final: target=state | ...`, or a note when no target is tracked.
pub fn render_target_summary(workers: &Vec<WorkerView>, targets: &Vec<String>) -> (r: String)
    ensures
        r@ == if summary_parts(workers@, views(targets@)).len() == 0 {
            "final: no tracked worker state found"@
        } else {
            "final: "@ + join(summary_parts(workers@, views(targets@)), " | "@)
        },
{
    let mut parts: Vec<String> = Vec::new();
    let mut i: usize = 0;
    while i < targets.len()
        invariant
            i <= targets.len(),
            views(parts@) == summary_parts(workers@, views(targets@).subrange(0, i as int)),
        decreases targets.len() - i,
    {
        assert(views(targets@).subrange(0, i + 1).drop_last() =~= views(targets@).subrange(0, i as int));
        assert(views(targets@).subrange(0, i + 1).last() == targets@[i as int]@);
        if let Some(v) = find_view(workers, targets[i].as_str()) {
            let state = render_worker_state(v);
            let a = cat(targets[i].as_str(), "=");
            let ghost before = views(parts@);
            parts.push(cat(a.as_str(), state.as_str()));
            assert(views(parts@) =~= before.push(targets@[i as int]@ + "="@ + worker_state_text(*v)));
        }
        i = i + 1;
    }
    assert(views(targets@).subrange(0, targets.len() as int) =~= views(targets@));
    if parts.len() == 0 {
        return owned("final: no tracked worker state found");
    }
    let joined = join_texts(&parts, " | ");
    cat("final: ", joined.as_str())
}

/// A message followed by the target summary, when there are targets.
pub fn append_target_summary(base: &str, has_targets: bool, summary: &str) -> (r: String)
    ensures
        r@ == if has_targets {
            base@ + "\n"@ + summary@
        } else {
            base@
        },
{
    if !has_targets {
        return owned(base);
    }
    let a = cat(base, "\n");
    cat(a.as_str(), summary)
}

/// The names of configured workers, in order.
pub open spec fn worker_names(ws: Seq<crate::config::WorkerConfig>) -> Seq<Seq<char>> {
    ws.map_values(|w: crate::config::WorkerConfig| w.name@)
}

/// The workers a command starts: none unless it is `start`; `start all`
/// names every worker of the default phase.
pub open spec fn start_targets(config: CommanderConfig, command: Seq<char>) -> Option<Seq<Seq<char>>> {
    let c = trim(command);
    if !starts_with(c, "start "@) {
        Some(Seq::empty())
    } else {
        let target = trim(c.subrange(6, c.len() as int));
        if eq_ic(target, "all"@) {
            match phase_index(config.phases@, config.project.default_phase@) {
                Some(i) => Some(
                    worker_names(config.phases@[i].1.workers@),
                ),
                None => None,
            }
        } else {
            Some(seq![target])
        }
    }
}

/// The target workers of a command; refused when `start all` meets a
/// manifest without its default phase.
pub fn command_target_workers(config: &CommanderConfig, command: &str) -> (r: Result<
    Vec<String>,
    crate::config::ConfigError,
>)
    ensures
        match r {
            Ok(v) => start_targets(*config, command@) == Some(views(v@)),
            Err(_) => start_targets(*config, command@) is None,
        },
{
    let c = trimmed(command);
    if !starts_with_text(c.as_str(), "start ") {
        return Ok(Vec::new());
    }
    proof {
        reveal_strlit("start ");
    }
    let rest = skip_chars(c.as_str(), 6);
    let target = trimmed(rest.as_str());
    if eq_ignore_case(target.as_str(), "all") {
        let (_, phase) = match config.active_phase() {
            Ok(x) => x,
            Err(e) => return Err(e),
        };
        let mut names: Vec<String> = Vec::new();
        let mut i: usize = 0;
        while i < phase.workers.len()
            invariant
                i <= phase.workers.len(),
                views(names@) == worker_names(phase.workers@.subrange(0, i as int)),
            decreases phase.workers.len() - i,
        {
            let ghost before = views(names@);
            let n = phase.workers[i].name.clone();
            names.push(n);
            assert(views(names@) =~= before.push(phase.workers@[i as int].name@));
            assert(worker_names(phase.workers@.subrange(0, i + 1)) =~= worker_names(
                phase.workers@.subrange(0, i as int),
            ).push(phase.workers@[i as int].name@));
            i = i + 1;
        }
        assert(phase.workers@.subrange(0, phase.workers.len() as int) =~= phase.workers@);
        return Ok(names);
    }
    let mut v: Vec<String> = Vec::new();
    v.push(target);
    assert(views(v@) =~= seq![trim(c@.subrange(6, c@.len() as int))]);
    Ok(v)
}

// ---------------------------------------------------------------------------
// The `status` report
// ---------------------------------------------------------------------------

/// A field that is empty (not merely blank) shows a stand-in.
pub open spec fn or_stand_in(v: Seq<char>, stand_in: Seq<char>) -> Seq<char> {
    if v.len() == 0 {
        stand_in
    } else {
        v
    }
}

/// One worker's status line.
pub open spec fn worker_status_line(w: WorkerSnapshot) -> Seq<char> {
    w.name@ + " status="@ + w.status@ + " handoff="@ + w.handoff_status@ + " git_clean="@
        + bool_text(w.git_clean) + " launch_blocked="@ + bool_text(w.launch_blocked) + " scope="@
        + or_stand_in(w.execution_scope@, "full"@) + " pending_action="@ + or_stand_in(
        w.pending_action@,
        "none"@,
    ) + " activity="@ + or_stand_in(w.current_activity@, "none"@)
}

pub open spec fn worker_status_lines(ws: Seq<WorkerSnapshot>) -> Seq<Seq<char>>
    decreases ws.len(),
{
    if ws.len() == 0 {
        Seq::empty()
    } else {
        worker_status_lines(ws.drop_last()).push(worker_status_line(ws.last()))
    }
}

pub open spec fn status_head_lines(snapshot: crate::supervisor::SnapshotBundle) -> Seq<Seq<char>> {
    let st = snapshot.status;
    let p = snapshot.patrol;
    seq![
        "project="@ + st.project_name@,
        "phase="@ + st.phase@,
        "framework="@ + st.framework_version@,
        "activation_required="@ + bool_text(st.activation_required),
        "activation_reason="@ + st.activation_reason@,
        "last_check_status="@ + st.last_check_status@,
        "patrol_last_result="@ + p.last_result@,
        "patrol_enabled="@ + bool_text(p.enabled),
    ]
}

pub open spec fn status_warning_lines(snapshot: crate::supervisor::SnapshotBundle) -> Seq<Seq<char>> {
    let st = snapshot.status;
    let p = snapshot.patrol;
    (if blank(st.last_check_warning@) {
        Seq::empty()
    } else {
        seq!["last_check_warning="@ + st.last_check_warning@]
    }) + (if blank(p.last_warning@) {
        Seq::empty()
    } else {
        seq!["patrol_last_warning="@ + p.last_warning@]
    })
}

pub open spec fn status_plan_lines(snapshot: crate::supervisor::SnapshotBundle) -> Seq<Seq<char>> {
    match snapshot.coordination {
        Some(c) => seq![
            "coordination_plan="@ + c.plan_id@,
            "coordination_approved="@ + bool_text(c.approved),
            "coordination_open_escalations="@ + dec(
                crate::runtime::open_escalations_of(c.escalations@).len(),
            ),
            "coordination_reviews=approve:"@ + dec(crate::runtime::latest_with(c.reviews@, "approve"@))
                + " rework:"@ + dec(crate::runtime::latest_with(c.reviews@, "rework"@))
                + " escalate:"@ + dec(crate::runtime::latest_with(c.reviews@, "escalate"@)),
        ],
        None => Seq::empty(),
    }
}

/// The `status` report: the project's state, its warnings when there are
/// any, the coordination plan when one is loaded, and one line per worker.
pub open spec fn status_lines(snapshot: crate::supervisor::SnapshotBundle) -> Seq<Seq<char>> {
    status_head_lines(snapshot) + status_warning_lines(snapshot) + status_plan_lines(snapshot)
        + worker_status_lines(snapshot.status.workers@)
}

fn empty_or(v: &String, stand_in: &str) -> (r: String)
    ensures
        r@ == or_stand_in(v@, stand_in@),
{
    if v.unicode_len() == 0 {
        owned(stand_in)
    } else {
        v.clone()
    }
}

fn worker_status_text(w: &WorkerSnapshot) -> (r: String)
    ensures
        r@ == worker_status_line(*w),
{
    let x = cat(w.name.as_str(), " status=");
    let x = cat(x.as_str(), w.status.as_str());
    let x = cat(x.as_str(), " handoff=");
    let x = cat(x.as_str(), w.handoff_status.as_str());
    let x = cat(x.as_str(), " git_clean=");
    let x = cat(x.as_str(), bool_str(w.git_clean).as_str());
    let x = cat(x.as_str(), " launch_blocked=");
    let x = cat(x.as_str(), bool_str(w.launch_blocked).as_str());
    let x = cat(x.as_str(), " scope=");
    let x = cat(x.as_str(), empty_or(&w.execution_scope, "full").as_str());
    let x = cat(x.as_str(), " pending_action=");
    let x = cat(x.as_str(), empty_or(&w.pending_action, "none").as_str());
    let x = cat(x.as_str(), " activity=");
    cat(x.as_str(), empty_or(&w.current_activity, "none").as_str())
}

fn push_owned(v: &mut Vec<String>, t: String)
    ensures
        views(final(v)@) == views(old(v)@).push(t@),
{
    let ghost before = views(v@);
    v.push(t);
    assert(views(v@) =~= before.push(t@));
}

fn status_head(snapshot: &crate::supervisor::SnapshotBundle) -> (r: Vec<String>)
    ensures
        views(r@) == status_head_lines(*snapshot),
{
    let st = &snapshot.status;
    let p = &snapshot.patrol;
    let mut lines: Vec<String> = Vec::new();
    push_owned(&mut lines, cat("project=", st.project_name.as_str()));
    push_owned(&mut lines, cat("phase=", st.phase.as_str()));
    push_owned(&mut lines, cat("framework=", st.framework_version.as_str()));
    push_owned(&mut lines, cat("activation_required=", bool_str(st.activation_required).as_str()));
    push_owned(&mut lines, cat("activation_reason=", st.activation_reason.as_str()));
    push_owned(&mut lines, cat("last_check_status=", st.last_check_status.as_str()));
    push_owned(&mut lines, cat("patrol_last_result=", p.last_result.as_str()));
    push_owned(&mut lines, cat("patrol_enabled=", bool_str(p.enabled).as_str()));
    assert(views(lines@) =~= status_head_lines(*snapshot));
    lines
}

fn status_warnings(snapshot: &crate::supervisor::SnapshotBundle) -> (r: Vec<String>)
    ensures
        views(r@) == status_warning_lines(*snapshot),
{
    let mut lines: Vec<String> = Vec::new();
    if !is_blank(snapshot.status.last_check_warning.as_str()) {
        push_owned(
            &mut lines,
            cat("last_check_warning=", snapshot.status.last_check_warning.as_str()),
        );
    }
    if !is_blank(snapshot.patrol.last_warning.as_str()) {
        push_owned(&mut lines, cat("patrol_last_warning=", snapshot.patrol.last_warning.as_str()));
    }
    assert(views(lines@) =~= status_warning_lines(*snapshot));
    lines
}

fn status_plan(snapshot: &crate::supervisor::SnapshotBundle) -> (r: Vec<String>)
    ensures
        views(r@) == status_plan_lines(*snapshot),
{
    let mut lines: Vec<String> = Vec::new();
    match &snapshot.coordination {
        Some(c) => {
            let (approved, rework, escalated) = c.latest_review_counts();
            let open = c.open_escalations();
            proof {
                assert(open@.len() == open@.map_values(
                    |e: &crate::runtime::CoordinationEscalation| *e,
                ).len());
            }
            push_owned(&mut lines, cat("coordination_plan=", c.plan_id.as_str()));
            push_owned(&mut lines, cat("coordination_approved=", bool_str(c.approved).as_str()));
            push_owned(
                &mut lines,
                cat("coordination_open_escalations=", dec_usize(open.len()).as_str()),
            );
            let x = cat("coordination_reviews=approve:", dec_usize(approved).as_str());
            let x = cat(x.as_str(), " rework:");
            let x = cat(x.as_str(), dec_usize(rework).as_str());
            let x = cat(x.as_str(), " escalate:");
            push_owned(&mut lines, cat(x.as_str(), dec_usize(escalated).as_str()));
        },
        None => {},
    }
    assert(views(lines@) =~= status_plan_lines(*snapshot));
    lines
}

fn worker_status_texts(ws: &Vec<WorkerSnapshot>) -> (r: Vec<String>)
    ensures
        views(r@) == worker_status_lines(ws@),
{
    let mut lines: Vec<String> = Vec::new();
    let mut i: usize = 0;
    while i < ws.len()
        invariant
            i <= ws.len(),
            views(lines@) == worker_status_lines(ws@.subrange(0, i as int)),
        decreases ws.len() - i,
    {
        assert(ws@.subrange(0, i + 1).drop_last() =~= ws@.subrange(0, i as int));
        push_owned(&mut lines, worker_status_text(&ws[i]));
        i = i + 1;
    }
    assert(ws@.subrange(0, ws.len() as int) =~= ws@);
    lines
}

/// The `status` report, one line each.
pub fn render_status(snapshot: &crate::supervisor::SnapshotBundle) -> (r: String)
    ensures
        r@ == join(status_lines(*snapshot), "\n"@),
{
    let mut lines = status_head(snapshot);
    let mut warnings = status_warnings(snapshot);
    let mut plan = status_plan(snapshot);
    let mut workers = worker_status_texts(&snapshot.status.workers);
    let ghost a = views(lines@);
    let ghost b = views(warnings@);
    let ghost c = views(plan@);
    let ghost d = views(workers@);
    lines.append(&mut warnings);
    assert(views(lines@) =~= a + b);
    lines.append(&mut plan);
    assert(views(lines@) =~= a + b + c);
    lines.append(&mut workers);
    assert(views(lines@) =~= a + b + c + d);
    join_texts(&lines, "\n")
}

// ---------------------------------------------------------------------------
// Routing a command line
// ---------------------------------------------------------------------------

/// Where a command goes after the live session could not take it.
#[derive(Debug, Clone, Copy, PartialEq, Eq, Structural)]
pub enum Fallback {
    /// The command needs the live panel: ask the user to open it.
    PanelRequired,
    /// Report the error as it came.
    Fail,
    /// Run the command in a one-shot supervisor.
    OneShot,
    /// Run it in a temporary session and wait for the target workers.
    LocalSession,
}

/// Whether an error means that a command that needs the live panel could
/// not reach it (no live session, or a session of another repository).
pub open spec fn panel_missing(panel_required: bool, message: Seq<char>) -> bool {
    panel_required && (contains(message, "no live LangGraph-Commander session is running"@)
        || contains(message, "repo mismatch"@))
}

pub fn live_panel_missing(panel_required: bool, message: &str) -> (r: bool)
    ensures
        r == panel_missing(panel_required, message@),
{
    panel_required && (is_no_live_session_error(message) || contains_text(message, "repo mismatch"))
}

/// After the live session refused or could not be reached.
pub open spec fn fallback_of(
    panel_required: bool,
    require_running: bool,
    message: Seq<char>,
    has_targets: bool,
) -> Fallback {
    if panel_missing(panel_required, message) {
        Fallback::PanelRequired
    } else if require_running || !contains(
        message,
        "no live LangGraph-Commander session is running"@,
    ) {
        Fallback::Fail
    } else if !has_targets {
        Fallback::OneShot
    } else {
        Fallback::LocalSession
    }
}

pub fn fallback_after_remote_error(
    panel_required: bool,
    require_running: bool,
    message: &str,
    has_targets: bool,
) -> (r: Fallback)
    ensures
        r == fallback_of(panel_required, require_running, message@, has_targets),
{
    if live_panel_missing(panel_required, message) {
        Fallback::PanelRequired
    } else if require_running || !is_no_live_session_error(message) {
        Fallback::Fail
    } else if !has_targets {
        Fallback::OneShot
    } else {
        Fallback::LocalSession
    }
}

/// Where a streamed command goes.
#[derive(Debug, Clone, Copy, PartialEq, Eq, Structural)]
pub enum StreamRoute {
    /// Send it to the running session.
    Remote,
    /// It needs the live panel, which is not running.
    PanelRequired,
    /// A running session was required and there is none.
    NoSession,
    /// Run it in a temporary session.
    Local,
}

pub fn streaming_route(session_running: bool, panel_required: bool, require_running: bool) -> (r:
    StreamRoute)
    ensures
        r == if session_running {
            StreamRoute::Remote
        } else if panel_required {
            StreamRoute::PanelRequired
        } else if require_running {
            StreamRoute::NoSession
        } else {
            StreamRoute::Local
        },
{
    if session_running {
        StreamRoute::Remote
    } else if panel_required {
        StreamRoute::PanelRequired
    } else if require_running {
        StreamRoute::NoSession
    } else {
        StreamRoute::Local
    }
}

/// The answer to a command the live session took.
pub fn sent_message(command: &str, processed_at: &str) -> (r: String)
    ensures
        r@ == "sent `"@ + command@ + "` at "@ + processed_at@,
{
    let x = cat("sent `", command);
    let x = cat(x.as_str(), "` at ");
    cat(x.as_str(), processed_at)
}

// ---------------------------------------------------------------------------
// Waiting for target workers
// ---------------------------------------------------------------------------

/// The longest timeout among the phase's workers that are targets.
pub open spec fn longest_target_timeout(
    ws: Seq<crate::config::WorkerConfig>,
    targets: Seq<Seq<char>>,
) -> Option<u64>
    decreases ws.len(),
{
    if ws.len() == 0 {
        None
    } else {
        let rest = longest_target_timeout(ws.drop_last(), targets);
        let w = ws.last();
        if targets.contains(w.name@) {
            match rest {
                Some(t) => Some(
                    if t >= w.timeout_seconds {
                        t
                    } else {
                        w.timeout_seconds
                    },
                ),
                None => Some(w.timeout_seconds),
            }
        } else {
            rest
        }
    }
}

/// How long to wait for target workers: the longest of their timeouts (the
/// command timeout, at least 30 seconds, when none is a phase worker), and a
/// minute more.
pub open spec fn settle_timeout_of(
    ws: Seq<crate::config::WorkerConfig>,
    targets: Seq<Seq<char>>,
    command_timeout: u64,
) -> u64 {
    let base: u64 = match longest_target_timeout(ws, targets) {
        Some(t) => t,
        None => if command_timeout >= 30 {
            command_timeout
        } else {
            30
        },
    };
    if base + 60 <= u64::MAX {
        (base + 60) as u64
    } else {
        u64::MAX
    }
}

pub fn settle_timeout_seconds(config: &CommanderConfig, targets: &Vec<String>) -> (r: Result<
    u64,
    crate::config::ConfigError,
>)
    ensures
        match r {
            Ok(t) => exists|i: int|
                phase_index(config.phases@, config.project.default_phase@) == Some(i) && t
                    == settle_timeout_of(
                    config.phases@[i].1.workers@,
                    views(targets@),
                    config.runtime.command_timeout_seconds,
                ),
            Err(_) => phase_index(config.phases@, config.project.default_phase@) is None,
        },
{
    let (_, phase) = match config.active_phase() {
        Ok(x) => x,
        Err(e) => return Err(e),
    };
    let ws = &phase.workers;
    let mut longest: Option<u64> = None;
    let mut i: usize = 0;
    while i < ws.len()
        invariant
            i <= ws.len(),
            longest == longest_target_timeout(ws@.subrange(0, i as int), views(targets@)),
        decreases ws.len() - i,
    {
        assert(ws@.subrange(0, i + 1).drop_last() =~= ws@.subrange(0, i as int));
        if crate::provider::list_contains(targets, ws[i].name.as_str()) {
            let t = ws[i].timeout_seconds;
            longest = match longest {
                Some(m) => Some(
                    if m >= t {
                        m
                    } else {
                        t
                    },
                ),
                None => Some(t),
            };
        }
        i = i + 1;
    }
    assert(ws@.subrange(0, ws.len() as int) =~= ws@);
    let base = match longest {
        Some(t) => t,
        None => if config.runtime.command_timeout_seconds >= 30 {
            config.runtime.command_timeout_seconds
        } else {
            30
        },
    };
    Ok(base.saturating_add(60))
}

/// The phase whose workers a report shows: the snapshot's phase when the
/// manifest knows it, else the default phase.
pub fn view_phase_name(config: &CommanderConfig, status_phase: &str) -> (r: String)
    ensures
        r@ == if !blank(status_phase@) && phase_index(config.phases@, status_phase@) is Some {
            status_phase@
        } else {
            config.project.default_phase@
        },
{
    if !is_blank(status_phase) && config.phase(status_phase).is_ok() {
        owned(status_phase)
    } else {
        owned(config.active_phase_name())
    }
}

} // verus!
