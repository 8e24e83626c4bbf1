//! Worker lifecycle: the state file each worker keeps, the launch gate,
//! the status snapshot built from it, and the progress lines workers print.
use vstd::prelude::*;

use crate::activity::{densified, densify_message, densify_ok};
use crate::config::{CommanderConfig, WorkerConfig};
use crate::policy::{blocks_start, effort_label, policy_exempt, pending_action_blocks_start, reasoning_effort_label};
use crate::runtime::{WorkerSnapshot, WorkerThreadState};
use crate::text::{
    blank, cat, contains, contains_text, dec_int, dec_i64, eq_ic, eq_ignore_case, is_blank, join,
    join_texts, lines, lower, owned, same, split_lines, starts_with, starts_with_text, to_lower,
    trim, trimmed, views,
};

verus! {

/// The state of a worker that has never run in this phase.
pub fn default_thread_state(worker_name: &str, phase_name: &str) -> (r: WorkerThreadState)
    ensures
        r.worker_name@ == worker_name@,
        r.phase@ == phase_name@,
        r.status@.len() == 0,
        r.pid is None,
        r.last_started_at is None,
        r.last_finished_at is None,
        r.last_exit_code is None,
        r.last_summary@ == "Waiting for first command."@,
        r.last_error@.len() == 0,
        r.current_activity@.len() == 0,
        r.pending_action@.len() == 0,
        !r.launch_blocked,
        r.execution_scope@.len() == 0,
{
    WorkerThreadState {
        worker_name: owned(worker_name),
        phase: owned(phase_name),
        status: String::new(),
        pid: None,
        last_started_at: None,
        last_finished_at: None,
        last_exit_code: None,
        last_summary: owned("Waiting for first command."),
        last_error: String::new(),
        current_activity: String::new(),
        pending_action: String::new(),
        launch_blocked: false,
        execution_scope: String::new(),
    }
}

// ---------------------------------------------------------------------------
// Starting and stopping
// ---------------------------------------------------------------------------

/// Why a worker does not start.
#[derive(Debug, Clone)]
pub enum StartGate {
    /// The worktree is missing.
    Missing(String),
    /// No launch command: the operator starts it by hand.
    Manual(String),
    /// A coordination gate holds it.
    Blocked(String),
    /// It may start.
    Ready,
}

/// The reply when the worker's process is still running.
pub fn already_running_message(worker_name: &str) -> (r: String)
    ensures
        r@ == worker_name@ + " already running"@,
{
    cat(worker_name, " already running")
}

/// The environment a worker process starts with: its name, worktree, the
/// phase and the runtime directory.
pub fn launch_env(worker_name: &str, worktree: &str, phase: &str, runtime_dir: &str) -> (r: Vec<
    (String, String),
>)
    ensures
        r@.len() == 4,
        r@[0].0@ == "LGC_WORKER_NAME"@ && r@[0].1@ == worker_name@,
        r@[1].0@ == "LGC_WORKTREE"@ && r@[1].1@ == worktree@,
        r@[2].0@ == "LGC_PHASE"@ && r@[2].1@ == phase@,
        r@[3].0@ == "LGC_RUNTIME_DIR"@ && r@[3].1@ == runtime_dir@,
{
    let mut v: Vec<(String, String)> = Vec::new();
    v.push((owned("LGC_WORKER_NAME"), owned(worker_name)));
    v.push((owned("LGC_WORKTREE"), owned(worktree)));
    v.push((owned("LGC_PHASE"), owned(phase)));
    v.push((owned("LGC_RUNTIME_DIR"), owned(runtime_dir)));
    v
}

/// The launch gate, in order: a missing worktree, no launch command, a
/// launch block or a blocking pending action.
pub fn start_gate(
    worker: &WorkerConfig,
    worktree: &str,
    worktree_exists: bool,
    thread_state: &WorkerThreadState,
) -> (r: StartGate)
    ensures
        !worktree_exists ==> (r matches StartGate::Missing(m) && m@ == worker.name@
            + " worktree missing: "@ + worktree@),
        worktree_exists && worker.launch_command@.len() == 0 ==> (r matches StartGate::Manual(m)
            && m@ == worker.name@ + " launch_command not configured in commander.toml"@),
        worktree_exists && worker.launch_command@.len() > 0 && (thread_state.launch_blocked
            || blocks_start(thread_state.pending_action@)) ==> (r matches StartGate::Blocked(m)
            && m@ == worker.name@ + " start blocked: "@ + thread_state.pending_action@),
        worktree_exists && worker.launch_command@.len() > 0 && !thread_state.launch_blocked
            && !blocks_start(thread_state.pending_action@) ==> r is Ready,
{
    if !worktree_exists {
        let a = cat(worker.name.as_str(), " worktree missing: ");
        return StartGate::Missing(cat(a.as_str(), worktree));
    }
    if worker.launch_command.len() == 0 {
        return StartGate::Manual(
            cat(worker.name.as_str(), " launch_command not configured in commander.toml"),
        );
    }
    if thread_state.launch_blocked || pending_action_blocks_start(
        thread_state.pending_action.as_str(),
    ) {
        let a = cat(worker.name.as_str(), " start blocked: ");
        return StartGate::Blocked(cat(a.as_str(), thread_state.pending_action.as_str()));
    }
    StartGate::Ready
}

/// The state file of a worker whose worktree is missing.
pub fn mark_missing(state: &mut WorkerThreadState, message: &str)
    ensures
        final(state).status@ == "missing"@,
        final(state).last_error@ == message@,
        final(state).last_summary@ == message@,
        final(state).current_activity@ == "worktree missing"@,
        final(state).pending_action == old(state).pending_action,
        final(state).launch_blocked == old(state).launch_blocked,
        final(state).pid == old(state).pid,
        *final(state) == (WorkerThreadState { status: final(state).status, last_error: final(state).last_error, last_summary: final(state).last_summary, current_activity: final(state).current_activity, ..*old(state) }),
{
    state.status = owned("missing");
    state.last_error = owned(message);
    state.last_summary = owned(message);
    state.current_activity = owned("worktree missing");
}

/// The state file of a worker that waits for manual activation.
pub fn mark_manual(state: &mut WorkerThreadState, message: &str)
    ensures
        final(state).status@ == "idle"@,
        final(state).pending_action@ == "manual-activation"@,
        !final(state).launch_blocked,
        final(state).execution_scope@ == "manual"@,
        final(state).last_summary@ == message@,
        final(state).last_error@.len() == 0,
        final(state).current_activity@ == "manual activation required"@,
        final(state).pid == old(state).pid,
        *final(state) == (WorkerThreadState { status: final(state).status, pending_action: final(state).pending_action, launch_blocked: final(state).launch_blocked, execution_scope: final(state).execution_scope, last_summary: final(state).last_summary, last_error: final(state).last_error, current_activity: final(state).current_activity, ..*old(state) }),
{
    state.status = owned("idle");
    state.pending_action = owned("manual-activation");
    state.launch_blocked = false;
    state.execution_scope = owned("manual");
    state.last_summary = owned(message);
    state.last_error = String::new();
    state.current_activity = owned("manual activation required");
}

/// The state file of a held worker shows what holds it.
pub fn mark_held(state: &mut WorkerThreadState, pending_action: &str)
    ensures
        final(state).current_activity@ == if blank(pending_action@) {
            old(state).current_activity@
        } else {
            pending_action@
        },
        final(state).status == old(state).status,
        final(state).pending_action == old(state).pending_action,
        final(state).launch_blocked == old(state).launch_blocked,
        *final(state) == (WorkerThreadState { current_activity: final(state).current_activity, ..*old(state) }),
{
    if !is_blank(pending_action) {
        state.current_activity = owned(pending_action);
    }
}

/// The state file of a worker just launched as process `pid` at `now`.
pub fn mark_started(state: &mut WorkerThreadState, launch_command: &Vec<String>, pid: u32, now: &str)
    ensures
        final(state).status@ == "running"@,
        final(state).pid == Some(pid),
        final(state).last_started_at matches Some(t) && t@ == now@,
        final(state).last_finished_at is None,
        final(state).last_exit_code is None,
        final(state).last_summary@ == "running "@ + join(views(launch_command@), " "@),
        final(state).last_error@.len() == 0,
        final(state).current_activity@ == "starting worker round"@,
        !final(state).launch_blocked,
        final(state).pending_action == old(state).pending_action,
        *final(state) == (WorkerThreadState { status: final(state).status, pid: final(state).pid, last_started_at: final(state).last_started_at, last_finished_at: final(state).last_finished_at, last_exit_code: final(state).last_exit_code, last_summary: final(state).last_summary, last_error: final(state).last_error, current_activity: final(state).current_activity, launch_blocked: final(state).launch_blocked, ..*old(state) }),
{
    let cmd = join_texts(launch_command, " ");
    state.status = owned("running");
    state.pid = Some(pid);
    state.last_started_at = Some(owned(now));
    state.last_finished_at = None;
    state.last_exit_code = None;
    state.last_summary = cat("running ", cmd.as_str());
    state.last_error = String::new();
    state.current_activity = owned("starting worker round");
    state.launch_blocked = false;
}

/// The state file of a worker stopped by its stop command, which exited
/// with `exit_code` and printed `output`.
pub fn mark_stopped_by_command(
    state: &mut WorkerThreadState,
    message: &str,
    exit_code: i32,
    output: &str,
    now: &str,
)
    ensures
        final(state).status@ == "stopped"@,
        final(state).last_finished_at matches Some(t) && t@ == now@,
        final(state).last_exit_code == Some(exit_code),
        final(state).last_summary@ == message@,
        final(state).last_error@ == if exit_code == 0 {
            Seq::empty()
        } else {
            output@
        },
        final(state).current_activity@ == "stopped"@,
        final(state).pid is None,
        *final(state) == (WorkerThreadState { status: final(state).status, last_finished_at: final(state).last_finished_at, last_exit_code: final(state).last_exit_code, last_summary: final(state).last_summary, last_error: final(state).last_error, current_activity: final(state).current_activity, pid: final(state).pid, ..*old(state) }),
{
    state.status = owned("stopped");
    state.last_finished_at = Some(owned(now));
    state.last_exit_code = Some(exit_code);
    state.last_summary = owned(message);
    state.last_error = if exit_code == 0 {
        String::new()
    } else {
        owned(output)
    };
    state.current_activity = owned("stopped");
    state.pid = None;
}

/// The state file of a worker whose process was killed (exit 130).
pub fn mark_killed(state: &mut WorkerThreadState, message: &str, now: &str)
    ensures
        final(state).status@ == "stopped"@,
        final(state).pid is None,
        final(state).last_finished_at matches Some(t) && t@ == now@,
        final(state).last_exit_code == Some(130i32),
        final(state).last_summary@ == message@,
        final(state).last_error@.len() == 0,
        final(state).current_activity@ == "stopped"@,
        *final(state) == (WorkerThreadState { status: final(state).status, pid: final(state).pid, last_finished_at: final(state).last_finished_at, last_exit_code: final(state).last_exit_code, last_summary: final(state).last_summary, last_error: final(state).last_error, current_activity: final(state).current_activity, ..*old(state) }),
{
    state.status = owned("stopped");
    state.pid = None;
    state.last_finished_at = Some(owned(now));
    state.last_exit_code = Some(130);
    state.last_summary = owned(message);
    state.last_error = String::new();
    state.current_activity = owned("stopped");
}

/// The state file of a worker whose process exited with `code` at `now`:
/// finished on 0 (keeping its last summary), failed otherwise (keeping its
/// last error).
pub fn mark_exited(state: &mut WorkerThreadState, existing: &WorkerThreadState, code: i32, now: &str)
    ensures
        final(state).status@ == if code == 0 {
            "finished"@
        } else {
            "failed"@
        },
        final(state).pid is None,
        final(state).last_exit_code == Some(code),
        final(state).last_finished_at matches Some(t) && t@ == now@,
        final(state).last_summary@ == if code == 0 && !blank(existing.last_summary@) {
            existing.last_summary@
        } else {
            (if code == 0 {
                "finished"@
            } else {
                "failed"@
            }) + " with exit code "@ + dec_int(code as int)
        },
        final(state).last_error@ == if code == 0 {
            Seq::empty()
        } else if !blank(existing.last_error@) {
            existing.last_error@
        } else {
            "worker process exited with code "@ + dec_int(code as int)
        },
        final(state).current_activity@ == final(state).status@,
        *final(state) == (WorkerThreadState { status: final(state).status, pid: final(state).pid, last_exit_code: final(state).last_exit_code, last_finished_at: final(state).last_finished_at, last_summary: final(state).last_summary, last_error: final(state).last_error, current_activity: final(state).current_activity, ..*old(state) }),
{
    let label = if code == 0 {
        owned("finished")
    } else {
        owned("failed")
    };
    let code_text = dec_i64(code as i64);
    state.status = label.clone();
    state.pid = None;
    state.last_exit_code = Some(code);
    state.last_finished_at = Some(owned(now));
    state.last_summary = if code == 0 && !is_blank(existing.last_summary.as_str()) {
        existing.last_summary.clone()
    } else {
        let a = cat(label.as_str(), " with exit code ");
        cat(a.as_str(), code_text.as_str())
    };
    state.last_error = if code == 0 {
        String::new()
    } else if !is_blank(existing.last_error.as_str()) {
        existing.last_error.clone()
    } else {
        cat("worker process exited with code ", code_text.as_str())
    };
    state.current_activity = label;
}

// ---------------------------------------------------------------------------
// Worker snapshots
// ---------------------------------------------------------------------------

/// The handoff verdict of one handoff file: under a `## Status` heading
/// (until the next heading), the first line that says ready, blocked or
/// pending. `None` when the file does not say.
pub open spec fn handoff_in_lines(ls: Seq<Seq<char>>, inside: bool) -> Option<Seq<char>>
    decreases ls.len(),
{
    if ls.len() == 0 {
        None
    } else {
        let stripped = lower(trim(ls[0]));
        if starts_with(stripped, "## status"@) {
            handoff_in_lines(ls.drop_first(), true)
        } else if inside && starts_with(stripped, "#"@) {
            None
        } else if inside && contains(stripped, "ready"@) {
            Some("ready"@)
        } else if inside && contains(stripped, "blocked"@) {
            Some("blocked"@)
        } else if inside && contains(stripped, "pending"@) {
            Some("pending"@)
        } else {
            handoff_in_lines(ls.drop_first(), inside)
        }
    }
}

/// The handoff verdict over the worker's handoff files in order (a file
/// that could not be read is `None`); `unknown` when none says.
pub open spec fn handoff_verdict(files: Seq<Option<String>>) -> Seq<char>
    decreases files.len(),
{
    if files.len() == 0 {
        "unknown"@
    } else {
        match files[0] {
            Some(content) => match handoff_in_lines(lines(content@), false) {
                Some(v) => v,
                None => handoff_verdict(files.drop_first()),
            },
            None => handoff_verdict(files.drop_first()),
        }
    }
}

/// A handoff file's verdict is always one of `ready`, `blocked`, `pending`,
/// and it is said: some line of the file, trimmed and lower-cased, contains
/// that very word.
pub proof fn lemma_handoff_verdict_is_said(ls: Seq<Seq<char>>, inside: bool)
    ensures
        handoff_in_lines(ls, inside) matches Some(v) ==> {
            &&& v == "ready"@ || v == "blocked"@ || v == "pending"@
            &&& exists|i: int| 0 <= i < ls.len() && contains(lower(trim(#[trigger] ls[i])), v)
        },
    decreases ls.len(),
{
    if ls.len() > 0 {
        let stripped = lower(trim(ls[0]));
        lemma_handoff_verdict_is_said(ls.drop_first(), true);
        lemma_handoff_verdict_is_said(ls.drop_first(), inside);
        if let Some(v) = handoff_in_lines(ls, inside) {
            if contains(stripped, v) {
                assert(contains(lower(trim(ls[0])), v));
            } else {
                let rest = ls.drop_first();
                let j = choose|j: int| 0 <= j < rest.len() && contains(lower(trim(#[trigger] rest[j])), v);
                assert(rest[j] == ls[j + 1]);
                assert(contains(lower(trim(ls[j + 1])), v));
            }
        }
    }
}

/// The line right under a `## Status` heading decides the verdict when it
/// is not itself a heading: it says `pending` when it mentions pending but
/// neither ready nor blocked.
pub proof fn lemma_pending_status_line(ls: Seq<Seq<char>>)
    requires
        ls.len() >= 2,
        starts_with(lower(trim(ls[0])), "## status"@),
        !starts_with(lower(trim(ls[1])), "#"@),
        contains(lower(trim(ls[1])), "pending"@),
        !contains(lower(trim(ls[1])), "ready"@),
        !contains(lower(trim(ls[1])), "blocked"@),
    ensures
        handoff_in_lines(ls, false) == Some("pending"@),
{
    reveal_strlit("## status");
    reveal_strlit("#");
    let l = lower(trim(ls[1]));
    let rest = ls.drop_first();
    assert(rest[0] == ls[1]);
    if starts_with(l, "## status"@) {
        assert(l.subrange(0, 9)[0] == '#');
        assert(l[0] == '#');
        assert(l.subrange(0, 1) =~= "#"@);
        assert(false);
    }
    assert(handoff_in_lines(rest, true) == Some("pending"@));
    assert(handoff_in_lines(ls, false) == handoff_in_lines(rest, true));
}

/// A worker's handoff status is `unknown` or a word that some line of one
/// of its readable handoff files, trimmed and lower-cased, contains.
pub proof fn lemma_handoff_status_is_said(files: Seq<Option<String>>)
    ensures
        handoff_verdict(files) == "unknown"@ || exists|j: int, i: int|
            0 <= j < files.len() && files[j] is Some && 0 <= i < lines(files[j]->0@).len()
                && contains(lower(trim(#[trigger] lines(files[j]->0@)[i])), handoff_verdict(files)),
    decreases files.len(),
{
    if files.len() > 0 {
        lemma_handoff_status_is_said(files.drop_first());
        let rest = files.drop_first();
        match files[0] {
            Some(content) => {
                lemma_handoff_verdict_is_said(lines(content@), false);
                match handoff_in_lines(lines(content@), false) {
                    Some(v) => {
                        let i = choose|i: int|
                            0 <= i < lines(content@).len() && contains(lower(trim(#[trigger] lines(content@)[i])), v);
                        assert(contains(lower(trim(lines(files[0]->0@)[i])), handoff_verdict(files)));
                    },
                    None => {
                        if handoff_verdict(rest) != "unknown"@ {
                            let (j, i) = choose|j: int, i: int|
                                0 <= j < rest.len() && rest[j] is Some && 0 <= i < lines(rest[j]->0@).len()
                                    && contains(lower(trim(#[trigger] lines(rest[j]->0@)[i])), handoff_verdict(rest));
                            assert(rest[j] == files[j + 1]);
                            assert(contains(lower(trim(lines(files[j + 1]->0@)[i])), handoff_verdict(files)));
                        }
                    },
                }
            },
            None => {
                if handoff_verdict(rest) != "unknown"@ {
                    let (j, i) = choose|j: int, i: int|
                        0 <= j < rest.len() && rest[j] is Some && 0 <= i < lines(rest[j]->0@).len()
                            && contains(lower(trim(#[trigger] lines(rest[j]->0@)[i])), handoff_verdict(rest));
                    assert(rest[j] == files[j + 1]);
                    assert(contains(lower(trim(lines(files[j + 1]->0@)[i])), handoff_verdict(files)));
                }
            },
        }
    }
}

fn handoff_in_file(content: &str) -> (r: Option<String>)
    ensures
        match r {
            Some(v) => handoff_in_lines(lines(content@), false) == Some(v@),
            None => handoff_in_lines(lines(content@), false) is None,
        },
{
    let ls = split_lines(content);
    let mut inside = false;
    let mut i: usize = 0;
    assert(views(ls@).subrange(0, ls.len() as int) =~= views(ls@));
    while i < ls.len()
        invariant
            views(ls@) == lines(content@),
            i <= ls.len(),
            handoff_in_lines(lines(content@), false) == handoff_in_lines(
                views(ls@).subrange(i as int, ls.len() as int),
                inside,
            ),
        decreases ls.len() - i,
    {
        let ghost rest = views(ls@).subrange(i as int, ls.len() as int);
        assert(rest.drop_first() =~= views(ls@).subrange(i + 1, ls.len() as int));
        assert(rest[0] == ls@[i as int]@);
        let t = trimmed(ls[i].as_str());
        let stripped = to_lower(t.as_str());
        let s = stripped.as_str();
        if starts_with_text(s, "## status") {
            inside = true;
        } else if inside && starts_with_text(s, "#") {
            return None;
        } else if inside && contains_text(s, "ready") {
            return Some(owned("ready"));
        } else if inside && contains_text(s, "blocked") {
            return Some(owned("blocked"));
        } else if inside && contains_text(s, "pending") {
            return Some(owned("pending"));
        }
        i = i + 1;
    }
    None
}

/// The handoff status of a worker from its handoff files' contents.
pub fn find_handoff_status(files: &Vec<Option<String>>) -> (r: String)
    ensures
        r@ == handoff_verdict(files@),
{
    let mut i: usize = 0;
    assert(files@.subrange(0, files.len() as int) =~= files@);
    while i < files.len()
        invariant
            i <= files.len(),
            handoff_verdict(files@) == handoff_verdict(files@.subrange(i as int, files.len() as int)),
        decreases files.len() - i,
    {
        let ghost rest = files@.subrange(i as int, files.len() as int);
        assert(rest.drop_first() =~= files@.subrange(i + 1, files.len() as int));
        if let Some(content) = &files[i] {
            if let Some(v) = handoff_in_file(content.as_str()) {
                return v;
            }
        }
        i = i + 1;
    }
    owned("unknown")
}

/// What the supervisor found of a worker on disk.
#[derive(Debug, Clone)]
pub struct WorktreeProbe {
    /// The worktree path, shown.
    pub worktree: String,
    pub exists: bool,
    /// `git branch --show-current`, when git answered.
    pub branch: Option<String>,
    /// `git status --porcelain`, when git answered.
    pub porcelain: Option<String>,
    /// The handoff status from the handoff files.
    pub handoff_status: String,
}

pub open spec fn probed_branch(p: WorktreeProbe) -> Seq<char> {
    match p.branch {
        Some(b) => trim(b@),
        None => Seq::empty(),
    }
}

pub open spec fn probed_clean(p: WorktreeProbe) -> bool {
    match p.porcelain {
        Some(s) => trim(s@).len() == 0,
        None => false,
    }
}

/// The pending action is a policy note rather than something to do.
pub open spec fn policy_context(pending: Seq<char>) -> bool {
    policy_exempt(trim(pending))
}

/// The issues found on disk, in order.
pub open spec fn probe_issues(worker: WorkerConfig, p: WorktreeProbe) -> Seq<Seq<char>> {
    let branch = probed_branch(p);
    (if !p.exists {
        seq!["worktree missing"@]
    } else {
        Seq::empty()
    }) + (if branch.len() > 0 && branch != worker.branch@ {
        seq!["branch mismatch: "@ + branch]
    } else {
        Seq::empty()
    }) + (if !probed_clean(p) {
        seq!["worktree dirty"@]
    } else {
        Seq::empty()
    }) + (if p.handoff_status@ == "blocked"@ {
        seq!["handoff blocked"@]
    } else {
        Seq::empty()
    }) + (if p.handoff_status@ == "pending"@ {
        seq!["handoff pending"@]
    } else {
        Seq::empty()
    })
}

fn push_issue(v: &mut Vec<String>, s: String)
    ensures
        views(final(v)@) == views(old(v)@).push(s@),
{
    let ghost before = views(v@);
    v.push(s);
    assert(views(v@) =~= before.push(s@));
}

/// The pending-action issue of a worker, if it has one.
pub open spec fn pending_issue(t: WorkerThreadState) -> Seq<Seq<char>> {
    let pending = trim(t.pending_action@);
    if t.launch_blocked {
        if !policy_context(t.pending_action@) {
            seq!["launch blocked: "@ + t.pending_action@]
        } else {
            Seq::empty()
        }
    } else if pending.len() > 0 && !policy_context(t.pending_action@) {
        seq!["pending action: "@ + t.pending_action@]
    } else {
        Seq::empty()
    }
}

fn pending_issue_list(t: &WorkerThreadState) -> (r: Vec<String>)
    ensures
        views(r@) == pending_issue(*t),
{
    let pending = trimmed(t.pending_action.as_str());
    let policy = eq_ignore_case(pending.as_str(), "manual-activation") || starts_with_text(
        pending.as_str(),
        "scoped:",
    ) || starts_with_text(pending.as_str(), "contract-freeze owner:");
    let mut issues: Vec<String> = Vec::new();
    if t.launch_blocked {
        if !policy {
            push_issue(&mut issues, cat("launch blocked: ", t.pending_action.as_str()));
        }
    } else if pending.unicode_len() > 0 && !policy {
        push_issue(&mut issues, cat("pending action: ", t.pending_action.as_str()));
    }
    assert(views(issues@) =~= pending_issue(*t));
    issues
}

fn probe_issue_list(worker: &WorkerConfig, probe: &WorktreeProbe) -> (r: Vec<String>)
    ensures
        views(r@) == probe_issues(*worker, *probe),
{
    let branch = match &probe.branch {
        Some(b) => trimmed(b.as_str()),
        None => String::new(),
    };
    let git_clean = match &probe.porcelain {
        Some(s) => is_blank(s.as_str()),
        None => false,
    };
    let mut issues: Vec<String> = Vec::new();
    if !probe.exists {
        push_issue(&mut issues, owned("worktree missing"));
    }
    if branch.unicode_len() > 0 && !same(branch.as_str(), worker.branch.as_str()) {
        push_issue(&mut issues, cat("branch mismatch: ", branch.as_str()));
    }
    if !git_clean {
        push_issue(&mut issues, owned("worktree dirty"));
    }
    if same(probe.handoff_status.as_str(), "blocked") {
        push_issue(&mut issues, owned("handoff blocked"));
    }
    if same(probe.handoff_status.as_str(), "pending") {
        push_issue(&mut issues, owned("handoff pending"));
    }
    assert(views(issues@) =~= probe_issues(*worker, *probe));
    issues
}

/// The issues a worker snapshot lists, in order.
pub open spec fn worker_issues(worker: WorkerConfig, p: WorktreeProbe, t: WorkerThreadState) -> Seq<Seq<char>> {
    probe_issues(worker, p) + pending_issue(t)
}

/// The status line of a worker: its own status when set, else `attention`
/// when it has issues, else `idle`; with its model, effort and issues.
pub fn build_worker_snapshot(
    worker: &WorkerConfig,
    config: &CommanderConfig,
    probe: &WorktreeProbe,
    thread_state: WorkerThreadState,
) -> (r: WorkerSnapshot)
    ensures
        r.name@ == worker.name@,
        r.worktree_path@ == probe.worktree@,
        r.branch@ == probed_branch(*probe),
        r.expected_branch@ == worker.branch@,
        r.model_name@ == (if trim(worker.model@).len() == 0 {
            config.provider.default_model@
        } else {
            worker.model@
        }),
        r.reasoning_effort@ == effort_label(r.model_name@),
        views(r.issues@) == worker_issues(*worker, *probe, thread_state),
        r.status@ == if !blank(thread_state.status@) {
            thread_state.status@
        } else if worker_issues(*worker, *probe, thread_state).len() > 0 {
            "attention"@
        } else {
            "idle"@
        },
        r.git_clean == probed_clean(*probe),
        r.handoff_status@ == probe.handoff_status@,
        r.last_exit_code == thread_state.last_exit_code,
        r.last_started_at == thread_state.last_started_at,
        r.last_finished_at == thread_state.last_finished_at,
        r.last_summary == thread_state.last_summary,
        r.last_error == thread_state.last_error,
        r.current_activity == thread_state.current_activity,
        r.pending_action == thread_state.pending_action,
        r.launch_blocked == thread_state.launch_blocked,
        r.execution_scope == thread_state.execution_scope,
{
    let branch = match &probe.branch {
        Some(b) => trimmed(b.as_str()),
        None => String::new(),
    };
    let git_clean = match &probe.porcelain {
        Some(s) => is_blank(s.as_str()),
        None => false,
    };
    let mut issues = probe_issue_list(worker, probe);
    let mut more = pending_issue_list(&thread_state);
    let ghost a = views(issues@);
    let ghost b = views(more@);
    issues.append(&mut more);
    assert(views(issues@) =~= a + b);
    let status = if !is_blank(thread_state.status.as_str()) {
        thread_state.status.clone()
    } else if issues.len() > 0 {
        owned("attention")
    } else {
        owned("idle")
    };
    let model = worker.display_model(config);
    let effort = reasoning_effort_label(model.as_str());
    WorkerSnapshot {
        name: worker.name.clone(),
        worktree_path: probe.worktree.clone(),
        branch,
        expected_branch: worker.branch.clone(),
        model_name: model,
        reasoning_effort: effort,
        status,
        git_clean,
        handoff_status: probe.handoff_status.clone(),
        last_exit_code: thread_state.last_exit_code,
        last_started_at: thread_state.last_started_at,
        last_finished_at: thread_state.last_finished_at,
        last_summary: thread_state.last_summary,
        last_error: thread_state.last_error,
        current_activity: thread_state.current_activity,
        pending_action: thread_state.pending_action,
        launch_blocked: thread_state.launch_blocked,
        execution_scope: thread_state.execution_scope,
        issues,
    }
}

// ---------------------------------------------------------------------------
// Worker output
// ---------------------------------------------------------------------------

pub open spec fn bridge_stdout(line: Seq<char>, worker: Seq<char>) -> bool {
    let l = trim(line);
    !blank(worker) && starts_with(l, "20"@) && contains(l, "["@ + trim(worker) + "]"@)
}

/// A line the worker bridge prints with a timestamp and the worker's
/// bracketed name: telemetry, not progress.
pub fn is_worker_bridge_stdout(line: &str, worker_name: &str) -> (r: bool)
    ensures
        r == bridge_stdout(line@, worker_name@),
{
    let l = trimmed(line);
    if is_blank(worker_name) || !starts_with_text(l.as_str(), "20") {
        return false;
    }
    let w = trimmed(worker_name);
    let a = cat("[", w.as_str());
    let tag = cat(a.as_str(), "]");
    contains_text(l.as_str(), tag.as_str())
}

/// What a plain (non-progress) output line of a worker does besides being
/// logged: its activity tags (`worker`, the worker, the channel), and whether
/// it also becomes the worker's current activity (stdout lines that are not
/// the bridge's own telemetry).
pub fn output_line_effect(channel: &str, worker_name: &str, line: &str) -> (r: (Vec<String>, bool))
    ensures
        views(r.0@) == seq!["worker"@, worker_name@, channel@],
        r.1 == (eq_ic(channel@, "stdout"@) && !bridge_stdout(line@, worker_name@)),
{
    let mut tags: Vec<String> = Vec::new();
    tags.push(owned("worker"));
    tags.push(owned(worker_name));
    tags.push(owned(channel));
    assert(views(tags@) =~= seq!["worker"@, worker_name@, channel@]);
    let stdout = eq_ignore_case(channel, "stdout") && !is_worker_bridge_stdout(line, worker_name);
    (tags, stdout)
}

/// The state file to write after a worker printed `line` on stdout: only a
/// running (or not yet marked) worker takes the line's short form as its
/// current activity; `None` when nothing changes.
pub open spec fn stream_update_ok(line: Seq<char>) -> bool {
    densify_ok(trim(line))
}

pub fn update_worker_activity_from_stream(
    existing: Option<WorkerThreadState>,
    worker_name: &str,
    line: &str,
) -> (r: Option<WorkerThreadState>)
    requires
        stream_update_ok(line@),
    ensures
        ({
            let activity = densified(trim(line@));
            let base_status = match existing {
                Some(s) => trim(s.status@),
                None => "running"@,
            };
            let base_activity = match existing {
                Some(s) => s.current_activity@,
                None => Seq::empty(),
            };
            if activity.len() == 0 || (base_status.len() > 0 && !eq_ic(base_status, "running"@))
                || base_activity == activity {
                r is None
            } else {
                r matches Some(s) && s.current_activity@ == activity && match existing {
                    Some(e) => {
                        &&& s.status@ == if trim(e.status@).len() == 0 {
                            "running"@
                        } else {
                            e.status@
                        }
                        &&& s.worker_name@ == if blank(e.worker_name@) {
                            worker_name@
                        } else {
                            e.worker_name@
                        }
                        &&& s == (WorkerThreadState {
                            status: s.status,
                            worker_name: s.worker_name,
                            current_activity: s.current_activity,
                            ..e
                        })
                    },
                    None => {
                        &&& s.worker_name@ == worker_name@
                        &&& s.phase@.len() == 0
                        &&& s.status@ == "running"@
                        &&& s.pid is None
                        &&& s.last_started_at is None
                        &&& s.last_finished_at is None
                        &&& s.last_exit_code is None
                        &&& s.last_summary@.len() == 0
                        &&& s.last_error@.len() == 0
                        &&& s.pending_action@.len() == 0
                        &&& !s.launch_blocked
                        &&& s.execution_scope@.len() == 0
                    },
                }
            }
        }),
{
    let ghost before = existing;
    let t = trimmed(line);
    let activity = densify_message(t.as_str());
    if activity.unicode_len() == 0 {
        return None;
    }
    let mut state = match existing {
        Some(s) => s,
        None => {
            let mut s = default_thread_state(worker_name, "");
            s.status = owned("running");
            s.last_summary = String::new();
            s
        },
    };
    if is_blank(state.worker_name.as_str()) {
        state.worker_name = owned(worker_name);
    }
    let status = trimmed(state.status.as_str());
    proof {
        if existing is None {
            reveal_strlit("running");
            crate::text::lemma_no_ws_trim("running"@);
        }
    }
    if status.unicode_len() > 0 && !eq_ignore_case(status.as_str(), "running") {
        return None;
    }
    if status.unicode_len() == 0 {
        state.status = owned("running");
    }
    if same(state.current_activity.as_str(), activity.as_str()) {
        return None;
    }
    state.current_activity = activity;
    proof {
        match before {
            Some(e) => {
                assert(state == (WorkerThreadState {
                    status: state.status,
                    worker_name: state.worker_name,
                    current_activity: state.current_activity,
                    ..e
                }));
                assert(state.status@ == if trim(e.status@).len() == 0 {
                    "running"@
                } else {
                    e.status@
                });
                assert(state.worker_name@ == if blank(e.worker_name@) {
                    worker_name@
                } else {
                    e.worker_name@
                });
            },
            None => {
                reveal_strlit("");
            },
        }
    }
    Some(state)
}

/// A structured progress line a worker prints.
#[derive(Debug, Clone, Default)]
pub struct WorkerProgressPayload {
    pub source: String,
    pub level: String,
    pub channel: String,
    pub worker_name: String,
    pub message: String,
    pub current_activity: String,
    pub tags: Vec<String>,
}

/// The marker that starts a structured progress line.
pub fn worker_progress_prefix() -> (r: String)
    ensures
        r@ == "__LGC_PROGRESS__"@,
{
    owned("__LGC_PROGRESS__")
}

/// Fills the parts a progress payload left out: the worker (the printing
/// worker), the source (the worker), the level (`info`), the channel
/// (`progress`) and the message (the current activity, or `progress update`).
pub fn normalize_progress(p: &mut WorkerProgressPayload, default_worker_name: &str)
    ensures
        final(p).worker_name@ == if blank(old(p).worker_name@) {
            default_worker_name@
        } else {
            old(p).worker_name@
        },
        final(p).source@ == if blank(old(p).source@) {
            final(p).worker_name@
        } else {
            old(p).source@
        },
        final(p).level@ == if blank(old(p).level@) {
            "info"@
        } else {
            old(p).level@
        },
        final(p).channel@ == if blank(old(p).channel@) {
            "progress"@
        } else {
            old(p).channel@
        },
        final(p).message@ == (if !blank(old(p).message@) {
            old(p).message@
        } else if !blank(old(p).current_activity@) {
            old(p).current_activity@
        } else {
            "progress update"@
        }),
        final(p).tags == old(p).tags,
        final(p).current_activity == old(p).current_activity,
{
    if is_blank(p.worker_name.as_str()) {
        p.worker_name = owned(default_worker_name);
    }
    if is_blank(p.source.as_str()) {
        p.source = p.worker_name.clone();
    }
    if is_blank(p.level.as_str()) {
        p.level = owned("info");
    }
    if is_blank(p.channel.as_str()) {
        p.channel = owned("progress");
    }
    if is_blank(p.message.as_str()) {
        p.message = p.current_activity.clone();
    }
    if is_blank(p.message.as_str()) {
        p.message = owned("progress update");
    }
}

pub open spec fn has_tag(tags: Seq<Seq<char>>, t: Seq<char>) -> bool {
    exists|i: int| 0 <= i < tags.len() && eq_ic(#[trigger] tags[i], t)
}

fn has_tag_exec(tags: &Vec<String>, t: &str) -> (r: bool)
    ensures
        r == has_tag(views(tags@), t@),
{
    let mut i: usize = 0;
    while i < tags.len()
        invariant
            i <= tags.len(),
            forall|k: int| 0 <= k < i ==> !eq_ic(#[trigger] views(tags@)[k], t@),
        decreases tags.len() - i,
    {
        if eq_ignore_case(tags[i].as_str(), t) {
            assert(eq_ic(views(tags@)[i as int], t@));
            return true;
        }
        i = i + 1;
    }
    false
}

fn add_tag(tags: &mut Vec<String>, t: &str)
    ensures
        views(final(tags)@) == if has_tag(views(old(tags)@), t@) {
            views(old(tags)@)
        } else {
            views(old(tags)@).push(t@)
        },
{
    if !has_tag_exec(tags, t) {
        let ghost before = views(tags@);
        tags.push(owned(t));
        assert(views(tags@) =~= before.push(t@));
    }
}

/// The tags of a progress line: its own, plus `worker`, the printing
/// worker's name and the channel, each unless already present (ignoring case).
pub fn progress_tags(tags: Vec<String>, worker_name: &str, channel: &str) -> (r: Vec<String>)
    ensures
        ({
            let t0 = views(tags@);
            let t1 = if has_tag(t0, "worker"@) {
                t0
            } else {
                t0.push("worker"@)
            };
            let t2 = if has_tag(t1, worker_name@) {
                t1
            } else {
                t1.push(worker_name@)
            };
            views(r@) == if has_tag(t2, channel@) {
                t2
            } else {
                t2.push(channel@)
            }
        }),
{
    let mut t = tags;
    add_tag(&mut t, "worker");
    add_tag(&mut t, worker_name);
    add_tag(&mut t, channel);
    t
}

} // verus!
