//! The supervisor's judgements: audit outcomes, launch gates, activation
//! (whether the operator is needed), and the labels the panels show.
use vstd::prelude::*;

use crate::runtime::{
    blocked_count, latest_with, open_escalations_of, CoordinationEscalation, CoordinationSnapshot,
    WorkerSnapshot,
};
use crate::text::{
    cat, contains, contains_text, dec, eq_ic, eq_ignore_case, first_word, first_word_of, is_blank,
    join, join_texts, lines, lower, owned, skip_chars, split_lines, starts_with, starts_with_text,
    to_lower, trim, trimmed, views, words,
};

verus! {

// ---------------------------------------------------------------------------
// Labels
// ---------------------------------------------------------------------------

pub open spec fn effort_label(model: Seq<char>) -> Seq<char> {
    let l = lower(trim(model));
    if contains(l, "high"@) {
        "high"@
    } else if contains(l, "medium"@) {
        "medium"@
    } else if contains(l, "low"@) {
        "low"@
    } else {
        "standard"@
    }
}

/// The reasoning effort a model name asks for.
pub fn reasoning_effort_label(model_name: &str) -> (r: String)
    ensures
        r@ == effort_label(model_name@),
{
    let t = trimmed(model_name);
    let l = to_lower(t.as_str());
    if contains_text(l.as_str(), "high") {
        owned("high")
    } else if contains_text(l.as_str(), "medium") {
        owned("medium")
    } else if contains_text(l.as_str(), "low") {
        owned("low")
    } else {
        owned("standard")
    }
}

pub open spec fn terminal_status(status: Seq<char>) -> bool {
    let l = lower(trim(status));
    l == "finished"@ || l == "failed"@ || l == "stopped"@ || l == "missing"@
}

/// Whether a worker status is final: finished, failed, stopped or missing.
pub fn worker_status_terminal(status: &str) -> (r: bool)
    ensures
        r == terminal_status(status@),
{
    let t = trimmed(status);
    let l = to_lower(t.as_str());
    let s = l.as_str();
    crate::text::same(s, "finished") || crate::text::same(s, "failed") || crate::text::same(s, "stopped")
        || crate::text::same(s, "missing")
}

// ---------------------------------------------------------------------------
// Audit results
// ---------------------------------------------------------------------------

/// Removes every leading repetition of a prefix (`trim_start_matches`).
pub open spec fn strip_all(s: Seq<char>, p: Seq<char>) -> Seq<char>
    decreases s.len(),
{
    if p.len() > 0 && starts_with(s, p) {
        strip_all(s.subrange(p.len() as int, s.len() as int), p)
    } else {
        s
    }
}

/// The warnings of an audit output, in order: each line that starts with
/// `WARN:` after trimming, without that prefix.
pub open spec fn warning_lines(ls: Seq<Seq<char>>) -> Seq<Seq<char>>
    decreases ls.len(),
{
    if ls.len() == 0 {
        Seq::empty()
    } else {
        let rest = warning_lines(ls.drop_last());
        let l = trim(ls.last());
        if starts_with(l, "WARN:"@) {
            rest.push(trim(strip_all(l, "WARN:"@)))
        } else {
            rest
        }
    }
}

pub open spec fn has_overall_warn(ls: Seq<Seq<char>>) -> bool {
    exists|i: int| 0 <= i < ls.len() && eq_ic(trim(#[trigger] ls[i]), "Overall: WARN"@)
}

/// The warning text of an audit output: its `WARN:` lines joined, or a
/// generic note when only `Overall: WARN` is reported, or nothing.
pub open spec fn audit_warning(output: Seq<char>) -> Seq<char> {
    let ls = lines(output);
    let ws = warning_lines(ls);
    if ws.len() > 0 {
        join(ws, " | "@)
    } else if has_overall_warn(ls) {
        "audit completed with warnings"@
    } else {
        Seq::empty()
    }
}

pub(crate) fn strip_all_exec(s: &str, p: &str) -> (r: String)
    ensures
        r@ == strip_all(s@, p@),
    decreases s@.len(),
{
    if p.unicode_len() > 0 && starts_with_text(s, p) {
        let rest = skip_chars(s, p.unicode_len());
        strip_all_exec(rest.as_str(), p)
    } else {
        owned(s)
    }
}

/// The warning text of an audit output.
pub fn extract_audit_warning(output: &str) -> (r: String)
    ensures
        r@ == audit_warning(output@),
{
    let ls = split_lines(output);
    let mut warnings: Vec<String> = Vec::new();
    let mut overall = false;
    let mut i: usize = 0;
    while i < ls.len()
        invariant
            views(ls@) == lines(output@),
            i <= ls.len(),
            views(warnings@) == warning_lines(views(ls@).subrange(0, i as int)),
            overall == has_overall_warn(views(ls@).subrange(0, i as int)),
        decreases ls.len() - i,
    {
        let ghost pre = views(ls@).subrange(0, i as int);
        let ghost cur = views(ls@).subrange(0, i + 1);
        assert(cur.drop_last() =~= pre);
        assert(cur.last() == ls@[i as int]@);
        let line = trimmed(ls[i].as_str());
        if starts_with_text(line.as_str(), "WARN:") {
            let stripped = strip_all_exec(line.as_str(), "WARN:");
            let w = trimmed(stripped.as_str());
            let ghost before = views(warnings@);
            warnings.push(w);
            assert(views(warnings@) =~= before.push(w@));
        }
        if eq_ignore_case(line.as_str(), "Overall: WARN") {
            overall = true;
            assert(eq_ic(trim(cur[i as int]), "Overall: WARN"@));
        } else {
            assert forall|k: int| 0 <= k < cur.len() && eq_ic(trim(#[trigger] cur[k]), "Overall: WARN"@)
                implies 0 <= k < pre.len() && eq_ic(trim(pre[k]), "Overall: WARN"@) by {
                if k < i {
                    assert(cur[k] == pre[k]);
                }
            }
        }
        i = i + 1;
    }
    assert(views(ls@).subrange(0, ls.len() as int) =~= views(ls@));
    if warnings.len() > 0 {
        join_texts(&warnings, " | ")
    } else if overall {
        owned("audit completed with warnings")
    } else {
        String::new()
    }
}

/// How an audit run is reported.
#[derive(Debug, Clone)]
pub struct AuditClass {
    /// `PASS`, `WARN` or `FAIL`.
    pub status_label: String,
    /// `ready`, `warning` or `blocked`.
    pub state_label: String,
    /// `info`, `warning` or `error`.
    pub log_level: String,
    pub warning: String,
}

/// A failed exit blocks; a clean exit passes, or warns when the output
/// carries warnings.
pub fn classify_audit_result(exit_code: i32, output: &str) -> (r: AuditClass)
    ensures
        exit_code != 0 ==> r.status_label@ == "FAIL"@ && r.state_label@ == "blocked"@
            && r.log_level@ == "error"@ && r.warning@.len() == 0,
        exit_code == 0 && audit_warning(output@).len() == 0 ==> r.status_label@ == "PASS"@
            && r.state_label@ == "ready"@ && r.log_level@ == "info"@ && r.warning@.len() == 0,
        exit_code == 0 && audit_warning(output@).len() > 0 ==> r.status_label@ == "WARN"@
            && r.state_label@ == "warning"@ && r.log_level@ == "warning"@ && r.warning@
            == audit_warning(output@),
{
    if exit_code != 0 {
        return AuditClass {
            status_label: owned("FAIL"),
            state_label: owned("blocked"),
            log_level: owned("error"),
            warning: String::new(),
        };
    }
    let w = extract_audit_warning(output);
    if w.unicode_len() == 0 {
        AuditClass {
            status_label: owned("PASS"),
            state_label: owned("ready"),
            log_level: owned("info"),
            warning: String::new(),
        }
    } else {
        AuditClass {
            status_label: owned("WARN"),
            state_label: owned("warning"),
            log_level: owned("warning"),
            warning: w,
        }
    }
}

// ---------------------------------------------------------------------------
// Launch gates
// ---------------------------------------------------------------------------

pub open spec fn policy_exempt(t: Seq<char>) -> bool {
    eq_ic(t, "manual-activation"@) || starts_with(t, "scoped:"@) || starts_with(
        t,
        "contract-freeze owner:"@,
    )
}

pub open spec fn needs_attention(w: WorkerSnapshot) -> bool {
    let t = trim(w.pending_action@);
    t.len() > 0 && !policy_exempt(t) && !w.launch_blocked
}

/// A pending action that needs the operator: set, not a policy note
/// (manual activation, scoped, contract-freeze owner), and not a launch block.
pub fn pending_action_needs_attention(worker: &WorkerSnapshot) -> (r: bool)
    ensures
        r == needs_attention(*worker),
{
    let t = trimmed(worker.pending_action.as_str());
    t.unicode_len() > 0 && !(eq_ignore_case(t.as_str(), "manual-activation") || starts_with_text(
        t.as_str(),
        "scoped:",
    ) || starts_with_text(t.as_str(), "contract-freeze owner:")) && !worker.launch_blocked
}

pub open spec fn blocks_start(pending: Seq<char>) -> bool {
    let l = lower(trim(pending));
    contains(l, "awaiting dag approval"@) || contains(l, "awaiting plan approval"@) || contains(
        l,
        "waiting on peter"@,
    ) || starts_with(l, "frozen:"@)
}

/// A pending action that holds the worker from starting: awaiting DAG or
/// plan approval, waiting on the operator, or frozen.
pub fn pending_action_blocks_start(pending_action: &str) -> (r: bool)
    ensures
        r == blocks_start(pending_action@),
{
    let t = trimmed(pending_action);
    let l = to_lower(t.as_str());
    let s = l.as_str();
    contains_text(s, "awaiting dag approval") || contains_text(s, "awaiting plan approval")
        || contains_text(s, "waiting on peter") || starts_with_text(s, "frozen:")
}

// ---------------------------------------------------------------------------
// Activation
// ---------------------------------------------------------------------------

pub open spec fn titles(es: Seq<CoordinationEscalation>) -> Seq<Seq<char>> {
    es.map_values(|e: CoordinationEscalation| e.title@)
}

pub open spec fn launch_blocked_count(ws: Seq<WorkerSnapshot>) -> nat
    decreases ws.len(),
{
    if ws.len() == 0 {
        0
    } else {
        launch_blocked_count(ws.drop_last()) + if ws.last().launch_blocked {
            1nat
        } else {
            0nat
        }
    }
}

pub open spec fn any_needs_attention(ws: Seq<WorkerSnapshot>) -> bool {
    exists|i: int| 0 <= i < ws.len() && needs_attention(#[trigger] ws[i])
}

pub open spec fn any_dirty(ws: Seq<WorkerSnapshot>) -> bool {
    exists|i: int| 0 <= i < ws.len() && !(#[trigger] ws[i]).git_clean
}

pub open spec fn handoff_open(w: WorkerSnapshot) -> bool {
    w.handoff_status@ == "blocked"@ || w.handoff_status@ == "pending"@
}

pub open spec fn any_handoff_open(ws: Seq<WorkerSnapshot>) -> bool {
    exists|i: int| 0 <= i < ws.len() && handoff_open(#[trigger] ws[i])
}

pub open spec fn any_issues(ws: Seq<WorkerSnapshot>) -> bool {
    exists|i: int| 0 <= i < ws.len() && (#[trigger] ws[i]).issues@.len() > 0
}

/// The verdict from the workers and the last audit alone.
pub open spec fn fleet_activation(ws: Seq<WorkerSnapshot>, check: Seq<char>) -> (bool, Seq<char>) {
    if eq_ic(check, "blocked"@) {
        (true, "handoff audit failed"@)
    } else if launch_blocked_count(ws) > 0 && launch_blocked_count(ws) == ws.len() {
        (true, "all workers are blocked by coordination policy"@)
    } else if any_needs_attention(ws) {
        (true, "coordination follow-up required"@)
    } else if any_dirty(ws) {
        (true, "dirty worktree detected"@)
    } else if any_handoff_open(ws) {
        (true, "worker handoff still needs review"@)
    } else if any_issues(ws) {
        (true, "worker attention required"@)
    } else if eq_ic(check, "warning"@) {
        (false, "handoff audit warning only"@)
    } else {
        (false, "all monitored workers are clean and ready"@)
    }
}

/// Whether the operator is needed, and why: the coordination plan first
/// (unapproved, open escalations, reviews asking for rework or escalation),
/// then the audit and the workers.
pub open spec fn activation(
    ws: Seq<WorkerSnapshot>,
    check: Seq<char>,
    co: Option<CoordinationSnapshot>,
) -> (bool, Seq<char>) {
    match co {
        Some(c) => {
            let open = open_escalations_of(c.escalations@);
            if !c.approved {
                (true, "coordination DAG approval is still pending"@)
            } else if open.len() > 0 {
                (
                    true,
                    "open coordination escalations: "@ + join(
                        titles(open.take(if open.len() > 2 { 2 } else { open.len() as int })),
                        " | "@,
                    ) + if open.len() > 2 {
                        " ..."@
                    } else {
                        Seq::empty()
                    },
                )
            } else if latest_with(c.reviews@, "rework"@) > 0 || latest_with(c.reviews@, "escalate"@)
                > 0 {
                (true, "coordination review follow-up required"@)
            } else {
                fleet_activation(ws, check)
            }
        },
        None => fleet_activation(ws, check),
    }
}

fn count_launch_blocked(ws: &Vec<WorkerSnapshot>) -> (r: usize)
    ensures
        r == launch_blocked_count(ws@),
{
    let mut n: usize = 0;
    let mut i: usize = 0;
    while i < ws.len()
        invariant
            i <= ws.len(),
            n == launch_blocked_count(ws@.subrange(0, i as int)),
            n <= i,
        decreases ws.len() - i,
    {
        assert(ws@.subrange(0, i + 1).drop_last() =~= ws@.subrange(0, i as int));
        if ws[i].launch_blocked {
            n = n + 1;
        }
        i = i + 1;
    }
    assert(ws@.subrange(0, ws.len() as int) =~= ws@);
    n
}

fn find_attention(ws: &Vec<WorkerSnapshot>) -> (r: bool)
    ensures
        r == any_needs_attention(ws@),
{
    let mut i: usize = 0;
    while i < ws.len()
        invariant
            i <= ws.len(),
            forall|k: int| 0 <= k < i ==> !needs_attention(#[trigger] ws@[k]),
        decreases ws.len() - i,
    {
        if pending_action_needs_attention(&ws[i]) {
            return true;
        }
        i = i + 1;
    }
    false
}

fn find_dirty(ws: &Vec<WorkerSnapshot>) -> (r: bool)
    ensures
        r == any_dirty(ws@),
{
    let mut i: usize = 0;
    while i < ws.len()
        invariant
            i <= ws.len(),
            forall|k: int| 0 <= k < i ==> (#[trigger] ws@[k]).git_clean,
        decreases ws.len() - i,
    {
        if !ws[i].git_clean {
            return true;
        }
        i = i + 1;
    }
    false
}

fn find_handoff_open(ws: &Vec<WorkerSnapshot>) -> (r: bool)
    ensures
        r == any_handoff_open(ws@),
{
    let mut i: usize = 0;
    while i < ws.len()
        invariant
            i <= ws.len(),
            forall|k: int| 0 <= k < i ==> !handoff_open(#[trigger] ws@[k]),
        decreases ws.len() - i,
    {
        let h = ws[i].handoff_status.as_str();
        if crate::text::same(h, "blocked") || crate::text::same(h, "pending") {
            return true;
        }
        i = i + 1;
    }
    false
}

fn find_issues(ws: &Vec<WorkerSnapshot>) -> (r: bool)
    ensures
        r == any_issues(ws@),
{
    let mut i: usize = 0;
    while i < ws.len()
        invariant
            i <= ws.len(),
            forall|k: int| 0 <= k < i ==> (#[trigger] ws@[k]).issues@.len() == 0,
        decreases ws.len() - i,
    {
        if ws[i].issues.len() > 0 {
            return true;
        }
        i = i + 1;
    }
    false
}

fn fleet_activation_exec(workers: &Vec<WorkerSnapshot>, last_check_status: &str) -> (r: (bool, String))
    ensures
        (r.0, r.1@) == fleet_activation(workers@, last_check_status@),
{
    if eq_ignore_case(last_check_status, "blocked") {
        return (true, owned("handoff audit failed"));
    }
    let blocked = count_launch_blocked(workers);
    if blocked > 0 && blocked == workers.len() {
        return (true, owned("all workers are blocked by coordination policy"));
    }
    if find_attention(workers) {
        return (true, owned("coordination follow-up required"));
    }
    if find_dirty(workers) {
        return (true, owned("dirty worktree detected"));
    }
    if find_handoff_open(workers) {
        return (true, owned("worker handoff still needs review"));
    }
    if find_issues(workers) {
        return (true, owned("worker attention required"));
    }
    if eq_ignore_case(last_check_status, "warning") {
        return (false, owned("handoff audit warning only"));
    }
    (false, owned("all monitored workers are clean and ready"))
}

/// Whether the operator is needed, and why.
pub fn determine_activation(
    workers: &Vec<WorkerSnapshot>,
    last_check_status: &str,
    coordination: Option<&CoordinationSnapshot>,
) -> (r: (bool, String))
    ensures
        (r.0, r.1@) == activation(
            workers@,
            last_check_status@,
            match coordination {
                Some(c) => Some(*c),
                None => None,
            },
        ),
{
    if let Some(c) = coordination {
        if !c.approved {
            return (true, owned("coordination DAG approval is still pending"));
        }
        let open = c.open_escalations();
        let ghost oe = open_escalations_of(c.escalations@);
        assert(open@.len() == oe.len());
        if open.len() > 0 {
            let take = if open.len() > 2 {
                2
            } else {
                open.len()
            };
            let mut ts: Vec<String> = Vec::new();
            let mut i: usize = 0;
            while i < take
                invariant
                    take <= open@.len(),
                    open@.map_values(|e: &CoordinationEscalation| *e) == oe,
                    i <= take,
                    views(ts@) == titles(oe.take(i as int)),
                decreases take - i,
            {
                let t = open[i].title.clone();
                assert(open@.map_values(|e: &CoordinationEscalation| *e)[i as int] == *open@[i as int]);
                let ghost before = views(ts@);
                assert(t@ == oe[i as int].title@);
                ts.push(t);
                assert(oe.take(i + 1) =~= oe.take(i as int).push(oe[i as int]));
                assert(views(ts@) =~= before.push(t@));
                assert(titles(oe.take(i + 1)) =~= titles(oe.take(i as int)).push(oe[i as int].title@));
                i = i + 1;
            }
            let joined = join_texts(&ts, " | ");
            let head = cat("open coordination escalations: ", joined.as_str());
            let message = if open.len() > 2 {
                cat(head.as_str(), " ...")
            } else {
                assert(head@ =~= head@ + Seq::<char>::empty());
                head
            };
            return (true, message);
        }
        let (_approved, rework, escalated) = c.latest_review_counts();
        if rework > 0 || escalated > 0 {
            return (true, owned("coordination review follow-up required"));
        }
    }
    fleet_activation_exec(workers, last_check_status)
}

// ---------------------------------------------------------------------------
// Remote control
// ---------------------------------------------------------------------------

pub open spec fn command_head(s: Seq<char>) -> Seq<char> {
    first_word(lower(s))
}

pub open spec fn supports(supported: Seq<String>, command: Seq<char>) -> bool {
    let normalized = lower(trim(command));
    normalized.len() == 0 || exists|i: int|
        0 <= i < supported.len() && command_head(trim((#[trigger] supported[i])@)) == first_word(
            normalized,
        )
}

/// Whether a live session lists the command (by its first word, ignoring
/// case); an empty command is always accepted.
pub fn control_supports_command(supported: &Vec<String>, command: &str) -> (r: bool)
    ensures
        r == supports(supported@, command@),
{
    let t = trimmed(command);
    let normalized = to_lower(t.as_str());
    if normalized.unicode_len() == 0 {
        return true;
    }
    let requested = first_word_of(normalized.as_str());
    let mut i: usize = 0;
    while i < supported.len()
        invariant
            i <= supported.len(),
            requested@ == first_word(lower(trim(command@))),
            forall|k: int|
                0 <= k < i ==> command_head(trim((#[trigger] supported@[k])@)) != requested@,
        decreases supported.len() - i,
    {
        let e = trimmed(supported[i].as_str());
        let el = to_lower(e.as_str());
        let head = first_word_of(el.as_str());
        if crate::text::same(head.as_str(), requested.as_str()) {
            return true;
        }
        i = i + 1;
    }
    false
}

pub open spec fn gate_matches(gates: Seq<String>, command: Seq<char>) -> bool {
    words(command).len() > 0 && exists|i: int|
        0 <= i < gates.len() && eq_ic(trim((#[trigger] gates[i])@), first_word(command))
}

/// Whether the command's first word is one of the gated commands.
pub fn command_matches_gate(gates: &Vec<String>, command: &str) -> (r: bool)
    ensures
        r == gate_matches(gates@, command@),
{
    let ws = crate::text::split_words(command);
    if ws.len() == 0 {
        assert(views(ws@).len() == 0);
        return false;
    }
    let head = &ws[0];
    assert(views(ws@)[0] == head@);
    assert(words(command@).len() > 0);
    let mut i: usize = 0;
    while i < gates.len()
        invariant
            i <= gates.len(),
            head@ == first_word(command@),
            words(command@).len() > 0,
            forall|k: int| 0 <= k < i ==> !eq_ic(trim((#[trigger] gates@[k])@), first_word(command@)),
        decreases gates.len() - i,
    {
        let g = trimmed(gates[i].as_str());
        if eq_ignore_case(g.as_str(), head.as_str()) {
            assert(eq_ic(trim(gates@[i as int]@), first_word(command@)));
            return true;
        }
        i = i + 1;
    }
    false
}

/// How long a heartbeat stays fresh, in milliseconds.
pub const CONTROL_STALE_MILLIS: u64 = 8000;

/// A heartbeat belongs to a live session: the session says it is running
/// and the heartbeat is at most eight seconds old at `now_ms`.
pub open spec fn live_control(running: bool, heartbeat_ms: u64, now_ms: u64) -> bool {
    running && now_ms - heartbeat_ms <= 8000
}

pub fn control_is_live(running: bool, heartbeat_ms: u64, now_ms: u64) -> (r: bool)
    ensures
        r == live_control(running, heartbeat_ms, now_ms),
{
    if !running {
        return false;
    }
    if now_ms > heartbeat_ms && now_ms - heartbeat_ms > CONTROL_STALE_MILLIS {
        return false;
    }
    true
}

// ---------------------------------------------------------------------------
// Laws of the audit and activation judgements
// ---------------------------------------------------------------------------

proof fn lemma_no_warn_prefix_no_warnings(ls: Seq<Seq<char>>)
    requires
        forall|i: int| 0 <= i < ls.len() ==> !starts_with(trim(#[trigger] ls[i]), "WARN:"@),
    ensures
        warning_lines(ls).len() == 0,
    decreases ls.len(),
{
    if ls.len() > 0 {
        assert(!starts_with(trim(ls[ls.len() - 1]), "WARN:"@));
        lemma_no_warn_prefix_no_warnings(ls.drop_last());
    }
}

/// An audit whose output has no `WARN:` line but reports `Overall: WARN`
/// (on a line of its own, ignoring case and surrounding blanks) still warns:
/// its warning is the note "audit completed with warnings", never empty,
/// so a clean exit is judged WARN rather than PASS.
pub proof fn lemma_overall_warn_is_a_warning(output: Seq<char>)
    requires
        forall|i: int|
            0 <= i < lines(output).len() ==> !starts_with(trim(#[trigger] lines(output)[i]), "WARN:"@),
        exists|i: int|
            0 <= i < lines(output).len() && eq_ic(trim(#[trigger] lines(output)[i]), "Overall: WARN"@),
    ensures
        audit_warning(output) == "audit completed with warnings"@,
        audit_warning(output).len() > 0,
{
    reveal_strlit("audit completed with warnings");
    lemma_no_warn_prefix_no_warnings(lines(output));
}

proof fn lemma_no_open_escalations(es: Seq<CoordinationEscalation>)
    requires
        forall|i: int| 0 <= i < es.len() ==> !eq_ic((#[trigger] es[i]).status@, "open"@),
    ensures
        open_escalations_of(es).len() == 0,
    decreases es.len(),
{
    if es.len() > 0 {
        assert(!eq_ic(es[es.len() - 1].status@, "open"@));
        lemma_no_open_escalations(es.drop_last());
    }
}

/// A failed handoff audit (last check `blocked`, ignoring case) always
/// calls the operator, with the reason "handoff audit failed", whatever the
/// workers report, unless the coordination plan itself needs the operator
/// first (not approved, an open escalation, or a latest review asking for
/// rework or escalation).
pub proof fn lemma_failed_audit_activates(
    ws: Seq<WorkerSnapshot>,
    check: Seq<char>,
    co: Option<CoordinationSnapshot>,
)
    requires
        eq_ic(check, "blocked"@),
        co matches Some(c) ==> {
            &&& c.approved
            &&& forall|i: int|
                0 <= i < c.escalations@.len() ==> !eq_ic((#[trigger] c.escalations@[i]).status@, "open"@)
            &&& latest_with(c.reviews@, "rework"@) == 0
            &&& latest_with(c.reviews@, "escalate"@) == 0
        },
    ensures
        activation(ws, check, co) == (true, "handoff audit failed"@),
{
    if let Some(c) = co {
        lemma_no_open_escalations(c.escalations@);
    }
}

/// When the operator is not needed, the last audit did not fail.
pub proof fn lemma_quiet_fleet_passed_its_audit(
    ws: Seq<WorkerSnapshot>,
    check: Seq<char>,
    co: Option<CoordinationSnapshot>,
)
    ensures
        !activation(ws, check, co).0 ==> !eq_ic(check, "blocked"@),
{
}

} // verus!
