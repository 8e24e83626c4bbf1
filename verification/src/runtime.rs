//! The runtime records that the supervisor writes and every panel reads:
//! activity entries, worker and status snapshots, control heartbeats,
//! coordination state, and the runtime directory layout.
use vstd::prelude::*;

use crate::paths::{join_path, joined_path};
use crate::text::{
    bool_str, bool_text, cat, dec, dec_i64, dec_int, dec_u64, eq_ic, eq_ignore_case, is_blank, join,
    join_texts, lemma_no_nl_concat, lemma_no_nl_dec, lemma_no_nl_trim, lemma_split_join_concat,
    lemma_split_join_lines, lower, no_nl, owned, same, split_nl, trim, trimmed, views,
};

use crate::tables::{keyed_table, sorted_keys, table_keys, unique_keys};

verus! {

/// One line of the activity feed.
#[derive(Debug, Clone, Default)]
pub struct ActivityEntry {
    pub seq: u64,
    pub repeat_count: u64,
    pub timestamp: String,
    pub source: String,
    pub level: String,
    pub channel: String,
    pub worker_name: String,
    pub message: String,
    pub dense_message: String,
    pub full_message: String,
    pub tags: Vec<String>,
}

/// How much of each activity message the feed shows.
#[derive(Debug, Clone, Copy, Default, PartialEq, Eq, Structural)]
pub enum FeedDensity {
    #[default]
    Standard,
    Realtime,
}

/// Which activity a feed follows.
#[derive(Debug, Clone, Default)]
pub enum StreamScope {
    #[default]
    All,
    Selected,
    Commander,
    Worker(String),
}

impl PartialEq for StreamScope {
    fn eq(&self, other: &Self) -> (r: bool) {
        match (self, other) {
            (StreamScope::All, StreamScope::All) => true,
            (StreamScope::Selected, StreamScope::Selected) => true,
            (StreamScope::Commander, StreamScope::Commander) => true,
            (StreamScope::Worker(a), StreamScope::Worker(b)) => same(a.as_str(), b.as_str()),
            _ => false,
        }
    }
}

impl vstd::std_specs::cmp::PartialEqSpecImpl for StreamScope {
    open spec fn obeys_eq_spec() -> bool {
        true
    }

    open spec fn eq_spec(&self, other: &Self) -> bool {
        scope_view(*self) == scope_view(*other)
    }
}

/// A scope as plain values: its variant and the worker name it names.
pub open spec fn scope_view(s: StreamScope) -> (int, Seq<char>) {
    match s {
        StreamScope::All => (0, Seq::empty()),
        StreamScope::Selected => (1, Seq::empty()),
        StreamScope::Commander => (2, Seq::empty()),
        StreamScope::Worker(name) => (3, name@),
    }
}

/// The state of one worker as the status file shows it.
#[derive(Debug, Clone, Default)]
pub struct WorkerSnapshot {
    pub name: String,
    pub worktree_path: String,
    pub branch: String,
    pub expected_branch: String,
    pub model_name: String,
    pub reasoning_effort: String,
    pub status: String,
    pub git_clean: bool,
    pub handoff_status: String,
    pub last_exit_code: Option<i32>,
    pub last_started_at: Option<String>,
    pub last_finished_at: Option<String>,
    pub last_summary: String,
    pub last_error: String,
    pub current_activity: String,
    pub pending_action: String,
    pub launch_blocked: bool,
    pub execution_scope: String,
    pub issues: Vec<String>,
}

/// The whole status file.
#[derive(Debug, Clone, Default)]
pub struct StatusSnapshot {
    pub updated_at: String,
    pub repo_root: String,
    pub framework_version: String,
    pub project_name: String,
    pub phase: String,
    pub activation_required: bool,
    pub activation_reason: String,
    pub agent_room_healthy: bool,
    pub last_handoff_check: String,
    pub last_check_status: String,
    pub last_check_warning: String,
    pub workers: Vec<WorkerSnapshot>,
    pub recent_activity: Vec<ActivityEntry>,
}

/// The heartbeat a live session writes for remote callers; the heartbeat
/// time is kept in whole milliseconds since the Unix epoch.
#[derive(Debug, Clone, Default)]
pub struct ControlSnapshot {
    pub session_id: String,
    pub pid: u32,
    pub started_at: String,
    pub updated_at: String,
    pub heartbeat_epoch_ms: u64,
    pub repo_root: String,
    pub runtime_dir: String,
    pub status_file: String,
    pub brief_file: String,
    pub patrol_file: String,
    pub remote_inbox_dir: String,
    pub remote_ack_dir: String,
    pub running: bool,
    pub supported_commands: Vec<String>,
    pub current_phase: String,
    pub activation_required: bool,
    pub selected_worker: String,
    pub focused_panel: String,
    pub stream_scope: StreamScope,
    pub density_mode: FeedDensity,
    pub follow_tail: bool,
    pub help_visible: bool,
}

#[derive(Debug, Clone, Default)]
pub struct PatrolStatus {
    pub updated_at: String,
    pub phase: String,
    pub enabled: bool,
    pub last_run_at: Option<String>,
    pub last_result: String,
    pub last_error: String,
    pub last_warning: String,
    pub activation_required: bool,
    pub summary: String,
}

#[derive(Debug, Clone, Default)]
pub struct RemoteCommand {
    pub id: String,
    pub command: String,
    pub source: String,
    pub created_at: String,
    pub session_id: Option<String>,
}

#[derive(Debug, Clone, Default)]
pub struct RemoteAck {
    pub ok: bool,
    pub command: String,
    pub source: String,
    pub processed_at: String,
    pub error: String,
}

/// The per-worker state file.
#[derive(Debug, Clone, Default)]
pub struct WorkerThreadState {
    pub worker_name: String,
    pub phase: String,
    pub status: String,
    pub pid: Option<u32>,
    pub last_started_at: Option<String>,
    pub last_finished_at: Option<String>,
    pub last_exit_code: Option<i32>,
    pub last_summary: String,
    pub last_error: String,
    pub current_activity: String,
    pub pending_action: String,
    pub launch_blocked: bool,
    pub execution_scope: String,
}

#[derive(Debug, Clone, Default)]
pub struct CoordinationWorkerSnapshot {
    pub name: String,
    pub branch: String,
    pub worktree_path: String,
    pub goal: String,
    pub dependencies: Vec<String>,
    pub deliverables: Vec<String>,
    pub validation: Vec<String>,
    pub review_focus: Vec<String>,
    pub open_questions: Vec<String>,
    pub blocked_topics: Vec<String>,
    pub status: String,
    pub pending_action: String,
    pub frozen: bool,
    pub launch_blocked: bool,
    pub execution_scope: String,
    pub parallel_stage: usize,
    pub packet_path: String,
    pub worktree_packet_path: String,
    pub last_disposition: String,
    pub last_review_at: Option<String>,
}

#[derive(Debug, Clone, Default)]
pub struct CoordinationEscalation {
    pub id: String,
    pub title: String,
    pub scope: String,
    pub workers: Vec<String>,
    pub freeze_workers: Vec<String>,
    pub reason: String,
    pub question: String,
    pub status: String,
}

#[derive(Debug, Clone, Default)]
pub struct CoordinationReviewSnapshot {
    pub worker_name: String,
    pub reviewed_at: String,
    pub reviewer_mode: String,
    pub disposition: String,
    pub summary: String,
    pub rationale: Vec<String>,
    pub required_actions: Vec<String>,
    pub validation_gaps: Vec<String>,
    pub confidence: String,
    pub pending_action: String,
    pub freeze_workers: Vec<String>,
}

#[derive(Debug, Clone, Default)]
pub struct CoordinationMetrics {
    pub workers_total: usize,
    pub reviewed_total: usize,
    pub approved_total: usize,
    pub rework_total: usize,
    pub escalated_total: usize,
    pub open_escalations: usize,
    pub average_cycle_minutes: String,
    pub recommendations: Vec<String>,
}

/// The coordination state file. `workers` and `reviews` are keyed tables in
/// key order, as the file's maps list them.
#[derive(Debug, Clone, Default)]
pub struct CoordinationSnapshot {
    pub project_name: String,
    pub phase: String,
    pub generated_at: String,
    pub updated_at: String,
    pub plan_id: String,
    pub approved: bool,
    pub approved_at: Option<String>,
    pub planner_mode: String,
    pub project_summary: String,
    pub approvals_needed: Vec<String>,
    pub notes: Vec<String>,
    pub parallel_sets: Vec<Vec<String>>,
    pub recommended_start: Vec<String>,
    pub workers: Vec<(String, CoordinationWorkerSnapshot)>,
    pub escalations: Vec<CoordinationEscalation>,
    pub reviews: Vec<(String, Vec<CoordinationReviewSnapshot>)>,
    pub metrics: Option<CoordinationMetrics>,
}

// ---------------------------------------------------------------------------
// Coordination summaries
// ---------------------------------------------------------------------------

pub open spec fn escalation_open(e: CoordinationEscalation) -> bool {
    eq_ic(e.status@, "open"@)
}

/// The open escalations, in order.
pub open spec fn open_escalations_of(s: Seq<CoordinationEscalation>) -> Seq<CoordinationEscalation>
    decreases s.len(),
{
    if s.len() == 0 {
        Seq::empty()
    } else if escalation_open(s.last()) {
        open_escalations_of(s.drop_last()).push(s.last())
    } else {
        open_escalations_of(s.drop_last())
    }
}

/// Index of the first table entry with the given key, or `None`.
pub open spec fn key_index<V>(table: Seq<(String, V)>, key: Seq<char>) -> Option<int>
    decreases table.len(),
{
    if table.len() == 0 {
        None
    } else {
        match key_index(table.drop_last(), key) {
            Some(i) => Some(i),
            None => if table.last().0@ == key {
                Some(table.len() - 1)
            } else {
                None
            },
        }
    }
}

/// The latest review of one worker: the last review listed under its key.
pub open spec fn latest_review_of(
    reviews: Seq<(String, Vec<CoordinationReviewSnapshot>)>,
    name: Seq<char>,
) -> Option<CoordinationReviewSnapshot> {
    match key_index(reviews, name) {
        Some(i) => if reviews[i].1@.len() > 0 {
            Some(reviews[i].1@.last())
        } else {
            None
        },
        None => None,
    }
}

/// How many review lists end in a review with the given disposition.
pub open spec fn latest_with(
    reviews: Seq<(String, Vec<CoordinationReviewSnapshot>)>,
    disposition: Seq<char>,
) -> nat
    decreases reviews.len(),
{
    if reviews.len() == 0 {
        0
    } else {
        let rest = latest_with(reviews.drop_last(), disposition);
        let list = reviews.last().1@;
        if list.len() > 0 && eq_ic(list.last().disposition@, disposition) {
            rest + 1
        } else {
            rest
        }
    }
}

pub open spec fn blocked_count(workers: Seq<(String, CoordinationWorkerSnapshot)>) -> nat
    decreases workers.len(),
{
    if workers.len() == 0 {
        0
    } else {
        blocked_count(workers.drop_last()) + if workers.last().1.launch_blocked {
            1nat
        } else {
            0nat
        }
    }
}

/// Each count is at most the number of table entries.
pub proof fn lemma_latest_with_bound(
    reviews: Seq<(String, Vec<CoordinationReviewSnapshot>)>,
    disposition: Seq<char>,
)
    ensures
        latest_with(reviews, disposition) <= reviews.len(),
    decreases reviews.len(),
{
    if reviews.len() > 0 {
        lemma_latest_with_bound(reviews.drop_last(), disposition);
    }
}

/// The blocked count is at most the number of workers.
pub proof fn lemma_blocked_bound(workers: Seq<(String, CoordinationWorkerSnapshot)>)
    ensures
        blocked_count(workers) <= workers.len(),
    decreases workers.len(),
{
    if workers.len() > 0 {
        lemma_blocked_bound(workers.drop_last());
    }
}

impl CoordinationSnapshot {
    /// The worker and review tables are in name order, each name once.
    pub open spec fn well_formed(&self) -> bool {
        &&& sorted_keys(self.workers@) && unique_keys(self.workers@)
        &&& sorted_keys(self.reviews@) && unique_keys(self.reviews@)
    }

    /// The same plan with its worker and review tables in name order, each
    /// name once: a later entry under a name seen before replaces that entry;
    /// tables already in order are kept as they are.
    pub fn keyed(self) -> (r: Self)
        ensures
            r.well_formed(),
            sorted_keys(self.workers@) ==> r.workers@ == self.workers@,
            sorted_keys(self.reviews@) ==> r.reviews@ == self.reviews@,
            forall|k: Seq<char>|
                table_keys(r.workers@).contains(k) <==> table_keys(self.workers@).contains(k),
            forall|k: Seq<char>|
                table_keys(r.reviews@).contains(k) <==> table_keys(self.reviews@).contains(k),
            r == (CoordinationSnapshot { workers: r.workers, reviews: r.reviews, ..self }),
    {
        let CoordinationSnapshot {
            project_name,
            phase,
            generated_at,
            updated_at,
            plan_id,
            approved,
            approved_at,
            planner_mode,
            project_summary,
            approvals_needed,
            notes,
            parallel_sets,
            recommended_start,
            workers,
            escalations,
            reviews,
            metrics,
        } = self;
        CoordinationSnapshot {
            project_name,
            phase,
            generated_at,
            updated_at,
            plan_id,
            approved,
            approved_at,
            planner_mode,
            project_summary,
            approvals_needed,
            notes,
            parallel_sets,
            recommended_start,
            workers: keyed_table(workers),
            escalations,
            reviews: keyed_table(reviews),
            metrics,
        }
    }

    /// The escalations whose status is `open`, in order.
    pub fn open_escalations(&self) -> (r: Vec<&CoordinationEscalation>)
        ensures
            r@.map_values(|e: &CoordinationEscalation| *e) == open_escalations_of(self.escalations@),
    {
        let mut r: Vec<&CoordinationEscalation> = Vec::new();
        let mut i: usize = 0;
        while i < self.escalations.len()
            invariant
                i <= self.escalations.len(),
                r@.map_values(|e: &CoordinationEscalation| *e) == open_escalations_of(
                    self.escalations@.subrange(0, i as int),
                ),
            decreases self.escalations.len() - i,
        {
            let ghost pre = self.escalations@.subrange(0, i as int);
            let ghost cur = self.escalations@.subrange(0, i + 1);
            assert(cur.drop_last() =~= pre);
            assert(cur.last() == self.escalations@[i as int]);
            assert(open_escalations_of(cur) == if escalation_open(cur.last()) {
                open_escalations_of(pre).push(cur.last())
            } else {
                open_escalations_of(pre)
            });
            let item = &self.escalations[i];
            let ghost before = r@.map_values(|e: &CoordinationEscalation| *e);
            if eq_ignore_case(item.status.as_str(), "open") {
                r.push(item);
                assert(r@.map_values(|e: &CoordinationEscalation| *e) =~= before.push(*item));
            }
            i = i + 1;
        }
        assert(self.escalations@.subrange(0, self.escalations.len() as int) =~= self.escalations@);
        r
    }

    /// The last review listed for the worker, if any.
    pub fn latest_review(&self, worker_name: &str) -> (r: Option<&CoordinationReviewSnapshot>)
        ensures
            r matches Some(x) ==> latest_review_of(self.reviews@, worker_name@) == Some(*x),
            r is None ==> latest_review_of(self.reviews@, worker_name@) is None,
    {
        match table_find(&self.reviews, worker_name) {
            Some(i) => {
                let list = &self.reviews[i].1;
                if list.len() > 0 {
                    Some(&list[list.len() - 1])
                } else {
                    None
                }
            },
            None => None,
        }
    }

    /// How many workers' latest reviews approve, ask for rework, escalate.
    pub fn latest_review_counts(&self) -> (r: (usize, usize, usize))
        ensures
            r.0 == latest_with(self.reviews@, "approve"@),
            r.1 == latest_with(self.reviews@, "rework"@),
            r.2 == latest_with(self.reviews@, "escalate"@),
    {
        let mut approved: usize = 0;
        let mut rework: usize = 0;
        let mut escalated: usize = 0;
        let mut i: usize = 0;
        while i < self.reviews.len()
            invariant
                i <= self.reviews.len(),
                approved == latest_with(self.reviews@.subrange(0, i as int), "approve"@),
                rework == latest_with(self.reviews@.subrange(0, i as int), "rework"@),
                escalated == latest_with(self.reviews@.subrange(0, i as int), "escalate"@),
            decreases self.reviews.len() - i,
        {
            let ghost pre = self.reviews@.subrange(0, i as int);
            assert(self.reviews@.subrange(0, i + 1).drop_last() =~= pre);
            proof {
                lemma_latest_with_bound(pre, "approve"@);
                lemma_latest_with_bound(pre, "rework"@);
                lemma_latest_with_bound(pre, "escalate"@);
            }
            let list = &self.reviews[i].1;
            if list.len() > 0 {
                let d = list[list.len() - 1].disposition.as_str();
                if eq_ignore_case(d, "approve") {
                    approved = approved + 1;
                } else if eq_ignore_case(d, "rework") {
                    rework = rework + 1;
                } else if eq_ignore_case(d, "escalate") {
                    escalated = escalated + 1;
                }
                proof {
                    reveal_strlit("approve");
                    reveal_strlit("rework");
                    reveal_strlit("escalate");
                    let a = lower("approve"@);
                    let b = lower("rework"@);
                    let c = lower("escalate"@);
                    assert(a.len() == 7 && b.len() == 6 && c.len() == 8);
                    assert(a[0] != c[0]);
                }
            }
            i = i + 1;
        }
        assert(self.reviews@.subrange(0, self.reviews.len() as int) =~= self.reviews@);
        (approved, rework, escalated)
    }

    /// How many coordination workers are held from launching.
    pub fn blocked_worker_count(&self) -> (r: usize)
        ensures
            r == blocked_count(self.workers@),
    {
        let mut n: usize = 0;
        let mut i: usize = 0;
        while i < self.workers.len()
            invariant
                i <= self.workers.len(),
                n == blocked_count(self.workers@.subrange(0, i as int)),
            decreases self.workers.len() - i,
        {
            let ghost pre = self.workers@.subrange(0, i as int);
            assert(self.workers@.subrange(0, i + 1).drop_last() =~= pre);
            proof {
                lemma_blocked_bound(pre);
            }
            if self.workers[i].1.launch_blocked {
                n = n + 1;
            }
            i = i + 1;
        }
        assert(self.workers@.subrange(0, self.workers.len() as int) =~= self.workers@);
        n
    }
}

/// Index of the first entry with the given key.
pub fn table_find<V>(table: &Vec<(String, V)>, key: &str) -> (r: Option<usize>)
    ensures
        r matches Some(i) ==> key_index(table@, key@) == Some(i as int) && i < table@.len(),
        r is None ==> key_index(table@, key@) is None,
{
    let mut i: usize = 0;
    while i < table.len()
        invariant
            i <= table.len(),
            key_index(table@.subrange(0, i as int), key@) is None,
        decreases table.len() - i,
    {
        let ghost pre = table@.subrange(0, i as int);
        assert(table@.subrange(0, i + 1).drop_last() =~= pre);
        if same(table[i].0.as_str(), key) {
            proof {
                lemma_key_index_prefix(table@, key@, i as int + 1);
            }
            return Some(i);
        }
        i = i + 1;
    }
    assert(table@.subrange(0, table.len() as int) =~= table@);
    None
}

/// A key found in a prefix of a table is found at the same place in the table.
pub proof fn lemma_key_index_prefix<V>(table: Seq<(String, V)>, key: Seq<char>, n: int)
    requires
        0 <= n <= table.len(),
        key_index(table.subrange(0, n), key) is Some,
    ensures
        key_index(table, key) == key_index(table.subrange(0, n), key),
    decreases table.len() - n,
{
    if n < table.len() {
        assert(table.subrange(0, n + 1).drop_last() =~= table.subrange(0, n));
        lemma_key_index_prefix(table, key, n + 1);
    } else {
        assert(table.subrange(0, n) =~= table);
    }
}

// ---------------------------------------------------------------------------
// Runtime directory layout
// ---------------------------------------------------------------------------

/// Where the runtime files of one project live.
#[derive(Debug, Clone)]
pub struct RuntimeLayout {
    pub root: String,
    pub status_file: String,
    pub brief_file: String,
    pub patrol_file: String,
    pub event_stream_file: String,
    pub remote_dir: String,
    pub remote_inbox_dir: String,
    pub remote_ack_dir: String,
    pub remote_control_file: String,
    pub remote_instance_file: String,
    pub threads_dir: String,
    pub coordination_dir: String,
    pub coordination_state_file: String,
    pub coordination_events_file: String,
}

impl RuntimeLayout {
    /// The layout under a runtime root.
    pub fn new(root: &str) -> (r: Self)
        ensures
            r.root@ == root@,
            r.status_file@ == joined_path(root@, "status.json"@),
            r.brief_file@ == joined_path(root@, "assistant-brief.md"@),
            r.patrol_file@ == joined_path(root@, "patrol-status.json"@),
            r.event_stream_file@ == joined_path(root@, "event-stream.jsonl"@),
            r.remote_dir@ == joined_path(root@, "remote"@),
            r.remote_inbox_dir@ == joined_path(r.remote_dir@, "inbox"@),
            r.remote_ack_dir@ == joined_path(r.remote_dir@, "acks"@),
            r.remote_control_file@ == joined_path(r.remote_dir@, "control.json"@),
            r.remote_instance_file@ == joined_path(r.remote_dir@, "instance.json"@),
            r.threads_dir@ == joined_path(root@, "threads"@),
            r.coordination_dir@ == joined_path(root@, "coordination"@),
            r.coordination_state_file@ == joined_path(r.coordination_dir@, "state.json"@),
            r.coordination_events_file@ == joined_path(r.coordination_dir@, "events.jsonl"@),
    {
        let remote_dir = join_path(root, "remote");
        let threads_dir = join_path(root, "threads");
        let coordination_dir = join_path(root, "coordination");
        RuntimeLayout {
            root: owned(root),
            status_file: join_path(root, "status.json"),
            brief_file: join_path(root, "assistant-brief.md"),
            patrol_file: join_path(root, "patrol-status.json"),
            event_stream_file: join_path(root, "event-stream.jsonl"),
            remote_inbox_dir: join_path(remote_dir.as_str(), "inbox"),
            remote_ack_dir: join_path(remote_dir.as_str(), "acks"),
            remote_control_file: join_path(remote_dir.as_str(), "control.json"),
            remote_instance_file: join_path(remote_dir.as_str(), "instance.json"),
            coordination_state_file: join_path(coordination_dir.as_str(), "state.json"),
            coordination_events_file: join_path(coordination_dir.as_str(), "events.jsonl"),
            remote_dir,
            threads_dir,
            coordination_dir,
        }
    }

    /// The state directory of one worker.
    pub fn worker_thread_dir(&self, worker_name: &str) -> (r: String)
        ensures
            r@ == joined_path(self.threads_dir@, worker_name@),
    {
        join_path(self.threads_dir.as_str(), worker_name)
    }

    /// The state file of one worker.
    pub fn worker_thread_state_file(&self, worker_name: &str) -> (r: String)
        ensures
            r@ == joined_path(joined_path(self.threads_dir@, worker_name@), "state.json"@),
    {
        let dir = self.worker_thread_dir(worker_name);
        join_path(dir.as_str(), "state.json")
    }
}


// ---------------------------------------------------------------------------
// Assistant brief
// ---------------------------------------------------------------------------

/// A trimmed text, or `none` when it is blank.
pub open spec fn fallback(v: Seq<char>) -> Seq<char> {
    if trim(v).len() == 0 {
        "none"@
    } else {
        trim(v)
    }
}

pub open spec fn optional_text(v: Option<i32>) -> Seq<char> {
    match v {
        Some(x) => dec_int(x as int),
        None => "none"@,
    }
}

/// The trimmed text, or `none` when it is blank.
pub fn fallback_text(value: &str) -> (r: String)
    ensures
        r@ == fallback(value@),
{
    let t = trimmed(value);
    if t.unicode_len() == 0 {
        owned("none")
    } else {
        t
    }
}

/// An exit code in decimal, or `none`.
pub fn optional_i32(value: Option<i32>) -> (r: String)
    ensures
        r@ == optional_text(value),
{
    match value {
        Some(x) => dec_i64(x as i64),
        None => owned("none"),
    }
}

pub open spec fn brief_header(st: StatusSnapshot) -> Seq<Seq<char>> {
    seq![
        "# Assistant Brief"@,
        Seq::empty(),
        "- Updated: "@ + st.updated_at@,
        "- Project: "@ + st.project_name@,
        "- Repo: "@ + st.repo_root@,
        "- Framework: "@ + st.framework_version@,
        "- Phase: "@ + st.phase@,
        "- Activation: "@ + if st.activation_required {
            "required ("@ + st.activation_reason@ + ")"@
        } else {
            "not needed"@
        },
        "- Handoff audit: "@ + fallback(st.last_check_status@),
        if trim(st.last_check_warning@).len() == 0 {
            "- Audit warning: none"@
        } else {
            "- Audit warning: "@ + fallback(st.last_check_warning@)
        },
        Seq::empty(),
    ]
}

pub open spec fn brief_coordination(c: CoordinationSnapshot) -> Seq<Seq<char>> {
    seq![
        "## Coordination"@,
        Seq::empty(),
        "- Plan ID: "@ + fallback(c.plan_id@),
        "- Approved: "@ + bool_text(c.approved),
        "- Planner mode: "@ + fallback(c.planner_mode@),
        "- Open escalations: "@ + dec(open_escalations_of(c.escalations@).len()),
        "- Launch blocked workers: "@ + dec(blocked_count(c.workers@)),
        "- Latest reviews: approve "@ + dec(latest_with(c.reviews@, "approve"@)) + " | rework "@
            + dec(latest_with(c.reviews@, "rework"@)) + " | escalate "@ + dec(
            latest_with(c.reviews@, "escalate"@),
        ),
        Seq::empty(),
    ]
}

pub open spec fn brief_worker(w: WorkerSnapshot) -> Seq<Seq<char>> {
    seq![
        "### "@ + w.name@,
        "- worktree: "@ + w.worktree_path@,
        "- branch: "@ + w.branch@ + " (expected "@ + w.expected_branch@ + ")"@,
        "- status: "@ + w.status@,
        "- git clean: "@ + bool_text(w.git_clean),
        "- handoff: "@ + w.handoff_status@,
        "- pending action: "@ + fallback(w.pending_action@),
        "- launch blocked: "@ + bool_text(w.launch_blocked),
        "- execution scope: "@ + fallback(w.execution_scope@),
        "- last exit: "@ + optional_text(w.last_exit_code),
        "- summary: "@ + fallback(w.last_summary@),
        "- error: "@ + fallback(w.last_error@),
        if w.issues@.len() == 0 {
            "- issues: none"@
        } else {
            "- issues: "@ + join(views(w.issues@), "; "@)
        },
        Seq::empty(),
    ]
}

pub open spec fn brief_workers(ws: Seq<WorkerSnapshot>) -> Seq<Seq<char>>
    decreases ws.len(),
{
    if ws.len() == 0 {
        Seq::empty()
    } else {
        brief_workers(ws.drop_last()) + brief_worker(ws.last())
    }
}

pub open spec fn brief_check(st: StatusSnapshot) -> Seq<Seq<char>> {
    if trim(st.last_handoff_check@).len() == 0 {
        Seq::empty()
    } else {
        seq![
            "## Last Handoff Check"@,
            Seq::empty(),
            "```text"@,
            st.last_handoff_check@,
            "```"@,
            Seq::empty(),
        ]
    }
}

/// The lines of the assistant brief.
pub open spec fn brief_lines(st: StatusSnapshot, c: Option<CoordinationSnapshot>) -> Seq<Seq<char>> {
    brief_header(st) + match c {
        Some(c) => brief_coordination(c),
        None => Seq::empty(),
    } + seq!["## Workers"@, Seq::empty()] + brief_workers(st.workers@) + brief_check(st)
}

/// The brief with a coordination plan is the brief without one, with the
/// coordination block put in after its eleven header lines.
pub proof fn lemma_brief_inserts_coordination(st: StatusSnapshot, c: CoordinationSnapshot)
    ensures
        brief_header(st).len() == 11,
        brief_coordination(c).len() == 9,
        brief_lines(st, Some(c)) == brief_lines(st, None).take(11) + brief_coordination(c)
            + brief_lines(st, None).skip(11),
        join(brief_lines(st, Some(c)), "\n"@) == join(
            brief_lines(st, None).take(11) + brief_coordination(c) + brief_lines(st, None).skip(11),
            "\n"@,
        ),
{
    let h = brief_header(st);
    let rest = seq!["## Workers"@, Seq::empty()] + brief_workers(st.workers@) + brief_check(st);
    let without = brief_lines(st, None);
    assert(without =~= h + rest);
    assert(without.take(11) =~= h);
    assert(without.skip(11) =~= rest);
    assert(brief_lines(st, Some(c)) =~= h + brief_coordination(c) + rest);
}

/// Cut at its newlines, the brief with a coordination plan is the brief
/// without one with the coordination block's lines put in after the first
/// eleven pieces, when no header or coordination line holds a newline.
pub proof fn lemma_brief_split_inserts_coordination(st: StatusSnapshot, c: CoordinationSnapshot)
    requires
        forall|i: int| 0 <= i < brief_header(st).len() ==> no_nl(#[trigger] brief_header(st)[i]),
        forall|i: int|
            0 <= i < brief_coordination(c).len() ==> no_nl(#[trigger] brief_coordination(c)[i]),
    ensures
        split_nl(join(brief_lines(st, Some(c)), "\n"@)) == split_nl(
            join(brief_lines(st, None), "\n"@),
        ).take(11) + brief_coordination(c) + split_nl(join(brief_lines(st, None), "\n"@)).skip(11),
{
    let h = brief_header(st);
    let co = brief_coordination(c);
    let rest = seq!["## Workers"@, Seq::empty()] + brief_workers(st.workers@) + brief_check(st);
    assert(brief_lines(st, None) =~= h + rest);
    assert(brief_lines(st, Some(c)) =~= h + (co + rest));
    lemma_split_join_concat(h, rest);
    lemma_split_join_concat(h, co + rest);
    lemma_split_join_concat(co, rest);
    lemma_split_join_lines(h);
    lemma_split_join_lines(co);
    let r = split_nl(join(rest, "\n"@));
    assert((h + r).take(11) =~= h);
    assert((h + r).skip(11) =~= r);
}

/// The same law with its condition on the fields: no newline in the
/// status's header fields or in the plan's ID and planner mode.
pub proof fn lemma_brief_fields_split_inserts_coordination(st: StatusSnapshot, c: CoordinationSnapshot)
    requires
        no_nl(st.updated_at@),
        no_nl(st.project_name@),
        no_nl(st.repo_root@),
        no_nl(st.framework_version@),
        no_nl(st.phase@),
        no_nl(st.activation_reason@),
        no_nl(st.last_check_status@),
        no_nl(st.last_check_warning@),
        no_nl(c.plan_id@),
        no_nl(c.planner_mode@),
    ensures
        split_nl(join(brief_lines(st, Some(c)), "\n"@)) == split_nl(
            join(brief_lines(st, None), "\n"@),
        ).take(11) + brief_coordination(c) + split_nl(join(brief_lines(st, None), "\n"@)).skip(11),
{
    lemma_brief_header_no_nl(st);
    lemma_brief_coordination_no_nl(c);
    lemma_brief_split_inserts_coordination(st, c);
}

proof fn lemma_fallback_no_nl(v: Seq<char>)
    requires
        no_nl(v),
    ensures
        no_nl(fallback(v)),
{
    reveal_strlit("none");
    lemma_no_nl_trim(v);
}

proof fn lemma_brief_header_no_nl(st: StatusSnapshot)
    requires
        no_nl(st.updated_at@),
        no_nl(st.project_name@),
        no_nl(st.repo_root@),
        no_nl(st.framework_version@),
        no_nl(st.phase@),
        no_nl(st.activation_reason@),
        no_nl(st.last_check_status@),
        no_nl(st.last_check_warning@),
    ensures
        forall|i: int| 0 <= i < brief_header(st).len() ==> no_nl(#[trigger] brief_header(st)[i]),
{
    reveal_strlit("# Assistant Brief");
    reveal_strlit("- Updated: ");
    reveal_strlit("- Project: ");
    reveal_strlit("- Repo: ");
    reveal_strlit("- Framework: ");
    reveal_strlit("- Phase: ");
    reveal_strlit("- Activation: ");
    reveal_strlit("required (");
    reveal_strlit(")");
    reveal_strlit("not needed");
    reveal_strlit("- Handoff audit: ");
    reveal_strlit("- Audit warning: none");
    reveal_strlit("- Audit warning: ");
    lemma_no_nl_concat("- Updated: "@, st.updated_at@);
    lemma_no_nl_concat("- Project: "@, st.project_name@);
    lemma_no_nl_concat("- Repo: "@, st.repo_root@);
    lemma_no_nl_concat("- Framework: "@, st.framework_version@);
    lemma_no_nl_concat("- Phase: "@, st.phase@);
    lemma_no_nl_concat("required ("@, st.activation_reason@);
    lemma_no_nl_concat("required ("@ + st.activation_reason@, ")"@);
    lemma_no_nl_concat("- Activation: "@, "required ("@ + st.activation_reason@ + ")"@);
    lemma_no_nl_concat("- Activation: "@, "not needed"@);
    lemma_fallback_no_nl(st.last_check_status@);
    lemma_no_nl_concat("- Handoff audit: "@, fallback(st.last_check_status@));
    lemma_fallback_no_nl(st.last_check_warning@);
    lemma_no_nl_concat("- Audit warning: "@, fallback(st.last_check_warning@));
    assert(no_nl(Seq::<char>::empty()));
}

proof fn lemma_brief_coordination_no_nl(c: CoordinationSnapshot)
    requires
        no_nl(c.plan_id@),
        no_nl(c.planner_mode@),
    ensures
        forall|i: int|
            0 <= i < brief_coordination(c).len() ==> no_nl(#[trigger] brief_coordination(c)[i]),
{
    reveal_strlit("## Coordination");
    reveal_strlit("- Plan ID: ");
    reveal_strlit("- Approved: ");
    reveal_strlit("- Planner mode: ");
    reveal_strlit("- Open escalations: ");
    reveal_strlit("- Launch blocked workers: ");
    reveal_strlit("- Latest reviews: approve ");
    reveal_strlit(" | rework ");
    reveal_strlit(" | escalate ");
    lemma_fallback_no_nl(c.plan_id@);
    lemma_no_nl_concat("- Plan ID: "@, fallback(c.plan_id@));
    lemma_no_nl_concat("- Approved: "@, bool_text(c.approved));
    lemma_fallback_no_nl(c.planner_mode@);
    lemma_no_nl_concat("- Planner mode: "@, fallback(c.planner_mode@));
    let oe = dec(open_escalations_of(c.escalations@).len());
    lemma_no_nl_dec(open_escalations_of(c.escalations@).len());
    lemma_no_nl_concat("- Open escalations: "@, oe);
    lemma_no_nl_dec(blocked_count(c.workers@));
    lemma_no_nl_concat("- Launch blocked workers: "@, dec(blocked_count(c.workers@)));
    let a = dec(latest_with(c.reviews@, "approve"@));
    let r = dec(latest_with(c.reviews@, "rework"@));
    let e = dec(latest_with(c.reviews@, "escalate"@));
    lemma_no_nl_dec(latest_with(c.reviews@, "approve"@));
    lemma_no_nl_dec(latest_with(c.reviews@, "rework"@));
    lemma_no_nl_dec(latest_with(c.reviews@, "escalate"@));
    lemma_no_nl_concat("- Latest reviews: approve "@, a);
    lemma_no_nl_concat("- Latest reviews: approve "@ + a, " | rework "@);
    lemma_no_nl_concat("- Latest reviews: approve "@ + a + " | rework "@, r);
    lemma_no_nl_concat("- Latest reviews: approve "@ + a + " | rework "@ + r, " | escalate "@);
    lemma_no_nl_concat("- Latest reviews: approve "@ + a + " | rework "@ + r + " | escalate "@, e);
    assert(no_nl(Seq::<char>::empty()));
}

fn push_line(lines: &mut Vec<String>, line: String)
    ensures
        views(final(lines)@) == views(old(lines)@).push(line@),
{
    let ghost before = views(lines@);
    lines.push(line);
    assert(views(lines@) =~= before.push(line@));
}

fn push_worker_block(lines: &mut Vec<String>, w: &WorkerSnapshot)
    ensures
        views(final(lines)@) == views(old(lines)@) + brief_worker(*w),
{
    let ghost before = views(lines@);
    push_line(lines, cat("### ", w.name.as_str()));
    push_line(lines, cat("- worktree: ", w.worktree_path.as_str()));
    let a = cat("- branch: ", w.branch.as_str());
    let b = cat(a.as_str(), " (expected ");
    let c = cat(b.as_str(), w.expected_branch.as_str());
    push_line(lines, cat(c.as_str(), ")"));
    push_line(lines, cat("- status: ", w.status.as_str()));
    let t = bool_str(w.git_clean);
    push_line(lines, cat("- git clean: ", t.as_str()));
    push_line(lines, cat("- handoff: ", w.handoff_status.as_str()));
    let t = fallback_text(w.pending_action.as_str());
    push_line(lines, cat("- pending action: ", t.as_str()));
    let t = bool_str(w.launch_blocked);
    push_line(lines, cat("- launch blocked: ", t.as_str()));
    let t = fallback_text(w.execution_scope.as_str());
    push_line(lines, cat("- execution scope: ", t.as_str()));
    let t = optional_i32(w.last_exit_code);
    push_line(lines, cat("- last exit: ", t.as_str()));
    let t = fallback_text(w.last_summary.as_str());
    push_line(lines, cat("- summary: ", t.as_str()));
    let t = fallback_text(w.last_error.as_str());
    push_line(lines, cat("- error: ", t.as_str()));
    if w.issues.len() == 0 {
        push_line(lines, owned("- issues: none"));
    } else {
        let t = join_texts(&w.issues, "; ");
        push_line(lines, cat("- issues: ", t.as_str()));
    }
    push_line(lines, String::new());
    assert(views(lines@) =~= before + brief_worker(*w));
}

fn push_coordination_block(lines: &mut Vec<String>, c: &CoordinationSnapshot)
    ensures
        views(final(lines)@) == views(old(lines)@) + brief_coordination(*c),
{
    let ghost before = views(lines@);
    let (approved, rework, escalated) = c.latest_review_counts();
    let open = c.open_escalations();
    push_line(lines, owned("## Coordination"));
    push_line(lines, String::new());
    let t = fallback_text(c.plan_id.as_str());
    push_line(lines, cat("- Plan ID: ", t.as_str()));
    let t = bool_str(c.approved);
    push_line(lines, cat("- Approved: ", t.as_str()));
    let t = fallback_text(c.planner_mode.as_str());
    push_line(lines, cat("- Planner mode: ", t.as_str()));
    let t = dec_u64(open.len() as u64);
    assert(open@.len() == open_escalations_of(c.escalations@).len());
    push_line(lines, cat("- Open escalations: ", t.as_str()));
    let t = dec_u64(c.blocked_worker_count() as u64);
    push_line(lines, cat("- Launch blocked workers: ", t.as_str()));
    let a = dec_u64(approved as u64);
    let b = dec_u64(rework as u64);
    let d = dec_u64(escalated as u64);
    let x = cat("- Latest reviews: approve ", a.as_str());
    let x = cat(x.as_str(), " | rework ");
    let x = cat(x.as_str(), b.as_str());
    let x = cat(x.as_str(), " | escalate ");
    push_line(lines, cat(x.as_str(), d.as_str()));
    push_line(lines, String::new());
    assert(views(lines@) =~= before + brief_coordination(*c));
}

impl StatusSnapshot {
    /// The assistant brief: status header, coordination summary when one is
    /// given, one block per worker, and the last handoff check output.
    pub fn render_brief(&self, coordination: Option<&CoordinationSnapshot>) -> (r: String)
        ensures
            r@ == join(
                brief_lines(
                    *self,
                    match coordination {
                        Some(c) => Some(*c),
                        None => None,
                    },
                ),
                "\n"@,
            ),
    {
        let mut lines: Vec<String> = Vec::new();
        push_line(&mut lines, owned("# Assistant Brief"));
        push_line(&mut lines, String::new());
        push_line(&mut lines, cat("- Updated: ", self.updated_at.as_str()));
        push_line(&mut lines, cat("- Project: ", self.project_name.as_str()));
        push_line(&mut lines, cat("- Repo: ", self.repo_root.as_str()));
        push_line(&mut lines, cat("- Framework: ", self.framework_version.as_str()));
        push_line(&mut lines, cat("- Phase: ", self.phase.as_str()));
        let activation = if self.activation_required {
            let a = cat("required (", self.activation_reason.as_str());
            cat(a.as_str(), ")")
        } else {
            owned("not needed")
        };
        push_line(&mut lines, cat("- Activation: ", activation.as_str()));
        let t = fallback_text(self.last_check_status.as_str());
        push_line(&mut lines, cat("- Handoff audit: ", t.as_str()));
        if is_blank(self.last_check_warning.as_str()) {
            push_line(&mut lines, owned("- Audit warning: none"));
        } else {
            let t = fallback_text(self.last_check_warning.as_str());
            push_line(&mut lines, cat("- Audit warning: ", t.as_str()));
        }
        push_line(&mut lines, String::new());
        assert(views(lines@) =~= brief_header(*self));
        let ghost after_header = views(lines@);

        let ghost co = match coordination {
            Some(c) => Some(*c),
            None => None::<CoordinationSnapshot>,
        };
        if let Some(c) = coordination {
            push_coordination_block(&mut lines, c);
        }
        let ghost mid = views(lines@);
        assert(mid == brief_header(*self) + match co {
            Some(c) => brief_coordination(c),
            None => Seq::empty(),
        });
        push_line(&mut lines, owned("## Workers"));
        push_line(&mut lines, String::new());
        let ghost start = views(lines@);
        let mut i: usize = 0;
        while i < self.workers.len()
            invariant
                i <= self.workers.len(),
                views(lines@) == start + brief_workers(self.workers@.subrange(0, i as int)),
            decreases self.workers.len() - i,
        {
            assert(self.workers@.subrange(0, i + 1).drop_last() =~= self.workers@.subrange(0, i as int));
            push_worker_block(&mut lines, &self.workers[i]);
            i = i + 1;
            assert(views(lines@) =~= start + brief_workers(self.workers@.subrange(0, i as int)));
        }
        assert(self.workers@.subrange(0, self.workers.len() as int) =~= self.workers@);
        let ghost before_check = views(lines@);
        if !is_blank(self.last_handoff_check.as_str()) {
            push_line(&mut lines, owned("## Last Handoff Check"));
            push_line(&mut lines, String::new());
            push_line(&mut lines, owned("```text"));
            push_line(&mut lines, self.last_handoff_check.clone());
            push_line(&mut lines, owned("```"));
            push_line(&mut lines, String::new());
        }
        assert(views(lines@) =~= before_check + brief_check(*self));
        assert(views(lines@) =~= brief_lines(*self, co));
        join_texts(&lines, "\n")
    }
}

/// The local time as `YYYY-MM-DD HH:MM:SS`, from `chrono::Local::now`. It
/// reads the clock and the time zone, so nothing is stated of the result.
#[verifier::external_body]
pub fn now_string() -> (r: String) {
    chrono::Local::now().format("%Y-%m-%d %H:%M:%S").to_string()
}

} // verus!
