//! The supervisor's command surface and session state: parsing commands,
//! the shared panel settings they change, and the texts they answer with.
use vstd::prelude::*;

use crate::config::{phase_index, CommanderConfig};
use crate::provider::ProviderProfile;
use crate::runtime::{
    scope_view, ControlSnapshot, CoordinationSnapshot, FeedDensity, PatrolStatus, StatusSnapshot,
    StreamScope,
};
use crate::text::{
    blank, cat, dec, eq_ic, eq_ignore_case, is_blank, join, join_texts, lower, owned, same,
    skip_chars, starts_with, starts_with_text, to_lower, trim, trimmed, views,
};

verus! {

/// Everything a panel shows: status, patrol, the live session's heartbeat,
/// the provider profile and the coordination state.
#[derive(Debug, Clone, Default)]
pub struct SnapshotBundle {
    pub status: StatusSnapshot,
    pub patrol: PatrolStatus,
    pub control: Option<ControlSnapshot>,
    pub provider: Option<ProviderProfile>,
    pub coordination: Option<CoordinationSnapshot>,
}

/// The answer to a command, and whether it asked the session to end.
#[derive(Debug, Clone)]
pub struct CommandOutcome {
    pub message: String,
    pub quit_requested: bool,
}

// ---------------------------------------------------------------------------
// Density and stream scope
// ---------------------------------------------------------------------------

pub open spec fn density_of(raw: Seq<char>) -> FeedDensity {
    let l = lower(trim(raw));
    if l == "realtime"@ || l == "high"@ || l == "high-density"@ {
        FeedDensity::Realtime
    } else {
        FeedDensity::Standard
    }
}

pub open spec fn density_text(d: FeedDensity) -> Seq<char> {
    match d {
        FeedDensity::Standard => "standard"@,
        FeedDensity::Realtime => "realtime"@,
    }
}

/// `realtime`, `high` and `high-density` (any case) select the realtime
/// feed; anything else the standard one.
pub fn parse_density(raw: &str) -> (r: FeedDensity)
    ensures
        r == density_of(raw@),
{
    let t = trimmed(raw);
    let l = to_lower(t.as_str());
    let s = l.as_str();
    if same(s, "realtime") || same(s, "high") || same(s, "high-density") {
        FeedDensity::Realtime
    } else {
        FeedDensity::Standard
    }
}

pub fn density_label(density: FeedDensity) -> (r: String)
    ensures
        r@ == density_text(density),
{
    match density {
        FeedDensity::Standard => owned("standard"),
        FeedDensity::Realtime => owned("realtime"),
    }
}

/// Reading a density's label gives the density back.
pub proof fn lemma_density_round_trip(d: FeedDensity)
    ensures
        density_of(density_text(d)) == d,
{
    reveal_strlit("standard");
    reveal_strlit("realtime");
    reveal_strlit("high");
    reveal_strlit("high-density");
    let t = density_text(d);
    crate::text::lemma_no_ws_trim(t);
    assert(lower(t) =~= t);
}

pub open spec fn scope_of(raw: Seq<char>, selected: Seq<char>) -> (int, Seq<char>) {
    let n = lower(trim(raw));
    if n.len() == 0 || n == "all"@ {
        (0, Seq::empty())
    } else if n == "selected"@ {
        (1, Seq::empty())
    } else if n == "commander"@ {
        (2, Seq::empty())
    } else if starts_with(n, "worker:"@) {
        (3, trim(n.subrange(7, n.len() as int)))
    } else if starts_with(n, "worker "@) {
        (3, trim(n.subrange(7, n.len() as int)))
    } else if !blank(selected) && n == "worker"@ {
        (3, selected)
    } else {
        (0, Seq::empty())
    }
}

pub open spec fn scope_text(s: StreamScope) -> Seq<char> {
    match s {
        StreamScope::All => "all"@,
        StreamScope::Selected => "selected"@,
        StreamScope::Commander => "commander"@,
        StreamScope::Worker(name) => "worker:"@ + name@,
    }
}

/// Reads a stream scope: `all` (or nothing), `selected`, `commander`,
/// `worker:<name>` or `worker <name>`, or bare `worker` for the selected
/// worker; the text is trimmed and lower-cased first, and anything else is `all`.
pub fn parse_stream_scope(raw: &str, selected_worker: &str) -> (r: StreamScope)
    ensures
        scope_view(r) == scope_of(raw@, selected_worker@),
{
    let t = trimmed(raw);
    let l = to_lower(t.as_str());
    let n = l.as_str();
    if n.unicode_len() == 0 || same(n, "all") {
        StreamScope::All
    } else if same(n, "selected") {
        StreamScope::Selected
    } else if same(n, "commander") {
        StreamScope::Commander
    } else if starts_with_text(n, "worker:") {
        proof {
            reveal_strlit("worker:");
        }
        let rest = skip_chars(n, 7);
        let name = trimmed(rest.as_str());
        StreamScope::Worker(name)
    } else if starts_with_text(n, "worker ") {
        proof {
            reveal_strlit("worker ");
        }
        let rest = skip_chars(n, 7);
        let name = trimmed(rest.as_str());
        StreamScope::Worker(name)
    } else if !is_blank(selected_worker) && same(n, "worker") {
        StreamScope::Worker(owned(selected_worker))
    } else {
        StreamScope::All
    }
}

/// The label of a stream scope.
pub fn stream_scope_label(scope: &StreamScope) -> (r: String)
    ensures
        r@ == scope_text(*scope),
{
    match scope {
        StreamScope::All => owned("all"),
        StreamScope::Selected => owned("selected"),
        StreamScope::Commander => owned("commander"),
        StreamScope::Worker(name) => cat("worker:", name.as_str()),
    }
}

/// Reading a scope's label gives the scope back, for worker names that are
/// already trimmed and lower-case.
pub proof fn lemma_scope_round_trip(s: StreamScope, selected: Seq<char>)
    requires
        s matches StreamScope::Worker(name) ==> lower(name@) == name@ && trim(name@) == name@,
    ensures
        scope_of(scope_text(s), selected) == scope_view(s),
{
    reveal_strlit("all");
    reveal_strlit("selected");
    reveal_strlit("commander");
    reveal_strlit("worker:");
    reveal_strlit("worker ");
    reveal_strlit("worker");
    let t = scope_text(s);
    match s {
        StreamScope::Worker(name) => {
            let n = name@;
            crate::text::lemma_lower_concat("worker:"@, n);
            assert(lower("worker:"@) =~= "worker:"@);
            assert(lower(t) == t);
            if n.len() == 0 {
                assert(t =~= "worker:"@);
                crate::text::lemma_no_ws_trim(t);
            } else {
                crate::text::lemma_trim_fixed(n);
                assert(t[0] == 'w');
                assert(t.last() == n.last());
                crate::text::lemma_no_ws_trim(t);
            }
            assert(t.subrange(7, t.len() as int) =~= n);
            assert(starts_with(t, "worker:"@)) by {
                assert(t.subrange(0, 7) =~= "worker:"@);
            }
            assert(t != "all"@);
            assert(t != "selected"@) by {
                if t.len() == 8 {
                    assert(t[6] != "selected"@[6]);
                }
            }
            assert(t != "commander"@) by {
                if t.len() == 9 {
                    assert(t[0] != "commander"@[0]);
                }
            }
        },
        _ => {
            crate::text::lemma_no_ws_trim(t);
            assert(lower(t) =~= t);
        },
    }
}


// ---------------------------------------------------------------------------
// Command surface
// ---------------------------------------------------------------------------

/// The commands a session answers, as its help lists them.
pub open spec fn command_list() -> Seq<Seq<char>> {
    seq![
        "help"@,
        "help keys"@,
        "status"@,
        "refresh"@,
        "check"@,
        "intake"@,
        "approve"@,
        "review [all|<worker>]"@,
        "report"@,
        "brief"@,
        "ping [text]"@,
        "start all|<worker>"@,
        "stop all|<worker>"@,
        "patrol [start|stop|once|status]"@,
        "phase <name>"@,
        "select <worker>"@,
        "density standard|realtime"@,
        "stream scope all|selected|commander|worker:<name>"@,
        "follow on|off"@,
        "focus workers|feed|details|cmd"@,
        "clear"@,
        "quit"@,
    ]
}

pub(crate) fn push_text(v: &mut Vec<String>, t: &str)
    ensures
        views(final(v)@) == views(old(v)@).push(t@),
{
    let ghost before = views(v@);
    v.push(owned(t));
    assert(views(v@) =~= before.push(t@));
}

/// The commands a session answers.
pub fn supported_commands() -> (r: Vec<String>)
    ensures
        views(r@) == command_list(),
{
    let mut v: Vec<String> = Vec::new();
    push_text(&mut v, "help");
    push_text(&mut v, "help keys");
    push_text(&mut v, "status");
    push_text(&mut v, "refresh");
    push_text(&mut v, "check");
    push_text(&mut v, "intake");
    push_text(&mut v, "approve");
    push_text(&mut v, "review [all|<worker>]");
    push_text(&mut v, "report");
    push_text(&mut v, "brief");
    push_text(&mut v, "ping [text]");
    push_text(&mut v, "start all|<worker>");
    push_text(&mut v, "stop all|<worker>");
    push_text(&mut v, "patrol [start|stop|once|status]");
    push_text(&mut v, "phase <name>");
    push_text(&mut v, "select <worker>");
    push_text(&mut v, "density standard|realtime");
    push_text(&mut v, "stream scope all|selected|commander|worker:<name>");
    push_text(&mut v, "follow on|off");
    push_text(&mut v, "focus workers|feed|details|cmd");
    push_text(&mut v, "clear");
    push_text(&mut v, "quit");
    assert(views(v@) =~= command_list());
    v
}

/// The command list, one per line.
pub fn render_help() -> (r: String)
    ensures
        r@ == join(command_list(), "\n"@),
{
    let v = supported_commands();
    join_texts(&v, "\n")
}

pub open spec fn key_help_lines() -> Seq<Seq<char>> {
    seq![
        "GRID: arrows/WASD move panes like a game menu"@,
        "PANEL: arrows/WASD keep working inside the current pane"@,
        "Enter/Space/E: dive in, confirm, or commit the hovered worker"@,
        "Tab/Shift-Tab or 1/2/3/4: jump workers/feed/details/command"@,
        "F/Z/V: follow, density, stream scope"@,
        "R/C/P: refresh, check, patrol once"@,
        "PageUp/PageDown and Home/End: fast move while engaged"@,
        "t/T or [/] : cycle detail tabs"@,
        "/: filter workers"@,
        ": command mode"@,
        "?: help overlay"@,
        "x: stop selected worker"@,
        "X: stop all workers"@,
        "Esc twice: quit from grid mode"@,
        "q: quit panel immediately"@,
    ]
}

/// The key help, one binding per line.
pub fn render_key_help() -> (r: String)
    ensures
        r@ == join(key_help_lines(), "\n"@),
{
    let mut v: Vec<String> = Vec::new();
    push_text(&mut v, "GRID: arrows/WASD move panes like a game menu");
    push_text(&mut v, "PANEL: arrows/WASD keep working inside the current pane");
    push_text(&mut v, "Enter/Space/E: dive in, confirm, or commit the hovered worker");
    push_text(&mut v, "Tab/Shift-Tab or 1/2/3/4: jump workers/feed/details/command");
    push_text(&mut v, "F/Z/V: follow, density, stream scope");
    push_text(&mut v, "R/C/P: refresh, check, patrol once");
    push_text(&mut v, "PageUp/PageDown and Home/End: fast move while engaged");
    push_text(&mut v, "t/T or [/] : cycle detail tabs");
    push_text(&mut v, "/: filter workers");
    push_text(&mut v, ": command mode");
    push_text(&mut v, "?: help overlay");
    push_text(&mut v, "x: stop selected worker");
    push_text(&mut v, "X: stop all workers");
    push_text(&mut v, "Esc twice: quit from grid mode");
    push_text(&mut v, "q: quit panel immediately");
    assert(views(v@) =~= key_help_lines());
    join_texts(&v, "\n")
}

/// What a supervisor command asks for.
#[derive(Debug, Clone, Copy, PartialEq, Eq, Structural)]
pub enum CommandKind {
    Empty,
    Help,
    HelpKeys,
    Refresh,
    Check,
    Intake,
    Approve,
    Brief,
    Clear,
    Quit,
    Ping,
    Start,
    Stop,
    Phase,
    Review,
    Report,
    Patrol,
    Density,
    Follow,
    Focus,
    Stream,
    Select,
}

/// A parsed supervisor command: its kind and its argument (trimmed).
#[derive(Debug, Clone)]
pub struct ParsedCommand {
    pub kind: CommandKind,
    pub arg: String,
}

pub open spec fn rest_after(c: Seq<char>, n: int) -> Seq<char> {
    trim(c.subrange(n, c.len() as int))
}

/// The grammar of supervisor commands, on the trimmed command: keywords are
/// matched ignoring case, arguments are kept as typed. `None` is an unknown
/// command.
pub open spec fn command_grammar(raw: Seq<char>) -> Option<(CommandKind, Seq<char>)> {
    let c = trim(raw);
    let l = lower(c);
    if c.len() == 0 {
        Some((CommandKind::Empty, Seq::empty()))
    } else if l == "help"@ || l == "?"@ {
        Some((CommandKind::Help, Seq::empty()))
    } else if l == "help keys"@ {
        Some((CommandKind::HelpKeys, Seq::empty()))
    } else if l == "status"@ || l == "refresh"@ {
        Some((CommandKind::Refresh, Seq::empty()))
    } else if l == "check"@ {
        Some((CommandKind::Check, Seq::empty()))
    } else if l == "intake"@ {
        Some((CommandKind::Intake, Seq::empty()))
    } else if l == "approve"@ {
        Some((CommandKind::Approve, Seq::empty()))
    } else if l == "brief"@ {
        Some((CommandKind::Brief, Seq::empty()))
    } else if l == "clear"@ {
        Some((CommandKind::Clear, Seq::empty()))
    } else if l == "quit"@ || l == "exit"@ {
        Some((CommandKind::Quit, Seq::empty()))
    } else if l == "ping"@ || starts_with(l, "ping "@) {
        Some((CommandKind::Ping, rest_after(c, 4)))
    } else if starts_with(l, "start "@) {
        Some((CommandKind::Start, rest_after(c, 6)))
    } else if starts_with(l, "stop "@) {
        Some((CommandKind::Stop, rest_after(c, 5)))
    } else if starts_with(l, "phase "@) {
        Some((CommandKind::Phase, rest_after(c, 6)))
    } else if l == "review"@ || starts_with(l, "review "@) {
        Some((CommandKind::Review, rest_after(c, 6)))
    } else if l == "report"@ {
        Some((CommandKind::Report, Seq::empty()))
    } else if l == "patrol"@ || starts_with(l, "patrol "@) {
        Some((CommandKind::Patrol, rest_after(c, 6)))
    } else if starts_with(l, "density "@) {
        Some((CommandKind::Density, rest_after(c, 8)))
    } else if starts_with(l, "follow "@) {
        Some((CommandKind::Follow, rest_after(c, 7)))
    } else if starts_with(l, "focus "@) {
        Some((CommandKind::Focus, rest_after(c, 6)))
    } else if starts_with(l, "stream "@) {
        Some((CommandKind::Stream, rest_after(c, 7)))
    } else if starts_with(l, "select "@) {
        Some((CommandKind::Select, rest_after(c, 7)))
    } else {
        None
    }
}

/// A command that starts with `stop ` (after trimming, ignoring case) is a
/// stop, of the trimmed rest as typed.
pub proof fn lemma_stop_command_parses_as_stop(raw: Seq<char>)
    requires
        starts_with(lower(trim(raw)), "stop "@),
    ensures
        command_grammar(raw) == Some(
            (CommandKind::Stop, trim(trim(raw).subrange(5, trim(raw).len() as int))),
        ),
{
    reveal_strlit("stop ");
    let c = trim(raw);
    let l = lower(c);
    assert(l.subrange(0, 5) == "stop "@);
    assert(l[0] == 's' && l[1] == 't' && l[2] == 'o' && l[3] == 'p' && l[4] == ' ') by {
        assert(l.subrange(0, 5)[0] == l[0]);
        assert(l.subrange(0, 5)[1] == l[1]);
        assert(l.subrange(0, 5)[2] == l[2]);
        assert(l.subrange(0, 5)[3] == l[3]);
        assert(l.subrange(0, 5)[4] == l[4]);
    }
    reveal_strlit("help");
    reveal_strlit("?");
    reveal_strlit("help keys");
    reveal_strlit("status");
    reveal_strlit("refresh");
    reveal_strlit("check");
    reveal_strlit("intake");
    reveal_strlit("approve");
    reveal_strlit("brief");
    reveal_strlit("clear");
    reveal_strlit("quit");
    reveal_strlit("exit");
    reveal_strlit("ping");
    reveal_strlit("ping ");
    reveal_strlit("start ");
    assert(l.len() == c.len());
    if starts_with(l, "ping "@) {
        assert(l.subrange(0, 5)[0] == 'p');
    }
    if starts_with(l, "start "@) {
        assert(l.subrange(0, 6)[2] == 'a');
    }
}

/// Only a command that starts with `start ` (after trimming, ignoring
/// case) parses as a start.
pub proof fn lemma_start_needs_start_prefix(raw: Seq<char>)
    ensures
        command_grammar(raw) matches Some((k, _)) && k == CommandKind::Start ==> starts_with(
            lower(trim(raw)),
            "start "@,
        ),
{
}

fn arg_after(c: &str, n: usize) -> (r: String)
    requires
        n <= c@.len(),
    ensures
        r@ == rest_after(c@, n as int),
{
    let rest = skip_chars(c, n);
    trimmed(rest.as_str())
}

fn parsed(kind: CommandKind, arg: String) -> (r: Result<ParsedCommand, String>)
    ensures
        r matches Ok(p) && p.kind == kind && p.arg@ == arg@,
{
    Ok(ParsedCommand { kind, arg })
}

/// Parses a supervisor command; an unknown one is refused with
/// `unknown command: <command>`.
pub fn parse_command(command: &str) -> (r: Result<ParsedCommand, String>)
    ensures
        match r {
            Ok(p) => command_grammar(command@) == Some((p.kind, p.arg@)),
            Err(e) => command_grammar(command@) is None && e@ == "unknown command: "@ + trim(
                command@,
            ),
        },
{
    let c = trimmed(command);
    let lowered = to_lower(c.as_str());
    let l = lowered.as_str();
    let cs = c.as_str();
    proof {
        crate::text::lemma_lower_len(c@);
    }
    if c.unicode_len() == 0 {
        return parsed(CommandKind::Empty, String::new());
    }
    if same(l, "help") || same(l, "?") {
        return parsed(CommandKind::Help, String::new());
    }
    if same(l, "help keys") {
        return parsed(CommandKind::HelpKeys, String::new());
    }
    if same(l, "status") || same(l, "refresh") {
        return parsed(CommandKind::Refresh, String::new());
    }
    if same(l, "check") {
        return parsed(CommandKind::Check, String::new());
    }
    if same(l, "intake") {
        return parsed(CommandKind::Intake, String::new());
    }
    if same(l, "approve") {
        return parsed(CommandKind::Approve, String::new());
    }
    if same(l, "brief") {
        return parsed(CommandKind::Brief, String::new());
    }
    if same(l, "clear") {
        return parsed(CommandKind::Clear, String::new());
    }
    if same(l, "quit") || same(l, "exit") {
        return parsed(CommandKind::Quit, String::new());
    }
    proof {
        reveal_strlit("ping");
        reveal_strlit("ping ");
        reveal_strlit("start ");
        reveal_strlit("stop ");
        reveal_strlit("phase ");
        reveal_strlit("review");
        reveal_strlit("review ");
        reveal_strlit("patrol");
        reveal_strlit("patrol ");
        reveal_strlit("density ");
        reveal_strlit("follow ");
        reveal_strlit("focus ");
        reveal_strlit("stream ");
        reveal_strlit("select ");
    }
    if same(l, "ping") || starts_with_text(l, "ping ") {
        return parsed(CommandKind::Ping, arg_after(cs, 4));
    }
    if starts_with_text(l, "start ") {
        return parsed(CommandKind::Start, arg_after(cs, 6));
    }
    if starts_with_text(l, "stop ") {
        return parsed(CommandKind::Stop, arg_after(cs, 5));
    }
    if starts_with_text(l, "phase ") {
        return parsed(CommandKind::Phase, arg_after(cs, 6));
    }
    if same(l, "review") || starts_with_text(l, "review ") {
        return parsed(CommandKind::Review, arg_after(cs, 6));
    }
    if same(l, "report") {
        return parsed(CommandKind::Report, String::new());
    }
    if same(l, "patrol") || starts_with_text(l, "patrol ") {
        return parsed(CommandKind::Patrol, arg_after(cs, 6));
    }
    if starts_with_text(l, "density ") {
        return parsed(CommandKind::Density, arg_after(cs, 8));
    }
    if starts_with_text(l, "follow ") {
        return parsed(CommandKind::Follow, arg_after(cs, 7));
    }
    if starts_with_text(l, "focus ") {
        return parsed(CommandKind::Focus, arg_after(cs, 6));
    }
    if starts_with_text(l, "stream ") {
        return parsed(CommandKind::Stream, arg_after(cs, 7));
    }
    if starts_with_text(l, "select ") {
        return parsed(CommandKind::Select, arg_after(cs, 7));
    }
    Err(cat("unknown command: ", cs))
}

/// `error` when the message mentions a failure, else `info`.
pub fn command_log_level(message: &str) -> (r: String)
    ensures
        r@ == if crate::text::contains(lower(message@), "fail"@) {
            "error"@
        } else {
            "info"@
        },
{
    let l = to_lower(message);
    if crate::text::contains_text(l.as_str(), "fail") {
        owned("error")
    } else {
        owned("info")
    }
}

/// The tags of a log entry: source and channel, plus `worker` and the
/// worker's name when there is one.
pub fn log_tags(source: &str, channel: &str, worker_name: &str) -> (r: Vec<String>)
    ensures
        views(r@) == if blank(worker_name@) {
            seq![source@, channel@]
        } else {
            seq![source@, channel@, "worker"@, worker_name@]
        },
{
    let mut v: Vec<String> = Vec::new();
    push_text(&mut v, source);
    push_text(&mut v, channel);
    if !is_blank(worker_name) {
        push_text(&mut v, "worker");
        push_text(&mut v, worker_name);
    }
    assert(views(v@) =~= if blank(worker_name@) {
        seq![source@, channel@]
    } else {
        seq![source@, channel@, "worker"@, worker_name@]
    });
    v
}

// ---------------------------------------------------------------------------
// Shared panel settings
// ---------------------------------------------------------------------------

/// The panel settings a session shares with every panel and remote caller.
#[derive(Debug, Clone)]
pub struct UiState {
    pub selected_worker: String,
    pub focused_panel: String,
    pub stream_scope: StreamScope,
    pub density_mode: FeedDensity,
    pub follow_tail: bool,
    pub help_visible: bool,
}

pub open spec fn density_choice(mode: Seq<char>) -> Option<FeedDensity> {
    let l = lower(trim(mode));
    if l == "standard"@ {
        Some(FeedDensity::Standard)
    } else if l == "realtime"@ || l == "high"@ || l == "high-density"@ {
        Some(FeedDensity::Realtime)
    } else {
        None
    }
}

pub open spec fn follow_choice(mode: Seq<char>) -> Option<bool> {
    let l = lower(trim(mode));
    if l == "on"@ || l == "true"@ || l == "tail"@ {
        Some(true)
    } else if l == "off"@ || l == "false"@ {
        Some(false)
    } else {
        None
    }
}

pub open spec fn focus_target(panel: Seq<char>) -> bool {
    let l = lower(trim(panel));
    l == "workers"@ || l == "feed"@ || l == "details"@ || l == "cmd"@
}

/// The text a `stream` command reads its scope from: the argument trimmed,
/// without a leading `scope `.
pub open spec fn stream_candidate(raw: Seq<char>) -> Seq<char> {
    let t = trim(raw);
    if starts_with(t, "scope "@) {
        trim(t.subrange(6, t.len() as int))
    } else {
        t
    }
}

impl UiState {
    /// `density standard|realtime|high|high-density`.
    pub fn handle_density(&mut self, mode: &str) -> (r: Result<String, String>)
        ensures
            match density_choice(mode@) {
                Some(d) => r matches Ok(m) && m@ == "density set to "@ + density_text(d)
                    && *final(self) == (UiState { density_mode: d, ..*old(self) }),
                None => r matches Err(e) && e@ == "unknown density mode `"@ + lower(trim(mode@))
                    + "`"@ && *final(self) == *old(self),
            },
    {
        let t = trimmed(mode);
        let l = to_lower(t.as_str());
        let s = l.as_str();
        let density = if same(s, "standard") {
            FeedDensity::Standard
        } else if same(s, "realtime") || same(s, "high") || same(s, "high-density") {
            FeedDensity::Realtime
        } else {
            let a = cat("unknown density mode `", s);
            return Err(cat(a.as_str(), "`"));
        };
        self.density_mode = density;
        let label = density_label(density);
        Ok(cat("density set to ", label.as_str()))
    }

    /// `follow on|off`.
    pub fn handle_follow(&mut self, mode: &str) -> (r: Result<String, String>)
        ensures
            match follow_choice(mode@) {
                Some(b) => r matches Ok(m) && m@ == if b {
                    "follow-tail enabled"@
                } else {
                    "follow-tail disabled"@
                } && *final(self) == (UiState { follow_tail: b, ..*old(self) }),
                None => r matches Err(e) && e@ == "unknown follow mode `"@ + lower(trim(mode@))
                    + "`"@ && *final(self) == *old(self),
            },
    {
        let t = trimmed(mode);
        let l = to_lower(t.as_str());
        let s = l.as_str();
        let enabled = if same(s, "on") || same(s, "true") || same(s, "tail") {
            true
        } else if same(s, "off") || same(s, "false") {
            false
        } else {
            let a = cat("unknown follow mode `", s);
            return Err(cat(a.as_str(), "`"));
        };
        self.follow_tail = enabled;
        Ok(
            if enabled {
                owned("follow-tail enabled")
            } else {
                owned("follow-tail disabled")
            },
        )
    }

    /// `focus workers|feed|details|cmd`.
    pub fn handle_focus(&mut self, panel: &str) -> (r: Result<String, String>)
        ensures
            focus_target(panel@) ==> (r matches Ok(m) && final(self).focused_panel@ == lower(
                trim(panel@),
            ) && m@ == "focus set to "@ + lower(trim(panel@)) && *final(self) == (UiState {
                focused_panel: final(self).focused_panel,
                ..*old(self)
            })),
            !focus_target(panel@) ==> (r matches Err(e) && e@ == "unknown focus target `"@ + panel@
                + "`"@ && *final(self) == *old(self)),
    {
        let t = trimmed(panel);
        let l = to_lower(t.as_str());
        let s = l.as_str();
        if !(same(s, "workers") || same(s, "feed") || same(s, "details") || same(s, "cmd")) {
            let a = cat("unknown focus target `", panel);
            return Err(cat(a.as_str(), "`"));
        }
        let m = cat("focus set to ", s);
        self.focused_panel = l;
        Ok(m)
    }

    /// `stream [scope] <scope>`.
    pub fn handle_stream(&mut self, raw: &str) -> (r: String)
        ensures
            scope_view(final(self).stream_scope) == scope_of(
                stream_candidate(raw@),
                old(self).selected_worker@,
            ),
            r@ == "stream scope set to "@ + scope_text(final(self).stream_scope),
            *final(self) == (UiState { stream_scope: final(self).stream_scope, ..*old(self) }),
    {
        let t = trimmed(raw);
        let candidate = if starts_with_text(t.as_str(), "scope ") {
            proof {
                reveal_strlit("scope ");
            }
            let rest = skip_chars(t.as_str(), 6);
            trimmed(rest.as_str())
        } else {
            t
        };
        let scope = parse_stream_scope(candidate.as_str(), self.selected_worker.as_str());
        let label = stream_scope_label(&scope);
        self.stream_scope = scope;
        cat("stream scope set to ", label.as_str())
    }

    /// Selects a worker known to exist: a worker-scoped stream on another
    /// worker falls back to the selected-worker scope.
    pub fn select_worker(&mut self, name: &str) -> (r: String)
        ensures
            final(self).selected_worker@ == name@,
            scope_view(final(self).stream_scope) == match old(self).stream_scope {
                StreamScope::Worker(n) => if n@ != name@ {
                    scope_view(StreamScope::Selected)
                } else {
                    scope_view(old(self).stream_scope)
                },
                _ => scope_view(old(self).stream_scope),
            },
            r@ == "selected worker "@ + name@,
            *final(self) == (UiState {
                selected_worker: final(self).selected_worker,
                stream_scope: final(self).stream_scope,
                ..*old(self)
            }),
    {
        self.selected_worker = owned(name);
        let switch = match &self.stream_scope {
            StreamScope::Worker(n) => !same(n.as_str(), name),
            _ => false,
        };
        if switch {
            self.stream_scope = StreamScope::Selected;
        }
        cat("selected worker ", name)
    }

    /// A worker just started becomes the selection when none is selected.
    pub fn select_if_unset(&mut self, name: &str)
        ensures
            final(self).selected_worker@ == if blank(old(self).selected_worker@) {
                name@
            } else {
                old(self).selected_worker@
            },
            *final(self) == (UiState { selected_worker: final(self).selected_worker, ..*old(self) }),
    {
        if is_blank(self.selected_worker.as_str()) {
            self.selected_worker = owned(name);
        }
    }

    /// Enters a phase whose first worker (or nothing) becomes the selection;
    /// a selected-worker stream with nobody selected falls back to all.
    pub fn enter_phase(&mut self, selected_worker: String)
        ensures
            final(self).selected_worker == selected_worker,
            scope_view(final(self).stream_scope) == if old(self).stream_scope is Selected
                && selected_worker@.len() == 0 {
                scope_view(StreamScope::All)
            } else {
                scope_view(old(self).stream_scope)
            },
            *final(self) == (UiState {
                selected_worker: final(self).selected_worker,
                stream_scope: final(self).stream_scope,
                ..*old(self)
            }),
    {
        let empty = selected_worker.unicode_len() == 0;
        self.selected_worker = selected_worker;
        if matches!(self.stream_scope, StreamScope::Selected) && empty {
            self.stream_scope = StreamScope::All;
        }
    }
}

/// What a `patrol` command asks for.
#[derive(Debug, Clone)]
pub enum PatrolRequest {
    /// Run the audit now.
    RunOnce,
    /// Turn the patrol on.
    Enable,
    /// Turn the patrol off.
    Disable,
    /// Report the patrol state.
    Report,
    /// Refused, with the message.
    Unknown(String),
}

/// The meaning of a patrol mode: nothing or `once` runs it, `start`/`on`
/// and `stop`/`off` switch it, `status` reports it (ignoring case).
/// (0: run, 1: on, 2: off, 3: report, 4: unknown)
pub open spec fn patrol_mode(mode: Seq<char>) -> int {
    let l = lower(trim(mode));
    if l.len() == 0 || l == "once"@ {
        0
    } else if l == "start"@ || l == "on"@ {
        1
    } else if l == "stop"@ || l == "off"@ {
        2
    } else if l == "status"@ {
        3
    } else {
        4
    }
}

/// Reads the mode of a `patrol` command.
pub fn parse_patrol_mode(mode: &str) -> (r: PatrolRequest)
    ensures
        r is RunOnce <==> patrol_mode(mode@) == 0,
        r is Enable <==> patrol_mode(mode@) == 1,
        r is Disable <==> patrol_mode(mode@) == 2,
        r is Report <==> patrol_mode(mode@) == 3,
        r matches PatrolRequest::Unknown(m) ==> patrol_mode(mode@) == 4 && m@
            == "unknown patrol mode `"@ + lower(trim(mode@)) + "`"@,
{
    let t = trimmed(mode);
    let l = to_lower(t.as_str());
    let s = l.as_str();
    if s.unicode_len() == 0 || same(s, "once") {
        PatrolRequest::RunOnce
    } else if same(s, "start") || same(s, "on") {
        PatrolRequest::Enable
    } else if same(s, "stop") || same(s, "off") {
        PatrolRequest::Disable
    } else if same(s, "status") {
        PatrolRequest::Report
    } else {
        let a = cat("unknown patrol mode `", s);
        PatrolRequest::Unknown(cat(a.as_str(), "`"))
    }
}

/// Turns the patrol on or off and says so.
pub fn set_patrol_enabled(patrol: &mut PatrolStatus, enabled: bool) -> (r: String)
    ensures
        final(patrol).enabled == enabled,
        final(patrol).last_result@ == if enabled {
            "enabled"@
        } else {
            "disabled"@
        },
        r@ == if enabled {
            "patrol enabled"@
        } else {
            "patrol disabled"@
        },
        *final(patrol) == (PatrolStatus {
            enabled: final(patrol).enabled,
            last_result: final(patrol).last_result,
            ..*old(patrol)
        }),
{
    patrol.enabled = enabled;
    if enabled {
        patrol.last_result = owned("enabled");
        owned("patrol enabled")
    } else {
        patrol.last_result = owned("disabled");
        owned("patrol disabled")
    }
}

/// The answer to `patrol status`.
pub fn patrol_report(patrol: &PatrolStatus) -> (r: String)
    ensures
        r@ == "patrol="@ + crate::text::bool_text(patrol.enabled) + " last_result="@
            + patrol.last_result@ + " activation_required="@ + crate::text::bool_text(
            patrol.activation_required,
        ) + " warning="@ + if blank(patrol.last_warning@) {
            "none"@
        } else {
            patrol.last_warning@
        },
{
    let a = crate::text::bool_str(patrol.enabled);
    let b = crate::text::bool_str(patrol.activation_required);
    let x = cat("patrol=", a.as_str());
    let x = cat(x.as_str(), " last_result=");
    let x = cat(x.as_str(), patrol.last_result.as_str());
    let x = cat(x.as_str(), " activation_required=");
    let x = cat(x.as_str(), b.as_str());
    let x = cat(x.as_str(), " warning=");
    if is_blank(patrol.last_warning.as_str()) {
        cat(x.as_str(), "none")
    } else {
        cat(x.as_str(), patrol.last_warning.as_str())
    }
}

/// The review target: `all` when none is given.
pub fn review_target(target: &str) -> (r: String)
    ensures
        r@ == if blank(target@) {
            "all"@
        } else {
            trim(target@)
        },
{
    if is_blank(target) {
        owned("all")
    } else {
        trimmed(target)
    }
}

/// The answer to `ping`.
pub fn ping_reply(payload: &str) -> (r: String)
    ensures
        r@ == if payload@.len() == 0 {
            "pong"@
        } else {
            "PING "@ + payload@
        },
{
    if payload.unicode_len() == 0 {
        owned("pong")
    } else {
        cat("PING ", payload)
    }
}

/// The first worker of a phase, or nothing when the phase is unknown or empty.
pub fn default_selected_worker(config: &CommanderConfig, phase_name: &str) -> (r: String)
    ensures
        r@ == match phase_index(config.phases@, phase_name@) {
            Some(i) => if config.phases@[i].1.workers@.len() > 0 {
                config.phases@[i].1.workers@[0].name@
            } else {
                Seq::empty()
            },
            None => Seq::empty(),
        },
{
    match config.phase(phase_name) {
        Ok(phase) => {
            if phase.workers.len() > 0 {
                phase.workers[0].name.clone()
            } else {
                String::new()
            }
        },
        Err(_) => String::new(),
    }
}

// ---------------------------------------------------------------------------
// A new session's starting state
// ---------------------------------------------------------------------------

/// The phase a session starts in: the saved status's phase when the
/// manifest still has it, else the manifest's default phase.
pub open spec fn starting_phase(config: CommanderConfig, saved: Option<StatusSnapshot>) -> Seq<char> {
    match saved {
        Some(s) => if phase_index(config.phases@, s.phase@) is Some {
            s.phase@
        } else {
            config.project.default_phase@
        },
        None => config.project.default_phase@,
    }
}

/// The first worker of a phase, or nothing.
pub open spec fn first_worker_of(config: CommanderConfig, phase: Seq<char>) -> Seq<char> {
    match phase_index(config.phases@, phase) {
        Some(i) => if config.phases@[i].1.workers@.len() > 0 {
            config.phases@[i].1.workers@[0].name@
        } else {
            Seq::empty()
        },
        None => Seq::empty(),
    }
}

/// The shared panel settings a session starts with for `phase`.
pub open spec fn starting_ui(config: CommanderConfig, phase: Seq<char>, ui: UiState) -> bool {
    &&& ui.selected_worker@ == first_worker_of(config, phase)
    &&& ui.focused_panel@ == "workers"@
    &&& scope_view(ui.stream_scope) == scope_of(
        config.ui.default_stream_scope@,
        first_worker_of(config, phase),
    )
    &&& ui.density_mode == density_of(config.ui.default_density@)
    &&& ui.follow_tail
    &&& !ui.help_visible
}

/// The status a session starts with when none was saved.
pub open spec fn fresh_status(
    config: CommanderConfig,
    phase: Seq<char>,
    framework_version: Seq<char>,
    repo_root: Seq<char>,
    now: Seq<char>,
    st: StatusSnapshot,
) -> bool {
    &&& st.updated_at@ == now
    &&& st.repo_root@ == repo_root
    &&& st.framework_version@ == framework_version
    &&& st.project_name == config.project.name
    &&& st.phase@ == phase
    &&& !st.activation_required
    &&& st.activation_reason@ == "warming up"@
    &&& !st.agent_room_healthy
    &&& st.last_handoff_check@.len() == 0
    &&& st.last_check_status@ == "wait"@
    &&& st.last_check_warning@.len() == 0
    &&& st.workers@.len() == 0
    &&& st.recent_activity@.len() == 0
}

/// The patrol record a session starts with when none was saved.
pub open spec fn fresh_patrol(phase: Seq<char>, now: Seq<char>, p: PatrolStatus) -> bool {
    &&& p.updated_at@ == now
    &&& p.phase@ == phase
    &&& p.enabled
    &&& p.last_run_at is None
    &&& p.last_result@ == "waiting"@
    &&& p.last_error@.len() == 0
    &&& p.last_warning@.len() == 0
    &&& !p.activation_required
    &&& p.summary@ == "Patrol will refresh status and audit phase health."@
}

/// A new session's phase, shared panel settings, status and patrol record,
/// from the manifest and what was saved (the repository root as resolved
/// with the home directory `home`): saved records are kept as they are.
pub fn initial_supervisor_state_in(
    config: &CommanderConfig,
    status: Option<StatusSnapshot>,
    patrol: Option<PatrolStatus>,
    framework_version: &str,
    now: &str,
    home: &Option<String>,
) -> (r: (String, UiState, StatusSnapshot, PatrolStatus))
    ensures
        r.0@ == starting_phase(*config, status),
        starting_ui(*config, r.0@, r.1),
        match status {
            Some(s) => r.2 == s,
            None => fresh_status(
                *config,
                r.0@,
                framework_version@,
                config.repo_root_spec(crate::config::opt_view(*home)),
                now@,
                r.2,
            ),
        },
        match patrol {
            Some(p) => r.3 == p,
            None => fresh_patrol(r.0@, now@, r.3),
        },
{
    let default_phase = owned(config.active_phase_name());
    let phase = match &status {
        Some(s) => if config.phase(s.phase.as_str()).is_ok() {
            s.phase.clone()
        } else {
            default_phase
        },
        None => default_phase,
    };
    proof {
        reveal_strlit("workers");
    }
    let selected = default_selected_worker(config, phase.as_str());
    let stream_scope = parse_stream_scope(
        config.ui.default_stream_scope.as_str(),
        selected.as_str(),
    );
    let ui = UiState {
        selected_worker: selected,
        focused_panel: owned("workers"),
        stream_scope,
        density_mode: parse_density(config.ui.default_density.as_str()),
        follow_tail: true,
        help_visible: false,
    };
    let st = match status {
        Some(s) => s,
        None => StatusSnapshot {
            updated_at: owned(now),
            repo_root: config.repo_root_in(home),
            framework_version: owned(framework_version),
            project_name: config.project.name.clone(),
            phase: phase.clone(),
            activation_required: false,
            activation_reason: owned("warming up"),
            agent_room_healthy: false,
            last_handoff_check: String::new(),
            last_check_status: owned("wait"),
            last_check_warning: String::new(),
            workers: Vec::new(),
            recent_activity: Vec::new(),
        },
    };
    let pt = match patrol {
        Some(p) => p,
        None => PatrolStatus {
            updated_at: owned(now),
            phase: phase.clone(),
            enabled: true,
            last_run_at: None,
            last_result: owned("waiting"),
            last_error: String::new(),
            last_warning: String::new(),
            activation_required: false,
            summary: owned("Patrol will refresh status and audit phase health."),
        },
    };
    (phase, ui, st, pt)
}

/// A new session's starting state, with the repository root resolved
/// against the current home directory.
pub fn initial_supervisor_state(
    config: &CommanderConfig,
    status: Option<StatusSnapshot>,
    patrol: Option<PatrolStatus>,
    framework_version: &str,
    now: &str,
) -> (r: (String, UiState, StatusSnapshot, PatrolStatus))
    ensures
        r.0@ == starting_phase(*config, status),
        starting_ui(*config, r.0@, r.1),
        match status {
            Some(s) => r.2 == s,
            None => exists|h: Option<Seq<char>>|
                fresh_status(*config, r.0@, framework_version@, config.repo_root_spec(h), now@, r.2),
        },
        match patrol {
            Some(p) => r.3 == p,
            None => fresh_patrol(r.0@, now@, r.3),
        },
{
    let home = crate::paths::home_dir();
    let r = initial_supervisor_state_in(config, status, patrol, framework_version, now, &home);
    assert(status is None ==> fresh_status(
        *config,
        r.0@,
        framework_version@,
        config.repo_root_spec(crate::config::opt_view(home)),
        now@,
        r.2,
    ));
    r
}

/// A coordination bridge run: its log label, the label of its progress
/// lines, the command line, and its time limit in seconds.
#[derive(Debug, Clone)]
pub struct CoordinationRun {
    pub label: String,
    pub progress_label: String,
    pub command: Vec<String>,
    pub timeout_seconds: u64,
}

/// The run of the coordination bridge with the given arguments: labelled
/// `coordination <args>`, started as `python
/// LangGraph-Commander/scripts/coordination_bridge.py <args>`, with the
/// configured command time limit but at least a minute.
pub fn coordination_run(args: &Vec<String>, command_timeout_seconds: u64) -> (r: CoordinationRun)
    ensures
        r.progress_label@ == join(views(args@), " "@),
        r.label@ == "coordination "@ + join(views(args@), " "@),
        views(r.command@) == seq!["python"@, "LangGraph-Commander/scripts/coordination_bridge.py"@]
            + views(args@),
        r.timeout_seconds == if command_timeout_seconds >= 60 {
            command_timeout_seconds
        } else {
            60
        },
{
    let progress_label = join_texts(args, " ");
    let label = cat("coordination ", progress_label.as_str());
    let mut command: Vec<String> = Vec::new();
    push_text(&mut command, "python");
    push_text(&mut command, "LangGraph-Commander/scripts/coordination_bridge.py");
    let mut i: usize = 0;
    while i < args.len()
        invariant
            i <= args.len(),
            views(command@) == seq!["python"@, "LangGraph-Commander/scripts/coordination_bridge.py"@]
                + views(args@).subrange(0, i as int),
        decreases args.len() - i,
    {
        let ghost before = views(command@);
        command.push(args[i].clone());
        assert(views(command@) =~= before.push(args@[i as int]@));
        assert(views(args@).subrange(0, i + 1) =~= views(args@).subrange(0, i as int).push(
            args@[i as int]@,
        ));
        i = i + 1;
    }
    assert(views(args@).subrange(0, args.len() as int) =~= views(args@));
    let timeout_seconds = if command_timeout_seconds >= 60 {
        command_timeout_seconds
    } else {
        60
    };
    CoordinationRun { label, progress_label, command, timeout_seconds }
}

/// The log line that marks a run's start.
pub fn coordination_started_line(run: &CoordinationRun) -> (r: String)
    ensures
        r@ == run.label@ + ": started"@,
{
    cat(run.label.as_str(), ": started")
}

/// The log line for one line the bridge printed.
pub fn coordination_progress_line(run: &CoordinationRun, line: &str) -> (r: String)
    ensures
        r@ == run.progress_label@ + " | "@ + line@,
{
    let x = cat(run.progress_label.as_str(), " | ");
    cat(x.as_str(), line)
}

/// The answer to a finished run: a failure with the exit code and output
/// when it did not exit 0, else the completion line with the trimmed output.
pub fn coordination_finished(
    run: &CoordinationRun,
    exit_code: i32,
    output: &str,
    elapsed_seconds: &str,
) -> (r: Result<String, String>)
    ensures
        exit_code != 0 ==> (r matches Err(e) && e@ == "coordination command failed (exit "@
            + crate::text::dec_int(exit_code as int) + "): "@ + output@),
        exit_code == 0 ==> (r matches Ok(m) && m@ == coordination_result_text(
            run.label@,
            elapsed_seconds@,
            trim(output@),
        )),
{
    if exit_code != 0 {
        let code = crate::text::dec_i64(exit_code as i64);
        let x = cat("coordination command failed (exit ", code.as_str());
        let x = cat(x.as_str(), "): ");
        return Err(cat(x.as_str(), output));
    }
    let t = trimmed(output);
    Ok(format_coordination_result(run.label.as_str(), elapsed_seconds, t.as_str()))
}

/// What a finished command printed: its output lines, then its error
/// lines, each joined by newlines, the two parts on separate lines.
pub open spec fn command_text(stdout_lines: Seq<Seq<char>>, stderr_lines: Seq<Seq<char>>) -> Seq<char> {
    let out = join(stdout_lines, "\n"@);
    if stderr_lines.len() == 0 {
        out
    } else if out.len() == 0 {
        join(stderr_lines, "\n"@)
    } else {
        out + "\n"@ + join(stderr_lines, "\n"@)
    }
}

/// The output a command run reports: its printed text, trimmed.
pub fn command_output_text(stdout_lines: &Vec<String>, stderr_lines: &Vec<String>) -> (r: String)
    ensures
        r@ == trim(command_text(views(stdout_lines@), views(stderr_lines@))),
{
    let out = join_texts(stdout_lines, "\n");
    let text = if stderr_lines.len() == 0 {
        out
    } else {
        let err = join_texts(stderr_lines, "\n");
        if out.unicode_len() == 0 {
            err
        } else {
            let x = cat(out.as_str(), "\n");
            cat(x.as_str(), err.as_str())
        }
    };
    trimmed(text.as_str())
}

/// `<label> completed in <elapsed>s`, with the command output on the next
/// line when there is any. `elapsed_seconds` is the elapsed time in seconds
/// as already written out (one decimal).
pub open spec fn coordination_result_text(
    label: Seq<char>,
    elapsed_seconds: Seq<char>,
    output: Seq<char>,
) -> Seq<char> {
    label + " completed in "@ + elapsed_seconds + "s"@ + if blank(output) {
        Seq::empty()
    } else {
        "\n"@ + output
    }
}

pub fn format_coordination_result(label: &str, elapsed_seconds: &str, output: &str) -> (r: String)
    ensures
        r@ == coordination_result_text(label@, elapsed_seconds@, output@),
{
    let x = cat(label, " completed in ");
    let x = cat(x.as_str(), elapsed_seconds);
    let x = cat(x.as_str(), "s");
    if is_blank(output) {
        assert(x@ =~= x@ + Seq::<char>::empty());
        x
    } else {
        let y = cat(x.as_str(), "\n");
        cat(y.as_str(), output)
    }
}

/// Whether a queued remote command may run in this session: it names no
/// session, or this one.
pub fn session_accepts(own: &Option<String>, requested: &Option<String>) -> (r: bool)
    ensures
        r == match requested {
            None => true,
            Some(s) => own matches Some(o) && o@ == s@,
        },
{
    match requested {
        None => true,
        Some(s) => match own {
            Some(o) => same(o.as_str(), s.as_str()),
            None => false,
        },
    }
}

/// After a refresh the patrol follows the status: the phase, the time, the
/// activation flag, and a summary from the audit warning or the activation
/// reason.
pub fn refresh_patrol(patrol: &mut PatrolStatus, status: &StatusSnapshot, phase: &str, now: &str)
    ensures
        final(patrol).updated_at@ == now@,
        final(patrol).phase@ == phase@,
        final(patrol).activation_required == status.activation_required,
        final(patrol).summary@ == if eq_ic(status.last_check_status@, "warning"@) && !blank(
            status.last_check_warning@,
        ) {
            "handoff audit warning: "@ + status.last_check_warning@
        } else if !blank(status.activation_reason@) {
            status.activation_reason@
        } else {
            old(patrol).summary@
        },
        *final(patrol) == (PatrolStatus {
            updated_at: final(patrol).updated_at,
            phase: final(patrol).phase,
            activation_required: final(patrol).activation_required,
            summary: final(patrol).summary,
            ..*old(patrol)
        }),
{
    patrol.updated_at = owned(now);
    patrol.phase = owned(phase);
    patrol.activation_required = status.activation_required;
    if eq_ignore_case(status.last_check_status.as_str(), "warning") && !is_blank(
        status.last_check_warning.as_str(),
    ) {
        patrol.summary = cat("handoff audit warning: ", status.last_check_warning.as_str());
    } else if !is_blank(status.activation_reason.as_str()) {
        patrol.summary = status.activation_reason.clone();
    }
}

/// What the supervisor keeps of the last audit.
#[derive(Debug, Clone)]
pub struct AuditRecord {
    pub output: String,
    pub status: String,
    pub warning: String,
}

/// Records an audit run (exit code and output) at `now`, and gives the
/// message `handoff audit <PASS|WARN|FAIL> (exit <code>)`.
pub fn apply_audit(
    record: &mut AuditRecord,
    patrol: &mut PatrolStatus,
    exit_code: i32,
    output: &str,
    now: &str,
) -> (r: String)
    ensures
        final(record).output@ == trim(output@),
        final(record).status@ == if exit_code != 0 {
            "blocked"@
        } else if crate::policy::audit_warning(output@).len() == 0 {
            "ready"@
        } else {
            "warning"@
        },
        final(record).warning@ == if exit_code != 0 {
            Seq::empty()
        } else {
            crate::policy::audit_warning(output@)
        },
        final(patrol).last_run_at matches Some(t) && t@ == now@,
        final(patrol).last_result@ == if exit_code != 0 {
            "FAIL"@
        } else if crate::policy::audit_warning(output@).len() == 0 {
            "PASS"@
        } else {
            "WARN"@
        },
        final(patrol).last_error@ == if exit_code != 0 {
            trim(output@)
        } else {
            Seq::empty()
        },
        final(patrol).last_warning@ == if exit_code == 0 {
            crate::policy::audit_warning(output@)
        } else {
            Seq::empty()
        },
        *final(patrol) == (PatrolStatus {
            last_run_at: final(patrol).last_run_at,
            last_result: final(patrol).last_result,
            last_error: final(patrol).last_error,
            last_warning: final(patrol).last_warning,
            ..*old(patrol)
        }),
        r@ == "handoff audit "@ + final(patrol).last_result@ + " (exit "@ + crate::text::dec_int(
            exit_code as int,
        ) + ")"@,
{
    let class = crate::policy::classify_audit_result(exit_code, output);
    record.output = trimmed(output);
    record.status = class.state_label.clone();
    record.warning = class.warning.clone();
    patrol.last_run_at = Some(owned(now));
    patrol.last_result = class.status_label.clone();
    patrol.last_error = if exit_code != 0 {
        trimmed(output)
    } else {
        String::new()
    };
    patrol.last_warning = if exit_code == 0 {
        class.warning.clone()
    } else {
        String::new()
    };
    let code = crate::text::dec_i64(exit_code as i64);
    let x = cat("handoff audit ", class.status_label.as_str());
    let x = cat(x.as_str(), " (exit ");
    let x = cat(x.as_str(), code.as_str());
    cat(x.as_str(), ")")
}

/// Whether a command may only run while a live panel is attached: its first
/// word (after trimming) is one of the configured `require_live_panel_for`
/// commands, compared without regard to case.
pub fn command_requires_live_panel(config: &CommanderConfig, command: &str) -> (r: bool)
    ensures
        r == crate::policy::gate_matches(config.ui.require_live_panel_for@, trim(command@)),
{
    let t = trimmed(command);
    crate::policy::command_matches_gate(&config.ui.require_live_panel_for, t.as_str())
}

/// The workers a `start` or `stop` names in a phase: all of its workers for
/// `all` (any case), else the one named.
pub fn worker_targets(phase: &crate::config::PhaseConfig, target: &str) -> (r: Vec<String>)
    ensures
        views(r@) == if eq_ic(target@, "all"@) {
            crate::stream::worker_names(phase.workers@)
        } else {
            seq![target@]
        },
{
    if !eq_ignore_case(target, "all") {
        let mut v: Vec<String> = Vec::new();
        push_text(&mut v, target);
        assert(views(v@) =~= seq![target@]);
        return v;
    }
    let mut names: Vec<String> = Vec::new();
    let mut i: usize = 0;
    while i < phase.workers.len()
        invariant
            i <= phase.workers.len(),
            views(names@) == crate::stream::worker_names(phase.workers@.subrange(0, i as int)),
        decreases phase.workers.len() - i,
    {
        let ghost before = views(names@);
        names.push(phase.workers[i].name.clone());
        assert(views(names@) =~= before.push(phase.workers@[i as int].name@));
        assert(crate::stream::worker_names(phase.workers@.subrange(0, i + 1)) =~= crate::stream::worker_names(
            phase.workers@.subrange(0, i as int),
        ).push(phase.workers@[i as int].name@));
        i = i + 1;
    }
    assert(phase.workers@.subrange(0, phase.workers.len() as int) =~= phase.workers@);
    names
}

} // verus!
