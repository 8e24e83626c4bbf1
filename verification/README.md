# LangGraph-Commander

A supervisor and terminal command deck for multi-agent project work: it
starts and stops worker processes per phase, gates launches on the
coordination plan, runs handoff audits and patrols, keeps an activity feed,
and drives a four-quadrant live panel.

The library (`src/`) holds the logic, each function with a contract proved
by Verus:

- `text`, `paths` — character-level text helpers and path joining.
- `config` — the `commander.toml` model: phases, workers, resolved paths.
- `runtime` — snapshots, worker thread state, the runtime file layout and
  the assistant brief.
- `activity` — the activity feed: densified messages, merging of repeats,
  the bounded buffer.
- `policy` — audit classification, launch gates, activation, labels.
- `workers` — worker snapshots, handoff status, start/stop state changes.
- `supervisor` — the command grammar and the shared panel settings.
- `stream` — routing of CLI commands, the streamed view and status report.
- `provider` — the model provider profile and its candidate config paths.
- `panel`, `panel_text`, `panel_commands`, `panel_keys`, `panel_view` — the
  live panel's state, local commands, key handling and the texts it draws.

`app/` is the program around it: the command line, file and process I/O,
threads, the terminal UI drawing, and serde/TOML reading of runtime files.
