# avu

Avu is a terminal cockpit over Hermes and OpenClaw agent backends: it shows
what the backend is doing (mode, tools, approvals, voice), lets the operator
chat, run shell and backend commands, and answer approvals, and hands the
terminal to Hermes for real voice sessions.

## Layout

- `src/` — the verified library (Verus). Every decision the cockpit makes is
  here with its contract:
  - `tui` — the input line, what each key does, approval routing, refresh
    merging, the footer and activity-log text;
  - `engine` — how backend events project onto the cockpit's mode;
  - `runtime` — reading Hermes/OpenClaw status, logs and configuration text;
  - `backend`, `backend_events` — backend commands, their output and events;
  - `intent`, `voice`, `voice_activation`, `gateway` — wake intents and the
    approval rule, the voice state machine, voice readiness, gateway profiles;
  - `doctor`, `install`, `setup`, `hud`, `config`, `domain`, `cli` — reports,
    the radar frame, settings and the plain data types;
  - `text`, `clock`, `json` — string helpers, and the calls into `chrono` and
    `serde_json`, each behind a small trusted wrapper.
- `app/` — the `avu` program: clap arguments, processes, files, the
  terminal (ratatui/crossterm), threads, serde copies of the library types,
  and the radar's floating-point drawing.
- `tests/` — the test suite, run against the compiled library.
