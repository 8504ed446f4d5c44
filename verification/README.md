# telemetry_engine

A causal integrity engine. It reads events one at a time, remembers per entity what each event
establishes, and reports a variance whenever an event arrives without the events that have to
precede it: a token without a login, an admin action without a current role, a hot rack without
a declared workload, automation on unvalidated state, a privileged action in a session that is
not alive, not verified or cold.

The library under `src/` is verified with Verus:

- `events`, `variance`, `store`, `text`, `ordering`, `freshness`: the common ground.
- `state` and `engine` (identity), `control_plane`, `thermal`, `automation`, `ztna` (sessions):
  the engines. Each has a model that says what is known after an event and what is reported on
  it, and the executable engine is proved to follow it.
- `checks`, `snapshot`: the explanation of each check, and what the engines know at a time.
- `graph`: the transitions that entities owe, and their rendering for a terminal.
- `scenario`, `narratives`, `js`, `page`: scripted runs, the demonstration, and its dashboard.
- `laws`: what holds of the engines together, over whole streams of events.

`tests/` runs the library, and `app/` is the program that writes the dashboard to
`dashboard.html` and opens it.
