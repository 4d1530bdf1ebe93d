# simard_dashboard

The verified core of Simard's operator dashboard. `src/` is a Verus library.
Its functions carry contracts that Verus proves, apart from a handful of
small trusted wrappers around outside calls (std, `serde_json`, `chrono`,
`uuid`), whose contracts are stated from those crates and not proved. The
laws the dashboard promises (session cookies admit their holder, a listed
session order is newest first, a resubmitted report is a duplicate, a
rendered detail never shows brain vocabulary, tailing a log loses no byte,
removing a host undoes its addition, …) stand as public proof functions
beside the code they speak of.

- `src/` — the library: request validation and authentication decisions,
  the chat socket's state machine and chat-session storage decisions,
  feedback de-duplication, text humanisation
  for the Goals and Brain tabs, VM probe and vacate parsing, the goal-board
  edits and the Goals reply, the log-tail state machine, and the rendered
  dashboard page.
- `tests/` — unit and scenario tests run against the compiled library.
- `app/` — the axum routes, file and process I/O, and the JSON of the
  replies for the tabs whose data sources are available, calling the
  library for their decisions. The chat socket loop performs the actions
  the library's step function returns; the meeting backend it talks to is
  supplied by the host program through the `MeetingPort` trait.
