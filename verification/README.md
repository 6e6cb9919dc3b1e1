# kernelia

A support assistant's decision core, verified with Verus.

- `src/` is the verified library: query analysis, routing, retrieval
  scoring by counts, risk and decision rules, the tool-calling exchange,
  live-state observations, memory and trace records, settings and accounts,
  the core event log and task queue, markdown corpus parsing, tool
  verification and the encryption of stored secrets.
- `tests/` exercises the library from outside.
- `app/` is the runtime around it: files and the SQLite store, requests to
  the model server, floating-point scores and measured live state, the
  commands the window calls, and the loops that alternate those requests
  with the library's decisions.
