# casefile

The verified core of a desktop case-analysis workbench: analysts collect
materials, objects, relations and timeline events for a case, and every
change is recorded in an audit log.

- `src/` — the library, verified with Verus. It holds the rules of the
  application: the settings catalog and its validators, the normalization of
  every form, the role- and policy-based permission decisions, the account
  checks of protected commands, the session, the audit details and CSV
  export, the change lists recorded for updates, SQL text built from filters,
  sequential codes, and the fingerprint and MIME type of imported files.
- `tests/` — tests of the library on concrete values.
- `app/` — the shell around the library: SQLite access, file copying,
  identifiers and clocks. It asks the library for every decision.
