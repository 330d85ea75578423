# lrzcc

A client for the LRZ-specific features of the OpenStack-based LRZ Compute Cloud
(budgeting, accounting, quotas, flavors, users and projects), written in Verus.

- `src/` is the library, verified by Verus. It plans every request as a plain value
  (method, URL with its query string, body, expected status), checks answers, builds the
  password authentication body, and holds the decisions of the command line client:
  output formats, which request each command sends, and the lookup of flavors and users
  by name. Calls into `serde_urlencoded`, `reqwest`'s URL parser and header check,
  `http` status phrases, `serde_json`, `jzon` and `chrono` stand behind small trusted
  wrappers whose contracts state what those crates do.
- `app/` is the command line program around it: argument parsing with `clap`, sending
  the planned requests with `reqwest`, and printing answers as JSON or `tabled` tables.
- `tests/` runs the library on concrete values.
