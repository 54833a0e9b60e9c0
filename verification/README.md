# audit_userspace_rs

Rust access to the Linux audit log parser (libauparse), with its decisions verified by Verus.

- `src/` is the verified library: the audit record types and their numbering
  (`auparse::types`), the parsed `Entry` and its construction from the parser's fields
  (`auparse::entry`), the error type (`auparse::error`), the missing-field rule
  (`auparse::util`), channel handles that carry the identity of their channel (`auparse::channel`), the
  feed's channels and counting (`auparse::feed`: `Stream`, `Pump`),
  and the decisions of the scan for boot events (`scan_step`, with the proof that successive
  scans yield every boot, in order).
- `app/` holds what talks to libauparse (its C declarations, the parser handles `Log`,
  `Logs`, `Feed`, the callbacks and threads), the top-level boot `Entry`, and turns timestamps into `SystemTime`.
- `tests/` runs the library on concrete values.
