# hidden_photos

Access control for hidden photos and the schema migrations of the photo
library database, written in Verus.

* `src/session.rs`: the in-memory unlock flag (a new session is locked).
* `src/pin.rs`: salted, iterated SHA-256 PIN hashing, the stored PIN record,
  and the rules for setting and verifying a PIN.
* `src/os_auth.rs`: how Touch ID / Windows Hello answers map to an unlock
  outcome, and what `unlock_hidden` reports.
* `src/migration.rs`: the migration table, the plan of steps for a stored
  schema version, and the step machine (`begin_check_and_migrate`,
  `check_and_migrate`) that hands the database work to the caller one action
  at a time.
* `src/text.rs`: decimal rendering, ASCII case-insensitive comparison, blank text.
* `src/primitives.rs`: the trusted wrappers over `sha2`, `base64` and `rand`.
* `app/`: the process-wide session, the PIN file on disk, the OS prompts and
  the SQLite connection (`rusqlite`) that performs the migration actions.
