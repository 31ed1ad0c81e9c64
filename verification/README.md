# db_back_tool

A database backup tool: PostgreSQL or MySQL dumps are compressed into
password-protected 7z archives, uploaded to object storage, and removed again
once they fall out of the retention window.

- `src/` is the verified library (Verus). It holds the retention rule, the
  naming and dating of backup files, object keys, the choice of archives to
  clean up, the configuration defaults and choices, the command lines of the
  dump and archive programs, and the backup, upload and delete commands as
  step machines. `src/laws.rs` states the properties that span functions.
- `app/` performs what the library asks for: it runs the programs, reads and
  writes files, talks to the storage and the webhook, and loads the
  configuration files.
- `tests/` exercises the library on concrete values.
