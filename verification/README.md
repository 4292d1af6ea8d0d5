# wara_backend (verified core)

The logic of the Wara platform backend, written in Verus and proved against
its contracts:

- `docker`: deploy kinds and the Docker command scripts for image, Compose
  and Dockerfile deploys, including the path joining they rest on.
- `migrations`: the migration catalog, SHA-256 checksums, the plan of a run
  against the history table, its report, and the laws of a run (a fresh
  database applies everything, a re-run is a no-op, a modified applied
  migration stops the run).
- `ssh`: SSH targets, public-key fingerprints and command scripts.
- `requests`, `validation`, `telemetry`: request bodies and their field rules,
  and the platform-only telemetry settings.
- `entities`, `users`, `errors`, `queues`, `templates`: records, their
  presentations, and the decisions of the project services.
- `hashing`, `text`, `external`: the trusted calls into sha2, base64, std and
  validator, and the hex and string helpers proved on top of them.

`app/` holds the I/O: PostgreSQL migrations, Toasty models and services,
telemetry set-up, the HTTP-facing type copies and the binaries' mains.
Migration SQL files are read at run time from `WARA_MIGRATIONS_DIR`
(default `migrations`), one `<version>.sql` per catalog version.
