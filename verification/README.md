# oca_repository

The request logic of an OCA bundle repository, verified with Verus.

- `src/` — the verified library: the cache of built OCA files (`cache`,
  `hashing`), request checks and defaults for each route (`routes`), SAID and
  language parameters (`said_param`, `language`), settings (`configuration`,
  `logging`), namespace tokens (`routes::namespaces`), Base64 as RFC 4648
  defines it (`base64`) and text helpers
  (`text`).
- `app/` — the HTTP server around it (actix-web), the OCA store calls,
  configuration loading and logging set-up.
- `tests/` — tests of the library on concrete values.
