# pos_backend

The verified core of a POS + CMS backend: dashboard (employee) and customer
authentication, invitations, token and password handling, e-mail composition,
configuration decisions and the database schema, written in Verus.

- `src/` is the library. Every function there is verified against its
  contract; calls into outside crates (bcrypt, sha2, hex, rand, uuid, chrono,
  jsonwebtoken, http) sit behind small trusted wrappers whose contracts say what
  those crates do. The tables that the services work on are modelled in memory
  (`repositories::Database` for employees, `features::auth::store::UserTables`
  for customers), with their keys and unique columns as invariants.
  Where an operation reads the clock, draws random tokens or ids, or hashes a password,
  an `_at` form takes the clock reading and a `_with` form (or
  `register_hashed` / `create_owner`) also takes the drawn values, with a
  contract that says exactly when it succeeds for them.
  The properties that span several calls (a refresh token is used once, logging
  out revokes, an address registers once, ...) are proof functions in the
  `properties` modules.
- `app/` is the HTTP server (axum), with the dashboard routes under
  `/api/v1/dashboard` and the customer routes under `/api/v1/auth`:
  configuration from the environment and the command line (clap), JSON forms of the request and response types (serde),
  reading the access token from the request, SMTP delivery (lettre), rate limiting and CORS, and the
  `migrate` command that renders the schema statements as SQL (sea-query) and
  runs them (sqlx).
- `tests/` exercises the library on concrete values.
