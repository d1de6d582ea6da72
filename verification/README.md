# uledger

The uLedger server: a small double-entry ledger with user accounts, e-mail
verification and an htmx front end.

- `src/` is the library, written in Verus. It holds the server's logic with
  its contracts: validated e-mail addresses and verification tokens, password
  hashing and sign-in, the configuration values, the htmx headers, the
  Postmark and SMTP messages, the ledger's records, which static assets are
  served and cached, and the answers of the handlers whose logic is present
  here. Calls into outside crates (regex, hex, rand, argon2, base64, chrono,
  serde_json, lettre, mini_moka) go through small trusted functions whose
  contracts are documented where they stand.
- Stylesheets are compiled with grass in `app/`: grass stops with a panic
  on some stylesheets, so the library makes no promise about that call; the
  program catches such a panic and answers it as a compiler error.
- `app/` is the program around it: configuration from the environment, the
  axum router, the database queries, sessions, and sending mail.
- `tests/` runs the library with the real outside crates.
