# bent

The control service of the Bent submission system: employees file
submissions through one-time links that a Telegram bot hands out, inspectors
and administrators sign in and decide on them.

## Layout

- `src/` — the library, verified with Verus. Every decision of the service
  lives here with its contract:
  - `tokens` — one-time submission tokens: issue, check, spend. An employee
    submission (`submissions::employee_submission`) returns the spent token row
    with the submission, and the store writes both in one transaction.
  - `sessions` — refresh-token sessions: opening, rotation, expiry and
    reuse detection (a revoked token revokes every session of its user).
  - `auth` — role tokens (`JwtService`), access tokens (`auth::jwt`) and the
    Bearer guard (`auth::middleware`).
  - `submissions` — who files a submission and as whom, the administrators' list's
    paging, status changes.
  - `handlers` — sign-in, login, logout and profile decisions.
  - `extractors`, `error`, `models`, `bot` — role guards, errors with their
    HTTP status and client text, the records, the bot's replies.
  - `crypto`, `ids`, `jwt_codec`, `clock`, `encoding` — the calls into
    `sha2`, `hex`, `rand`, `argon2`, `uuid`, `jsonwebtoken` and `chrono`,
    each behind a small wrapper whose contract names what the crate
    computes, and the specifications of the text forms involved.
- `tests/` — tests of the library on concrete values, with the real crates.
- `app/` — the program: the axum server, the PostgreSQL store (sqlx), the
  Telegram bot (teloxide) and the standalone token service
  (`bent token-service`). It reads requests, the clock and the database and
  hands plain values to the library.

## Running

The server reads `DATABASE_URL`, `JWT_SECRET` and `PUBLIC_BASE_URL`; the bot
reads `TELOXIDE_TOKEN` and `TOKEN_API_URL`.
