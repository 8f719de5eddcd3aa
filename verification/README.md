# zaps

The verified core of a social payments platform on Stellar, written in Verus.

- `src/` is the library. Each module states its behaviour in `requires` /
  `ensures` contracts over mathematical models (`Seq`, `Map`, `int`) and
  Verus proves them.
  - On-chain contracts: `fee_distribution`, `merchant_vault`,
    `payment_batch`, `yield_vault`, `social_graph`, `social_payment`,
    `user_registry`, all running against the environment model in `host`
    (addresses, authorisation, ledger sequence, token balances).
  - Backend decisions: `yield_calc`, `yield_reports`, `yield_api`, `sweep`,
    `bridge`, `users_api`, `social_api`, `notifications`, `schedules`,
    `payments`, `soroban`, `rate_limit`, with `api` (errors and replies),
    `text` (decimal, JSON and base64 building blocks) and `ids` (UUIDs).
  - Calls into outside crates (base64, hex, serde_json, uuid,
    ed25519-dalek, hmac/sha2) go through small trusted wrappers whose
    contracts are stated next to them; dates are held as plain values
    (`yield_calc::UtcDateTime`) and their difference is computed in verified
    code; properties spanning several calls are
    public proof functions named `lemma_*`.
- `tests/` runs the library on concrete values.
- `app/` is the HTTP server and the background workers (axum, sqlx, reqwest,
  tokio): it reads requests and the database, calls the library for every
  decision, and performs what the library decides.
