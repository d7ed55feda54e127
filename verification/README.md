# wallet_service

A digital wallet service: wallets with exact decimal balances, funding and
transfers between wallets under optimistic concurrency, and an event for every
change, published to Kafka.

- `src/` is the verified library (Verus):
  - `money` — exact decimal amounts, compared and added through `rust_decimal`;
  - `identity` — wallet and transaction identifiers, timestamps;
  - `wallet` — wallet records, requests and responses;
  - `events` — the wallet events and their partition keys;
  - `errors` — store failures and HTTP refusals;
  - `transfer` — the transfer protocol that the store runs in one
    transaction, as a state machine, with its laws (lock order, commit only
    after both guarded updates, no commit after a failure, refusal of an
    insufficient balance, no overdraft; conservation of the total where
    `rust_decimal` computes the debit and the credit without rounding, that
    is where the exact results fit in 96 bits at the larger scale);
  - `handlers` — the decisions of the HTTP handlers.
- `app/` is the service around it: configuration, the Postgres store
  (sqlx), the Kafka producer (rdkafka), the HTTP server (actix-web), and the
  JSON and database shapes of the library's values.
- `tests/` runs the library on concrete values.
