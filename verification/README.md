# gpang_ledger

The ledger of the GPANG network — token accounting, gas metering,
zero-proof checks, custom tokens and smart-contract records, provider,
node and task registries, task-proof consensus and block rewards — as a
library verified with Verus.

## Layout

- `src/` — the verified library.
  - `table.rs` — the insertion-ordered string-keyed table that holds every
    registry of the ledger.
  - `types.rs` — the records kept on chain; floating-point quantities are
    held as their IEEE-754 bit patterns.
  - `text.rs`, `statement.rs`, `zero_proof.rs` — numerals, trimming and
    case, the canonical JSON statement a zero proof commits to, intrinsic
    gas and transaction construction.
  - `ledger.rs`, `transfers.rs`, `tokens.rs`, `contracts.rs`, `tasks.rs`,
    `execution.rs` — balances and every payload a transaction carries, the
    gas charge and block commits.
  - `chat.rs`, `consensus.rs`, `rewards.rs` — chat aggregation, task-proof
    rounds, block production and staking rewards.
  - `registry.rs`, `genesis.rs`, `summary.rs`, `payer.rs`, `parse.rs`,
    `requests.rs` — registrations, the testnet snapshot, the network
    summary, default gas payers and operator input.
  - `laws.rs` — properties that span operations.
- `tests/` — tests of the library on concrete values.
- `app/` — the node (REST API, consensus loop, JSON persistence), the
  operator CLI, host telemetry, and the floating-point scheduling and
  scoring that the ledger queues as follow-up work.
