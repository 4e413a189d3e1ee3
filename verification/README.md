# subscription_vault

The verified core of a Soroban subscription vault.

- `src/` is the library, verified with Verus: the storage-key registry and its
  instance-storage allowlist, error codes, the contract's record and event types,
  amount normalisation between token decimals and the common 9-decimal scale,
  the per-token accounted total, the token-balance invariant check, coupon
  discounts, and the dispute / chargeback workflow (open, respond, resolve).
  The workflow operates on `VaultState`, an in-memory model of the storage cells
  it reads and writes; each operation's contract states the resulting state
  exactly (and that a refused operation changes nothing), and proof functions
  state the workflow's laws (escrow accounting, double-open prevention,
  auto-resolution, finality of resolutions). `escrow` proves that a merchant's
  funds (balance plus escrow of its unresolved disputes) are conserved by every
  dispute operation except a payout to the subscriber; for an open this needs the
  id about to be handed out to be unused, which consistent dispute records (and so
  every run from a vault without disputes) guarantee. `dispute_trace` proves, for
  any sequence of calls from a vault without disputes, which disputes are stored,
  what an untouched opened dispute reads back as, and what a subscription's active
  dispute is.
- `app/` is the Soroban contract around it: it authorises callers, loads the
  cells an operation needs from ledger storage into a `VaultState`, calls the
  library with the ledger time, writes the changed cells back, then performs the
  token transfer and publishes the event the library returned.
- `tests/` exercises the library on concrete values.
