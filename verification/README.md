# subrail

The rulebook of SubRail, a recurring-payments protocol with prepaid
balances, written in Verus and proved against its contracts.

- `src/types.rs`: accounts, plans, subscriptions, lifecycle states, charge
  outcomes and the token transfers an operation asks for.
- `src/errors.rs`: why a request is refused.
- `src/billing.rs`: the rules for one subscription (open, charge, pause,
  resume, cancel, deposit, withdraw), each a spec function with an
  executable implementation proved equal to it.
- `src/storage.rs`: the protocol state (admin, counters, plans,
  subscriptions, per-account indexes) and its accessors.
- `src/lib.rs`: the entry points, each specified as a transformer of the
  abstract state.
- `src/laws.rs`: properties across calls and states (never early, at most one
  period per charge, escrow equals balances, lifecycle edges, terminal states,
  exact indexes, fresh identifiers, ...).
- `app/lib.rs`: the Soroban contract: ledger storage, authorization, token
  transfers and events around the verified entry points.
