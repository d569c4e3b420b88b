# oynk-settlement

Verified core of the Oynk settlement protocol, a two-sided settlement and
liquidity network on Soroban.

- `src/` is the library, written in Verus and verified:
  - `validation.rs`: amounts, supported currencies and settlement routes;
  - `lifecycle.rs`: the request lifecycle as mathematical functions, one per
    contract call, and `step`, which names any of them;
  - `protocol.rs`: the executable contract calls, each proved equal to its
    lifecycle function;
  - `laws.rs`: the request invariant and the properties that hold across
    calls (escrow conservation, terminal states, replay safety, at most one
    deposit, payout and confirmation per leg over any run of calls, who can
    receive value, fixed identity, lifecycle edges, expiry, claim conditions,
    unique ids);
  - `disputes.rs`, `registry.rs`, `treasury.rs`: the dispute (one per payment), settler
    registry and treasury contracts' rules;
  - `types.rs`, `errors.rs`, `events.rs`, `utils.rs`: shared types and checks.
- `app/` holds the Soroban contracts: storage, authorization, token transfers
  and events around the library's decisions.
- `tests/` runs the library through full settlement lifecycles, with a small
  in-memory host for balances and storage.
