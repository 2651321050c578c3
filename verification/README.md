# aether-quantum-vault

Campaign escrow, milestone verification and oracle attestation for creator
campaigns, with the contracts proved by Verus.

- `src/` — the verified library:
  - `types.rs` — creator, campaign, milestone and error types;
  - `escrow.rs` — the escrow state machine (create, fund, activate, verify,
    approve, release, refund, settle), each operation specified by its
    outcome and its effect on the escrow;
  - `accounting.rs` — the escrow's books: released payouts against the deposit;
  - `laws.rs` — properties of the escrow across operations (allowed state
    transitions, total conservation, no premature release, no double spend,
    authenticity threshold, timeout refund);
  - `milestone.rs` — the release predicate and milestone summaries;
  - `digest.rs`, `oracle.rs` — SHA-256 digests in hex and attestation signatures;
  - `reciprocity.rs` — co-engagement counts between actors, strong reciprocal
    partners and pod ring sizes. The counts are kept in a `Vec` of pairs with
    the invariant `pairs_wf` (each unordered pair once, distinct actors,
    positive count) rather than a `HashMap` keyed by `String` pairs, whose
    lookups vstd does not specify for `String` keys;
  - `scoring.rs` — sample-size and pod-count rules of the scoring engine;
  - `messages.rs` — the messages of the error types and decimal rendering;
  - `clock.rs` — the wall clock.
- `app/` — the HTTP service and the floating-point scoring engines (pod
  detection geometry, bot filtering, pricing, attention pruning, weighted
  authenticity score), built on the `aether_core` runtime.
- `tests/` — tests of the library.
