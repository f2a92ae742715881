# gaia

The rules of GAIA, a private chain for community self-governance, as a
verified library, with the local tester program around it.

- `src/primitives.rs` — accounts, origins, dispatch errors, bounded byte
  strings, pallet sovereign accounts and the saturating threshold test.
- `src/membership.rs` — the member registry: admission proposals with a
  submit-time snapshot threshold, self and peer suspension, governance-set
  parameters, genesis and storage migration.
- `src/balances.rs` — free balances of accounts and transfers between them.
- `src/treasury.rs` — the treasury: deposits and disbursements move real
  tokens through its pallet-id sovereign account, and its ledger never goes
  below zero.
- `src/proposals.rs` — classed governance proposals with typed actions:
  submit, vote, tally, and execution at most once after the execution delay.
- `src/runtime.rs` — the three pallets wired together with the balances and
  a block number.
- `src/genesis_presets.rs` — the development and local-testnet presets.
- `src/tester/` — the tester's personas and their development keys, list
  views, code-hash text and command grammar.
- `tests/` — scenarios for each pallet, for the wired runtime and for the tester.
- `app/` — the tester program: argument handling and calls to a node.
