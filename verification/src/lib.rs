//! GAIA: community self-governance on a private chain.
//!
//! The library holds the rules of the GAIA chain: the membership registry with
//! its admission and suspension votes, account balances, the treasury with its
//! sovereign account and ledger, the typed
//! governance proposals with their class thresholds and execution delay, the
//! runtime wiring between them, the genesis presets, and the local tester's
//! personas, list views, code-hash text and command grammar.
pub mod primitives;
pub mod balances;
pub mod membership;
pub mod treasury;
pub mod proposals;
pub mod runtime;
pub mod genesis_presets;
pub mod tester;
