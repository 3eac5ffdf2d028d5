//! Accounting core of a custodial-style wallet backend.
//!
//! The library classifies every tracked ledger output into one of five
//! mutually exclusive lifecycle states (unspent, pending, spent, secreted,
//! orphaned), aggregates those states into per-account and per-address
//! balances, and folds per-account balances together with per-account sync
//! cursors into a wallet-wide status snapshot.
//!
//! The persistent store and the ledger are external collaborators: a balance
//! query observes one snapshot-consistent view of the accounts and outputs,
//! which is modelled here by the [`store::WalletStore`] value handed to each
//! query. All aggregation is a pure fold over that snapshot.

pub mod balance;
pub mod classify;
pub mod laws;
pub mod rpc;
pub mod spendable;
pub mod store;
pub mod sums;
