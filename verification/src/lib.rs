//! A pro-rata commission accounting ledger.
//!
//! An external actor periodically deposits a fungible "commission" asset;
//! every holder of a separate reference asset is entitled to a share of each
//! deposit proportional to their reference-asset balance at the moment of
//! deposit.  The ledger achieves this without iterating over holders by
//! maintaining a global, scaled commission-per-unit accumulator and a
//! per-account checkpoint of that accumulator.
//!
//! Reference-asset balances, total supply and custody transfers are owned by
//! an external balance-and-supply oracle, modelled here by the
//! [`oracle::Oracle`] capability trait; [`oracle::MemoryOracle`] is a verified
//! in-memory implementation of it.

pub mod kv;
pub mod laws;
pub mod oracle;
pub mod vault;
