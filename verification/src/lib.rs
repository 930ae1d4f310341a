//! A single-asset fungible-token ledger.
//!
//! The ledger tracks ownership of a fixed total supply among accounts that
//! must opt in before they may hold a balance. It supports transfers,
//! selective freezing, privileged role reconfiguration, forced reclamation
//! and a guarded terminal destruction, each a small verified state
//! transition. The hosting environment supplies the caller identity for
//! each invocation and delivers the notification record that every
//! successful mutation returns.

pub mod account;
pub mod table;
pub mod ledger;

pub use account::AccountId;
pub use ledger::{Creation, Destruction, Error, Freeze, Modify, OptIn, OptOut, Revoke, Subsa, Transfer};
