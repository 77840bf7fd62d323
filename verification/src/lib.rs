//! A tokenized security offering: a hierarchy of identity capability badges
//! (admin/manager/agent/client), a fixed-supply security token redeemable
//! against a reserve currency at a configurable price, and permission-guarded
//! issuance of real-world-asset tokens.
//!
//! The distributed-ledger host (address allocation, capability proofs,
//! vault custody, account deposits) is an external collaborator: this
//! library holds the policy and state-transition logic, and the host
//! performs the resulting actions.

pub mod amount;
pub mod assets;
pub mod auth;
pub mod errors;
pub mod token;
