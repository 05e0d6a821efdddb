//! A custodial fund-splitting escrow ledger.
//!
//! A single persisted record holds an owner, the most recent depositor, two
//! beneficiary slots (identity plus balance each), and an expiration threshold
//! fixed at creation. A deposit is split evenly (truncating) between the two
//! slots; each beneficiary may withdraw against its own slot, subject to
//! authorization and a balance check. The exec operations are specified
//! against a ghost transition model, and the ledger's laws are proved over
//! that model.

pub mod contract;
pub mod error;
pub mod laws;
pub mod ledger;
pub mod msg;
pub mod state;
