//! An escrow-mediated exchange engine.
//!
//! A party deposits a unique asset into custody and publishes a price; a
//! second party atomically pays that price and receives the asset; the
//! original owner may instead atomically reclaim the asset, cancelling the
//! offer. A companion set of session records applies the same custody
//! pattern to fungible stakes committed by multiple participants.
//!
//! The crate proves the escrow-custody and atomic-settlement protocol:
//! custody accounts and offer records are created and destroyed together,
//! settlement legs either all happen or none happen, fee arithmetic cannot
//! underflow, and the authority allowed to move custodied funds is a
//! deterministically derived address rather than a human key.

pub mod accounts;
pub mod derivation;
pub mod errors;
pub mod marketplace;
pub mod policy;
pub mod session;
