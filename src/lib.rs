//! A registry of proof-of-existence claims: each content fingerprint maps to
//! the account that claimed it and the block at which the claim was made.
pub mod laws;
pub mod pallet;
pub mod store;

pub use pallet::{Config, Error, Event, Pallet};
pub use store::{BlockNumber, ClaimRecord, Proofs};
