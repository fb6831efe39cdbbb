//! A proof-of-existence claim registry.
//!
//! A claim binds a digest (an opaque, length-bounded byte string) to the
//! account that owns it and to the block height at which it was recorded.
//! The registry keeps at most one live claim per digest and lets only the
//! owner revoke or transfer it.

pub mod laws;
pub mod pallet;
pub mod rules;
pub mod store;
pub mod types;

pub use pallet::Pallet;
pub use rules::{Effect, Mutation};
pub use store::ClaimStore;
pub use types::{AccountId, BlockNumber, Claim, Config, Error, Event};
