//! The plain data the registry works on.

use vstd::prelude::*;

verus! {

/// An identity: the authenticated caller of an operation, or the owner of a claim.
pub type AccountId = u64;

/// A block height, as supplied by the host for each operation.
pub type BlockNumber = u64;

/// What the registry records for a digest.
#[derive(Clone, Copy, Debug, PartialEq, Eq, Structural)]
pub struct Claim {
    /// The account that may revoke or transfer the claim.
    pub owner: AccountId,
    /// The height of the most recent creation or transfer.
    pub recorded_at: BlockNumber,
}

/// The registry's configuration.
#[derive(Clone, Copy, Debug, PartialEq, Eq, Structural)]
pub struct Config {
    /// The greatest number of bytes a digest may have.
    pub max_claim_len: u32,
}

/// Why an operation was rejected.
#[derive(Clone, Copy, Debug, PartialEq, Eq, Structural)]
pub enum Error {
    /// The digest already has a live claim.
    ProofAlreadyClaimed,
    /// The digest has no live claim.
    NoSuchProof,
    /// The caller is not the owner of the digest's claim.
    NotProofOwner,
    /// The digest is longer than the configured maximum.
    InvalidClaimLength,
    /// The destination of a transfer could not be resolved to an account.
    InvalidDestination,
}

/// What a successful operation reports to the host, which emits it.
#[derive(Debug, PartialEq, Eq)]
pub enum Event {
    /// A claim was created: the new owner and the digest.
    ClaimCreated(AccountId, Vec<u8>),
    /// A claim was revoked by its owner: the owner and the digest.
    ClaimRevoked(AccountId, Vec<u8>),
    /// A claim changed hands: the previous owner, the new owner and the digest.
    ClaimTransferred(AccountId, AccountId, Vec<u8>),
}

/// An event as contracts speak of it, with the digest as a sequence of bytes.
pub enum EventView {
    ClaimCreated(AccountId, Seq<u8>),
    ClaimRevoked(AccountId, Seq<u8>),
    ClaimTransferred(AccountId, AccountId, Seq<u8>),
}

impl View for Event {
    type V = EventView;

    open spec fn view(&self) -> EventView {
        match *self {
            Event::ClaimCreated(who, digest) => EventView::ClaimCreated(who, digest@),
            Event::ClaimRevoked(who, digest) => EventView::ClaimRevoked(who, digest@),
            Event::ClaimTransferred(from, to, digest) => EventView::ClaimTransferred(
                from,
                to,
                digest@,
            ),
        }
    }
}

} // verus!
