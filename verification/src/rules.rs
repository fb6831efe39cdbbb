//! The rules of the registry.
//!
//! Each operation reads the claim that is currently stored under its digest,
//! checks its preconditions in a fixed order and, if all of them hold, yields
//! one storage mutation and one event. The spec functions of this module say
//! which error an operation meets and what the claims are afterwards; the
//! executable functions decide the same from the values that a host read.

use vstd::prelude::*;

use crate::types::{AccountId, BlockNumber, Claim, Error, Event, EventView};

verus! {

/// The live claims, as a map from digest to claim.
pub type Claims = Map<Seq<u8>, Claim>;

/// The claim that `claims` holds under `digest`, if it holds one.
pub open spec fn claim_of(claims: Claims, digest: Seq<u8>) -> Option<Claim> {
    if claims.contains_key(digest) {
        Some(claims[digest])
    } else {
        None
    }
}

/// Whether every digest that has a claim is at most `max_claim_len` bytes long.
pub open spec fn within_limit(claims: Claims, max_claim_len: u32) -> bool {
    forall|digest: Seq<u8>| #[trigger] claims.contains_key(digest) ==> digest.len() <= max_claim_len
}

/// The error that creating a claim for `digest` meets, where `current` is the
/// claim stored under `digest`: the digest is too long, or else it is claimed
/// already. `None` where the claim is created.
pub open spec fn create_error(max_claim_len: u32, digest: Seq<u8>, current: Option<Claim>) -> Option<
    Error,
> {
    if digest.len() > max_claim_len {
        Some(Error::InvalidClaimLength)
    } else if current is Some {
        Some(Error::ProofAlreadyClaimed)
    } else {
        None
    }
}

/// The error that `sender` meets when acting as the owner of the claim
/// `current`: there is no claim, or else it belongs to another account.
/// `None` where `sender` owns the claim.
pub open spec fn owner_error(current: Option<Claim>, sender: AccountId) -> Option<Error> {
    match current {
        None => Some(Error::NoSuchProof),
        Some(claim) => if claim.owner != sender {
            Some(Error::NotProofOwner)
        } else {
            None
        },
    }
}

/// The error that revoking the claim `current` meets for `sender`.
pub open spec fn revoke_error(current: Option<Claim>, sender: AccountId) -> Option<Error> {
    owner_error(current, sender)
}

/// The error that transferring the claim `current` meets for `sender`, where
/// `dest` is the account that the destination resolved to, if it resolved:
/// first the errors of ownership, then the unresolved destination.
pub open spec fn transfer_error(
    current: Option<Claim>,
    sender: AccountId,
    dest: Option<AccountId>,
) -> Option<Error> {
    match owner_error(current, sender) {
        Some(error) => Some(error),
        None => if dest is None {
            Some(Error::InvalidDestination)
        } else {
            None
        },
    }
}

/// The claims after `sender` asked at height `now` to create a claim for `digest`.
pub open spec fn after_create(
    max_claim_len: u32,
    claims: Claims,
    sender: AccountId,
    digest: Seq<u8>,
    now: BlockNumber,
) -> Claims {
    if create_error(max_claim_len, digest, claim_of(claims, digest)) is None {
        claims.insert(digest, Claim { owner: sender, recorded_at: now })
    } else {
        claims
    }
}

/// The claims after `sender` asked to revoke the claim for `digest`.
pub open spec fn after_revoke(claims: Claims, sender: AccountId, digest: Seq<u8>) -> Claims {
    if revoke_error(claim_of(claims, digest), sender) is None {
        claims.remove(digest)
    } else {
        claims
    }
}

/// The claims after `sender` asked at height `now` to transfer the claim for
/// `digest` to the account that `dest` resolved to.
pub open spec fn after_transfer(
    claims: Claims,
    sender: AccountId,
    digest: Seq<u8>,
    dest: Option<AccountId>,
    now: BlockNumber,
) -> Claims {
    if transfer_error(claim_of(claims, digest), sender, dest) is None {
        claims.insert(digest, Claim { owner: dest->0, recorded_at: now })
    } else {
        claims
    }
}

/// The one change that a successful operation makes to the stored claims.
#[derive(Debug, PartialEq, Eq)]
pub enum Mutation {
    /// Store `claim` under `digest`, in place of any claim stored there.
    Insert { digest: Vec<u8>, claim: Claim },
    /// Remove the claim stored under `digest`.
    Remove { digest: Vec<u8> },
}

/// A mutation as contracts speak of it, with the digest as a sequence of bytes.
pub enum MutationView {
    Insert { digest: Seq<u8>, claim: Claim },
    Remove { digest: Seq<u8> },
}

impl View for Mutation {
    type V = MutationView;

    open spec fn view(&self) -> MutationView {
        match *self {
            Mutation::Insert { digest, claim } => MutationView::Insert { digest: digest@, claim },
            Mutation::Remove { digest } => MutationView::Remove { digest: digest@ },
        }
    }
}

impl MutationView {
    /// The claims after this mutation was applied to `claims`.
    pub open spec fn apply(self, claims: Claims) -> Claims {
        match self {
            MutationView::Insert { digest, claim } => claims.insert(digest, claim),
            MutationView::Remove { digest } => claims.remove(digest),
        }
    }
}

/// What a successful operation asks of the host: to apply one mutation to the
/// stored claims and to emit one event.
#[derive(Debug, PartialEq, Eq)]
pub struct Effect {
    pub mutation: Mutation,
    pub event: Event,
}

/// An effect as contracts speak of it.
pub struct EffectView {
    pub mutation: MutationView,
    pub event: EventView,
}

impl View for Effect {
    type V = EffectView;

    open spec fn view(&self) -> EffectView {
        EffectView { mutation: self.mutation@, event: self.event@ }
    }
}

/// The effect of creating a claim of `sender` for `digest` at height `now`.
pub open spec fn create_effect(sender: AccountId, digest: Seq<u8>, now: BlockNumber) -> EffectView {
    EffectView {
        mutation: MutationView::Insert { digest, claim: Claim { owner: sender, recorded_at: now } },
        event: EventView::ClaimCreated(sender, digest),
    }
}

/// The effect of `sender` revoking the claim for `digest`.
pub open spec fn revoke_effect(sender: AccountId, digest: Seq<u8>) -> EffectView {
    EffectView {
        mutation: MutationView::Remove { digest },
        event: EventView::ClaimRevoked(sender, digest),
    }
}

/// The effect of `sender` transferring the claim for `digest` to `dest` at height `now`.
pub open spec fn transfer_effect(
    sender: AccountId,
    digest: Seq<u8>,
    dest: AccountId,
    now: BlockNumber,
) -> EffectView {
    EffectView {
        mutation: MutationView::Insert { digest, claim: Claim { owner: dest, recorded_at: now } },
        event: EventView::ClaimTransferred(sender, dest, digest),
    }
}

/// A copy of `bytes`.
fn copy_of(bytes: &Vec<u8>) -> (copy: Vec<u8>)
    ensures
        copy@ == bytes@,
{
    let copy = bytes.clone();
    assert(copy@ =~= bytes@);
    copy
}

/// Checks that `sender` owns the claim `current`, the claim that is stored
/// under the digest that `sender` wants to act on.
pub fn ensure_owner(current: Option<Claim>, sender: AccountId) -> (r: Result<(), Error>)
    ensures
        match r {
            Ok(_) => owner_error(current, sender) is None,
            Err(error) => owner_error(current, sender) == Some(error),
        },
{
    match current {
        None => Err(Error::NoSuchProof),
        Some(claim) => if claim.owner != sender {
            Err(Error::NotProofOwner)
        } else {
            Ok(())
        },
    }
}

/// Decides a request of `sender` to claim `proof` at height `now`, where
/// `current` is the claim stored under `proof`.
pub fn decide_create(
    max_claim_len: u32,
    current: Option<Claim>,
    sender: AccountId,
    proof: Vec<u8>,
    now: BlockNumber,
) -> (r: Result<Effect, Error>)
    ensures
        match r {
            Ok(effect) => create_error(max_claim_len, proof@, current) is None && effect@
                == create_effect(sender, proof@, now),
            Err(error) => create_error(max_claim_len, proof@, current) == Some(error),
        },
{
    if proof.len() > max_claim_len as usize {
        return Err(Error::InvalidClaimLength);
    }
    if current.is_some() {
        return Err(Error::ProofAlreadyClaimed);
    }
    let digest = copy_of(&proof);
    Ok(
        Effect {
            mutation: Mutation::Insert { digest, claim: Claim { owner: sender, recorded_at: now } },
            event: Event::ClaimCreated(sender, proof),
        },
    )
}

/// Decides a request of `sender` to revoke the claim for `proof`, where
/// `current` is the claim stored under `proof`.
pub fn decide_revoke(current: Option<Claim>, sender: AccountId, proof: Vec<u8>) -> (r: Result<
    Effect,
    Error,
>)
    ensures
        match r {
            Ok(effect) => revoke_error(current, sender) is None && effect@ == revoke_effect(
                sender,
                proof@,
            ),
            Err(error) => revoke_error(current, sender) == Some(error),
        },
{
    match ensure_owner(current, sender) {
        Err(error) => Err(error),
        Ok(_) => {
            let digest = copy_of(&proof);
            Ok(
                Effect {
                    mutation: Mutation::Remove { digest },
                    event: Event::ClaimRevoked(sender, proof),
                },
            )
        },
    }
}

/// Decides a request of `sender` to transfer the claim for `proof` at height
/// `now`, where `current` is the claim stored under `proof` and `dest` is the
/// account that the host resolved the destination to, or `None` where it
/// could not resolve it.
pub fn decide_transfer(
    current: Option<Claim>,
    sender: AccountId,
    proof: Vec<u8>,
    dest: Option<AccountId>,
    now: BlockNumber,
) -> (r: Result<Effect, Error>)
    ensures
        match r {
            Ok(effect) => transfer_error(current, sender, dest) is None && effect@
                == transfer_effect(sender, proof@, dest->0, now),
            Err(error) => transfer_error(current, sender, dest) == Some(error),
        },
{
    match ensure_owner(current, sender) {
        Err(error) => Err(error),
        Ok(_) => match dest {
            None => Err(Error::InvalidDestination),
            Some(to) => {
                let digest = copy_of(&proof);
                Ok(
                    Effect {
                        mutation: Mutation::Insert {
                            digest,
                            claim: Claim { owner: to, recorded_at: now },
                        },
                        event: Event::ClaimTransferred(sender, to, proof),
                    },
                )
            },
        },
    }
}

} // verus!
