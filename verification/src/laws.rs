//! What holds of the registry's rules for every state and every request.
//!
//! The laws are stated over the map of live claims and over the spec
//! functions of [`crate::rules`], in which the contracts of the operations of
//! [`crate::pallet::Pallet`] are stated too: `claims` is the registry's view
//! before a call, and `after_create`, `after_revoke` and `after_transfer` give
//! its view after it.

use vstd::prelude::*;

use crate::rules::{
    after_create, after_revoke, after_transfer, claim_of, create_effect, create_error,
    revoke_effect, revoke_error, transfer_effect, transfer_error, within_limit, Claims,
};
use crate::types::{AccountId, BlockNumber, Claim, Error};

verus! {

/// A digest within the length limit that has no live claim can be claimed by
/// anyone: the request succeeds, and afterwards the digest has a claim whose
/// owner is the sender and whose height is the height of the request. No
/// other digest is touched.
pub proof fn law_create_records_claim(
    max_claim_len: u32,
    claims: Claims,
    sender: AccountId,
    digest: Seq<u8>,
    now: BlockNumber,
)
    requires
        digest.len() <= max_claim_len,
        !claims.contains_key(digest),
    ensures
        create_error(max_claim_len, digest, claim_of(claims, digest)) is None,
        after_create(max_claim_len, claims, sender, digest, now).contains_key(digest),
        after_create(max_claim_len, claims, sender, digest, now)[digest] == (Claim {
            owner: sender,
            recorded_at: now,
        }),
        after_create(max_claim_len, claims, sender, digest, now).remove(digest) == claims,
{
    let after = after_create(max_claim_len, claims, sender, digest, now);
    assert(after.remove(digest) =~= claims);
}

/// A digest longer than the limit is rejected with `InvalidClaimLength`,
/// whether or not it has a claim and whoever asks, and the claims stay as
/// they were.
pub proof fn law_create_rejects_long_digest(
    max_claim_len: u32,
    claims: Claims,
    sender: AccountId,
    digest: Seq<u8>,
    now: BlockNumber,
)
    requires
        digest.len() > max_claim_len,
    ensures
        create_error(max_claim_len, digest, claim_of(claims, digest)) == Some(
            Error::InvalidClaimLength,
        ),
        after_create(max_claim_len, claims, sender, digest, now) == claims,
{
}

/// As long as a digest within the length limit has a live claim, a request to
/// claim it is rejected with `ProofAlreadyClaimed`, whoever asks, and the
/// claims stay as they were.
pub proof fn law_create_rejects_claimed_digest(
    max_claim_len: u32,
    claims: Claims,
    sender: AccountId,
    digest: Seq<u8>,
    now: BlockNumber,
)
    requires
        digest.len() <= max_claim_len,
        claims.contains_key(digest),
    ensures
        create_error(max_claim_len, digest, claim_of(claims, digest)) == Some(
            Error::ProofAlreadyClaimed,
        ),
        after_create(max_claim_len, claims, sender, digest, now) == claims,
{
}

/// After a digest was claimed, a second request to claim it, by the same
/// account or another, is rejected with `ProofAlreadyClaimed`, and the claim
/// keeps the owner and the height of the first request.
pub proof fn law_create_twice_is_rejected(
    max_claim_len: u32,
    claims: Claims,
    first: AccountId,
    first_height: BlockNumber,
    second: AccountId,
    second_height: BlockNumber,
    digest: Seq<u8>,
)
    requires
        create_error(max_claim_len, digest, claim_of(claims, digest)) is None,
    ensures
        ({
            let claimed = after_create(max_claim_len, claims, first, digest, first_height);
            &&& create_error(max_claim_len, digest, claim_of(claimed, digest)) == Some(
                Error::ProofAlreadyClaimed,
            )
            &&& after_create(max_claim_len, claimed, second, digest, second_height) == claimed
            &&& claimed[digest] == (Claim { owner: first, recorded_at: first_height })
        }),
{
}

/// Revoking a digest that has no live claim is rejected with `NoSuchProof`,
/// and the claims stay as they were.
pub proof fn law_revoke_rejects_unclaimed(claims: Claims, sender: AccountId, digest: Seq<u8>)
    requires
        !claims.contains_key(digest),
    ensures
        revoke_error(claim_of(claims, digest), sender) == Some(Error::NoSuchProof),
        after_revoke(claims, sender, digest) == claims,
{
}

/// Revoking a claim that another account owns is rejected with
/// `NotProofOwner`, and the claims stay as they were.
pub proof fn law_revoke_rejects_stranger(claims: Claims, sender: AccountId, digest: Seq<u8>)
    requires
        claims.contains_key(digest),
        claims[digest].owner != sender,
    ensures
        revoke_error(claim_of(claims, digest), sender) == Some(Error::NotProofOwner),
        after_revoke(claims, sender, digest) == claims,
{
}

/// After its owner revoked a claim, the digest has no claim, no other digest
/// is touched, and any account can claim the digest again as if it had never
/// been claimed.
pub proof fn law_revoke_frees_digest(
    max_claim_len: u32,
    claims: Claims,
    owner: AccountId,
    digest: Seq<u8>,
    anyone: AccountId,
    now: BlockNumber,
)
    requires
        within_limit(claims, max_claim_len),
        revoke_error(claim_of(claims, digest), owner) is None,
    ensures
        ({
            let revoked = after_revoke(claims, owner, digest);
            &&& !revoked.contains_key(digest)
            &&& revoked == claims.remove(digest)
            &&& create_error(max_claim_len, digest, claim_of(revoked, digest)) is None
            &&& after_create(max_claim_len, revoked, anyone, digest, now)[digest] == (Claim {
                owner: anyone,
                recorded_at: now,
            })
        }),
{
}

/// A transfer by the owner to a destination that resolves succeeds: the claim
/// then belongs to the resolved account and carries the height of the
/// request, which is no lower than the height it carried where the host's
/// heights do not decrease. No other digest is touched.
pub proof fn law_transfer_sets_owner_and_height(
    claims: Claims,
    owner: AccountId,
    digest: Seq<u8>,
    to: AccountId,
    now: BlockNumber,
)
    requires
        claims.contains_key(digest),
        claims[digest].owner == owner,
    ensures
        ({
            let moved = after_transfer(claims, owner, digest, Some(to), now);
            &&& transfer_error(claim_of(claims, digest), owner, Some(to)) is None
            &&& moved.contains_key(digest)
            &&& moved[digest] == (Claim { owner: to, recorded_at: now })
            &&& moved.remove(digest) == claims.remove(digest)
            &&& claims[digest].recorded_at <= now ==> claims[digest].recorded_at
                <= moved[digest].recorded_at
        }),
{
    let moved = after_transfer(claims, owner, digest, Some(to), now);
    assert(moved.remove(digest) =~= claims.remove(digest));
}

/// After a transfer to another account, the previous owner can neither revoke
/// the claim nor transfer it, whatever destination it names: both requests
/// are rejected with `NotProofOwner`.
pub proof fn law_transfer_locks_out_previous_owner(
    claims: Claims,
    owner: AccountId,
    digest: Seq<u8>,
    to: AccountId,
    now: BlockNumber,
    dest: Option<AccountId>,
)
    requires
        claims.contains_key(digest),
        claims[digest].owner == owner,
        to != owner,
    ensures
        ({
            let moved = after_transfer(claims, owner, digest, Some(to), now);
            &&& revoke_error(claim_of(moved, digest), owner) == Some(Error::NotProofOwner)
            &&& transfer_error(claim_of(moved, digest), owner, dest) == Some(Error::NotProofOwner)
        }),
{
}

/// A transfer of a digest that has no live claim is rejected with
/// `NoSuchProof`, and a transfer of a claim that another account owns with
/// `NotProofOwner`, whether or not the destination resolves; a transfer by
/// the owner to a destination that does not resolve is rejected with
/// `InvalidDestination`. A rejected transfer leaves the claims as they were.
pub proof fn law_transfer_rejections(
    claims: Claims,
    sender: AccountId,
    digest: Seq<u8>,
    dest: Option<AccountId>,
    now: BlockNumber,
)
    ensures
        !claims.contains_key(digest) ==> transfer_error(claim_of(claims, digest), sender, dest)
            == Some(Error::NoSuchProof),
        claims.contains_key(digest) && claims[digest].owner != sender ==> transfer_error(
            claim_of(claims, digest),
            sender,
            dest,
        ) == Some(Error::NotProofOwner),
        claims.contains_key(digest) && claims[digest].owner == sender && dest is None
            ==> transfer_error(claim_of(claims, digest), sender, dest) == Some(
            Error::InvalidDestination,
        ),
        transfer_error(claim_of(claims, digest), sender, dest) is Some ==> after_transfer(
            claims,
            sender,
            digest,
            dest,
            now,
        ) == claims,
{
}

/// A rejected request changes nothing, whichever operation it asked for.
pub proof fn law_rejection_changes_nothing(
    max_claim_len: u32,
    claims: Claims,
    sender: AccountId,
    digest: Seq<u8>,
    dest: Option<AccountId>,
    now: BlockNumber,
)
    ensures
        create_error(max_claim_len, digest, claim_of(claims, digest)) is Some ==> after_create(
            max_claim_len,
            claims,
            sender,
            digest,
            now,
        ) == claims,
        revoke_error(claim_of(claims, digest), sender) is Some ==> after_revoke(
            claims,
            sender,
            digest,
        ) == claims,
        transfer_error(claim_of(claims, digest), sender, dest) is Some ==> after_transfer(
            claims,
            sender,
            digest,
            dest,
            now,
        ) == claims,
{
}

/// No operation stores a digest that is longer than the limit: where every
/// claimed digest is within the limit before a request, every claimed digest
/// is within it afterwards.
pub proof fn law_limit_is_kept(
    max_claim_len: u32,
    claims: Claims,
    sender: AccountId,
    digest: Seq<u8>,
    dest: Option<AccountId>,
    now: BlockNumber,
)
    requires
        within_limit(claims, max_claim_len),
    ensures
        within_limit(after_create(max_claim_len, claims, sender, digest, now), max_claim_len),
        within_limit(after_revoke(claims, sender, digest), max_claim_len),
        within_limit(after_transfer(claims, sender, digest, dest, now), max_claim_len),
{
}

/// The mutation that a successful request asks for turns the claims into the
/// claims after the request: a host that applies the decided mutation to its
/// storage ends with what the rules say.
pub proof fn law_mutation_gives_next_claims(
    max_claim_len: u32,
    claims: Claims,
    sender: AccountId,
    digest: Seq<u8>,
    to: AccountId,
    now: BlockNumber,
)
    ensures
        create_error(max_claim_len, digest, claim_of(claims, digest)) is None ==> create_effect(
            sender,
            digest,
            now,
        ).mutation.apply(claims) == after_create(max_claim_len, claims, sender, digest, now),
        revoke_error(claim_of(claims, digest), sender) is None ==> revoke_effect(
            sender,
            digest,
        ).mutation.apply(claims) == after_revoke(claims, sender, digest),
        transfer_error(claim_of(claims, digest), sender, Some(to)) is None ==> transfer_effect(
            sender,
            digest,
            to,
            now,
        ).mutation.apply(claims) == after_transfer(claims, sender, digest, Some(to), now),
{
}

} // verus!
