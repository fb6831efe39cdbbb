//! The registry itself: a configuration, the stored claims, and the three
//! operations on them.

use vstd::prelude::*;

use crate::rules::{
    after_create, after_revoke, after_transfer, claim_of, create_error, decide_create,
    decide_revoke, decide_transfer, revoke_error, transfer_error, within_limit, Claims, Effect,
};
use crate::store::ClaimStore;
use crate::types::{AccountId, BlockNumber, Claim, Config, Error, Event, EventView};

verus! {

/// A claim registry.
///
/// To a caller the registry is its configuration and the map `self@` of live
/// claims. No stored digest is longer than the configured maximum.
pub struct Pallet {
    config: Config,
    claims: ClaimStore,
}

impl View for Pallet {
    type V = Claims;

    closed spec fn view(&self) -> Claims {
        self.claims@
    }
}

impl Pallet {
    #[verifier::type_invariant]
    spec fn digests_within_limit(self) -> bool {
        within_limit(self.claims@, self.config.max_claim_len)
    }

    /// The configuration that the registry was made with.
    pub closed spec fn spec_config(&self) -> Config {
        self.config
    }

    /// A registry without claims.
    pub fn new(config: Config) -> (pallet: Self)
        ensures
            pallet.config() == config,
            pallet@ == Map::<Seq<u8>, Claim>::empty(),
    {
        Pallet { config, claims: ClaimStore::new() }
    }

    /// The configuration that the registry was made with.
    #[verifier::when_used_as_spec(spec_config)]
    pub fn config(&self) -> (config: Config)
        ensures
            config == self.spec_config(),
    {
        self.config
    }

    /// The stored claims, to read.
    pub fn claims(&self) -> (claims: &ClaimStore)
        ensures
            claims@ == self@,
            within_limit(claims@, self.config().max_claim_len),
    {
        proof {
            use_type_invariant(self);
        }
        &self.claims
    }

    /// Records a claim of `sender` for the digest `proof` at height `now`.
    ///
    /// Fails with `InvalidClaimLength` where `proof` is longer than the
    /// configured maximum, and otherwise with `ProofAlreadyClaimed` where
    /// `proof` has a live claim; the claims are then unchanged. On success
    /// the returned event is the one to emit.
    pub fn create_claim(&mut self, sender: AccountId, proof: Vec<u8>, now: BlockNumber) -> (r:
        Result<Event, Error>)
        ensures
            final(self).config() == old(self).config(),
            within_limit(final(self)@, final(self).config().max_claim_len),
            final(self)@ == after_create(
                old(self).config().max_claim_len,
                old(self)@,
                sender,
                proof@,
                now,
            ),
            match r {
                Ok(event) => create_error(
                    old(self).config().max_claim_len,
                    proof@,
                    claim_of(old(self)@, proof@),
                ) is None && event@ == EventView::ClaimCreated(sender, proof@),
                Err(error) => create_error(
                    old(self).config().max_claim_len,
                    proof@,
                    claim_of(old(self)@, proof@),
                ) == Some(error),
            },
    {
        proof {
            use_type_invariant(&*self);
        }
        let current = self.claims.get(proof.as_slice());
        match decide_create(self.config.max_claim_len, current, sender, proof, now) {
            Err(error) => Err(error),
            Ok(effect) => Ok(self.commit(effect)),
        }
    }

    /// Removes the claim for the digest `proof`, which `sender` must own.
    ///
    /// Fails with `NoSuchProof` where `proof` has no live claim, and otherwise
    /// with `NotProofOwner` where the claim belongs to another account; the
    /// claims are then unchanged. On success the returned event is the one to
    /// emit.
    pub fn revoke_claim(&mut self, sender: AccountId, proof: Vec<u8>) -> (r: Result<Event, Error>)
        ensures
            final(self).config() == old(self).config(),
            within_limit(final(self)@, final(self).config().max_claim_len),
            final(self)@ == after_revoke(old(self)@, sender, proof@),
            match r {
                Ok(event) => revoke_error(claim_of(old(self)@, proof@), sender) is None && event@
                    == EventView::ClaimRevoked(sender, proof@),
                Err(error) => revoke_error(claim_of(old(self)@, proof@), sender) == Some(error),
            },
    {
        proof {
            use_type_invariant(&*self);
        }
        let current = self.claims.get(proof.as_slice());
        match decide_revoke(current, sender, proof) {
            Err(error) => Err(error),
            Ok(effect) => Ok(self.commit(effect)),
        }
    }

    /// Hands the claim for the digest `proof`, which `sender` must own, to
    /// the account `dest` at height `now`. `dest` is what the host resolved
    /// the destination to, or `None` where it could not resolve it.
    ///
    /// Fails with `NoSuchProof` where `proof` has no live claim, otherwise
    /// with `NotProofOwner` where the claim belongs to another account, and
    /// otherwise with `InvalidDestination` where `dest` is `None`; the claims
    /// are then unchanged. On success the returned event is the one to emit.
    pub fn transfer_claim(
        &mut self,
        sender: AccountId,
        proof: Vec<u8>,
        dest: Option<AccountId>,
        now: BlockNumber,
    ) -> (r: Result<Event, Error>)
        ensures
            final(self).config() == old(self).config(),
            within_limit(final(self)@, final(self).config().max_claim_len),
            final(self)@ == after_transfer(old(self)@, sender, proof@, dest, now),
            match r {
                Ok(event) => transfer_error(claim_of(old(self)@, proof@), sender, dest) is None
                    && event@ == EventView::ClaimTransferred(sender, dest->0, proof@),
                Err(error) => transfer_error(claim_of(old(self)@, proof@), sender, dest) == Some(
                    error,
                ),
            },
    {
        proof {
            use_type_invariant(&*self);
        }
        let current = self.claims.get(proof.as_slice());
        match decide_transfer(current, sender, proof, dest, now) {
            Err(error) => Err(error),
            Ok(effect) => Ok(self.commit(effect)),
        }
    }

    /// Applies the mutation of `effect` to the stored claims and hands back
    /// its event.
    fn commit(&mut self, effect: Effect) -> (event: Event)
        requires
            within_limit(effect@.mutation.apply(old(self)@), old(self).config.max_claim_len),
        ensures
            final(self).config == old(self).config,
            final(self)@ == effect@.mutation.apply(old(self)@),
            event == effect.event,
    {
        let mut claims = ClaimStore::new();
        std::mem::swap(&mut claims, &mut self.claims);
        claims.apply(effect.mutation);
        self.claims = claims;
        effect.event
    }
}

} // verus!
