use proof_of_existence::rules::{
    decide_create, decide_revoke, decide_transfer, ensure_owner, Effect, Mutation,
};
use proof_of_existence::{Claim, Error, Event};

#[test]
fn ensure_owner_tells_the_three_cases_apart() {
    let claim = Claim { owner: 1, recorded_at: 5 };
    assert_eq!(ensure_owner(None, 1), Err(Error::NoSuchProof));
    assert_eq!(ensure_owner(Some(claim), 2), Err(Error::NotProofOwner));
    assert_eq!(ensure_owner(Some(claim), 1), Ok(()));
}

#[test]
fn decide_create_yields_insert_and_event() {
    assert_eq!(
        decide_create(10, None, 1, vec![0, 1], 33),
        Ok(Effect {
            mutation: Mutation::Insert {
                digest: vec![0, 1],
                claim: Claim { owner: 1, recorded_at: 33 },
            },
            event: Event::ClaimCreated(1, vec![0, 1]),
        })
    );
}

#[test]
fn decide_create_errors() {
    let claimed = Some(Claim { owner: 2, recorded_at: 1 });
    assert_eq!(
        decide_create(10, None, 1, vec![0; 11], 33),
        Err(Error::InvalidClaimLength)
    );
    assert_eq!(
        decide_create(10, claimed, 1, vec![0; 10], 33),
        Err(Error::ProofAlreadyClaimed)
    );
    assert!(decide_create(10, None, 1, vec![0; 10], 33).is_ok());
    assert!(decide_create(u32::MAX, None, 1, vec![0; 1000], 33).is_ok());
}

#[test]
fn decide_revoke_yields_remove_and_event() {
    let claim = Some(Claim { owner: 1, recorded_at: 5 });
    assert_eq!(
        decide_revoke(claim, 1, vec![0, 1]),
        Ok(Effect {
            mutation: Mutation::Remove { digest: vec![0, 1] },
            event: Event::ClaimRevoked(1, vec![0, 1]),
        })
    );
    assert_eq!(decide_revoke(None, 1, vec![0, 1]), Err(Error::NoSuchProof));
    assert_eq!(decide_revoke(claim, 2, vec![0, 1]), Err(Error::NotProofOwner));
}

#[test]
fn decide_transfer_yields_insert_and_event() {
    let claim = Some(Claim { owner: 1, recorded_at: 5 });
    assert_eq!(
        decide_transfer(claim, 1, vec![0, 1], Some(3), 8),
        Ok(Effect {
            mutation: Mutation::Insert {
                digest: vec![0, 1],
                claim: Claim { owner: 3, recorded_at: 8 },
            },
            event: Event::ClaimTransferred(1, 3, vec![0, 1]),
        })
    );
}

#[test]
fn decide_transfer_errors_in_order() {
    let claim = Some(Claim { owner: 1, recorded_at: 5 });
    assert_eq!(
        decide_transfer(None, 1, vec![0, 1], None, 8),
        Err(Error::NoSuchProof)
    );
    assert_eq!(
        decide_transfer(None, 1, vec![0, 1], Some(3), 8),
        Err(Error::NoSuchProof)
    );
    assert_eq!(
        decide_transfer(claim, 2, vec![0, 1], None, 8),
        Err(Error::NotProofOwner)
    );
    assert_eq!(
        decide_transfer(claim, 2, vec![0, 1], Some(3), 8),
        Err(Error::NotProofOwner)
    );
    assert_eq!(
        decide_transfer(claim, 1, vec![0, 1], None, 8),
        Err(Error::InvalidDestination)
    );
}
