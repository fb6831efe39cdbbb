use proof_of_existence::rules::Mutation;
use proof_of_existence::{Claim, ClaimStore};

#[test]
fn new_store_holds_nothing() {
    let store = ClaimStore::new();
    assert!(!store.contains(&[]));
    assert!(!store.contains(&[1, 2, 3]));
    assert_eq!(store.get(&[1, 2, 3]), None);
}

#[test]
fn insert_then_get() {
    let mut store = ClaimStore::new();
    store.insert(vec![1, 2, 3], 7, 40);
    assert!(store.contains(&[1, 2, 3]));
    assert_eq!(store.get(&[1, 2, 3]), Some(Claim { owner: 7, recorded_at: 40 }));
    assert!(!store.contains(&[1, 2]));
    assert!(!store.contains(&[1, 2, 3, 4]));
    assert!(!store.contains(&[3, 2, 1]));
}

#[test]
fn insert_overwrites() {
    let mut store = ClaimStore::new();
    store.insert(vec![1], 7, 40);
    store.insert(vec![2], 8, 41);
    store.insert(vec![1], 9, 42);
    assert_eq!(store.get(&[1]), Some(Claim { owner: 9, recorded_at: 42 }));
    assert_eq!(store.get(&[2]), Some(Claim { owner: 8, recorded_at: 41 }));
    store.remove(&[1]);
    assert_eq!(store.get(&[1]), None);
}

#[test]
fn remove_takes_one_digest_only() {
    let mut store = ClaimStore::new();
    store.insert(vec![1], 1, 10);
    store.insert(vec![2], 2, 20);
    store.insert(vec![3], 3, 30);
    store.remove(&[1]);
    assert_eq!(store.get(&[1]), None);
    assert_eq!(store.get(&[2]), Some(Claim { owner: 2, recorded_at: 20 }));
    assert_eq!(store.get(&[3]), Some(Claim { owner: 3, recorded_at: 30 }));
    store.remove(&[3]);
    assert_eq!(store.get(&[2]), Some(Claim { owner: 2, recorded_at: 20 }));
    assert_eq!(store.get(&[3]), None);
    store.remove(&[2]);
    assert!(!store.contains(&[2]));
}

#[test]
fn remove_of_absent_digest_changes_nothing() {
    let mut store = ClaimStore::new();
    store.remove(&[1]);
    store.insert(vec![2], 2, 20);
    store.remove(&[1]);
    store.remove(&[]);
    assert_eq!(store.get(&[2]), Some(Claim { owner: 2, recorded_at: 20 }));
}

#[test]
fn apply_inserts_and_removes() {
    let mut store = ClaimStore::new();
    store.apply(Mutation::Insert {
        digest: vec![4, 5],
        claim: Claim { owner: 6, recorded_at: 7 },
    });
    assert_eq!(store.get(&[4, 5]), Some(Claim { owner: 6, recorded_at: 7 }));
    store.apply(Mutation::Remove { digest: vec![4, 5] });
    assert_eq!(store.get(&[4, 5]), None);
}
