use poe_registry::store::same_bytes;
use poe_registry::{ClaimRecord, Config, Error, Event, Pallet, Proofs};

struct Runtime;

impl Config for Runtime {
    type AccountId = u64;
}

const ALICE: u64 = 1;
const BOB: u64 = 2;

fn created(r: Result<Event<Runtime>, Error>) -> (u64, Vec<u8>) {
    match r {
        Ok(Event::ClaimCreated(who, f)) => (who, f),
        Ok(Event::ClaimRevoked(_, _)) => panic!("expected a ClaimCreated event"),
        Err(e) => panic!("expected success, got {:?}", e),
    }
}

fn revoked(r: Result<Event<Runtime>, Error>) -> (u64, Vec<u8>) {
    match r {
        Ok(Event::ClaimRevoked(who, f)) => (who, f),
        Ok(Event::ClaimCreated(_, _)) => panic!("expected a ClaimRevoked event"),
        Err(e) => panic!("expected success, got {:?}", e),
    }
}

fn failed(r: Result<Event<Runtime>, Error>) -> Error {
    match r {
        Ok(_) => panic!("expected an error"),
        Err(e) => e,
    }
}

#[test]
fn abc_scenario() {
    let mut p = Pallet::<Runtime>::new();
    let abc = b"abc".to_vec();
    assert_eq!(created(p.create_claim(ALICE, abc.clone(), 1)), (ALICE, abc.clone()));
    assert_eq!(failed(p.create_claim(BOB, abc.clone(), 2)), Error::ProofAlreadyClaimed);
    assert_eq!(failed(p.revoke_claim(BOB, abc.clone())), Error::NotProofOwner);
    assert_eq!(revoked(p.revoke_claim(ALICE, abc.clone())), (ALICE, abc.clone()));
    assert_eq!(failed(p.revoke_claim(ALICE, abc.clone())), Error::NoSuchProof);
}

#[test]
fn create_stores_owner_and_block() {
    let mut p = Pallet::<Runtime>::new();
    let f = vec![9u8, 8, 7];
    assert_eq!(p.claim_of(&f), None);
    created(p.create_claim(ALICE, f.clone(), 42));
    assert_eq!(p.claim_of(&f), Some(ClaimRecord { owner: ALICE, created_at: 42 }));
}

#[test]
fn second_claim_fails_and_keeps_record() {
    let mut p = Pallet::<Runtime>::new();
    let f = vec![1u8, 2, 3];
    created(p.create_claim(ALICE, f.clone(), 7));
    assert_eq!(failed(p.create_claim(ALICE, f.clone(), 8)), Error::ProofAlreadyClaimed);
    assert_eq!(failed(p.create_claim(BOB, f.clone(), 9)), Error::ProofAlreadyClaimed);
    assert_eq!(p.claim_of(&f), Some(ClaimRecord { owner: ALICE, created_at: 7 }));
}

#[test]
fn revoke_unclaimed_fails_for_anyone() {
    let mut p = Pallet::<Runtime>::new();
    let f = vec![5u8];
    assert_eq!(failed(p.revoke_claim(ALICE, f.clone())), Error::NoSuchProof);
    assert_eq!(failed(p.revoke_claim(BOB, f.clone())), Error::NoSuchProof);
    assert_eq!(p.claim_of(&f), None);
}

#[test]
fn revoke_by_other_fails_and_keeps_record() {
    let mut p = Pallet::<Runtime>::new();
    let f = vec![4u8, 4];
    created(p.create_claim(ALICE, f.clone(), 3));
    assert_eq!(failed(p.revoke_claim(BOB, f.clone())), Error::NotProofOwner);
    assert_eq!(p.claim_of(&f), Some(ClaimRecord { owner: ALICE, created_at: 3 }));
}

#[test]
fn create_then_revoke_restores_state() {
    let mut p = Pallet::<Runtime>::new();
    let f = vec![0u8, 255];
    created(p.create_claim(ALICE, f.clone(), 10));
    revoked(p.revoke_claim(ALICE, f.clone()));
    assert_eq!(p.claim_of(&f), None);
    assert!(!p.into_store().contains_key(&f));
}

#[test]
fn reclaim_after_revoke_by_new_owner() {
    let mut p = Pallet::<Runtime>::new();
    let f = vec![6u8, 6, 6];
    created(p.create_claim(ALICE, f.clone(), 10));
    revoked(p.revoke_claim(ALICE, f.clone()));
    assert_eq!(created(p.create_claim(BOB, f.clone(), 12)), (BOB, f.clone()));
    let rec = p.claim_of(&f).unwrap();
    assert_eq!(rec, ClaimRecord { owner: BOB, created_at: 12 });
    assert!(rec.created_at >= 10);
}

#[test]
fn operations_leave_other_fingerprints_alone() {
    let mut p = Pallet::<Runtime>::new();
    let f1 = vec![1u8];
    let f2 = vec![1u8, 0];
    let f3 = vec![2u8];
    created(p.create_claim(BOB, f2.clone(), 1));
    created(p.create_claim(ALICE, f1.clone(), 2));
    assert_eq!(p.claim_of(&f2), Some(ClaimRecord { owner: BOB, created_at: 1 }));
    assert_eq!(p.claim_of(&f3), None);
    failed(p.revoke_claim(BOB, f1.clone()));
    revoked(p.revoke_claim(ALICE, f1.clone()));
    assert_eq!(p.claim_of(&f2), Some(ClaimRecord { owner: BOB, created_at: 1 }));
    assert_eq!(p.claim_of(&f3), None);
    assert_eq!(p.claim_of(&f1), None);
}

#[test]
fn empty_fingerprint_is_a_key() {
    let mut p = Pallet::<Runtime>::new();
    let empty: Vec<u8> = Vec::new();
    assert_eq!(created(p.create_claim(ALICE, empty.clone(), 0)), (ALICE, Vec::new()));
    assert_eq!(failed(p.create_claim(BOB, empty.clone(), 0)), Error::ProofAlreadyClaimed);
    assert_eq!(p.claim_of(&vec![0u8]), None);
    revoked(p.revoke_claim(ALICE, empty.clone()));
    assert_eq!(p.claim_of(&empty), None);
}

#[test]
fn store_insert_get_remove() {
    let mut s = Proofs::<u64>::new();
    let k = vec![3u8, 1, 4];
    let other = vec![3u8, 1, 5];
    assert!(!s.contains_key(&k));
    s.insert(k.clone(), ClaimRecord { owner: 7, created_at: 1 });
    s.insert(other.clone(), ClaimRecord { owner: 8, created_at: 2 });
    assert_eq!(s.get(&k), Some(ClaimRecord { owner: 7, created_at: 1 }));
    s.remove(&k);
    assert!(!s.contains_key(&k));
    assert_eq!(s.get(&other), Some(ClaimRecord { owner: 8, created_at: 2 }));
    s.remove(&k);
    assert_eq!(s.get(&other), Some(ClaimRecord { owner: 8, created_at: 2 }));
}

#[test]
fn pallet_over_existing_store() {
    let mut s = Proofs::<u64>::new();
    let f = vec![10u8];
    s.insert(f.clone(), ClaimRecord { owner: ALICE, created_at: 4 });
    let mut p = Pallet::<Runtime>::from_store(s);
    assert_eq!(failed(p.create_claim(BOB, f.clone(), 5)), Error::ProofAlreadyClaimed);
    assert_eq!(failed(p.revoke_claim(BOB, f.clone())), Error::NotProofOwner);
    revoked(p.revoke_claim(ALICE, f.clone()));
}

#[test]
fn same_bytes_compares_contents() {
    assert!(same_bytes(&vec![1, 2, 3], &vec![1, 2, 3]));
    assert!(!same_bytes(&vec![1, 2, 3], &vec![1, 2, 4]));
    assert!(!same_bytes(&vec![1, 2], &vec![1, 2, 3]));
    assert!(same_bytes(&Vec::new(), &Vec::new()));
}
