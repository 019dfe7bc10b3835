//! The claim registry: create and revoke claims on fingerprints.
use vstd::prelude::*;
use vstd::laws_eq::obeys_concrete_eq;
use crate::store::{BlockNumber, ClaimRecord, Proofs};

verus! {

/// The types that the host supplies to the registry.
pub trait Config {
    /// The identity of an authenticated account.
    type AccountId: Copy + PartialEq;
}

/// Notifications emitted by a successful operation.
pub enum Event<T: Config> {
    /// The account claimed the fingerprint.
    ClaimCreated(T::AccountId, Vec<u8>),
    /// The account revoked its claim on the fingerprint.
    ClaimRevoked(T::AccountId, Vec<u8>),
}

/// Why an operation was rejected; a rejected operation changes nothing.
#[derive(Clone, Copy, Debug, PartialEq, Eq)]
pub enum Error {
    /// The proof has already been claimed.
    ProofAlreadyClaimed,
    /// The proof does not exist, so it cannot be revoked.
    NoSuchProof,
    /// The proof is claimed by another account, so caller can't revoke it.
    NotProofOwner,
}

/// `e` is the notification that `who` claimed `fingerprint`.
pub open spec fn is_claim_created<T: Config>(e: Event<T>, who: T::AccountId, fingerprint: Seq<u8>) -> bool {
    match e {
        Event::ClaimCreated(a, f) => a == who && f@ == fingerprint,
        Event::ClaimRevoked(_, _) => false,
    }
}

/// `e` is the notification that `who` revoked its claim on `fingerprint`.
pub open spec fn is_claim_revoked<T: Config>(e: Event<T>, who: T::AccountId, fingerprint: Seq<u8>) -> bool {
    match e {
        Event::ClaimRevoked(a, f) => a == who && f@ == fingerprint,
        Event::ClaimCreated(_, _) => false,
    }
}

/// Equality on account identities is the identity of values.
pub open spec fn account_eq_is_identity<T: Config>() -> bool {
    obeys_concrete_eq::<T::AccountId>()
}

/// The registry's state after `Create(fingerprint, who)` at block `now`, or its error.
pub open spec fn create_spec<A>(
    claims: Map<Seq<u8>, ClaimRecord<A>>,
    who: A,
    fingerprint: Seq<u8>,
    now: BlockNumber,
) -> Result<Map<Seq<u8>, ClaimRecord<A>>, Error> {
    if claims.contains_key(fingerprint) {
        Err(Error::ProofAlreadyClaimed)
    } else {
        Ok(claims.insert(fingerprint, ClaimRecord { owner: who, created_at: now }))
    }
}

/// The registry's state after `Revoke(fingerprint, who)`, or its error.
/// Existence is checked before ownership.
pub open spec fn revoke_spec<A>(
    claims: Map<Seq<u8>, ClaimRecord<A>>,
    who: A,
    fingerprint: Seq<u8>,
) -> Result<Map<Seq<u8>, ClaimRecord<A>>, Error> {
    if !claims.contains_key(fingerprint) {
        Err(Error::NoSuchProof)
    } else if claims[fingerprint].owner != who {
        Err(Error::NotProofOwner)
    } else {
        Ok(claims.remove(fingerprint))
    }
}

/// The registry of claims. Operations are applied one at a time: the host
/// serialises every call, so each check-then-act below runs atomically.
pub struct Pallet<T: Config> {
    proofs: Proofs<T::AccountId>,
}

impl<T: Config> View for Pallet<T> {
    type V = Map<Seq<u8>, ClaimRecord<T::AccountId>>;

    closed spec fn view(&self) -> Map<Seq<u8>, ClaimRecord<T::AccountId>> {
        self.proofs@
    }
}

impl<T: Config> Pallet<T> {
    /// The underlying storage keeps at most one record per fingerprint.
    pub closed spec fn wf(&self) -> bool {
        self.proofs.wf()
    }

    /// A registry over the given storage.
    pub fn from_store(proofs: Proofs<T::AccountId>) -> (r: Self)
        requires
            proofs.wf(),
        ensures
            r.wf(),
            r@ == proofs@,
    {
        Pallet { proofs }
    }

    /// A registry in which nothing is claimed.
    pub fn new() -> (r: Self)
        ensures
            r.wf(),
            r@ == Map::<Seq<u8>, ClaimRecord<T::AccountId>>::empty(),
    {
        Pallet { proofs: Proofs::new() }
    }

    /// The storage that the registry holds.
    pub fn into_store(self) -> (r: Proofs<T::AccountId>)
        requires
            self.wf(),
        ensures
            r.wf(),
            r@ == self@,
    {
        self.proofs
    }

    /// The claim on `fingerprint`, if there is one.
    pub fn claim_of(&self, fingerprint: &Vec<u8>) -> (r: Option<ClaimRecord<T::AccountId>>)
        requires
            self.wf(),
        ensures
            r == (if self@.contains_key(fingerprint@) {
                Some(self@[fingerprint@])
            } else {
                None
            }),
    {
        self.proofs.get(fingerprint)
    }

    /// Claims `fingerprint` for `origin` at block `now`.
    pub fn create_claim(&mut self, origin: T::AccountId, fingerprint: Vec<u8>, now: BlockNumber) -> (r: Result<Event<T>, Error>)
        requires
            old(self).wf(),
        ensures
            final(self).wf(),
            match create_spec(old(self)@, origin, fingerprint@, now) {
                Ok(claims) => r matches Ok(e) && final(self)@ == claims && is_claim_created(e, origin, fingerprint@),
                Err(err) => r == Err::<Event<T>, Error>(err) && final(self)@ == old(self)@,
            },
    {
        if self.proofs.contains_key(&fingerprint) {
            return Err(Error::ProofAlreadyClaimed);
        }
        let record = ClaimRecord { owner: origin, created_at: now };
        self.proofs.insert(fingerprint.clone(), record);
        Ok(Event::ClaimCreated(origin, fingerprint))
    }

    /// Revokes the claim of `origin` on `fingerprint`.
    pub fn revoke_claim(&mut self, origin: T::AccountId, fingerprint: Vec<u8>) -> (r: Result<Event<T>, Error>)
        requires
            old(self).wf(),
            account_eq_is_identity::<T>(),
        ensures
            final(self).wf(),
            match revoke_spec(old(self)@, origin, fingerprint@) {
                Ok(claims) => r matches Ok(e) && final(self)@ == claims && is_claim_revoked(e, origin, fingerprint@),
                Err(err) => r == Err::<Event<T>, Error>(err) && final(self)@ == old(self)@,
            },
    {
        let owner = match self.proofs.get(&fingerprint) {
            None => {
                return Err(Error::NoSuchProof);
            },
            Some(record) => record.owner,
        };
        proof {
            reveal(obeys_concrete_eq);
        }
        if origin != owner {
            return Err(Error::NotProofOwner);
        }
        self.proofs.remove(&fingerprint);
        Ok(Event::ClaimRevoked(origin, fingerprint))
    }
}

} // verus!
