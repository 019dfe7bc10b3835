//! Laws that relate the registry's operations, stated over the models that
//! `Pallet::create_claim` and `Pallet::revoke_claim` are specified by.
use vstd::prelude::*;
use crate::pallet::{create_spec, revoke_spec, Error};
use crate::store::{BlockNumber, ClaimRecord};

verus! {

/// Once `who` has claimed `fingerprint`, any further claim on it, by anyone,
/// fails with `ProofAlreadyClaimed`, and the record stays `(who, now)`.
pub proof fn lemma_claim_is_unique<A>(
    claims: Map<Seq<u8>, ClaimRecord<A>>,
    fingerprint: Seq<u8>,
    who: A,
    now: BlockNumber,
    other: A,
    later: BlockNumber,
)
    requires
        create_spec(claims, who, fingerprint, now) is Ok,
    ensures
        ({
            let after = create_spec(claims, who, fingerprint, now)->Ok_0;
            &&& after[fingerprint] == (ClaimRecord { owner: who, created_at: now })
            &&& create_spec(after, other, fingerprint, later) == Err::<Map<Seq<u8>, ClaimRecord<A>>, Error>(Error::ProofAlreadyClaimed)
        }),
{
}

/// Revoking an unclaimed fingerprint fails with `NoSuchProof`, whoever asks.
pub proof fn lemma_revoke_needs_claim<A>(claims: Map<Seq<u8>, ClaimRecord<A>>, fingerprint: Seq<u8>, who: A)
    requires
        !claims.contains_key(fingerprint),
    ensures
        revoke_spec(claims, who, fingerprint) == Err::<Map<Seq<u8>, ClaimRecord<A>>, Error>(Error::NoSuchProof),
{
}

/// Once `who` has claimed `fingerprint`, a revoke by any other account fails
/// with `NotProofOwner`, and the record stays `(who, now)`.
pub proof fn lemma_revoke_needs_owner<A>(
    claims: Map<Seq<u8>, ClaimRecord<A>>,
    fingerprint: Seq<u8>,
    who: A,
    now: BlockNumber,
    other: A,
)
    requires
        create_spec(claims, who, fingerprint, now) is Ok,
        other != who,
    ensures
        ({
            let after = create_spec(claims, who, fingerprint, now)->Ok_0;
            &&& after[fingerprint] == (ClaimRecord { owner: who, created_at: now })
            &&& revoke_spec(after, other, fingerprint) == Err::<Map<Seq<u8>, ClaimRecord<A>>, Error>(Error::NotProofOwner)
        }),
{
}

/// A claim followed by its owner's revoke succeeds twice and gives back the
/// registry as it was before the claim.
pub proof fn lemma_create_then_revoke<A>(
    claims: Map<Seq<u8>, ClaimRecord<A>>,
    fingerprint: Seq<u8>,
    who: A,
    now: BlockNumber,
)
    requires
        !claims.contains_key(fingerprint),
    ensures
        create_spec(claims, who, fingerprint, now) is Ok,
        revoke_spec(create_spec(claims, who, fingerprint, now)->Ok_0, who, fingerprint)
            == Ok::<Map<Seq<u8>, ClaimRecord<A>>, Error>(claims),
{
    assert(claims.insert(fingerprint, ClaimRecord { owner: who, created_at: now }).remove(fingerprint) =~= claims);
}

/// After a claim and its owner's revoke, any account can claim the fingerprint
/// again at a later block; the new record names that account and that block.
pub proof fn lemma_reclaim_after_revoke<A>(
    claims: Map<Seq<u8>, ClaimRecord<A>>,
    fingerprint: Seq<u8>,
    who: A,
    now: BlockNumber,
    other: A,
    later: BlockNumber,
)
    requires
        !claims.contains_key(fingerprint),
        now <= later,
    ensures
        ({
            let claimed = create_spec(claims, who, fingerprint, now)->Ok_0;
            let revoked = revoke_spec(claimed, who, fingerprint)->Ok_0;
            let again = create_spec(revoked, other, fingerprint, later);
            &&& again is Ok
            &&& again->Ok_0[fingerprint] == (ClaimRecord { owner: other, created_at: later })
            &&& again->Ok_0[fingerprint].created_at >= claimed[fingerprint].created_at
        }),
{
    lemma_create_then_revoke(claims, fingerprint, who, now);
}

/// A claim on one fingerprint leaves every other fingerprint's record, and
/// whether it has one, as it was.
pub proof fn lemma_create_isolated<A>(
    claims: Map<Seq<u8>, ClaimRecord<A>>,
    fingerprint: Seq<u8>,
    who: A,
    now: BlockNumber,
    elsewhere: Seq<u8>,
)
    requires
        elsewhere != fingerprint,
    ensures
        ({
            let after = match create_spec(claims, who, fingerprint, now) {
                Ok(m) => m,
                Err(_) => claims,
            };
            &&& after.contains_key(elsewhere) == claims.contains_key(elsewhere)
            &&& claims.contains_key(elsewhere) ==> after[elsewhere] == claims[elsewhere]
        }),
{
}

/// A revoke on one fingerprint leaves every other fingerprint's record, and
/// whether it has one, as it was.
pub proof fn lemma_revoke_isolated<A>(
    claims: Map<Seq<u8>, ClaimRecord<A>>,
    fingerprint: Seq<u8>,
    who: A,
    elsewhere: Seq<u8>,
)
    requires
        elsewhere != fingerprint,
    ensures
        ({
            let after = match revoke_spec(claims, who, fingerprint) {
                Ok(m) => m,
                Err(_) => claims,
            };
            &&& after.contains_key(elsewhere) == claims.contains_key(elsewhere)
            &&& claims.contains_key(elsewhere) ==> after[elsewhere] == claims[elsewhere]
        }),
{
}

} // verus!
