//! Keyed storage of claims, indexed by the fingerprint bytes.
use vstd::prelude::*;

verus! {

/// Logical time: the host's block counter.
pub type BlockNumber = u64;

/// What is stored per fingerprint: who holds the claim and when it was made.
#[derive(Clone, Copy, Debug, PartialEq, Eq)]
pub struct ClaimRecord<A> {
    pub owner: A,
    pub created_at: BlockNumber,
}

/// Byte-wise equality of two fingerprints.
pub fn same_bytes(a: &Vec<u8>, b: &Vec<u8>) -> (r: bool)
    ensures
        r == (a@ == b@),
{
    if a.len() != b.len() {
        return false;
    }
    let mut i: usize = 0;
    while i < a.len()
        invariant
            a@.len() == b@.len(),
            i <= a@.len(),
            forall|j: int| 0 <= j < i ==> a@[j] == b@[j],
        decreases a@.len() - i,
    {
        if a[i] != b[i] {
            return false;
        }
        i = i + 1;
    }
    assert(a@ =~= b@);
    true
}

/// A map from fingerprint to claim record, with at most one record per key.
pub struct Proofs<A> {
    entries: Vec<(Vec<u8>, ClaimRecord<A>)>,
    contents: Ghost<Map<Seq<u8>, ClaimRecord<A>>>,
}

impl<A> View for Proofs<A> {
    type V = Map<Seq<u8>, ClaimRecord<A>>;

    closed spec fn view(&self) -> Map<Seq<u8>, ClaimRecord<A>> {
        self.contents@
    }
}

impl<A: Copy> Proofs<A> {
    /// Keys are unique, and the entries are exactly the contents.
    pub closed spec fn wf(&self) -> bool {
        &&& forall|i: int, j: int|
            0 <= i < j < self.entries@.len() ==> #[trigger] self.entries@[i].0@
                != #[trigger] self.entries@[j].0@
        &&& forall|i: int|
            0 <= i < self.entries@.len() ==> {
                &&& #[trigger] self.contents@.contains_key(self.entries@[i].0@)
                &&& self.contents@[self.entries@[i].0@] == self.entries@[i].1
            }
        &&& forall|k: Seq<u8>|
            #[trigger] self.contents@.contains_key(k) ==> exists|i: int|
                0 <= i < self.entries@.len() && #[trigger] self.entries@[i].0@ == k
    }

    /// An empty store.
    pub fn new() -> (r: Self)
        ensures
            r.wf(),
            r@ == Map::<Seq<u8>, ClaimRecord<A>>::empty(),
    {
        Proofs { entries: Vec::new(), contents: Ghost(Map::empty()) }
    }

    /// The position of the entry for `key`, if there is one.
    fn find(&self, key: &Vec<u8>) -> (r: Option<usize>)
        requires
            self.wf(),
        ensures
            match r {
                Some(i) => i < self.entries@.len() && self.entries@[i as int].0@ == key@,
                None => !self@.contains_key(key@),
            },
    {
        let mut i: usize = 0;
        while i < self.entries.len()
            invariant
                self.wf(),
                i <= self.entries@.len(),
                forall|j: int| 0 <= j < i ==> #[trigger] self.entries@[j].0@ != key@,
            decreases self.entries@.len() - i,
        {
            if same_bytes(&self.entries[i].0, key) {
                return Some(i);
            }
            i = i + 1;
        }
        None
    }

    /// Whether a record is stored for `key`.
    pub fn contains_key(&self, key: &Vec<u8>) -> (r: bool)
        requires
            self.wf(),
        ensures
            r == self@.contains_key(key@),
    {
        match self.find(key) {
            Some(_) => true,
            None => false,
        }
    }

    /// The record stored for `key`, if any.
    pub fn get(&self, key: &Vec<u8>) -> (r: Option<ClaimRecord<A>>)
        requires
            self.wf(),
        ensures
            r == (if self@.contains_key(key@) {
                Some(self@[key@])
            } else {
                None
            }),
    {
        match self.find(key) {
            Some(i) => Some(self.entries[i].1),
            None => None,
        }
    }

    /// Stores `record` under a key that holds no record yet.
    pub fn insert(&mut self, key: Vec<u8>, record: ClaimRecord<A>)
        requires
            old(self).wf(),
            !old(self)@.contains_key(key@),
        ensures
            final(self).wf(),
            final(self)@ == old(self)@.insert(key@, record),
    {
        let ghost k = key@;
        self.entries.push((key, record));
        self.contents = Ghost(self.contents@.insert(k, record));
        let ghost n = self.entries@.len() - 1;
        assert(self.entries@[n].0@ == k);
        assert forall|k2: Seq<u8>| #[trigger] self.contents@.contains_key(k2) implies exists|i: int|
            0 <= i < self.entries@.len() && #[trigger] self.entries@[i].0@ == k2 by {
            if k2 != k {
                let i = choose|i: int|
                    0 <= i < old(self).entries@.len() && #[trigger] old(self).entries@[i].0@ == k2;
                assert(self.entries@[i].0@ == k2);
            }
        }
    }

    /// Removes the record stored under `key`; a key without a record is left as it is.
    pub fn remove(&mut self, key: &Vec<u8>)
        requires
            old(self).wf(),
        ensures
            final(self).wf(),
            final(self)@ == old(self)@.remove(key@),
    {
        match self.find(key) {
            None => {
                assert(self.contents@ =~= self.contents@.remove(key@));
            },
            Some(i) => {
                let ghost k = key@;
                let _ = self.entries.remove(i);
                self.contents = Ghost(self.contents@.remove(k));
                assert forall|k2: Seq<u8>| #[trigger] self.contents@.contains_key(k2) implies exists|j: int|
                    0 <= j < self.entries@.len() && #[trigger] self.entries@[j].0@ == k2 by {
                    let j = choose|j: int|
                        0 <= j < old(self).entries@.len() && #[trigger] old(self).entries@[j].0@ == k2;
                    if j < i {
                        assert(self.entries@[j].0@ == k2);
                    } else {
                        assert(j != i);
                        assert(self.entries@[j - 1].0@ == k2);
                    }
                }
            },
        }
    }
}

} // verus!
