//! The claim store: a finite map from digest to claim.

use vstd::prelude::*;

use crate::rules::Mutation;
use crate::types::{AccountId, BlockNumber, Claim};

verus! {

/// One live claim together with the digest it is stored under.
struct Entry {
    digest: Vec<u8>,
    claim: Claim,
}

/// Key-value storage of the live claims, keyed by digest.
///
/// To a caller the store is the map `self@` from digest to claim. It is kept
/// as a list of entries in which no digest occurs twice.
pub struct ClaimStore {
    entries: Vec<Entry>,
}

/// Whether no two entries of `entries` share a digest.
spec fn distinct_digests(entries: Seq<Entry>) -> bool {
    forall|i: int, j: int|
        0 <= i < j < entries.len() ==> (#[trigger] entries[i]).digest@ != (#[trigger] entries[j]).digest@
}

/// Whether some entry of `entries` is stored under `digest`.
spec fn holds(entries: Seq<Entry>, digest: Seq<u8>) -> bool {
    exists|i: int| 0 <= i < entries.len() && (#[trigger] entries[i]).digest@ == digest
}

/// The position of an entry stored under `digest`, where there is one.
spec fn position(entries: Seq<Entry>, digest: Seq<u8>) -> int {
    choose|i: int| 0 <= i < entries.len() && (#[trigger] entries[i]).digest@ == digest
}

/// The map that a list of entries stands for.
spec fn as_map(entries: Seq<Entry>) -> Map<Seq<u8>, Claim> {
    Map::new(
        |digest: Seq<u8>| holds(entries, digest),
        |digest: Seq<u8>| entries[position(entries, digest)].claim,
    )
}

/// Whether two byte strings are equal.
fn same_bytes(a: &[u8], b: &[u8]) -> (same: bool)
    ensures
        same == (a@ == b@),
{
    if a.len() != b.len() {
        return false;
    }
    let mut i: usize = 0;
    while i < a.len()
        invariant
            a.len() == b.len(),
            i <= a.len(),
            forall|k: int| 0 <= k < i ==> a@[k] == b@[k],
        decreases a.len() - i,
    {
        if a[i] != b[i] {
            return false;
        }
        i += 1;
    }
    assert(a@ =~= b@);
    true
}

impl View for ClaimStore {
    type V = Map<Seq<u8>, Claim>;

    closed spec fn view(&self) -> Map<Seq<u8>, Claim> {
        as_map(self.entries@)
    }
}

impl ClaimStore {
    #[verifier::type_invariant]
    spec fn well_formed(self) -> bool {
        distinct_digests(self.entries@)
    }

    /// A store without claims.
    pub fn new() -> (store: Self)
        ensures
            store@ == Map::<Seq<u8>, Claim>::empty(),
    {
        let store = ClaimStore { entries: Vec::new() };
        assert(store@ =~= Map::<Seq<u8>, Claim>::empty());
        store
    }

    /// The position of the entry stored under `digest`, if there is one.
    fn find(&self, digest: &[u8]) -> (found: Option<usize>)
        ensures
            match found {
                Some(i) => i < self.entries.len() && self.entries[i as int].digest@ == digest@,
                None => !holds(self.entries@, digest@),
            },
    {
        let mut i: usize = 0;
        while i < self.entries.len()
            invariant
                i <= self.entries.len(),
                forall|k: int| 0 <= k < i ==> (#[trigger] self.entries[k]).digest@ != digest@,
            decreases self.entries.len() - i,
        {
            if same_bytes(self.entries[i].digest.as_slice(), digest) {
                return Some(i);
            }
            i += 1;
        }
        None
    }

    /// Whether `digest` has a live claim.
    pub fn contains(&self, digest: &[u8]) -> (present: bool)
        ensures
            present == self@.contains_key(digest@),
    {
        self.find(digest).is_some()
    }

    /// The claim stored under `digest`, or `None` where there is none.
    pub fn get(&self, digest: &[u8]) -> (claim: Option<Claim>)
        ensures
            claim == (if self@.contains_key(digest@) {
                Some(self@[digest@])
            } else {
                None
            }),
    {
        proof {
            use_type_invariant(self);
        }
        match self.find(digest) {
            Some(i) => {
                assert(holds(self.entries@, digest@));
                Some(self.entries[i].claim)
            },
            None => None,
        }
    }

    /// Stores a claim of `owner` at `height` under `digest`, in place of any
    /// claim that was stored under it.
    pub fn insert(&mut self, digest: Vec<u8>, owner: AccountId, height: BlockNumber)
        ensures
            final(self)@ == old(self)@.insert(digest@, Claim { owner, recorded_at: height }),
    {
        proof {
            use_type_invariant(&*self);
        }
        let entry = Entry { digest, claim: Claim { owner, recorded_at: height } };
        let found = self.find(entry.digest.as_slice());
        let mut entries = self.take_entries();
        match found {
            Some(i) => {
                proof {
                    lemma_overwrite(entries@, i as int, entry);
                }
                entries.set(i, entry);
            },
            None => {
                proof {
                    lemma_append(entries@, entry);
                }
                entries.push(entry);
            },
        }
        self.entries = entries;
    }

    /// Removes the claim stored under `digest`, if there is one.
    pub fn remove(&mut self, digest: &[u8])
        ensures
            final(self)@ == old(self)@.remove(digest@),
    {
        proof {
            use_type_invariant(&*self);
        }
        let found = self.find(digest);
        let mut entries = self.take_entries();
        match found {
            Some(i) => {
                proof {
                    lemma_swap_remove(entries@, i as int);
                }
                entries.swap_remove(i);
            },
            None => {
                assert(as_map(entries@).remove(digest@) =~= as_map(entries@));
            },
        }
        self.entries = entries;
    }

    /// Applies one mutation to the stored claims.
    pub fn apply(&mut self, mutation: Mutation)
        ensures
            final(self)@ == mutation@.apply(old(self)@),
    {
        match mutation {
            Mutation::Insert { digest, claim } => self.insert(
                digest,
                claim.owner,
                claim.recorded_at,
            ),
            Mutation::Remove { digest } => self.remove(digest.as_slice()),
        }
    }

    /// Moves the list of entries out of the store, which is left empty until
    /// the caller puts a list back.
    fn take_entries(&mut self) -> (entries: Vec<Entry>)
        ensures
            entries@ == old(self).entries@,
            final(self).entries@ == Seq::<Entry>::empty(),
    {
        let mut entries: Vec<Entry> = Vec::new();
        std::mem::swap(&mut entries, &mut self.entries);
        entries
    }
}

/// In a list without repeated digests, an entry is found at its own position.
proof fn lemma_position(entries: Seq<Entry>, k: int)
    requires
        distinct_digests(entries),
        0 <= k < entries.len(),
    ensures
        holds(entries, entries[k].digest@),
        position(entries, entries[k].digest@) == k,
{
    let digest = entries[k].digest@;
    assert(holds(entries, digest));
    let p = position(entries, digest);
    if p < k {
        assert(entries[p].digest@ != entries[k].digest@);
    } else if k < p {
        assert(entries[k].digest@ != entries[p].digest@);
    }
}

/// Replacing an entry by one with the same digest overwrites that digest's claim.
proof fn lemma_overwrite(before: Seq<Entry>, i: int, entry: Entry)
    requires
        distinct_digests(before),
        0 <= i < before.len(),
        entry.digest@ == before[i].digest@,
    ensures
        distinct_digests(before.update(i, entry)),
        as_map(before.update(i, entry)) == as_map(before).insert(entry.digest@, entry.claim),
{
    let after = before.update(i, entry);
    let expected = as_map(before).insert(entry.digest@, entry.claim);
    assert forall|a: int, b: int| 0 <= a < b < after.len() implies (#[trigger] after[a]).digest@
        != (#[trigger] after[b]).digest@ by {
        assert(after[a].digest@ == before[a].digest@);
        assert(after[b].digest@ == before[b].digest@);
    }
    assert forall|digest: Seq<u8>| #[trigger]
        as_map(after).dom().contains(digest) == expected.dom().contains(digest) by {
        if holds(before, digest) {
            let k = position(before, digest);
            assert(after[k].digest@ == digest);
        }
        if holds(after, digest) {
            let k = position(after, digest);
            assert(before[k].digest@ == digest);
        }
        lemma_position(before, i);
    }
    assert forall|digest: Seq<u8>| #[trigger]
        as_map(after).dom().contains(digest) implies as_map(after)[digest] == expected[digest] by {
        let k = position(after, digest);
        assert(before[k].digest@ == digest);
        lemma_position(before, k);
    }
    assert(as_map(after) =~= expected);
}

/// Appending an entry under a digest that is not held adds that digest's claim.
proof fn lemma_append(before: Seq<Entry>, entry: Entry)
    requires
        distinct_digests(before),
        !holds(before, entry.digest@),
    ensures
        distinct_digests(before.push(entry)),
        as_map(before.push(entry)) == as_map(before).insert(entry.digest@, entry.claim),
{
    let after = before.push(entry);
    let expected = as_map(before).insert(entry.digest@, entry.claim);
    assert forall|a: int, b: int| 0 <= a < b < after.len() implies (#[trigger] after[a]).digest@
        != (#[trigger] after[b]).digest@ by {
        assert(after[a] == before[a]);
        if b < before.len() {
            assert(after[b] == before[b]);
        }
    }
    assert forall|digest: Seq<u8>| #[trigger]
        as_map(after).dom().contains(digest) == expected.dom().contains(digest) by {
        if holds(before, digest) {
            let k = position(before, digest);
            assert(after[k].digest@ == digest);
        }
        if holds(after, digest) {
            let k = position(after, digest);
            if k < before.len() {
                assert(before[k].digest@ == digest);
            }
        }
        assert(after[before.len() as int].digest@ == entry.digest@);
    }
    assert forall|digest: Seq<u8>| #[trigger]
        as_map(after).dom().contains(digest) implies as_map(after)[digest] == expected[digest] by {
        let k = position(after, digest);
        if k < before.len() {
            assert(before[k].digest@ == digest);
            lemma_position(before, k);
        }
    }
    assert(as_map(after) =~= expected);
}

/// Moving the last entry into position `i` and dropping the last position
/// removes the digest that was held at `i`, and nothing else.
proof fn lemma_swap_remove(before: Seq<Entry>, i: int)
    requires
        distinct_digests(before),
        0 <= i < before.len(),
    ensures
        distinct_digests(before.update(i, before.last()).drop_last()),
        as_map(before.update(i, before.last()).drop_last()) == as_map(before).remove(
            before[i].digest@,
        ),
{
    let last = before.len() - 1;
    let after = before.update(i, before.last()).drop_last();
    let expected = as_map(before).remove(before[i].digest@);
    // Where each entry of `after` stood in `before`.
    let origin = |k: int| if k == i { last } else { k };
    assert forall|k: int| 0 <= k < after.len() implies #[trigger] after[k] == before[origin(k)] by {}
    assert forall|a: int, b: int| 0 <= a < b < after.len() implies (#[trigger] after[a]).digest@
        != (#[trigger] after[b]).digest@ by {
        let (x, y) = (origin(a), origin(b));
        if x < y {
            assert(before[x].digest@ != before[y].digest@);
        } else {
            assert(before[y].digest@ != before[x].digest@);
        }
    }
    assert forall|digest: Seq<u8>| #[trigger]
        as_map(after).dom().contains(digest) == expected.dom().contains(digest) by {
        if holds(after, digest) {
            let k = position(after, digest);
            assert(before[origin(k)].digest@ == digest);
            lemma_position(before, origin(k));
            lemma_position(before, i);
        }
        if holds(before, digest) && digest != before[i].digest@ {
            let k = position(before, digest);
            if k == last {
                assert(after[i].digest@ == digest);
            } else {
                assert(after[k].digest@ == digest);
            }
        }
    }
    assert forall|digest: Seq<u8>| #[trigger]
        as_map(after).dom().contains(digest) implies as_map(after)[digest] == expected[digest] by {
        let k = position(after, digest);
        assert(before[origin(k)].digest@ == digest);
        lemma_position(before, origin(k));
    }
    assert(as_map(after) =~= expected);
}

} // verus!
