use vstd::prelude::*;
use crate::plant::{MetadataModel, PlantMetadata};

verus! {

/// Whether `k` occurs as the key of some entry.
pub open spec fn has_key(entries: Seq<(String, PlantMetadata)>, k: Seq<char>) -> bool {
    exists|i: int| 0 <= i < entries.len() && (#[trigger] entries[i]).0@ == k
}

/// Token ids mapped to their metadata; each token id occurs at most once.
///
/// The entries are held in the contract's own value rather than in a
/// storage-backed map: a storage map needs a binary codec on the record type,
/// and the record types here carry none.
pub struct MetadataRegistry {
    entries: Vec<(String, PlantMetadata)>,
}

impl MetadataRegistry {
    /// No two entries share a token id.
    pub closed spec fn wf(&self) -> bool {
        forall|i: int, j: int|
            0 <= i < j < self.entries@.len() ==> (#[trigger] self.entries@[i]).0@
                != (#[trigger] self.entries@[j]).0@
    }

    /// What the registry holds: token id to metadata.
    pub closed spec fn view(&self) -> Map<Seq<char>, MetadataModel> {
        Map::new(
            |k: Seq<char>| has_key(self.entries@, k),
            |k: Seq<char>|
                {
                    let i = choose|i: int|
                        0 <= i < self.entries@.len() && (#[trigger] self.entries@[i]).0@ == k;
                    self.entries@[i].1@
                },
        )
    }

    pub fn new() -> (r: Self)
        ensures
            r.wf(),
            r@ == Map::<Seq<char>, MetadataModel>::empty(),
    {
        let r = MetadataRegistry { entries: Vec::new() };
        assert(r@ =~= Map::<Seq<char>, MetadataModel>::empty());
        r
    }

    /// Position of the entry for `token_id`, if there is one.
    fn find(&self, token_id: &String) -> (r: Option<usize>)
        requires
            self.wf(),
        ensures
            r is None <==> !self@.contains_key(token_id@),
            r matches Some(i) ==> i < self.entries@.len() && self.entries@[i as int].0@
                == token_id@,
    {
        let mut i: usize = 0;
        while i < self.entries.len()
            invariant
                i <= self.entries@.len(),
                forall|j: int| 0 <= j < i ==> (#[trigger] self.entries@[j]).0@ != token_id@,
            decreases self.entries@.len() - i,
        {
            if self.entries[i].0 == *token_id {
                return Some(i);
            }
            i = i + 1;
        }
        None
    }

    pub fn contains(&self, token_id: &String) -> (r: bool)
        requires
            self.wf(),
        ensures
            r == self@.contains_key(token_id@),
    {
        self.find(token_id).is_some()
    }

    /// The metadata stored for `token_id`, or `None` when there is none.
    pub fn get(&self, token_id: &String) -> (r: Option<PlantMetadata>)
        requires
            self.wf(),
        ensures
            r is None <==> !self@.contains_key(token_id@),
            r matches Some(m) ==> m@ == self@[token_id@],
    {
        match self.find(token_id) {
            Some(i) => {
                Some(self.entries[i].1.duplicate())
            },
            None => None,
        }
    }

    /// Stores `metadata` under `token_id` when that id has no entry yet; an
    /// existing entry is never replaced. Returns whether it was stored.
    pub fn put(&mut self, token_id: String, metadata: PlantMetadata) -> (r: bool)
        requires
            old(self).wf(),
        ensures
            final(self).wf(),
            r == !old(self)@.contains_key(token_id@),
            r ==> final(self)@ == old(self)@.insert(token_id@, metadata@),
            !r ==> final(self)@ == old(self)@,
    {
        if self.contains(&token_id) {
            return false;
        }
        let ghost before = self.entries@;
        let ghost k = token_id@;
        let ghost m = metadata@;
        self.entries.push((token_id, metadata));
        proof {
            assert(self.entries@.len() == before.len() + 1);
            assert forall|q: Seq<char>| has_key(self.entries@, q) == (has_key(before, q) || q == k) by {
                if has_key(before, q) {
                    let i = choose|i: int| 0 <= i < before.len() && (#[trigger] before[i]).0@ == q;
                    assert(self.entries@[i] == before[i]);
                }
                if has_key(self.entries@, q) && q != k {
                    let i = choose|i: int| 0 <= i < self.entries@.len() && (#[trigger] self.entries@[i]).0@ == q;
                    assert(i < before.len());
                    assert(before[i] == self.entries@[i]);
                }
                if q == k {
                    assert(self.entries@[before.len() as int].0@ == q);
                }
            }
            assert forall|q: Seq<char>| #[trigger] has_key(before, q) implies
                self@[q] == old(self)@[q] by {
                let i = choose|i: int| 0 <= i < before.len() && (#[trigger] before[i]).0@ == q;
                let j = choose|j: int| 0 <= j < self.entries@.len() && (#[trigger] self.entries@[j]).0@ == q;
                assert(self.entries@[i] == before[i]);
                if j != i {
                    if j < i {
                        assert(self.entries@[j].0@ != self.entries@[i].0@);
                    } else if j < before.len() {
                        assert(self.entries@[i].0@ != self.entries@[j].0@);
                    } else {
                        assert(self.entries@[j].0@ == k);
                    }
                }
            }
            let last = before.len() as int;
            let j = choose|j: int| 0 <= j < self.entries@.len() && (#[trigger] self.entries@[j]).0@ == k;
            if j != last {
                assert(self.entries@[j] == before[j]);
                assert(has_key(before, k));
            }
            assert(self@ =~= old(self)@.insert(k, m));
        }
        true
    }
}

} // verus!
