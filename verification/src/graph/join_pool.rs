use vstd::prelude::*;

use crate::feature::Rnum;

verus! {

/// Allocates visible ring closure numbers for unordered atom pairs during a
/// traversal: the first sight of a pair allocates the next number starting
/// from 1, the second sight returns the same number.
pub struct JoinPool {
    mapping: Vec<(usize, usize)>,
}

impl JoinPool {
    /// The pairs seen so far, each normalised to (smaller, larger), in
    /// order of allocation; the pair at position `i` has the number `i + 1`.
    pub closed spec fn pairs(self) -> Seq<(usize, usize)> {
        self.mapping@
    }

    /// The position of a normalised pair among those seen, if it was.
    pub open spec fn spec_find(self, key: (usize, usize)) -> Option<int> {
        self.pairs().index_of_first(key)
    }

    /// The normalised form of an atom pair.
    pub open spec fn spec_key(sid: usize, tid: usize) -> (usize, usize) {
        if sid < tid {
            (sid, tid)
        } else {
            (tid, sid)
        }
    }

    /// Constructs an empty pool.
    pub fn new() -> (r: JoinPool)
        ensures
            r.pairs() =~= Seq::<(usize, usize)>::empty(),
    {
        JoinPool { mapping: Vec::new() }
    }

    /// Returns the ring closure number of the unordered pair `{sid, tid}`,
    /// allocating the next free number on its first sight.
    pub fn hit(&mut self, sid: usize, tid: usize) -> (r: Rnum)
        requires
            old(self).pairs().len() <= 99,
            old(self).spec_find(JoinPool::spec_key(sid, tid)) is None ==> old(
                self,
            ).pairs().len() <= 98,
        ensures
            match old(self).spec_find(JoinPool::spec_key(sid, tid)) {
                Some(i) => {
                    &&& *final(self) == *old(self)
                    &&& r.0 == i + 1
                },
                None => {
                    &&& final(self).pairs() == old(self).pairs().push(
                        JoinPool::spec_key(sid, tid),
                    )
                    &&& r.0 == old(self).pairs().len() + 1
                },
            },
            r.0 <= 99,
    {
        let key: (usize, usize) = if sid < tid {
            (sid, tid)
        } else {
            (tid, sid)
        };
        let mut i: usize = 0;
        while i < self.mapping.len()
            invariant
                *self == *old(self),
                self.mapping@.len() <= 99,
                key == JoinPool::spec_key(sid, tid),
                i <= self.mapping@.len(),
                forall|k: int| 0 <= k < i ==> self.mapping@[k] != key,
            decreases self.mapping@.len() - i,
        {
            if self.mapping[i].0 == key.0 && self.mapping[i].1 == key.1 {
                proof {
                    assert(self.mapping@[i as int] == key);
                    assert(self.mapping@.contains(key));
                    self.mapping@.index_of_first_ensures(key);
                }
                return Rnum((i + 1) as u8);
            }
            i = i + 1;
        }
        proof {
            assert(!self.mapping@.contains(key));
            self.mapping@.index_of_first_ensures(key);
        }
        self.mapping.push(key);
        Rnum(self.mapping.len() as u8)
    }
}

} // verus!
