use vstd::prelude::*;

use crate::feature::Rnum;

verus! {

/// Records source-span provenance for a parse: the character span of every
/// atom, and for every bond the cursor of its bond character (or of the
/// token that implied it). Ring closure bonds are paired the same way the
/// graph builder pairs them.
pub struct Trace {
    atoms: Vec<(usize, usize)>,
    bonds: Vec<(usize, usize, usize)>,
    stack: Vec<usize>,
    opens: Vec<Option<usize>>,
}

/// The normalised form of an atom pair.
pub open spec fn trace_key(a: usize, b: usize) -> (usize, usize) {
    if a < b {
        (a, b)
    } else {
        (b, a)
    }
}

/// The cursor recorded for the first bond entry joining the given pair.
pub open spec fn spec_bond_lookup(
    bonds: Seq<(usize, usize, usize)>,
    key: (usize, usize),
) -> Option<usize>
    decreases bonds.len(),
{
    if bonds.len() == 0 {
        None
    } else if (bonds.first().0, bonds.first().1) == key {
        Some(bonds.first().2)
    } else {
        spec_bond_lookup(bonds.drop_first(), key)
    }
}

impl Trace {
    /// The recorded atom spans, by atom index.
    pub closed spec fn atom_spans(self) -> Seq<(usize, usize)> {
        self.atoms@
    }

    /// The recorded bond entries: normalised atom pair and cursor.
    pub closed spec fn bond_entries(self) -> Seq<(usize, usize, usize)> {
        self.bonds@
    }

    /// The chain stack of atom indices.
    pub closed spec fn chain(self) -> Seq<usize> {
        self.stack@
    }

    /// The open ring closure table: the atom that opened each number.
    pub closed spec fn open_rings(self) -> Seq<Option<usize>> {
        self.opens@
    }

    /// The table always has one slot per ring closure number, and the chain
    /// only names recorded atoms.
    pub closed spec fn wf(self) -> bool {
        &&& self.opens@.len() == 100
        &&& forall|i: int| 0 <= i < self.stack@.len() ==> #[trigger] self.stack@[i] < self.atoms@.len()
        &&& forall|n: int|
            0 <= n < 100 ==> ((#[trigger] self.opens@[n]) matches Some(a) ==> a < self.atoms@.len())
    }

    /// Constructs an empty trace.
    pub fn new() -> (r: Trace)
        ensures
            r.wf(),
            r.atom_spans() =~= Seq::<(usize, usize)>::empty(),
            r.bond_entries() =~= Seq::<(usize, usize, usize)>::empty(),
            r.chain() =~= Seq::<usize>::empty(),
    {
        let mut opens: Vec<Option<usize>> = Vec::new();
        let mut n: usize = 0;
        while n < 100
            invariant
                n <= 100,
                opens@.len() == n,
                forall|k: int| 0 <= k < n ==> opens@[k] is None,
            decreases 100 - n,
        {
            opens.push(None);
            n = n + 1;
        }
        Trace { atoms: Vec::new(), bonds: Vec::new(), stack: Vec::new(), opens }
    }

    /// Records the span of a new root atom.
    pub fn root(&mut self, start: usize, end: usize)
        requires
            old(self).wf(),
        ensures
            final(self).wf(),
            final(self).atom_spans() == old(self).atom_spans().push((start, end)),
            final(self).bond_entries() == old(self).bond_entries(),
            final(self).chain() == old(self).chain().push(
                old(self).atom_spans().len() as usize,
            ),
            final(self).open_rings() == old(self).open_rings(),
    {
        self.stack.push(self.atoms.len());
        self.atoms.push((start, end));
    }

    /// Records the span of an atom extending the chain, and the cursor of
    /// the bond joining it to its parent.
    pub fn extend(&mut self, cursor: usize, start: usize, end: usize)
        requires
            old(self).wf(),
            old(self).chain().len() >= 1,
        ensures
            final(self).wf(),
            final(self).atom_spans() == old(self).atom_spans().push((start, end)),
            final(self).bond_entries() == old(self).bond_entries().push(
                (
                    trace_key(old(self).chain().last(), old(self).atom_spans().len() as usize).0,
                    trace_key(old(self).chain().last(), old(self).atom_spans().len() as usize).1,
                    cursor,
                ),
            ),
            final(self).chain() == old(self).chain().push(
                old(self).atom_spans().len() as usize,
            ),
            final(self).open_rings() == old(self).open_rings(),
    {
        let parent = self.stack[self.stack.len() - 1];
        let id = self.atoms.len();
        let key: (usize, usize) = if parent < id {
            (parent, id)
        } else {
            (id, parent)
        };
        self.atoms.push((start, end));
        self.bonds.push((key.0, key.1, cursor));
        self.stack.push(id);
    }

    /// Records a ring closure token at the current atom: the first sight of
    /// a number opens it, the second records a bond entry with the closing
    /// cursor.
    pub fn join(&mut self, cursor: usize, rnum: Rnum)
        requires
            old(self).wf(),
            old(self).chain().len() >= 1,
            rnum.0 <= 99,
        ensures
            final(self).wf(),
            final(self).atom_spans() == old(self).atom_spans(),
            final(self).chain() == old(self).chain(),
            match old(self).open_rings()[rnum.0 as int] {
                Some(a) => {
                    &&& final(self).bond_entries() == old(self).bond_entries().push(
                        (
                            trace_key(a, old(self).chain().last()).0,
                            trace_key(a, old(self).chain().last()).1,
                            cursor,
                        ),
                    )
                    &&& final(self).open_rings() == old(self).open_rings().update(
                        rnum.0 as int,
                        None::<usize>,
                    )
                },
                None => {
                    &&& final(self).bond_entries() == old(self).bond_entries()
                    &&& final(self).open_rings() == old(self).open_rings().update(
                        rnum.0 as int,
                        Some(old(self).chain().last()),
                    )
                },
            },
    {
        let top = self.stack[self.stack.len() - 1];
        match self.opens[rnum.0 as usize] {
            Some(a) => {
                let key: (usize, usize) = if a < top {
                    (a, top)
                } else {
                    (top, a)
                };
                self.bonds.push((key.0, key.1, cursor));
                self.opens[rnum.0 as usize] = None;
            },
            None => {
                self.opens[rnum.0 as usize] = Some(top);
            },
        }
    }

    /// Closes a branch, dropping its atoms off the chain.
    pub fn pop(&mut self, depth: usize)
        requires
            old(self).wf(),
            depth <= old(self).chain().len(),
        ensures
            final(self).wf(),
            final(self).atom_spans() == old(self).atom_spans(),
            final(self).bond_entries() == old(self).bond_entries(),
            final(self).chain() == old(self).chain().take(
                old(self).chain().len() - depth as int,
            ),
            final(self).open_rings() == old(self).open_rings(),
    {
        let mut n: usize = 0;
        while n < depth
            invariant
                n <= depth,
                depth <= old(self).stack@.len(),
                self.stack@ == old(self).stack@.take(old(self).stack@.len() - n as int),
                self.atoms@ == old(self).atoms@,
                self.bonds@ == old(self).bonds@,
                self.opens@ == old(self).opens@,
            decreases depth - n,
        {
            self.stack.pop();
            proof {
                assert(self.stack@ =~= old(self).stack@.take(
                    old(self).stack@.len() - (n + 1),
                ));
            }
            n = n + 1;
        }
    }

    /// Returns the span recorded for an atom index, if there is one.
    pub fn atom(&self, id: usize) -> (r: Option<(usize, usize)>)
        ensures
            r == (if id < self.atom_spans().len() {
                Some(self.atom_spans()[id as int])
            } else {
                None::<(usize, usize)>
            }),
    {
        if id < self.atoms.len() {
            Some(self.atoms[id])
        } else {
            None
        }
    }

    /// The cursor this trace reports for the bond between two atoms.
    pub open spec fn spec_bond(self, a: usize, b: usize) -> Option<usize> {
        spec_bond_lookup(self.bond_entries(), trace_key(a, b))
    }

    /// Returns the cursor recorded for the bond between atoms `a` and `b`.
    pub fn bond(&self, a: usize, b: usize) -> (r: Option<usize>)
        ensures
            r == self.spec_bond(a, b),
    {
        let key: (usize, usize) = if a < b {
            (a, b)
        } else {
            (b, a)
        };
        let mut i: usize = 0;
        proof {
            assert(self.bond_entries().skip(0) =~= self.bond_entries());
        }
        while i < self.bonds.len()
            invariant
                i <= self.bonds@.len(),
                self.bonds@ == self.bond_entries(),
                key == trace_key(a, b),
                spec_bond_lookup(self.bond_entries(), key) == spec_bond_lookup(
                    self.bond_entries().skip(i as int),
                    key,
                ),
            decreases self.bonds@.len() - i,
        {
            proof {
                assert(self.bond_entries().skip(i as int).first() == self.bond_entries()[i as int]);
                assert(self.bond_entries().skip(i as int).drop_first() =~= self.bond_entries().skip(
                    i + 1,
                ));
            }
            let entry = self.bonds[i];
            if entry.0 == key.0 && entry.1 == key.1 {
                return Some(entry.2);
            }
            i = i + 1;
        }
        proof {
            assert(self.bond_entries().skip(self.bond_entries().len() as int) =~= Seq::<
                (usize, usize, usize),
            >::empty());
        }
        None
    }
}

/// The cursor a trace reports for a bond does not depend on the order the
/// two atoms are named in: `bond(a, b)` and `bond(b, a)` agree.
pub proof fn lemma_bond_symmetric(trace: Trace, a: usize, b: usize)
    ensures
        trace.spec_bond(a, b) == trace.spec_bond(b, a),
{
    assert(trace_key(a, b) == trace_key(b, a));
}

} // verus!
