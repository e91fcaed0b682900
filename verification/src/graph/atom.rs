use vstd::prelude::*;

use crate::feature::AtomKind;
use crate::graph::bond::Bond;

verus! {

/// An atom of the adjacency-list representation: its kind and its bonds in
/// emission order.
#[derive(Debug, PartialEq, Eq, Clone)]
pub struct Atom {
    pub kind: AtomKind,
    pub bonds: Vec<Bond>,
}

/// The sum of the bond orders of a bond list.
pub open spec fn spec_bond_order_sum(bonds: Seq<Bond>) -> int
    decreases bonds.len(),
{
    if bonds.len() == 0 {
        0
    } else {
        spec_bond_order_sum(bonds.drop_last()) + bonds.last().kind.spec_order()
    }
}

/// The slack under the first valence target not below `valence`, or 0 when
/// every target lies below it.
pub open spec fn spec_first_fit(targets: Seq<u8>, valence: int) -> int
    decreases targets.len(),
{
    if targets.len() == 0 {
        0
    } else if targets.first() >= valence {
        targets.first() - valence
    } else {
        spec_first_fit(targets.drop_first(), valence)
    }
}

impl Atom {
    /// Constructs an Atom without bonds.
    pub fn new(kind: AtomKind) -> (r: Atom)
        ensures
            r.kind == kind,
            r.bonds@ =~= Seq::<Bond>::empty(),
    {
        Atom { kind, bonds: Vec::new() }
    }

    /// Returns true if the atom was encoded as aromatic.
    pub fn is_aromatic(&self) -> (r: bool)
        ensures
            r == self.kind.spec_is_aromatic(),
    {
        self.kind.is_aromatic()
    }

    /// The explicit hydrogen count written on the atom, 0 when none is.
    pub open spec fn spec_hcount(self) -> int {
        match self.kind {
            AtomKind::Bracket { hcount: Some(h), .. } => h.spec_count() as int,
            _ => 0,
        }
    }

    /// The subvalence of this atom: the slack under the first valence
    /// target not exceeded by the written hydrogens plus the bond order
    /// sum. It is the number of implicit hydrogens that could still be
    /// added, and is independent of the atom's aromaticity marking.
    pub open spec fn spec_subvalence(self) -> int {
        spec_first_fit(self.kind.spec_targets(), self.spec_hcount() + spec_bond_order_sum(
            self.bonds@,
        ))
    }

    /// Computes and returns the subvalence of this atom.
    pub fn subvalence(&self) -> (r: u8)
        ensures
            r == self.spec_subvalence(),
    {
        let hcount: u8 = match &self.kind {
            AtomKind::Bracket { hcount: Some(h), .. } => h.count(),
            _ => 0,
        };
        // Every valence target is at most 6, so the exact valence sum only
        // matters up to 7; capping there keeps the sum within `u8`.
        let mut valence: u8 = if hcount > 7 {
            7
        } else {
            hcount
        };
        let ghost true_valence: int = self.spec_hcount() + spec_bond_order_sum(self.bonds@);
        let mut i: usize = 0;
        while i < self.bonds.len()
            invariant
                i <= self.bonds@.len(),
                valence == {
                    let part = self.spec_hcount() + spec_bond_order_sum(
                        self.bonds@.subrange(0, i as int),
                    );
                    if part <= 7 {
                        part
                    } else {
                        7int
                    }
                },
            decreases self.bonds@.len() - i,
        {
            proof {
                assert(self.bonds@.subrange(0, i + 1).drop_last() =~= self.bonds@.subrange(
                    0,
                    i as int,
                ));
                assert(self.bonds@.subrange(0, i + 1).last() == self.bonds@[i as int]);
            }
            let order = self.bonds[i].order();
            if valence + order as u8 > 7 {
                valence = 7;
            } else {
                valence = valence + order;
            }
            i = i + 1;
        }
        proof {
            assert(self.bonds@.subrange(0, self.bonds@.len() as int) =~= self.bonds@);
            lemma_targets_bounded(self.kind);
        }
        let targets = self.kind.targets();
        let mut j: usize = 0;
        proof {
            assert(targets@.skip(0) =~= targets@);
        }
        while j < targets.len()
            invariant
                j <= targets@.len(),
                targets@ == self.kind.spec_targets(),
                valence == if true_valence <= 7 {
                    true_valence
                } else {
                    7int
                },
                true_valence == self.spec_hcount() + spec_bond_order_sum(self.bonds@),
                forall|k: int| 0 <= k < targets@.len() ==> targets@[k] <= 6,
                spec_first_fit(targets@, true_valence) == spec_first_fit(
                    targets@.skip(j as int),
                    true_valence,
                ),
            decreases targets@.len() - j,
        {
            proof {
                assert(targets@.skip(j as int).first() == targets@[j as int]);
                assert(targets@.skip(j as int).drop_first() =~= targets@.skip(j + 1));
            }
            let target = targets[j];
            if target >= valence {
                return target - valence;
            }
            j = j + 1;
        }
        proof {
            assert(targets@.skip(targets@.len() as int) =~= Seq::<u8>::empty());
        }
        0
    }

    /// The number of suppressed hydrogens at this atom: the explicit count
    /// for a bracket atom, the subvalence for a bare aliphatic symbol, one
    /// less for a bare aromatic symbol, and none for the wildcard.
    pub open spec fn spec_suppressed_hydrogens(self) -> int {
        match self.kind {
            AtomKind::Star => 0,
            AtomKind::Aromatic(_) => if self.spec_subvalence() >= 1 {
                self.spec_subvalence() - 1
            } else {
                0
            },
            AtomKind::Aliphatic(_) => self.spec_subvalence(),
            AtomKind::Bracket { hcount, .. } => match hcount {
                Some(h) => h.spec_count() as int,
                None => 0,
            },
        }
    }

    /// Returns the number of implicit or virtual hydrogens at this atom,
    /// accounting for aromaticity.
    pub fn suppressed_hydrogens(&self) -> (r: u8)
        ensures
            r == self.spec_suppressed_hydrogens(),
    {
        match &self.kind {
            AtomKind::Star => 0,
            AtomKind::Aromatic(_) => {
                let subvalence = self.subvalence();
                if subvalence >= 1 {
                    subvalence - 1
                } else {
                    0
                }
            },
            AtomKind::Aliphatic(_) => self.subvalence(),
            AtomKind::Bracket { hcount, .. } => match hcount {
                Some(h) => h.count(),
                None => 0,
            },
        }
    }
}

/// Every valence target of every atom kind is at most 6.
pub proof fn lemma_targets_bounded(kind: AtomKind)
    ensures
        forall|k: int|
            0 <= k < kind.spec_targets().len() ==> #[trigger] kind.spec_targets()[k] <= 6,
{
}

} // verus!
