use vstd::prelude::*;

use crate::feature::AtomKind;
use crate::feature::BondKind;
use crate::feature::Rnum;

verus! {

/// One event of the stream that the reader and the walker emit: a new root
/// atom, an atom appended to the chain with its bond, a ring closure token
/// at the current atom, or the close of a branch `depth` atoms long.
#[derive(Debug, PartialEq, Eq, Clone, Copy, Structural)]
pub enum Event {
    Root(AtomKind),
    Extend(BondKind, AtomKind),
    Join(BondKind, Rnum),
    Pop(usize),
}

/// The net chain depth after a sequence of events: every `Root` and
/// `Extend` pushes one atom, `Pop(n)` leaves a branch of `n` atoms.
pub open spec fn follower_net(events: Seq<Event>) -> int
    decreases events.len(),
{
    if events.len() == 0 {
        0
    } else {
        follower_net(events.drop_last()) + match events.last() {
            Event::Root(_) => 1int,
            Event::Extend(_, _) => 1int,
            Event::Join(_, _) => 0int,
            Event::Pop(n) => -(n as int),
        }
    }
}

/// A sink for the event stream of a SMILES parse or traversal. Every `Root`
/// opens a new connected component, `Extend` appends an atom to the current
/// chain, `Join` records a ring closure at the current atom, and `Pop(n)`
/// closes a branch of `n` atoms. An implementor exposes the events it has
/// received as `events()`, and each call appends exactly one event; `wf()`
/// is the implementor's consistency condition, which every call preserves.
pub trait Follower {
    /// The events this sink has received, in order.
    spec fn events(&self) -> Seq<Event>;

    /// The implementor's internal consistency condition.
    spec fn wf(&self) -> bool;

    /// Starts a new connected component rooted at an atom of the given kind.
    fn root(&mut self, root: AtomKind)
        requires
            old(self).wf(),
            root.wf(),
        ensures
            final(self).wf(),
            final(self).events() == old(self).events().push(Event::Root(root)),
    ;

    /// Appends an atom to the current chain, bonded to the previous atom.
    fn extend(&mut self, bond_kind: BondKind, atom_kind: AtomKind)
        requires
            old(self).wf(),
            atom_kind.wf(),
            follower_net(old(self).events()) >= 1,
        ensures
            final(self).wf(),
            final(self).events() == old(self).events().push(
                Event::Extend(bond_kind, atom_kind),
            ),
    ;

    /// Records a ring closure token at the current atom.
    fn join(&mut self, bond_kind: BondKind, rnum: Rnum)
        requires
            old(self).wf(),
            follower_net(old(self).events()) >= 1,
            rnum.0 <= 99,
        ensures
            final(self).wf(),
            final(self).events() == old(self).events().push(Event::Join(bond_kind, rnum)),
    ;

    /// Closes a branch holding the last `depth` atoms of the chain.
    fn pop(&mut self, depth: usize)
        requires
            old(self).wf(),
            1 <= depth < follower_net(old(self).events()),
        ensures
            final(self).wf(),
            final(self).events() == old(self).events().push(Event::Pop(depth)),
    ;
}


/// How many events of a sequence carry an atom: its `Root` and `Extend`
/// events.
pub open spec fn count_atoms(events: Seq<Event>) -> int
    decreases events.len(),
{
    if events.len() == 0 {
        0
    } else {
        count_atoms(events.drop_last()) + match events.last() {
            Event::Root(_) => 1int,
            Event::Extend(_, _) => 1int,
            _ => 0int,
        }
    }
}

/// The net chain depth of a concatenation is the sum of its parts' depths.
pub proof fn lemma_net_concat(a: Seq<Event>, b: Seq<Event>)
    ensures
        follower_net(a + b) == follower_net(a) + follower_net(b),
    decreases b.len(),
{
    if b.len() == 0 {
        assert(a + b =~= a);
    } else {
        lemma_net_concat(a, b.drop_last());
        assert((a + b).drop_last() =~= a + b.drop_last());
        assert((a + b).last() == b.last());
    }
}

/// The atom count of a concatenation is the sum of its parts' counts.
pub proof fn lemma_count_atoms_concat(a: Seq<Event>, b: Seq<Event>)
    ensures
        count_atoms(a + b) == count_atoms(a) + count_atoms(b),
    decreases b.len(),
{
    if b.len() == 0 {
        assert(a + b =~= a);
    } else {
        lemma_count_atoms_concat(a, b.drop_last());
        assert((a + b).drop_last() =~= a + b.drop_last());
        assert((a + b).last() == b.last());
    }
}



/// An event sequence never carries a negative number of atoms.
pub broadcast proof fn lemma_count_atoms_nonneg(events: Seq<Event>)
    ensures
        #[trigger] count_atoms(events) >= 0,
    decreases events.len(),
{
    if events.len() > 0 {
        lemma_count_atoms_nonneg(events.drop_last());
    }
}

/// The net depth and atom count of a single event.
pub proof fn lemma_event_single(e: Event)
    ensures
        follower_net(seq![e]) == match e {
            Event::Root(_) => 1int,
            Event::Extend(_, _) => 1int,
            Event::Join(_, _) => 0int,
            Event::Pop(n) => -(n as int),
        },
        count_atoms(seq![e]) == match e {
            Event::Root(_) => 1int,
            Event::Extend(_, _) => 1int,
            _ => 0int,
        },
{
    assert(follower_net(Seq::<Event>::empty()) == 0);
    assert(count_atoms(Seq::<Event>::empty()) == 0);
    assert(seq![e].drop_last() =~= Seq::<Event>::empty());
    assert(seq![e].last() == e);
}

} // verus!
