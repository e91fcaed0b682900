use vstd::prelude::*;

use crate::feature::AtomKind;
use crate::feature::BondKind;
use crate::feature::Rnum;
use crate::walk::Event;
use crate::walk::Follower;
use crate::walk::follower_net;

verus! {

/// The fragment stack a writer holds after a sequence of events: one text
/// fragment per open chain level. A `Root` pushes the atom's text, with a
/// dot before every component but the first; an `Extend` pushes bond and
/// atom text; a `Join` appends bond and ring number text to the top
/// fragment; a `Pop(n)` wraps the top `n` fragments in parentheses and
/// appends them to the fragment below.
pub open spec fn render_stack(events: Seq<Event>) -> Seq<Seq<char>>
    decreases events.len(),
{
    if events.len() == 0 {
        Seq::empty()
    } else {
        let prior = render_stack(events.drop_last());
        match events.last() {
            Event::Root(kind) => {
                if prior.len() == 0 {
                    prior.push(kind.spec_text())
                } else {
                    prior.push(seq!['.'] + kind.spec_text())
                }
            },
            Event::Extend(bond, kind) => prior.push(bond.spec_text() + kind.spec_text()),
            Event::Join(bond, rnum) => {
                if prior.len() == 0 {
                    prior
                } else {
                    prior.update(
                        prior.len() - 1,
                        prior.last() + bond.spec_text() + rnum.spec_text(),
                    )
                }
            },
            Event::Pop(depth) => {
                if 0 < depth < prior.len() {
                    let split = prior.len() - depth;
                    prior.take(split as int).update(
                        split - 1,
                        prior[split - 1] + seq!['('] + concat_all(prior.skip(split as int))
                            + seq![')'],
                    )
                } else {
                    prior
                }
            },
        }
    }
}

/// All the fragments of a stack, joined in order.
pub open spec fn concat_all(texts: Seq<Seq<char>>) -> Seq<char>
    decreases texts.len(),
{
    if texts.len() == 0 {
        Seq::empty()
    } else {
        concat_all(texts.drop_last()) + texts.last()
    }
}

/// The SMILES string a sequence of events renders to.
pub open spec fn spec_write(events: Seq<Event>) -> Seq<char> {
    concat_all(render_stack(events))
}

/// A `Follower` that renders the event stream as a SMILES string: a stack
/// of partial fragments, one per open branch level, joined by `write`.
pub struct Writer {
    stack: Vec<String>,
    log: Ghost<Seq<Event>>,
}

impl Writer {
    /// The fragments held so far, top last.
    pub closed spec fn texts(self) -> Seq<Seq<char>> {
        self.stack@.map_values(|fragment: String| fragment@)
    }

    /// Returns the SMILES string for the events received so far.
    pub fn write(self) -> (r: String)
        requires
            self.wf(),
        ensures
            r@ == spec_write(self.events()),
    {
        let mut out = String::new();
        let mut i: usize = 0;
        proof {
            assert(self.texts().take(0) =~= Seq::<Seq<char>>::empty());
        }
        while i < self.stack.len()
            invariant
                i <= self.stack@.len(),
                self.texts() == self.stack@.map_values(|fragment: String| fragment@),
                out@ == concat_all(self.texts().take(i as int)),
            decreases self.stack@.len() - i,
        {
            proof {
                assert(self.texts().take(i + 1).drop_last() =~= self.texts().take(i as int));
                assert(self.texts().take(i + 1).last() == self.texts()[i as int]);
            }
            out.append(self.stack[i].as_str());
            i = i + 1;
        }
        proof {
            assert(self.texts().take(self.texts().len() as int) =~= self.texts());
        }
        out
    }
}

impl Default for Writer {
    /// Constructs a writer with no fragments.
    fn default() -> (r: Writer)
        ensures
            r.wf(),
            r.events() =~= Seq::<Event>::empty(),
    {
        let r = Writer { stack: Vec::new(), log: Ghost(Seq::empty()) };
        proof {
            assert(r.texts() =~~= render_stack(r.log@));
        }
        r
    }
}

impl Follower for Writer {
    closed spec fn events(&self) -> Seq<Event> {
        self.log@
    }

    closed spec fn wf(&self) -> bool {
        &&& self.texts() == render_stack(self.log@)
        &&& self.stack@.len() == follower_net(self.log@)
    }

    fn root(&mut self, root: AtomKind) {
        if self.stack.len() == 0 {
            self.stack.push(root.to_string());
        } else {
            let mut fragment = String::new();
            proof {
                reveal_strlit(".");
            }
            fragment.append(".");
            fragment.append(root.to_string().as_str());
            proof {
                assert(fragment@ =~= seq!['.'] + root.spec_text());
            }
            self.stack.push(fragment);
        }
        proof {
            self.log@ = self.log@.push(Event::Root(root));
            crate::walk::lemma_event_single(Event::Root(root));
            crate::walk::lemma_net_concat(old(self).log@, seq![Event::Root(root)]);
            assert(old(self).log@.push(Event::Root(root)) =~= old(self).log@ + seq![
                Event::Root(root),
            ]);
            assert(self.log@.drop_last() =~= old(self).log@);
            assert(self.texts() =~~= render_stack(self.log@));
        }
    }

    fn extend(&mut self, bond_kind: BondKind, atom_kind: AtomKind) {
        let mut fragment = bond_kind.to_string();
        fragment.append(atom_kind.to_string().as_str());
        self.stack.push(fragment);
        proof {
            self.log@ = self.log@.push(Event::Extend(bond_kind, atom_kind));
            crate::walk::lemma_event_single(Event::Extend(bond_kind, atom_kind));
            crate::walk::lemma_net_concat(
                old(self).log@,
                seq![Event::Extend(bond_kind, atom_kind)],
            );
            assert(old(self).log@.push(Event::Extend(bond_kind, atom_kind)) =~= old(self).log@
                + seq![Event::Extend(bond_kind, atom_kind)]);
            assert(self.log@.drop_last() =~= old(self).log@);
            assert(self.texts() =~~= render_stack(self.log@));
        }
    }

    fn join(&mut self, bond_kind: BondKind, rnum: Rnum) {
        let last = self.stack.len() - 1;
        let mut suffix = bond_kind.to_string();
        suffix.append(rnum.to_string().as_str());
        self.stack[last].append(suffix.as_str());
        proof {
            self.log@ = self.log@.push(Event::Join(bond_kind, rnum));
            crate::walk::lemma_event_single(Event::Join(bond_kind, rnum));
            crate::walk::lemma_net_concat(old(self).log@, seq![Event::Join(bond_kind, rnum)]);
            assert(old(self).log@.push(Event::Join(bond_kind, rnum)) =~= old(self).log@ + seq![
                Event::Join(bond_kind, rnum),
            ]);
            assert(self.log@.drop_last() =~= old(self).log@);
            assert(self.texts() =~~= render_stack(self.log@));
        }
    }

    fn pop(&mut self, depth: usize) {
        let split = self.stack.len() - depth;
        let mut wrapped = String::new();
        proof {
            reveal_strlit("(");
            reveal_strlit(")");
        }
        wrapped.append("(");
        let mut j: usize = split;
        proof {
            assert(old(self).texts().skip(split as int).take(0) =~= Seq::<Seq<char>>::empty());
        }
        while j < self.stack.len()
            invariant
                *self == *old(self),
                split <= j <= self.stack@.len(),
                split == self.stack@.len() - depth,
                wrapped@ == seq!['('] + concat_all(
                    old(self).texts().skip(split as int).take(j - split),
                ),
            decreases self.stack@.len() - j,
        {
            proof {
                let tail = old(self).texts().skip(split as int);
                assert(tail.take(j - split + 1).drop_last() =~= tail.take(j - split));
                assert(tail.take(j - split + 1).last() == old(self).texts()[j as int]);
            }
            wrapped.append(self.stack[j].as_str());
            j = j + 1;
        }
        proof {
            let tail = old(self).texts().skip(split as int);
            assert(tail.take(tail.len() as int) =~= tail);
        }
        wrapped.append(")");
        self.stack.truncate(split);
        let target = split - 1;
        self.stack[target].append(wrapped.as_str());
        proof {
            self.log@ = self.log@.push(Event::Pop(depth));
            crate::walk::lemma_event_single(Event::Pop(depth));
            crate::walk::lemma_net_concat(old(self).log@, seq![Event::Pop(depth)]);
            assert(old(self).log@.push(Event::Pop(depth)) =~= old(self).log@ + seq![
                Event::Pop(depth),
            ]);
            assert(self.log@.drop_last() =~= old(self).log@);
            assert(self.stack@.map_values(|fragment: String| fragment@) =~~= old(self).texts().take(
                split as int,
            ).update(
                split - 1,
                old(self).texts()[split - 1] + seq!['('] + concat_all(
                    old(self).texts().skip(split as int),
                ) + seq![')'],
            ));
            assert(self.texts() =~~= render_stack(self.log@));
        }
    }
}

} // verus!
