use vstd::prelude::*;

use crate::feature::AtomKind;
use crate::feature::BondKind;
use crate::feature::Rnum;
use crate::graph::atom::Atom;
use crate::graph::bond::Bond;
use crate::graph::error::Error;
use crate::graph::reconcile::reconcile;
use crate::graph::reconcile::spec_reconcile;
use crate::walk::Event;
use crate::walk::Follower;
use crate::walk::follower_net;

verus! {

/// The target of an edge under construction: a settled atom index, or a
/// ring closure placeholder carrying the index of its `join` event among
/// all `join` events and the ring closure number that opened it.
#[derive(Debug, PartialEq, Eq, Clone, Copy, Structural)]
pub enum TargetView {
    Id(usize),
    Open(usize, Rnum),
}

/// One edge of a node under construction.
#[derive(Debug, PartialEq, Eq, Clone, Copy, Structural)]
pub struct EdgeView {
    pub kind: BondKind,
    pub target: TargetView,
}

/// One node under construction: its atom kind and its edges in order.
#[verifier::ext_equal]
pub struct NodeView {
    pub kind: AtomKind,
    pub edges: Seq<EdgeView>,
}

#[derive(Debug, PartialEq, Eq, Clone, Copy)]
enum Target {
    Id(usize),
    // join event index, opening atom, ring closure number
    Rnum(usize, usize, Rnum),
}

#[derive(Debug, PartialEq, Eq, Clone, Copy)]
struct Edge {
    kind: BondKind,
    target: Target,
}

#[derive(Debug, PartialEq, Eq, Clone)]
struct Node {
    kind: AtomKind,
    edges: Vec<Edge>,
}

impl Edge {
    spec fn view(self) -> EdgeView {
        EdgeView {
            kind: self.kind,
            target: match self.target {
                Target::Id(tid) => TargetView::Id(tid),
                Target::Rnum(ring, _, rnum) => TargetView::Open(ring, rnum),
            },
        }
    }
}

impl Node {
    spec fn view(self) -> NodeView {
        NodeView { kind: self.kind, edges: self.edges@.map_values(|e: Edge| e.view()) }
    }
}

/// A `Follower` that builds an adjacency list representation: it grows a
/// node per `Root` and `Extend` event, pairs ring closure tokens, and
/// reconciles the declared kinds of each ring closure bond.
pub struct Builder {
    stack: Vec<usize>,
    graph: Vec<Node>,
    opens: Vec<Option<(usize, usize)>>,
    errors: Vec<Error>,
    ring_idx: usize,
    log: Ghost<Seq<Event>>,
}

/// A counter one past `n`, held at the machine limit.
pub open spec fn spec_bump(n: usize) -> usize {
    if n < usize::MAX {
        (n + 1) as usize
    } else {
        n
    }
}

impl Builder {
    /// The nodes built so far, in creation order.
    pub closed spec fn nodes(self) -> Seq<NodeView> {
        self.graph@.map_values(|n: Node| n.view())
    }

    /// The chain stack: indices of the atoms on the path from the current
    /// root to the current atom, branch openings included.
    pub closed spec fn chain(self) -> Seq<usize> {
        self.stack@
    }

    /// The open ring closure table: for each ring closure number, the atom
    /// and edge slot of its unmatched placeholder, if one is open.
    pub closed spec fn open_rings(self) -> Seq<Option<(usize, usize)>> {
        self.opens@
    }

    /// The errors recorded so far, in order.
    pub closed spec fn error_list(self) -> Seq<Error> {
        self.errors@
    }

    /// How many `join` events have been consumed.
    pub closed spec fn join_count(self) -> usize {
        self.ring_idx
    }

    /// Builds the representation created through the `Follower` trait
    /// methods: the first recorded error if there was one, else the first
    /// ring closure left unpaired, else the finished atom list.
    pub fn build(self) -> (r: Result<Vec<Atom>, Error>)
        requires
            self.wf(),
            forall|i: int|
                0 <= i < self.nodes().len() ==> #[trigger] directional_ok(self.nodes()[i].edges),
        ensures
            match r {
                Err(e) => {
                    if self.error_list().len() > 0 {
                        e == self.error_list()[0]
                    } else {
                        first_unresolved(self.nodes()) == Some(e) && e is Rnum
                    }
                },
                Ok(atoms) => {
                    &&& self.error_list().len() == 0
                    &&& first_unresolved(self.nodes()) is None
                    &&& atoms@.len() == self.nodes().len()
                    &&& forall|i: int|
                        0 <= i < atoms@.len() ==> #[trigger] atoms@[i].kind == self.nodes()[i].kind
                            && atoms@[i].bonds@ == settled_bonds(self.nodes()[i].edges)
                },
            },
    {
        if self.errors.len() > 0 {
            return Err(self.errors[0]);
        }
        let mut atoms: Vec<Atom> = Vec::new();
        let mut i: usize = 0;
        proof {
            assert(self.nodes().skip(0) =~= self.nodes());
        }
        while i < self.graph.len()
            invariant
                self.wf(),
                self.error_list().len() == 0,
                i <= self.nodes().len(),
                atoms@.len() == i,
                first_unresolved(self.nodes()) == first_unresolved(self.nodes().skip(i as int)),
                forall|k: int|
                    0 <= k < i ==> #[trigger] atoms@[k].kind == self.nodes()[k].kind
                        && atoms@[k].bonds@ == settled_bonds(self.nodes()[k].edges),
            decreases self.graph@.len() - i,
        {
            let node = &self.graph[i];
            let ghost edges_view = self.nodes()[i as int].edges;
            let mut bonds: Vec<Bond> = Vec::new();
            let mut j: usize = 0;
            proof {
                assert(edges_view.skip(0) =~= edges_view);
            }
            while j < node.edges.len()
                invariant
                    self.wf(),
                    self.error_list().len() == 0,
                    i < self.nodes().len(),
                    node == self.graph@[i as int],
                    first_unresolved(self.nodes()) == first_unresolved(
                        self.nodes().skip(i as int),
                    ),
                    j <= node.edges@.len(),
                    edges_view == self.nodes()[i as int].edges,
                    edges_view == node.edges@.map_values(|e: Edge| e.view()),
                    bonds@.len() == j,
                    first_unresolved_edge(edges_view) == first_unresolved_edge(
                        edges_view.skip(j as int),
                    ),
                    forall|k: int|
                        0 <= k < j ==> #[trigger] bonds@[k] == settled_bonds(edges_view)[k],
                decreases node.edges@.len() - j,
            {
                proof {
                    assert(edges_view.skip(j as int).first() == edges_view[j as int]);
                    assert(edges_view.skip(j as int).drop_first() =~= edges_view.skip(j + 1));
                    assert(edges_view[j as int] == node.edges@[j as int].view());
                }
                match node.edges[j].target {
                    Target::Id(tid) => {
                        bonds.push(Bond { kind: node.edges[j].kind, tid });
                        proof {
                            assert(settled_bonds(edges_view)[j as int] == Bond {
                                kind: node.edges@[j as int].kind,
                                tid: match node.edges@[j as int].target {
                                    Target::Id(t) => t,
                                    Target::Rnum(_, _, _) => 0,
                                },
                            });
                        }
                    },
                    Target::Rnum(ring, _, _) => {
                        proof {
                            assert(first_unresolved_edge(edges_view.skip(j as int)) == Some(
                                Error::Rnum(ring),
                            ));
                            lemma_first_unresolved_prefix(self.nodes(), i as int);
                        }
                        return Err(Error::Rnum(ring));
                    },
                }
                j = j + 1;
            }
            proof {
                assert(edges_view.skip(edges_view.len() as int) =~= Seq::<EdgeView>::empty());
                assert(bonds@ =~= settled_bonds(edges_view));
                assert(self.nodes().skip(i as int).first() == self.nodes()[i as int]);
                assert(self.nodes().skip(i as int).drop_first() =~= self.nodes().skip(i + 1));
            }
            atoms.push(Atom { kind: node.kind, bonds });
            i = i + 1;
        }
        proof {
            assert(self.nodes().skip(self.nodes().len() as int) =~= Seq::<NodeView>::empty());
        }
        Ok(atoms)
    }
}

/// The first ring closure placeholder among these edges, as the index of
/// its `join` event, if any edge is still unresolved.
pub open spec fn first_unresolved_edge(edges: Seq<EdgeView>) -> Option<Error>
    decreases edges.len(),
{
    if edges.len() == 0 {
        None
    } else {
        match edges.first().target {
            TargetView::Open(ring, _) => Some(Error::Rnum(ring)),
            TargetView::Id(_) => first_unresolved_edge(edges.drop_first()),
        }
    }
}

/// The first ring closure placeholder in the whole node list, in node
/// order then edge order.
pub open spec fn first_unresolved(nodes: Seq<NodeView>) -> Option<Error>
    decreases nodes.len(),
{
    if nodes.len() == 0 {
        None
    } else {
        match first_unresolved_edge(nodes.first().edges) {
            Some(e) => Some(e),
            None => first_unresolved(nodes.drop_first()),
        }
    }
}

/// The bond list of a node whose edges are all settled; an unresolved edge
/// contributes a bond to atom 0.
pub open spec fn settled_bonds(edges: Seq<EdgeView>) -> Seq<Bond> {
    edges.map_values(
        |e: EdgeView|
            Bond {
                kind: e.kind,
                tid: match e.target {
                    TargetView::Id(tid) => tid,
                    TargetView::Open(_, _) => 0,
                },
            },
    )
}

/// How many edges of a node carry the given kind.
pub open spec fn count_kind(edges: Seq<EdgeView>, kind: BondKind) -> int
    decreases edges.len(),
{
    if edges.len() == 0 {
        0
    } else {
        count_kind(edges.drop_last(), kind) + if edges.last().kind == kind {
            1int
        } else {
            0int
        }
    }
}

/// A node carries consistent stereochemistry when at most one edge points
/// up and at most one points down.
pub open spec fn directional_ok(edges: Seq<EdgeView>) -> bool {
    count_kind(edges, BondKind::Up) <= 1 && count_kind(edges, BondKind::Down) <= 1
}

proof fn lemma_first_unresolved_prefix(nodes: Seq<NodeView>, i: int)
    requires
        0 <= i < nodes.len(),
        first_unresolved_edge(nodes[i].edges) is Some,
    ensures
        first_unresolved(nodes.skip(i)) == first_unresolved_edge(nodes[i].edges),
    decreases nodes.len() - i,
{
    assert(nodes.skip(i).first() == nodes[i]);
}

impl Default for Builder {
    /// Constructs an empty builder.
    fn default() -> (r: Builder)
        ensures
            r.wf(),
            r.events() =~= Seq::<Event>::empty(),
            r.nodes() =~= Seq::<NodeView>::empty(),
            r.chain() =~= Seq::<usize>::empty(),
            r.error_list() =~= Seq::<Error>::empty(),
            r.join_count() == 0,
            forall|n: int| 0 <= n < 100 ==> r.open_rings()[n] is None,
    {
        let mut opens: Vec<Option<(usize, usize)>> = Vec::new();
        let mut n: usize = 0;
        while n < 100
            invariant
                n <= 100,
                opens@.len() == n,
                forall|k: int| 0 <= k < n ==> opens@[k] is None,
            decreases 100 - n,
        {
            opens.push(None);
            n = n + 1;
        }
        let r = Builder {
            stack: Vec::new(),
            graph: Vec::new(),
            opens,
            errors: Vec::new(),
            ring_idx: 0,
            log: Ghost(Seq::empty()),
        };
        proof {
            assert(r.nodes() =~= Seq::<NodeView>::empty());
        }
        r
    }
}

impl Follower for Builder {
    closed spec fn events(&self) -> Seq<Event> {
        self.log@
    }

    closed spec fn wf(&self) -> bool {
        &&& self.opens@.len() == 100
        &&& self.stack@.len() == follower_net(self.log@)
        &&& forall|i: int| 0 <= i < self.stack@.len() ==> #[trigger] self.stack@[i] < self.graph@.len()
        &&& forall|n: int|
            0 <= n < 100 ==> ((#[trigger] self.opens@[n]) matches Some(slot) ==> slot.0
                < self.graph@.len() && slot.1 < self.graph@[slot.0 as int].edges@.len())
    }

    fn root(&mut self, root: AtomKind)
        ensures
            final(self).nodes() == old(self).nodes().push(
                NodeView { kind: root, edges: Seq::empty() },
            ),
            final(self).chain() == old(self).chain().push(old(self).nodes().len() as usize),
            final(self).open_rings() == old(self).open_rings(),
            final(self).error_list() == old(self).error_list(),
            final(self).join_count() == old(self).join_count(),
    {
        self.stack.push(self.graph.len());
        self.graph.push(Node { kind: root, edges: Vec::new() });
        proof {
            self.log@ = self.log@.push(Event::Root(root));
            lemma_net_push(old(self).log@, Event::Root(root));
            assert(self.nodes() =~~= old(self).nodes().push(
                NodeView { kind: root, edges: Seq::empty() },
            ));
        }
    }

    fn extend(&mut self, bond_kind: BondKind, atom_kind: AtomKind)
        ensures
            ({
                let sid = old(self).chain().last() as int;
                let tid = old(self).nodes().len() as usize;
                let parent = old(self).nodes()[sid];
                let forward = EdgeView { kind: bond_kind, target: TargetView::Id(tid) };
                let reverse = EdgeView {
                    kind: bond_kind.spec_reverse(),
                    target: TargetView::Id(old(self).chain().last()),
                };
                let child = NodeView {
                    kind: atom_kind.spec_invert_configuration(),
                    edges: seq![reverse],
                };
                &&& final(self).nodes() == old(self).nodes().update(
                    sid,
                    NodeView { kind: parent.kind, edges: parent.edges.push(forward) },
                ).push(child)
                &&& final(self).chain() == old(self).chain().push(tid)
                &&& final(self).open_rings() == old(self).open_rings()
                &&& final(self).error_list() == old(self).error_list()
                &&& final(self).join_count() == old(self).join_count()
            }),
    {
        proof {
            assert(self.stack@.len() >= 1);
        }
        let sid = self.stack[self.stack.len() - 1];
        let tid = self.graph.len();
        let mut inverted = atom_kind;
        inverted.invert_configuration();
        self.graph.push(
            Node {
                kind: inverted,
                edges: vec![Edge { kind: bond_kind.reverse(), target: Target::Id(sid) }],
            },
        );
        self.stack.push(tid);
        self.graph[sid].edges.push(Edge { kind: bond_kind, target: Target::Id(tid) });
        proof {
            self.log@ = self.log@.push(Event::Extend(bond_kind, atom_kind));
        }
        proof {
            lemma_net_push(old(self).log@, Event::Extend(bond_kind, atom_kind));
            let sid_i = old(self).chain().last() as int;
            let parent = old(self).nodes()[sid_i];
            let forward = EdgeView { kind: bond_kind, target: TargetView::Id(tid) };
            let reverse = EdgeView {
                kind: bond_kind.spec_reverse(),
                target: TargetView::Id(old(self).chain().last()),
            };
            let child = NodeView {
                kind: atom_kind.spec_invert_configuration(),
                edges: seq![reverse],
            };
            assert(self.nodes() =~~= old(self).nodes().update(
                sid_i,
                NodeView { kind: parent.kind, edges: parent.edges.push(forward) },
            ).push(child));
        }
    }

    fn join(&mut self, bond_kind: BondKind, rnum: Rnum)
        ensures
            join_post(*old(self), *final(self), bond_kind, rnum),
    {
        proof {
            assert(self.stack@.len() >= 1);
        }
        let ghost pre = *old(self);
        let sid = self.stack[self.stack.len() - 1];
        match self.opens[rnum.0 as usize] {
            Some((tid, edge_idx)) => {
                proof {
                    assert(pre.open_rings()[rnum.0 as int] == Some((tid, edge_idx)));
                }
                let placeholder_kind = self.graph[tid].edges[edge_idx].kind;
                proof {
                    assert(pre.nodes()[tid as int].edges[edge_idx as int].kind
                        == placeholder_kind);
                }
                match reconcile(placeholder_kind, &bond_kind) {
                    Some((left_kind, right_kind)) => {
                        self.graph[tid].edges[edge_idx] = Edge {
                            kind: left_kind,
                            target: Target::Id(sid),
                        };
                        proof {
                            let rewritten = pre.nodes().update(
                                tid as int,
                                NodeView {
                                    kind: pre.nodes()[tid as int].kind,
                                    edges: pre.nodes()[tid as int].edges.update(
                                        edge_idx as int,
                                        EdgeView {
                                            kind: left_kind,
                                            target: TargetView::Id(sid),
                                        },
                                    ),
                                },
                            );
                            assert(self.nodes() =~~= rewritten);
                        }
                        let ghost mid = self.nodes();
                        self.graph[sid].edges.push(
                            Edge { kind: right_kind, target: Target::Id(tid) },
                        );
                        proof {
                            assert(self.nodes() =~~= mid.update(
                                sid as int,
                                NodeView {
                                    kind: mid[sid as int].kind,
                                    edges: mid[sid as int].edges.push(
                                        EdgeView {
                                            kind: right_kind,
                                            target: TargetView::Id(tid),
                                        },
                                    ),
                                },
                            ));
                        }
                    },
                    None => {
                        self.errors.push(Error::Join(sid, tid));
                        proof {
                            assert(self.nodes() =~~= pre.nodes());
                        }
                    },
                }
                self.opens[rnum.0 as usize] = None;
                proof {
                    assert(self.opens@ =~= pre.open_rings().update(
                        rnum.0 as int,
                        None::<(usize, usize)>,
                    ));
                }
            },
            None => {
                let slot = self.graph[sid].edges.len();
                self.graph[sid].edges.push(
                    Edge { kind: bond_kind, target: Target::Rnum(self.ring_idx, sid, rnum) },
                );
                self.opens[rnum.0 as usize] = Some((sid, slot));
                proof {
                    assert(self.nodes() =~~= pre.nodes().update(
                        sid as int,
                        NodeView {
                            kind: pre.nodes()[sid as int].kind,
                            edges: pre.nodes()[sid as int].edges.push(
                                EdgeView {
                                    kind: bond_kind,
                                    target: TargetView::Open(pre.join_count(), rnum),
                                },
                            ),
                        },
                    ));
                    assert(self.opens@ =~= pre.open_rings().update(
                        rnum.0 as int,
                        Some((sid, pre.nodes()[sid as int].edges.len() as usize)),
                    ));
                }
            },
        }
        if self.ring_idx < usize::MAX {
            self.ring_idx = self.ring_idx + 1;
        }
        proof {
            self.log@ = self.log@.push(Event::Join(bond_kind, rnum));
            lemma_net_push(old(self).log@, Event::Join(bond_kind, rnum));
        }
    }

    fn pop(&mut self, depth: usize)
        ensures
            final(self).nodes() == old(self).nodes(),
            final(self).chain() == old(self).chain().take(
                old(self).chain().len() - depth as int,
            ),
            final(self).open_rings() == old(self).open_rings(),
            final(self).error_list() == old(self).error_list(),
            final(self).join_count() == old(self).join_count(),
    {
        let mut n: usize = 0;
        while n < depth
            invariant
                n <= depth,
                depth < follower_net(old(self).log@),
                self.stack@ == old(self).stack@.take(old(self).stack@.len() - n as int),
                old(self).stack@.len() == follower_net(old(self).log@),
                self.graph@ == old(self).graph@,
                self.opens@ == old(self).opens@,
                self.errors@ == old(self).errors@,
                self.ring_idx == old(self).ring_idx,
                self.log@ == old(self).log@,
            decreases depth - n,
        {
            self.stack.pop();
            proof {
                assert(self.stack@ =~= old(self).stack@.take(
                    old(self).stack@.len() - (n + 1),
                ));
            }
            n = n + 1;
        }
        proof {
            self.log@ = self.log@.push(Event::Pop(depth));
            lemma_net_push(old(self).log@, Event::Pop(depth));
        }
    }
}


/// Appending one event changes the net chain depth by that event's own
/// contribution.
pub proof fn lemma_net_push(events: Seq<Event>, e: Event)
    ensures
        follower_net(events.push(e)) == follower_net(events) + match e {
            Event::Root(_) => 1int,
            Event::Extend(_, _) => 1int,
            Event::Join(_, _) => 0int,
            Event::Pop(n) => -(n as int),
        },
{
    assert(events.push(e).drop_last() =~= events);
    assert(events.push(e).last() == e);
}

/// What one `join` event does: it closes the ring closure number when it is
/// open, rewriting the placeholder and appending the reciprocal edge on
/// success and recording a `Join` error on failure; it opens the number,
/// leaving a placeholder edge, when it is not.
pub open spec fn join_post(pre: Builder, post: Builder, bond_kind: BondKind, rnum: Rnum) -> bool {
    let sid = pre.chain().last();
    &&& post.chain() == pre.chain()
    &&& post.join_count() == spec_bump(pre.join_count())
    &&& match pre.open_rings()[rnum.0 as int] {
        Some(slot) => {
            let tid = slot.0;
            let edge_idx = slot.1 as int;
            &&& post.open_rings() == pre.open_rings().update(rnum.0 as int, None::<(usize, usize)>)
            &&& match spec_reconcile(pre.nodes()[tid as int].edges[edge_idx].kind, bond_kind) {
                Some(pair) => {
                    let rewritten = pre.nodes().update(
                        tid as int,
                        NodeView {
                            kind: pre.nodes()[tid as int].kind,
                            edges: pre.nodes()[tid as int].edges.update(
                                edge_idx,
                                EdgeView { kind: pair.0, target: TargetView::Id(sid) },
                            ),
                        },
                    );
                    &&& post.nodes() == rewritten.update(
                        sid as int,
                        NodeView {
                            kind: rewritten[sid as int].kind,
                            edges: rewritten[sid as int].edges.push(
                                EdgeView { kind: pair.1, target: TargetView::Id(tid) },
                            ),
                        },
                    )
                    &&& post.error_list() == pre.error_list()
                },
                None => {
                    &&& post.nodes() == pre.nodes()
                    &&& post.error_list() == pre.error_list().push(Error::Join(sid, tid))
                },
            }
        },
        None => {
            &&& post.nodes() == pre.nodes().update(
                sid as int,
                NodeView {
                    kind: pre.nodes()[sid as int].kind,
                    edges: pre.nodes()[sid as int].edges.push(
                        EdgeView {
                            kind: bond_kind,
                            target: TargetView::Open(pre.join_count(), rnum),
                        },
                    ),
                },
            )
            &&& post.open_rings() == pre.open_rings().update(
                rnum.0 as int,
                Some((sid, pre.nodes()[sid as int].edges.len() as usize)),
            )
            &&& post.error_list() == pre.error_list()
        },
    }
}

} // verus!
