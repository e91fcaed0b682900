use vstd::prelude::*;

use crate::feature::AtomKind;
use crate::feature::BondKind;
use crate::feature::Rnum;
use crate::graph::Atom;
use crate::graph::Bond;
use crate::graph::JoinPool;
use crate::walk::error::Error;
use crate::walk::follower::Event;
use crate::walk::follower::Follower;
use crate::walk::follower::follower_net;
use crate::walk::follower::lemma_event_single;
use crate::walk::follower::lemma_net_concat;

verus! {

/// The outcome of a traversal from some state: the events emitted, the
/// atoms still unvisited, the ring number allocations, and the first
/// failure if one was hit (in which case the events are not meaningful).
#[verifier::ext_equal]
pub struct WalkRun {
    pub events: Seq<Event>,
    pub atoms: Seq<Option<Atom>>,
    pub pool: Seq<(usize, usize)>,
    pub error: Option<Error>,
}

/// The bonds still to be traversed: the bond count of every unvisited atom.
pub open spec fn total_bonds(atoms: Seq<Option<Atom>>) -> int
    decreases atoms.len(),
{
    if atoms.len() == 0 {
        0
    } else {
        total_bonds(atoms.drop_last()) + match atoms.last() {
            Some(atom) => atom.bonds@.len() as int,
            None => 0int,
        }
    }
}

/// No state has a negative number of bonds left.
pub broadcast proof fn lemma_total_bonds_nonneg(atoms: Seq<Option<Atom>>)
    ensures
        #[trigger] total_bonds(atoms) >= 0,
    decreases atoms.len(),
{
    if atoms.len() > 0 {
        lemma_total_bonds_nonneg(atoms.drop_last());
    }
}

/// Consuming an atom removes exactly its bonds from the count.
pub proof fn lemma_total_bonds_update(atoms: Seq<Option<Atom>>, i: int)
    requires
        0 <= i < atoms.len(),
    ensures
        total_bonds(atoms.update(i, None)) == total_bonds(atoms) - match atoms[i] {
            Some(atom) => atom.bonds@.len() as int,
            None => 0int,
        },
    decreases atoms.len(),
{
    if atoms.len() > 0 {
        if i == atoms.len() - 1 {
            assert(atoms.update(i, None).drop_last() =~= atoms.drop_last());
        } else {
            assert(atoms.update(i, None).drop_last() =~= atoms.drop_last().update(i, None));
            lemma_total_bonds_update(atoms.drop_last(), i);
        }
    }
}

/// Draining the first `n` edges of a freshly visited atom, from the last
/// edge down: every edge pointing back at the source is set aside as the
/// back edge (the earliest one wins) and flips the handedness when it sits
/// at an even position; every other edge is queued for traversal, deepest
/// first.
pub open spec fn child_scan(bonds: Seq<Bond>, sid: usize, n: nat) -> (Seq<Bond>, Option<Bond>, int)
    decreases n,
{
    if n == 0 || n > bonds.len() {
        (Seq::empty(), None, 0)
    } else {
        let (pushes, back, flips) = child_scan(bonds, sid, (n - 1) as nat);
        let idx = bonds.len() - n;
        if bonds[idx as int].tid == sid {
            (
                pushes,
                Some(bonds[idx as int]),
                flips + if idx % 2 == 0 {
                    1int
                } else {
                    0int
                },
            )
        } else {
            (pushes.push(bonds[idx as int]), back, flips)
        }
    }
}

/// A scan never queues more edges than it drains.
pub proof fn lemma_child_scan_len(bonds: Seq<Bond>, sid: usize, n: nat)
    ensures
        child_scan(bonds, sid, n).0.len() <= n,
    decreases n,
{
    if n > 0 && n <= bonds.len() {
        lemma_child_scan_len(bonds, sid, (n - 1) as nat);
    }
}

/// The chain after backtracking to the source atom: entries are dropped
/// until the source is on top, stopping at the root in any case.
pub open spec fn spec_backtrack(chain: Seq<usize>, sid: usize) -> Seq<usize>
    decreases chain.len(),
{
    if chain.len() <= 1 || chain.last() == sid {
        chain
    } else {
        spec_backtrack(chain.drop_last(), sid)
    }
}

/// Backtracking keeps a prefix of the chain, and never empties one that
/// was not empty.
pub proof fn lemma_backtrack_bounds(chain: Seq<usize>, sid: usize)
    ensures
        spec_backtrack(chain, sid).len() <= chain.len(),
        chain.len() >= 1 ==> spec_backtrack(chain, sid).len() >= 1,
        spec_backtrack(chain, sid) =~= chain.take(spec_backtrack(chain, sid).len() as int),
    decreases chain.len(),
{
    if !(chain.len() <= 1 || chain.last() == sid) {
        lemma_backtrack_bounds(chain.drop_last(), sid);
        assert(chain.drop_last() =~= chain.take(chain.len() - 1));
        assert(chain.take(chain.len() - 1).take(spec_backtrack(chain, sid).len() as int)
            =~= chain.take(spec_backtrack(chain, sid).len() as int));
    }
}

/// A bond kind as the traversal re-emits it: explicit single bonds are
/// elided.
pub open spec fn spec_elide(kind: BondKind) -> BondKind {
    if kind == BondKind::Single {
        BondKind::Elided
    } else {
        kind
    }
}

/// One traversal step and everything after it: pop the deepest queued
/// edge, fail on an out-of-range or self-pointing target, backtrack the
/// chain to the edge's source, then take the edge as a tree edge when its
/// target is unvisited (checking the two halves against each other and
/// queueing the target's other edges) or as a ring edge when it is
/// (allocating or recalling the pair's ring number).
pub open spec fn walk_inner(
    atoms: Seq<Option<Atom>>,
    stack: Seq<(usize, Bond)>,
    chain: Seq<usize>,
    pool: Seq<(usize, usize)>,
) -> WalkRun
    decreases stack.len() + total_bonds(atoms), 0int,
    via walk_inner_decreases
{
    if stack.len() == 0 {
        WalkRun { events: Seq::empty(), atoms, pool, error: None }
    } else {
        let (sid, bond) = stack.last();
        let rest = stack.drop_last();
        if bond.tid >= atoms.len() {
            WalkRun { events: Seq::empty(), atoms, pool, error: Some(
                Error::UnknownTarget(sid, bond.tid),
            ) }
        } else if bond.tid == sid {
            WalkRun { events: Seq::empty(), atoms, pool, error: Some(Error::Loop(sid)) }
        } else {
            let chain1 = spec_backtrack(chain, sid);
            let pops = chain.len() - chain1.len();
            let popped: Seq<Event> = if pops > 0 {
                seq![Event::Pop(pops as usize)]
            } else {
                Seq::empty()
            };
            match atoms[bond.tid as int] {
                Some(child) => {
                    let (pushes, back, flips) = child_scan(
                        child.bonds@,
                        sid,
                        child.bonds@.len(),
                    );
                    match back {
                        None => WalkRun { events: Seq::empty(), atoms, pool, error: Some(
                            Error::HalfBond(sid, bond.tid),
                        ) },
                        Some(back_bond) => {
                            if !compatible(bond, back_bond) {
                                WalkRun { events: Seq::empty(), atoms, pool, error: Some(
                                    Error::IncompatibleBond(bond.tid, back_bond.tid),
                                ) }
                            } else {
                                let kind = if flips % 2 == 1 {
                                    child.kind.spec_invert_configuration()
                                } else {
                                    child.kind
                                };
                                let run = walk_inner(
                                    atoms.update(bond.tid as int, None),
                                    rest + pushes.map_values(|b: Bond| (bond.tid, b)),
                                    chain1.push(bond.tid),
                                    pool,
                                );
                                WalkRun {
                                    events: popped + seq![
                                        Event::Extend(spec_elide(bond.kind), kind),
                                    ] + run.events,
                                    atoms: run.atoms,
                                    pool: run.pool,
                                    error: run.error,
                                }
                            }
                        },
                    }
                },
                None => {
                    let key = JoinPool::spec_key(sid, bond.tid);
                    let (rnum, pool1) = match pool.index_of_first(key) {
                        Some(i) => ((i + 1) as usize, pool),
                        None => ((pool.len() + 1) as usize, pool.push(key)),
                    };
                    let run = walk_inner(atoms, rest, chain1, pool1);
                    WalkRun {
                        events: popped + seq![
                            Event::Join(spec_elide(bond.kind), Rnum(rnum as u8)),
                        ] + run.events,
                        atoms: run.atoms,
                        pool: run.pool,
                        error: run.error,
                    }
                },
            }
        }
    }
}

#[via_fn]
proof fn walk_inner_decreases(
    atoms: Seq<Option<Atom>>,
    stack: Seq<(usize, Bond)>,
    chain: Seq<usize>,
    pool: Seq<(usize, usize)>,
) {
    broadcast use lemma_total_bonds_nonneg;

    if stack.len() > 0 {
        let (sid, bond) = stack.last();
        if bond.tid < atoms.len() && bond.tid != sid {
            match atoms[bond.tid as int] {
                Some(child) => {
                    lemma_child_scan_len(child.bonds@, sid, child.bonds@.len());
                    lemma_total_bonds_update(atoms, bond.tid as int);
                },
                None => {},
            }
        }
    }
}


/// A traversal never changes how many atom slots there are.
pub proof fn lemma_walk_inner_atoms_len(
    atoms: Seq<Option<Atom>>,
    stack: Seq<(usize, Bond)>,
    chain: Seq<usize>,
    pool: Seq<(usize, usize)>,
)
    ensures
        walk_inner(atoms, stack, chain, pool).atoms.len() == atoms.len(),
    decreases stack.len() + total_bonds(atoms), 1int,
{
    broadcast use lemma_total_bonds_nonneg;

    if stack.len() > 0 {
        let (sid, bond) = stack.last();
        let rest = stack.drop_last();
        if bond.tid < atoms.len() && bond.tid != sid {
            let chain1 = spec_backtrack(chain, sid);
            match atoms[bond.tid as int] {
                Some(child) => {
                    let (pushes, back, flips) = child_scan(child.bonds@, sid, child.bonds@.len());
                    lemma_child_scan_len(child.bonds@, sid, child.bonds@.len());
                    lemma_total_bonds_update(atoms, bond.tid as int);
                    if back is Some && compatible(bond, back->0) {
                        lemma_walk_inner_atoms_len(
                            atoms.update(bond.tid as int, None),
                            rest + pushes.map_values(|b: Bond| (bond.tid, b)),
                            chain1.push(bond.tid),
                            pool,
                        );
                    }
                },
                None => {
                    let key = JoinPool::spec_key(sid, bond.tid);
                    match pool.index_of_first(key) {
                        Some(_) => {
                            lemma_walk_inner_atoms_len(atoms, rest, chain1, pool);
                        },
                        None => {
                            lemma_walk_inner_atoms_len(atoms, rest, chain1, pool.push(key));
                        },
                    }
                },
            }
        }
    }
}

/// The two halves of an edge fit together: a directional half must be met
/// by its reverse, any other by its equal.
pub open spec fn compatible(forward: Bond, back: Bond) -> bool {
    if forward.kind.spec_is_directional() {
        forward.kind == back.kind.spec_reverse()
    } else {
        forward.kind == back.kind
    }
}

/// The whole traversal from one root candidate onwards: each unvisited
/// atom in index order roots a component, is announced with a `Root`
/// event, and has its edges traversed deepest-first.
pub open spec fn walk_outer(
    atoms: Seq<Option<Atom>>,
    next: int,
    pool: Seq<(usize, usize)>,
) -> WalkRun
    decreases atoms.len() - next,
    via walk_outer_decreases
{
    if next < 0 || next >= atoms.len() {
        WalkRun { events: Seq::empty(), atoms, pool, error: None }
    } else {
        match atoms[next] {
            None => walk_outer(atoms, next + 1, pool),
            Some(root) => {
                let run = walk_inner(
                    atoms.update(next, None),
                    root.bonds@.reverse().map_values(|b: Bond| ((next as usize), b)),
                    seq![next as usize],
                    pool,
                );
                if run.error is Some {
                    run
                } else {
                    let tail = walk_outer(run.atoms, next + 1, run.pool);
                    WalkRun {
                        events: seq![Event::Root(root.kind)] + run.events + tail.events,
                        atoms: tail.atoms,
                        pool: tail.pool,
                        error: tail.error,
                    }
                }
            },
        }
    }
}

#[via_fn]
proof fn walk_outer_decreases(atoms: Seq<Option<Atom>>, next: int, pool: Seq<(usize, usize)>) {
    if 0 <= next < atoms.len() {
        match atoms[next] {
            Some(root) => {
                lemma_walk_inner_atoms_len(
                    atoms.update(next, None),
                    root.bonds@.reverse().map_values(|b: Bond| ((next as usize), b)),
                    seq![next as usize],
                    pool,
                );
            },
            None => {},
        }
    }
}

/// What a full traversal of a graph yields.
pub open spec fn spec_walk(graph: Seq<Atom>) -> WalkRun {
    walk_outer(graph.map_values(|atom: Atom| Some(atom)), 0, Seq::empty())
}


/// The allocations of a traversal only grow.
pub proof fn lemma_walk_inner_pool(
    atoms: Seq<Option<Atom>>,
    stack: Seq<(usize, Bond)>,
    chain: Seq<usize>,
    pool: Seq<(usize, usize)>,
)
    ensures
        walk_inner(atoms, stack, chain, pool).pool.len() >= pool.len(),
    decreases stack.len() + total_bonds(atoms), 1int,
{
    broadcast use lemma_total_bonds_nonneg;

    if stack.len() > 0 {
        let (sid, bond) = stack.last();
        let rest = stack.drop_last();
        if bond.tid < atoms.len() && bond.tid != sid {
            let chain1 = spec_backtrack(chain, sid);
            match atoms[bond.tid as int] {
                Some(child) => {
                    let (pushes, back, flips) = child_scan(child.bonds@, sid, child.bonds@.len());
                    lemma_child_scan_len(child.bonds@, sid, child.bonds@.len());
                    lemma_total_bonds_update(atoms, bond.tid as int);
                    if back is Some && compatible(bond, back->0) {
                        lemma_walk_inner_pool(
                            atoms.update(bond.tid as int, None),
                            rest + pushes.map_values(|b: Bond| (bond.tid, b)),
                            chain1.push(bond.tid),
                            pool,
                        );
                    }
                },
                None => {
                    let key = JoinPool::spec_key(sid, bond.tid);
                    match pool.index_of_first(key) {
                        Some(_) => {
                            lemma_walk_inner_pool(atoms, rest, chain1, pool);
                        },
                        None => {
                            lemma_walk_inner_pool(atoms, rest, chain1, pool.push(key));
                        },
                    }
                },
            }
        }
    }
}

/// Returns a bond kind as the traversal re-emits it, eliding explicit
/// single bonds.
fn elide(kind: BondKind) -> (r: BondKind)
    ensures
        r == spec_elide(kind),
{
    match kind {
        BondKind::Single => BondKind::Elided,
        other => other,
    }
}

/// Traverses every queued edge, delivering the events to the follower.
#[verifier::rlimit(100)]
fn walk_edges<F: Follower>(
    atoms: &mut Vec<Option<Atom>>,
    stack: &mut Vec<(usize, Bond)>,
    chain: &mut Vec<usize>,
    pool: &mut JoinPool,
    follower: &mut F,
) -> (r: Result<(), Error>)
    requires
        old(follower).wf(),
        old(chain)@.len() >= 1,
        follower_net(old(follower).events()) >= old(chain)@.len(),
        forall|i: int|
            0 <= i < old(atoms)@.len() ==> ((#[trigger] old(atoms)@[i]) matches Some(atom)
                ==> atom.kind.wf()),
        old(pool).pairs().len() <= 99,
        walk_inner(old(atoms)@, old(stack)@, old(chain)@, old(pool).pairs()).pool.len() <= 99,
    ensures
        final(follower).wf(),
        ({
            let run = walk_inner(old(atoms)@, old(stack)@, old(chain)@, old(pool).pairs());
            match run.error {
                None => {
                    &&& r == Ok::<(), Error>(())
                    &&& final(follower).events() == old(follower).events() + run.events
                    &&& final(atoms)@ == run.atoms
                    &&& final(pool).pairs() == run.pool
                    &&& final(chain)@.len() >= 1
                    &&& follower_net(final(follower).events()) == follower_net(
                        old(follower).events(),
                    ) + final(chain)@.len() - old(chain)@.len()
                    &&& forall|i: int|
                        0 <= i < final(atoms)@.len() ==> ((#[trigger] final(atoms)@[i])
                            matches Some(atom) ==> atom.kind.wf())
                },
                Some(e) => r == Err::<(), Error>(e),
            }
        }),
    decreases stack@.len() + total_bonds(atoms@), 2int,
{
    broadcast use lemma_total_bonds_nonneg;

    let ghost run = walk_inner(old(atoms)@, old(stack)@, old(chain)@, old(pool).pairs());
    let (sid, bond) = match stack.pop() {
        Some(entry) => entry,
        None => {
            proof {
                assert(old(follower).events() + run.events =~= old(follower).events());
            }
            return Ok(());
        },
    };
    proof {
        assert(old(stack)@.last() == (sid, bond));
        assert(stack@ =~= old(stack)@.drop_last());
    }
    if bond.tid >= atoms.len() {
        return Err(Error::UnknownTarget(sid, bond.tid));
    }
    if bond.tid == sid {
        return Err(Error::Loop(sid));
    }
    let tid = bond.tid;
    let n0 = chain.len();
    let mut pops: usize = 0;
    while chain.len() > 1 && chain[chain.len() - 1] != sid
        invariant
            chain@.len() >= 1,
            n0 == old(chain)@.len(),
            chain@ =~= old(chain)@.take(chain@.len() as int),
            pops == old(chain)@.len() - chain@.len(),
            spec_backtrack(old(chain)@, sid) == spec_backtrack(chain@, sid),
        decreases chain@.len(),
    {
        let ghost prev = chain@;
        chain.pop();
        proof {
            assert(chain@ =~= prev.drop_last());
            assert(chain@ =~= old(chain)@.take(chain@.len() as int));
        }
        pops = pops + 1;
    }
    proof {
        assert(spec_backtrack(chain@, sid) == chain@);
        lemma_backtrack_bounds(old(chain)@, sid);
    }
    let ghost chain1 = chain@;
    let ghost popped: Seq<Event> = if pops > 0 {
        seq![Event::Pop(pops)]
    } else {
        Seq::empty()
    };
    if pops > 0 {
        follower.pop(pops);
        proof {
            assert(old(follower).events().push(Event::Pop(pops)) =~= old(follower).events()
                + popped);
            lemma_net_concat(old(follower).events(), popped);
            lemma_event_single(Event::Pop(pops));
        }
    } else {
        proof {
            assert(follower.events() =~= old(follower).events() + popped);
            lemma_net_concat(old(follower).events(), popped);
            assert(follower_net(popped) == 0);
        }
    }
    let mut taken: Option<Atom> = None;
    core::mem::swap(&mut taken, &mut atoms[tid]);
    match taken {
        Some(child) => {
            proof {
                assert(atoms@ =~= old(atoms)@.update(tid as int, None));
            }
            let ghost scan = child_scan(child.bonds@, sid, child.bonds@.len());
            let ghost rest = old(stack)@.drop_last();
            let mut back: Option<Bond> = None;
            let mut flips_odd: bool = false;
            let mut k: usize = 0;
            proof {
                assert(stack@ =~= rest + child_scan(child.bonds@, sid, 0).0.map_values(
                    |b: Bond| (tid, b),
                ));
            }
            while k < child.bonds.len()
                invariant
                    k <= child.bonds@.len(),
                    tid == bond.tid,
                    ({
                        let (pushes, back_s, flips) = child_scan(child.bonds@, sid, k as nat);
                        &&& stack@ == rest + pushes.map_values(|b: Bond| (tid, b))
                        &&& back == back_s
                        &&& flips_odd == (flips % 2 == 1)
                    }),
                decreases child.bonds@.len() - k,
            {
                let idx = child.bonds.len() - 1 - k;
                let edge = child.bonds[idx];
                if edge.tid == sid {
                    back = Some(edge);
                    if idx % 2 == 0 {
                        flips_odd = !flips_odd;
                    }
                } else {
                    stack.push((tid, edge));
                    proof {
                        let (pushes, back_s, flips) = child_scan(
                            child.bonds@,
                            sid,
                            (k + 1) as nat,
                        );
                        assert(stack@ =~= rest + pushes.map_values(|b: Bond| (tid, b)));
                    }
                }
                k = k + 1;
            }
            let back_bond = match back {
                Some(back_bond) => back_bond,
                None => {
                    return Err(Error::HalfBond(sid, tid));
                },
            };
            let fits = if bond.is_directional() {
                bond.kind == back_bond.kind.reverse()
            } else {
                bond.kind == back_bond.kind
            };
            if !fits {
                return Err(Error::IncompatibleBond(bond.tid, back_bond.tid));
            }
            let mut kind = child.kind;
            if flips_odd {
                kind.invert_configuration();
            }
            chain.push(tid);
            follower.extend(elide(bond.kind), kind);
            let ghost head = Event::Extend(spec_elide(bond.kind), kind);
            proof {
                assert(follower.events() =~= old(follower).events() + (popped + seq![head])) by {
                    let base = old(follower).events();
                    assert((base + popped).push(head) =~= base + (popped + seq![head]));
                }
                lemma_net_concat(old(follower).events(), popped + seq![head]);
                lemma_net_concat(popped, seq![head]);
                lemma_event_single(head);
            }
            let ghost run_next = walk_inner(atoms@, stack@, chain@, pool.pairs());
            proof {
                lemma_child_scan_len(child.bonds@, sid, child.bonds@.len());
                lemma_total_bonds_update(old(atoms)@, tid as int);
            }
            match walk_edges(atoms, stack, chain, pool, follower) {
                Ok(()) => {
                    proof {
                        let base = old(follower).events();
                        assert(base + (popped + seq![head]) + run_next.events =~= base + (popped
                            + seq![head] + run_next.events));
                        assert(popped + seq![head] + run_next.events =~= run.events);
                        lemma_net_concat(base, run.events);
                        lemma_net_concat(popped + seq![head], run_next.events);
                    }
                    Ok(())
                },
                Err(e) => Err(e),
            }
        },
        None => {
            proof {
                assert(atoms@ =~= old(atoms)@);
            }
            let ghost pool0 = pool.pairs();
            proof {
                let key = JoinPool::spec_key(sid, tid);
                let pool1 = match pool0.index_of_first(key) {
                    Some(_) => pool0,
                    None => pool0.push(key),
                };
                lemma_walk_inner_pool(atoms@, stack@, chain1, pool1);
            }
            let rnum = pool.hit(sid, tid);
            let ghost head = Event::Join(spec_elide(bond.kind), rnum);
            follower.join(elide(bond.kind), rnum);
            proof {
                assert(follower.events() =~= old(follower).events() + (popped + seq![head])) by {
                    let base = old(follower).events();
                    assert((base + popped).push(head) =~= base + (popped + seq![head]));
                }
                lemma_net_concat(old(follower).events(), popped + seq![head]);
                lemma_net_concat(popped, seq![head]);
                lemma_event_single(head);
            }
            let ghost run_next = walk_inner(atoms@, stack@, chain@, pool.pairs());
            match walk_edges(atoms, stack, chain, pool, follower) {
                Ok(()) => {
                    proof {
                        let base = old(follower).events();
                        assert(base + (popped + seq![head]) + run_next.events =~= base + (popped
                            + seq![head] + run_next.events));
                        assert(popped + seq![head] + run_next.events =~= run.events);
                        lemma_net_concat(base, run.events);
                        lemma_net_concat(popped + seq![head], run_next.events);
                    }
                    Ok(())
                },
                Err(e) => Err(e),
            }
        },
    }
}



/// Visiting further components never discards ring allocations.
pub proof fn lemma_walk_outer_pool(atoms: Seq<Option<Atom>>, next: int, pool: Seq<(usize, usize)>)
    ensures
        walk_outer(atoms, next, pool).pool.len() >= pool.len(),
    decreases atoms.len() - next,
{
    if 0 <= next < atoms.len() {
        match atoms[next] {
            None => {
                lemma_walk_outer_pool(atoms, next + 1, pool);
            },
            Some(root) => {
                let run = walk_inner(
                    atoms.update(next, None),
                    root.bonds@.reverse().map_values(|b: Bond| ((next as usize), b)),
                    seq![next as usize],
                    pool,
                );
                lemma_walk_inner_pool(
                    atoms.update(next, None),
                    root.bonds@.reverse().map_values(|b: Bond| ((next as usize), b)),
                    seq![next as usize],
                    pool,
                );
                if run.error is None {
                    lemma_walk_inner_atoms_len(
                        atoms.update(next, None),
                        root.bonds@.reverse().map_values(|b: Bond| ((next as usize), b)),
                        seq![next as usize],
                        pool,
                    );
                    lemma_walk_outer_pool(run.atoms, next + 1, run.pool);
                }
            },
        }
    }
}

/// Visits each remaining root candidate in index order, rooting a
/// component at every atom still unvisited.
#[verifier::rlimit(100)]
fn walk_components<F: Follower>(
    atoms: &mut Vec<Option<Atom>>,
    next: usize,
    pool: &mut JoinPool,
    follower: &mut F,
) -> (r: Result<(), Error>)
    requires
        old(follower).wf(),
        follower_net(old(follower).events()) >= 0,
        forall|i: int|
            0 <= i < old(atoms)@.len() ==> ((#[trigger] old(atoms)@[i]) matches Some(atom)
                ==> atom.kind.wf()),
        old(pool).pairs().len() <= 99,
        walk_outer(old(atoms)@, next as int, old(pool).pairs()).pool.len() <= 99,
    ensures
        final(follower).wf(),
        ({
            let run = walk_outer(old(atoms)@, next as int, old(pool).pairs());
            match run.error {
                None => {
                    &&& r == Ok::<(), Error>(())
                    &&& final(follower).events() == old(follower).events() + run.events
                    &&& follower_net(final(follower).events()) >= follower_net(
                        old(follower).events(),
                    )
                },
                Some(e) => r == Err::<(), Error>(e),
            }
        }),
    decreases old(atoms)@.len() - next,
{
    let ghost run = walk_outer(old(atoms)@, next as int, old(pool).pairs());
    if next >= atoms.len() {
        proof {
            assert(old(follower).events() + run.events =~= old(follower).events());
        }
        return Ok(());
    }
    let mut taken: Option<Atom> = None;
    core::mem::swap(&mut taken, &mut atoms[next]);
    match taken {
        Some(root) => {
            proof {
                assert(atoms@ =~= old(atoms)@.update(next as int, None));
            }
            follower.root(root.kind);
            let ghost rooted: Seq<Event> = seq![Event::Root(root.kind)];
            proof {
                assert(old(follower).events().push(Event::Root(root.kind)) =~= old(
                    follower,
                ).events() + rooted);
                lemma_net_concat(old(follower).events(), rooted);
                lemma_event_single(Event::Root(root.kind));
            }
            let mut stack: Vec<(usize, Bond)> = Vec::new();
            let ghost seeds = root.bonds@.reverse().map_values(|b: Bond| (next, b));
            let mut k: usize = 0;
            proof {
                assert(stack@ =~= seeds.take(0));
            }
            while k < root.bonds.len()
                invariant
                    k <= root.bonds@.len(),
                    seeds == root.bonds@.reverse().map_values(|b: Bond| (next, b)),
                    stack@ == seeds.take(k as int),
                decreases root.bonds@.len() - k,
            {
                let bond = root.bonds[root.bonds.len() - 1 - k];
                stack.push((next, bond));
                proof {
                    assert(seeds[k as int] == (next, root.bonds@[root.bonds@.len() - 1 - k]));
                    assert(stack@ =~= seeds.take(k + 1));
                }
                k = k + 1;
            }
            proof {
                assert(stack@ =~= seeds);
            }
            let mut chain: Vec<usize> = Vec::new();
            chain.push(next);
            proof {
                assert(chain@ =~= seq![next]);
            }
            let ghost mid_f = *follower;
            let ghost inner = walk_inner(atoms@, stack@, chain@, pool.pairs());
            proof {
                lemma_walk_inner_atoms_len(atoms@, stack@, chain@, pool.pairs());
                lemma_walk_inner_pool(atoms@, stack@, chain@, pool.pairs());
                if inner.error is None {
                    lemma_walk_outer_pool(inner.atoms, next as int + 1, inner.pool);
                }
            }
            match walk_edges(atoms, &mut stack, &mut chain, pool, follower) {
                Ok(()) => {},
                Err(e) => {
                    return Err(e);
                },
            }
            proof {
                lemma_walk_inner_atoms_len(
                    old(atoms)@.update(next as int, None),
                    seeds,
                    seq![next],
                    old(pool).pairs(),
                );
            }
            let ghost tail = walk_outer(atoms@, next as int + 1, pool.pairs());
            match walk_components(atoms, next + 1, pool, follower) {
                Ok(()) => {
                    proof {
                        let base = old(follower).events();
                        assert(base + rooted + inner.events + tail.events =~= base + (rooted
                            + inner.events + tail.events));
                        assert(rooted + inner.events + tail.events =~= run.events);
                    }
                    Ok(())
                },
                Err(e) => Err(e),
            }
        },
        None => {
            proof {
                assert(atoms@ =~= old(atoms)@);
            }
            walk_components(atoms, next + 1, pool, follower)
        },
    }
}

/// Encapsulates the state of one traversal of a graph.
pub struct SmilesWalker {
    atoms: Vec<Option<Atom>>,
    pool: JoinPool,
    init: Ghost<Seq<Atom>>,
}

impl SmilesWalker {
    /// The graph this walker was built over.
    pub closed spec fn graph(self) -> Seq<Atom> {
        self.init@
    }

    /// The walker stands at the start of its traversal.
    pub closed spec fn fresh(self) -> bool {
        &&& self.atoms@ == self.init@.map_values(|atom: Atom| Some(atom))
        &&& self.pool.pairs() == Seq::<(usize, usize)>::empty()
    }

    /// Builds a walker from the atom list.
    pub fn new(graph: Vec<Atom>) -> (r: SmilesWalker)
        ensures
            r.graph() == graph@,
            r.fresh(),
    {
        let ghost init = graph@;
        let mut graph = graph;
        let mut atoms: Vec<Option<Atom>> = Vec::new();
        let total = graph.len();
        let mut taken: usize = 0;
        proof {
            assert(atoms@ =~= init.map_values(|atom: Atom| Some(atom)).take(0));
            assert(graph@ =~= init.skip(0));
        }
        while taken < total
            invariant
                total == init.len(),
                taken <= total,
                graph@ =~= init.skip(taken as int),
                atoms@ =~= init.map_values(|atom: Atom| Some(atom)).take(taken as int),
            decreases total - taken,
        {
            proof {
                assert(init.skip(taken as int)[0] == init[taken as int]);
            }
            let atom = graph.remove(0);
            proof {
                assert(init.skip(taken as int).remove(0) =~= init.skip(taken as int + 1));
                assert(graph@ =~= init.skip(taken as int + 1));
            }
            atoms.push(Some(atom));
            proof {
                assert(atoms@ =~= init.map_values(|atom: Atom| Some(atom)).take(
                    taken as int + 1,
                ));
            }
            taken = taken + 1;
        }
        proof {
            assert(init.map_values(|atom: Atom| Some(atom)).take(total as int) =~= init.map_values(
                |atom: Atom| Some(atom),
            ));
        }
        SmilesWalker { atoms, pool: JoinPool::new(), init: Ghost(init) }
    }

    /// Performs the traversal, delivering the events to the follower.
    pub fn traverse<F: Follower>(&mut self, follower: &mut F) -> (r: Result<(), Error>)
        requires
            old(self).fresh(),
            old(follower).wf(),
            follower_net(old(follower).events()) >= 0,
            forall|i: int|
                0 <= i < old(self).graph().len() ==> (#[trigger] old(self).graph()[i]).kind.wf(),
            spec_walk(old(self).graph()).pool.len() <= 99,
        ensures
            final(follower).wf(),
            match spec_walk(old(self).graph()).error {
                None => r == Ok::<(), Error>(()) && final(follower).events() == old(
                    follower,
                ).events() + spec_walk(old(self).graph()).events,
                Some(e) => r == Err::<(), Error>(e),
            },
    {
        proof {
            assert forall|i: int|
                0 <= i < self.atoms@.len() implies ((#[trigger] self.atoms@[i]) matches Some(atom)
                ==> atom.kind.wf()) by {
                assert(self.atoms@[i] == Some(old(self).graph()[i]));
            }
        }
        let mut atoms: Vec<Option<Atom>> = Vec::new();
        core::mem::swap(&mut atoms, &mut self.atoms);
        let mut pool = JoinPool::new();
        core::mem::swap(&mut pool, &mut self.pool);
        let r = walk_components(&mut atoms, 0, &mut pool, follower);
        core::mem::swap(&mut atoms, &mut self.atoms);
        core::mem::swap(&mut pool, &mut self.pool);
        r
    }
}

/// Performs a full depth-first traversal of a graph of atoms, emitting the
/// event stream an equivalent SMILES string would produce. Fails on an
/// edge whose target is out of range or its own source, whose counterpart
/// is missing, or whose two halves disagree; each unvisited atom in index
/// order roots a new component.
pub fn walk<F: Follower>(graph: Vec<Atom>, follower: &mut F) -> (r: Result<(), Error>)
    requires
        old(follower).wf(),
        follower_net(old(follower).events()) >= 0,
        forall|i: int| 0 <= i < graph@.len() ==> (#[trigger] graph@[i]).kind.wf(),
        spec_walk(graph@).pool.len() <= 99,
    ensures
        final(follower).wf(),
        match spec_walk(graph@).error {
            None => r == Ok::<(), Error>(()) && final(follower).events() == old(
                follower,
            ).events() + spec_walk(graph@).events,
            Some(e) => r == Err::<(), Error>(e),
        },
{
    let mut walker = SmilesWalker::new(graph);
    walker.traverse(follower)
}

} // verus!
