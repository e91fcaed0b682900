use vstd::prelude::*;

use crate::feature::AtomKind;
use crate::feature::BondKind;
use crate::feature::Rnum;
use crate::read::error::ReadError;
use crate::read::missing_character::missing_character;
use crate::read::missing_character::spec_missing_character;
use crate::read::read_bond::read_bond;
use crate::read::read_bond::spec_read_bond;
use crate::read::read_bracket::read_bracket;
use crate::read::read_bracket::spec_read_bracket;
use crate::read::read_organic::read_organic;
use crate::read::read_organic::spec_read_organic;
use crate::read::read_rnum::read_rnum;
use crate::read::read_rnum::spec_read_rnum;
use crate::read::scanner::Scanner;
use crate::read::scanner::spec_peek;
use crate::read::trace::Trace;
use crate::walk::count_atoms;
use crate::walk::Event;
use crate::walk::Follower;
use crate::walk::follower_net;
use crate::walk::lemma_count_atoms_concat;
use crate::walk::lemma_event_single;
use crate::walk::lemma_net_concat;

verus! {

broadcast use crate::read::scanner::lemma_skip_quotes_auto, crate::read::scanner::lemma_scanner_wf, crate::walk::lemma_count_atoms_nonneg;

/// The atom written at the given position and the position after it: the
/// bare wildcard, an organic-subset symbol, or a bracket atom; `None` when
/// none of the three starts here.
pub open spec fn spec_read_atom(s: Seq<char>, pos: int) -> Result<
    Option<(AtomKind, int)>,
    ReadError,
> {
    if spec_peek(s, pos) == Some('*') {
        Ok(Some((AtomKind::Star, crate::read::scanner::spec_advance(s, pos))))
    } else {
        match spec_read_organic(s, pos) {
            Err(e) => Err(e),
            Ok((Some(kind), p)) => Ok(Some((kind, p))),
            Ok((None, _)) => match spec_read_bracket(s, pos) {
                Err(e) => Err(e),
                Ok(Some((kind, p))) => Ok(Some((kind, p))),
                Ok(None) => Ok(None),
            },
        }
    }
}

/// One `smiles` expression of the grammar: an atom and any number of
/// bodies. The result is the events it emits, the number of atoms it
/// leaves on the chain, and the position after it; `None` when no atom
/// starts here. `input` is the bond this expression hangs from: with none
/// the atom roots a new component. The fuel only bounds the recursion and
/// is irrelevant once it covers the remaining input.
pub open spec fn spec_smiles(s: Seq<char>, pos: int, input: Option<BondKind>, fuel: nat) -> Result<
    Option<(Seq<Event>, int, int)>,
    ReadError,
>
    decreases fuel, 0int,
{
    if fuel == 0 {
        Err(ReadError::EndOfLine)
    } else {
        match spec_read_atom(s, pos) {
            Err(e) => Err(e),
            Ok(None) => Ok(None),
            Ok(Some((kind, p1))) => {
                let head = match input {
                    None => Event::Root(kind),
                    Some(bond) => Event::Extend(bond, kind),
                };
                match spec_bodies(s, p1, (fuel - 1) as nat) {
                    Err(e) => Err(e),
                    Ok((events, len, p2)) => Ok(Some((seq![head] + events, 1 + len, p2))),
                }
            },
        }
    }
}

/// A run of `body` elements: branches, splits and unions, until none
/// starts at the position.
pub open spec fn spec_bodies(s: Seq<char>, pos: int, fuel: nat) -> Result<
    (Seq<Event>, int, int),
    ReadError,
>
    decreases fuel, 3int,
{
    if fuel == 0 {
        Err(ReadError::EndOfLine)
    } else {
        match spec_body(s, pos, fuel) {
            Err(e) => Err(e),
            Ok(None) => Ok((Seq::empty(), 0, pos)),
            Ok(Some((events, len, p1))) => match spec_bodies(s, p1, (fuel - 1) as nat) {
                Err(e) => Err(e),
                Ok((events2, len2, p2)) => Ok((events + events2, len + len2, p2)),
            },
        }
    }
}

/// One `body` of the grammar: a branch, a split, or a union.
pub open spec fn spec_body(s: Seq<char>, pos: int, fuel: nat) -> Result<
    Option<(Seq<Event>, int, int)>,
    ReadError,
>
    decreases fuel, 2int,
{
    match spec_branch(s, pos, fuel) {
        Err(e) => Err(e),
        Ok(Some((events, p1))) => Ok(Some((events, 0, p1))),
        Ok(None) => match spec_split(s, pos, fuel) {
            Err(e) => Err(e),
            Ok(Some(t)) => Ok(Some(t)),
            Ok(None) => spec_union(s, pos, fuel),
        },
    }
}

/// A parenthesised branch: `(`, a dot or bond, a smiles expression, `)`.
/// Its atoms are popped off the chain when the branch closes, so it leaves
/// none.
pub open spec fn spec_branch(s: Seq<char>, pos: int, fuel: nat) -> Result<
    Option<(Seq<Event>, int)>,
    ReadError,
>
    decreases fuel, 1int,
{
    match spec_peek(s, pos) {
        Some('(') => {
            let p1 = crate::read::scanner::spec_advance(s, pos);
            let inner = if spec_peek(s, p1) == Some('.') {
                spec_smiles(s, crate::read::scanner::spec_advance(s, p1), None, fuel)
            } else {
                let (bond, p2) = spec_read_bond(s, p1);
                spec_smiles(s, p2, Some(bond), fuel)
            };
            let inner_pos = if spec_peek(s, p1) == Some('.') {
                crate::read::scanner::spec_advance(s, p1)
            } else {
                spec_read_bond(s, p1).1
            };
            match inner {
                Err(e) => Err(e),
                Ok(None) => Err(spec_missing_character(s, inner_pos)),
                Ok(Some((events, len, p3))) => match spec_peek(s, p3) {
                    Some(')') => Ok(
                        Some(
                            (
                                events + seq![Event::Pop(len as usize)],
                                crate::read::scanner::spec_advance(s, p3),
                            ),
                        ),
                    ),
                    _ => Err(spec_missing_character(s, p3)),
                },
            }
        },
        _ => Ok(None),
    }
}

/// A split: a dot and a smiles expression rooting a new component.
pub open spec fn spec_split(s: Seq<char>, pos: int, fuel: nat) -> Result<
    Option<(Seq<Event>, int, int)>,
    ReadError,
>
    decreases fuel, 1int,
{
    match spec_peek(s, pos) {
        Some('.') => {
            let p1 = crate::read::scanner::spec_advance(s, pos);
            match spec_smiles(s, p1, None, fuel) {
                Err(e) => Err(e),
                Ok(None) => Err(spec_missing_character(s, p1)),
                Ok(Some(t)) => Ok(Some(t)),
            }
        },
        _ => Ok(None),
    }
}

/// A union: an optional bond, then a smiles expression or a ring closure
/// number. A bare bond with neither is an error; no bond and neither is no
/// body at all.
pub open spec fn spec_union(s: Seq<char>, pos: int, fuel: nat) -> Result<
    Option<(Seq<Event>, int, int)>,
    ReadError,
>
    decreases fuel, 1int,
{
    let (bond, p1) = spec_read_bond(s, pos);
    match spec_smiles(s, p1, Some(bond), fuel) {
        Err(e) => Err(e),
        Ok(Some(t)) => Ok(Some(t)),
        Ok(None) => match spec_read_rnum(s, p1) {
            Err(e) => Err(e),
            Ok(Some((value, p2))) => Ok(
                Some((seq![Event::Join(bond, Rnum(value))], 0, p2)),
            ),
            Ok(None) => {
                if bond == BondKind::Elided {
                    Ok(None)
                } else {
                    Err(spec_missing_character(s, p1))
                }
            },
        },
    }
}

/// What reading a whole SMILES string yields: the event stream of one
/// smiles expression covering the entire input, or the first error. An
/// empty input, or one whose leading expression is no expression at all,
/// fails at its position; an expression followed by anything else fails at
/// the leftover.
pub open spec fn spec_read(s: Seq<char>) -> Result<Seq<Event>, ReadError> {
    match spec_smiles(s, 0, None, (s.len() + 1) as nat) {
        Err(e) => Err(e),
        Ok(None) => {
            if spec_peek(s, 0) is None {
                Err(ReadError::EndOfLine)
            } else {
                Err(ReadError::Character(0))
            }
        },
        Ok(Some((events, _, p))) => {
            if spec_peek(s, p) is None {
                Ok(events)
            } else {
                Err(ReadError::Character(p as usize))
            }
        },
    }
}

/// The sink and trace moved forward by exactly one subexpression: the
/// follower received `events`, which leave `len` atoms on the chain; the
/// trace gained one well-bounded span per atom event and `len` chain
/// entries, its earlier records untouched.
pub open spec fn sink_extended<F: Follower>(
    pre_f: F,
    post_f: F,
    pre_t: Trace,
    post_t: Trace,
    events: Seq<Event>,
    len: int,
    limit: int,
) -> bool {
    &&& post_f.wf()
    &&& post_f.events() == pre_f.events() + events
    &&& follower_net(events) == len
    &&& post_t.wf()
    &&& post_t.atom_spans().len() == pre_t.atom_spans().len() + count_atoms(events)
    &&& forall|i: int|
        0 <= i < pre_t.atom_spans().len() ==> #[trigger] post_t.atom_spans()[i]
            == pre_t.atom_spans()[i]
    &&& forall|i: int|
        pre_t.atom_spans().len() <= i < post_t.atom_spans().len() ==> (
        #[trigger] post_t.atom_spans()[i]).0 < post_t.atom_spans()[i].1 <= limit
    &&& post_t.chain().len() == pre_t.chain().len() + len
    &&& forall|i: int|
        0 <= i < pre_t.chain().len() ==> #[trigger] post_t.chain()[i] == pre_t.chain()[i]
}

/// Reads one atom of either form.
fn read_atom(scanner: &mut Scanner) -> (r: Result<Option<AtomKind>, ReadError>)
    requires
        old(scanner).wf(),
    ensures
        final(scanner).wf(),
        final(scanner).text() == old(scanner).text(),
        match spec_read_atom(old(scanner).text(), old(scanner).at()) {
            Ok(Some((kind, p))) => r == Ok::<Option<AtomKind>, ReadError>(Some(kind)) && final(scanner).at() == p && old(scanner).at() < p && kind.wf(),
            Ok(None) => r == Ok::<Option<AtomKind>, ReadError>(None) && final(scanner).at() == old(scanner).at(),
            Err(e) => r == Err::<Option<AtomKind>, ReadError>(e),
        },
{
    match scanner.peek() {
        Some('*') => {
            scanner.pop();
            return Ok(Some(AtomKind::Star));
        },
        _ => {},
    }
    match read_organic(scanner) {
        Ok(Some(kind)) => Ok(Some(kind)),
        Ok(None) => match read_bracket(scanner) {
            Ok(Some(kind)) => Ok(Some(kind)),
            Ok(None) => Ok(None),
            Err(e) => Err(e),
        },
        Err(e) => Err(e),
    }
}

/// Reads one smiles expression, delivering its events to the follower and
/// its spans to the trace.
#[verifier::rlimit(100)]
fn read_smiles<F: Follower>(
    input: Option<BondKind>,
    scanner: &mut Scanner,
    follower: &mut F,
    trace: &mut Trace,
    Ghost(fuel): Ghost<nat>,
) -> (r: Result<Option<usize>, ReadError>)
    requires
        old(scanner).wf(),
        old(follower).wf(),
        old(trace).wf(),
        fuel >= old(scanner).text().len() - old(scanner).at() + 1,
        follower_net(old(follower).events()) >= 0,
        input is Some ==> follower_net(old(follower).events()) >= 1 && old(trace).chain().len()
            >= 1,
        (input matches Some(bond) && bond != BondKind::Elided) ==> old(scanner).at() >= 1,
    ensures
        final(scanner).wf(),
        final(follower).wf(),
        final(trace).wf(),
        final(scanner).text() == old(scanner).text(),
        match spec_smiles(old(scanner).text(), old(scanner).at(), input, fuel) {
            Ok(Some((events, len, p))) => {
                &&& r == Ok::<Option<usize>, ReadError>(Some(len as usize))
                &&& 1 <= len <= p - old(scanner).at()
                &&& final(scanner).at() == p
                &&& sink_extended(
                    *old(follower),
                    *final(follower),
                    *old(trace),
                    *final(trace),
                    events,
                    len,
                    old(scanner).text().len() as int,
                )
            },
            Ok(None) => {
                &&& r == Ok::<Option<usize>, ReadError>(None)
                &&& final(scanner).at() == old(scanner).at()
                &&& *final(follower) == *old(follower)
                &&& *final(trace) == *old(trace)
            },
            Err(e) => r == Err::<Option<usize>, ReadError>(e),
        },
    decreases fuel, 0int,
{
    let ghost s = old(scanner).text();
    let ghost pos = old(scanner).at();
    let cursor = scanner.cursor();
    let atom_kind = match read_atom(scanner) {
        Ok(Some(kind)) => kind,
        Ok(None) => {
            return Ok(None);
        },
        Err(e) => {
            return Err(e);
        },
    };
    let ghost head: Event;
    match input {
        Some(bond_kind) => {
            if bond_kind == BondKind::Elided {
                trace.extend(cursor, cursor, scanner.cursor());
            } else {
                trace.extend(cursor - 1, cursor, scanner.cursor());
            }
            follower.extend(bond_kind, atom_kind);
            proof {
                head = Event::Extend(bond_kind, atom_kind);
            }
        },
        None => {
            follower.root(atom_kind);
            trace.root(cursor, scanner.cursor());
            proof {
                head = Event::Root(atom_kind);
            }
        },
    }
    let ghost mid_f = *follower;
    let ghost p1 = scanner.at();
    proof {
        assert(mid_f.events() == old(follower).events().push(head));
        assert(old(follower).events().push(head) =~= old(follower).events() + seq![head]);
        lemma_net_concat(old(follower).events(), seq![head]);
        lemma_event_single(head);
    }
    let rest = match read_bodies(scanner, follower, trace, Ghost((fuel - 1) as nat)) {
        Ok(rest) => rest,
        Err(e) => {
            return Err(e);
        },
    };
    proof {
        let result = spec_bodies(s, p1, (fuel - 1) as nat);
        let events2 = result->Ok_0.0;
        assert(mid_f.events() == old(follower).events().push(head));
        assert(follower.events() == old(follower).events() + (seq![head] + events2)) by {
            assert(old(follower).events().push(head) =~= old(follower).events() + seq![head]);
            let base = old(follower).events();
            assert((base + seq![head]) + events2 =~= base + (seq![head] + events2));
        }
        lemma_net_concat(seq![head], events2);
        assert(follower_net(seq![head]) == 1) by {
            assert(seq![head].drop_last() =~= Seq::<Event>::empty());
        }
        lemma_count_atoms_concat(seq![head], events2);
        assert(count_atoms(seq![head]) == 1) by {
            assert(seq![head].drop_last() =~= Seq::<Event>::empty());
        }
    }
    Ok(Some(1 + rest))
}

/// Reads the run of bodies that follows an atom.
#[verifier::rlimit(100)]
fn read_bodies<F: Follower>(
    scanner: &mut Scanner,
    follower: &mut F,
    trace: &mut Trace,
    Ghost(fuel): Ghost<nat>,
) -> (r: Result<usize, ReadError>)
    requires
        old(scanner).wf(),
        old(follower).wf(),
        old(trace).wf(),
        fuel >= old(scanner).text().len() - old(scanner).at() + 1,
        follower_net(old(follower).events()) >= 1,
        old(trace).chain().len() >= 1,
    ensures
        final(scanner).wf(),
        final(follower).wf(),
        final(trace).wf(),
        final(scanner).text() == old(scanner).text(),
        match spec_bodies(old(scanner).text(), old(scanner).at(), fuel) {
            Ok((events, len, p)) => {
                &&& r == Ok::<usize, ReadError>(len as usize)
                &&& 0 <= len <= p - old(scanner).at()
                &&& old(scanner).at() <= p
                &&& final(scanner).at() == p
                &&& sink_extended(
                    *old(follower),
                    *final(follower),
                    *old(trace),
                    *final(trace),
                    events,
                    len,
                    old(scanner).text().len() as int,
                )
            },
            Err(e) => r == Err::<usize, ReadError>(e),
        },
    decreases fuel, 3int,
{
    let ghost s = old(scanner).text();
    let ghost pos = old(scanner).at();
    let length = match read_body(scanner, follower, trace, Ghost(fuel)) {
        Ok(Some(length)) => length,
        Ok(None) => {
            proof {
                assert(old(follower).events() + Seq::<Event>::empty() =~= old(follower).events());
            }
            return Ok(0);
        },
        Err(e) => {
            return Err(e);
        },
    };
    let ghost mid_t = *trace;
    let ghost p1 = scanner.at();
    let ghost events1 = spec_body(s, pos, fuel)->Ok_0->Some_0.0;
    proof {
        lemma_net_concat(old(follower).events(), events1);
    }
    let rest = match read_bodies(scanner, follower, trace, Ghost((fuel - 1) as nat)) {
        Ok(rest) => rest,
        Err(e) => {
            return Err(e);
        },
    };
    proof {
        let bres = spec_body(s, pos, fuel);
        assert(bres is Ok);
        assert(bres->Ok_0 is Some);
        let (e1, l1, q1) = bres->Ok_0->Some_0;
        assert(length == l1 as usize);
        assert(q1 == p1);
        assert(0 <= l1 <= q1 - pos);
        let bodres = spec_bodies(s, p1, (fuel - 1) as nat);
        assert(bodres is Ok);
        let (e2, l2, q2) = bodres->Ok_0;
        assert(rest == l2 as usize);
        assert(0 <= l2 <= q2 - q1);
        assert(scanner.wf());
        assert(q2 <= s.len());
        assert(s.len() <= usize::MAX);
        assert(spec_bodies(s, pos, fuel) == Ok::<(Seq<Event>, int, int), ReadError>(
            (e1 + e2, l1 + l2, q2),
        ));
        let events2 = e2;
        assert(follower.events() == old(follower).events() + (events1 + events2)) by {
            let base = old(follower).events();
            assert((base + events1) + events2 =~= base + (events1 + events2));
        }
        lemma_net_concat(events1, events2);
        lemma_count_atoms_concat(events1, events2);
        assert(follower_net(e1 + e2) == l1 + l2);
        assert(trace.atom_spans().len() == old(trace).atom_spans().len() + count_atoms(e1 + e2));
        assert forall|i: int| 0 <= i < old(trace).atom_spans().len() implies trace.atom_spans()[i]
            == old(trace).atom_spans()[i] by {
            assert(i < mid_t.atom_spans().len());
            assert(trace.atom_spans()[i] == mid_t.atom_spans()[i]);
        }
        assert forall|i: int|
            old(trace).atom_spans().len() <= i < trace.atom_spans().len() implies (#[trigger]
        trace.atom_spans()[i]).0 < trace.atom_spans()[i].1 <= s.len() by {
            if i < mid_t.atom_spans().len() {
                assert(trace.atom_spans()[i] == mid_t.atom_spans()[i]);
            }
        }
        assert(trace.chain().len() == old(trace).chain().len() + (l1 + l2));
        assert forall|i: int| 0 <= i < old(trace).chain().len() implies trace.chain()[i] == old(
            trace,
        ).chain()[i] by {
            assert(i < mid_t.chain().len());
            assert(trace.chain()[i] == mid_t.chain()[i]);
        }
    }
    Ok(length + rest)
}

/// Reads one body: a branch, a split, or a union.
#[verifier::rlimit(100)]
fn read_body<F: Follower>(
    scanner: &mut Scanner,
    follower: &mut F,
    trace: &mut Trace,
    Ghost(fuel): Ghost<nat>,
) -> (r: Result<Option<usize>, ReadError>)
    requires
        old(scanner).wf(),
        old(follower).wf(),
        old(trace).wf(),
        fuel >= old(scanner).text().len() - old(scanner).at() + 1,
        follower_net(old(follower).events()) >= 1,
        old(trace).chain().len() >= 1,
    ensures
        final(scanner).wf(),
        final(follower).wf(),
        final(trace).wf(),
        final(scanner).text() == old(scanner).text(),
        match spec_body(old(scanner).text(), old(scanner).at(), fuel) {
            Ok(Some((events, len, p))) => {
                &&& r == Ok::<Option<usize>, ReadError>(Some(len as usize))
                &&& 0 <= len <= p - old(scanner).at()
                &&& old(scanner).at() < p
                &&& final(scanner).at() == p
                &&& sink_extended(
                    *old(follower),
                    *final(follower),
                    *old(trace),
                    *final(trace),
                    events,
                    len,
                    old(scanner).text().len() as int,
                )
            },
            Ok(None) => {
                &&& r == Ok::<Option<usize>, ReadError>(None)
                &&& final(scanner).at() == old(scanner).at()
                &&& *final(follower) == *old(follower)
                &&& *final(trace) == *old(trace)
            },
            Err(e) => r == Err::<Option<usize>, ReadError>(e),
        },
    decreases fuel, 2int,
{
    match read_branch(scanner, follower, trace, Ghost(fuel)) {
        Ok(true) => {
            return Ok(Some(0));
        },
        Ok(false) => {},
        Err(e) => {
            return Err(e);
        },
    }
    match read_split(scanner, follower, trace, Ghost(fuel)) {
        Ok(Some(length)) => {
            return Ok(Some(length));
        },
        Ok(None) => {},
        Err(e) => {
            return Err(e);
        },
    }
    read_union(scanner, follower, trace, Ghost(fuel))
}

/// Reads a parenthesised branch and closes it with a `Pop` event.
#[verifier::rlimit(100)]
fn read_branch<F: Follower>(
    scanner: &mut Scanner,
    follower: &mut F,
    trace: &mut Trace,
    Ghost(fuel): Ghost<nat>,
) -> (r: Result<bool, ReadError>)
    requires
        old(scanner).wf(),
        old(follower).wf(),
        old(trace).wf(),
        fuel >= old(scanner).text().len() - old(scanner).at() + 1,
        follower_net(old(follower).events()) >= 1,
        old(trace).chain().len() >= 1,
    ensures
        final(scanner).wf(),
        final(follower).wf(),
        final(trace).wf(),
        final(scanner).text() == old(scanner).text(),
        match spec_branch(old(scanner).text(), old(scanner).at(), fuel) {
            Ok(Some((events, p))) => {
                &&& r == Ok::<bool, ReadError>(true)
                &&& old(scanner).at() < p
                &&& final(scanner).at() == p
                &&& sink_extended(
                    *old(follower),
                    *final(follower),
                    *old(trace),
                    *final(trace),
                    events,
                    0,
                    old(scanner).text().len() as int,
                )
            },
            Ok(None) => {
                &&& r == Ok::<bool, ReadError>(false)
                &&& final(scanner).at() == old(scanner).at()
                &&& *final(follower) == *old(follower)
                &&& *final(trace) == *old(trace)
            },
            Err(e) => r == Err::<bool, ReadError>(e),
        },
    decreases fuel, 1int,
{
    let ghost s = old(scanner).text();
    let ghost pos = old(scanner).at();
    match scanner.peek() {
        Some('(') => {
            scanner.pop();
        },
        _ => {
            return Ok(false);
        },
    }
    let dotted = match scanner.peek() {
        Some('.') => true,
        _ => false,
    };
    let length: usize;
    if dotted {
        scanner.pop();
        length = match read_smiles(None, scanner, follower, trace, Ghost(fuel)) {
            Ok(Some(length)) => length,
            Ok(None) => {
                return Err(missing_character(scanner));
            },
            Err(e) => {
                return Err(e);
            },
        };
    } else {
        let bond_kind = read_bond(scanner);
        length = match read_smiles(Some(bond_kind), scanner, follower, trace, Ghost(fuel)) {
            Ok(Some(length)) => length,
            Ok(None) => {
                return Err(missing_character(scanner));
            },
            Err(e) => {
                return Err(e);
            },
        };
    }
    let ghost inner_events = if spec_peek(s, crate::read::scanner::spec_advance(s, pos)) == Some(
        '.',
    ) {
        spec_smiles(
            s,
            crate::read::scanner::spec_advance(s, crate::read::scanner::spec_advance(s, pos)),
            None,
            fuel,
        )->Ok_0->Some_0.0
    } else {
        spec_smiles(
            s,
            spec_read_bond(s, crate::read::scanner::spec_advance(s, pos)).1,
            Some(spec_read_bond(s, crate::read::scanner::spec_advance(s, pos)).0),
            fuel,
        )->Ok_0->Some_0.0
    };
    match scanner.peek() {
        Some(')') => {
            scanner.pop();
            proof {
                lemma_net_concat(old(follower).events(), inner_events);
            }
            follower.pop(length);
            trace.pop(length);
            proof {
                let events = inner_events + seq![Event::Pop(length)];
                assert(follower.events() == old(follower).events() + events) by {
                    let base = old(follower).events();
                    assert((base + inner_events).push(Event::Pop(length)) =~= base + events);
                }
                lemma_net_concat(inner_events, seq![Event::Pop(length)]);
                lemma_count_atoms_concat(inner_events, seq![Event::Pop(length)]);
                lemma_event_single(Event::Pop(length));
                assert(final(trace).chain() =~= old(trace).chain());
            }
            Ok(true)
        },
        _ => Err(missing_character(scanner)),
    }
}

/// Reads a split: a dot rooting a new component.
#[verifier::rlimit(100)]
fn read_split<F: Follower>(
    scanner: &mut Scanner,
    follower: &mut F,
    trace: &mut Trace,
    Ghost(fuel): Ghost<nat>,
) -> (r: Result<Option<usize>, ReadError>)
    requires
        old(scanner).wf(),
        old(follower).wf(),
        old(trace).wf(),
        fuel >= old(scanner).text().len() - old(scanner).at() + 1,
        follower_net(old(follower).events()) >= 1,
        old(trace).chain().len() >= 1,
    ensures
        final(scanner).wf(),
        final(follower).wf(),
        final(trace).wf(),
        final(scanner).text() == old(scanner).text(),
        match spec_split(old(scanner).text(), old(scanner).at(), fuel) {
            Ok(Some((events, len, p))) => {
                &&& r == Ok::<Option<usize>, ReadError>(Some(len as usize))
                &&& 1 <= len <= p - old(scanner).at()
                &&& old(scanner).at() < p
                &&& final(scanner).at() == p
                &&& sink_extended(
                    *old(follower),
                    *final(follower),
                    *old(trace),
                    *final(trace),
                    events,
                    len,
                    old(scanner).text().len() as int,
                )
            },
            Ok(None) => {
                &&& r == Ok::<Option<usize>, ReadError>(None)
                &&& final(scanner).at() == old(scanner).at()
                &&& *final(follower) == *old(follower)
                &&& *final(trace) == *old(trace)
            },
            Err(e) => r == Err::<Option<usize>, ReadError>(e),
        },
    decreases fuel, 1int,
{
    match scanner.peek() {
        Some('.') => {
            scanner.pop();
        },
        _ => {
            return Ok(None);
        },
    }
    match read_smiles(None, scanner, follower, trace, Ghost(fuel)) {
        Ok(Some(length)) => Ok(Some(length)),
        Ok(None) => Err(missing_character(scanner)),
        Err(e) => Err(e),
    }
}

/// Reads a union: an optional bond and then a smiles expression or a ring
/// closure number.
#[verifier::rlimit(100)]
fn read_union<F: Follower>(
    scanner: &mut Scanner,
    follower: &mut F,
    trace: &mut Trace,
    Ghost(fuel): Ghost<nat>,
) -> (r: Result<Option<usize>, ReadError>)
    requires
        old(scanner).wf(),
        old(follower).wf(),
        old(trace).wf(),
        fuel >= old(scanner).text().len() - old(scanner).at() + 1,
        follower_net(old(follower).events()) >= 1,
        old(trace).chain().len() >= 1,
    ensures
        final(scanner).wf(),
        final(follower).wf(),
        final(trace).wf(),
        final(scanner).text() == old(scanner).text(),
        match spec_union(old(scanner).text(), old(scanner).at(), fuel) {
            Ok(Some((events, len, p))) => {
                &&& r == Ok::<Option<usize>, ReadError>(Some(len as usize))
                &&& 0 <= len <= p - old(scanner).at()
                &&& old(scanner).at() < p
                &&& final(scanner).at() == p
                &&& sink_extended(
                    *old(follower),
                    *final(follower),
                    *old(trace),
                    *final(trace),
                    events,
                    len,
                    old(scanner).text().len() as int,
                )
            },
            Ok(None) => {
                &&& r == Ok::<Option<usize>, ReadError>(None)
                &&& final(scanner).at() == old(scanner).at()
                &&& *final(follower) == *old(follower)
                &&& *final(trace) == *old(trace)
            },
            Err(e) => r == Err::<Option<usize>, ReadError>(e),
        },
    decreases fuel, 1int,
{
    let bond_cursor = scanner.cursor();
    let bond_kind = read_bond(scanner);
    match read_smiles(Some(bond_kind), scanner, follower, trace, Ghost(fuel)) {
        Ok(Some(length)) => {
            return Ok(Some(length));
        },
        Ok(None) => {},
        Err(e) => {
            return Err(e);
        },
    }
    match read_rnum(scanner) {
        Ok(Some(rnum)) => {
            trace.join(bond_cursor, rnum);
            follower.join(bond_kind, rnum);
            proof {
                let events = seq![Event::Join(bond_kind, rnum)];
                assert(old(follower).events().push(Event::Join(bond_kind, rnum)) =~= old(follower).events() + events);
                lemma_event_single(Event::Join(bond_kind, rnum));
            }
            Ok(Some(0))
        },
        Ok(None) => {
            match bond_kind {
                BondKind::Elided => Ok(None),
                _ => Err(missing_character(scanner)),
            }
        },
        Err(e) => Err(e),
    }
}

/// Reads a SMILES string, delivering its event stream to the follower.
/// Succeeds exactly when the whole string is one smiles expression; an
/// empty input fails with `EndOfLine`, and a violation of the grammar
/// fails at its character offset. Quote characters are skipped wherever
/// they stand, but offsets count them.
pub fn read<F: Follower>(smiles: &str, follower: &mut F) -> (r: Result<(), ReadError>)
    requires
        smiles.is_ascii(),
        old(follower).wf(),
        follower_net(old(follower).events()) >= 0,
    ensures
        final(follower).wf(),
        match spec_read(smiles@) {
            Ok(events) => r == Ok::<(), ReadError>(()) && final(follower).events() == old(follower).events() + events,
            Err(e) => r == Err::<(), ReadError>(e),
        },
{
    let mut trace = Trace::new();
    read_trace(smiles, follower, &mut trace)
}

/// Reads a SMILES string as `read` does, also recording span provenance in
/// the trace: one span per atom, each non-empty and within the input, and
/// one cursor per bond.
pub fn read_trace<F: Follower>(smiles: &str, follower: &mut F, trace: &mut Trace) -> (r: Result<
    (),
    ReadError,
>)
    requires
        smiles.is_ascii(),
        old(follower).wf(),
        follower_net(old(follower).events()) >= 0,
        old(trace).wf(),
    ensures
        final(follower).wf(),
        final(trace).wf(),
        match spec_read(smiles@) {
            Ok(events) => {
                &&& r == Ok::<(), ReadError>(())
                &&& final(follower).events() == old(follower).events() + events
                &&& final(trace).atom_spans().len() == old(trace).atom_spans().len() + count_atoms(
                    events,
                )
                &&& forall|i: int|
                    0 <= i < old(trace).atom_spans().len() ==> #[trigger] final(trace).atom_spans()[i] == old(trace).atom_spans()[i]
                &&& forall|i: int|
                    old(trace).atom_spans().len() <= i < final(trace).atom_spans().len() ==> (
                    #[trigger] final(trace).atom_spans()[i]).0 < final(trace).atom_spans()[i].1
                        <= smiles@.len()
            },
            Err(e) => r == Err::<(), ReadError>(e),
        },
{
    let mut scanner = Scanner::new(smiles);
    let got = match read_smiles(
        None,
        &mut scanner,
        follower,
        trace,
        Ghost((smiles@.len() + 1) as nat),
    ) {
        Ok(got) => got,
        Err(e) => {
            return Err(e);
        },
    };
    match got {
        Some(_) => {
            if scanner.is_done() {
                Ok(())
            } else {
                Err(ReadError::Character(scanner.cursor()))
            }
        },
        None => {
            if scanner.is_done() {
                Err(ReadError::EndOfLine)
            } else {
                Err(ReadError::Character(scanner.cursor()))
            }
        },
    }
}

} // verus!
