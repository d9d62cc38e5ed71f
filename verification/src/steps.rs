//! What the distance counts: steps between cells that share an edge.
//!
//! Nothing here is executable. The module states, over the model, that the
//! distance of two cells is the length of the shortest walk between them.

use vstd::prelude::*;
use crate::cube::Cube;

verus! {

/// One of the six offsets between a cell and a cell that shares an edge
/// with it: one component grows by one, another shrinks by one.
pub open spec fn is_direction(d: Cube) -> bool {
    ||| d == (Cube { q: 1, r: -1, s: 0 })
    ||| d == (Cube { q: 1, r: 0, s: -1 })
    ||| d == (Cube { q: 0, r: 1, s: -1 })
    ||| d == (Cube { q: -1, r: 1, s: 0 })
    ||| d == (Cube { q: -1, r: 0, s: 1 })
    ||| d == (Cube { q: 0, r: -1, s: 1 })
}

/// Two cells of the grid that share an edge.
pub open spec fn adjacent(a: Cube, b: Cube) -> bool {
    a.on_grid() && b.on_grid() && is_direction(b.minus(a))
}

/// The `i`-th step of `p` goes from a cell to one that shares an edge with it.
pub open spec fn step_at(p: Seq<Cube>, i: int) -> bool {
    adjacent(p[i], p[i + 1])
}

/// A walk: a non-empty sequence of cells of the grid, each sharing an edge
/// with the next. A walk of `n + 1` cells takes `n` steps.
pub open spec fn is_walk(p: Seq<Cube>) -> bool {
    &&& p.len() >= 1
    &&& p[0].on_grid()
    &&& forall|i: int| 0 <= i < p.len() - 1 ==> #[trigger] step_at(p, i)
}

/// `p` is a walk that starts at `a` and ends at `b`.
pub open spec fn joins(p: Seq<Cube>, a: Cube, b: Cube) -> bool {
    is_walk(p) && p.first() == a && p.last() == b
}

/// The cell next to `a` on the way to `b`: a component of `a` that is below
/// that of `b` grows, one that is above shrinks.
pub open spec fn toward(a: Cube, b: Cube) -> Cube {
    let d = b.minus(a);
    if d.q > 0 && d.r < 0 {
        a.plus(Cube { q: 1, r: -1, s: 0 })
    } else if d.q > 0 {
        a.plus(Cube { q: 1, r: 0, s: -1 })
    } else if d.q < 0 && d.r > 0 {
        a.plus(Cube { q: -1, r: 1, s: 0 })
    } else if d.q < 0 {
        a.plus(Cube { q: -1, r: 0, s: 1 })
    } else if d.r > 0 {
        a.plus(Cube { q: 0, r: 1, s: -1 })
    } else {
        a.plus(Cube { q: 0, r: -1, s: 1 })
    }
}

/// The walk from `a` that takes `n` steps toward `b`.
pub open spec fn walk_toward(a: Cube, b: Cube, n: nat) -> Seq<Cube>
    decreases n,
{
    if n == 0 {
        seq![a]
    } else {
        seq![a] + walk_toward(toward(a, b), b, (n - 1) as nat)
    }
}

/// Cells that share an edge are at distance one.
pub proof fn lemma_adjacent_distance(a: Cube, b: Cube)
    requires
        adjacent(a, b),
    ensures
        a.distance(b) == 1,
{
}

/// A step toward another cell stays on the grid and brings it one nearer.
pub proof fn lemma_toward_is_nearer(a: Cube, b: Cube)
    requires
        a.on_grid(),
        b.on_grid(),
        a != b,
    ensures
        adjacent(a, toward(a, b)),
        toward(a, b).distance(b) == a.distance(b) - 1,
{
}

/// No walk is shorter than the distance between its ends.
pub proof fn lemma_walk_at_least_distance(p: Seq<Cube>)
    requires
        is_walk(p),
    ensures
        p.first().distance(p.last()) <= p.len() - 1,
    decreases p.len(),
{
    if p.len() > 1 {
        let shorter = p.drop_last();
        let n = p.len() - 1;
        assert forall|i: int| 0 <= i < shorter.len() - 1 implies #[trigger] step_at(shorter, i) by {
            assert(step_at(p, i));
        }
        lemma_walk_at_least_distance(shorter);
        assert(step_at(p, n - 1));
        lemma_adjacent_distance(p[n - 1], p[n]);
    }
}

/// Walking toward a cell for as many steps as it is away arrives there.
pub proof fn lemma_walk_toward_arrives(a: Cube, b: Cube, n: nat)
    requires
        a.on_grid(),
        b.on_grid(),
        n == a.distance(b),
    ensures
        joins(walk_toward(a, b, n), a, b),
        walk_toward(a, b, n).len() == n + 1,
    decreases n,
{
    let p = walk_toward(a, b, n);
    if n > 0 {
        let next = toward(a, b);
        let rest = walk_toward(next, b, (n - 1) as nat);
        lemma_toward_is_nearer(a, b);
        lemma_walk_toward_arrives(next, b, (n - 1) as nat);
        assert forall|i: int| 0 <= i < p.len() - 1 implies #[trigger] step_at(p, i) by {
            if i > 0 {
                assert(step_at(rest, i - 1));
            }
        }
    }
}

/// The distance of two cells of the grid is the number of steps of the
/// shortest walk between them: some walk takes that many, and none fewer.
pub proof fn lemma_distance_is_fewest_steps(a: Cube, b: Cube)
    requires
        a.on_grid(),
        b.on_grid(),
    ensures
        exists|p: Seq<Cube>| joins(p, a, b) && p.len() - 1 == a.distance(b),
        forall|p: Seq<Cube>| joins(p, a, b) ==> p.len() - 1 >= a.distance(b),
{
    lemma_walk_toward_arrives(a, b, a.distance(b));
    assert(joins(walk_toward(a, b, a.distance(b)), a, b));
    assert forall|p: Seq<Cube>| joins(p, a, b) implies p.len() - 1 >= a.distance(b) by {
        lemma_walk_at_least_distance(p);
    }
}

} // verus!
