//! What holds of equality, distance and combination, for all coordinates.

use vstd::prelude::*;
use crate::cube::{abs, Cube};
use crate::hex::Hex;
use crate::steps::{joins, lemma_distance_is_fewest_steps};

verus! {

/// A derived coordinate is determined by the other two: on the grid, two
/// coordinates are equal exactly when their `q` and `r` agree.
pub proof fn lemma_equal_iff_axial_equal(a: Hex, b: Hex)
    requires
        a@.on_grid(),
        b@.on_grid(),
    ensures
        a == b <==> (a@.q == b@.q && a@.r == b@.r),
{
    a.lemma_view_injective(b);
}

/// A cell is at distance zero from itself.
pub proof fn lemma_distance_identity(h: Hex)
    ensures
        h@.distance(h@) == 0,
{
}

/// Only equal coordinates are at distance zero.
pub proof fn lemma_distance_zero_iff_equal(a: Hex, b: Hex)
    ensures
        a@.distance(b@) == 0 <==> a == b,
{
    a.lemma_view_injective(b);
}

/// Distance does not depend on the direction in which it is measured.
pub proof fn lemma_distance_symmetric(a: Hex, b: Hex)
    ensures
        a@.distance(b@) == b@.distance(a@),
{
}

/// Going through a third cell is never shorter than going directly.
pub proof fn lemma_distance_triangle(a: Hex, b: Hex, c: Hex)
    ensures
        a@.distance(c@) <= a@.distance(b@) + b@.distance(c@),
{
}

/// Sums and differences of cells of the grid are cells of the grid, and
/// are the cells that their `q` and `r` alone determine.
pub proof fn lemma_combination_on_grid(a: Hex, b: Hex)
    requires
        a@.on_grid(),
        b@.on_grid(),
    ensures
        a@.plus(b@).on_grid(),
        a@.minus(b@).on_grid(),
        a@.plus(b@) == Cube::at(a@.q + b@.q, a@.r + b@.r),
        a@.minus(b@) == Cube::at(a@.q - b@.q, a@.r - b@.r),
{
}

/// Subtraction undoes addition.
pub proof fn lemma_minus_undoes_plus(a: Hex, b: Hex)
    ensures
        a@.plus(b@).minus(b@) == a@,
        a@.minus(b@).plus(b@) == a@,
{
}

/// Moving two cells by the same offset keeps their distance.
pub proof fn lemma_distance_translation(a: Hex, b: Hex, by: Hex)
    ensures
        a@.plus(by@).distance(b@.plus(by@)) == a@.distance(b@),
        a@.minus(by@).distance(b@.minus(by@)) == a@.distance(b@),
{
}

/// On the grid the largest absolute component of a difference is half the
/// sum of all three.
pub proof fn lemma_distance_half_sum(a: Hex, b: Hex)
    requires
        a@.on_grid(),
        b@.on_grid(),
    ensures
        2 * a@.distance(b@) == abs(a@.q - b@.q) + abs(a@.r - b@.r) + abs(a@.s - b@.s),
{
}

/// The distance of two coordinates is the number of steps that the shortest
/// walk between their cells takes.
pub proof fn lemma_distance_counts_steps(a: Hex, b: Hex)
    requires
        a@.on_grid(),
        b@.on_grid(),
    ensures
        exists|p: Seq<Cube>| joins(p, a@, b@) && p.len() - 1 == a@.distance(b@),
        forall|p: Seq<Cube>| joins(p, a@, b@) ==> p.len() - 1 >= a@.distance(b@),
{
    lemma_distance_is_fewest_steps(a@, b@);
}

} // verus!
