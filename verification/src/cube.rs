//! The mathematical model: cube coordinates over unbounded integers.

use vstd::prelude::*;

verus! {

/// Absolute value of an integer.
pub open spec fn abs(x: int) -> nat {
    if x < 0 {
        (-x) as nat
    } else {
        x as nat
    }
}

/// The largest of three naturals.
pub open spec fn max3(a: nat, b: nat, c: nat) -> nat {
    if a >= b && a >= c {
        a
    } else if b >= c {
        b
    } else {
        c
    }
}

/// A triple of cube coordinates. It addresses a cell of the grid when its
/// components sum to zero (see [`Cube::on_grid`]).
pub struct Cube {
    pub q: int,
    pub r: int,
    pub s: int,
}

impl Cube {
    /// The cell with axial coordinates `(q, r)`: `s` is derived.
    pub open spec fn at(q: int, r: int) -> Cube {
        Cube { q, r, s: -q - r }
    }

    /// The cube-coordinate invariant.
    pub open spec fn on_grid(self) -> bool {
        self.q + self.r + self.s == 0
    }

    /// Every component is representable as an `i32`.
    pub open spec fn in_range(self) -> bool {
        &&& i32::MIN <= self.q <= i32::MAX
        &&& i32::MIN <= self.r <= i32::MAX
        &&& i32::MIN <= self.s <= i32::MAX
    }

    /// Component-wise sum.
    pub open spec fn plus(self, other: Cube) -> Cube {
        Cube { q: self.q + other.q, r: self.r + other.r, s: self.s + other.s }
    }

    /// Component-wise difference.
    pub open spec fn minus(self, other: Cube) -> Cube {
        Cube { q: self.q - other.q, r: self.r - other.r, s: self.s - other.s }
    }

    /// Grid distance: the largest absolute component of the difference.
    pub open spec fn distance(self, other: Cube) -> nat {
        max3(abs(self.q - other.q), abs(self.r - other.r), abs(self.s - other.s))
    }
}

} // verus!
