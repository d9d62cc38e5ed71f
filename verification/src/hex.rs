//! The executable hex coordinate.

use vstd::prelude::*;
use crate::cube::{abs, Cube};

verus! {

/// A coordinate that does not fit in an `i32`.
#[derive(Clone, Copy, Debug, PartialEq, Eq, Structural)]
pub struct OverflowError;

/// A cell of a hexagonal grid in cube coordinates, stored as `i32`.
///
/// Only `q` and `r` are chosen by the caller; `s` is derived from them, so
/// `q + r + s == 0` holds of every value.
#[derive(Clone, Copy, Debug, PartialEq, Eq, Structural)]
pub struct Hex {
    q: i32,
    r: i32,
    s: i32,
}

impl View for Hex {
    type V = Cube;

    closed spec fn view(&self) -> Cube {
        Cube { q: self.q as int, r: self.r as int, s: self.s as int }
    }
}

impl Hex {
    #[verifier::type_invariant]
    spec fn derived(self) -> bool {
        self.q + self.r + self.s == 0
    }

    /// The value whose model is `c`, where there is one.
    pub closed spec fn of(c: Cube) -> Hex {
        Hex { q: c.q as i32, r: c.r as i32, s: c.s as i32 }
    }

    /// The components of a model are those of an `i32` value.
    pub proof fn lemma_view_in_range(self)
        ensures
            self@.in_range(),
    {
    }

    /// Two values are equal exactly when their models are.
    pub proof fn lemma_view_injective(self, other: Hex)
        ensures
            self == other <==> self@ == other@,
    {
    }

    /// `of` and the view undo each other on triples that fit in `i32`.
    pub proof fn lemma_of_view(c: Cube)
        requires
            c.in_range(),
        ensures
            Hex::of(c)@ == c,
    {
    }

    /// Builds the cell with axial coordinates `(q, r)`.
    ///
    /// The derived coordinate `-q - r` has to fit in an `i32`; use
    /// [`Hex::try_new`] where that is not known.
    pub fn new(q: i32, r: i32) -> (h: Hex)
        requires
            Cube::at(q as int, r as int).in_range(),
        ensures
            h@ == Cube::at(q as int, r as int),
            h@.on_grid(),
    {
        let s: i64 = -(q as i64) - (r as i64);
        Hex { q, r, s: s as i32 }
    }

    /// Builds the cell with axial coordinates `(q, r)`, or reports that its
    /// derived coordinate does not fit in an `i32`.
    pub fn try_new(q: i32, r: i32) -> (res: Result<Hex, OverflowError>)
        ensures
            res is Ok <==> Cube::at(q as int, r as int).in_range(),
            res is Ok ==> res->Ok_0@ == Cube::at(q as int, r as int),
            res is Ok ==> res->Ok_0@.on_grid(),
    {
        let s: i64 = -(q as i64) - (r as i64);
        if fits(s) {
            Ok(Hex { q, r, s: s as i32 })
        } else {
            Err(OverflowError)
        }
    }

    /// `self + rhs`, or the report that a component of the sum does not fit
    /// in an `i32`.
    pub fn checked_add(self, rhs: Hex) -> (res: Result<Hex, OverflowError>)
        ensures
            res is Ok <==> self@.plus(rhs@).in_range(),
            res is Ok ==> res->Ok_0@ == self@.plus(rhs@),
            res is Ok ==> res->Ok_0@.on_grid(),
    {
        proof {
            use_type_invariant(&self);
            use_type_invariant(&rhs);
        }
        let q: i64 = self.q as i64 + rhs.q as i64;
        let r: i64 = self.r as i64 + rhs.r as i64;
        if fits(q) && fits(r) && fits(-q - r) {
            Ok(Hex { q: q as i32, r: r as i32, s: (-q - r) as i32 })
        } else {
            Err(OverflowError)
        }
    }

    /// `self - rhs`, or the report that a component of the difference does
    /// not fit in an `i32`.
    pub fn checked_sub(self, rhs: Hex) -> (res: Result<Hex, OverflowError>)
        ensures
            res is Ok <==> self@.minus(rhs@).in_range(),
            res is Ok ==> res->Ok_0@ == self@.minus(rhs@),
            res is Ok ==> res->Ok_0@.on_grid(),
    {
        proof {
            use_type_invariant(&self);
            use_type_invariant(&rhs);
        }
        let q: i64 = self.q as i64 - rhs.q as i64;
        let r: i64 = self.r as i64 - rhs.r as i64;
        if fits(q) && fits(r) && fits(-q - r) {
            Ok(Hex { q: q as i32, r: r as i32, s: (-q - r) as i32 })
        } else {
            Err(OverflowError)
        }
    }

    /// The first axial coordinate.
    pub fn q(&self) -> (v: i32)
        ensures
            v == self@.q,
    {
        self.q
    }

    /// The second axial coordinate.
    pub fn r(&self) -> (v: i32)
        ensures
            v == self@.r,
    {
        self.r
    }

    /// The derived coordinate, `-q - r`.
    pub fn s(&self) -> (v: i32)
        ensures
            v == self@.s,
            v == -self@.q - self@.r,
            self@.on_grid(),
    {
        proof {
            use_type_invariant(self);
        }
        self.s
    }

    /// The number of steps between two cells: the largest absolute
    /// component of their difference.
    pub fn distance_from(&self, other: &Hex) -> (d: u32)
        ensures
            d == self@.distance(other@),
    {
        let dq: u32 = gap(self.q, other.q);
        let dr: u32 = gap(self.r, other.r);
        let ds: u32 = gap(self.s, other.s);
        if dq >= dr && dq >= ds {
            dq
        } else if dr >= ds {
            dr
        } else {
            ds
        }
    }
}

impl std::ops::Add for Hex {
    type Output = Hex;

    /// Component-wise sum of `q` and `r`, with `s` derived anew.
    fn add(self, rhs: Hex) -> (out: Hex)
        ensures
            out@ == self@.plus(rhs@),
            out@.on_grid(),
    {
        proof {
            use_type_invariant(&self);
            use_type_invariant(&rhs);
        }
        Hex::new(self.q + rhs.q, self.r + rhs.r)
    }
}

impl vstd::std_specs::ops::AddSpecImpl for Hex {
    open spec fn obeys_add_spec() -> bool {
        true
    }

    /// Every component of the sum fits in an `i32`.
    open spec fn add_req(self, rhs: Hex) -> bool {
        self@.plus(rhs@).in_range()
    }

    open spec fn add_spec(self, rhs: Hex) -> Hex {
        Hex::of(self@.plus(rhs@))
    }
}

impl std::ops::Sub for Hex {
    type Output = Hex;

    /// Component-wise difference of `q` and `r`, with `s` derived anew.
    fn sub(self, rhs: Hex) -> (out: Hex)
        ensures
            out@ == self@.minus(rhs@),
            out@.on_grid(),
    {
        proof {
            use_type_invariant(&self);
            use_type_invariant(&rhs);
        }
        Hex::new(self.q - rhs.q, self.r - rhs.r)
    }
}

impl vstd::std_specs::ops::SubSpecImpl for Hex {
    open spec fn obeys_sub_spec() -> bool {
        true
    }

    /// Every component of the difference fits in an `i32`.
    open spec fn sub_req(self, rhs: Hex) -> bool {
        self@.minus(rhs@).in_range()
    }

    open spec fn sub_spec(self, rhs: Hex) -> Hex {
        Hex::of(self@.minus(rhs@))
    }
}

/// Whether `x` is representable as an `i32`.
fn fits(x: i64) -> (b: bool)
    ensures
        b <==> i32::MIN <= x <= i32::MAX,
{
    i32::MIN as i64 <= x && x <= i32::MAX as i64
}

/// `|a - b|`, which always fits in a `u32`.
fn gap(a: i32, b: i32) -> (d: u32)
    ensures
        d == abs(a - b),
{
    let wide: i64 = a as i64 - b as i64;
    if wide < 0 {
        (-wide) as u32
    } else {
        wide as u32
    }
}

} // verus!
