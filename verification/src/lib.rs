//! Cube coordinates on a hexagonal grid.
//!
//! A cell of the grid is addressed by two axial coordinates `q` and `r`; the
//! third cube coordinate `s` is always derived as `-q - r`, so that the three
//! sum to zero. [`hex::Hex`] is the executable value, [`cube::Cube`] its
//! mathematical model over unbounded integers.
//!
//! Coordinates are stored as `i32`, and no operation wraps or saturates.
//! `Hex::new`, `+` and `-` ask of their caller that every component of the
//! result fits; `Hex::try_new`, `Hex::checked_add` and `Hex::checked_sub`
//! take any input and return an [`hex::OverflowError`] exactly when a
//! component does not fit. Distances are returned as `u32`, which holds the
//! distance of any two coordinates.

pub mod cube;
pub mod hex;
pub mod laws;
pub mod steps;
