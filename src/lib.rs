//! Foundational data layer of a planar geometry library: a coordinate value
//! type, an ordered coordinate container, and the simplicity check for linear
//! geometries.
//!
//! Ordinates are held as IEEE-754 binary64 bit patterns (`u64`), which keeps
//! every decision of the library (finiteness, exact equality, hashing) on
//! integers that can be reasoned about exactly.
pub mod ieee;
pub mod coordinate;
pub mod geometry;
