use vstd::prelude::*;

use crate::coordinate::{spatial_equal, Coordinate};
use crate::geometry::Geometry;

verus! {

/// A single location.
#[derive(Debug, Clone, Copy)]
pub struct Point {
    pub coordinate: Coordinate,
}

impl Point {
    /// A point is always simple.
    pub fn is_simple(&self) -> (r: bool)
        ensures
            r,
    {
        true
    }

    /// The boundary of a point is the point itself.
    pub fn boundary(&self) -> (r: &Point)
        ensures
            r == self,
    {
        self
    }

    /// Whether `other` is a point at a structurally equal location; a
    /// geometry of any other kind is never equal to a point.
    pub fn equals(&self, other: &Geometry) -> (r: bool)
        ensures
            r == (match other {
                Geometry::Point { coordinates } => spatial_equal(self.coordinate@, coordinates@),
                _ => false,
            }),
    {
        match other {
            Geometry::Point { coordinates } => self.coordinate.equals_3d(coordinates),
            _ => false,
        }
    }
}

} // verus!
