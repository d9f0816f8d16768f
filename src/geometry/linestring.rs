use vstd::prelude::*;

use crate::coordinate::Coordinate;
use crate::geometry::{is_simple_line, simple_line};

verus! {

/// A line through an ordered run of coordinates.
#[derive(Debug, Clone)]
pub struct LineString {
    pub coordinates: Vec<Coordinate>,
}

impl LineString {
    /// Whether the line neither crosses nor touches itself, see
    /// [`simple_line`].
    pub fn is_simple(&self) -> (r: bool)
        requires
            self.coordinates@.len() >= 1,
        ensures
            r == simple_line(self.coordinates@),
    {
        is_simple_line(&self.coordinates)
    }

    /// The topological dimension of a line.
    pub fn dimension(&self) -> (r: i32)
        ensures
            r == 1,
    {
        1
    }
}

} // verus!
