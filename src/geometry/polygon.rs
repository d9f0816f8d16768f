use vstd::prelude::*;

use crate::geometry::linestring::LineString;

verus! {

/// A surface bounded by an exterior ring, with holes bounded by interior
/// rings.
#[derive(Debug, Clone)]
pub struct Polygon {
    pub exterior: LineString,
    pub interior: Vec<LineString>,
}

} // verus!
