use vstd::prelude::*;

use crate::coordinate::{spatial_equal, Coordinate};
use crate::coordinate::coordinate_sequences::has_duplicate_in;
use crate::coordinate::coordinate_set::{key_of, lemma_key_of_exact, CoordinateSet};

pub mod linestring;
pub mod point;
pub mod polygon;

verus! {

/// The line through the coordinates of `s` neither crosses nor touches
/// itself: apart from the first coordinate, no coordinate is repeated, and
/// the first one comes back, if at all, only as the last coordinate (which
/// closes a ring).
pub open spec fn simple_line(s: Seq<Coordinate>) -> bool {
    &&& forall|a: int, b: int|
        1 <= a < b < s.len() ==> !spatial_equal(#[trigger] s[a]@, #[trigger] s[b]@)
    &&& forall|a: int| 1 <= a < s.len() - 1 ==> !spatial_equal(#[trigger] s[a]@, s[0]@)
}

/// A line of one coordinate is simple.
pub proof fn lemma_single_coordinate_simple(s: Seq<Coordinate>)
    requires
        s.len() == 1,
    ensures
        simple_line(s),
{
}

/// A line whose coordinates, the first included, are pairwise distinct is
/// simple, and so is that line closed into a ring by repeating its first
/// coordinate.
pub proof fn lemma_distinct_line_simple(s: Seq<Coordinate>)
    requires
        s.len() >= 1,
        !has_duplicate_in(s),
    ensures
        simple_line(s),
        simple_line(s.push(s[0])),
{
    let t = s.push(s[0]);
    assert forall|a: int, b: int| 1 <= a < b < t.len() implies !spatial_equal(
        #[trigger] t[a]@,
        #[trigger] t[b]@,
    ) by {
        if b == s.len() {
            assert(!spatial_equal(s[0]@, s[a]@));
        } else {
            assert(!spatial_equal(s[a]@, s[b]@));
        }
    }
    assert forall|a: int| 1 <= a < t.len() - 1 implies !spatial_equal(#[trigger] t[a]@, t[0]@) by {
        assert(!spatial_equal(s[0]@, s[a]@));
    }
}

/// Once a line is not simple, no coordinate added at its end makes it
/// simple again.
pub proof fn lemma_violation_persists(s: Seq<Coordinate>, c: Coordinate)
    requires
        s.len() >= 1,
        !simple_line(s),
    ensures
        !simple_line(s.push(c)),
{
    let t = s.push(c);
    if exists|a: int, b: int| 1 <= a < b < s.len() && spatial_equal(#[trigger] s[a]@, #[trigger] s[b]@) {
        let (a, b) = choose|a: int, b: int|
            1 <= a < b < s.len() && spatial_equal(#[trigger] s[a]@, #[trigger] s[b]@);
        assert(spatial_equal(t[a]@, t[b]@));
    } else {
        let a = choose|a: int| 1 <= a < s.len() - 1 && spatial_equal(#[trigger] s[a]@, s[0]@);
        assert(spatial_equal(t[a]@, t[0]@));
    }
}

/// The keys of the coordinates at positions `1 .. n` of `s` that differ
/// from the first coordinate.
pub open spec fn interior_keys(s: Seq<Coordinate>, n: int) -> Set<(u64, u64, u64)> {
    Set::new(
        |q: (u64, u64, u64)|
            exists|a: int|
                1 <= a < n && !spatial_equal(#[trigger] s[a]@, s[0]@) && key_of(s[a]@) == q,
    )
}

/// Whether the line through `coordinates` is simple, see [`simple_line`].
///
/// One pass from front to back with a set of the coordinates seen so far;
/// the one return to the first coordinate that closes a ring is allowed, and
/// the pass stops at the first violation.
pub fn is_simple_line(coordinates: &Vec<Coordinate>) -> (r: bool)
    requires
        coordinates@.len() >= 1,
    ensures
        r == simple_line(coordinates@),
{
    let s = Ghost(coordinates@);
    let n = coordinates.len();
    let first = &coordinates[0];
    let mut seen = CoordinateSet::with_capacity(n);
    let mut ring_closed = false;
    let mut i: usize = 1;
    assert(seen@ =~= interior_keys(s@, 1));
    while i < n
        invariant
            s@ == coordinates@,
            n == s@.len(),
            1 <= i <= n,
            *first == s@[0],
            seen.wf(),
            seen.planar_positions() <= i,
            seen@ == interior_keys(s@, i as int),
            ring_closed == (i >= 2 && spatial_equal(s@[i - 1]@, s@[0]@)),
            forall|a: int, b: int|
                1 <= a < b < i ==> !spatial_equal(#[trigger] s@[a]@, #[trigger] s@[b]@),
            forall|a: int| 1 <= a < i - 1 ==> !spatial_equal(#[trigger] s@[a]@, s@[0]@),
        decreases n - i,
    {
        if ring_closed {
            // The ring closed before the last coordinate.
            assert(spatial_equal(s@[i - 1]@, s@[0]@) && 1 <= i - 1 < s@.len() - 1);
            return false;
        }
        let c = &coordinates[i];
        if c.equals_3d(first) {
            ring_closed = true;
            proof {
                assert forall|a: int| 1 <= a < i implies !spatial_equal(
                    #[trigger] s@[a]@,
                    s@[i as int]@,
                ) by {
                    assert(!spatial_equal(s@[a]@, s@[0]@));
                }
                assert(seen@ =~= interior_keys(s@, i + 1));
            }
        } else {
            if !seen.insert(c) {
                proof {
                    let a = choose|a: int|
                        1 <= a < i && !spatial_equal(#[trigger] s@[a]@, s@[0]@) && key_of(s@[a]@)
                            == key_of(c@);
                    lemma_key_of_exact(s@[a]@, c@);
                    assert(spatial_equal(s@[a]@, s@[i as int]@));
                }
                return false;
            }
            proof {
                assert forall|a: int, b: int|
                    1 <= a < b < i + 1 implies !spatial_equal(
                    #[trigger] s@[a]@,
                    #[trigger] s@[b]@,
                ) by {
                    if b == i {
                        lemma_key_of_exact(s@[a]@, s@[b]@);
                        if spatial_equal(s@[a]@, s@[b]@) {
                            assert(!spatial_equal(s@[a]@, s@[0]@));
                            assert(interior_keys(s@, i as int).contains(key_of(s@[a]@)));
                        }
                    }
                }
                assert forall|q: (u64, u64, u64)|
                    seen@.contains(q) == #[trigger] interior_keys(s@, i + 1).contains(q) by {
                    if q == key_of(s@[i as int]@) {
                        assert(interior_keys(s@, i + 1).contains(q));
                    } else if interior_keys(s@, i + 1).contains(q) {
                        let a = choose|a: int|
                            1 <= a < i + 1 && !spatial_equal(#[trigger] s@[a]@, s@[0]@) && key_of(
                                s@[a]@,
                            ) == q;
                        assert(interior_keys(s@, i as int).contains(q));
                    }
                }
                assert(seen@ =~= interior_keys(s@, i + 1));
            }
        }
        i += 1;
    }
    true
}

/// A geometry of one of the kinds the library knows.
pub enum Geometry {
    Point { coordinates: Coordinate },
    LineString { coordinates: Vec<Coordinate> },
    LinearRing { coordinates: Vec<Coordinate> },
    Polygon { coordinates: Vec<Vec<Coordinate>> },
    MultiPoint { coordinates: Vec<Coordinate> },
    MultiLineString { coordinates: Vec<Vec<Coordinate>> },
    MultiPolygon { coordinates: Vec<Vec<Vec<Coordinate>>> },
    GeometryCollection { geometries: Vec<Geometry> },
}

/// The geometry may be asked whether it is simple: a line string has at
/// least one coordinate.
pub open spec fn simplicity_defined(g: &Geometry) -> bool {
    g is LineString ==> g->LineString_coordinates@.len() >= 1
}

/// Whether the geometry is simple: a point always is, a line string is when
/// its line is (see [`simple_line`]), and no other kind is decided here.
pub open spec fn simple_geometry(g: &Geometry) -> bool {
    match g {
        Geometry::Point { .. } => true,
        Geometry::LineString { coordinates } => simple_line(coordinates@),
        _ => false,
    }
}

impl Geometry {
    /// Whether the geometry has no anomalous points, such as a
    /// self-intersection or a self-tangency.
    pub fn is_simple(&self) -> (r: bool)
        requires
            simplicity_defined(self),
        ensures
            r == simple_geometry(self),
    {
        match self {
            Geometry::Point { .. } => true,
            Geometry::LineString { coordinates } => is_simple_line(coordinates),
            _ => false,
        }
    }
}

} // verus!
