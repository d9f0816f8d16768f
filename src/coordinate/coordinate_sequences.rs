use vstd::prelude::*;

use crate::coordinate::{spatial_equal, Coordinate};
use crate::coordinate::coordinate_set::{key_of, lemma_key_of_exact, CoordinateSet};

verus! {

/// Two positions of `s` hold structurally equal coordinates.
pub open spec fn has_duplicate_in(s: Seq<Coordinate>) -> bool {
    exists|i: int, j: int| 0 <= i < j < s.len() && spatial_equal(#[trigger] s[i]@, #[trigger] s[j]@)
}

/// `s` has at least two coordinates and its first and last are structurally
/// equal.
pub open spec fn closed_in(s: Seq<Coordinate>) -> bool {
    s.len() >= 2 && spatial_equal(s[0]@, s[s.len() - 1]@)
}

/// Duplicate detection does not make an exception for rings: a closed
/// sequence always has a duplicate, its first and last coordinates.
pub proof fn lemma_closed_has_duplicates(s: Seq<Coordinate>)
    ensures
        closed_in(s) ==> has_duplicate_in(s),
{
    if closed_in(s) {
        assert(spatial_equal(s[0]@, s[s.len() - 1]@));
    }
}

/// The keys of the coordinates at positions `0 .. n` of `s`.
pub open spec fn prefix_keys(s: Seq<Coordinate>, n: int) -> Set<(u64, u64, u64)> {
    Set::new(|q: (u64, u64, u64)| exists|a: int| 0 <= a < n && key_of(#[trigger] s[a]@) == q)
}

/// An ordered run of coordinates; the order is the point order of the
/// geometry it describes.
///
/// Updates leave the sequence alone and return a changed copy.
#[derive(Debug, Clone)]
pub struct CoordinateSequence {
    coordinates: Vec<Coordinate>,
}

impl View for CoordinateSequence {
    type V = Seq<Coordinate>;

    closed spec fn view(&self) -> Seq<Coordinate> {
        self.coordinates@
    }
}

impl CoordinateSequence {
    /// A sequence holding `coordinates` in their order.
    pub fn new(coordinates: Vec<Coordinate>) -> (r: Self)
        ensures
            r@ == coordinates@,
    {
        CoordinateSequence { coordinates }
    }

    /// The coordinates, in order.
    pub fn get_coordinates(&self) -> (r: &Vec<Coordinate>)
        ensures
            r@ == self@,
    {
        &self.coordinates
    }

    /// The coordinate at `index`, or `None` past the end.
    pub fn get_coordinate(&self, index: usize) -> (r: Option<&Coordinate>)
        ensures
            r == (if index < self@.len() {
                Some(&self@[index as int])
            } else {
                None
            }),
    {
        if index < self.coordinates.len() {
            Some(&self.coordinates[index])
        } else {
            None
        }
    }

    /// A copy with the coordinate at `index` replaced by `coordinate`.
    pub fn set_coordinate(&self, index: usize, coordinate: Coordinate) -> (r: Self)
        requires
            index < self@.len(),
        ensures
            r@ == self@.update(index as int, coordinate),
    {
        let mut coordinates = self.copy_coordinates();
        coordinates.set(index, coordinate);
        CoordinateSequence { coordinates }
    }

    /// A copy with `coordinate` appended.
    pub fn add_coordinate(&self, coordinate: Coordinate) -> (r: Self)
        ensures
            r@ == self@.push(coordinate),
    {
        let mut coordinates = self.copy_coordinates();
        coordinates.push(coordinate);
        CoordinateSequence { coordinates }
    }

    fn copy_coordinates(&self) -> (r: Vec<Coordinate>)
        ensures
            r@ == self@,
    {
        let n = self.coordinates.len();
        let mut r: Vec<Coordinate> = Vec::with_capacity(n);
        let mut i: usize = 0;
        while i < n
            invariant
                n == self@.len(),
                i <= n,
                r@ == self@.subrange(0, i as int),
            decreases n - i,
        {
            r.push(self.coordinates[i]);
            i += 1;
            assert(r@ =~= self@.subrange(0, i as int));
        }
        assert(r@ =~= self@);
        r
    }

    /// The number of coordinates.
    pub fn len(&self) -> (r: usize)
        ensures
            r == self@.len(),
    {
        self.coordinates.len()
    }

    /// Whether there are no coordinates.
    pub fn is_empty(&self) -> (r: bool)
        ensures
            r == (self@.len() == 0),
    {
        self.coordinates.len() == 0
    }

    /// Whether two positions hold structurally equal coordinates; one pass
    /// over the sequence, stopping at the first repeat.
    pub fn has_duplicates(&self) -> (r: bool)
        ensures
            r == has_duplicate_in(self@),
    {
        let s = Ghost(self@);
        let n = self.coordinates.len();
        let mut seen = CoordinateSet::with_capacity(n);
        let mut i: usize = 0;
        assert(seen@ =~= prefix_keys(s@, 0));
        while i < n
            invariant
                s@ == self@,
                n == s@.len(),
                i <= n,
                seen.wf(),
                seen.planar_positions() <= i,
                seen@ == prefix_keys(s@, i as int),
                forall|a: int, b: int|
                    0 <= a < b < i ==> !spatial_equal(#[trigger] s@[a]@, #[trigger] s@[b]@),
            decreases n - i,
        {
            let c = &self.coordinates[i];
            if !seen.insert(c) {
                proof {
                    let a = choose|a: int| 0 <= a < i && key_of(#[trigger] s@[a]@) == key_of(c@);
                    lemma_key_of_exact(s@[a]@, c@);
                    assert(spatial_equal(s@[a]@, s@[i as int]@));
                }
                return true;
            }
            proof {
                assert forall|a: int, b: int|
                    0 <= a < b < i + 1 implies !spatial_equal(
                    #[trigger] s@[a]@,
                    #[trigger] s@[b]@,
                ) by {
                    if b == i {
                        lemma_key_of_exact(s@[a]@, s@[b]@);
                        assert(prefix_keys(s@, i as int).contains(key_of(s@[a]@)));
                    }
                }
                assert forall|q: (u64, u64, u64)|
                    seen@.contains(q) == #[trigger] prefix_keys(s@, i + 1).contains(q) by {
                    if q == key_of(s@[i as int]@) {
                        assert(prefix_keys(s@, i + 1).contains(q));
                    } else if prefix_keys(s@, i + 1).contains(q) {
                        let a = choose|a: int| 0 <= a < i + 1 && key_of(#[trigger] s@[a]@) == q;
                        assert(prefix_keys(s@, i as int).contains(q));
                    }
                }
                assert(seen@ =~= prefix_keys(s@, i + 1));
            }
            i += 1;
        }
        false
    }

    /// Whether the sequence has at least two coordinates and its first and
    /// last are structurally equal.
    pub fn is_closed(&self) -> (r: bool)
        ensures
            r == closed_in(self@),
    {
        if self.coordinates.len() < 2 {
            return false;
        }
        self.coordinates[0].equals_3d(&self.coordinates[self.coordinates.len() - 1])
    }
}

} // verus!
