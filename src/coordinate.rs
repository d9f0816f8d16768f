use vstd::prelude::*;

use crate::ieee::{
    is_finite_bits, is_infinite_bits, is_nan_bits, same_value, is_finite, is_infinite, is_nan,
    values_equal,
};

pub mod coordinate_sequences;
pub mod coordinate_set;

verus! {

/// The ordinates of a coordinate as binary64 bit patterns: `(x, y, z)`.
pub type Ordinates = (u64, u64, u64);

/// Why a coordinate could not be built from the ordinates it was given.
#[derive(Debug, Clone, Copy, PartialEq, Eq, Structural)]
pub enum ConstructionError {
    /// Some ordinate is NaN.
    NaNValue,
    /// No ordinate is NaN, but some ordinate is infinite.
    InfiniteValue,
}

/// All three ordinates are finite.
pub open spec fn all_finite(m: Ordinates) -> bool {
    is_finite_bits(m.0) && is_finite_bits(m.1) && is_finite_bits(m.2)
}

/// What building a coordinate from `(x, y, z)` yields: the NaN check comes
/// first, then the infinity check.
pub open spec fn construction(x: u64, y: u64, z: u64) -> Result<Ordinates, ConstructionError> {
    if is_nan_bits(x) || is_nan_bits(y) || is_nan_bits(z) {
        Err(ConstructionError::NaNValue)
    } else if is_infinite_bits(x) || is_infinite_bits(y) || is_infinite_bits(z) {
        Err(ConstructionError::InfiniteValue)
    } else {
        Ok((x, y, z))
    }
}

/// Ordinate `i` of `m`: `0` is x, `1` is y, `2` is z.
pub open spec fn ordinate_of(m: Ordinates, i: int) -> u64 {
    if i == 0 {
        m.0
    } else if i == 1 {
        m.1
    } else {
        m.2
    }
}

/// `m` with ordinate `i` replaced by `v`.
pub open spec fn with_ordinate(m: Ordinates, i: int, v: u64) -> Ordinates {
    if i == 0 {
        (v, m.1, m.2)
    } else if i == 1 {
        (m.0, v, m.2)
    } else {
        (m.0, m.1, v)
    }
}

/// The planar projections are equal: x and y are equal values, z is ignored.
pub open spec fn planar_equal(a: Ordinates, b: Ordinates) -> bool {
    same_value(a.0, b.0) && same_value(a.1, b.1)
}

/// The coordinates are equal in all three ordinates. This is the structural
/// equality of coordinates, used by containers and duplicate detection.
pub open spec fn spatial_equal(a: Ordinates, b: Ordinates) -> bool {
    planar_equal(a, b) && same_value(a.2, b.2)
}

/// A planar coordinate built from finite `x` and `y` has a z of `+0.0`, and
/// that is also its ordinate `2`.
pub proof fn lemma_planar_z_is_zero(x: u64, y: u64)
    requires
        is_finite_bits(x),
        is_finite_bits(y),
    ensures
        construction(x, y, 0) is Ok,
        construction(x, y, 0)->Ok_0.2 == 0,
        ordinate_of(construction(x, y, 0)->Ok_0, 2) == 0,
{
    assert(is_finite_bits(0)) by (bit_vector);
}

/// For finite ordinates, reading ordinate `0`, `1` or `2` gives x, y or z;
/// replacing ordinate `i` by a finite value then reading it back gives that
/// value, and leaves the other two ordinates as they were.
pub proof fn lemma_ordinate_round_trip(m: Ordinates, i: int, v: u64)
    requires
        all_finite(m),
        0 <= i < 3,
        is_finite_bits(v),
    ensures
        ordinate_of(m, 0) == m.0,
        ordinate_of(m, 1) == m.1,
        ordinate_of(m, 2) == m.2,
        ({
            let n = with_ordinate(m, i, v);
            &&& construction(n.0, n.1, n.2) == Ok::<Ordinates, ConstructionError>(n)
            &&& ordinate_of(n, i) == v
            &&& forall|j: int| 0 <= j < 3 && j != i ==> ordinate_of(n, j) == ordinate_of(m, j)
        }),
{
}

/// Coordinates whose x and y are equal values are planar-equal, whatever
/// their z.
pub proof fn lemma_planar_equal_ignores_z(a: Ordinates, b: Ordinates)
    requires
        same_value(a.0, b.0),
        same_value(a.1, b.1),
    ensures
        planar_equal(a, b),
        planar_equal(a, (b.0, b.1, 0)),
{
}

/// Equality in three dimensions implies equality of the planar projections.
pub proof fn lemma_spatial_equal_implies_planar(a: Ordinates, b: Ordinates)
    ensures
        spatial_equal(a, b) ==> planar_equal(a, b),
{
}

/// Planar equality does not imply equality in three dimensions: two
/// coordinates may share x and y and differ in z.
pub proof fn lemma_planar_equal_not_spatial()
    ensures
        exists|a: Ordinates, b: Ordinates| planar_equal(a, b) && !spatial_equal(a, b),
{
    let a: Ordinates = (0, 0, 0);
    let b: Ordinates = (0, 0, 0x3ff0_0000_0000_0000);
    assert(!crate::ieee::is_zero_bits(0x3ff0_0000_0000_0000)) by (bit_vector);
    assert(planar_equal(a, b) && !spatial_equal(a, b));
}

/// Structural equality of coordinates is an equivalence relation.
pub proof fn lemma_spatial_equal_equivalence(a: Ordinates, b: Ordinates, c: Ordinates)
    ensures
        spatial_equal(a, a),
        spatial_equal(a, b) ==> spatial_equal(b, a),
        spatial_equal(a, b) && spatial_equal(b, c) ==> spatial_equal(a, c),
{
}

/// A coordinate may be built exactly from finite ordinates; otherwise NaN
/// is reported whenever some ordinate is NaN, and an infinite value is
/// reported when none is NaN but some is infinite.
pub proof fn lemma_construction_errors(x: u64, y: u64, z: u64)
    ensures
        construction(x, y, z) is Ok <==> all_finite((x, y, z)),
        construction(x, y, z) == Err::<Ordinates, ConstructionError>(ConstructionError::NaNValue)
            <==> (is_nan_bits(x) || is_nan_bits(y) || is_nan_bits(z)),
        construction(x, y, z) == Err::<Ordinates, ConstructionError>(
            ConstructionError::InfiniteValue,
        ) <==> (!(is_nan_bits(x) || is_nan_bits(y) || is_nan_bits(z)) && (is_infinite_bits(x)
            || is_infinite_bits(y) || is_infinite_bits(z))),
{
}

/// A location in 3D space; planar locations carry a z of `+0.0`.
///
/// Every coordinate holds finite ordinates only: the constructors refuse
/// NaN and infinities, and a coordinate is never changed in place.
#[derive(Debug, Clone, Copy)]
pub struct Coordinate {
    x: u64,
    y: u64,
    z: u64,
}

impl View for Coordinate {
    type V = Ordinates;

    closed spec fn view(&self) -> Ordinates {
        (self.x, self.y, self.z)
    }
}

/// The coordinate model of a construction result.
pub open spec fn outcome(r: Result<Coordinate, ConstructionError>) -> Result<Ordinates, ConstructionError> {
    match r {
        Ok(c) => Ok(c@),
        Err(e) => Err(e),
    }
}

impl Coordinate {
    #[verifier::type_invariant]
    spec fn finite(self) -> bool {
        all_finite(self@)
    }

    /// Builds a coordinate from three ordinates, refusing NaN and infinite
    /// values with the matching error.
    pub fn new(x: u64, y: u64, z: u64) -> (r: Result<Coordinate, ConstructionError>)
        ensures
            outcome(r) == construction(x, y, z),
    {
        if is_nan(x) || is_nan(y) || is_nan(z) {
            Err(ConstructionError::NaNValue)
        } else if is_infinite(x) || is_infinite(y) || is_infinite(z) {
            Err(ConstructionError::InfiniteValue)
        } else {
            Ok(Coordinate { x, y, z })
        }
    }

    /// Builds a planar coordinate, whose z is `+0.0`.
    pub fn new_2d(x: u64, y: u64) -> (r: Result<Coordinate, ConstructionError>)
        ensures
            outcome(r) == construction(x, y, 0),
    {
        Coordinate::new(x, y, 0)
    }

    /// Whether every ordinate is finite; always true of a built coordinate.
    pub fn is_valid(&self) -> (r: bool)
        ensures
            r == all_finite(self@),
            r,
    {
        proof {
            use_type_invariant(self);
        }
        is_finite(self.x) && is_finite(self.y) && is_finite(self.z)
    }

    /// The x ordinate.
    pub fn x(&self) -> (r: u64)
        ensures
            r == self@.0,
    {
        self.x
    }

    /// The y ordinate.
    pub fn y(&self) -> (r: u64)
        ensures
            r == self@.1,
    {
        self.y
    }

    /// The z ordinate; `+0.0` for a planar coordinate.
    pub fn z(&self) -> (r: u64)
        ensures
            r == self@.2,
    {
        self.z
    }

    /// Ordinate `ordinate`: `0` is x, `1` is y, `2` is z.
    pub fn get_ordinate(&self, ordinate: usize) -> (r: u64)
        requires
            ordinate < 3,
        ensures
            r == ordinate_of(self@, ordinate as int),
    {
        match ordinate {
            0 => self.x(),
            1 => self.y(),
            _ => self.z(),
        }
    }

    /// A new coordinate with x replaced by `new_x`.
    pub fn set_x(&self, new_x: u64) -> (r: Result<Coordinate, ConstructionError>)
        ensures
            outcome(r) == construction(new_x, self@.1, self@.2),
    {
        Coordinate::new(new_x, self.y(), self.z())
    }

    /// A new coordinate with y replaced by `new_y`.
    pub fn set_y(&self, new_y: u64) -> (r: Result<Coordinate, ConstructionError>)
        ensures
            outcome(r) == construction(self@.0, new_y, self@.2),
    {
        Coordinate::new(self.x(), new_y, self.z())
    }

    /// A new coordinate with z replaced by `new_z`.
    pub fn set_z(&self, new_z: u64) -> (r: Result<Coordinate, ConstructionError>)
        ensures
            outcome(r) == construction(self@.0, self@.1, new_z),
    {
        Coordinate::new(self.x(), self.y(), new_z)
    }

    /// A new coordinate with ordinate `ordinate` replaced by `new_value`.
    pub fn set_ordinate(&self, ordinate: usize, new_value: u64) -> (r: Result<
        Coordinate,
        ConstructionError,
    >)
        requires
            ordinate < 3,
        ensures
            ({
                let m = with_ordinate(self@, ordinate as int, new_value);
                outcome(r) == construction(m.0, m.1, m.2)
            }),
    {
        match ordinate {
            0 => self.set_x(new_value),
            1 => self.set_y(new_value),
            _ => self.set_z(new_value),
        }
    }

    /// Whether the planar projections of the two coordinates are equal.
    pub fn equals_2d(&self, other: &Coordinate) -> (r: bool)
        ensures
            r == planar_equal(self@, other@),
    {
        values_equal(self.x, other.x) && values_equal(self.y, other.y)
    }

    /// Whether the two coordinates are equal in x, y and z.
    pub fn equals_3d(&self, other: &Coordinate) -> (r: bool)
        ensures
            r == spatial_equal(self@, other@),
    {
        self.equals_2d(other) && values_equal(self.z, other.z)
    }
}

impl PartialEq for Coordinate {
    fn eq(&self, other: &Coordinate) -> (r: bool) {
        self.equals_3d(other)
    }
}

impl Eq for Coordinate {}

impl vstd::std_specs::cmp::PartialEqSpecImpl for Coordinate {
    open spec fn obeys_eq_spec() -> bool {
        true
    }

    open spec fn eq_spec(&self, other: &Coordinate) -> bool {
        spatial_equal(self@, other@)
    }
}

} // verus!
