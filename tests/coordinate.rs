use geoms::coordinate::{ConstructionError, Coordinate};
use geoms::ieee::{canonical, is_finite, is_infinite, is_nan, values_equal};

fn coord3(x: f64, y: f64, z: f64) -> Coordinate {
    Coordinate::new(x.to_bits(), y.to_bits(), z.to_bits()).unwrap()
}

#[test]
fn new_keeps_the_ordinates() {
    let c = coord3(3.0, 4.0, 5.0);
    assert_eq!(f64::from_bits(c.x()), 3.0);
    assert_eq!(f64::from_bits(c.y()), 4.0);
    assert_eq!(f64::from_bits(c.z()), 5.0);
    assert!(c.is_valid());
}

#[test]
fn new_refuses_nan() {
    let r = Coordinate::new(3.0f64.to_bits(), f64::NAN.to_bits(), 5.0f64.to_bits());
    assert_eq!(r.unwrap_err(), ConstructionError::NaNValue);
    let r = Coordinate::new(f64::INFINITY.to_bits(), 1.0f64.to_bits(), (-f64::NAN).to_bits());
    assert_eq!(r.unwrap_err(), ConstructionError::NaNValue);
}

#[test]
fn new_refuses_infinity() {
    let r = Coordinate::new(3.0f64.to_bits(), f64::INFINITY.to_bits(), 5.0f64.to_bits());
    assert_eq!(r.unwrap_err(), ConstructionError::InfiniteValue);
    let r = Coordinate::new_2d(f64::NEG_INFINITY.to_bits(), 0.0f64.to_bits());
    assert_eq!(r.unwrap_err(), ConstructionError::InfiniteValue);
}

#[test]
fn extreme_finite_values_are_accepted() {
    let c = coord3(f64::MAX, f64::MIN, f64::MIN_POSITIVE / 2.0);
    assert_eq!(f64::from_bits(c.x()), f64::MAX);
    assert_eq!(f64::from_bits(c.y()), f64::MIN);
    assert!(c.is_valid());
}

#[test]
fn planar_coordinate_has_zero_z() {
    let c = Coordinate::new_2d(10.0f64.to_bits(), 20.0f64.to_bits()).unwrap();
    assert_eq!(f64::from_bits(c.z()), 0.0);
    assert_eq!(f64::from_bits(c.get_ordinate(2)), 0.0);
    assert_eq!(c, coord3(10.0, 20.0, 0.0));
}

#[test]
fn get_ordinate_reads_x_y_z() {
    let c = coord3(3.0, 4.0, 5.0);
    assert_eq!(f64::from_bits(c.get_ordinate(0)), 3.0);
    assert_eq!(f64::from_bits(c.get_ordinate(1)), 4.0);
    assert_eq!(f64::from_bits(c.get_ordinate(2)), 5.0);
}

#[test]
fn set_x_y_z_return_new_coordinates() {
    let c = coord3(3.0, 4.0, 5.0);
    let n = c.set_x(6.0f64.to_bits()).unwrap();
    assert_eq!((f64::from_bits(n.x()), f64::from_bits(n.y()), f64::from_bits(n.z())), (6.0, 4.0, 5.0));
    let n = c.set_y(6.0f64.to_bits()).unwrap();
    assert_eq!((f64::from_bits(n.x()), f64::from_bits(n.y()), f64::from_bits(n.z())), (3.0, 6.0, 5.0));
    let n = c.set_z(4.0f64.to_bits()).unwrap();
    assert_eq!((f64::from_bits(n.x()), f64::from_bits(n.y()), f64::from_bits(n.z())), (3.0, 4.0, 4.0));
    assert_eq!(f64::from_bits(c.x()), 3.0);
}

#[test]
fn set_ordinate_replaces_one_ordinate() {
    let c = coord3(3.0, 4.0, 5.0);
    let n = c.set_ordinate(2, 6.0f64.to_bits()).unwrap();
    assert_eq!((f64::from_bits(n.x()), f64::from_bits(n.y()), f64::from_bits(n.z())), (3.0, 4.0, 6.0));
    for i in 0..3usize {
        let n = c.set_ordinate(i, 9.5f64.to_bits()).unwrap();
        assert_eq!(f64::from_bits(n.get_ordinate(i)), 9.5);
        for j in 0..3usize {
            if j != i {
                assert_eq!(n.get_ordinate(j), c.get_ordinate(j));
            }
        }
    }
}

#[test]
fn setters_refuse_non_finite_values() {
    let c = coord3(3.0, 4.0, 5.0);
    assert_eq!(c.set_x(f64::NAN.to_bits()).unwrap_err(), ConstructionError::NaNValue);
    assert_eq!(c.set_y(f64::INFINITY.to_bits()).unwrap_err(), ConstructionError::InfiniteValue);
    assert_eq!(c.set_ordinate(2, f64::NEG_INFINITY.to_bits()).unwrap_err(), ConstructionError::InfiniteValue);
}

#[test]
fn equals_2d_ignores_z() {
    assert!(coord3(1.0, 2.0, 5.0).equals_2d(&coord3(1.0, 2.0, 3.0)));
    assert!(!coord3(1.0, 2.0, 3.0).equals_2d(&coord3(3.0, 4.0, 5.0)));
    let planar = Coordinate::new_2d(1.0f64.to_bits(), 2.0f64.to_bits()).unwrap();
    assert!(planar.equals_2d(&coord3(1.0, 2.0, 7.0)));
}

#[test]
fn equals_3d_implies_equals_2d() {
    let a = coord3(1.0, 2.0, 3.0);
    let b = coord3(1.0, 2.0, 3.0);
    assert!(a.equals_3d(&b) && a.equals_2d(&b));
    let c = coord3(1.0, 2.0, 4.0);
    assert!(a.equals_2d(&c) && !a.equals_3d(&c));
    assert!(a == b);
    assert!(a != c);
}

#[test]
fn signed_zeros_are_equal() {
    let a = coord3(0.0, -0.0, 0.0);
    let b = coord3(-0.0, 0.0, -0.0);
    assert!(a.equals_2d(&b));
    assert!(a.equals_3d(&b));
    assert!(a == b);
}

#[test]
fn bit_pattern_classification() {
    assert!(is_nan(f64::NAN.to_bits()));
    assert!(!is_nan(f64::INFINITY.to_bits()));
    assert!(is_infinite(f64::NEG_INFINITY.to_bits()));
    assert!(!is_infinite(f64::MAX.to_bits()));
    assert!(is_finite(f64::MIN_POSITIVE.to_bits()));
    assert!(is_finite((-0.0f64).to_bits()));
    assert!(!is_finite(f64::INFINITY.to_bits()));
    assert!(values_equal(0.0f64.to_bits(), (-0.0f64).to_bits()));
    assert!(!values_equal(1.0f64.to_bits(), (-1.0f64).to_bits()));
    assert_eq!(canonical((-0.0f64).to_bits()), 0);
    assert_eq!(canonical(2.5f64.to_bits()), 2.5f64.to_bits());
}
