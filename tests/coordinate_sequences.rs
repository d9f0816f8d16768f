use geoms::coordinate::coordinate_sequences::CoordinateSequence;
use geoms::coordinate::coordinate_set::CoordinateSet;
use geoms::coordinate::Coordinate;

fn coord(x: f64, y: f64) -> Coordinate {
    Coordinate::new_2d(x.to_bits(), y.to_bits()).unwrap()
}

fn coord3(x: f64, y: f64, z: f64) -> Coordinate {
    Coordinate::new(x.to_bits(), y.to_bits(), z.to_bits()).unwrap()
}

#[test]
fn sequence_keeps_its_coordinates_in_order() {
    let sequence = CoordinateSequence::new(vec![coord(0.0, 0.0), coord(1.0, 1.0), coord(2.0, 2.0)]);
    assert_eq!(sequence.get_coordinates(), &vec![coord(0.0, 0.0), coord(1.0, 1.0), coord(2.0, 2.0)]);
    assert_eq!(sequence.get_coordinate(1), Some(&coord(1.0, 1.0)));
    assert_eq!(sequence.get_coordinate(3), None);
    assert_eq!(sequence.len(), 3);
    assert!(!sequence.is_empty());
    assert!(CoordinateSequence::new(vec![]).is_empty());
}

#[test]
fn set_coordinate_returns_a_changed_copy() {
    let sequence = CoordinateSequence::new(vec![coord(0.0, 0.0), coord(1.0, 1.0), coord(2.0, 2.0)]);
    let new_sequence = sequence.set_coordinate(1, coord(3.0, 3.0));
    assert_eq!(new_sequence.get_coordinate(1), Some(&coord(3.0, 3.0)));
    assert_eq!(new_sequence.len(), 3);
    assert_eq!(sequence.get_coordinate(1), Some(&coord(1.0, 1.0)));
}

#[test]
fn add_coordinate_returns_a_longer_copy() {
    let sequence = CoordinateSequence::new(vec![coord(0.0, 0.0)]);
    let new_sequence = sequence.add_coordinate(coord(5.0, 6.0));
    assert_eq!(new_sequence.len(), 2);
    assert_eq!(new_sequence.get_coordinate(1), Some(&coord(5.0, 6.0)));
    assert_eq!(sequence.len(), 1);
}

#[test]
fn distinct_coordinates_have_no_duplicates() {
    let sequence = CoordinateSequence::new(vec![coord(0.0, 0.0), coord(1.0, 1.0), coord(2.0, 2.0)]);
    assert!(!sequence.has_duplicates());
    assert!(!CoordinateSequence::new(vec![]).has_duplicates());
    assert!(!CoordinateSequence::new(vec![coord(1.0, 1.0)]).has_duplicates());
}

#[test]
fn closed_ring_has_duplicates() {
    let sequence = CoordinateSequence::new(vec![coord(0.0, 0.0), coord(1.0, 1.0), coord(0.0, 0.0)]);
    assert!(sequence.has_duplicates());
    assert!(sequence.is_closed());
}

#[test]
fn duplicates_follow_structural_equality() {
    let same_xy = CoordinateSequence::new(vec![coord3(1.0, 1.0, 1.0), coord3(1.0, 1.0, 2.0)]);
    assert!(!same_xy.has_duplicates());
    let zeros = CoordinateSequence::new(vec![coord(0.0, 3.0), coord(-0.0, 3.0)]);
    assert!(zeros.has_duplicates());
    let adjacent = CoordinateSequence::new(vec![coord(0.0, 0.0), coord(7.0, 8.0), coord(7.0, 8.0)]);
    assert!(adjacent.has_duplicates());
}

#[test]
fn short_sequences_are_never_closed() {
    assert!(!CoordinateSequence::new(vec![]).is_closed());
    assert!(!CoordinateSequence::new(vec![coord(1.0, 1.0)]).is_closed());
    assert!(CoordinateSequence::new(vec![coord(1.0, 1.0), coord(1.0, 1.0)]).is_closed());
}

#[test]
fn open_sequence_is_not_closed() {
    let sequence = CoordinateSequence::new(vec![coord(0.0, 0.0), coord(1.0, 1.0), coord(2.0, 2.0)]);
    assert!(!sequence.is_closed());
    let differs_in_z = CoordinateSequence::new(vec![coord3(0.0, 0.0, 0.0), coord3(1.0, 1.0, 0.0), coord3(0.0, 0.0, 1.0)]);
    assert!(!differs_in_z.is_closed());
}

#[test]
fn coordinate_set_reports_new_and_repeated_coordinates() {
    let mut set = CoordinateSet::with_capacity(4);
    assert!(!set.contains(&coord(1.0, 2.0)));
    assert!(set.insert(&coord(1.0, 2.0)));
    assert!(set.contains(&coord(1.0, 2.0)));
    assert!(!set.insert(&coord(1.0, 2.0)));
    assert!(set.insert(&coord3(1.0, 2.0, 3.0)));
    assert!(set.insert(&coord(2.0, 1.0)));
    assert!(!set.insert(&coord(-0.0 + 1.0, 2.0)));
    assert!(set.insert(&coord(0.0, 0.0)));
    assert!(!set.insert(&coord(-0.0, -0.0)));
    assert!(!set.contains(&coord3(2.0, 1.0, 3.0)));
}
