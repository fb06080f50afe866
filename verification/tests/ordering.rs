use chip_grid::{Chip, ConversionError, PartialOrdering, Point};
use std::cmp::Ordering;

fn chip(id: &str) -> Chip {
    Chip { id: String::from(id) }
}

fn flipped(o: PartialOrdering) -> PartialOrdering {
    match o {
        PartialOrdering::Less => PartialOrdering::Greater,
        PartialOrdering::Greater => PartialOrdering::Less,
        same => same,
    }
}

#[test]
fn point_equals_itself() {
    let p = Point { x: 1, y: 2 };
    assert_eq!(p.compare(&p), PartialOrdering::Equal);
    assert_eq!(p.partial_cmp(&p), Some(Ordering::Equal));
    let far = Point { x: i32::MIN, y: i32::MAX };
    assert_eq!(far.compare(&far), PartialOrdering::Equal);
}

#[test]
fn every_point_equals_itself() {
    for x in -3..13 {
        for y in -3..13 {
            let p = Point { x, y };
            assert_eq!(p.compare(&p), PartialOrdering::Equal);
        }
    }
}

#[test]
fn smaller_on_both_axes_is_less() {
    let p1 = Point { x: 1, y: 2 };
    let p2 = Point { x: 2, y: 3 };
    assert_eq!(p1.x.cmp(&p2.x), Ordering::Less);
    assert_eq!(p1.y.cmp(&p2.y), Ordering::Less);
    assert_eq!(p1.compare(&p2), PartialOrdering::Less);
    assert_eq!(p1.partial_cmp(&p2), Some(Ordering::Less));
    assert!(p1 < p2);
    assert!(p1 <= p2);
    assert!(!(p1 > p2));
    assert!(!(p1 >= p2));
    assert!(p1 != p2);
}

#[test]
fn greater_on_both_axes_is_greater() {
    let p1 = Point { x: 2, y: 3 };
    let p2 = Point { x: 1, y: 2 };
    assert_eq!(p1.compare(&p2), PartialOrdering::Greater);
    assert_eq!(p1.partial_cmp(&p2), Some(Ordering::Greater));
    assert!(p1 > p2);
    assert!(p1 >= p2);
    assert!(!(p1 < p2));
    assert!(!(p1 <= p2));
}

#[test]
fn discordant_axes_are_incomparable() {
    let a = Point { x: 1, y: 2 };
    let b = Point { x: 2, y: 1 };
    assert_eq!(a.compare(&b), PartialOrdering::Incomparable);
    assert_eq!(b.compare(&a), PartialOrdering::Incomparable);
    assert_eq!(a.partial_cmp(&b), None);
    assert!(!(a < b));
    assert!(!(a <= b));
    assert!(!(a > b));
    assert!(!(a >= b));
    assert!(a != b);
}

#[test]
fn a_tie_on_one_axis_is_incomparable() {
    let a = Point { x: 1, y: 2 };
    assert_eq!(a.compare(&Point { x: 1, y: 3 }), PartialOrdering::Incomparable);
    assert_eq!(a.compare(&Point { x: 1, y: 1 }), PartialOrdering::Incomparable);
    assert_eq!(a.compare(&Point { x: 2, y: 2 }), PartialOrdering::Incomparable);
    assert_eq!(a.compare(&Point { x: 0, y: 2 }), PartialOrdering::Incomparable);
    assert_eq!(a.partial_cmp(&Point { x: 1, y: 3 }), None);
}

#[test]
fn order_is_not_lexicographic() {
    let a = Point { x: 1, y: 9 };
    let b = Point { x: 2, y: 0 };
    assert!((a.x, a.y) < (b.x, b.y));
    assert!(!(a < b));
    assert_eq!(a.compare(&b), PartialOrdering::Incomparable);
}

#[test]
fn comparison_of_extreme_coordinates() {
    let low = Point { x: i32::MIN, y: i32::MIN };
    let high = Point { x: i32::MAX, y: i32::MAX };
    assert_eq!(low.compare(&high), PartialOrdering::Less);
    assert_eq!(high.compare(&low), PartialOrdering::Greater);
    let mixed = Point { x: i32::MIN, y: i32::MAX };
    assert_eq!(mixed.compare(&low), PartialOrdering::Incomparable);
    assert_eq!(mixed.compare(&high), PartialOrdering::Incomparable);
}

#[test]
fn greater_one_way_is_less_the_other() {
    for ax in -1..4 {
        for ay in -1..4 {
            for bx in -1..4 {
                for by in -1..4 {
                    let a = Point { x: ax, y: ay };
                    let b = Point { x: bx, y: by };
                    assert_eq!(b.compare(&a), flipped(a.compare(&b)));
                    assert_eq!(
                        a.compare(&b) == PartialOrdering::Greater,
                        b.compare(&a) == PartialOrdering::Less
                    );
                    assert_eq!(
                        a.compare(&b) == PartialOrdering::Less,
                        b.compare(&a) == PartialOrdering::Greater
                    );
                }
            }
        }
    }
}

#[test]
fn equal_means_the_same_point() {
    for ax in 0..3 {
        for ay in 0..3 {
            for bx in 0..3 {
                for by in 0..3 {
                    let a = Point { x: ax, y: ay };
                    let b = Point { x: bx, y: by };
                    assert_eq!(a.compare(&b) == PartialOrdering::Equal, a == b);
                }
            }
        }
    }
}

#[test]
fn less_is_transitive() {
    let a = Point { x: 0, y: 5 };
    let b = Point { x: 3, y: 6 };
    let c = Point { x: 4, y: 9 };
    assert_eq!(a.compare(&b), PartialOrdering::Less);
    assert_eq!(b.compare(&c), PartialOrdering::Less);
    assert_eq!(a.compare(&c), PartialOrdering::Less);
    assert_eq!(c.compare(&a), PartialOrdering::Greater);
}

#[test]
fn operators_follow_compare() {
    for ax in 0..3 {
        for ay in 0..3 {
            for bx in 0..3 {
                for by in 0..3 {
                    let a = Point { x: ax, y: ay };
                    let b = Point { x: bx, y: by };
                    let o = a.compare(&b);
                    assert_eq!(a < b, o == PartialOrdering::Less);
                    assert_eq!(a > b, o == PartialOrdering::Greater);
                    assert_eq!(
                        a <= b,
                        o == PartialOrdering::Less || o == PartialOrdering::Equal
                    );
                    assert_eq!(
                        a >= b,
                        o == PartialOrdering::Greater || o == PartialOrdering::Equal
                    );
                }
            }
        }
    }
}

#[test]
fn predicates_name_their_outcome() {
    assert!(PartialOrdering::Less.is_less());
    assert!(!PartialOrdering::Less.is_equal());
    assert!(!PartialOrdering::Less.is_greater());
    assert!(!PartialOrdering::Less.is_incomparable());

    assert!(!PartialOrdering::Equal.is_less());
    assert!(PartialOrdering::Equal.is_equal());
    assert!(!PartialOrdering::Equal.is_greater());
    assert!(!PartialOrdering::Equal.is_incomparable());

    assert!(!PartialOrdering::Greater.is_less());
    assert!(!PartialOrdering::Greater.is_equal());
    assert!(PartialOrdering::Greater.is_greater());
    assert!(!PartialOrdering::Greater.is_incomparable());

    assert!(!PartialOrdering::Incomparable.is_less());
    assert!(!PartialOrdering::Incomparable.is_equal());
    assert!(!PartialOrdering::Incomparable.is_greater());
    assert!(PartialOrdering::Incomparable.is_incomparable());
}

#[test]
fn chips_compare_as_their_points() {
    let p1 = Point { x: 1, y: 2 };
    let p2 = Point { x: 2, y: 3 };
    let c1 = Chip::try_from(p1).unwrap();
    let c2 = Chip::try_from(p2).unwrap();
    assert_eq!(c1.compare(&c2), Ok(PartialOrdering::Less));
    assert!(c1.compare(&c2).unwrap().is_less());
    assert_eq!(c2.compare(&c1), Ok(PartialOrdering::Greater));
    assert_eq!(c1.compare(&c1), Ok(PartialOrdering::Equal));
}

#[test]
fn chips_compare_by_cell_not_by_text() {
    // As text "B0" sorts before "B1"; as cells row '0' is the last row.
    assert_eq!(chip("A1").compare(&chip("B0")), Ok(PartialOrdering::Less));
    assert_eq!(chip("B0").compare(&chip("A1")), Ok(PartialOrdering::Greater));
    assert_eq!(chip("A0").compare(&chip("B1")), Ok(PartialOrdering::Incomparable));
    assert_eq!(chip("B3").compare(&chip("C2")), Ok(PartialOrdering::Incomparable));
    assert_eq!(chip("B3").compare(&chip("B4")), Ok(PartialOrdering::Incomparable));
}

#[test]
fn every_pair_of_chips_compares_as_its_points() {
    for ax in 0..10 {
        for ay in 0..10 {
            for bx in 0..10 {
                for by in 0..10 {
                    let a = Point { x: ax, y: ay };
                    let b = Point { x: bx, y: by };
                    let ca = Chip::try_from(a).unwrap();
                    let cb = Chip::try_from(b).unwrap();
                    assert_eq!(ca.compare(&cb), Ok(a.compare(&b)));
                }
            }
        }
    }
}

#[test]
fn malformed_chip_does_not_compare() {
    let good = chip("B3");
    assert_eq!(good.compare(&chip("")), Err(ConversionError::LookupMiss));
    assert_eq!(chip("").compare(&good), Err(ConversionError::LookupMiss));
    assert_eq!(good.compare(&chip("B3B")), Err(ConversionError::LookupMiss));
    assert_eq!(chip("K1").compare(&good), Err(ConversionError::LookupMiss));
    assert_eq!(chip("b3").compare(&chip("3B")), Err(ConversionError::LookupMiss));
    let bad = chip("Z9");
    assert_eq!(bad.compare(&bad), Err(ConversionError::LookupMiss));
}
