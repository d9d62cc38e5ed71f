use hex_coord::hex::{Hex, OverflowError};

#[test]
fn distance_between_two_nearby_cells() {
    let a = Hex::new(-3, 0);
    let b = Hex::new(-2, 1);
    assert_eq!(a.distance_from(&b), 2);
}

#[test]
fn equal_when_components_agree() {
    assert!(Hex::new(1, -1) == Hex::new(1, -1));
    assert!(!(Hex::new(1, -1) == Hex::new(0, -1)));
    assert!(Hex::new(1, -1) != Hex::new(1, 0));
}

#[test]
fn addition_is_component_wise() {
    let sum = Hex::new(1, 2) + Hex::new(-1, 3);
    assert!(sum == Hex::new(0, 5));
    assert_eq!(sum.q(), 0);
    assert_eq!(sum.r(), 5);
    assert_eq!(sum.s(), -5);
}

#[test]
fn subtraction_is_component_wise() {
    let diff = Hex::new(1, 2) - Hex::new(-1, 3);
    assert!(diff == Hex::new(2, -1));
    assert_eq!(diff.q(), 2);
    assert_eq!(diff.r(), -1);
    assert_eq!(diff.s(), -1);
}

#[test]
fn accessors_return_the_components() {
    let h = Hex::new(4, -7);
    assert_eq!(h.q(), 4);
    assert_eq!(h.r(), -7);
    assert_eq!(h.s(), 3);
    let origin = Hex::new(0, 0);
    assert_eq!((origin.q(), origin.r(), origin.s()), (0, 0, 0));
}

#[test]
fn components_sum_to_zero() {
    let samples: [(i32, i32); 8] = [
        (0, 0),
        (1, 2),
        (-3, 0),
        (-2, 1),
        (1000, -999),
        (i32::MAX, 0),
        (i32::MIN, 1),
        (i32::MAX, i32::MIN),
    ];
    for (q, r) in samples {
        let h = Hex::new(q, r);
        assert_eq!(h.q() as i64 + h.r() as i64 + h.s() as i64, 0);
        assert_eq!(h.q(), q);
        assert_eq!(h.r(), r);
    }
}

#[test]
fn sums_and_differences_stay_on_the_grid() {
    let cells = [Hex::new(1, 2), Hex::new(-1, 3), Hex::new(0, 0), Hex::new(-40, 17)];
    for a in cells {
        for b in cells {
            let sum = a + b;
            let diff = a - b;
            assert_eq!(sum.q() + sum.r() + sum.s(), 0);
            assert_eq!(diff.q() + diff.r() + diff.s(), 0);
            assert_eq!(sum.s(), a.s() + b.s());
            assert_eq!(diff.s(), a.s() - b.s());
            assert!(sum - b == a);
            assert!(diff + b == a);
        }
    }
}

#[test]
fn distance_to_itself_is_zero() {
    for h in [Hex::new(0, 0), Hex::new(5, -9), Hex::new(i32::MAX, i32::MIN)] {
        assert_eq!(h.distance_from(&h), 0);
    }
}

#[test]
fn distance_is_zero_only_between_equal_cells() {
    let cells = [Hex::new(0, 0), Hex::new(0, 1), Hex::new(1, 0), Hex::new(1, -1)];
    for a in cells {
        for b in cells {
            assert_eq!(a.distance_from(&b) == 0, a == b);
        }
    }
}

#[test]
fn distance_is_symmetric() {
    let cells = [Hex::new(-3, 0), Hex::new(-2, 1), Hex::new(7, 7), Hex::new(0, -12)];
    for a in cells {
        for b in cells {
            assert_eq!(a.distance_from(&b), b.distance_from(&a));
        }
    }
}

#[test]
fn distance_obeys_the_triangle_inequality() {
    let cells = [
        Hex::new(-3, 0),
        Hex::new(-2, 1),
        Hex::new(7, 7),
        Hex::new(0, -12),
        Hex::new(0, 0),
    ];
    for a in cells {
        for b in cells {
            for c in cells {
                let direct = a.distance_from(&c) as u64;
                let detour = a.distance_from(&b) as u64 + b.distance_from(&c) as u64;
                assert!(direct <= detour);
            }
        }
    }
}

#[test]
fn distance_is_the_largest_absolute_difference() {
    let origin = Hex::new(0, 0);
    assert_eq!(origin.distance_from(&Hex::new(3, 0)), 3);
    assert_eq!(origin.distance_from(&Hex::new(0, -4)), 4);
    assert_eq!(origin.distance_from(&Hex::new(2, 3)), 5);
    assert_eq!(origin.distance_from(&Hex::new(2, -3)), 3);
    assert_eq!(Hex::new(1, 1).distance_from(&Hex::new(-1, -1)), 4);
}

#[test]
fn neighbours_are_at_distance_one() {
    let centre = Hex::new(10, -4);
    let offsets = [(1, 0), (1, -1), (0, -1), (-1, 0), (-1, 1), (0, 1)];
    for (dq, dr) in offsets {
        let next = centre + Hex::new(dq, dr);
        assert_eq!(centre.distance_from(&next), 1);
    }
}

#[test]
fn distance_between_far_corners_fits() {
    let a = Hex::new(i32::MAX, -i32::MAX);
    let b = Hex::new(-i32::MAX, i32::MAX);
    assert_eq!(a.distance_from(&b), 4_294_967_294);
    let c = Hex::new(i32::MAX, i32::MIN);
    let d = Hex::new(i32::MIN, i32::MAX);
    assert_eq!(c.distance_from(&d), u32::MAX);
}

#[test]
fn try_new_accepts_what_fits() {
    assert_eq!(Hex::try_new(1, 2), Ok(Hex::new(1, 2)));
    let edge = Hex::try_new(i32::MIN, 1).unwrap();
    assert_eq!(edge.s(), i32::MAX);
    let other_edge = Hex::try_new(i32::MAX, 1).unwrap();
    assert_eq!(other_edge.s(), i32::MIN);
    let both = Hex::try_new(i32::MIN, 0);
    assert_eq!(both, Err(OverflowError));
}

#[test]
fn try_new_reports_overflow() {
    assert_eq!(Hex::try_new(i32::MIN, 0), Err(OverflowError));
    assert_eq!(Hex::try_new(i32::MIN, i32::MIN), Err(OverflowError));
    assert_eq!(Hex::try_new(i32::MAX, i32::MAX), Err(OverflowError));
    assert_eq!(Hex::try_new(i32::MAX, 2), Err(OverflowError));
    assert_eq!(Hex::try_new(-1, i32::MIN), Err(OverflowError));
}

#[test]
fn checked_add_matches_plus() {
    let a = Hex::new(1, 2);
    let b = Hex::new(-1, 3);
    assert_eq!(a.checked_add(b), Ok(Hex::new(0, 5)));
    assert_eq!(a.checked_add(b), Ok(a + b));
    let edge = Hex::new(i32::MAX - 1, 0).checked_add(Hex::new(1, 0));
    assert_eq!(edge, Ok(Hex::new(i32::MAX, 0)));
}

#[test]
fn checked_add_reports_overflow() {
    let big = Hex::new(i32::MAX, 0);
    assert_eq!(big.checked_add(Hex::new(1, 0)), Err(OverflowError));
    assert_eq!(big.checked_add(Hex::new(1, -1)), Err(OverflowError));
    let low = Hex::new(0, i32::MAX);
    assert_eq!(low.checked_add(Hex::new(0, 1)), Err(OverflowError));
    assert_eq!(low.checked_add(Hex::new(1, 0)), Ok(Hex::new(1, i32::MAX)));
    assert_eq!(low.checked_add(Hex::new(2, 0)), Err(OverflowError));
    let deep = Hex::new(0, i32::MIN);
    assert_eq!(deep.checked_add(Hex::new(0, -1)), Err(OverflowError));
    let derived_at_top = Hex::new(-1, i32::MIN + 2);
    assert_eq!(derived_at_top.s(), i32::MAX);
    assert_eq!(derived_at_top.checked_add(Hex::new(-1, 0)), Err(OverflowError));
}

#[test]
fn checked_sub_matches_minus() {
    let a = Hex::new(1, 2);
    let b = Hex::new(-1, 3);
    assert_eq!(a.checked_sub(b), Ok(Hex::new(2, -1)));
    assert_eq!(a.checked_sub(b), Ok(a - b));
    assert_eq!(a.checked_sub(a), Ok(Hex::new(0, 0)));
}

#[test]
fn checked_sub_reports_overflow() {
    let big = Hex::new(i32::MAX, 0);
    assert_eq!(big.checked_sub(Hex::new(-1, 0)), Err(OverflowError));
    let low = Hex::new(0, i32::MAX);
    assert_eq!(low.checked_sub(Hex::new(0, -1)), Err(OverflowError));
    assert_eq!(low.checked_sub(Hex::new(-1, 0)), Ok(Hex::new(1, i32::MAX)));
    assert_eq!(low.checked_sub(Hex::new(-2, 0)), Err(OverflowError));
    let deep = Hex::new(0, i32::MIN);
    assert_eq!(deep.checked_sub(Hex::new(0, 1)), Err(OverflowError));
    assert_eq!(Hex::new(0, 0).checked_sub(Hex::new(i32::MIN, 1)), Err(OverflowError));
}
