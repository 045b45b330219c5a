use mixology::points::{
    CountOutOfRange, MixologyPoints, Multiplier, FULL_TENTHS, PAIR_TENTHS, UNIT_TENTHS,
};

fn pts(m: u128, a: u128, l: u128) -> MixologyPoints {
    MixologyPoints { M: m, A: a, L: l }
}

#[test]
fn default_is_zero_on_every_axis() {
    assert_eq!(MixologyPoints::default(), pts(0, 0, 0));
}

#[test]
fn add_sums_axis_by_axis() {
    assert_eq!(pts(1, 2, 3).add(pts(10, 20, 30)), pts(11, 22, 33));
    assert_eq!(pts(0, 0, 0).add(pts(7, 0, 9)), pts(7, 0, 9));
}

#[test]
fn add_assign_sums_in_place() {
    let mut total = pts(5, 0, 1);
    total.add_assign(pts(30, 0, 0));
    total.add_assign(pts(0, 20, 10));
    assert_eq!(total, pts(35, 20, 11));
}

#[test]
fn add_reaches_the_largest_total() {
    let sum = pts(u128::MAX - 1, 0, 0).add(pts(1, 0, 0));
    assert_eq!(sum, pts(u128::MAX, 0, 0));
}

#[test]
fn mul_scales_and_rounds_each_axis_down() {
    let points = pts(20, 10, 5);
    assert_eq!(points.mul(Multiplier { tenths: 14 }), pts(28, 14, 7));
    assert_eq!(points.mul(Multiplier { tenths: 12 }), pts(24, 12, 6));
    assert_eq!(points.mul(Multiplier { tenths: 10 }), pts(20, 10, 5));
    assert_eq!(pts(1, 7, 9).mul(Multiplier { tenths: 14 }), pts(1, 9, 12));
    assert_eq!(pts(3, 4, 0).mul(Multiplier { tenths: 12 }), pts(3, 4, 0));
}

#[test]
fn mul_by_a_whole_number_multiplies() {
    assert_eq!(pts(10, 10, 10).mul(Multiplier::whole(3)), pts(30, 30, 30));
    assert_eq!(pts(24, 0, 7).mul(Multiplier::whole(2)), pts(48, 0, 14));
    assert_eq!(pts(24, 0, 7).mul(Multiplier::whole(0)), pts(0, 0, 0));
}

#[test]
fn mul_does_not_overflow_on_large_totals() {
    let large = u128::MAX / 14 * 10;
    let scaled = pts(large, 0, 0).mul(Multiplier { tenths: 14 });
    assert_eq!(scaled.M, large / 10 * 14);
    let same = pts(u128::MAX, u128::MAX - 1, 7).mul(Multiplier { tenths: 10 });
    assert_eq!(same, pts(u128::MAX, u128::MAX - 1, 7));
}

#[test]
fn whole_multiplier_is_ten_tenths_each() {
    assert_eq!(Multiplier::whole(0), Multiplier { tenths: 0 });
    assert_eq!(Multiplier::whole(1), Multiplier { tenths: 10 });
    assert_eq!(Multiplier::whole(3), Multiplier { tenths: 30 });
    assert_eq!(Multiplier::whole(255), Multiplier { tenths: 2550 });
}

#[test]
fn bonus_grows_with_the_number_of_potions() {
    assert_eq!(Multiplier::for_count(1), Ok(Multiplier { tenths: 10 }));
    assert_eq!(Multiplier::for_count(2), Ok(Multiplier { tenths: 12 }));
    assert_eq!(Multiplier::for_count(3), Ok(Multiplier { tenths: 14 }));
    assert_eq!(UNIT_TENTHS, 10);
    assert_eq!(PAIR_TENTHS, 12);
    assert_eq!(FULL_TENTHS, 14);
}

#[test]
fn no_bonus_for_a_count_that_no_order_has() {
    assert_eq!(Multiplier::for_count(0), Err(CountOutOfRange { count: 0 }));
    assert_eq!(Multiplier::for_count(4), Err(CountOutOfRange { count: 4 }));
    assert_eq!(Multiplier::for_count(255), Err(CountOutOfRange { count: 255 }));
}
