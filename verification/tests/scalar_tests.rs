use particles::scalar::{integer_sqrt, Scalar, LIMIT, SCALE};

fn whole(n: i32) -> Scalar {
    Scalar::from_int(n)
}

#[test]
fn from_int_scales_by_a_billion() {
    assert_eq!(whole(3).raw, 3 * SCALE);
    assert_eq!(whole(-7).raw, -7 * SCALE);
    assert_eq!(whole(0).raw, 0);
}

#[test]
fn sum_and_difference_are_exact_in_range() {
    assert_eq!(whole(10).add(whole(2)), whole(12));
    assert_eq!(whole(10).sub(whole(12)), whole(-2));
    assert_eq!(Scalar { raw: 1 }.add(Scalar { raw: -3 }), Scalar { raw: -2 });
}

#[test]
fn sum_clamps_at_the_limit() {
    let top = Scalar { raw: LIMIT };
    assert_eq!(top.add(whole(1)), top);
    assert_eq!(top.neg().sub(whole(1)), Scalar { raw: -LIMIT });
    assert_eq!(Scalar { raw: i64::MIN }.add(Scalar { raw: i64::MIN }), Scalar { raw: -LIMIT });
}

#[test]
fn negation_flips_the_sign() {
    assert_eq!(whole(5).neg(), whole(-5));
    assert_eq!(whole(-5).neg(), whole(5));
    assert_eq!(Scalar { raw: i64::MIN }.neg(), Scalar { raw: LIMIT });
}

#[test]
fn product_rounds_toward_zero() {
    assert_eq!(whole(3).mul(whole(4)), whole(12));
    assert_eq!(whole(-3).mul(whole(4)), whole(-12));
    assert_eq!(whole(-3).mul(whole(-4)), whole(12));
    // 0.000000003 * 0.5 = 0.0000000015, which rounds to 0.000000001
    assert_eq!(Scalar { raw: 3 }.mul(Scalar { raw: 500_000_000 }), Scalar { raw: 1 });
    assert_eq!(Scalar { raw: -3 }.mul(Scalar { raw: 500_000_000 }), Scalar { raw: -1 });
}

#[test]
fn product_clamps_at_the_limit() {
    let top = Scalar { raw: LIMIT };
    assert_eq!(top.mul(whole(2)), top);
    assert_eq!(top.mul(whole(-2)), Scalar { raw: -LIMIT });
}

#[test]
fn quotient_rounds_toward_zero() {
    assert_eq!(whole(12).div(whole(4)), whole(3));
    assert_eq!(whole(1).div(whole(3)), Scalar { raw: 333_333_333 });
    assert_eq!(whole(-1).div(whole(3)), Scalar { raw: -333_333_333 });
    assert_eq!(whole(1).div(whole(-3)), Scalar { raw: -333_333_333 });
    assert_eq!(whole(-1).div(whole(-3)), Scalar { raw: 333_333_333 });
    assert_eq!(whole(7).div(whole(7)), whole(1));
}

#[test]
fn quotient_clamps_at_the_limit() {
    assert_eq!(Scalar { raw: LIMIT }.div(Scalar { raw: 1 }), Scalar { raw: LIMIT });
    assert_eq!(Scalar { raw: LIMIT }.div(Scalar { raw: -1 }), Scalar { raw: -LIMIT });
}

#[test]
fn comparisons_follow_the_raw_values() {
    assert!(whole(1).lt(whole(2)));
    assert!(!whole(2).lt(whole(2)));
    assert!(whole(2).le(whole(2)));
    assert!(!whole(3).le(whole(2)));
    assert!(whole(-3).lt(whole(-2)));
}

#[test]
fn integer_sqrt_is_the_floor_of_the_root() {
    assert_eq!(integer_sqrt(0), 0);
    assert_eq!(integer_sqrt(1), 1);
    assert_eq!(integer_sqrt(3), 1);
    assert_eq!(integer_sqrt(4), 2);
    assert_eq!(integer_sqrt(24), 4);
    assert_eq!(integer_sqrt(25), 5);
    assert_eq!(integer_sqrt(1_000_000_000_000_000_000), 1_000_000_000);
    assert_eq!(integer_sqrt(u128::MAX), u64::MAX as u128);
}

#[test]
fn hypot_of_three_and_four_is_five() {
    assert_eq!(Scalar::hypot(whole(3), whole(4)), whole(5));
    assert_eq!(Scalar::hypot(whole(-3), whole(4)), whole(5));
    assert_eq!(Scalar::hypot(whole(0), whole(0)), whole(0));
    // the square root of two, rounded down to nine places
    assert_eq!(Scalar::hypot(whole(1), whole(1)), Scalar { raw: 1_414_213_562 });
}

#[test]
fn hypot_clamps_at_the_limit() {
    let top = Scalar { raw: LIMIT };
    assert_eq!(Scalar::hypot(top, top), top);
    assert_eq!(Scalar::hypot(Scalar { raw: i64::MIN }, Scalar { raw: 0 }), top);
}
