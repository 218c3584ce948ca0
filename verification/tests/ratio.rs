use brewcode::number_theory::greatest_common_divisor;
use brewcode::ratio::{Ratio, LIMIT};

fn frac(n: i64, d: i64) -> Ratio {
    Ratio::new(n, d).unwrap()
}

#[test]
fn gcd_of_small_numbers() {
    assert_eq!(greatest_common_divisor(12, 18), 6);
    assert_eq!(greatest_common_divisor(18, 12), 6);
    assert_eq!(greatest_common_divisor(17, 5), 1);
    assert_eq!(greatest_common_divisor(0, 7), 7);
    assert_eq!(greatest_common_divisor(7, 0), 7);
    assert_eq!(greatest_common_divisor(0, 0), 0);
}

#[test]
fn gcd_of_large_numbers() {
    let a: u128 = 1 << 100;
    let b: u128 = 3 * (1 << 90);
    assert_eq!(greatest_common_divisor(a, b), 1 << 90);
}

#[test]
fn new_brings_to_lowest_terms() {
    let r = frac(2, 4);
    assert_eq!(r.numer(), 1);
    assert_eq!(r.denom(), 2);
    assert_eq!(r, frac(1, 2));
    assert_eq!(frac(800, 600), frac(4, 3));
}

#[test]
fn new_keeps_the_sign_in_the_numerator() {
    let r = frac(1, -2);
    assert_eq!(r.numer(), -1);
    assert_eq!(r.denom(), 2);
    let s = frac(-3, -6);
    assert_eq!(s.numer(), 1);
    assert_eq!(s.denom(), 2);
}

#[test]
fn new_refuses_a_zero_denominator() {
    assert!(Ratio::new(1, 0).is_none());
    assert!(Ratio::new(0, 0).is_none());
}

#[test]
fn zero_has_denominator_one() {
    let z = frac(0, 17);
    assert_eq!(z.numer(), 0);
    assert_eq!(z.denom(), 1);
    assert_eq!(z, Ratio::zero());
    assert!(z.is_zero());
    assert!(!z.is_positive());
}

#[test]
fn new_at_the_edge_of_the_range() {
    assert!(Ratio::new(i64::MIN, 1).is_none());
    assert!(Ratio::new(1, i64::MIN).is_none());
    let half = frac(i64::MIN, 2);
    assert_eq!(half.numer(), -(1i64 << 62));
    assert_eq!(half.denom(), 1);
    let most = frac(LIMIT, 1);
    assert_eq!(most.numer(), i64::MAX);
    let least = frac(-LIMIT, 1);
    assert_eq!(least.numer(), -i64::MAX);
    let unit = frac(i64::MIN, i64::MIN);
    assert_eq!(unit, Ratio::one());
}

#[test]
fn from_int_is_the_integer() {
    let r = Ratio::from_int(-7);
    assert_eq!(r.numer(), -7);
    assert_eq!(r.denom(), 1);
    assert_eq!(Ratio::one().numer(), 1);
    assert_eq!(Ratio::from_int(i32::MIN).numer(), i32::MIN as i64);
}

#[test]
fn sum_of_fractions() {
    assert_eq!(frac(1, 2).checked_add(&frac(1, 3)), Some(frac(5, 6)));
    assert_eq!(frac(1, 6).checked_add(&frac(1, 3)), Some(frac(1, 2)));
    assert_eq!(frac(1, 2).checked_add(&frac(-1, 2)), Some(Ratio::zero()));
}

#[test]
fn difference_of_fractions() {
    assert_eq!(frac(1, 2).checked_sub(&frac(1, 3)), Some(frac(1, 6)));
    assert_eq!(frac(1, 3).checked_sub(&frac(1, 2)), Some(frac(-1, 6)));
}

#[test]
fn product_of_fractions() {
    assert_eq!(frac(2, 3).checked_mul(&frac(3, 4)), Some(frac(1, 2)));
    assert_eq!(frac(-2, 3).checked_mul(&frac(3, 2)), Some(Ratio::from_int(-1)));
    assert_eq!(frac(11, 10).checked_mul(&frac(11, 10)), Some(frac(121, 100)));
}

#[test]
fn quotient_of_fractions() {
    assert_eq!(frac(1, 2).checked_div(&frac(1, 4)), Some(Ratio::from_int(2)));
    assert_eq!(frac(1, 2).checked_div(&frac(-1, 4)), Some(Ratio::from_int(-2)));
    assert_eq!(frac(-3, 4).checked_div(&frac(-3, 8)), Some(Ratio::from_int(2)));
}

#[test]
fn division_by_zero_is_refused() {
    assert_eq!(frac(1, 2).checked_div(&Ratio::zero()), None);
    assert_eq!(Ratio::zero().checked_div(&Ratio::zero()), None);
}

#[test]
fn sum_that_does_not_fit() {
    let most = frac(LIMIT, 1);
    assert_eq!(most.checked_add(&Ratio::one()), None);
    assert_eq!(most.checked_add(&Ratio::from_int(-1)), Some(frac(LIMIT - 1, 1)));
    let tiny = frac(1, LIMIT);
    assert_eq!(tiny.checked_add(&frac(1, 2)), None);
}

#[test]
fn product_that_does_not_fit() {
    let big = frac(1 << 40, 1);
    assert_eq!(big.checked_mul(&big), None);
    let small = frac(1, 1 << 40);
    assert_eq!(small.checked_mul(&small), None);
    assert_eq!(big.checked_mul(&small), Some(Ratio::one()));
}

#[test]
fn product_that_fits_only_in_lowest_terms() {
    let a = frac(1 << 40, 3);
    let b = frac(3, 1 << 40);
    assert_eq!(a.checked_mul(&b), Some(Ratio::one()));
    let c = frac(LIMIT, 2);
    assert_eq!(c.checked_mul(&Ratio::from_int(2)), Some(frac(LIMIT, 1)));
    assert_eq!(c.checked_mul(&Ratio::from_int(4)), None);
}

#[test]
fn quotient_that_does_not_fit() {
    let big = frac(1 << 40, 1);
    let small = frac(1, 1 << 40);
    assert_eq!(big.checked_div(&small), None);
    assert_eq!(small.checked_div(&big), None);
}

#[test]
fn negation() {
    assert_eq!(frac(1, 2).neg(), frac(-1, 2));
    assert_eq!(frac(-1, 2).neg(), frac(1, 2));
    assert_eq!(Ratio::zero().neg(), Ratio::zero());
    assert_eq!(frac(LIMIT, 1).neg().numer(), -LIMIT);
}

#[test]
fn order_of_fractions() {
    assert!(frac(1, 3).lt(&frac(1, 2)));
    assert!(!frac(1, 2).lt(&frac(1, 3)));
    assert!(!frac(1, 2).lt(&frac(2, 4)));
    assert!(frac(-1, 2).lt(&frac(-1, 3)));
    assert!(frac(-LIMIT, 1).lt(&frac(LIMIT, 1)));
    assert!(frac(LIMIT - 1, LIMIT).lt(&Ratio::one()));
}

#[test]
fn equality_of_values() {
    assert!(frac(2, 4).same(&frac(1, 2)));
    assert!(!frac(2, 5).same(&frac(1, 2)));
    assert!(frac(-2, 4).same(&frac(1, -2)));
}

#[test]
fn sign_of_fractions() {
    assert!(frac(1, 2).is_positive());
    assert!(!frac(-1, 2).is_positive());
    assert!(!frac(-1, 2).is_zero());
    assert!(frac(1, -2).neg().is_positive());
}

#[test]
fn equal_values_are_equal_fractions() {
    let a = frac(6, -8);
    let b = frac(-3, 4);
    assert!(a.same(&b));
    assert_eq!(a, b);
    let c = frac(3, 4);
    assert!(!a.same(&c));
    assert_ne!(a, c);
}
