use wallet_service::money::{Money, MAX_MANTISSA, MAX_SCALE};

fn m(mantissa: i128, scale: u32) -> Money {
    Money::new(mantissa, scale).unwrap()
}

#[test]
fn new_accepts_the_decimal_range() {
    assert!(Money::new(MAX_MANTISSA, MAX_SCALE).is_some());
    assert!(Money::new(-MAX_MANTISSA, 0).is_some());
    assert!(Money::new(MAX_MANTISSA + 1, 0).is_none());
    assert!(Money::new(-MAX_MANTISSA - 1, 0).is_none());
    assert!(Money::new(1, MAX_SCALE + 1).is_none());
    let x = m(-12345678, 7);
    assert_eq!(x.mantissa(), -12345678);
    assert_eq!(x.scale(), 7);
}

#[test]
fn zero_is_not_positive() {
    let z = Money::zero();
    assert_eq!(z.mantissa(), 0);
    assert_eq!(z.scale(), 0);
    assert!(!z.is_positive());
    assert!(!m(0, 2).is_positive());
    assert!(!m(-1, 2).is_positive());
    assert!(m(1, 28).is_positive());
}

#[test]
fn comparison_is_by_value() {
    // 1.5 < 2
    assert!(m(15, 1).less_than(&m(2, 0)));
    assert!(!m(2, 0).less_than(&m(15, 1)));
    // 2.00 and 2 are equal
    assert!(!m(200, 2).less_than(&m(2, 0)));
    assert!(!m(2, 0).less_than(&m(200, 2)));
    // -0.5 < -0.01
    assert!(m(-5, 1).less_than(&m(-1, 2)));
    // a huge integer is above a fraction with a large scale
    assert!(m(1, 28).less_than(&m(MAX_MANTISSA, 0)));
}

#[test]
fn add_at_equal_scale_is_exact() {
    let s = m(10000, 2).checked_add(&m(2550, 2)).unwrap();
    assert_eq!((s.mantissa(), s.scale()), (12550, 2));
    let d = m(10000, 2).checked_sub(&m(2550, 2)).unwrap();
    assert_eq!((d.mantissa(), d.scale()), (7450, 2));
}

#[test]
fn zero_operand_gives_the_other() {
    let s = Money::zero().checked_add(&m(10000, 2)).unwrap();
    assert_eq!((s.mantissa(), s.scale()), (10000, 2));
    let s = m(10000, 2).checked_add(&Money::zero()).unwrap();
    assert_eq!((s.mantissa(), s.scale()), (10000, 2));
    let d = Money::zero().checked_sub(&m(2550, 2)).unwrap();
    assert_eq!((d.mantissa(), d.scale()), (-2550, 2));
}

#[test]
fn unequal_scales_are_rescaled() {
    // 1.5 + 2.25 = 3.75
    let s = m(15, 1).checked_add(&m(225, 2)).unwrap();
    assert_eq!((s.mantissa(), s.scale()), (375, 2));
    // 1 - 0.001 = 0.999
    let d = m(1, 0).checked_sub(&m(1, 3)).unwrap();
    assert_eq!((d.mantissa(), d.scale()), (999, 3));
}

#[test]
fn overflow_gives_none() {
    assert!(m(MAX_MANTISSA, 0).checked_add(&m(1, 0)).is_none());
    assert!(m(-MAX_MANTISSA, 0).checked_sub(&m(1, 0)).is_none());
    let s = m(MAX_MANTISSA, 0).checked_add(&m(-MAX_MANTISSA, 0)).unwrap();
    assert_eq!(s.mantissa(), 0);
}

#[test]
fn scales_far_apart_are_exact_when_the_result_fits() {
    // 1 + 1e-25 = 1.0000000000000000000000000001
    let s = m(1, 0).checked_add(&m(1, 25)).unwrap();
    assert_eq!((s.mantissa(), s.scale()), (10i128.pow(25) + 1, 25));
    let d = m(1, 0).checked_sub(&m(1, 25)).unwrap();
    assert_eq!((d.mantissa(), d.scale()), (10i128.pow(25) - 1, 25));
}

#[test]
fn rounding_keeps_the_sign() {
    // MAX (scale 1) + 0.05: the exact sum needs more than 96 bits, so it is rounded
    let s = m(MAX_MANTISSA, 1).checked_add(&m(5, 2)).unwrap();
    assert!(s.mantissa() >= 0);
    assert!(s.scale() <= 1);
    let d = m(MAX_MANTISSA, 0).checked_sub(&m(1, 28)).unwrap();
    assert!(d.mantissa() >= 0);
}
