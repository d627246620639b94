use rsiss::units::Micros;
use rsiss::units::MICROS_PER_UNIT;

#[test]
fn a_unit_has_a_million_micros() {
    assert_eq!(MICROS_PER_UNIT, 1_000_000);
    assert_eq!(Micros::from_units(417), Some(Micros::from_raw(417_000_000)));
    assert_eq!(Micros::from_units(-90), Some(Micros::from_raw(-90_000_000)));
    assert_eq!(Micros::from_units(0), Some(Micros::from_raw(0)));
}

#[test]
fn units_that_do_not_fit_are_refused() {
    assert_eq!(Micros::from_units(i64::MAX), None);
    assert_eq!(Micros::from_units(i64::MIN), None);
    assert_eq!(Micros::from_units(9_223_372_036_855), None);
    assert_eq!(
        Micros::from_units(9_223_372_036_854),
        Some(Micros::from_raw(9_223_372_036_854_000_000))
    );
    assert_eq!(
        Micros::from_units(-9_223_372_036_854),
        Some(Micros::from_raw(-9_223_372_036_854_000_000))
    );
    assert_eq!(Micros::from_units(-9_223_372_036_855), None);
}

#[test]
fn whole_units_round_towards_minus_infinity() {
    assert_eq!(Micros::from_raw(417_500_000).whole_units(), 417);
    assert_eq!(Micros::from_raw(429_999_999).whole_units(), 429);
    assert_eq!(Micros::from_raw(430_000_000).whole_units(), 430);
    assert_eq!(Micros::from_raw(0).whole_units(), 0);
    assert_eq!(Micros::from_raw(999_999).whole_units(), 0);
    assert_eq!(Micros::from_raw(-1).whole_units(), -1);
    assert_eq!(Micros::from_raw(-999_999).whole_units(), -1);
    assert_eq!(Micros::from_raw(-1_000_000).whole_units(), -1);
    assert_eq!(Micros::from_raw(-1_000_001).whole_units(), -2);
    assert_eq!(Micros::from_raw(i64::MAX).whole_units(), 9_223_372_036_854);
    assert_eq!(Micros::from_raw(i64::MIN).whole_units(), -9_223_372_036_855);
}

#[test]
fn whole_units_agree_with_floating_point_floor() {
    for raw in [-2_500_000i64, -2_000_000, -1_999_999, -1, 0, 1, 1_999_999, 2_000_000, 371_999_999]
    {
        let expected = (raw as f64 / 1_000_000.0).floor() as i64;
        assert_eq!(Micros::from_raw(raw).whole_units(), expected, "raw {}", raw);
    }
}
