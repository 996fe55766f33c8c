use monrs::units::UnitScale;

#[test]
fn unit_scale_picks_largest_whole_unit() {
    assert_eq!(UnitScale::new(0), UnitScale::Plain);
    assert_eq!(UnitScale::new(999), UnitScale::Plain);
    assert_eq!(UnitScale::new(1000), UnitScale::Kilo);
    assert_eq!(UnitScale::new(999_999), UnitScale::Kilo);
    assert_eq!(UnitScale::new(1_000_000), UnitScale::Mega);
    assert_eq!(UnitScale::new(999_999_999), UnitScale::Mega);
    assert_eq!(UnitScale::new(1_000_000_000), UnitScale::Giga);
    assert_eq!(UnitScale::new(u64::MAX), UnitScale::Giga);
}

#[test]
fn unit_scale_divisors() {
    assert_eq!(UnitScale::Giga.divisor(), 1_000_000_000);
    assert_eq!(UnitScale::Mega.divisor(), 1_000_000);
    assert_eq!(UnitScale::Kilo.divisor(), 1_000);
    assert_eq!(UnitScale::Plain.divisor(), 1);
}
