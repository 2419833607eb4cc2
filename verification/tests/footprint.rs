use ecostep::category::Category;
use ecostep::fixed::format_kg_e4;
use ecostep::footprint::{classify, compute_footprint, EmissionFactors, SeverityTier};

#[test]
fn standard_factors() {
    let factors = EmissionFactors::standard();
    assert_eq!(factors.electronics, 5);
    assert_eq!(factors.vehicles, 231);
    assert_eq!(factors.household, 45);
}

#[test]
fn daily_and_weekly_products() {
    // 3 hours of electronics: 0.15 kg per day, 1.05 kg per week.
    let fp = compute_footprint(300, 5).unwrap();
    assert_eq!(fp.daily_e4, 1500);
    assert_eq!(fp.weekly_e4, 10500);
    assert_eq!(fp.weekly_e4, 7 * fp.daily_e4);
}

#[test]
fn zero_quantity_gives_zero_footprint() {
    let fp = compute_footprint(0, 45).unwrap();
    assert_eq!(fp.daily_e4, 0);
    assert_eq!(fp.weekly_e4, 0);
}

#[test]
fn negative_quantity_is_accepted() {
    let fp = compute_footprint(-100, 5).unwrap();
    assert_eq!(fp.daily_e4, -500);
    assert_eq!(fp.weekly_e4, -3500);
}

#[test]
fn footprint_overflow_is_reported() {
    assert_eq!(compute_footprint(i64::MAX, 231), None);
    assert_eq!(compute_footprint(i64::MAX / 2, 2), None);
}

#[test]
fn electronics_boundaries_inclusive() {
    let c = Category::Electronics;
    assert_eq!(classify(7000, c), SeverityTier::Low);
    assert_eq!(classify(7001, c), SeverityTier::Moderate);
    assert_eq!(classify(21000, c), SeverityTier::Moderate);
    assert_eq!(classify(21001, c), SeverityTier::High);
    assert_eq!(classify(42000, c), SeverityTier::High);
    assert_eq!(classify(42001, c), SeverityTier::VeryHigh);
}

#[test]
fn vehicles_boundaries_inclusive() {
    let c = Category::Vehicles;
    assert_eq!(classify(322000, c), SeverityTier::Low);
    assert_eq!(classify(322001, c), SeverityTier::Moderate);
    assert_eq!(classify(805000, c), SeverityTier::Moderate);
    assert_eq!(classify(805001, c), SeverityTier::High);
    assert_eq!(classify(1617000, c), SeverityTier::High);
    assert_eq!(classify(1617001, c), SeverityTier::VeryHigh);
}

#[test]
fn household_boundaries_inclusive() {
    let c = Category::Household;
    assert_eq!(classify(157500, c), SeverityTier::Low);
    assert_eq!(classify(157501, c), SeverityTier::Moderate);
    assert_eq!(classify(315000, c), SeverityTier::Moderate);
    assert_eq!(classify(315001, c), SeverityTier::High);
    assert_eq!(classify(630000, c), SeverityTier::High);
    assert_eq!(classify(630001, c), SeverityTier::VeryHigh);
}

#[test]
fn zero_and_negative_masses_are_low() {
    assert_eq!(classify(0, Category::Household), SeverityTier::Low);
    assert_eq!(classify(-100, Category::Electronics), SeverityTier::Low);
}

#[test]
fn format_two_decimal_places() {
    assert_eq!(format_kg_e4(231000), "23.10");
    assert_eq!(format_kg_e4(1617000), "161.70");
    assert_eq!(format_kg_e4(0), "0.00");
    assert_eq!(format_kg_e4(1500), "0.15");
    assert_eq!(format_kg_e4(10500), "1.05");
    assert_eq!(format_kg_e4(123456), "12.35");
}

#[test]
fn format_rounds_ties_away_from_zero() {
    assert_eq!(format_kg_e4(50), "0.01");
    assert_eq!(format_kg_e4(49), "0.00");
    assert_eq!(format_kg_e4(-50), "-0.01");
    assert_eq!(format_kg_e4(150), "0.02");
}

#[test]
fn format_negative_masses_keep_their_sign() {
    assert_eq!(format_kg_e4(-3), "-0.00");
    assert_eq!(format_kg_e4(-231000), "-23.10");
}
