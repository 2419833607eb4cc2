//! Footprint computation and severity classification.
//!
//! A quantity of activity (hours, liters, kWh per day) and an emission
//! factor (kg CO2 per unit) are fixed-point values in hundredths. Their
//! product, a mass of CO2, therefore carries four decimal places: the
//! fields below ending in `_e4` hold ten-thousandths of a kilogram.

use vstd::prelude::*;

use crate::category::Category;

verus! {

/// kg CO2 per hour of device usage, in hundredths (0.05 kg).
pub const ELECTRONICS_FACTOR_CENTI: u32 = 5;

/// kg CO2 per liter of fuel, in hundredths (2.31 kg).
pub const VEHICLES_FACTOR_CENTI: u32 = 231;

/// kg CO2 per kWh of electricity, in hundredths (0.45 kg).
pub const HOUSEHOLD_FACTOR_CENTI: u32 = 45;

/// The per-category emission factors, each in hundredths of a kilogram of
/// CO2 per unit of activity. Built once at the start of a session and never
/// mutated.
#[derive(Clone, Copy, Debug, PartialEq, Eq, Structural)]
pub struct EmissionFactors {
    pub electronics: u32,
    pub vehicles: u32,
    pub household: u32,
}

impl EmissionFactors {
    /// Every emission factor is positive.
    pub open spec fn wf(self) -> bool {
        self.electronics > 0 && self.vehicles > 0 && self.household > 0
    }

    /// The factor that applies to a category.
    pub open spec fn spec_factor(self, category: Category) -> u32 {
        match category {
            Category::Electronics => self.electronics,
            Category::Vehicles => self.vehicles,
            Category::Household => self.household,
        }
    }

    /// The factors the calculator starts with.
    pub fn standard() -> (r: EmissionFactors)
        ensures
            r.electronics == ELECTRONICS_FACTOR_CENTI,
            r.vehicles == VEHICLES_FACTOR_CENTI,
            r.household == HOUSEHOLD_FACTOR_CENTI,
            r.wf(),
    {
        EmissionFactors {
            electronics: ELECTRONICS_FACTOR_CENTI,
            vehicles: VEHICLES_FACTOR_CENTI,
            household: HOUSEHOLD_FACTOR_CENTI,
        }
    }

    /// Looks up the factor for a category.
    pub fn factor(&self, category: Category) -> (r: u32)
        ensures
            r == self.spec_factor(category),
    {
        match category {
            Category::Electronics => self.electronics,
            Category::Vehicles => self.vehicles,
            Category::Household => self.household,
        }
    }
}

/// A computed footprint: CO2 mass per day and per week, in ten-thousandths
/// of a kilogram. Derived per invocation, never persisted.
#[derive(Clone, Copy, Debug, PartialEq, Eq, Structural)]
pub struct FootprintResult {
    pub daily_e4: i64,
    pub weekly_e4: i64,
}

/// Daily CO2 mass (in 1e-4 kg): quantity times emission factor, both in
/// hundredths.
pub open spec fn spec_daily(quantity_centi: int, factor_centi: int) -> int {
    quantity_centi * factor_centi
}

/// Weekly CO2 mass (in 1e-4 kg): seven times the daily mass.
pub open spec fn spec_weekly(quantity_centi: int, factor_centi: int) -> int {
    7 * spec_daily(quantity_centi, factor_centi)
}

/// Computes the daily and weekly footprint of a quantity of activity under
/// an emission factor. Returns `None` exactly when the weekly mass does not
/// fit an `i64`.
pub fn compute_footprint(quantity_centi: i64, factor_centi: u32) -> (r: Option<FootprintResult>)
    ensures
        r.is_some() <==> i64::MIN <= spec_weekly(quantity_centi as int, factor_centi as int)
            <= i64::MAX,
        r matches Some(fp) ==> {
            &&& fp.daily_e4 == spec_daily(quantity_centi as int, factor_centi as int)
            &&& fp.weekly_e4 == spec_weekly(quantity_centi as int, factor_centi as int)
            &&& fp.weekly_e4 == 7 * fp.daily_e4
        },
{
    match quantity_centi.checked_mul(factor_centi as i64) {
        None => None,
        Some(daily) => match daily.checked_mul(7) {
            None => None,
            Some(weekly) => Some(FootprintResult { daily_e4: daily, weekly_e4: weekly }),
        },
    }
}

/// The qualitative severity of a weekly footprint.
#[derive(Clone, Copy, Debug, PartialEq, Eq, Structural)]
pub enum SeverityTier {
    Low,
    Moderate,
    High,
    VeryHigh,
}

/// Upper bound of the Low tier for electronics: 0.7 kg CO2 per week.
pub const ELECTRONICS_LOW_E4: i64 = 7000;

/// Upper bound of the Moderate tier for electronics: 2.1 kg CO2 per week.
pub const ELECTRONICS_MODERATE_E4: i64 = 21000;

/// Upper bound of the High tier for electronics: 4.2 kg CO2 per week.
pub const ELECTRONICS_HIGH_E4: i64 = 42000;

/// Upper bound of the Low tier for vehicles: 32.2 kg CO2 per week.
pub const VEHICLES_LOW_E4: i64 = 322000;

/// Upper bound of the Moderate tier for vehicles: 80.5 kg CO2 per week.
pub const VEHICLES_MODERATE_E4: i64 = 805000;

/// Upper bound of the High tier for vehicles: 161.7 kg CO2 per week.
pub const VEHICLES_HIGH_E4: i64 = 1617000;

/// Upper bound of the Low tier for household use: 15.75 kg CO2 per week.
pub const HOUSEHOLD_LOW_E4: i64 = 157500;

/// Upper bound of the Moderate tier for household use: 31.5 kg CO2 per week.
pub const HOUSEHOLD_MODERATE_E4: i64 = 315000;

/// Upper bound of the High tier for household use: 63.0 kg CO2 per week.
pub const HOUSEHOLD_HIGH_E4: i64 = 630000;

/// Upper bound of the Low tier for a category, in 1e-4 kg per week.
pub open spec fn low_threshold(category: Category) -> int {
    match category {
        Category::Electronics => ELECTRONICS_LOW_E4 as int,
        Category::Vehicles => VEHICLES_LOW_E4 as int,
        Category::Household => HOUSEHOLD_LOW_E4 as int,
    }
}

/// Upper bound of the Moderate tier for a category, in 1e-4 kg per week.
pub open spec fn moderate_threshold(category: Category) -> int {
    match category {
        Category::Electronics => ELECTRONICS_MODERATE_E4 as int,
        Category::Vehicles => VEHICLES_MODERATE_E4 as int,
        Category::Household => HOUSEHOLD_MODERATE_E4 as int,
    }
}

/// Upper bound of the High tier for a category, in 1e-4 kg per week.
pub open spec fn high_threshold(category: Category) -> int {
    match category {
        Category::Electronics => ELECTRONICS_HIGH_E4 as int,
        Category::Vehicles => VEHICLES_HIGH_E4 as int,
        Category::Household => HOUSEHOLD_HIGH_E4 as int,
    }
}

/// The severity of a weekly CO2 mass (in 1e-4 kg) under a category's
/// thresholds. Each threshold is an inclusive upper bound; above the
/// highest the tier is VeryHigh.
pub open spec fn spec_classify(weekly_e4: int, category: Category) -> SeverityTier {
    if weekly_e4 <= low_threshold(category) {
        SeverityTier::Low
    } else if weekly_e4 <= moderate_threshold(category) {
        SeverityTier::Moderate
    } else if weekly_e4 <= high_threshold(category) {
        SeverityTier::High
    } else {
        SeverityTier::VeryHigh
    }
}

/// Classifies a weekly footprint into its severity tier.
pub fn classify(weekly_e4: i64, category: Category) -> (r: SeverityTier)
    ensures
        r == spec_classify(weekly_e4 as int, category),
{
    let (low, moderate, high): (i64, i64, i64) = match category {
        Category::Electronics => (ELECTRONICS_LOW_E4, ELECTRONICS_MODERATE_E4, ELECTRONICS_HIGH_E4),
        Category::Vehicles => (VEHICLES_LOW_E4, VEHICLES_MODERATE_E4, VEHICLES_HIGH_E4),
        Category::Household => (HOUSEHOLD_LOW_E4, HOUSEHOLD_MODERATE_E4, HOUSEHOLD_HIGH_E4),
    };
    if weekly_e4 <= low {
        SeverityTier::Low
    } else if weekly_e4 <= moderate {
        SeverityTier::Moderate
    } else if weekly_e4 <= high {
        SeverityTier::High
    } else {
        SeverityTier::VeryHigh
    }
}

/// Classification depends on the weekly mass and the category alone, and
/// every tier boundary is inclusive: a weekly mass equal to a threshold
/// falls in the tier below it, and one unit of 1e-4 kg more falls in the
/// tier above.
pub proof fn lemma_classification_boundaries(category: Category)
    ensures
        spec_classify(low_threshold(category), category) == SeverityTier::Low,
        spec_classify(low_threshold(category) + 1, category) == SeverityTier::Moderate,
        spec_classify(moderate_threshold(category), category) == SeverityTier::Moderate,
        spec_classify(moderate_threshold(category) + 1, category) == SeverityTier::High,
        spec_classify(high_threshold(category), category) == SeverityTier::High,
        spec_classify(high_threshold(category) + 1, category) == SeverityTier::VeryHigh,
{
}

} // verus!
