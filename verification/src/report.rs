//! The text the session prints: report lines, severity labels, and the
//! fixed mitigation advice for each category.

use vstd::prelude::*;

use crate::category::Category;
use crate::fixed::spec_format_kg;
use crate::fixed::format_kg_e4;
use crate::footprint::SeverityTier;

verus! {

/// The label a severity tier is printed under.
pub open spec fn spec_tier_label(tier: SeverityTier) -> Seq<char> {
    match tier {
        SeverityTier::Low => "LOW"@,
        SeverityTier::Moderate => "MODERATE"@,
        SeverityTier::High => "HIGH"@,
        SeverityTier::VeryHigh => "VERY HIGH"@,
    }
}

/// The label a severity tier is printed under.
pub fn tier_label(tier: SeverityTier) -> (r: String)
    ensures
        r@ == spec_tier_label(tier),
{
    match tier {
        SeverityTier::Low => String::from_str("LOW"),
        SeverityTier::Moderate => String::from_str("MODERATE"),
        SeverityTier::High => String::from_str("HIGH"),
        SeverityTier::VeryHigh => String::from_str("VERY HIGH"),
    }
}

/// The activity a category's footprint is attributed to in the report
/// lines.
pub open spec fn spec_activity_noun(category: Category) -> Seq<char> {
    match category {
        Category::Electronics => "electronics usage"@,
        Category::Vehicles => "vehicle fuel consumption"@,
        Category::Household => "household energy consumption"@,
    }
}

/// The activity a category's footprint is attributed to in the report
/// lines.
pub fn activity_noun(category: Category) -> (r: String)
    ensures
        r@ == spec_activity_noun(category),
{
    match category {
        Category::Electronics => String::from_str("electronics usage"),
        Category::Vehicles => String::from_str("vehicle fuel consumption"),
        Category::Household => String::from_str("household energy consumption"),
    }
}

/// The word a category goes by in the classification line and the
/// mitigation header.
pub open spec fn spec_category_word(category: Category) -> Seq<char> {
    match category {
        Category::Electronics => "electronics"@,
        Category::Vehicles => "vehicle"@,
        Category::Household => "household"@,
    }
}

/// The word a category goes by in the classification line and the
/// mitigation header.
pub fn category_word(category: Category) -> (r: String)
    ensures
        r@ == spec_category_word(category),
{
    match category {
        Category::Electronics => String::from_str("electronics"),
        Category::Vehicles => String::from_str("vehicle"),
        Category::Household => String::from_str("household"),
    }
}

/// The line that reports a footprint over one period: the mass is printed
/// in kilograms with two decimal places.
pub open spec fn spec_report_line(category: Category, mass_e4: int, period: Seq<char>) -> Seq<
    char,
> {
    "Your estimated carbon footprint from "@ + spec_activity_noun(category) + " is "@
        + spec_format_kg(mass_e4) + " kg CO2 per "@ + period + "."@
}

/// The line that reports the daily footprint of a category, in kilograms
/// of CO2 with two decimal places.
pub fn daily_report_line(category: Category, daily_e4: i64) -> (r: String)
    ensures
        r@ == spec_report_line(category, daily_e4 as int, "day"@),
{
    report_line(category, daily_e4, "day")
}

/// The line that reports the weekly footprint of a category, in kilograms
/// of CO2 with two decimal places.
pub fn weekly_report_line(category: Category, weekly_e4: i64) -> (r: String)
    ensures
        r@ == spec_report_line(category, weekly_e4 as int, "week"@),
{
    report_line(category, weekly_e4, "week")
}

/// Builds a report line for one period.
fn report_line(category: Category, mass_e4: i64, period: &str) -> (r: String)
    ensures
        r@ == spec_report_line(category, mass_e4 as int, period@),
{
    let mut out = String::from_str("Your estimated carbon footprint from ");
    let noun = activity_noun(category);
    out.append(noun.as_str());
    out.append(" is ");
    let mass = format_kg_e4(mass_e4);
    out.append(mass.as_str());
    out.append(" kg CO2 per ");
    out.append(period);
    out.append(".");
    proof {
        assert(out@ =~= spec_report_line(category, mass_e4 as int, period@));
    }
    out
}

/// The line that classifies a category's footprint under a severity label.
pub open spec fn spec_classification_line(category: Category, tier: SeverityTier) -> Seq<char> {
    "Your "@ + spec_category_word(category) + " carbon footprint is "@ + spec_tier_label(tier)
        + "."@
}

/// The line that classifies a category's footprint under a severity label.
pub fn classification_line(category: Category, tier: SeverityTier) -> (r: String)
    ensures
        r@ == spec_classification_line(category, tier),
{
    let mut out = String::from_str("Your ");
    let word = category_word(category);
    out.append(word.as_str());
    out.append(" carbon footprint is ");
    let label = tier_label(tier);
    out.append(label.as_str());
    out.append(".");
    proof {
        assert(out@ =~= spec_classification_line(category, tier));
    }
    out
}

/// The message an invalid category selector is answered with.
pub open spec fn spec_invalid_choice_message() -> Seq<char> {
    "Invalid choice. Please enter E, V or H."@
}

/// The message an invalid category selector is answered with; the session
/// then ends normally.
pub fn invalid_choice_message() -> (r: String)
    ensures
        r@ == spec_invalid_choice_message(),
{
    String::from_str("Invalid choice. Please enter E, V or H.")
}

/// The header printed above a category's mitigation list.
pub open spec fn spec_mitigation_header(category: Category) -> Seq<char> {
    match category {
        Category::Electronics => "Ways to Reduce Your Electronics Carbon Footprint:"@,
        Category::Vehicles => "Ways to Reduce Your Vehicle Carbon Footprint:"@,
        Category::Household => "Ways to Reduce Your Household Carbon Footprint:"@,
    }
}

/// The header printed above a category's mitigation list.
pub fn mitigation_header(category: Category) -> (r: String)
    ensures
        r@ == spec_mitigation_header(category),
{
    match category {
        Category::Electronics => String::from_str(
            "Ways to Reduce Your Electronics Carbon Footprint:",
        ),
        Category::Vehicles => String::from_str("Ways to Reduce Your Vehicle Carbon Footprint:"),
        Category::Household => String::from_str(
            "Ways to Reduce Your Household Carbon Footprint:",
        ),
    }
}

/// The fixed, ordered mitigation advice for a category. Each category has
/// its own list and no other's.
pub open spec fn spec_strategies(category: Category) -> Seq<Seq<char>> {
    match category {
        Category::Electronics => seq![
            "Invest in energy-efficient appliances"@,
            "Minimize screen time and reduce power usage"@,
            "Unplug devices when not in use"@,
            "Use energy-efficient devices"@,
            "Turn off devices instead of leaving them on standby"@,
        ],
        Category::Vehicles => seq![
            "Use public transportation, carpooling, biking or walking"@,
            "Drive a fuel-efficient vehicle"@,
            "Maintain your vehicle regularly"@,
            "Avoid idling your vehicle"@,
            "Combine errands to reduce trips"@,
            "Switch to electric or hybrid vehicles"@,
        ],
        Category::Household => seq![
            "Switch to energy-efficient lighting like solar, LED or wind"@,
            "Use natural light and ventilation"@,
            "Use LED light bulbs and energy-efficient appliances"@,
            "Turn off lights when not in use"@,
            "Reduce heating and cooling usage"@,
            "Unplug devices when not in use"@,
            "Install solar panels or other renewable energy sources"@,
        ],
    }
}

/// The fixed, ordered mitigation advice for a category, one suggestion per
/// entry, in the order it is printed.
pub fn mitigation_strategies(category: Category) -> (r: Vec<String>)
    ensures
        r.deep_view() == spec_strategies(category),
{
    let mut v: Vec<String> = Vec::new();
    match category {
        Category::Electronics => {
            v.push(String::from_str("Invest in energy-efficient appliances"));
            v.push(String::from_str("Minimize screen time and reduce power usage"));
            v.push(String::from_str("Unplug devices when not in use"));
            v.push(String::from_str("Use energy-efficient devices"));
            v.push(String::from_str("Turn off devices instead of leaving them on standby"));
        },
        Category::Vehicles => {
            v.push(String::from_str("Use public transportation, carpooling, biking or walking"));
            v.push(String::from_str("Drive a fuel-efficient vehicle"));
            v.push(String::from_str("Maintain your vehicle regularly"));
            v.push(String::from_str("Avoid idling your vehicle"));
            v.push(String::from_str("Combine errands to reduce trips"));
            v.push(String::from_str("Switch to electric or hybrid vehicles"));
        },
        Category::Household => {
            v.push(String::from_str("Switch to energy-efficient lighting like solar, LED or wind"));
            v.push(String::from_str("Use natural light and ventilation"));
            v.push(String::from_str("Use LED light bulbs and energy-efficient appliances"));
            v.push(String::from_str("Turn off lights when not in use"));
            v.push(String::from_str("Reduce heating and cooling usage"));
            v.push(String::from_str("Unplug devices when not in use"));
            v.push(String::from_str("Install solar panels or other renewable energy sources"));
        },
    }
    proof {
        assert(v.deep_view() =~~= spec_strategies(category));
    }
    v
}

/// The three mitigation lists are pairwise distinct: no category shows
/// another category's list.
pub proof fn lemma_strategies_category_exclusive()
    ensures
        spec_strategies(Category::Electronics) != spec_strategies(Category::Vehicles),
        spec_strategies(Category::Vehicles) != spec_strategies(Category::Household),
        spec_strategies(Category::Electronics) != spec_strategies(Category::Household),
{
    assert(spec_strategies(Category::Electronics).len() == 5);
    assert(spec_strategies(Category::Vehicles).len() == 6);
    assert(spec_strategies(Category::Household).len() == 7);
}

} // verus!
