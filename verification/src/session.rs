//! The session's fixed dialog and the one-shot report it produces.
//!
//! A session is a single linear pass: show the banner, read one category
//! selector, read one quantity, and print the report. Everything the
//! session says is built here; reading and printing the lines is left to
//! the caller.

use vstd::prelude::*;

use crate::category::Category;
use crate::footprint::EmissionFactors;
use crate::footprint::compute_footprint;
use crate::footprint::classify;
use crate::footprint::spec_daily;
use crate::footprint::spec_weekly;
use crate::footprint::spec_classify;
use crate::report::spec_report_line;
use crate::report::spec_classification_line;
use crate::report::spec_mitigation_header;
use crate::report::spec_strategies;
use crate::report::daily_report_line;
use crate::report::weekly_report_line;
use crate::report::classification_line;
use crate::report::mitigation_header;
use crate::report::mitigation_strategies;

verus! {

/// The banner a session opens with.
pub open spec fn spec_welcome_lines() -> Seq<Seq<char>> {
    seq![
        "============================================"@,
        "Welcome to EcoStep - Your Personal Carbon Footprint Calculator"@,
        "============================================"@,
        "EcoStep helps you track and reduce your carbon footprint by estimating your CO2 emissions "@,
        "from daily activities like electronics usage, vehicle fuel consumption and household energy use."@,
        "============================================"@,
        "LET'S TAKE A STEP TOWARDS A GREENER FUTURE!"@,
    ]
}

/// The banner a session opens with, one line per entry.
pub fn welcome_lines() -> (r: Vec<String>)
    ensures
        r.deep_view() == spec_welcome_lines(),
{
    let mut v: Vec<String> = Vec::new();
    v.push(String::from_str("============================================"));
    v.push(String::from_str("Welcome to EcoStep - Your Personal Carbon Footprint Calculator"));
    v.push(String::from_str("============================================"));
    v.push(String::from_str(
        "EcoStep helps you track and reduce your carbon footprint by estimating your CO2 emissions ",
    ));
    v.push(String::from_str(
        "from daily activities like electronics usage, vehicle fuel consumption and household energy use.",
    ));
    v.push(String::from_str("============================================"));
    v.push(String::from_str("LET'S TAKE A STEP TOWARDS A GREENER FUTURE!"));
    proof {
        assert(v.deep_view() =~~= spec_welcome_lines());
    }
    v
}

/// The prompt for the category selector.
pub open spec fn spec_choice_prompt() -> Seq<char> {
    "Enter your choice by typing a letter (E - electronics / V - vehicles / H - household): "@
}

/// The prompt for the category selector.
pub fn choice_prompt() -> (r: String)
    ensures
        r@ == spec_choice_prompt(),
{
    String::from_str(
        "Enter your choice by typing a letter (E - electronics / V - vehicles / H - household): ",
    )
}

/// The line announcing which footprint the session will calculate.
pub open spec fn spec_calc_intro_line(category: Category) -> Seq<char> {
    match category {
        Category::Electronics => "EcoStep will now calculate your electronics carbon footprint!"@,
        Category::Vehicles => "EcoStep will now calculate your vehicle's carbon footprint!"@,
        Category::Household => "EcoStep will now calculate your household's carbon footprint!"@,
    }
}

/// The line announcing which footprint the session will calculate.
pub fn calc_intro_line(category: Category) -> (r: String)
    ensures
        r@ == spec_calc_intro_line(category),
{
    match category {
        Category::Electronics => String::from_str(
            "EcoStep will now calculate your electronics carbon footprint!",
        ),
        Category::Vehicles => String::from_str(
            "EcoStep will now calculate your vehicle's carbon footprint!",
        ),
        Category::Household => String::from_str(
            "EcoStep will now calculate your household's carbon footprint!",
        ),
    }
}

/// The prompt for the quantity of a category's activity.
pub open spec fn spec_quantity_prompt(category: Category) -> Seq<char> {
    match category {
        Category::Electronics => "Enter the total hours of device usage per day:"@,
        Category::Vehicles => "Enter the liters of fuel consumed per day:"@,
        Category::Household => "Enter the total kWh of electricity used per day:"@,
    }
}

/// The prompt for the quantity of a category's activity.
pub fn quantity_prompt(category: Category) -> (r: String)
    ensures
        r@ == spec_quantity_prompt(category),
{
    match category {
        Category::Electronics => String::from_str("Enter the total hours of device usage per day:"),
        Category::Vehicles => String::from_str("Enter the liters of fuel consumed per day:"),
        Category::Household => String::from_str(
            "Enter the total kWh of electricity used per day:",
        ),
    }
}

/// Everything a session prints once a quantity is known: the daily and
/// weekly report lines, the classification line, the mitigation header,
/// then the category's mitigation advice in order.
pub open spec fn spec_category_report(category: Category, quantity_centi: int, factor_centi: int)
    -> Seq<Seq<char>> {
    let daily = spec_daily(quantity_centi, factor_centi);
    let weekly = spec_weekly(quantity_centi, factor_centi);
    seq![
        spec_report_line(category, daily, "day"@),
        spec_report_line(category, weekly, "week"@),
        spec_classification_line(category, spec_classify(weekly, category)),
        spec_mitigation_header(category),
    ] + spec_strategies(category)
}

/// Computes a category's footprint from a quantity in centi-units and
/// builds the whole report, one printed line per entry. Returns `None`
/// exactly when the weekly mass does not fit an `i64`.
pub fn category_report(category: Category, quantity_centi: i64, factors: &EmissionFactors) -> (r:
    Option<Vec<String>>)
    ensures
        r.is_some() <==> i64::MIN <= spec_weekly(
            quantity_centi as int,
            factors.spec_factor(category) as int,
        ) <= i64::MAX,
        r matches Some(lines) ==> lines.deep_view() == spec_category_report(
            category,
            quantity_centi as int,
            factors.spec_factor(category) as int,
        ),
{
    let factor = factors.factor(category);
    let fp = match compute_footprint(quantity_centi, factor) {
        None => {
            return None;
        },
        Some(fp) => fp,
    };
    let ghost full = spec_category_report(
        category,
        quantity_centi as int,
        factors.spec_factor(category) as int,
    );
    let mut lines: Vec<String> = Vec::new();
    lines.push(daily_report_line(category, fp.daily_e4));
    lines.push(weekly_report_line(category, fp.weekly_e4));
    let tier = classify(fp.weekly_e4, category);
    lines.push(classification_line(category, tier));
    lines.push(mitigation_header(category));
    proof {
        assert(lines@[0]@ == full[0]);
        assert(lines@[1]@ == full[1]);
        assert(lines@[2]@ == full[2]);
        assert(lines@[3]@ == full[3]);
    }
    let strategies = mitigation_strategies(category);
    proof {
        assert(strategies@.len() == spec_strategies(category).len());
    }
    let mut idx: usize = 0;
    while idx < strategies.len()
        invariant
            idx <= strategies.len(),
            strategies.deep_view() == spec_strategies(category),
            strategies@.len() == spec_strategies(category).len(),
            full == seq![full[0], full[1], full[2], full[3]] + spec_strategies(category),
            lines@.len() == 4 + idx,
            forall|i: int| 0 <= i < lines@.len() ==> #[trigger] lines@[i]@ == full[i],
        decreases strategies.len() - idx,
    {
        let line = strategies[idx].clone();
        proof {
            assert(strategies.deep_view()[idx as int] == strategies@[idx as int].deep_view());
            assert(line@ == spec_strategies(category)[idx as int]);
            assert(line@ == full[4 + idx as int]);
        }
        lines.push(line);
        idx = idx + 1;
    }
    proof {
        assert(lines.deep_view() =~~= full);
    }
    Some(lines)
}

} // verus!
