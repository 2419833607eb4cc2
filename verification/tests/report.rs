use ecostep::category::Category;
use ecostep::footprint::{EmissionFactors, SeverityTier};
use ecostep::report::{
    classification_line, daily_report_line, invalid_choice_message, mitigation_header,
    mitigation_strategies, tier_label, weekly_report_line,
};
use ecostep::session::{
    calc_intro_line, category_report, choice_prompt, quantity_prompt, welcome_lines,
};

#[test]
fn tier_labels() {
    assert_eq!(tier_label(SeverityTier::Low), "LOW");
    assert_eq!(tier_label(SeverityTier::Moderate), "MODERATE");
    assert_eq!(tier_label(SeverityTier::High), "HIGH");
    assert_eq!(tier_label(SeverityTier::VeryHigh), "VERY HIGH");
}

#[test]
fn invalid_choice_text() {
    assert_eq!(
        invalid_choice_message(),
        "Invalid choice. Please enter E, V or H."
    );
}

#[test]
fn electronics_report_lines() {
    assert_eq!(
        daily_report_line(Category::Electronics, 1500),
        "Your estimated carbon footprint from electronics usage is 0.15 kg CO2 per day."
    );
    assert_eq!(
        weekly_report_line(Category::Electronics, 10500),
        "Your estimated carbon footprint from electronics usage is 1.05 kg CO2 per week."
    );
    assert_eq!(
        classification_line(Category::Electronics, SeverityTier::Moderate),
        "Your electronics carbon footprint is MODERATE."
    );
}

#[test]
fn mitigation_lists_are_fixed_and_ordered() {
    let electronics = mitigation_strategies(Category::Electronics);
    assert_eq!(
        electronics,
        vec![
            "Invest in energy-efficient appliances".to_string(),
            "Minimize screen time and reduce power usage".to_string(),
            "Unplug devices when not in use".to_string(),
            "Use energy-efficient devices".to_string(),
            "Turn off devices instead of leaving them on standby".to_string(),
        ]
    );
    let vehicles = mitigation_strategies(Category::Vehicles);
    assert_eq!(
        vehicles,
        vec![
            "Use public transportation, carpooling, biking or walking".to_string(),
            "Drive a fuel-efficient vehicle".to_string(),
            "Maintain your vehicle regularly".to_string(),
            "Avoid idling your vehicle".to_string(),
            "Combine errands to reduce trips".to_string(),
            "Switch to electric or hybrid vehicles".to_string(),
        ]
    );
    let household = mitigation_strategies(Category::Household);
    assert_eq!(
        household,
        vec![
            "Switch to energy-efficient lighting like solar, LED or wind".to_string(),
            "Use natural light and ventilation".to_string(),
            "Use LED light bulbs and energy-efficient appliances".to_string(),
            "Turn off lights when not in use".to_string(),
            "Reduce heating and cooling usage".to_string(),
            "Unplug devices when not in use".to_string(),
            "Install solar panels or other renewable energy sources".to_string(),
        ]
    );
}

#[test]
fn mitigation_lists_are_category_exclusive() {
    let electronics = mitigation_strategies(Category::Electronics);
    let vehicles = mitigation_strategies(Category::Vehicles);
    let household = mitigation_strategies(Category::Household);
    assert_ne!(electronics, vehicles);
    assert_ne!(vehicles, household);
    assert_ne!(electronics, household);
    assert!(!electronics.contains(&"Drive a fuel-efficient vehicle".to_string()));
    assert!(!household.contains(&"Combine errands to reduce trips".to_string()));
    assert!(!vehicles.contains(&"Use natural light and ventilation".to_string()));
}

#[test]
fn mitigation_headers() {
    assert_eq!(
        mitigation_header(Category::Electronics),
        "Ways to Reduce Your Electronics Carbon Footprint:"
    );
    assert_eq!(
        mitigation_header(Category::Vehicles),
        "Ways to Reduce Your Vehicle Carbon Footprint:"
    );
    assert_eq!(
        mitigation_header(Category::Household),
        "Ways to Reduce Your Household Carbon Footprint:"
    );
}

#[test]
fn session_dialog_text() {
    let banner = welcome_lines();
    assert_eq!(banner.len(), 7);
    assert_eq!(
        banner[1],
        "Welcome to EcoStep - Your Personal Carbon Footprint Calculator"
    );
    assert_eq!(banner[6], "LET'S TAKE A STEP TOWARDS A GREENER FUTURE!");
    assert_eq!(
        choice_prompt(),
        "Enter your choice by typing a letter (E - electronics / V - vehicles / H - household): "
    );
    assert_eq!(
        calc_intro_line(Category::Vehicles),
        "EcoStep will now calculate your vehicle's carbon footprint!"
    );
    assert_eq!(
        quantity_prompt(Category::Electronics),
        "Enter the total hours of device usage per day:"
    );
    assert_eq!(
        quantity_prompt(Category::Vehicles),
        "Enter the liters of fuel consumed per day:"
    );
    assert_eq!(
        quantity_prompt(Category::Household),
        "Enter the total kWh of electricity used per day:"
    );
}

#[test]
fn vehicles_ten_liters_is_high_at_the_bound() {
    // 10 liters per day: 23.10 kg per day, 161.70 kg per week, classified
    // High because the bound is inclusive.
    let factors = EmissionFactors::standard();
    let lines = category_report(Category::Vehicles, 1000, &factors).unwrap();
    assert_eq!(
        lines[0],
        "Your estimated carbon footprint from vehicle fuel consumption is 23.10 kg CO2 per day."
    );
    assert_eq!(
        lines[1],
        "Your estimated carbon footprint from vehicle fuel consumption is 161.70 kg CO2 per week."
    );
    assert_eq!(lines[2], "Your vehicle carbon footprint is HIGH.");
    assert_eq!(lines[3], "Ways to Reduce Your Vehicle Carbon Footprint:");
    assert_eq!(lines.len(), 4 + 6);
}

#[test]
fn household_zero_kwh_is_low() {
    let factors = EmissionFactors::standard();
    let lines = category_report(Category::Household, 0, &factors).unwrap();
    assert_eq!(
        lines[0],
        "Your estimated carbon footprint from household energy consumption is 0.00 kg CO2 per day."
    );
    assert_eq!(
        lines[1],
        "Your estimated carbon footprint from household energy consumption is 0.00 kg CO2 per week."
    );
    assert_eq!(lines[2], "Your household carbon footprint is LOW.");
}

#[test]
fn electronics_three_hours_transcript() {
    let factors = EmissionFactors::standard();
    let lines = category_report(Category::Electronics, 300, &factors).unwrap();
    assert_eq!(
        lines[0],
        "Your estimated carbon footprint from electronics usage is 0.15 kg CO2 per day."
    );
    assert_eq!(
        lines[1],
        "Your estimated carbon footprint from electronics usage is 1.05 kg CO2 per week."
    );
    assert_eq!(lines[2], "Your electronics carbon footprint is MODERATE.");
    assert_eq!(lines[3], "Ways to Reduce Your Electronics Carbon Footprint:");
    assert_eq!(&lines[4..], &mitigation_strategies(Category::Electronics)[..]);
}

#[test]
fn report_overflow_is_reported() {
    let factors = EmissionFactors::standard();
    assert_eq!(category_report(Category::Vehicles, i64::MAX, &factors), None);
}
