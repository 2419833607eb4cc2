//! EcoStep: a carbon-footprint estimator.
//!
//! The library computes a daily and weekly CO2 footprint for one of three
//! activity categories (electronics usage, vehicle fuel consumption,
//! household electricity use), classifies the weekly footprint into a
//! severity tier, and provides the report text and the fixed mitigation
//! advice for each category.
//!
//! Masses of CO2 are held as fixed-point integers: a quantity of activity
//! and an emission factor carry two decimal places (hundredths), so a
//! product of the two carries four (ten-thousandths of a kilogram).

pub mod category;
pub mod fixed;
pub mod footprint;
pub mod report;
pub mod session;
