//! The activity categories and the selector that picks one.

use vstd::prelude::*;
use vstd::string::StrSliceExecFns;

verus! {

/// An activity whose CO2 footprint can be estimated.
#[derive(Clone, Copy, Debug, PartialEq, Eq, Structural)]
pub enum Category {
    /// Device usage, measured in hours per day.
    Electronics,
    /// Fuel consumption, measured in liters per day.
    Vehicles,
    /// Electricity use, measured in kWh per day.
    Household,
}

/// Which category a single selector character stands for; the selector is
/// case-insensitive.
pub open spec fn selector_char_category(c: char) -> Option<Category> {
    if c == 'E' || c == 'e' {
        Some(Category::Electronics)
    } else if c == 'V' || c == 'v' {
        Some(Category::Vehicles)
    } else if c == 'H' || c == 'h' {
        Some(Category::Household)
    } else {
        None
    }
}

/// Which category a whole selector line stands for: exactly one character,
/// one of E/V/H in either case. Anything else is an invalid choice.
pub open spec fn selector_category(s: Seq<char>) -> Option<Category> {
    if s.len() == 1 {
        selector_char_category(s[0])
    } else {
        None
    }
}

/// Reads a category selector as the session does: a single letter E, V or H,
/// upper or lower case. Returns `None` on any other input.
pub fn parse_selector(s: &str) -> (r: Option<Category>)
    ensures
        r == selector_category(s@),
{
    let n = s.unicode_len();
    if n != 1 {
        return None;
    }
    let c = s.get_char(0);
    if c == 'E' || c == 'e' {
        Some(Category::Electronics)
    } else if c == 'V' || c == 'v' {
        Some(Category::Vehicles)
    } else if c == 'H' || c == 'h' {
        Some(Category::Household)
    } else {
        None
    }
}

/// Selector characters route case-insensitively: a lower-case selector picks
/// the same category as its upper-case form.
pub proof fn lemma_selector_case_insensitive()
    ensures
        selector_char_category('e') == selector_char_category('E'),
        selector_char_category('v') == selector_char_category('V'),
        selector_char_category('h') == selector_char_category('H'),
{
}

} // verus!
