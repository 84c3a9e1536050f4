//! Prospecting: the implied risk level of a marketplace model category.
use vstd::prelude::*;

use crate::text::{str_eq, to_lowercase, unicode_lowercase};

verus! {

/// The implied risk level (1 conservative .. 5 aggressive) of a lowercase category name.
pub open spec fn lowercase_category_risk(c: Seq<char>) -> u8 {
    if c == "fixed income"@ || c == "bond"@ {
        1
    } else if c == "balanced"@ {
        3
    } else if c == "esg"@ {
        3
    } else if c == "equity"@ {
        4
    } else if c == "aggressive"@ || c == "growth"@ {
        5
    } else {
        3
    }
}

/// The implied risk of an already lowercased category name.
pub fn risk_for_lowercase(category: &str) -> (r: u8)
    ensures
        r == lowercase_category_risk(category@),
        1 <= r <= 5,
{
    if str_eq(category, "fixed income") || str_eq(category, "bond") {
        1
    } else if str_eq(category, "balanced") {
        3
    } else if str_eq(category, "esg") {
        3
    } else if str_eq(category, "equity") {
        4
    } else if str_eq(category, "aggressive") || str_eq(category, "growth") {
        5
    } else {
        3
    }
}

/// Map a model's category (any case) to an implied risk level for matching.
pub fn category_risk(category: &str) -> (r: u8)
    ensures
        r == lowercase_category_risk(unicode_lowercase(category@)),
        1 <= r <= 5,
{
    let lower = to_lowercase(category);
    risk_for_lowercase(lower.as_str())
}

} // verus!
