//! Detection of peanuts in the diet information of a food item.

use crate::json::{json_of, text_member, Json};
use crate::text::{contains, lowercase, occurs, to_lowercase};
use serde_json::Value;
use vstd::prelude::*;

verus! {

/// The word that marks peanuts in an allergen text.
pub open spec fn peanut_word() -> Seq<char> {
    "pähkinä"@
}

/// The diet information names peanuts: it is an object whose member
/// `allergens` is a string that holds the peanut word once it is put in
/// lower case.
pub open spec fn has_peanuts(diet_info: Json) -> bool {
    match diet_info.member_text("allergens"@) {
        Some(allergens) => occurs(peanut_word(), lowercase(allergens)),
        None => false,
    }
}

/// Checks whether the diet information of a food item names peanuts.
///
/// Anything but an object with a string member `allergens` holds none.
pub fn peanut_check(additional_diet_info: &Value) -> (found: bool)
    ensures
        found == has_peanuts(json_of(*additional_diet_info)),
{
    match text_member(additional_diet_info, "allergens") {
        Some(allergens) => {
            let lower = to_lowercase(allergens);
            contains(lower.as_str(), "pähkinä")
        },
        None => false,
    }
}

/// Diet information that is no object, or whose member `allergens` is
/// missing or no string, names no peanuts.
pub proof fn no_allergen_text_no_peanuts(diet_info: Json)
    requires
        diet_info.member_text("allergens"@) is None,
    ensures
        !has_peanuts(diet_info),
{
}

} // verus!
