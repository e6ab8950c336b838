//! From a weight lookup to the text that is shown and sent on.

use crate::text::{kilograms_text, kilograms_to_string};
use crate::withings::WeightError;
use vstd::prelude::*;

verus! {

/// Decides what a weight lookup amounts to: the weight in kilograms as
/// decimal text where the lookup gave a weight in grams, nothing where it
/// failed.
pub fn get_and_format_weight(weight: &Result<i64, WeightError>) -> (text: Option<String>)
    ensures
        match weight {
            Ok(grams) => text matches Some(t) && t@ == kilograms_text(*grams as int),
            Err(_) => text is None,
        },
{
    match weight {
        Ok(grams) => Some(kilograms_to_string(*grams)),
        Err(_) => None,
    }
}

} // verus!
