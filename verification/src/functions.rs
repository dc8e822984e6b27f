//! Estimates given as a range.

use vstd::prelude::*;
use crate::interface::{LogNormal, Normal, Recipe};
use crate::scalar::Scalar;

verus! {

/// The recipe of the distribution that holds `credibility` percent of its
/// mass between `x` and `y`: log-normal where `x` is above zero, so that the
/// quantity stays positive, and normal otherwise.
pub fn to(x: Scalar, y: Scalar, credibility: Scalar) -> (recipe: Recipe)
    ensures
        x.positive() ==> recipe == LogNormal::range_recipe(x, y, credibility),
        !x.positive() ==> recipe == Normal::range_recipe(x, y, credibility),
        x.positive() <==> recipe is LogNormal,
        !x.positive() <==> recipe is Normal,
{
    if x.is_positive() {
        LogNormal::from_range(x, y, credibility)
    } else {
        Normal::from_range(x, y, credibility)
    }
}

} // verus!
