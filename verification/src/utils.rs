//! The two numeric helpers that the derived constructors are written with.

use vstd::prelude::*;
use crate::term::Term;

verus! {

/// The second power of a formula.
pub fn square(num: Term) -> (t: Term)
    ensures
        t == num.squared(),
{
    Term::Square(Box::new(num))
}

/// The standard normal quantile (inverse cumulative distribution) at `q`.
pub fn ppf(q: Term) -> (t: Term)
    ensures
        t == q.quantile(),
{
    Term::Quantile(Box::new(q))
}

} // verus!
