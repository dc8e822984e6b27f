//! The constructors of leaves, one namespace for each family.
//!
//! A constructor that is handed the distribution's own parameters checks them
//! and builds the leaf. One that derives the parameters from an interval or
//! from moments hands back a `Recipe`: the leaf's family with a formula for
//! each parameter, to be built once the formulas have been evaluated.

use vstd::prelude::*;
use crate::distributions::{
    Constant as ConstantDist,
    ConstructionError,
    ContinuousDist,
    Discrete as DiscreteTable,
    DiscreteDist,
    DistNode,
};
use crate::scalar::{Scalar, HALF_BITS, HUNDRED_BITS, ONE_BITS, TWO_BITS};
use crate::term::Term;
use crate::utils::{ppf, square};

verus! {

/// A leaf whose parameters are still formulas.
#[derive(Debug, PartialEq)]
pub enum Recipe {
    Normal { mean: Term, std_dev: Term },
    LogNormal { location: Term, scale: Term },
    Constant { value: Term },
}

impl Recipe {
    /// The formula of the first parameter: a mean, a location, or the
    /// constant's value.
    pub open spec fn first_term(self) -> Term {
        match self {
            Recipe::Normal { mean, std_dev } => mean,
            Recipe::LogNormal { location, scale } => location,
            Recipe::Constant { value } => value,
        }
    }

    /// The formula of the second parameter: a standard deviation or a scale.
    /// A constant has none.
    pub open spec fn second_term(self) -> Option<Term> {
        match self {
            Recipe::Normal { mean, std_dev } => Some(std_dev),
            Recipe::LogNormal { location, scale } => Some(scale),
            Recipe::Constant { value } => None,
        }
    }

    /// The leaf that the recipe yields once its formulas have the values
    /// `first` and `second`.
    pub open spec fn built(self, first: Scalar, second: Scalar) -> Result<
        DistNode,
        ConstructionError,
    > {
        match self {
            Recipe::Normal { .. } => Ok(DistNode::normal(first, second.spec_abs())),
            Recipe::LogNormal { .. } => if second.positive() {
                Ok(DistNode::log_normal(first, second))
            } else {
                Err(ConstructionError::NonPositiveScale)
            },
            Recipe::Constant { .. } => Ok(DistNode::constant(first)),
        }
    }

    pub fn first(&self) -> (t: &Term)
        ensures
            *t == self.first_term(),
    {
        match self {
            Recipe::Normal { mean, .. } => mean,
            Recipe::LogNormal { location, .. } => location,
            Recipe::Constant { value } => value,
        }
    }

    pub fn second(&self) -> (t: Option<&Term>)
        ensures
            t matches Some(s) ==> self.second_term() == Some(*s),
            t is None <==> self.second_term() is None,
    {
        match self {
            Recipe::Normal { std_dev, .. } => Some(std_dev),
            Recipe::LogNormal { scale, .. } => Some(scale),
            Recipe::Constant { .. } => None,
        }
    }

    /// Builds the leaf from the values of the two formulas. A constant does
    /// not read `second`. A normal leaf takes the absolute value of its
    /// standard deviation and never fails; a log-normal leaf fails unless its
    /// scale is above zero.
    pub fn build(&self, first: Scalar, second: Scalar) -> (r: Result<DistNode, ConstructionError>)
        ensures
            r == self.built(first, second),
            r matches Ok(node) ==> node.wf(),
    {
        match self {
            Recipe::Normal { .. } => Ok(Normal::from_mean(first, second)),
            Recipe::LogNormal { .. } => LogNormal::from_loc(first, second),
            Recipe::Constant { .. } => Ok(Constant::new(first)),
        }
    }
}

/// The formula `0.5 * (1 + credibility / 100)`: the cumulative probability at
/// the upper end of a centred interval that holds `credibility` percent.
pub open spec fn upper_tail(credibility: Scalar) -> Term {
    Term::number(HALF_BITS).times(
        Term::number(ONE_BITS).plus(Term::Lit(credibility).over(Term::number(HUNDRED_BITS))),
    )
}

/// The formula of the half-width of the interval in standard deviations: the
/// standard normal quantile at `upper_tail(credibility)`.
pub open spec fn z_score(credibility: Scalar) -> Term {
    upper_tail(credibility).quantile()
}

/// The formula `(a + b) / 2`.
pub open spec fn midpoint(a: Term, b: Term) -> Term {
    a.plus(b).over(Term::number(TWO_BITS))
}

fn z_score_term(credibility: Scalar) -> (t: Term)
    ensures
        t == z_score(credibility),
{
    let share = Term::lit(credibility).quotient(Term::of_bits(HUNDRED_BITS));
    ppf(Term::of_bits(HALF_BITS).product(Term::of_bits(ONE_BITS).sum(share)))
}

fn midpoint_term(a: Term, b: Term) -> (t: Term)
    ensures
        t == midpoint(a, b),
{
    a.sum(b).quotient(Term::of_bits(TWO_BITS))
}

pub struct Normal {}

impl Normal {
    /// The recipe of the normal distribution that holds `credibility` percent
    /// of its mass between `x` and `y`: the mean is the midpoint, and the
    /// standard deviation is the distance from the mean to `y`, in z-scores.
    pub open spec fn range_recipe(x: Scalar, y: Scalar, credibility: Scalar) -> Recipe {
        Recipe::Normal {
            mean: midpoint(Term::Lit(x), Term::Lit(y)),
            std_dev: Term::Lit(y).minus(midpoint(Term::Lit(x), Term::Lit(y))).over(
                z_score(credibility),
            ),
        }
    }

    /// The normal leaf with the given mean and the absolute value of `std_dev`.
    pub fn from_mean(mean: Scalar, std_dev: Scalar) -> (node: DistNode)
        ensures
            node == DistNode::normal(mean, std_dev.spec_abs()),
            node.wf(),
    {
        DistNode::Continuous(ContinuousDist::Normal { mean, std_dev: std_dev.abs() })
    }

    pub fn from_range(x: Scalar, y: Scalar, credibility: Scalar) -> (recipe: Recipe)
        ensures
            recipe == Normal::range_recipe(x, y, credibility),
    {
        let mean = midpoint_term(Term::lit(x), Term::lit(y));
        let centre = midpoint_term(Term::lit(x), Term::lit(y));
        let std_dev = Term::lit(y).difference(centre).quotient(z_score_term(credibility));
        Recipe::Normal { mean, std_dev }
    }
}

pub struct LogNormal {}

impl LogNormal {
    /// The recipe of the log-normal distribution with the given arithmetic
    /// mean and standard deviation, by matching moments:
    /// location `ln(mean² / √(mean² + std_dev²))`,
    /// scale `√(ln(1 + std_dev² / mean²))`.
    pub open spec fn mean_recipe(mean: Scalar, std_dev: Scalar) -> Recipe {
        Recipe::LogNormal {
            location: Term::Lit(mean).squared().over(
                Term::Lit(mean).squared().plus(Term::Lit(std_dev).squared()).root(),
            ).log(),
            scale: Term::number(ONE_BITS).plus(
                Term::Lit(std_dev).squared().over(Term::Lit(mean).squared()),
            ).log().root(),
        }
    }

    /// The recipe of the log-normal distribution that holds `credibility`
    /// percent of its mass between `x` and `y`: the normal construction on
    /// the logarithms of the two bounds.
    pub open spec fn range_recipe(x: Scalar, y: Scalar, credibility: Scalar) -> Recipe {
        Recipe::LogNormal {
            location: midpoint(Term::Lit(x).log(), Term::Lit(y).log()),
            scale: Term::Lit(y).log().minus(midpoint(Term::Lit(x).log(), Term::Lit(y).log())).over(
                z_score(credibility),
            ),
        }
    }

    /// The log-normal leaf with the given parameters. Fails exactly when
    /// `scale` is not above zero.
    pub fn from_loc(location: Scalar, scale: Scalar) -> (r: Result<DistNode, ConstructionError>)
        ensures
            scale.positive() ==> r == Ok::<DistNode, ConstructionError>(
                DistNode::log_normal(location, scale),
            ),
            !scale.positive() ==> r == Err::<DistNode, ConstructionError>(
                ConstructionError::NonPositiveScale,
            ),
            r matches Ok(node) ==> node.wf(),
    {
        if scale.is_positive() {
            Ok(DistNode::Continuous(ContinuousDist::LogNormal { location, scale }))
        } else {
            Err(ConstructionError::NonPositiveScale)
        }
    }

    pub fn from_mean(mean: Scalar, std_dev: Scalar) -> (recipe: Recipe)
        ensures
            recipe == LogNormal::mean_recipe(mean, std_dev),
    {
        let spread = square(Term::lit(mean)).sum(square(Term::lit(std_dev))).sqrt();
        let location = square(Term::lit(mean)).quotient(spread).ln();
        let ratio = square(Term::lit(std_dev)).quotient(square(Term::lit(mean)));
        let scale = Term::of_bits(ONE_BITS).sum(ratio).ln().sqrt();
        Recipe::LogNormal { location, scale }
    }

    pub fn from_range(x: Scalar, y: Scalar, credibility: Scalar) -> (recipe: Recipe)
        ensures
            recipe == LogNormal::range_recipe(x, y, credibility),
    {
        let location = midpoint_term(Term::lit(x).ln(), Term::lit(y).ln());
        let centre = midpoint_term(Term::lit(x).ln(), Term::lit(y).ln());
        let scale = Term::lit(y).ln().difference(centre).quotient(z_score_term(credibility));
        Recipe::LogNormal { location, scale }
    }
}

pub struct Triangular {}

impl Triangular {
    /// The triangular leaf on `[min, max]` with its peak at `mode`. Fails
    /// exactly when `min <= mode <= max` does not hold.
    pub fn new(min: Scalar, mode: Scalar, max: Scalar) -> (r: Result<DistNode, ConstructionError>)
        ensures
            (min.at_most(mode) && mode.at_most(max)) ==> r == Ok::<DistNode, ConstructionError>(
                DistNode::Continuous(ContinuousDist::Triangular { min, mode, max }),
            ),
            !(min.at_most(mode) && mode.at_most(max)) ==> r == Err::<DistNode, ConstructionError>(
                ConstructionError::BoundsOutOfOrder,
            ),
            r matches Ok(node) ==> node.wf(),
    {
        if min.le(mode) && mode.le(max) {
            Ok(DistNode::Continuous(ContinuousDist::Triangular { min, mode, max }))
        } else {
            Err(ConstructionError::BoundsOutOfOrder)
        }
    }
}

pub struct Uniform {}

impl Uniform {
    /// The uniform leaf on `[min, max]`. Fails exactly when `min <= max` does
    /// not hold.
    pub fn new(min: Scalar, max: Scalar) -> (r: Result<DistNode, ConstructionError>)
        ensures
            min.at_most(max) ==> r == Ok::<DistNode, ConstructionError>(
                DistNode::Continuous(ContinuousDist::Uniform { min, max }),
            ),
            !min.at_most(max) ==> r == Err::<DistNode, ConstructionError>(
                ConstructionError::BoundsOutOfOrder,
            ),
            r matches Ok(node) ==> node.wf(),
    {
        if min.le(max) {
            Ok(DistNode::Continuous(ContinuousDist::Uniform { min, max }))
        } else {
            Err(ConstructionError::BoundsOutOfOrder)
        }
    }
}

pub struct Poisson {}

impl Poisson {
    /// The Poisson leaf with rate `lambda`. Fails exactly when `lambda` is
    /// not above zero.
    pub fn new(lambda: Scalar) -> (r: Result<DistNode, ConstructionError>)
        ensures
            lambda.positive() ==> r == Ok::<DistNode, ConstructionError>(
                DistNode::Discrete(DiscreteDist::Poisson { lambda }),
            ),
            !lambda.positive() ==> r == Err::<DistNode, ConstructionError>(
                ConstructionError::NonPositiveRate,
            ),
            r matches Ok(node) ==> node.wf(),
    {
        if lambda.is_positive() {
            Ok(DistNode::Discrete(DiscreteDist::Poisson { lambda }))
        } else {
            Err(ConstructionError::NonPositiveRate)
        }
    }
}

pub struct Discrete {}

impl Discrete {
    /// The leaf that yields `values[i]` with weight `weights[i]`. Fails
    /// exactly when the two lists differ in length.
    pub fn new(values: Vec<Scalar>, weights: Vec<Scalar>) -> (r: Result<
        DistNode,
        ConstructionError,
    >)
        ensures
            values@.len() == weights@.len() ==> (r matches Ok(node) && node == DistNode::Discrete(
                DiscreteDist::Discrete { dist: DiscreteTable { values, weights } },
            ) && node.wf()),
            values@.len() != weights@.len() ==> r == Err::<DistNode, ConstructionError>(
                ConstructionError::LengthMismatch,
            ),
    {
        match DiscreteTable::new(values, weights) {
            Ok(dist) => Ok(DistNode::Discrete(DiscreteDist::Discrete { dist })),
            Err(e) => Err(e),
        }
    }
}

pub struct Constant {}

impl Constant {
    /// The leaf that always yields `number`.
    pub fn new(number: Scalar) -> (node: DistNode)
        ensures
            node == DistNode::constant(number),
            node.wf(),
    {
        DistNode::Discrete(DiscreteDist::Constant { dist: ConstantDist::new(number) })
    }
}

} // verus!
