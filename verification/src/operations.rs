//! The algebraic simplifier.
//!
//! Applying an operator to two expressions, or to an expression and a number,
//! either folds into a single leaf, where a closed form is known, or wraps the
//! two operands, unmodified, in an operation node. Independence of the
//! operands is assumed throughout. The rules are the spec functions
//! `combine`, `combine_scalar`, `scalar_minus` and `scalar_over`; the
//! executable operators are proved to follow them on every input.

use vstd::prelude::*;
use crate::distributions::{
    ConstructionError,
    ContinuousDist,
    DiscreteDist,
    DistNode,
    Operator,
    Ops,
};
use crate::interface::{Constant, Recipe};
use crate::scalar::{Scalar, TWO_BITS};
use crate::term::Term;
use crate::utils::square;

verus! {

/// What applying an operator yields.
#[derive(Debug, PartialEq)]
pub enum Outcome {
    /// A finished expression: the operands wrapped in an operation node, or
    /// a leaf that needed no arithmetic.
    Node(DistNode),
    /// A folded leaf whose parameters are formulas over those of the operands.
    Recipe(Recipe),
}

/// The formula `a op b`.
pub open spec fn arithmetic(op: Operator, a: Term, b: Term) -> Term {
    match op {
        Operator::Add => a.plus(b),
        Operator::Sub => a.minus(b),
        Operator::Mul => a.times(b),
        Operator::Div => a.over(b),
    }
}

/// The standard deviation of a sum or difference of two independent normal
/// variables: `√(s1² + s2²)`.
pub open spec fn pooled_deviation(s1: Scalar, s2: Scalar) -> Term {
    Term::Lit(s1).squared().plus(Term::Lit(s2).squared()).root()
}

/// The location of a log-normal operand as the fold recovers it:
/// the logarithm of its median.
pub open spec fn recovered_location(location: Scalar, scale: Scalar) -> Term {
    Term::Lit(location).log_normal_median(Term::Lit(scale)).log()
}

/// The squared scale of a log-normal operand as the fold recovers it:
/// twice the logarithm of its mean, less the recovered location.
pub open spec fn recovered_variance(location: Scalar, scale: Scalar) -> Term {
    Term::number(TWO_BITS).times(
        Term::Lit(location).log_normal_mean(Term::Lit(scale)).log(),
    ).minus(recovered_location(location, scale))
}

/// The scale of a product or quotient of two independent log-normal
/// variables: the root of the sum of the recovered squared scales.
pub open spec fn pooled_scale(l1: Scalar, s1: Scalar, l2: Scalar, s2: Scalar) -> Term {
    recovered_variance(l1, s1).plus(recovered_variance(l2, s2)).root()
}

/// The leaf `Constant(0.0)`.
pub open spec fn zero_constant() -> DistNode {
    DistNode::constant(Scalar::spec_zero())
}

/// Whether a closed form is known for `left op right`.
pub open spec fn has_rule(op: Operator, left: DistNode, right: DistNode) -> bool {
    ||| (left is Continuous && left->Continuous_0 is Normal && right is Continuous
        && right->Continuous_0 is Normal && (op == Operator::Add || op == Operator::Sub))
    ||| (left is Continuous && left->Continuous_0 is LogNormal && right is Continuous
        && right->Continuous_0 is LogNormal && (op == Operator::Mul || op == Operator::Div))
    ||| (left is Discrete && left->Discrete_0 is Constant && right is Discrete
        && right->Discrete_0 is Constant)
}

/// The rule table for two expressions.
pub open spec fn combine(op: Operator, left: DistNode, right: DistNode) -> Outcome {
    match (left, right) {
        (
            DistNode::Continuous(ContinuousDist::Normal { mean: m1, std_dev: s1 }),
            DistNode::Continuous(ContinuousDist::Normal { mean: m2, std_dev: s2 }),
        ) => match op {
            Operator::Add | Operator::Sub => Outcome::Recipe(
                Recipe::Normal {
                    mean: arithmetic(op, Term::Lit(m1), Term::Lit(m2)),
                    std_dev: pooled_deviation(s1, s2),
                },
            ),
            _ => Outcome::Node(DistNode::wrap(op, left, right)),
        },
        (
            DistNode::Continuous(ContinuousDist::LogNormal { location: l1, scale: s1 }),
            DistNode::Continuous(ContinuousDist::LogNormal { location: l2, scale: s2 }),
        ) => match op {
            Operator::Mul => Outcome::Recipe(
                Recipe::LogNormal {
                    location: recovered_location(l1, s1).plus(recovered_location(l2, s2)),
                    scale: pooled_scale(l1, s1, l2, s2),
                },
            ),
            Operator::Div => Outcome::Recipe(
                Recipe::LogNormal {
                    location: recovered_location(l1, s1).minus(recovered_location(l2, s2)),
                    scale: pooled_scale(l1, s1, l2, s2),
                },
            ),
            _ => Outcome::Node(DistNode::wrap(op, left, right)),
        },
        (
            DistNode::Discrete(DiscreteDist::Constant { dist: a }),
            DistNode::Discrete(DiscreteDist::Constant { dist: b }),
        ) => if op == Operator::Div && b.number.zero() {
            Outcome::Node(zero_constant())
        } else {
            Outcome::Recipe(
                Recipe::Constant {
                    value: arithmetic(op, Term::Lit(a.number), Term::Lit(b.number)),
                },
            )
        },
        _ => Outcome::Node(DistNode::wrap(op, left, right)),
    }
}

/// The rule table for an expression on the left and a number on the right.
pub open spec fn combine_scalar(op: Operator, left: DistNode, right: Scalar) -> Outcome {
    if (op == Operator::Mul || op == Operator::Div) && right.zero() {
        Outcome::Node(zero_constant())
    } else {
        match left {
            DistNode::Continuous(ContinuousDist::Normal { mean, std_dev }) => Outcome::Recipe(
                Recipe::Normal {
                    mean: arithmetic(op, Term::Lit(mean), Term::Lit(right)),
                    std_dev: match op {
                        Operator::Add | Operator::Sub => Term::Lit(std_dev),
                        _ => arithmetic(op, Term::Lit(std_dev), Term::Lit(right.spec_abs())),
                    },
                },
            ),
            DistNode::Continuous(ContinuousDist::LogNormal { location, scale }) => match op {
                Operator::Mul => Outcome::Recipe(
                    Recipe::LogNormal {
                        location: Term::Lit(location).plus(Term::Lit(right.spec_abs()).log()),
                        scale: Term::Lit(scale),
                    },
                ),
                Operator::Div => Outcome::Recipe(
                    Recipe::LogNormal {
                        location: Term::Lit(location).minus(Term::Lit(right.spec_abs()).log()),
                        scale: Term::Lit(scale),
                    },
                ),
                _ => Outcome::Node(DistNode::wrap(op, left, DistNode::constant(right))),
            },
            DistNode::Discrete(DiscreteDist::Constant { dist }) => Outcome::Recipe(
                Recipe::Constant {
                    value: arithmetic(op, Term::Lit(dist.number), Term::Lit(right)),
                },
            ),
            _ => Outcome::Node(DistNode::wrap(op, left, DistNode::constant(right))),
        }
    }
}

/// The rule table for a number less an expression.
pub open spec fn scalar_minus(left: Scalar, right: DistNode) -> Outcome {
    match right {
        DistNode::Continuous(ContinuousDist::Normal { mean, std_dev }) => Outcome::Recipe(
            Recipe::Normal {
                mean: Term::Lit(left).minus(Term::Lit(mean)),
                std_dev: Term::Lit(std_dev),
            },
        ),
        DistNode::Discrete(DiscreteDist::Constant { dist }) => Outcome::Recipe(
            Recipe::Constant { value: Term::Lit(left).minus(Term::Lit(dist.number)) },
        ),
        _ => Outcome::Node(DistNode::wrap(Operator::Sub, DistNode::constant(left), right)),
    }
}

/// The rule table for a number divided by an expression.
pub open spec fn scalar_over(left: Scalar, right: DistNode) -> Outcome {
    if left.zero() {
        Outcome::Node(zero_constant())
    } else {
        match right {
            DistNode::Continuous(ContinuousDist::LogNormal { location, scale }) => Outcome::Recipe(
                Recipe::LogNormal {
                    location: Term::Lit(left.spec_abs()).log().minus(Term::Lit(location)),
                    scale: Term::Lit(scale),
                },
            ),
            DistNode::Discrete(DiscreteDist::Constant { dist }) => if dist.number.zero() {
                Outcome::Node(zero_constant())
            } else {
                Outcome::Recipe(
                    Recipe::Constant { value: Term::Lit(left).over(Term::Lit(dist.number)) },
                )
            },
            _ => Outcome::Node(DistNode::wrap(Operator::Div, DistNode::constant(left), right)),
        }
    }
}

/// The sum of two independent normal variables is normal, with the sum of
/// the means for its mean and `√(s1² + s2²)` for its standard deviation;
/// once the two formulas have their values, with a standard deviation that
/// carries no minus sign, the leaf holds exactly those values.
pub proof fn lemma_normal_sum(m1: Scalar, s1: Scalar, m2: Scalar, s2: Scalar)
    ensures
        combine(Operator::Add, DistNode::normal(m1, s1), DistNode::normal(m2, s2))
            == Outcome::Recipe(
            Recipe::Normal {
                mean: Term::Lit(m1).plus(Term::Lit(m2)),
                std_dev: Term::Lit(s1).squared().plus(Term::Lit(s2).squared()).root(),
            },
        ),
        forall|mean: Scalar, std_dev: Scalar|
            !std_dev.negative() ==> (#[trigger] combine(
                Operator::Add,
                DistNode::normal(m1, s1),
                DistNode::normal(m2, s2),
            )->Recipe_0.built(mean, std_dev)) == Ok::<DistNode, ConstructionError>(
                DistNode::normal(mean, std_dev),
            ),
{
}

/// Two constants fold into the constant of the operator applied to their
/// numbers, for each of the four operators, where the right one is not zero.
pub proof fn lemma_constant_fold(op: Operator, a: Scalar, b: Scalar)
    requires
        !b.zero(),
    ensures
        combine(op, DistNode::constant(a), DistNode::constant(b)) == Outcome::Recipe(
            Recipe::Constant { value: arithmetic(op, Term::Lit(a), Term::Lit(b)) },
        ),
        forall|value: Scalar, unread: Scalar|
            (#[trigger] combine(op, DistNode::constant(a), DistNode::constant(b))->Recipe_0.built(
                value,
                unread,
            )) == Ok::<DistNode, ConstructionError>(
                DistNode::constant(value),
            ),
{
}

/// Dividing a constant by a constant that is zero collapses to the constant
/// zero, and so does dividing a number by such a constant.
pub proof fn lemma_division_by_zero_constant(a: Scalar, b: Scalar)
    requires
        b.zero(),
    ensures
        combine(Operator::Div, DistNode::constant(a), DistNode::constant(b)) == Outcome::Node(
            zero_constant(),
        ),
        scalar_over(a, DistNode::constant(b)) == Outcome::Node(zero_constant()),
{
}

/// Multiplying or dividing any expression by the number zero, of either
/// sign, collapses to the constant zero.
pub proof fn lemma_zero_scalar(node: DistNode, zero: Scalar)
    requires
        zero.zero(),
    ensures
        combine_scalar(Operator::Mul, node, zero) == Outcome::Node(zero_constant()),
        combine_scalar(Operator::Div, node, zero) == Outcome::Node(zero_constant()),
        scalar_over(zero, node) == Outcome::Node(zero_constant()),
{
}

/// Where the table has no rule, the result is an operation node with the
/// same operator whose two children are the operands, unmodified.
pub proof fn lemma_no_rule_wraps(op: Operator, left: DistNode, right: DistNode)
    requires
        !has_rule(op, left, right),
    ensures
        combine(op, left, right) == Outcome::Node(DistNode::wrap(op, left, right)),
        DistNode::wrap(op, left, right) is Operation,
        DistNode::wrap(op, left, right)->Operation_0.operator() == op,
        DistNode::wrap(op, left, right)->Operation_0.left() == left,
        DistNode::wrap(op, left, right)->Operation_0.right() == right,
{
}

/// Where the table has a rule, the result is a single leaf: a recipe, or
/// the constant zero.
pub proof fn lemma_rule_folds(op: Operator, left: DistNode, right: DistNode)
    requires
        has_rule(op, left, right),
    ensures
        combine(op, left, right) is Recipe || combine(op, left, right) == Outcome::Node(
            zero_constant(),
        ),
{
}

/// Whether the node is a normal, log-normal or constant leaf: the only
/// operands that any rule folds.
pub open spec fn foldable(node: DistNode) -> bool {
    ||| (node is Continuous && node->Continuous_0 is Normal)
    ||| (node is Continuous && node->Continuous_0 is LogNormal)
    ||| (node is Discrete && node->Discrete_0 is Constant)
}

/// No rule folds an operand of another kind (a Poisson, triangular, uniform
/// or weighted discrete leaf, or an operation), whatever stands on its other
/// side; nor two operands of different families; nor the product or
/// quotient of two normal leaves.
pub proof fn lemma_rules_are_few(op: Operator, left: DistNode, right: DistNode)
    ensures
        !foldable(left) || !foldable(right) ==> !has_rule(op, left, right),
        (left is Continuous && right is Discrete) || (left is Discrete && right is Continuous)
            ==> !has_rule(op, left, right),
        (left is Continuous && left->Continuous_0 is Normal && (op == Operator::Mul || op
            == Operator::Div)) ==> !has_rule(op, left, right),
{
}

/// An expression that no rule folds is wrapped with a number as it is with
/// an expression: the number becomes a constant leaf on its own side, and
/// the expression stays unmodified on the other. The one exception is the
/// collapse to zero, which takes precedence for products and quotients.
pub proof fn lemma_scalar_no_rule_wraps(op: Operator, node: DistNode, number: Scalar)
    requires
        !foldable(node),
    ensures
        !((op == Operator::Mul || op == Operator::Div) && number.zero()) ==> combine_scalar(
            op,
            node,
            number,
        ) == Outcome::Node(DistNode::wrap(op, node, DistNode::constant(number))),
        scalar_minus(number, node) == Outcome::Node(
            DistNode::wrap(Operator::Sub, DistNode::constant(number), node),
        ),
        !number.zero() ==> scalar_over(number, node) == Outcome::Node(
            DistNode::wrap(Operator::Div, DistNode::constant(number), node),
        ),
{
}

/// Whatever the operator and the operands, a finished expression that comes
/// out of valid operands is valid.
pub proof fn lemma_combine_keeps_valid(op: Operator, left: DistNode, right: DistNode)
    requires
        left.wf(),
        right.wf(),
    ensures
        combine(op, left, right) matches Outcome::Node(node) ==> node.wf(),
{
}

pub(crate) fn arithmetic_term(op: Operator, a: Term, b: Term) -> (t: Term)
    ensures
        t == arithmetic(op, a, b),
{
    match op {
        Operator::Add => a.sum(b),
        Operator::Sub => a.difference(b),
        Operator::Mul => a.product(b),
        Operator::Div => a.quotient(b),
    }
}

fn recovered_location_term(location: Scalar, scale: Scalar) -> (t: Term)
    ensures
        t == recovered_location(location, scale),
{
    Term::lit(location).median_of_log_normal(Term::lit(scale)).ln()
}

fn recovered_variance_term(location: Scalar, scale: Scalar) -> (t: Term)
    ensures
        t == recovered_variance(location, scale),
{
    let mean = Term::lit(location).mean_of_log_normal(Term::lit(scale)).ln();
    Term::of_bits(TWO_BITS).product(mean).difference(
        recovered_location_term(location, scale),
    )
}

impl DistNode {
    /// The mean and standard deviation, where the node is a normal leaf.
    pub fn as_normal(&self) -> (p: Option<(Scalar, Scalar)>)
        ensures
            p matches Some(q) ==> *self == DistNode::normal(q.0, q.1),
            p is None ==> !(*self is Continuous && self->Continuous_0 is Normal),
    {
        match self {
            DistNode::Continuous(ContinuousDist::Normal { mean, std_dev }) => Some(
                (*mean, *std_dev),
            ),
            _ => None,
        }
    }

    /// The location and scale, where the node is a log-normal leaf.
    pub fn as_log_normal(&self) -> (p: Option<(Scalar, Scalar)>)
        ensures
            p matches Some(q) ==> *self == DistNode::log_normal(q.0, q.1),
            p is None ==> !(*self is Continuous && self->Continuous_0 is LogNormal),
    {
        match self {
            DistNode::Continuous(ContinuousDist::LogNormal { location, scale }) => Some(
                (*location, *scale),
            ),
            _ => None,
        }
    }

    /// The number, where the node is a constant leaf.
    pub fn as_constant(&self) -> (p: Option<Scalar>)
        ensures
            p matches Some(n) ==> *self == DistNode::constant(n),
            p is None ==> !(*self is Discrete && self->Discrete_0 is Constant),
    {
        match self {
            DistNode::Discrete(DiscreteDist::Constant { dist }) => Some(dist.number()),
            _ => None,
        }
    }

    /// Applies `op` to two expressions: folds where the rule table has a
    /// closed form, and wraps the operands as they are everywhere else.
    pub fn combine(self, op: Operator, rhs: DistNode) -> (out: Outcome)
        ensures
            out == combine(op, self, rhs),
            !has_rule(op, self, rhs) ==> out == Outcome::Node(DistNode::wrap(op, self, rhs)),
            has_rule(op, self, rhs) ==> (out is Recipe || out == Outcome::Node(zero_constant())),
            (self.wf() && rhs.wf() && out is Node) ==> out->Node_0.wf(),
    {
        let additive = match op {
            Operator::Add | Operator::Sub => true,
            _ => false,
        };
        let multiplicative = match op {
            Operator::Mul | Operator::Div => true,
            _ => false,
        };
        if additive {
            if let (Some((m1, s1)), Some((m2, s2))) = (self.as_normal(), rhs.as_normal()) {
                let mean = arithmetic_term(op, Term::lit(m1), Term::lit(m2));
                let std_dev = square(Term::lit(s1)).sum(
                    square(Term::lit(s2)),
                ).sqrt();
                return Outcome::Recipe(Recipe::Normal { mean, std_dev });
            }
        }
        if multiplicative {
            if let (Some((l1, s1)), Some((l2, s2))) = (self.as_log_normal(), rhs.as_log_normal()) {
                let location = arithmetic_term(
                    match op {
                        Operator::Mul => Operator::Add,
                        _ => Operator::Sub,
                    },
                    recovered_location_term(l1, s1),
                    recovered_location_term(l2, s2),
                );
                let scale = recovered_variance_term(l1, s1).sum(
                    recovered_variance_term(l2, s2),
                ).sqrt();
                return Outcome::Recipe(Recipe::LogNormal { location, scale });
            }
        }
        if let (Some(a), Some(b)) = (self.as_constant(), rhs.as_constant()) {
            let by_zero = match op {
                Operator::Div => b.is_zero(),
                _ => false,
            };
            if by_zero {
                return Outcome::Node(Constant::new(Scalar::zero_value()));
            }
            return Outcome::Recipe(
                Recipe::Constant { value: arithmetic_term(op, Term::lit(a), Term::lit(b)) },
            );
        }
        Outcome::Node(DistNode::Operation(Ops::new(op, self, rhs)))
    }

    /// Applies `op` to an expression and a number on its right.
    pub fn combine_scalar(self, op: Operator, rhs: Scalar) -> (out: Outcome)
        ensures
            out == combine_scalar(op, self, rhs),
            (self.wf() && out is Node) ==> out->Node_0.wf(),
    {
        let scaling = match op {
            Operator::Mul | Operator::Div => true,
            _ => false,
        };
        if scaling && rhs.is_zero() {
            return Outcome::Node(Constant::new(Scalar::zero_value()));
        }
        if let Some((mean, std_dev)) = self.as_normal() {
            let spread = if scaling {
                arithmetic_term(op, Term::lit(std_dev), Term::lit(rhs.abs()))
            } else {
                Term::lit(std_dev)
            };
            return Outcome::Recipe(
                Recipe::Normal {
                    mean: arithmetic_term(op, Term::lit(mean), Term::lit(rhs)),
                    std_dev: spread,
                },
            );
        }
        if scaling {
            if let Some((location, scale)) = self.as_log_normal() {
                let shift = Term::lit(rhs.abs()).ln();
                let location = match op {
                    Operator::Mul => Term::lit(location).sum(shift),
                    _ => Term::lit(location).difference(shift),
                };
                return Outcome::Recipe(Recipe::LogNormal { location, scale: Term::lit(scale) });
            }
        }
        if let Some(a) = self.as_constant() {
            return Outcome::Recipe(
                Recipe::Constant { value: arithmetic_term(op, Term::lit(a), Term::lit(rhs)) },
            );
        }
        Outcome::Node(DistNode::Operation(Ops::new(op, self, Constant::new(rhs))))
    }

    /// `self + rhs`
    pub fn add(self, rhs: DistNode) -> (out: Outcome)
        ensures
            out == combine(Operator::Add, self, rhs),
    {
        self.combine(Operator::Add, rhs)
    }

    /// `self - rhs`
    pub fn sub(self, rhs: DistNode) -> (out: Outcome)
        ensures
            out == combine(Operator::Sub, self, rhs),
    {
        self.combine(Operator::Sub, rhs)
    }

    /// `self * rhs`
    pub fn mul(self, rhs: DistNode) -> (out: Outcome)
        ensures
            out == combine(Operator::Mul, self, rhs),
    {
        self.combine(Operator::Mul, rhs)
    }

    /// `self / rhs`
    pub fn div(self, rhs: DistNode) -> (out: Outcome)
        ensures
            out == combine(Operator::Div, self, rhs),
    {
        self.combine(Operator::Div, rhs)
    }

    /// `self + rhs`, for a number `rhs`
    pub fn add_scalar(self, rhs: Scalar) -> (out: Outcome)
        ensures
            out == combine_scalar(Operator::Add, self, rhs),
    {
        self.combine_scalar(Operator::Add, rhs)
    }

    /// `self - rhs`, for a number `rhs`
    pub fn sub_scalar(self, rhs: Scalar) -> (out: Outcome)
        ensures
            out == combine_scalar(Operator::Sub, self, rhs),
    {
        self.combine_scalar(Operator::Sub, rhs)
    }

    /// `self * rhs`, for a number `rhs`
    pub fn mul_scalar(self, rhs: Scalar) -> (out: Outcome)
        ensures
            out == combine_scalar(Operator::Mul, self, rhs),
    {
        self.combine_scalar(Operator::Mul, rhs)
    }

    /// `self / rhs`, for a number `rhs`
    pub fn div_scalar(self, rhs: Scalar) -> (out: Outcome)
        ensures
            out == combine_scalar(Operator::Div, self, rhs),
    {
        self.combine_scalar(Operator::Div, rhs)
    }
}

impl Scalar {
    /// `self - rhs`, for a number `self` and an expression `rhs`
    pub fn sub(self, rhs: DistNode) -> (out: Outcome)
        ensures
            out == scalar_minus(self, rhs),
            (rhs.wf() && out is Node) ==> out->Node_0.wf(),
    {
        if let Some((mean, std_dev)) = rhs.as_normal() {
            return Outcome::Recipe(
                Recipe::Normal {
                    mean: Term::lit(self).difference(Term::lit(mean)),
                    std_dev: Term::lit(std_dev),
                },
            );
        }
        if let Some(a) = rhs.as_constant() {
            return Outcome::Recipe(
                Recipe::Constant { value: Term::lit(self).difference(Term::lit(a)) },
            );
        }
        Outcome::Node(DistNode::Operation(Ops::new(Operator::Sub, Constant::new(self), rhs)))
    }

    /// `self / rhs`, for a number `self` and an expression `rhs`
    pub fn div(self, rhs: DistNode) -> (out: Outcome)
        ensures
            out == scalar_over(self, rhs),
            (rhs.wf() && out is Node) ==> out->Node_0.wf(),
    {
        if self.is_zero() {
            return Outcome::Node(Constant::new(Scalar::zero_value()));
        }
        if let Some((location, scale)) = rhs.as_log_normal() {
            return Outcome::Recipe(
                Recipe::LogNormal {
                    location: Term::lit(self.abs()).ln().difference(Term::lit(location)),
                    scale: Term::lit(scale),
                },
            );
        }
        if let Some(a) = rhs.as_constant() {
            if a.is_zero() {
                return Outcome::Node(Constant::new(Scalar::zero_value()));
            }
            return Outcome::Recipe(
                Recipe::Constant { value: Term::lit(self).quotient(Term::lit(a)) },
            );
        }
        Outcome::Node(DistNode::Operation(Ops::new(Operator::Div, Constant::new(self), rhs)))
    }
}

} // verus!
