//! Formulas over doubles.
//!
//! The simplifier never performs floating-point arithmetic. Where a rule
//! needs a sum, a square root or a quantile, it writes the formula down as a
//! `Term` over the operands' parameters; the host evaluates it.

use vstd::prelude::*;
use crate::scalar::Scalar;

verus! {

/// A formula whose value is a double.
#[derive(Debug, PartialEq)]
pub enum Term {
    /// A given number.
    Lit(Scalar),
    /// `a + b`
    Add(Box<Term>, Box<Term>),
    /// `a - b`
    Sub(Box<Term>, Box<Term>),
    /// `a * b`
    Mul(Box<Term>, Box<Term>),
    /// `a / b`
    Div(Box<Term>, Box<Term>),
    /// `a` to the second power
    Square(Box<Term>),
    /// The square root of `a`
    Sqrt(Box<Term>),
    /// The natural logarithm of `a`
    Ln(Box<Term>),
    /// The quantile function of the standard normal distribution at `a`
    Quantile(Box<Term>),
    /// The mean of the log-normal distribution with the given location and scale
    LogNormalMean(Box<Term>, Box<Term>),
    /// The median of the log-normal distribution with the given location and scale
    LogNormalMedian(Box<Term>, Box<Term>),
}

impl Term {
    /// The number with the given encoding, as a formula.
    pub open spec fn number(bits: u64) -> Term {
        Term::Lit(Scalar { bits })
    }

    pub open spec fn plus(self, other: Term) -> Term {
        Term::Add(Box::new(self), Box::new(other))
    }

    pub open spec fn minus(self, other: Term) -> Term {
        Term::Sub(Box::new(self), Box::new(other))
    }

    pub open spec fn times(self, other: Term) -> Term {
        Term::Mul(Box::new(self), Box::new(other))
    }

    pub open spec fn over(self, other: Term) -> Term {
        Term::Div(Box::new(self), Box::new(other))
    }

    pub open spec fn squared(self) -> Term {
        Term::Square(Box::new(self))
    }

    pub open spec fn root(self) -> Term {
        Term::Sqrt(Box::new(self))
    }

    pub open spec fn log(self) -> Term {
        Term::Ln(Box::new(self))
    }

    pub open spec fn quantile(self) -> Term {
        Term::Quantile(Box::new(self))
    }

    /// The mean of the log-normal distribution with location `self`.
    pub open spec fn log_normal_mean(self, scale: Term) -> Term {
        Term::LogNormalMean(Box::new(self), Box::new(scale))
    }

    /// The median of the log-normal distribution with location `self`.
    pub open spec fn log_normal_median(self, scale: Term) -> Term {
        Term::LogNormalMedian(Box::new(self), Box::new(scale))
    }

    pub fn lit(value: Scalar) -> (t: Term)
        ensures
            t == Term::Lit(value),
    {
        Term::Lit(value)
    }

    pub fn of_bits(bits: u64) -> (t: Term)
        ensures
            t == Term::number(bits),
    {
        Term::Lit(Scalar::from_bits(bits))
    }

    pub fn sum(self, other: Term) -> (t: Term)
        ensures
            t == self.plus(other),
    {
        Term::Add(Box::new(self), Box::new(other))
    }

    pub fn difference(self, other: Term) -> (t: Term)
        ensures
            t == self.minus(other),
    {
        Term::Sub(Box::new(self), Box::new(other))
    }

    pub fn product(self, other: Term) -> (t: Term)
        ensures
            t == self.times(other),
    {
        Term::Mul(Box::new(self), Box::new(other))
    }

    pub fn quotient(self, other: Term) -> (t: Term)
        ensures
            t == self.over(other),
    {
        Term::Div(Box::new(self), Box::new(other))
    }

    pub fn sqrt(self) -> (t: Term)
        ensures
            t == self.root(),
    {
        Term::Sqrt(Box::new(self))
    }

    pub fn ln(self) -> (t: Term)
        ensures
            t == self.log(),
    {
        Term::Ln(Box::new(self))
    }

    pub fn mean_of_log_normal(self, scale: Term) -> (t: Term)
        ensures
            t == self.log_normal_mean(scale),
    {
        Term::LogNormalMean(Box::new(self), Box::new(scale))
    }

    pub fn median_of_log_normal(self, scale: Term) -> (t: Term)
        ensures
            t == self.log_normal_median(scale),
    {
        Term::LogNormalMedian(Box::new(self), Box::new(scale))
    }

    /// A copy of the formula.
    pub fn duplicate(&self) -> (t: Term)
        ensures
            t == *self,
        decreases *self,
    {
        match self {
            Term::Lit(s) => Term::Lit(*s),
            Term::Add(a, b) => Term::Add(Box::new(a.duplicate()), Box::new(b.duplicate())),
            Term::Sub(a, b) => Term::Sub(Box::new(a.duplicate()), Box::new(b.duplicate())),
            Term::Mul(a, b) => Term::Mul(Box::new(a.duplicate()), Box::new(b.duplicate())),
            Term::Div(a, b) => Term::Div(Box::new(a.duplicate()), Box::new(b.duplicate())),
            Term::Square(a) => Term::Square(Box::new(a.duplicate())),
            Term::Sqrt(a) => Term::Sqrt(Box::new(a.duplicate())),
            Term::Ln(a) => Term::Ln(Box::new(a.duplicate())),
            Term::Quantile(a) => Term::Quantile(Box::new(a.duplicate())),
            Term::LogNormalMean(a, b) => Term::LogNormalMean(
                Box::new(a.duplicate()),
                Box::new(b.duplicate()),
            ),
            Term::LogNormalMedian(a, b) => Term::LogNormalMedian(
                Box::new(a.duplicate()),
                Box::new(b.duplicate()),
            ),
        }
    }
}

} // verus!
