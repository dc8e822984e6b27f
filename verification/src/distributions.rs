//! The closed-form distributions and the expression tree built from them.

use vstd::prelude::*;
use vstd::string::StringExecFns;
use crate::scalar::Scalar;

verus! {

/// Why a distribution could not be built from the parameters given.
#[derive(Clone, Copy, Debug, PartialEq, Eq)]
pub enum ConstructionError {
    /// The scale of a log-normal distribution is not greater than zero.
    NonPositiveScale,
    /// The rate of a Poisson distribution is not greater than zero.
    NonPositiveRate,
    /// A minimum, mode and maximum were not given in ascending order.
    BoundsOutOfOrder,
    /// A discrete distribution was not given one weight for each value.
    LengthMismatch,
}

/// The distribution that always yields the same number.
#[derive(Clone, Copy, Debug, PartialEq)]
pub struct Constant {
    pub number: Scalar,
}

impl Constant {
    pub fn new(number: Scalar) -> (c: Constant)
        ensures
            c.number == number,
    {
        Constant { number }
    }

    pub fn number(&self) -> (n: Scalar)
        ensures
            n == self.number,
    {
        self.number
    }

    /// A draw from the distribution: the number itself, every time.
    pub fn sample(&self) -> (n: Scalar)
        ensures
            n == self.number,
    {
        self.number
    }
}

/// Finitely many values, the i-th drawn with the i-th weight.
#[derive(Debug, PartialEq)]
pub struct Discrete {
    pub values: Vec<Scalar>,
    pub weights: Vec<Scalar>,
}

impl Discrete {
    /// Every value has its weight. That the weights sum to one is not asked.
    pub open spec fn wf(self) -> bool {
        self.values@.len() == self.weights@.len()
    }

    /// Fails exactly when the two lists differ in length.
    pub fn new(values: Vec<Scalar>, weights: Vec<Scalar>) -> (r: Result<Discrete, ConstructionError>)
        ensures
            values@.len() == weights@.len() ==> (r matches Ok(d) && d.values == values
                && d.weights == weights && d.wf()),
            values@.len() != weights@.len() ==> r == Err::<Discrete, ConstructionError>(
                ConstructionError::LengthMismatch,
            ),
    {
        if values.len() == weights.len() {
            Ok(Discrete { values, weights })
        } else {
            Err(ConstructionError::LengthMismatch)
        }
    }

    pub fn values(&self) -> (v: &[Scalar])
        ensures
            v@ == self.values@,
    {
        self.values.as_slice()
    }

    pub fn weights(&self) -> (w: &[Scalar])
        ensures
            w@ == self.weights@,
    {
        self.weights.as_slice()
    }
}

/// A distribution over the real line, by its parameters.
#[derive(Clone, Copy, Debug, PartialEq)]
pub enum ContinuousDist {
    LogNormal { location: Scalar, scale: Scalar },
    Normal { mean: Scalar, std_dev: Scalar },
    Triangular { min: Scalar, mode: Scalar, max: Scalar },
    Uniform { min: Scalar, max: Scalar },
}

impl ContinuousDist {
    /// The parameters describe a distribution: a standard deviation without
    /// a minus sign, a scale above zero, bounds in ascending order.
    pub open spec fn wf(self) -> bool {
        match self {
            ContinuousDist::LogNormal { location, scale } => scale.positive(),
            ContinuousDist::Normal { mean, std_dev } => !std_dev.negative(),
            ContinuousDist::Triangular { min, mode, max } => min.at_most(mode) && mode.at_most(
                max,
            ),
            ContinuousDist::Uniform { min, max } => min.at_most(max),
        }
    }

    pub open spec fn label(self) -> Seq<char> {
        match self {
            ContinuousDist::LogNormal { .. } => "Log-Normal"@,
            ContinuousDist::Normal { .. } => "Normal"@,
            ContinuousDist::Triangular { .. } => "Triangular"@,
            ContinuousDist::Uniform { .. } => "Uniform"@,
        }
    }

    /// The family's name.
    pub fn name(&self) -> (s: &'static str)
        ensures
            s@ == self.label(),
    {
        match self {
            ContinuousDist::LogNormal { .. } => "Log-Normal",
            ContinuousDist::Normal { .. } => "Normal",
            ContinuousDist::Triangular { .. } => "Triangular",
            ContinuousDist::Uniform { .. } => "Uniform",
        }
    }

    /// The family's name, as an owned string.
    pub fn to_string(&self) -> (s: String)
        ensures
            s@ == self.label(),
    {
        String::from_str(self.name())
    }
}

/// A distribution over isolated points.
#[allow(inconsistent_fields)]
#[derive(Debug, PartialEq)]
pub enum DiscreteDist {
    Constant { dist: Constant },
    Poisson { lambda: Scalar },
    Discrete { dist: Discrete },
}

impl DiscreteDist {
    /// The parameters describe a distribution: a rate above zero, as many
    /// weights as values.
    pub open spec fn wf(self) -> bool {
        match self {
            DiscreteDist::Constant { dist } => true,
            DiscreteDist::Poisson { lambda } => lambda.positive(),
            DiscreteDist::Discrete { dist } => dist.wf(),
        }
    }

    pub open spec fn label(self) -> Seq<char> {
        match self {
            DiscreteDist::Constant { .. } => "Constant"@,
            DiscreteDist::Poisson { .. } => "Poisson"@,
            DiscreteDist::Discrete { .. } => "Discrete"@,
        }
    }

    /// The family's name.
    pub fn name(&self) -> (s: &'static str)
        ensures
            s@ == self.label(),
    {
        match self {
            DiscreteDist::Constant { .. } => "Constant",
            DiscreteDist::Poisson { .. } => "Poisson",
            DiscreteDist::Discrete { .. } => "Discrete",
        }
    }

    /// The family's name, as an owned string.
    pub fn to_string(&self) -> (s: String)
        ensures
            s@ == self.label(),
    {
        String::from_str(self.name())
    }
}

/// One of the four arithmetic operators.
#[derive(Clone, Copy, Debug, PartialEq, Eq)]
pub enum Operator {
    Add,
    Mul,
    Sub,
    Div,
}

impl Operator {
    pub open spec fn symbol(self) -> Seq<char> {
        match self {
            Operator::Add => " + "@,
            Operator::Mul => " * "@,
            Operator::Sub => " - "@,
            Operator::Div => " / "@,
        }
    }

    /// The operator as it is written between its operands, a blank on either side.
    pub fn sign(&self) -> (s: &'static str)
        ensures
            s@ == self.symbol(),
    {
        match self {
            Operator::Add => " + ",
            Operator::Mul => " * ",
            Operator::Sub => " - ",
            Operator::Div => " / ",
        }
    }
}

/// An operator applied to two expressions, each owned by the application alone.
#[derive(Debug, PartialEq)]
pub enum Ops {
    Add(Box<DistNode>, Box<DistNode>),
    Mul(Box<DistNode>, Box<DistNode>),
    Sub(Box<DistNode>, Box<DistNode>),
    Div(Box<DistNode>, Box<DistNode>),
}

impl Ops {
    pub open spec fn operator(self) -> Operator {
        match self {
            Ops::Add(..) => Operator::Add,
            Ops::Mul(..) => Operator::Mul,
            Ops::Sub(..) => Operator::Sub,
            Ops::Div(..) => Operator::Div,
        }
    }

    pub open spec fn left(self) -> DistNode {
        match self {
            Ops::Add(l, _) | Ops::Mul(l, _) | Ops::Sub(l, _) | Ops::Div(l, _) => *l,
        }
    }

    pub open spec fn right(self) -> DistNode {
        match self {
            Ops::Add(_, r) | Ops::Mul(_, r) | Ops::Sub(_, r) | Ops::Div(_, r) => *r,
        }
    }

    /// The application of `op` to the two operands as they are.
    pub open spec fn apply(op: Operator, left: DistNode, right: DistNode) -> Ops {
        match op {
            Operator::Add => Ops::Add(Box::new(left), Box::new(right)),
            Operator::Mul => Ops::Mul(Box::new(left), Box::new(right)),
            Operator::Sub => Ops::Sub(Box::new(left), Box::new(right)),
            Operator::Div => Ops::Div(Box::new(left), Box::new(right)),
        }
    }

    /// Applies `op` to the two operands as they are.
    pub fn new(op: Operator, left: DistNode, right: DistNode) -> (o: Ops)
        ensures
            o == Ops::apply(op, left, right),
            o.operator() == op,
            o.left() == left,
            o.right() == right,
    {
        match op {
            Operator::Add => Ops::Add(Box::new(left), Box::new(right)),
            Operator::Mul => Ops::Mul(Box::new(left), Box::new(right)),
            Operator::Sub => Ops::Sub(Box::new(left), Box::new(right)),
            Operator::Div => Ops::Div(Box::new(left), Box::new(right)),
        }
    }

    /// The application as an infix formula in round brackets.
    pub open spec fn text(self) -> Seq<char>
        decreases self,
    {
        "("@ + self.left().text() + self.operator().symbol() + self.right().text() + ")"@
    }

    /// Renders the application as an infix formula in round brackets.
    pub fn to_string(&self) -> (s: String)
        ensures
            s@ == self.text(),
        decreases self,
    {
        let (left, right) = self.operands();
        let mut s = String::from_str("(");
        s.append(left.to_string().as_str());
        s.append(self.kind().sign());
        s.append(right.to_string().as_str());
        s.append(")");
        s
    }

    /// The two operands, left and right.
    pub fn operands(&self) -> (pair: (&DistNode, &DistNode))
        ensures
            *pair.0 == self.left(),
            *pair.1 == self.right(),
    {
        match self {
            Ops::Add(l, r) | Ops::Mul(l, r) | Ops::Sub(l, r) | Ops::Div(l, r) => (&**l, &**r),
        }
    }

    /// Which of the four operators this is.
    pub fn kind(&self) -> (op: Operator)
        ensures
            op == self.operator(),
    {
        match self {
            Ops::Add(..) => Operator::Add,
            Ops::Mul(..) => Operator::Mul,
            Ops::Sub(..) => Operator::Sub,
            Ops::Div(..) => Operator::Div,
        }
    }
}

/// An expression: a distribution, or an operator applied to two expressions.
#[derive(Debug, PartialEq)]
pub enum DistNode {
    Operation(Ops),
    Continuous(ContinuousDist),
    Discrete(DiscreteDist),
}

impl DistNode {
    /// Every leaf of the tree is a distribution with valid parameters.
    pub open spec fn wf(self) -> bool
        decreases self,
    {
        match self {
            DistNode::Operation(Ops::Add(l, r))
            | DistNode::Operation(Ops::Mul(l, r))
            | DistNode::Operation(Ops::Sub(l, r))
            | DistNode::Operation(Ops::Div(l, r)) => l.wf() && r.wf(),
            DistNode::Continuous(d) => d.wf(),
            DistNode::Discrete(d) => d.wf(),
        }
    }

    /// The leaf that always yields `number`.
    pub open spec fn constant(number: Scalar) -> DistNode {
        DistNode::Discrete(DiscreteDist::Constant { dist: Constant { number } })
    }

    /// The normal leaf with the given mean and standard deviation.
    pub open spec fn normal(mean: Scalar, std_dev: Scalar) -> DistNode {
        DistNode::Continuous(ContinuousDist::Normal { mean, std_dev })
    }

    /// The log-normal leaf with the given location and scale.
    pub open spec fn log_normal(location: Scalar, scale: Scalar) -> DistNode {
        DistNode::Continuous(ContinuousDist::LogNormal { location, scale })
    }

    /// The operation node that applies `op` to the two operands as they are.
    pub open spec fn wrap(op: Operator, left: DistNode, right: DistNode) -> DistNode {
        DistNode::Operation(Ops::apply(op, left, right))
    }

    /// The tree as an infix formula: each leaf by its family's name, each
    /// operation in round brackets.
    pub open spec fn text(self) -> Seq<char>
        decreases self,
    {
        match self {
            DistNode::Operation(op) => op.text(),
            DistNode::Continuous(d) => d.label(),
            DistNode::Discrete(d) => d.label(),
        }
    }

    /// Renders the tree as an infix formula, for a reader.
    pub fn to_string(&self) -> (s: String)
        ensures
            s@ == self.text(),
        decreases self,
    {
        match self {
            DistNode::Operation(op) => op.to_string(),
            DistNode::Continuous(d) => d.to_string(),
            DistNode::Discrete(d) => d.to_string(),
        }
    }
}

} // verus!
