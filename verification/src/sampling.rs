//! The sampling engine.
//!
//! An outcome of an expression is computed by structural recursion: a leaf
//! contributes a draw from its distribution, an operation combines the
//! outcomes of its two operands, each evaluated on its own draws. The engine
//! decides which draw goes where and writes the arithmetic down as a `Term`;
//! the draws themselves come from the host's random source.

use vstd::prelude::*;
use crate::distributions::{Discrete, DiscreteDist, DistNode, Operator, Ops};
use crate::operations::{arithmetic, arithmetic_term};
use crate::scalar::{Scalar, ZERO_BITS};
use crate::term::Term;

verus! {

/// The sum of the weights up to and including the `i`-th, as a formula:
/// starting from `0.0`, each weight is added in turn.
pub open spec fn running_sum(weights: Seq<Scalar>, i: int) -> Term
    decreases i + 1,
{
    if i < 0 {
        Term::number(ZERO_BITS)
    } else {
        running_sum(weights, i - 1).plus(Term::Lit(weights[i]))
    }
}

/// The index that a uniform draw `r` selects among cumulative weights: the
/// first at or after `from` whose cumulative weight is above `r`, and the
/// last index where there is none.
pub open spec fn first_above(cumulative: Seq<Scalar>, r: Scalar, from: int) -> int
    decreases cumulative.len() - from,
{
    if from + 1 >= cumulative.len() {
        cumulative.len() - 1
    } else if r.less(cumulative[from]) {
        from
    } else {
        first_above(cumulative, r, from + 1)
    }
}

/// What `first_above` selects: no cumulative weight before the selected
/// index is above `r`, and the selected one is, unless it is the last.
pub proof fn lemma_first_above(cumulative: Seq<Scalar>, r: Scalar, from: int)
    requires
        0 <= from < cumulative.len(),
    ensures
        from <= first_above(cumulative, r, from) < cumulative.len(),
        forall|j: int|
            from <= j < first_above(cumulative, r, from) ==> !r.less(#[trigger] cumulative[j]),
        r.less(cumulative[first_above(cumulative, r, from)]) || first_above(cumulative, r, from)
            == cumulative.len() - 1,
    decreases cumulative.len() - from,
{
    if from + 1 < cumulative.len() && !r.less(cumulative[from]) {
        lemma_first_above(cumulative, r, from + 1);
    }
}

impl Discrete {
    /// The cumulative weights, as formulas: the `i`-th is the running sum of
    /// the weights through the `i`-th.
    pub fn cumulative(&self) -> (sums: Vec<Term>)
        ensures
            sums@.len() == self.weights@.len(),
            forall|i: int| 0 <= i < sums@.len() ==> sums@[i] == running_sum(self.weights@, i),
    {
        let mut sums: Vec<Term> = Vec::new();
        let mut acc = Term::of_bits(ZERO_BITS);
        let mut i: usize = 0;
        while i < self.weights.len()
            invariant
                i <= self.weights@.len(),
                sums@.len() == i,
                acc == running_sum(self.weights@, i - 1),
                forall|k: int| 0 <= k < i ==> sums@[k] == running_sum(self.weights@, k),
            decreases self.weights@.len() - i,
        {
            acc = acc.sum(Term::lit(self.weights[i]));
            sums.push(acc.duplicate());
            i = i + 1;
        }
        sums
    }

    /// The index of the value that the uniform draw `r` selects, given the
    /// values of the cumulative weights.
    pub fn select_index(&self, cumulative: &Vec<Scalar>, r: Scalar) -> (index: usize)
        requires
            self.values@.len() > 0,
            cumulative@.len() == self.values@.len(),
        ensures
            index == first_above(cumulative@, r, 0),
            index < self.values@.len(),
            forall|j: int| 0 <= j < index ==> !r.less(#[trigger] cumulative@[j]),
            r.less(cumulative@[index as int]) || index == cumulative@.len() - 1,
    {
        proof {
            lemma_first_above(cumulative@, r, 0);
        }
        let last = cumulative.len() - 1;
        let mut i: usize = 0;
        while i < last && !r.lt(cumulative[i])
            invariant
                last == cumulative@.len() - 1,
                i <= last,
                first_above(cumulative@, r, 0) == first_above(cumulative@, r, i as int),
            decreases last - i,
        {
            i = i + 1;
        }
        i
    }

    /// The value that the uniform draw `r` selects: the first whose
    /// cumulative weight is above `r`, and the last value where none is.
    pub fn select(&self, cumulative: &Vec<Scalar>, r: Scalar) -> (value: Scalar)
        requires
            self.values@.len() > 0,
            cumulative@.len() == self.values@.len(),
        ensures
            value == self.values@[first_above(cumulative@, r, 0)],
    {
        let index = self.select_index(cumulative, r);
        self.values[index]
    }
}

/// The `i`-th draw of every leaf, where `draws` holds one batch for each leaf.
pub open spec fn column(draws: Seq<Vec<Scalar>>, i: int) -> Seq<Scalar> {
    Seq::new(draws.len(), |k: int| draws[k]@[i])
}

impl DistNode {
    /// The number of leaves that need a draw from a random source: all but
    /// the constants.
    pub open spec fn draw_count(self) -> nat
        decreases self,
    {
        match self {
            DistNode::Operation(Ops::Add(l, r))
            | DistNode::Operation(Ops::Mul(l, r))
            | DistNode::Operation(Ops::Sub(l, r))
            | DistNode::Operation(Ops::Div(l, r)) => l.draw_count() + r.draw_count(),
            DistNode::Discrete(DiscreteDist::Constant { .. }) => 0,
            _ => 1,
        }
    }

    /// The leaves that need a draw, from left to right. A leaf that stands
    /// at two places in the tree is listed twice, and drawn from twice.
    pub open spec fn random_leaves(self) -> Seq<DistNode>
        decreases self,
    {
        match self {
            DistNode::Operation(Ops::Add(l, r))
            | DistNode::Operation(Ops::Mul(l, r))
            | DistNode::Operation(Ops::Sub(l, r))
            | DistNode::Operation(Ops::Div(l, r)) => l.random_leaves() + r.random_leaves(),
            DistNode::Discrete(DiscreteDist::Constant { .. }) => Seq::empty(),
            _ => seq![self],
        }
    }

    /// One outcome of the expression, as a formula over the draws of its
    /// leaves: the `k`-th leaf that needs a draw takes `draws[start + k]`, a
    /// constant contributes its number, and an operation applies its
    /// operator to the outcomes of its operands.
    pub open spec fn outcome(self, draws: Seq<Scalar>, start: int) -> Term
        decreases self,
    {
        match self {
            DistNode::Operation(ops) => arithmetic(
                ops.operator(),
                ops.left().outcome(draws, start),
                ops.right().outcome(draws, start + ops.left().draw_count()),
            ),
            DistNode::Discrete(DiscreteDist::Constant { dist }) => Term::Lit(dist.number),
            _ => Term::Lit(draws[start]),
        }
    }

    /// Appends the leaves that need a draw to `found`, from left to right.
    fn collect_leaves<'a>(&'a self, found: &mut Vec<&'a DistNode>)
        ensures
            final(found)@.len() == old(found)@.len() + self.draw_count(),
            self.random_leaves().len() == self.draw_count(),
            forall|i: int| 0 <= i < old(found)@.len() ==> final(found)@[i] == old(found)@[i],
            forall|i: int|
                0 <= i < self.draw_count() ==> *final(found)@[old(found)@.len() + i]
                    == self.random_leaves()[i],
        decreases self,
    {
        match self {
            DistNode::Operation(Ops::Add(l, r))
            | DistNode::Operation(Ops::Mul(l, r))
            | DistNode::Operation(Ops::Sub(l, r))
            | DistNode::Operation(Ops::Div(l, r)) => {
                l.collect_leaves(found);
                r.collect_leaves(found);
            },
            DistNode::Discrete(DiscreteDist::Constant { .. }) => {},
            _ => {
                found.push(self);
            },
        }
    }

    /// The leaves that need a draw, from left to right: one entry for each
    /// draw that `sample` takes, in the order in which it takes them.
    pub fn leaves_to_draw(&self) -> (found: Vec<&DistNode>)
        ensures
            found@.len() == self.draw_count(),
            found@.len() == self.random_leaves().len(),
            forall|i: int| 0 <= i < found@.len() ==> *found@[i] == self.random_leaves()[i],
    {
        let mut found: Vec<&DistNode> = Vec::new();
        self.collect_leaves(&mut found);
        found
    }

    /// Counts the leaves that need a draw, from `start` up: the index behind
    /// the last draw, or nothing once `limit` would be passed.
    fn count_from(&self, start: usize, limit: usize) -> (end: Option<usize>)
        requires
            start <= limit,
        ensures
            end matches Some(e) ==> e == start + self.draw_count() && e <= limit,
            end is None ==> start + self.draw_count() > limit,
        decreases self,
    {
        match self {
            DistNode::Operation(Ops::Add(l, r))
            | DistNode::Operation(Ops::Mul(l, r))
            | DistNode::Operation(Ops::Sub(l, r))
            | DistNode::Operation(Ops::Div(l, r)) => match l.count_from(start, limit) {
                Some(mid) => r.count_from(mid, limit),
                None => None,
            },
            DistNode::Discrete(DiscreteDist::Constant { .. }) => Some(start),
            _ => if start < limit {
                Some(start + 1)
            } else {
                None
            },
        }
    }

    /// Whether `count` is the number of draws that one outcome takes.
    pub fn expects_draws(&self, count: usize) -> (b: bool)
        ensures
            b == (self.draw_count() == count),
    {
        match self.count_from(0, count) {
            Some(end) => end == count,
            None => false,
        }
    }

    /// The outcome on the draws from `start` on, and the index behind the
    /// last draw taken.
    fn sample_from(&self, draws: &Vec<Scalar>, start: usize) -> (r: (Term, usize))
        requires
            start + self.draw_count() <= draws@.len(),
        ensures
            r.0 == self.outcome(draws@, start as int),
            r.1 == start + self.draw_count(),
        decreases self,
    {
        match self {
            DistNode::Operation(ops) => {
                let (l, r) = ops.operands();
                let (a, mid) = l.sample_from(draws, start);
                let (b, end) = r.sample_from(draws, mid);
                (arithmetic_term(ops.kind(), a, b), end)
            },
            DistNode::Discrete(DiscreteDist::Constant { dist }) => (Term::lit(dist.sample()), start),
            _ => {
                assert(start < draws.len());
                (Term::lit(draws[start]), start + 1)
            },
        }
    }

    /// One outcome of the expression, given one draw for each leaf that
    /// needs one, in the order of `leaves_to_draw`.
    pub fn sample(&self, draws: &Vec<Scalar>) -> (t: Term)
        requires
            draws@.len() == self.draw_count(),
        ensures
            t == self.outcome(draws@, 0),
    {
        self.sample_from(draws, 0).0
    }

    /// `n` outcomes of the expression, in order, given a batch of `n` draws
    /// for each leaf that needs one: the `i`-th outcome is computed from the
    /// `i`-th draw of every batch.
    pub fn nsample(&self, n: usize, draws: &Vec<Vec<Scalar>>) -> (outcomes: Vec<Term>)
        requires
            draws@.len() == self.draw_count(),
            forall|k: int| 0 <= k < draws@.len() ==> (#[trigger] draws@[k])@.len() == n,
        ensures
            outcomes@.len() == n,
            forall|i: int|
                0 <= i < n ==> #[trigger] outcomes@[i] == self.outcome(column(draws@, i), 0),
    {
        let mut outcomes: Vec<Term> = Vec::new();
        let mut i: usize = 0;
        while i < n
            invariant
                i <= n,
                outcomes@.len() == i,
                draws@.len() == self.draw_count(),
                forall|k: int| 0 <= k < draws@.len() ==> (#[trigger] draws@[k])@.len() == n,
                forall|j: int|
                    0 <= j < i ==> #[trigger] outcomes@[j] == self.outcome(column(draws@, j), 0),
            decreases n - i,
        {
            let mut row: Vec<Scalar> = Vec::new();
            let mut k: usize = 0;
            while k < draws.len()
                invariant
                    i < n,
                    k <= draws@.len(),
                    row@.len() == k,
                    forall|m: int| 0 <= m < draws@.len() ==> (#[trigger] draws@[m])@.len() == n,
                    forall|m: int| 0 <= m < k ==> row@[m] == draws@[m]@[i as int],
                decreases draws@.len() - k,
            {
                row.push(draws[k][i]);
                k = k + 1;
            }
            assert(row@ =~= column(draws@, i as int));
            outcomes.push(self.sample(&row));
            i = i + 1;
        }
        outcomes
    }
}

/// A constant needs no draw, and every outcome of it is its number.
pub proof fn lemma_constant_outcome(number: Scalar, draws: Seq<Scalar>, start: int)
    ensures
        DistNode::constant(number).draw_count() == 0,
        DistNode::constant(number).outcome(draws, start) == Term::Lit(number),
{
}

/// The two operands of an operation are evaluated on draws of their own:
/// the left one on the first of them, the right one on those that follow, so
/// that no draw reaches both, even where the two operands are alike.
pub proof fn lemma_operands_draw_apart(
    op: Operator,
    left: DistNode,
    right: DistNode,
    draws: Seq<Scalar>,
    start: int,
)
    ensures
        DistNode::wrap(op, left, right).draw_count() == left.draw_count() + right.draw_count(),
        DistNode::wrap(op, left, right).random_leaves() == left.random_leaves()
            + right.random_leaves(),
        DistNode::wrap(op, left, right).outcome(draws, start) == arithmetic(
            op,
            left.outcome(draws, start),
            right.outcome(draws, start + left.draw_count()),
        ),
{
}

} // verus!
