use squigglers::distributions::{
    ConstructionError, ContinuousDist, DiscreteDist, DistNode, Operator, Ops,
};
use squigglers::functions::to;
use squigglers::interface::{
    Constant, LogNormal, Normal, Poisson, Recipe, Triangular, Uniform,
};
use squigglers::operations::Outcome;
use squigglers::scalar::Scalar;
use squigglers::term::Term;
use statrs::distribution::{ContinuousCDF, LogNormal as LogNormalDist, Normal as NormalDist};
use statrs::statistics::{Distribution, Median};

fn num(x: f64) -> Scalar {
    Scalar::from_bits(x.to_bits())
}

fn val(s: Scalar) -> f64 {
    f64::from_bits(s.to_bits())
}

fn eval(t: &Term) -> f64 {
    match t {
        Term::Lit(s) => val(*s),
        Term::Add(a, b) => eval(a) + eval(b),
        Term::Sub(a, b) => eval(a) - eval(b),
        Term::Mul(a, b) => eval(a) * eval(b),
        Term::Div(a, b) => eval(a) / eval(b),
        Term::Square(a) => eval(a).powi(2),
        Term::Sqrt(a) => eval(a).sqrt(),
        Term::Ln(a) => eval(a).ln(),
        Term::Quantile(a) => NormalDist::new(0., 1.).unwrap().inverse_cdf(eval(a)),
        Term::LogNormalMean(l, s) => LogNormalDist::new(eval(l), eval(s)).unwrap().mean().unwrap(),
        Term::LogNormalMedian(l, s) => LogNormalDist::new(eval(l), eval(s)).unwrap().median(),
    }
}

fn finish(recipe: Recipe) -> Result<DistNode, ConstructionError> {
    let first = eval(recipe.first());
    let second = match recipe.second() {
        Some(t) => eval(t),
        None => 0.0,
    };
    recipe.build(num(first), num(second))
}

fn resolve(out: Outcome) -> DistNode {
    match out {
        Outcome::Node(node) => node,
        Outcome::Recipe(recipe) => finish(recipe).unwrap(),
    }
}

fn normal(mean: f64, std_dev: f64) -> DistNode {
    Normal::from_mean(num(mean), num(std_dev))
}

fn log_normal(location: f64, scale: f64) -> DistNode {
    LogNormal::from_loc(num(location), num(scale)).unwrap()
}

fn constant(x: f64) -> DistNode {
    Constant::new(num(x))
}

fn normal_params(node: &DistNode) -> (f64, f64) {
    match node {
        DistNode::Continuous(ContinuousDist::Normal { mean, std_dev }) => (val(*mean), val(*std_dev)),
        other => panic!("not a normal leaf: {:?}", other),
    }
}

fn log_normal_params(node: &DistNode) -> (f64, f64) {
    match node {
        DistNode::Continuous(ContinuousDist::LogNormal { location, scale }) => {
            (val(*location), val(*scale))
        }
        other => panic!("not a log-normal leaf: {:?}", other),
    }
}

fn constant_value(node: &DistNode) -> f64 {
    match node {
        DistNode::Discrete(DiscreteDist::Constant { dist }) => val(dist.number()),
        other => panic!("not a constant leaf: {:?}", other),
    }
}

fn close(a: f64, b: f64) -> bool {
    (a - b).abs() <= 1e-9 * (1.0 + a.abs().max(b.abs()))
}

#[test]
fn normal_sum_optimization() {
    let d1 = normal(0., 1.);
    let d2 = normal(2., 1.5);
    let d3 = normal(2., 3.25f64.sqrt());
    assert_eq!(resolve(d1.add(d2)), d3);
}

#[test]
fn normal_sum_within_tolerance() {
    let sum = resolve(Normal::from_mean(num(0.), num(1.)).add(Normal::from_mean(num(2.), num(1.5))));
    let (mean, std_dev) = normal_params(&sum);
    assert_eq!(mean, 2.0);
    assert!((std_dev - 1.8028).abs() < 1e-4);
    assert_eq!(std_dev, (1.0f64 * 1.0 + 1.5 * 1.5).sqrt());
}

#[test]
fn normal_sum_is_a_recipe_over_the_parameters() {
    let out = normal(0.25, 3.).add(normal(-1.5, 4.));
    let expected = Outcome::Recipe(Recipe::Normal {
        mean: Term::lit(num(0.25)).sum(Term::lit(num(-1.5))),
        std_dev: Term::Square(Box::new(Term::lit(num(3.))))
            .sum(Term::Square(Box::new(Term::lit(num(4.)))))
            .sqrt(),
    });
    assert_eq!(out, expected);
    assert_eq!(resolve(expected), normal(-1.25, 5.));
}

#[test]
fn normal_sum_exact_for_many_parameters() {
    let means = [0.0, -3.5, 1e9, 2.25, -1e-7];
    let devs = [0.0, 0.5, 1.0, 12.0, 1e5];
    for m1 in means {
        for m2 in means {
            for s1 in devs {
                for s2 in devs {
                    let sum = resolve(normal(m1, s1).add(normal(m2, s2)));
                    assert_eq!(sum, normal(m1 + m2, (s1 * s1 + s2 * s2).sqrt()));
                }
            }
        }
    }
}

#[test]
fn normal_difference_pools_the_deviations() {
    let diff = resolve(normal(5., 3.).sub(normal(2., 4.)));
    assert_eq!(diff, normal(3., 5.));
}

#[test]
fn constants_fold_under_every_operator() {
    let pairs = [(6.0, 3.0), (-2.5, 0.5), (1e10, -4.0), (0.0, 7.0)];
    for (a, b) in pairs {
        assert_eq!(resolve(constant(a).add(constant(b))), constant(a + b));
        assert_eq!(resolve(constant(a).sub(constant(b))), constant(a - b));
        assert_eq!(resolve(constant(a).mul(constant(b))), constant(a * b));
        assert_eq!(resolve(constant(a).div(constant(b))), constant(a / b));
    }
    assert_eq!(constant_value(&resolve(constant(6.0).div(constant(3.0)))), 2.0);
    assert_eq!(constant_value(&resolve(constant(6.0).sub(constant(3.0)))), 3.0);
}

#[test]
fn constant_divided_by_zero_constant_is_zero() {
    assert_eq!(constant(5.0).div(constant(0.0)), Outcome::Node(constant(0.0)));
    assert_eq!(constant(5.0).div(constant(-0.0)), Outcome::Node(constant(0.0)));
    assert_eq!(num(5.0).div(constant(0.0)), Outcome::Node(constant(0.0)));
    assert_eq!(constant_value(&resolve(num(5.0).div(constant(2.0)))), 2.5);
}

#[test]
fn normal_times_zero_is_constant_zero() {
    assert_eq!(normal(3., 2.).mul_scalar(num(0.0)), Outcome::Node(constant(0.0)));
    assert_eq!(normal(3., 2.).mul_scalar(num(-0.0)), Outcome::Node(constant(0.0)));
    assert_eq!(normal(3., 2.).div_scalar(num(0.0)), Outcome::Node(constant(0.0)));
    assert_eq!(constant_value(&resolve(normal(3., 2.).div_scalar(num(0.0)))), 0.0);
}

#[test]
fn any_expression_times_zero_is_constant_zero() {
    let tree = resolve(normal(0., 1.).mul(normal(0., 1.)));
    assert_eq!(tree.mul_scalar(num(0.0)), Outcome::Node(constant(0.0)));
    let poisson = Poisson::new(num(2.0)).unwrap();
    assert_eq!(poisson.div_scalar(num(0.0)), Outcome::Node(constant(0.0)));
    assert_eq!(num(0.0).div(normal(1., 1.)), Outcome::Node(constant(0.0)));
}

#[test]
fn normal_and_scalar() {
    assert_eq!(resolve(normal(1., 2.).add_scalar(num(3.))), normal(4., 2.));
    assert_eq!(resolve(normal(1., 2.).sub_scalar(num(3.))), normal(-2., 2.));
    assert_eq!(resolve(normal(1., 2.).mul_scalar(num(-3.))), normal(-3., 6.));
    assert_eq!(resolve(normal(1., 2.).div_scalar(num(-4.))), normal(-0.25, 0.5));
    assert_eq!(resolve(num(10.).sub(normal(1., 2.))), normal(9., 2.));
}

#[test]
fn constant_and_scalar() {
    assert_eq!(resolve(constant(8.).add_scalar(num(2.))), constant(10.));
    assert_eq!(resolve(constant(8.).sub_scalar(num(2.))), constant(6.));
    assert_eq!(resolve(constant(8.).mul_scalar(num(2.))), constant(16.));
    assert_eq!(resolve(constant(8.).div_scalar(num(2.))), constant(4.));
    assert_eq!(resolve(num(2.).sub(constant(8.))), constant(-6.));
    assert_eq!(resolve(num(2.).div(constant(8.))), constant(0.25));
}

#[test]
fn log_normal_product_and_quotient() {
    let (l1, s1, l2, s2) = (0.5f64, 0.75f64, 1.25f64, 0.4f64);
    let loc = |l: f64, s: f64| LogNormalDist::new(l, s).unwrap().median().ln();
    let var = |l: f64, s: f64| 2. * LogNormalDist::new(l, s).unwrap().mean().unwrap().ln() - loc(l, s);
    let scale = (var(l1, s1) + var(l2, s2)).sqrt();

    let product = resolve(log_normal(l1, s1).mul(log_normal(l2, s2)));
    assert_eq!(log_normal_params(&product), (loc(l1, s1) + loc(l2, s2), scale));
    let quotient = resolve(log_normal(l1, s1).div(log_normal(l2, s2)));
    assert_eq!(log_normal_params(&quotient), (loc(l1, s1) - loc(l2, s2), scale));
    assert!(close(log_normal_params(&product).0, l1 + l2));
}

#[test]
fn log_normal_product_with_a_negative_recovered_variance_fails_to_build() {
    match log_normal(-3., 0.5).mul(log_normal(-2., 0.25)) {
        Outcome::Recipe(recipe) => {
            assert!(eval(recipe.second().unwrap()).is_nan());
            assert_eq!(finish(recipe), Err(ConstructionError::NonPositiveScale));
        }
        out => panic!("not folded: {:?}", out),
    }
}

#[test]
fn log_normal_and_scalar_shift_the_location() {
    let scaled = resolve(log_normal(1.5, 0.3).mul_scalar(num(-4.0)));
    assert_eq!(log_normal_params(&scaled), (1.5 + 4.0f64.ln(), 0.3));
    let shrunk = resolve(log_normal(1.5, 0.3).div_scalar(num(4.0)));
    assert_eq!(log_normal_params(&shrunk), (1.5 - 4.0f64.ln(), 0.3));
    let inverse = resolve(num(-4.0).div(log_normal(1.5, 0.3)));
    assert_eq!(log_normal_params(&inverse), (4.0f64.ln() - 1.5, 0.3));
}

#[test]
fn pairs_without_a_rule_are_wrapped_unmodified() {
    let out = normal(0., 1.).mul(normal(0., 1.));
    assert_eq!(
        out,
        Outcome::Node(DistNode::Operation(Ops::Mul(Box::new(normal(0., 1.)), Box::new(normal(0., 1.)))))
    );
    let out = normal(0., 1.).div(normal(2., 1.));
    assert_eq!(
        out,
        Outcome::Node(DistNode::Operation(Ops::Div(Box::new(normal(0., 1.)), Box::new(normal(2., 1.)))))
    );
    let out = log_normal(0., 1.).add(log_normal(2., 1.));
    assert_eq!(
        out,
        Outcome::Node(DistNode::Operation(Ops::Add(
            Box::new(log_normal(0., 1.)),
            Box::new(log_normal(2., 1.))
        )))
    );
    let out = normal(0., 1.).add(constant(2.));
    assert_eq!(
        out,
        Outcome::Node(DistNode::Operation(Ops::Add(Box::new(normal(0., 1.)), Box::new(constant(2.)))))
    );
}

#[test]
fn other_families_are_always_wrapped() {
    let make: [fn() -> DistNode; 4] = [
        || Poisson::new(num(3.)).unwrap(),
        || Triangular::new(num(0.), num(1.), num(2.)).unwrap(),
        || Uniform::new(num(0.), num(1.)).unwrap(),
        || {
            DistNode::Discrete(DiscreteDist::Discrete {
                dist: squigglers::distributions::Discrete::new(vec![num(1.)], vec![num(1.)]).unwrap(),
            })
        },
    ];
    let others: [fn() -> DistNode; 3] = [|| normal(0., 1.), || log_normal(0., 1.), || constant(1.)];
    for op in [Operator::Add, Operator::Sub, Operator::Mul, Operator::Div] {
        for odd in make {
            for other in others {
                match odd().combine(op, other()) {
                    Outcome::Node(DistNode::Operation(ops)) => {
                        assert_eq!(ops.kind(), op);
                        assert_eq!(ops, Ops::new(op, odd(), other()));
                    }
                    out => panic!("folded: {:?}", out),
                }
                assert_eq!(
                    other().combine(op, odd()),
                    Outcome::Node(DistNode::Operation(Ops::new(op, other(), odd())))
                );
            }
            assert_eq!(
                odd().combine_scalar(op, num(2.)),
                Outcome::Node(DistNode::Operation(Ops::new(op, odd(), constant(2.))))
            );
        }
    }
    let uniform = || Uniform::new(num(0.), num(1.)).unwrap();
    assert_eq!(
        num(2.).sub(uniform()),
        Outcome::Node(DistNode::Operation(Ops::Sub(Box::new(constant(2.)), Box::new(uniform()))))
    );
    assert_eq!(
        num(2.).div(uniform()),
        Outcome::Node(DistNode::Operation(Ops::Div(Box::new(constant(2.)), Box::new(uniform()))))
    );
    assert_eq!(
        num(2.).div(normal(1., 1.)),
        Outcome::Node(DistNode::Operation(Ops::Div(Box::new(constant(2.)), Box::new(normal(1., 1.)))))
    );
}

#[test]
fn operations_nest() {
    let inner = resolve(normal(0., 1.).mul(normal(1., 1.)));
    let outer = resolve(inner.add(constant(3.)));
    match &outer {
        DistNode::Operation(Ops::Add(l, r)) => {
            assert_eq!(**l, resolve(normal(0., 1.).mul(normal(1., 1.))));
            assert_eq!(**r, constant(3.));
        }
        other => panic!("not a sum: {:?}", other),
    }
}

#[test]
fn to_picks_the_family_by_the_sign_of_the_lower_bound() {
    let wide = to(num(8_100_000.), num(8_400_000.), num(90.));
    assert!(matches!(wide, Recipe::LogNormal { .. }));
    assert!(matches!(finish(wide), Ok(DistNode::Continuous(ContinuousDist::LogNormal { .. }))));

    let centred = to(num(-5.), num(5.), num(90.));
    assert!(matches!(centred, Recipe::Normal { .. }));
    assert!(matches!(finish(centred), Ok(DistNode::Continuous(ContinuousDist::Normal { .. }))));

    assert!(matches!(to(num(0.), num(5.), num(90.)), Recipe::Normal { .. }));
    assert!(matches!(to(num(-0.), num(5.), num(90.)), Recipe::Normal { .. }));
    assert!(matches!(to(num(f64::NAN), num(5.), num(90.)), Recipe::Normal { .. }));
    assert!(matches!(to(num(f64::MIN_POSITIVE), num(5.), num(90.)), Recipe::LogNormal { .. }));
}

#[test]
fn normal_from_range() {
    let node = finish(Normal::from_range(num(-5.), num(5.), num(90.))).unwrap();
    let (mean, std_dev) = normal_params(&node);
    let z = NormalDist::new(0., 1.).unwrap().inverse_cdf(0.95);
    assert_eq!(mean, 0.0);
    assert_eq!(std_dev, 5.0 / z);
    assert!((std_dev - 3.0398).abs() < 1e-3);

    let node = finish(Normal::from_range(num(10.), num(2.), num(50.))).unwrap();
    let (mean, std_dev) = normal_params(&node);
    let z = NormalDist::new(0., 1.).unwrap().inverse_cdf(0.75);
    assert_eq!(mean, 6.0);
    assert_eq!(std_dev, (4.0 / z).abs());
}

#[test]
fn log_normal_from_range() {
    let (x, y) = (8_100_000.0f64, 8_400_000.0f64);
    let node = finish(LogNormal::from_range(num(x), num(y), num(90.))).unwrap();
    let (location, scale) = log_normal_params(&node);
    let z = NormalDist::new(0., 1.).unwrap().inverse_cdf(0.5 * (1. + 90. / 100.));
    assert_eq!(location, (x.ln() + y.ln()) / 2.);
    assert_eq!(scale, (y.ln() - (x.ln() + y.ln()) / 2.) / z);
    assert!(scale > 0.0);
}

#[test]
fn log_normal_from_mean_matches_moments() {
    let node = finish(LogNormal::from_mean(num(3.), num(0.5))).unwrap();
    let (location, scale) = log_normal_params(&node);
    assert_eq!(location, (9.0f64 / (9.0f64 + 0.25).sqrt()).ln());
    assert_eq!(scale, (1.0f64 + 0.25 / 9.0).ln().sqrt());
    let dist = LogNormalDist::new(location, scale).unwrap();
    assert!(close(dist.mean().unwrap(), 3.0));
    assert!(close(dist.std_dev().unwrap(), 0.5));
}

#[test]
fn normal_takes_the_absolute_deviation() {
    assert_eq!(normal(1., -2.), normal(1., 2.));
    assert_eq!(normal_params(&normal(1., -2.)), (1., 2.));
    assert_eq!(normal_params(&normal(1., 0.)), (1., 0.));
    assert!(!normal_params(&normal(1., -0.)).1.is_sign_negative());
}

#[test]
fn construction_errors() {
    assert_eq!(LogNormal::from_loc(num(0.), num(0.)), Err(ConstructionError::NonPositiveScale));
    assert_eq!(LogNormal::from_loc(num(0.), num(-1.)), Err(ConstructionError::NonPositiveScale));
    assert_eq!(LogNormal::from_loc(num(0.), num(f64::NAN)), Err(ConstructionError::NonPositiveScale));
    assert!(LogNormal::from_loc(num(0.), num(f64::MIN_POSITIVE)).is_ok());

    assert_eq!(Poisson::new(num(0.)), Err(ConstructionError::NonPositiveRate));
    assert_eq!(Poisson::new(num(-3.)), Err(ConstructionError::NonPositiveRate));
    assert!(Poisson::new(num(0.1)).is_ok());

    assert_eq!(Uniform::new(num(2.), num(1.)), Err(ConstructionError::BoundsOutOfOrder));
    assert!(Uniform::new(num(1.), num(1.)).is_ok());
    assert!(Uniform::new(num(-1.), num(1.)).is_ok());

    assert_eq!(Triangular::new(num(0.), num(3.), num(2.)), Err(ConstructionError::BoundsOutOfOrder));
    assert_eq!(Triangular::new(num(1.), num(0.), num(2.)), Err(ConstructionError::BoundsOutOfOrder));
    assert_eq!(Triangular::new(num(2.), num(1.), num(0.)), Err(ConstructionError::BoundsOutOfOrder));
    assert_eq!(
        Triangular::new(num(0.), num(f64::NAN), num(2.)),
        Err(ConstructionError::BoundsOutOfOrder)
    );
    assert!(Triangular::new(num(0.), num(1.), num(2.)).is_ok());
    assert!(Triangular::new(num(-0.), num(0.), num(0.)).is_ok());

    assert_eq!(
        squigglers::distributions::Discrete::new(vec![num(1.), num(2.)], vec![num(1.)]),
        Err(ConstructionError::LengthMismatch)
    );
    assert!(squigglers::distributions::Discrete::new(vec![num(1.)], vec![num(1.)]).is_ok());
}

#[test]
fn a_recipe_with_a_bad_scale_fails_to_build() {
    let recipe = LogNormal::from_range(num(5.), num(2.), num(90.));
    assert_eq!(finish(recipe), Err(ConstructionError::NonPositiveScale));
}

#[test]
fn recipes_expose_their_formulas() {
    let recipe = Recipe::Constant { value: Term::lit(num(3.)) };
    assert_eq!(*recipe.first(), Term::Lit(num(3.)));
    assert!(recipe.second().is_none());
    let recipe = Normal::from_range(num(1.), num(2.), num(3.));
    assert!(recipe.second().is_some());
    assert_eq!(eval(recipe.first()), 1.5);
    assert_eq!(recipe.first().duplicate(), *recipe.first());
}
