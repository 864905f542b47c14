//! The bracketing solver on concrete problems: convergence on a verified
//! sign change, the precondition error on a same-sign bracket with no extra
//! evaluations, and cap exhaustion reported as `NotConverged`.

use std::cell::Cell;

use findroot::{Brentq, Univariate, UnivariateClosure, UnivariateError};

fn b(x: f64) -> u64 {
    x.to_bits()
}

struct QuadraticMinusTwo;

impl Univariate for QuadraticMinusTwo {
    fn call(&self, x: u64) -> u64 {
        let v = f64::from_bits(x);
        (v * v - 2.0).to_bits()
    }
}

struct Counting {
    count: Cell<u32>,
}

impl Univariate for Counting {
    fn call(&self, x: u64) -> u64 {
        self.count.set(self.count.get() + 1);
        let v = f64::from_bits(x);
        (v * v - 2.0).to_bits()
    }
}

struct Cubic;

impl Univariate for Cubic {
    fn call(&self, x: u64) -> u64 {
        let v = f64::from_bits(x);
        (v * v * v - v - 2.0).to_bits()
    }
}

#[test]
fn brent_converges_to_sqrt_two() {
    let sol = Brentq::new().solve(&QuadraticMinusTwo, b(0.0), b(2.0));
    let x = f64::from_bits(sol.expect("a valid bracket must give a root"));
    assert!((x - 2.0_f64.sqrt()).abs() <= 1e-8, "got {x}");
}

#[test]
fn brent_root_residual_is_small() {
    let sol = Brentq::new().solve(&Cubic, b(1.0), b(2.0));
    let x = f64::from_bits(sol.expect("a valid bracket must give a root"));
    let fx = x * x * x - x - 2.0;
    assert!(fx.abs() <= 1e-7, "residual {fx} at {x}");
}

#[test]
fn brent_mismatched_sign_fails_after_two_evaluations() {
    let f = Counting { count: Cell::new(0) };
    let sol = Brentq::new().solve(&f, b(3.0), b(5.0));
    match sol {
        Err(UnivariateError::Failed(msg)) => {
            assert!(msg.contains("opposite signs"));
        },
        other => panic!("expected the precondition error, got {other:?}"),
    }
    assert_eq!(f.count.get(), 2, "only the two endpoint checks may evaluate f");
}

#[test]
fn brent_cap_exhaustion_reports_not_converged() {
    let sol = Brentq::new().max_iter(1).solve(&QuadraticMinusTwo, b(0.0), b(2.0));
    match sol {
        Err(UnivariateError::NotConverged(a, bb)) => {
            let a = f64::from_bits(a);
            let bb = f64::from_bits(bb);
            assert!(0.0 <= a && a <= 2.0, "endpoint {a}");
            assert!(0.0 <= bb && bb <= 2.0, "endpoint {bb}");
        },
        other => panic!("expected NotConverged, got {other:?}"),
    }
}

#[test]
fn brent_handles_a_decreasing_bracket() {
    struct Decreasing;

    impl Univariate for Decreasing {
        fn call(&self, x: u64) -> u64 {
            let v = f64::from_bits(x);
            (2.0 - v * v).to_bits()
        }
    }

    let sol = Brentq::new().solve(&Decreasing, b(0.0), b(2.0));
    let x = f64::from_bits(sol.expect("a valid bracket must give a root"));
    assert!((x - 2.0_f64.sqrt()).abs() <= 1e-8, "got {x}");
}

#[test]
fn brent_zero_endpoint_is_accepted() {
    struct Shifted;

    impl Univariate for Shifted {
        fn call(&self, x: u64) -> u64 {
            (f64::from_bits(x) - 2.0).to_bits()
        }
    }

    let sol = Brentq::new().solve(&Shifted, b(2.0), b(5.0));
    let x = f64::from_bits(sol.expect("an endpoint residual of zero is a valid bracket"));
    assert!((x - 2.0).abs() <= 1e-7, "got {x}");
}

#[test]
fn univariate_closure_applies_the_wrapped_closure() {
    let f = |x: u64| (f64::from_bits(x) + 1.0).to_bits();
    let wrapped = UnivariateClosure::new(&f);
    assert_eq!(f64::from_bits(wrapped.apply(b(2.0))), 3.0);
}

#[test]
fn linear_interp_matches_the_secant_formula() {
    let r = findroot::brent::linear_interp((b(1.0), b(-1.0)), (b(3.0), b(3.0)));
    // slope inverse (3-1)/(3-(-1)) = 0.5, so 1 - 0.5 * (-1) = 1.5
    assert_eq!(f64::from_bits(r), 1.5);
}

#[test]
fn inverse_quadratic_interp_matches_the_lagrange_formula() {
    let (x0, y0) = (1.0_f64, 2.0_f64);
    let (x1, y1) = (2.0_f64, -1.0_f64);
    let (x2, y2) = (4.0_f64, 3.0_f64);
    let r = findroot::brent::inverse_quadratic_interp(
        (b(x0), b(y0)),
        (b(x1), b(y1)),
        (b(x2), b(y2)),
    );
    let b0 = x0 * y1 * y2 / (y0 - y1) / (y0 - y2);
    let b1 = x1 * y2 * y0 / (y1 - y2) / (y1 - y0);
    let b2 = x2 * y0 * y1 / (y2 - y0) / (y2 - y1);
    assert_eq!(r, (b0 + b1 + b2).to_bits());
}

#[test]
fn converged_orders_the_pair_by_residual_magnitude() {
    let solver = Brentq::new().tol(b(1e-6));
    // Gap far above tolerance: not converged.
    assert!(!solver.converged((b(0.0), b(-2.0)), (b(1.0), b(1.0))));
    // The smaller residual's point is the reference; a zero residual ends it.
    assert!(solver.converged((b(0.0), b(-2.0)), (b(1.0), b(0.0))));
    assert!(solver.converged((b(1.0), b(0.0)), (b(0.0), b(-2.0))));
    // A gap within the scaled tolerance converges.
    assert!(solver.converged((b(1.0), b(-2.0)), (b(1.0 + 1e-8), b(1.0))));
}

#[test]
fn brent_builder_tolerance_is_used() {
    let loose = Brentq::new().tol(b(1e-3)).solve(&QuadraticMinusTwo, b(0.0), b(2.0));
    let x = f64::from_bits(loose.expect("a valid bracket must give a root"));
    assert!((x - 2.0_f64.sqrt()).abs() <= 1e-3, "got {x}");
}
