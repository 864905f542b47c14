//! The vector solvers on concrete problems: Newton-Raphson to machine
//! precision, Broyden on a coupled tangent system, the two fixed-point
//! accelerators on a quadratic, the corrector through a Jacobian
//! capability, and idempotence of re-solving from a converged point.

use findroot::{
    Broyden, DenseMatrix, FullJacobian, Jacobian, JacobianError, JacobianMap, LinearSolver,
    NewtonRaphson, Problem, Sand, Steffensen, VectorFunction, Wegstein,
};

fn b(x: f64) -> u64 {
    x.to_bits()
}

fn d(x: u64) -> f64 {
    f64::from_bits(x)
}

fn rel_close(x: f64, y: f64, tol: f64) -> bool {
    (x - y).abs() <= tol * x.abs().max(y.abs())
}

struct QuadraticRoot;

impl Problem for QuadraticRoot {
    fn fun(&self, x: &Vec<u64>) -> Vec<u64> {
        let v = d(x[0]);
        vec![b(v * v - 2.0)]
    }

    fn jac(&self, x: &Vec<u64>, _fv: &Vec<u64>) -> DenseMatrix {
        DenseMatrix::new(vec![vec![b(2.0 * d(x[0]))]])
    }
}

struct WideJacobian;

impl Problem for WideJacobian {
    fn fun(&self, x: &Vec<u64>) -> Vec<u64> {
        x.clone()
    }

    fn jac(&self, _x: &Vec<u64>, _fv: &Vec<u64>) -> DenseMatrix {
        DenseMatrix::new(vec![vec![b(1.0)], vec![b(1.0)]])
    }
}

struct TinySolver;

impl LinearSolver for TinySolver {
    fn solve_system(&self, a: &DenseMatrix, rhs: &Vec<u64>) -> Vec<u64> {
        // A one-equation elimination; enough for these problems.
        vec![b(d(rhs[0]) / d(a.rows[0][0]))]
    }
}

#[test]
fn newton_reaches_sqrt_two_to_machine_precision() {
    let p = QuadraticRoot;
    let lin = TinySolver;
    let sol = NewtonRaphson::new(&p, &lin)
        .solve(vec![b(2.0)], vec![b(1e-15)])
        .expect("the Jacobian is square");
    let x = d(sol[0]);
    assert!(rel_close(x, 2.0_f64.sqrt(), 1e-15), "got {x}");
}

#[test]
fn newton_non_square_jacobian_is_fatal() {
    let p = WideJacobian;
    let lin = TinySolver;
    let out = NewtonRaphson::new(&p, &lin).solve(vec![b(1.0)], vec![b(1e-15)]);
    match out {
        Err(findroot::newton::NewtonError::NonSquareJacobian { rows, cols }) => {
            assert_eq!((rows, cols), (2, 1));
        },
        other => panic!("expected the non-square error, got {other:?}"),
    }
}

#[test]
fn newton_resolving_from_converged_point_is_idempotent() {
    let p = QuadraticRoot;
    let lin = TinySolver;
    let solver = NewtonRaphson::new(&p, &lin);
    let sol = solver.solve(vec![b(2.0)], vec![b(1e-12)]).unwrap();
    let again = solver.solve(sol.clone(), vec![b(1e-12)]).unwrap();
    assert_eq!(sol, again, "the residual check fires before any step");
}

struct TanSystem;

impl VectorFunction for TanSystem {
    fn eval(&self, x: &Vec<u64>) -> Vec<u64> {
        let x0 = d(x[0]);
        let x1 = d(x[1]);
        vec![b((x0 + x1).tan()), b((x0 - x1).tan())]
    }
}

struct QuadraticFixedPoint;

impl VectorFunction for QuadraticFixedPoint {
    fn eval(&self, x: &Vec<u64>) -> Vec<u64> {
        let v = d(x[0]);
        vec![b(v * v + v - 2.0)]
    }
}

#[test]
fn broyden_solves_the_coupled_tangent_system() {
    let sol = Broyden::new(TanSystem).solve(
        &vec![b(4.0), b(8.0)],
        &vec![b(0.0), b(0.0)],
        &vec![b(1e-15), b(1e-15)],
    );
    let x0 = d(sol[0]);
    let x1 = d(sol[1]);
    assert!(rel_close(x0, (x0 + x1).tan(), 1e-15), "x0 {x0} vs {}", (x0 + x1).tan());
    assert!(rel_close(x1, (x0 - x1).tan(), 1e-15), "x1 {x1} vs {}", (x0 - x1).tan());
}

#[test]
fn broyden_solves_the_scalar_quadratic() {
    let sol = Broyden::new(QuadraticFixedPoint).solve(&vec![b(2.0)], &vec![b(0.0)], &vec![b(1e-15)]);
    assert!(rel_close(d(sol[0]), 2.0_f64.sqrt(), 1e-15), "got {}", d(sol[0]));
}

#[test]
fn steffensen_finds_a_fixed_point_of_the_quadratic() {
    let atol = vec![b(0.0)];
    let rtol = vec![b(1e-15)];
    let sol = Steffensen::new(QuadraticFixedPoint).solve(&vec![b(2.0)], &atol, &rtol);
    let x = d(sol[0]);
    let fx = x * x + x - 2.0;
    assert!((x - fx).abs() < 0.0 + 1e-15 * x.abs().max(fx.abs()), "gap at {x}: {}", (x - fx).abs());
}

#[test]
fn wegstein_finds_a_fixed_point_of_the_quadratic() {
    let atol = vec![b(0.0)];
    let rtol = vec![b(1e-15)];
    let sol = Wegstein::new(QuadraticFixedPoint).solve(&vec![b(2.0)], &atol, &rtol);
    let x = d(sol[0]);
    let fx = x * x + x - 2.0;
    assert!((x - fx).abs() < 0.0 + 1e-15 * x.abs().max(fx.abs()), "gap at {x}: {}", (x - fx).abs());
}

#[test]
fn steffensen_resolving_from_converged_point_is_idempotent() {
    let atol = vec![b(1e-14)];
    let rtol = vec![b(1e-12)];
    let solver = Steffensen::new(QuadraticFixedPoint);
    let sol = solver.solve(&vec![b(2.0)], &atol, &rtol);
    let again = solver.solve(&sol, &atol, &rtol);
    assert_eq!(sol, again, "the first convergence check fires immediately");
}

#[test]
fn wegstein_resolving_from_converged_point_is_idempotent() {
    let atol = vec![b(1e-14)];
    let rtol = vec![b(1e-12)];
    let solver = Wegstein::new(QuadraticFixedPoint);
    let sol = solver.solve(&vec![b(2.0)], &atol, &rtol);
    let again = solver.solve(&sol, &atol, &rtol);
    assert_eq!(sol, again, "the first convergence check fires immediately");
}

#[test]
fn broyden_resolving_from_converged_point_stays_near_it() {
    let atol = vec![b(1e-12)];
    let rtol = vec![b(1e-12)];
    let solver = Broyden::new(QuadraticFixedPoint);
    let sol = solver.solve(&vec![b(2.0)], &atol, &rtol);
    let again = solver.solve(&sol, &atol, &rtol);
    assert!(
        (d(again[0]) - d(sol[0])).abs() <= 1e-9,
        "moved from {} to {}",
        d(sol[0]),
        d(again[0]),
    );
}

struct QuadraticResidual;

impl VectorFunction for QuadraticResidual {
    fn eval(&self, x: &Vec<u64>) -> Vec<u64> {
        let v = d(x[0]);
        vec![b(v * v - 2.0)]
    }
}

struct FullAtPoint;

impl JacobianMap for FullAtPoint {
    fn solve_at(&self, x: &Vec<u64>, rhs: &Vec<u64>) -> Result<Vec<u64>, JacobianError> {
        FullJacobian::new(DenseMatrix::new(vec![vec![b(2.0 * d(x[0]))]])).solve_jacobian(rhs)
    }
}

struct WideBandAtPoint;

impl JacobianMap for WideBandAtPoint {
    fn solve_at(&self, _x: &Vec<u64>, rhs: &Vec<u64>) -> Result<Vec<u64>, JacobianError> {
        BandedWide.solve_jacobian(rhs)
    }
}

struct BandedWide;

impl Jacobian for BandedWide {
    fn solve_jacobian(&self, rhs: &Vec<u64>) -> Result<Vec<u64>, JacobianError> {
        findroot::BandedJacobian::new(2, 2, vec![vec![b(1.0); rhs.len()]; 5]).solve_jacobian(rhs)
    }
}

struct ShiftByOne;

impl VectorFunction for ShiftByOne {
    fn eval(&self, x: &Vec<u64>) -> Vec<u64> {
        vec![b(d(x[0]) + 1.0)]
    }
}

#[test]
fn steffensen_degenerate_denominator_propagates_nonfinite_values() {
    // f(x) = x + 1 has no fixed point and a vanishing Aitken denominator:
    // the division hazard is not masked, so the non-finite iterate survives
    // to the (silently exhausted) cap.
    let sol = Steffensen::new(ShiftByOne).with_max_iteration(3).solve(
        &vec![b(0.0)],
        &vec![b(0.0)],
        &vec![b(1e-15)],
    );
    assert!(!d(sol[0]).is_finite(), "got {}", d(sol[0]));
}

struct Identity;

impl VectorFunction for Identity {
    fn eval(&self, x: &Vec<u64>) -> Vec<u64> {
        x.clone()
    }
}

#[test]
fn solvers_accept_an_empty_system() {
    let empty: Vec<u64> = vec![];
    assert_eq!(Steffensen::new(Identity).solve(&empty, &vec![], &vec![]), empty);
    assert_eq!(Wegstein::new(Identity).solve(&empty, &vec![], &vec![]), empty);
    assert_eq!(Broyden::new(Identity).solve(&empty, &vec![], &vec![]), empty);
}

#[test]
fn sand_reaches_sqrt_two_through_the_capability() {
    let sol = Sand::new(QuadraticResidual, FullAtPoint)
        .solve(&vec![b(2.0)], &vec![b(1e-15)])
        .expect("every stage is a one-equation solve");
    assert!(rel_close(d(sol[0]), 2.0_f64.sqrt(), 1e-15), "got {}", d(sol[0]));
}

#[test]
fn sand_surfaces_the_unsupported_band() {
    let out = Sand::new(QuadraticResidual, WideBandAtPoint).solve(&vec![b(2.0)], &vec![b(1e-15)]);
    assert_eq!(out, Err(JacobianError::Unimplemented));
}

#[test]
fn sand_resolving_from_converged_point_is_idempotent() {
    let solver = Sand::new(QuadraticResidual, FullAtPoint);
    let sol = solver.solve(&vec![b(2.0)], &vec![b(1e-12)]).unwrap();
    let again = solver.solve(&sol, &vec![b(1e-12)]).unwrap();
    assert_eq!(sol, again, "the residual check fires before any correction");
}
