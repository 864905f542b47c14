//! The derivative-based vector root-finder: Newton-Raphson.
//!
//! Each iteration evaluates the residual, stops as soon as every component
//! is within tolerance, otherwise asks the problem for its Jacobian, checks
//! it is square — a non-square Jacobian is a fatal configuration error, not
//! a convergence failure — and takes one linear-solve step.  Exhausting the
//! iteration cap is silent: the last iterate is returned as if converged,
//! and callers needing a guarantee must re-check the residual themselves.

use vstd::prelude::*;
use crate::jacobian::DenseMatrix;
use crate::traits::LinearSolver;
use crate::vecmath::{residual_within_tol, vsub_bits, fp_residual_within_tol, fp_vsub};

verus! {

/// The problem a derivative-based solver consumes: a residual function and
/// a Jacobian-producing function, the latter free to depend on the current
/// residual as well as the point.
pub trait Problem {
    /// The residual value at `x`.  Left unspecified unless an
    /// implementation overrides it.
    open spec fn fun_value(&self, x: Seq<u64>) -> Seq<u64> {
        vstd::pervasive::arbitrary()
    }

    /// The Jacobian produced at `x` with residual `fv`.  Left unspecified
    /// unless an implementation overrides it.
    open spec fn jac_value(&self, x: Seq<u64>, fv: Seq<u64>) -> Seq<Seq<u64>> {
        vstd::pervasive::arbitrary()
    }

    /// Evaluate the residual at `x`.
    fn fun(&self, x: &Vec<u64>) -> (y: Vec<u64>)
        ensures
            y@ == self.fun_value(x@),
            y@.len() == x@.len(),
    ;

    /// Produce the Jacobian at `x` with residual `fv`.
    fn jac(&self, x: &Vec<u64>, fv: &Vec<u64>) -> (j: DenseMatrix)
        ensures
            j@ == self.jac_value(x@, fv@),
    ;
}

/// The fatal configuration error of the derivative-based solver.
#[derive(Debug, Clone, PartialEq, Eq, Structural)]
pub enum NewtonError {
    /// The problem produced a Jacobian that is not square; the fields carry
    /// the row count and the length of the first row that broke the shape.
    NonSquareJacobian { rows: usize, cols: usize },
}

/// Whether a matrix is square: every row as long as there are rows.
pub open spec fn square_shape_ok(m: Seq<Seq<u64>>) -> bool {
    forall|i: int| 0 <= i < m.len() ==> #[trigger] m[i].len() == m.len()
}

/// The length of the first row that breaks the square shape, scanning from
/// row `i`; the row count itself if none does.
pub open spec fn bad_cols(m: Seq<Seq<u64>>, i: int) -> int
    decreases m.len() - i,
        when 0 <= i <= m.len()
{
    if i >= m.len() {
        m.len() as int
    } else if m[i].len() != m.len() {
        m[i].len() as int
    } else {
        bad_cols(m, i + 1)
    }
}

/// The Newton iteration from iterate `x` at step `k`: the iterate the run
/// ends with, or the shape of the first non-square Jacobian it meets.
pub open spec fn newton_loop<P: Problem, L: LinearSolver>(
    p: &P,
    lin: &L,
    x: Seq<u64>,
    tol: Seq<u64>,
    k: int,
    maxiter: int,
) -> Result<Seq<u64>, (int, int)>
    decreases maxiter - k,
        when k <= maxiter
{
    if k >= maxiter {
        Ok(x)
    } else {
        let fv = p.fun_value(x);
        if residual_within_tol(fv, tol) {
            Ok(x)
        } else {
            let j = p.jac_value(x, fv);
            if !square_shape_ok(j) {
                Err((j.len() as int, bad_cols(j, 0)))
            } else {
                newton_loop(p, lin, vsub_bits(x, lin.solution(j, fv)), tol, k + 1, maxiter)
            }
        }
    }
}

/// Idempotence at a converged point: re-entering the iteration anywhere at
/// a point whose residual is already within tolerance hands that point back
/// unchanged, with no further step.
pub proof fn lemma_newton_converged_point_is_fixed<P: Problem, L: LinearSolver>(
    p: &P,
    lin: &L,
    x: Seq<u64>,
    tol: Seq<u64>,
    k: int,
    maxiter: int,
)
    requires
        k <= maxiter,
        residual_within_tol(p.fun_value(x), tol),
    ensures
        newton_loop(p, lin, x, tol, k, maxiter) == Ok::<Seq<u64>, (int, int)>(x),
{
}

/// Whether a solver result agrees with the spec-level outcome.
pub open spec fn newton_result_matches(
    out: Result<Vec<u64>, NewtonError>,
    expected: Result<Seq<u64>, (int, int)>,
) -> bool {
    match (out, expected) {
        (Ok(x), Ok(xs)) => x@ == xs,
        (Err(NewtonError::NonSquareJacobian { rows, cols }), Err((r2, c2))) => rows == r2 && cols
            == c2,
        _ => false,
    }
}

/// Check a matrix for squareness, reporting the first offending row.
fn check_square(m: &DenseMatrix) -> (r: Option<(usize, usize)>)
    ensures
        (match r {
            None => square_shape_ok(m@),
            Some((rows, cols)) => !square_shape_ok(m@) && rows == m@.len() && cols == bad_cols(
                m@,
                0,
            ),
        }),
{
    let n = m.rows.len();
    let mut i: usize = 0;
    while i < n
        invariant
            n == m@.len(),
            i <= n,
            forall|k: int| 0 <= k < i ==> #[trigger] m@[k].len() == m@.len(),
            bad_cols(m@, i as int) == bad_cols(m@, 0),
        decreases n - i,
    {
        if m.rows[i].len() != n {
            return Some((n, m.rows[i].len()));
        }
        i = i + 1;
    }
    None
}

/// The derivative-based solver: a problem, an opaque linear-solve
/// capability, and an iteration cap.
pub struct NewtonRaphson<'a, P, L> {
    /// The problem to solve.
    pub fun: &'a P,
    /// The linear-solve capability each step uses.
    pub lin: &'a L,
    /// The iteration cap.
    pub max_iter: usize,
}

impl<'a, P: Problem, L: LinearSolver> NewtonRaphson<'a, P, L> {
    /// A solver over `fun` using `lin`, with the default cap of 20.
    pub fn new(fun: &'a P, lin: &'a L) -> (r: Self)
        ensures
            r.fun == fun,
            r.lin == lin,
            r.max_iter == 20,
    {
        Self { fun, lin, max_iter: 20 }
    }

    /// The same solver with another iteration cap.
    pub fn with_max_iteration(self, max_iter: usize) -> (r: Self)
        ensures
            r.fun == self.fun,
            r.lin == self.lin,
            r.max_iter == max_iter,
    {
        Self { max_iter, ..self }
    }

    /// Run the iteration from `init` with per-component tolerances `tol`.
    /// The result is exactly the spec-level run: the iterate at the first
    /// within-tolerance residual, the initial/last iterate if the cap is
    /// exhausted (silently), or the fatal non-square-Jacobian error.
    pub fn solve(&self, init: Vec<u64>, tol: Vec<u64>) -> (out: Result<Vec<u64>, NewtonError>)
        requires
            tol@.len() == init@.len(),
        ensures
            newton_result_matches(
                out,
                newton_loop(self.fun, self.lin, init@, tol@, 0, self.max_iter as int),
            ),
    {
        let mut x = init;
        let mut k: usize = 0;
        while k < self.max_iter
            invariant
                tol@.len() == x@.len(),
                k <= self.max_iter,
                newton_loop(self.fun, self.lin, x@, tol@, k as int, self.max_iter as int)
                    == newton_loop(self.fun, self.lin, init@, tol@, 0, self.max_iter as int),
            decreases self.max_iter - k,
        {
            let fv = self.fun.fun(&x);
            if fp_residual_within_tol(&fv, &tol) {
                return Ok(x);
            }
            let j = self.fun.jac(&x, &fv);
            if let Some((rows, cols)) = check_square(&j) {
                return Err(NewtonError::NonSquareJacobian { rows, cols });
            }
            let delta = self.lin.solve_system(&j, &fv);
            x = fp_vsub(&x, &delta);
            k = k + 1;
        }
        Ok(x)
    }
}

} // verus!
