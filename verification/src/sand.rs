//! The Jacobian-driven corrector: each round solves the caller's Jacobian
//! capability four times, Runge-Kutta style, and applies the weighted
//! combination of the four stages as the correction.
//!
//! The residual is checked against the tolerance before each correction; a
//! refused Jacobian solve (an unimplemented or mis-shaped configuration)
//! surfaces immediately as an error, never as a silent approximation.

use vstd::prelude::*;
use crate::fp::{F_HALF, F_SIX, F_TWO};
use crate::traits::{JacobianError, JacobianMap, VectorFunction};
use crate::vecmath::{
    residual_within_tol, vadd_bits, vdiv_scalar_bits, vscale_bits, vscale_right_bits, vsub_bits,
    fp_residual_within_tol, fp_vadd, fp_vcopy, fp_vdiv_scalar, fp_vscale, fp_vscale_right,
    fp_vsub,
};

verus! {

/// The corrector iteration from iterate `x` at round `k`: the iterate the
/// run ends with, or the error of the first refused Jacobian solve.  The
/// four stages solve the capability at `x`, at `x - k1 * 0.5`, at
/// `x - k2 * 0.5` and at `x - k3`, all against the residual at `x`, and the
/// correction is `(k1 + 2 (k2 + k3) + k4) / 6`.
pub open spec fn sand_loop<F: VectorFunction, G: JacobianMap>(
    f: &F,
    g: &G,
    tol: Seq<u64>,
    x: Seq<u64>,
    k: int,
    maxiter: int,
) -> Result<Seq<u64>, JacobianError>
    decreases maxiter - k,
{
    if k >= maxiter {
        Ok(x)
    } else {
        let fv = f.value(x);
        if residual_within_tol(fv, tol) {
            Ok(x)
        } else if !g.ok_at(x, fv) {
            Err(g.error_at(x, fv))
        } else {
            let k1 = g.value_at(x, fv);
            let xb = vsub_bits(x, vscale_right_bits(k1, F_HALF));
            if !g.ok_at(xb, fv) {
                Err(g.error_at(xb, fv))
            } else {
                let k2 = g.value_at(xb, fv);
                let xc = vsub_bits(x, vscale_right_bits(k2, F_HALF));
                if !g.ok_at(xc, fv) {
                    Err(g.error_at(xc, fv))
                } else {
                    let k3 = g.value_at(xc, fv);
                    let xd = vsub_bits(x, k3);
                    if !g.ok_at(xd, fv) {
                        Err(g.error_at(xd, fv))
                    } else {
                        let k4 = g.value_at(xd, fv);
                        let x2 = vsub_bits(
                            x,
                            vdiv_scalar_bits(
                                vadd_bits(vadd_bits(k1, vscale_bits(F_TWO, vadd_bits(k2, k3))), k4),
                                F_SIX,
                            ),
                        );
                        sand_loop(f, g, tol, x2, k + 1, maxiter)
                    }
                }
            }
        }
    }
}

/// Idempotence at a converged point: re-entering the iteration anywhere at
/// a point whose residual is already within tolerance hands that point back
/// unchanged, with no correction and no Jacobian solve.
pub proof fn lemma_sand_converged_point_is_fixed<F: VectorFunction, G: JacobianMap>(
    f: &F,
    g: &G,
    tol: Seq<u64>,
    x: Seq<u64>,
    k: int,
    maxiter: int,
)
    requires
        residual_within_tol(f.value(x), tol),
    ensures
        sand_loop(f, g, tol, x, k, maxiter) == Ok::<Seq<u64>, JacobianError>(x),
{
}

/// Whether a solver result agrees with the spec-level outcome.
pub open spec fn sand_result_matches(
    out: Result<Vec<u64>, JacobianError>,
    expected: Result<Seq<u64>, JacobianError>,
) -> bool {
    match (out, expected) {
        (Ok(x), Ok(xs)) => x@ == xs,
        (Err(e), Err(es)) => e == es,
        _ => false,
    }
}

/// The corrector: an evaluation function, a Jacobian capability, and an
/// iteration cap.
pub struct Sand<F, G> {
    /// The residual function.
    pub f: F,
    /// The Jacobian-solve capability.
    pub jac: G,
    /// The iteration cap.
    pub max_iter: usize,
}

impl<F: VectorFunction, G: JacobianMap> Sand<F, G> {
    /// A corrector over `f` and `jac` with the default cap of 500.
    pub fn new(f: F, jac: G) -> (r: Self)
        ensures
            r.f == f,
            r.jac == jac,
            r.max_iter == 500,
    {
        Self { f, jac, max_iter: 500 }
    }

    /// The same corrector with another iteration cap.
    pub fn with_max_iteration(self, max_iter: usize) -> (r: Self)
        ensures
            r.f == self.f,
            r.jac == self.jac,
            r.max_iter == max_iter,
    {
        Self { max_iter, ..self }
    }

    /// Run the corrector from `init` with per-component tolerances `tol`.
    /// The result is exactly the spec-level run: the iterate at the first
    /// within-tolerance residual, the last iterate if the cap is exhausted
    /// (silently), or the error of the first refused Jacobian solve.
    pub fn solve(&self, init: &Vec<u64>, tol: &Vec<u64>) -> (out: Result<Vec<u64>, JacobianError>)
        requires
            tol@.len() == init@.len(),
        ensures
            sand_result_matches(
                out,
                sand_loop(&self.f, &self.jac, tol@, init@, 0, self.max_iter as int),
            ),
    {
        let mut x = fp_vcopy(init);
        let mut k: usize = 0;
        while k < self.max_iter
            invariant
                tol@.len() == x@.len(),
                k <= self.max_iter,
                sand_loop(&self.f, &self.jac, tol@, x@, k as int, self.max_iter as int)
                    == sand_loop(&self.f, &self.jac, tol@, init@, 0, self.max_iter as int),
            decreases self.max_iter - k,
        {
            let fv = self.f.eval(&x);
            if fp_residual_within_tol(&fv, tol) {
                return Ok(x);
            }
            let k1 = match self.jac.solve_at(&x, &fv) {
                Ok(v) => v,
                Err(e) => {
                    return Err(e);
                },
            };
            let xb = fp_vsub(&x, &fp_vscale_right(&k1, F_HALF));
            let k2 = match self.jac.solve_at(&xb, &fv) {
                Ok(v) => v,
                Err(e) => {
                    return Err(e);
                },
            };
            let xc = fp_vsub(&x, &fp_vscale_right(&k2, F_HALF));
            let k3 = match self.jac.solve_at(&xc, &fv) {
                Ok(v) => v,
                Err(e) => {
                    return Err(e);
                },
            };
            let xd = fp_vsub(&x, &k3);
            let k4 = match self.jac.solve_at(&xd, &fv) {
                Ok(v) => v,
                Err(e) => {
                    return Err(e);
                },
            };
            x = fp_vsub(
                &x,
                &fp_vdiv_scalar(
                    &fp_vadd(&fp_vadd(&k1, &fp_vscale(F_TWO, &fp_vadd(&k2, &k3))), &k4),
                    F_SIX,
                ),
            );
            k = k + 1;
        }
        Ok(x)
    }
}

} // verus!
