//! The Jacobian-free quasi-Newton solver: Broyden's rank-1 inverse-Jacobian
//! update, needing only function evaluations.
//!
//! The inverse-Jacobian estimate starts as a diagonal matrix of inverted
//! per-coordinate secant slopes taken from two bootstrap evaluations; each
//! round then applies the "good" rank-1 refresh
//! `Jinv <- Jinv + ((dx - Jinv df) (df)^T) / (df . df)` and proposes the
//! next iterate from it.

use vstd::prelude::*;
use crate::fp::F_TWO;
use crate::traits::VectorFunction;
use crate::vecmath::{
    all_within_tol, diag_bits, dot_bits, matvec_bits, rank1_update_bits, rows_view, vadd_bits,
    vdiv_bits, vscale_bits, vsub_bits, fp_all_within_tol, fp_diag, fp_dot, fp_matvec,
    fp_rank1_update, fp_vadd, fp_vcopy, fp_vdiv, fp_vscale, fp_vsub,
};

verus! {

/// The Broyden iteration, carrying the trailing pair `(x_prev, y_prev)`,
/// the current iterate `x` and the inverse-Jacobian estimate `jinv`.  Each
/// round evaluates `y = f(x)`, refreshes the estimate with the rank-1
/// update, proposes `x2 = jinv * (y - x) + x`, and stops as soon as `x2` is
/// within tolerance of `x`.
pub open spec fn broyden_loop<F: VectorFunction>(
    f: &F,
    atol: Seq<u64>,
    rtol: Seq<u64>,
    x_prev: Seq<u64>,
    y_prev: Seq<u64>,
    x: Seq<u64>,
    jinv: Seq<Seq<u64>>,
    k: int,
    maxiter: int,
) -> Seq<u64>
    decreases maxiter - k,
{
    if k >= maxiter {
        x
    } else {
        let y = f.value(x);
        let dx = vsub_bits(x, x_prev);
        let df = vsub_bits(vsub_bits(x, y), vsub_bits(x_prev, y_prev));
        let acol = vsub_bits(dx, matvec_bits(jinv, df));
        let s = dot_bits(df, df);
        let jinv2 = rank1_update_bits(acol, df, s, jinv);
        let x2 = vadd_bits(matvec_bits(jinv2, vsub_bits(y, x)), x);
        if all_within_tol(x2, x, atol, rtol) {
            x2
        } else {
            broyden_loop(f, atol, rtol, x, y, x2, jinv2, k + 1, maxiter)
        }
    }
}

/// The bootstrap state the main loop starts from: after evaluating
/// `y0 = f(init)` and `z0 = f(y0)`, the diagonal secant estimate
/// `diag((y0 - init) / (2 y0 - init - z0))` proposes the first loop iterate
/// from the pair `(y0, z0)`.
pub open spec fn broyden_start<F: VectorFunction>(f: &F, init: Seq<u64>) -> (Seq<u64>, Seq<
    Seq<u64>,
>) {
    let y0 = f.value(init);
    let z0 = f.value(y0);
    let grad = vdiv_bits(vsub_bits(y0, init), vsub_bits(vsub_bits(vscale_bits(F_TWO, y0), init), z0));
    let jinv0 = diag_bits(grad);
    let x1 = vadd_bits(matvec_bits(jinv0, vsub_bits(z0, y0)), y0);
    (x1, jinv0)
}

/// The Broyden solver: an evaluation function and an iteration cap.
pub struct Broyden<F> {
    /// The fixed-point function.
    pub f: F,
    /// The iteration cap.
    pub max_iter: usize,
}

impl<F: VectorFunction> Broyden<F> {
    /// A solver over `f` with the default cap of 500.
    pub fn new(f: F) -> (r: Self)
        ensures
            r.f == f,
            r.max_iter == 500,
    {
        Self { f, max_iter: 500 }
    }

    /// The same solver with another iteration cap.
    pub fn with_max_iteration(self, n: usize) -> (r: Self)
        ensures
            r.f == self.f,
            r.max_iter == n,
    {
        Self { max_iter: n, ..self }
    }

    /// Run the iteration from `init` with per-component absolute and
    /// relative tolerances.  The result is exactly the spec-level run from
    /// the bootstrap state; cap exhaustion is silent and hands back the
    /// last iterate.
    pub fn solve(&self, init: &Vec<u64>, atol: &Vec<u64>, rtol: &Vec<u64>) -> (out: Vec<u64>)
        requires
            atol@.len() == init@.len(),
            rtol@.len() == init@.len(),
        ensures
            out@ == ({
                let y0 = self.f.value(init@);
                let z0 = self.f.value(y0);
                broyden_loop(
                    &self.f,
                    atol@,
                    rtol@,
                    y0,
                    z0,
                    broyden_start(&self.f, init@).0,
                    broyden_start(&self.f, init@).1,
                    1,
                    self.max_iter as int,
                )
            }),
    {
        let x_prev0 = fp_vcopy(init);
        let y0 = self.f.eval(&x_prev0);
        let x0 = fp_vcopy(&y0);
        let z0 = self.f.eval(&x0);
        let numer = fp_vsub(&y0, &x_prev0);
        let denom = fp_vsub(&fp_vsub(&fp_vscale(F_TWO, &y0), &x_prev0), &z0);
        let grad = fp_vdiv(&numer, &denom);
        let mut jinv = fp_diag(&grad);
        let mut x_prev = y0;
        let mut y_prev = z0;
        let mut x = fp_vadd(&fp_matvec(&jinv, &fp_vsub(&y_prev, &x_prev)), &x_prev);
        let mut k: usize = 1;
        while k < self.max_iter
            invariant
                atol@.len() == init@.len(),
                rtol@.len() == init@.len(),
                x@.len() == init@.len(),
                x_prev@.len() == init@.len(),
                y_prev@.len() == init@.len(),
                jinv@.len() == init@.len(),
                forall|i: int| 0 <= i < jinv@.len() ==> #[trigger] jinv@[i]@.len() == init@.len(),
                1 <= k,
                broyden_loop(
                    &self.f,
                    atol@,
                    rtol@,
                    x_prev@,
                    y_prev@,
                    x@,
                    rows_view(jinv@),
                    k as int,
                    self.max_iter as int,
                ) == ({
                    let y0s = self.f.value(init@);
                    let z0s = self.f.value(y0s);
                    broyden_loop(
                        &self.f,
                        atol@,
                        rtol@,
                        y0s,
                        z0s,
                        broyden_start(&self.f, init@).0,
                        broyden_start(&self.f, init@).1,
                        1,
                        self.max_iter as int,
                    )
                }),
            decreases self.max_iter - k,
        {
            let y = self.f.eval(&x);
            let dx = fp_vsub(&x, &x_prev);
            let df = fp_vsub(&fp_vsub(&x, &y), &fp_vsub(&x_prev, &y_prev));
            let acol = fp_vsub(&dx, &fp_matvec(&jinv, &df));
            let s = fp_dot(&df, &df);
            jinv = fp_rank1_update(&acol, &df, s, &jinv);
            let x2 = fp_vadd(&fp_matvec(&jinv, &fp_vsub(&y, &x)), &x);
            let converged = fp_all_within_tol(&x2, &x, atol, rtol);
            x_prev = x;
            y_prev = y;
            x = x2;
            if converged {
                return x;
            }
            k = k + 1;
        }
        x
    }
}

} // verus!
