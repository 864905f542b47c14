//! The fixed-point accelerator of Wegstein: a per-component secant slope
//! over the two trailing iterates drives a relaxation of the plain
//! fixed-point step.  Convergence is checked against the newest function
//! value before the history is advanced.

use vstd::prelude::*;
use crate::traits::VectorFunction;
use crate::vecmath::{
    all_within_tol, vadd_bits, vdiv_bits, vmul_bits, vsub_bits, fp_all_within_tol, fp_vadd,
    fp_vcopy, fp_vdiv, fp_vmul, fp_vsub,
};

verus! {

/// The Wegstein iteration, carrying the trailing pair `(x_prev, y_prev)`
/// beside the current iterate `x`.  Each round evaluates `y = f(x)`, stops
/// if `y` is within tolerance of `x`, and otherwise relaxes with the factor
/// `t = (x - x_prev) / ((x - y) - (x_prev - y_prev))`, moving to
/// `t * (y - x) + x`.
pub open spec fn wegstein_loop<F: VectorFunction>(
    f: &F,
    atol: Seq<u64>,
    rtol: Seq<u64>,
    x_prev: Seq<u64>,
    y_prev: Seq<u64>,
    x: Seq<u64>,
    k: int,
    maxiter: int,
) -> Seq<u64>
    decreases maxiter - k,
{
    if k >= maxiter {
        x
    } else {
        let y = f.value(x);
        if all_within_tol(y, x, atol, rtol) {
            x
        } else {
            let t = vdiv_bits(vsub_bits(x, x_prev), vsub_bits(vsub_bits(x, y), vsub_bits(x_prev, y_prev)));
            let x2 = vadd_bits(vmul_bits(t, vsub_bits(y, x)), x);
            wegstein_loop(f, atol, rtol, x, y, x2, k + 1, maxiter)
        }
    }
}

/// Idempotence at a converged point: re-entering the iteration anywhere at
/// a point already within tolerance of its own image hands that point back
/// unchanged, whatever trailing history is carried.
pub proof fn lemma_wegstein_converged_point_is_fixed<F: VectorFunction>(
    f: &F,
    atol: Seq<u64>,
    rtol: Seq<u64>,
    x_prev: Seq<u64>,
    y_prev: Seq<u64>,
    x: Seq<u64>,
    k: int,
    maxiter: int,
)
    requires
        all_within_tol(f.value(x), x, atol, rtol),
    ensures
        wegstein_loop(f, atol, rtol, x_prev, y_prev, x, k, maxiter) == x,
{
}

/// The Wegstein solver: an evaluation function and an iteration cap.
pub struct Wegstein<F> {
    /// The fixed-point function.
    pub f: F,
    /// The iteration cap.
    pub max_iter: usize,
}

impl<F: VectorFunction> Wegstein<F> {
    /// A solver over `f` with the default cap of 500.
    pub fn new(f: F) -> (r: Self)
        ensures
            r.f == f,
            r.max_iter == 500,
    {
        Self { f, max_iter: 500 }
    }

    /// The same solver with another iteration cap.
    pub fn with_max_iteration(self, n: usize) -> (r: Self)
        ensures
            r.f == self.f,
            r.max_iter == n,
    {
        Self { max_iter: n, ..self }
    }

    /// One application of the function with its convergence verdict.
    fn apply(&self, x: &Vec<u64>, atol: &Vec<u64>, rtol: &Vec<u64>) -> (r: (bool, Vec<u64>))
        requires
            x@.len() == atol@.len(),
            x@.len() == rtol@.len(),
        ensures
            r.1@ == self.f.value(x@),
            r.1@.len() == x@.len(),
            r.0 == all_within_tol(self.f.value(x@), x@, atol@, rtol@),
    {
        let y = self.f.eval(x);
        let conv = fp_all_within_tol(&y, x, atol, rtol);
        (conv, y)
    }

    /// Run the iteration from `init` with per-component absolute and
    /// relative tolerances.  If the very first function value is already
    /// within tolerance of `init`, `init` itself is returned; otherwise the
    /// result is exactly the spec-level run seeded with that value.  Cap
    /// exhaustion is silent and hands back the last iterate.
    pub fn solve(&self, init: &Vec<u64>, atol: &Vec<u64>, rtol: &Vec<u64>) -> (out: Vec<u64>)
        requires
            atol@.len() == init@.len(),
            rtol@.len() == init@.len(),
        ensures
            out@ == ({
                let y0 = self.f.value(init@);
                if all_within_tol(y0, init@, atol@, rtol@) {
                    init@
                } else {
                    wegstein_loop(&self.f, atol@, rtol@, init@, y0, y0, 0, self.max_iter as int)
                }
            }),
    {
        let mut x_prev = fp_vcopy(init);
        let (converged0, mut y_prev) = self.apply(&x_prev, atol, rtol);
        if converged0 {
            return x_prev;
        }
        let mut x = fp_vcopy(&y_prev);
        let mut k: usize = 0;
        while k < self.max_iter
            invariant
                atol@.len() == x@.len(),
                rtol@.len() == x@.len(),
                x_prev@.len() == x@.len(),
                y_prev@.len() == x@.len(),
                k <= self.max_iter,
                wegstein_loop(&self.f, atol@, rtol@, x_prev@, y_prev@, x@, k as int, self.max_iter as int)
                    == ({
                    let y0 = self.f.value(init@);
                    wegstein_loop(&self.f, atol@, rtol@, init@, y0, y0, 0, self.max_iter as int)
                }),
                !all_within_tol(self.f.value(init@), init@, atol@, rtol@),
            decreases self.max_iter - k,
        {
            let (converged, y) = self.apply(&x, atol, rtol);
            if converged {
                return x;
            }
            let t = fp_vdiv(
                &fp_vsub(&x, &x_prev),
                &fp_vsub(&fp_vsub(&x, &y), &fp_vsub(&x_prev, &y_prev)),
            );
            let x2 = fp_vadd(&fp_vmul(&t, &fp_vsub(&y, &x)), &x);
            x_prev = x;
            y_prev = y;
            x = x2;
            k = k + 1;
        }
        x
    }
}

} // verus!
