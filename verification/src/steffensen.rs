//! The fixed-point accelerator of Steffensen: two applications of the
//! function per round, convergence checked after each, and an Aitken
//! delta-squared extrapolation when neither application converges.
//!
//! A slow-moving sequence can make the extrapolation denominator vanish;
//! that hazard is deliberately not guarded — the non-finite encodings it
//! produces propagate, exactly as the formula computes them.

use vstd::prelude::*;
use crate::fp::{F_ONE, F_TWO, add_bits, div_bits, mul_bits, sub_bits, fp_add, fp_div, fp_mul, fp_sub};
use crate::traits::VectorFunction;
use crate::vecmath::{all_within_tol, fp_all_within_tol};

verus! {

/// The Aitken delta-squared step, elementwise:
/// `x - (y - x)^2 / (z + x - 2 y)`, with the square as a self-product and
/// the division as a multiplication by the reciprocal.
pub open spec fn steffensen_extrapolate(x: Seq<u64>, y: Seq<u64>, z: Seq<u64>) -> Seq<u64> {
    Seq::new(
        x.len(),
        |i: int| sub_bits(
            x[i],
            mul_bits(
                mul_bits(sub_bits(y[i], x[i]), sub_bits(y[i], x[i])),
                div_bits(F_ONE, sub_bits(add_bits(z[i], x[i]), mul_bits(F_TWO, y[i]))),
            ),
        ),
    )
}

/// The Steffensen iteration from iterate `x` at round `k`: the iterate the
/// run ends with, converged or not.
pub open spec fn steffensen_loop<F: VectorFunction>(
    f: &F,
    atol: Seq<u64>,
    rtol: Seq<u64>,
    x: Seq<u64>,
    k: int,
    maxiter: int,
) -> Seq<u64>
    decreases maxiter - k,
{
    if k >= maxiter {
        x
    } else {
        let y = f.value(x);
        if all_within_tol(y, x, atol, rtol) {
            x
        } else {
            let z = f.value(y);
            if all_within_tol(z, y, atol, rtol) {
                y
            } else {
                steffensen_loop(f, atol, rtol, steffensen_extrapolate(x, y, z), k + 1, maxiter)
            }
        }
    }
}

/// Idempotence at a converged point: re-entering the iteration anywhere at
/// a point already within tolerance of its own image hands that point back
/// unchanged.
pub proof fn lemma_steffensen_converged_point_is_fixed<F: VectorFunction>(
    f: &F,
    atol: Seq<u64>,
    rtol: Seq<u64>,
    x: Seq<u64>,
    k: int,
    maxiter: int,
)
    requires
        all_within_tol(f.value(x), x, atol, rtol),
    ensures
        steffensen_loop(f, atol, rtol, x, k, maxiter) == x,
{
}

/// The Aitken step, computed componentwise.
fn extrapolate(x: &Vec<u64>, y: &Vec<u64>, z: &Vec<u64>) -> (r: Vec<u64>)
    requires
        x@.len() == y@.len(),
        x@.len() == z@.len(),
    ensures
        r@ == steffensen_extrapolate(x@, y@, z@),
        r@.len() == x@.len(),
{
    let mut r: Vec<u64> = Vec::new();
    let mut i: usize = 0;
    while i < x.len()
        invariant
            x@.len() == y@.len(),
            x@.len() == z@.len(),
            i <= x@.len(),
            r@ == steffensen_extrapolate(x@, y@, z@).take(i as int),
        decreases x@.len() - i,
    {
        let d = fp_sub(y[i], x[i]);
        let denom = fp_sub(fp_add(z[i], x[i]), fp_mul(F_TWO, y[i]));
        r.push(fp_sub(x[i], fp_mul(fp_mul(d, d), fp_div(F_ONE, denom))));
        i = i + 1;
        proof {
            assert(steffensen_extrapolate(x@, y@, z@).take(i as int) =~= steffensen_extrapolate(
                x@,
                y@,
                z@,
            ).take(i as int - 1).push(steffensen_extrapolate(x@, y@, z@)[i as int - 1]));
        }
    }
    proof {
        assert(steffensen_extrapolate(x@, y@, z@).take(x@.len() as int) =~= steffensen_extrapolate(
            x@,
            y@,
            z@,
        ));
    }
    r
}

/// The Steffensen solver: an evaluation function and an iteration cap.
pub struct Steffensen<F> {
    /// The fixed-point function.
    pub f: F,
    /// The iteration cap.
    pub max_iter: usize,
}

impl<F: VectorFunction> Steffensen<F> {
    /// A solver over `f` with the default cap of 500.
    pub fn new(f: F) -> (r: Self)
        ensures
            r.f == f,
            r.max_iter == 500,
    {
        Self { f, max_iter: 500 }
    }

    /// The same solver with another iteration cap.
    pub fn with_max_iteration(self, n: usize) -> (r: Self)
        ensures
            r.f == self.f,
            r.max_iter == n,
    {
        Self { max_iter: n, ..self }
    }

    /// One application of the function with its convergence verdict.
    fn apply(&self, x: &Vec<u64>, atol: &Vec<u64>, rtol: &Vec<u64>) -> (r: (bool, Vec<u64>))
        requires
            x@.len() == atol@.len(),
            x@.len() == rtol@.len(),
        ensures
            r.1@ == self.f.value(x@),
            r.1@.len() == x@.len(),
            r.0 == all_within_tol(self.f.value(x@), x@, atol@, rtol@),
    {
        let y = self.f.eval(x);
        let conv = fp_all_within_tol(&y, x, atol, rtol);
        (conv, y)
    }

    /// Run the iteration from `init` with per-component absolute and
    /// relative tolerances.  The result is exactly the spec-level run; cap
    /// exhaustion is silent and hands back the last iterate.
    pub fn solve(&self, init: &Vec<u64>, atol: &Vec<u64>, rtol: &Vec<u64>) -> (out: Vec<u64>)
        requires
            atol@.len() == init@.len(),
            rtol@.len() == init@.len(),
        ensures
            out@ == steffensen_loop(&self.f, atol@, rtol@, init@, 0, self.max_iter as int),
    {
        let mut x = crate::vecmath::fp_vcopy(init);
        let mut k: usize = 0;
        while k < self.max_iter
            invariant
                atol@.len() == x@.len(),
                rtol@.len() == x@.len(),
                k <= self.max_iter,
                steffensen_loop(&self.f, atol@, rtol@, x@, k as int, self.max_iter as int)
                    == steffensen_loop(&self.f, atol@, rtol@, init@, 0, self.max_iter as int),
            decreases self.max_iter - k,
        {
            let (converged, y) = self.apply(&x, atol, rtol);
            if converged {
                return x;
            }
            let (converged2, z) = self.apply(&y, atol, rtol);
            if converged2 {
                return y;
            }
            x = extrapolate(&x, &y, &z);
            k = k + 1;
        }
        x
    }
}

} // verus!
