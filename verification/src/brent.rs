//! The bracketing scalar root-finder: Brent's method, a hybrid of bisection,
//! secant interpolation and inverse quadratic interpolation.
//!
//! The algorithm descends from a non-structured numerical-recipes routine and
//! is kept here as an explicit label machine: a tagged `Label` enum names the
//! classical jump targets and the solver loop dispatches on it, so the branch
//! structure — which decides between bisection, secant and inverse quadratic
//! steps and therefore the numeric trajectory — is preserved exactly.  The
//! spec function `brent_loop` restates the machine step by step, and `solve`
//! is proved to return precisely its outcome.
//!
//! One transition deserves a note: after the branch that forces a bisection
//! step (`L100`) the machine moves on to the iterate update (`L110`), as the
//! classical routine falls through to it; a machine that stayed at `L100`
//! would never terminate, and the solver is proved to terminate on every
//! input.

use vstd::prelude::*;
use crate::fp::{
    F_EPSILON, F_HALF, F_ONE, F_ONE_PLUS_EPSILON, F_TOL_DEFAULT, F_TWO, F_THREE, F_ZERO,
    abs_bits, add_bits, div_bits, eq_bits, ge_bits, gt_bits, le_bits, lt_bits, mul_bits,
    neg_bits, sub_bits,
    fp_abs, fp_add, fp_div, fp_eq, fp_ge, fp_gt, fp_le, fp_lt, fp_mul, fp_neg, fp_sub,
};

verus! {

/// A scalar evaluation function `x -> f(x)` over binary64 encodings.
/// `call` must compute the same value for the same argument on every call.
pub trait Univariate {
    /// The value the function takes at `x`.  Left unspecified unless an
    /// implementation overrides it.
    open spec fn value(&self, x: u64) -> u64 {
        vstd::pervasive::arbitrary()
    }

    /// Evaluate the function at `x`.
    fn call(&self, x: u64) -> (y: u64)
        ensures
            y == self.value(x),
    ;
}

/// A borrowed closure wrapped so it can serve as a scalar evaluation
/// function.
#[derive(Debug, Clone)]
pub struct UnivariateClosure<'a, F> {
    /// The wrapped closure.
    pub f: &'a F,
}

impl<'a, F: Fn(u64) -> u64> UnivariateClosure<'a, F> {
    /// Wrap a borrowed closure.
    pub fn new(f: &'a F) -> Self {
        Self { f }
    }

    /// Apply the wrapped closure to one encoding.
    pub fn apply(&self, x: u64) -> (r: u64)
        requires
            call_requires(*self.f, (x,)),
        ensures
            call_ensures(*self.f, (x,), r),
    {
        (self.f)(x)
    }
}

/// How a bracketing run ended.
#[derive(Debug, Clone)]
pub enum UnivariateError {
    /// The iteration cap was exhausted; the fields carry the last two
    /// bracket endpoints for diagnostics.
    NotConverged(u64, u64),
    /// A precondition was violated; the message says which.
    Failed(String),
}

/// The classical jump targets of the bracketing routine.
#[derive(Debug, Clone, Copy, PartialEq, Eq)]
pub enum Label {
    L20,
    L30,
    L40,
    L50,
    L60,
    L70,
    L80,
    L90,
    L100,
    L110,
    L120,
    L130,
    L140,
    L150,
}

/// The full register file of the label machine.
pub struct BrentState {
    pub a: u64,
    pub b: u64,
    pub c: u64,
    pub d: u64,
    pub e: u64,
    pub s: u64,
    pub p: u64,
    pub q: u64,
    pub r: u64,
    pub xm: u64,
    pub tol: u64,
    pub fa: u64,
    pub fb: u64,
    pub fc: u64,
    pub iter: int,
    pub jump: Label,
}

/// How a run of the label machine ends: a root (with the evidence the stop
/// test saw) or the cap exhausted.
pub enum BrentOutcome {
    Root { x: u64, fx: u64, xm: u64, tol: u64 },
    NoConvergence { a: u64, b: u64 },
}

/// A rank that strictly decreases along every transition that does not
/// evaluate the function; it orders the labels by their distance from the
/// evaluation step.
pub open spec fn label_rank(l: Label) -> int {
    match l {
        Label::L20 => 13,
        Label::L30 => 12,
        Label::L40 => 11,
        Label::L50 => 10,
        Label::L60 => 9,
        Label::L70 => 8,
        Label::L80 => 7,
        Label::L90 => 6,
        Label::L100 => 5,
        Label::L110 => 4,
        Label::L120 => 3,
        Label::L130 => 2,
        Label::L140 => 1,
        Label::L150 => 0,
    }
}

/// The bounds that keep the machine's measure well-founded: the iteration
/// counter never passes one beyond the cap, and past the cap check only the
/// head labels can be live.
pub open spec fn brent_measure_ok(st: BrentState, maxiter: int) -> bool {
    &&& 0 <= st.iter
    &&& st.iter <= maxiter + 1
    &&& (label_rank(st.jump) <= 10 ==> st.iter <= maxiter)
}

/// The machine state at entry: the bracket and its two function values,
/// every other register zeroed, the step tolerance seeded just above one.
pub open spec fn brent_init(a: u64, b: u64, fa: u64, fb: u64) -> BrentState {
    BrentState {
        a,
        b,
        c: F_ZERO,
        d: F_ZERO,
        e: F_ZERO,
        s: F_ZERO,
        p: F_ZERO,
        q: F_ZERO,
        r: F_ZERO,
        xm: F_ZERO,
        tol: F_ONE_PLUS_EPSILON,
        fa,
        fb,
        fc: F_ZERO,
        iter: 0,
        jump: Label::L20,
    }
}

/// One run of the label machine from `st` to its outcome.  `cfg_tol` is the
/// configured tolerance, `maxiter` the iteration cap.  Each match arm is one
/// label's transition, written with the exact operand order of the
/// arithmetic it performs.
pub open spec fn brent_loop<U: Univariate>(f: &U, cfg_tol: u64, maxiter: int, st: BrentState) -> BrentOutcome
    decreases maxiter + 2 - st.iter, label_rank(st.jump),
        when brent_measure_ok(st, maxiter)
{
    match st.jump {
        Label::L20 => brent_loop(
            f,
            cfg_tol,
            maxiter,
            BrentState {
                c: st.a,
                fc: st.fa,
                d: sub_bits(st.b, st.a),
                e: sub_bits(st.b, st.a),
                jump: Label::L30,
                ..st
            },
        ),
        Label::L30 => {
            if ge_bits(abs_bits(st.fc), abs_bits(st.fb)) {
                brent_loop(f, cfg_tol, maxiter, BrentState { jump: Label::L40, ..st })
            } else {
                brent_loop(
                    f,
                    cfg_tol,
                    maxiter,
                    BrentState {
                        a: st.b,
                        b: st.c,
                        c: st.b,
                        fa: st.fb,
                        fb: st.fc,
                        fc: st.fb,
                        jump: Label::L40,
                        ..st
                    },
                )
            }
        },
        Label::L40 => {
            let tol2 = add_bits(
                mul_bits(mul_bits(F_TWO, F_EPSILON), abs_bits(st.b)),
                mul_bits(F_HALF, cfg_tol),
            );
            let xm2 = mul_bits(F_HALF, sub_bits(st.c, st.b));
            let stop = le_bits(abs_bits(xm2), tol2) || eq_bits(st.fb, F_ZERO);
            let interp = ge_bits(abs_bits(st.e), tol2) && gt_bits(st.fa, st.fb);
            if st.iter > maxiter {
                BrentOutcome::NoConvergence { a: st.a, b: st.b }
            } else if stop {
                brent_loop(
                    f,
                    cfg_tol,
                    maxiter,
                    BrentState { tol: tol2, xm: xm2, jump: Label::L150, ..st },
                )
            } else if interp {
                brent_loop(
                    f,
                    cfg_tol,
                    maxiter,
                    BrentState { tol: tol2, xm: xm2, jump: Label::L50, ..st },
                )
            } else {
                brent_loop(
                    f,
                    cfg_tol,
                    maxiter,
                    BrentState { tol: tol2, xm: xm2, d: xm2, e: xm2, jump: Label::L110, ..st },
                )
            }
        },
        Label::L50 => {
            let s2 = div_bits(st.fb, st.fa);
            if !eq_bits(st.a, st.c) {
                brent_loop(f, cfg_tol, maxiter, BrentState { s: s2, jump: Label::L60, ..st })
            } else {
                brent_loop(
                    f,
                    cfg_tol,
                    maxiter,
                    BrentState {
                        s: s2,
                        p: mul_bits(mul_bits(F_TWO, st.xm), s2),
                        q: sub_bits(F_ONE, s2),
                        jump: Label::L70,
                        ..st
                    },
                )
            }
        },
        Label::L60 => {
            let q2 = div_bits(st.fa, st.fc);
            let r2 = div_bits(st.fb, st.fc);
            let p2 = mul_bits(
                st.s,
                sub_bits(
                    mul_bits(mul_bits(mul_bits(F_TWO, st.xm), q2), sub_bits(q2, r2)),
                    mul_bits(sub_bits(st.b, st.a), sub_bits(r2, F_ONE)),
                ),
            );
            let q3 = mul_bits(
                mul_bits(sub_bits(q2, F_ONE), sub_bits(r2, F_ONE)),
                sub_bits(st.s, F_ONE),
            );
            brent_loop(
                f,
                cfg_tol,
                maxiter,
                BrentState { p: p2, q: q3, r: r2, jump: Label::L70, ..st },
            )
        },
        Label::L70 => {
            if le_bits(st.p, F_ZERO) {
                brent_loop(f, cfg_tol, maxiter, BrentState { jump: Label::L80, ..st })
            } else {
                brent_loop(
                    f,
                    cfg_tol,
                    maxiter,
                    BrentState { q: neg_bits(st.q), jump: Label::L90, ..st },
                )
            }
        },
        Label::L80 => brent_loop(
            f,
            cfg_tol,
            maxiter,
            BrentState { p: neg_bits(st.p), jump: Label::L90, ..st },
        ),
        Label::L90 => {
            let s2 = st.e;
            let e2 = st.d;
            let force_bisect = ge_bits(
                mul_bits(F_TWO, st.p),
                sub_bits(
                    mul_bits(mul_bits(F_THREE, st.xm), st.q),
                    abs_bits(mul_bits(st.q, st.tol)),
                ),
            ) || ge_bits(st.p, mul_bits(F_HALF, abs_bits(mul_bits(st.q, s2))));
            if force_bisect {
                brent_loop(
                    f,
                    cfg_tol,
                    maxiter,
                    BrentState { s: s2, e: e2, jump: Label::L100, ..st },
                )
            } else {
                brent_loop(
                    f,
                    cfg_tol,
                    maxiter,
                    BrentState { s: s2, e: e2, d: div_bits(st.p, st.q), jump: Label::L110, ..st },
                )
            }
        },
        Label::L100 => brent_loop(
            f,
            cfg_tol,
            maxiter,
            BrentState { d: st.xm, e: st.xm, jump: Label::L110, ..st },
        ),
        Label::L110 => {
            if le_bits(abs_bits(st.d), st.tol) {
                brent_loop(
                    f,
                    cfg_tol,
                    maxiter,
                    BrentState { a: st.b, fa: st.fb, jump: Label::L120, ..st },
                )
            } else {
                brent_loop(
                    f,
                    cfg_tol,
                    maxiter,
                    BrentState {
                        a: st.b,
                        fa: st.fb,
                        b: add_bits(st.b, st.d),
                        jump: Label::L140,
                        ..st
                    },
                )
            }
        },
        Label::L120 => {
            if le_bits(st.xm, F_ZERO) {
                brent_loop(f, cfg_tol, maxiter, BrentState { jump: Label::L130, ..st })
            } else {
                brent_loop(
                    f,
                    cfg_tol,
                    maxiter,
                    BrentState { b: add_bits(st.b, st.tol), jump: Label::L140, ..st },
                )
            }
        },
        Label::L130 => brent_loop(
            f,
            cfg_tol,
            maxiter,
            BrentState { b: sub_bits(st.b, st.tol), jump: Label::L140, ..st },
        ),
        Label::L140 => {
            let fb2 = f.value(st.b);
            let toward = gt_bits(mul_bits(fb2, div_bits(st.fc, abs_bits(st.fc))), F_ZERO);
            brent_loop(
                f,
                cfg_tol,
                maxiter,
                BrentState {
                    fb: fb2,
                    iter: st.iter + 1,
                    jump: if toward {
                        Label::L20
                    } else {
                        Label::L30
                    },
                    ..st
                },
            )
        },
        Label::L150 => BrentOutcome::Root { x: st.b, fx: st.fb, xm: st.xm, tol: st.tol },
    }
}

/// Maps a machine outcome to the result `solve` hands back.
pub open spec fn outcome_to_result(o: BrentOutcome) -> Result<u64, UnivariateError> {
    match o {
        BrentOutcome::Root { x, .. } => Ok(x),
        BrentOutcome::NoConvergence { a, b } => Err(UnivariateError::NotConverged(a, b)),
    }
}

/// The function-value bookkeeping the machine maintains: `fa` always holds
/// `f(a)`; `fc` holds `f(c)` once the bracket round has stocked `c`; and
/// `fb` holds `f(b)` except between the iterate update and the re-evaluation
/// that follows it.
pub open spec fn brent_wf<U: Univariate>(f: &U, st: BrentState) -> bool {
    &&& st.fa == f.value(st.a)
    &&& (st.jump != Label::L20 ==> st.fc == f.value(st.c))
    &&& ((st.jump != Label::L120 && st.jump != Label::L130 && st.jump != Label::L140)
        ==> st.fb == f.value(st.b))
    &&& (st.jump == Label::L150 ==> (le_bits(abs_bits(st.xm), st.tol) || eq_bits(
        st.fb,
        F_ZERO,
    )))
}

/// When the machine reports a root it reports the point `b` it stopped at,
/// the stop test held there, and the function value it carries is indeed the
/// value at that point: the half-bracket width was within the scaled
/// tolerance or the residual was exactly zero.
pub proof fn lemma_brent_root_meets_stop<U: Univariate>(f: &U, cfg_tol: u64, maxiter: int, st: BrentState)
    requires
        brent_measure_ok(st, maxiter),
        brent_wf(f, st),
    ensures
        (match brent_loop(f, cfg_tol, maxiter, st) {
            BrentOutcome::Root { x, fx, xm, tol } => fx == f.value(x) && (le_bits(
                abs_bits(xm),
                tol,
            ) || eq_bits(fx, F_ZERO)),
            BrentOutcome::NoConvergence { .. } => true,
        }),
    decreases maxiter + 2 - st.iter, label_rank(st.jump),
{
    match st.jump {
        Label::L20 => {
            lemma_brent_root_meets_stop(
                f,
                cfg_tol,
                maxiter,
                BrentState {
                    c: st.a,
                    fc: st.fa,
                    d: sub_bits(st.b, st.a),
                    e: sub_bits(st.b, st.a),
                    jump: Label::L30,
                    ..st
                },
            );
        },
        Label::L30 => {
            if ge_bits(abs_bits(st.fc), abs_bits(st.fb)) {
                lemma_brent_root_meets_stop(f, cfg_tol, maxiter, BrentState { jump: Label::L40, ..st });
            } else {
                lemma_brent_root_meets_stop(
                    f,
                    cfg_tol,
                    maxiter,
                    BrentState {
                        a: st.b,
                        b: st.c,
                        c: st.b,
                        fa: st.fb,
                        fb: st.fc,
                        fc: st.fb,
                        jump: Label::L40,
                        ..st
                    },
                );
            }
        },
        Label::L40 => {
            let tol2 = add_bits(
                mul_bits(mul_bits(F_TWO, F_EPSILON), abs_bits(st.b)),
                mul_bits(F_HALF, cfg_tol),
            );
            let xm2 = mul_bits(F_HALF, sub_bits(st.c, st.b));
            let stop = le_bits(abs_bits(xm2), tol2) || eq_bits(st.fb, F_ZERO);
            let interp = ge_bits(abs_bits(st.e), tol2) && gt_bits(st.fa, st.fb);
            if st.iter > maxiter {
            } else if stop {
                lemma_brent_root_meets_stop(
                    f,
                    cfg_tol,
                    maxiter,
                    BrentState { tol: tol2, xm: xm2, jump: Label::L150, ..st },
                );
            } else if interp {
                lemma_brent_root_meets_stop(
                    f,
                    cfg_tol,
                    maxiter,
                    BrentState { tol: tol2, xm: xm2, jump: Label::L50, ..st },
                );
            } else {
                lemma_brent_root_meets_stop(
                    f,
                    cfg_tol,
                    maxiter,
                    BrentState { tol: tol2, xm: xm2, d: xm2, e: xm2, jump: Label::L110, ..st },
                );
            }
        },
        Label::L50 => {
            let s2 = div_bits(st.fb, st.fa);
            if !eq_bits(st.a, st.c) {
                lemma_brent_root_meets_stop(
                    f,
                    cfg_tol,
                    maxiter,
                    BrentState { s: s2, jump: Label::L60, ..st },
                );
            } else {
                lemma_brent_root_meets_stop(
                    f,
                    cfg_tol,
                    maxiter,
                    BrentState {
                        s: s2,
                        p: mul_bits(mul_bits(F_TWO, st.xm), s2),
                        q: sub_bits(F_ONE, s2),
                        jump: Label::L70,
                        ..st
                    },
                );
            }
        },
        Label::L60 => {
            let q2 = div_bits(st.fa, st.fc);
            let r2 = div_bits(st.fb, st.fc);
            let p2 = mul_bits(
                st.s,
                sub_bits(
                    mul_bits(mul_bits(mul_bits(F_TWO, st.xm), q2), sub_bits(q2, r2)),
                    mul_bits(sub_bits(st.b, st.a), sub_bits(r2, F_ONE)),
                ),
            );
            let q3 = mul_bits(
                mul_bits(sub_bits(q2, F_ONE), sub_bits(r2, F_ONE)),
                sub_bits(st.s, F_ONE),
            );
            lemma_brent_root_meets_stop(
                f,
                cfg_tol,
                maxiter,
                BrentState { p: p2, q: q3, r: r2, jump: Label::L70, ..st },
            );
        },
        Label::L70 => {
            if le_bits(st.p, F_ZERO) {
                lemma_brent_root_meets_stop(f, cfg_tol, maxiter, BrentState { jump: Label::L80, ..st });
            } else {
                lemma_brent_root_meets_stop(
                    f,
                    cfg_tol,
                    maxiter,
                    BrentState { q: neg_bits(st.q), jump: Label::L90, ..st },
                );
            }
        },
        Label::L80 => {
            lemma_brent_root_meets_stop(
                f,
                cfg_tol,
                maxiter,
                BrentState { p: neg_bits(st.p), jump: Label::L90, ..st },
            );
        },
        Label::L90 => {
            let s2 = st.e;
            let e2 = st.d;
            let force_bisect = ge_bits(
                mul_bits(F_TWO, st.p),
                sub_bits(
                    mul_bits(mul_bits(F_THREE, st.xm), st.q),
                    abs_bits(mul_bits(st.q, st.tol)),
                ),
            ) || ge_bits(st.p, mul_bits(F_HALF, abs_bits(mul_bits(st.q, s2))));
            if force_bisect {
                lemma_brent_root_meets_stop(
                    f,
                    cfg_tol,
                    maxiter,
                    BrentState { s: s2, e: e2, jump: Label::L100, ..st },
                );
            } else {
                lemma_brent_root_meets_stop(
                    f,
                    cfg_tol,
                    maxiter,
                    BrentState { s: s2, e: e2, d: div_bits(st.p, st.q), jump: Label::L110, ..st },
                );
            }
        },
        Label::L100 => {
            lemma_brent_root_meets_stop(
                f,
                cfg_tol,
                maxiter,
                BrentState { d: st.xm, e: st.xm, jump: Label::L110, ..st },
            );
        },
        Label::L110 => {
            if le_bits(abs_bits(st.d), st.tol) {
                lemma_brent_root_meets_stop(
                    f,
                    cfg_tol,
                    maxiter,
                    BrentState { a: st.b, fa: st.fb, jump: Label::L120, ..st },
                );
            } else {
                lemma_brent_root_meets_stop(
                    f,
                    cfg_tol,
                    maxiter,
                    BrentState {
                        a: st.b,
                        fa: st.fb,
                        b: add_bits(st.b, st.d),
                        jump: Label::L140,
                        ..st
                    },
                );
            }
        },
        Label::L120 => {
            if le_bits(st.xm, F_ZERO) {
                lemma_brent_root_meets_stop(f, cfg_tol, maxiter, BrentState { jump: Label::L130, ..st });
            } else {
                lemma_brent_root_meets_stop(
                    f,
                    cfg_tol,
                    maxiter,
                    BrentState { b: add_bits(st.b, st.tol), jump: Label::L140, ..st },
                );
            }
        },
        Label::L130 => {
            lemma_brent_root_meets_stop(
                f,
                cfg_tol,
                maxiter,
                BrentState { b: sub_bits(st.b, st.tol), jump: Label::L140, ..st },
            );
        },
        Label::L140 => {
            let fb2 = f.value(st.b);
            let toward = gt_bits(mul_bits(fb2, div_bits(st.fc, abs_bits(st.fc))), F_ZERO);
            lemma_brent_root_meets_stop(
                f,
                cfg_tol,
                maxiter,
                BrentState {
                    fb: fb2,
                    iter: st.iter + 1,
                    jump: if toward {
                        Label::L20
                    } else {
                        Label::L30
                    },
                    ..st
                },
            );
        },
        Label::L150 => {},
    }
}

/// What a bracketing run started on a bracket `[a, b]` can end in: when it
/// reports a root it reports the point it stopped at, that point's own
/// function value, and the stop test held there — the half-bracket width
/// was within `2 eps |x| + tol/2`, or the residual was exactly zero.  The
/// only other outcome is `NoConvergence`, once the cap is passed.
pub proof fn lemma_brent_outcome_from_bracket<U: Univariate>(
    f: &U,
    cfg_tol: u64,
    maxiter: int,
    a: u64,
    b: u64,
)
    requires
        maxiter >= 0,
    ensures
        (match brent_loop(f, cfg_tol, maxiter, brent_init(a, b, f.value(a), f.value(b))) {
            BrentOutcome::Root { x, fx, xm, tol } => fx == f.value(x) && (le_bits(
                abs_bits(xm),
                tol,
            ) || eq_bits(fx, F_ZERO)),
            BrentOutcome::NoConvergence { .. } => true,
        }),
{
    lemma_brent_root_meets_stop(f, cfg_tol, maxiter, brent_init(a, b, f.value(a), f.value(b)));
}

/// The secant step through two points: `x0 - a * y0` with slope-inverse
/// `a = (x1 - x0) / (y1 - y0)`.
pub open spec fn linear_interp_bits(x0: u64, y0: u64, x1: u64, y1: u64) -> u64 {
    let a = div_bits(sub_bits(x1, x0), sub_bits(y1, y0));
    sub_bits(x0, mul_bits(a, y0))
}

/// The secant (linear interpolation) step through two points.
pub fn linear_interp(p0: (u64, u64), p1: (u64, u64)) -> (r: u64)
    ensures
        r == linear_interp_bits(p0.0, p0.1, p1.0, p1.1),
{
    let (x0, y0) = p0;
    let (x1, y1) = p1;
    let a = fp_div(fp_sub(x1, x0), fp_sub(y1, y0));
    fp_sub(x0, fp_mul(a, y0))
}

/// The inverse quadratic interpolation step through three points: the sum
/// of the three Lagrange terms `x_i * y_j * y_k / (y_i - y_j) / (y_i - y_k)`.
pub open spec fn inverse_quadratic_interp_bits(
    x0: u64,
    y0: u64,
    x1: u64,
    y1: u64,
    x2: u64,
    y2: u64,
) -> u64 {
    let b0 = div_bits(div_bits(mul_bits(mul_bits(x0, y1), y2), sub_bits(y0, y1)), sub_bits(y0, y2));
    let b1 = div_bits(div_bits(mul_bits(mul_bits(x1, y2), y0), sub_bits(y1, y2)), sub_bits(y1, y0));
    let b2 = div_bits(div_bits(mul_bits(mul_bits(x2, y0), y1), sub_bits(y2, y0)), sub_bits(y2, y1));
    add_bits(add_bits(b0, b1), b2)
}

/// The inverse quadratic interpolation step through three points.
pub fn inverse_quadratic_interp(p0: (u64, u64), p1: (u64, u64), p2: (u64, u64)) -> (r: u64)
    ensures
        r == inverse_quadratic_interp_bits(p0.0, p0.1, p1.0, p1.1, p2.0, p2.1),
{
    let (x0, y0) = p0;
    let (x1, y1) = p1;
    let (x2, y2) = p2;
    let b0 = fp_div(fp_div(fp_mul(fp_mul(x0, y1), y2), fp_sub(y0, y1)), fp_sub(y0, y2));
    let b1 = fp_div(fp_div(fp_mul(fp_mul(x1, y2), y0), fp_sub(y1, y2)), fp_sub(y1, y0));
    let b2 = fp_div(fp_div(fp_mul(fp_mul(x2, y0), y1), fp_sub(y2, y0)), fp_sub(y2, y1));
    fp_add(fp_add(b0, b1), b2)
}

/// The stop test of the bracketing solver applied to a pair of points, the
/// smaller-magnitude residual taken as the reference point: the gap is
/// within `2 eps |x| + tol/2`, or that residual is exactly zero.
pub open spec fn converged_pair_bits(cfg_tol: u64, x0: u64, y0: u64, x1: u64, y1: u64) -> bool {
    let swap = lt_bits(abs_bits(y0), abs_bits(y1));
    let xa = if swap { x1 } else { x0 };
    let xb = if swap { x0 } else { x1 };
    let yb = if swap { y0 } else { y1 };
    let tol = add_bits(mul_bits(mul_bits(F_TWO, F_EPSILON), abs_bits(xb)), mul_bits(F_HALF, cfg_tol));
    let xm = sub_bits(xa, xb);
    le_bits(abs_bits(xm), tol) || eq_bits(yb, F_ZERO)
}

/// The bracketing solver's configuration: absolute tolerance and iteration
/// cap, set with the chained builders `tol` and `max_iter`.
#[derive(Debug, Clone)]
pub struct Brentq {
    /// The configured tolerance encoding.
    pub tol: u64,
    /// The iteration cap.
    pub maxiter: usize,
}

impl Brentq {
    /// A solver with the default tolerance (`1e-8`) and cap (100).
    pub fn new() -> (r: Self)
        ensures
            r.tol == F_TOL_DEFAULT,
            r.maxiter == 100,
    {
        Self { tol: F_TOL_DEFAULT, maxiter: 100 }
    }

    /// The same solver with another tolerance.
    pub fn tol(self, tol: u64) -> (r: Self)
        ensures
            r.tol == tol,
            r.maxiter == self.maxiter,
    {
        Self { tol, ..self }
    }

    /// The same solver with another iteration cap.
    pub fn max_iter(self, maxiter: usize) -> (r: Self)
        ensures
            r.tol == self.tol,
            r.maxiter == maxiter,
    {
        Self { maxiter, ..self }
    }

    /// The stop test on a pair of `(x, residual)` points, against this
    /// solver's configured tolerance.
    pub fn converged(&self, p0: (u64, u64), p1: (u64, u64)) -> (r: bool)
        ensures
            r == converged_pair_bits(self.tol, p0.0, p0.1, p1.0, p1.1),
    {
        let (mut x0, mut y0) = p0;
        let (mut x1, mut y1) = p1;
        if fp_lt(fp_abs(y0), fp_abs(y1)) {
            let tx = x0;
            x0 = x1;
            x1 = tx;
            let ty = y0;
            y0 = y1;
            y1 = ty;
        }
        let tol = fp_add(fp_mul(fp_mul(F_TWO, F_EPSILON), fp_abs(x1)), fp_mul(F_HALF, self.tol));
        let xm = fp_sub(x0, x1);
        fp_le(fp_abs(xm), tol) || fp_eq(y1, F_ZERO)
    }

    /// Find a root of `f` inside the bracket `[lower_bound, upper_bound]`.
    ///
    /// The two endpoint values must not have a positive product — a
    /// same-sign bracket is a precondition violation and is reported as
    /// `Failed`, with no further evaluation of `f`.  Otherwise the result is
    /// exactly the label machine's outcome: the root `b` it stopped at, or
    /// `NotConverged` with the final bracket once the cap is passed.
    pub fn solve<U: Univariate>(&self, f: &U, lower_bound: u64, upper_bound: u64) -> (out: Result<
        u64,
        UnivariateError,
    >)
        requires
            self.maxiter < usize::MAX,
        ensures
            ({
                let fa0 = f.value(lower_bound);
                let fb0 = f.value(upper_bound);
                if gt_bits(mul_bits(fa0, fb0), F_ZERO) {
                    out matches Err(UnivariateError::Failed(m)) && m@
                        == "f(lower_bound) and f(upper_bound) must have opposite signs."@
                } else {
                    out == outcome_to_result(
                        brent_loop(
                            f,
                            self.tol,
                            self.maxiter as int,
                            brent_init(lower_bound, upper_bound, fa0, fb0),
                        ),
                    )
                }
            }),
    {
        let mut a = lower_bound;
        let mut b = upper_bound;
        let mut fa = f.call(a);
        let mut fb = f.call(b);
        if fp_gt(fp_mul(fa, fb), F_ZERO) {
            proof {
                broadcast use vstd::string::to_string_from_display_ensures_for_str;

            }
            let msg = "f(lower_bound) and f(upper_bound) must have opposite signs.".to_string();
            return Err(UnivariateError::Failed(msg));
        }
        let ghost st0 = brent_init(lower_bound, upper_bound, fa, fb);
        let mut jump = Label::L20;
        let mut c = F_ZERO;
        let mut fc = F_ZERO;
        let mut d = F_ZERO;
        let mut e = F_ZERO;
        let mut s = F_ZERO;
        let mut p = F_ZERO;
        let mut q = F_ZERO;
        let mut rv = F_ZERO;
        let mut xm = F_ZERO;
        let mut tolv = F_ONE_PLUS_EPSILON;
        let mut iter: usize = 0;
        let ghost mut st = st0;
        loop
            invariant_except_break
                self.maxiter < usize::MAX,
                st0 == brent_init(
                    lower_bound,
                    upper_bound,
                    f.value(lower_bound),
                    f.value(upper_bound),
                ),
                !gt_bits(mul_bits(f.value(lower_bound), f.value(upper_bound)), F_ZERO),
                st == (BrentState {
                    a,
                    b,
                    c,
                    d,
                    e,
                    s,
                    p,
                    q,
                    r: rv,
                    xm,
                    tol: tolv,
                    fa,
                    fb,
                    fc,
                    iter: iter as int,
                    jump,
                }),
                brent_measure_ok(st, self.maxiter as int),
                brent_loop(f, self.tol, self.maxiter as int, st) == brent_loop(
                    f,
                    self.tol,
                    self.maxiter as int,
                    st0,
                ),
            ensures
                st0 == brent_init(
                    lower_bound,
                    upper_bound,
                    f.value(lower_bound),
                    f.value(upper_bound),
                ),
                !gt_bits(mul_bits(f.value(lower_bound), f.value(upper_bound)), F_ZERO),
                brent_loop(f, self.tol, self.maxiter as int, st0) == (BrentOutcome::NoConvergence {
                    a,
                    b,
                }),
            decreases self.maxiter + 2 - iter, label_rank(st.jump),
        {
            let ghost st_prev = st;
            match jump {
                Label::L20 => {
                    c = a;
                    fc = fa;
                    d = fp_sub(b, a);
                    e = d;
                    jump = Label::L30;
                },
                Label::L30 => {
                    if fp_ge(fp_abs(fc), fp_abs(fb)) {
                        jump = Label::L40;
                    } else {
                        a = b;
                        b = c;
                        c = a;
                        fa = fb;
                        fb = fc;
                        fc = fa;
                        jump = Label::L40;
                    }
                },
                Label::L40 => {
                    tolv = fp_add(fp_mul(fp_mul(F_TWO, F_EPSILON), fp_abs(b)), fp_mul(F_HALF, self.tol));
                    xm = fp_mul(F_HALF, fp_sub(c, b));
                    if fp_le(fp_abs(xm), tolv) || fp_eq(fb, F_ZERO) {
                        jump = Label::L150;
                    } else if fp_ge(fp_abs(e), tolv) && fp_gt(fa, fb) {
                        jump = Label::L50;
                    } else {
                        d = xm;
                        e = d;
                        jump = Label::L110;
                    }
                    if iter > self.maxiter {
                        proof {
                            assert(brent_loop(f, self.tol, self.maxiter as int, st_prev)
                                == (BrentOutcome::NoConvergence { a, b }));
                        }
                        break;
                    }
                },
                Label::L50 => {
                    s = fp_div(fb, fa);
                    if !fp_eq(a, c) {
                        jump = Label::L60;
                    } else {
                        p = fp_mul(fp_mul(F_TWO, xm), s);
                        q = fp_sub(F_ONE, s);
                        jump = Label::L70;
                    }
                },
                Label::L60 => {
                    q = fp_div(fa, fc);
                    rv = fp_div(fb, fc);
                    p = fp_mul(
                        s,
                        fp_sub(
                            fp_mul(fp_mul(fp_mul(F_TWO, xm), q), fp_sub(q, rv)),
                            fp_mul(fp_sub(b, a), fp_sub(rv, F_ONE)),
                        ),
                    );
                    q = fp_mul(fp_mul(fp_sub(q, F_ONE), fp_sub(rv, F_ONE)), fp_sub(s, F_ONE));
                    jump = Label::L70;
                },
                Label::L70 => {
                    if fp_le(p, F_ZERO) {
                        jump = Label::L80;
                    } else {
                        q = fp_neg(q);
                        jump = Label::L90;
                    }
                },
                Label::L80 => {
                    p = fp_neg(p);
                    jump = Label::L90;
                },
                Label::L90 => {
                    s = e;
                    e = d;
                    if fp_ge(
                        fp_mul(F_TWO, p),
                        fp_sub(fp_mul(fp_mul(F_THREE, xm), q), fp_abs(fp_mul(q, tolv))),
                    ) || fp_ge(p, fp_mul(F_HALF, fp_abs(fp_mul(q, s)))) {
                        jump = Label::L100;
                    } else {
                        d = fp_div(p, q);
                        jump = Label::L110;
                    }
                },
                Label::L100 => {
                    d = xm;
                    e = d;
                    jump = Label::L110;
                },
                Label::L110 => {
                    a = b;
                    fa = fb;
                    if fp_le(fp_abs(d), tolv) {
                        jump = Label::L120;
                    } else {
                        b = fp_add(b, d);
                        jump = Label::L140;
                    }
                },
                Label::L120 => {
                    if fp_le(xm, F_ZERO) {
                        jump = Label::L130;
                    } else {
                        b = fp_add(b, tolv);
                        jump = Label::L140;
                    }
                },
                Label::L130 => {
                    b = fp_sub(b, tolv);
                    jump = Label::L140;
                },
                Label::L140 => {
                    fb = f.call(b);
                    iter = iter + 1;
                    if fp_gt(fp_mul(fb, fp_div(fc, fp_abs(fc))), F_ZERO) {
                        jump = Label::L20;
                    } else {
                        jump = Label::L30;
                    }
                },
                Label::L150 => {
                    proof {
                        assert(brent_loop(f, self.tol, self.maxiter as int, st_prev)
                            == (BrentOutcome::Root { x: b, fx: fb, xm, tol: tolv }));
                    }
                    return Ok(b);
                },
            }
            proof {
                st = BrentState {
                    a,
                    b,
                    c,
                    d,
                    e,
                    s,
                    p,
                    q,
                    r: rv,
                    xm,
                    tol: tolv,
                    fa,
                    fb,
                    fc,
                    iter: iter as int,
                    jump,
                };
                assert(brent_loop(f, self.tol, self.maxiter as int, st_prev) == brent_loop(
                    f,
                    self.tol,
                    self.maxiter as int,
                    st,
                ));
            }
        }
        Err(UnivariateError::NotConverged(a, b))
    }
}

} // verus!
