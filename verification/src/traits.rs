//! The capability interfaces a caller supplies to the solvers.
//!
//! Implementations of these traits are the caller's own code; the solvers
//! are verified against the contracts stated here.  An evaluation function
//! must be deterministic — each trait therefore carries a spec-level value
//! function that its executable method is promised to compute.

use vstd::prelude::*;
use crate::jacobian::DenseMatrix;

verus! {

/// Why a Jacobian-solve request was refused.
#[derive(Debug, Clone, PartialEq, Eq, Structural)]
pub enum JacobianError {
    /// The configuration is one the method does not implement yet
    /// (a banded matrix with a nonzero bandwidth, a dense system larger
    /// than one equation).
    Unimplemented,
    /// The stored coefficients do not match the shape of the request.
    Dimension,
}

/// A system evaluation function `x -> f(x)`, one binary64 encoding per
/// component.  `eval` must compute the same value for the same argument on
/// every call, and must preserve the length of its input.
pub trait VectorFunction {
    /// The value the evaluation function takes at `x`.  Left unspecified
    /// unless an implementation overrides it.
    open spec fn value(&self, x: Seq<u64>) -> Seq<u64> {
        vstd::pervasive::arbitrary()
    }

    /// Evaluate the function at `x`.
    fn eval(&self, x: &Vec<u64>) -> (y: Vec<u64>)
        ensures
            y@ == self.value(x@),
            y@.len() == x@.len(),
    ;
}

/// The capability "solve the current Jacobian against a residual".
pub trait Jacobian {
    /// Whether the request `b` is one this Jacobian can solve.  Left
    /// unspecified unless an implementation overrides it.
    open spec fn ok(&self, b: Seq<u64>) -> bool {
        vstd::pervasive::arbitrary()
    }

    /// The solution vector handed back for an accepted request.  Left
    /// unspecified unless an implementation overrides it.
    open spec fn value(&self, b: Seq<u64>) -> Seq<u64> {
        vstd::pervasive::arbitrary()
    }

    /// The error handed back for a refused request.  Left unspecified
    /// unless an implementation overrides it.
    open spec fn fail(&self, b: Seq<u64>) -> JacobianError {
        vstd::pervasive::arbitrary()
    }

    /// Solve the Jacobian system against the residual `b`.
    fn solve_jacobian(&self, b: &Vec<u64>) -> (r: Result<Vec<u64>, JacobianError>)
        ensures
            (match r {
                Ok(v) => self.ok(b@) && v@ == self.value(b@) && v@.len() == b@.len(),
                Err(e) => !self.ok(b@) && e == self.fail(b@),
            }),
    ;
}

/// The capability "produce the Jacobian at a point and solve it against a
/// residual".  The corrector evaluates this at shifted points while keeping
/// the residual fixed.
pub trait JacobianMap {
    /// Whether the request at point `x` against residual `b` is accepted.
    /// Left unspecified unless an implementation overrides it.
    open spec fn ok_at(&self, x: Seq<u64>, b: Seq<u64>) -> bool {
        vstd::pervasive::arbitrary()
    }

    /// The solution vector for an accepted request.  Left unspecified
    /// unless an implementation overrides it.
    open spec fn value_at(&self, x: Seq<u64>, b: Seq<u64>) -> Seq<u64> {
        vstd::pervasive::arbitrary()
    }

    /// The error handed back for a refused request.  Left unspecified
    /// unless an implementation overrides it.
    open spec fn error_at(&self, x: Seq<u64>, b: Seq<u64>) -> JacobianError {
        vstd::pervasive::arbitrary()
    }

    /// Solve the Jacobian system at the point `x` against the residual `b`.
    fn solve_at(&self, x: &Vec<u64>, b: &Vec<u64>) -> (r: Result<Vec<u64>, JacobianError>)
        ensures
            (match r {
                Ok(v) => self.ok_at(x@, b@) && v@ == self.value_at(x@, b@) && v@.len() == b@.len(),
                Err(e) => !self.ok_at(x@, b@) && e == self.error_at(x@, b@),
            }),
    ;
}

/// The opaque dense linear-solve capability: given a square matrix `a` and a
/// right-hand side `b`, return the solution of `a * x = b`.  Factorization
/// and solve routines are outside collaborators; the solvers only rely on
/// the answer being a deterministic function of the system.
pub trait LinearSolver {
    /// The solution this capability computes for the system `(a, b)`.
    /// Left unspecified unless an implementation overrides it.
    open spec fn solution(&self, a: Seq<Seq<u64>>, b: Seq<u64>) -> Seq<u64> {
        vstd::pervasive::arbitrary()
    }

    /// Solve `a * x = b`.
    fn solve_system(&self, a: &DenseMatrix, b: &Vec<u64>) -> (x: Vec<u64>)
        ensures
            x@ == self.solution(a@, b@),
            x@.len() == b@.len(),
    ;
}

} // verus!
