//! The two concrete Jacobian representations: a full dense matrix and a
//! banded matrix stored as its diagonals.
//!
//! Only the smallest configurations are implemented — a one-equation dense
//! system and the zero-bandwidth (purely diagonal) banded case.  Everything
//! wider is refused loudly with `JacobianError::Unimplemented` rather than
//! silently approximated.

use vstd::prelude::*;
use crate::fp::div_bits;
use crate::fp::fp_div;
use crate::traits::Jacobian;
use crate::traits::JacobianError;
use crate::vecmath::{rows_view, vdiv_bits, fp_vdiv};

verus! {

/// A dense matrix of binary64 encodings, stored as a vector of rows.
#[derive(Debug, Clone)]
pub struct DenseMatrix {
    /// The rows, outermost first; the matrix is rectangular when every row
    /// has the same length.
    pub rows: Vec<Vec<u64>>,
}

impl View for DenseMatrix {
    type V = Seq<Seq<u64>>;

    open spec fn view(&self) -> Seq<Seq<u64>> {
        rows_view(self.rows@)
    }
}

impl DenseMatrix {
    /// Wrap a vector of rows as a matrix.
    pub fn new(rows: Vec<Vec<u64>>) -> (r: Self)
        ensures
            r@ == rows_view(rows@),
    {
        DenseMatrix { rows }
    }

    /// The number of rows.
    pub fn nrows(&self) -> (n: usize)
        ensures
            n == self@.len(),
    {
        self.rows.len()
    }
}

/// A Jacobian held as a full dense matrix.
#[derive(Debug, Clone)]
pub struct FullJacobian {
    /// The matrix itself.
    pub m: DenseMatrix,
}

impl FullJacobian {
    /// Wrap a dense matrix as a Jacobian.
    pub fn new(v: DenseMatrix) -> (r: Self)
        ensures
            r.m == v,
    {
        FullJacobian { m: v }
    }
}

impl Jacobian for FullJacobian {
    /// Only the one-equation system is implemented, and it needs a stored
    /// leading coefficient.
    open spec fn ok(&self, b: Seq<u64>) -> bool {
        b.len() == 1 && self.m@.len() >= 1 && self.m@[0].len() >= 1
    }

    /// The single component is the residual divided by the leading
    /// coefficient.
    open spec fn value(&self, b: Seq<u64>) -> Seq<u64> {
        seq![div_bits(b[0], self.m@[0][0])]
    }

    open spec fn fail(&self, b: Seq<u64>) -> JacobianError {
        if b.len() == 1 {
            JacobianError::Dimension
        } else {
            JacobianError::Unimplemented
        }
    }

    fn solve_jacobian(&self, b: &Vec<u64>) -> (r: Result<Vec<u64>, JacobianError>) {
        if b.len() == 1 {
            if self.m.rows.len() >= 1 && self.m.rows[0].len() >= 1 {
                let q = fp_div(b[0], self.m.rows[0][0]);
                let v = vec![q];
                proof {
                    assert(v@ =~= self.value(b@));
                }
                Ok(v)
            } else {
                Err(JacobianError::Dimension)
            }
        } else {
            Err(JacobianError::Unimplemented)
        }
    }
}

/// A Jacobian held as a banded matrix: `ml` diagonals below the main one,
/// `mu` above, stored as `ml + mu + 1` diagonal vectors.
#[derive(Debug, Clone)]
pub struct BandedJacobian {
    /// The lower bandwidth.
    pub ml: usize,
    /// The upper bandwidth.
    pub mu: usize,
    /// The stored diagonals; a well-formed value holds `ml + mu + 1` of them.
    pub diags: Vec<Vec<u64>>,
}

impl BandedJacobian {
    /// Whether the stored diagonals match the bandwidths.
    pub open spec fn wf(&self) -> bool {
        self.diags@.len() == self.ml + self.mu + 1
    }

    /// Wrap bandwidths and diagonals as a banded Jacobian.  The number of
    /// diagonals must match the bandwidths; an unverified caller must check
    /// this before calling.
    pub fn new(ml: usize, mu: usize, diags: Vec<Vec<u64>>) -> (r: Self)
        requires
            diags@.len() == ml + mu + 1,
        ensures
            r.ml == ml,
            r.mu == mu,
            r.diags == diags,
            r.wf(),
    {
        BandedJacobian { ml, mu, diags }
    }
}

impl Jacobian for BandedJacobian {
    /// Only the zero-bandwidth case is implemented: the system is diagonal
    /// and the stored main diagonal must match the residual's length.
    open spec fn ok(&self, b: Seq<u64>) -> bool {
        self.ml == 0 && self.mu == 0 && self.diags@.len() >= 1 && self.diags@[0]@.len() == b.len()
    }

    /// The elementwise diagonal solve: each component of the residual
    /// divided by the matching main-diagonal entry.
    open spec fn value(&self, b: Seq<u64>) -> Seq<u64> {
        vdiv_bits(b, self.diags@[0]@)
    }

    open spec fn fail(&self, b: Seq<u64>) -> JacobianError {
        if self.ml == 0 && self.mu == 0 {
            JacobianError::Dimension
        } else {
            JacobianError::Unimplemented
        }
    }

    fn solve_jacobian(&self, b: &Vec<u64>) -> (r: Result<Vec<u64>, JacobianError>) {
        if self.ml == 0 && self.mu == 0 {
            if self.diags.len() >= 1 && self.diags[0].len() == b.len() {
                Ok(fp_vdiv(b, &self.diags[0]))
            } else {
                Err(JacobianError::Dimension)
            }
        } else {
            // Nonzero bandwidths, narrow or wide, are not yet supported.
            Err(JacobianError::Unimplemented)
        }
    }
}

/// The zero-bandwidth banded solve is exactly the elementwise diagonal
/// formula: component `i` of the answer is `b[i] / diags[0][i]`.
pub proof fn lemma_banded_diagonal_formula(j: &BandedJacobian, b: Seq<u64>)
    requires
        j.ml == 0,
        j.mu == 0,
        j.diags@.len() >= 1,
        j.diags@[0]@.len() == b.len(),
    ensures
        j.ok(b),
        j.value(b) == Seq::new(b.len(), |i: int| div_bits(b[i], j.diags@[0]@[i])),
{
    assert(j.value(b) =~= Seq::new(b.len(), |i: int| div_bits(b[i], j.diags@[0]@[i])));
}

/// A banded Jacobian with a bandwidth of two or more on either side refuses
/// every request with the unsupported-configuration signal.
pub proof fn lemma_banded_wide_unimplemented(j: &BandedJacobian, b: Seq<u64>)
    requires
        j.ml >= 2 || j.mu >= 2,
    ensures
        !j.ok(b),
        j.fail(b) == JacobianError::Unimplemented,
{
}

} // verus!
