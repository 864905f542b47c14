//! Elementwise vector and small matrix arithmetic over binary64 encodings,
//! together with the tolerance predicates the solvers share.
//!
//! Each executable function mirrors a spec function exactly, element by
//! element, so a solver's contract can name the value of every intermediate
//! vector it computes.

use vstd::prelude::*;
use crate::fp::{
    F_ZERO, abs_bits, add_bits, div_bits, lt_bits, max_bits, mul_bits, sub_bits,
    fp_abs, fp_add, fp_div, fp_lt, fp_max, fp_mul, fp_sub,
};

verus! {

/// Elementwise sum of two equally long vectors of encodings.
pub open spec fn vadd_bits(a: Seq<u64>, b: Seq<u64>) -> Seq<u64> {
    Seq::new(a.len(), |i: int| add_bits(a[i], b[i]))
}

/// Elementwise difference of two equally long vectors of encodings.
pub open spec fn vsub_bits(a: Seq<u64>, b: Seq<u64>) -> Seq<u64> {
    Seq::new(a.len(), |i: int| sub_bits(a[i], b[i]))
}

/// Elementwise product of two equally long vectors of encodings.
pub open spec fn vmul_bits(a: Seq<u64>, b: Seq<u64>) -> Seq<u64> {
    Seq::new(a.len(), |i: int| mul_bits(a[i], b[i]))
}

/// Elementwise quotient of two equally long vectors of encodings.
pub open spec fn vdiv_bits(a: Seq<u64>, b: Seq<u64>) -> Seq<u64> {
    Seq::new(a.len(), |i: int| div_bits(a[i], b[i]))
}

/// A scalar multiplied onto a vector from the left: `s * v[i]`.
pub open spec fn vscale_bits(s: u64, a: Seq<u64>) -> Seq<u64> {
    Seq::new(a.len(), |i: int| mul_bits(s, a[i]))
}

/// A vector multiplied by a scalar on the right: `v[i] * s`.
pub open spec fn vscale_right_bits(a: Seq<u64>, s: u64) -> Seq<u64> {
    Seq::new(a.len(), |i: int| mul_bits(a[i], s))
}

/// A vector divided elementwise by a scalar: `v[i] / s`.
pub open spec fn vdiv_scalar_bits(a: Seq<u64>, s: u64) -> Seq<u64> {
    Seq::new(a.len(), |i: int| div_bits(a[i], s))
}

/// Left-to-right accumulation of a dot product, starting from `acc`.
pub open spec fn dot_acc_bits(a: Seq<u64>, b: Seq<u64>, acc: u64) -> u64
    decreases a.len(),
{
    if a.len() == 0 {
        acc
    } else {
        dot_acc_bits(a.skip(1), b.skip(1), add_bits(acc, mul_bits(a[0], b[0])))
    }
}

/// The dot product of two equally long vectors, accumulated left to right
/// from a zero start.
pub open spec fn dot_bits(a: Seq<u64>, b: Seq<u64>) -> u64 {
    dot_acc_bits(a, b, F_ZERO)
}

/// The sequence of row views of a vector of rows.
pub open spec fn rows_view(m: Seq<Vec<u64>>) -> Seq<Seq<u64>> {
    Seq::new(m.len(), |i: int| m[i]@)
}

/// A matrix applied to a vector: each entry the dot product of a row with it.
pub open spec fn matvec_bits(m: Seq<Seq<u64>>, v: Seq<u64>) -> Seq<u64> {
    Seq::new(m.len(), |i: int| dot_bits(m[i], v))
}

/// The square diagonal matrix with `d` on the diagonal and zeros elsewhere.
pub open spec fn diag_bits(d: Seq<u64>) -> Seq<Seq<u64>> {
    Seq::new(d.len(), |i: int| Seq::new(d.len(), |j: int| if i == j { d[i] } else { F_ZERO }))
}

/// One component of the combined absolute/relative tolerance test:
/// `|x1 - x2| < atol + rtol * max(|x1|, |x2|)`.
pub open spec fn pair_within_tol(x1: u64, x2: u64, atol: u64, rtol: u64) -> bool {
    lt_bits(
        abs_bits(sub_bits(x1, x2)),
        add_bits(atol, mul_bits(rtol, max_bits(abs_bits(x1), abs_bits(x2)))),
    )
}

/// The tolerance test of the fixed-point solvers, applied to every component.
pub open spec fn all_within_tol(a: Seq<u64>, b: Seq<u64>, atol: Seq<u64>, rtol: Seq<u64>) -> bool {
    forall|i: int| 0 <= i < a.len() ==> pair_within_tol(a[i], b[i], atol[i], rtol[i])
}

/// The residual test of the root-finding solvers: `|f[i]| < tol[i]` everywhere.
pub open spec fn residual_within_tol(fv: Seq<u64>, tol: Seq<u64>) -> bool {
    forall|i: int| 0 <= i < fv.len() ==> lt_bits(abs_bits(fv[i]), tol[i])
}

/// Elementwise sum.
pub fn fp_vadd(a: &Vec<u64>, b: &Vec<u64>) -> (r: Vec<u64>)
    requires
        a@.len() == b@.len(),
    ensures
        r@ == vadd_bits(a@, b@),
{
    let mut r: Vec<u64> = Vec::new();
    let mut i: usize = 0;
    while i < a.len()
        invariant
            a@.len() == b@.len(),
            i <= a@.len(),
            r@ == vadd_bits(a@, b@).take(i as int),
        decreases a@.len() - i,
    {
        r.push(fp_add(a[i], b[i]));
        i = i + 1;
        proof {
            assert(vadd_bits(a@, b@).take(i as int) =~= vadd_bits(a@, b@).take(
                i as int - 1,
            ).push(add_bits(a@[i as int - 1], b@[i as int - 1])));
        }
    }
    proof {
        assert(vadd_bits(a@, b@).take(a@.len() as int) =~= vadd_bits(a@, b@));
    }
    r
}

/// Elementwise difference.
pub fn fp_vsub(a: &Vec<u64>, b: &Vec<u64>) -> (r: Vec<u64>)
    requires
        a@.len() == b@.len(),
    ensures
        r@ == vsub_bits(a@, b@),
{
    let mut r: Vec<u64> = Vec::new();
    let mut i: usize = 0;
    while i < a.len()
        invariant
            a@.len() == b@.len(),
            i <= a@.len(),
            r@ == vsub_bits(a@, b@).take(i as int),
        decreases a@.len() - i,
    {
        r.push(fp_sub(a[i], b[i]));
        i = i + 1;
        proof {
            assert(vsub_bits(a@, b@).take(i as int) =~= vsub_bits(a@, b@).take(
                i as int - 1,
            ).push(sub_bits(a@[i as int - 1], b@[i as int - 1])));
        }
    }
    proof {
        assert(vsub_bits(a@, b@).take(a@.len() as int) =~= vsub_bits(a@, b@));
    }
    r
}

/// Elementwise product.
pub fn fp_vmul(a: &Vec<u64>, b: &Vec<u64>) -> (r: Vec<u64>)
    requires
        a@.len() == b@.len(),
    ensures
        r@ == vmul_bits(a@, b@),
{
    let mut r: Vec<u64> = Vec::new();
    let mut i: usize = 0;
    while i < a.len()
        invariant
            a@.len() == b@.len(),
            i <= a@.len(),
            r@ == vmul_bits(a@, b@).take(i as int),
        decreases a@.len() - i,
    {
        r.push(fp_mul(a[i], b[i]));
        i = i + 1;
        proof {
            assert(vmul_bits(a@, b@).take(i as int) =~= vmul_bits(a@, b@).take(
                i as int - 1,
            ).push(mul_bits(a@[i as int - 1], b@[i as int - 1])));
        }
    }
    proof {
        assert(vmul_bits(a@, b@).take(a@.len() as int) =~= vmul_bits(a@, b@));
    }
    r
}

/// Elementwise quotient.
pub fn fp_vdiv(a: &Vec<u64>, b: &Vec<u64>) -> (r: Vec<u64>)
    requires
        a@.len() == b@.len(),
    ensures
        r@ == vdiv_bits(a@, b@),
{
    let mut r: Vec<u64> = Vec::new();
    let mut i: usize = 0;
    while i < a.len()
        invariant
            a@.len() == b@.len(),
            i <= a@.len(),
            r@ == vdiv_bits(a@, b@).take(i as int),
        decreases a@.len() - i,
    {
        r.push(fp_div(a[i], b[i]));
        i = i + 1;
        proof {
            assert(vdiv_bits(a@, b@).take(i as int) =~= vdiv_bits(a@, b@).take(
                i as int - 1,
            ).push(div_bits(a@[i as int - 1], b@[i as int - 1])));
        }
    }
    proof {
        assert(vdiv_bits(a@, b@).take(a@.len() as int) =~= vdiv_bits(a@, b@));
    }
    r
}

/// A scalar times a vector, the scalar as the left operand of each product.
pub fn fp_vscale(s: u64, a: &Vec<u64>) -> (r: Vec<u64>)
    ensures
        r@ == vscale_bits(s, a@),
{
    let mut r: Vec<u64> = Vec::new();
    let mut i: usize = 0;
    while i < a.len()
        invariant
            i <= a@.len(),
            r@ == vscale_bits(s, a@).take(i as int),
        decreases a@.len() - i,
    {
        r.push(fp_mul(s, a[i]));
        i = i + 1;
        proof {
            assert(vscale_bits(s, a@).take(i as int) =~= vscale_bits(s, a@).take(
                i as int - 1,
            ).push(mul_bits(s, a@[i as int - 1])));
        }
    }
    proof {
        assert(vscale_bits(s, a@).take(a@.len() as int) =~= vscale_bits(s, a@));
    }
    r
}

/// A vector times a scalar, the scalar as the right operand of each product.
pub fn fp_vscale_right(a: &Vec<u64>, s: u64) -> (r: Vec<u64>)
    ensures
        r@ == vscale_right_bits(a@, s),
{
    let mut r: Vec<u64> = Vec::new();
    let mut i: usize = 0;
    while i < a.len()
        invariant
            i <= a@.len(),
            r@ == vscale_right_bits(a@, s).take(i as int),
        decreases a@.len() - i,
    {
        r.push(fp_mul(a[i], s));
        i = i + 1;
        proof {
            assert(vscale_right_bits(a@, s).take(i as int) =~= vscale_right_bits(
                a@,
                s,
            ).take(i as int - 1).push(mul_bits(a@[i as int - 1], s)));
        }
    }
    proof {
        assert(vscale_right_bits(a@, s).take(a@.len() as int) =~= vscale_right_bits(a@, s));
    }
    r
}

/// A vector divided elementwise by a scalar.
pub fn fp_vdiv_scalar(a: &Vec<u64>, s: u64) -> (r: Vec<u64>)
    ensures
        r@ == vdiv_scalar_bits(a@, s),
{
    let mut r: Vec<u64> = Vec::new();
    let mut i: usize = 0;
    while i < a.len()
        invariant
            i <= a@.len(),
            r@ == vdiv_scalar_bits(a@, s).take(i as int),
        decreases a@.len() - i,
    {
        r.push(fp_div(a[i], s));
        i = i + 1;
        proof {
            assert(vdiv_scalar_bits(a@, s).take(i as int) =~= vdiv_scalar_bits(
                a@,
                s,
            ).take(i as int - 1).push(div_bits(a@[i as int - 1], s)));
        }
    }
    proof {
        assert(vdiv_scalar_bits(a@, s).take(a@.len() as int) =~= vdiv_scalar_bits(a@, s));
    }
    r
}

/// The dot product, accumulated left to right from a zero start.
pub fn fp_dot(a: &Vec<u64>, b: &Vec<u64>) -> (r: u64)
    requires
        a@.len() == b@.len(),
    ensures
        r == dot_bits(a@, b@),
{
    let mut acc = F_ZERO;
    let mut i: usize = 0;
    proof {
        assert(a@.skip(0) =~= a@);
        assert(b@.skip(0) =~= b@);
    }
    while i < a.len()
        invariant
            a@.len() == b@.len(),
            i <= a@.len(),
            dot_acc_bits(a@.skip(i as int), b@.skip(i as int), acc) == dot_bits(a@, b@),
        decreases a@.len() - i,
    {
        proof {
            assert(a@.skip(i as int).skip(1) =~= a@.skip(i as int + 1));
            assert(b@.skip(i as int).skip(1) =~= b@.skip(i as int + 1));
        }
        acc = fp_add(acc, fp_mul(a[i], b[i]));
        i = i + 1;
    }
    proof {
        assert(a@.skip(a@.len() as int) =~= Seq::<u64>::empty());
    }
    acc
}

/// A matrix (as a vector of rows) applied to a vector.
pub fn fp_matvec(m: &Vec<Vec<u64>>, v: &Vec<u64>) -> (r: Vec<u64>)
    requires
        forall|i: int| 0 <= i < m@.len() ==> #[trigger] m@[i]@.len() == v@.len(),
    ensures
        r@ == matvec_bits(rows_view(m@), v@),
        r@.len() == m@.len(),
{
    let mut r: Vec<u64> = Vec::new();
    let mut i: usize = 0;
    while i < m.len()
        invariant
            forall|k: int| 0 <= k < m@.len() ==> #[trigger] m@[k]@.len() == v@.len(),
            i <= m@.len(),
            r@ == matvec_bits(rows_view(m@), v@).take(i as int),
        decreases m@.len() - i,
    {
        r.push(fp_dot(&m[i], v));
        i = i + 1;
        proof {
            assert(matvec_bits(rows_view(m@), v@).take(i as int) =~= matvec_bits(
                rows_view(m@),
                v@,
            ).take(i as int - 1).push(dot_bits(m@[i as int - 1]@, v@)));
        }
    }
    proof {
        assert(matvec_bits(rows_view(m@), v@).take(m@.len() as int) =~= matvec_bits(
            rows_view(m@),
            v@,
        ));
    }
    r
}

/// The square diagonal matrix with `d` on the diagonal.
pub fn fp_diag(d: &Vec<u64>) -> (r: Vec<Vec<u64>>)
    ensures
        rows_view(r@) == diag_bits(d@),
        r@.len() == d@.len(),
        forall|i: int| 0 <= i < r@.len() ==> #[trigger] r@[i]@.len() == d@.len(),
{
    let n = d.len();
    let mut r: Vec<Vec<u64>> = Vec::new();
    let mut i: usize = 0;
    while i < n
        invariant
            n == d@.len(),
            i <= n,
            r@.len() == i,
            forall|k: int| 0 <= k < i ==> #[trigger] r@[k]@ == diag_bits(d@)[k],
        decreases n - i,
    {
        let mut row: Vec<u64> = Vec::new();
        let mut j: usize = 0;
        while j < n
            invariant
                n == d@.len(),
                i < n,
                j <= n,
                row@.len() == j,
                forall|l: int| 0 <= l < j ==> #[trigger] row@[l] == diag_bits(d@)[i as int][l],
            decreases n - j,
        {
            if j == i {
                row.push(d[i]);
            } else {
                row.push(F_ZERO);
            }
            j = j + 1;
        }
        r.push(row);
        i = i + 1;
        proof {
            assert(r@[i as int - 1]@ =~= diag_bits(d@)[i as int - 1]);
        }
    }
    proof {
        assert(rows_view(r@) =~= diag_bits(d@));
    }
    r
}

/// A fresh vector with the same encodings.
pub fn fp_vcopy(a: &Vec<u64>) -> (r: Vec<u64>)
    ensures
        r@ == a@,
{
    let mut r: Vec<u64> = Vec::new();
    let mut i: usize = 0;
    while i < a.len()
        invariant
            i <= a@.len(),
            r@ == a@.take(i as int),
        decreases a@.len() - i,
    {
        r.push(a[i]);
        i = i + 1;
        proof {
            assert(a@.take(i as int) =~= a@.take(i as int - 1).push(a@[i as int - 1]));
        }
    }
    proof {
        assert(a@.take(a@.len() as int) =~= a@);
    }
    r
}

/// The rank-1 inverse-Jacobian refresh: entry `(i, j)` becomes
/// `a[i] * b[j] / s + m[i][j]`.
pub open spec fn rank1_update_bits(a: Seq<u64>, b: Seq<u64>, s: u64, m: Seq<Seq<u64>>) -> Seq<
    Seq<u64>,
> {
    Seq::new(
        a.len(),
        |i: int| Seq::new(b.len(), |j: int| add_bits(div_bits(mul_bits(a[i], b[j]), s), m[i][j])),
    )
}

/// The rank-1 refresh, computed entry by entry.
pub fn fp_rank1_update(a: &Vec<u64>, b: &Vec<u64>, s: u64, m: &Vec<Vec<u64>>) -> (r: Vec<Vec<u64>>)
    requires
        m@.len() == a@.len(),
        forall|i: int| 0 <= i < m@.len() ==> #[trigger] m@[i]@.len() == b@.len(),
    ensures
        rows_view(r@) == rank1_update_bits(a@, b@, s, rows_view(m@)),
        r@.len() == a@.len(),
        forall|i: int| 0 <= i < r@.len() ==> #[trigger] r@[i]@.len() == b@.len(),
{
    let n = a.len();
    let width = b.len();
    let mut r: Vec<Vec<u64>> = Vec::new();
    let mut i: usize = 0;
    while i < n
        invariant
            n == a@.len(),
            width == b@.len(),
            m@.len() == a@.len(),
            forall|k: int| 0 <= k < m@.len() ==> #[trigger] m@[k]@.len() == b@.len(),
            i <= n,
            r@.len() == i,
            forall|k: int| 0 <= k < i ==> #[trigger] r@[k]@ == rank1_update_bits(
                a@,
                b@,
                s,
                rows_view(m@),
            )[k],
        decreases n - i,
    {
        let mut row: Vec<u64> = Vec::new();
        let mut j: usize = 0;
        while j < width
            invariant
                n == a@.len(),
                width == b@.len(),
                m@.len() == a@.len(),
                forall|k: int| 0 <= k < m@.len() ==> #[trigger] m@[k]@.len() == b@.len(),
                i < n,
                j <= width,
                row@.len() == j,
                forall|l: int| 0 <= l < j ==> #[trigger] row@[l] == add_bits(
                    div_bits(mul_bits(a@[i as int], b@[l]), s),
                    m@[i as int]@[l],
                ),
            decreases width - j,
        {
            row.push(fp_add(fp_div(fp_mul(a[i], b[j]), s), m[i][j]));
            j = j + 1;
        }
        r.push(row);
        i = i + 1;
        proof {
            assert(r@[i as int - 1]@ =~= rank1_update_bits(a@, b@, s, rows_view(m@))[i as int - 1]);
        }
    }
    proof {
        assert(rows_view(r@) =~= rank1_update_bits(a@, b@, s, rows_view(m@)));
    }
    r
}

/// The combined absolute/relative tolerance test, every component at once.
pub fn fp_all_within_tol(a: &Vec<u64>, b: &Vec<u64>, atol: &Vec<u64>, rtol: &Vec<u64>) -> (r: bool)
    requires
        a@.len() == b@.len(),
        a@.len() == atol@.len(),
        a@.len() == rtol@.len(),
    ensures
        r == all_within_tol(a@, b@, atol@, rtol@),
{
    let mut i: usize = 0;
    while i < a.len()
        invariant
            a@.len() == b@.len(),
            a@.len() == atol@.len(),
            a@.len() == rtol@.len(),
            i <= a@.len(),
            forall|k: int| 0 <= k < i ==> pair_within_tol(a@[k], b@[k], atol@[k], rtol@[k]),
        decreases a@.len() - i,
    {
        let gap = fp_abs(fp_sub(a[i], b[i]));
        let bound = fp_add(atol[i], fp_mul(rtol[i], fp_max(fp_abs(a[i]), fp_abs(b[i]))));
        if !fp_lt(gap, bound) {
            assert(!pair_within_tol(a@[i as int], b@[i as int], atol@[i as int], rtol@[i as int]));
            return false;
        }
        i = i + 1;
    }
    true
}

/// The residual test, every component at once.
pub fn fp_residual_within_tol(fv: &Vec<u64>, tol: &Vec<u64>) -> (r: bool)
    requires
        fv@.len() == tol@.len(),
    ensures
        r == residual_within_tol(fv@, tol@),
{
    let mut i: usize = 0;
    while i < fv.len()
        invariant
            fv@.len() == tol@.len(),
            i <= fv@.len(),
            forall|k: int| 0 <= k < i ==> lt_bits(abs_bits(fv@[k]), tol@[k]),
        decreases fv@.len() - i,
    {
        if !fp_lt(fp_abs(fv[i]), tol[i]) {
            return false;
        }
        i = i + 1;
    }
    true
}

} // verus!
