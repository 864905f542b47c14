//! The two Jacobian representations: the zero-bandwidth banded solve must be
//! exactly the elementwise diagonal division, every wider band must raise
//! the unsupported-configuration signal, and the one-equation dense solve is
//! a plain division.

use findroot::{BandedJacobian, DenseMatrix, FullJacobian, Jacobian, JacobianError};

fn b(x: f64) -> u64 {
    x.to_bits()
}

#[test]
fn banded_diagonal_matches_elementwise_division() {
    let diags = vec![vec![b(2.0), b(4.0), b(8.0)]];
    let j = BandedJacobian::new(0, 0, diags);
    let rhs = vec![b(3.0), b(5.0), b(7.0)];
    let sol = j.solve_jacobian(&rhs).expect("the diagonal case is implemented");
    assert_eq!(sol, vec![b(3.0 / 2.0), b(5.0 / 4.0), b(7.0 / 8.0)]);
}

#[test]
fn banded_wide_bandwidth_is_unimplemented() {
    let j = BandedJacobian::new(2, 0, vec![vec![b(1.0)]; 3]);
    assert_eq!(j.solve_jacobian(&vec![b(1.0)]), Err(JacobianError::Unimplemented));
    let j = BandedJacobian::new(0, 2, vec![vec![b(1.0)]; 3]);
    assert_eq!(j.solve_jacobian(&vec![b(1.0)]), Err(JacobianError::Unimplemented));
    let j = BandedJacobian::new(1, 1, vec![vec![b(1.0)]; 3]);
    assert_eq!(j.solve_jacobian(&vec![b(1.0)]), Err(JacobianError::Unimplemented));
}

#[test]
fn banded_shape_mismatch_is_a_dimension_error() {
    let j = BandedJacobian::new(0, 0, vec![vec![b(2.0), b(4.0)]]);
    assert_eq!(j.solve_jacobian(&vec![b(1.0)]), Err(JacobianError::Dimension));
}

#[test]
fn full_one_equation_solve_divides() {
    let j = FullJacobian::new(DenseMatrix::new(vec![vec![b(4.0)]]));
    let sol = j.solve_jacobian(&vec![b(3.0)]).expect("the one-equation case is implemented");
    assert_eq!(sol, vec![b(0.75)]);
}

#[test]
fn full_larger_system_is_unimplemented() {
    let j = FullJacobian::new(
        DenseMatrix::new(vec![vec![b(1.0), b(0.0)], vec![b(0.0), b(1.0)]]),
    );
    assert_eq!(
        j.solve_jacobian(&vec![b(1.0), b(2.0)]),
        Err(JacobianError::Unimplemented),
    );
}
