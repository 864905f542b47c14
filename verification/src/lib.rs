//! Iterative numerical solvers for root-finding (`f(x) = 0`) and
//! self-consistency (`x = f(x)`) problems.
//!
//! Scalars everywhere are IEEE-754 binary64 values carried as `u64` bit
//! patterns; see the `fp` module.  Callers supply their evaluation functions
//! (and, where a method asks for one, a Jacobian or linear-solve capability)
//! by implementing the small capability traits of this crate.

pub mod brent;
pub mod broyden;
pub mod fp;
pub mod jacobian;
pub mod newton;
pub mod sand;
pub mod steffensen;
pub mod traits;
pub mod vecmath;
pub mod wegstein;

pub use brent::{Brentq, Univariate, UnivariateClosure, UnivariateError};
pub use broyden::Broyden;
pub use jacobian::{BandedJacobian, DenseMatrix, FullJacobian};
pub use newton::{NewtonError, NewtonRaphson, Problem};
pub use sand::Sand;
pub use steffensen::Steffensen;
pub use traits::{Jacobian, JacobianError, JacobianMap, LinearSolver, VectorFunction};
pub use wegstein::Wegstein;
