//! Verified core of a host-language binding to a native finite-element
//! engine.
//!
//! The crate covers the logic that makes such a binding safe and
//! maintainable: the build-time library locator (metadata parsing and
//! semantic-version negotiation), the compilation driver (compiler and
//! linker directive emission), and the run-time binding model (opaque
//! owning handles, borrowed references, capability-trait upcasts, the
//! ownership-transfer protocol, and checked downcasts).  The numerical
//! engine itself is out of scope: it is represented by an explicit
//! accounting value ([`runtime::NativeLib`]) that tracks object identity
//! and destruction, so that the ownership discipline can be stated and
//! proved.
#![allow(unused_imports)]
use vstd::prelude::*;

pub mod array;
pub mod driver;
pub mod fem;
pub mod forms;
pub mod locate;
pub mod metadata;
pub mod operator;
pub mod runtime;
pub mod strings;
pub mod tags;
pub mod upcast;
pub mod version;

pub use array::{ArrayInt, ArrayIntRef, Real, Vector};
pub use driver::{BuildError, CompilePlan, LinkDirective, Platform};
pub use fem::{
    CoeffBase, Coefficient, ConstantCoefficient, FecBase, FiniteElementCollection,
    FiniteElementSpace, GridFunction, GridFunctionRef, H1FeCollection, Mesh,
};
pub use forms::{
    BfiBase, BilinearForm, BilinearFormIntegrator, DiffusionIntegrator, DomainLFIntegrator,
    LfiBase, LinearForm, LinearFormIntegrator,
};
pub use locate::{LibraryDescriptor, LocateConfig, LocateError, LocateMode, Precision};
pub use operator::{
    solve_with_pcg, GsSmoother, MfemError, Operator, OperatorBase, OperatorHandle, Solver,
    SolverBase, SparseMatrix, SparseMatrixRef,
};
pub use runtime::NativeLib;
pub use tags::{BasisType, OperatorType, OrderingType, RefAlgo, NUM_BASIS_TYPES};
pub use upcast::{AsBase, AsBaseMut, IntoBase, VectorLike};
pub use version::{Version, VersionReq};

verus! {

/// The name of the vendored native source tree that bundled-mode
/// locating builds.  Build glue resolves it against its own output
/// root; it is only meaningful during a build.
pub fn mfem_path() -> (r: String)
    ensures
        r@ == "mfem"@,
{
    String::from_str("mfem")
}

/// The environment variable that names the root of a pre-installed
/// native library.  It is consulted only in system mode, and any change
/// to it must invalidate cached build state.
pub fn env_hint_var() -> (r: String)
    ensures
        r@ == "MFEM_DIR"@,
{
    String::from_str("MFEM_DIR")
}

} // verus!
