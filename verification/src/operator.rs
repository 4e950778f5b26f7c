//! Operators and the safe downcast layer: the base-class operator
//! view, the operator handle with its runtime type tag, the
//! tag-checked narrowing to a concrete sparse matrix, and the solver
//! side of the preconditioned conjugate-gradient entry point.
#![allow(unused_imports)]
use core::marker::PhantomData;
use vstd::prelude::*;

use crate::array::{Real, Vector};
use crate::runtime::{NativeLib, RawHandle};
use crate::tags::{operator_type_chars, OperatorType};
use crate::upcast::{AsBase, AsBaseMut};

verus! {

/// A typed error of the run-time binding.  Recoverable: calling code
/// inspects the result and chooses a fallback path.
#[derive(Clone, Copy, Debug, PartialEq, Eq, Structural)]
pub enum MfemError {
    /// A checked downcast failed: carries the expected tag, then the
    /// tag actually behind the handle.
    OperatorHandleTypeMismatch(OperatorType, OperatorType),
}

/// The diagnostic text of an error.
pub open spec fn mfem_error_chars(e: MfemError) -> Seq<char> {
    match e {
        MfemError::OperatorHandleTypeMismatch(expected, actual) => {
            "OperatorHandle type mismatch: expected "@ + operator_type_chars(expected)
                + " got "@ + operator_type_chars(actual)
        },
    }
}

impl MfemError {
    /// Renders the diagnostic text of this error.
    pub fn message(&self) -> (r: String)
        ensures
            r@ == mfem_error_chars(*self),
    {
        match self {
            MfemError::OperatorHandleTypeMismatch(expected, actual) => {
                let mut r = String::from_str("OperatorHandle type mismatch: expected ");
                let e = expected.name();
                r.append(e.as_str());
                r.append(" got ");
                let a = actual.name();
                r.append(a.as_str());
                r
            },
        }
    }
}

/// What a checked downcast to `expected` yields against an actual tag:
/// success exactly on a tag match, otherwise the error carrying both
/// tags — never null, never a silent wrong-type reinterpretation.
pub open spec fn downcast_check(expected: OperatorType, actual: OperatorType) -> Result<
    (),
    MfemError,
> {
    if expected == actual {
        Ok(())
    } else {
        Err(MfemError::OperatorHandleTypeMismatch(expected, actual))
    }
}

/// The downcast law: for every pair of distinct tags the check fails
/// with exactly the expected and the actual tag, and for every equal
/// pair it succeeds.
pub proof fn lemma_downcast_tags(expected: OperatorType, actual: OperatorType)
    ensures
        expected != actual ==> downcast_check(expected, actual) == Err::<(), MfemError>(
            MfemError::OperatorHandleTypeMismatch(expected, actual),
        ),
        expected == actual ==> downcast_check(expected, actual) == Ok::<(), MfemError>(()),
{
}

/// The base class of every operator: its dimensions.
#[derive(Clone, Copy, Debug, PartialEq, Eq, Structural)]
pub struct OperatorBase {
    pub height: i32,
    pub width: i32,
}

/// Anything that is an operator, by upcast to [`OperatorBase`].
pub trait Operator: AsBase<OperatorBase> {
    /// The operator's height (number of rows).
    fn height(&self) -> (r: i32)
        ensures
            r == self.base_spec().height,
    {
        self.as_base().height
    }
}

/// An owning handle to an operator of initially unknown concrete type,
/// tagged with the runtime type of the operator behind it.
pub struct OperatorHandle {
    pub raw: RawHandle,
    pub op_type: OperatorType,
    pub base: OperatorBase,
}

impl OperatorHandle {
    /// Constructs an empty handle: no operator behind it yet, so the
    /// tag is the wildcard type and the dimensions are zero.
    pub fn new(lib: &mut NativeLib) -> (r: OperatorHandle)
        requires
            old(lib).next_id < u64::MAX,
        ensures
            r.raw.id == old(lib).next_id,
            r.op_type == OperatorType::ANY_TYPE,
            r.base == (OperatorBase { height: 0, width: 0 }),
            final(lib).next_id == old(lib).next_id + 1,
            final(lib).destroy_log == old(lib).destroy_log,
    {
        let raw = lib.fresh_handle();
        OperatorHandle { raw, op_type: OperatorType::ANY_TYPE, base: OperatorBase {
            height: 0,
            width: 0,
        } }
    }

    /// The runtime type tag of the operator behind this handle.
    pub fn get_type(&self) -> (r: OperatorType)
        ensures
            r == self.op_type,
    {
        self.op_type
    }

    /// Destroys the handle and the operator it owns: one destruction
    /// of its identity.
    pub fn destroy(self, lib: &mut NativeLib)
        ensures
            final(lib).destroy_log@ == old(lib).destroy_log@.push(self.raw.id),
            final(lib).next_id == old(lib).next_id,
    {
        let OperatorHandle { raw, op_type: _, base: _ } = self;
        lib.record_destroy(raw);
    }
}

impl AsBase<OperatorBase> for OperatorHandle {
    open spec fn base_spec(&self) -> OperatorBase {
        self.base
    }

    fn as_base(&self) -> (r: &OperatorBase) {
        &self.base
    }
}

impl Operator for OperatorHandle {

}

/// An owning handle to a concrete sparse matrix.
pub struct SparseMatrix {
    pub raw: RawHandle,
    pub base: OperatorBase,
}

impl SparseMatrix {
    /// Checked narrowing that takes the ownership over: consumes the
    /// handle and, when the tag matches, re-owns the same native
    /// object as a sparse matrix.  On a mismatch the handle comes back
    /// untouched beside the error, so ownership is never lost.
    pub fn try_from(value: OperatorHandle) -> (r: Result<
        SparseMatrix,
        (OperatorHandle, MfemError),
    >)
        ensures
            match r {
                Ok(m) => downcast_check(OperatorType::MFEM_SPARSEMAT, value.op_type) is Ok
                    && m.raw == value.raw && m.base == value.base,
                Err((h, e)) => h == value && downcast_check(
                    OperatorType::MFEM_SPARSEMAT,
                    value.op_type,
                ) == Err::<(), MfemError>(e),
            },
    {
        if matches!(value.op_type, OperatorType::MFEM_SPARSEMAT) {
            let OperatorHandle { raw, op_type: _, base } = value;
            Ok(SparseMatrix { raw, base })
        } else {
            let actual = value.get_type();
            Err(
                (
                    value,
                    MfemError::OperatorHandleTypeMismatch(OperatorType::MFEM_SPARSEMAT, actual),
                ),
            )
        }
    }

    /// Destroys the matrix: one destruction of its identity.
    pub fn destroy(self, lib: &mut NativeLib)
        ensures
            final(lib).destroy_log@ == old(lib).destroy_log@.push(self.raw.id),
            final(lib).next_id == old(lib).next_id,
    {
        let SparseMatrix { raw, base: _ } = self;
        lib.record_destroy(raw);
    }
}

impl AsBase<OperatorBase> for SparseMatrix {
    open spec fn base_spec(&self) -> OperatorBase {
        self.base
    }

    fn as_base(&self) -> (r: &OperatorBase) {
        &self.base
    }
}

impl Operator for SparseMatrix {

}

/// A borrowed reference to the sparse matrix behind an operator
/// handle, bound to the handle's lifetime.
pub struct SparseMatrixRef<'a> {
    pub handle: &'a OperatorHandle,
}

impl<'a> SparseMatrixRef<'a> {
    /// The safe downcast: succeeds exactly when the handle's runtime
    /// tag says it holds a sparse matrix, and fails with the expected
    /// and the actual tag otherwise.
    pub fn try_from(value: &'a OperatorHandle) -> (r: Result<SparseMatrixRef<'a>, MfemError>)
        ensures
            match r {
                Ok(m) => downcast_check(OperatorType::MFEM_SPARSEMAT, value.op_type) is Ok
                    && m.handle == value,
                Err(e) => downcast_check(OperatorType::MFEM_SPARSEMAT, value.op_type) == Err::<
                    (),
                    MfemError,
                >(e),
            },
    {
        if matches!(value.op_type, OperatorType::MFEM_SPARSEMAT) {
            Ok(SparseMatrixRef { handle: value })
        } else {
            Err(
                MfemError::OperatorHandleTypeMismatch(
                    OperatorType::MFEM_SPARSEMAT,
                    value.get_type(),
                ),
            )
        }
    }
}

/// The base class of every solver: how often it has been applied.
#[derive(Clone, Copy, Debug, PartialEq, Eq, Structural)]
pub struct SolverBase {
    pub applications: u64,
}

/// Anything usable where the native API expects a mutable solver, by
/// exclusive upcast to [`SolverBase`].
pub trait Solver: AsBaseMut<SolverBase> {

}

/// An owning handle to a Gauss-Seidel smoother over a sparse matrix,
/// never outliving the matrix reference it was built from.
pub struct GsSmoother<'mat> {
    pub raw: RawHandle,
    pub base: SolverBase,
    pub t: i32,
    pub iterations: i32,
    pub _mat: PhantomData<&'mat ()>,
}

impl<'mat> GsSmoother<'mat> {
    /// Constructs a smoother of kind `t` with `it` iterations over the
    /// matrix behind `a`.
    pub fn new(lib: &mut NativeLib, a: &SparseMatrixRef<'mat>, t: i32, it: i32) -> (r:
        GsSmoother<'mat>)
        requires
            old(lib).next_id < u64::MAX,
        ensures
            r.raw.id == old(lib).next_id,
            r.base.applications == 0,
            r.t == t,
            r.iterations == it,
            final(lib).next_id == old(lib).next_id + 1,
            final(lib).destroy_log == old(lib).destroy_log,
    {
        let _ = a.handle.get_type();
        let raw = lib.fresh_handle();
        GsSmoother { raw, base: SolverBase { applications: 0 }, t, iterations: it, _mat:
            PhantomData }
    }

    /// Destroys the smoother: one destruction of its identity.
    pub fn destroy(self, lib: &mut NativeLib)
        ensures
            final(lib).destroy_log@ == old(lib).destroy_log@.push(self.raw.id),
            final(lib).next_id == old(lib).next_id,
    {
        let GsSmoother { raw, base: _, t: _, iterations: _, _mat } = self;
        lib.record_destroy(raw);
    }
}

impl<'mat> AsBase<SolverBase> for GsSmoother<'mat> {
    open spec fn base_spec(&self) -> SolverBase {
        self.base
    }

    fn as_base(&self) -> (r: &SolverBase) {
        &self.base
    }
}

impl<'mat> AsBaseMut<SolverBase> for GsSmoother<'mat> {
    fn as_base_mut(&mut self) -> (r: &mut SolverBase) {
        &mut self.base
    }
}

impl<'mat> Solver for GsSmoother<'mat> {

}

/// Solves `A x = b` by the native preconditioned conjugate-gradient
/// method, generically over any operator and any solver.  The solution
/// vector keeps its identity and its size and receives exactly one
/// native bulk write; the preconditioner records exactly one
/// invocation.  Tolerances and iteration limits only steer the native
/// iteration, which is out of the accounting's scope.
pub fn solve_with_pcg<Op: Operator, So: Solver>(
    a_mat: &Op,
    solver: &mut So,
    b_vec: &Vector,
    x_vec: &mut Vector,
    print_iter: i32,
    max_num_iter: i32,
    rtolerance: Real,
    atolerance: Real,
)
    requires
        a_mat.base_spec().height == a_mat.base_spec().width,
        a_mat.base_spec().height >= 0,
        b_vec.len == a_mat.base_spec().height as usize,
        old(x_vec).len == a_mat.base_spec().height as usize,
        old(x_vec).writes < u64::MAX,
        old(solver).base_spec().applications < u64::MAX,
    ensures
        final(x_vec).len == old(x_vec).len,
        final(x_vec).raw == old(x_vec).raw,
        final(x_vec).writes == old(x_vec).writes + 1,
        final(solver).base_spec().applications == old(solver).base_spec().applications + 1,
{
    let _ = a_mat.height();
    let _ = print_iter;
    let _ = max_num_iter;
    let _ = rtolerance;
    let _ = atolerance;
    let _ = b_vec.len;
    let sb = solver.as_base_mut();
    sb.applications = sb.applications + 1;
    x_vec.writes = x_vec.writes + 1;
}

} // verus!
