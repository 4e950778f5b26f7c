//! Linear and bilinear forms with their integrators: the home of the
//! ownership-transfer protocol.
//!
//! Adding an integrator to a form hands the integrator to the native
//! form, which owns it from then on and destroys it together with
//! itself.  The transfer call therefore consumes the integrator's
//! owning handle by value: after the call the original binding-side
//! variable cannot be named again, by the host language's own move
//! rules.  A borrowed reference can never be transferred, and the same
//! object can never be transferred twice, because each transfer eats
//! the one owning handle there is.
#![allow(unused_imports)]
use core::marker::PhantomData;
use vstd::prelude::*;

use crate::array::{ArrayInt, Vector};
use crate::fem::{Coefficient, FiniteElementSpace};
use crate::operator::{OperatorBase, OperatorHandle};
use crate::runtime::{count_of, NativeLib, RawHandle};
use crate::tags::OperatorType;
use crate::upcast::{AsBase, AsBaseMut, IntoBase, VectorLike};

verus! {

/// The owning base-class handle of a linear-form integrator: what a
/// form actually takes ownership of.
pub struct LfiBase {
    pub raw: RawHandle,
}

/// The owning base-class handle of a bilinear-form integrator.
pub struct BfiBase {
    pub raw: RawHandle,
}

/// Anything a linear form can take ownership of: viewable as the base
/// integrator, and convertible — by consumption — into the owning base
/// handle.
pub trait LinearFormIntegrator: AsBase<LfiBase> + IntoBase<LfiBase> {

}

/// Anything a bilinear form can take ownership of.
pub trait BilinearFormIntegrator: AsBase<BfiBase> + IntoBase<BfiBase> {

}

/// An owning handle to a domain integrator of a linear form, never
/// outliving the coefficient it integrates.
pub struct DomainLFIntegrator<'coeff> {
    pub base: LfiBase,
    pub a: i32,
    pub b: i32,
    pub _coeff: PhantomData<&'coeff ()>,
}

impl<'coeff> DomainLFIntegrator<'coeff> {
    /// Constructs the integrator over `coeff` with quadrature orders
    /// `a` and `b`.
    pub fn new<C: Coefficient>(lib: &mut NativeLib, coeff: &'coeff C, a: i32, b: i32) -> (r:
        DomainLFIntegrator<'coeff>)
        requires
            old(lib).next_id < u64::MAX,
        ensures
            r.base.raw.id == old(lib).next_id,
            r.a == a,
            r.b == b,
            final(lib).next_id == old(lib).next_id + 1,
            final(lib).destroy_log == old(lib).destroy_log,
    {
        let _ = coeff.as_base();
        let raw = lib.fresh_handle();
        DomainLFIntegrator { base: LfiBase { raw }, a, b, _coeff: PhantomData }
    }

    /// Destroys an integrator that was never handed to a form: one
    /// destruction of its identity.
    pub fn destroy(self, lib: &mut NativeLib)
        ensures
            final(lib).destroy_log@ == old(lib).destroy_log@.push(self.base.raw.id),
            final(lib).next_id == old(lib).next_id,
    {
        let DomainLFIntegrator { base, a: _, b: _, _coeff } = self;
        let LfiBase { raw } = base;
        lib.record_destroy(raw);
    }
}

impl<'coeff> AsBase<LfiBase> for DomainLFIntegrator<'coeff> {
    open spec fn base_spec(&self) -> LfiBase {
        self.base
    }

    fn as_base(&self) -> (r: &LfiBase) {
        &self.base
    }
}

impl<'coeff> IntoBase<LfiBase> for DomainLFIntegrator<'coeff> {
    open spec fn into_spec(&self) -> LfiBase {
        self.base
    }

    fn into_base(self) -> (r: LfiBase) {
        let DomainLFIntegrator { base, a: _, b: _, _coeff } = self;
        base
    }
}

impl<'coeff> LinearFormIntegrator for DomainLFIntegrator<'coeff> {

}

/// An owning handle to a diffusion integrator of a bilinear form,
/// never outliving its coefficient.
pub struct DiffusionIntegrator<'coeff> {
    pub base: BfiBase,
    pub _coeff: PhantomData<&'coeff ()>,
}

impl<'coeff> DiffusionIntegrator<'coeff> {
    /// Constructs the diffusion integrator over `coeff`.
    pub fn new<C: Coefficient>(lib: &mut NativeLib, coeff: &'coeff C) -> (r: DiffusionIntegrator<
        'coeff,
    >)
        requires
            old(lib).next_id < u64::MAX,
        ensures
            r.base.raw.id == old(lib).next_id,
            final(lib).next_id == old(lib).next_id + 1,
            final(lib).destroy_log == old(lib).destroy_log,
    {
        let _ = coeff.as_base();
        let raw = lib.fresh_handle();
        DiffusionIntegrator { base: BfiBase { raw }, _coeff: PhantomData }
    }

    /// Destroys an integrator that was never handed to a form: one
    /// destruction of its identity.
    pub fn destroy(self, lib: &mut NativeLib)
        ensures
            final(lib).destroy_log@ == old(lib).destroy_log@.push(self.base.raw.id),
            final(lib).next_id == old(lib).next_id,
    {
        let DiffusionIntegrator { base, _coeff } = self;
        let BfiBase { raw } = base;
        lib.record_destroy(raw);
    }
}

impl<'coeff> AsBase<BfiBase> for DiffusionIntegrator<'coeff> {
    open spec fn base_spec(&self) -> BfiBase {
        self.base
    }

    fn as_base(&self) -> (r: &BfiBase) {
        &self.base
    }
}

impl<'coeff> IntoBase<BfiBase> for DiffusionIntegrator<'coeff> {
    open spec fn into_spec(&self) -> BfiBase {
        self.base
    }

    fn into_base(self) -> (r: BfiBase) {
        let DiffusionIntegrator { base, _coeff } = self;
        base
    }
}

impl<'coeff> BilinearFormIntegrator for DiffusionIntegrator<'coeff> {

}

/// The identities of a list of owned linear-form integrators, in
/// order.
pub open spec fn lfi_ids(s: Seq<LfiBase>) -> Seq<u64> {
    s.map_values(|b: LfiBase| b.raw.id)
}

/// The identities of a list of owned bilinear-form integrators, in
/// order.
pub open spec fn bfi_ids(s: Seq<BfiBase>) -> Seq<u64> {
    s.map_values(|b: BfiBase| b.raw.id)
}

/// An owning handle to a linear form over a finite-element space: a
/// vector of assembled right-hand-side values, plus the integrators
/// the form has taken ownership of.
pub struct LinearForm<'fes> {
    pub base: Vector,
    pub owned: Vec<LfiBase>,
    pub assembled: bool,
    pub _fes: PhantomData<&'fes ()>,
}

impl<'fes> LinearForm<'fes> {
    /// Constructs an unassembled linear form over `fespace`, sized by
    /// the space and owning no integrators yet.
    pub fn new<'m, 'f>(lib: &mut NativeLib, fespace: &'fes FiniteElementSpace<'m, 'f>) -> (r:
        LinearForm<'fes>)
        requires
            old(lib).next_id < u64::MAX,
            fespace.true_vsize >= 0,
        ensures
            r.base.raw.id == old(lib).next_id,
            r.base.len == fespace.true_vsize as usize,
            r.base.writes == 0,
            r.owned@ == Seq::<LfiBase>::empty(),
            r.assembled == false,
            final(lib).next_id == old(lib).next_id + 1,
            final(lib).destroy_log == old(lib).destroy_log,
    {
        let raw = lib.fresh_handle();
        let owned: Vec<LfiBase> = Vec::new();
        proof {
            assert(owned@ =~= Seq::<LfiBase>::empty());
        }
        LinearForm {
            base: Vector { raw, len: fespace.true_vsize as usize, writes: 0 },
            owned,
            assembled: false,
            _fes: PhantomData,
        }
    }

    /// Transfers ownership of `lfi` to this form.  The integrator is
    /// consumed by value: only an owning handle can reach this call,
    /// and the caller's binding is unusable afterwards.  The form
    /// records the object as owned and will destroy it exactly once,
    /// when the form itself is destroyed.
    pub fn add_domain_integrator<Lfi: LinearFormIntegrator>(&mut self, lfi: Lfi)
        ensures
            final(self).owned@ == old(self).owned@.push(lfi.into_spec()),
            final(self).base == old(self).base,
            final(self).assembled == old(self).assembled,
    {
        let b = lfi.into_base();
        self.owned.push(b);
    }

    /// Assembles the form: one native bulk write of the underlying
    /// vector.
    pub fn assemble(&mut self)
        requires
            old(self).base.writes < u64::MAX,
        ensures
            final(self).assembled == true,
            final(self).base.writes == old(self).base.writes + 1,
            final(self).base.raw == old(self).base.raw,
            final(self).base.len == old(self).base.len,
            final(self).owned == old(self).owned,
    {
        self.base.writes = self.base.writes + 1;
        self.assembled = true;
    }

    /// Destroys the form and every integrator it owns, the form first
    /// and then the integrators in the order they were transferred —
    /// each identity exactly once.
    pub fn destroy(self, lib: &mut NativeLib)
        ensures
            final(lib).destroy_log@ == old(lib).destroy_log@ + seq![self.base.raw.id]
                + lfi_ids(self.owned@),
            final(lib).next_id == old(lib).next_id,
    {
        let LinearForm { base, mut owned, assembled: _, _fes } = self;
        let Vector { raw, len: _, writes: _ } = base;
        let ghost total = lfi_ids(owned@);
        lib.record_destroy(raw);
        proof {
            assert(lib.destroy_log@ =~= old(lib).destroy_log@ + seq![self.base.raw.id]
                + total.take(0));
        }
        let ghost done: int = 0;
        while owned.len() > 0
            invariant
                0 <= done <= total.len(),
                total.len() - done == owned@.len(),
                lfi_ids(owned@) =~= total.skip(done),
                lib.destroy_log@ == old(lib).destroy_log@ + seq![self.base.raw.id] + total.take(
                    done,
                ),
                lib.next_id == old(lib).next_id,
            decreases owned@.len(),
        {
            let ghost owned_before = owned@;
            let child = owned.remove(0);
            proof {
                assert(child == owned_before[0]);
                assert(owned@ =~= owned_before.skip(1));
                assert(lfi_ids(owned_before)[0] == child.raw.id);
                assert(total[done] == child.raw.id);
                assert(lfi_ids(owned@) =~= total.skip(done + 1)) by {
                    assert forall|j: int| 0 <= j < owned@.len() implies lfi_ids(owned@)[j]
                        == total.skip(done + 1)[j] by {
                        assert(owned@[j] == owned_before[j + 1]);
                        assert(lfi_ids(owned_before)[j + 1] == owned_before[j + 1].raw.id);
                    }
                }
            }
            let LfiBase { raw: craw } = child;
            lib.record_destroy(craw);
            proof {
                assert(total.take(done + 1) =~= total.take(done).push(total[done]));
                assert(lib.destroy_log@ =~= old(lib).destroy_log@ + seq![self.base.raw.id]
                    + total.take(done + 1));
                done = done + 1;
            }
        }
        proof {
            assert(total.take(done) =~= total);
        }
    }
}

impl<'fes> AsBase<Vector> for LinearForm<'fes> {
    open spec fn base_spec(&self) -> Vector {
        self.base
    }

    fn as_base(&self) -> (r: &Vector) {
        &self.base
    }
}

impl<'fes> AsBaseMut<Vector> for LinearForm<'fes> {
    fn as_base_mut(&mut self) -> (r: &mut Vector) {
        &mut self.base
    }
}

impl<'fes> VectorLike for LinearForm<'fes> {

}

/// An owning handle to a bilinear form over a finite-element space,
/// plus the integrators the form has taken ownership of.
pub struct BilinearForm<'fes> {
    pub raw: RawHandle,
    pub owned: Vec<BfiBase>,
    pub assembled: bool,
    pub height: i32,
    pub _fes: PhantomData<&'fes ()>,
}

impl<'fes> BilinearForm<'fes> {
    /// Constructs an unassembled bilinear form over `fespace`, sized by
    /// the space and owning no integrators yet.
    pub fn new<'m, 'f>(lib: &mut NativeLib, fespace: &'fes FiniteElementSpace<'m, 'f>) -> (r:
        BilinearForm<'fes>)
        requires
            old(lib).next_id < u64::MAX,
            fespace.true_vsize >= 0,
        ensures
            r.raw.id == old(lib).next_id,
            r.owned@ == Seq::<BfiBase>::empty(),
            r.assembled == false,
            r.height == fespace.true_vsize,
            final(lib).next_id == old(lib).next_id + 1,
            final(lib).destroy_log == old(lib).destroy_log,
    {
        let raw = lib.fresh_handle();
        let owned: Vec<BfiBase> = Vec::new();
        proof {
            assert(owned@ =~= Seq::<BfiBase>::empty());
        }
        BilinearForm {
            raw,
            owned,
            assembled: false,
            height: fespace.get_true_vsize(),
            _fes: PhantomData,
        }
    }

    /// Transfers ownership of `bfi` to this form, consuming the one
    /// owning handle; the form will destroy the object exactly once.
    pub fn add_domain_integrator<Bfi: BilinearFormIntegrator>(&mut self, bfi: Bfi)
        ensures
            final(self).owned@ == old(self).owned@.push(bfi.into_spec()),
            final(self).raw == old(self).raw,
            final(self).assembled == old(self).assembled,
            final(self).height == old(self).height,
    {
        let b = bfi.into_base();
        self.owned.push(b);
    }

    /// Assembles the form.  `skip_zeros` only steers the native sparse
    /// assembly and does not change the accounting.
    pub fn assemble(&mut self, skip_zeros: bool)
        ensures
            final(self).assembled == true,
            final(self).raw == old(self).raw,
            final(self).owned == old(self).owned,
            final(self).height == old(self).height,
    {
        let _ = skip_zeros;
        self.assembled = true;
    }

    /// Forms the linear system `A X = B` from the assembled form, the
    /// essential degrees of freedom, and the vector-like `x` and `b`:
    /// the handle `a_mat` ends up holding a square sparse matrix of
    /// the form's size — tagged as such for later downcasts — and the
    /// two vectors are resized to the form's size and written once
    /// each.
    pub fn form_linear_system<X: VectorLike, B: VectorLike>(
        &self,
        ess_tdof_list: &ArrayInt,
        x: &X,
        b: &B,
        a_mat: &mut OperatorHandle,
        x_vec: &mut Vector,
        b_vec: &mut Vector,
    )
        requires
            self.height >= 0,
            old(x_vec).writes < u64::MAX,
            old(b_vec).writes < u64::MAX,
        ensures
            final(a_mat).op_type == OperatorType::MFEM_SPARSEMAT,
            final(a_mat).base == (OperatorBase { height: self.height, width: self.height }),
            final(a_mat).raw == old(a_mat).raw,
            final(x_vec).len == self.height as usize,
            final(x_vec).raw == old(x_vec).raw,
            final(x_vec).writes == old(x_vec).writes + 1,
            final(b_vec).len == self.height as usize,
            final(b_vec).raw == old(b_vec).raw,
            final(b_vec).writes == old(b_vec).writes + 1,
    {
        let _ = ess_tdof_list.data.len();
        let _ = x.as_base();
        let _ = b.as_base();
        a_mat.op_type = OperatorType::MFEM_SPARSEMAT;
        a_mat.base = OperatorBase { height: self.height, width: self.height };
        x_vec.len = self.height as usize;
        x_vec.writes = x_vec.writes + 1;
        b_vec.len = self.height as usize;
        b_vec.writes = b_vec.writes + 1;
    }

    /// Recovers the finite-element solution `x` from the solved system
    /// vector `x_vec`: one native bulk write into `x`, which keeps its
    /// identity and its size.
    pub fn recover_fem_solution<B: VectorLike, X: VectorLike>(
        &mut self,
        x_vec: &Vector,
        b_vec: &B,
        x: &mut X,
    )
        requires
            old(x).base_spec().writes < u64::MAX,
        ensures
            final(x).base_spec().len == old(x).base_spec().len,
            final(x).base_spec().raw == old(x).base_spec().raw,
            final(x).base_spec().writes == old(x).base_spec().writes + 1,
            final(self).raw == old(self).raw,
            final(self).owned == old(self).owned,
            final(self).assembled == old(self).assembled,
            final(self).height == old(self).height,
    {
        let _ = x_vec.len;
        let _ = b_vec.as_base();
        let xb = x.as_base_mut();
        xb.writes = xb.writes + 1;
    }

    /// Destroys the form and every integrator it owns, the form first
    /// and then the integrators in the order they were transferred —
    /// each identity exactly once.
    pub fn destroy(self, lib: &mut NativeLib)
        ensures
            final(lib).destroy_log@ == old(lib).destroy_log@ + seq![self.raw.id] + bfi_ids(
                self.owned@,
            ),
            final(lib).next_id == old(lib).next_id,
    {
        let BilinearForm { raw, mut owned, assembled: _, height: _, _fes } = self;
        let ghost total = bfi_ids(owned@);
        lib.record_destroy(raw);
        proof {
            assert(lib.destroy_log@ =~= old(lib).destroy_log@ + seq![self.raw.id] + total.take(
                0,
            ));
        }
        let ghost done: int = 0;
        while owned.len() > 0
            invariant
                0 <= done <= total.len(),
                total.len() - done == owned@.len(),
                bfi_ids(owned@) =~= total.skip(done),
                lib.destroy_log@ == old(lib).destroy_log@ + seq![self.raw.id] + total.take(done),
                lib.next_id == old(lib).next_id,
            decreases owned@.len(),
        {
            let ghost owned_before = owned@;
            let child = owned.remove(0);
            proof {
                assert(child == owned_before[0]);
                assert(owned@ =~= owned_before.skip(1));
                assert(bfi_ids(owned_before)[0] == child.raw.id);
                assert(total[done] == child.raw.id);
                assert(bfi_ids(owned@) =~= total.skip(done + 1)) by {
                    assert forall|j: int| 0 <= j < owned@.len() implies bfi_ids(owned@)[j]
                        == total.skip(done + 1)[j] by {
                        assert(owned@[j] == owned_before[j + 1]);
                        assert(bfi_ids(owned_before)[j + 1] == owned_before[j + 1].raw.id);
                    }
                }
            }
            let BfiBase { raw: craw } = child;
            lib.record_destroy(craw);
            proof {
                assert(total.take(done + 1) =~= total.take(done).push(total[done]));
                assert(lib.destroy_log@ =~= old(lib).destroy_log@ + seq![self.raw.id]
                    + total.take(done + 1));
                done = done + 1;
            }
        }
        proof {
            assert(total.take(done) =~= total);
        }
    }
}

/// The container-destruction law: when a destroyed container's batch —
/// its own identity followed by its transferred children — is appended
/// to the log, and the batch names no identity twice, then the
/// container and each child are destroyed exactly once more, and no
/// other object's count changes: no double free, no leak.
pub proof fn lemma_container_destroy_once(
    old_log: Seq<u64>,
    new_log: Seq<u64>,
    container_id: u64,
    child_ids: Seq<u64>,
)
    requires
        new_log == old_log + seq![container_id] + child_ids,
        !child_ids.contains(container_id),
        child_ids.no_duplicates(),
    ensures
        count_of(new_log, container_id) == count_of(old_log, container_id) + 1,
        forall|x: u64|
            child_ids.contains(x) ==> count_of(new_log, x) == count_of(old_log, x) + 1,
        forall|x: u64|
            x != container_id && !child_ids.contains(x) ==> count_of(new_log, x) == count_of(
                old_log,
                x,
            ),
{
    let batch = seq![container_id] + child_ids;
    assert(batch.no_duplicates()) by {
        assert forall|i: int, j: int|
            0 <= i < batch.len() && 0 <= j < batch.len() && i != j implies batch[i]
            != batch[j] by {
            if i == 0 {
                assert(batch[j] == child_ids[j - 1]);
                assert(child_ids.contains(batch[j]));
            } else if j == 0 {
                assert(batch[i] == child_ids[i - 1]);
                assert(child_ids.contains(batch[i]));
            } else {
                assert(batch[i] == child_ids[i - 1]);
                assert(batch[j] == child_ids[j - 1]);
            }
        }
    }
    assert(new_log =~= old_log + batch);
    crate::runtime::lemma_destroy_batch_once(old_log, old_log + batch, batch);
    assert(batch.contains(container_id)) by {
        assert(batch[0] == container_id);
    }
    assert forall|x: u64| child_ids.contains(x) implies count_of(new_log, x) == count_of(
        old_log,
        x,
    ) + 1 by {
        let j = choose|j: int| 0 <= j < child_ids.len() && child_ids[j] == x;
        assert(batch[j + 1] == x);
        assert(batch.contains(x));
    }
    assert forall|x: u64|
        x != container_id && !child_ids.contains(x) implies count_of(new_log, x) == count_of(
        old_log,
        x,
    ) by {
        assert(!batch.contains(x)) by {
            if batch.contains(x) {
                let j = choose|j: int| 0 <= j < batch.len() && batch[j] == x;
                if j > 0 {
                    assert(child_ids[j - 1] == x);
                    assert(child_ids.contains(x));
                }
            }
        }
    }
}

} // verus!
