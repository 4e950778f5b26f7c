//! The bound finite-element types: collections, meshes, spaces, grid
//! functions and coefficients, each as an owning handle over the
//! accounting model, with borrowed reference types where the native API
//! takes objects by pointer or reference.
#![allow(unused_imports)]
use core::marker::PhantomData;
use vstd::prelude::*;

use crate::array::{ArrayInt, ArrayIntRef, Real, Vector};
use crate::runtime::{NativeLib, RawHandle};
use crate::strings::{dec_str, to_dec_string};
use crate::tags::{BasisType, OrderingType, RefAlgo};
use crate::upcast::{AsBase, AsBaseMut};

verus! {

/// The base class of every finite-element collection, carrying the
/// collection's printed name.
pub struct FecBase {
    pub raw: RawHandle,
    pub name: String,
}

impl AsBase<FecBase> for FecBase {
    open spec fn base_spec(&self) -> FecBase {
        *self
    }

    fn as_base(&self) -> (r: &FecBase) {
        self
    }
}

/// Anything that is a finite-element collection, by upcast to
/// [`FecBase`].
pub trait FiniteElementCollection: AsBase<FecBase> {
    /// The collection's printed name.
    fn get_name(&self) -> (r: String)
        ensures
            r@ == self.base_spec().name@,
    {
        self.as_base().name.clone()
    }
}

impl FiniteElementCollection for FecBase {

}

/// The printed name of an H1 (continuous nodal) collection of order
/// `p` on a `dim`-dimensional mesh.
pub open spec fn h1_name_chars(p: u64, dim: u64) -> Seq<char> {
    "H1_"@ + dec_str(dim as nat) + "D_P"@ + dec_str(p as nat)
}

/// An owning handle to an H1 (continuous nodal) finite-element
/// collection.
pub struct H1FeCollection {
    pub base: FecBase,
    pub p: i32,
    pub dim: i32,
    pub btype: BasisType,
}

impl H1FeCollection {
    /// Constructs the H1 collection of order `p` on `dim`-dimensional
    /// meshes over the given nodal basis.
    pub fn new(lib: &mut NativeLib, p: i32, dim: i32, btype: BasisType) -> (r: H1FeCollection)
        requires
            old(lib).next_id < u64::MAX,
            p >= 1,
            dim >= 0,
        ensures
            r.base.raw.id == old(lib).next_id,
            r.base.name@ == h1_name_chars(p as u64, dim as u64),
            r.p == p,
            r.dim == dim,
            r.btype == btype,
            final(lib).next_id == old(lib).next_id + 1,
            final(lib).destroy_log == old(lib).destroy_log,
    {
        let raw = lib.fresh_handle();
        let mut name = String::from_str("H1_");
        let dim_txt = to_dec_string(dim as u64);
        name.append(dim_txt.as_str());
        name.append("D_P");
        let p_txt = to_dec_string(p as u64);
        name.append(p_txt.as_str());
        H1FeCollection { base: FecBase { raw, name }, p, dim, btype }
    }

    /// Destroys the collection: one destruction of its identity.
    pub fn destroy(self, lib: &mut NativeLib)
        ensures
            final(lib).destroy_log@ == old(lib).destroy_log@.push(self.base.raw.id),
            final(lib).next_id == old(lib).next_id,
    {
        let H1FeCollection { base, p: _, dim: _, btype: _ } = self;
        let FecBase { raw, name: _ } = base;
        lib.record_destroy(raw);
    }
}

impl AsBase<FecBase> for H1FeCollection {
    open spec fn base_spec(&self) -> FecBase {
        self.base
    }

    fn as_base(&self) -> (r: &FecBase) {
        &self.base
    }
}

impl FiniteElementCollection for H1FeCollection {

}

/// The base class of every coefficient.
pub struct CoeffBase {
    pub raw: RawHandle,
}

/// Anything usable where the native API expects a coefficient, by
/// upcast to [`CoeffBase`].
pub trait Coefficient: AsBase<CoeffBase> {

}

/// An owning handle to a coefficient with one constant value.
pub struct ConstantCoefficient {
    pub base: CoeffBase,
    pub value: Real,
}

impl ConstantCoefficient {
    /// Constructs the constant coefficient with the given value.
    pub fn new(lib: &mut NativeLib, value: Real) -> (r: ConstantCoefficient)
        requires
            old(lib).next_id < u64::MAX,
        ensures
            r.base.raw.id == old(lib).next_id,
            r.value == value,
            final(lib).next_id == old(lib).next_id + 1,
            final(lib).destroy_log == old(lib).destroy_log,
    {
        let raw = lib.fresh_handle();
        ConstantCoefficient { base: CoeffBase { raw }, value }
    }

    /// Destroys the coefficient: one destruction of its identity.
    pub fn destroy(self, lib: &mut NativeLib)
        ensures
            final(lib).destroy_log@ == old(lib).destroy_log@.push(self.base.raw.id),
            final(lib).next_id == old(lib).next_id,
    {
        let ConstantCoefficient { base, value: _ } = self;
        let CoeffBase { raw } = base;
        lib.record_destroy(raw);
    }
}

impl AsBase<CoeffBase> for ConstantCoefficient {
    open spec fn base_spec(&self) -> CoeffBase {
        self.base
    }

    fn as_base(&self) -> (r: &CoeffBase) {
        &self.base
    }
}

impl Coefficient for ConstantCoefficient {

}

/// An owning handle to a grid function: a vector of degree-of-freedom
/// values over a finite-element space, never outliving that space.
pub struct GridFunction<'fes> {
    pub base: Vector,
    pub vsize: i32,
    pub own_fec: Option<FecBase>,
    pub _fes: PhantomData<&'fes ()>,
}

impl<'fes> GridFunction<'fes> {
    /// Constructs a grid function over `fespace`, sized by the space.
    pub fn new<'m, 'f>(lib: &mut NativeLib, fespace: &'fes FiniteElementSpace<'m, 'f>) -> (r:
        GridFunction<'fes>)
        requires
            old(lib).next_id < u64::MAX,
            fespace.true_vsize >= 0,
        ensures
            r.base.raw.id == old(lib).next_id,
            r.base.len == fespace.true_vsize as usize,
            r.base.writes == 0,
            r.vsize == fespace.true_vsize,
            r.own_fec is None,
            final(lib).next_id == old(lib).next_id + 1,
            final(lib).destroy_log == old(lib).destroy_log,
    {
        let raw = lib.fresh_handle();
        GridFunction {
            base: Vector { raw, len: fespace.true_vsize as usize, writes: 0 },
            vsize: fespace.true_vsize,
            own_fec: None,
            _fes: PhantomData,
        }
    }

    /// Projects `coeff` onto this grid function: one native bulk write
    /// of the degree-of-freedom values.
    ///
    /// The projection depends on the space the function was built over;
    /// it is usually interpolation at the degrees of freedom in each
    /// element, computed entirely by the native engine.
    pub fn project_coefficient<C: Coefficient>(&mut self, coeff: &C)
        requires
            old(self).base.writes < u64::MAX,
        ensures
            final(self).base.writes == old(self).base.writes + 1,
            final(self).base.raw == old(self).base.raw,
            final(self).base.len == old(self).base.len,
            final(self).vsize == old(self).vsize,
            final(self).own_fec == old(self).own_fec,
    {
        let _ = coeff.as_base();
        self.base.writes = self.base.writes + 1;
    }

    /// Overwrites every degree of freedom with `value`: one native bulk
    /// write.
    pub fn set_all(&mut self, value: Real)
        requires
            old(self).base.writes < u64::MAX,
        ensures
            final(self).base.writes == old(self).base.writes + 1,
            final(self).base.raw == old(self).base.raw,
            final(self).base.len == old(self).base.len,
            final(self).vsize == old(self).vsize,
            final(self).own_fec == old(self).own_fec,
    {
        let _ = value;
        self.base.writes = self.base.writes + 1;
    }

    /// Destroys the grid function, and with it the collection it owns,
    /// if any: each identity destroyed exactly once, the function
    /// first.
    pub fn destroy(self, lib: &mut NativeLib)
        ensures
            final(lib).destroy_log@ == match self.own_fec {
                Some(f) => old(lib).destroy_log@.push(self.base.raw.id).push(f.raw.id),
                None => old(lib).destroy_log@.push(self.base.raw.id),
            },
            final(lib).next_id == old(lib).next_id,
    {
        let GridFunction { base, vsize: _, own_fec, _fes } = self;
        let Vector { raw, len: _, writes: _ } = base;
        lib.record_destroy(raw);
        match own_fec {
            Some(f) => {
                let FecBase { raw: fraw, name: _ } = f;
                lib.record_destroy(fraw);
            },
            None => {},
        }
    }
}

impl<'fes> AsBase<Vector> for GridFunction<'fes> {
    open spec fn base_spec(&self) -> Vector {
        self.base
    }

    fn as_base(&self) -> (r: &Vector) {
        &self.base
    }
}

impl<'fes> AsBaseMut<Vector> for GridFunction<'fes> {
    fn as_base_mut(&mut self) -> (r: &mut Vector) {
        &mut self.base
    }
}

impl<'fes> crate::upcast::VectorLike for GridFunction<'fes> {

}

/// A borrowed reference to a grid function: never destroys, never
/// outlives the owner it was derived from.
pub struct GridFunctionRef<'fes, 'a> {
    pub inner: &'a GridFunction<'fes>,
}

impl<'fes, 'a> GridFunctionRef<'fes, 'a> {
    /// The collection this grid function owns, if it owns one (mesh
    /// node functions do).
    pub fn get_own_fec(&self) -> (r: Option<&FecBase>)
        ensures
            match r {
                Some(f) => self.inner.own_fec matches Some(g) && *f == g,
                None => self.inner.own_fec is None,
            },
    {
        match &self.inner.own_fec {
            Some(f) => Some(f),
            None => None,
        }
    }
}

/// An owning handle to a mesh, together with the parts of the native
/// mesh object the binding reads: its dimension, its element count, its
/// boundary attribute array, and its optional node function.
pub struct Mesh {
    pub raw: RawHandle,
    pub dimension: i32,
    pub num_elems: i32,
    pub bdr_attrs: ArrayInt,
    pub nodes: Option<GridFunction<'static>>,
}

/// How many child elements one element splits into under uniform
/// refinement.
pub open spec fn refine_factor(dim: int) -> int {
    if dim <= 0 {
        1
    } else if dim == 1 {
        2
    } else if dim == 2 {
        4
    } else {
        8
    }
}

impl Mesh {
    /// Constructs an empty mesh.
    pub fn new(lib: &mut NativeLib) -> (r: Mesh)
        requires
            old(lib).next_id < u64::MAX - 1,
        ensures
            r.raw.id == old(lib).next_id,
            r.dimension == 0,
            r.num_elems == 0,
            r.bdr_attrs.raw.id == old(lib).next_id + 1,
            r.bdr_attrs.data@ == Seq::<i32>::empty(),
            r.nodes is None,
            final(lib).next_id == old(lib).next_id + 2,
            final(lib).destroy_log == old(lib).destroy_log,
    {
        let raw = lib.fresh_handle();
        let bdr_attrs = ArrayInt::new(lib);
        Mesh { raw, dimension: 0, num_elems: 0, bdr_attrs, nodes: None }
    }

    /// Constructs a mesh of the given shape: its dimension, element
    /// count, boundary attributes, and whether it carries a node
    /// function (a curved mesh does).  This is the value-level half of
    /// loading a mesh: whatever read and decoded the mesh file hands
    /// the decoded shape in here.
    pub fn with_shape(
        lib: &mut NativeLib,
        dimension: i32,
        num_elems: i32,
        bdr_attr_values: Vec<i32>,
        curved: bool,
    ) -> (r: Mesh)
        requires
            old(lib).next_id < u64::MAX - 3,
            0 <= dimension <= 3,
            num_elems >= 0,
        ensures
            r.raw.id == old(lib).next_id,
            r.dimension == dimension,
            r.num_elems == num_elems,
            r.bdr_attrs.raw.id == old(lib).next_id + 1,
            r.bdr_attrs.data == bdr_attr_values,
            curved ==> (r.nodes matches Some(g) && (g.base.raw.id == old(lib).next_id + 2 && (
            g.own_fec matches Some(f) && f.raw.id == old(lib).next_id + 3))),
            !curved ==> r.nodes is None && final(lib).next_id == old(lib).next_id + 2,
            curved ==> final(lib).next_id == old(lib).next_id + 4,
            final(lib).destroy_log == old(lib).destroy_log,
    {
        let raw = lib.fresh_handle();
        let mut bdr_attrs = ArrayInt::new(lib);
        bdr_attrs.data = bdr_attr_values;
        let nodes = if curved {
            let graw = lib.fresh_handle();
            let fraw = lib.fresh_handle();
            Some(
                GridFunction {
                    base: Vector { raw: graw, len: 0, writes: 0 },
                    vsize: 0,
                    own_fec: Some(FecBase { raw: fraw, name: String::from_str("H1_nodes") }),
                    _fes: PhantomData,
                },
            )
        } else {
            None
        };
        Mesh { raw, dimension, num_elems, bdr_attrs, nodes }
    }

    /// The mesh dimension.
    pub fn dimension(&self) -> (r: i32)
        ensures
            r == self.dimension,
    {
        self.dimension
    }

    /// How many elements the mesh has.
    pub fn get_num_elems(&self) -> (r: i32)
        ensures
            r == self.num_elems,
    {
        self.num_elems
    }

    /// The mesh's node function, if the mesh carries one.
    pub fn get_nodes<'a>(&'a self) -> (r: Option<GridFunctionRef<'static, 'a>>)
        ensures
            match r {
                Some(g) => self.nodes matches Some(n) && *g.inner == n,
                None => self.nodes is None,
            },
    {
        match &self.nodes {
            Some(g) => Some(GridFunctionRef { inner: g }),
            None => None,
        }
    }

    /// A borrowed view of the boundary attribute array.
    pub fn get_bdr_attributes<'a>(&'a self) -> (r: ArrayIntRef<'a>)
        ensures
            r.inner == &self.bdr_attrs,
    {
        ArrayIntRef { inner: &self.bdr_attrs }
    }

    /// Refines every element uniformly once: each element splits into
    /// its dimension's number of children.
    pub fn uniform_refinement(&mut self, ref_algo: RefAlgo)
        requires
            0 <= old(self).dimension <= 3,
            old(self).num_elems >= 0,
            old(self).num_elems * refine_factor(old(self).dimension as int) <= i32::MAX,
        ensures
            final(self).num_elems == old(self).num_elems * refine_factor(
                old(self).dimension as int,
            ),
            final(self).raw == old(self).raw,
            final(self).dimension == old(self).dimension,
            final(self).bdr_attrs == old(self).bdr_attrs,
            final(self).nodes == old(self).nodes,
    {
        let _ = ref_algo.code();
        let factor: i32 = match self.dimension {
            0 => 1,
            1 => 2,
            2 => 4,
            _ => 8,
        };
        self.num_elems = self.num_elems * factor;
    }

    /// Destroys the mesh and everything it owns — its boundary
    /// attribute array, its node function and that function's owned
    /// collection — each exactly once, the mesh itself first.
    pub fn destroy(self, lib: &mut NativeLib)
        ensures
            final(lib).destroy_log@ == old(lib).destroy_log@ + seq![
                self.raw.id,
                self.bdr_attrs.raw.id,
            ] + match self.nodes {
                Some(g) => match g.own_fec {
                    Some(f) => seq![g.base.raw.id, f.raw.id],
                    None => seq![g.base.raw.id],
                },
                None => Seq::<u64>::empty(),
            },
            final(lib).next_id == old(lib).next_id,
    {
        let Mesh { raw, dimension: _, num_elems: _, bdr_attrs, nodes } = self;
        lib.record_destroy(raw);
        bdr_attrs.destroy(lib);
        match nodes {
            Some(g) => {
                g.destroy(lib);
            },
            None => {},
        }
        proof {
            assert(lib.destroy_log@ =~= old(lib).destroy_log@ + seq![
                self.raw.id,
                self.bdr_attrs.raw.id,
            ] + match self.nodes {
                Some(g) => match g.own_fec {
                    Some(f) => seq![g.base.raw.id, f.raw.id],
                    None => seq![g.base.raw.id],
                },
                None => Seq::<u64>::empty(),
            });
        }
    }
}

/// The indices of the marked (non-zero) entries, in order, as the
/// essential-degree-of-freedom list the accounting model computes.
pub open spec fn marked_indices(s: Seq<i32>) -> Seq<i32>
    decreases s.len(),
{
    if s.len() == 0 {
        Seq::<i32>::empty()
    } else if s.last() != 0 {
        marked_indices(s.drop_last()).push((s.len() - 1) as i32)
    } else {
        marked_indices(s.drop_last())
    }
}

/// An owning handle to a finite-element space over a mesh and a
/// collection, outliving neither.
pub struct FiniteElementSpace<'mesh, 'fec> {
    pub raw: RawHandle,
    pub vdim: i32,
    pub ordering: OrderingType,
    pub true_vsize: i32,
    pub _mesh: PhantomData<&'mesh ()>,
    pub _fec: PhantomData<&'fec ()>,
}

impl<'mesh, 'fec> FiniteElementSpace<'mesh, 'fec> {
    /// Constructs the space of `vdim`-vector fields over `mesh` in the
    /// given collection.  The accounting model counts one true degree
    /// of freedom per element and vector component.
    pub fn new<F: FiniteElementCollection>(
        lib: &mut NativeLib,
        mesh: &'mesh Mesh,
        fec: &'fec F,
        vdim: i32,
        ordering: OrderingType,
    ) -> (r: FiniteElementSpace<'mesh, 'fec>)
        requires
            old(lib).next_id < u64::MAX,
            vdim >= 1,
            mesh.num_elems >= 0,
            mesh.num_elems * vdim <= i32::MAX,
        ensures
            r.raw.id == old(lib).next_id,
            r.vdim == vdim,
            r.ordering == ordering,
            r.true_vsize == mesh.num_elems * vdim,
            final(lib).next_id == old(lib).next_id + 1,
            final(lib).destroy_log == old(lib).destroy_log,
    {
        let _ = fec.as_base();
        let raw = lib.fresh_handle();
        proof {
            assert(mesh.num_elems * vdim >= 0) by (nonlinear_arith)
                requires
                    mesh.num_elems >= 0,
                    vdim >= 1,
            ;
        }
        let true_vsize: i32 = mesh.num_elems * vdim;
        FiniteElementSpace {
            raw,
            vdim,
            ordering,
            true_vsize,
            _mesh: PhantomData,
            _fec: PhantomData,
        }
    }

    /// How many true degrees of freedom the space has.
    pub fn get_true_vsize(&self) -> (r: i32)
        ensures
            r == self.true_vsize,
    {
        self.true_vsize
    }

    /// Fills `ess_tdof_list` with the essential true degrees of
    /// freedom: in the accounting model, the indices of the marked
    /// boundary attributes, in order.  The `component` restriction is
    /// forwarded to the native engine and does not change the
    /// accounting.
    pub fn get_essential_true_dofs(
        &self,
        bdr_attr_is_ess: &ArrayInt,
        ess_tdof_list: &mut ArrayInt,
        component: Option<usize>,
    )
        requires
            bdr_attr_is_ess.data@.len() <= i32::MAX,
        ensures
            final(ess_tdof_list).data@ == marked_indices(bdr_attr_is_ess.data@),
            final(ess_tdof_list).raw == old(ess_tdof_list).raw,
    {
        let _ = component;
        let mut out: Vec<i32> = Vec::new();
        let n = bdr_attr_is_ess.data.len();
        let mut i: usize = 0;
        proof {
            assert(bdr_attr_is_ess.data@.take(0) =~= Seq::<i32>::empty());
        }
        while i < n
            invariant
                n == bdr_attr_is_ess.data@.len(),
                n <= i32::MAX,
                0 <= i <= n,
                out@ == marked_indices(bdr_attr_is_ess.data@.take(i as int)),
            decreases n - i,
        {
            proof {
                assert(bdr_attr_is_ess.data@.take(i + 1).drop_last() =~= bdr_attr_is_ess.data@
                    .take(i as int));
                assert(bdr_attr_is_ess.data@.take(i + 1).last() == bdr_attr_is_ess.data@[
                    i as int]);
            }
            if bdr_attr_is_ess.data[i] != 0 {
                out.push(i as i32);
            }
            i += 1;
        }
        proof {
            assert(bdr_attr_is_ess.data@.take(n as int) =~= bdr_attr_is_ess.data@);
        }
        ess_tdof_list.data = out;
    }

    /// Destroys the space: one destruction of its identity.
    pub fn destroy(self, lib: &mut NativeLib)
        ensures
            final(lib).destroy_log@ == old(lib).destroy_log@.push(self.raw.id),
            final(lib).next_id == old(lib).next_id,
    {
        let FiniteElementSpace { raw, vdim: _, ordering: _, true_vsize: _, _mesh, _fec } = self;
        lib.record_destroy(raw);
    }
}

} // verus!
