use mfem::{
    solve_with_pcg, ArrayInt, BasisType, BilinearForm, ConstantCoefficient, DiffusionIntegrator,
    DomainLFIntegrator, FiniteElementCollection, FiniteElementSpace, GridFunction, GsSmoother,
    H1FeCollection, LinearForm, Mesh, MfemError, NativeLib, Operator, OperatorBase,
    OperatorHandle, OperatorType, OrderingType, Real, RefAlgo, SparseMatrix, SparseMatrixRef,
    Vector, NUM_BASIS_TYPES,
};

#[test]
fn test_num_basis_types() {
    assert_eq!(NUM_BASIS_TYPES, 9);
}

#[test]
fn basis_type_codes_round_trip() {
    for code in 0..NUM_BASIS_TYPES {
        let b = BasisType::try_from(code).unwrap();
        assert_eq!(b.code(), code);
    }
    assert_eq!(BasisType::try_from(-1), Err(-1));
    assert_eq!(BasisType::try_from(9), Err(9));
    assert_eq!(BasisType::try_from(42), Err(42));
}

#[test]
fn operator_type_names() {
    assert_eq!(OperatorType::ANY_TYPE.name(), "ANY_TYPE");
    assert_eq!(OperatorType::MFEM_SPARSEMAT.name(), "MFEM_SPARSEMAT");
    assert_eq!(OperatorType::Hypre_ParCSR.name(), "Hypre_ParCSR");
}

#[test]
fn array_int_bulk_access() {
    let mut lib = NativeLib::new();
    let mut a = ArrayInt::with_len(&mut lib, 4);
    assert_eq!(a.as_array_ref().as_slice(), &[0, 0, 0, 0]);
    a.set_all(7);
    assert_eq!(a.as_array_ref().as_slice(), &[7, 7, 7, 7]);
    a.as_slice_mut()[2] = 9;
    assert_eq!(a.as_array_ref().iter(), vec![7, 7, 9, 7]);
    let id = a.raw.id;
    a.destroy(&mut lib);
    assert_eq!(lib.destroy_count(id), 1);
}

#[test]
fn h1_collection_name() {
    let mut lib = NativeLib::new();
    let fec = H1FeCollection::new(&mut lib, 3, 2, BasisType::GaussLobatto);
    assert_eq!(fec.get_name(), "H1_2D_P3");
    let fec1 = H1FeCollection::new(&mut lib, 1, 3, BasisType::GaussLobatto);
    assert_eq!(fec1.get_name(), "H1_3D_P1");
}

#[test]
fn mesh_refinement_multiplies_elements() {
    let mut lib = NativeLib::new();
    let mut mesh = Mesh::with_shape(&mut lib, 2, 4, vec![1, 1], false);
    assert_eq!(mesh.dimension(), 2);
    assert_eq!(mesh.get_num_elems(), 4);
    mesh.uniform_refinement(RefAlgo::A);
    assert_eq!(mesh.get_num_elems(), 16);
    let mut mesh3 = Mesh::with_shape(&mut lib, 3, 2, vec![], false);
    mesh3.uniform_refinement(RefAlgo::B);
    assert_eq!(mesh3.get_num_elems(), 16);
}

#[test]
fn mesh_nodes_only_when_curved() {
    let mut lib = NativeLib::new();
    let straight = Mesh::with_shape(&mut lib, 2, 1, vec![], false);
    assert!(straight.get_nodes().is_none());
    let curved = Mesh::with_shape(&mut lib, 2, 1, vec![], true);
    let nodes = curved.get_nodes().expect("curved mesh carries nodes");
    assert!(nodes.get_own_fec().is_some());
}

#[test]
fn mesh_destroy_counts_everything_once() {
    let mut lib = NativeLib::new();
    let curved = Mesh::with_shape(&mut lib, 2, 1, vec![1], true);
    let mesh_id = curved.raw.id;
    let bdr_id = curved.bdr_attrs.raw.id;
    let nodes_id = curved.nodes.as_ref().unwrap().base.raw.id;
    let fec_id = curved.nodes.as_ref().unwrap().own_fec.as_ref().unwrap().raw.id;
    curved.destroy(&mut lib);
    assert_eq!(lib.destroy_count(mesh_id), 1);
    assert_eq!(lib.destroy_count(bdr_id), 1);
    assert_eq!(lib.destroy_count(nodes_id), 1);
    assert_eq!(lib.destroy_count(fec_id), 1);
}

#[test]
fn essential_true_dofs_are_marked_indices() {
    let mut lib = NativeLib::new();
    let mesh = Mesh::with_shape(&mut lib, 2, 4, vec![1, 1], false);
    let fec = H1FeCollection::new(&mut lib, 1, 2, BasisType::GaussLobatto);
    let fespace = FiniteElementSpace::new(&mut lib, &mesh, &fec, 1, OrderingType::byNODES);
    let mut marks = ArrayInt::with_len(&mut lib, 4);
    marks.as_slice_mut()[0] = 1;
    marks.as_slice_mut()[2] = 5;
    let mut ess = ArrayInt::new(&mut lib);
    fespace.get_essential_true_dofs(&marks, &mut ess, None);
    assert_eq!(ess.as_array_ref().as_slice(), &[0, 2]);
}

#[test]
fn transfer_destroys_children_exactly_once() {
    // The end-to-end ownership scenario: a container takes two children
    // by transfer; destroying the container destroys the container and
    // both children exactly once each, and nothing else.
    let mut lib = NativeLib::new();
    let mesh = Mesh::with_shape(&mut lib, 2, 2, vec![1], false);
    let fec = H1FeCollection::new(&mut lib, 1, 2, BasisType::GaussLobatto);
    let fespace = FiniteElementSpace::new(&mut lib, &mesh, &fec, 1, OrderingType::byNODES);
    let one = ConstantCoefficient::new(&mut lib, Real::from_bits(1));

    let mut b = LinearForm::new(&mut lib, &fespace);
    let form_id = b.base.raw.id;
    let first = DomainLFIntegrator::new(&mut lib, &one, 2, 0);
    let first_id = first.base.raw.id;
    let second = DomainLFIntegrator::new(&mut lib, &one, 2, 0);
    let second_id = second.base.raw.id;

    b.add_domain_integrator(first);
    b.add_domain_integrator(second);
    b.assemble();

    assert_eq!(lib.destroy_count(form_id), 0);
    b.destroy(&mut lib);

    assert_eq!(lib.destroy_count(form_id), 1);
    assert_eq!(lib.destroy_count(first_id), 1);
    assert_eq!(lib.destroy_count(second_id), 1);
    // Objects that were not destroyed have a count of zero: no leaks
    // attributed, no stray frees.
    assert_eq!(lib.destroy_count(mesh.raw.id), 0);
    assert_eq!(lib.destroy_count(one.base.raw.id), 0);
}

#[test]
fn downcast_failure_carries_both_tags() {
    let mut lib = NativeLib::new();
    let handle = OperatorHandle::new(&mut lib);
    assert_eq!(handle.get_type(), OperatorType::ANY_TYPE);
    let err = match SparseMatrixRef::try_from(&handle) {
        Ok(_) => panic!("downcast must fail on a wildcard tag"),
        Err(e) => e,
    };
    assert_eq!(
        err,
        MfemError::OperatorHandleTypeMismatch(OperatorType::MFEM_SPARSEMAT, OperatorType::ANY_TYPE)
    );
    assert_eq!(
        err.message(),
        "OperatorHandle type mismatch: expected MFEM_SPARSEMAT got ANY_TYPE"
    );
}

#[test]
fn owned_downcast_returns_handle_on_mismatch() {
    let mut lib = NativeLib::new();
    let handle = OperatorHandle::new(&mut lib);
    let id = handle.raw.id;
    let (back, err) = match SparseMatrix::try_from(handle) {
        Ok(_) => panic!("downcast must fail on a wildcard tag"),
        Err(pair) => pair,
    };
    assert_eq!(back.raw.id, id);
    assert_eq!(
        err,
        MfemError::OperatorHandleTypeMismatch(OperatorType::MFEM_SPARSEMAT, OperatorType::ANY_TYPE)
    );
    back.destroy(&mut lib);
    assert_eq!(lib.destroy_count(id), 1);
}

#[test]
fn laplace_problem_end_to_end() {
    // The whole pattern in one pass, mirroring the classic first
    // example: mesh, space, forms, linear system, downcast, smoother,
    // conjugate gradients, recovery.
    let mut lib = NativeLib::new();
    let mut mesh = Mesh::with_shape(&mut lib, 2, 4, vec![1, 1, 1, 1], false);
    mesh.uniform_refinement(RefAlgo::A);
    let dim = mesh.dimension();

    let fec = H1FeCollection::new(&mut lib, 1, dim, BasisType::GaussLobatto);
    let fespace = FiniteElementSpace::new(&mut lib, &mesh, &fec, 1, OrderingType::byNODES);
    assert_eq!(fespace.get_true_vsize(), 16);

    let mut ess_tdof_list = ArrayInt::new(&mut lib);
    let max_bdr_attr = mesh.get_bdr_attributes().iter().into_iter().max().unwrap();
    let mut ess_bdr = ArrayInt::with_len(&mut lib, max_bdr_attr as usize);
    ess_bdr.set_all(1);
    fespace.get_essential_true_dofs(&ess_bdr, &mut ess_tdof_list, None);
    assert_eq!(ess_tdof_list.as_array_ref().as_slice(), &[0]);

    let mut b = LinearForm::new(&mut lib, &fespace);
    let one = ConstantCoefficient::new(&mut lib, Real::from_bits(0x3FF0000000000000));
    let integrator = DomainLFIntegrator::new(&mut lib, &one, 2, 0);
    b.add_domain_integrator(integrator);
    b.assemble();

    let mut x = GridFunction::new(&mut lib, &fespace);
    x.set_all(Real::from_bits(0));

    let mut a = BilinearForm::new(&mut lib, &fespace);
    let bf_integrator = DiffusionIntegrator::new(&mut lib, &one);
    a.add_domain_integrator(bf_integrator);
    a.assemble(true);

    let mut a_mat = OperatorHandle::new(&mut lib);
    let mut b_vec = Vector::new(&mut lib);
    let mut x_vec = Vector::new(&mut lib);
    a.form_linear_system(&ess_tdof_list, &x, &b, &mut a_mat, &mut x_vec, &mut b_vec);

    assert_eq!(a_mat.height(), 16);
    assert_eq!(a_mat.get_type(), OperatorType::MFEM_SPARSEMAT);
    assert_eq!(x_vec.len, 16);
    assert_eq!(b_vec.len, 16);

    let a_sparse = SparseMatrixRef::try_from(&a_mat).expect("operator is a sparse matrix");
    let mut m_mat = GsSmoother::new(&mut lib, &a_sparse, 0, 1);
    solve_with_pcg(
        &a_mat,
        &mut m_mat,
        &b_vec,
        &mut x_vec,
        1,
        200,
        Real::from_bits(0x3D719799812DEA11),
        Real::from_bits(0),
    );
    assert_eq!(m_mat.base.applications, 1);

    let writes_before = x.base.writes;
    a.recover_fem_solution(&x_vec, &b, &mut x);
    assert_eq!(x.base.writes, writes_before + 1);
    assert_eq!(x.base.len, 16);

    // Tear everything down; every object is destroyed exactly once.
    let ids = [
        a.raw.id,
        b.base.raw.id,
        x.base.raw.id,
        a_mat.raw.id,
        b_vec.raw.id,
        x_vec.raw.id,
        m_mat.raw.id,
    ];
    m_mat.destroy(&mut lib);
    a_mat.destroy(&mut lib);
    b_vec.destroy(&mut lib);
    x_vec.destroy(&mut lib);
    a.destroy(&mut lib);
    b.destroy(&mut lib);
    x.destroy(&mut lib);
    for id in ids {
        assert_eq!(lib.destroy_count(id), 1);
    }
}

#[test]
fn pcg_records_one_write_and_one_application() {
    let mut lib = NativeLib::new();
    let mut a_mat = OperatorHandle::new(&mut lib);
    a_mat.op_type = OperatorType::MFEM_SPARSEMAT;
    a_mat.base = OperatorBase { height: 3, width: 3 };
    let mut b_vec = Vector::new(&mut lib);
    b_vec.len = 3;
    let mut x_vec = Vector::new(&mut lib);
    x_vec.len = 3;
    let a_sparse = SparseMatrixRef::try_from(&a_mat).unwrap();
    let mut solver = GsSmoother::new(&mut lib, &a_sparse, 0, 2);
    solve_with_pcg(&a_mat, &mut solver, &b_vec, &mut x_vec, 0, 10, Real::from_bits(0), Real::from_bits(0));
    assert_eq!(x_vec.writes, 1);
    assert_eq!(solver.base.applications, 1);
}

#[test]
fn grid_function_writes_are_counted() {
    let mut lib = NativeLib::new();
    let mesh = Mesh::with_shape(&mut lib, 1, 3, vec![], false);
    let fec = H1FeCollection::new(&mut lib, 1, 1, BasisType::GaussLobatto);
    let fespace = FiniteElementSpace::new(&mut lib, &mesh, &fec, 1, OrderingType::byNODES);
    let one = ConstantCoefficient::new(&mut lib, Real::from_bits(1));
    let mut x = GridFunction::new(&mut lib, &fespace);
    assert_eq!(x.base.writes, 0);
    assert_eq!(x.base.len, 3);
    x.set_all(Real::from_bits(0));
    x.project_coefficient(&one);
    assert_eq!(x.base.writes, 2);
}
