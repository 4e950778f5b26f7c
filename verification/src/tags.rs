//! Closed enumerations mirroring the native library's type tags and
//! option enums: the operator type tag that drives the safe downcast
//! layer, the nodal basis types, the refinement algorithms, and the
//! degree-of-freedom ordering.
#![allow(unused_imports)]
use vstd::prelude::*;

verus! {

/// The concrete runtime subtype behind a base-class operator handle.
#[derive(Clone, Copy, Debug, PartialEq, Eq, Structural)]
#[allow(non_camel_case_types)]
pub enum OperatorType {
    ANY_TYPE,
    MFEM_SPARSEMAT,
    Hypre_ParCSR,
    PETSC_MATAIJ,
    PETSC_MATIS,
    PETSC_MATSHELL,
    PETSC_MATNEST,
    PETSC_MATHYPRE,
    PETSC_MATGENERIC,
    Complex_Operator,
    MFEM_ComplexSparseMat,
    Complex_Hypre_ParCSR,
    Complex_DenseMat,
    MFEM_Block_Matrix,
    MFEM_Block_Operator,
}

/// The printed name of each operator type tag.
pub open spec fn operator_type_chars(t: OperatorType) -> Seq<char> {
    match t {
        OperatorType::ANY_TYPE => "ANY_TYPE"@,
        OperatorType::MFEM_SPARSEMAT => "MFEM_SPARSEMAT"@,
        OperatorType::Hypre_ParCSR => "Hypre_ParCSR"@,
        OperatorType::PETSC_MATAIJ => "PETSC_MATAIJ"@,
        OperatorType::PETSC_MATIS => "PETSC_MATIS"@,
        OperatorType::PETSC_MATSHELL => "PETSC_MATSHELL"@,
        OperatorType::PETSC_MATNEST => "PETSC_MATNEST"@,
        OperatorType::PETSC_MATHYPRE => "PETSC_MATHYPRE"@,
        OperatorType::PETSC_MATGENERIC => "PETSC_MATGENERIC"@,
        OperatorType::Complex_Operator => "Complex_Operator"@,
        OperatorType::MFEM_ComplexSparseMat => "MFEM_ComplexSparseMat"@,
        OperatorType::Complex_Hypre_ParCSR => "Complex_Hypre_ParCSR"@,
        OperatorType::Complex_DenseMat => "Complex_DenseMat"@,
        OperatorType::MFEM_Block_Matrix => "MFEM_Block_Matrix"@,
        OperatorType::MFEM_Block_Operator => "MFEM_Block_Operator"@,
    }
}

impl OperatorType {
    /// The tag's printed name, for diagnostics.
    pub fn name(&self) -> (r: String)
        ensures
            r@ == operator_type_chars(*self),
    {
        match self {
            OperatorType::ANY_TYPE => String::from_str("ANY_TYPE"),
            OperatorType::MFEM_SPARSEMAT => String::from_str("MFEM_SPARSEMAT"),
            OperatorType::Hypre_ParCSR => String::from_str("Hypre_ParCSR"),
            OperatorType::PETSC_MATAIJ => String::from_str("PETSC_MATAIJ"),
            OperatorType::PETSC_MATIS => String::from_str("PETSC_MATIS"),
            OperatorType::PETSC_MATSHELL => String::from_str("PETSC_MATSHELL"),
            OperatorType::PETSC_MATNEST => String::from_str("PETSC_MATNEST"),
            OperatorType::PETSC_MATHYPRE => String::from_str("PETSC_MATHYPRE"),
            OperatorType::PETSC_MATGENERIC => String::from_str("PETSC_MATGENERIC"),
            OperatorType::Complex_Operator => String::from_str("Complex_Operator"),
            OperatorType::MFEM_ComplexSparseMat => String::from_str("MFEM_ComplexSparseMat"),
            OperatorType::Complex_Hypre_ParCSR => String::from_str("Complex_Hypre_ParCSR"),
            OperatorType::Complex_DenseMat => String::from_str("Complex_DenseMat"),
            OperatorType::MFEM_Block_Matrix => String::from_str("MFEM_Block_Matrix"),
            OperatorType::MFEM_Block_Operator => String::from_str("MFEM_Block_Operator"),
        }
    }
}

/// How many nodal basis types the native library defines.
pub const NUM_BASIS_TYPES: i32 = 9;

/// The nodal basis types.
#[derive(Clone, Copy, Debug, PartialEq, Eq, Structural)]
pub enum BasisType {
    /// Open type.
    GaussLegendre,
    /// Closed type.
    GaussLobatto,
    /// Bernstein polynomials.
    Positive,
    /// Nodes: x_i = (i+1)/(n+1), i=0,...,n-1.
    OpenUniform,
    /// Nodes: x_i = i/(n-1), i=0,...,n-1.
    ClosedUniform,
    /// Nodes: x_i = (i+1/2)/n, i=0,...,n-1.
    OpenHalfUniform,
    /// Serendipity basis (squares / cubes).
    Serendipity,
    /// Closed GaussLegendre.
    ClosedGL,
    /// Integrated GLL indicator functions.
    IntegratedGLL,
}

/// The native numeric code of each basis type.
pub open spec fn basis_type_code(b: BasisType) -> i32 {
    match b {
        BasisType::GaussLegendre => 0,
        BasisType::GaussLobatto => 1,
        BasisType::Positive => 2,
        BasisType::OpenUniform => 3,
        BasisType::ClosedUniform => 4,
        BasisType::OpenHalfUniform => 5,
        BasisType::Serendipity => 6,
        BasisType::ClosedGL => 7,
        BasisType::IntegratedGLL => 8,
    }
}

impl BasisType {
    /// Converts the native numeric code into a basis type.  Fails on
    /// exactly the codes that name no basis type, returning the code
    /// back as the error.
    pub fn try_from(value: i32) -> (r: Result<BasisType, i32>)
        ensures
            match r {
                Ok(b) => basis_type_code(b) == value,
                Err(e) => e == value && (value < 0 || value >= NUM_BASIS_TYPES),
            },
    {
        match value {
            0 => Ok(BasisType::GaussLegendre),
            1 => Ok(BasisType::GaussLobatto),
            2 => Ok(BasisType::Positive),
            3 => Ok(BasisType::OpenUniform),
            4 => Ok(BasisType::ClosedUniform),
            5 => Ok(BasisType::OpenHalfUniform),
            6 => Ok(BasisType::Serendipity),
            7 => Ok(BasisType::ClosedGL),
            8 => Ok(BasisType::IntegratedGLL),
            _ => Err(value),
        }
    }

    /// The native numeric code of this basis type.
    pub fn code(&self) -> (r: i32)
        ensures
            r == basis_type_code(*self),
            0 <= r < NUM_BASIS_TYPES,
    {
        match self {
            BasisType::GaussLegendre => 0,
            BasisType::GaussLobatto => 1,
            BasisType::Positive => 2,
            BasisType::OpenUniform => 3,
            BasisType::ClosedUniform => 4,
            BasisType::OpenHalfUniform => 5,
            BasisType::Serendipity => 6,
            BasisType::ClosedGL => 7,
            BasisType::IntegratedGLL => 8,
        }
    }
}

/// Refinement algorithm.
#[derive(Clone, Copy, Debug, PartialEq, Eq, Structural)]
pub enum RefAlgo {
    /// Algorithm "A": currently used only for pure tetrahedral meshes;
    /// produces elements with better quality.
    A,
    /// Algorithm "B".
    B,
}

/// The native numeric code of each refinement algorithm.
pub open spec fn ref_algo_code(a: RefAlgo) -> i32 {
    match a {
        RefAlgo::A => 0,
        RefAlgo::B => 1,
    }
}

impl RefAlgo {
    /// The native numeric code of this algorithm.
    pub fn code(&self) -> (r: i32)
        ensures
            r == ref_algo_code(*self),
    {
        match self {
            RefAlgo::A => 0,
            RefAlgo::B => 1,
        }
    }
}

/// How the degrees of freedom of a vector-valued space are ordered.
#[derive(Clone, Copy, Debug, PartialEq, Eq, Structural)]
#[allow(non_camel_case_types)]
pub enum OrderingType {
    /// Loop first over the nodes, then over the vector dimension.
    byNODES,
    /// Loop first over the vector dimension, then over the nodes.
    byVDIM,
}

} // verus!
