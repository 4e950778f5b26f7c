use mfem::driver::{check_build_outcome, plan_build, BuildError, LinkDirective, Platform};
use mfem::locate::{LibraryDescriptor, LinkMode};
use mfem::version::Version;

fn descriptor() -> LibraryDescriptor {
    LibraryDescriptor {
        version: Version { major: 4, minor: 6, patch: 0 },
        include_dirs: vec![String::from("/opt/mfem/include"), String::from("/opt/hypre/include")],
        library_dir: String::from("/opt/mfem/lib"),
        libraries: vec![String::from("mfem"), String::from("metis")],
        cxx_flags: vec![String::from("-fPIC"), String::from("-fopenmp")],
        link_mode: LinkMode::Static,
    }
}

#[test]
fn compiler_args_in_fixed_order() {
    let plan = plan_build(&descriptor(), &vec![String::from("shim.cpp")], Platform::Linux);
    assert_eq!(
        plan.compiler_args,
        vec!["-I/opt/mfem/include", "-I/opt/hypre/include", "-std=c++14", "-O3", "-w", "-fPIC", "-fopenmp"]
    );
}

#[test]
fn link_directives_in_dependency_order() {
    let plan = plan_build(&descriptor(), &vec![String::from("shim.cpp")], Platform::Linux);
    let d = &plan.directives;
    assert_eq!(d.len(), 4);
    assert!(matches!(&d[0], LinkDirective::SearchPath(p) if p == "/opt/mfem/lib"));
    assert!(matches!(&d[1], LinkDirective::NativeLib(n, LinkMode::Static) if n == "mfem"));
    assert!(matches!(&d[2], LinkDirective::NativeLib(n, LinkMode::Static) if n == "metis"));
    assert!(matches!(&d[3], LinkDirective::ShimArchive(n) if n == "mfem-shim"));
}

#[test]
fn windows_adds_its_system_library() {
    let plan = plan_build(&descriptor(), &vec![], Platform::Windows);
    let d = &plan.directives;
    assert_eq!(d.len(), 5);
    assert!(matches!(&d[3], LinkDirective::SystemLib(n) if n == "user32"));
    assert!(matches!(&d[4], LinkDirective::ShimArchive(_)));

    let plan = plan_build(&descriptor(), &vec![], Platform::MacOs);
    assert_eq!(plan.directives.len(), 4);
}

#[test]
fn rerun_paths_are_the_shim_sources() {
    let sources = vec![String::from("shim.cpp"), String::from("shim.hpp")];
    let plan = plan_build(&descriptor(), &sources, Platform::Linux);
    assert_eq!(plan.rerun_paths, sources);
}

#[test]
fn build_outcome_is_fatal_per_stage() {
    assert!(check_build_outcome(true, true).is_ok());
    assert_eq!(check_build_outcome(false, true).unwrap_err(), BuildError::CompileFailed);
    assert_eq!(check_build_outcome(false, false).unwrap_err(), BuildError::CompileFailed);
    assert_eq!(check_build_outcome(true, false).unwrap_err(), BuildError::LinkFailed);
}
