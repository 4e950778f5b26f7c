//! The compilation driver: turns a validated [`LibraryDescriptor`] into
//! the compiler argument list for the native shim and the linker
//! directives, in their fixed, dependency-respecting order.
//!
//! The driver only plans; running the compiler is the build script's
//! job.  A failed native build is fatal and must not be retried: it
//! indicates an environment or compatibility problem that re-invocation
//! cannot fix.
#![allow(unused_imports)]
use vstd::prelude::*;

use crate::locate::{DescModel, LibraryDescriptor, LinkMode};

verus! {

/// The platforms the driver distinguishes.  Only one of them needs an
/// extra system library (a windowing library pulled in transitively).
#[derive(Clone, Copy, Debug, PartialEq, Eq, Structural)]
pub enum Platform {
    Linux,
    MacOs,
    Windows,
}

/// One linker directive, to be emitted in order.
pub enum LinkDirective {
    /// A native-library search path.
    SearchPath(String),
    /// A native library to link, with the descriptor's link mode.
    NativeLib(String, LinkMode),
    /// A platform-specific system library.
    SystemLib(String),
    /// The compiled shim, linked as a static archive.
    ShimArchive(String),
}

/// The mathematical content of a linker directive.
pub enum DirectiveModel {
    SearchPath(Seq<char>),
    NativeLib(Seq<char>, LinkMode),
    SystemLib(Seq<char>),
    ShimArchive(Seq<char>),
}

impl View for LinkDirective {
    type V = DirectiveModel;

    open spec fn view(&self) -> DirectiveModel {
        match self {
            LinkDirective::SearchPath(p) => DirectiveModel::SearchPath(p@),
            LinkDirective::NativeLib(n, m) => DirectiveModel::NativeLib(n@, *m),
            LinkDirective::SystemLib(n) => DirectiveModel::SystemLib(n@),
            LinkDirective::ShimArchive(n) => DirectiveModel::ShimArchive(n@),
        }
    }
}

/// The plan for compiling the shim and linking everything: compiler
/// arguments, linker directives, and the paths whose change must force
/// a re-run.
pub struct CompilePlan {
    pub compiler_args: Vec<String>,
    pub directives: Vec<LinkDirective>,
    pub rerun_paths: Vec<String>,
}

/// Why a native build failed.  Both failures are fatal.
#[derive(Clone, Copy, Debug, PartialEq, Eq, Structural)]
pub enum BuildError {
    /// The native compile step failed.
    CompileFailed,
    /// The link step failed.
    LinkFailed,
}

/// The compiler arguments: one `-I` per include directory in order,
/// then the fixed language and optimization flags, then the
/// descriptor's extra flags in order.
pub open spec fn compiler_args_spec(d: DescModel) -> Seq<Seq<char>> {
    Seq::new(d.include_dirs.len(), |i: int| "-I"@ + d.include_dirs[i]) + seq![
        "-std=c++14"@,
        "-O3"@,
        "-w"@,
    ] + d.cxx_flags
}

/// The platform's required extra system libraries.
pub open spec fn platform_libs_spec(p: Platform) -> Seq<Seq<char>> {
    match p {
        Platform::Windows => seq!["user32"@],
        _ => Seq::<Seq<char>>::empty(),
    }
}

/// The linker directives in their required order: the native search
/// path first, then every native library in the descriptor's order with
/// the descriptor's link mode, then the platform extras, then the shim
/// archive.
pub open spec fn directives_spec(d: DescModel, p: Platform, shim: Seq<char>) -> Seq<
    DirectiveModel,
> {
    seq![DirectiveModel::SearchPath(d.library_dir)] + Seq::new(
        d.libraries.len(),
        |i: int| DirectiveModel::NativeLib(d.libraries[i], d.link_mode),
    ) + Seq::new(
        platform_libs_spec(p).len(),
        |i: int| DirectiveModel::SystemLib(platform_libs_spec(p)[i]),
    ) + seq![DirectiveModel::ShimArchive(shim)]
}

/// Plans the native shim build for a validated descriptor.  The plan's
/// compiler arguments are exactly [`compiler_args_spec`], its linker
/// directives exactly [`directives_spec`], and its re-run paths exactly
/// the shim sources, in order.
pub fn plan_build(d: &LibraryDescriptor, shim_sources: &Vec<String>, platform: Platform) -> (r:
    CompilePlan)
    ensures
        r.compiler_args.deep_view() == compiler_args_spec(d@),
        r.directives@.map_values(|x: LinkDirective| x@) == directives_spec(
            d@,
            platform,
            "mfem-shim"@,
        ),
        r.rerun_paths.deep_view() == shim_sources.deep_view(),
{
    proof {
        reveal_strlit("-I");
        reveal_strlit("-std=c++14");
        reveal_strlit("-O3");
        reveal_strlit("-w");
        reveal_strlit("user32");
        reveal_strlit("mfem-shim");
    }
    let mut args: Vec<String> = Vec::new();
    let mut i: usize = 0;
    while i < d.include_dirs.len()
        invariant
            0 <= i <= d.include_dirs.len(),
            args.deep_view() == Seq::new(i as nat, |j: int| "-I"@ + d.include_dirs.deep_view()[j]),
        decreases d.include_dirs.len() - i,
    {
        let mut a = String::from_str("-I");
        a.append(d.include_dirs[i].as_str());
        let ghost old_dv = args.deep_view();
        args.push(a);
        proof {
            assert(args.deep_view() =~= old_dv.push(a@));
            assert(args.deep_view() =~= Seq::new(
                (i + 1) as nat,
                |j: int| "-I"@ + d.include_dirs.deep_view()[j],
            ));
        }
        i += 1;
    }
    args.push(String::from_str("-std=c++14"));
    args.push(String::from_str("-O3"));
    args.push(String::from_str("-w"));
    let mut k: usize = 0;
    while k < d.cxx_flags.len()
        invariant
            0 <= k <= d.cxx_flags.len(),
            args.deep_view() == Seq::new(
                d.include_dirs.deep_view().len(),
                |j: int| "-I"@ + d.include_dirs.deep_view()[j],
            ) + seq!["-std=c++14"@, "-O3"@, "-w"@] + d.cxx_flags.deep_view().take(k as int),
        decreases d.cxx_flags.len() - k,
    {
        let ghost old_dv = args.deep_view();
        args.push(d.cxx_flags[k].clone());
        proof {
            assert(args.deep_view() =~= old_dv.push(d.cxx_flags.deep_view()[k as int]));
            assert(d.cxx_flags.deep_view().take(k + 1) =~= d.cxx_flags.deep_view().take(
                k as int,
            ).push(d.cxx_flags.deep_view()[k as int]));
            assert(args.deep_view() =~= Seq::new(
                d.include_dirs.deep_view().len(),
                |j: int| "-I"@ + d.include_dirs.deep_view()[j],
            ) + seq!["-std=c++14"@, "-O3"@, "-w"@] + d.cxx_flags.deep_view().take(k + 1));
        }
        k += 1;
    }
    proof {
        assert(d.cxx_flags.deep_view().take(d.cxx_flags.deep_view().len() as int)
            =~= d.cxx_flags.deep_view());
        assert(args.deep_view() =~= compiler_args_spec(d@));
    }

    let mut dirs: Vec<LinkDirective> = Vec::new();
    dirs.push(LinkDirective::SearchPath(d.library_dir.clone()));
    let mut n: usize = 0;
    while n < d.libraries.len()
        invariant
            0 <= n <= d.libraries.len(),
            dirs@.map_values(|x: LinkDirective| x@) == seq![
                DirectiveModel::SearchPath(d.library_dir@),
            ] + Seq::new(
                n as nat,
                |i: int| DirectiveModel::NativeLib(d.libraries.deep_view()[i], d.link_mode),
            ),
        decreases d.libraries.len() - n,
    {
        let ghost old_m = dirs@.map_values(|x: LinkDirective| x@);
        dirs.push(LinkDirective::NativeLib(d.libraries[n].clone(), d.link_mode));
        proof {
            assert(dirs@.map_values(|x: LinkDirective| x@) =~= old_m.push(
                DirectiveModel::NativeLib(d.libraries.deep_view()[n as int], d.link_mode),
            ));
            assert(dirs@.map_values(|x: LinkDirective| x@) =~= seq![
                DirectiveModel::SearchPath(d.library_dir@),
            ] + Seq::new(
                (n + 1) as nat,
                |i: int| DirectiveModel::NativeLib(d.libraries.deep_view()[i], d.link_mode),
            ));
        }
        n += 1;
    }
    if matches!(platform, Platform::Windows) {
        let ghost old_m = dirs@.map_values(|x: LinkDirective| x@);
        dirs.push(LinkDirective::SystemLib(String::from_str("user32")));
        proof {
            assert(dirs@.map_values(|x: LinkDirective| x@) =~= old_m.push(
                DirectiveModel::SystemLib("user32"@),
            ));
        }
    }
    let ghost old_m2 = dirs@.map_values(|x: LinkDirective| x@);
    dirs.push(LinkDirective::ShimArchive(String::from_str("mfem-shim")));
    proof {
        assert(dirs@.map_values(|x: LinkDirective| x@) =~= old_m2.push(
            DirectiveModel::ShimArchive("mfem-shim"@),
        ));
        assert(dirs@.map_values(|x: LinkDirective| x@) =~= directives_spec(
            d@,
            platform,
            "mfem-shim"@,
        ));
    }

    let mut rerun: Vec<String> = Vec::new();
    let mut s: usize = 0;
    while s < shim_sources.len()
        invariant
            0 <= s <= shim_sources.len(),
            rerun.deep_view() == shim_sources.deep_view().take(s as int),
        decreases shim_sources.len() - s,
    {
        let ghost old_dv = rerun.deep_view();
        rerun.push(shim_sources[s].clone());
        proof {
            assert(rerun.deep_view() =~= old_dv.push(shim_sources.deep_view()[s as int]));
            assert(rerun.deep_view() =~= shim_sources.deep_view().take(s + 1));
        }
        s += 1;
    }
    proof {
        assert(rerun.deep_view() =~= shim_sources.deep_view());
    }
    CompilePlan { compiler_args: args, directives: dirs, rerun_paths: rerun }
}

/// Judges the outcome of running the planned native build.  Success is
/// owed exactly when both steps succeeded; a compile failure is
/// reported before a link failure.  The error is fatal: the caller must
/// terminate the build and must not retry.
pub fn check_build_outcome(compiled: bool, linked: bool) -> (r: Result<(), BuildError>)
    ensures
        r is Ok <==> compiled && linked,
        !compiled ==> r == Err::<(), BuildError>(BuildError::CompileFailed),
        compiled && !linked ==> r == Err::<(), BuildError>(BuildError::LinkFailed),
{
    if !compiled {
        Err(BuildError::CompileFailed)
    } else if !linked {
        Err(BuildError::LinkFailed)
    } else {
        Ok(())
    }
}

} // verus!
