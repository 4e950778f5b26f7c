//! The build-time library locator: turns a probe result (the metadata
//! text found in an installed tree, or nothing) into a validated
//! [`LibraryDescriptor`], or a fatal [`LocateError`].
//!
//! Locating is a pure function of the explicit configuration and the
//! probe result: no ambient state survives it, and locating twice with
//! unchanged inputs yields an identical descriptor.
#![allow(unused_imports)]
use vstd::prelude::*;

use crate::metadata::{
    fields_complete, metadata_model, metadata_ok, parse_metadata, scan_lines, MetaModel,
};
use crate::strings::split_spec;
use crate::version::{req_floor, req_matches, Version, VersionReq};

verus! {

/// Where the native library is taken from.
#[derive(Clone, Copy, Debug, PartialEq, Eq, Structural)]
pub enum LocateMode {
    /// Build the vendored source tree that ships with the binding.
    Bundled,
    /// Probe a pre-installed copy, optionally via the environment hint.
    System,
}

/// The numeric precision the native library was built with: an
/// ABI-relevant option that must match the binding.
#[derive(Clone, Copy, Debug, PartialEq, Eq, Structural)]
pub enum Precision {
    Single,
    Double,
}

/// How the native library is linked.
#[derive(Clone, Copy, Debug, PartialEq, Eq, Structural)]
pub enum LinkMode {
    Static,
    Dynamic,
}

/// The explicit input of [`locate`]: no other state is consulted.
#[derive(Clone, Copy, Debug, PartialEq, Eq, Structural)]
pub struct LocateConfig {
    pub mode: LocateMode,
    pub precision: Precision,
    pub min_req: VersionReq,
    pub link_mode: LinkMode,
}

/// Why locating failed.  Every failure is fatal to the build; none may
/// be silently recovered from.
#[derive(Clone, Copy, Debug, PartialEq, Eq, Structural)]
pub enum LocateError {
    /// The probe (or the bundled build) produced no installed tree.
    NotFound,
    /// The installed library's version does not satisfy the minimum
    /// requirement; carries both sides of the comparison.
    VersionMismatch { found: Version, required: VersionReq },
    /// The metadata file is missing a required key or its version text
    /// is unreadable.
    MalformedMetadata,
    /// An ABI-relevant boolean option of the installed library differs
    /// from the configuration (numeric precision).
    AbiOptionMismatch { wanted_double: bool, found_double: bool },
}

/// The diagnostic for a locate failure, naming the failing precondition
/// and the remediation available in the given mode: switch modes,
/// point the environment hint at an installation, or upgrade the
/// installed library.
pub open spec fn locate_error_chars(e: LocateError, mode: LocateMode) -> Seq<char> {
    match e {
        LocateError::NotFound => match mode {
            LocateMode::Bundled => "bundled native library not found; repair the vendored tree or probe a system installation instead"@,
            LocateMode::System => "pre-installed native library not found; point MFEM_DIR at an installation or switch to bundled mode"@,
        },
        LocateError::VersionMismatch { found, required } => {
            "native library version "@ + crate::version::version_chars(found)
                + " does not satisfy "@ + crate::version::req_chars(required) + (match mode {
                LocateMode::Bundled => "; update the vendored tree"@,
                LocateMode::System => "; upgrade the installation or switch to bundled mode"@,
            })
        },
        LocateError::MalformedMetadata => "native library metadata is missing required keys; the installation is incomplete; rebuild it or switch modes"@,
        LocateError::AbiOptionMismatch { .. } => {
            "native library was built with the other floating-point precision; rebuild it with the configured precision"@
        },
    }
}

impl LocateError {
    /// Renders the diagnostic for this failure under the given mode.
    pub fn message(&self, mode: LocateMode) -> (r: String)
        ensures
            r@ == locate_error_chars(*self, mode),
    {
        match self {
            LocateError::NotFound => match mode {
                LocateMode::Bundled => String::from_str(
                    "bundled native library not found; repair the vendored tree or probe a system installation instead",
                ),
                LocateMode::System => String::from_str(
                    "pre-installed native library not found; point MFEM_DIR at an installation or switch to bundled mode",
                ),
            },
            LocateError::VersionMismatch { found, required } => {
                let mut r = String::from_str("native library version ");
                let found_txt = found.render();
                r.append(found_txt.as_str());
                r.append(" does not satisfy ");
                let req_txt = required.render();
                r.append(req_txt.as_str());
                match mode {
                    LocateMode::Bundled => r.append("; update the vendored tree"),
                    LocateMode::System => r.append(
                        "; upgrade the installation or switch to bundled mode",
                    ),
                }
                r
            },
            LocateError::MalformedMetadata => String::from_str(
                "native library metadata is missing required keys; the installation is incomplete; rebuild it or switch modes",
            ),
            LocateError::AbiOptionMismatch { .. } => String::from_str(
                "native library was built with the other floating-point precision; rebuild it with the configured precision",
            ),
        }
    }
}

/// The validated result of locating: immutable once produced, and
/// discarded after the build step.
pub struct LibraryDescriptor {
    pub version: Version,
    pub include_dirs: Vec<String>,
    pub library_dir: String,
    pub libraries: Vec<String>,
    pub cxx_flags: Vec<String>,
    pub link_mode: LinkMode,
}

/// The mathematical content of a descriptor.
pub struct DescModel {
    pub version: Version,
    pub include_dirs: Seq<Seq<char>>,
    pub library_dir: Seq<char>,
    pub libraries: Seq<Seq<char>>,
    pub cxx_flags: Seq<Seq<char>>,
    pub link_mode: LinkMode,
}

impl View for LibraryDescriptor {
    type V = DescModel;

    open spec fn view(&self) -> DescModel {
        DescModel {
            version: self.version,
            include_dirs: self.include_dirs.deep_view(),
            library_dir: self.library_dir@,
            libraries: self.libraries.deep_view(),
            cxx_flags: self.cxx_flags.deep_view(),
            link_mode: self.link_mode,
        }
    }
}

/// Whether the configured precision asks for a double-precision
/// library.
pub open spec fn wants_double(cfg: LocateConfig) -> bool {
    cfg.precision is Double
}

/// The descriptor a well-formed, compatible metadata file yields.
pub open spec fn descriptor_of(cfg: LocateConfig, m: MetaModel) -> DescModel {
    DescModel {
        version: m.version,
        include_dirs: m.include_dirs,
        library_dir: m.library_dir,
        libraries: m.libraries,
        cxx_flags: m.cxx_flags,
        link_mode: cfg.link_mode,
    }
}

/// The whole locator, as a function: what [`locate`] returns for every
/// configuration and probe result.
pub open spec fn locate_spec(cfg: LocateConfig, probe: Option<Seq<char>>) -> Result<
    DescModel,
    LocateError,
> {
    match probe {
        None => Err(LocateError::NotFound),
        Some(text) => {
            let lines = split_spec(text, '\n');
            if !metadata_ok(lines) {
                Err(LocateError::MalformedMetadata)
            } else {
                let m = metadata_model(lines);
                if !req_matches(cfg.min_req, m.version) {
                    Err(
                        LocateError::VersionMismatch {
                            found: m.version,
                            required: cfg.min_req,
                        },
                    )
                } else if m.use_double != wants_double(cfg) {
                    Err(
                        LocateError::AbiOptionMismatch {
                            wanted_double: wants_double(cfg),
                            found_double: m.use_double,
                        },
                    )
                } else {
                    Ok(descriptor_of(cfg, m))
                }
            }
        },
    }
}

/// The view of the optional probe text.
pub open spec fn probe_view(probe: Option<&str>) -> Option<Seq<char>> {
    match probe {
        Some(s) => Some(s@),
        None => None,
    }
}

/// Locates the native library.  `probe` is the metadata text that the
/// probe or bundled build produced, or `None` if no installed tree
/// could be produced at all.  The result is exactly [`locate_spec`] of
/// the inputs: success if and only if the metadata is well formed, the
/// version satisfies the minimum requirement, and the ABI-relevant
/// precision option matches.
pub fn locate(cfg: &LocateConfig, probe: Option<&str>) -> (r: Result<
    LibraryDescriptor,
    LocateError,
>)
    ensures
        match r {
            Ok(d) => locate_spec(*cfg, probe_view(probe)) == Ok::<DescModel, LocateError>(d@),
            Err(e) => locate_spec(*cfg, probe_view(probe)) == Err::<DescModel, LocateError>(e),
        },
{
    let text = match probe {
        Some(t) => t,
        None => {
            return Err(LocateError::NotFound);
        },
    };
    let m = match parse_metadata(text) {
        Some(m) => m,
        None => {
            return Err(LocateError::MalformedMetadata);
        },
    };
    if !cfg.min_req.matches(&m.version) {
        return Err(LocateError::VersionMismatch { found: m.version, required: cfg.min_req });
    }
    let double_wanted = match cfg.precision {
        Precision::Double => true,
        Precision::Single => false,
    };
    if m.use_double != double_wanted {
        return Err(
            LocateError::AbiOptionMismatch {
                wanted_double: double_wanted,
                found_double: m.use_double,
            },
        );
    }
    Ok(
        LibraryDescriptor {
            version: m.version,
            include_dirs: m.include_dirs,
            library_dir: m.library_dir,
            libraries: m.libraries,
            cxx_flags: m.cxx_flags,
            link_mode: cfg.link_mode,
        },
    )
}

/// Version negotiation, in both directions: for a well-formed metadata
/// file whose ABI options match, locating succeeds exactly when the
/// found version satisfies the minimum requirement; and a failure on
/// that account reports both the found and the required version.
pub proof fn lemma_locate_version_iff(cfg: LocateConfig, text: Seq<char>)
    requires
        metadata_ok(split_spec(text, '\n')),
        metadata_model(split_spec(text, '\n')).use_double == wants_double(cfg),
    ensures
        locate_spec(cfg, Some(text)) is Ok <==> req_matches(
            cfg.min_req,
            metadata_model(split_spec(text, '\n')).version,
        ),
        !req_matches(cfg.min_req, metadata_model(split_spec(text, '\n')).version)
            ==> locate_spec(cfg, Some(text)) == Err::<DescModel, LocateError>(
            LocateError::VersionMismatch {
                found: metadata_model(split_spec(text, '\n')).version,
                required: cfg.min_req,
            },
        ),
{
}

/// The boundary of the version range: a found version equal to the
/// requirement's floor is accepted, while one a single minor (or any
/// major) below it is rejected, whatever its patch level.
pub proof fn lemma_locate_version_boundary(cfg: LocateConfig, text: Seq<char>)
    requires
        metadata_ok(split_spec(text, '\n')),
        metadata_model(split_spec(text, '\n')).use_double == wants_double(cfg),
    ensures
        metadata_model(split_spec(text, '\n')).version == req_floor(cfg.min_req) ==> locate_spec(
            cfg,
            Some(text),
        ) is Ok,
        metadata_model(split_spec(text, '\n')).version.major == cfg.min_req.min_major
            && metadata_model(split_spec(text, '\n')).version.minor < cfg.min_req.min_minor
            ==> locate_spec(cfg, Some(text)) is Err,
        metadata_model(split_spec(text, '\n')).version.major < cfg.min_req.min_major
            ==> locate_spec(cfg, Some(text)) is Err,
{
    crate::version::lemma_req_boundary(
        cfg.min_req,
        metadata_model(split_spec(text, '\n')).version,
    );
}

/// A metadata file missing any required key never partially succeeds:
/// locating fails with `MalformedMetadata`, whatever the configuration.
pub proof fn lemma_missing_key_malformed(cfg: LocateConfig, text: Seq<char>)
    requires
        !fields_complete(scan_lines(split_spec(text, '\n'))),
    ensures
        locate_spec(cfg, Some(text)) == Err::<DescModel, LocateError>(
            LocateError::MalformedMetadata,
        ),
{
}

/// Locating is deterministic in its explicit inputs: two results of
/// [`locate_spec`] for the same configuration and probe are identical,
/// so locating twice with an unchanged environment yields an identical
/// descriptor.
pub proof fn lemma_locate_idempotent(
    cfg: LocateConfig,
    probe: Option<Seq<char>>,
    r1: Result<DescModel, LocateError>,
    r2: Result<DescModel, LocateError>,
)
    requires
        r1 == locate_spec(cfg, probe),
        r2 == locate_spec(cfg, probe),
    ensures
        r1 == r2,
{
}

} // verus!
