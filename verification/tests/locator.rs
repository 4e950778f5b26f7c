use mfem::locate::{locate, LinkMode, LocateConfig, LocateError, LocateMode, Precision};
use mfem::version::{Version, VersionReq};

fn config() -> LocateConfig {
    LocateConfig {
        mode: LocateMode::System,
        precision: Precision::Double,
        min_req: VersionReq::at_least(4, 6),
        link_mode: LinkMode::Static,
    }
}

const GOOD: &str = "VERSION=4.6.0\nINCLUDE_DIRS=/opt/mfem/include;/opt/hypre/include\nLIBRARY_DIR=/opt/mfem/lib\nMFEM_LIBRARIES=mfem;metis\nCXX_FLAGS=-fPIC -fopenmp\nMFEM_USE_DOUBLE=ON";

#[test]
fn parse_version_good() {
    let v = Version::parse("4.6.0").unwrap();
    assert_eq!(v, Version { major: 4, minor: 6, patch: 0 });
    let v = Version::parse("10.20.30").unwrap();
    assert_eq!(v, Version { major: 10, minor: 20, patch: 30 });
}

#[test]
fn parse_version_bad() {
    assert!(Version::parse("4.6").is_none());
    assert!(Version::parse("4.6.0.1").is_none());
    assert!(Version::parse("4.6.0-rc1").is_none());
    assert!(Version::parse("").is_none());
    assert!(Version::parse("a.b.c").is_none());
    assert!(Version::parse("4..0").is_none());
}

#[test]
fn version_render_round_trip() {
    let v = Version { major: 4, minor: 12, patch: 340 };
    let s = v.render();
    assert_eq!(s, "4.12.340");
    assert_eq!(Version::parse(&s).unwrap(), v);
}

#[test]
fn req_boundary_equal_succeeds() {
    let req = VersionReq::at_least(4, 6);
    assert!(req.matches(&Version { major: 4, minor: 6, patch: 0 }));
    assert!(req.matches(&Version { major: 4, minor: 6, patch: 1 }));
    assert!(req.matches(&Version { major: 4, minor: 7, patch: 0 }));
    assert!(req.matches(&Version { major: 5, minor: 0, patch: 0 }));
}

#[test]
fn req_boundary_below_fails() {
    let req = VersionReq::at_least(4, 6);
    assert!(!req.matches(&Version { major: 4, minor: 5, patch: 99 }));
    assert!(!req.matches(&Version { major: 3, minor: 9, patch: 9 }));
}

#[test]
fn locate_succeeds_on_good_metadata() {
    let d = locate(&config(), Some(GOOD)).unwrap();
    assert_eq!(d.version, Version { major: 4, minor: 6, patch: 0 });
    assert_eq!(d.include_dirs, vec!["/opt/mfem/include", "/opt/hypre/include"]);
    assert_eq!(d.library_dir, "/opt/mfem/lib");
    assert_eq!(d.libraries, vec!["mfem", "metis"]);
    assert_eq!(d.cxx_flags, vec!["-fPIC", "-fopenmp"]);
    assert_eq!(d.link_mode, LinkMode::Static);
}

#[test]
fn locate_not_found_without_probe() {
    let r = locate(&config(), None);
    assert!(matches!(r, Err(LocateError::NotFound)));
}

#[test]
fn locate_version_mismatch_reports_both_sides() {
    let text = "VERSION=4.5.9\nINCLUDE_DIRS=/i\nLIBRARY_DIR=/l\nMFEM_LIBRARIES=mfem\nCXX_FLAGS=\nMFEM_USE_DOUBLE=on";
    let r = locate(&config(), Some(text));
    let err = match r {
        Ok(_) => panic!("a version below the floor must be rejected"),
        Err(e) => e,
    };
    assert_eq!(
        err,
        LocateError::VersionMismatch {
            found: Version { major: 4, minor: 5, patch: 9 },
            required: VersionReq::at_least(4, 6),
        }
    );
}

#[test]
fn locate_version_one_minor_below_fails_even_with_patches() {
    let text = "VERSION=4.5.123\nINCLUDE_DIRS=/i\nLIBRARY_DIR=/l\nMFEM_LIBRARIES=mfem\nCXX_FLAGS=\nMFEM_USE_DOUBLE=on";
    assert!(locate(&config(), Some(text)).is_err());
}

#[test]
fn locate_missing_key_is_malformed() {
    // Each required key removed in turn: always MalformedMetadata.
    let without = [
        "INCLUDE_DIRS=/i\nLIBRARY_DIR=/l\nMFEM_LIBRARIES=mfem\nCXX_FLAGS=\nMFEM_USE_DOUBLE=on",
        "VERSION=4.6.0\nLIBRARY_DIR=/l\nMFEM_LIBRARIES=mfem\nCXX_FLAGS=\nMFEM_USE_DOUBLE=on",
        "VERSION=4.6.0\nINCLUDE_DIRS=/i\nMFEM_LIBRARIES=mfem\nCXX_FLAGS=\nMFEM_USE_DOUBLE=on",
        "VERSION=4.6.0\nINCLUDE_DIRS=/i\nLIBRARY_DIR=/l\nCXX_FLAGS=\nMFEM_USE_DOUBLE=on",
        "VERSION=4.6.0\nINCLUDE_DIRS=/i\nLIBRARY_DIR=/l\nMFEM_LIBRARIES=mfem\nMFEM_USE_DOUBLE=on",
        "VERSION=4.6.0\nINCLUDE_DIRS=/i\nLIBRARY_DIR=/l\nMFEM_LIBRARIES=mfem\nCXX_FLAGS=",
    ];
    for text in without {
        let r = locate(&config(), Some(text));
        assert!(matches!(r, Err(LocateError::MalformedMetadata)));
    }
}

#[test]
fn locate_unreadable_version_is_malformed() {
    let text = "VERSION=banana\nINCLUDE_DIRS=/i\nLIBRARY_DIR=/l\nMFEM_LIBRARIES=mfem\nCXX_FLAGS=\nMFEM_USE_DOUBLE=on";
    assert!(matches!(locate(&config(), Some(text)), Err(LocateError::MalformedMetadata)));
}

#[test]
fn locate_precision_mismatch_fails() {
    let text = "VERSION=4.6.0\nINCLUDE_DIRS=/i\nLIBRARY_DIR=/l\nMFEM_LIBRARIES=mfem\nCXX_FLAGS=\nMFEM_USE_DOUBLE=off";
    let r = locate(&config(), Some(text));
    let err = match r {
        Ok(_) => panic!("a precision mismatch must be rejected"),
        Err(e) => e,
    };
    assert_eq!(err, LocateError::AbiOptionMismatch { wanted_double: true, found_double: false });
    let mut single = config();
    single.precision = Precision::Single;
    assert!(locate(&single, Some(text)).is_ok());
}

#[test]
fn locate_is_idempotent() {
    let d1 = locate(&config(), Some(GOOD)).unwrap();
    let d2 = locate(&config(), Some(GOOD)).unwrap();
    assert_eq!(d1.version, d2.version);
    assert_eq!(d1.include_dirs, d2.include_dirs);
    assert_eq!(d1.library_dir, d2.library_dir);
    assert_eq!(d1.libraries, d2.libraries);
    assert_eq!(d1.cxx_flags, d2.cxx_flags);
    assert_eq!(d1.link_mode, d2.link_mode);
}

#[test]
fn locate_error_messages_name_remediation() {
    let msg = LocateError::NotFound.message(LocateMode::System);
    assert_eq!(
        msg,
        "pre-installed native library not found; point MFEM_DIR at an installation or switch to bundled mode"
    );
    let msg = LocateError::VersionMismatch {
        found: Version { major: 4, minor: 5, patch: 9 },
        required: VersionReq::at_least(4, 6),
    }
    .message(LocateMode::Bundled);
    assert_eq!(
        msg,
        "native library version 4.5.9 does not satisfy >=4.6; update the vendored tree"
    );
}

#[test]
fn env_hint_and_bundled_tree_names() {
    assert_eq!(mfem::mfem_path(), "mfem");
    assert_eq!(mfem::env_hint_var(), "MFEM_DIR");
}
