use mfem::metadata::{parse_metadata, render_metadata, Metadata};
use mfem::strings::{parse_u64, split_char, to_dec_string};
use mfem::version::Version;

fn meta(include_dirs: Vec<&str>) -> Metadata {
    Metadata {
        version: Version { major: 4, minor: 6, patch: 0 },
        include_dirs: include_dirs.into_iter().map(String::from).collect(),
        library_dir: String::from("/opt/mfem/lib"),
        libraries: vec![String::from("mfem")],
        cxx_flags: vec![String::from("-fPIC")],
        use_double: true,
    }
}

fn assert_round_trips(m: &Metadata) {
    let text = render_metadata(m);
    let back = parse_metadata(&text).expect("rendered metadata must parse");
    assert_eq!(back.version, m.version);
    assert_eq!(back.include_dirs, m.include_dirs);
    assert_eq!(back.library_dir, m.library_dir);
    assert_eq!(back.libraries, m.libraries);
    assert_eq!(back.cxx_flags, m.cxx_flags);
    assert_eq!(back.use_double, m.use_double);
}

#[test]
fn round_trip_zero_include_dirs() {
    assert_round_trips(&meta(vec![]));
}

#[test]
fn round_trip_one_include_dir() {
    assert_round_trips(&meta(vec!["/opt/mfem/include"]));
}

#[test]
fn round_trip_many_include_dirs_in_order() {
    let dirs = vec!["/a", "/b/c", "/d/e/f", "/g"];
    let m = meta(dirs.clone());
    let text = render_metadata(&m);
    let back = parse_metadata(&text).unwrap();
    assert_eq!(back.include_dirs, dirs);
}

#[test]
fn round_trip_delimiter_adjacent_characters() {
    // Spaces and '=' inside a semicolon-delimited path must not be
    // mis-split; the list delimiter alone separates entries.
    assert_round_trips(&meta(vec!["/opt/my lib/include", "/opt/x=y/include", "/plain"]));
}

#[test]
fn round_trip_precision_flag() {
    let mut m = meta(vec!["/i"]);
    m.use_double = false;
    assert_round_trips(&m);
}

#[test]
fn parse_last_occurrence_wins() {
    let text = "VERSION=1.0.0\nVERSION=4.6.0\nINCLUDE_DIRS=/i\nLIBRARY_DIR=/l\nMFEM_LIBRARIES=mfem\nCXX_FLAGS=\nMFEM_USE_DOUBLE=on";
    let m = parse_metadata(text).unwrap();
    assert_eq!(m.version, Version { major: 4, minor: 6, patch: 0 });
}

#[test]
fn parse_ignores_unrecognized_keys_and_bare_lines() {
    let text = "note this line has no separator\nOTHER_KEY=whatever\nVERSION=4.6.0\nINCLUDE_DIRS=/i\nLIBRARY_DIR=/l\nMFEM_LIBRARIES=mfem\nCXX_FLAGS=\nMFEM_USE_DOUBLE=on\n";
    let m = parse_metadata(text).unwrap();
    assert_eq!(m.version, Version { major: 4, minor: 6, patch: 0 });
    assert_eq!(m.include_dirs, vec!["/i"]);
}

#[test]
fn parse_empty_lists_are_empty() {
    let text = "VERSION=4.6.0\nINCLUDE_DIRS=\nLIBRARY_DIR=/l\nMFEM_LIBRARIES=\nCXX_FLAGS=\nMFEM_USE_DOUBLE=on";
    let m = parse_metadata(text).unwrap();
    assert_eq!(m.include_dirs, Vec::<String>::new());
    assert_eq!(m.libraries, Vec::<String>::new());
    assert_eq!(m.cxx_flags, Vec::<String>::new());
}

#[test]
fn parse_boolean_spelling_is_case_insensitive() {
    for spelling in ["on", "ON", "On", "oN"] {
        let text = format!(
            "VERSION=4.6.0\nINCLUDE_DIRS=/i\nLIBRARY_DIR=/l\nMFEM_LIBRARIES=mfem\nCXX_FLAGS=\nMFEM_USE_DOUBLE={}",
            spelling
        );
        assert!(parse_metadata(&text).unwrap().use_double);
    }
    for spelling in ["off", "OFF", "0", "", "yes"] {
        let text = format!(
            "VERSION=4.6.0\nINCLUDE_DIRS=/i\nLIBRARY_DIR=/l\nMFEM_LIBRARIES=mfem\nCXX_FLAGS=\nMFEM_USE_DOUBLE={}",
            spelling
        );
        assert!(!parse_metadata(&text).unwrap().use_double);
    }
}

#[test]
fn split_keeps_empty_pieces() {
    let pieces = split_char("a;;b;", ';');
    assert_eq!(pieces, vec!["a", "", "b", ""]);
    let pieces = split_char("", ';');
    assert_eq!(pieces, vec![""]);
}

#[test]
fn parse_u64_values_and_limits() {
    assert_eq!(parse_u64("0"), Some(0));
    assert_eq!(parse_u64("007"), Some(7));
    assert_eq!(parse_u64("18446744073709551615"), Some(u64::MAX));
    assert_eq!(parse_u64("18446744073709551616"), None);
    assert_eq!(parse_u64(""), None);
    assert_eq!(parse_u64("12a"), None);
    assert_eq!(parse_u64("-1"), None);
}

#[test]
fn decimal_rendering_is_canonical() {
    assert_eq!(to_dec_string(0), "0");
    assert_eq!(to_dec_string(10), "10");
    assert_eq!(to_dec_string(4060), "4060");
    assert_eq!(to_dec_string(u64::MAX), "18446744073709551615");
}
