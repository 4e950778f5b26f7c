//! The native library's structured metadata file: line-oriented
//! `KEY=VALUE` text describing the installed tree.
//!
//! Recognized keys: `VERSION`, `INCLUDE_DIRS` and `MFEM_LIBRARIES`
//! (semicolon-delimited lists), `LIBRARY_DIR`, `CXX_FLAGS`
//! (space-delimited list), and the ABI-relevant boolean option
//! `MFEM_USE_DOUBLE`.  All six keys are required; a file missing any of
//! them is malformed.  Lines without `=` and lines with unrecognized
//! keys are ignored; when a key occurs twice the last occurrence wins.
//! The delimiter convention for list values is fixed here once: an empty
//! value denotes the empty list, anything else is split at every
//! delimiter occurrence.
#![allow(unused_imports)]
use vstd::prelude::*;

use crate::strings::{join_char, join_spec, split_char, split_spec, str_eq};
use crate::version::{is_version_chars, version_of, Version};

verus! {

/// The pieces of a `KEY=VALUE` line, split at every `=`.
pub open spec fn line_parts(line: Seq<char>) -> Seq<Seq<char>> {
    split_spec(line, '=')
}

/// Whether the line carries a key/value pair at all.
pub open spec fn line_has_kv(line: Seq<char>) -> bool {
    line_parts(line).len() >= 2
}

/// The text before the first `=`.
pub open spec fn line_key(line: Seq<char>) -> Seq<char> {
    line_parts(line)[0]
}

/// The text after the first `=` (later `=` characters belong to the
/// value).
pub open spec fn line_value(line: Seq<char>) -> Seq<char> {
    join_spec(line_parts(line).subrange(1, line_parts(line).len() as int), '=')
}

/// The raw text recorded for each recognized key, if any line set it.
pub struct FieldSet {
    pub version: Option<Seq<char>>,
    pub include_dirs: Option<Seq<char>>,
    pub library_dir: Option<Seq<char>>,
    pub libraries: Option<Seq<char>>,
    pub cxx_flags: Option<Seq<char>>,
    pub use_double: Option<Seq<char>>,
}

/// One line applied to the running field set: a recognized key
/// overwrites its field, anything else is ignored.
pub open spec fn scan_upd(f: FieldSet, line: Seq<char>) -> FieldSet {
    if !line_has_kv(line) {
        f
    } else if line_key(line) == "VERSION"@ {
        FieldSet { version: Some(line_value(line)), ..f }
    } else if line_key(line) == "INCLUDE_DIRS"@ {
        FieldSet { include_dirs: Some(line_value(line)), ..f }
    } else if line_key(line) == "LIBRARY_DIR"@ {
        FieldSet { library_dir: Some(line_value(line)), ..f }
    } else if line_key(line) == "MFEM_LIBRARIES"@ {
        FieldSet { libraries: Some(line_value(line)), ..f }
    } else if line_key(line) == "CXX_FLAGS"@ {
        FieldSet { cxx_flags: Some(line_value(line)), ..f }
    } else if line_key(line) == "MFEM_USE_DOUBLE"@ {
        FieldSet { use_double: Some(line_value(line)), ..f }
    } else {
        f
    }
}

/// All lines scanned in order, later lines overriding earlier ones.
pub open spec fn scan_lines(lines: Seq<Seq<char>>) -> FieldSet
    decreases lines.len(),
{
    if lines.len() == 0 {
        FieldSet {
            version: None,
            include_dirs: None,
            library_dir: None,
            libraries: None,
            cxx_flags: None,
            use_double: None,
        }
    } else {
        scan_upd(scan_lines(lines.drop_last()), lines.last())
    }
}

/// Every required key was present.
pub open spec fn fields_complete(f: FieldSet) -> bool {
    &&& f.version is Some
    &&& f.include_dirs is Some
    &&& f.library_dir is Some
    &&& f.libraries is Some
    &&& f.cxx_flags is Some
    &&& f.use_double is Some
}

/// A delimiter-separated list value: empty text is the empty list.
pub open spec fn list_of(value: Seq<char>, sep: char) -> Seq<Seq<char>> {
    if value.len() == 0 {
        Seq::<Seq<char>>::empty()
    } else {
        split_spec(value, sep)
    }
}

/// Case-insensitive `on`, the truthy spelling of a boolean option.
pub open spec fn is_on_chars(s: Seq<char>) -> bool {
    s.len() == 2 && (s[0] == 'o' || s[0] == 'O') && (s[1] == 'n' || s[1] == 'N')
}

/// A well-formed metadata file: every required key present and the
/// version text a supported version string.
pub open spec fn metadata_ok(lines: Seq<Seq<char>>) -> bool {
    &&& fields_complete(scan_lines(lines))
    &&& is_version_chars(scan_lines(lines).version.unwrap())
}

/// The mathematical content of a well-formed metadata file.
pub struct MetaModel {
    pub version: Version,
    pub include_dirs: Seq<Seq<char>>,
    pub library_dir: Seq<char>,
    pub libraries: Seq<Seq<char>>,
    pub cxx_flags: Seq<Seq<char>>,
    pub use_double: bool,
}

/// The model denoted by a well-formed metadata file.
pub open spec fn metadata_model(lines: Seq<Seq<char>>) -> MetaModel {
    let f = scan_lines(lines);
    MetaModel {
        version: version_of(f.version.unwrap()),
        include_dirs: list_of(f.include_dirs.unwrap(), ';'),
        library_dir: f.library_dir.unwrap(),
        libraries: list_of(f.libraries.unwrap(), ';'),
        cxx_flags: list_of(f.cxx_flags.unwrap(), ' '),
        use_double: is_on_chars(f.use_double.unwrap()),
    }
}

/// A parsed metadata file.
pub struct Metadata {
    pub version: Version,
    pub include_dirs: Vec<String>,
    pub library_dir: String,
    pub libraries: Vec<String>,
    pub cxx_flags: Vec<String>,
    pub use_double: bool,
}

impl View for Metadata {
    type V = MetaModel;

    open spec fn view(&self) -> MetaModel {
        MetaModel {
            version: self.version,
            include_dirs: self.include_dirs.deep_view(),
            library_dir: self.library_dir@,
            libraries: self.libraries.deep_view(),
            cxx_flags: self.cxx_flags.deep_view(),
            use_double: self.use_double,
        }
    }
}

/// Splits one line into its key and its value, if it has any.
fn split_line(line: &str) -> (r: Option<(String, String)>)
    ensures
        match r {
            Some((k, v)) => line_has_kv(line@) && k@ == line_key(line@) && v@ == line_value(
                line@,
            ),
            None => !line_has_kv(line@),
        },
{
    let parts = split_char(line, '=');
    if parts.len() < 2 {
        return None;
    }
    let key = parts[0].clone();
    let mut tail: Vec<String> = Vec::new();
    let mut i: usize = 1;
    proof {
        assert(tail.deep_view() =~= parts.deep_view().subrange(1, 1));
    }
    while i < parts.len()
        invariant
            1 <= i <= parts.len(),
            parts.len() >= 2,
            tail.deep_view() == parts.deep_view().subrange(1, i as int),
        decreases parts.len() - i,
    {
        let ghost old_dv = tail.deep_view();
        tail.push(parts[i].clone());
        proof {
            assert(tail.deep_view() =~= old_dv.push(parts.deep_view()[i as int]));
            assert(tail.deep_view() =~= parts.deep_view().subrange(1, i + 1));
        }
        i += 1;
    }
    proof {
        reveal_strlit("=");
    }
    let value = join_char(&tail, "=");
    proof {
        assert(tail.deep_view() =~= parts.deep_view().subrange(
            1,
            parts.deep_view().len() as int,
        ));
        assert(key@ == line_key(line@));
    }
    Some((key, value))
}

/// Splits a list value at the delimiter; empty text is the empty list.
fn split_list(value: &str, sep: char) -> (r: Vec<String>)
    ensures
        r.deep_view() == list_of(value@, sep),
{
    if value.unicode_len() == 0 {
        let r: Vec<String> = Vec::new();
        proof {
            assert(r.deep_view() =~= Seq::<Seq<char>>::empty());
        }
        r
    } else {
        split_char(value, sep)
    }
}

/// Case-insensitive test for the spelling `on`.
fn is_on(value: &str) -> (r: bool)
    ensures
        r == is_on_chars(value@),
{
    if value.unicode_len() != 2 {
        return false;
    }
    let c0 = value.get_char(0);
    let c1 = value.get_char(1);
    (c0 == 'o' || c0 == 'O') && (c1 == 'n' || c1 == 'N')
}

/// Parses the whole metadata text (lines separated by `\n`).  Returns
/// `Some` exactly when the file is well formed, and then the returned
/// metadata is the file's model.
pub fn parse_metadata(text: &str) -> (r: Option<Metadata>)
    ensures
        match r {
            Some(m) => metadata_ok(split_spec(text@, '\n')) && m@ == metadata_model(
                split_spec(text@, '\n'),
            ),
            None => !metadata_ok(split_spec(text@, '\n')),
        },
{
    let lines = split_char(text, '\n');
    let ghost lines_v = split_spec(text@, '\n');
    let mut version_txt: Option<String> = None;
    let mut include_txt: Option<String> = None;
    let mut libdir_txt: Option<String> = None;
    let mut libs_txt: Option<String> = None;
    let mut flags_txt: Option<String> = None;
    let mut double_txt: Option<String> = None;
    let mut i: usize = 0;
    proof {
        assert(lines_v.take(0) =~= Seq::<Seq<char>>::empty());
    }
    while i < lines.len()
        invariant
            lines.deep_view() == lines_v,
            0 <= i <= lines.len(),
            opt_view(version_txt) == scan_lines(lines_v.take(i as int)).version,
            opt_view(include_txt) == scan_lines(lines_v.take(i as int)).include_dirs,
            opt_view(libdir_txt) == scan_lines(lines_v.take(i as int)).library_dir,
            opt_view(libs_txt) == scan_lines(lines_v.take(i as int)).libraries,
            opt_view(flags_txt) == scan_lines(lines_v.take(i as int)).cxx_flags,
            opt_view(double_txt) == scan_lines(lines_v.take(i as int)).use_double,
        decreases lines.len() - i,
    {
        proof {
            assert(lines_v.take(i + 1).drop_last() =~= lines_v.take(i as int));
            assert(lines_v.take(i + 1).last() == lines_v[i as int]);
            assert(lines.deep_view()[i as int] == lines@[i as int]@);
        }
        match split_line(lines[i].as_str()) {
            None => {},
            Some((key, value)) => {
                if str_eq(key.as_str(), "VERSION") {
                    version_txt = Some(value);
                } else if str_eq(key.as_str(), "INCLUDE_DIRS") {
                    include_txt = Some(value);
                } else if str_eq(key.as_str(), "LIBRARY_DIR") {
                    libdir_txt = Some(value);
                } else if str_eq(key.as_str(), "MFEM_LIBRARIES") {
                    libs_txt = Some(value);
                } else if str_eq(key.as_str(), "CXX_FLAGS") {
                    flags_txt = Some(value);
                } else if str_eq(key.as_str(), "MFEM_USE_DOUBLE") {
                    double_txt = Some(value);
                }
            },
        }
        i += 1;
    }
    proof {
        assert(lines_v.take(lines.len() as int) =~= lines_v);
    }
    let version_s = match version_txt {
        Some(s) => s,
        None => {
            return None;
        },
    };
    let include_s = match include_txt {
        Some(s) => s,
        None => {
            return None;
        },
    };
    let libdir_s = match libdir_txt {
        Some(s) => s,
        None => {
            return None;
        },
    };
    let libs_s = match libs_txt {
        Some(s) => s,
        None => {
            return None;
        },
    };
    let flags_s = match flags_txt {
        Some(s) => s,
        None => {
            return None;
        },
    };
    let double_s = match double_txt {
        Some(s) => s,
        None => {
            return None;
        },
    };
    let version = match Version::parse(version_s.as_str()) {
        Some(v) => v,
        None => {
            return None;
        },
    };
    Some(
        Metadata {
            version,
            include_dirs: split_list(include_s.as_str(), ';'),
            library_dir: libdir_s,
            libraries: split_list(libs_s.as_str(), ';'),
            cxx_flags: split_list(flags_s.as_str(), ' '),
            use_double: is_on(double_s.as_str()),
        },
    )
}

/// The view of an optional owned string.
pub open spec fn opt_view(o: Option<String>) -> Option<Seq<char>> {
    match o {
        Some(s) => Some(s@),
        None => None,
    }
}

/// The truthy or falsy spelling written for a boolean option.
pub open spec fn bool_chars(b: bool) -> Seq<char> {
    if b {
        "on"@
    } else {
        "off"@
    }
}

/// The lines a metadata model is written as, in a fixed order.
pub open spec fn render_lines(m: MetaModel) -> Seq<Seq<char>> {
    seq![
        "VERSION="@ + crate::version::version_chars(m.version),
        "INCLUDE_DIRS="@ + join_spec(m.include_dirs, ';'),
        "LIBRARY_DIR="@ + m.library_dir,
        "MFEM_LIBRARIES="@ + join_spec(m.libraries, ';'),
        "CXX_FLAGS="@ + join_spec(m.cxx_flags, ' '),
        "MFEM_USE_DOUBLE="@ + bool_chars(m.use_double),
    ]
}

/// The rendered metadata text: the lines joined with `\n`.
pub open spec fn render_spec(m: MetaModel) -> Seq<char> {
    join_spec(render_lines(m), '\n')
}

/// A list value that survives the delimiter convention: no empty
/// entries, and entries free of the delimiter and of line breaks.
pub open spec fn list_renderable(pieces: Seq<Seq<char>>, sep: char) -> bool {
    forall|i: int|
        0 <= i < pieces.len() ==> (#[trigger] pieces[i]).len() >= 1 && !pieces[i].contains(sep)
            && !pieces[i].contains('\n')
}

/// A metadata model whose rendering parses back to itself.
pub open spec fn renderable(m: MetaModel) -> bool {
    &&& list_renderable(m.include_dirs, ';')
    &&& list_renderable(m.libraries, ';')
    &&& list_renderable(m.cxx_flags, ' ')
    &&& !m.library_dir.contains('\n')
}

/// Writes the metadata out as `KEY=VALUE` lines, per [`render_spec`].
pub fn render_metadata(m: &Metadata) -> (r: String)
    ensures
        r@ == render_spec(m@),
{
    proof {
        reveal_strlit(";");
        reveal_strlit(" ");
        reveal_strlit("\n");
        reveal_strlit("on");
        reveal_strlit("off");
    }
    let mut lines: Vec<String> = Vec::new();

    let mut l0 = String::from_str("VERSION=");
    let v = m.version.render();
    l0.append(v.as_str());
    lines.push(l0);

    let mut l1 = String::from_str("INCLUDE_DIRS=");
    let dirs = join_char(&m.include_dirs, ";");
    l1.append(dirs.as_str());
    lines.push(l1);

    let mut l2 = String::from_str("LIBRARY_DIR=");
    l2.append(m.library_dir.as_str());
    lines.push(l2);

    let mut l3 = String::from_str("MFEM_LIBRARIES=");
    let libs = join_char(&m.libraries, ";");
    l3.append(libs.as_str());
    lines.push(l3);

    let mut l4 = String::from_str("CXX_FLAGS=");
    let flags = join_char(&m.cxx_flags, " ");
    l4.append(flags.as_str());
    lines.push(l4);

    let mut l5 = String::from_str("MFEM_USE_DOUBLE=");
    if m.use_double {
        l5.append("on");
    } else {
        l5.append("off");
    }
    lines.push(l5);

    let r = join_char(&lines, "\n");
    proof {
        assert(lines.deep_view() =~= render_lines(m@));
    }
    r
}

/// How a produced line decomposes: a delimiter-free key before the
/// first `=`, the whole remainder as the value.
proof fn lemma_line_decompose(key: Seq<char>, value: Seq<char>)
    requires
        !key.contains('='),
    ensures
        line_has_kv(key + seq!['='] + value),
        line_key(key + seq!['='] + value) == key,
        line_value(key + seq!['='] + value) == value,
{
    let line = key + seq!['='] + value;
    crate::strings::lemma_split_prefix_free(key, value, '=');
    crate::strings::lemma_split_len(value, '=');
    let parts = seq![key] + split_spec(value, '=');
    assert(line_parts(line) == parts);
    assert(parts[0] == key);
    assert(parts.subrange(1, parts.len() as int) =~= split_spec(value, '='));
    crate::strings::lemma_join_of_split(value, '=');
}

/// Facts about the six key spellings: how each rendered line splits,
/// and that the keys are pairwise distinct.
proof fn lemma_key_facts()
    ensures
        "VERSION="@ == "VERSION"@ + seq!['='],
        "INCLUDE_DIRS="@ == "INCLUDE_DIRS"@ + seq!['='],
        "LIBRARY_DIR="@ == "LIBRARY_DIR"@ + seq!['='],
        "MFEM_LIBRARIES="@ == "MFEM_LIBRARIES"@ + seq!['='],
        "CXX_FLAGS="@ == "CXX_FLAGS"@ + seq!['='],
        "MFEM_USE_DOUBLE="@ == "MFEM_USE_DOUBLE"@ + seq!['='],
        !"VERSION"@.contains('=') && !"VERSION="@.contains('\n'),
        !"INCLUDE_DIRS"@.contains('=') && !"INCLUDE_DIRS="@.contains('\n'),
        !"LIBRARY_DIR"@.contains('=') && !"LIBRARY_DIR="@.contains('\n'),
        !"MFEM_LIBRARIES"@.contains('=') && !"MFEM_LIBRARIES="@.contains('\n'),
        !"CXX_FLAGS"@.contains('=') && !"CXX_FLAGS="@.contains('\n'),
        !"MFEM_USE_DOUBLE"@.contains('=') && !"MFEM_USE_DOUBLE="@.contains('\n'),
        "VERSION"@.len() == 7,
        "INCLUDE_DIRS"@.len() == 12,
        "LIBRARY_DIR"@.len() == 11,
        "MFEM_LIBRARIES"@.len() == 14,
        "CXX_FLAGS"@.len() == 9,
        "MFEM_USE_DOUBLE"@.len() == 15,
{
    reveal_strlit("VERSION");
    reveal_strlit("VERSION=");
    reveal_strlit("INCLUDE_DIRS");
    reveal_strlit("INCLUDE_DIRS=");
    reveal_strlit("LIBRARY_DIR");
    reveal_strlit("LIBRARY_DIR=");
    reveal_strlit("MFEM_LIBRARIES");
    reveal_strlit("MFEM_LIBRARIES=");
    reveal_strlit("CXX_FLAGS");
    reveal_strlit("CXX_FLAGS=");
    reveal_strlit("MFEM_USE_DOUBLE");
    reveal_strlit("MFEM_USE_DOUBLE=");
    assert("VERSION="@ =~= "VERSION"@ + seq!['=']);
    assert("INCLUDE_DIRS="@ =~= "INCLUDE_DIRS"@ + seq!['=']);
    assert("LIBRARY_DIR="@ =~= "LIBRARY_DIR"@ + seq!['=']);
    assert("MFEM_LIBRARIES="@ =~= "MFEM_LIBRARIES"@ + seq!['=']);
    assert("CXX_FLAGS="@ =~= "CXX_FLAGS"@ + seq!['=']);
    assert("MFEM_USE_DOUBLE="@ =~= "MFEM_USE_DOUBLE"@ + seq!['=']);
}

/// Round trip: writing a renderable metadata model and parsing the text
/// back yields a well-formed file denoting exactly the original model —
/// in particular every include directory comes back, in its original
/// order.
pub proof fn lemma_metadata_round_trip(m: MetaModel)
    requires
        renderable(m),
    ensures
        metadata_ok(split_spec(render_spec(m), '\n')),
        metadata_model(split_spec(render_spec(m), '\n')) == m,
{
    reveal_strlit("on");
    reveal_strlit("off");
    lemma_key_facts();
    crate::version::lemma_version_chars_ok(m.version);
    let ls = render_lines(m);
    let vver = crate::version::version_chars(m.version);
    let vinc = join_spec(m.include_dirs, ';');
    let vlib = join_spec(m.libraries, ';');
    let vflg = join_spec(m.cxx_flags, ' ');
    let vdbl = bool_chars(m.use_double);

    crate::strings::lemma_join_free(m.include_dirs, ';', '\n');
    crate::strings::lemma_join_free(m.libraries, ';', '\n');
    crate::strings::lemma_join_free(m.cxx_flags, ' ', '\n');
    assert(!vdbl.contains('\n')) by {
        assert forall|k: int| 0 <= k < vdbl.len() implies vdbl[k] != '\n' by {}
    }

    lemma_concat_free("VERSION="@, vver, '\n');
    lemma_concat_free("INCLUDE_DIRS="@, vinc, '\n');
    lemma_concat_free("LIBRARY_DIR="@, m.library_dir, '\n');
    lemma_concat_free("MFEM_LIBRARIES="@, vlib, '\n');
    lemma_concat_free("CXX_FLAGS="@, vflg, '\n');
    lemma_concat_free("MFEM_USE_DOUBLE="@, vdbl, '\n');
    assert forall|i: int| 0 <= i < ls.len() implies !(#[trigger] ls[i]).contains('\n') by {}
    crate::strings::lemma_split_of_join(ls, '\n');

    assert(ls[0] =~= "VERSION"@ + seq!['='] + vver);
    assert(ls[1] =~= "INCLUDE_DIRS"@ + seq!['='] + vinc);
    assert(ls[2] =~= "LIBRARY_DIR"@ + seq!['='] + m.library_dir);
    assert(ls[3] =~= "MFEM_LIBRARIES"@ + seq!['='] + vlib);
    assert(ls[4] =~= "CXX_FLAGS"@ + seq!['='] + vflg);
    assert(ls[5] =~= "MFEM_USE_DOUBLE"@ + seq!['='] + vdbl);
    lemma_line_decompose("VERSION"@, vver);
    lemma_line_decompose("INCLUDE_DIRS"@, vinc);
    lemma_line_decompose("LIBRARY_DIR"@, m.library_dir);
    lemma_line_decompose("MFEM_LIBRARIES"@, vlib);
    lemma_line_decompose("CXX_FLAGS"@, vflg);
    lemma_line_decompose("MFEM_USE_DOUBLE"@, vdbl);

    assert(ls.drop_last() =~= ls.take(5));
    assert(ls.take(5).drop_last() =~= ls.take(4));
    assert(ls.take(4).drop_last() =~= ls.take(3));
    assert(ls.take(3).drop_last() =~= ls.take(2));
    assert(ls.take(2).drop_last() =~= ls.take(1));
    assert(ls.take(1).drop_last() =~= ls.take(0));
    assert(ls.take(0) =~= Seq::<Seq<char>>::empty());
    assert(ls.take(1).last() == ls[0]);
    assert(ls.take(2).last() == ls[1]);
    assert(ls.take(3).last() == ls[2]);
    assert(ls.take(4).last() == ls[3]);
    assert(ls.take(5).last() == ls[4]);

    let f0 = scan_lines(ls.take(0));
    let f1 = scan_lines(ls.take(1));
    let f2 = scan_lines(ls.take(2));
    let f3 = scan_lines(ls.take(3));
    let f4 = scan_lines(ls.take(4));
    let f5 = scan_lines(ls.take(5));
    assert(f1 == scan_upd(f0, ls[0]));
    assert(f2 == scan_upd(f1, ls[1]));
    assert(f3 == scan_upd(f2, ls[2]));
    assert(f4 == scan_upd(f3, ls[3]));
    assert(f5 == scan_upd(f4, ls[4]));
    assert(scan_lines(ls) == scan_upd(f5, ls[5]));
    let f = scan_lines(ls);
    assert(f.version == Some(vver));
    assert(f.include_dirs == Some(vinc));
    assert(f.library_dir == Some(m.library_dir));
    assert(f.libraries == Some(vlib));
    assert(f.cxx_flags == Some(vflg));
    assert(f.use_double == Some(vdbl));

    lemma_list_round_trip(m.include_dirs, ';');
    lemma_list_round_trip(m.libraries, ';');
    lemma_list_round_trip(m.cxx_flags, ' ');

    if m.use_double {
        assert(is_on_chars(vdbl));
    } else {
        assert(!is_on_chars(vdbl));
    }
    assert(metadata_model(ls) == m);
}

/// Concatenating two `c`-free texts gives a `c`-free text.
proof fn lemma_concat_free(a: Seq<char>, b: Seq<char>, c: char)
    requires
        !a.contains(c),
        !b.contains(c),
    ensures
        !(a + b).contains(c),
{
    assert forall|k: int| 0 <= k < (a + b).len() implies (a + b)[k] != c by {
        if k < a.len() {
            assert((a + b)[k] == a[k]);
            assert(a.contains(c) <== a[k] == c);
        } else {
            assert((a + b)[k] == b[k - a.len()]);
            assert(b.contains(c) <== b[k - a.len()] == c);
        }
    }
}

/// A renderable list written with its delimiter and read back is
/// unchanged, whatever its length.
proof fn lemma_list_round_trip(pieces: Seq<Seq<char>>, sep: char)
    requires
        list_renderable(pieces, sep),
    ensures
        list_of(join_spec(pieces, sep), sep) == pieces,
{
    if pieces.len() == 0 {
        assert(list_of(join_spec(pieces, sep), sep) =~= pieces);
    } else {
        assert(pieces[0].len() >= 1);
        crate::strings::lemma_join_nonempty(pieces, sep);
        assert forall|i: int| 0 <= i < pieces.len() implies !(#[trigger] pieces[i]).contains(
            sep,
        ) by {}
        crate::strings::lemma_split_of_join(pieces, sep);
    }
}

} // verus!
