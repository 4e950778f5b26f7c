//! Semantic versions and the minimum-version requirement used when
//! negotiating compatibility with a pre-built native library.
#![allow(unused_imports)]
use vstd::prelude::*;

use crate::strings::{
    dec_str, dec_val, is_dec_digits, join_spec, lemma_dec_str_val, lemma_split_of_join,
    parse_u64, split_char, split_spec, to_dec_string,
};

verus! {

/// A parsed semantic version `MAJOR.MINOR.PATCH`.
#[derive(Clone, Copy, Debug, PartialEq, Eq, Structural)]
pub struct Version {
    pub major: u64,
    pub minor: u64,
    pub patch: u64,
}

/// Lexicographic order on (major, minor, patch).
pub open spec fn version_le(a: Version, b: Version) -> bool {
    if a.major != b.major {
        a.major < b.major
    } else if a.minor != b.minor {
        a.minor < b.minor
    } else {
        a.patch <= b.patch
    }
}

/// A version string this crate supports: exactly three dot-separated,
/// non-empty, all-digit components, each fitting in a `u64`.
pub open spec fn is_version_chars(s: Seq<char>) -> bool {
    let parts = split_spec(s, '.');
    &&& parts.len() == 3
    &&& is_dec_digits(parts[0]) && dec_val(parts[0]) <= u64::MAX
    &&& is_dec_digits(parts[1]) && dec_val(parts[1]) <= u64::MAX
    &&& is_dec_digits(parts[2]) && dec_val(parts[2]) <= u64::MAX
}

/// The version denoted by a supported version string.
pub open spec fn version_of(s: Seq<char>) -> Version {
    let parts = split_spec(s, '.');
    Version {
        major: dec_val(parts[0]) as u64,
        minor: dec_val(parts[1]) as u64,
        patch: dec_val(parts[2]) as u64,
    }
}

/// The canonical rendering `MAJOR.MINOR.PATCH` of a version.
pub open spec fn version_chars(v: Version) -> Seq<char> {
    join_spec(seq![dec_str(v.major as nat), dec_str(v.minor as nat), dec_str(v.patch as nat)], '.')
}

impl Version {
    /// Parses a version string.  Succeeds exactly on supported version
    /// strings and returns the version they denote.
    pub fn parse(s: &str) -> (r: Option<Version>)
        ensures
            match r {
                Some(v) => is_version_chars(s@) && v == version_of(s@),
                None => !is_version_chars(s@),
            },
    {
        let parts = split_char(s, '.');
        if parts.len() != 3 {
            return None;
        }
        proof {
            assert(parts.deep_view()[0] == parts@[0]@);
            assert(parts.deep_view()[1] == parts@[1]@);
            assert(parts.deep_view()[2] == parts@[2]@);
        }
        let major = match parse_u64(parts[0].as_str()) {
            Some(x) => x,
            None => {
                return None;
            },
        };
        let minor = match parse_u64(parts[1].as_str()) {
            Some(x) => x,
            None => {
                return None;
            },
        };
        let patch = match parse_u64(parts[2].as_str()) {
            Some(x) => x,
            None => {
                return None;
            },
        };
        Some(Version { major, minor, patch })
    }

    /// Renders the version as `MAJOR.MINOR.PATCH`.
    pub fn render(&self) -> (r: String)
        ensures
            r@ == version_chars(*self),
            is_version_chars(r@),
            version_of(r@) == *self,
    {
        let mut pieces: Vec<String> = Vec::new();
        pieces.push(to_dec_string(self.major));
        pieces.push(to_dec_string(self.minor));
        pieces.push(to_dec_string(self.patch));
        proof {
            reveal_strlit(".");
        }
        let r = crate::strings::join_char(&pieces, ".");
        proof {
            let dv = seq![
                dec_str(self.major as nat),
                dec_str(self.minor as nat),
                dec_str(self.patch as nat),
            ];
            assert(pieces.deep_view() =~= dv);
            lemma_version_chars_ok(*self);
        }
        r
    }

    /// Whether `self <= other` in lexicographic (major, minor, patch)
    /// order.
    pub fn le(&self, other: &Version) -> (r: bool)
        ensures
            r == version_le(*self, *other),
    {
        if self.major != other.major {
            self.major < other.major
        } else if self.minor != other.minor {
            self.minor < other.minor
        } else {
            self.patch <= other.patch
        }
    }
}

/// The canonical rendering of a version is a supported version string
/// denoting that version, and it never contains a line break.
pub proof fn lemma_version_chars_ok(v: Version)
    ensures
        is_version_chars(version_chars(v)),
        version_of(version_chars(v)) == v,
        !version_chars(v).contains('\n'),
{
    let dv = seq![dec_str(v.major as nat), dec_str(v.minor as nat), dec_str(v.patch as nat)];
    lemma_dec_str_val(v.major as nat);
    lemma_dec_str_val(v.minor as nat);
    lemma_dec_str_val(v.patch as nat);
    assert forall|i: int| 0 <= i < dv.len() implies !(#[trigger] dv[i]).contains('.') by {
        assert forall|j: int| 0 <= j < dv[i].len() implies dv[i][j] != '.' by {
            assert(crate::strings::is_digit(dv[i][j]));
        }
    }
    lemma_split_of_join(dv, '.');
    assert forall|i: int| 0 <= i < dv.len() implies !(#[trigger] dv[i]).contains('\n') by {
        assert forall|j: int| 0 <= j < dv[i].len() implies dv[i][j] != '\n' by {
            assert(crate::strings::is_digit(dv[i][j]));
        }
    }
    crate::strings::lemma_join_free(dv, '.', '\n');
}

/// A minimum-version requirement: a found version is compatible exactly
/// when it is at least `MAJOR.MINOR.0` in lexicographic order.
#[derive(Clone, Copy, Debug, PartialEq, Eq, Structural)]
pub struct VersionReq {
    pub min_major: u64,
    pub min_minor: u64,
}

/// The least version a requirement accepts.
pub open spec fn req_floor(r: VersionReq) -> Version {
    Version { major: r.min_major, minor: r.min_minor, patch: 0 }
}

/// What it means for a version to satisfy a requirement.
pub open spec fn req_matches(r: VersionReq, v: Version) -> bool {
    version_le(req_floor(r), v)
}

impl VersionReq {
    /// The requirement `>= major.minor`.
    pub fn at_least(major: u64, minor: u64) -> (r: VersionReq)
        ensures
            r.min_major == major,
            r.min_minor == minor,
    {
        VersionReq { min_major: major, min_minor: minor }
    }

    /// Whether `v` satisfies this requirement.
    pub fn matches(&self, v: &Version) -> (r: bool)
        ensures
            r == req_matches(*self, *v),
    {
        let floor = Version { major: self.min_major, minor: self.min_minor, patch: 0 };
        floor.le(v)
    }
}

/// The printed form of a requirement: `>=MAJOR.MINOR`.
pub open spec fn req_chars(r: VersionReq) -> Seq<char> {
    ">="@ + dec_str(r.min_major as nat) + "."@ + dec_str(r.min_minor as nat)
}

impl VersionReq {
    /// Renders the requirement as `>=MAJOR.MINOR`.
    pub fn render(&self) -> (r: String)
        ensures
            r@ == req_chars(*self),
    {
        let mut r = String::from_str(">=");
        let major_txt = to_dec_string(self.min_major);
        r.append(major_txt.as_str());
        r.append(".");
        let minor_txt = to_dec_string(self.min_minor);
        r.append(minor_txt.as_str());
        proof {
            reveal_strlit(".");
            assert(r@ =~= req_chars(*self));
        }
        r
    }
}

/// The boundary behaviour of requirement matching: the floor version
/// itself always satisfies the requirement, and any version whose
/// major/minor pair falls below it never does, however large its patch
/// level.
pub proof fn lemma_req_boundary(r: VersionReq, v: Version)
    ensures
        req_matches(r, req_floor(r)),
        (v.major, v.minor) == (r.min_major, r.min_minor) ==> req_matches(r, v),
        v.major == r.min_major && v.minor < r.min_minor ==> !req_matches(r, v),
        v.major < r.min_major ==> !req_matches(r, v),
{
}

} // verus!
