//! Semantic versions: `major.minor.patch`, optionally followed by
//! `-<pre-release>` and `+<build metadata>`.
//!
//! A registry entry carries its version in this form; selection is by exact
//! match, so the model keeps the numeric triple as plain integers and the
//! two metadata tails as character sequences.

use vstd::prelude::*;
use vstd::string::StrSliceExecFns;
use vstd::string::StringExecFns;

use crate::strutil::find_char;
use crate::strutil::parse_u64;
use crate::strutil::seq_to_int;
use crate::strutil::spec_dec_digits;
use crate::strutil::spec_idx_of;
use crate::strutil::spec_is_canon_num;
use crate::strutil::spec_is_num;
use crate::strutil::u64_to_string;

verus! {

/// A semantic version. `pre` and `build` are empty when the corresponding
/// part is absent.
#[derive(Clone, Debug, PartialEq, Eq)]
pub struct Version {
    pub major: u64,
    pub minor: u64,
    pub patch: u64,
    pub pre: String,
    pub build: String,
}

/// Mathematical model of a [`Version`].
pub struct VersionView {
    pub major: int,
    pub minor: int,
    pub patch: int,
    pub pre: Seq<char>,
    pub build: Seq<char>,
}

impl View for Version {
    type V = VersionView;

    open spec fn view(&self) -> VersionView {
        VersionView {
            major: self.major as int,
            minor: self.minor as int,
            patch: self.patch as int,
            pre: self.pre@,
            build: self.build@,
        }
    }
}

/// The numeric triple denoted by `major.minor.patch`, when `core` has that
/// shape: two dots, three canonical numbers, each fitting in a `u64`.
pub open spec fn spec_core_of(core: Seq<char>) -> Option<(int, int, int)> {
    let d1 = spec_idx_of(core, '.');
    if d1 < 0 {
        None
    } else {
        let a = core.take(d1);
        let rest = core.skip(d1 + 1);
        let d2 = spec_idx_of(rest, '.');
        if d2 < 0 {
            None
        } else {
            let b = rest.take(d2);
            let c = rest.skip(d2 + 1);
            if spec_is_canon_num(a) && seq_to_int(a) <= u64::MAX && spec_is_canon_num(b)
                && seq_to_int(b) <= u64::MAX && spec_is_canon_num(c) && seq_to_int(c)
                <= u64::MAX {
                Some((seq_to_int(a), seq_to_int(b), seq_to_int(c)))
            } else {
                None
            }
        }
    }
}

/// The version denoted by `s`: build metadata starts at the first `+`,
/// a pre-release tail at the first `-` before that, and the remainder must
/// be a numeric `major.minor.patch` core. A present but empty tail is
/// rejected.
pub open spec fn spec_version_of(s: Seq<char>) -> Option<VersionView> {
    let bi = spec_idx_of(s, '+');
    let head = if bi < 0 { s } else { s.take(bi) };
    let build = if bi < 0 { Seq::<char>::empty() } else { s.skip(bi + 1) };
    let pi = spec_idx_of(head, '-');
    let core = if pi < 0 { head } else { head.take(pi) };
    let pre = if pi < 0 { Seq::<char>::empty() } else { head.skip(pi + 1) };
    if bi >= 0 && build.len() == 0 {
        None
    } else if pi >= 0 && pre.len() == 0 {
        None
    } else {
        match spec_core_of(core) {
            None => None,
            Some((ma, mi, pa)) => Some(
                VersionView { major: ma, minor: mi, patch: pa, pre: pre, build: build },
            ),
        }
    }
}

/// Canonical rendering of a version.
pub open spec fn spec_version_str(v: VersionView) -> Seq<char> {
    spec_dec_digits(v.major) + "."@ + spec_dec_digits(v.minor) + "."@ + spec_dec_digits(v.patch)
        + (if v.pre.len() == 0 {
        Seq::<char>::empty()
    } else {
        "-"@ + v.pre
    }) + (if v.build.len() == 0 {
        Seq::<char>::empty()
    } else {
        "+"@ + v.build
    })
}

/// Parse a canonical number that fits in a `u64`.
fn parse_canon_u64(t: &str) -> (r: Option<u64>)
    ensures
        r matches Some(v) ==> spec_is_canon_num(t@) && seq_to_int(t@) == v as int,
        r is None ==> !(spec_is_canon_num(t@) && seq_to_int(t@) <= u64::MAX),
{
    let n = t.unicode_len();
    if n == 0 {
        return None;
    }
    if n > 1 && t.get_char(0) == '0' {
        return None;
    }
    parse_u64(t)
}

impl Version {
    /// A version with the given numeric core and no metadata tails.
    pub fn new(major: u64, minor: u64, patch: u64) -> (r: Version)
        ensures
            r@.major == major as int,
            r@.minor == minor as int,
            r@.patch == patch as int,
            r@.pre.len() == 0,
            r@.build.len() == 0,
    {
        Version { major, minor, patch, pre: String::new(), build: String::new() }
    }

    /// Parse a version string; succeeds exactly when `spec_version_of` does.
    pub fn parse(s: &str) -> (r: Option<Version>)
        ensures
            r matches Some(v) ==> spec_version_of(s@) == Some(v@),
            r is None ==> spec_version_of(s@) is None,
    {
        let n = s.unicode_len();
        let (head, build) = match find_char(s, '+') {
            Some(bi) => {
                if bi + 1 == n {
                    return None;
                }
                (s.substring_char(0, bi), s.substring_char(bi + 1, n))
            },
            None => (s, ""),
        };
        proof {
            reveal_strlit("");
        }
        let hn = head.unicode_len();
        let (core, pre) = match find_char(head, '-') {
            Some(pi) => {
                if pi + 1 == hn {
                    return None;
                }
                (head.substring_char(0, pi), head.substring_char(pi + 1, hn))
            },
            None => (head, ""),
        };
        let cn = core.unicode_len();
        let d1 = match find_char(core, '.') {
            Some(d1) => d1,
            None => {
                return None;
            },
        };
        let a = core.substring_char(0, d1);
        let rest = core.substring_char(d1 + 1, cn);
        let rn = rest.unicode_len();
        let d2 = match find_char(rest, '.') {
            Some(d2) => d2,
            None => {
                return None;
            },
        };
        let b = rest.substring_char(0, d2);
        let c = rest.substring_char(d2 + 1, rn);
        let major = match parse_canon_u64(a) {
            Some(v) => v,
            None => {
                return None;
            },
        };
        let minor = match parse_canon_u64(b) {
            Some(v) => v,
            None => {
                return None;
            },
        };
        let patch = match parse_canon_u64(c) {
            Some(v) => v,
            None => {
                return None;
            },
        };
        proof {
            assert(""@ =~= Seq::<char>::empty());
            let bi = spec_idx_of(s@, '+');
            assert(head@ =~= (if bi < 0 { s@ } else { s@.take(bi) }));
            assert(build@ =~= (if bi < 0 { Seq::<char>::empty() } else { s@.skip(bi + 1) }));
            let pi = spec_idx_of(head@, '-');
            assert(core@ =~= (if pi < 0 { head@ } else { head@.take(pi) }));
            assert(pre@ =~= (if pi < 0 { Seq::<char>::empty() } else { head@.skip(pi + 1) }));
            let d1s = spec_idx_of(core@, '.');
            assert(a@ =~= core@.take(d1s));
            assert(rest@ =~= core@.skip(d1s + 1));
            let d2s = spec_idx_of(rest@, '.');
            assert(b@ =~= rest@.take(d2s));
            assert(c@ =~= rest@.skip(d2s + 1));
            assert(spec_core_of(core@) == Some(
                (major as int, minor as int, patch as int),
            ));
        }
        Some(
            Version {
                major,
                minor,
                patch,
                pre: String::from_str(pre),
                build: String::from_str(build),
            },
        )
    }

    /// Render the version in its canonical form.
    pub fn to_version_string(&self) -> (r: String)
        ensures
            r@ == spec_version_str(self@),
    {
        let mut r = u64_to_string(self.major);
        r.append(".");
        let mi = u64_to_string(self.minor);
        r.append(mi.as_str());
        r.append(".");
        let pa = u64_to_string(self.patch);
        r.append(pa.as_str());
        if !self.pre.as_str().is_empty() {
            r.append("-");
            r.append(self.pre.as_str());
        }
        if !self.build.as_str().is_empty() {
            r.append("+");
            r.append(self.build.as_str());
        }
        proof {
            assert(r@ =~= spec_version_str(self@));
        }
        r
    }

    /// An exact copy.
    pub fn dup(&self) -> (r: Version)
        ensures
            r@ == self@,
    {
        Version {
            major: self.major,
            minor: self.minor,
            patch: self.patch,
            pre: self.pre.clone(),
            build: self.build.clone(),
        }
    }

    /// Exact equality of two versions, numeric core and both tails.
    pub fn same_version(&self, other: &Version) -> (r: bool)
        ensures
            r == (self@ == other@),
    {
        let r = self.major == other.major && self.minor == other.minor && self.patch
            == other.patch && self.pre == other.pre && self.build == other.build;
        proof {
            if r {
                assert(self@ == other@);
            } else {
                assert(self@ != other@);
            }
        }
        r
    }
}

} // verus!
