//! The buildpack registry index: a named buildpack, the canonical index
//! path derived from its name, and the parsing of the index file the host
//! serves for it — newline-delimited records, one JSON object per line.

use vstd::prelude::*;
use vstd::string::StrSliceExecFns;
use vstd::string::StringExecFns;

use crate::strutil::spec_dec_digits;
use crate::strutil::spec_idx_of;
use crate::strutil::u64_to_string;
use crate::version::spec_version_of;
use crate::version::Version;
use crate::version::VersionView;

verus! {

/// Host that serves the registry index.
pub open spec fn spec_default_host() -> Seq<char> {
    "https://raw.githubusercontent.com"@
}

/// Fixed path prefix of the registry index on its host.
pub open spec fn spec_index_path_prefix() -> Seq<char> {
    "buildpacks/registry-index/main"@
}

/// Display form of a buildpack: `namespace_name`.
pub open spec fn spec_buildpack_id(ns: Seq<char>, name: Seq<char>) -> Seq<char> {
    ns + "_"@ + name
}

/// Canonical index path of a buildpack. The three-way fan-out by name
/// length is a stable contract with the index host:
/// names of length 1 or 2 live under `"{len}/{namespace}_{name}"`,
/// names of length 3 under `"3/{first char}/{namespace}_{name}"`,
/// longer names under `"{name[0..2]}/{name[2..4]}/{namespace}_{name}"`.
pub open spec fn spec_canonical_path(ns: Seq<char>, name: Seq<char>) -> Seq<char>
    recommends
        name.len() >= 1,
{
    if name.len() <= 2 {
        spec_dec_digits(name.len() as int) + "/"@ + spec_buildpack_id(ns, name)
    } else if name.len() == 3 {
        spec_dec_digits(3) + "/"@ + name.subrange(0, 1) + "/"@ + spec_buildpack_id(ns, name)
    } else {
        name.subrange(0, 2) + "/"@ + name.subrange(2, 4) + "/"@ + spec_buildpack_id(ns, name)
    }
}

/// Names of length at most 2 derive the path `"{len}/{namespace}_{name}"`.
pub proof fn lemma_canonical_path_short(ns: Seq<char>, name: Seq<char>)
    requires
        1 <= name.len() <= 2,
    ensures
        spec_canonical_path(ns, name) == spec_dec_digits(name.len() as int) + "/"@
            + spec_buildpack_id(ns, name),
{
}

/// Names of length exactly 3 derive `"3/{first char}/{namespace}_{name}"`.
pub proof fn lemma_canonical_path_three(ns: Seq<char>, name: Seq<char>)
    requires
        name.len() == 3,
    ensures
        spec_canonical_path(ns, name) == spec_dec_digits(3) + "/"@ + name.subrange(0, 1) + "/"@
            + spec_buildpack_id(ns, name),
{
}

/// Names of length at least 4 derive
/// `"{name[0..2]}/{name[2..4]}/{namespace}_{name}"`.
pub proof fn lemma_canonical_path_long(ns: Seq<char>, name: Seq<char>)
    requires
        name.len() >= 4,
    ensures
        spec_canonical_path(ns, name) == name.subrange(0, 2) + "/"@ + name.subrange(2, 4) + "/"@
            + spec_buildpack_id(ns, name),
{
}

/// A namespaced buildpack and the index host to resolve it against.
#[derive(Debug)]
pub struct Buildpack {
    pub namespace: String,
    pub name: String,
    pub host: String,
}

impl Buildpack {
    /// A buildpack under the default registry index host.
    pub fn new(namespace: String, name: String) -> (r: Buildpack)
        ensures
            r.namespace@ == namespace@,
            r.name@ == name@,
            r.host@ == spec_default_host(),
    {
        Buildpack { namespace, name, host: String::from_str("https://raw.githubusercontent.com") }
    }

    /// Point the buildpack at another index host.
    pub fn set_host(&mut self, host: String)
        ensures
            final(self).namespace == old(self).namespace,
            final(self).name == old(self).name,
            final(self).host@ == host@,
    {
        self.host = host;
    }

    /// Display form, `namespace_name`.
    pub fn id(&self) -> (r: String)
        ensures
            r@ == spec_buildpack_id(self.namespace@, self.name@),
    {
        let mut r = self.namespace.clone();
        r.append("_");
        r.append(self.name.as_str());
        proof {
            assert(r@ =~= spec_buildpack_id(self.namespace@, self.name@));
        }
        r
    }

    /// The canonical index path for this buildpack's name.
    pub fn canonicalize_registry(&self) -> (r: String)
        requires
            self.name@.len() >= 1,
        ensures
            r@ == spec_canonical_path(self.namespace@, self.name@),
    {
        let n = self.name.as_str().unicode_len();
        let id = self.id();
        if n <= 2 {
            let mut r = u64_to_string(n as u64);
            r.append("/");
            r.append(id.as_str());
            proof {
                assert(r@ =~= spec_canonical_path(self.namespace@, self.name@));
            }
            r
        } else if n == 3 {
            let mut r = u64_to_string(3);
            r.append("/");
            r.append(self.name.as_str().substring_char(0, 1));
            r.append("/");
            r.append(id.as_str());
            proof {
                assert(r@ =~= spec_canonical_path(self.namespace@, self.name@));
            }
            r
        } else {
            let mut r = String::from_str(self.name.as_str().substring_char(0, 2));
            r.append("/");
            r.append(self.name.as_str().substring_char(2, 4));
            r.append("/");
            r.append(id.as_str());
            proof {
                assert(r@ =~= spec_canonical_path(self.namespace@, self.name@));
            }
            r
        }
    }

    /// Full URL of this buildpack's index file:
    /// `{host}/{fixed prefix}/{canonical path}`.
    pub fn registry_url(&self) -> (r: String)
        requires
            self.name@.len() >= 1,
        ensures
            r@ == self.host@ + "/"@ + spec_index_path_prefix() + "/"@ + spec_canonical_path(
                self.namespace@,
                self.name@,
            ),
    {
        let mut r = self.host.clone();
        r.append("/");
        r.append("buildpacks/registry-index/main");
        r.append("/");
        let path = self.canonicalize_registry();
        r.append(path.as_str());
        proof {
            assert(r@ =~= self.host@ + "/"@ + spec_index_path_prefix() + "/"@
                + spec_canonical_path(self.namespace@, self.name@));
        }
        r
    }
}

/// One published version of a buildpack, as the registry index records it.
#[derive(Clone, Debug, PartialEq, Eq)]
pub struct BuildpackRegistryEntry {
    pub namespace: String,
    pub name: String,
    pub version: Version,
    pub yanked: bool,
    pub address: String,
}

/// Mathematical model of a [`BuildpackRegistryEntry`].
pub struct EntryView {
    pub namespace: Seq<char>,
    pub name: Seq<char>,
    pub version: VersionView,
    pub yanked: bool,
    pub address: Seq<char>,
}

impl View for BuildpackRegistryEntry {
    type V = EntryView;

    open spec fn view(&self) -> EntryView {
        EntryView {
            namespace: self.namespace@,
            name: self.name@,
            version: self.version@,
            yanked: self.yanked,
            address: self.address@,
        }
    }
}

/// Failure of a registry index fetch: the transport, or a record that does
/// not parse.
#[derive(Debug)]
pub enum BuildpackRegistryError {
    Reqwest(String),
    Json(String),
}

/// The raw fields of one index record, before the version string is parsed.
pub struct RawRecord {
    pub namespace: String,
    pub name: String,
    pub version: String,
    pub yanked: bool,
    pub address: String,
}

/// The `ns`, `name`, `version`, `yanked` and `addr` fields of the JSON
/// object on one index line, when the line holds an object with exactly
/// these field types; a function of the line alone.
pub uninterp spec fn record_fields_of(line: Seq<char>) -> Option<
    (Seq<char>, Seq<char>, Seq<char>, bool, Seq<char>),
>;

/// Relies on serde_json::from_str and serde_json::Value's get, as_str and
/// as_bool: the named fields of the JSON object on the line, which depend
/// on the line's text alone.
#[verifier::external_body]
fn parse_record_line(line: &str) -> (r: Option<RawRecord>)
    ensures
        r matches Some(rec) ==> record_fields_of(line@) == Some(
            (rec.namespace@, rec.name@, rec.version@, rec.yanked, rec.address@),
        ),
        r is None ==> record_fields_of(line@) is None,
{
    let v: serde_json::Value = serde_json::from_str(line).ok()?;
    Some(RawRecord {
        namespace: v.get("ns")?.as_str()?.to_string(),
        name: v.get("name")?.as_str()?.to_string(),
        version: v.get("version")?.as_str()?.to_string(),
        yanked: v.get("yanked")?.as_bool()?,
        address: v.get("addr")?.as_str()?.to_string(),
    })
}

/// The entry denoted by one record's raw fields: its version string must
/// itself parse.
pub open spec fn spec_entry_of_fields(
    f: (Seq<char>, Seq<char>, Seq<char>, bool, Seq<char>),
) -> Option<EntryView> {
    match spec_version_of(f.2) {
        None => None,
        Some(v) => Some(
            EntryView { namespace: f.0, name: f.1, version: v, yanked: f.3, address: f.4 },
        ),
    }
}

/// The entry denoted by one index line.
pub open spec fn spec_entry_of_line(line: Seq<char>) -> Option<EntryView> {
    match record_fields_of(line) {
        None => None,
        Some(f) => spec_entry_of_fields(f),
    }
}

/// The lines of `s`, split at every newline.
pub open spec fn spec_split_lines(s: Seq<char>) -> Seq<Seq<char>>
    decreases s.len(),
{
    let i = spec_idx_of(s, '\n');
    if 0 <= i < s.len() {
        seq![s.take(i)] + spec_split_lines(s.skip(i + 1))
    } else {
        seq![s]
    }
}

/// The same lines with empty trailing ones removed.
pub open spec fn spec_drop_trailing_empties(ls: Seq<Seq<char>>) -> Seq<Seq<char>>
    decreases ls.len(),
{
    if ls.len() == 0 {
        ls
    } else if ls.last().len() == 0 {
        spec_drop_trailing_empties(ls.drop_last())
    } else {
        ls
    }
}

/// The records of an index file: its lines, empty trailing lines skipped.
pub open spec fn spec_records(s: Seq<char>) -> Seq<Seq<char>> {
    spec_drop_trailing_empties(spec_split_lines(s))
}

/// Split `text` at every newline.
fn split_lines(text: &str) -> (r: Vec<String>)
    ensures
        r.deep_view() == spec_split_lines(text@),
    decreases text@.len(),
{
    match find_lines_split(text) {
        None => {
            let mut out: Vec<String> = Vec::new();
            out.push(String::from_str(text));
            proof {
                assert(out.deep_view() =~= spec_split_lines(text@));
            }
            out
        },
        Some((first, restr)) => {
            let tail = split_lines(restr);
            let mut out: Vec<String> = Vec::new();
            out.push(String::from_str(first));
            let mut k: usize = 0;
            while k < tail.len()
                invariant
                    0 <= k <= tail.len(),
                    out@.len() == k + 1,
                    out@[0]@ == first@,
                    forall|j: int| 0 <= j < k ==> out@[j + 1] == tail@[j],
                decreases tail.len() - k,
            {
                out.push(tail[k].clone());
                k = k + 1;
            }
            proof {
                let i = spec_idx_of(text@, '\n');
                assert(spec_split_lines(text@) == seq![text@.take(i)]
                    + spec_split_lines(text@.skip(i + 1)));
                assert forall|j: int| 0 <= j < out@.len() implies out.deep_view()[j]
                    == (seq![first@] + tail.deep_view())[j] by {
                    if j > 0 {
                        assert(out@[j] == tail@[j - 1]);
                        assert(tail.deep_view()[j - 1] == tail@[j - 1]@);
                    }
                }
                assert(out.deep_view() =~= spec_split_lines(text@));
            }
            out
        },
    }
}

/// The text before and after the first newline, when there is one.
fn find_lines_split(text: &str) -> (r: Option<(&str, &str)>)
    ensures
        r is None <==> spec_idx_of(text@, '\n') < 0,
        r matches Some(p) ==> {
            &&& 0 <= spec_idx_of(text@, '\n') < text@.len()
            &&& p.0@ == text@.take(spec_idx_of(text@, '\n'))
            &&& p.1@ == text@.skip(spec_idx_of(text@, '\n') + 1)
            &&& p.1@.len() < text@.len()
        },
{
    let n = text.unicode_len();
    match crate::strutil::find_char(text, '\n') {
        None => None,
        Some(i) => {
            let first = text.substring_char(0, i);
            let restr = text.substring_char(i + 1, n);
            proof {
                assert(first@ =~= text@.take(spec_idx_of(text@, '\n')));
                assert(restr@ =~= text@.skip(spec_idx_of(text@, '\n') + 1));
            }
            Some((first, restr))
        },
    }
}

/// Remove empty trailing lines.
fn drop_trailing_empty_lines(ls: Vec<String>) -> (r: Vec<String>)
    ensures
        r.deep_view() == spec_drop_trailing_empties(ls.deep_view()),
{
    let mut ls = ls;
    let ghost orig = ls.deep_view();
    while ls.len() > 0 && ls[ls.len() - 1].as_str().is_empty()
        invariant
            spec_drop_trailing_empties(ls.deep_view()) == spec_drop_trailing_empties(orig),
        decreases ls.len(),
    {
        let ghost before = ls.deep_view();
        ls.pop();
        proof {
            assert(ls.deep_view() =~= before.drop_last());
        }
    }
    proof {
        if ls.len() == 0 {
            assert(spec_drop_trailing_empties(ls.deep_view()) == ls.deep_view());
        } else {
            assert(ls.deep_view().last() == ls@[ls@.len() - 1]@);
        }
    }
    ls
}

/// Parse the body of a registry index file: one JSON record per line,
/// empty trailing lines tolerated. Succeeds, with one entry per record in
/// file order, exactly when every record denotes an entry; any failing
/// record fails the whole parse.
pub fn parse_entries(text: &str) -> (r: Result<
    Vec<BuildpackRegistryEntry>,
    BuildpackRegistryError,
>)
    ensures
        r matches Ok(es) ==> {
            &&& es@.len() == spec_records(text@).len()
            &&& forall|i: int|
                0 <= i < es@.len() ==> Some(#[trigger] es@[i]@) == spec_entry_of_line(
                    spec_records(text@)[i],
                )
        },
        r is Ok <==> (forall|i: int|
            0 <= i < spec_records(text@).len() ==> (#[trigger] spec_entry_of_line(
                spec_records(text@)[i],
            )) is Some),
        r matches Err(e) ==> e is Json,
{
    let lines = drop_trailing_empty_lines(split_lines(text));
    let mut out: Vec<BuildpackRegistryEntry> = Vec::new();
    let mut i: usize = 0;
    while i < lines.len()
        invariant
            lines.deep_view() == spec_records(text@),
            0 <= i <= lines@.len(),
            out@.len() == i,
            forall|k: int|
                0 <= k < i ==> Some(#[trigger] out@[k]@) == spec_entry_of_line(
                    spec_records(text@)[k],
                ),
        decreases lines@.len() - i,
    {
        proof {
            assert(spec_records(text@).len() == lines@.len());
            assert(lines.deep_view()[i as int] == lines@[i as int]@);
            assert(spec_records(text@)[i as int] == lines@[i as int]@);
        }
        let rec = match parse_record_line(lines[i].as_str()) {
            Some(rec) => rec,
            None => {
                proof {
                    assert(spec_entry_of_line(spec_records(text@)[i as int]) is None);
                    assert(!(forall|j: int|
                        0 <= j < spec_records(text@).len() ==> (#[trigger] spec_entry_of_line(
                            spec_records(text@)[j],
                        )) is Some));
                }
                return Err(
                    BuildpackRegistryError::Json(String::from_str("malformed registry index line")),
                );
            },
        };
        let version = match Version::parse(rec.version.as_str()) {
            Some(v) => v,
            None => {
                proof {
                    assert(record_fields_of(spec_records(text@)[i as int]) == Some(
                        (rec.namespace@, rec.name@, rec.version@, rec.yanked, rec.address@),
                    ));
                    assert(spec_entry_of_line(spec_records(text@)[i as int]) is None);
                    assert(!(forall|j: int|
                        0 <= j < spec_records(text@).len() ==> (#[trigger] spec_entry_of_line(
                            spec_records(text@)[j],
                        )) is Some));
                }
                return Err(
                    BuildpackRegistryError::Json(
                        String::from_str("malformed version in registry index line"),
                    ),
                );
            },
        };
        out.push(
            BuildpackRegistryEntry {
                namespace: rec.namespace,
                name: rec.name,
                version,
                yanked: rec.yanked,
                address: rec.address,
            },
        );
        i = i + 1;
    }
    proof {
        assert forall|j: int|
            0 <= j < spec_records(text@).len() implies (#[trigger] spec_entry_of_line(
            spec_records(text@)[j],
        )) is Some by {
            assert(Some(out@[j]@) == spec_entry_of_line(spec_records(text@)[j]));
        }
    }
    Ok(out)
}

} // verus!
