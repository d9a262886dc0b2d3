//! Wiring: select the requested version from the fetched entries, decode
//! its address, derive the local materialization paths, and decide whether
//! the image must be fetched at all.
//!
//! An already-materialized download directory is trusted on presence: the
//! plan then carries no fetch, and the driver goes straight to the
//! lifecycle.

use vstd::prelude::*;
use vstd::string::StringExecFns;

use crate::fetcher::DockerRegistryError;
use crate::reference::decode;
use crate::reference::spec_decode;
use crate::reference::ImageReference;
use crate::registry::spec_buildpack_id;
use crate::registry::Buildpack;
use crate::registry::BuildpackRegistryEntry;
use crate::strutil::join_path;
use crate::version::spec_version_str;
use crate::version::Version;
use crate::version::VersionView;

verus! {

/// Failure of resolving and downloading one buildpack version.
#[derive(Debug)]
pub enum DownloadError {
    NoVersionFound(Version),
    InvalidAddress(String),
    DockerRegistry(DockerRegistryError),
}

/// `i` is the first index in `entries` carrying exactly `version`.
pub open spec fn spec_first_match(
    entries: Seq<BuildpackRegistryEntry>,
    version: VersionView,
    i: int,
) -> bool {
    &&& 0 <= i < entries.len()
    &&& entries[i]@.version == version
    &&& forall|j: int| 0 <= j < i ==> (#[trigger] entries[j]@).version != version
}

/// Index of the first entry with exactly `version`, when any has it.
pub fn find_entry(entries: &Vec<BuildpackRegistryEntry>, version: &Version) -> (r: Option<usize>)
    ensures
        r matches Some(i) ==> spec_first_match(entries@, version@, i as int),
        r is None ==> forall|j: int|
            0 <= j < entries@.len() ==> (#[trigger] entries@[j]@).version != version@,
{
    let mut i: usize = 0;
    while i < entries.len()
        invariant
            0 <= i <= entries@.len(),
            forall|j: int| 0 <= j < i ==> (#[trigger] entries@[j]@).version != version@,
        decreases entries@.len() - i,
    {
        if entries[i].version.same_version(version) {
            return Some(i);
        }
        i = i + 1;
    }
    None
}

/// Resolve `version` among `entries` and decode the matching entry's
/// address. Fails with `NoVersionFound` exactly when no entry carries the
/// version, and with `InvalidAddress` exactly when the first matching
/// entry's address does not decode.
pub fn download(entries: &Vec<BuildpackRegistryEntry>, version: &Version) -> (r: Result<
    ImageReference,
    DownloadError,
>)
    ensures
        r matches Ok(ir) ==> exists|i: int|
            #[trigger] spec_first_match(entries@, version@, i) && spec_decode(
                entries@[i]@.address,
            ) == Some(ir@),
        r matches Err(e) ==> match e {
            DownloadError::NoVersionFound(v) => v@ == version@ && forall|j: int|
                0 <= j < entries@.len() ==> (#[trigger] entries@[j]@).version != version@,
            DownloadError::InvalidAddress(a) => exists|i: int|
                #[trigger] spec_first_match(entries@, version@, i) && spec_decode(
                    entries@[i]@.address,
                ) is None && a@ == entries@[i]@.address,
            DownloadError::DockerRegistry(_) => false,
        },
{
    let i = match find_entry(entries, version) {
        Some(i) => i,
        None => {
            return Err(DownloadError::NoVersionFound(version.dup()));
        },
    };
    match decode(entries[i].address.as_str()) {
        Some(ir) => {
            proof {
                assert(spec_first_match(entries@, version@, i as int) && spec_decode(
                    entries@[i as int]@.address,
                ) == Some(ir@));
            }
            Ok(ir)
        },
        None => {
            let a = entries[i].address.clone();
            proof {
                assert(spec_first_match(entries@, version@, i as int) && spec_decode(
                    entries@[i as int]@.address,
                ) is None && a@ == entries@[i as int]@.address);
            }
            Err(DownloadError::InvalidAddress(a))
        },
    }
}

/// Root of one materialized buildpack:
/// `{buildpacks_dir}/{namespace_name}-{version}`.
pub open spec fn spec_download_dir(base: Seq<char>, id: Seq<char>, v: VersionView) -> Seq<char> {
    base + "/"@ + id + "-"@ + spec_version_str(v)
}

/// Directory holding the lifecycle binaries inside a materialized
/// buildpack: `{download_dir}/cnb/buildpacks/{namespace_name}/{version}`.
pub open spec fn spec_buildpack_dir(
    download_dir: Seq<char>,
    id: Seq<char>,
    v: VersionView,
) -> Seq<char> {
    download_dir + "/"@ + "cnb"@ + "/"@ + "buildpacks"@ + "/"@ + id + "/"@ + spec_version_str(v)
}

/// Everything the driver needs to materialize one buildpack version: the
/// two derived paths, and the decoded image reference to fetch — absent
/// when the download directory already exists.
pub struct SetupPlan {
    pub download_dir: String,
    pub buildpack_dir: String,
    pub fetch: Option<ImageReference>,
}

/// Plan the materialization of `version`: select it among `entries`,
/// decode its address, derive the paths, and skip the fetch exactly when
/// the download directory is already present.
pub fn setup_plan(
    bp: &Buildpack,
    entries: &Vec<BuildpackRegistryEntry>,
    version: &Version,
    buildpacks_dir: &str,
    already_materialized: bool,
) -> (r: Result<SetupPlan, DownloadError>)
    ensures
        r matches Ok(p) ==> {
            &&& p.download_dir@ == spec_download_dir(
                buildpacks_dir@,
                spec_buildpack_id(bp.namespace@, bp.name@),
                version@,
            )
            &&& p.buildpack_dir@ == spec_buildpack_dir(
                p.download_dir@,
                spec_buildpack_id(bp.namespace@, bp.name@),
                version@,
            )
            &&& already_materialized ==> p.fetch is None
            &&& !already_materialized ==> (p.fetch matches Some(ir) && exists|i: int|
                #[trigger] spec_first_match(entries@, version@, i) && spec_decode(
                    entries@[i]@.address,
                ) == Some(ir@))
        },
        r matches Err(e) ==> match e {
            DownloadError::NoVersionFound(v) => v@ == version@ && forall|j: int|
                0 <= j < entries@.len() ==> (#[trigger] entries@[j]@).version != version@,
            DownloadError::InvalidAddress(a) => exists|i: int|
                #[trigger] spec_first_match(entries@, version@, i) && spec_decode(
                    entries@[i]@.address,
                ) is None && a@ == entries@[i]@.address,
            DownloadError::DockerRegistry(_) => false,
        },
{
    let reference = match download(entries, version) {
        Ok(ir) => ir,
        Err(e) => {
            return Err(e);
        },
    };
    let id = bp.id();
    let ver = version.to_version_string();
    let mut leaf = id.clone();
    leaf.append("-");
    leaf.append(ver.as_str());
    let download_dir = join_path(buildpacks_dir, leaf.as_str());
    let mut dir = join_path(download_dir.as_str(), "cnb");
    dir = join_path(dir.as_str(), "buildpacks");
    dir = join_path(dir.as_str(), id.as_str());
    let buildpack_dir = join_path(dir.as_str(), ver.as_str());
    proof {
        assert(download_dir@ =~= spec_download_dir(
            buildpacks_dir@,
            spec_buildpack_id(bp.namespace@, bp.name@),
            version@,
        ));
        assert(buildpack_dir@ =~= spec_buildpack_dir(
            download_dir@,
            spec_buildpack_id(bp.namespace@, bp.name@),
            version@,
        ));
    }
    if already_materialized {
        Ok(SetupPlan { download_dir, buildpack_dir, fetch: None })
    } else {
        Ok(SetupPlan { download_dir, buildpack_dir, fetch: Some(reference) })
    }
}

/// The configuration root derived from a home directory:
/// `{home}/.sfdx-function-run`; nothing without a home directory.
pub fn config_dir_for_home(home: &Option<String>) -> (r: Option<String>)
    ensures
        r matches Some(c) ==> home matches Some(h) && c@ == h@ + "/"@ + ".sfdx-function-run"@,
        r is None <==> home is None,
{
    match home {
        Some(h) => Some(join_path(h.as_str(), ".sfdx-function-run")),
        None => None,
    }
}

/// The fixed layout under the configuration root: the working directories
/// and the two placeholder plan files.
pub struct ConfigLayout {
    pub home_dir: String,
    pub platform_dir: String,
    pub layers_dir: String,
    pub tmp_dir: String,
    pub plan: String,
    pub build_plan: String,
    pub buildpacks_dir: String,
}

/// Derive the fixed layout under `config_dir`.
pub fn config_layout(config_dir: &str) -> (r: ConfigLayout)
    ensures
        r.home_dir@ == config_dir@ + "/"@ + "home"@,
        r.platform_dir@ == config_dir@ + "/"@ + "platform"@,
        r.layers_dir@ == config_dir@ + "/"@ + "layers"@,
        r.tmp_dir@ == config_dir@ + "/"@ + "tmp"@,
        r.plan@ == config_dir@ + "/"@ + "plan.toml"@,
        r.build_plan@ == config_dir@ + "/"@ + "build_plan.toml"@,
        r.buildpacks_dir@ == config_dir@ + "/"@ + "buildpacks"@,
{
    ConfigLayout {
        home_dir: join_path(config_dir, "home"),
        platform_dir: join_path(config_dir, "platform"),
        layers_dir: join_path(config_dir, "layers"),
        tmp_dir: join_path(config_dir, "tmp"),
        plan: join_path(config_dir, "plan.toml"),
        build_plan: join_path(config_dir, "build_plan.toml"),
        buildpacks_dir: join_path(config_dir, "buildpacks"),
    }
}

} // verus!
