//! The image fetch as a state machine: authenticate, retrieve the manifest,
//! fetch every layer blob, create the destination directory, unpack.
//!
//! The driver performs each commanded action (network, filesystem) and
//! reports its outcome as the next event. All layer blobs are fetched as one
//! step whose event is `BlobsOk` only when every fetch succeeded; a single
//! failure is reported as `BlobFailed` and aborts the whole operation —
//! unpacking is commanded only after every blob arrived and the destination
//! directory was newly created.

use vstd::prelude::*;
use vstd::string::StringExecFns;

verus! {

/// The distinct failure classes of a fetch.
#[derive(Clone, Copy, Debug, PartialEq, Eq, Structural)]
pub enum FetchFailure {
    Authentication,
    Manifest,
    BlobFetch,
    Filesystem,
    Unpack,
}

/// Where a fetch stands. `Completed` and `Failed` are terminal.
#[derive(Clone, Copy, Debug, PartialEq, Eq, Structural)]
pub enum FetchPhase {
    Start,
    Authenticating,
    FetchingManifest,
    FetchingBlobs,
    CreatingDirectory,
    Unpacking,
    Completed,
    Failed(FetchFailure),
}

/// Outcome of the action last performed by the driver.
#[derive(Clone, Copy, Debug, PartialEq, Eq, Structural)]
pub enum FetchEvent {
    Begin,
    AuthOk,
    AuthFailed,
    ManifestOk,
    ManifestFailed,
    BlobsOk,
    BlobFailed,
    DirectoryCreated,
    DirectoryFailed,
    UnpackOk,
    UnpackFailed,
}

/// What the driver must do next. `Hold` means the event did not belong to
/// the current phase and nothing may be done.
#[derive(Clone, Copy, Debug, PartialEq, Eq, Structural)]
pub enum FetchAction {
    Authenticate,
    FetchManifest,
    FetchBlobs,
    CreateDirectory,
    Unpack,
    Report(FetchFailure),
    Done,
    Hold,
}

/// The transition relation of the fetch machine.
pub open spec fn spec_fetch_step(p: FetchPhase, e: FetchEvent) -> (FetchPhase, FetchAction) {
    match (p, e) {
        (FetchPhase::Start, FetchEvent::Begin) => (
            FetchPhase::Authenticating,
            FetchAction::Authenticate,
        ),
        (FetchPhase::Authenticating, FetchEvent::AuthOk) => (
            FetchPhase::FetchingManifest,
            FetchAction::FetchManifest,
        ),
        (FetchPhase::Authenticating, FetchEvent::AuthFailed) => (
            FetchPhase::Failed(FetchFailure::Authentication),
            FetchAction::Report(FetchFailure::Authentication),
        ),
        (FetchPhase::FetchingManifest, FetchEvent::ManifestOk) => (
            FetchPhase::FetchingBlobs,
            FetchAction::FetchBlobs,
        ),
        (FetchPhase::FetchingManifest, FetchEvent::ManifestFailed) => (
            FetchPhase::Failed(FetchFailure::Manifest),
            FetchAction::Report(FetchFailure::Manifest),
        ),
        (FetchPhase::FetchingBlobs, FetchEvent::BlobsOk) => (
            FetchPhase::CreatingDirectory,
            FetchAction::CreateDirectory,
        ),
        (FetchPhase::FetchingBlobs, FetchEvent::BlobFailed) => (
            FetchPhase::Failed(FetchFailure::BlobFetch),
            FetchAction::Report(FetchFailure::BlobFetch),
        ),
        (FetchPhase::CreatingDirectory, FetchEvent::DirectoryCreated) => (
            FetchPhase::Unpacking,
            FetchAction::Unpack,
        ),
        (FetchPhase::CreatingDirectory, FetchEvent::DirectoryFailed) => (
            FetchPhase::Failed(FetchFailure::Filesystem),
            FetchAction::Report(FetchFailure::Filesystem),
        ),
        (FetchPhase::Unpacking, FetchEvent::UnpackOk) => (FetchPhase::Completed, FetchAction::Done),
        (FetchPhase::Unpacking, FetchEvent::UnpackFailed) => (
            FetchPhase::Failed(FetchFailure::Unpack),
            FetchAction::Report(FetchFailure::Unpack),
        ),
        _ => (p, FetchAction::Hold),
    }
}

/// Take one step of the fetch machine.
pub fn fetch_step(phase: FetchPhase, event: FetchEvent) -> (r: (FetchPhase, FetchAction))
    ensures
        r == spec_fetch_step(phase, event),
{
    match (phase, event) {
        (FetchPhase::Start, FetchEvent::Begin) => (
            FetchPhase::Authenticating,
            FetchAction::Authenticate,
        ),
        (FetchPhase::Authenticating, FetchEvent::AuthOk) => (
            FetchPhase::FetchingManifest,
            FetchAction::FetchManifest,
        ),
        (FetchPhase::Authenticating, FetchEvent::AuthFailed) => (
            FetchPhase::Failed(FetchFailure::Authentication),
            FetchAction::Report(FetchFailure::Authentication),
        ),
        (FetchPhase::FetchingManifest, FetchEvent::ManifestOk) => (
            FetchPhase::FetchingBlobs,
            FetchAction::FetchBlobs,
        ),
        (FetchPhase::FetchingManifest, FetchEvent::ManifestFailed) => (
            FetchPhase::Failed(FetchFailure::Manifest),
            FetchAction::Report(FetchFailure::Manifest),
        ),
        (FetchPhase::FetchingBlobs, FetchEvent::BlobsOk) => (
            FetchPhase::CreatingDirectory,
            FetchAction::CreateDirectory,
        ),
        (FetchPhase::FetchingBlobs, FetchEvent::BlobFailed) => (
            FetchPhase::Failed(FetchFailure::BlobFetch),
            FetchAction::Report(FetchFailure::BlobFetch),
        ),
        (FetchPhase::CreatingDirectory, FetchEvent::DirectoryCreated) => (
            FetchPhase::Unpacking,
            FetchAction::Unpack,
        ),
        (FetchPhase::CreatingDirectory, FetchEvent::DirectoryFailed) => (
            FetchPhase::Failed(FetchFailure::Filesystem),
            FetchAction::Report(FetchFailure::Filesystem),
        ),
        (FetchPhase::Unpacking, FetchEvent::UnpackOk) => (FetchPhase::Completed, FetchAction::Done),
        (FetchPhase::Unpacking, FetchEvent::UnpackFailed) => (
            FetchPhase::Failed(FetchFailure::Unpack),
            FetchAction::Report(FetchFailure::Unpack),
        ),
        _ => (phase, FetchAction::Hold),
    }
}

/// The phase reached by a run of the machine over a sequence of events,
/// starting from `Start`.
pub open spec fn spec_fetch_run(events: Seq<FetchEvent>) -> FetchPhase
    decreases events.len(),
{
    if events.len() == 0 {
        FetchPhase::Start
    } else {
        spec_fetch_step(spec_fetch_run(events.drop_last()), events.last()).0
    }
}

/// A failed fetch is terminal: no later event moves the machine out of the
/// failure, and nothing further is commanded.
pub proof fn lemma_fetch_failed_is_terminal(f: FetchFailure, e: FetchEvent)
    ensures
        spec_fetch_step(FetchPhase::Failed(f), e) == (FetchPhase::Failed(f), FetchAction::Hold),
{
}

/// A single blob failure fails the whole fetch: the machine enters
/// `Failed(BlobFetch)` and every continuation of the run stays there, so
/// the fetch never completes and no unpack is ever commanded.
pub proof fn lemma_blob_failure_aborts_fetch(events: Seq<FetchEvent>, k: int)
    requires
        0 <= k <= events.len(),
        spec_fetch_run(events.take(k)) == FetchPhase::FetchingBlobs,
        k < events.len(),
        events[k] == FetchEvent::BlobFailed,
    ensures
        spec_fetch_run(events.take(k + 1)) == FetchPhase::Failed(FetchFailure::BlobFetch),
        spec_fetch_run(events) == FetchPhase::Failed(FetchFailure::BlobFetch),
{
    assert(events.take(k + 1).drop_last() =~= events.take(k));
    lemma_fetch_failure_persists(events, k + 1, FetchFailure::BlobFetch);
}

/// Once a run has failed, every longer run of the same events is failed
/// the same way.
pub proof fn lemma_fetch_failure_persists(events: Seq<FetchEvent>, k: int, f: FetchFailure)
    requires
        0 <= k <= events.len(),
        spec_fetch_run(events.take(k)) == FetchPhase::Failed(f),
    ensures
        spec_fetch_run(events) == FetchPhase::Failed(f),
    decreases events.len() - k,
{
    if k < events.len() {
        assert(events.take(k + 1).drop_last() =~= events.take(k));
        lemma_fetch_failure_persists(events, k + 1, f);
    } else {
        assert(events.take(k) =~= events);
    }
}

/// Unpacking is commanded only once every blob arrived and the destination
/// directory was newly created: the one transition that commands `Unpack`
/// leaves `CreatingDirectory` on `DirectoryCreated`, and `CreatingDirectory`
/// is entered only from `FetchingBlobs` on `BlobsOk`.
pub proof fn lemma_unpack_needs_all_blobs(p: FetchPhase, e: FetchEvent)
    ensures
        spec_fetch_step(p, e).1 == FetchAction::Unpack ==> p == FetchPhase::CreatingDirectory
            && e == FetchEvent::DirectoryCreated,
        spec_fetch_step(p, e).0 == FetchPhase::CreatingDirectory && p
            != FetchPhase::CreatingDirectory ==> p == FetchPhase::FetchingBlobs && e
            == FetchEvent::BlobsOk,
{
}

/// The login scope requesting pull access to an image.
pub open spec fn spec_login_scope(image: Seq<char>) -> Seq<char> {
    "repository:"@ + image + ":pull"@
}

/// Scope string for authenticating a pull of `image`.
pub fn login_scope(image: &str) -> (r: String)
    ensures
        r@ == spec_login_scope(image@),
{
    let mut r = String::from_str("repository:");
    r.append(image);
    r.append(":pull");
    proof {
        assert(r@ =~= spec_login_scope(image@));
    }
    r
}

/// Failure of the image download, in the driver's own terms: the registry
/// protocol, the unpack renderer, or the filesystem.
#[derive(Debug)]
pub enum DockerRegistryError {
    DockerRegistry(String),
    Render(String),
    Io(String),
}

/// The error a fetch failure surfaces as: registry-protocol failures for
/// authentication, manifest and blob retrieval; a render failure for
/// unpacking; an I/O failure for the filesystem.
pub fn failure_error(f: FetchFailure, detail: String) -> (r: DockerRegistryError)
    ensures
        match f {
            FetchFailure::Authentication | FetchFailure::Manifest | FetchFailure::BlobFetch => (
            r matches DockerRegistryError::DockerRegistry(d) && d@ == detail@),
            FetchFailure::Unpack => (r matches DockerRegistryError::Render(d) && d@ == detail@),
            FetchFailure::Filesystem => (r matches DockerRegistryError::Io(d) && d@ == detail@),
        },
{
    match f {
        FetchFailure::Authentication | FetchFailure::Manifest | FetchFailure::BlobFetch => {
            DockerRegistryError::DockerRegistry(detail)
        },
        FetchFailure::Unpack => DockerRegistryError::Render(detail),
        FetchFailure::Filesystem => DockerRegistryError::Io(detail),
    }
}

} // verus!
