use function_run::fetcher::failure_error;
use function_run::fetcher::fetch_step;
use function_run::fetcher::login_scope;
use function_run::fetcher::DockerRegistryError;
use function_run::fetcher::FetchAction;
use function_run::fetcher::FetchEvent;
use function_run::fetcher::FetchFailure;
use function_run::fetcher::FetchPhase;

#[test]
fn a_full_fetch_completes_in_order() {
    let (p, a) = fetch_step(FetchPhase::Start, FetchEvent::Begin);
    assert_eq!((FetchPhase::Authenticating, FetchAction::Authenticate), (p, a));
    let (p, a) = fetch_step(p, FetchEvent::AuthOk);
    assert_eq!((FetchPhase::FetchingManifest, FetchAction::FetchManifest), (p, a));
    let (p, a) = fetch_step(p, FetchEvent::ManifestOk);
    assert_eq!((FetchPhase::FetchingBlobs, FetchAction::FetchBlobs), (p, a));
    let (p, a) = fetch_step(p, FetchEvent::BlobsOk);
    assert_eq!((FetchPhase::CreatingDirectory, FetchAction::CreateDirectory), (p, a));
    let (p, a) = fetch_step(p, FetchEvent::DirectoryCreated);
    assert_eq!((FetchPhase::Unpacking, FetchAction::Unpack), (p, a));
    let (p, a) = fetch_step(p, FetchEvent::UnpackOk);
    assert_eq!((FetchPhase::Completed, FetchAction::Done), (p, a));
}

#[test]
fn a_blob_failure_aborts_and_never_unpacks() {
    let (p, a) = fetch_step(FetchPhase::FetchingBlobs, FetchEvent::BlobFailed);
    assert_eq!(
        (
            FetchPhase::Failed(FetchFailure::BlobFetch),
            FetchAction::Report(FetchFailure::BlobFetch)
        ),
        (p, a)
    );
    let mut phase = p;
    let later = vec![
        FetchEvent::BlobsOk,
        FetchEvent::DirectoryCreated,
        FetchEvent::UnpackOk,
        FetchEvent::Begin,
    ];
    for e in later {
        let (next, action) = fetch_step(phase, e);
        assert_eq!(FetchPhase::Failed(FetchFailure::BlobFetch), next);
        assert_eq!(FetchAction::Hold, action);
        assert_ne!(FetchAction::Unpack, action);
        phase = next;
    }
}

#[test]
fn each_step_surfaces_its_own_failure() {
    let (p, _) = fetch_step(FetchPhase::Authenticating, FetchEvent::AuthFailed);
    assert_eq!(FetchPhase::Failed(FetchFailure::Authentication), p);
    let (p, _) = fetch_step(FetchPhase::FetchingManifest, FetchEvent::ManifestFailed);
    assert_eq!(FetchPhase::Failed(FetchFailure::Manifest), p);
    let (p, _) = fetch_step(FetchPhase::CreatingDirectory, FetchEvent::DirectoryFailed);
    assert_eq!(FetchPhase::Failed(FetchFailure::Filesystem), p);
    let (p, _) = fetch_step(FetchPhase::Unpacking, FetchEvent::UnpackFailed);
    assert_eq!(FetchPhase::Failed(FetchFailure::Unpack), p);
}

#[test]
fn login_scope_requests_pull_access() {
    assert_eq!(
        "repository:heroku/jvm-function-invoker:pull",
        &login_scope("heroku/jvm-function-invoker")
    );
}

#[test]
fn failures_map_to_the_original_error_kinds() {
    assert!(matches!(
        failure_error(FetchFailure::Authentication, String::from("401")),
        DockerRegistryError::DockerRegistry(_)
    ));
    assert!(matches!(
        failure_error(FetchFailure::BlobFetch, String::from("timeout")),
        DockerRegistryError::DockerRegistry(_)
    ));
    assert!(matches!(
        failure_error(FetchFailure::Unpack, String::from("bad entry")),
        DockerRegistryError::Render(_)
    ));
    assert!(matches!(
        failure_error(FetchFailure::Filesystem, String::from("exists")),
        DockerRegistryError::Io(_)
    ));
}
