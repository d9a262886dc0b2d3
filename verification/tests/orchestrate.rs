use function_run::orchestrator::config_dir_for_home;
use function_run::orchestrator::config_layout;
use function_run::orchestrator::download;
use function_run::orchestrator::find_entry;
use function_run::orchestrator::setup_plan;
use function_run::orchestrator::DownloadError;
use function_run::registry::Buildpack;
use function_run::registry::BuildpackRegistryEntry;
use function_run::version::Version;

fn entry(version: Version, address: &str) -> BuildpackRegistryEntry {
    BuildpackRegistryEntry {
        namespace: String::from("heroku"),
        name: String::from("jvm"),
        version,
        yanked: false,
        address: String::from(address),
    }
}

fn entries() -> Vec<BuildpackRegistryEntry> {
    vec![
        entry(Version::new(0, 1, 0), "docker.io/heroku/jvm@sha256:aaa"),
        entry(Version::new(0, 5, 2), "docker.io/heroku/jvm@sha256:bbb"),
    ]
}

#[test]
fn finds_the_requested_version() {
    let es = entries();
    assert_eq!(Some(1), find_entry(&es, &Version::new(0, 5, 2)));
    assert_eq!(None, find_entry(&es, &Version::new(9, 9, 9)));
}

#[test]
fn download_decodes_the_selected_address() {
    let es = entries();
    let ir = download(&es, &Version::new(0, 5, 2)).unwrap();
    assert_eq!("docker.io", ir.host);
    assert_eq!("heroku/jvm", ir.image);
    assert_eq!("sha256:bbb", ir.reference);
}

#[test]
fn an_absent_version_is_no_version_found() {
    let es = entries();
    let wanted = Version::new(9, 9, 9);
    match download(&es, &wanted) {
        Err(DownloadError::NoVersionFound(v)) => assert_eq!(wanted, v),
        _ => panic!("expected NoVersionFound"),
    }
}

#[test]
fn a_malformed_address_is_invalid_address() {
    let es = vec![entry(Version::new(0, 1, 0), "malformed")];
    match download(&es, &Version::new(0, 1, 0)) {
        Err(DownloadError::InvalidAddress(a)) => assert_eq!("malformed", a),
        _ => panic!("expected InvalidAddress"),
    }
}

#[test]
fn setup_plan_derives_the_materialization_paths() {
    let bp = Buildpack::new(String::from("heroku"), String::from("jvm"));
    let es = entries();
    let plan = setup_plan(&bp, &es, &Version::new(0, 5, 2), "/cfg/buildpacks", false).unwrap();
    assert_eq!("/cfg/buildpacks/heroku_jvm-0.5.2", plan.download_dir);
    assert_eq!(
        "/cfg/buildpacks/heroku_jvm-0.5.2/cnb/buildpacks/heroku_jvm/0.5.2",
        plan.buildpack_dir
    );
    let ir = plan.fetch.unwrap();
    assert_eq!("docker.io", ir.host);
    assert_eq!("heroku/jvm", ir.image);
    assert_eq!("sha256:bbb", ir.reference);
}

#[test]
fn an_existing_materialization_skips_the_fetch() {
    let bp = Buildpack::new(String::from("heroku"), String::from("jvm"));
    let es = entries();
    let plan = setup_plan(&bp, &es, &Version::new(0, 5, 2), "/cfg/buildpacks", true).unwrap();
    assert!(plan.fetch.is_none());
    assert_eq!("/cfg/buildpacks/heroku_jvm-0.5.2", plan.download_dir);
}

#[test]
fn the_config_layout_is_fixed() {
    let layout = config_layout("/home/me/.sfdx-function-run");
    assert_eq!("/home/me/.sfdx-function-run/home", layout.home_dir);
    assert_eq!("/home/me/.sfdx-function-run/platform", layout.platform_dir);
    assert_eq!("/home/me/.sfdx-function-run/layers", layout.layers_dir);
    assert_eq!("/home/me/.sfdx-function-run/tmp", layout.tmp_dir);
    assert_eq!("/home/me/.sfdx-function-run/plan.toml", layout.plan);
    assert_eq!("/home/me/.sfdx-function-run/build_plan.toml", layout.build_plan);
    assert_eq!("/home/me/.sfdx-function-run/buildpacks", layout.buildpacks_dir);
}

#[test]
fn the_config_dir_needs_a_home() {
    assert_eq!(
        Some(String::from("/home/me/.sfdx-function-run")),
        config_dir_for_home(&Some(String::from("/home/me")))
    );
    assert_eq!(None, config_dir_for_home(&None));
}
