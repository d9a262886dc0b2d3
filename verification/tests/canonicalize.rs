use function_run::registry::Buildpack;

#[test]
fn it_canonicalizes_1_char() {
    assert_eq!(
        "1/test_a",
        &Buildpack::new(String::from("test"), String::from("a")).canonicalize_registry()
    );
}

#[test]
fn it_canonicalizes_2_chars() {
    assert_eq!(
        "2/test_ab",
        &Buildpack::new(String::from("test"), String::from("ab")).canonicalize_registry()
    );
}

#[test]
fn it_canonicalizes_3_chars() {
    assert_eq!(
        "3/a/test_abc",
        &Buildpack::new(String::from("test"), String::from("abc")).canonicalize_registry()
    );
}

#[test]
fn it_canonicalizes_4_or_more_chars() {
    assert_eq!(
        "ab/cd/test_abcde",
        &Buildpack::new(String::from("test"), String::from("abcde")).canonicalize_registry()
    );
}

#[test]
fn it_builds_the_index_url() {
    let mut buildpack = Buildpack::new(
        String::from("heroku"),
        String::from("jvm-function-invoker"),
    );
    buildpack.set_host(String::from("http://127.0.0.1:8080"));
    assert_eq!(
        "http://127.0.0.1:8080/buildpacks/registry-index/main/jv/m-/heroku_jvm-function-invoker",
        &buildpack.registry_url()
    );
}

#[test]
fn it_displays_namespace_and_name() {
    let buildpack = Buildpack::new(String::from("heroku"), String::from("jvm"));
    assert_eq!("heroku_jvm", &buildpack.id());
    assert_eq!("https://raw.githubusercontent.com", &buildpack.host);
}
