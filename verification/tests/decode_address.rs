use function_run::reference::decode;

#[test]
fn decodes_a_full_address() {
    let r = decode("host/a/b/image@sha256:deadbeef").unwrap();
    assert_eq!("host", r.host);
    assert_eq!("a/b/image", r.image);
    assert_eq!("sha256:deadbeef", r.reference);
}

#[test]
fn decodes_a_tag_reference() {
    let r = decode("docker.io/heroku/pack@latest").unwrap();
    assert_eq!("docker.io", r.host);
    assert_eq!("heroku/pack", r.image);
    assert_eq!("latest", r.reference);
}

#[test]
fn rejects_an_address_without_at_sign() {
    assert!(decode("no-at-sign").is_none());
}

#[test]
fn rejects_an_address_with_empty_locator() {
    assert!(decode("@onlyref").is_none());
}

#[test]
fn rejects_a_locator_without_slash() {
    assert!(decode("host-no-slash@ref").is_none());
}

#[test]
fn rejects_an_empty_reference() {
    assert!(decode("host/image@").is_none());
}

#[test]
fn rejects_an_empty_host() {
    assert!(decode("/image@ref").is_none());
}

#[test]
fn rejects_an_empty_image() {
    assert!(decode("host/@ref").is_none());
}
