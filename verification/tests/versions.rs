use function_run::strutil::parse_u64;
use function_run::strutil::u64_to_string;
use function_run::version::Version;

#[test]
fn parses_a_plain_version() {
    let v = Version::parse("1.2.3").unwrap();
    assert_eq!(1, v.major);
    assert_eq!(2, v.minor);
    assert_eq!(3, v.patch);
    assert_eq!("", v.pre);
    assert_eq!("", v.build);
}

#[test]
fn parses_pre_release_and_build_metadata() {
    let v = Version::parse("0.5.2-rc.1+build.5").unwrap();
    assert_eq!(0, v.major);
    assert_eq!(5, v.minor);
    assert_eq!(2, v.patch);
    assert_eq!("rc.1", v.pre);
    assert_eq!("build.5", v.build);
}

#[test]
fn rejects_malformed_versions() {
    assert!(Version::parse("").is_none());
    assert!(Version::parse("1.2").is_none());
    assert!(Version::parse("1.2.3.4").is_none());
    assert!(Version::parse("01.2.3").is_none());
    assert!(Version::parse("1.2.3-").is_none());
    assert!(Version::parse("1.2.3+").is_none());
    assert!(Version::parse("a.b.c").is_none());
}

#[test]
fn renders_the_canonical_form() {
    assert_eq!("1.2.3", &Version::new(1, 2, 3).to_version_string());
    let v = Version::parse("0.5.2-rc.1+build.5").unwrap();
    assert_eq!("0.5.2-rc.1+build.5", &v.to_version_string());
}

#[test]
fn compares_versions_exactly() {
    let a = Version::new(0, 5, 2);
    let b = Version::parse("0.5.2").unwrap();
    assert!(a.same_version(&b));
    let c = Version::parse("0.5.2-rc.1").unwrap();
    assert!(!a.same_version(&c));
    assert!(!a.same_version(&Version::new(0, 5, 3)));
}

#[test]
fn parses_decimal_u64_values() {
    assert_eq!(Some(0), parse_u64("0"));
    assert_eq!(Some(120034), parse_u64("120034"));
    assert_eq!(Some(u64::MAX), parse_u64("18446744073709551615"));
    assert_eq!(None, parse_u64("18446744073709551616"));
    assert_eq!(None, parse_u64(""));
    assert_eq!(None, parse_u64("12a"));
}

#[test]
fn renders_decimal_u64_values() {
    assert_eq!("0", &u64_to_string(0));
    assert_eq!("7", &u64_to_string(7));
    assert_eq!("120034", &u64_to_string(120034));
    assert_eq!("18446744073709551615", &u64_to_string(u64::MAX));
}
