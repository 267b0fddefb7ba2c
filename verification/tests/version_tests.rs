use solfuzz::version::{dec_render, parse_version, render_version, tool_file_name};

#[test]
fn release_triple_parses() {
    let v = parse_version("0.8.27").expect("valid version");
    assert_eq!(v.major, 0);
    assert_eq!(v.minor, 8);
    assert_eq!(v.patch, 27);
    assert!(v.pre.is_empty());
    assert!(v.build.is_empty());
}

#[test]
fn pre_release_and_build_are_kept() {
    let v = parse_version("1.2.3-alpha.1+build5").expect("valid version");
    assert_eq!(v.major, 1);
    assert_eq!(v.minor, 2);
    assert_eq!(v.patch, 3);
    assert_eq!(v.pre, b"alpha.1".to_vec());
    assert_eq!(v.build, b"build5".to_vec());
}

#[test]
fn malformed_versions_are_rejected() {
    assert!(parse_version("").is_none());
    assert!(parse_version("1.0").is_none());
    assert!(parse_version("1.0.01").is_none());
    assert!(parse_version("banana").is_none());
    assert!(parse_version("1.0.0-").is_none());
    assert!(parse_version("23456789999999999999.0.0").is_none());
}

#[test]
fn decimal_rendering_is_exact() {
    assert_eq!(dec_render(0), b"0".to_vec());
    assert_eq!(dec_render(7), b"7".to_vec());
    assert_eq!(dec_render(27), b"27".to_vec());
    assert_eq!(dec_render(18446744073709551615), b"18446744073709551615".to_vec());
}

#[test]
fn version_rendering_round_trips() {
    let v = parse_version("0.8.27").unwrap();
    assert_eq!(render_version(&v), b"0.8.27".to_vec());
    let w = parse_version("1.2.3-alpha.1+build5").unwrap();
    assert_eq!(render_version(&w), b"1.2.3-alpha.1+build5".to_vec());
}

#[test]
fn tool_name_follows_convention() {
    let v = parse_version("0.8.27").unwrap();
    assert_eq!(tool_file_name(&v, &Vec::new()), b"solc-0.8.27".to_vec());
    assert_eq!(tool_file_name(&v, &b".exe".to_vec()), b"solc-0.8.27.exe".to_vec());
}
