use git_spawn::parse::version::{parse_version};

#[test]
fn parses_a_plain_three_component_version() {
    let v = parse_version("git version 2.45.1\n").unwrap();
    assert_eq!((v.major, v.minor, v.patch), (2, 45, Some(1)));
    assert_eq!(v.suffix, None);
    assert_eq!(v.raw, "2.45.1");
}

#[test]
fn keeps_a_platform_suffix_out_of_the_numbers() {
    let v = parse_version("git version 2.45.1.windows.1\n").unwrap();
    assert_eq!((v.major, v.minor, v.patch), (2, 45, Some(1)));
    assert_eq!(v.suffix.as_deref(), Some("windows.1"));
    assert_eq!(v.raw, "2.45.1.windows.1");
}

#[test]
fn keeps_a_build_tag_in_raw_only() {
    let v = parse_version("git version 2.39.5 (Apple Git-154)\n").unwrap();
    assert_eq!((v.major, v.minor, v.patch), (2, 39, Some(5)));
    assert_eq!(v.suffix, None);
    assert_eq!(v.raw, "2.39.5 (Apple Git-154)");
}

#[test]
fn a_non_numeric_third_component_is_a_suffix_not_a_patch() {
    let v = parse_version("git version 2.46.0.rc1").unwrap();
    assert_eq!(v.patch, Some(0));
    assert_eq!(v.suffix.as_deref(), Some("rc1"));

    let v = parse_version("git version 2.46.rc1").unwrap();
    assert_eq!(v.patch, None);
    assert_eq!(v.suffix.as_deref(), Some("rc1"));
}

#[test]
fn parses_a_two_component_version() {
    let v = parse_version("git version 2.45").unwrap();
    assert_eq!((v.major, v.minor, v.patch), (2, 45, None));
    assert_eq!(v.suffix, None);
}

#[test]
fn finds_the_version_line_in_build_options_output() {
    let out = "git version 2.45.1\ncpu: x86_64\nsizeof-long: 8\n";
    let v = parse_version(out).unwrap();
    assert_eq!((v.major, v.minor), (2, 45));
    assert_eq!(v.raw, "2.45.1");
}

#[test]
fn rejects_output_without_a_version_line() {
    assert!(parse_version("").is_none());
    assert!(parse_version("cpu: x86_64\n").is_none());
    assert!(parse_version("git version\n").is_none());
}

#[test]
fn rejects_non_numeric_leading_components() {
    assert!(parse_version("git version next").is_none());
    assert!(parse_version("git version 2.x.1").is_none());
}

#[test]
fn is_at_least_ignores_the_suffix() {
    let v = parse_version("git version 2.45.1.windows.1").unwrap();
    assert!(v.is_at_least(2, 45, 1));
    assert!(v.is_at_least(1, 99, 99));
    assert!(!v.is_at_least(2, 45, 2));
}

#[test]
fn is_at_least_treats_a_missing_patch_as_zero() {
    let v = parse_version("git version 2.45").unwrap();
    assert!(v.is_at_least(2, 45, 0));
    assert!(!v.is_at_least(2, 45, 1));
}
