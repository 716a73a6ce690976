use git_spawn::signing::{SignatureFormat, bool_value, parse_bool};

#[test]
fn signature_format_round_trips_known_values() {
    for (raw, fmt) in [
        ("openpgp", SignatureFormat::OpenPgp),
        ("ssh", SignatureFormat::Ssh),
        ("x509", SignatureFormat::X509),
    ] {
        assert_eq!(SignatureFormat::from_value(raw), fmt);
        assert_eq!(fmt.as_str(), raw);
    }
}

#[test]
fn signature_format_preserves_unknown_values() {
    let fmt = SignatureFormat::from_value("smime");
    assert_eq!(fmt, SignatureFormat::Other("smime".to_string()));
    assert_eq!(fmt.as_str(), "smime");
}

#[test]
fn parse_bool_matches_git_truthiness() {
    for truthy in ["true", "TRUE", "yes", "On", "1", "", "  true  "] {
        assert!(parse_bool(truthy), "{truthy:?} should be true");
    }
    for falsy in ["false", "no", "off", "0", "nope"] {
        assert!(!parse_bool(falsy), "{falsy:?} should be false");
    }
}

#[test]
fn bool_value_is_canonical() {
    assert_eq!(bool_value(true), "true");
    assert_eq!(bool_value(false), "false");
}
