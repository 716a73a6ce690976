use git_spawn::parse::reflog::{parse_reflog};

#[test]
fn parses_multiple_entries() {
    let input = "a\x1fa\x1fHEAD@{0}\x1fcommit: second\x1e\
        b\x1fb\x1fHEAD@{1}\x1fcheckout: moving from main to topic\x1e";
    let out = parse_reflog(input).unwrap();
    assert_eq!(out.len(), 2);
    assert_eq!(out[0].hash, "a");
    assert_eq!(out[0].selector, "HEAD@{0}");
    assert_eq!(out[0].action, "commit");
    assert_eq!(out[0].message, "second");
    assert_eq!(out[1].action, "checkout");
    assert_eq!(out[1].message, "moving from main to topic");
}

#[test]
fn subject_without_colon_becomes_whole_action() {
    let input = "abc\x1fabc\x1fHEAD@{0}\x1fsome subject with no colon\x1e";
    let out = parse_reflog(input).unwrap();
    assert_eq!(out.len(), 1);
    assert_eq!(out[0].action, "some subject with no colon");
    assert_eq!(out[0].message, "");
}

#[test]
fn empty_message_after_colon() {
    let input = "abc\x1fabc\x1fHEAD@{0}\x1frebase (finish): \x1e";
    let out = parse_reflog(input).unwrap();
    assert_eq!(out.len(), 1);
    assert_eq!(out[0].action, "rebase (finish)");
    assert_eq!(out[0].message, "");
}

#[test]
fn reflog_empty_input_yields_no_entries() {
    assert!(parse_reflog("").unwrap().is_empty());
}

#[test]
fn reflog_too_few_fields_errors() {
    assert!(parse_reflog("a\x1fb\x1e").is_err());
}
