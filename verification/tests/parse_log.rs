use git_spawn::parse::log::{parse_log};

#[test]
fn parses_single_commit() {
    let input = "sha1\x1fsh\x1fAlice\x1fa@x\x1f2024-01-01T00:00:00Z\x1fBob\x1fb@y\x1f2024-01-02T00:00:00Z\x1fhello\x1fbody text\x1e";
    let out = parse_log(input).unwrap();
    assert_eq!(out.len(), 1);
    assert_eq!(out[0].sha, "sha1");
    assert_eq!(out[0].author_name, "Alice");
    assert_eq!(out[0].body, "body text");
}

#[test]
fn parses_multiple_commits() {
    let input = "a\x1fa\x1fA\x1fa@x\x1fd1\x1fB\x1fb@y\x1fd2\x1fone\x1f\x1e\
        b\x1fb\x1fA\x1fa@x\x1fd3\x1fB\x1fb@y\x1fd4\x1ftwo\x1f\x1e";
    let out = parse_log(input).unwrap();
    assert_eq!(out.len(), 2);
    assert_eq!(out[0].subject, "one");
    assert_eq!(out[1].subject, "two");
}

#[test]
fn empty_yields_no_commits() {
    assert!(parse_log("").unwrap().is_empty());
}

#[test]
fn log_too_few_fields_errors() {
    assert!(parse_log("a\x1fb\x1e").is_err());
}
