use git_spawn::parse::shortlog::{parse_shortlog};

#[test]
fn parses_the_default_grouped_format() {
    let input = "\
Ann Author (2):
      add one
      add two

Bob Builder (1):
      fix three

";
    let entries = parse_shortlog(input);
    assert_eq!(entries.len(), 2);
    assert_eq!(entries[0].author, "Ann Author");
    assert_eq!(entries[0].email, None);
    assert_eq!(entries[0].count, 2);
    assert_eq!(entries[0].subjects, ["add one", "add two"]);
    assert_eq!(entries[1].author, "Bob Builder");
    assert_eq!(entries[1].count, 1);
    assert_eq!(entries[1].subjects, ["fix three"]);
}

#[test]
fn parses_the_summary_format() {
    let input = "    12\tAnn Author\n     1\tBob Builder\n";
    let entries = parse_shortlog(input);
    assert_eq!(entries.len(), 2);
    assert_eq!(entries[0].author, "Ann Author");
    assert_eq!(entries[0].count, 12);
    assert!(entries[0].subjects.is_empty());
    assert_eq!(entries[1].count, 1);
}

#[test]
fn splits_the_email_out_of_the_identity() {
    let input = "     2\tAnn Author <ann@example.com>\n";
    let entries = parse_shortlog(input);
    assert_eq!(entries[0].author, "Ann Author");
    assert_eq!(entries[0].email.as_deref(), Some("ann@example.com"));

    let grouped = parse_shortlog("Ann Author <ann@example.com> (1):\n      add one\n");
    assert_eq!(grouped[0].author, "Ann Author");
    assert_eq!(grouped[0].email.as_deref(), Some("ann@example.com"));
}

#[test]
fn wrapped_subjects_are_rejoined() {
    let input = "Ann Author (1):\n      a subject long enough that git\n         wrapped it\n";
    let entries = parse_shortlog(input);
    assert_eq!(
        entries[0].subjects,
        ["a subject long enough that git wrapped it"]
    );
}

#[test]
fn a_name_containing_parentheses_keeps_them() {
    let input = "Ann Author (the maintainer) (3):\n      add one\n";
    let entries = parse_shortlog(input);
    assert_eq!(entries[0].author, "Ann Author (the maintainer)");
    assert_eq!(entries[0].count, 3);
}

#[test]
fn subjects_before_any_header_are_ignored() {
    let entries = parse_shortlog("      orphaned subject\nAnn Author (1):\n      add one\n");
    assert_eq!(entries.len(), 1);
    assert_eq!(entries[0].subjects, ["add one"]);
}

#[test]
fn shortlog_empty_input_yields_no_entries() {
    assert!(parse_shortlog("").is_empty());
}
