use git_spawn::parse::show::{parse_show};

fn header(subject: &str) -> String {
    format!(
        "sha1\x1fsh\x1fAlice\x1fa@x\x1f2024-01-01T00:00:00Z\x1fBob\x1fb@y\x1f2024-01-02T00:00:00Z\x1f{subject}\x1f\x1e"
    )
}

#[test]
fn default_format_splits_header_and_diff() {
    let input = format!(
        "{}\ndiff --git a/f b/f\nindex 1..2 100644\n--- a/f\n+++ b/f\n@@ -1 +1 @@\n-a\n+b\n",
        header("hello")
    );
    let result = parse_show(&input, false, false).unwrap();
    let commit = result.commit.expect("commit header");
    assert_eq!(commit.sha, "sha1");
    assert_eq!(commit.subject, "hello");
    assert!(result.diff.starts_with("diff --git a/f b/f"));
    assert!(result.stat.is_none());
    assert_eq!(result.raw, input);
}

#[test]
fn stat_present_populates_stat_and_empties_diff() {
    let input = format!(
        "{}\n f | 2 +-\n 1 file changed, 1 insertion(+), 1 deletion(-)\n",
        header("hello")
    );
    let result = parse_show(&input, true, false).unwrap();
    assert!(result.diff.is_empty());
    let stat = result.stat.expect("stat block");
    assert!(stat.contains("1 file changed"));
}

#[test]
fn stat_absent_is_none() {
    let input = format!("{}\ndiff --git a/f b/f\n", header("hello"));
    let result = parse_show(&input, false, false).unwrap();
    assert!(result.stat.is_none());
}

#[test]
fn custom_format_only_populates_raw() {
    let input = "deadbeef Some custom oneline output\n";
    let result = parse_show(input, false, true).unwrap();
    assert!(result.commit.is_none());
    assert!(result.diff.is_empty());
    assert!(result.stat.is_none());
    assert_eq!(result.raw, input);
}

#[test]
fn no_patch_yields_empty_diff() {
    let input = header("hello");
    let result = parse_show(&input, false, false).unwrap();
    assert!(result.diff.is_empty());
    assert!(result.stat.is_none());
    assert_eq!(result.commit.unwrap().subject, "hello");
}

#[test]
fn missing_separator_falls_back_to_raw_diff() {
    let input = "not a header at all\n";
    let result = parse_show(input, false, false).unwrap();
    assert!(result.commit.is_none());
    assert_eq!(result.diff, input);
    assert_eq!(result.raw, input);
}

#[test]
fn too_few_header_fields_errors() {
    let input = "a\x1fb\x1e\ndiff --git a/f b/f\n";
    assert!(parse_show(input, false, false).is_err());
}
