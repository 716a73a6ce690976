use git_spawn::tags::{TagKind, parse_tags};

#[test]
fn parses_lightweight_tag() {
    let input = "v0.1\0commit\0abc1234\0\0\0\0\0\n";
    let tags = parse_tags(input).unwrap();
    assert_eq!(tags.len(), 1);
    assert_eq!(tags[0].name, "v0.1");
    assert_eq!(tags[0].kind, TagKind::Lightweight);
    assert_eq!(tags[0].target, "abc1234");
    assert!(tags[0].message.is_none());
    assert!(tags[0].tagger.is_none());
}

#[test]
fn parses_annotated_tag() {
    let input = "v1.0\0tag\0deadbeef\0abc1234\0release 1.0\0Alice\0<alice@example.com>\x002026-04-01T12:00:00+00:00\n";
    let tags = parse_tags(input).unwrap();
    assert_eq!(tags.len(), 1);
    let t = &tags[0];
    assert_eq!(t.name, "v1.0");
    assert_eq!(t.kind, TagKind::Annotated);
    assert_eq!(t.target, "abc1234");
    assert_eq!(t.message.as_deref(), Some("release 1.0"));
    let tagger = t.tagger.as_ref().unwrap();
    assert_eq!(tagger.name, "Alice");
    assert_eq!(tagger.email, "alice@example.com");
    assert_eq!(tagger.date, "2026-04-01T12:00:00+00:00");
}

#[test]
fn parses_mixed_records() {
    let input = "lw\0commit\0aaaaaaa\0\0\0\0\0\n\
        ann\0tag\0bbbbbbb\0ccccccc\0msg\0Bob\0<b@example.com>\x002026-01-01T00:00:00+00:00\n";
    let tags = parse_tags(input).unwrap();
    assert_eq!(tags.len(), 2);
    assert_eq!(tags[0].kind, TagKind::Lightweight);
    assert_eq!(tags[1].kind, TagKind::Annotated);
    assert_eq!(tags[1].target, "ccccccc");
}
