use git_spawn::parse::count_objects::{ObjectSize, parse_count_objects, parse_count_objects_terse};

const VERBOSE: &str = "count: 5\nsize: 20\nin-pack: 8\npacks: 1\nsize-pack: 4\n\
                           prune-packable: 2\ngarbage: 1\nsize-garbage: 3\n";

#[test]
fn parses_every_verbose_statistic() {
    let stats = parse_count_objects(VERBOSE).unwrap();
    assert_eq!(stats.count, 5);
    assert_eq!(stats.size.kib, Some(20));
    assert_eq!(stats.in_pack, 8);
    assert_eq!(stats.packs, 1);
    assert_eq!(stats.size_pack.kib, Some(4));
    assert_eq!(stats.prune_packable, 2);
    assert_eq!(stats.garbage, 1);
    assert_eq!(stats.size_garbage.kib, Some(3));
}

#[test]
fn keeps_human_readable_sizes_as_text_without_a_number() {
    let out = "count: 5\nsize: 20.00 KiB\nin-pack: 8\npacks: 1\n\
                   size-pack: 1.50 KiB\nprune-packable: 0\ngarbage: 0\n\
                   size-garbage: 0 bytes\n";
    let stats = parse_count_objects(out).unwrap();
    assert_eq!(stats.count, 5);
    assert_eq!(
        stats.size,
        ObjectSize {
            kib: None,
            raw: "20.00 KiB".into()
        }
    );
    assert_eq!(stats.size_pack.kib, None);
    assert_eq!(stats.size_pack.raw, "1.50 KiB");
    assert_eq!(stats.size_garbage.raw, "0 bytes");
}

#[test]
fn ignores_an_unrecognized_statistic() {
    let out = format!("{VERBOSE}size-future: 7\n");
    assert_eq!(parse_count_objects(&out), parse_count_objects(VERBOSE));
}

#[test]
fn rejects_output_missing_a_statistic() {
    let out = "count: 5\nsize: 20\nin-pack: 8\npacks: 1\n";
    assert!(parse_count_objects(out).is_none());
}

#[test]
fn rejects_a_non_numeric_count() {
    let out = VERBOSE.replace("count: 5", "count: many");
    assert!(parse_count_objects(&out).is_none());
}

#[test]
fn rejects_the_terse_form() {
    assert!(parse_count_objects("5 objects, 20 kilobytes\n").is_none());
    assert!(parse_count_objects("").is_none());
}

#[test]
fn parses_the_terse_form() {
    let (objects, size) = parse_count_objects_terse("5 objects, 20 kilobytes\n").unwrap();
    assert_eq!(objects, 5);
    assert_eq!(size.kib, Some(20));
    assert_eq!(size.raw, "20 kilobytes");
}

#[test]
fn parses_a_human_readable_terse_size_as_text() {
    let (objects, size) = parse_count_objects_terse("5 objects, 20.00 KiB\n").unwrap();
    assert_eq!(objects, 5);
    assert_eq!(size.kib, None);
    assert_eq!(size.raw, "20.00 KiB");
}

#[test]
fn parses_a_single_object() {
    let (objects, size) = parse_count_objects_terse("1 objects, 4 kilobytes").unwrap();
    assert_eq!(objects, 1);
    assert_eq!(size.kib, Some(4));
}

#[test]
fn rejects_terse_input_of_another_shape() {
    assert!(parse_count_objects_terse("").is_none());
    assert!(parse_count_objects_terse("count: 5\nsize: 20\n").is_none());
    assert!(parse_count_objects_terse("many objects, 20 kilobytes").is_none());
    assert!(parse_count_objects_terse("5 loose, 20 kilobytes").is_none());
}
