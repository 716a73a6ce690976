use git_spawn::conflicts::{conflicts_in, Conflict, ConflictKind};
use git_spawn::hooks::{disabled_mode, enabled_mode, is_executable_mode, HookOps};
use git_spawn::info::{default_branch_from, repo_info_from};
use git_spawn::parse::status::{StatusEntry, StatusKind};
use git_spawn::remotes::{parse_remotes, RemoteOps};
use git_spawn::search::{parse_hits, SearchOps};
use git_spawn::signing::{
    bool_value, flag_value, parse_bool, SignatureFormat, SigningConfig, SigningOps,
};
use git_spawn::stashes::{parse_entry, parse_stash_list, stash_ref};
use git_spawn::tags::{parse_tags, TagKind};
use git_spawn::text::decimal_text;
use git_spawn::{CommandOutput, Error, GitCommand, Repository};

fn output(stdout: &[u8], exit_code: i32) -> CommandOutput {
    CommandOutput {
        stdout: stdout.to_vec(),
        stderr: String::from("oops"),
        exit_code,
        success: exit_code == 0,
    }
}

fn parse_message(e: Error) -> String {
    match e {
        Error::ParseError { message } => message,
        other => panic!("not a parse error: {other:?}"),
    }
}

// ---- search ----------------------------------------------------------------

#[test]
fn search_without_pattern_is_invalid_config() {
    let repo = Repository::new_unchecked("/r");
    match repo.search().grep_args() {
        Err(Error::InvalidConfig { message }) => assert_eq!(message, "search requires a pattern"),
        other => panic!("unexpected {other:?}"),
    }
}

#[test]
fn search_builds_grep_arguments_in_order() {
    let repo = Repository::new_unchecked("/r");
    let args = repo
        .search()
        .pattern("TODO")
        .in_path("src/")
        .in_paths(vec!["docs/".to_string(), "tests/".to_string()])
        .case_insensitive()
        .word_regexp()
        .cached()
        .grep_args()
        .unwrap();
    assert_eq!(
        args,
        vec!["grep", "-n", "-i", "-w", "--cached", "-e", "TODO", "--", "src/", "docs/", "tests/"]
    );
}

#[test]
fn search_plain_pattern_has_no_pathspec() {
    let repo = Repository::new_unchecked("/r");
    let ops: SearchOps<'_> = repo.search().pattern("x").fixed_strings().extended_regexp().perl_regexp();
    assert_eq!(ops.repo().path(), "/r");
    assert_eq!(ops.grep_args().unwrap(), vec!["grep", "-n", "-F", "-E", "-P", "-e", "x"]);
}

#[test]
fn search_no_match_exit_is_empty() {
    let hits = SearchOps::hits(&output(b"", 1)).unwrap();
    assert!(hits.is_empty());
}

#[test]
fn search_other_failure_is_command_failed() {
    match SearchOps::hits(&output(b"", 128)) {
        Err(Error::CommandFailed { exit_code, stderr, .. }) => {
            assert_eq!(exit_code, 128);
            assert_eq!(stderr, "oops");
        }
        other => panic!("unexpected {other:?}"),
    }
}

#[test]
fn search_success_parses_hits() {
    let hits = SearchOps::hits(&output("a.rs:3:héllo: there\n".as_bytes(), 0)).unwrap();
    assert_eq!(hits.len(), 1);
    assert_eq!(hits[0].path, "a.rs");
    assert_eq!(hits[0].line, 3);
    assert_eq!(hits[0].text, "héllo: there");
}

#[test]
fn search_error_messages_quote_the_line() {
    assert_eq!(
        parse_message(parse_hits("a.rs:xx:text\n").unwrap_err()),
        "grep line number is not a number: \"a.rs:xx:text\""
    );
    assert_eq!(
        parse_message(parse_hits("a.rs\n").unwrap_err()),
        "grep line has no line number: \"a.rs\""
    );
    assert_eq!(
        parse_message(parse_hits("a.rs:1\n").unwrap_err()),
        "grep line has no text: \"a.rs:1\""
    );
}

#[test]
fn search_line_number_accepts_plus_and_rejects_overflow() {
    assert_eq!(parse_hits("a:+7:x\n").unwrap()[0].line, 7);
    assert!(parse_hits("a:18446744073709551616:x\n").is_err());
    assert_eq!(parse_hits("a:18446744073709551615:x\n").unwrap()[0].line, u64::MAX);
}

// ---- signing ---------------------------------------------------------------

#[test]
fn signing_config_from_raw_values() {
    let cfg = SigningConfig::from_values(
        Some("KEY".to_string()),
        Some("ssh".to_string()),
        Some(" Yes ".to_string()),
        None,
    );
    assert_eq!(cfg.signing_key.as_deref(), Some("KEY"));
    assert_eq!(cfg.format, Some(SignatureFormat::Ssh));
    assert!(cfg.sign_commits);
    assert!(!cfg.sign_tags);
    let empty = SigningConfig::from_values(None, None, None, Some("off".to_string()));
    assert_eq!(empty, SigningConfig::default());
}

#[test]
fn signing_flag_value_reads_truthiness() {
    assert!(!flag_value(&None));
    assert!(flag_value(&Some(String::new())));
    assert!(!flag_value(&Some("nope".to_string())));
}

#[test]
fn signing_bool_round_trip_law() {
    for b in [true, false] {
        assert_eq!(parse_bool(&bool_value(b)), b);
    }
}

#[test]
fn signing_format_round_trip_law() {
    for raw in ["openpgp", "ssh", "x509", "smime", "", "SSH"] {
        assert_eq!(SignatureFormat::from_value(raw).as_str(), raw);
    }
    for f in [SignatureFormat::OpenPgp, SignatureFormat::Ssh, SignatureFormat::X509] {
        assert_eq!(SignatureFormat::from_value(f.as_str()), f);
    }
}

#[test]
fn signing_config_arguments() {
    let repo = Repository::new_unchecked("/r");
    let ops: SigningOps<'_> = repo.signing();
    assert_eq!(ops.get_args(git_spawn::signing::KEY_FORMAT), vec!["config", "gpg.format"]);
    assert_eq!(
        ops.set_args(git_spawn::signing::KEY_COMMIT_SIGN, bool_value(true)),
        vec!["config", "commit.gpgsign", "true"]
    );
    assert_eq!(ops.repo().path(), "/r");
}

#[test]
fn signing_value_from_captured_runs() {
    assert_eq!(SigningOps::value_from(&output(b"  ssh\n", 0)).unwrap().as_deref(), Some("ssh"));
    assert_eq!(SigningOps::value_from(&output(b"", 1)).unwrap(), None);
    assert!(matches!(
        SigningOps::value_from(&output(b"", 3)),
        Err(Error::CommandFailed { exit_code: 3, .. })
    ));
}

// ---- stashes ---------------------------------------------------------------

#[test]
fn stash_list_command_uses_machine_format() {
    let repo = Repository::new_unchecked("/r");
    let cmd = repo.stashes().list_command();
    assert_eq!(cmd.build_command_args(), vec!["stash", "list"]);
    assert_eq!(cmd.get_executor().cwd.as_deref(), Some("/r"));
    assert_eq!(
        cmd.command_line(),
        vec!["stash", "list", "-z", "--format=%gd%x1f%H%x1f%gs"]
    );
}

#[test]
fn stash_mutating_commands() {
    let repo = Repository::new_unchecked("/r");
    let ops = repo.stashes();
    assert_eq!(ops.push_command("wip").build_command_args(), vec!["stash", "push", "-m", "wip"]);
    assert_eq!(ops.pop_command(2).build_command_args(), vec!["stash", "pop", "stash@{2}"]);
    assert_eq!(ops.apply_command(0).build_command_args(), vec!["stash", "apply", "stash@{0}"]);
    assert_eq!(ops.drop_command(11).build_command_args(), vec!["stash", "drop", "stash@{11}"]);
    assert_eq!(ops.clear_command().build_command_args(), vec!["stash", "clear"]);
    assert_eq!(ops.clear_command().get_executor().cwd.as_deref(), Some("/r"));
}

#[test]
fn stash_ref_reads_back_as_its_index() {
    for i in [0usize, 7, 42, 1234567] {
        let record = format!("{}\u{1f}sha\u{1f}On main: msg", stash_ref(i));
        assert_eq!(parse_entry(&record).unwrap().index, i);
    }
}

#[test]
fn stash_malformed_records_are_skipped() {
    assert!(parse_entry("stash@{x}\u{1f}sha\u{1f}On main: m").is_none());
    assert!(parse_entry("stash@{1}\u{1f}sha").is_none());
    let list = parse_stash_list("junk\0stash@{3}\u{1f}s\u{1f}no colon here\0\0");
    assert_eq!(list.len(), 1);
    assert_eq!(list[0].index, 3);
    assert_eq!(list[0].branch, "");
    assert_eq!(list[0].subject, "no colon here");
}

// ---- tags ------------------------------------------------------------------

#[test]
fn tag_listing_arguments() {
    let repo = Repository::new_unchecked("/r");
    let ops = repo.tags();
    let fmt = format!("--format={}", git_spawn::tags::FORMAT);
    assert_eq!(ops.list_args(None), vec!["for-each-ref".to_string(), fmt.clone(), "refs/tags/".to_string()]);
    assert_eq!(
        ops.list_args(Some("refs/tags/v1.*".to_string())),
        vec!["for-each-ref".to_string(), fmt, "refs/tags/v1.*".to_string()]
    );
}

#[test]
fn tag_create_and_delete_commands() {
    let repo = Repository::new_unchecked("/r");
    let ops = repo.tags();
    assert_eq!(ops.create_command("v1", "HEAD").build_command_args(), vec!["tag", "v1", "HEAD"]);
    assert_eq!(
        ops.create_annotated_command("v2", "HEAD", "release").build_command_args(),
        vec!["tag", "-a", "-m", "release", "v2", "HEAD"]
    );
    assert_eq!(ops.delete_command("v1").build_command_args(), vec!["tag", "-d", "v1"]);
    assert_eq!(ops.delete_command("v1").get_executor().cwd.as_deref(), Some("/r"));
}

#[test]
fn tag_short_record_is_a_parse_error() {
    assert_eq!(
        parse_message(parse_tags("a\0b\0c\n").unwrap_err()),
        "tag record has 3 fields, expected 8: \"a\\0b\\0c\""
    );
}

#[test]
fn tag_annotated_without_tagger_or_subject() {
    let tags = parse_tags("v\0tag\0x\0y\0\0\0<>\0d\n").unwrap();
    assert_eq!(tags[0].kind, TagKind::Annotated);
    assert!(tags[0].message.is_none());
    assert!(tags[0].tagger.is_none());
    let lw = parse_tags("v\0commit\0x\0y\0m\0Bob\0<b@x>\0d\n").unwrap();
    assert!(lw[0].message.is_none() && lw[0].tagger.is_none());
    assert_eq!(lw[0].target, "x");
}

// ---- history, patches, workflow --------------------------------------------

#[test]
fn history_default_walk_arguments() {
    let repo = Repository::new_unchecked("/r");
    let walk = repo.history();
    assert_eq!(walk.repo().path(), "/r");
    assert_eq!(
        walk.log_args(),
        vec!["log".to_string(), format!("--format={}", git_spawn::parse::LOG_FORMAT)]
    );
}

#[test]
fn history_filtered_walk_arguments() {
    let repo = Repository::new_unchecked("/r");
    let args = repo
        .history()
        .max_count(20)
        .skip(5)
        .since("2.weeks.ago")
        .until("yesterday")
        .author("Alice")
        .grep("fix")
        .reverse()
        .revision("HEAD~10..HEAD")
        .path("src")
        .log_args();
    assert_eq!(
        &args[2..],
        &[
            "--max-count=20",
            "--skip=5",
            "--since=2.weeks.ago",
            "--until=yesterday",
            "--author=Alice",
            "--grep=fix",
            "--reverse",
            "HEAD~10..HEAD",
            "--",
            "src"
        ]
    );
}

#[test]
fn patch_replay_arguments() {
    let repo = Repository::new_unchecked("/r");
    let ops = repo.patches();
    assert_eq!(ops.apply_args("/tmp/p/0001.patch"), vec!["apply", "/tmp/p/0001.patch"]);
    assert_eq!(ops.am_args("x.mbox"), vec!["am", "x.mbox"]);
    assert_eq!(ops.repo().path(), "/r");
}

#[test]
fn patch_paths_are_joined_onto_the_root() {
    let repo = Repository::new_unchecked("/tmp/some-repo");
    let fp = repo.patches().format("HEAD~2..HEAD");
    assert_eq!(
        fp.patch_paths("0001-a.patch\n\n/abs/0002-b.patch\n"),
        vec!["/tmp/some-repo/0001-a.patch", "/abs/0002-b.patch"]
    );
    assert!(fp.patch_paths("").is_empty());
}

#[test]
fn workflow_step_arguments() {
    let repo = Repository::new_unchecked("/r");
    let wf = repo.workflow();
    assert_eq!(
        wf.feature_branch_args("feature/widget", "main"),
        vec!["checkout", "-b", "feature/widget", "main"]
    );
    let (add, commit) = wf.commit_all_args("wip: widget");
    assert_eq!(add, vec!["add", "-A"]);
    assert_eq!(commit, vec!["commit", "-m", "wip: widget"]);
    assert_eq!(wf.sync_args(), vec!["pull", "--rebase"]);
    assert_eq!(wf.squash_merge_args("topic"), vec!["merge", "--squash", "topic"]);
    assert_eq!(wf.repo().path(), "/r");
}

// ---- remotes, info, conflicts, hooks ---------------------------------------

#[test]
fn remote_management_arguments() {
    let repo = Repository::new_unchecked("/r");
    let ops = repo.remotes();
    assert_eq!(ops.list_args(), vec!["remote", "-v"]);
    assert_eq!(ops.add_args("up", "u"), vec!["remote", "add", "up", "u"]);
    assert_eq!(ops.remove_args("up"), vec!["remote", "remove", "up"]);
    assert_eq!(ops.rename_args("a", "b"), vec!["remote", "rename", "a", "b"]);
    assert_eq!(ops.set_url_args("a", "u2"), vec!["remote", "set-url", "a", "u2"]);
}

#[test]
fn remote_url_lookup() {
    let rs = parse_remotes("origin\tf (fetch)\norigin\tp (push)\n").unwrap();
    assert_eq!(RemoteOps::url_in(&rs, "origin").unwrap(), "f");
    assert_eq!(
        parse_message(RemoteOps::url_in(&rs, "up\"x").unwrap_err()),
        "no remote named \"up\\\"x\""
    );
}

#[test]
fn remote_names_are_distinct_law() {
    let rs = parse_remotes("a\t1 (fetch)\nb\t2 (fetch)\na\t3 (push)\nb\t4 (push)\na\t5 (fetch)\n").unwrap();
    assert_eq!(rs.len(), 2);
    assert_eq!((rs[0].name.as_str(), rs[0].fetch_url.as_str(), rs[0].push_url.as_str()), ("a", "5", "3"));
    assert_eq!((rs[1].name.as_str(), rs[1].fetch_url.as_str(), rs[1].push_url.as_str()), ("b", "2", "4"));
}

#[test]
fn remote_errors_quote_the_line() {
    assert_eq!(parse_message(parse_remotes("nope\n").unwrap_err()), "remote line has no tab: \"nope\"");
    assert_eq!(
        parse_message(parse_remotes("o\turl (both)\n").unwrap_err()),
        "unexpected remote direction \"(both)\": \"o\\turl (both)\""
    );
}

#[test]
fn info_folds_the_default_branch() {
    let status = "# branch.oid abc\n# branch.head main\n";
    let info = repo_info_from(status, Some("origin/trunk"));
    assert_eq!(info.branch.as_deref(), Some("main"));
    assert_eq!(info.default_branch.as_deref(), Some("trunk"));
    assert!(repo_info_from(status, None).default_branch.is_none());
    assert!(repo_info_from(status, Some("origin/")).default_branch.is_none());
    assert_eq!(default_branch_from("upstream/dev").as_deref(), Some("upstream/dev"));
}

#[test]
fn info_commands() {
    let repo = Repository::new_unchecked("/r");
    assert_eq!(
        repo.info_status_command().build_command_args(),
        vec!["status", "--porcelain=v2", "--branch"]
    );
    let sym = repo.default_branch_command();
    assert_eq!(sym.build_command_args(), vec!["symbolic-ref", "--short", "refs/remotes/origin/HEAD"]);
    assert_eq!(sym.get_executor().cwd.as_deref(), Some("/r"));
}

#[test]
fn conflict_listing_and_resolution() {
    let repo = Repository::new_unchecked("/r");
    let ops = repo.conflicts();
    assert_eq!(ops.list_command().build_command_args(), vec!["status", "--porcelain=v1", "-z"]);
    assert_eq!(ops.resolve_args("a.txt"), vec!["add", "a.txt"]);
    let entries = vec![
        StatusEntry { index: StatusKind::Modified, worktree: StatusKind::Unmodified, path: "m".into(), original_path: None },
        StatusEntry { index: StatusKind::Unmerged, worktree: StatusKind::Deleted, path: "c".into(), original_path: None },
    ];
    let cs: Vec<Conflict> = conflicts_in(entries);
    assert_eq!(cs.len(), 1);
    assert_eq!(cs[0].path, "c");
    assert_eq!(cs[0].kind, ConflictKind::DeletedByThem);
}

#[test]
fn hook_modes_law() {
    for mode in [0o100644u32, 0o100755, 0o100700, 0o000, 0o777] {
        assert!(is_executable_mode(enabled_mode(mode)));
        assert!(!is_executable_mode(disabled_mode(mode)));
    }
    assert_eq!(enabled_mode(0o100644), 0o100755);
    assert_eq!(disabled_mode(0o100755), 0o100644);
}

#[test]
fn hook_paths_and_directory() {
    assert_eq!(HookOps::hook_path("/h", "pre-commit"), "/h/pre-commit");
    let repo = Repository::new_unchecked("/r");
    let hooks = repo.hooks();
    assert_eq!(hooks.hooks_dir_from(None), "/r/.git/hooks");
    assert_eq!(hooks.hooks_dir_from(Some(".githooks")), "/r/.githooks");
    assert_eq!(hooks.hooks_dir_from(Some("/etc/hooks")), "/etc/hooks");
}

// ---- commands and text -----------------------------------------------------

#[test]
fn raw_arguments_come_last_law() {
    let repo = Repository::new_unchecked("/r");
    let mut cmd = repo.status();
    cmd.arg("--ahead-behind");
    cmd.args(vec!["--renames".to_string()]);
    assert_eq!(cmd.build_command_args(), vec!["status"]);
    assert_eq!(cmd.command_line(), vec!["status", "--ahead-behind", "--renames"]);
}

#[test]
fn executor_can_be_changed_in_place() {
    let repo = Repository::new_unchecked("/r");
    let mut cmd = repo.status();
    cmd.get_executor_mut().cwd = Some("/elsewhere".to_string());
    assert_eq!(cmd.get_executor().cwd.as_deref(), Some("/elsewhere"));
    assert_eq!(cmd.build_command_args(), vec!["status"]);
}

#[test]
fn stdout_decoding() {
    assert_eq!(output("héllo\n".as_bytes(), 0).stdout_str(), "héllo\n");
    assert_eq!(output(b"a\xffb", 0).stdout_str(), "a\u{fffd}b");
    assert_eq!(output(b"  x \n", 0).stdout_trimmed(), "x");
}

#[test]
fn decimal_text_writes_digits() {
    assert_eq!(decimal_text(0), "0");
    assert_eq!(decimal_text(120), "120");
    assert_eq!(decimal_text(u64::MAX), "18446744073709551615");
}

#[test]
fn open_checked_requires_a_git_entry() {
    match Repository::open_checked("/nowhere", false) {
        Err(Error::NotARepository { path }) => assert_eq!(path, "/nowhere"),
        other => panic!("unexpected {other:?}"),
    }
    let repo = Repository::open_checked("/somewhere", true).unwrap();
    assert_eq!(repo.path(), "/somewhere");
    assert_eq!(repo.git_dir(), "/somewhere/.git");
}

#[test]
fn version_order_is_total_and_transitive() {
    let v = git_spawn::parse::version::parse_version("git version 2.45.1\n").unwrap();
    assert!(v.is_at_least(2, 45, 1));
    assert!(v.is_at_least(2, 45, 0));
    assert!(v.is_at_least(1, 99, 99));
    assert!(!v.is_at_least(2, 45, 2));
    assert!(!v.is_at_least(3, 0, 0));
    let w = git_spawn::parse::version::parse_version("git version 2.45\n").unwrap();
    assert!(w.is_at_least(2, 45, 0));
    assert!(!w.is_at_least(2, 45, 1));
}

#[test]
fn stash_record_round_trip_law() {
    let record = format!("{}\u{1f}abc\u{1f}On fix:x: a: b", stash_ref(4));
    let e = parse_entry(&record).unwrap();
    assert_eq!((e.index, e.sha.as_str(), e.branch.as_str(), e.subject.as_str()), (4, "abc", "fix:x", "a: b"));
    let record = format!("{}\u{1f}abc\u{1f}WIP on main: 1234567 tweak", stash_ref(0));
    let e = parse_entry(&record).unwrap();
    assert_eq!((e.branch.as_str(), e.subject.as_str()), ("main", "1234567 tweak"));
}

#[test]
fn merge_up_to_date_wins_over_fast_forward() {
    let r = git_spawn::parse::merge::parse_merge("Fast-forward\nAlready up to date.\n");
    assert!(r.already_up_to_date);
    assert!(!r.fast_forward);
}

#[test]
fn submodule_line_without_path_falls_back() {
    let v = git_spawn::parse::submodule::parse_submodule_status(" abc123 \n");
    assert_eq!(v.len(), 1);
    assert_eq!(v[0].sha, "");
    assert_eq!(v[0].path, "abc123");
    assert!(v[0].describe.is_none());
    assert_eq!(v[0].status, git_spawn::parse::submodule::SubmoduleStatus::Current);
}

#[test]
fn numstat_total_overflow_is_a_parse_error() {
    let input = "4294967295\t0\ta\x001\t0\tb\x00";
    assert_eq!(
        parse_message(git_spawn::parse::diff::parse_diff_numstat(input).unwrap_err()),
        "numstat totals exceed u32"
    );
}

#[test]
fn io_error_converts_to_io_variant() {
    let io = std::io::Error::new(std::io::ErrorKind::Other, "boom");
    match Error::from(io) {
        Error::Io { source, .. } => assert_eq!(source.kind(), std::io::ErrorKind::Other),
        other => panic!("unexpected {other:?}"),
    }
}

#[test]
fn init_clone_and_failure_lines() {
    assert_eq!(Repository::init_args("/tmp/demo"), vec!["init", "/tmp/demo"]);
    assert_eq!(Repository::clone_args("u", "/tmp/d"), vec!["clone", "u", "/tmp/d"]);
    let args = vec!["status".to_string(), "-s".to_string()];
    match output(b"x", 2).checked(&args) {
        Err(Error::CommandFailed { command, exit_code, stdout, stderr }) => {
            assert_eq!((command.as_str(), exit_code, stdout.as_str(), stderr.as_str()), ("git status -s", 2, "x", "oops"));
        }
        other => panic!("unexpected {other:?}"),
    }
    assert!(output(b"ok", 0).checked(&args).is_ok());
}

#[test]
fn count_objects_ignores_other_lines_law() {
    let base = "count: 5\nsize: 20\nin-pack: 8\npacks: 1\nsize-pack: 4\nprune-packable: 2\ngarbage: 1\nsize-garbage: 3\n";
    let a = git_spawn::parse::count_objects::parse_count_objects(base).unwrap();
    let b = git_spawn::parse::count_objects::parse_count_objects(&format!("{base}warning: odd\n")).unwrap();
    assert_eq!(a, b);
    let c = git_spawn::parse::count_objects::parse_count_objects(&format!("{base}count: 9\n")).unwrap();
    assert_eq!(c.count, 9);
    assert!(git_spawn::parse::count_objects::parse_count_objects(&format!("{base}packs: x\n")).is_none());
}

#[test]
fn conflicts_from_status_output() {
    let cs = git_spawn::conflicts::conflicts_in_status("UU a.txt\0M  b.txt\0AA c.txt\0").unwrap();
    assert_eq!(cs.len(), 2);
    assert_eq!((cs[0].path.as_str(), cs[0].kind), ("a.txt", ConflictKind::BothModified));
    assert_eq!((cs[1].path.as_str(), cs[1].kind), ("c.txt", ConflictKind::BothAdded));
    assert!(git_spawn::conflicts::conflicts_in_status("UUa.txt\0").is_err());
}
