//! Walk a repository's commit history into typed [`Commit`] structs.
//!
//! Reached through [`Repository::history`], which returns a [`HistoryWalk`]
//! builder. Configure with `revision`, `max_count`, `since`, `author`, etc.,
//! then run the `git log` arguments from [`HistoryWalk::log_args`] — they
//! carry the stable [`LOG_FORMAT`] — in the repository's working tree, and
//! parse its output with [`parse_log`](crate::parse::log::parse_log).
//!
//! [`Commit`] is [`CommitEntry`](crate::parse::log::CommitEntry) under a
//! friendlier name for the workflow API.
use vstd::prelude::*;

use crate::command::{flag, push_all, push_concat, push_flag, push_lit, push_number, push_paths,
    dashdash, IntoText};
use crate::parse::log::LOG_FORMAT;
use crate::repo::Repository;
use crate::text::{decimal, seq_views};

pub use crate::parse::log::CommitEntry as Commit;

verus! {

/// Builder for one history walk. Configure with the chained setters, then
/// build the command with [`log_args`](Self::log_args).
#[derive(Debug)]
pub struct HistoryWalk<'a> {
    repo: &'a Repository,
    revisions: Vec<String>,
    paths: Vec<String>,
    max_count: Option<u32>,
    skip: Option<u32>,
    since: Option<String>,
    until: Option<String>,
    author: Option<String>,
    grep: Option<String>,
    reverse: bool,
}

/// The abstract settings of a [`HistoryWalk`].
pub struct HistoryView {
    /// The working-tree path of the repository walked.
    pub repo: Seq<char>,
    pub revisions: Seq<Seq<char>>,
    pub paths: Seq<Seq<char>>,
    pub max_count: Option<u32>,
    pub skip: Option<u32>,
    pub since: Option<Seq<char>>,
    pub until: Option<Seq<char>>,
    pub author: Option<Seq<char>>,
    pub grep: Option<Seq<char>>,
    pub reverse: bool,
}

/// The view of an optional text.
pub open spec fn text_opt(o: Option<String>) -> Option<Seq<char>> {
    match o {
        Some(s) => Some(s@),
        None => None,
    }
}

impl<'a> View for HistoryWalk<'a> {
    type V = HistoryView;

    closed spec fn view(&self) -> HistoryView {
        HistoryView {
            repo: self.repo@,
            revisions: seq_views(self.revisions@),
            paths: seq_views(self.paths@),
            max_count: self.max_count,
            skip: self.skip,
            since: text_opt(self.since),
            until: text_opt(self.until),
            author: text_opt(self.author),
            grep: text_opt(self.grep),
            reverse: self.reverse,
        }
    }
}

/// The settings of a fresh walk of the repository at `repo`: everything
/// reachable from `HEAD`, unfiltered.
pub open spec fn fresh_walk(repo: Seq<char>) -> HistoryView {
    HistoryView {
        repo,
        revisions: Seq::empty(),
        paths: Seq::empty(),
        max_count: None,
        skip: None,
        since: None,
        until: None,
        author: None,
        grep: None,
        reverse: false,
    }
}

/// `[f + value]` when there is a value.
pub open spec fn with_value(f: Seq<char>, o: Option<Seq<char>>) -> Seq<Seq<char>> {
    match o {
        Some(v) => seq![f + v],
        None => Seq::empty(),
    }
}

/// `[f + decimal(n)]` when there is a number.
pub open spec fn with_number(f: Seq<char>, o: Option<u32>) -> Seq<Seq<char>> {
    match o {
        Some(n) => seq![f + decimal(n as nat)],
        None => Seq::empty(),
    }
}

/// The filters of the walk `v` as `git log` options, in a fixed order.
pub open spec fn walk_options(v: HistoryView) -> Seq<Seq<char>> {
    with_number("--max-count="@, v.max_count) + with_number("--skip="@, v.skip) + with_value(
        "--since="@,
        v.since,
    ) + with_value("--until="@, v.until) + with_value("--author="@, v.author) + with_value(
        "--grep="@,
        v.grep,
    ) + flag(v.reverse, "--reverse"@)
}

/// Each text filter of a walk reaches `git log` under its own option: a
/// walk filtered only by date from, date to, author or message pattern `x`
/// runs `log` with `--since=x`, `--until=x`, `--author=x` or `--grep=x`
/// respectively, and nothing else.
pub proof fn lemma_walk_text_filters(repo: Seq<char>, x: Seq<char>)
    ensures
        walk_options(HistoryView { since: Some(x), ..fresh_walk(repo) }) == seq!["--since="@ + x],
        walk_options(HistoryView { until: Some(x), ..fresh_walk(repo) }) == seq!["--until="@ + x],
        walk_options(HistoryView { author: Some(x), ..fresh_walk(repo) }) == seq![
            "--author="@ + x,
        ],
        walk_options(HistoryView { grep: Some(x), ..fresh_walk(repo) }) == seq!["--grep="@ + x],
{
    let e = Seq::<Seq<char>>::empty();
    assert(e + e + seq!["--since="@ + x] + e + e + e + e =~= seq!["--since="@ + x]);
    assert(e + e + e + seq!["--until="@ + x] + e + e + e =~= seq!["--until="@ + x]);
    assert(e + e + e + e + seq!["--author="@ + x] + e + e =~= seq!["--author="@ + x]);
    assert(e + e + e + e + e + seq!["--grep="@ + x] + e =~= seq!["--grep="@ + x]);
}

/// A walk limited to `n` commits, or skipping the first `n`, runs `log`
/// with `--max-count=n` or `--skip=n` respectively, and nothing else; a
/// reversed walk with `--reverse` alone.
pub proof fn lemma_walk_number_filters(repo: Seq<char>, n: u32)
    ensures
        walk_options(HistoryView { max_count: Some(n), ..fresh_walk(repo) }) == seq![
            "--max-count="@ + decimal(n as nat),
        ],
        walk_options(HistoryView { skip: Some(n), ..fresh_walk(repo) }) == seq![
            "--skip="@ + decimal(n as nat),
        ],
        walk_options(HistoryView { reverse: true, ..fresh_walk(repo) }) == seq!["--reverse"@],
{
    let e = Seq::<Seq<char>>::empty();
    let m = seq!["--max-count="@ + decimal(n as nat)];
    let k = seq!["--skip="@ + decimal(n as nat)];
    assert(m + e + e + e + e + e + e =~= m);
    assert(e + k + e + e + e + e + e =~= k);
    assert(e + e + e + e + e + e + seq!["--reverse"@] =~= seq!["--reverse"@]);
}

/// The arguments after `git` that run the walk `v`: `log` with the fixed
/// format, the filters, the revisions, then `--` and the paths when there
/// are any.
pub open spec fn log_args_of(v: HistoryView) -> Seq<Seq<char>> {
    seq!["log"@, "--format="@ + LOG_FORMAT@] + walk_options(v) + v.revisions + dashdash(v.paths)
}

impl<'a> HistoryWalk<'a> {
    /// The repository walked.
    pub fn repo(&self) -> (r: &'a Repository)
        ensures
            r@ == self@.repo,
    {
        self.repo
    }

    /// Limit results to the most recent `n` commits.
    pub fn max_count(self, n: u32) -> (r: Self)
        ensures
            r@ == (HistoryView { max_count: Some(n), ..self@ }),
    {
        HistoryWalk { max_count: Some(n), ..self }
    }

    /// Skip the first `n` commits before collecting.
    pub fn skip(self, n: u32) -> (r: Self)
        ensures
            r@ == (HistoryView { skip: Some(n), ..self@ }),
    {
        HistoryWalk { skip: Some(n), ..self }
    }

    /// Filter by `--since` (any value `git log` accepts, e.g. `"2.weeks.ago"`).
    pub fn since(self, s: impl IntoText) -> (r: Self)
        ensures
            r@ == (HistoryView { since: Some(s.text()), ..self@ }),
    {
        HistoryWalk { since: Some(s.into_text()), ..self }
    }

    /// Filter by `--until`.
    pub fn until(self, s: impl IntoText) -> (r: Self)
        ensures
            r@ == (HistoryView { until: Some(s.text()), ..self@ }),
    {
        HistoryWalk { until: Some(s.into_text()), ..self }
    }

    /// Filter by author (`--author`).
    pub fn author(self, s: impl IntoText) -> (r: Self)
        ensures
            r@ == (HistoryView { author: Some(s.text()), ..self@ }),
    {
        HistoryWalk { author: Some(s.into_text()), ..self }
    }

    /// Filter by commit-message grep (`--grep`).
    pub fn grep(self, s: impl IntoText) -> (r: Self)
        ensures
            r@ == (HistoryView { grep: Some(s.text()), ..self@ }),
    {
        HistoryWalk { grep: Some(s.into_text()), ..self }
    }

    /// Add a revision, range, or ref (e.g. `"HEAD~10..HEAD"`).
    /// Multiple calls accumulate.
    pub fn revision(self, r: impl IntoText) -> (out: Self)
        ensures
            out@ == (HistoryView { revisions: self@.revisions.push(r.text()), ..self@ }),
    {
        let mut s = self;
        let ghost before = seq_views(s.revisions@);
        let t = r.into_text();
        let ghost tv = t@;
        s.revisions.push(t);
        assert(seq_views(s.revisions@) =~= before.push(tv));
        s
    }

    /// Restrict to commits touching `path`. Multiple calls accumulate.
    pub fn path(self, p: impl IntoText) -> (out: Self)
        ensures
            out@ == (HistoryView { paths: self@.paths.push(p.text()), ..self@ }),
    {
        let mut s = self;
        let ghost before = seq_views(s.paths@);
        let t = p.into_text();
        let ghost tv = t@;
        s.paths.push(t);
        assert(seq_views(s.paths@) =~= before.push(tv));
        s
    }

    /// Reverse the output order (`--reverse`).
    pub fn reverse(self) -> (r: Self)
        ensures
            r@ == (HistoryView { reverse: true, ..self@ }),
    {
        HistoryWalk { reverse: true, ..self }
    }

    fn push_options(&self, args: &mut Vec<String>)
        ensures
            seq_views(final(args)@) == seq_views(old(args)@) + walk_options(self@),
    {
        let ghost b = seq_views(args@);
        push_with_number(args, "--max-count=", self.max_count);
        push_with_number(args, "--skip=", self.skip);
        push_with_value(args, "--since=", &self.since);
        push_with_value(args, "--until=", &self.until);
        push_with_value(args, "--author=", &self.author);
        push_with_value(args, "--grep=", &self.grep);
        push_flag(args, self.reverse, "--reverse");
        assert(seq_views(args@) =~= b + walk_options(self@));
    }

    /// The arguments after `git` that run this walk: `log
    /// --format=<LOG_FORMAT>`, the filters (`--max-count=`, `--skip=`,
    /// `--since=`, `--until=`, `--author=`, `--grep=`, `--reverse`), the
    /// revisions, then `--` and the paths when there are any. Run them in
    /// the repository's working tree and hand the output to [`parse_log`](crate::parse::log::parse_log).
    pub fn log_args(&self) -> (r: Vec<String>)
        ensures
            seq_views(r@) == log_args_of(self@),
    {
        let mut args: Vec<String> = Vec::new();
        push_lit(&mut args, "log");
        push_concat(&mut args, "--format=", &LOG_FORMAT.to_owned());
        let ghost a0 = seq_views(args@);
        self.push_options(&mut args);
        let ghost a1 = seq_views(args@);
        push_all(&mut args, &self.revisions);
        let ghost a2 = seq_views(args@);
        push_paths(&mut args, &self.paths);
        assert(a0 =~= seq!["log"@, "--format="@ + LOG_FORMAT@]);
        assert(seq_views(args@) =~= log_args_of(self@));
        args
    }
}

fn push_with_number(args: &mut Vec<String>, f: &str, o: Option<u32>)
    ensures
        seq_views(final(args)@) == seq_views(old(args)@) + with_number(f@, o),
{
    let ghost b = seq_views(args@);
    if let Some(n) = o {
        push_number(args, f, n as u64);
    }
    assert(seq_views(args@) =~= b + with_number(f@, o));
}

fn push_with_value(args: &mut Vec<String>, f: &str, o: &Option<String>)
    ensures
        seq_views(final(args)@) == seq_views(old(args)@) + with_value(f@, text_opt(*o)),
{
    let ghost b = seq_views(args@);
    if let Some(s) = o {
        push_concat(args, f, s);
    }
    assert(seq_views(args@) =~= b + with_value(f@, text_opt(*o)));
}

impl Repository {
    /// Walk commit history with a chained-builder filter.
    pub fn history(&self) -> (r: HistoryWalk<'_>)
        ensures
            r@ == fresh_walk(self@),
    {
        let r = HistoryWalk {
            repo: self,
            revisions: Vec::new(),
            paths: Vec::new(),
            max_count: None,
            skip: None,
            since: None,
            until: None,
            author: None,
            grep: None,
            reverse: false,
        };
        assert(r@.revisions =~= Seq::<Seq<char>>::empty());
        assert(r@.paths =~= Seq::<Seq<char>>::empty());
        r
    }
}

} // verus!
