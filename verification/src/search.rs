//! Typed search over `git grep`.
//!
//! Reached through [`Repository::search`], which returns a [`SearchOps`]
//! builder. Configure the pattern and any filters, then run the argument
//! list from [`SearchOps::grep_args`] in the repository's working tree and
//! hand the captured output to [`SearchOps::hits`] to get one [`Hit`] per
//! matching line.
//!
//! The search always runs `git grep -n` against the working tree (or the
//! index with [`cached`](SearchOps::cached)), so every [`Hit`] carries a line
//! number. "No matches" is not an error: it yields an empty `Vec`.
use vstd::prelude::*;

use crate::command::{dashdash, flag, push_flag, push_lit, push_paths, push_text, CommandOutput, IntoText, lossy_text};
use crate::error::{is_invalid_config, is_parse_error, line_parse_error, Error, Result};
use crate::repo::Repository;
use crate::text::{
    chars_of, debug_quoted, decimal, in_class, is_digit, lemma_decimal_digits,
    lemma_find_class_first, lemma_parse_decimal, lines, lines_of, parse_u64, parse_u64_spec,
    seq_views, splitn_char, splitn_class, text_of, CharClass,
};

verus! {

/// One matching line from a search.
#[derive(Debug, Clone, PartialEq, Eq)]
pub struct Hit {
    /// Path of the file the match was found in, relative to the repository.
    pub path: String,
    /// 1-based line number of the match.
    pub line: u64,
    /// Full text of the matching line, without the trailing newline.
    pub text: String,
}

/// The abstract contents of a [`Hit`].
pub struct HitView {
    pub path: Seq<char>,
    pub line: u64,
    pub text: Seq<char>,
}

impl View for Hit {
    type V = HitView;

    open spec fn view(&self) -> HitView {
        HitView { path: self.path@, line: self.line, text: self.text@ }
    }
}

impl Default for Hit {
    fn default() -> (r: Self)
        ensures
            r.path@.len() == 0,
            r.line == 0,
            r.text@.len() == 0,
    {
        Hit { path: String::new(), line: 0, text: String::new() }
    }
}

/// Chained builder over `git grep`, scoped to a [`Repository`].
///
/// Obtained via [`Repository::search`]. Set a [`pattern`](SearchOps::pattern)
/// and any filters, then build the command with
/// [`grep_args`](SearchOps::grep_args). The handle borrows the repository for
/// the duration of one chained call.
#[derive(Debug)]
pub struct SearchOps<'a> {
    repo: &'a Repository,
    pattern: Option<String>,
    paths: Vec<String>,
    ignore_case: bool,
    word_regexp: bool,
    fixed_strings: bool,
    extended_regexp: bool,
    perl_regexp: bool,
    cached: bool,
}

/// The abstract settings of a [`SearchOps`].
pub struct SearchView {
    /// The working-tree path of the repository searched.
    pub repo: Seq<char>,
    pub pattern: Option<Seq<char>>,
    pub paths: Seq<Seq<char>>,
    pub ignore_case: bool,
    pub word_regexp: bool,
    pub fixed_strings: bool,
    pub extended_regexp: bool,
    pub perl_regexp: bool,
    pub cached: bool,
}

impl<'a> View for SearchOps<'a> {
    type V = SearchView;

    closed spec fn view(&self) -> SearchView {
        SearchView {
            repo: self.repo@,
            pattern: match self.pattern {
                Some(p) => Some(p@),
                None => None,
            },
            paths: seq_views(self.paths@),
            ignore_case: self.ignore_case,
            word_regexp: self.word_regexp,
            fixed_strings: self.fixed_strings,
            extended_regexp: self.extended_regexp,
            perl_regexp: self.perl_regexp,
            cached: self.cached,
        }
    }
}

/// The settings of a fresh search of the repository at `repo`.
pub open spec fn fresh_search(repo: Seq<char>) -> SearchView {
    SearchView {
        repo,
        pattern: None,
        paths: Seq::empty(),
        ignore_case: false,
        word_regexp: false,
        fixed_strings: false,
        extended_regexp: false,
        perl_regexp: false,
        cached: false,
    }
}

/// The arguments after `git` that run the search `v` with pattern `p`.
pub open spec fn grep_args_of(v: SearchView, p: Seq<char>) -> Seq<Seq<char>> {
    seq!["grep"@, "-n"@] + search_flags(v) + seq!["-e"@, p] + dashdash(v.paths)
}

/// The matching flags the search `v` asks for, in a fixed order.
pub open spec fn search_flags(v: SearchView) -> Seq<Seq<char>> {
    flag(v.ignore_case, "-i"@) + flag(v.word_regexp, "-w"@) + flag(v.fixed_strings, "-F"@) + flag(
        v.extended_regexp,
        "-E"@,
    ) + flag(v.perl_regexp, "-P"@) + flag(v.cached, "--cached"@)
}

impl<'a> SearchOps<'a> {
    /// The repository searched.
    pub fn repo(&self) -> (r: &'a Repository)
        ensures
            r@ == self@.repo,
    {
        self.repo
    }

    /// Set the pattern to search for. Required before running.
    pub fn pattern(self, pattern: impl IntoText) -> (r: Self)
        ensures
            r@ == (SearchView { pattern: Some(pattern.text()), ..self@ }),
    {
        SearchOps { pattern: Some(pattern.into_text()), ..self }
    }

    /// Restrict the search to one path (pathspec). May be called repeatedly.
    pub fn in_path(self, path: impl IntoText) -> (r: Self)
        ensures
            r@ == (SearchView { paths: self@.paths.push(path.text()), ..self@ }),
    {
        let mut s = self;
        let ghost before = seq_views(s.paths@);
        let p = path.into_text();
        let ghost pv = p@;
        s.paths.push(p);
        assert(seq_views(s.paths@) =~= before.push(pv));
        s
    }

    /// Restrict the search to several paths (pathspecs).
    pub fn in_paths(self, paths: Vec<String>) -> (r: Self)
        ensures
            r@ == (SearchView { paths: self@.paths + seq_views(paths@), ..self@ }),
    {
        let mut s = self;
        let ghost before = seq_views(s.paths@);
        let mut i: usize = 0;
        while i < paths.len()
            invariant
                i <= paths.len(),
                s@ == (SearchView { paths: before + seq_views(paths@).take(i as int), ..self@ }),
            decreases paths.len() - i,
        {
            let ghost b2 = seq_views(s.paths@);
            let p = paths[i].clone();
            let ghost pv = p@;
            s.paths.push(p);
            assert(seq_views(s.paths@) =~= b2.push(pv));
            assert(seq_views(paths@).take(i + 1) =~= seq_views(paths@).take(i as int).push(pv));
            i += 1;
        }
        assert(seq_views(paths@).take(paths.len() as int) =~= seq_views(paths@));
        s
    }

    /// Match case-insensitively (`-i`).
    pub fn case_insensitive(self) -> (r: Self)
        ensures
            r@ == (SearchView { ignore_case: true, ..self@ }),
    {
        SearchOps { ignore_case: true, ..self }
    }

    /// Match the pattern only at word boundaries (`-w`).
    pub fn word_regexp(self) -> (r: Self)
        ensures
            r@ == (SearchView { word_regexp: true, ..self@ }),
    {
        SearchOps { word_regexp: true, ..self }
    }

    /// Treat the pattern as a fixed string rather than a regex (`-F`).
    pub fn fixed_strings(self) -> (r: Self)
        ensures
            r@ == (SearchView { fixed_strings: true, ..self@ }),
    {
        SearchOps { fixed_strings: true, ..self }
    }

    /// Interpret the pattern as an extended POSIX regex (`-E`).
    pub fn extended_regexp(self) -> (r: Self)
        ensures
            r@ == (SearchView { extended_regexp: true, ..self@ }),
    {
        SearchOps { extended_regexp: true, ..self }
    }

    /// Interpret the pattern as a Perl-compatible regex (`-P`).
    pub fn perl_regexp(self) -> (r: Self)
        ensures
            r@ == (SearchView { perl_regexp: true, ..self@ }),
    {
        SearchOps { perl_regexp: true, ..self }
    }

    /// Search the index instead of the working tree (`--cached`).
    pub fn cached(self) -> (r: Self)
        ensures
            r@ == (SearchView { cached: true, ..self@ }),
    {
        SearchOps { cached: true, ..self }
    }

    /// The arguments after `git` that run this search: `grep -n`, the
    /// chosen flags, `-e <pattern>`, then `--` and the paths when there are
    /// any.
    ///
    /// # Errors
    /// [`Error::InvalidConfig`] if no [`pattern`](SearchOps::pattern) was set.
    pub fn grep_args(&self) -> (r: Result<Vec<String>>)
        ensures
            match self@.pattern {
                Some(p) => r matches Ok(args) && seq_views(args@) == grep_args_of(self@, p),
                None => r matches Err(e) && is_invalid_config(e, "search requires a pattern"@),
            },
    {
        let pattern = match &self.pattern {
            Some(p) => p,
            None => {
                return Err(Error::invalid_config("search requires a pattern"));
            },
        };
        let mut args: Vec<String> = Vec::new();
        push_lit(&mut args, "grep");
        push_lit(&mut args, "-n");
        let ghost a0 = seq_views(args@);
        self.push_flags(&mut args);
        let ghost a1 = seq_views(args@);
        push_lit(&mut args, "-e");
        push_text(&mut args, pattern);
        let ghost a2 = seq_views(args@);
        push_paths(&mut args, &self.paths);
        assert(a0 =~= seq!["grep"@, "-n"@]);
        assert(a2 =~= a1 + seq!["-e"@, pattern@]);
        assert(seq_views(args@) =~= grep_args_of(self@, pattern@));
        Ok(args)
    }

    fn push_flags(&self, args: &mut Vec<String>)
        ensures
            seq_views(final(args)@) == seq_views(old(args)@) + search_flags(self@),
    {
        let ghost b = seq_views(args@);
        push_flag(args, self.ignore_case, "-i");
        push_flag(args, self.word_regexp, "-w");
        push_flag(args, self.fixed_strings, "-F");
        push_flag(args, self.extended_regexp, "-E");
        push_flag(args, self.perl_regexp, "-P");
        push_flag(args, self.cached, "--cached");
        assert(seq_views(args@) =~= b + search_flags(self@));
    }

    /// The hits in the captured output of the command from
    /// [`grep_args`](SearchOps::grep_args).
    ///
    /// `git grep` exits with status 1 when nothing matched: that yields an
    /// empty list. Any other failure is an [`Error::CommandFailed`] carrying
    /// the exit code and both streams. Standard output that is not valid
    /// UTF-8 is decoded lossily first.
    pub fn hits(output: &CommandOutput) -> (r: Result<Vec<Hit>>)
        ensures
            output.success ==> match hits_spec(lossy_text(output.stdout@)) {
                Ok(hs) => r matches Ok(v) && seq_views(v@) == hs,
                Err(m) => r matches Err(e) && is_parse_error(e, m),
            },
            output.success && vstd::utf8::valid_utf8(output.stdout@) ==> match hits_spec(
                vstd::utf8::decode_utf8(output.stdout@),
            ) {
                Ok(hs) => r matches Ok(v) && seq_views(v@) == hs,
                Err(m) => r matches Err(e) && is_parse_error(e, m),
            },
            !output.success && output.exit_code == 1 ==> (r matches Ok(v) && v@.len() == 0),
            !output.success && output.exit_code != 1 ==> (r matches Err(
                Error::CommandFailed { exit_code, .. },
            ) && exit_code == output.exit_code),
    {
        if output.success {
            let text = output.stdout_str();
            parse_hits(text.as_str())
        } else if output.exit_code == 1 {
            Ok(Vec::new())
        } else {
            let stdout = output.stdout_str();
            Err(Error::command_failed("git grep", output.exit_code, stdout, output.stderr.clone()))
        }
    }
}

impl Repository {
    /// Typed search over `git grep`.
    pub fn search(&self) -> (r: SearchOps<'_>)
        ensures
            r@ == fresh_search(self@),
    {
        let r = SearchOps {
            repo: self,
            pattern: None,
            paths: Vec::new(),
            ignore_case: false,
            word_regexp: false,
            fixed_strings: false,
            extended_regexp: false,
            perl_regexp: false,
            cached: false,
        };
        assert(r@.paths =~= Seq::<Seq<char>>::empty());
        r
    }
}

/// The hits of the lines `ls` from line `i` on, after those in `acc`; or
/// the message for the first malformed line. Each non-empty line is split on
/// its first two colons into path, line number and text.
pub open spec fn hits_from(ls: Seq<Seq<char>>, i: int, acc: Seq<HitView>) -> core::result::Result<
    Seq<HitView>,
    Seq<char>,
>
    decreases ls.len() - i,
{
    if i < 0 || i >= ls.len() {
        Ok(acc)
    } else if ls[i].len() == 0 {
        hits_from(ls, i + 1, acc)
    } else {
        let line = ls[i];
        let parts = splitn_class(line, 3, CharClass::Exactly(':'));
        if parts.len() < 1 {
            Err("grep line has no path: "@ + debug_quoted(line))
        } else if parts.len() < 2 {
            Err("grep line has no line number: "@ + debug_quoted(line))
        } else if parts.len() < 3 {
            Err("grep line has no text: "@ + debug_quoted(line))
        } else {
            match parse_u64_spec(parts[1]) {
                None => Err("grep line number is not a number: "@ + debug_quoted(line)),
                Some(n) => hits_from(
                    ls,
                    i + 1,
                    acc.push(HitView { path: parts[0], line: n, text: parts[2] }),
                ),
            }
        }
    }
}

/// A `git grep -n` line `<path>:<n>:<text>` whose path holds no colon
/// reads back as that path, line number and text: the line number ends at
/// the second colon, and colons in the text are kept.
pub proof fn lemma_hit_line(path: Seq<char>, n: u64, text: Seq<char>)
    requires
        !path.contains(':'),
    ensures
        hits_from(
            seq![path + ":"@ + decimal(n as nat) + ":"@ + text],
            0,
            Seq::empty(),
        ) == Ok::<Seq<HitView>, Seq<char>>(seq![HitView { path, line: n, text }]),
{
    reveal_strlit(":");
    let d = decimal(n as nat);
    lemma_decimal_digits(n as nat);
    lemma_parse_decimal(n as nat, u64::MAX as nat);
    let line = path + ":"@ + d + ":"@ + text;
    let k = CharClass::Exactly(':');
    assert forall|m: int| 0 <= m < path.len() implies !in_class(#[trigger] line[m], k) by {
        assert(line[m] == path[m]);
    }
    assert(line[path.len() as int] == ':');
    lemma_find_class_first(line, k, 0, path.len() as int);
    let r1 = line.skip(path.len() as int + 1);
    assert(r1 =~= d + ":"@ + text);
    assert(line.take(path.len() as int) =~= path);
    assert forall|m: int| 0 <= m < d.len() implies !in_class(#[trigger] r1[m], k) by {
        assert(r1[m] == d[m]);
        assert(is_digit(d[m]));
    }
    assert(r1[d.len() as int] == ':');
    lemma_find_class_first(r1, k, 0, d.len() as int);
    assert(r1.take(d.len() as int) =~= d);
    assert(r1.skip(d.len() as int + 1) =~= text);
    assert(splitn_class(text, 1, k) == seq![text]);
    assert(splitn_class(r1, 2, k) == seq![d] + splitn_class(text, 1, k));
    assert(splitn_class(r1, 2, k) =~= seq![d, text]);
    assert(splitn_class(line, 3, k) == seq![path] + splitn_class(r1, 2, k));
    assert(splitn_class(line, 3, k) =~= seq![path, d, text]);
    let ls = seq![line];
    assert(ls[0].len() > 0);
    assert(hits_from(ls, 1, seq![HitView { path, line: n, text }]) == Ok::<
        Seq<HitView>,
        Seq<char>,
    >(seq![HitView { path, line: n, text }]));
    assert(Seq::<HitView>::empty().push(HitView { path, line: n, text }) =~= seq![
        HitView { path, line: n, text },
    ]);
}

/// What `git grep -n` output `s` parses to.
pub open spec fn hits_spec(s: Seq<char>) -> core::result::Result<Seq<HitView>, Seq<char>> {
    hits_from(lines_of(s), 0, Seq::empty())
}

/// Parse `git grep -n` output (`<path>:<line>:<text>`) into [`Hit`]s.
///
/// Each non-empty line carries a path, a line number, and the matching text.
/// The path and line number are split off on the first two colons; everything
/// after the second colon is the matching text, so colons in the text are
/// preserved.
pub fn parse_hits(stdout: &str) -> (r: Result<Vec<Hit>>)
    ensures
        match hits_spec(stdout@) {
            Ok(hs) => r matches Ok(v) && seq_views(v@) == hs,
            Err(m) => r matches Err(e) && is_parse_error(e, m),
        },
{
    let s = chars_of(stdout);
    let ls = lines(&s);
    let ghost lv = seq_views(ls@);
    let mut hits: Vec<Hit> = Vec::new();
    let mut i: usize = 0;
    assert(seq_views(hits@) =~= Seq::<HitView>::empty());
    while i < ls.len()
        invariant
            lv == seq_views(ls@),
            lv == lines_of(stdout@),
            hits_spec(stdout@) == hits_from(lv, i as int, seq_views(hits@)),
        decreases ls.len() - i,
    {
        let line = &ls[i];
        assert(lv[i as int] == line@);
        if line.len() == 0 {
            i += 1;
            continue;
        }
        let parts = splitn_char(line, 3, ':');
        assert(seq_views(parts@).len() == parts.len());
        if parts.len() < 1 {
            return Err(line_parse_error("grep line has no path: ", line));
        }
        if parts.len() < 2 {
            return Err(line_parse_error("grep line has no line number: ", line));
        }
        if parts.len() < 3 {
            return Err(line_parse_error("grep line has no text: ", line));
        }
        assert(seq_views(parts@)[1] == parts@[1]@);
        assert(seq_views(parts@)[0] == parts@[0]@);
        assert(seq_views(parts@)[2] == parts@[2]@);
        let line_no = match parse_u64(&parts[1]) {
            Some(n) => n,
            None => {
                return Err(line_parse_error("grep line number is not a number: ", line));
            },
        };
        let hit = Hit { path: text_of(&parts[0]), line: line_no, text: text_of(&parts[2]) };
        let ghost before = seq_views(hits@);
        let ghost hv = hit@;
        hits.push(hit);
        assert(seq_views(hits@) =~= before.push(hv));
        i += 1;
    }
    Ok(hits)
}

} // verus!
