//! Parser for `git bisect` output.
//!
//! `git bisect` has no stable machine-readable output format, so this parser
//! classifies its output via substring and line matching. A bisect session
//! moves through phases as commits are marked good/bad:
//!
//! - `start`: no distinguishing markers yet (or too few revisions given to
//!   narrow down).
//! - stepping: `Bisecting: N revisions left to test (roughly M steps)`
//!   followed by a `[<sha>] <subject>` line naming the commit git checked
//!   out next.
//! - found: `<sha> is the first bad commit`, reported once the session
//!   converges.
//! - `reset`: git prints `Previous HEAD position was ...` (or `HEAD is now
//!   at ...`) while restoring the original `HEAD`.
//!
//! This is fragile to git localization and to wording changes across git
//! versions; the `raw` field is retained so callers can fall back to their
//! own inspection when the flags don't fit.
use vstd::prelude::*;

use crate::text::{
    chars_of, contains_lit, contains_str, lines, lines_of, opt_view, seq_views,
    split_once, split_once_spec, strip_prefix, strip_prefix_spec, strip_suffix, strip_suffix_spec,
    text_of, trim, trim_ws, in_class, lemma_split_class_none, CharClass,
};

verus! {

/// Phase of a `git bisect` session, classified from command output.
#[derive(Debug, Clone, Copy, PartialEq, Eq)]
pub enum BisectStatus {
    /// Session started; not enough good/bad commits given yet to narrow down.
    Started,
    /// Narrowing down: git checked out a new commit to test.
    Stepping,
    /// Session converged on a first-bad commit.
    Found,
    /// Session ended and the original `HEAD` was restored.
    Done,
}

/// Parsed result of a `git bisect` step, classified from stdout.
#[derive(Debug, Clone, PartialEq, Eq)]
pub struct BisectResult {
    /// Session phase.
    pub status: BisectStatus,
    /// Commit git checked out for the next test step, if this output
    /// reported one (only set when `status` is [`BisectStatus::Stepping`]).
    pub current_commit: Option<String>,
    /// SHA of the first bad commit, once the session converges (only set
    /// when `status` is [`BisectStatus::Found`]).
    pub bad_commit: Option<String>,
    /// The original text this result was classified from.
    pub raw: String,
}

/// The abstract contents of a [`BisectResult`].
pub struct BisectResultView {
    pub status: BisectStatus,
    pub current_commit: Option<Seq<char>>,
    pub bad_commit: Option<Seq<char>>,
    pub raw: Seq<char>,
}

impl View for BisectResult {
    type V = BisectResultView;

    open spec fn view(&self) -> BisectResultView {
        BisectResultView {
            status: self.status,
            current_commit: opt_view(self.current_commit),
            bad_commit: opt_view(self.bad_commit),
            raw: self.raw@,
        }
    }
}

/// The SHA of a `<sha> is the first bad commit` line.
pub open spec fn bad_commit_of(line: Seq<char>) -> Option<Seq<char>> {
    match strip_suffix_spec(line, " is the first bad commit"@) {
        Some(sha) => if sha.len() > 0 {
            Some(sha)
        } else {
            None
        },
        None => None,
    }
}

/// Output `<sha> is the first bad commit` (the SHA non-empty, on one line)
/// is a session that found that SHA as its first bad commit.
pub proof fn lemma_bisect_found(sha: Seq<char>)
    requires
        sha.len() > 0,
        !sha.contains('\n'),
    ensures
        bisect_spec(sha + " is the first bad commit"@) == (BisectResultView {
            status: BisectStatus::Found,
            current_commit: None,
            bad_commit: Some(sha),
            raw: sha + " is the first bad commit"@,
        }),
{
    reveal_strlit(" is the first bad commit");
    let lit = " is the first bad commit"@;
    let l = sha + lit;
    let k = CharClass::Exactly('\n');
    assert forall|m: int| 0 <= m < l.len() implies !in_class(#[trigger] l[m], k) by {
        if m < sha.len() {
            assert(l[m] == sha[m]);
            if sha[m] == '\n' {
                assert(sha.contains('\n'));
            }
        } else {
            assert(l[m] == lit[m - sha.len()]);
        }
    }
    lemma_split_class_none(l, k);
    assert(l[l.len() - 1] == 't');
    assert(lines_of(l) =~= seq![l]);
    assert(l.skip(l.len() - lit.len()) =~= lit);
    assert(l.take(l.len() - lit.len()) =~= sha);
    assert(first_bad_from(seq![l], 0) == Some(sha));
}

/// The SHA of a `[<sha>] <subject>` line.
pub open spec fn checked_out_of(line: Seq<char>) -> Option<Seq<char>> {
    match strip_prefix_spec(trim_ws(line), "["@) {
        Some(rest) => match split_once_spec(rest, "]"@) {
            Some((sha, _)) => if sha.len() > 0 {
                Some(sha)
            } else {
                None
            },
            None => None,
        },
        None => None,
    }
}

/// The SHA of the first first-bad-commit line among the lines `ls` from
/// line `i` on.
pub open spec fn first_bad_from(ls: Seq<Seq<char>>, i: int) -> Option<Seq<char>>
    decreases ls.len() - i,
{
    if i < 0 || i >= ls.len() {
        None
    } else {
        match bad_commit_of(ls[i]) {
            Some(v) => Some(v),
            None => first_bad_from(ls, i + 1),
        }
    }
}

/// The SHA of the first `[<sha>]` line among the lines `ls` from line `i`
/// on.
pub open spec fn checked_out_from(ls: Seq<Seq<char>>, i: int) -> Option<Seq<char>>
    decreases ls.len() - i,
{
    if i < 0 || i >= ls.len() {
        None
    } else {
        match checked_out_of(ls[i]) {
            Some(v) => Some(v),
            None => checked_out_from(ls, i + 1),
        }
    }
}

/// The result `git bisect` output `s` is classified as: a first-bad-commit
/// line wins, then a `Bisecting:` marker, then a restored `HEAD`; anything
/// else is a session just started.
pub open spec fn bisect_spec(s: Seq<char>) -> BisectResultView {
    let bad = first_bad_from(lines_of(s), 0);
    if bad is Some {
        BisectResultView { status: BisectStatus::Found, current_commit: None, bad_commit: bad, raw: s }
    } else if contains_str(s, "Bisecting:"@) {
        BisectResultView {
            status: BisectStatus::Stepping,
            current_commit: checked_out_from(lines_of(s), 0),
            bad_commit: None,
            raw: s,
        }
    } else if contains_str(s, "Previous HEAD position was"@) || contains_str(s, "HEAD is now at"@) {
        BisectResultView { status: BisectStatus::Done, current_commit: None, bad_commit: None, raw: s }
    } else {
        BisectResultView {
            status: BisectStatus::Started,
            current_commit: None,
            bad_commit: None,
            raw: s,
        }
    }
}

/// Classify the output of a `git bisect` invocation into a [`BisectResult`].
///
/// Pass the command's stdout and stderr together: git writes bisect progress
/// to stderr on recent versions and to stdout on older ones.
///
/// Matching is substring and line based, so it is sensitive to git's locale
/// and to output-wording changes across versions.
pub fn parse_bisect(output: &str) -> (r: BisectResult)
    ensures
        r@ == bisect_spec(output@),
{
    let s = chars_of(output);
    let raw = text_of(&s);
    let bad = first_bad_commit(&s);
    if bad.is_some() {
        return BisectResult { status: BisectStatus::Found, current_commit: None, bad_commit: bad, raw };
    }
    if contains_lit(&s, "Bisecting:") {
        return BisectResult {
            status: BisectStatus::Stepping,
            current_commit: checked_out_commit(&s),
            bad_commit: None,
            raw,
        };
    }
    if contains_lit(&s, "Previous HEAD position was") || contains_lit(&s, "HEAD is now at") {
        return BisectResult { status: BisectStatus::Done, current_commit: None, bad_commit: None, raw };
    }
    BisectResult { status: BisectStatus::Started, current_commit: None, bad_commit: None, raw }
}

/// Extract the SHA from a `<sha> is the first bad commit` line.
fn first_bad_commit(output: &Vec<char>) -> (r: Option<String>)
    ensures
        opt_view(r) == first_bad_from(lines_of(output@), 0),
{
    let ls = lines(output);
    let ghost lv = seq_views(ls@);
    let mut i: usize = 0;
    while i < ls.len()
        invariant
            lv == seq_views(ls@),
            lv == lines_of(output@),
            first_bad_from(lv, 0) == first_bad_from(lv, i as int),
        decreases ls.len() - i,
    {
        assert(lv[i as int] == ls@[i as int]@);
        if let Some(sha) = strip_suffix(&ls[i], " is the first bad commit") {
            if sha.len() > 0 {
                return Some(text_of(&sha));
            }
        }
        i += 1;
    }
    None
}

/// Extract the SHA from a `[<sha>] <subject>` line, as printed after a
/// `Bisecting:` header.
fn checked_out_commit(output: &Vec<char>) -> (r: Option<String>)
    ensures
        opt_view(r) == checked_out_from(lines_of(output@), 0),
{
    let ls = lines(output);
    let ghost lv = seq_views(ls@);
    let mut i: usize = 0;
    while i < ls.len()
        invariant
            lv == seq_views(ls@),
            lv == lines_of(output@),
            checked_out_from(lv, 0) == checked_out_from(lv, i as int),
        decreases ls.len() - i,
    {
        assert(lv[i as int] == ls@[i as int]@);
        if let Some(rest) = strip_prefix(&trim(&ls[i]), "[") {
            if let Some((sha, _)) = split_once(&rest, "]") {
                if sha.len() > 0 {
                    return Some(text_of(&sha));
                }
            }
        }
        i += 1;
    }
    None
}

} // verus!
