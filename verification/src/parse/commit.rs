//! Parser for `git commit` output.
//!
//! `git commit` prints a header line — `[branch hash] subject` or, for the
//! first commit in a repository, `[branch (root-commit) hash] subject` —
//! followed by a stats line such as `N files changed, N insertions(+), N
//! deletions(-)`. The stats line omits whichever of insertions/deletions is
//! zero and uses singular wording (`file changed`, `insertion(+)`) when the
//! count is one.
use vstd::prelude::*;

use crate::parse::diff::{
    leading_count, leading_count_of, lemma_deletions_part, lemma_files_part, lemma_insertions_part,
};
use crate::text::{
    chars_of, contains_lit, contains_str, find_lit, find_str, has_prefix, lemma_find_str,
    lemma_rfind_str, lines, lines_of, rfind, rfind_str, seq_views, slice_of, split_char,
    split_on, starts_with, tail_of, text_of, trim, trim_start_by, trim_start_class, trim_ws,
    CharClass, find_from, is_ws, lead_count, lemma_find_absent, lemma_find_from_first,
    lemma_rfind_from_last, lemma_trim_class_ends, matches_at, decimal,
};

verus! {

/// Parsed result of a `git commit` invocation.
#[derive(Debug, Clone, PartialEq, Eq)]
pub struct CommitResult {
    /// Branch the commit was made on.
    pub branch: String,
    /// Abbreviated commit hash from the header.
    pub short_hash: String,
    /// Commit subject (trailing text of the header line).
    pub subject: String,
    /// Number of files changed.
    pub files_changed: u32,
    /// Number of inserted lines.
    pub insertions: u32,
    /// Number of deleted lines.
    pub deletions: u32,
}

/// The abstract contents of a [`CommitResult`].
pub struct CommitResultView {
    pub branch: Seq<char>,
    pub short_hash: Seq<char>,
    pub subject: Seq<char>,
    pub files_changed: u32,
    pub insertions: u32,
    pub deletions: u32,
}

impl View for CommitResult {
    type V = CommitResultView;

    open spec fn view(&self) -> CommitResultView {
        CommitResultView {
            branch: self.branch@,
            short_hash: self.short_hash@,
            subject: self.subject@,
            files_changed: self.files_changed,
            insertions: self.insertions,
            deletions: self.deletions,
        }
    }
}

impl Default for CommitResult {
    fn default() -> (r: Self)
        ensures
            r.branch@.len() == 0,
            r.short_hash@.len() == 0,
            r.subject@.len() == 0,
            r.files_changed == 0,
            r.insertions == 0,
            r.deletions == 0,
    {
        CommitResult {
            branch: String::new(),
            short_hash: String::new(),
            subject: String::new(),
            files_changed: 0,
            insertions: 0,
            deletions: 0,
        }
    }
}

/// Branch, short hash and subject of a header line; all empty unless it
/// starts with `[` and has a closing `]`.
pub open spec fn commit_header_spec(h: Seq<char>) -> (Seq<char>, Seq<char>, Seq<char>) {
    if !has_prefix(h, "["@) {
        (Seq::empty(), Seq::empty(), Seq::empty())
    } else {
        match find_str(h, "]"@) {
            None => (Seq::empty(), Seq::empty(), Seq::empty()),
            Some(close) => {
                let inner = h.subrange(1, close);
                let subject = trim_start_class(h.skip(close + 1), CharClass::Whitespace);
                match find_str(inner, "(root-commit)"@) {
                    Some(idx) => (trim_ws(inner.take(idx)), trim_ws(inner.skip(idx + 13)), subject),
                    None => match rfind_str(inner, " "@) {
                        Some(pos) => (trim_ws(inner.take(pos)), trim_ws(inner.skip(pos + 1)), subject),
                        None => (Seq::empty(), trim_ws(inner), subject),
                    },
                }
            },
        }
    }
}

/// A header `[<branch> <sha>] <subject>`, where branch and SHA are
/// non-empty words without white space, `]` or `(`, and the subject does not
/// start with white space, gives the branch, the short hash and the subject,
/// each from its own place.
pub proof fn lemma_commit_header_fields(branch: Seq<char>, sha: Seq<char>, subject: Seq<char>)
    requires
        branch.len() > 0,
        sha.len() > 0,
        forall|m: int| 0 <= m < branch.len() ==> !is_ws(#[trigger] branch[m]),
        forall|m: int| 0 <= m < branch.len() ==> #[trigger] branch[m] != ']' && branch[m] != '(',
        forall|m: int| 0 <= m < sha.len() ==> !is_ws(#[trigger] sha[m]),
        forall|m: int| 0 <= m < sha.len() ==> #[trigger] sha[m] != ']' && sha[m] != '(',
        subject.len() == 0 || !is_ws(subject[0]),
    ensures
        commit_header_spec(seq!['['] + branch + seq![' '] + sha + seq![']', ' '] + subject) == (
            branch,
            sha,
            subject,
        ),
{
    reveal_strlit("[");
    reveal_strlit("]");
    reveal_strlit(" ");
    reveal_strlit("(root-commit)");
    let ws = CharClass::Whitespace;
    let h = seq!['['] + branch + seq![' '] + sha + seq![']', ' '] + subject;
    let bl = branch.len() as int;
    let close = 1 + bl + 1 + sha.len();
    assert(h.take(1) =~= "["@);
    assert(h[close] == ']');
    assert(h.subrange(close, close + 1) =~= "]"@);
    assert forall|j: int| 0 <= j < close implies !matches_at(h, "]"@, j) by {
        if matches_at(h, "]"@, j) {
            assert(h.subrange(j, j + 1)[0] == h[j]);
            if 1 <= j <= bl {
                assert(h[j] == branch[j - 1]);
            } else if j > bl + 1 {
                assert(h[j] == sha[j - bl - 2]);
            }
        }
    }
    lemma_find_from_first(h, "]"@, 0, close);
    let inner = h.subrange(1, close);
    assert(inner =~= branch + seq![' '] + sha);
    let after = h.skip(close + 1);
    assert(after =~= seq![' '] + subject);
    assert(lead_count(subject, ws) == 0);
    assert(after.drop_first() =~= subject);
    assert(lead_count(after, ws) == 1);
    assert(after.skip(1) =~= subject);
    assert forall|m: int| 0 <= m < inner.len() implies #[trigger] inner[m] != "(root-commit)"@[0] by {
        if m < bl {
            assert(inner[m] == branch[m]);
        } else if m > bl {
            assert(inner[m] == sha[m - bl - 1]);
        }
    }
    lemma_find_absent(inner, "(root-commit)"@, 0);
    assert(inner.subrange(bl, bl + 1) =~= " "@);
    assert forall|j: int| bl < j <= inner.len() - 1 implies !matches_at(inner, " "@, j) by {
        if matches_at(inner, " "@, j) {
            assert(inner.subrange(j, j + 1)[0] == inner[j]);
            assert(inner[j] == sha[j - bl - 1]);
        }
    }
    lemma_rfind_from_last(inner, " "@, inner.len() - 1, bl);
    assert(inner.take(bl) =~= branch);
    assert(inner.skip(bl + 1) =~= sha);
    lemma_trim_class_ends(branch, ws);
    lemma_trim_class_ends(sha, ws);
}

/// The counts after reading the comma-separated parts of a stats line from
/// `i` on: a part naming changed files, insertions or deletions sets that
/// count; a later part overrides an earlier one.
pub open spec fn stats_from(parts: Seq<Seq<char>>, i: int, acc: (u32, u32, u32)) -> (u32, u32, u32)
    decreases parts.len() - i,
{
    if i < 0 || i >= parts.len() {
        acc
    } else {
        let part = trim_ws(parts[i]);
        let next = if contains_str(part, "changed"@) {
            (leading_count(part), acc.1, acc.2)
        } else if contains_str(part, "insertion"@) {
            (acc.0, leading_count(part), acc.2)
        } else if contains_str(part, "deletion"@) {
            (acc.0, acc.1, leading_count(part))
        } else {
            acc
        };
        stats_from(parts, i + 1, next)
    }
}

/// A stats part `<n> files changed` sets the changed-file count to `n`,
/// `<n> insertions(+)` the insertion count and `<n> deletions(-)` the
/// deletion count, each keeping the other two.
pub proof fn lemma_stats_parts(n: u32, acc: (u32, u32, u32))
    ensures
        stats_from(seq![decimal(n as nat) + " files changed"@], 0, acc) == (n, acc.1, acc.2),
        stats_from(seq![decimal(n as nat) + " insertions(+)"@], 0, acc) == (acc.0, n, acc.2),
        stats_from(seq![decimal(n as nat) + " deletions(-)"@], 0, acc) == (acc.0, acc.1, n),
{
    lemma_files_part(n);
    lemma_insertions_part(n);
    lemma_deletions_part(n);
    let pf = decimal(n as nat) + " files changed"@;
    let pi = decimal(n as nat) + " insertions(+)"@;
    let pd = decimal(n as nat) + " deletions(-)"@;
    assert(stats_from(seq![pf], 1, (n, acc.1, acc.2)) == (n, acc.1, acc.2));
    assert(stats_from(seq![pi], 1, (acc.0, n, acc.2)) == (acc.0, n, acc.2));
    assert(stats_from(seq![pd], 1, (acc.0, acc.1, n)) == (acc.0, acc.1, n));
}

/// The first line of `ls` from line `i` on that contains `changed`.
pub open spec fn stats_line_from(ls: Seq<Seq<char>>, i: int) -> Option<Seq<char>>
    decreases ls.len() - i,
{
    if i < 0 || i >= ls.len() {
        None
    } else if contains_str(ls[i], "changed"@) {
        Some(ls[i])
    } else {
        stats_line_from(ls, i + 1)
    }
}

/// What `git commit` output `s` parses to: the header from the first line
/// (trimmed), and the counts from the first line that contains `changed`
/// (zeros without one).
pub open spec fn commit_spec(s: Seq<char>) -> CommitResultView {
    let ls = lines_of(s);
    let header = if ls.len() > 0 {
        trim_ws(ls[0])
    } else {
        Seq::empty()
    };
    let h = commit_header_spec(header);
    let counts = match stats_line_from(ls, 0) {
        Some(line) => stats_from(split_on(line, ','), 0, (0, 0, 0)),
        None => (0, 0, 0),
    };
    CommitResultView {
        branch: h.0,
        short_hash: h.1,
        subject: h.2,
        files_changed: counts.0,
        insertions: counts.1,
        deletions: counts.2,
    }
}

/// Parse the `[branch hash] subject` / `[branch (root-commit) hash] subject`
/// header line. Returns all-empty fields if `header` doesn't start with `[`
/// or has no closing `]`.
fn parse_header(header: &Vec<char>) -> (r: (String, String, String))
    ensures
        (r.0@, r.1@, r.2@) == commit_header_spec(header@),
{
    if !starts_with(header, "[") {
        return (String::new(), String::new(), String::new());
    }
    proof {
        reveal_strlit("[");
        reveal_strlit("]");
        reveal_strlit("(root-commit)");
        reveal_strlit(" ");
        lemma_find_str(header@, "]"@);
    }
    let close = match find_lit(header, "]") {
        Some(c) => c,
        None => {
            return (String::new(), String::new(), String::new());
        },
    };
    assert(header@.subrange(close as int, close + 1)[0] == ']');
    assert(header@.take(1)[0] == '[');
    assert(close >= 1);
    let inner = slice_of(header, 1, close);
    let subject = text_of(&trim_start_by(&tail_of(header, close + 1), CharClass::Whitespace));
    proof {
        lemma_find_str(inner@, "(root-commit)"@);
    }
    if let Some(idx) = find_lit(&inner, "(root-commit)") {
        let before = slice_of(&inner, 0, idx);
        assert(inner@.subrange(0, idx as int) =~= inner@.take(idx as int));
        let after = tail_of(&inner, idx + 13);
        return (text_of(&trim(&before)), text_of(&trim(&after)), subject);
    }
    let sp: Vec<char> = vec![' '];
    assert(sp@ =~= " "@);
    proof {
        lemma_rfind_str(inner@, sp@);
    }
    if let Some(pos) = rfind(&inner, &sp) {
        let before = slice_of(&inner, 0, pos);
        assert(inner@.subrange(0, pos as int) =~= inner@.take(pos as int));
        let after = tail_of(&inner, pos + 1);
        return (text_of(&trim(&before)), text_of(&trim(&after)), subject);
    }
    (String::new(), text_of(&trim(&inner)), subject)
}

/// Parse a `N files changed, N insertions(+), N deletions(-)` stats line.
/// Each count defaults to `0` when its sub-field is absent.
fn parse_stats_line(line: &Vec<char>) -> (r: (u32, u32, u32))
    ensures
        r == stats_from(split_on(line@, ','), 0, (0, 0, 0)),
{
    let parts = split_char(line, ',');
    let ghost pv = seq_views(parts@);
    let mut files_changed: u32 = 0;
    let mut insertions: u32 = 0;
    let mut deletions: u32 = 0;
    let mut i: usize = 0;
    while i < parts.len()
        invariant
            pv == seq_views(parts@),
            pv == split_on(line@, ','),
            stats_from(pv, 0, (0, 0, 0)) == stats_from(
                pv,
                i as int,
                (files_changed, insertions, deletions),
            ),
        decreases parts.len() - i,
    {
        assert(pv[i as int] == parts@[i as int]@);
        let part = trim(&parts[i]);
        if contains_lit(&part, "changed") {
            files_changed = leading_count_of(&part);
        } else if contains_lit(&part, "insertion") {
            insertions = leading_count_of(&part);
        } else if contains_lit(&part, "deletion") {
            deletions = leading_count_of(&part);
        }
        i += 1;
    }
    (files_changed, insertions, deletions)
}

/// Parse the output of `git commit`.
///
/// Permissive by design: an empty or unparseable header yields empty
/// strings, and a missing stats line (or missing insertions/deletions
/// sub-fields) yields zeros.
pub fn parse_commit(stdout: &str) -> (r: CommitResult)
    ensures
        r@ == commit_spec(stdout@),
{
    let s = chars_of(stdout);
    let ls = lines(&s);
    let ghost lv = seq_views(ls@);
    let header = if ls.len() > 0 {
        assert(lv[0] == ls@[0]@);
        trim(&ls[0])
    } else {
        Vec::new()
    };
    let (branch, short_hash, subject) = parse_header(&header);
    let counts = counts_of(&ls);
    CommitResult {
        branch,
        short_hash,
        subject,
        files_changed: counts.0,
        insertions: counts.1,
        deletions: counts.2,
    }
}

fn counts_of(ls: &Vec<Vec<char>>) -> (r: (u32, u32, u32))
    ensures
        r == match stats_line_from(seq_views(ls@), 0) {
            Some(line) => stats_from(split_on(line, ','), 0, (0, 0, 0)),
            None => (0, 0, 0),
        },
{
    let ghost lv = seq_views(ls@);
    let mut i: usize = 0;
    while i < ls.len()
        invariant
            lv == seq_views(ls@),
            stats_line_from(lv, 0) == stats_line_from(lv, i as int),
        decreases ls.len() - i,
    {
        assert(lv[i as int] == ls@[i as int]@);
        if contains_lit(&ls[i], "changed") {
            return parse_stats_line(&ls[i]);
        }
        i += 1;
    }
    (0, 0, 0)
}

} // verus!
