//! Parser for `git cherry`.
//!
//! Each line is `<+|-> <sha>`, with the commit's subject appended when the
//! command ran with `-v`. The leading marker is `+` when the commit has no
//! equivalent upstream and `-` when an equivalent patch is already there.
//! Unlike most of git's porcelain this format is stable and strict, so lines
//! that do not begin with `+ ` or `- ` are dropped rather than kept as a
//! fallback entry; empty input yields an empty list.
use vstd::prelude::*;

use crate::text::{
    chars_of, lines, lines_of, opt_view, seq_views, splitn_char, splitn_class, strip_prefix,
    strip_prefix_spec, tail_of, text_of, trim, trim_ws, CharClass, is_ws, lemma_splitn_first,
    lemma_trim_class_ends, find_class_from, lemma_find_class_from,
};

verus! {

/// Classification of a `git cherry` leading marker.
#[derive(Debug, Clone, Copy, PartialEq, Eq)]
pub enum CherryStatus {
    /// No equivalent patch upstream yet (`'+'`).
    NotUpstream,
    /// An equivalent patch is already upstream (`'-'`).
    Upstream,
}

/// A single parsed entry from `git cherry`.
#[derive(Debug, Clone, PartialEq, Eq)]
pub struct CherryEntry {
    /// Whether an equivalent patch already exists upstream.
    pub status: CherryStatus,
    /// The commit SHA.
    pub sha: String,
    /// The subject line, present only when the command ran with `-v`.
    pub subject: Option<String>,
}

/// The abstract contents of a [`CherryEntry`].
pub struct CherryEntryView {
    pub status: CherryStatus,
    pub sha: Seq<char>,
    pub subject: Option<Seq<char>>,
}

impl View for CherryEntry {
    type V = CherryEntryView;

    open spec fn view(&self) -> CherryEntryView {
        CherryEntryView { status: self.status, sha: self.sha@, subject: opt_view(self.subject) }
    }
}

/// The entry a `<+|-> <sha>[ <subject>]` line describes; `None` for any
/// other line. A blank subject counts as none.
pub open spec fn cherry_line_spec(line: Seq<char>) -> Option<CherryEntryView> {
    if line.len() == 0 || (line[0] != '+' && line[0] != '-') {
        None
    } else {
        let status = if line[0] == '+' {
            CherryStatus::NotUpstream
        } else {
            CherryStatus::Upstream
        };
        match strip_prefix_spec(line.skip(1), " "@) {
            None => None,
            Some(rest) => {
                let parts = splitn_class(rest, 2, CharClass::Exactly(' '));
                if parts.len() < 1 || parts[0].len() == 0 {
                    None
                } else {
                    let subject = if parts.len() >= 2 && trim_ws(parts[1]).len() > 0 {
                        Some(trim_ws(parts[1]))
                    } else {
                        None
                    };
                    Some(CherryEntryView { status, sha: parts[0], subject })
                }
            },
        }
    }
}

/// A line `+ <sha>` or `- <sha> <subject>` (the SHA non-empty without
/// spaces, the subject not starting or ending with white space) is the
/// entry with that SHA, that subject when there is one, and the status its
/// marker stands for.
pub proof fn lemma_cherry_line_fields(sha: Seq<char>, subject: Seq<char>)
    requires
        sha.len() > 0,
        !sha.contains(' '),
        subject.len() > 0,
        !is_ws(subject[0]),
        !is_ws(subject[subject.len() - 1]),
    ensures
        cherry_line_spec(seq!['+', ' '] + sha) == Some(
            CherryEntryView { status: CherryStatus::NotUpstream, sha, subject: None },
        ),
        cherry_line_spec(seq!['-', ' '] + sha + seq![' '] + subject) == Some(
            CherryEntryView { status: CherryStatus::Upstream, sha, subject: Some(subject) },
        ),
{
    reveal_strlit(" ");
    let k = CharClass::Exactly(' ');
    let l1 = seq!['+', ' '] + sha;
    let l2 = seq!['-', ' '] + sha + seq![' '] + subject;
    assert(l1.skip(1).take(1) =~= " "@);
    assert(l1.skip(1).skip(1) =~= sha);
    assert(l2.skip(1).take(1) =~= " "@);
    assert(l2.skip(1).skip(1) =~= sha + seq![' '] + subject);
    assert(splitn_class(sha, 2, k) == seq![sha]) by {
        if find_class_from(sha, k, 0) is Some {
            lemma_find_class_from(sha, k, 0);
            let j = find_class_from(sha, k, 0)->0;
            assert(sha[j] == ' ');
            assert(sha.contains(' '));
        }
    }
    lemma_splitn_first(sha, ' ', subject, 2);
    lemma_trim_class_ends(subject, CharClass::Whitespace);
}

/// A line read as an entry starts with `+` exactly when the commit is not
/// upstream yet and with `-` exactly when an equivalent patch is upstream;
/// a line starting with anything else is no entry.
pub proof fn lemma_cherry_markers(line: Seq<char>)
    ensures
        cherry_line_spec(line) matches Some(e) ==> line.len() > 0 && ((e.status
            == CherryStatus::NotUpstream) <==> line[0] == '+') && ((e.status
            == CherryStatus::Upstream) <==> line[0] == '-'),
        line.len() == 0 || (line[0] != '+' && line[0] != '-') ==> cherry_line_spec(line) is None,
{
}

/// The entries of the lines `ls` from line `i` on, after those in `acc`.
pub open spec fn cherry_from(ls: Seq<Seq<char>>, i: int, acc: Seq<CherryEntryView>) -> Seq<
    CherryEntryView,
>
    decreases ls.len() - i,
{
    if i < 0 || i >= ls.len() {
        acc
    } else {
        match cherry_line_spec(ls[i]) {
            Some(e) => cherry_from(ls, i + 1, acc.push(e)),
            None => cherry_from(ls, i + 1, acc),
        }
    }
}

/// What `git cherry` output `s` parses to.
pub open spec fn cherry_spec(s: Seq<char>) -> Seq<CherryEntryView> {
    cherry_from(lines_of(s), 0, Seq::empty())
}

fn parse_line(line: &Vec<char>) -> (r: Option<CherryEntry>)
    ensures
        opt_view(r) == cherry_line_spec(line@),
{
    if line.len() == 0 {
        return None;
    }
    let status = if line[0] == '+' {
        CherryStatus::NotUpstream
    } else if line[0] == '-' {
        CherryStatus::Upstream
    } else {
        return None;
    };
    let rest = strip_prefix(&tail_of(line, 1), " ")?;
    let parts = splitn_char(&rest, 2, ' ');
    let ghost pv = seq_views(parts@);
    if parts.len() < 1 || parts[0].len() == 0 {
        if parts.len() >= 1 {
            assert(pv[0] == parts@[0]@);
        }
        return None;
    }
    assert(pv[0] == parts@[0]@);
    let subject = if parts.len() >= 2 {
        assert(pv[1] == parts@[1]@);
        let t = trim(&parts[1]);
        if t.len() > 0 {
            Some(text_of(&t))
        } else {
            None
        }
    } else {
        None
    };
    Some(CherryEntry { status, sha: text_of(&parts[0]), subject })
}

/// Parse the output of `git cherry` (with or without `-v`).
pub fn parse_cherry(input: &str) -> (r: Vec<CherryEntry>)
    ensures
        seq_views(r@) == cherry_spec(input@),
{
    let s = chars_of(input);
    let ls = lines(&s);
    let ghost lv = seq_views(ls@);
    let mut out: Vec<CherryEntry> = Vec::new();
    let mut i: usize = 0;
    assert(seq_views(out@) =~= Seq::<CherryEntryView>::empty());
    while i < ls.len()
        invariant
            lv == seq_views(ls@),
            lv == lines_of(input@),
            cherry_spec(input@) == cherry_from(lv, i as int, seq_views(out@)),
        decreases ls.len() - i,
    {
        assert(lv[i as int] == ls@[i as int]@);
        if let Some(e) = parse_line(&ls[i]) {
            let ghost acc = seq_views(out@);
            let ghost ev = e@;
            out.push(e);
            assert(seq_views(out@) =~= acc.push(ev));
        }
        i += 1;
    }
    out
}

} // verus!
