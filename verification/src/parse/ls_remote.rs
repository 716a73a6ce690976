//! Parser for `git ls-remote`.
//!
//! Each line is `<sha>\t<ref>`. Annotated tags produce a second line for the
//! same tag whose ref name carries a `^{}` suffix and whose SHA is the tagged
//! object rather than the tag object; that suffix is stripped into
//! [`LsRemoteEntry::peeled`] so both lines share one ref name.
//!
//! `--symref` prepends lines of the form `ref: <target>\t<name>` for the
//! remote's symbolic refs. Those carry no SHA, so they are not entries and are
//! dropped; [`parse_ls_remote_symrefs`] reads them instead. Lines without a tab
//! are dropped as well, which covers the trailing blank line and leaves an
//! empty input yielding an empty list.
use vstd::prelude::*;

use crate::parse::notes::pairs_view;
use crate::text::{
    chars_of, has_prefix, lines, lines_of, opt_view, seq_views, split_once, split_once_spec,
    starts_with, strip_prefix, strip_prefix_spec, strip_suffix, strip_suffix_spec, text_of,
    has_suffix, lemma_split_once_char,
};

verus! {

/// A single ref reported by `git ls-remote`.
#[derive(Debug, Clone, PartialEq, Eq)]
pub struct LsRemoteEntry {
    /// The object the ref points at.
    pub sha: String,
    /// The full ref name, without any `^{}` suffix.
    pub name: String,
    /// Whether this line was the peeled (`^{}`) form of an annotated tag, in
    /// which case `sha` is the tagged commit rather than the tag object.
    pub peeled: bool,
}

/// The abstract contents of an [`LsRemoteEntry`].
pub struct LsRemoteEntryView {
    pub sha: Seq<char>,
    pub name: Seq<char>,
    pub peeled: bool,
}

impl View for LsRemoteEntry {
    type V = LsRemoteEntryView;

    open spec fn view(&self) -> LsRemoteEntryView {
        LsRemoteEntryView { sha: self.sha@, name: self.name@, peeled: self.peeled }
    }
}

/// The entry a `<sha>\t<ref>` line describes; `None` for a line without a
/// tab, with an empty field, or a `ref: ` symref line.
pub open spec fn ls_remote_line(line: Seq<char>) -> Option<LsRemoteEntryView> {
    match split_once_spec(line, "\t"@) {
        None => None,
        Some((sha, name)) => if sha.len() == 0 || name.len() == 0 || has_prefix(sha, "ref: "@) {
            None
        } else {
            match strip_suffix_spec(name, "^{}"@) {
                Some(stripped) => Some(LsRemoteEntryView { sha, name: stripped, peeled: true }),
                None => Some(LsRemoteEntryView { sha, name, peeled: false }),
            }
        },
    }
}

/// A line `<sha>\t<ref>` (the SHA non-empty, without tab and not a
/// `ref: ` symref target) is the entry with that SHA and ref name, not
/// peeled; a line `<sha>\t<ref>^{}` is the same ref, peeled.
pub proof fn lemma_ls_remote_line_fields(sha: Seq<char>, name: Seq<char>)
    requires
        sha.len() > 0,
        !sha.contains('\t'),
        !has_prefix(sha, "ref: "@),
        name.len() > 0,
    ensures
        !has_suffix(name, "^{}"@) ==> ls_remote_line(sha + seq!['\t'] + name) == Some(
            LsRemoteEntryView { sha, name, peeled: false },
        ),
        ls_remote_line(sha + seq!['\t'] + name + "^{}"@) == Some(
            LsRemoteEntryView { sha, name, peeled: true },
        ),
{
    reveal_strlit("\t");
    reveal_strlit("^{}");
    assert("\t"@ =~= seq!['\t']);
    lemma_split_once_char(sha, '\t', name);
    lemma_split_once_char(sha, '\t', name + "^{}"@);
    assert(sha + seq!['\t'] + name + "^{}"@ =~= sha + seq!['\t'] + (name + "^{}"@));
    let peeled = name + "^{}"@;
    assert(peeled.skip(peeled.len() - 3) =~= "^{}"@);
    assert(peeled.take(peeled.len() - 3) =~= name);
}

/// The entries of the lines `ls` from line `i` on, after those in `acc`.
pub open spec fn ls_remote_from(ls: Seq<Seq<char>>, i: int, acc: Seq<LsRemoteEntryView>) -> Seq<
    LsRemoteEntryView,
>
    decreases ls.len() - i,
{
    if i < 0 || i >= ls.len() {
        acc
    } else {
        match ls_remote_line(ls[i]) {
            Some(e) => ls_remote_from(ls, i + 1, acc.push(e)),
            None => ls_remote_from(ls, i + 1, acc),
        }
    }
}

/// What `git ls-remote` output `s` parses to.
pub open spec fn ls_remote_spec(s: Seq<char>) -> Seq<LsRemoteEntryView> {
    ls_remote_from(lines_of(s), 0, Seq::empty())
}

fn parse_line(line: &Vec<char>) -> (r: Option<LsRemoteEntry>)
    ensures
        opt_view(r) == ls_remote_line(line@),
{
    let (sha, name) = split_once(line, "\t")?;
    if sha.len() == 0 || name.len() == 0 || starts_with(&sha, "ref: ") {
        return None;
    }
    match strip_suffix(&name, "^{}") {
        Some(stripped) => Some(
            LsRemoteEntry { sha: text_of(&sha), name: text_of(&stripped), peeled: true },
        ),
        None => Some(LsRemoteEntry { sha: text_of(&sha), name: text_of(&name), peeled: false }),
    }
}

/// Parse the output of `git ls-remote`.
pub fn parse_ls_remote(input: &str) -> (r: Vec<LsRemoteEntry>)
    ensures
        seq_views(r@) == ls_remote_spec(input@),
{
    let s = chars_of(input);
    let ls = lines(&s);
    let ghost lv = seq_views(ls@);
    let mut out: Vec<LsRemoteEntry> = Vec::new();
    let mut i: usize = 0;
    assert(seq_views(out@) =~= Seq::<LsRemoteEntryView>::empty());
    while i < ls.len()
        invariant
            lv == seq_views(ls@),
            lv == lines_of(input@),
            ls_remote_spec(input@) == ls_remote_from(lv, i as int, seq_views(out@)),
        decreases ls.len() - i,
    {
        assert(lv[i as int] == ls@[i as int]@);
        if let Some(e) = parse_line(&ls[i]) {
            let ghost acc = seq_views(out@);
            let ghost ev = e@;
            out.push(e);
            assert(seq_views(out@) =~= acc.push(ev));
        }
        i += 1;
    }
    out
}

/// A line `ref: <target>\t<name>` (both non-empty, the target without tab)
/// pairs the symbolic ref's name first with its target second.
pub proof fn lemma_symref_line_fields(target: Seq<char>, name: Seq<char>)
    requires
        target.len() > 0,
        !target.contains('\t'),
        name.len() > 0,
    ensures
        symref_line("ref: "@ + target + seq!['\t'] + name) == Some((name, target)),
{
    reveal_strlit("\t");
    reveal_strlit("ref: ");
    assert("\t"@ =~= seq!['\t']);
    let t = "ref: "@ + target;
    assert(!t.contains('\t')) by {
        if t.contains('\t') {
            let m = choose|m: int| 0 <= m < t.len() && t[m] == '\t';
            if m >= 5 {
                assert(target[m - 5] == '\t');
                assert(target.contains('\t'));
            }
        }
    }
    lemma_split_once_char(t, '\t', name);
    assert(t.take(5) =~= "ref: "@);
    assert(t.skip(5) =~= target);
}

/// The `(name, target)` pair a `ref: <target>\t<name>` line describes.
pub open spec fn symref_line(line: Seq<char>) -> Option<(Seq<char>, Seq<char>)> {
    match split_once_spec(line, "\t"@) {
        None => None,
        Some((t, name)) => match strip_prefix_spec(t, "ref: "@) {
            None => None,
            Some(target) => if target.len() == 0 || name.len() == 0 {
                None
            } else {
                Some((name, target))
            },
        },
    }
}

/// The symref pairs of the lines `ls` from line `i` on, after those in `acc`.
pub open spec fn symrefs_from(
    ls: Seq<Seq<char>>,
    i: int,
    acc: Seq<(Seq<char>, Seq<char>)>,
) -> Seq<(Seq<char>, Seq<char>)>
    decreases ls.len() - i,
{
    if i < 0 || i >= ls.len() {
        acc
    } else {
        match symref_line(ls[i]) {
            Some(p) => symrefs_from(ls, i + 1, acc.push(p)),
            None => symrefs_from(ls, i + 1, acc),
        }
    }
}

/// The symref pairs `git ls-remote --symref` output `s` holds.
pub open spec fn symrefs_spec(s: Seq<char>) -> Seq<(Seq<char>, Seq<char>)> {
    symrefs_from(lines_of(s), 0, Seq::empty())
}

/// Parse the `--symref` lines of `git ls-remote` into `(name, target)` pairs.
///
/// Lines that are ordinary ref entries are skipped, so this can be called on
/// the same output as [`parse_ls_remote`].
pub fn parse_ls_remote_symrefs(input: &str) -> (r: Vec<(String, String)>)
    ensures
        pairs_view(r@) == symrefs_spec(input@),
{
    let s = chars_of(input);
    let ls = lines(&s);
    let ghost lv = seq_views(ls@);
    let mut out: Vec<(String, String)> = Vec::new();
    let mut i: usize = 0;
    assert(pairs_view(out@) =~= Seq::<(Seq<char>, Seq<char>)>::empty());
    while i < ls.len()
        invariant
            lv == seq_views(ls@),
            lv == lines_of(input@),
            symrefs_spec(input@) == symrefs_from(lv, i as int, pairs_view(out@)),
        decreases ls.len() - i,
    {
        assert(lv[i as int] == ls@[i as int]@);
        if let Some((t, name)) = split_once(&ls[i], "\t") {
            if let Some(target) = strip_prefix(&t, "ref: ") {
                if target.len() > 0 && name.len() > 0 {
                    let ghost acc = pairs_view(out@);
                    let p = (text_of(&name), text_of(&target));
                    let ghost pv = (p.0@, p.1@);
                    out.push(p);
                    assert(pairs_view(out@) =~= acc.push(pv));
                }
            }
        }
        i += 1;
    }
    out
}

} // verus!
