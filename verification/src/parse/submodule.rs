//! Parser for `git submodule status`.
//!
//! Each line is `<status-char><sha> <path>[ (<describe>)]`, where the
//! leading status char is one of `' '` (current), `'+'` (modified), `'-'`
//! (uninitialized), or `'U'` (merge conflict), immediately followed by the
//! recorded commit SHA with no separator. The trailing `(<describe>)` is
//! present only when `git describe` succeeds against that commit; `--cached`
//! and `--recursive` can shift or omit it entirely. Parsing is permissive:
//! empty input yields an empty list, and a line that does not match the
//! expected shape is kept with the trimmed line as its `path`, an empty
//! `sha`, and `SubmoduleStatus::Current`, rather than being dropped.
use vstd::prelude::*;

use crate::text::{
    chars_of, ends_with, has_suffix, lemma_rfind_str, lines, lines_of, opt_view, rfind,
    rfind_str, seq_views, slice_of, splitn, splitn_class, tail_of, text_of, trim, trim_start_by,
    trim_start_class, trim_ws, CharClass, in_class, is_ws, lead_count,
    lemma_rfind_from_last, lemma_splitn_first_class, matches_at,
};

verus! {

/// Classification of a `git submodule status` leading status character.
#[derive(Debug, Clone, Copy, PartialEq, Eq)]
pub enum SubmoduleStatus {
    /// Checked out commit matches the recorded SHA (`' '`).
    Current,
    /// Checked out commit differs from the recorded SHA (`'+'`).
    Modified,
    /// Submodule is not initialized (`'-'`).
    Uninitialized,
    /// Merge conflict in the submodule (`'U'`).
    Conflict,
}

/// The status a leading character stands for; anything unrecognised is
/// current.
pub open spec fn submodule_status_of(c: char) -> SubmoduleStatus {
    if c == '+' {
        SubmoduleStatus::Modified
    } else if c == '-' {
        SubmoduleStatus::Uninitialized
    } else if c == 'U' {
        SubmoduleStatus::Conflict
    } else {
        SubmoduleStatus::Current
    }
}

impl vstd::std_specs::convert::FromSpecImpl<char> for SubmoduleStatus {
    open spec fn obeys_from_spec() -> bool {
        true
    }

    open spec fn from_spec(v: char) -> Self {
        submodule_status_of(v)
    }
}

impl From<char> for SubmoduleStatus {
    fn from(c: char) -> (r: Self) {
        match c {
            '+' => Self::Modified,
            '-' => Self::Uninitialized,
            'U' => Self::Conflict,
            _ => Self::Current,
        }
    }
}

/// `+` marks a modified submodule, `-` an uninitialized one and `U` a
/// conflict, each and only each; every other character reads as current.
pub proof fn lemma_submodule_status_characters(c: char)
    ensures
        (submodule_status_of(c) == SubmoduleStatus::Modified) <==> c == '+',
        (submodule_status_of(c) == SubmoduleStatus::Uninitialized) <==> c == '-',
        (submodule_status_of(c) == SubmoduleStatus::Conflict) <==> c == 'U',
        (submodule_status_of(c) == SubmoduleStatus::Current) <==> !(c == '+' || c == '-' || c
            == 'U'),
{
}

/// A single parsed entry from `git submodule status`.
#[derive(Debug, Clone, PartialEq, Eq)]
pub struct SubmoduleEntry {
    /// The recorded commit SHA (leading status char stripped).
    pub sha: String,
    /// The submodule path.
    pub path: String,
    /// The `git describe` output, if present.
    pub describe: Option<String>,
    /// Status of the submodule, from the leading status char.
    pub status: SubmoduleStatus,
}

/// The abstract contents of a [`SubmoduleEntry`].
pub struct SubmoduleEntryView {
    pub sha: Seq<char>,
    pub path: Seq<char>,
    pub describe: Option<Seq<char>>,
    pub status: SubmoduleStatus,
}

impl View for SubmoduleEntry {
    type V = SubmoduleEntryView;

    open spec fn view(&self) -> SubmoduleEntryView {
        SubmoduleEntryView {
            sha: self.sha@,
            path: self.path@,
            describe: opt_view(self.describe),
            status: self.status,
        }
    }
}

/// `path (describe)` split into the path and the non-empty text between the
/// last ` (` and the final `)`; the whole text is the path otherwise.
pub open spec fn path_describe_spec(s: Seq<char>) -> (Seq<char>, Option<Seq<char>>) {
    if has_suffix(s, ")"@) {
        match rfind_str(s, " ("@) {
            Some(idx) => {
                let d = s.subrange(idx + 2, s.len() - 1);
                (s.take(idx), if d.len() == 0 {
                    None
                } else {
                    Some(d)
                })
            },
            None => (s, None),
        }
    } else {
        (s, None)
    }
}

/// The entry kept for a line of another shape: the trimmed line as the path.
pub open spec fn fallback_spec(line: Seq<char>) -> SubmoduleEntryView {
    SubmoduleEntryView {
        sha: Seq::empty(),
        path: trim_ws(line),
        describe: None,
        status: SubmoduleStatus::Current,
    }
}

/// The entry a `git submodule status` line describes: a line that is not
/// `<status><sha> <path>...` (no sha, or nothing after it) is kept by
/// [`fallback_spec`].
pub open spec fn submodule_line_spec(line: Seq<char>) -> SubmoduleEntryView {
    if line.len() == 0 {
        fallback_spec(line)
    } else {
        let parts = splitn_class(line.skip(1), 2, CharClass::Whitespace);
        if parts.len() < 2 || parts[0].len() == 0 || trim_start_class(
            parts[1],
            CharClass::Whitespace,
        ).len() == 0 {
            fallback_spec(line)
        } else {
            let pd = path_describe_spec(trim_start_class(parts[1], CharClass::Whitespace));
            SubmoduleEntryView {
                sha: parts[0],
                path: pd.0,
                describe: pd.1,
                status: submodule_status_of(line[0]),
            }
        }
    }
}

/// A line `<c><sha> <path>` (the SHA a non-empty word without white
/// space, the path not starting with white space nor ending with `)`) is
/// the entry with that SHA and path, no describe output, and the status `c`
/// stands for; a line `<c><sha> <path> (<describe>)`, with a non-empty
/// describe output without spaces, also has that describe output.
pub proof fn lemma_submodule_line_fields(
    c: char,
    sha: Seq<char>,
    path: Seq<char>,
    describe: Seq<char>,
)
    requires
        sha.len() > 0,
        forall|m: int| 0 <= m < sha.len() ==> !is_ws(#[trigger] sha[m]),
        path.len() > 0,
        !is_ws(path[0]),
        path[path.len() - 1] != ')',
        describe.len() > 0,
        forall|m: int| 0 <= m < describe.len() ==> #[trigger] describe[m] != ' ',
    ensures
        submodule_line_spec(seq![c] + sha + seq![' '] + path) == (SubmoduleEntryView {
            sha,
            path,
            describe: None,
            status: submodule_status_of(c),
        }),
        submodule_line_spec(
            seq![c] + sha + seq![' '] + path + seq![' ', '('] + describe + seq![')'],
        ) == (SubmoduleEntryView {
            sha,
            path,
            describe: Some(describe),
            status: submodule_status_of(c),
        }),
{
    reveal_strlit(")");
    reveal_strlit(" (");
    let ws = CharClass::Whitespace;
    let full = path + seq![' ', '('] + describe + seq![')'];
    lemma_splitn_first_class(sha, ' ', path, 2, ws);
    lemma_splitn_first_class(sha, ' ', full, 2, ws);
    let l1 = seq![c] + sha + seq![' '] + path;
    let l2 = seq![c] + sha + seq![' '] + full;
    assert(l1.skip(1) =~= sha + seq![' '] + path);
    assert(l2.skip(1) =~= sha + seq![' '] + full);
    assert(seq![c] + sha + seq![' '] + path + seq![' ', '('] + describe + seq![')'] =~= l2);
    assert(lead_count(path, ws) == 0);
    assert(path.skip(0) =~= path);
    assert(full[0] == path[0]);
    assert(lead_count(full, ws) == 0);
    assert(full.skip(0) =~= full);
    assert(path.skip(path.len() - 1) != ")"@) by {
        assert(path.skip(path.len() - 1)[0] == path[path.len() - 1]);
    }
    assert(full.skip(full.len() - 1) =~= ")"@);
    let pl = path.len() as int;
    assert(full.subrange(pl, pl + 2) =~= " ("@);
    assert forall|j: int| pl < j <= full.len() - 2 implies !matches_at(full, " ("@, j) by {
        if matches_at(full, " ("@, j) {
            assert(full.subrange(j, j + 2)[0] == full[j]);
            if j > pl + 1 {
                assert(full[j] == describe[j - pl - 2]);
            }
        }
    }
    lemma_rfind_from_last(full, " ("@, full.len() - 2, pl);
    assert(full.take(pl) =~= path);
    assert(full.subrange(pl + 2, full.len() - 1) =~= describe);
}

/// The entries of the non-blank lines of `ls` from line `i` on, after those
/// in `acc`.
pub open spec fn submodules_from(
    ls: Seq<Seq<char>>,
    i: int,
    acc: Seq<SubmoduleEntryView>,
) -> Seq<SubmoduleEntryView>
    decreases ls.len() - i,
{
    if i < 0 || i >= ls.len() {
        acc
    } else if trim_ws(ls[i]).len() == 0 {
        submodules_from(ls, i + 1, acc)
    } else {
        submodules_from(ls, i + 1, acc.push(submodule_line_spec(ls[i])))
    }
}

/// What `git submodule status` output `s` parses to.
pub open spec fn submodule_status_spec(s: Seq<char>) -> Seq<SubmoduleEntryView> {
    submodules_from(lines_of(s), 0, Seq::empty())
}

/// Split `"path (describe)"` into `(path, Some(describe))`, or `(path, None)`
/// when there is no trailing parenthesized group.
fn split_path_describe(s: &Vec<char>) -> (r: (String, Option<String>))
    ensures
        (r.0@, opt_view(r.1)) == path_describe_spec(s@),
{
    if ends_with(s, ")") {
        let pat: Vec<char> = vec![' ', '('];
        proof {
            reveal_strlit(" (");
            reveal_strlit(")");
            lemma_rfind_str(s@, pat@);
        }
        assert(pat@ =~= " ("@);
        if let Some(idx) = rfind(s, &pat) {
            assert(rfind_str(s@, pat@) == Some(idx as int));
            assert(idx + 2 <= s@.len());
            assert(idx + 2 <= s.len());
            assert(s@.subrange(idx as int, idx + 2)[1] == '(');
            assert(s@.skip(s@.len() - 1)[0] == ')');
            let path = slice_of(s, 0, idx);
            assert(s@.subrange(0, idx as int) =~= s@.take(idx as int));
            let d = slice_of(s, idx + 2, s.len() - 1);
            let describe = if d.len() == 0 {
                None
            } else {
                Some(text_of(&d))
            };
            return (text_of(&path), describe);
        }
    }
    (text_of(s), None)
}

fn fallback(line: &Vec<char>) -> (r: SubmoduleEntry)
    ensures
        r@ == fallback_spec(line@),
{
    SubmoduleEntry {
        sha: String::new(),
        path: text_of(&trim(line)),
        describe: None,
        status: SubmoduleStatus::Current,
    }
}

fn parse_line(line: &Vec<char>) -> (r: SubmoduleEntry)
    ensures
        r@ == submodule_line_spec(line@),
{
    if line.len() == 0 {
        return fallback(line);
    }
    let status = SubmoduleStatus::from(line[0]);
    let rest = tail_of(line, 1);
    let parts = splitn(&rest, 2, CharClass::Whitespace);
    let ghost pv = seq_views(parts@);
    if parts.len() < 2 {
        return fallback(line);
    }
    assert(pv[0] == parts@[0]@ && pv[1] == parts@[1]@);
    if parts[0].len() == 0 {
        return fallback(line);
    }
    let remainder = trim_start_by(&parts[1], CharClass::Whitespace);
    if remainder.len() == 0 {
        return fallback(line);
    }
    let (path, describe) = split_path_describe(&remainder);
    SubmoduleEntry { sha: text_of(&parts[0]), path, describe, status }
}

/// Parse the output of `git submodule status` (with or without `--cached` /
/// `--recursive`).
pub fn parse_submodule_status(input: &str) -> (r: Vec<SubmoduleEntry>)
    ensures
        seq_views(r@) == submodule_status_spec(input@),
{
    let s = chars_of(input);
    let ls = lines(&s);
    let ghost lv = seq_views(ls@);
    let mut out: Vec<SubmoduleEntry> = Vec::new();
    let mut i: usize = 0;
    assert(seq_views(out@) =~= Seq::<SubmoduleEntryView>::empty());
    while i < ls.len()
        invariant
            lv == seq_views(ls@),
            lv == lines_of(input@),
            submodule_status_spec(input@) == submodules_from(lv, i as int, seq_views(out@)),
        decreases ls.len() - i,
    {
        assert(lv[i as int] == ls@[i as int]@);
        if trim(&ls[i]).len() > 0 {
            let e = parse_line(&ls[i]);
            let ghost acc = seq_views(out@);
            let ghost ev = e@;
            out.push(e);
            assert(seq_views(out@) =~= acc.push(ev));
        }
        i += 1;
    }
    out
}

} // verus!
