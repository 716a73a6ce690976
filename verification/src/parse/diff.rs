//! Parsers for `git diff` output: name-status, numstat, and stat.
//!
//! `git diff --name-status -z` entries are a single status character
//! followed by a tab and the path, all NUL-terminated. Renames/copies
//! include a numeric similarity index (e.g. `R100`) and a second path
//! following another NUL.
//!
//! `git diff --numstat -z` and `git diff --stat` are parsed into a shared
//! [`Diff`] aggregate of per-file [`DiffFile`] insertion/deletion counts plus
//! repo-level totals. `--numstat -z` gives exact per-file counts; `--stat`'s
//! per-file counts are derived from its `+`/`-` graph, which git scales down
//! for large diffs, so prefer `--numstat -z` when exact per-file counts
//! matter. The repo-level totals parsed from `--stat`'s summary line are
//! exact either way.
use vstd::prelude::*;

use crate::error::{is_parse_error, Error, Result};
use crate::text::{
    chars_of, contains_lit, contains_str, find_lit, find_str, is_lit, join_with, lemma_find_str,
    lemma_split_join, lemma_splitn_first, lines, decimal, is_ws, lemma_words_join,
    lemma_trim_class_ends, lemma_join_ends, lemma_contains_at, lemma_find_absent,
    lemma_find_nowhere, matches_at, lemma_decimal_digits, lemma_parse_decimal, is_digit,
    lemma_split_once_first, lead_count, trail_count,
    lines_of, parse_u32, parse_u32_spec, seq_views, slice_of, split_char, split_on, split_once,
    split_once_spec, splitn_char, splitn_class, starts_with, has_prefix, tail_of, text_of, trim,
    trim_ws, words, words_of, CharClass,
};

verus! {

/// A single file's change counts within a [`Diff`].
#[derive(Debug, Clone, PartialEq, Eq)]
pub struct DiffFile {
    /// Affected path (post-rename, if applicable).
    pub path: String,
    /// Inserted lines.
    pub insertions: u32,
    /// Deleted lines.
    pub deletions: u32,
    /// Whether the file is binary (no line counts available).
    pub binary: bool,
}

/// The abstract contents of a [`DiffFile`].
pub struct DiffFileView {
    pub path: Seq<char>,
    pub insertions: u32,
    pub deletions: u32,
    pub binary: bool,
}

impl View for DiffFile {
    type V = DiffFileView;

    open spec fn view(&self) -> DiffFileView {
        DiffFileView {
            path: self.path@,
            insertions: self.insertions,
            deletions: self.deletions,
            binary: self.binary,
        }
    }
}

/// Aggregate result of parsing `git diff --numstat -z` or `git diff --stat`.
#[derive(Debug, Clone, PartialEq, Eq)]
pub struct Diff {
    /// Per-file change counts.
    pub files: Vec<DiffFile>,
    /// Total inserted lines across all files.
    pub total_insertions: u32,
    /// Total deleted lines across all files.
    pub total_deletions: u32,
    /// Full unparsed stdout.
    pub raw: String,
}

impl Default for Diff {
    fn default() -> (r: Self)
        ensures
            r.files@.len() == 0,
            r.total_insertions == 0,
            r.total_deletions == 0,
            r.raw@.len() == 0,
    {
        Diff { files: Vec::new(), total_insertions: 0, total_deletions: 0, raw: String::new() }
    }
}

/// Classification of a diff entry.
#[derive(Debug, Clone, Copy, PartialEq, Eq)]
pub enum DiffKind {
    /// Added (`A`).
    Added,
    /// Deleted (`D`).
    Deleted,
    /// Modified (`M`).
    Modified,
    /// Renamed (`R`).
    Renamed,
    /// Copied (`C`).
    Copied,
    /// Type changed (`T`).
    TypeChanged,
    /// Unmerged (`U`).
    Unmerged,
    /// Unknown (`X` or anything else).
    Other(char),
}

/// The kind a status letter stands for.
pub open spec fn kind_of(c: char) -> DiffKind {
    if c == 'A' {
        DiffKind::Added
    } else if c == 'D' {
        DiffKind::Deleted
    } else if c == 'M' {
        DiffKind::Modified
    } else if c == 'R' {
        DiffKind::Renamed
    } else if c == 'C' {
        DiffKind::Copied
    } else if c == 'T' {
        DiffKind::TypeChanged
    } else if c == 'U' {
        DiffKind::Unmerged
    } else {
        DiffKind::Other(c)
    }
}

impl vstd::std_specs::convert::FromSpecImpl<char> for DiffKind {
    open spec fn obeys_from_spec() -> bool {
        true
    }

    open spec fn from_spec(v: char) -> Self {
        kind_of(v)
    }
}

impl From<char> for DiffKind {
    fn from(c: char) -> (r: Self) {
        match c {
            'A' => Self::Added,
            'D' => Self::Deleted,
            'M' => Self::Modified,
            'R' => Self::Renamed,
            'C' => Self::Copied,
            'T' => Self::TypeChanged,
            'U' => Self::Unmerged,
            c => Self::Other(c),
        }
    }
}

/// Each status letter git documents for `--name-status` stands for its
/// own kind and no other letter does; any other character is kept as it
/// came, as an unknown kind.
pub proof fn lemma_kind_letters(c: char)
    ensures
        (kind_of(c) == DiffKind::Added) <==> c == 'A',
        (kind_of(c) == DiffKind::Deleted) <==> c == 'D',
        (kind_of(c) == DiffKind::Modified) <==> c == 'M',
        (kind_of(c) == DiffKind::Renamed) <==> c == 'R',
        (kind_of(c) == DiffKind::Copied) <==> c == 'C',
        (kind_of(c) == DiffKind::TypeChanged) <==> c == 'T',
        (kind_of(c) == DiffKind::Unmerged) <==> c == 'U',
        (kind_of(c) is Other) <==> !(c == 'A' || c == 'D' || c == 'M' || c == 'R' || c == 'C'
            || c == 'T' || c == 'U'),
        kind_of(c) matches DiffKind::Other(x) ==> x == c,
{
}

/// One parsed entry from `git diff --name-status -z`.
#[derive(Debug, Clone, PartialEq, Eq)]
pub struct DiffEntry {
    /// Kind of change.
    pub kind: DiffKind,
    /// Affected path (post-rename, if applicable).
    pub path: String,
    /// Original path for renames/copies.
    pub original_path: Option<String>,
    /// Similarity index for renames/copies (e.g. 100 means identical).
    pub similarity: Option<u32>,
}

/// The abstract contents of a [`DiffEntry`].
pub struct DiffEntryView {
    pub kind: DiffKind,
    pub path: Seq<char>,
    pub original_path: Option<Seq<char>>,
    pub similarity: Option<u32>,
}

impl View for DiffEntry {
    type V = DiffEntryView;

    open spec fn view(&self) -> DiffEntryView {
        DiffEntryView {
            kind: self.kind,
            path: self.path@,
            original_path: match self.original_path {
                Some(p) => Some(p@),
                None => None,
            },
            similarity: self.similarity,
        }
    }
}

/// The similarity index after the status letter: `None` when there is
/// none or it is not a `u32`.
pub open spec fn similarity_of(status: Seq<char>) -> Option<u32> {
    if status.len() <= 1 {
        None
    } else {
        parse_u32_spec(status.drop_first())
    }
}

/// Whether the kind takes an original and a new path.
pub open spec fn takes_two_paths(k: DiffKind) -> bool {
    k is Renamed || k is Copied
}

/// The entries of the NUL-separated fields `toks` from field `i` on,
/// after those in `acc`; or the message of the first malformed entry.
pub open spec fn name_status_from(
    toks: Seq<Seq<char>>,
    i: int,
    acc: Seq<DiffEntryView>,
) -> core::result::Result<Seq<DiffEntryView>, Seq<char>>
    decreases toks.len() - i,
{
    if i < 0 || i >= toks.len() {
        Ok(acc)
    } else if toks[i].len() == 0 {
        name_status_from(toks, i + 1, acc)
    } else {
        let kind = kind_of(toks[i][0]);
        let similarity = similarity_of(toks[i]);
        if takes_two_paths(kind) {
            if i + 1 >= toks.len() {
                Err("rename/copy missing original path"@)
            } else if i + 2 >= toks.len() {
                Err("rename/copy missing new path"@)
            } else {
                name_status_from(
                    toks,
                    i + 3,
                    acc.push(
                        DiffEntryView {
                            kind,
                            path: toks[i + 2],
                            original_path: Some(toks[i + 1]),
                            similarity,
                        },
                    ),
                )
            }
        } else if i + 1 >= toks.len() {
            Err("diff entry missing path"@)
        } else {
            name_status_from(
                toks,
                i + 2,
                acc.push(DiffEntryView { kind, path: toks[i + 1], original_path: None, similarity }),
            )
        }
    }
}

/// What `git diff --name-status -z` output `s` parses to.
pub open spec fn name_status_spec(s: Seq<char>) -> core::result::Result<
    Seq<DiffEntryView>,
    Seq<char>,
> {
    name_status_from(split_on(s, '\0'), 0, Seq::empty())
}

/// Parse the output of `git diff --name-status -z`.
///
/// Returns [`Error::ParseError`] if an entry is malformed.
pub fn parse_diff_name_status(input: &str) -> (r: Result<Vec<DiffEntry>>)
    ensures
        r matches Ok(v) ==> name_status_spec(input@) == Ok::<Seq<DiffEntryView>, Seq<char>>(
            seq_views(v@),
        ),
        r matches Err(e) ==> name_status_spec(input@) matches Err(m) && is_parse_error(e, m),
{
    let s = chars_of(input);
    let toks = split_char(&s, '\0');
    let ghost tv = seq_views(toks@);
    let mut out: Vec<DiffEntry> = Vec::new();
    let mut i: usize = 0;
    assert(seq_views(out@) =~= Seq::<DiffEntryView>::empty());
    while i < toks.len()
        invariant
            tv == seq_views(toks@),
            tv == split_on(input@, '\0'),
            name_status_spec(input@) == name_status_from(tv, i as int, seq_views(out@)),
        decreases toks.len() - i,
    {
        assert(tv[i as int] == toks@[i as int]@);
        if toks[i].len() == 0 {
            i += 1;
            continue;
        }
        let first = toks[i][0];
        let kind = DiffKind::from(first);
        let rest = tail_of(&toks[i], 1);
        assert(rest@ =~= tv[i as int].drop_first());
        let similarity = if rest.len() == 0 {
            None
        } else {
            parse_u32(&rest)
        };
        let two = match kind {
            DiffKind::Renamed | DiffKind::Copied => true,
            _ => false,
        };
        let ghost acc = seq_views(out@);
        if two {
            if i + 1 >= toks.len() {
                return Err(Error::parse_error("rename/copy missing original path"));
            }
            if i + 2 >= toks.len() {
                return Err(Error::parse_error("rename/copy missing new path"));
            }
            assert(tv[i + 1] == toks@[i + 1]@);
            assert(tv[i + 2] == toks@[i + 2]@);
            let original = text_of(&toks[i + 1]);
            let path = text_of(&toks[i + 2]);
            let e = DiffEntry { kind, path, original_path: Some(original), similarity };
            let ghost ev = e@;
            out.push(e);
            assert(seq_views(out@) =~= acc.push(ev));
            i += 3;
        } else {
            if i + 1 >= toks.len() {
                return Err(Error::parse_error("diff entry missing path"));
            }
            assert(tv[i + 1] == toks@[i + 1]@);
            let path = text_of(&toks[i + 1]);
            let e = DiffEntry { kind, path, original_path: None, similarity };
            let ghost ev = e@;
            out.push(e);
            assert(seq_views(out@) =~= acc.push(ev));
            i += 2;
        }
    }
    Ok(out)
}

/// A `--name-status -z` record with the status letter `A` and a path
/// without NUL parses to one entry: an addition of that path, with no
/// original path and no similarity.
pub proof fn lemma_name_status_added(path: Seq<char>)
    requires
        !path.contains('\0'),
    ensures
        name_status_spec(seq!['A', '\0'] + path + seq!['\0']) == Ok::<
            Seq<DiffEntryView>,
            Seq<char>,
        >(seq![DiffEntryView { kind: DiffKind::Added, path, original_path: None, similarity: None }]),
{
    let ps = seq![seq!['A'], path, Seq::<char>::empty()];
    assert forall|i: int| 0 <= i < ps.len() implies !(#[trigger] ps[i]).contains('\0') by {
        if i == 0 {
            if ps[0].contains('\0') {
                let m = choose|m: int| 0 <= m < ps[0].len() && ps[0][m] == '\0';
                assert(ps[0][m] == 'A');
            }
        }
    }
    lemma_split_join(ps, '\0');
    let two = seq![seq!['A'], path];
    assert(ps.drop_last() =~= two);
    assert(two.drop_last() =~= seq![seq!['A']]);
    assert(join_with(seq![seq!['A']], seq!['\0']) == seq!['A']);
    assert(join_with(two, seq!['\0']) == seq!['A'] + seq!['\0'] + path);
    assert(join_with(ps, seq!['\0']) == join_with(two, seq!['\0']) + seq!['\0'] + Seq::<
        char,
    >::empty());
    assert(join_with(ps, seq!['\0']) =~= seq!['A', '\0'] + path + seq!['\0']);
    let toks = split_on(seq!['A', '\0'] + path + seq!['\0'], '\0');
    assert(toks == ps);
    let e = DiffEntryView { kind: DiffKind::Added, path, original_path: None, similarity: None };
    assert(toks[0][0] == 'A');
    assert(similarity_of(toks[0]) is None);
    assert(name_status_from(toks, 2, seq![e]) == name_status_from(toks, 3, seq![e]));
    assert(Seq::<DiffEntryView>::empty().push(e) =~= seq![e]);
}

/// A `--name-status -z` rename record `R<n>` with its original and new
/// paths (neither holding NUL) parses to one entry: a rename to the new
/// path from the original one, with similarity `n`.
pub proof fn lemma_name_status_renamed(n: u32, original: Seq<char>, path: Seq<char>)
    requires
        !original.contains('\0'),
        !path.contains('\0'),
    ensures
        name_status_spec(
            seq!['R'] + decimal(n as nat) + seq!['\0'] + original + seq!['\0'] + path + seq![
                '\0',
            ],
        ) == Ok::<Seq<DiffEntryView>, Seq<char>>(
            seq![
                DiffEntryView {
                    kind: DiffKind::Renamed,
                    path,
                    original_path: Some(original),
                    similarity: Some(n),
                },
            ],
        ),
{
    let status = seq!['R'] + decimal(n as nat);
    lemma_decimal_digits(n as nat);
    lemma_parse_decimal(n as nat, u32::MAX as nat);
    assert(status.drop_first() =~= decimal(n as nat));
    let ps = seq![status, original, path, Seq::<char>::empty()];
    assert forall|i: int| 0 <= i < ps.len() implies !(#[trigger] ps[i]).contains('\0') by {
        if i == 0 && status.contains('\0') {
            let m = choose|m: int| 0 <= m < status.len() && status[m] == '\0';
            if m > 0 {
                assert(is_digit(decimal(n as nat)[m - 1]));
            }
        }
    }
    lemma_split_join(ps, '\0');
    let p3 = seq![status, original, path];
    let p2 = seq![status, original];
    assert(ps.drop_last() =~= p3);
    assert(p3.drop_last() =~= p2);
    assert(p2.drop_last() =~= seq![status]);
    assert(join_with(seq![status], seq!['\0']) == status);
    assert(join_with(p2, seq!['\0']) == status + seq!['\0'] + original);
    assert(join_with(p3, seq!['\0']) == status + seq!['\0'] + original + seq!['\0'] + path);
    let input = seq!['R'] + decimal(n as nat) + seq!['\0'] + original + seq!['\0'] + path
        + seq!['\0'];
    assert(join_with(ps, seq!['\0']) =~= input);
    let toks = split_on(input, '\0');
    assert(toks == ps);
    assert(toks[0][0] == 'R');
    assert(similarity_of(toks[0]) == Some(n));
    let e = DiffEntryView {
        kind: DiffKind::Renamed,
        path,
        original_path: Some(original),
        similarity: Some(n),
    };
    assert(Seq::<DiffEntryView>::empty().push(e) =~= seq![e]);
    assert(name_status_from(toks, 3, seq![e]) == name_status_from(toks, 4, seq![e]));
}

/// The sum of the insertion counts.
pub open spec fn total_insertions(fs: Seq<DiffFileView>) -> nat
    decreases fs.len(),
{
    if fs.len() == 0 {
        0
    } else {
        total_insertions(fs.drop_last()) + fs.last().insertions as nat
    }
}

/// The sum of the deletion counts.
pub open spec fn total_deletions(fs: Seq<DiffFileView>) -> nat
    decreases fs.len(),
{
    if fs.len() == 0 {
        0
    } else {
        total_deletions(fs.drop_last()) + fs.last().deletions as nat
    }
}

/// The tab-separated fields of a numstat record: counts, then the path.
pub open spec fn numstat_fields(rec: Seq<char>) -> Seq<Seq<char>> {
    splitn_class(rec, 3, CharClass::Exactly('\t'))
}

/// The outcome of reading the numstat records `toks` from field `i` on,
/// after the files in `acc`, while the running totals are `ti` and `td`:
/// the files, or the message of the first malformed record or of the first
/// record that takes a running total past `u32::MAX`.
pub open spec fn numstat_from(
    toks: Seq<Seq<char>>,
    i: int,
    acc: Seq<DiffFileView>,
    ti: int,
    td: int,
) -> core::result::Result<Seq<DiffFileView>, Seq<char>>
    decreases toks.len() - i,
{
    if i < 0 || i >= toks.len() {
        Ok(acc)
    } else if toks[i].len() == 0 {
        numstat_from(toks, i + 1, acc, ti, td)
    } else {
        let fields = numstat_fields(toks[i]);
        if fields.len() < 1 {
            Err("numstat entry missing insertions field"@)
        } else if fields.len() < 2 {
            Err("numstat entry missing deletions field"@)
        } else {
            let ins_field = fields[0];
            let del_field = fields[1];
            let path_field = if fields.len() >= 3 {
                fields[2]
            } else {
                Seq::empty()
            };
            let binary = ins_field == "-"@ && del_field == "-"@;
            if !binary && parse_u32_spec(ins_field) is None {
                Err("invalid numstat insertions count"@)
            } else if !binary && parse_u32_spec(del_field) is None {
                Err("invalid numstat deletions count"@)
            } else {
                let ins: u32 = if binary {
                    0
                } else {
                    parse_u32_spec(ins_field)->0
                };
                let del: u32 = if binary {
                    0
                } else {
                    parse_u32_spec(del_field)->0
                };
                if path_field.len() == 0 && i + 1 >= toks.len() {
                    Err("numstat rename missing original path"@)
                } else if path_field.len() == 0 && i + 2 >= toks.len() {
                    Err("numstat rename missing new path"@)
                } else if ti + ins > u32::MAX || td + del > u32::MAX {
                    Err("numstat totals exceed u32"@)
                } else {
                    let path = if path_field.len() == 0 {
                        toks[i + 2]
                    } else {
                        path_field
                    };
                    let next = if path_field.len() == 0 {
                        i + 3
                    } else {
                        i + 1
                    };
                    numstat_from(
                        toks,
                        next,
                        acc.push(
                            DiffFileView { path, insertions: ins, deletions: del, binary },
                        ),
                        ti + ins,
                        td + del,
                    )
                }
            }
        }
    }
}

/// What `git diff --numstat -z` output `s` parses to (see [`numstat_from`]).
pub open spec fn numstat_spec(s: Seq<char>) -> core::result::Result<Seq<DiffFileView>, Seq<char>> {
    numstat_from(split_on(s, '\0'), 0, Seq::empty(), 0, 0)
}

/// A `--numstat -z` record `<a>\t<b>\t<path>` (the path non-empty, without
/// NUL) parses to one file: `a` insertions and `b` deletions of that path,
/// not binary.
pub proof fn lemma_numstat_record(a: u32, b: u32, path: Seq<char>)
    requires
        path.len() > 0,
        !path.contains('\0'),
    ensures
        numstat_spec(
            decimal(a as nat) + seq!['\t'] + decimal(b as nat) + seq!['\t'] + path + seq!['\0'],
        ) == Ok::<Seq<DiffFileView>, Seq<char>>(
            seq![DiffFileView { path, insertions: a, deletions: b, binary: false }],
        ),
{
    let da = decimal(a as nat);
    let db = decimal(b as nat);
    lemma_decimal_digits(a as nat);
    lemma_decimal_digits(b as nat);
    lemma_parse_decimal(a as nat, u32::MAX as nat);
    lemma_parse_decimal(b as nat, u32::MAX as nat);
    let rec = da + seq!['\t'] + db + seq!['\t'] + path;
    let ps = seq![rec, Seq::<char>::empty()];
    assert forall|i: int| 0 <= i < ps.len() implies !(#[trigger] ps[i]).contains('\0') by {
        if i == 0 && rec.contains('\0') {
            let m = choose|m: int| 0 <= m < rec.len() && rec[m] == '\0';
            if m < da.len() {
                assert(is_digit(da[m]));
            } else if da.len() < m < da.len() + 1 + db.len() {
                assert(is_digit(db[m - da.len() - 1]));
            } else if m > da.len() + 1 + db.len() + 1 {
                assert(path[m - da.len() - db.len() - 2] == '\0');
                assert(path.contains('\0'));
            }
        }
    }
    lemma_split_join(ps, '\0');
    assert(ps.drop_last() =~= seq![rec]);
    assert(join_with(seq![rec], seq!['\0']) == rec);
    assert(join_with(ps, seq!['\0']) == rec + seq!['\0'] + Seq::<char>::empty());
    let input = da + seq!['\t'] + db + seq!['\t'] + path + seq!['\0'];
    assert(join_with(ps, seq!['\0']) =~= input);
    let toks = split_on(input, '\0');
    assert(toks == ps);
    if da.contains('\t') {
        let m = choose|m: int| 0 <= m < da.len() && da[m] == '\t';
        assert(is_digit(da[m]));
    }
    if db.contains('\t') {
        let m = choose|m: int| 0 <= m < db.len() && db[m] == '\t';
        assert(is_digit(db[m]));
    }
    let r2 = db + seq!['\t'] + path;
    assert(rec =~= da + seq!['\t'] + r2);
    lemma_splitn_first(da, '\t', r2, 3);
    lemma_splitn_first(db, '\t', path, 2);
    let fields = numstat_fields(rec);
    assert(fields =~= seq![da, db, path]);
    reveal_strlit("-");
    assert(is_digit(da[0]));
    assert(da != "-"@);
    let f = DiffFileView { path, insertions: a, deletions: b, binary: false };
    assert(Seq::<DiffFileView>::empty().push(f) =~= seq![f]);
    assert(numstat_from(toks, 1, seq![f], a as int, b as int) == numstat_from(
        toks,
        2,
        seq![f],
        a as int,
        b as int,
    ));
}

/// Parse the output of `git diff --numstat -z`.
///
/// Each record is `insertions\tdeletions\tpath`, NUL-terminated. Binary
/// files report `-\t-\t` in place of counts. A rename/copy leaves the path
/// field empty and follows with two more NUL-terminated fields, the
/// original and new path (mirroring [`parse_diff_name_status`]); only the
/// new path is kept, since [`DiffFile`] has no original-path field.
///
/// Returns [`Error::ParseError`] if a record is malformed, or if the
/// running totals of insertions or deletions would exceed `u32::MAX`.
pub fn parse_diff_numstat(input: &str) -> (r: Result<Diff>)
    ensures
        r matches Ok(d) ==> numstat_spec(input@) == Ok::<Seq<DiffFileView>, Seq<char>>(
            seq_views(d.files@),
        ) && d.total_insertions == total_insertions(seq_views(d.files@))
            && d.total_deletions == total_deletions(seq_views(d.files@)) && d.raw@ == input@,
        r matches Err(e) ==> numstat_spec(input@) matches Err(m) && is_parse_error(e, m),
{
    let s = chars_of(input);
    let toks = split_char(&s, '\0');
    let ghost tv = seq_views(toks@);
    let mut files: Vec<DiffFile> = Vec::new();
    let mut total_ins: u32 = 0;
    let mut total_del: u32 = 0;
    let mut i: usize = 0;
    assert(seq_views(files@) =~= Seq::<DiffFileView>::empty());
    while i < toks.len()
        invariant
            tv == seq_views(toks@),
            tv == split_on(input@, '\0'),
            numstat_spec(input@) == numstat_from(
                tv,
                i as int,
                seq_views(files@),
                total_ins as int,
                total_del as int,
            ),
            total_ins == total_insertions(seq_views(files@)),
            total_del == total_deletions(seq_views(files@)),
        decreases toks.len() - i,
    {
        assert(tv[i as int] == toks@[i as int]@);
        if toks[i].len() == 0 {
            i += 1;
            continue;
        }
        let fields = splitn_char(&toks[i], 3, '\t');
        assert(seq_views(fields@) == numstat_fields(tv[i as int]));
        if fields.len() < 1 {
            return Err(Error::parse_error("numstat entry missing insertions field"));
        }
        if fields.len() < 2 {
            return Err(Error::parse_error("numstat entry missing deletions field"));
        }
        assert(seq_views(fields@)[0] == fields@[0]@);
        assert(seq_views(fields@)[1] == fields@[1]@);
        let binary = is_lit(&fields[0], "-") && is_lit(&fields[1], "-");
        let mut ins: u32 = 0;
        let mut del: u32 = 0;
        if !binary {
            match parse_u32(&fields[0]) {
                Some(v) => {
                    ins = v;
                },
                None => {
                    return Err(Error::parse_error("invalid numstat insertions count"));
                },
            }
            match parse_u32(&fields[1]) {
                Some(v) => {
                    del = v;
                },
                None => {
                    return Err(Error::parse_error("invalid numstat deletions count"));
                },
            }
        }
        let path_empty = fields.len() < 3 || fields[2].len() == 0;
        if fields.len() >= 3 {
            assert(seq_views(fields@)[2] == fields@[2]@);
        }
        let path;
        let next;
        if path_empty {
            if i + 1 >= toks.len() {
                return Err(Error::parse_error("numstat rename missing original path"));
            }
            if i + 2 >= toks.len() {
                return Err(Error::parse_error("numstat rename missing new path"));
            }
            assert(tv[i + 2] == toks@[i + 2]@);
            path = text_of(&toks[i + 2]);
            next = i + 3;
        } else {
            path = text_of(&fields[2]);
            next = i + 1;
        }
        let ghost acc = seq_views(files@);
        total_ins = match total_ins.checked_add(ins) {
            Some(t) => t,
            None => {
                return Err(Error::parse_error("numstat totals exceed u32"));
            },
        };
        total_del = match total_del.checked_add(del) {
            Some(t) => t,
            None => {
                return Err(Error::parse_error("numstat totals exceed u32"));
            },
        };
        let f = DiffFile { path, insertions: ins, deletions: del, binary };
        let ghost fv = f@;
        files.push(f);
        assert(seq_views(files@) =~= acc.push(fv));
        assert(seq_views(files@).drop_last() =~= acc);
        i = next;
    }
    let raw = text_of(&s);
    Ok(Diff { files, total_insertions: total_ins, total_deletions: total_del, raw })
}

/// The number of times `c` occurs in `s`.
pub open spec fn count_char(s: Seq<char>, c: char) -> nat
    decreases s.len(),
{
    if s.len() == 0 {
        0
    } else {
        count_char(s.drop_last(), c) + if s.last() == c {
            1nat
        } else {
            0nat
        }
    }
}

fn count_of(s: &Vec<char>, c: char) -> (n: usize)
    ensures
        n == count_char(s@, c),
{
    let mut n: usize = 0;
    let mut i: usize = 0;
    while i < s.len()
        invariant
            i <= s.len(),
            n == count_char(s@.take(i as int), c),
            n <= i,
        decreases s.len() - i,
    {
        assert(s@.take(i + 1).drop_last() =~= s@.take(i as int));
        if s[i] == c {
            n += 1;
        }
        i += 1;
    }
    assert(s@.take(s.len() as int) =~= s@);
    n
}

/// The new path a `--stat` path column names: `prefix{old => new}suffix`
/// becomes `prefix` `new` `suffix`, `old => new` becomes `new` (trimmed),
/// anything else stays as it is (trimmed).
pub open spec fn stat_path_spec(column: Seq<char>) -> Seq<char> {
    let raw = trim_ws(column);
    let braced: Option<Seq<char>> = match find_str(raw, "{"@) {
        Some(bs) => match find_str(raw.skip(bs), "}"@) {
            Some(k) => {
                let be = bs + k;
                let inner = raw.subrange(bs + 1, be);
                match find_str(inner, " => "@) {
                    Some(a) => Some(raw.take(bs) + inner.skip(a + 4) + raw.skip(be + 1)),
                    None => None,
                }
            },
            None => None,
        },
        None => None,
    };
    match braced {
        Some(p) => p,
        None => match find_str(raw, " => "@) {
            Some(a) => trim_ws(raw.skip(a + 4)),
            None => raw,
        },
    }
}

/// Resolve a `--stat` path column down to the new path, expanding rename
/// notation: plain `old => new` and the common-prefix/suffix abbreviated
/// form `prefix{old => new}suffix`.
fn resolve_stat_path(column: &Vec<char>) -> (r: Vec<char>)
    ensures
        r@ == stat_path_spec(column@),
{
    let raw = trim(column);
    proof {
        reveal_strlit("{");
        reveal_strlit("}");
        reveal_strlit(" => ");
        lemma_find_str(raw@, "{"@);
    }
    if let Some(bs) = find_lit(&raw, "{") {
        let after = tail_of(&raw, bs);
        proof {
            lemma_find_str(after@, "}"@);
        }
        if let Some(k) = find_lit(&after, "}") {
            assert(raw@.subrange(bs as int, bs + 1)[0] == '{');
            assert(after@.subrange(k as int, k + 1)[0] == '}');
            assert(k >= 1);
            let be = bs + k;
            let inner = slice_of(&raw, bs + 1, be);
            proof {
                lemma_find_str(inner@, " => "@);
            }
            if let Some(a) = find_lit(&inner, " => ") {
                let mut out = slice_of(&raw, 0, bs);
                let new_part = tail_of(&inner, a + 4);
                let suffix = tail_of(&raw, be + 1);
                let mut j: usize = 0;
                let ghost base = out@;
                while j < new_part.len()
                    invariant
                        j <= new_part.len(),
                        out@ == base + new_part@.take(j as int),
                    decreases new_part.len() - j,
                {
                    out.push(new_part[j]);
                    assert(new_part@.take(j + 1) =~= new_part@.take(j as int).push(new_part@[j as int]));
                    j += 1;
                }
                assert(new_part@.take(new_part.len() as int) =~= new_part@);
                let ghost base2 = out@;
                let mut j: usize = 0;
                while j < suffix.len()
                    invariant
                        j <= suffix.len(),
                        out@ == base2 + suffix@.take(j as int),
                    decreases suffix.len() - j,
                {
                    out.push(suffix[j]);
                    assert(suffix@.take(j + 1) =~= suffix@.take(j as int).push(suffix@[j as int]));
                    j += 1;
                }
                assert(suffix@.take(suffix.len() as int) =~= suffix@);
                assert(raw@.subrange(0, bs as int) =~= raw@.take(bs as int));
                return out;
            }
        }
    }
    proof {
        lemma_find_str(raw@, " => "@);
    }
    if let Some(a) = find_lit(&raw, " => ") {
        let rest = tail_of(&raw, a + 4);
        return trim(&rest);
    }
    raw
}

/// What a `--stat` per-file line describes, or `None` if it has no ` | `
/// separator (the summary line has none).
pub open spec fn stat_file_spec(line: Seq<char>) -> Option<DiffFileView> {
    match split_once_spec(line, " | "@) {
        Some((column, graph)) => {
            let path = stat_path_spec(column);
            let rest = trim_ws(graph);
            if has_prefix(rest, "Bin"@) {
                Some(DiffFileView { path, insertions: 0, deletions: 0, binary: true })
            } else {
                Some(
                    DiffFileView {
                        path,
                        insertions: count_char(rest, '+') as u32,
                        deletions: count_char(rest, '-') as u32,
                        binary: false,
                    },
                )
            }
        },
        None => None,
    }
}

/// `n` copies of `c`.
pub open spec fn repeated(c: char, n: nat) -> Seq<char> {
    Seq::new(n, |i: int| c)
}

proof fn lemma_count_char_concat(x: Seq<char>, y: Seq<char>, c: char)
    ensures
        count_char(x + y, c) == count_char(x, c) + count_char(y, c),
    decreases y.len(),
{
    if y.len() == 0 {
        assert(x + y =~= x);
    } else {
        lemma_count_char_concat(x, y.drop_last(), c);
        assert((x + y).drop_last() =~= x + y.drop_last());
    }
}

proof fn lemma_count_repeated(c: char, n: nat, d: char)
    ensures
        count_char(repeated(c, n), d) == if c == d {
            n
        } else {
            0
        },
    decreases n,
{
    if n > 0 {
        lemma_count_repeated(c, (n - 1) as nat, d);
        assert(repeated(c, n).drop_last() =~= repeated(c, (n - 1) as nat));
    } else {
        assert(repeated(c, n) =~= Seq::<char>::empty());
    }
}

proof fn lemma_count_digits(s: Seq<char>, c: char)
    requires
        !is_digit(c),
        forall|m: int| 0 <= m < s.len() ==> is_digit(#[trigger] s[m]),
    ensures
        count_char(s, c) == 0,
    decreases s.len(),
{
    if s.len() > 0 {
        assert(is_digit(s[s.len() - 1]));
        lemma_count_digits(s.drop_last(), c);
    }
}

/// A `--stat` line `<path> | <n> <a pluses><b minuses>` (the path a
/// non-empty word without white space or `{`, and at least one mark) is
/// that path with `a` insertions and `b` deletions, not binary: pluses
/// count insertions and minuses deletions.
pub proof fn lemma_stat_file_marks(path: Seq<char>, n: u32, a: nat, b: nat)
    requires
        path.len() > 0,
        forall|m: int| 0 <= m < path.len() ==> !is_ws(#[trigger] path[m]) && path[m] != '{',
        a + b > 0,
        a + b <= u32::MAX,
    ensures
        stat_file_spec(
            path + " | "@ + decimal(n as nat) + seq![' '] + repeated('+', a) + repeated('-', b),
        ) == Some(
            DiffFileView { path, insertions: a as u32, deletions: b as u32, binary: false },
        ),
{
    reveal_strlit(" | ");
    reveal_strlit("{");
    reveal_strlit(" => ");
    reveal_strlit("Bin");
    let ws = CharClass::Whitespace;
    let d = decimal(n as nat);
    lemma_decimal_digits(n as nat);
    let marks = repeated('+', a) + repeated('-', b);
    let graph = d + seq![' '] + marks;
    assert forall|m: int| 0 <= m < path.len() implies #[trigger] path[m] != " | "@[0] by {
        assert(!is_ws(path[m]));
    }
    lemma_split_once_first(path, " | "@, graph);
    assert(path + " | "@ + d + seq![' '] + marks =~= path + " | "@ + graph);
    lemma_trim_class_ends(path, ws);
    assert forall|m: int| 0 <= m < path.len() implies #[trigger] path[m] != "{"@[0] by {}
    lemma_find_absent(path, "{"@, 0);
    assert forall|m: int| 0 <= m < path.len() implies #[trigger] path[m] != " => "@[0] by {
        assert(!is_ws(path[m]));
    }
    lemma_find_absent(path, " => "@, 0);
    assert(stat_path_spec(path) == path);
    assert(is_digit(d[0]));
    assert(graph[0] == d[0]);
    let last = graph[graph.len() - 1];
    assert(last == '+' || last == '-') by {
        if b > 0 {
            assert(last == repeated('-', b)[b - 1]);
        } else {
            assert(last == repeated('+', a)[a - 1]);
        }
    }
    lemma_trim_class_ends(graph, ws);
    assert(!has_prefix(graph, "Bin"@)) by {
        assert(graph.take(3)[0] == graph[0]);
    }
    lemma_count_char_concat(d + seq![' '], marks, '+');
    lemma_count_char_concat(d + seq![' '], marks, '-');
    lemma_count_char_concat(d, seq![' '], '+');
    lemma_count_char_concat(d, seq![' '], '-');
    lemma_count_char_concat(repeated('+', a), repeated('-', b), '+');
    lemma_count_char_concat(repeated('+', a), repeated('-', b), '-');
    lemma_count_repeated('+', a, '+');
    lemma_count_repeated('+', a, '-');
    lemma_count_repeated('-', b, '+');
    lemma_count_repeated('-', b, '-');
    lemma_count_digits(d, '+');
    lemma_count_digits(d, '-');
    assert(repeated(' ', 1) =~= seq![' ']);
    lemma_count_repeated(' ', 1, '+');
    lemma_count_repeated(' ', 1, '-');
    assert(d + seq![' '] + marks =~= graph);
    assert(count_char(graph, '+') == a);
    assert(count_char(graph, '-') == b);
    assert(path + " | "@ + d + seq![' '] + repeated('+', a) + repeated('-', b) =~= path + " | "@
        + graph);
}

/// Parse a single `--stat` per-file line, or `None` if it isn't one.
fn parse_stat_file_line(line: &Vec<char>) -> (r: Option<DiffFile>)
    ensures
        r matches Some(f) ==> stat_file_spec(line@) == Some(f@),
        r is None ==> stat_file_spec(line@) is None,
{
    let (column, graph) = match split_once(line, " | ") {
        Some(p) => p,
        None => return None,
    };
    let path = text_of(&resolve_stat_path(&column));
    let rest = trim(&graph);
    if starts_with(&rest, "Bin") {
        return Some(DiffFile { path, insertions: 0, deletions: 0, binary: true });
    }
    let insertions = count_of(&rest, '+') as u32;
    let deletions = count_of(&rest, '-') as u32;
    Some(DiffFile { path, insertions, deletions, binary: false })
}

/// The count that starts a summary part (`3 insertions(+)`), or `0`.
pub open spec fn leading_count(part: Seq<char>) -> u32 {
    let w = words_of(part);
    if w.len() > 0 {
        match parse_u32_spec(w[0]) {
            Some(v) => v,
            None => 0,
        }
    } else {
        0
    }
}

pub fn leading_count_of(part: &Vec<char>) -> (n: u32)
    ensures
        n == leading_count(part@),
{
    let w = words(part);
    if w.len() > 0 {
        assert(seq_views(w@)[0] == w@[0]@);
        match parse_u32(&w[0]) {
            Some(v) => v,
            None => 0,
        }
    } else {
        0
    }
}

/// A part `<n> <word>...` (words non-empty, without white space) starts
/// with the count `n`, and is its own trim.
pub proof fn lemma_leading_count(n: u32, ws: Seq<Seq<char>>)
    requires
        ws.len() > 0,
        forall|i: int| 0 <= i < ws.len() ==> (#[trigger] ws[i]).len() > 0,
        forall|i: int, m: int| 0 <= i < ws.len() && 0 <= m < ws[i].len() ==> !is_ws(#[trigger] ws[i][m]),
    ensures
        leading_count(join_with(seq![decimal(n as nat)] + ws, seq![' '])) == n,
        trim_ws(join_with(seq![decimal(n as nat)] + ws, seq![' '])) == join_with(
            seq![decimal(n as nat)] + ws,
            seq![' '],
        ),
{
    let d = decimal(n as nat);
    lemma_decimal_digits(n as nat);
    lemma_parse_decimal(n as nat, u32::MAX as nat);
    let ps = seq![d] + ws;
    assert forall|i: int| 0 <= i < ps.len() implies (#[trigger] ps[i]).len() > 0 by {
        if i > 0 {
            assert(ps[i] == ws[i - 1]);
        }
    }
    assert forall|i: int, m: int| 0 <= i < ps.len() && 0 <= m < ps[i].len() implies !is_ws(
        #[trigger] ps[i][m],
    ) by {
        if i == 0 {
            assert(is_digit(d[m]));
        } else {
            assert(ps[i] == ws[i - 1]);
        }
    }
    lemma_words_join(ps);
    lemma_join_ends(ps, ' ');
    assert(!is_ws(ps[0][0]));
    assert(!is_ws(ps[ps.len() - 1][ps[ps.len() - 1].len() - 1]));
    lemma_trim_class_ends(join_with(ps, seq![' ']), CharClass::Whitespace);
}

/// A summary part `<n> insertions(+)` sets the insertion total to `n` and
/// keeps the deletion total; a part `<n> deletions(-)` sets the deletion
/// total and keeps the insertion total.
pub proof fn lemma_summary_parts(n: u32, acc: (u32, u32))
    ensures
        summary_from(seq![decimal(n as nat) + " insertions(+)"@], 0, acc) == (n, acc.1),
        summary_from(seq![decimal(n as nat) + " deletions(-)"@], 0, acc) == (acc.0, n),
{
    lemma_insertions_part(n);
    lemma_deletions_part(n);
    let pi = decimal(n as nat) + " insertions(+)"@;
    let pd = decimal(n as nat) + " deletions(-)"@;
    assert(summary_from(seq![pi], 1, (n, acc.1)) == (n, acc.1));
    assert(summary_from(seq![pd], 1, (acc.0, n)) == (acc.0, n));
}

/// `<n> files changed` starts with the count `n`, is its own trim and
/// names changed files.
pub proof fn lemma_files_part(n: u32)
    ensures
        leading_count(decimal(n as nat) + " files changed"@) == n,
        trim_ws(decimal(n as nat) + " files changed"@) == decimal(n as nat) + " files changed"@,
        contains_str(decimal(n as nat) + " files changed"@, "changed"@),
{
    reveal_strlit(" files changed");
    reveal_strlit("files");
    reveal_strlit("changed");
    let d = decimal(n as nat);
    let dl = d.len() as int;
    let pf = d + " files changed"@;
    let wf = seq!["files"@, "changed"@];
    lemma_leading_count(n, wf);
    let jf = seq![d, "files"@, "changed"@];
    assert(seq![d] + wf =~= jf);
    assert(jf.drop_last() =~= seq![d, "files"@]);
    assert(jf.drop_last().drop_last() =~= seq![d]);
    assert(join_with(seq![d], seq![' ']) == d);
    assert(join_with(seq![d, "files"@], seq![' ']) == d + seq![' '] + "files"@);
    assert(join_with(jf, seq![' ']) =~= pf);
    assert(pf.subrange(dl + 7, dl + 14) =~= "changed"@);
    lemma_contains_at(pf, "changed"@, dl + 7);
}

/// `<n> insertions(+)` starts with the count `n`, is its own trim, and
/// names insertions but not changed files.
pub proof fn lemma_insertions_part(n: u32)
    ensures
        leading_count(decimal(n as nat) + " insertions(+)"@) == n,
        trim_ws(decimal(n as nat) + " insertions(+)"@) == decimal(n as nat) + " insertions(+)"@,
        !contains_str(decimal(n as nat) + " insertions(+)"@, "changed"@),
        contains_str(decimal(n as nat) + " insertions(+)"@, "insertion"@),
{
    reveal_strlit(" insertions(+)");
    reveal_strlit("insertions(+)");
    reveal_strlit("changed");
    reveal_strlit("insertion");
    let d = decimal(n as nat);
    lemma_decimal_digits(n as nat);
    let dl = d.len() as int;
    let pi = d + " insertions(+)"@;
    let wi = seq!["insertions(+)"@];
    lemma_leading_count(n, wi);
    assert((seq![d] + wi).drop_last() =~= seq![d]);
    assert(join_with(seq![d], seq![' ']) == d);
    assert(join_with(seq![d] + wi, seq![' ']) =~= pi);
    assert(pi.subrange(dl + 1, dl + 10) =~= "insertion"@);
    lemma_contains_at(pi, "insertion"@, dl + 1);
    assert forall|m: int| 0 <= m < pi.len() implies #[trigger] pi[m] != "changed"@[0] by {
        if m < dl {
            assert(is_digit(d[m]));
        }
    }
    lemma_find_absent(pi, "changed"@, 0);
}

/// `<n> deletions(-)` starts with the count `n`, is its own trim, and
/// names deletions but neither changed files nor insertions.
pub proof fn lemma_deletions_part(n: u32)
    ensures
        leading_count(decimal(n as nat) + " deletions(-)"@) == n,
        trim_ws(decimal(n as nat) + " deletions(-)"@) == decimal(n as nat) + " deletions(-)"@,
        !contains_str(decimal(n as nat) + " deletions(-)"@, "changed"@),
        !contains_str(decimal(n as nat) + " deletions(-)"@, "insertion"@),
        contains_str(decimal(n as nat) + " deletions(-)"@, "deletion"@),
{
    reveal_strlit(" deletions(-)");
    reveal_strlit("deletions(-)");
    reveal_strlit("changed");
    reveal_strlit("insertion");
    reveal_strlit("deletion");
    let d = decimal(n as nat);
    lemma_decimal_digits(n as nat);
    let dl = d.len() as int;
    let pd = d + " deletions(-)"@;
    let wd = seq!["deletions(-)"@];
    lemma_leading_count(n, wd);
    assert((seq![d] + wd).drop_last() =~= seq![d]);
    assert(join_with(seq![d], seq![' ']) == d);
    assert(join_with(seq![d] + wd, seq![' ']) =~= pd);
    assert(pd.subrange(dl + 1, dl + 9) =~= "deletion"@);
    lemma_contains_at(pd, "deletion"@, dl + 1);
    assert forall|m: int| 0 <= m < pd.len() implies #[trigger] pd[m] != "changed"@[0] by {
        if m < dl {
            assert(is_digit(d[m]));
        }
    }
    lemma_find_absent(pd, "changed"@, 0);
    assert forall|j: int| 0 <= j implies !#[trigger] matches_at(pd, "insertion"@, j) by {
        if matches_at(pd, "insertion"@, j) {
            assert(pd.subrange(j, j + 9)[0] == pd[j]);
            assert(pd.subrange(j, j + 9)[1] == pd[j + 1]);
            if j < dl {
                assert(is_digit(d[j]));
            }
        }
    }
    lemma_find_nowhere(pd, "insertion"@, 0);
}

/// The totals after reading the comma-separated summary parts from `i` on,
/// starting from `acc`: a part naming insertions or deletions sets that
/// total; a later part overrides an earlier one.
pub open spec fn summary_from(parts: Seq<Seq<char>>, i: int, acc: (u32, u32)) -> (u32, u32)
    decreases parts.len() - i,
{
    if i < 0 || i >= parts.len() {
        acc
    } else {
        let part = trim_ws(parts[i]);
        let next = if contains_str(part, "insertion"@) {
            (leading_count(part), acc.1)
        } else if contains_str(part, "deletion"@) {
            (acc.0, leading_count(part))
        } else {
            acc
        };
        summary_from(parts, i + 1, next)
    }
}

/// The `(insertions, deletions)` totals of a `--stat` summary line, each
/// `0` when absent.
pub open spec fn stat_summary_spec(line: Seq<char>) -> (u32, u32) {
    summary_from(split_on(line, ','), 0, (0, 0))
}

/// Parse the `--stat` summary line's `N insertions(+), M deletions(-)`
/// totals (each defaults to `0` when its sub-field is absent).
fn parse_stat_summary_line(line: &Vec<char>) -> (r: (u32, u32))
    ensures
        r == stat_summary_spec(line@),
{
    let parts = split_char(line, ',');
    let ghost pv = seq_views(parts@);
    let mut insertions: u32 = 0;
    let mut deletions: u32 = 0;
    let mut i: usize = 0;
    while i < parts.len()
        invariant
            pv == seq_views(parts@),
            pv == split_on(line@, ','),
            stat_summary_spec(line@) == summary_from(pv, i as int, (insertions, deletions)),
        decreases parts.len() - i,
    {
        assert(pv[i as int] == parts@[i as int]@);
        let part = trim(&parts[i]);
        if contains_lit(&part, "insertion") {
            insertions = leading_count_of(&part);
        } else if contains_lit(&part, "deletion") {
            deletions = leading_count_of(&part);
        }
        i += 1;
    }
    (insertions, deletions)
}

/// The result of reading the trimmed `--stat` lines from `i` on, after the
/// files `acc` and with the totals `tot` so far: file lines add a file, a
/// line that is no file line but contains `changed` sets the totals.
pub open spec fn stat_from(
    ls: Seq<Seq<char>>,
    i: int,
    acc: Seq<DiffFileView>,
    tot: (u32, u32),
) -> (Seq<DiffFileView>, (u32, u32))
    decreases ls.len() - i,
{
    if i < 0 || i >= ls.len() {
        (acc, tot)
    } else {
        let line = trim_ws(ls[i]);
        if line.len() == 0 {
            stat_from(ls, i + 1, acc, tot)
        } else {
            match stat_file_spec(line) {
                Some(f) => stat_from(ls, i + 1, acc.push(f), tot),
                None => if contains_str(line, "changed"@) {
                    stat_from(ls, i + 1, acc, stat_summary_spec(line))
                } else {
                    stat_from(ls, i + 1, acc, tot)
                },
            }
        }
    }
}

/// What `git diff --stat` output `s` parses to: the files, and the totals.
pub open spec fn stat_spec(s: Seq<char>) -> (Seq<DiffFileView>, (u32, u32)) {
    stat_from(lines_of(s), 0, Seq::empty(), (0, 0))
}

/// Parse the output of `git diff --stat`.
///
/// Per-file lines look like `path | N +++---` or `path | Bin N -> M bytes`;
/// a trailing summary line gives repo-level totals (e.g. `2 files changed, 3
/// insertions(+), 1 deletion(-)`). Renamed paths appear as `old => new` or,
/// for changes confined to part of the path, `prefix{old => new}suffix`;
/// both are resolved down to the new path.
///
/// Per-file insertion/deletion counts are derived by counting the `+`/`-`
/// characters in the graph, which git scales down for large diffs — treat
/// them as approximate. The summary line's totals are exact and populate
/// [`Diff::total_insertions`]/[`Diff::total_deletions`].
///
/// This never returns an error; unrecognized lines are skipped.
pub fn parse_diff_stat(input: &str) -> (r: Result<Diff>)
    ensures
        r matches Ok(d) && stat_spec(input@) == (seq_views(d.files@), (
            d.total_insertions,
            d.total_deletions,
        )) && d.raw@ == input@,
{
    let s = chars_of(input);
    let ls = lines(&s);
    let ghost lv = seq_views(ls@);
    let mut files: Vec<DiffFile> = Vec::new();
    let mut total_insertions: u32 = 0;
    let mut total_deletions: u32 = 0;
    let mut i: usize = 0;
    assert(seq_views(files@) =~= Seq::<DiffFileView>::empty());
    while i < ls.len()
        invariant
            lv == seq_views(ls@),
            lv == lines_of(input@),
            stat_spec(input@) == stat_from(
                lv,
                i as int,
                seq_views(files@),
                (total_insertions, total_deletions),
            ),
        decreases ls.len() - i,
    {
        assert(lv[i as int] == ls@[i as int]@);
        let line = trim(&ls[i]);
        if line.len() > 0 {
            match parse_stat_file_line(&line) {
                Some(f) => {
                    let ghost acc = seq_views(files@);
                    let ghost fv = f@;
                    files.push(f);
                    assert(seq_views(files@) =~= acc.push(fv));
                },
                None => {
                    if contains_lit(&line, "changed") {
                        let (ins, del) = parse_stat_summary_line(&line);
                        total_insertions = ins;
                        total_deletions = del;
                    }
                },
            }
        }
        i += 1;
    }
    let raw = text_of(&s);
    Ok(Diff { files, total_insertions, total_deletions, raw })
}

} // verus!
