//! Parser for `git status --porcelain=v1 -z`.
//!
//! Porcelain v1 is stable across git versions. Each entry is two status
//! characters (`XY`) followed by a space, the path, and a NUL terminator.
//! A rename or copy (signalled in the index column `X`) adds one more
//! NUL-terminated field: the entry's path is the new (destination) path and
//! the extra field is the original path.
use vstd::prelude::*;

use crate::error::{is_parse_error, Error, Result};
use crate::text::{
    chars_of, find_lit, find_str, has_prefix, is_lit, lemma_find_str, lemma_split_class_len,
    opt_view, parse_u32, parse_u32_spec, seq_views, slice_of, split_char, split_on, starts_with,
    strip_all_prefix, strip_prefix, strip_prefix_spec, tail_of, text_of, trim, trim_end_by,
    trim_end_class, trim_start_matches_str, trim_ws, CharClass, join_with, lemma_split_join,
    decimal, is_digit, lemma_decimal_digits, lemma_parse_decimal, lemma_trim_class_ends, is_ws,
    lead_count, trail_count, lemma_find_absent, lemma_find_from_first, matches_at,
};

verus! {

/// Classification of a status character.
#[derive(Debug, Clone, Copy, PartialEq, Eq)]
pub enum StatusKind {
    /// Unmodified (`' '`).
    Unmodified,
    /// Modified (`M`).
    Modified,
    /// Added (`A`).
    Added,
    /// Deleted (`D`).
    Deleted,
    /// Renamed (`R`).
    Renamed,
    /// Copied (`C`).
    Copied,
    /// Unmerged (`U`).
    Unmerged,
    /// Untracked (`?`).
    Untracked,
    /// Ignored (`!`).
    Ignored,
    /// Type-changed (`T`).
    TypeChanged,
    /// Some other character not recognized.
    Other(char),
}

/// The kind a status character stands for.
pub open spec fn status_kind_of(c: char) -> StatusKind {
    if c == ' ' {
        StatusKind::Unmodified
    } else if c == 'M' {
        StatusKind::Modified
    } else if c == 'A' {
        StatusKind::Added
    } else if c == 'D' {
        StatusKind::Deleted
    } else if c == 'R' {
        StatusKind::Renamed
    } else if c == 'C' {
        StatusKind::Copied
    } else if c == 'U' {
        StatusKind::Unmerged
    } else if c == '?' {
        StatusKind::Untracked
    } else if c == '!' {
        StatusKind::Ignored
    } else if c == 'T' {
        StatusKind::TypeChanged
    } else {
        StatusKind::Other(c)
    }
}

impl vstd::std_specs::convert::FromSpecImpl<char> for StatusKind {
    open spec fn obeys_from_spec() -> bool {
        true
    }

    open spec fn from_spec(v: char) -> Self {
        status_kind_of(v)
    }
}

impl From<char> for StatusKind {
    fn from(c: char) -> (r: Self) {
        match c {
            ' ' => Self::Unmodified,
            'M' => Self::Modified,
            'A' => Self::Added,
            'D' => Self::Deleted,
            'R' => Self::Renamed,
            'C' => Self::Copied,
            'U' => Self::Unmerged,
            '?' => Self::Untracked,
            '!' => Self::Ignored,
            'T' => Self::TypeChanged,
            c => Self::Other(c),
        }
    }
}

/// Each porcelain status character stands for its documented kind and no
/// other character does; any other character is kept as it came, as an
/// unknown kind.
pub proof fn lemma_status_characters(c: char)
    ensures
        (status_kind_of(c) == StatusKind::Unmodified) <==> c == ' ',
        (status_kind_of(c) == StatusKind::Modified) <==> c == 'M',
        (status_kind_of(c) == StatusKind::Added) <==> c == 'A',
        (status_kind_of(c) == StatusKind::Deleted) <==> c == 'D',
        (status_kind_of(c) == StatusKind::Renamed) <==> c == 'R',
        (status_kind_of(c) == StatusKind::Copied) <==> c == 'C',
        (status_kind_of(c) == StatusKind::Unmerged) <==> c == 'U',
        (status_kind_of(c) == StatusKind::Untracked) <==> c == '?',
        (status_kind_of(c) == StatusKind::Ignored) <==> c == '!',
        (status_kind_of(c) == StatusKind::TypeChanged) <==> c == 'T',
        (status_kind_of(c) is Other) <==> !(c == ' ' || c == 'M' || c == 'A' || c == 'D' || c
            == 'R' || c == 'C' || c == 'U' || c == '?' || c == '!' || c == 'T'),
        status_kind_of(c) matches StatusKind::Other(x) ==> x == c,
{
}

/// A single parsed entry from `git status --porcelain=v1 -z`.
#[derive(Debug, Clone, PartialEq, Eq)]
pub struct StatusEntry {
    /// Status of the index (the "X" field of `XY`).
    pub index: StatusKind,
    /// Status of the working tree (the "Y" field of `XY`).
    pub worktree: StatusKind,
    /// Affected path (post-rename, if applicable).
    pub path: String,
    /// Original path for renames/copies, if present.
    pub original_path: Option<String>,
}

/// The abstract contents of a [`StatusEntry`].
pub struct StatusEntryView {
    pub index: StatusKind,
    pub worktree: StatusKind,
    pub path: Seq<char>,
    pub original_path: Option<Seq<char>>,
}

impl View for StatusEntry {
    type V = StatusEntryView;

    open spec fn view(&self) -> StatusEntryView {
        StatusEntryView {
            index: self.index,
            worktree: self.worktree,
            path: self.path@,
            original_path: opt_view(self.original_path),
        }
    }
}

/// Parsed result of `git status --porcelain=v1 -b -z`: the branch/tracking
/// header plus the per-entry changes.
#[derive(Debug, Clone, PartialEq, Eq)]
pub struct Status {
    /// Current branch name. `None` for a detached `HEAD`.
    pub branch: Option<String>,
    /// Upstream tracking ref (e.g. `origin/main`), if one is configured.
    pub tracking: Option<String>,
    /// Commits the local branch is ahead of `tracking` by.
    pub ahead: u32,
    /// Commits the local branch is behind `tracking` by.
    pub behind: u32,
    /// Per-file entries.
    pub entries: Vec<StatusEntry>,
}

/// The abstract contents of a [`Status`].
pub struct StatusView {
    pub branch: Option<Seq<char>>,
    pub tracking: Option<Seq<char>>,
    pub ahead: u32,
    pub behind: u32,
    pub entries: Seq<StatusEntryView>,
}

impl View for Status {
    type V = StatusView;

    open spec fn view(&self) -> StatusView {
        StatusView {
            branch: opt_view(self.branch),
            tracking: opt_view(self.tracking),
            ahead: self.ahead,
            behind: self.behind,
            entries: seq_views(self.entries@),
        }
    }
}

impl Default for Status {
    fn default() -> (r: Self)
        ensures
            r.branch is None,
            r.tracking is None,
            r.ahead == 0,
            r.behind == 0,
            r.entries@.len() == 0,
    {
        Status { branch: None, tracking: None, ahead: 0, behind: 0, entries: Vec::new() }
    }
}

/// Whether an index status announces an extra original-path field.
pub open spec fn is_rename_or_copy(k: StatusKind) -> bool {
    k is Renamed || k is Copied
}

/// The entries of the NUL-separated records `toks` from record `i` on,
/// after those in `acc`; or the message of the first malformed record.
///
/// A record whose index status is a rename or copy takes the record after
/// it as its original path (none when there is no record left).
pub open spec fn entries_from(
    toks: Seq<Seq<char>>,
    i: int,
    acc: Seq<StatusEntryView>,
) -> core::result::Result<Seq<StatusEntryView>, Seq<char>>
    decreases toks.len() + 1 - i,
{
    if i < 0 || i >= toks.len() {
        Ok(acc)
    } else if toks[i].len() == 0 {
        entries_from(toks, i + 1, acc)
    } else if toks[i].len() < 2 {
        Err("status entry missing Y field"@)
    } else if toks[i].len() < 3 || toks[i][2] != ' ' {
        Err("status entry missing space after XY field"@)
    } else {
        let index = status_kind_of(toks[i][0]);
        let worktree = status_kind_of(toks[i][1]);
        let path = toks[i].skip(3);
        if is_rename_or_copy(index) {
            let original_path = if i + 1 < toks.len() {
                Some(toks[i + 1])
            } else {
                None
            };
            entries_from(
                toks,
                i + 2,
                acc.push(StatusEntryView { index, worktree, path, original_path }),
            )
        } else {
            entries_from(
                toks,
                i + 1,
                acc.push(StatusEntryView { index, worktree, path, original_path: None }),
            )
        }
    }
}

/// A non-empty record too short for `XY <path>`, or without the space after
/// `XY`.
pub open spec fn malformed_record(t: Seq<char>) -> bool {
    t.len() < 3 || t[2] != ' '
}

/// The positions, from record `i` on, of the non-empty records read as
/// entries: each record after a well-formed rename or copy is its original
/// path, not an entry.
pub open spec fn entry_starts(toks: Seq<Seq<char>>, i: int) -> Seq<int>
    decreases toks.len() + 1 - i,
{
    if i < 0 || i >= toks.len() {
        Seq::empty()
    } else if toks[i].len() == 0 {
        entry_starts(toks, i + 1)
    } else if !malformed_record(toks[i]) && is_rename_or_copy(status_kind_of(toks[i][0])) {
        seq![i] + entry_starts(toks, i + 2)
    } else {
        seq![i] + entry_starts(toks, i + 1)
    }
}

/// Some record read as an entry from position `i` on is malformed.
pub open spec fn some_entry_malformed(toks: Seq<Seq<char>>, i: int) -> bool {
    exists|j: int|
        0 <= j < entry_starts(toks, i).len() && #[trigger] malformed_record(
            toks[entry_starts(toks, i)[j]],
        )
}

proof fn lemma_entries_error_iff(toks: Seq<Seq<char>>, i: int, acc: Seq<StatusEntryView>)
    requires
        0 <= i,
    ensures
        entries_from(toks, i, acc) is Err <==> some_entry_malformed(toks, i),
    decreases toks.len() + 1 - i,
{
    if i >= toks.len() {
    } else if toks[i].len() == 0 {
        lemma_entries_error_iff(toks, i + 1, acc);
        assert(entry_starts(toks, i) == entry_starts(toks, i + 1));
        assert(some_entry_malformed(toks, i) == some_entry_malformed(toks, i + 1));
    } else if malformed_record(toks[i]) {
        let st = entry_starts(toks, i);
        assert(st[0] == i);
        assert(malformed_record(toks[st[0]]));
        assert(some_entry_malformed(toks, i));
        assert(entries_from(toks, i, acc) is Err);
    } else {
        let index = status_kind_of(toks[i][0]);
        let worktree = status_kind_of(toks[i][1]);
        let path = toks[i].skip(3);
        let next = if is_rename_or_copy(index) {
            i + 2
        } else {
            i + 1
        };
        let acc2 = if is_rename_or_copy(index) {
            acc.push(
                StatusEntryView {
                    index,
                    worktree,
                    path,
                    original_path: if i + 1 < toks.len() {
                        Some(toks[i + 1])
                    } else {
                        None
                    },
                },
            )
        } else {
            acc.push(StatusEntryView { index, worktree, path, original_path: None })
        };
        lemma_entries_error_iff(toks, next, acc2);
        assert(entries_from(toks, i, acc) == entries_from(toks, next, acc2));
        let st = entry_starts(toks, i);
        let rest = entry_starts(toks, next);
        assert(st == seq![i] + rest);
        if some_entry_malformed(toks, next) {
            let j = choose|j: int|
                0 <= j < rest.len() && #[trigger] malformed_record(toks[rest[j]]);
            assert(st[j + 1] == rest[j]);
            assert(malformed_record(toks[st[j + 1]]));
        }
        if some_entry_malformed(toks, i) {
            let j = choose|j: int| 0 <= j < st.len() && #[trigger] malformed_record(toks[st[j]]);
            assert(j != 0);
            assert(rest[j - 1] == st[j]);
            assert(malformed_record(toks[rest[j - 1]]));
            assert(some_entry_malformed(toks, next));
        }
        assert(some_entry_malformed(toks, i) == some_entry_malformed(toks, next));
    }
}

/// `git status --porcelain=v1 -z` output fails to parse exactly when one of
/// its records read as an entry (not taken as the original path of a rename
/// or copy) is shorter than three characters or lacks the space after `XY`.
pub proof fn lemma_status_errors(s: Seq<char>)
    ensures
        status_spec(s) is Err <==> some_entry_malformed(split_on(s, '\0'), 0),
{
    lemma_entries_error_iff(split_on(s, '\0'), 0, Seq::empty());
}

/// What `git status --porcelain=v1 -z` output `s` parses to.
pub open spec fn status_spec(s: Seq<char>) -> core::result::Result<
    Seq<StatusEntryView>,
    Seq<char>,
> {
    entries_from(split_on(s, '\0'), 0, Seq::empty())
}

/// A porcelain record `XY <path>` whose index status `X` is no rename or
/// copy parses to one entry: `X` read as the index status, `Y` as the
/// worktree status, the path, and no original path.
pub proof fn lemma_status_record(x: char, y: char, path: Seq<char>)
    requires
        x != '\0',
        y != '\0',
        x != 'R',
        x != 'C',
        !path.contains('\0'),
    ensures
        status_spec(seq![x, y, ' '] + path + seq!['\0']) == Ok::<
            Seq<StatusEntryView>,
            Seq<char>,
        >(
            seq![
                StatusEntryView {
                    index: status_kind_of(x),
                    worktree: status_kind_of(y),
                    path,
                    original_path: None,
                },
            ],
        ),
{
    let rec = seq![x, y, ' '] + path;
    let ps = seq![rec, Seq::<char>::empty()];
    assert forall|i: int| 0 <= i < ps.len() implies !(#[trigger] ps[i]).contains('\0') by {
        if i == 0 && rec.contains('\0') {
            let m = choose|m: int| 0 <= m < rec.len() && rec[m] == '\0';
            if m >= 3 {
                assert(path[m - 3] == '\0');
                assert(path.contains('\0'));
            }
        }
    }
    lemma_split_join(ps, '\0');
    assert(ps.drop_last() =~= seq![rec]);
    assert(join_with(seq![rec], seq!['\0']) == rec);
    assert(join_with(ps, seq!['\0']) == rec + seq!['\0'] + Seq::<char>::empty());
    assert(join_with(ps, seq!['\0']) =~= rec + seq!['\0']);
    assert(rec + seq!['\0'] =~= seq![x, y, ' '] + path + seq!['\0']);
    let toks = split_on(seq![x, y, ' '] + path + seq!['\0'], '\0');
    assert(toks == ps);
    assert(rec.skip(3) =~= path);
    let e = StatusEntryView {
        index: status_kind_of(x),
        worktree: status_kind_of(y),
        path,
        original_path: None,
    };
    assert(Seq::<StatusEntryView>::empty().push(e) =~= seq![e]);
    assert(entries_from(toks, 1, seq![e]) == entries_from(toks, 2, seq![e]));
}

/// A porcelain rename record `RY <path>` followed by its original path
/// parses to one entry: a rename in the index, `Y` as the worktree status,
/// the new path as its path and the following field as its original path.
pub proof fn lemma_status_rename_record(y: char, path: Seq<char>, original: Seq<char>)
    requires
        y != '\0',
        !path.contains('\0'),
        !original.contains('\0'),
    ensures
        status_spec(seq!['R', y, ' '] + path + seq!['\0'] + original + seq!['\0']) == Ok::<
            Seq<StatusEntryView>,
            Seq<char>,
        >(
            seq![
                StatusEntryView {
                    index: StatusKind::Renamed,
                    worktree: status_kind_of(y),
                    path,
                    original_path: Some(original),
                },
            ],
        ),
{
    let rec = seq!['R', y, ' '] + path;
    let ps = seq![rec, original, Seq::<char>::empty()];
    assert forall|i: int| 0 <= i < ps.len() implies !(#[trigger] ps[i]).contains('\0') by {
        if i == 0 && rec.contains('\0') {
            let m = choose|m: int| 0 <= m < rec.len() && rec[m] == '\0';
            if m >= 3 {
                assert(path[m - 3] == '\0');
                assert(path.contains('\0'));
            }
        }
    }
    lemma_split_join(ps, '\0');
    let two = seq![rec, original];
    assert(ps.drop_last() =~= two);
    assert(two.drop_last() =~= seq![rec]);
    assert(join_with(seq![rec], seq!['\0']) == rec);
    assert(join_with(two, seq!['\0']) == rec + seq!['\0'] + original);
    assert(join_with(ps, seq!['\0']) =~= rec + seq!['\0'] + original + seq!['\0']);
    let input = seq!['R', y, ' '] + path + seq!['\0'] + original + seq!['\0'];
    assert(rec + seq!['\0'] + original + seq!['\0'] =~= input);
    let toks = split_on(input, '\0');
    assert(toks == ps);
    assert(rec.skip(3) =~= path);
    let e = StatusEntryView {
        index: StatusKind::Renamed,
        worktree: status_kind_of(y),
        path,
        original_path: Some(original),
    };
    assert(Seq::<StatusEntryView>::empty().push(e) =~= seq![e]);
    assert(entries_from(toks, 2, seq![e]) == entries_from(toks, 3, seq![e]));
}

/// Shared entry-parsing loop used by both [`parse_status`] and
/// [`parse_full_status`], reading the records from `start` on.
fn parse_entries(toks: &Vec<Vec<char>>, start: usize) -> (r: Result<Vec<StatusEntry>>)
    ensures
        r matches Ok(v) ==> entries_from(seq_views(toks@), start as int, Seq::empty()) == Ok::<
            Seq<StatusEntryView>,
            Seq<char>,
        >(seq_views(v@)),
        r matches Err(e) ==> entries_from(seq_views(toks@), start as int, Seq::empty()) matches Err(
            m,
        ) && is_parse_error(e, m),
{
    let ghost tv = seq_views(toks@);
    let mut out: Vec<StatusEntry> = Vec::new();
    let mut i: usize = start;
    assert(seq_views(out@) =~= Seq::<StatusEntryView>::empty());
    while i < toks.len()
        invariant
            tv == seq_views(toks@),
            entries_from(tv, start as int, Seq::empty()) == entries_from(
                tv,
                i as int,
                seq_views(out@),
            ),
        decreases toks.len() - i,
    {
        let rec = &toks[i];
        assert(tv[i as int] == rec@);
        if rec.len() == 0 {
            i += 1;
            continue;
        }
        if rec.len() < 2 {
            return Err(Error::parse_error("status entry missing Y field"));
        }
        if rec.len() < 3 || rec[2] != ' ' {
            return Err(Error::parse_error("status entry missing space after XY field"));
        }
        let x = StatusKind::from(rec[0]);
        let y = StatusKind::from(rec[1]);
        let path = text_of(&tail_of(rec, 3));
        let ghost acc = seq_views(out@);
        match x {
            StatusKind::Renamed | StatusKind::Copied => {
                let original = if i + 1 < toks.len() {
                    assert(tv[i + 1] == toks@[i + 1]@);
                    Some(text_of(&toks[i + 1]))
                } else {
                    None
                };
                let e = StatusEntry { index: x, worktree: y, path, original_path: original };
                let ghost ev = e@;
                out.push(e);
                assert(seq_views(out@) =~= acc.push(ev));
                assert(is_rename_or_copy(x));
                assert(entries_from(tv, i as int, acc) == entries_from(tv, i + 2, acc.push(ev)));
                assert(entries_from(tv, i + 2, acc.push(ev)) == entries_from(
                    tv,
                    if i + 1 < toks.len() { i + 2 } else { toks.len() as int },
                    acc.push(ev),
                ));
                i = if i + 1 < toks.len() {
                    i + 2
                } else {
                    toks.len()
                };
            },
            _ => {
                let e = StatusEntry { index: x, worktree: y, path, original_path: None };
                let ghost ev = e@;
                out.push(e);
                assert(seq_views(out@) =~= acc.push(ev));
                assert(!is_rename_or_copy(x));
                i += 1;
            },
        }
    }
    Ok(out)
}

/// Parse the output of `git status --porcelain=v1 -z`.
///
/// Returns [`Error::ParseError`] if an entry is malformed.
pub fn parse_status(input: &str) -> (r: Result<Vec<StatusEntry>>)
    ensures
        r matches Ok(v) ==> status_spec(input@) == Ok::<Seq<StatusEntryView>, Seq<char>>(
            seq_views(v@),
        ),
        r matches Err(e) ==> status_spec(input@) matches Err(m) && is_parse_error(e, m),
{
    let s = chars_of(input);
    let toks = split_char(&s, '\0');
    parse_entries(&toks, 0)
}

/// The `(ahead, behind)` counts after reading the comma-separated bracket
/// parts from `i` on, starting from `acc`.
pub open spec fn bracket_from(parts: Seq<Seq<char>>, i: int, acc: (u32, u32)) -> (u32, u32)
    decreases parts.len() - i,
{
    if i < 0 || i >= parts.len() {
        acc
    } else {
        let part = trim_ws(parts[i]);
        let next = match strip_prefix_spec(part, "ahead "@) {
            Some(n) => (count_or_zero(trim_ws(n)), acc.1),
            None => match strip_prefix_spec(part, "behind "@) {
                Some(n) => (acc.0, count_or_zero(trim_ws(n))),
                None => acc,
            },
        };
        bracket_from(parts, i + 1, next)
    }
}

/// A bracket part `ahead <n>` sets the ahead count to `n` and keeps the
/// behind count; a part `behind <n>` sets the behind count and keeps the
/// ahead count.
pub proof fn lemma_bracket_part(n: u32, acc: (u32, u32))
    ensures
        bracket_from(seq!["ahead "@ + decimal(n as nat)], 0, acc) == (n, acc.1),
        bracket_from(seq!["behind "@ + decimal(n as nat)], 0, acc) == (acc.0, n),
{
    reveal_strlit("ahead ");
    reveal_strlit("behind ");
    let d = decimal(n as nat);
    lemma_decimal_digits(n as nat);
    lemma_parse_decimal(n as nat, u32::MAX as nat);
    assert(is_digit(d[0]) && is_digit(d[d.len() - 1]));
    lemma_trim_class_ends(d, CharClass::Whitespace);
    let pa = "ahead "@ + d;
    let pb = "behind "@ + d;
    assert(pa[pa.len() - 1] == d[d.len() - 1]);
    assert(pb[pb.len() - 1] == d[d.len() - 1]);
    lemma_trim_class_ends(pa, CharClass::Whitespace);
    lemma_trim_class_ends(pb, CharClass::Whitespace);
    assert(pa.take(6) =~= "ahead "@);
    assert(pa.skip(6) =~= d);
    assert(pb.take(7) =~= "behind "@);
    assert(pb.skip(7) =~= d);
    assert(pb.take(6) != "ahead "@) by {
        assert(pb.take(6)[0] != "ahead "@[0]);
    }
    assert(count_or_zero(d) == n);
    assert(bracket_from(seq![pa], 1, (n, acc.1)) == (n, acc.1));
    assert(bracket_from(seq![pb], 1, (acc.0, n)) == (acc.0, n));
}

/// The number `s` spells, or `0` when it spells none.
pub open spec fn count_or_zero(s: Seq<char>) -> u32 {
    match parse_u32_spec(s) {
        Some(v) => v,
        None => 0,
    }
}

/// The branch header, as `(branch, tracking, ahead, behind)`.
pub open spec fn branch_header_spec(header: Seq<char>) -> (
    Option<Seq<char>>,
    Option<Seq<char>>,
    u32,
    u32,
) {
    let rest = trim_ws(strip_all_prefix(header, "##"@));
    if rest == "HEAD (no branch)"@ {
        (None, None, 0, 0)
    } else if has_prefix(rest, "No commits yet on "@) {
        (Some(rest.skip(18)), None, 0, 0)
    } else {
        let main_part = match find_str(rest, " ["@) {
            Some(idx) => rest.take(idx),
            None => rest,
        };
        let bracket = match find_str(rest, " ["@) {
            Some(idx) => Some(trim_end_class(rest.skip(idx + 2), CharClass::Exactly(']'))),
            None => None,
        };
        let branch = match find_str(main_part, "..."@) {
            Some(pos) => main_part.take(pos),
            None => main_part,
        };
        let tracking = match find_str(main_part, "..."@) {
            Some(pos) => Some(main_part.skip(pos + 3)),
            None => None,
        };
        let counts = match bracket {
            Some(b) => bracket_from(split_on(b, ','), 0, (0, 0)),
            None => (0, 0),
        };
        (Some(branch), tracking, counts.0, counts.1)
    }
}

/// After `## `, a non-empty text without white space is what the header
/// names once the marker is stripped and the rest trimmed.
proof fn lemma_header_rest(rest: Seq<char>)
    requires
        rest.len() > 0,
        forall|m: int| 0 <= m < rest.len() ==> !is_ws(#[trigger] rest[m]),
    ensures
        trim_ws(strip_all_prefix(seq!['#', '#', ' '] + rest, "##"@)) == rest,
{
    reveal_strlit("##");
    let ws = CharClass::Whitespace;
    let h = seq!['#', '#', ' '] + rest;
    assert("##"@.len() == 2);
    assert(h.take(2) =~= "##"@);
    let h1 = h.skip(2);
    assert(h1 =~= seq![' '] + rest);
    assert(strip_all_prefix(h, "##"@) == strip_all_prefix(h1, "##"@));
    assert(h1.take(2)[0] == ' ');
    assert(!has_prefix(h1, "##"@));
    assert(strip_all_prefix(h1, "##"@) == h1);
    assert(!is_ws(rest[0]));
    assert(!is_ws(rest[rest.len() - 1]));
    assert(h1.drop_first() =~= rest);
    assert(lead_count(rest, ws) == 0);
    assert(lead_count(h1, ws) == 1);
    assert(h1.skip(1) =~= rest);
    assert(trail_count(rest, ws) == 0);
    assert(rest.take(rest.len() as int) =~= rest);
}

/// A header `## <branch>...<upstream>` (both non-empty words without white
/// space, the branch without `.`) names that branch and tracks that
/// upstream, with no ahead or behind counts.
pub proof fn lemma_branch_header_names(branch: Seq<char>, upstream: Seq<char>)
    requires
        branch.len() > 0,
        upstream.len() > 0,
        forall|m: int| 0 <= m < branch.len() ==> !is_ws(#[trigger] branch[m]) && branch[m] != '.',
        forall|m: int| 0 <= m < upstream.len() ==> !is_ws(#[trigger] upstream[m]),
    ensures
        branch_header_spec(seq!['#', '#', ' '] + branch + seq!['.', '.', '.'] + upstream) == (
            Some(branch),
            Some(upstream),
            0u32,
            0u32,
        ),
{
    reveal_strlit("HEAD (no branch)");
    reveal_strlit("No commits yet on ");
    reveal_strlit(" [");
    reveal_strlit("...");
    let bl = branch.len() as int;
    let rest = branch + seq!['.', '.', '.'] + upstream;
    assert forall|m: int| 0 <= m < rest.len() implies !is_ws(#[trigger] rest[m]) by {
        if m < bl {
            assert(rest[m] == branch[m]);
        } else if m >= bl + 3 {
            assert(rest[m] == upstream[m - bl - 3]);
        }
    }
    lemma_header_rest(rest);
    assert(seq!['#', '#', ' '] + branch + seq!['.', '.', '.'] + upstream =~= seq!['#', '#', ' ']
        + rest);
    assert(rest != "HEAD (no branch)"@) by {
        if rest.len() == 16 {
            assert(!is_ws(rest[4]));
        }
    }
    assert(!has_prefix(rest, "No commits yet on "@)) by {
        if rest.len() >= 18 {
            assert(rest.take(18)[2] == rest[2]);
            assert(!is_ws(rest[2]));
        }
    }
    assert forall|m: int| 0 <= m < rest.len() implies #[trigger] rest[m] != " ["@[0] by {
        assert(!is_ws(rest[m]));
    }
    lemma_find_absent(rest, " ["@, 0);
    assert(rest.subrange(bl, bl + 3) =~= "..."@);
    assert forall|j: int| 0 <= j < bl implies !matches_at(rest, "..."@, j) by {
        if matches_at(rest, "..."@, j) {
            assert(rest.subrange(j, j + 3)[0] == rest[j]);
            assert(rest[j] == branch[j]);
        }
    }
    lemma_find_from_first(rest, "..."@, 0, bl);
    assert(rest.take(bl) =~= branch);
    assert(rest.skip(bl + 3) =~= upstream);
}

pub fn count_or_zero_of(s: &Vec<char>) -> (n: u32)
    ensures
        n == count_or_zero(s@),
{
    match parse_u32(s) {
        Some(v) => v,
        None => 0,
    }
}

/// Parse a `## ...` branch header record into `(branch, tracking, ahead, behind)`.
///
/// Handles the no-upstream (`## main`), tracking (`## main...origin/main`),
/// ahead/behind (`## main...origin/main [ahead 1, behind 2]`), no-commits
/// (`## No commits yet on main`), and detached-head (`## HEAD (no branch)`)
/// forms. The detached-head form has no branch name to report, so it yields
/// `branch = None`; the no-commits form still has one, so it is preserved.
fn parse_branch_header(header: &Vec<char>) -> (r: (Option<String>, Option<String>, u32, u32))
    ensures
        (opt_view(r.0), opt_view(r.1), r.2, r.3) == branch_header_spec(header@),
{
    let rest = trim(&trim_start_matches_str(header, "##"));
    if is_lit(&rest, "HEAD (no branch)") {
        return (None, None, 0, 0);
    }
    proof {
        reveal_strlit("No commits yet on ");
    }
    if let Some(branch) = strip_prefix(&rest, "No commits yet on ") {
        return (Some(text_of(&branch)), None, 0, 0);
    }
    proof {
        reveal_strlit(" [");
        reveal_strlit("...");
        lemma_find_str(rest@, " ["@);
    }
    let (main_part, bracket) = match find_lit(&rest, " [") {
        Some(idx) => {
            let b = trim_end_by(&tail_of(&rest, idx + 2), CharClass::Exactly(']'));
            let m = slice_of(&rest, 0, idx);
            assert(rest@.subrange(0, idx as int) =~= rest@.take(idx as int));
            (m, Some(b))
        },
        None => (slice_of(&rest, 0, rest.len()), None),
    };
    assert(rest@.subrange(0, rest@.len() as int) =~= rest@);
    proof {
        lemma_find_str(main_part@, "..."@);
    }
    let (branch, tracking) = match find_lit(&main_part, "...") {
        Some(pos) => {
            let b = slice_of(&main_part, 0, pos);
            assert(main_part@.subrange(0, pos as int) =~= main_part@.take(pos as int));
            (text_of(&b), Some(text_of(&tail_of(&main_part, pos + 3))))
        },
        None => (text_of(&main_part), None),
    };
    let mut ahead: u32 = 0;
    let mut behind: u32 = 0;
    if let Some(b) = bracket {
        let parts = split_char(&b, ',');
        let ghost pv = seq_views(parts@);
        let mut i: usize = 0;
        while i < parts.len()
            invariant
                pv == seq_views(parts@),
                pv == split_on(b@, ','),
                bracket_from(pv, 0, (0, 0)) == bracket_from(pv, i as int, (ahead, behind)),
            decreases parts.len() - i,
        {
            assert(pv[i as int] == parts@[i as int]@);
            let part = trim(&parts[i]);
            if let Some(n) = strip_prefix(&part, "ahead ") {
                ahead = count_or_zero_of(&trim(&n));
            } else if let Some(n) = strip_prefix(&part, "behind ") {
                behind = count_or_zero_of(&trim(&n));
            }
            i += 1;
        }
    }
    (Some(branch), tracking, ahead, behind)
}

/// What `git status --porcelain=v1 -b -z` output `s` parses to: the header
/// (when the first record starts with `##`) and the entries after it.
pub open spec fn full_status_spec(s: Seq<char>) -> core::result::Result<StatusView, Seq<char>> {
    let toks = split_on(s, '\0');
    let has_header = toks.len() > 0 && has_prefix(toks[0], "##"@);
    let header = if has_header {
        branch_header_spec(toks[0])
    } else {
        (None, None, 0, 0)
    };
    let start: int = if has_header {
        1
    } else {
        0
    };
    match entries_from(toks, start, Seq::empty()) {
        Ok(entries) => Ok(
            StatusView {
                branch: header.0,
                tracking: header.1,
                ahead: header.2,
                behind: header.3,
                entries,
            },
        ),
        Err(m) => Err(m),
    }
}

/// Parse the output of `git status --porcelain=v1 -b -z`, splitting the
/// leading `## ` branch header from the per-entry records.
///
/// Returns [`Error::ParseError`] if an entry is malformed.
pub fn parse_full_status(input: &str) -> (r: Result<Status>)
    ensures
        r matches Ok(st) ==> full_status_spec(input@) == Ok::<StatusView, Seq<char>>(st@),
        r matches Err(e) ==> full_status_spec(input@) matches Err(m) && is_parse_error(e, m),
{
    let s = chars_of(input);
    let toks = split_char(&s, '\0');
    let ghost tv = seq_views(toks@);
    proof {
        lemma_split_class_len(s@, CharClass::Exactly('\0'));
    }
    let has_header = toks.len() > 0 && starts_with(&toks[0], "##");
    if toks.len() > 0 {
        assert(tv[0] == toks@[0]@);
    }
    let (branch, tracking, ahead, behind) = if has_header {
        parse_branch_header(&toks[0])
    } else {
        (None, None, 0, 0)
    };
    let start: usize = if has_header {
        1
    } else {
        0
    };
    let entries = match parse_entries(&toks, start) {
        Ok(v) => v,
        Err(e) => return Err(e),
    };
    Ok(Status { branch, tracking, ahead, behind, entries })
}

} // verus!
