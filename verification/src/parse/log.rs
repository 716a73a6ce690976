//! Parser for `git log` output using a fixed token format.
//!
//! Use [`LOG_FORMAT`] as `--format=<fmt>` so `log` emits stable, parseable
//! records: fields separated by `\x1f` (unit separator) and entries
//! separated by `\x1e` (record separator).
use vstd::prelude::*;

use crate::error::{is_parse_error, Error, Result};
use crate::text::{
    chars_of, decimal, decimal_text, join, join_with, lemma_join_avoids, lemma_split_class_none,
    lemma_split_join, lemma_trim_class_none, seq_views, split_char, split_class, split_on, text_of,
    trim_by, trim_class, in_class, CharClass,
};

verus! {

/// Format string to pass as `--format=<fmt>` so entries parse cleanly.
///
/// Fields (in order): full SHA, short SHA, author name, author email,
/// author date (ISO 8601 strict), committer name, committer email,
/// committer date, subject, body. Body is last because it may contain
/// newlines; records are terminated by `\x1e`.
pub const LOG_FORMAT: &'static str = "%H\x1f%h\x1f%an\x1f%ae\x1f%aI\x1f%cn\x1f%ce\x1f%cI\x1f%s\x1f%b\x1e";

/// A single parsed commit entry.
#[derive(Debug, Clone, PartialEq, Eq)]
pub struct CommitEntry {
    /// Full SHA.
    pub sha: String,
    /// Abbreviated SHA.
    pub short_sha: String,
    /// Author name.
    pub author_name: String,
    /// Author email.
    pub author_email: String,
    /// Author date, RFC 3339 / ISO 8601 strict.
    pub author_date: String,
    /// Committer name.
    pub committer_name: String,
    /// Committer email.
    pub committer_email: String,
    /// Committer date, RFC 3339 / ISO 8601 strict.
    pub committer_date: String,
    /// Commit subject line.
    pub subject: String,
    /// Commit body (may be empty, may span multiple lines).
    pub body: String,
}

/// The abstract contents of a [`CommitEntry`].
pub struct CommitEntryView {
    pub sha: Seq<char>,
    pub short_sha: Seq<char>,
    pub author_name: Seq<char>,
    pub author_email: Seq<char>,
    pub author_date: Seq<char>,
    pub committer_name: Seq<char>,
    pub committer_email: Seq<char>,
    pub committer_date: Seq<char>,
    pub subject: Seq<char>,
    pub body: Seq<char>,
}

impl View for CommitEntry {
    type V = CommitEntryView;

    open spec fn view(&self) -> CommitEntryView {
        CommitEntryView {
            sha: self.sha@,
            short_sha: self.short_sha@,
            author_name: self.author_name@,
            author_email: self.author_email@,
            author_date: self.author_date@,
            committer_name: self.committer_name@,
            committer_email: self.committer_email@,
            committer_date: self.committer_date@,
            subject: self.subject@,
            body: self.body@,
        }
    }
}

/// The `\x1f` separator between fields, as a text.
pub open spec fn unit_sep() -> Seq<char> {
    seq!['\x1f']
}

/// The message for a record with `n` fields where `want` are needed.
pub open spec fn field_count_message(want: Seq<char>, n: nat) -> Seq<char> {
    "expected "@ + want + " fields, got "@ + decimal(n)
}

/// The commit a record's `\x1f`-separated fields describe: the first nine
/// in format order, the remaining ones joined back into the body.
pub open spec fn commit_of_fields(f: Seq<Seq<char>>) -> CommitEntryView {
    CommitEntryView {
        sha: f[0],
        short_sha: f[1],
        author_name: f[2],
        author_email: f[3],
        author_date: f[4],
        committer_name: f[5],
        committer_email: f[6],
        committer_date: f[7],
        subject: f[8],
        body: join_with(f.skip(9), unit_sep()),
    }
}

/// The records among `recs` from record `i` on with their surrounding
/// newlines trimmed, those left empty dropped.
pub open spec fn trimmed_records(recs: Seq<Seq<char>>, i: int) -> Seq<Seq<char>>
    decreases recs.len() - i,
{
    if i < 0 || i >= recs.len() {
        Seq::empty()
    } else {
        let t = trim_class(recs[i], CharClass::Exactly('\n'));
        if t.len() == 0 {
            trimmed_records(recs, i + 1)
        } else {
            seq![t] + trimmed_records(recs, i + 1)
        }
    }
}

/// The commits of the `\x1e`-separated records `recs` from record `i` on,
/// after those in `acc`; a record holding only newlines is skipped. Or the
/// message for the first record with fewer than ten fields.
pub open spec fn log_from(
    recs: Seq<Seq<char>>,
    i: int,
    acc: Seq<CommitEntryView>,
) -> core::result::Result<Seq<CommitEntryView>, Seq<char>>
    decreases recs.len() - i,
{
    if i < 0 || i >= recs.len() {
        Ok(acc)
    } else {
        let t = trim_class(recs[i], CharClass::Exactly('\n'));
        if t.len() == 0 {
            log_from(recs, i + 1, acc)
        } else {
            let f = split_on(t, '\x1f');
            if f.len() < 10 {
                Err(field_count_message("10"@, f.len()))
            } else {
                log_from(recs, i + 1, acc.push(commit_of_fields(f)))
            }
        }
    }
}

proof fn lemma_log_from(recs: Seq<Seq<char>>, i: int, acc: Seq<CommitEntryView>)
    requires
        0 <= i,
    ensures
        log_from(recs, i, acc) is Err <==> exists|k: int|
            0 <= k < trimmed_records(recs, i).len() && #[trigger] split_on(
                trimmed_records(recs, i)[k],
                '\x1f',
            ).len() < 10,
        log_from(recs, i, acc) matches Ok(v) ==> v == acc + trimmed_records(recs, i).map_values(
            |t: Seq<char>| commit_of_fields(split_on(t, '\x1f')),
        ),
    decreases recs.len() - i,
{
    let g = |t: Seq<char>| commit_of_fields(split_on(t, '\x1f'));
    if i >= recs.len() {
        assert(acc + trimmed_records(recs, i).map_values(g) =~= acc);
    } else {
        let t = trim_class(recs[i], CharClass::Exactly('\n'));
        let rs = trimmed_records(recs, i);
        let rest = trimmed_records(recs, i + 1);
        if t.len() == 0 {
            lemma_log_from(recs, i + 1, acc);
        } else {
            let f = split_on(t, '\x1f');
            assert(rs == seq![t] + rest);
            assert(rs[0] == t);
            if f.len() < 10 {
                assert(split_on(rs[0], '\x1f').len() < 10);
            } else {
                let acc2 = acc.push(commit_of_fields(f));
                lemma_log_from(recs, i + 1, acc2);
                if exists|k: int|
                    0 <= k < rest.len() && #[trigger] split_on(rest[k], '\x1f').len() < 10 {
                    let k = choose|k: int|
                        0 <= k < rest.len() && #[trigger] split_on(rest[k], '\x1f').len() < 10;
                    assert(rs[k + 1] == rest[k]);
                    assert(split_on(rs[k + 1], '\x1f').len() < 10);
                }
                if exists|k: int| 0 <= k < rs.len() && #[trigger] split_on(rs[k], '\x1f').len() < 10 {
                    let k = choose|k: int|
                        0 <= k < rs.len() && #[trigger] split_on(rs[k], '\x1f').len() < 10;
                    assert(k != 0);
                    assert(rest[k - 1] == rs[k]);
                    assert(split_on(rest[k - 1], '\x1f').len() < 10);
                }
                assert(acc2 + rest.map_values(g) =~= acc + rs.map_values(g));
            }
        }
    }
}

/// `git log --format=<LOG_FORMAT>` output fails to parse exactly when one
/// of its `\x1e`-separated records, trimmed of newlines and non-empty, has
/// fewer than ten `\x1f`-separated fields; otherwise it gives one commit
/// per such record, in order, the fields past the ninth joined into the
/// body.
pub proof fn lemma_log_records(s: Seq<char>)
    ensures
        log_spec(s) is Err <==> exists|k: int|
            0 <= k < trimmed_records(split_on(s, '\x1e'), 0).len() && #[trigger] split_on(
                trimmed_records(split_on(s, '\x1e'), 0)[k],
                '\x1f',
            ).len() < 10,
        log_spec(s) matches Ok(v) ==> v == trimmed_records(split_on(s, '\x1e'), 0).map_values(
            |t: Seq<char>| commit_of_fields(split_on(t, '\x1f')),
        ),
{
    lemma_log_from(split_on(s, '\x1e'), 0, Seq::empty());
    let rs = trimmed_records(split_on(s, '\x1e'), 0);
    let g = |t: Seq<char>| commit_of_fields(split_on(t, '\x1f'));
    assert(Seq::<CommitEntryView>::empty() + rs.map_values(g) =~= rs.map_values(g));
}

/// A text of one record: the fields joined by `\x1f` and closed by `\x1e`,
/// with no separator or newline inside a field; it splits into that record
/// and an empty remainder, and the record is its own trim.
pub proof fn lemma_one_record(fields: Seq<Seq<char>>)
    requires
        fields.len() >= 2,
        forall|i: int|
            0 <= i < fields.len() ==> !(#[trigger] fields[i]).contains('\x1f')
                && !fields[i].contains('\x1e') && !fields[i].contains('\n'),
    ensures
        split_on(join_with(fields, unit_sep()) + seq!['\x1e'], '\x1e') == seq![
            join_with(fields, unit_sep()),
            Seq::<char>::empty(),
        ],
        trim_class(join_with(fields, unit_sep()), CharClass::Exactly('\n')) == join_with(
            fields,
            unit_sep(),
        ),
        join_with(fields, unit_sep()).len() > 0,
        split_on(join_with(fields, unit_sep()), '\x1f') == fields,
{
    let r = join_with(fields, unit_sep());
    lemma_join_avoids(fields, '\x1f', '\x1e');
    lemma_join_avoids(fields, '\x1f', '\n');
    lemma_split_join(fields, '\x1f');
    let rk = CharClass::Exactly('\x1e');
    let nk = CharClass::Exactly('\n');
    assert forall|m: int| 0 <= m < r.len() implies !in_class(#[trigger] r[m], rk) by {
        if r[m] == '\x1e' {
            assert(r.contains('\x1e'));
        }
    }
    assert forall|m: int| 0 <= m < r.len() implies !in_class(#[trigger] r[m], nk) by {
        if r[m] == '\n' {
            assert(r.contains('\n'));
        }
    }
    lemma_split_class_none(r, rk);
    lemma_trim_class_none(r, nk);
    let s = r + seq!['\x1e'];
    assert(s.drop_last() =~= r);
    assert(split_class(s, rk) == split_class(r, rk).push(Seq::<char>::empty()));
    assert(r == join_with(fields.drop_last(), unit_sep()) + unit_sep() + fields.last());
}

/// A record written in `LOG_FORMAT` order (full SHA, short SHA, author
/// name, email and date, committer name, email and date, subject, body)
/// with no separator or newline inside a field parses to one commit that
/// holds each field under its own name.
pub proof fn lemma_log_field_order(fields: Seq<Seq<char>>)
    requires
        fields.len() == 10,
        forall|i: int|
            0 <= i < fields.len() ==> !(#[trigger] fields[i]).contains('\x1f')
                && !fields[i].contains('\x1e') && !fields[i].contains('\n'),
    ensures
        log_spec(join_with(fields, unit_sep()) + seq!['\x1e']) == Ok::<
            Seq<CommitEntryView>,
            Seq<char>,
        >(
            seq![
                CommitEntryView {
                    sha: fields[0],
                    short_sha: fields[1],
                    author_name: fields[2],
                    author_email: fields[3],
                    author_date: fields[4],
                    committer_name: fields[5],
                    committer_email: fields[6],
                    committer_date: fields[7],
                    subject: fields[8],
                    body: fields[9],
                },
            ],
        ),
{
    lemma_one_record(fields);
    let r = join_with(fields, unit_sep());
    let recs = split_on(r + seq!['\x1e'], '\x1e');
    let c = commit_of_fields(fields);
    assert(fields.skip(9) =~= seq![fields[9]]);
    assert(join_with(fields.skip(9), unit_sep()) == fields[9]);
    assert(trim_class(recs[1], CharClass::Exactly('\n')).len() == 0);
    assert(log_from(recs, 1, seq![c]) == log_from(recs, 2, seq![c]));
    assert(Seq::<CommitEntryView>::empty().push(c) =~= seq![c]);
    assert(log_from(recs, 0, Seq::empty()) == log_from(recs, 1, seq![c]));
}

/// What `git log --format=<LOG_FORMAT>` output `s` parses to.
pub open spec fn log_spec(s: Seq<char>) -> core::result::Result<Seq<CommitEntryView>, Seq<char>> {
    log_from(split_on(s, '\x1e'), 0, Seq::empty())
}

/// The error for a record with `n` fields where `want` are needed.
pub fn field_count_error(want: &str, n: usize) -> (e: Error)
    ensures
        is_parse_error(e, field_count_message(want@, n as nat)),
{
    let m = "expected ".to_owned().concat(want).concat(" fields, got ").concat(
        decimal_text(n as u64).as_str(),
    );
    Error::parse_error(m)
}

/// The commits of the records in `s` (see [`log_spec`]).
pub fn log_entries(s: &Vec<char>) -> (r: Result<Vec<CommitEntry>>)
    ensures
        r matches Ok(v) ==> log_spec(s@) == Ok::<Seq<CommitEntryView>, Seq<char>>(seq_views(v@)),
        r matches Err(e) ==> log_spec(s@) matches Err(m) && is_parse_error(e, m),
{
    let recs = split_char(s, '\x1e');
    let ghost rv = seq_views(recs@);
    let mut out: Vec<CommitEntry> = Vec::new();
    let mut i: usize = 0;
    assert(seq_views(out@) =~= Seq::<CommitEntryView>::empty());
    while i < recs.len()
        invariant
            rv == seq_views(recs@),
            rv == split_on(s@, '\x1e'),
            log_spec(s@) == log_from(rv, i as int, seq_views(out@)),
        decreases recs.len() - i,
    {
        assert(rv[i as int] == recs@[i as int]@);
        let t = trim_by(&recs[i], CharClass::Exactly('\n'));
        if t.len() > 0 {
            let f = split_char(&t, '\x1f');
            let ghost fv = seq_views(f@);
            if f.len() < 10 {
                proof {
                    reveal_strlit("10");
                }
                return Err(field_count_error("10", f.len()));
            }
            assert(fv[0] == f@[0]@ && fv[1] == f@[1]@ && fv[2] == f@[2]@ && fv[3] == f@[3]@);
            assert(fv[4] == f@[4]@ && fv[5] == f@[5]@ && fv[6] == f@[6]@ && fv[7] == f@[7]@);
            assert(fv[8] == f@[8]@);
            let e = CommitEntry {
                sha: text_of(&f[0]),
                short_sha: text_of(&f[1]),
                author_name: text_of(&f[2]),
                author_email: text_of(&f[3]),
                author_date: text_of(&f[4]),
                committer_name: text_of(&f[5]),
                committer_email: text_of(&f[6]),
                committer_date: text_of(&f[7]),
                subject: text_of(&f[8]),
                body: text_of(&join(&f, 9, '\x1f')),
            };
            let ghost acc = seq_views(out@);
            let ghost ev = e@;
            out.push(e);
            assert(seq_views(out@) =~= acc.push(ev));
        }
        i += 1;
    }
    Ok(out)
}

/// Parse the output of `git log --format=<LOG_FORMAT>`.
///
/// Returns [`Error::ParseError`] if any record has fewer fields than expected.
pub fn parse_log(input: &str) -> (r: Result<Vec<CommitEntry>>)
    ensures
        r matches Ok(v) ==> log_spec(input@) == Ok::<Seq<CommitEntryView>, Seq<char>>(
            seq_views(v@),
        ),
        r matches Err(e) ==> log_spec(input@) matches Err(m) && is_parse_error(e, m),
{
    log_entries(&chars_of(input))
}

} // verus!
