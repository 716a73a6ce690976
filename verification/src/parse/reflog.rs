//! Parser for `git reflog show` output using a fixed token format.
//!
//! Use [`REFLOG_FORMAT`] as `--format=<fmt>` so `reflog show` emits stable,
//! parseable records: fields separated by `\x1f` (unit separator) and
//! entries separated by `\x1e` (record separator).
use vstd::prelude::*;

use crate::error::{is_parse_error, Error, Result};
use crate::parse::log::{
    field_count_error, field_count_message, lemma_one_record, trimmed_records, unit_sep,
};
use crate::text::{
    chars_of, join, join_with, seq_views, split_char, split_on, split_once, split_once_spec,
    text_of, trim_by, trim_class, CharClass, contains_str, lemma_split_once,
};

verus! {

/// Format string to pass as `--format=<fmt>` so entries parse cleanly.
///
/// Fields (in order): full SHA, short SHA, reflog selector (`%gD`, e.g.
/// `HEAD@{0}`), reflog subject (`%gs`). The subject is split on the first
/// `": "` into `action` and `message` during parsing.
pub const REFLOG_FORMAT: &'static str = "%H\x1f%h\x1f%gD\x1f%gs\x1e";

/// A single parsed reflog entry.
#[derive(Debug, Clone, PartialEq, Eq)]
pub struct ReflogEntry {
    /// Full SHA.
    pub hash: String,
    /// Abbreviated SHA.
    pub abbreviated_hash: String,
    /// Reflog selector, e.g. `HEAD@{0}`.
    pub selector: String,
    /// Reflog action, e.g. `commit`, `checkout`, `reset`.
    pub action: String,
    /// Remainder of the reflog subject after the action.
    pub message: String,
}

/// The abstract contents of a [`ReflogEntry`].
pub struct ReflogEntryView {
    pub hash: Seq<char>,
    pub abbreviated_hash: Seq<char>,
    pub selector: Seq<char>,
    pub action: Seq<char>,
    pub message: Seq<char>,
}

impl View for ReflogEntry {
    type V = ReflogEntryView;

    open spec fn view(&self) -> ReflogEntryView {
        ReflogEntryView {
            hash: self.hash@,
            abbreviated_hash: self.abbreviated_hash@,
            selector: self.selector@,
            action: self.action@,
            message: self.message@,
        }
    }
}

/// A reflog subject split on its first `": "` into action and message; the
/// whole subject is the action when there is none.
pub open spec fn action_message(subject: Seq<char>) -> (Seq<char>, Seq<char>) {
    match split_once_spec(subject, ": "@) {
        Some(p) => p,
        None => (subject, Seq::empty()),
    }
}

/// The entry a record's `\x1f`-separated fields describe: hash,
/// abbreviated hash and selector, then the remaining fields joined back
/// into the subject and split into action and message.
pub open spec fn reflog_entry_of(f: Seq<Seq<char>>) -> ReflogEntryView {
    let am = action_message(join_with(f.skip(3), unit_sep()));
    ReflogEntryView {
        hash: f[0],
        abbreviated_hash: f[1],
        selector: f[2],
        action: am.0,
        message: am.1,
    }
}

/// A subject that holds `": "` is its action, `": "` and its message, with
/// no `": "` in the action; one that holds none is all action.
pub proof fn lemma_action_message(subject: Seq<char>)
    ensures
        contains_str(subject, ": "@) ==> action_message(subject).0 + ": "@ + action_message(
            subject,
        ).1 == subject && !contains_str(action_message(subject).0, ": "@),
        !contains_str(subject, ": "@) ==> action_message(subject).0 == subject
            && action_message(subject).1.len() == 0,
{
    reveal_strlit(": ");
    lemma_split_once(subject, ": "@);
}

/// The entries of the `\x1e`-separated records `recs` from record `i` on,
/// after those in `acc`; a record holding only newlines is skipped. Or the
/// message for the first record with fewer than four fields.
pub open spec fn reflog_from(
    recs: Seq<Seq<char>>,
    i: int,
    acc: Seq<ReflogEntryView>,
) -> core::result::Result<Seq<ReflogEntryView>, Seq<char>>
    decreases recs.len() - i,
{
    if i < 0 || i >= recs.len() {
        Ok(acc)
    } else {
        let t = trim_class(recs[i], CharClass::Exactly('\n'));
        if t.len() == 0 {
            reflog_from(recs, i + 1, acc)
        } else {
            let f = split_on(t, '\x1f');
            if f.len() < 4 {
                Err(field_count_message("4"@, f.len()))
            } else {
                reflog_from(recs, i + 1, acc.push(reflog_entry_of(f)))
            }
        }
    }
}

proof fn lemma_reflog_from(recs: Seq<Seq<char>>, i: int, acc: Seq<ReflogEntryView>)
    requires
        0 <= i,
    ensures
        reflog_from(recs, i, acc) is Err <==> exists|k: int|
            0 <= k < trimmed_records(recs, i).len() && #[trigger] split_on(
                trimmed_records(recs, i)[k],
                '\x1f',
            ).len() < 4,
        reflog_from(recs, i, acc) matches Ok(v) ==> v == acc + trimmed_records(
            recs,
            i,
        ).map_values(|t: Seq<char>| reflog_entry_of(split_on(t, '\x1f'))),
    decreases recs.len() - i,
{
    let g = |t: Seq<char>| reflog_entry_of(split_on(t, '\x1f'));
    if i >= recs.len() {
        assert(acc + trimmed_records(recs, i).map_values(g) =~= acc);
    } else {
        let t = trim_class(recs[i], CharClass::Exactly('\n'));
        let rs = trimmed_records(recs, i);
        let rest = trimmed_records(recs, i + 1);
        if t.len() == 0 {
            lemma_reflog_from(recs, i + 1, acc);
        } else {
            let f = split_on(t, '\x1f');
            assert(rs == seq![t] + rest);
            assert(rs[0] == t);
            if f.len() < 4 {
                assert(split_on(rs[0], '\x1f').len() < 4);
            } else {
                let acc2 = acc.push(reflog_entry_of(f));
                lemma_reflog_from(recs, i + 1, acc2);
                if exists|k: int|
                    0 <= k < rest.len() && #[trigger] split_on(rest[k], '\x1f').len() < 4 {
                    let k = choose|k: int|
                        0 <= k < rest.len() && #[trigger] split_on(rest[k], '\x1f').len() < 4;
                    assert(rs[k + 1] == rest[k]);
                    assert(split_on(rs[k + 1], '\x1f').len() < 4);
                }
                if exists|k: int| 0 <= k < rs.len() && #[trigger] split_on(rs[k], '\x1f').len() < 4 {
                    let k = choose|k: int|
                        0 <= k < rs.len() && #[trigger] split_on(rs[k], '\x1f').len() < 4;
                    assert(k != 0);
                    assert(rest[k - 1] == rs[k]);
                    assert(split_on(rest[k - 1], '\x1f').len() < 4);
                }
                assert(acc2 + rest.map_values(g) =~= acc + rs.map_values(g));
            }
        }
    }
}

/// A record written in `REFLOG_FORMAT` order (full SHA, abbreviated SHA,
/// selector, subject) with no separator or newline inside a field parses
/// to one entry: the full SHA as its hash, the abbreviated SHA as its
/// abbreviated hash, the selector, and the subject split into action and
/// message (see [`lemma_action_message`]).
pub proof fn lemma_reflog_field_order(fields: Seq<Seq<char>>)
    requires
        fields.len() == 4,
        forall|i: int|
            0 <= i < fields.len() ==> !(#[trigger] fields[i]).contains('\x1f')
                && !fields[i].contains('\x1e') && !fields[i].contains('\n'),
    ensures
        reflog_spec(join_with(fields, unit_sep()) + seq!['\x1e']) == Ok::<
            Seq<ReflogEntryView>,
            Seq<char>,
        >(
            seq![
                ReflogEntryView {
                    hash: fields[0],
                    abbreviated_hash: fields[1],
                    selector: fields[2],
                    action: action_message(fields[3]).0,
                    message: action_message(fields[3]).1,
                },
            ],
        ),
{
    lemma_one_record(fields);
    let r = join_with(fields, unit_sep());
    let recs = split_on(r + seq!['\x1e'], '\x1e');
    let e = reflog_entry_of(fields);
    assert(fields.skip(3) =~= seq![fields[3]]);
    assert(join_with(fields.skip(3), unit_sep()) == fields[3]);
    assert(trim_class(recs[1], CharClass::Exactly('\n')).len() == 0);
    assert(reflog_from(recs, 1, seq![e]) == reflog_from(recs, 2, seq![e]));
    assert(Seq::<ReflogEntryView>::empty().push(e) =~= seq![e]);
    assert(reflog_from(recs, 0, Seq::empty()) == reflog_from(recs, 1, seq![e]));
}

/// Reflog output fails to parse exactly when one of its records, trimmed
/// of newlines and non-empty, has fewer than four `\x1f`-separated fields;
/// otherwise each entry comes from its record's fields: hash, abbreviated
/// hash and selector first, then the rest of the record as the subject,
/// split at its first `": "` (see [`lemma_action_message`]).
pub proof fn lemma_reflog_records(s: Seq<char>)
    ensures
        reflog_spec(s) is Err <==> exists|k: int|
            0 <= k < trimmed_records(split_on(s, '\x1e'), 0).len() && #[trigger] split_on(
                trimmed_records(split_on(s, '\x1e'), 0)[k],
                '\x1f',
            ).len() < 4,
        reflog_spec(s) matches Ok(v) ==> v == trimmed_records(split_on(s, '\x1e'), 0).map_values(
            |t: Seq<char>| reflog_entry_of(split_on(t, '\x1f')),
        ),
{
    lemma_reflog_from(split_on(s, '\x1e'), 0, Seq::empty());
    let rs = trimmed_records(split_on(s, '\x1e'), 0);
    let g = |t: Seq<char>| reflog_entry_of(split_on(t, '\x1f'));
    assert(Seq::<ReflogEntryView>::empty() + rs.map_values(g) =~= rs.map_values(g));
}

/// What `git reflog show --format=<REFLOG_FORMAT>` output `s` parses to.
pub open spec fn reflog_spec(s: Seq<char>) -> core::result::Result<
    Seq<ReflogEntryView>,
    Seq<char>,
> {
    reflog_from(split_on(s, '\x1e'), 0, Seq::empty())
}

/// Parse the output of `git reflog show --format=<REFLOG_FORMAT>`.
///
/// Returns [`Error::ParseError`] if any record has fewer fields than expected.
pub fn parse_reflog(input: &str) -> (r: Result<Vec<ReflogEntry>>)
    ensures
        r matches Ok(v) ==> reflog_spec(input@) == Ok::<Seq<ReflogEntryView>, Seq<char>>(
            seq_views(v@),
        ),
        r matches Err(e) ==> reflog_spec(input@) matches Err(m) && is_parse_error(e, m),
{
    let s = chars_of(input);
    let recs = split_char(&s, '\x1e');
    let ghost rv = seq_views(recs@);
    let mut out: Vec<ReflogEntry> = Vec::new();
    let mut i: usize = 0;
    assert(seq_views(out@) =~= Seq::<ReflogEntryView>::empty());
    while i < recs.len()
        invariant
            rv == seq_views(recs@),
            rv == split_on(input@, '\x1e'),
            reflog_spec(input@) == reflog_from(rv, i as int, seq_views(out@)),
        decreases recs.len() - i,
    {
        assert(rv[i as int] == recs@[i as int]@);
        let t = trim_by(&recs[i], CharClass::Exactly('\n'));
        if t.len() > 0 {
            let f = split_char(&t, '\x1f');
            let ghost fv = seq_views(f@);
            if f.len() < 4 {
                proof {
                    reveal_strlit("4");
                }
                return Err(field_count_error("4", f.len()));
            }
            assert(fv[0] == f@[0]@ && fv[1] == f@[1]@ && fv[2] == f@[2]@);
            let subject = join(&f, 3, '\x1f');
            let (action, message) = match split_once(&subject, ": ") {
                Some((a, m)) => (text_of(&a), text_of(&m)),
                None => (text_of(&subject), String::new()),
            };
            let e = ReflogEntry {
                hash: text_of(&f[0]),
                abbreviated_hash: text_of(&f[1]),
                selector: text_of(&f[2]),
                action,
                message,
            };
            let ghost acc = seq_views(out@);
            let ghost ev = e@;
            out.push(e);
            assert(seq_views(out@) =~= acc.push(ev));
        }
        i += 1;
    }
    Ok(out)
}

} // verus!
