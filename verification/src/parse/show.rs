//! Parser for `git show` output.
//!
//! `git show` prints a commit header followed by a diff and, when `--stat`
//! is requested, a stat block instead of (or, with an explicit `--patch`,
//! alongside) the diff. To make the header parseable, callers that want a
//! [`ShowResult`] should run `show` with `--format=<LOG_FORMAT>` (see
//! [`crate::parse::log::LOG_FORMAT`]) so the header can be decoded with the
//! same logic that backs [`parse_log`](crate::parse::log::parse_log). A
//! caller-supplied custom `--format` (or `--oneline`) can't be parsed
//! generically, so in that case only `raw` is populated.
use vstd::prelude::*;

use crate::error::{is_parse_error, Error, Result};
use crate::parse::log::{
    commit_of_fields, lemma_log_field_order, log_entries, log_spec, unit_sep, CommitEntry,
    CommitEntryView,
};
use crate::text::{
    chars_of, find_class, find_class_from, opt_view, slice_of, tail_of, text_of,
    trim_start_by, trim_start_class, CharClass, lemma_find_class_from, join_with,
    lemma_find_class_first, lemma_join_avoids, lead_count, in_class,
};

verus! {

/// Parsed result of a `git show` invocation.
#[derive(Debug, Clone, PartialEq, Eq)]
pub struct ShowResult {
    /// Commit header, present for default-format runs.
    pub commit: Option<CommitEntry>,
    /// Diff body, split from the header/stat. Empty when `--stat` was
    /// requested without an explicit `--patch`, since git omits the diff
    /// in that case.
    pub diff: String,
    /// The `--stat` block. `Some` only when `--stat` was requested,
    /// `None` when it wasn't (distinct from an empty stat block).
    pub stat: Option<String>,
    /// Full unparsed stdout. Always populated; the only populated field
    /// when a custom `--format` (or `--oneline`) was set.
    pub raw: String,
}

/// The abstract contents of a [`ShowResult`].
pub struct ShowResultView {
    pub commit: Option<CommitEntryView>,
    pub diff: Seq<char>,
    pub stat: Option<Seq<char>>,
    pub raw: Seq<char>,
}

impl View for ShowResult {
    type V = ShowResultView;

    open spec fn view(&self) -> ShowResultView {
        ShowResultView {
            commit: opt_view(self.commit),
            diff: self.diff@,
            stat: opt_view(self.stat),
            raw: self.raw@,
        }
    }
}

impl Default for ShowResult {
    fn default() -> (r: Self)
        ensures
            r.commit is None,
            r.diff@.len() == 0,
            r.stat is None,
            r.raw@.len() == 0,
    {
        ShowResult { commit: None, diff: String::new(), stat: None, raw: String::new() }
    }
}

/// What `git show` output `s` parses to: with a custom format, only the raw
/// text; without a `\x1e` header end, the text (leading newlines dropped) as
/// the diff; otherwise the first commit of the header through `\x1e`, and
/// the rest (leading newlines dropped) as the stat block when `has_stat`,
/// else as the diff. A header with too few fields gives its message.
pub open spec fn show_spec(s: Seq<char>, has_stat: bool, custom_format: bool) -> core::result::Result<
    ShowResultView,
    Seq<char>,
> {
    if custom_format {
        Ok(ShowResultView { commit: None, diff: Seq::empty(), stat: None, raw: s })
    } else {
        match find_class_from(s, CharClass::Exactly('\x1e'), 0) {
            None => Ok(
                ShowResultView {
                    commit: None,
                    diff: trim_start_class(s, CharClass::Exactly('\n')),
                    stat: None,
                    raw: s,
                },
            ),
            Some(k) => match log_spec(s.take(k + 1)) {
                Err(m) => Err(m),
                Ok(es) => {
                    let commit = if es.len() > 0 {
                        Some(es[0])
                    } else {
                        None
                    };
                    let rest = trim_start_class(s.skip(k + 1), CharClass::Exactly('\n'));
                    if has_stat {
                        Ok(ShowResultView { commit, diff: Seq::empty(), stat: Some(rest), raw: s })
                    } else {
                        Ok(ShowResultView { commit, diff: rest, stat: None, raw: s })
                    }
                },
            },
        }
    }
}

/// Output made of one `LOG_FORMAT` record (no separator or newline inside
/// a field) and a rest that does not start with a newline gives that
/// record's commit and the rest: as the stat block when `--stat` was asked
/// for, with no diff; as the diff otherwise, with no stat block.
pub proof fn lemma_show_parts(fields: Seq<Seq<char>>, rest: Seq<char>)
    requires
        fields.len() == 10,
        forall|i: int|
            0 <= i < fields.len() ==> !(#[trigger] fields[i]).contains('\x1f')
                && !fields[i].contains('\x1e') && !fields[i].contains('\n'),
        rest.len() == 0 || rest[0] != '\n',
    ensures
        show_spec(join_with(fields, unit_sep()) + seq!['\x1e'] + rest, true, false) == Ok::<
            ShowResultView,
            Seq<char>,
        >(
            ShowResultView {
                commit: Some(commit_of_fields(fields)),
                diff: Seq::empty(),
                stat: Some(rest),
                raw: join_with(fields, unit_sep()) + seq!['\x1e'] + rest,
            },
        ),
        show_spec(join_with(fields, unit_sep()) + seq!['\x1e'] + rest, false, false) == Ok::<
            ShowResultView,
            Seq<char>,
        >(
            ShowResultView {
                commit: Some(commit_of_fields(fields)),
                diff: rest,
                stat: None,
                raw: join_with(fields, unit_sep()) + seq!['\x1e'] + rest,
            },
        ),
{
    let r = join_with(fields, unit_sep());
    let s = r + seq!['\x1e'] + rest;
    let k = CharClass::Exactly('\x1e');
    lemma_join_avoids(fields, '\x1f', '\x1e');
    assert forall|m: int| 0 <= m < r.len() implies !in_class(#[trigger] s[m], k) by {
        assert(s[m] == r[m]);
        if r[m] == '\x1e' {
            assert(r.contains('\x1e'));
        }
    }
    assert(s[r.len() as int] == '\x1e');
    lemma_find_class_first(s, k, 0, r.len() as int);
    assert(s.take(r.len() + 1 as int) =~= r + seq!['\x1e']);
    assert(s.skip(r.len() + 1 as int) =~= rest);
    lemma_log_field_order(fields);
    assert(fields.skip(9) =~= seq![fields[9]]);
    assert(join_with(fields.skip(9), unit_sep()) == fields[9]);
    assert(lead_count(rest, CharClass::Exactly('\n')) == 0);
    assert(rest.skip(0) =~= rest);
}

/// Parse the output of a `git show` invocation.
///
/// `has_stat` should reflect whether `--stat` was passed to `show`, and
/// `custom_format` whether the caller supplied their own `--format` (or
/// `--oneline`) rather than the internal `LOG_FORMAT`-based one. When
/// `custom_format` is `true`, only `raw` is populated: a custom format's
/// header can't be parsed generically.
///
/// Returns [`Error::ParseError`] if the header (once split out) doesn't have
/// the fields the log parser expects.
pub fn parse_show(stdout: &str, has_stat: bool, custom_format: bool) -> (r: Result<ShowResult>)
    ensures
        r matches Ok(v) ==> show_spec(stdout@, has_stat, custom_format) == Ok::<
            ShowResultView,
            Seq<char>,
        >(v@),
        r matches Err(e) ==> show_spec(stdout@, has_stat, custom_format) matches Err(m)
            && is_parse_error(e, m),
{
    let s = chars_of(stdout);
    let raw = text_of(&s);
    if custom_format {
        return Ok(ShowResult { commit: None, diff: String::new(), stat: None, raw });
    }
    let sep_idx = match find_class(&s, CharClass::Exactly('\x1e')) {
        Some(k) => k,
        None => {
            let diff = text_of(&trim_start_by(&s, CharClass::Exactly('\n')));
            return Ok(ShowResult { commit: None, diff, stat: None, raw });
        },
    };
    let header = slice_of(&s, 0, sep_idx + 1);
    assert(s@.subrange(0, sep_idx + 1) =~= s@.take(sep_idx + 1));
    let entries = log_entries(&header)?;
    let commit = if entries.len() > 0 {
        let mut entries = entries;
        Some(entries.remove(0))
    } else {
        None
    };
    let remainder = text_of(&trim_start_by(&tail_of(&s, sep_idx + 1), CharClass::Exactly('\n')));
    if has_stat {
        Ok(ShowResult { commit, diff: String::new(), stat: Some(remainder), raw })
    } else {
        Ok(ShowResult { commit, diff: remainder, stat: None, raw })
    }
}

} // verus!
