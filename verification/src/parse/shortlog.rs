//! Parser for `git shortlog` output.
//!
//! Two shapes are covered. The default output writes a header per author,
//! `<ident> (<count>):`, followed by one commit subject per line indented by
//! six spaces; `-w` wraps long subjects onto continuation lines indented by
//! nine, which are rejoined here with a single space. The `-s` output drops
//! the subjects entirely, leaving `<count>\t<ident>` with the count
//! right-aligned.
//!
//! In both shapes `<ident>` is the author name, or `<name> <email>` under
//! `-e`; the email is split out and its angle brackets removed. Lines that
//! match neither shape are ignored, and empty input yields an empty list.
use vstd::prelude::*;

use crate::text::{
    chars_of, has_prefix, lines, lines_of, opt_view, parse_u32, parse_u32_spec, rsplit_once,
    rsplit_once_spec, seq_views, split_once, split_once_spec, starts_with, strip_prefix,
    strip_prefix_spec, strip_suffix, strip_suffix_spec, text_of, trim, trim_start_by,
    trim_start_class, trim_ws, CharClass, is_ws, lemma_rfind_from_last, lemma_trim_class_ends,
    matches_at,
};

verus! {

/// Indent git puts before each commit subject in the default output.
const SUBJECT_INDENT: &'static str = "      ";

/// One author's entry in a `git shortlog` report.
#[derive(Debug, Clone, PartialEq, Eq)]
pub struct ShortlogEntry {
    /// Author name, without the email.
    pub author: String,
    /// Author email, present when the report was produced with `-e`.
    pub email: Option<String>,
    /// Number of commits git attributed to the author.
    pub count: u32,
    /// Subjects of those commits, empty when the report used `-s`.
    pub subjects: Vec<String>,
}

/// The abstract contents of a [`ShortlogEntry`].
pub struct ShortlogEntryView {
    pub author: Seq<char>,
    pub email: Option<Seq<char>>,
    pub count: u32,
    pub subjects: Seq<Seq<char>>,
}

impl View for ShortlogEntry {
    type V = ShortlogEntryView;

    open spec fn view(&self) -> ShortlogEntryView {
        ShortlogEntryView {
            author: self.author@,
            email: opt_view(self.email),
            count: self.count,
            subjects: seq_views(self.subjects@),
        }
    }
}

/// `<name> <email>` split into its parts (trimmed); a bare name has no email.
pub open spec fn split_ident_spec(ident: Seq<char>) -> (Seq<char>, Option<Seq<char>>) {
    let t = trim_ws(ident);
    match strip_suffix_spec(t, ">"@) {
        Some(head) => match rsplit_once_spec(head, " <"@) {
            Some((name, email)) => (name, Some(email)),
            None => (t, None),
        },
        None => (t, None),
    }
}

/// An identity `<name> <<email>>` (the name not starting or ending with
/// white space, the email without spaces) splits into that name and that
/// email.
pub proof fn lemma_split_ident_parts(name: Seq<char>, email: Seq<char>)
    requires
        name.len() > 0,
        !is_ws(name[0]),
        !is_ws(name[name.len() - 1]),
        forall|m: int| 0 <= m < email.len() ==> #[trigger] email[m] != ' ',
    ensures
        split_ident_spec(name + seq![' ', '<'] + email + seq!['>']) == (name, Some(email)),
{
    reveal_strlit(">");
    reveal_strlit(" <");
    let t = name + seq![' ', '<'] + email + seq!['>'];
    let nl = name.len() as int;
    assert(t[0] == name[0]);
    assert(t[t.len() - 1] == '>');
    lemma_trim_class_ends(t, CharClass::Whitespace);
    assert(t.skip(t.len() - 1) =~= ">"@);
    let head = name + seq![' ', '<'] + email;
    assert(t.take(t.len() - 1) =~= head);
    assert(head.subrange(nl, nl + 2) =~= " <"@);
    assert forall|j: int| nl < j <= head.len() - 2 implies !matches_at(head, " <"@, j) by {
        if matches_at(head, " <"@, j) {
            assert(head.subrange(j, j + 2)[0] == head[j]);
            if j > nl + 1 {
                assert(head[j] == email[j - nl - 2]);
            }
        }
    }
    lemma_rfind_from_last(head, " <"@, head.len() - 2, nl);
    assert(head.take(nl) =~= name);
    assert(head.skip(nl + 2) =~= email);
}

/// `<count>\t<ident>`, as written by `-s`.
pub open spec fn summary_line_spec(line: Seq<char>) -> Option<(u32, Seq<char>)> {
    match split_once_spec(line, "\t"@) {
        Some((count, ident)) => match parse_u32_spec(trim_ws(count)) {
            Some(n) => Some((n, ident)),
            None => None,
        },
        None => None,
    }
}

/// `<ident> (<count>):`, the header of a default-format group.
pub open spec fn group_header_spec(line: Seq<char>) -> Option<(Seq<char>, u32)> {
    match strip_suffix_spec(line, "):"@) {
        Some(head) => match rsplit_once_spec(head, " ("@) {
            Some((ident, count)) => match parse_u32_spec(count) {
                Some(n) => Some((ident, n)),
                None => None,
            },
            None => None,
        },
        None => None,
    }
}

/// A new entry for an author, without subjects.
pub open spec fn new_entry_spec(ident: Seq<char>, count: u32) -> ShortlogEntryView {
    let (author, email) = split_ident_spec(ident);
    ShortlogEntryView { author, email, count, subjects: Seq::empty() }
}

/// The entry with one more subject line: a line indented deeper than a
/// subject continues the last subject, joined by one space; any other adds
/// a subject.
pub open spec fn add_subject(e: ShortlogEntryView, rest: Seq<char>) -> ShortlogEntryView {
    if has_prefix(rest, " "@) && e.subjects.len() > 0 {
        ShortlogEntryView {
            subjects: e.subjects.update(
                e.subjects.len() - 1,
                e.subjects.last() + " "@ + trim_start_class(rest, CharClass::Whitespace),
            ),
            ..e
        }
    } else {
        ShortlogEntryView { subjects: e.subjects.push(rest), ..e }
    }
}

/// The entries after one line: an indented subject goes to the last entry
/// (and is dropped when blank or before any entry); a `-s` line or a group
/// header starts an entry; any other line is ignored.
pub open spec fn shortlog_step(es: Seq<ShortlogEntryView>, line: Seq<char>) -> Seq<
    ShortlogEntryView,
> {
    match strip_prefix_spec(line, "      "@) {
        Some(rest) => if trim_ws(rest).len() == 0 || es.len() == 0 {
            es
        } else {
            es.update(es.len() - 1, add_subject(es.last(), rest))
        },
        None => match summary_line_spec(line) {
            Some((count, ident)) => es.push(new_entry_spec(ident, count)),
            None => match group_header_spec(line) {
                Some((ident, count)) => es.push(new_entry_spec(ident, count)),
                None => es,
            },
        },
    }
}

/// The entries after the lines `ls` from line `i` on.
pub open spec fn shortlog_from(ls: Seq<Seq<char>>, i: int, es: Seq<ShortlogEntryView>) -> Seq<
    ShortlogEntryView,
>
    decreases ls.len() - i,
{
    if i < 0 || i >= ls.len() {
        es
    } else {
        shortlog_from(ls, i + 1, shortlog_step(es, ls[i]))
    }
}

/// What `git shortlog` output `s` parses to.
pub open spec fn shortlog_spec(s: Seq<char>) -> Seq<ShortlogEntryView> {
    shortlog_from(lines_of(s), 0, Seq::empty())
}

/// Split `<name> <email>` into its parts, leaving a bare name's email absent.
fn split_ident(ident: &Vec<char>) -> (r: (String, Option<String>))
    ensures
        (r.0@, opt_view(r.1)) == split_ident_spec(ident@),
{
    let t = trim(ident);
    if let Some(head) = strip_suffix(&t, ">") {
        if let Some((name, email)) = rsplit_once(&head, " <") {
            return (text_of(&name), Some(text_of(&email)));
        }
    }
    (text_of(&t), None)
}

fn new_entry(ident: &Vec<char>, count: u32) -> (r: ShortlogEntry)
    ensures
        r@ == new_entry_spec(ident@, count),
{
    let (author, email) = split_ident(ident);
    let r = ShortlogEntry { author, email, count, subjects: Vec::new() };
    assert(seq_views(r.subjects@) =~= Seq::<Seq<char>>::empty());
    r
}

/// `<count>\t<ident>`, as written by `-s`.
fn parse_summary_line(line: &Vec<char>) -> (r: Option<(u32, Vec<char>)>)
    ensures
        match r {
            Some((n, ident)) => summary_line_spec(line@) == Some((n, ident@)),
            None => summary_line_spec(line@) is None,
        },
{
    let (count, ident) = split_once(line, "\t")?;
    let n = parse_u32(&trim(&count))?;
    Some((n, ident))
}

/// `<ident> (<count>):`, the header of a default-format group.
fn parse_group_header(line: &Vec<char>) -> (r: Option<(Vec<char>, u32)>)
    ensures
        match r {
            Some((ident, n)) => group_header_spec(line@) == Some((ident@, n)),
            None => group_header_spec(line@) is None,
        },
{
    let head = strip_suffix(line, "):")?;
    let (ident, count) = rsplit_once(&head, " (")?;
    let n = parse_u32(&count)?;
    Some((ident, n))
}

fn add_subject_to(e: &mut ShortlogEntry, rest: &Vec<char>)
    ensures
        final(e)@ == add_subject(old(e)@, rest@),
{
    let ghost sv = seq_views(e.subjects@);
    if starts_with(rest, " ") && e.subjects.len() > 0 {
        let last = e.subjects.pop().unwrap();
        assert(seq_views(e.subjects@) =~= sv.drop_last());
        let tail = text_of(&trim_start_by(rest, CharClass::Whitespace));
        let joined = last.concat(" ").concat(tail.as_str());
        let ghost jv = joined@;
        e.subjects.push(joined);
        assert(seq_views(e.subjects@) =~= sv.update(sv.len() - 1, jv));
    } else {
        let t = text_of(rest);
        let ghost tv = t@;
        e.subjects.push(t);
        assert(seq_views(e.subjects@) =~= sv.push(tv));
    }
}

/// Parse the output of `git shortlog`.
pub fn parse_shortlog(input: &str) -> (r: Vec<ShortlogEntry>)
    ensures
        seq_views(r@) == shortlog_spec(input@),
{
    let mut entries: Vec<ShortlogEntry> = Vec::new();
    let s = chars_of(input);
    let ls = lines(&s);
    let ghost lv = seq_views(ls@);
    assert(seq_views(entries@) =~= Seq::<ShortlogEntryView>::empty());
    let mut i: usize = 0;
    while i < ls.len()
        invariant
            lv == seq_views(ls@),
            lv == lines_of(input@),
            shortlog_spec(input@) == shortlog_from(lv, i as int, seq_views(entries@)),
        decreases ls.len() - i,
    {
        let ghost es = seq_views(entries@);
        let line = &ls[i];
        assert(lv[i as int] == line@);
        proof {
            reveal_strlit("      ");
        }
        if let Some(rest) = strip_prefix(line, SUBJECT_INDENT) {
            if trim(&rest).len() > 0 && entries.len() > 0 {
                let mut e = entries.pop().unwrap();
                assert(seq_views(entries@) =~= es.drop_last());
                add_subject_to(&mut e, &rest);
                let ghost ev = e@;
                entries.push(e);
                assert(seq_views(entries@) =~= es.update(es.len() - 1, ev));
            }
        } else if let Some((count, ident)) = parse_summary_line(line) {
            let e = new_entry(&ident, count);
            let ghost ev = e@;
            entries.push(e);
            assert(seq_views(entries@) =~= es.push(ev));
        } else if let Some((ident, count)) = parse_group_header(line) {
            let e = new_entry(&ident, count);
            let ghost ev = e@;
            entries.push(e);
            assert(seq_views(entries@) =~= es.push(ev));
        }
        i += 1;
    }
    entries
}

} // verus!
