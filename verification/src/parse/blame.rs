//! Parser for `git blame --porcelain` / `--line-porcelain`.
//!
//! The porcelain format emits one header per source line, followed by the
//! line's content prefixed with a tab. The header is
//! `<sha> <original-line> <final-line>[ <lines-in-group>]`, where the group
//! count appears only on the line that starts a run of consecutive lines from
//! the same commit. Commit metadata (`author`, `summary`, and friends) is
//! written out the first time a commit appears and omitted afterwards, so this
//! parser remembers what it has seen per commit and fills the gaps back in.
//! `--line-porcelain` repeats the metadata on every line, which parses the same
//! way.
//!
//! Only authorship fields are surfaced: `blame` answers "who wrote this line",
//! and the committer block is dropped rather than doubling the entry width.
//! Lines that are neither a header, a known metadata key, nor content are
//! ignored, and empty input yields an empty list.
use vstd::prelude::*;

use crate::text::{
    all_hex, chars_of, is_hex, is_lit, lines, lines_of, opt_view, parse_i64, parse_i64_spec,
    parse_u32, parse_u32_spec, seq_views, split_char, split_on, split_once, split_once_spec,
    strip_prefix, strip_prefix_spec, strip_suffix, strip_suffix_spec, text_of, lemma_split_class_len,
    CharClass, decimal, join_with, lemma_decimal_digits, lemma_parse_decimal, lemma_split_join,
    is_digit,
};

verus! {

/// One parsed line from `git blame` porcelain output.
#[derive(Debug, Clone, PartialEq, Eq)]
pub struct BlameEntry {
    /// SHA of the commit the line is attributed to.
    pub sha: String,
    /// The line's number in the original file, as of `sha`.
    pub original_line: u32,
    /// The line's number in the file being blamed.
    pub final_line: u32,
    /// Number of consecutive lines attributed to `sha` starting here.
    /// Present only on the line that starts a group.
    pub line_count: Option<u32>,
    /// Author name.
    pub author: Option<String>,
    /// Author email, with git's surrounding angle brackets removed.
    pub author_mail: Option<String>,
    /// Author time as a Unix timestamp.
    pub author_time: Option<i64>,
    /// The commit's subject line.
    pub summary: Option<String>,
    /// Path the line lived at in `sha`, which differs from the blamed path
    /// when the content was moved or copied.
    pub filename: Option<String>,
    /// Whether `sha` is a boundary commit, meaning blame stopped there rather
    /// than reaching the line's true origin.
    pub boundary: bool,
    /// The line's content, without its leading tab.
    pub content: Option<String>,
}

/// The abstract contents of a [`BlameEntry`].
pub struct BlameEntryView {
    pub sha: Seq<char>,
    pub original_line: u32,
    pub final_line: u32,
    pub line_count: Option<u32>,
    pub author: Option<Seq<char>>,
    pub author_mail: Option<Seq<char>>,
    pub author_time: Option<i64>,
    pub summary: Option<Seq<char>>,
    pub filename: Option<Seq<char>>,
    pub boundary: bool,
    pub content: Option<Seq<char>>,
}

impl View for BlameEntry {
    type V = BlameEntryView;

    open spec fn view(&self) -> BlameEntryView {
        BlameEntryView {
            sha: self.sha@,
            original_line: self.original_line,
            final_line: self.final_line,
            line_count: self.line_count,
            author: opt_view(self.author),
            author_mail: opt_view(self.author_mail),
            author_time: self.author_time,
            summary: opt_view(self.summary),
            filename: opt_view(self.filename),
            boundary: self.boundary,
            content: opt_view(self.content),
        }
    }
}

/// Commit-level fields, remembered so later groups from the same commit can
/// inherit what the porcelain format only writes once.
#[derive(Debug)]
struct CommitMeta {
    author: Option<String>,
    author_mail: Option<String>,
    author_time: Option<i64>,
    summary: Option<String>,
    filename: Option<String>,
    boundary: bool,
}

/// The abstract contents of a commit's remembered metadata.
pub struct MetaView {
    pub author: Option<Seq<char>>,
    pub author_mail: Option<Seq<char>>,
    pub author_time: Option<i64>,
    pub summary: Option<Seq<char>>,
    pub filename: Option<Seq<char>>,
    pub boundary: bool,
}

impl View for CommitMeta {
    type V = MetaView;

    closed spec fn view(&self) -> MetaView {
        MetaView {
            author: opt_view(self.author),
            author_mail: opt_view(self.author_mail),
            author_time: self.author_time,
            summary: opt_view(self.summary),
            filename: opt_view(self.filename),
            boundary: self.boundary,
        }
    }
}

/// No metadata known.
pub open spec fn no_meta() -> MetaView {
    MetaView {
        author: None,
        author_mail: None,
        author_time: None,
        summary: None,
        filename: None,
        boundary: false,
    }
}

/// The value with one pair of surrounding angle brackets removed, when it
/// has both.
pub open spec fn strip_brackets_spec(v: Seq<char>) -> Seq<char> {
    match strip_prefix_spec(v, "<"@) {
        Some(w) => match strip_suffix_spec(w, ">"@) {
            Some(x) => x,
            None => v,
        },
        None => v,
    }
}

/// The metadata after one `<key> <value>` line: the authorship keys set
/// their field (an author time that is not an `i64` is skipped), `boundary`
/// sets the flag, and any other line changes nothing.
pub open spec fn meta_apply(m: MetaView, line: Seq<char>) -> MetaView {
    let kv = match split_once_spec(line, " "@) {
        Some(p) => p,
        None => (line, Seq::empty()),
    };
    let key = kv.0;
    let value = kv.1;
    if key == "author"@ {
        MetaView { author: Some(value), ..m }
    } else if key == "author-mail"@ {
        MetaView { author_mail: Some(strip_brackets_spec(value)), ..m }
    } else if key == "author-time"@ {
        match parse_i64_spec(value) {
            Some(t) => MetaView { author_time: Some(t), ..m },
            None => m,
        }
    } else if key == "summary"@ {
        MetaView { summary: Some(value), ..m }
    } else if key == "filename"@ {
        MetaView { filename: Some(value), ..m }
    } else if key == "boundary"@ {
        MetaView { boundary: true, ..m }
    } else {
        m
    }
}

fn clone_text(o: &Option<String>) -> (r: Option<String>)
    ensures
        r == *o,
{
    match o {
        Some(s) => Some(s.clone()),
        None => None,
    }
}

fn strip_angle_brackets(value: &Vec<char>) -> (r: Vec<char>)
    ensures
        r@ == strip_brackets_spec(value@),
{
    if let Some(w) = strip_prefix(value, "<") {
        if let Some(x) = strip_suffix(&w, ">") {
            return x;
        }
    }
    let mut r: Vec<char> = Vec::new();
    let mut i: usize = 0;
    while i < value.len()
        invariant
            i <= value.len(),
            r@ == value@.take(i as int),
        decreases value.len() - i,
    {
        r.push(value[i]);
        assert(value@.take(i + 1) =~= value@.take(i as int).push(value@[i as int]));
        i += 1;
    }
    assert(value@.take(value.len() as int) =~= value@);
    r
}

impl CommitMeta {
    fn empty() -> (r: Self)
        ensures
            r@ == no_meta(),
    {
        CommitMeta {
            author: None,
            author_mail: None,
            author_time: None,
            summary: None,
            filename: None,
            boundary: false,
        }
    }

    fn duplicate(&self) -> (r: Self)
        ensures
            r@ == self@,
    {
        CommitMeta {
            author: clone_text(&self.author),
            author_mail: clone_text(&self.author_mail),
            author_time: self.author_time,
            summary: clone_text(&self.summary),
            filename: clone_text(&self.filename),
            boundary: self.boundary,
        }
    }

    fn apply(&mut self, line: &Vec<char>)
        ensures
            final(self)@ == meta_apply(old(self)@, line@),
    {
        let (key, value) = match split_once(line, " ") {
            Some(p) => p,
            None => {
                let mut k: Vec<char> = Vec::new();
                let mut i: usize = 0;
                while i < line.len()
                    invariant
                        i <= line.len(),
                        k@ == line@.take(i as int),
                    decreases line.len() - i,
                {
                    k.push(line[i]);
                    assert(line@.take(i + 1) =~= line@.take(i as int).push(line@[i as int]));
                    i += 1;
                }
                assert(line@.take(line.len() as int) =~= line@);
                (k, Vec::new())
            },
        };
        assert(value@ =~= (match split_once_spec(line@, " "@) {
            Some(p) => p,
            None => (line@, Seq::<char>::empty()),
        }).1);
        if is_lit(&key, "author") {
            self.author = Some(text_of(&value));
        } else if is_lit(&key, "author-mail") {
            self.author_mail = Some(text_of(&strip_angle_brackets(&value)));
        } else if is_lit(&key, "author-time") {
            if let Some(time) = parse_i64(&value) {
                self.author_time = Some(time);
            }
        } else if is_lit(&key, "summary") {
            self.summary = Some(text_of(&value));
        } else if is_lit(&key, "filename") {
            self.filename = Some(text_of(&value));
        } else if is_lit(&key, "boundary") {
            self.boundary = true;
        }
    }
}

/// The metadata each remembered SHA maps to; the last entry for a SHA wins.
spec fn known_map(s: Seq<(String, CommitMeta)>) -> Map<Seq<char>, MetaView>
    decreases s.len(),
{
    if s.len() == 0 {
        Map::empty()
    } else {
        known_map(s.drop_last()).insert(s.last().0@, s.last().1@)
    }
}

/// No SHA occurs twice.
spec fn distinct_keys(s: Seq<(String, CommitMeta)>) -> bool {
    forall|i: int, j: int| 0 <= i < j < s.len() ==> s[i].0@ != s[j].0@
}

proof fn lemma_known_index(s: Seq<(String, CommitMeta)>, j: int)
    requires
        distinct_keys(s),
        0 <= j < s.len(),
    ensures
        known_map(s).contains_key(s[j].0@),
        known_map(s)[s[j].0@] == s[j].1@,
    decreases s.len(),
{
    if j < s.len() - 1 {
        assert(s.drop_last()[j] == s[j]);
        lemma_known_index(s.drop_last(), j);
    }
}

proof fn lemma_known_absent(s: Seq<(String, CommitMeta)>, k: Seq<char>)
    requires
        forall|i: int| 0 <= i < s.len() ==> s[i].0@ != k,
    ensures
        !known_map(s).contains_key(k),
    decreases s.len(),
{
    if s.len() > 0 {
        lemma_known_absent(s.drop_last(), k);
    }
}

proof fn lemma_known_update(s: Seq<(String, CommitMeta)>, j: int, k: String, m: CommitMeta)
    requires
        distinct_keys(s),
        0 <= j < s.len(),
        k@ == s[j].0@,
    ensures
        known_map(s.update(j, (k, m))) == known_map(s).insert(s[j].0@, m@),
    decreases s.len(),
{
    let t = s.update(j, (k, m));
    if j == s.len() - 1 {
        assert(t.drop_last() =~= s.drop_last());
        assert(known_map(t) =~= known_map(s).insert(s[j].0@, m@));
    } else {
        assert(t.drop_last() =~= s.drop_last().update(j, (k, m)));
        assert(s.drop_last()[j] == s[j]);
        lemma_known_update(s.drop_last(), j, k, m);
        assert(s.last().0@ != s[j].0@);
        assert(known_map(t) =~= known_map(s).insert(s[j].0@, m@));
    }
}

/// Metadata remembered per commit, keyed by SHA; each SHA occurs once.
struct KnownCommits {
    entries: Vec<(String, CommitMeta)>,
}

impl View for KnownCommits {
    type V = Map<Seq<char>, MetaView>;

    closed spec fn view(&self) -> Map<Seq<char>, MetaView> {
        known_map(self.entries@)
    }
}

impl KnownCommits {
    spec fn wf(&self) -> bool {
        distinct_keys(self.entries@)
    }

    fn new() -> (r: Self)
        ensures
            r.wf(),
            r@ == Map::<Seq<char>, MetaView>::empty(),
    {
        KnownCommits { entries: Vec::new() }
    }

    fn position(&self, sha: &String) -> (r: Option<usize>)
        ensures
            r matches Some(j) ==> j < self.entries@.len() && self.entries@[j as int].0@ == sha@,
            r is None ==> forall|i: int|
                0 <= i < self.entries@.len() ==> self.entries@[i].0@ != sha@,
    {
        let mut i: usize = 0;
        while i < self.entries.len()
            invariant
                i <= self.entries@.len(),
                forall|k: int| 0 <= k < i ==> self.entries@[k].0@ != sha@,
            decreases self.entries.len() - i,
        {
            if self.entries[i].0 == *sha {
                return Some(i);
            }
            i += 1;
        }
        None
    }

    /// The metadata remembered for `sha`, or none.
    fn lookup(&self, sha: &String) -> (r: CommitMeta)
        requires
            self.wf(),
        ensures
            r@ == (if self@.contains_key(sha@) {
                self@[sha@]
            } else {
                no_meta()
            }),
    {
        match self.position(sha) {
            Some(j) => {
                proof {
                    lemma_known_index(self.entries@, j as int);
                }
                self.entries[j].1.duplicate()
            },
            None => {
                proof {
                    lemma_known_absent(self.entries@, sha@);
                }
                CommitMeta::empty()
            },
        }
    }

    /// Remember `meta` for `sha`, replacing what was remembered before.
    fn insert(&mut self, sha: String, meta: CommitMeta)
        requires
            old(self).wf(),
        ensures
            final(self).wf(),
            final(self)@ == old(self)@.insert(sha@, meta@),
    {
        match self.position(&sha) {
            Some(j) => {
                let ghost s = self.entries@;
                let ghost pair = (sha, meta);
                proof {
                    lemma_known_update(s, j as int, sha, meta);
                }
                self.entries.set(j, (sha, meta));
                assert(self.entries@ =~= s.update(j as int, pair));
                assert(distinct_keys(self.entries@)) by {
                    assert forall|a: int, b: int|
                        0 <= a < b < self.entries@.len() implies self.entries@[a].0@
                        != self.entries@[b].0@ by {
                        assert(s[a].0@ != s[b].0@);
                    }
                }
            },
            None => {
                let ghost s = self.entries@;
                self.entries.push((sha, meta));
                assert(self.entries@.drop_last() =~= s);
            },
        }
    }
}

/// A header line and the metadata gathered for it so far.
struct Pending {
    sha: String,
    original_line: u32,
    final_line: u32,
    line_count: Option<u32>,
    meta: CommitMeta,
}

/// The abstract contents of an open header.
pub struct PendingView {
    pub sha: Seq<char>,
    pub original_line: u32,
    pub final_line: u32,
    pub line_count: Option<u32>,
    pub meta: MetaView,
}

impl View for Pending {
    type V = PendingView;

    closed spec fn view(&self) -> PendingView {
        PendingView {
            sha: self.sha@,
            original_line: self.original_line,
            final_line: self.final_line,
            line_count: self.line_count,
            meta: self.meta@,
        }
    }
}

/// The entry an open header becomes, with the content that closed it.
pub open spec fn finish_spec(p: PendingView, content: Option<Seq<char>>) -> BlameEntryView {
    BlameEntryView {
        sha: p.sha,
        original_line: p.original_line,
        final_line: p.final_line,
        line_count: p.line_count,
        author: p.meta.author,
        author_mail: p.meta.author_mail,
        author_time: p.meta.author_time,
        summary: p.meta.summary,
        filename: p.meta.filename,
        boundary: p.meta.boundary,
        content,
    }
}

/// The parts of a header line: SHA (at least eight hex digits), original
/// line, final line, and the group size when present; `None` for any other
/// line.
pub open spec fn header_spec(line: Seq<char>) -> Option<(Seq<char>, u32, u32, Option<u32>)> {
    let parts = split_on(line, ' ');
    let sha = parts[0];
    if sha.len() < 8 || !(forall|i: int| 0 <= i < sha.len() ==> is_hex(#[trigger] sha[i])) {
        None
    } else if parts.len() < 3 || parse_u32_spec(parts[1]) is None || parse_u32_spec(
        parts[2],
    ) is None {
        None
    } else if parts.len() > 4 || (parts.len() == 4 && parse_u32_spec(parts[3]) is None) {
        None
    } else {
        Some(
            (
                sha,
                parse_u32_spec(parts[1])->0,
                parse_u32_spec(parts[2])->0,
                if parts.len() == 4 {
                    parse_u32_spec(parts[3])
                } else {
                    None
                },
            ),
        )
    }
}

/// A header `<sha> <a> <b>` gives the SHA, `a` as the line's number in the
/// original file and `b` as its number in the final file, with no line
/// count; a header `<sha> <a> <b> <n>` gives the same and the count `n`.
pub proof fn lemma_header_fields(sha: Seq<char>, a: u32, b: u32, n: u32)
    requires
        sha.len() >= 8,
        forall|i: int| 0 <= i < sha.len() ==> is_hex(#[trigger] sha[i]),
    ensures
        header_spec(sha + seq![' '] + decimal(a as nat) + seq![' '] + decimal(b as nat)) == Some(
            (sha, a, b, None::<u32>),
        ),
        header_spec(
            sha + seq![' '] + decimal(a as nat) + seq![' '] + decimal(b as nat) + seq![' ']
                + decimal(n as nat),
        ) == Some((sha, a, b, Some(n))),
{
    let da = decimal(a as nat);
    let db = decimal(b as nat);
    let dn = decimal(n as nat);
    lemma_decimal_digits(a as nat);
    lemma_decimal_digits(b as nat);
    lemma_decimal_digits(n as nat);
    lemma_parse_decimal(a as nat, u32::MAX as nat);
    lemma_parse_decimal(b as nat, u32::MAX as nat);
    lemma_parse_decimal(n as nat, u32::MAX as nat);
    let p1 = seq![sha];
    let p2 = seq![sha, da];
    let p3 = seq![sha, da, db];
    let p4 = seq![sha, da, db, dn];
    assert(p4.drop_last() =~= p3);
    assert(p3.drop_last() =~= p2);
    assert(p2.drop_last() =~= p1);
    assert(join_with(p1, seq![' ']) == sha);
    assert(join_with(p2, seq![' ']) == sha + seq![' '] + da);
    assert(join_with(p3, seq![' ']) == sha + seq![' '] + da + seq![' '] + db);
    assert(join_with(p4, seq![' ']) == sha + seq![' '] + da + seq![' '] + db + seq![' '] + dn);
    assert forall|i: int| 0 <= i < p4.len() implies !(#[trigger] p4[i]).contains(' ') by {
        let p = p4[i];
        if p.contains(' ') {
            let m = choose|m: int| 0 <= m < p.len() && p[m] == ' ';
            if i == 0 {
                assert(is_hex(sha[m]));
            } else if i == 1 {
                assert(is_digit(da[m]));
            } else if i == 2 {
                assert(is_digit(db[m]));
            } else {
                assert(is_digit(dn[m]));
            }
        }
    }
    assert forall|i: int| 0 <= i < p3.len() implies !(#[trigger] p3[i]).contains(' ') by {
        assert(p3[i] == p4[i]);
    }
    lemma_split_join(p3, ' ');
    lemma_split_join(p4, ' ');
}

fn parse_header(line: &Vec<char>) -> (r: Option<(String, u32, u32, Option<u32>)>)
    ensures
        match r {
            Some((sha, o, f, c)) => header_spec(line@) == Some((sha@, o, f, c)),
            None => header_spec(line@) is None,
        },
{
    let parts = split_char(line, ' ');
    let ghost pv = seq_views(parts@);
    proof {
        lemma_split_class_len(line@, CharClass::Exactly(' '));
    }
    assert(pv[0] == parts@[0]@);
    if parts[0].len() < 8 || !all_hex(&parts[0]) {
        return None;
    }
    if parts.len() < 3 {
        return None;
    }
    assert(pv[1] == parts@[1]@);
    assert(pv[2] == parts@[2]@);
    let original_line = parse_u32(&parts[1])?;
    let final_line = parse_u32(&parts[2])?;
    if parts.len() > 4 {
        return None;
    }
    let line_count = if parts.len() == 4 {
        assert(pv[3] == parts@[3]@);
        Some(parse_u32(&parts[3])?)
    } else {
        None
    };
    Some((text_of(&parts[0]), original_line, final_line, line_count))
}

/// Where a parse stands: the entries so far, the metadata remembered per
/// commit, and the header still waiting for its content.
pub struct BlameState {
    pub entries: Seq<BlameEntryView>,
    pub known: Map<Seq<char>, MetaView>,
    pub pending: Option<PendingView>,
}

/// Closes the open header, if any, into an entry with `content`, and
/// remembers its metadata.
pub open spec fn close_pending(st: BlameState, content: Option<Seq<char>>) -> BlameState {
    match st.pending {
        Some(p) => BlameState {
            entries: st.entries.push(finish_spec(p, content)),
            known: st.known.insert(p.sha, p.meta),
            pending: None,
        },
        None => st,
    }
}

/// The state after one line: a tab-led line is the content of the open
/// header; a header closes the open one without content and opens a new one
/// with what is remembered of its commit; any other line is metadata for
/// the open header.
pub open spec fn blame_step(st: BlameState, line: Seq<char>) -> BlameState {
    match strip_prefix_spec(line, "\t"@) {
        Some(content) => close_pending(st, Some(content)),
        None => match header_spec(line) {
            Some((sha, original_line, final_line, line_count)) => {
                let st2 = close_pending(st, None);
                BlameState {
                    pending: Some(
                        PendingView {
                            sha,
                            original_line,
                            final_line,
                            line_count,
                            meta: if st2.known.contains_key(sha) {
                                st2.known[sha]
                            } else {
                                no_meta()
                            },
                        },
                    ),
                    ..st2
                }
            },
            None => match st.pending {
                Some(p) => BlameState {
                    pending: Some(PendingView { meta: meta_apply(p.meta, line), ..p }),
                    ..st
                },
                None => st,
            },
        },
    }
}

/// The state after the lines `ls` from line `i` on.
pub open spec fn blame_from(ls: Seq<Seq<char>>, i: int, st: BlameState) -> BlameState
    decreases ls.len() - i,
{
    if i < 0 || i >= ls.len() {
        st
    } else {
        blame_from(ls, i + 1, blame_step(st, ls[i]))
    }
}

/// The key of a `<key> <value>` metadata line.
pub open spec fn meta_key(line: Seq<char>) -> Seq<char> {
    match split_once_spec(line, " "@) {
        Some(p) => p.0,
        None => line,
    }
}

/// A metadata line changes only the field its key names: every other
/// field keeps the value the entry had (inherited or set by an earlier
/// line of its group).
pub proof fn lemma_meta_apply_fields(m: MetaView, line: Seq<char>)
    ensures
        meta_key(line) != "author"@ ==> meta_apply(m, line).author == m.author,
        meta_key(line) != "author-mail"@ ==> meta_apply(m, line).author_mail == m.author_mail,
        meta_key(line) != "author-time"@ ==> meta_apply(m, line).author_time == m.author_time,
        meta_key(line) != "summary"@ ==> meta_apply(m, line).summary == m.summary,
        meta_key(line) != "filename"@ ==> meta_apply(m, line).filename == m.filename,
        meta_key(line) != "boundary"@ ==> meta_apply(m, line).boundary == m.boundary,
{
}

/// The metadata an entry carries.
pub open spec fn entry_meta(e: BlameEntryView) -> MetaView {
    MetaView {
        author: e.author,
        author_mail: e.author_mail,
        author_time: e.author_time,
        summary: e.summary,
        filename: e.filename,
        boundary: e.boundary,
    }
}

/// The metadata of the latest of the entries `es` for commit `sha`.
pub open spec fn latest_meta(es: Seq<BlameEntryView>, sha: Seq<char>) -> Option<MetaView>
    decreases es.len(),
{
    if es.len() == 0 {
        None
    } else if es.last().sha == sha {
        Some(entry_meta(es.last()))
    } else {
        latest_meta(es.drop_last(), sha)
    }
}

/// What a state remembers of each commit is the metadata of the latest
/// entry emitted for it, and it remembers exactly the commits emitted.
pub open spec fn remembers_latest(st: BlameState) -> bool {
    forall|sha: Seq<char>|
        #[trigger] st.known.contains_key(sha) == (latest_meta(st.entries, sha) is Some) && (
        st.known.contains_key(sha) ==> latest_meta(st.entries, sha) == Some(st.known[sha]))
}

/// The state before any line.
pub open spec fn blame_start() -> BlameState {
    BlameState { entries: Seq::empty(), known: Map::empty(), pending: None }
}

proof fn lemma_close_keeps(st: BlameState, content: Option<Seq<char>>)
    requires
        remembers_latest(st),
    ensures
        remembers_latest(close_pending(st, content)),
{
    if let Some(p) = st.pending {
        let st2 = close_pending(st, content);
        let e = finish_spec(p, content);
        assert(st2.entries.drop_last() =~= st.entries);
        assert(entry_meta(e) == p.meta);
        assert forall|sha: Seq<char>|
            #[trigger] st2.known.contains_key(sha) == (latest_meta(st2.entries, sha) is Some) && (
            st2.known.contains_key(sha) ==> latest_meta(st2.entries, sha) == Some(
                st2.known[sha],
            )) by {
            assert(st.known.contains_key(sha) == (latest_meta(st.entries, sha) is Some));
        }
    }
}

proof fn lemma_step_keeps(st: BlameState, line: Seq<char>)
    requires
        remembers_latest(st),
    ensures
        remembers_latest(blame_step(st, line)),
{
    lemma_close_keeps(st, None);
    if let Some(c) = strip_prefix_spec(line, "\t"@) {
        lemma_close_keeps(st, Some(c));
    }
}

proof fn lemma_from_keeps(ls: Seq<Seq<char>>, i: int, st: BlameState)
    requires
        remembers_latest(st),
    ensures
        remembers_latest(blame_from(ls, i, st)),
    decreases ls.len() - i,
{
    if 0 <= i < ls.len() {
        lemma_step_keeps(st, ls[i]);
        lemma_from_keeps(ls, i + 1, blame_step(st, ls[i]));
    }
}

/// Every state the parse passes through remembers, for each commit, the
/// metadata of the latest entry emitted for it: after the lines `ls`.
pub proof fn lemma_blame_remembers_latest(ls: Seq<Seq<char>>)
    ensures
        remembers_latest(blame_from(ls, 0, blame_start())),
{
    assert(remembers_latest(blame_start()));
    lemma_from_keeps(ls, 0, blame_start());
}

/// A header line for a commit already emitted opens its entry with the
/// metadata of the latest entry emitted for that commit (none known: no
/// metadata); the header itself gives SHA and line numbers, and the
/// group's own metadata lines then change the fields they name
/// ([`meta_apply`]).
pub proof fn lemma_blame_inherits(ls: Seq<Seq<char>>, line: Seq<char>)
    requires
        strip_prefix_spec(line, "\t"@) is None,
        header_spec(line) is Some,
    ensures
        ({
            let st = blame_from(ls, 0, blame_start());
            let (sha, original_line, final_line, line_count) = header_spec(line)->0;
            blame_step(st, line).pending == Some(
                PendingView {
                    sha,
                    original_line,
                    final_line,
                    line_count,
                    meta: match latest_meta(close_pending(st, None).entries, sha) {
                        Some(m) => m,
                        None => no_meta(),
                    },
                },
            )
        }),
{
    let st = blame_from(ls, 0, blame_start());
    lemma_blame_remembers_latest(ls);
    lemma_close_keeps(st, None);
    let st2 = close_pending(st, None);
    let (sha, o, f, c) = header_spec(line)->0;
    assert(st2.known.contains_key(sha) == (latest_meta(st2.entries, sha) is Some));
}

/// What `git blame` porcelain output `s` parses to.
pub open spec fn blame_spec(s: Seq<char>) -> Seq<BlameEntryView> {
    close_pending(
        blame_from(
            lines_of(s),
            0,
            BlameState { entries: Seq::empty(), known: Map::empty(), pending: None },
        ),
        None,
    ).entries
}

fn finish(pending: Pending, content: Option<String>, known: &mut KnownCommits) -> (r: BlameEntry)
    requires
        old(known).wf(),
    ensures
        final(known).wf(),
        final(known)@ == old(known)@.insert(pending.sha@, pending.meta@),
        r@ == finish_spec(pending@, opt_view(content)),
{
    let Pending { sha, original_line, final_line, line_count, meta } = pending;
    known.insert(sha.clone(), meta.duplicate());
    BlameEntry {
        sha,
        original_line,
        final_line,
        line_count,
        author: meta.author,
        author_mail: meta.author_mail,
        author_time: meta.author_time,
        summary: meta.summary,
        filename: meta.filename,
        boundary: meta.boundary,
        content,
    }
}

/// Parse the output of `git blame --porcelain` or `--line-porcelain`.
pub fn parse_blame(input: &str) -> (r: Vec<BlameEntry>)
    ensures
        seq_views(r@) == blame_spec(input@),
{
    let mut entries: Vec<BlameEntry> = Vec::new();
    let mut known = KnownCommits::new();
    let mut pending: Option<Pending> = None;
    let s = chars_of(input);
    let ls = lines(&s);
    let ghost lv = seq_views(ls@);
    let ghost init = BlameState { entries: Seq::empty(), known: Map::empty(), pending: None };
    assert(seq_views(entries@) =~= Seq::<BlameEntryView>::empty());
    let mut i: usize = 0;
    while i < ls.len()
        invariant
            lv == seq_views(ls@),
            lv == lines_of(input@),
            known.wf(),
            blame_from(lv, 0, init) == blame_from(
                lv,
                i as int,
                BlameState { entries: seq_views(entries@), known: known@, pending: opt_view(pending) },
            ),
        decreases ls.len() - i,
    {
        let ghost st = BlameState {
            entries: seq_views(entries@),
            known: known@,
            pending: opt_view(pending),
        };
        let line = &ls[i];
        assert(lv[i as int] == line@);
        if let Some(content) = strip_prefix(line, "\t") {
            if let Some(p) = pending {
                let e = finish(p, Some(text_of(&content)), &mut known);
                let ghost ev = e@;
                entries.push(e);
                assert(seq_views(entries@) =~= st.entries.push(ev));
            }
            pending = None;
            assert(blame_step(st, lv[i as int]) == BlameState {
                entries: seq_views(entries@),
                known: known@,
                pending: opt_view(pending),
            });
        } else if let Some((sha, original_line, final_line, line_count)) = parse_header(line) {
            if let Some(p) = pending {
                let e = finish(p, None, &mut known);
                let ghost ev = e@;
                entries.push(e);
                assert(seq_views(entries@) =~= st.entries.push(ev));
            }
            let meta = known.lookup(&sha);
            pending = Some(Pending { sha, original_line, final_line, line_count, meta });
            assert(blame_step(st, lv[i as int]) == BlameState {
                entries: seq_views(entries@),
                known: known@,
                pending: opt_view(pending),
            });
        } else {
            match pending {
                Some(mut p) => {
                    p.meta.apply(line);
                    pending = Some(p);
                },
                None => {
                    pending = None;
                },
            }
            assert(blame_step(st, lv[i as int]) == BlameState {
                entries: seq_views(entries@),
                known: known@,
                pending: opt_view(pending),
            });
        }
        i += 1;
    }
    let ghost st = BlameState {
        entries: seq_views(entries@),
        known: known@,
        pending: opt_view(pending),
    };
    if let Some(p) = pending {
        let e = finish(p, None, &mut known);
        let ghost ev = e@;
        entries.push(e);
        assert(seq_views(entries@) =~= st.entries.push(ev));
    }
    entries
}

} // verus!
