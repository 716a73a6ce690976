//! Typed access to the stash stack.
//!
//! Reached through [`Repository::stashes`], which returns a [`StashOps`]
//! handle. Listing runs `git stash list` with a machine-readable format
//! ([`StashOps::list_command`]) and parses it into typed [`StashEntry`]
//! values ([`parse_stash_list`]); the mutating operations
//! ([`push_command`](StashOps::push_command),
//! [`pop_command`](StashOps::pop_command), and friends) are raw
//! [`StashCommand`]s scoped to the repository.
use vstd::prelude::*;

use crate::command::stash::{StashActionView, StashCommand};
use crate::command::{push_lit, start_args, ExecutorView, GitCommand, IntoText};
use crate::repo::{scoped_executor, Repository};
use crate::text::{
    chars_of, decimal, decimal_text, lemma_decimal_digits, lemma_find_from_first,
    lemma_parse_decimal, matches_at, contains_str, in_class, is_digit, lemma_find_class_first,
    lemma_find_from_none, has_prefix, parse_usize, parse_usize_spec, seq_views, split_char,
    split_on, split_once, split_once_spec, splitn_char, splitn_class, strip_prefix,
    strip_prefix_spec, strip_suffix, strip_suffix_spec, text_of, CharClass,
};

verus! {

/// A single entry on the stash stack, as reported by `git stash list`.
#[derive(Debug, Clone, PartialEq, Eq)]
pub struct StashEntry {
    /// Stack position: the `N` in `stash@{N}`. `0` is the most recent stash.
    pub index: usize,
    /// Branch the stash was created on, e.g. `main`. Git reports `(no branch)`
    /// for a stash made on a detached HEAD.
    pub branch: String,
    /// The stash subject: a custom message when one was given, otherwise the
    /// auto-generated `<short-sha> <commit-subject>`.
    pub subject: String,
    /// Full commit SHA of the stash commit.
    pub sha: String,
}

/// The abstract contents of a [`StashEntry`].
pub struct StashEntryView {
    pub index: usize,
    pub branch: Seq<char>,
    pub subject: Seq<char>,
    pub sha: Seq<char>,
}

impl View for StashEntry {
    type V = StashEntryView;

    open spec fn view(&self) -> StashEntryView {
        StashEntryView {
            index: self.index,
            branch: self.branch@,
            subject: self.subject@,
            sha: self.sha@,
        }
    }
}

impl Default for StashEntry {
    fn default() -> (r: Self)
        ensures
            r.index == 0,
            r.branch@.len() == 0,
            r.subject@.len() == 0,
            r.sha@.len() == 0,
    {
        StashEntry { index: 0, branch: String::new(), subject: String::new(), sha: String::new() }
    }
}

/// High-level stash inspection and manipulation, scoped to a [`Repository`].
#[derive(Debug)]
pub struct StashOps<'a> {
    repo: &'a Repository,
}

impl<'a> View for StashOps<'a> {
    type V = Seq<char>;

    /// The working-tree path of the repository the operations act on.
    closed spec fn view(&self) -> Seq<char> {
        self.repo@
    }
}

/// The `--format` that [`StashOps::list_command`] asks for: reflog
/// selector, full SHA and reflog subject, separated by U+001F.
pub open spec fn list_format() -> Seq<char> {
    "--format=%gd%x1f%H%x1f%gs"@
}

impl<'a> StashOps<'a> {
    /// The repository the operations act on.
    pub fn repo(&self) -> (r: &'a Repository)
        ensures
            r@ == self@,
    {
        self.repo
    }

    /// `git stash list -z --format=%gd%x1f%H%x1f%gs`: NUL-terminated
    /// records of unit-separated fields (reflog selector, full SHA, reflog
    /// subject), most recent first. Its output goes to [`parse_stash_list`].
    pub fn list_command(&self) -> (r: StashCommand)
        ensures
            r.action@ == StashActionView::List,
            r.executor@ == (ExecutorView {
                extra_args: seq!["-z"@, list_format()],
                ..scoped_executor(self@)
            }),
    {
        let mut cmd = self.repo.stash(StashCommand::list());
        let mut extra = start_args("-z");
        push_lit(&mut extra, "--format=%gd%x1f%H%x1f%gs");
        let ghost e0 = cmd.executor@;
        cmd.args(extra);
        assert(e0.extra_args =~= Seq::<Seq<char>>::empty());
        assert(cmd.executor@.extra_args =~= seq!["-z"@, list_format()]);
        cmd
    }

    /// Stash the working-tree changes with `message`: `git stash push -m
    /// <message>`. Git fails when there is nothing to stash.
    pub fn push_command(&self, message: impl IntoText) -> (r: StashCommand)
        ensures
            r.action@ == (StashActionView::Push {
                message: Some(message.text()),
                include_untracked: false,
                keep_index: false,
            }),
            r.executor@ == scoped_executor(self@),
    {
        self.repo.stash(StashCommand::push().message(message))
    }

    /// Apply the stash at `index` and remove it from the stack:
    /// `git stash pop stash@{<index>}`.
    pub fn pop_command(&self, index: usize) -> (r: StashCommand)
        ensures
            r.action@ == StashActionView::Pop(Some(stash_ref_text(index as nat))),
            r.executor@ == scoped_executor(self@),
    {
        self.repo.stash(StashCommand::pop(Some(stash_ref(index))))
    }

    /// Apply the stash at `index`, leaving it on the stack:
    /// `git stash apply stash@{<index>}`.
    pub fn apply_command(&self, index: usize) -> (r: StashCommand)
        ensures
            r.action@ == StashActionView::Apply(Some(stash_ref_text(index as nat))),
            r.executor@ == scoped_executor(self@),
    {
        self.repo.stash(StashCommand::apply(Some(stash_ref(index))))
    }

    /// Drop the stash at `index` without applying it:
    /// `git stash drop stash@{<index>}`.
    pub fn drop_command(&self, index: usize) -> (r: StashCommand)
        ensures
            r.action@ == StashActionView::Drop(Some(stash_ref_text(index as nat))),
            r.executor@ == scoped_executor(self@),
    {
        self.repo.stash(StashCommand::drop_stash(Some(stash_ref(index))))
    }

    /// Remove every entry from the stash stack: `git stash clear`.
    pub fn clear_command(&self) -> (r: StashCommand)
        ensures
            r.action@ == StashActionView::Clear,
            r.executor@ == scoped_executor(self@),
    {
        self.repo.stash(StashCommand::clear())
    }
}

impl Repository {
    /// Typed access to the stash stack.
    pub fn stashes(&self) -> (r: StashOps<'_>)
        ensures
            r@ == self@,
    {
        StashOps { repo: self }
    }
}

/// `stash@{<index>}`, the revision syntax the raw command expects.
pub open spec fn stash_ref_text(index: nat) -> Seq<char> {
    "stash@{"@ + decimal(index) + "}"@
}

/// `stash@{<index>}`, the revision syntax the raw command expects.
pub fn stash_ref(index: usize) -> (r: String)
    ensures
        r@ == stash_ref_text(index as nat),
{
    let n = decimal_text(index as u64);
    "stash@{".to_owned().concat(n.as_str()).concat("}")
}

/// The selector `stash@{N}` that [`stash_ref`] writes reads back as `N`.
pub proof fn lemma_stash_ref_index(index: usize)
    ensures
        selector_index(stash_ref_text(index as nat)) == Some(index),
{
    reveal_strlit("stash@{");
    reveal_strlit("{");
    reveal_strlit("}");
    let d = decimal(index as nat);
    let s = stash_ref_text(index as nat);
    lemma_decimal_digits(index as nat);
    lemma_parse_decimal(index as nat, usize::MAX as nat);
    assert(s.len() == 8 + d.len());
    assert(s[6] == '{');
    assert(s.subrange(6, 7) =~= "{"@);
    assert forall|j: int| 0 <= j < 6 implies !matches_at(s, "{"@, j) by {
        assert(s.subrange(j, j + 1)[0] == s[j]);
    }
    lemma_find_from_first(s, "{"@, 0, 6);
    let rest = s.skip(7);
    assert(rest =~= d + "}"@);
    assert(rest.skip(rest.len() - 1) =~= "}"@);
    assert(rest.take(rest.len() - 1) =~= d);
}

/// The `N` of a reflog selector `...{N}`: the text after the first `{`,
/// which must end in `}` and hold a `usize` before it.
pub open spec fn selector_index(selector: Seq<char>) -> Option<usize> {
    match split_once_spec(selector, "{"@) {
        None => None,
        Some((_, rest)) => match strip_suffix_spec(rest, "}"@) {
            None => None,
            Some(n) => parse_usize_spec(n),
        },
    }
}

/// The branch named by the part of a reflog subject before `": "`:
/// after `WIP on ` or `On `, or the whole part when it has neither.
pub open spec fn branch_of(prefix: Seq<char>) -> Seq<char> {
    match strip_prefix_spec(prefix, "WIP on "@) {
        Some(b) => b,
        None => match strip_prefix_spec(prefix, "On "@) {
            Some(b) => b,
            None => prefix,
        },
    }
}

/// The entry one `stash@{N}<US><sha><US><reflog subject>` record stands
/// for, if it is well formed.
pub open spec fn entry_spec(record: Seq<char>) -> Option<StashEntryView> {
    let fields = splitn_class(record, 3, CharClass::Exactly('\u{1f}'));
    if fields.len() < 3 {
        None
    } else {
        match selector_index(fields[0]) {
            None => None,
            Some(index) => {
                let (branch, subject) = match split_once_spec(fields[2], ": "@) {
                    Some((prefix, rest)) => (branch_of(prefix), rest),
                    None => (Seq::empty(), fields[2]),
                };
                Some(StashEntryView { index, branch, subject, sha: fields[1] })
            },
        }
    }
}

/// The reflog subject git writes for a stash made on `branch`:
/// `WIP on <branch>: <message>` for an automatic message, `On <branch>:
/// <message>` for one given with `-m`.
pub open spec fn stash_subject(wip: bool, branch: Seq<char>, message: Seq<char>) -> Seq<char> {
    (if wip {
        "WIP on "@
    } else {
        "On "@
    }) + branch + ": "@ + message
}

/// The record `git stash list -z --format=%gd%x1f%H%x1f%gs` writes for the
/// stash at `index`.
pub open spec fn stash_record(index: nat, sha: Seq<char>, subject: Seq<char>) -> Seq<char> {
    stash_ref_text(index) + seq!['\u{1f}'] + sha + seq!['\u{1f}'] + subject
}

/// A record of the stash at `index` reads back as that index, SHA, branch
/// and message, when the SHA holds no unit separator and the branch name
/// no `": "`.
pub proof fn lemma_stash_record(
    index: usize,
    sha: Seq<char>,
    wip: bool,
    branch: Seq<char>,
    message: Seq<char>,
)
    requires
        !sha.contains('\u{1f}'),
        !contains_str(branch, ": "@),
    ensures
        entry_spec(stash_record(index as nat, sha, stash_subject(wip, branch, message))) == Some(
            StashEntryView { index, branch, subject: message, sha },
        ),
{
    reveal_strlit("stash@{");
    reveal_strlit("}");
    reveal_strlit(": ");
    reveal_strlit("WIP on ");
    reveal_strlit("On ");
    let us = CharClass::Exactly('\u{1f}');
    let sel = stash_ref_text(index as nat);
    let d = decimal(index as nat);
    lemma_decimal_digits(index as nat);
    lemma_stash_ref_index(index);
    let head: Seq<char> = if wip {
        "WIP on "@
    } else {
        "On "@
    };
    let subject = stash_subject(wip, branch, message);
    let record = stash_record(index as nat, sha, subject);
    // The selector ends at the first unit separator.
    assert forall|m: int| 0 <= m < sel.len() implies !in_class(#[trigger] record[m], us) by {
        assert(record[m] == sel[m]);
        if 7 <= m < 7 + d.len() {
            assert(sel[m] == d[m - 7]);
            assert(is_digit(d[m - 7]));
        }
    }
    assert(record[sel.len() as int] == '\u{1f}');
    lemma_find_class_first(record, us, 0, sel.len() as int);
    let r1 = record.skip(sel.len() as int + 1);
    assert(r1 =~= sha + seq!['\u{1f}'] + subject);
    assert(record.take(sel.len() as int) =~= sel);
    // The SHA ends at the second.
    assert forall|m: int| 0 <= m < sha.len() implies !in_class(#[trigger] r1[m], us) by {
        assert(r1[m] == sha[m]);
        if r1[m] == '\u{1f}' {
            assert(sha.contains('\u{1f}'));
        }
    }
    assert(r1[sha.len() as int] == '\u{1f}');
    lemma_find_class_first(r1, us, 0, sha.len() as int);
    assert(r1.take(sha.len() as int) =~= sha);
    assert(r1.skip(sha.len() as int + 1) =~= subject);
    assert(splitn_class(subject, 1, us) == seq![subject]);
    assert(splitn_class(r1, 2, us) == seq![sha] + splitn_class(subject, 1, us));
    assert(splitn_class(record, 3, us) == seq![sel] + splitn_class(r1, 2, us));
    assert(splitn_class(record, 3, us) =~= seq![sel, sha, subject]);
    // The subject splits at the first ": ", right after the branch.
    let sep = ": "@;
    let k: int = head.len() as int + branch.len() as int;
    lemma_find_from_none(branch, sep, 0);
    assert(subject.subrange(k, k + 2) =~= sep);
    assert forall|j: int| 0 <= j < k implies !matches_at(subject, sep, j) by {
        if j < head.len() {
            assert(subject[j] == head[j]);
            assert(subject.subrange(j, j + 2)[0] == subject[j]);
        } else if j + 2 <= k {
            assert(subject.subrange(j, j + 2) =~= branch.subrange(j - head.len(), j - head.len() + 2));
            assert(!matches_at(branch, sep, j - head.len()));
        } else {
            assert(subject[j + 1] == ':');
            assert(subject.subrange(j, j + 2)[1] == subject[j + 1]);
        }
    }
    lemma_find_from_first(subject, sep, 0, k);
    let prefix = subject.take(k);
    assert(prefix =~= head + branch);
    assert(subject.skip(k + 2) =~= message);
    // The branch follows `WIP on ` or `On `.
    if wip {
        assert(prefix.take(7) =~= "WIP on "@);
        assert(prefix.skip(7) =~= branch);
    } else {
        assert(prefix[0] == 'O');
        assert(!has_prefix(prefix, "WIP on "@)) by {
            if 7 <= prefix.len() {
                assert(prefix.take(7)[0] == prefix[0]);
            }
        }
        assert(prefix.take(3) =~= "On "@);
        assert(prefix.skip(3) =~= branch);
    }
}

/// The entries of the records `rs` from record `i` on: empty and
/// malformed records are skipped.
pub open spec fn entries_from(rs: Seq<Seq<char>>, i: int) -> Seq<StashEntryView>
    decreases rs.len() - i,
{
    if i < 0 || i >= rs.len() {
        Seq::empty()
    } else if rs[i].len() == 0 {
        entries_from(rs, i + 1)
    } else {
        match entry_spec(rs[i]) {
            Some(e) => seq![e] + entries_from(rs, i + 1),
            None => entries_from(rs, i + 1),
        }
    }
}

/// What `git stash list -z --format=%gd%x1f%H%x1f%gs` output `s` lists.
pub open spec fn stash_list_spec(s: Seq<char>) -> Seq<StashEntryView> {
    entries_from(split_on(s, '\0'), 0)
}

fn selector_index_of(selector: &Vec<char>) -> (r: Option<usize>)
    ensures
        r == selector_index(selector@),
{
    let (_, rest) = match split_once(selector, "{") {
        Some(p) => p,
        None => {
            return None;
        },
    };
    let n = match strip_suffix(&rest, "}") {
        Some(n) => n,
        None => {
            return None;
        },
    };
    parse_usize(&n)
}

fn branch_from(prefix: &Vec<char>) -> (r: Vec<char>)
    ensures
        r@ == branch_of(prefix@),
{
    match strip_prefix(prefix, "WIP on ") {
        Some(b) => b,
        None => match strip_prefix(prefix, "On ") {
            Some(b) => b,
            None => prefix.clone(),
        },
    }
}

fn entry_of(record: &Vec<char>) -> (r: Option<StashEntry>)
    ensures
        match r {
            Some(e) => entry_spec(record@) == Some(e@),
            None => entry_spec(record@) is None,
        },
{
    let fields = splitn_char(record, 3, '\u{1f}');
    assert(seq_views(fields@).len() == fields.len());
    if fields.len() < 3 {
        return None;
    }
    assert(seq_views(fields@)[0] == fields@[0]@);
    assert(seq_views(fields@)[1] == fields@[1]@);
    assert(seq_views(fields@)[2] == fields@[2]@);
    let index = match selector_index_of(&fields[0]) {
        Some(i) => i,
        None => {
            return None;
        },
    };
    let (branch, subject) = match split_once(&fields[2], ": ") {
        Some((prefix, rest)) => (text_of(&branch_from(&prefix)), text_of(&rest)),
        None => (String::new(), text_of(&fields[2])),
    };
    Some(StashEntry { index, branch, subject, sha: text_of(&fields[1]) })
}

/// Parse one `stash@{N}<US><sha><US><reflog subject>` record.
///
/// Reflog subjects look like `WIP on main: <auto>` or `On main: <message>`;
/// the branch is read from the part before the first `": "`.
pub fn parse_entry(record: &str) -> (r: Option<StashEntry>)
    ensures
        match r {
            Some(e) => entry_spec(record@) == Some(e@),
            None => entry_spec(record@) is None,
        },
{
    entry_of(&chars_of(record))
}

/// Parse the NUL-terminated, unit-separated output of
/// `git stash list -z --format=%gd%x1f%H%x1f%gs`.
///
/// Records that are empty or malformed are skipped.
pub fn parse_stash_list(stdout: &str) -> (r: Vec<StashEntry>)
    ensures
        seq_views(r@) == stash_list_spec(stdout@),
{
    let s = chars_of(stdout);
    let rs = split_char(&s, '\0');
    let ghost rv = seq_views(rs@);
    let mut out: Vec<StashEntry> = Vec::new();
    let mut i: usize = 0;
    assert(seq_views(out@) =~= Seq::<StashEntryView>::empty());
    while i < rs.len()
        invariant
            rv == seq_views(rs@),
            rv == split_on(stdout@, '\0'),
            i <= rs.len(),
            seq_views(out@) + entries_from(rv, i as int) == stash_list_spec(stdout@),
        decreases rs.len() - i,
    {
        let rec = &rs[i];
        assert(rv[i as int] == rec@);
        let ghost before = seq_views(out@);
        if rec.len() > 0 {
            match entry_of(rec) {
                Some(e) => {
                    let ghost ev = e@;
                    out.push(e);
                    assert(seq_views(out@) =~= before.push(ev));
                    assert(before.push(ev) + entries_from(rv, i + 1) =~= before + (seq![ev]
                        + entries_from(rv, i + 1)));
                },
                None => {},
            }
        }
        i += 1;
    }
    assert(seq_views(out@) + entries_from(rv, i as int) =~= seq_views(out@));
    out
}

} // verus!
