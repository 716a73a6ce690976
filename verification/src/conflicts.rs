//! Typed access to merge/rebase conflicts.
//!
//! Reached through [`Repository::conflicts`], which returns a [`ConflictOps`]
//! handle. Listing runs `git status --porcelain=v1 -z`, keeps the unmerged
//! entries, and classifies each one into a typed [`Conflict`]
//! ([`conflicts_in`]); resolving stages a path (`git add <path>`) to mark it
//! resolved.
//!
//! Classification comes from the porcelain `XY` status pair, so it reflects
//! whichever side(s) touched the path (see [`ConflictKind`]).
use vstd::prelude::*;

use crate::error::{is_parse_error, Result};
use crate::parse::status::{parse_status, status_spec, StatusEntry, StatusEntryView, StatusKind};
use crate::command::status::{StatusCommand, StatusFormat};
use crate::command::{push_text, start_args, GitCommand, IntoText};
use crate::repo::{scoped_executor, Repository};
use crate::text::seq_views;

verus! {

/// How a path is conflicted, read from the porcelain `XY` status pair.
///
/// "Us" is the branch being merged into (the current `HEAD`); "them" is the
/// branch being merged in. The variants mirror git's unmerged status codes.
#[derive(Debug, Clone, Copy, PartialEq, Eq)]
pub enum ConflictKind {
    /// Both sides modified the path (`UU`).
    BothModified,
    /// Both sides added the path (`AA`).
    BothAdded,
    /// Both sides deleted the path (`DD`).
    BothDeleted,
    /// We added the path; they left it unmerged (`AU`).
    AddedByUs,
    /// They added the path; we left it unmerged (`UA`).
    AddedByThem,
    /// We deleted the path; they modified it (`DU`).
    DeletedByUs,
    /// They deleted the path; we modified it (`UD`).
    DeletedByThem,
}

/// The conflict an `(index, worktree)` status pair stands for, when it is
/// one of git's seven unmerged combinations.
pub open spec fn conflict_kind_of(index: StatusKind, worktree: StatusKind) -> Option<ConflictKind> {
    match (index, worktree) {
        (StatusKind::Unmerged, StatusKind::Unmerged) => Some(ConflictKind::BothModified),
        (StatusKind::Added, StatusKind::Added) => Some(ConflictKind::BothAdded),
        (StatusKind::Deleted, StatusKind::Deleted) => Some(ConflictKind::BothDeleted),
        (StatusKind::Added, StatusKind::Unmerged) => Some(ConflictKind::AddedByUs),
        (StatusKind::Unmerged, StatusKind::Added) => Some(ConflictKind::AddedByThem),
        (StatusKind::Deleted, StatusKind::Unmerged) => Some(ConflictKind::DeletedByUs),
        (StatusKind::Unmerged, StatusKind::Deleted) => Some(ConflictKind::DeletedByThem),
        _ => None,
    }
}

impl ConflictKind {
    /// Classify an unmerged entry from its `(index, worktree)` status pair.
    ///
    /// Returns `None` for any pair that is not one of git's seven unmerged
    /// combinations, so this doubles as the filter that keeps only conflicted
    /// entries.
    pub fn from_pair(index: StatusKind, worktree: StatusKind) -> (r: Option<Self>)
        ensures
            r == conflict_kind_of(index, worktree),
    {
        match (index, worktree) {
            (StatusKind::Unmerged, StatusKind::Unmerged) => Some(Self::BothModified),
            (StatusKind::Added, StatusKind::Added) => Some(Self::BothAdded),
            (StatusKind::Deleted, StatusKind::Deleted) => Some(Self::BothDeleted),
            (StatusKind::Added, StatusKind::Unmerged) => Some(Self::AddedByUs),
            (StatusKind::Unmerged, StatusKind::Added) => Some(Self::AddedByThem),
            (StatusKind::Deleted, StatusKind::Unmerged) => Some(Self::DeletedByUs),
            (StatusKind::Unmerged, StatusKind::Deleted) => Some(Self::DeletedByThem),
            _ => None,
        }
    }
}

/// A single conflicted path in an in-progress merge or rebase.
#[derive(Debug, Clone, PartialEq, Eq)]
pub struct Conflict {
    /// The conflicted path, relative to the repository root.
    pub path: String,
    /// Which side(s) touched the path.
    pub kind: ConflictKind,
}

/// The abstract contents of a [`Conflict`].
pub struct ConflictView {
    pub path: Seq<char>,
    pub kind: ConflictKind,
}

impl View for Conflict {
    type V = ConflictView;

    open spec fn view(&self) -> ConflictView {
        ConflictView { path: self.path@, kind: self.kind }
    }
}

/// The conflicts among the status entries `es` from entry `i` on, after
/// those in `acc`, in order.
pub open spec fn conflicts_from(es: Seq<StatusEntryView>, i: int, acc: Seq<ConflictView>) -> Seq<
    ConflictView,
>
    decreases es.len() - i,
{
    if i < 0 || i >= es.len() {
        acc
    } else {
        match conflict_kind_of(es[i].index, es[i].worktree) {
            Some(kind) => conflicts_from(es, i + 1, acc.push(ConflictView { path: es[i].path, kind })),
            None => conflicts_from(es, i + 1, acc),
        }
    }
}

/// Keep the unmerged status entries, classified, in order.
pub fn conflicts_in(entries: Vec<StatusEntry>) -> (r: Vec<Conflict>)
    ensures
        seq_views(r@) == conflicts_from(seq_views(entries@), 0, Seq::empty()),
{
    let ghost ev = seq_views(entries@);
    let mut out: Vec<Conflict> = Vec::new();
    let mut i: usize = 0;
    assert(seq_views(out@) =~= Seq::<ConflictView>::empty());
    while i < entries.len()
        invariant
            ev == seq_views(entries@),
            conflicts_from(ev, 0, Seq::empty()) == conflicts_from(ev, i as int, seq_views(out@)),
        decreases entries.len() - i,
    {
        assert(ev[i as int] == entries@[i as int]@);
        let e = &entries[i];
        if let Some(kind) = ConflictKind::from_pair(e.index, e.worktree) {
            let ghost acc = seq_views(out@);
            let c = Conflict { path: e.path.clone(), kind };
            let ghost cv = c@;
            out.push(c);
            assert(seq_views(out@) =~= acc.push(cv));
        }
        i += 1;
    }
    out
}

/// The conflict a status entry stands for, when its pair is one of git's
/// unmerged combinations.
pub open spec fn conflict_of(e: StatusEntryView) -> Option<ConflictView> {
    match conflict_kind_of(e.index, e.worktree) {
        Some(kind) => Some(ConflictView { path: e.path, kind }),
        None => None,
    }
}

proof fn lemma_conflicts_prefix(es: Seq<StatusEntryView>, i: int)
    requires
        0 <= i <= es.len(),
    ensures
        conflicts_from(es, 0, Seq::empty()) == conflicts_from(
            es,
            i,
            es.take(i).filter_map(|e: StatusEntryView| conflict_of(e)),
        ),
    decreases i,
{
    if i == 0 {
        assert(es.take(0) =~= Seq::<StatusEntryView>::empty());
    } else {
        lemma_conflicts_prefix(es, i - 1);
        let f = |e: StatusEntryView| conflict_of(e);
        assert(es.take(i).drop_last() =~= es.take(i - 1));
        assert(es.take(i).last() == es[i - 1]);
        let prev = es.take(i - 1).filter_map(f);
        match conflict_of(es[i - 1]) {
            Some(c) => {
                assert(prev.push(c) =~= prev + seq![c]);
            },
            None => {},
        }
    }
}

/// Listing conflicts keeps exactly the status entries whose `(index,
/// worktree)` pair [`ConflictKind::from_pair`] classifies, each turned into
/// a [`Conflict`] of that kind on the same path, in their order.
pub proof fn lemma_conflicts_are_classified_entries(es: Seq<StatusEntryView>)
    ensures
        conflicts_from(es, 0, Seq::empty()) == es.filter_map(|e: StatusEntryView| conflict_of(e)),
{
    lemma_conflicts_prefix(es, es.len() as int);
    assert(es.take(es.len() as int) =~= es);
}

/// The conflicts in the output of `git status --porcelain=v1 -z`: the
/// entries [`parse_status`] reads, those that [`ConflictKind::from_pair`]
/// classifies, in order; a parse error is returned as is.
pub fn conflicts_in_status(stdout: &str) -> (r: Result<Vec<Conflict>>)
    ensures
        match status_spec(stdout@) {
            Ok(es) => r matches Ok(v) && seq_views(v@) == es.filter_map(
                |e: StatusEntryView| conflict_of(e),
            ),
            Err(m) => r matches Err(e) && is_parse_error(e, m),
        },
{
    let entries = parse_status(stdout)?;
    let r = conflicts_in(entries);
    proof {
        lemma_conflicts_are_classified_entries(status_spec(stdout@)->Ok_0);
    }
    Ok(r)
}

/// High-level conflict inspection and resolution, scoped to a [`Repository`].
#[derive(Debug)]
pub struct ConflictOps<'a> {
    repo: &'a Repository,
}

impl<'a> View for ConflictOps<'a> {
    type V = Seq<char>;

    /// The working-tree path of the repository the operations act on.
    closed spec fn view(&self) -> Seq<char> {
        self.repo@
    }
}

impl<'a> ConflictOps<'a> {
    /// The repository the operations act on.
    pub fn repo(&self) -> (r: &'a Repository)
        ensures
            r@ == self@,
    {
        self.repo
    }

    /// `git status --porcelain=v1 -z`, whose parsed entries
    /// ([`parse_status`](crate::parse::status::parse_status)) go to
    /// [`conflicts_in`].
    pub fn list_command(&self) -> (r: StatusCommand)
        ensures
            r.executor@ == scoped_executor(self@),
            r.args_spec() == seq!["status"@, "--porcelain=v1"@, "-z"@],
    {
        let mut cmd = StatusCommand::new();
        cmd.format(StatusFormat::PorcelainV1);
        cmd.null_terminate();
        assert(cmd.args_spec() =~= seq!["status"@, "--porcelain=v1"@, "-z"@]);
        let ghost c1 = cmd;
        cmd.current_dir(self.repo.path());
        proof {
            c1.lemma_args_ignore_executor(cmd.executor);
        }
        cmd
    }

    /// The arguments after `git` that mark `path` resolved by staging it:
    /// `add <path>`, run in the repository's working tree.
    pub fn resolve_args(&self, path: impl IntoText) -> (r: Vec<String>)
        ensures
            seq_views(r@) == seq!["add"@, path.text()],
    {
        let mut args = start_args("add");
        let p = path.into_text();
        push_text(&mut args, &p);
        args
    }
}

impl Repository {
    /// Typed access to merge/rebase conflicts.
    pub fn conflicts(&self) -> (r: ConflictOps<'_>)
        ensures
            r@ == self@,
    {
        ConflictOps { repo: self }
    }
}

} // verus!
