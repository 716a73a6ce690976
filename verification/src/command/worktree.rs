//! `git worktree` — manage multiple working trees attached to the same repository.
use vstd::prelude::*;

use crate::command::{
    blank_executor, flag, opt_one, opt_pair, push_flag, push_lit, push_one, push_pair, push_text,
    start_args, CommandExecutor, GitCommand, IntoText,
};
use crate::text::{opt_view, seq_views};

verus! {

/// Actions supported by `git worktree`.
#[derive(Debug, Clone)]
pub enum WorktreeAction {
    /// `git worktree add [-b <branch>] [--detach] [--force] <path> [<commit-ish>]`.
    Add {
        /// Path for the new worktree.
        path: String,
        /// Commit-ish to check out.
        commit_ish: Option<String>,
        /// `-b <branch>` create a new branch.
        new_branch: Option<String>,
        /// `--detach`.
        detach: bool,
        /// `--force`.
        force: bool,
        /// `--track`.
        track: bool,
    },
    /// `git worktree list [--porcelain]`.
    List {
        /// Emit porcelain format.
        porcelain: bool,
    },
    /// `git worktree remove <path>`.
    Remove {
        /// Worktree path.
        path: String,
        /// `--force`.
        force: bool,
    },
    /// `git worktree prune`.
    Prune {
        /// `-v` verbose.
        verbose: bool,
        /// `--dry-run`.
        dry_run: bool,
    },
    /// `git worktree move <source> <destination>`.
    Move {
        /// Current worktree path.
        source: String,
        /// New path.
        destination: String,
    },
    /// `git worktree lock <path> [--reason <s>]`.
    Lock {
        /// Worktree path.
        path: String,
        /// Optional reason.
        reason: Option<String>,
    },
    /// `git worktree unlock <path>`.
    Unlock {
        /// Worktree path.
        path: String,
    },
}

/// The abstract contents of a [`WorktreeAction`].
pub enum WorktreeActionView {
    Add {
        path: Seq<char>,
        commit_ish: Option<Seq<char>>,
        new_branch: Option<Seq<char>>,
        detach: bool,
        force: bool,
        track: bool,
    },
    List { porcelain: bool },
    Remove { path: Seq<char>, force: bool },
    Prune { verbose: bool, dry_run: bool },
    Move { source: Seq<char>, destination: Seq<char> },
    Lock { path: Seq<char>, reason: Option<Seq<char>> },
    Unlock { path: Seq<char> },
}

impl View for WorktreeAction {
    type V = WorktreeActionView;

    open spec fn view(&self) -> WorktreeActionView {
        match self {
            WorktreeAction::Add { path, commit_ish, new_branch, detach, force, track } =>
                WorktreeActionView::Add {
                path: path@,
                commit_ish: opt_view(*commit_ish),
                new_branch: opt_view(*new_branch),
                detach: *detach,
                force: *force,
                track: *track,
            },
            WorktreeAction::List { porcelain } => WorktreeActionView::List { porcelain: *porcelain },
            WorktreeAction::Remove { path, force } => WorktreeActionView::Remove {
                path: path@,
                force: *force,
            },
            WorktreeAction::Prune { verbose, dry_run } => WorktreeActionView::Prune {
                verbose: *verbose,
                dry_run: *dry_run,
            },
            WorktreeAction::Move { source, destination } => WorktreeActionView::Move {
                source: source@,
                destination: destination@,
            },
            WorktreeAction::Lock { path, reason } => WorktreeActionView::Lock {
                path: path@,
                reason: opt_view(*reason),
            },
            WorktreeAction::Unlock { path } => WorktreeActionView::Unlock { path: path@ },
        }
    }
}

/// The arguments of `worktree add`.
pub open spec fn add_args(
    path: Seq<char>,
    commit_ish: Option<Seq<char>>,
    new_branch: Option<Seq<char>>,
    detach: bool,
    force: bool,
    track: bool,
) -> Seq<Seq<char>> {
    seq!["add"@] + flag(force, "--force"@) + flag(detach, "--detach"@) + flag(track, "--track"@)
        + opt_pair("-b"@, new_branch) + seq![path] + opt_one(commit_ish)
}

/// The arguments that follow `worktree` for an action.
pub open spec fn action_args(a: WorktreeActionView) -> Seq<Seq<char>> {
    match a {
        WorktreeActionView::Add { path, commit_ish, new_branch, detach, force, track } => add_args(
            path,
            commit_ish,
            new_branch,
            detach,
            force,
            track,
        ),
        WorktreeActionView::List { porcelain } => seq!["list"@] + flag(porcelain, "--porcelain"@),
        WorktreeActionView::Remove { path, force } => seq!["remove"@] + flag(force, "--force"@)
            + seq![path],
        WorktreeActionView::Prune { verbose, dry_run } => seq!["prune"@] + flag(verbose, "-v"@)
            + flag(dry_run, "--dry-run"@),
        WorktreeActionView::Move { source, destination } => seq!["move"@, source, destination],
        WorktreeActionView::Lock { path, reason } => seq!["lock"@] + opt_pair("--reason"@, reason)
            + seq![path],
        WorktreeActionView::Unlock { path } => seq!["unlock"@, path],
    }
}

/// The action with its commit-ish set, where it is `add`.
pub open spec fn set_commit_ish(a: WorktreeActionView, c: Seq<char>) -> WorktreeActionView {
    match a {
        WorktreeActionView::Add { path, commit_ish: _, new_branch, detach, force, track } =>
            WorktreeActionView::Add { path, commit_ish: Some(c), new_branch, detach, force, track },
        _ => a,
    }
}

/// The action with its new branch set, where it is `add`.
pub open spec fn set_new_branch(a: WorktreeActionView, b: Seq<char>) -> WorktreeActionView {
    match a {
        WorktreeActionView::Add { path, commit_ish, new_branch: _, detach, force, track } =>
            WorktreeActionView::Add { path, commit_ish, new_branch: Some(b), detach, force, track },
        _ => a,
    }
}

/// The action with `--detach` set, where it is `add`.
pub open spec fn set_detach(a: WorktreeActionView) -> WorktreeActionView {
    match a {
        WorktreeActionView::Add { path, commit_ish, new_branch, detach: _, force, track } =>
            WorktreeActionView::Add { path, commit_ish, new_branch, detach: true, force, track },
        _ => a,
    }
}

/// The action with `--force` set, where it is `add` or `remove`.
pub open spec fn set_force(a: WorktreeActionView) -> WorktreeActionView {
    match a {
        WorktreeActionView::Add { path, commit_ish, new_branch, detach, force: _, track } =>
            WorktreeActionView::Add { path, commit_ish, new_branch, detach, force: true, track },
        WorktreeActionView::Remove { path, force: _ } => WorktreeActionView::Remove {
            path,
            force: true,
        },
        _ => a,
    }
}

/// The action with its reason set, where it is `lock`.
pub open spec fn set_reason(a: WorktreeActionView, r: Seq<char>) -> WorktreeActionView {
    match a {
        WorktreeActionView::Lock { path, reason: _ } => WorktreeActionView::Lock {
            path,
            reason: Some(r),
        },
        _ => a,
    }
}

/// Builder for `git worktree`.
///
/// An option that does not apply to the selected action is ignored.
#[derive(Debug, Clone)]
pub struct WorktreeCommand {
    /// Shared executor.
    pub executor: CommandExecutor,
    /// Action.
    pub action: WorktreeAction,
}

impl WorktreeCommand {
    fn with_action(action: WorktreeAction) -> (r: Self)
        ensures
            r.executor@ == blank_executor(),
            r.action == action,
    {
        WorktreeCommand { executor: CommandExecutor::new(), action }
    }

    /// `worktree add`.
    pub fn add(path: impl IntoText) -> (r: Self)
        ensures
            r.executor@ == blank_executor(),
            r.action@ == (WorktreeActionView::Add {
                path: path.text(),
                commit_ish: None,
                new_branch: None,
                detach: false,
                force: false,
                track: false,
            }),
    {
        Self::with_action(
            WorktreeAction::Add {
                path: path.into_text(),
                commit_ish: None,
                new_branch: None,
                detach: false,
                force: false,
                track: false,
            },
        )
    }

    /// Check out `commit_ish` in the new worktree (requires [`add`](Self::add)).
    pub fn commit_ish(self, c: impl IntoText) -> (r: Self)
        ensures
            r.executor == self.executor,
            r.action@ == set_commit_ish(self.action@, c.text()),
    {
        let c = c.into_text();
        let WorktreeCommand { executor, action } = self;
        let action = match action {
            WorktreeAction::Add { path, commit_ish: _, new_branch, detach, force, track } =>
                WorktreeAction::Add { path, commit_ish: Some(c), new_branch, detach, force, track },
            other => other,
        };
        WorktreeCommand { executor, action }
    }

    /// Create a new branch at the new worktree (requires [`add`](Self::add)).
    pub fn new_branch(self, b: impl IntoText) -> (r: Self)
        ensures
            r.executor == self.executor,
            r.action@ == set_new_branch(self.action@, b.text()),
    {
        let b = b.into_text();
        let WorktreeCommand { executor, action } = self;
        let action = match action {
            WorktreeAction::Add { path, commit_ish, new_branch: _, detach, force, track } =>
                WorktreeAction::Add { path, commit_ish, new_branch: Some(b), detach, force, track },
            other => other,
        };
        WorktreeCommand { executor, action }
    }

    /// `--detach` (requires [`add`](Self::add)).
    pub fn detach(self) -> (r: Self)
        ensures
            r.executor == self.executor,
            r.action@ == set_detach(self.action@),
    {
        let WorktreeCommand { executor, action } = self;
        let action = match action {
            WorktreeAction::Add { path, commit_ish, new_branch, detach: _, force, track } =>
                WorktreeAction::Add { path, commit_ish, new_branch, detach: true, force, track },
            other => other,
        };
        WorktreeCommand { executor, action }
    }

    /// `--force` (requires [`add`](Self::add) or [`remove`](Self::remove)).
    pub fn force(self) -> (r: Self)
        ensures
            r.executor == self.executor,
            r.action@ == set_force(self.action@),
    {
        let WorktreeCommand { executor, action } = self;
        let action = match action {
            WorktreeAction::Add { path, commit_ish, new_branch, detach, force: _, track } =>
                WorktreeAction::Add { path, commit_ish, new_branch, detach, force: true, track },
            WorktreeAction::Remove { path, force: _ } => WorktreeAction::Remove {
                path,
                force: true,
            },
            other => other,
        };
        WorktreeCommand { executor, action }
    }

    /// `worktree list`.
    pub fn list() -> (r: Self)
        ensures
            r.executor@ == blank_executor(),
            r.action@ == (WorktreeActionView::List { porcelain: false }),
    {
        Self::with_action(WorktreeAction::List { porcelain: false })
    }

    /// `worktree list --porcelain`.
    pub fn list_porcelain() -> (r: Self)
        ensures
            r.executor@ == blank_executor(),
            r.action@ == (WorktreeActionView::List { porcelain: true }),
    {
        Self::with_action(WorktreeAction::List { porcelain: true })
    }

    /// `worktree remove`.
    pub fn remove(path: impl IntoText) -> (r: Self)
        ensures
            r.executor@ == blank_executor(),
            r.action@ == (WorktreeActionView::Remove { path: path.text(), force: false }),
    {
        Self::with_action(WorktreeAction::Remove { path: path.into_text(), force: false })
    }

    /// `worktree prune`.
    pub fn prune() -> (r: Self)
        ensures
            r.executor@ == blank_executor(),
            r.action@ == (WorktreeActionView::Prune { verbose: false, dry_run: false }),
    {
        Self::with_action(WorktreeAction::Prune { verbose: false, dry_run: false })
    }

    /// `worktree move`.
    pub fn move_tree(source: impl IntoText, destination: impl IntoText) -> (r: Self)
        ensures
            r.executor@ == blank_executor(),
            r.action@ == (WorktreeActionView::Move {
                source: source.text(),
                destination: destination.text(),
            }),
    {
        Self::with_action(
            WorktreeAction::Move { source: source.into_text(), destination: destination.into_text() },
        )
    }

    /// `worktree lock`.
    pub fn lock(path: impl IntoText) -> (r: Self)
        ensures
            r.executor@ == blank_executor(),
            r.action@ == (WorktreeActionView::Lock { path: path.text(), reason: None }),
    {
        Self::with_action(WorktreeAction::Lock { path: path.into_text(), reason: None })
    }

    /// Attach a `--reason` (requires [`lock`](Self::lock)).
    pub fn reason(self, r: impl IntoText) -> (out: Self)
        ensures
            out.executor == self.executor,
            out.action@ == set_reason(self.action@, r.text()),
    {
        let r = r.into_text();
        let WorktreeCommand { executor, action } = self;
        let action = match action {
            WorktreeAction::Lock { path, reason: _ } => WorktreeAction::Lock { path, reason: Some(r) },
            other => other,
        };
        WorktreeCommand { executor, action }
    }

    /// `worktree unlock`.
    pub fn unlock(path: impl IntoText) -> (r: Self)
        ensures
            r.executor@ == blank_executor(),
            r.action@ == (WorktreeActionView::Unlock { path: path.text() }),
    {
        Self::with_action(WorktreeAction::Unlock { path: path.into_text() })
    }
}

fn push_add(
    args: &mut Vec<String>,
    path: &String,
    commit_ish: &Option<String>,
    new_branch: &Option<String>,
    detach: bool,
    force: bool,
    track: bool,
)
    ensures
        seq_views(final(args)@) == seq_views(old(args)@) + add_args(
            path@,
            opt_view(*commit_ish),
            opt_view(*new_branch),
            detach,
            force,
            track,
        ),
{
    let ghost before = seq_views(args@);
    push_lit(args, "add");
    push_flag(args, force, "--force");
    push_flag(args, detach, "--detach");
    push_flag(args, track, "--track");
    push_pair(args, "-b", new_branch);
    push_text(args, path);
    push_one(args, commit_ish);
    assert(seq_views(args@) =~= before + add_args(
        path@,
        opt_view(*commit_ish),
        opt_view(*new_branch),
        detach,
        force,
        track,
    ));
}

/// Appends the arguments of an action.
fn push_action(args: &mut Vec<String>, action: &WorktreeAction)
    ensures
        seq_views(final(args)@) == seq_views(old(args)@) + action_args(action@),
{
    let ghost before = seq_views(args@);
    match action {
        WorktreeAction::Add { path, commit_ish, new_branch, detach, force, track } => {
            push_add(args, path, commit_ish, new_branch, *detach, *force, *track);
        },
        WorktreeAction::List { porcelain } => {
            push_lit(args, "list");
            push_flag(args, *porcelain, "--porcelain");
            assert(seq_views(args@) =~= before + action_args(action@));
        },
        WorktreeAction::Remove { path, force } => {
            push_lit(args, "remove");
            push_flag(args, *force, "--force");
            push_text(args, path);
            assert(seq_views(args@) =~= before + action_args(action@));
        },
        WorktreeAction::Prune { verbose, dry_run } => {
            push_lit(args, "prune");
            push_flag(args, *verbose, "-v");
            push_flag(args, *dry_run, "--dry-run");
            assert(seq_views(args@) =~= before + action_args(action@));
        },
        WorktreeAction::Move { source, destination } => {
            push_lit(args, "move");
            push_text(args, source);
            push_text(args, destination);
            assert(seq_views(args@) =~= before + action_args(action@));
        },
        WorktreeAction::Lock { path, reason } => {
            push_lit(args, "lock");
            push_pair(args, "--reason", reason);
            push_text(args, path);
            assert(seq_views(args@) =~= before + action_args(action@));
        },
        WorktreeAction::Unlock { path } => {
            push_lit(args, "unlock");
            push_text(args, path);
            assert(seq_views(args@) =~= before + action_args(action@));
        },
    }
}

impl GitCommand for WorktreeCommand {
    open spec fn executor_spec(&self) -> CommandExecutor {
        self.executor
    }

    open spec fn with_executor_spec(self, e: CommandExecutor) -> Self {
        WorktreeCommand { executor: e, ..self }
    }

    open spec fn args_spec(&self) -> Seq<Seq<char>> {
        seq!["worktree"@] + action_args(self.action@)
    }

    proof fn lemma_with_executor(self, e1: CommandExecutor, e2: CommandExecutor) {
    }

    proof fn lemma_args_ignore_executor(self, e: CommandExecutor) {
    }

    fn get_executor(&self) -> (r: &CommandExecutor) {
        &self.executor
    }

    fn get_executor_mut(&mut self) -> (r: &mut CommandExecutor) {
        &mut self.executor
    }

    fn replace_executor(&mut self, e: CommandExecutor) -> (prev: CommandExecutor) {
        let mut e = e;
        std::mem::swap(&mut self.executor, &mut e);
        e
    }

    fn build_command_args(&self) -> (r: Vec<String>) {
        let mut args = start_args("worktree");
        push_action(&mut args, &self.action);
        args
    }
}

} // verus!
