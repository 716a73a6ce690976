//! `git stash` — stash the changes in a dirty working directory away.
use vstd::prelude::*;

use crate::command::{
    blank_executor, flag, opt_one, opt_pair, push_flag, push_lit, push_one, push_pair,
    start_args, CommandExecutor, GitCommand, IntoText,
};
use crate::text::{opt_view, seq_views};

verus! {

/// Actions supported by `git stash`.
#[derive(Debug, Clone)]
pub enum StashAction {
    /// `git stash push [-m <msg>]`.
    Push {
        /// Optional message.
        message: Option<String>,
        /// Include untracked files.
        include_untracked: bool,
        /// Keep the index intact.
        keep_index: bool,
    },
    /// `git stash pop [stash@{n}]`.
    Pop(Option<String>),
    /// `git stash apply [stash@{n}]`.
    Apply(Option<String>),
    /// `git stash drop [stash@{n}]`.
    Drop(Option<String>),
    /// `git stash list`.
    List,
    /// `git stash show [stash@{n}]`.
    Show(Option<String>),
    /// `git stash clear`.
    Clear,
}

/// The abstract contents of a [`StashAction`].
pub enum StashActionView {
    Push { message: Option<Seq<char>>, include_untracked: bool, keep_index: bool },
    Pop(Option<Seq<char>>),
    Apply(Option<Seq<char>>),
    Drop(Option<Seq<char>>),
    List,
    Show(Option<Seq<char>>),
    Clear,
}

impl View for StashAction {
    type V = StashActionView;

    open spec fn view(&self) -> StashActionView {
        match self {
            StashAction::Push { message, include_untracked, keep_index } => StashActionView::Push {
                message: opt_view(*message),
                include_untracked: *include_untracked,
                keep_index: *keep_index,
            },
            StashAction::Pop(s) => StashActionView::Pop(opt_view(*s)),
            StashAction::Apply(s) => StashActionView::Apply(opt_view(*s)),
            StashAction::Drop(s) => StashActionView::Drop(opt_view(*s)),
            StashAction::List => StashActionView::List,
            StashAction::Show(s) => StashActionView::Show(opt_view(*s)),
            StashAction::Clear => StashActionView::Clear,
        }
    }
}

/// The arguments that follow `stash` for an action.
pub open spec fn action_args(a: StashActionView) -> Seq<Seq<char>> {
    match a {
        StashActionView::Push { message, include_untracked, keep_index } => seq!["push"@] + flag(
            include_untracked,
            "--include-untracked"@,
        ) + flag(keep_index, "--keep-index"@) + opt_pair("-m"@, message),
        StashActionView::Pop(s) => seq!["pop"@] + opt_one(s),
        StashActionView::Apply(s) => seq!["apply"@] + opt_one(s),
        StashActionView::Drop(s) => seq!["drop"@] + opt_one(s),
        StashActionView::List => seq!["list"@],
        StashActionView::Show(s) => seq!["show"@] + opt_one(s),
        StashActionView::Clear => seq!["clear"@],
    }
}

/// The action with its message set, where it is `push`.
pub open spec fn set_message(a: StashActionView, m: Seq<char>) -> StashActionView {
    match a {
        StashActionView::Push { message: _, include_untracked, keep_index } =>
            StashActionView::Push { message: Some(m), include_untracked, keep_index },
        _ => a,
    }
}

/// The action with `--include-untracked` set, where it is `push`.
pub open spec fn set_include_untracked(a: StashActionView) -> StashActionView {
    match a {
        StashActionView::Push { message, include_untracked: _, keep_index } =>
            StashActionView::Push { message, include_untracked: true, keep_index },
        _ => a,
    }
}

/// The action with `--keep-index` set, where it is `push`.
pub open spec fn set_keep_index(a: StashActionView) -> StashActionView {
    match a {
        StashActionView::Push { message, include_untracked, keep_index: _ } =>
            StashActionView::Push { message, include_untracked, keep_index: true },
        _ => a,
    }
}

/// The action of a fresh `stash push`.
pub open spec fn plain_push() -> StashActionView {
    StashActionView::Push { message: None, include_untracked: false, keep_index: false }
}

/// Builder for `git stash`.
///
/// An option that does not apply to the selected action is ignored.
#[derive(Debug, Clone)]
pub struct StashCommand {
    /// Shared executor.
    pub executor: CommandExecutor,
    /// Action.
    pub action: StashAction,
}

impl Default for StashCommand {
    fn default() -> (r: Self)
        ensures
            r.executor@ == blank_executor(),
            r.action@ == plain_push(),
    {
        StashCommand {
            executor: CommandExecutor::new(),
            action: StashAction::Push { message: None, include_untracked: false, keep_index: false },
        }
    }
}

impl StashCommand {
    fn with_action(action: StashAction) -> (r: Self)
        ensures
            r.executor@ == blank_executor(),
            r.action == action,
    {
        StashCommand { executor: CommandExecutor::new(), action }
    }

    /// `stash push`.
    pub fn push() -> (r: Self)
        ensures
            r.executor@ == blank_executor(),
            r.action@ == plain_push(),
    {
        Self::default()
    }

    /// Set push message.
    pub fn message(self, m: impl IntoText) -> (r: Self)
        ensures
            r.executor == self.executor,
            r.action@ == set_message(self.action@, m.text()),
    {
        let m = m.into_text();
        let StashCommand { executor, action } = self;
        let action = match action {
            StashAction::Push { message: _, include_untracked, keep_index } => StashAction::Push {
                message: Some(m),
                include_untracked,
                keep_index,
            },
            other => other,
        };
        StashCommand { executor, action }
    }

    /// Include untracked files.
    pub fn include_untracked(self) -> (r: Self)
        ensures
            r.executor == self.executor,
            r.action@ == set_include_untracked(self.action@),
    {
        let StashCommand { executor, action } = self;
        let action = match action {
            StashAction::Push { message, include_untracked: _, keep_index } => StashAction::Push {
                message,
                include_untracked: true,
                keep_index,
            },
            other => other,
        };
        StashCommand { executor, action }
    }

    /// Keep index intact.
    pub fn keep_index(self) -> (r: Self)
        ensures
            r.executor == self.executor,
            r.action@ == set_keep_index(self.action@),
    {
        let StashCommand { executor, action } = self;
        let action = match action {
            StashAction::Push { message, include_untracked, keep_index: _ } => StashAction::Push {
                message,
                include_untracked,
                keep_index: true,
            },
            other => other,
        };
        StashCommand { executor, action }
    }

    /// `stash pop`.
    pub fn pop(stash: Option<String>) -> (r: Self)
        ensures
            r.executor@ == blank_executor(),
            r.action@ == StashActionView::Pop(opt_view(stash)),
    {
        Self::with_action(StashAction::Pop(stash))
    }

    /// `stash apply`.
    pub fn apply(stash: Option<String>) -> (r: Self)
        ensures
            r.executor@ == blank_executor(),
            r.action@ == StashActionView::Apply(opt_view(stash)),
    {
        Self::with_action(StashAction::Apply(stash))
    }

    /// `stash drop`.
    pub fn drop_stash(stash: Option<String>) -> (r: Self)
        ensures
            r.executor@ == blank_executor(),
            r.action@ == StashActionView::Drop(opt_view(stash)),
    {
        Self::with_action(StashAction::Drop(stash))
    }

    /// `stash list`.
    pub fn list() -> (r: Self)
        ensures
            r.executor@ == blank_executor(),
            r.action@ == StashActionView::List,
    {
        Self::with_action(StashAction::List)
    }

    /// `stash show`.
    pub fn show(stash: Option<String>) -> (r: Self)
        ensures
            r.executor@ == blank_executor(),
            r.action@ == StashActionView::Show(opt_view(stash)),
    {
        Self::with_action(StashAction::Show(stash))
    }

    /// `stash clear`.
    pub fn clear() -> (r: Self)
        ensures
            r.executor@ == blank_executor(),
            r.action@ == StashActionView::Clear,
    {
        Self::with_action(StashAction::Clear)
    }
}

/// Appends the arguments of an action.
fn push_action(args: &mut Vec<String>, action: &StashAction)
    ensures
        seq_views(final(args)@) == seq_views(old(args)@) + action_args(action@),
{
    let ghost before = seq_views(args@);
    match action {
        StashAction::Push { message, include_untracked, keep_index } => {
            push_lit(args, "push");
            push_flag(args, *include_untracked, "--include-untracked");
            push_flag(args, *keep_index, "--keep-index");
            push_pair(args, "-m", message);
        },
        StashAction::Pop(s) => {
            push_lit(args, "pop");
            push_one(args, s);
        },
        StashAction::Apply(s) => {
            push_lit(args, "apply");
            push_one(args, s);
        },
        StashAction::Drop(s) => {
            push_lit(args, "drop");
            push_one(args, s);
        },
        StashAction::List => push_lit(args, "list"),
        StashAction::Show(s) => {
            push_lit(args, "show");
            push_one(args, s);
        },
        StashAction::Clear => push_lit(args, "clear"),
    }
    assert(seq_views(args@) =~= before + action_args(action@));
}

impl GitCommand for StashCommand {
    open spec fn executor_spec(&self) -> CommandExecutor {
        self.executor
    }

    open spec fn with_executor_spec(self, e: CommandExecutor) -> Self {
        StashCommand { executor: e, ..self }
    }

    open spec fn args_spec(&self) -> Seq<Seq<char>> {
        seq!["stash"@] + action_args(self.action@)
    }

    proof fn lemma_with_executor(self, e1: CommandExecutor, e2: CommandExecutor) {
    }

    proof fn lemma_args_ignore_executor(self, e: CommandExecutor) {
    }

    fn get_executor(&self) -> (r: &CommandExecutor) {
        &self.executor
    }

    fn get_executor_mut(&mut self) -> (r: &mut CommandExecutor) {
        &mut self.executor
    }

    fn replace_executor(&mut self, e: CommandExecutor) -> (prev: CommandExecutor) {
        let mut e = e;
        std::mem::swap(&mut self.executor, &mut e);
        e
    }

    fn build_command_args(&self) -> (r: Vec<String>) {
        let mut args = start_args("stash");
        push_action(&mut args, &self.action);
        args
    }
}

} // verus!
