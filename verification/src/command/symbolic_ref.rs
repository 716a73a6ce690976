//! `git symbolic-ref` — read or modify a symbolic ref (most commonly `HEAD`).
use vstd::prelude::*;

use crate::command::{
    blank_executor, flag, opt_pair, push_flag, push_lit, push_pair, push_text, start_args,
    CommandExecutor, GitCommand, IntoText,
};
use crate::error::{is_invalid_config, Error, Result};
use crate::text::{opt_view, seq_views, text_is_empty};

verus! {

/// Actions supported by `git symbolic-ref`.
#[derive(Debug, Clone)]
pub enum SymbolicRefAction {
    /// Read the target of `ref` (e.g. `HEAD` -> `refs/heads/main`).
    Read {
        /// Ref name to read.
        name: String,
        /// `--short` shows the short form (`main`).
        short: bool,
    },
    /// Set `name` to point at `target`.
    Point {
        /// Ref name.
        name: String,
        /// Target ref.
        target: String,
        /// `-m <reason>` reflog message.
        reason: Option<String>,
    },
    /// Delete the symbolic ref.
    Delete {
        /// Ref name.
        name: String,
        /// `-q` suppress errors.
        quiet: bool,
    },
}

/// The abstract contents of a [`SymbolicRefAction`].
pub enum SymbolicRefActionView {
    Read { name: Seq<char>, short: bool },
    Point { name: Seq<char>, target: Seq<char>, reason: Option<Seq<char>> },
    Delete { name: Seq<char>, quiet: bool },
}

impl View for SymbolicRefAction {
    type V = SymbolicRefActionView;

    open spec fn view(&self) -> SymbolicRefActionView {
        match self {
            SymbolicRefAction::Read { name, short } => SymbolicRefActionView::Read {
                name: name@,
                short: *short,
            },
            SymbolicRefAction::Point { name, target, reason } => SymbolicRefActionView::Point {
                name: name@,
                target: target@,
                reason: opt_view(*reason),
            },
            SymbolicRefAction::Delete { name, quiet } => SymbolicRefActionView::Delete {
                name: name@,
                quiet: *quiet,
            },
        }
    }
}

/// The arguments that follow `symbolic-ref` for an action.
pub open spec fn action_args(a: SymbolicRefActionView) -> Seq<Seq<char>> {
    match a {
        SymbolicRefActionView::Read { name, short } => flag(short, "--short"@) + seq![name],
        SymbolicRefActionView::Point { name, target, reason } => opt_pair("-m"@, reason) + seq![
            name,
            target,
        ],
        SymbolicRefActionView::Delete { name, quiet } => seq!["--delete"@] + flag(quiet, "-q"@)
            + seq![name],
    }
}

/// Builder for `git symbolic-ref`.
///
/// An option that does not apply to the selected action is ignored.
#[derive(Debug, Clone)]
pub struct SymbolicRefCommand {
    /// Shared executor.
    pub executor: CommandExecutor,
    /// Action.
    pub action: SymbolicRefAction,
}

impl SymbolicRefCommand {
    /// Read the target of `name` (e.g. `read("HEAD")`).
    pub fn read(name: impl IntoText) -> (r: Self)
        ensures
            r.executor@ == blank_executor(),
            r.action@ == (SymbolicRefActionView::Read { name: name.text(), short: false }),
    {
        SymbolicRefCommand {
            executor: CommandExecutor::new(),
            action: SymbolicRefAction::Read { name: name.into_text(), short: false },
        }
    }

    /// `--short` for a read (only applies when the action is [`read`](Self::read)).
    pub fn short(&mut self) -> (r: &mut Self)
        ensures
            *final(self) == *final(r),
            r.executor == old(self).executor,
            r.action@ == match old(self).action@ {
                SymbolicRefActionView::Read { name, short: _ } => SymbolicRefActionView::Read {
                    name,
                    short: true,
                },
                other => other,
            },
    {
        match &mut self.action {
            SymbolicRefAction::Read { short, .. } => *short = true,
            _ => {},
        }
        self
    }

    /// Set `name` to point at `target`.
    pub fn set(name: impl IntoText, target: impl IntoText) -> (r: Self)
        ensures
            r.executor@ == blank_executor(),
            r.action@ == (SymbolicRefActionView::Point {
                name: name.text(),
                target: target.text(),
                reason: None,
            }),
    {
        SymbolicRefCommand {
            executor: CommandExecutor::new(),
            action: SymbolicRefAction::Point {
                name: name.into_text(),
                target: target.into_text(),
                reason: None,
            },
        }
    }

    /// Set the reflog reason (`-m`, only for [`set`](Self::set)).
    pub fn reason(&mut self, why: impl IntoText) -> (r: &mut Self)
        ensures
            *final(self) == *final(r),
            r.executor == old(self).executor,
            r.action@ == match old(self).action@ {
                SymbolicRefActionView::Point { name, target, reason: _ } =>
                    SymbolicRefActionView::Point { name, target, reason: Some(why.text()) },
                other => other,
            },
    {
        let w = why.into_text();
        match &mut self.action {
            SymbolicRefAction::Point { reason, .. } => *reason = Some(w),
            _ => {},
        }
        self
    }

    /// Delete the symbolic ref.
    pub fn delete(name: impl IntoText) -> (r: Self)
        ensures
            r.executor@ == blank_executor(),
            r.action@ == (SymbolicRefActionView::Delete { name: name.text(), quiet: false }),
    {
        SymbolicRefCommand {
            executor: CommandExecutor::new(),
            action: SymbolicRefAction::Delete { name: name.into_text(), quiet: false },
        }
    }

    /// `-q` (only for [`delete`](Self::delete)).
    pub fn quiet(&mut self) -> (r: &mut Self)
        ensures
            *final(self) == *final(r),
            r.executor == old(self).executor,
            r.action@ == match old(self).action@ {
                SymbolicRefActionView::Delete { name, quiet: _ } => SymbolicRefActionView::Delete {
                    name,
                    quiet: true,
                },
                other => other,
            },
    {
        match &mut self.action {
            SymbolicRefAction::Delete { quiet, .. } => *quiet = true,
            _ => {},
        }
        self
    }

    /// The configuration problem that stops the command before it runs, if
    /// any: an empty ref name to read or set.
    pub open spec fn problem(&self) -> Option<Seq<char>> {
        match self.action@ {
            SymbolicRefActionView::Read { name, .. } | SymbolicRefActionView::Point { name, .. } =>
                if name.len() == 0 {
                Some("symbolic-ref requires a ref name"@)
            } else {
                None
            },
            _ => None,
        }
    }

    /// Check the configuration before the command runs.
    pub fn validate(&self) -> (r: Result<()>)
        ensures
            r is Ok <==> self.problem() is None,
            r matches Err(e) ==> self.problem() matches Some(m) && is_invalid_config(e, m),
    {
        match &self.action {
            SymbolicRefAction::Read { name, .. } | SymbolicRefAction::Point { name, .. } => {
                if text_is_empty(name) {
                    return Err(Error::invalid_config("symbolic-ref requires a ref name"));
                }
            },
            _ => {},
        }
        Ok(())
    }
}

impl GitCommand for SymbolicRefCommand {
    open spec fn executor_spec(&self) -> CommandExecutor {
        self.executor
    }

    open spec fn with_executor_spec(self, e: CommandExecutor) -> Self {
        SymbolicRefCommand { executor: e, ..self }
    }

    open spec fn args_spec(&self) -> Seq<Seq<char>> {
        seq!["symbolic-ref"@] + action_args(self.action@)
    }

    proof fn lemma_with_executor(self, e1: CommandExecutor, e2: CommandExecutor) {
    }

    proof fn lemma_args_ignore_executor(self, e: CommandExecutor) {
    }

    fn get_executor(&self) -> (r: &CommandExecutor) {
        &self.executor
    }

    fn get_executor_mut(&mut self) -> (r: &mut CommandExecutor) {
        &mut self.executor
    }

    fn replace_executor(&mut self, e: CommandExecutor) -> (prev: CommandExecutor) {
        let mut e = e;
        std::mem::swap(&mut self.executor, &mut e);
        e
    }

    fn build_command_args(&self) -> (r: Vec<String>) {
        let mut args = start_args("symbolic-ref");
        let ghost before = seq_views(args@);
        match &self.action {
            SymbolicRefAction::Read { name, short } => {
                push_flag(&mut args, *short, "--short");
                push_text(&mut args, name);
            },
            SymbolicRefAction::Point { name, target, reason } => {
                push_pair(&mut args, "-m", reason);
                push_text(&mut args, name);
                push_text(&mut args, target);
            },
            SymbolicRefAction::Delete { name, quiet } => {
                push_lit(&mut args, "--delete");
                push_flag(&mut args, *quiet, "-q");
                push_text(&mut args, name);
            },
        }
        assert(seq_views(args@) =~= before + action_args(self.action@));
        args
    }
}

} // verus!
