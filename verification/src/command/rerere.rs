//! `git rerere` — reuse recorded conflict resolutions.
use vstd::prelude::*;

use crate::command::{
    blank_executor, one_text, push_all, push_into, push_lit, start_args, CommandExecutor, GitCommand,
    IntoText,
};
use crate::text::seq_views;

verus! {

/// Actions supported by `git rerere`.
#[derive(Debug, Clone)]
pub enum RerereAction {
    /// `git rerere status`: list the paths with a recorded preimage.
    Status,
    /// `git rerere diff`: show the current state of a conflict against its
    /// recorded preimage.
    Diff,
    /// `git rerere gc`: prune old records from the resolution cache.
    Gc,
    /// `git rerere clear`: drop the resolutions recorded for the merge in
    /// progress.
    Clear,
    /// `git rerere forget <pathspec>...`: drop the recorded resolution for
    /// the named paths.
    Forget {
        /// Paths whose resolution is forgotten. At least one is required, so
        /// the first is taken by the constructor.
        pathspecs: Vec<String>,
    },
}

/// Builder for `git rerere`.
///
/// The five actions use the action-enum dispatch pattern: an option that does
/// not apply to the selected action is ignored rather than emitted.
#[derive(Debug, Clone)]
pub struct RerereCommand {
    /// Shared executor.
    pub executor: CommandExecutor,
    /// Action to perform.
    pub action: RerereAction,
}

impl RerereCommand {
    /// `rerere status`.
    pub fn status() -> (r: Self)
        ensures
            r.executor@ == blank_executor(),
            r.action is Status,
    {
        Self::with_action(RerereAction::Status)
    }

    /// `rerere diff`.
    pub fn diff() -> (r: Self)
        ensures
            r.executor@ == blank_executor(),
            r.action is Diff,
    {
        Self::with_action(RerereAction::Diff)
    }

    /// `rerere gc`.
    pub fn gc() -> (r: Self)
        ensures
            r.executor@ == blank_executor(),
            r.action is Gc,
    {
        Self::with_action(RerereAction::Gc)
    }

    /// `rerere clear`.
    pub fn clear() -> (r: Self)
        ensures
            r.executor@ == blank_executor(),
            r.action is Clear,
    {
        Self::with_action(RerereAction::Clear)
    }

    /// `rerere forget <pathspec>`.
    pub fn forget(pathspec: impl IntoText) -> (r: Self)
        ensures
            r.executor@ == blank_executor(),
            r.action matches RerereAction::Forget { pathspecs } && seq_views(pathspecs@) == seq![
                pathspec.text(),
            ],
    {
        Self::with_action(RerereAction::Forget { pathspecs: one_text(pathspec.into_text()) })
    }

    /// Add another pathspec (applies to [`forget`](Self::forget) only).
    pub fn pathspec(&mut self, pathspec: impl IntoText) -> (r: &mut Self)
        ensures
            *final(self) == *final(r),
            r.executor == old(self).executor,
            match old(self).action {
                RerereAction::Forget { pathspecs } => r.action matches RerereAction::Forget {
                    pathspecs: p,
                } && seq_views(p@) == seq_views(pathspecs@).push(pathspec.text()),
                _ => r.action == old(self).action,
            },
    {
        let p = pathspec.into_text();
        match &mut self.action {
            RerereAction::Forget { pathspecs } => push_into(pathspecs, p),
            _ => {},
        }
        self
    }

    fn with_action(action: RerereAction) -> (r: Self)
        ensures
            r.executor@ == blank_executor(),
            r.action == action,
    {
        Self { executor: CommandExecutor::new(), action }
    }
}

impl GitCommand for RerereCommand {
    open spec fn executor_spec(&self) -> CommandExecutor {
        self.executor
    }

    open spec fn with_executor_spec(self, e: CommandExecutor) -> Self {
        RerereCommand { executor: e, ..self }
    }

    open spec fn args_spec(&self) -> Seq<Seq<char>> {
        seq!["rerere"@] + match self.action {
            RerereAction::Status => seq!["status"@],
            RerereAction::Diff => seq!["diff"@],
            RerereAction::Gc => seq!["gc"@],
            RerereAction::Clear => seq!["clear"@],
            RerereAction::Forget { pathspecs } => seq!["forget"@] + seq_views(pathspecs@),
        }
    }

    proof fn lemma_with_executor(self, e1: CommandExecutor, e2: CommandExecutor) {
    }

    proof fn lemma_args_ignore_executor(self, e: CommandExecutor) {
    }

    fn get_executor(&self) -> (r: &CommandExecutor) {
        &self.executor
    }

    fn get_executor_mut(&mut self) -> (r: &mut CommandExecutor) {
        &mut self.executor
    }

    fn replace_executor(&mut self, e: CommandExecutor) -> (prev: CommandExecutor) {
        let mut e = e;
        std::mem::swap(&mut self.executor, &mut e);
        e
    }

    fn build_command_args(&self) -> (r: Vec<String>) {
        let mut args = start_args("rerere");
        match &self.action {
            RerereAction::Status => push_lit(&mut args, "status"),
            RerereAction::Diff => push_lit(&mut args, "diff"),
            RerereAction::Gc => push_lit(&mut args, "gc"),
            RerereAction::Clear => push_lit(&mut args, "clear"),
            RerereAction::Forget { pathspecs } => {
                push_lit(&mut args, "forget");
                push_all(&mut args, pathspecs);
            },
        }
        assert(seq_views(args@) =~= self.args_spec());
        args
    }
}

} // verus!
