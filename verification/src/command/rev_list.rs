//! `git rev-list` — list commit objects in reverse chronological order.
use vstd::prelude::*;

use crate::command::{
    blank_executor, flag, opt_arg, opt_flag_arg, opt_joined, push_all, push_concat, push_flag,
    push_into, push_joined, push_lit, start_args, push_number, push_opt, push_opt_flag, push_text,
    CommandExecutor, GitCommand, IntoText,
};
use crate::text::{decimal, opt_view, seq_views};

verus! {

/// Builder for `git rev-list`.
#[derive(Debug, Clone)]
pub struct RevListCommand {
    /// Shared executor.
    pub executor: CommandExecutor,
    /// `--max-count=<n>`.
    pub max_count: Option<usize>,
    /// `--since=<date>`.
    pub since: Option<String>,
    /// `--count`.
    pub count: bool,
    /// Revisions and ranges.
    pub revisions: Vec<String>,
}

/// `--max-count=<n>` when a limit is set.
pub open spec fn max_count_arg(n: Option<usize>) -> Seq<Seq<char>> {
    match n {
        Some(k) => seq!["--max-count="@ + decimal(k as nat)],
        None => Seq::empty(),
    }
}

impl RevListCommand {
    /// Create a command.
    pub fn new() -> (r: Self)
        ensures
            r.executor@ == blank_executor(),
            r == (RevListCommand { executor: r.executor, revisions: r.revisions, max_count: None, since: None, count: false }),
            r.revisions@.len() == 0,
    {
        RevListCommand {
            executor: CommandExecutor::new(),
            max_count: None,
            since: None,
            count: false,
            revisions: Vec::new(),
        }
    }

    /// Limit the number of commits.
    pub fn max_count(&mut self, n: usize) -> (r: &mut Self)
        ensures
            *final(self) == *final(r),
            *r == (RevListCommand { max_count: Some(n), ..*old(self) }),
    {
        self.max_count = Some(n);
        self
    }

    /// Only commits after a date.
    pub fn since(&mut self, date: impl IntoText) -> (r: &mut Self)
        ensures
            *final(self) == *final(r),
            *r == (RevListCommand { since: r.since, ..*old(self) }),
            opt_view(r.since) == Some(date.text()),
    {
        self.since = Some(date.into_text());
        self
    }

    /// `--count`.
    pub fn count(&mut self) -> (r: &mut Self)
        ensures
            *final(self) == *final(r),
            *r == (RevListCommand { count: true, ..*old(self) }),
    {
        self.count = true;
        self
    }

    /// Add a revision.
    pub fn revision(&mut self, revision: impl IntoText) -> (r: &mut Self)
        ensures
            *final(self) == *final(r),
            *r == (RevListCommand { revisions: r.revisions, ..*old(self) }),
            seq_views(r.revisions@) == seq_views(old(self).revisions@).push(revision.text()),
    {
        push_into(&mut self.revisions, revision.into_text());
        self
    }

    /// Add a revision range (the same as [`revision`](Self::revision)).
    pub fn range(&mut self, range: impl IntoText) -> (r: &mut Self)
        ensures
            *final(self) == *final(r),
            *r == (RevListCommand { revisions: r.revisions, ..*old(self) }),
            seq_views(r.revisions@) == seq_views(old(self).revisions@).push(range.text()),
    {
        self.revision(range)
    }
}

impl Default for RevListCommand {
    fn default() -> (r: Self)
        ensures
            r.executor@ == blank_executor(),
            r == (RevListCommand { executor: r.executor, revisions: r.revisions, max_count: None, since: None, count: false }),
            r.revisions@.len() == 0,
    {
        Self::new()
    }
}

impl GitCommand for RevListCommand {
    open spec fn executor_spec(&self) -> CommandExecutor {
        self.executor
    }

    open spec fn with_executor_spec(self, e: CommandExecutor) -> Self {
        RevListCommand { executor: e, ..self }
    }

    open spec fn args_spec(&self) -> Seq<Seq<char>> {
        seq!["rev-list"@] + max_count_arg(self.max_count) + opt_joined("--since="@, self.since)
            + flag(self.count, "--count"@) + seq_views(self.revisions@)
    }

    proof fn lemma_with_executor(self, e1: CommandExecutor, e2: CommandExecutor) {
    }

    proof fn lemma_args_ignore_executor(self, e: CommandExecutor) {
    }

    fn get_executor(&self) -> (r: &CommandExecutor) {
        &self.executor
    }

    fn get_executor_mut(&mut self) -> (r: &mut CommandExecutor) {
        &mut self.executor
    }

    fn replace_executor(&mut self, e: CommandExecutor) -> (prev: CommandExecutor) {
        let mut e = e;
        std::mem::swap(&mut self.executor, &mut e);
        e
    }

    fn build_command_args(&self) -> (r: Vec<String>) {
        let mut args = start_args("rev-list");
        let ghost before = seq_views(args@);
        if let Some(n) = self.max_count {
            push_number(&mut args, "--max-count=", n as u64);
        }
        assert(seq_views(args@) =~= before + max_count_arg(self.max_count));
        push_joined(&mut args, "--since=", &self.since);
        push_flag(&mut args, self.count, "--count");
        push_all(&mut args, &self.revisions);
        args
    }
}

} // verus!
