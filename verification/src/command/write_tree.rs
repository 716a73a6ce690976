//! `git write-tree` — write the index as a tree object.
use vstd::prelude::*;

use crate::command::{
    blank_executor, opt_joined, push_joined, push_lit, CommandExecutor, GitCommand, IntoText,
};
use crate::text::{opt_view, seq_views};

verus! {

/// Builder for `git write-tree`.
#[derive(Debug, Clone)]
pub struct WriteTreeCommand {
    /// Shared executor.
    pub executor: CommandExecutor,
    /// Optional path prefix.
    pub prefix: Option<String>,
}

impl WriteTreeCommand {
    /// Create a command.
    pub fn new() -> (r: Self)
        ensures
            r.executor@ == blank_executor(),
            r.prefix is None,
    {
        WriteTreeCommand { executor: CommandExecutor::new(), prefix: None }
    }

    /// Restrict the tree to a prefix.
    pub fn prefix(&mut self, v: impl IntoText) -> (r: &mut Self)
        ensures
            *final(self) == *final(r),
            *r == (WriteTreeCommand { prefix: r.prefix, ..*old(self) }),
            opt_view(r.prefix) == Some(v.text()),
    {
        self.prefix = Some(v.into_text());
        self
    }
}

impl Default for WriteTreeCommand {
    fn default() -> (r: Self)
        ensures
            r.executor@ == blank_executor(),
            r.prefix is None,
    {
        Self::new()
    }
}

impl GitCommand for WriteTreeCommand {
    open spec fn executor_spec(&self) -> CommandExecutor {
        self.executor
    }

    open spec fn with_executor_spec(self, e: CommandExecutor) -> Self {
        WriteTreeCommand { executor: e, ..self }
    }

    open spec fn args_spec(&self) -> Seq<Seq<char>> {
        seq!["write-tree"@] + opt_joined("--prefix="@, self.prefix)
    }

    proof fn lemma_with_executor(self, e1: CommandExecutor, e2: CommandExecutor) {
    }

    proof fn lemma_args_ignore_executor(self, e: CommandExecutor) {
    }

    fn get_executor(&self) -> (r: &CommandExecutor) {
        &self.executor
    }

    fn get_executor_mut(&mut self) -> (r: &mut CommandExecutor) {
        &mut self.executor
    }

    fn replace_executor(&mut self, e: CommandExecutor) -> (prev: CommandExecutor) {
        let mut e = e;
        std::mem::swap(&mut self.executor, &mut e);
        e
    }

    fn build_command_args(&self) -> (r: Vec<String>) {
        let mut a: Vec<String> = Vec::new();
        push_lit(&mut a, "write-tree");
        push_joined(&mut a, "--prefix=", &self.prefix);
        a
    }
}

} // verus!
