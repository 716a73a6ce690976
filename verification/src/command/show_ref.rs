//! `git show-ref` — list references in a local repository.
use vstd::prelude::*;

use crate::command::{
    blank_executor, dashdash_paths, flag, opt_arg, opt_flag_arg, opt_joined, push_all,
    push_dashdash_paths, push_flag, push_into, push_joined, push_lit, push_number, push_opt,
    push_opt_flag, start_args, CommandExecutor, GitCommand, IntoText,
};
use crate::text::{decimal, opt_view, seq_views};

verus! {

/// `--hash` or `--hash=<n>`, if requested.
pub open spec fn hash_arg(h: Option<Option<u32>>) -> Seq<Seq<char>> {
    match h {
        Some(None) => seq!["--hash"@],
        Some(Some(n)) => seq!["--hash="@ + decimal(n as nat)],
        None => Seq::empty(),
    }
}

/// Builder for `git show-ref`.
#[derive(Debug, Clone)]
pub struct ShowRefCommand {
    /// Shared executor.
    pub executor: CommandExecutor,
    /// Patterns to match.
    pub patterns: Vec<String>,
    /// `--heads`.
    pub heads: bool,
    /// `--tags`.
    pub tags: bool,
    /// `--verify`: error if a pattern doesn't match.
    pub verify: bool,
    /// `--hash[=N]`.
    pub hash: Option<Option<u32>>,
    /// `--dereference`.
    pub dereference: bool,
    /// `--head`.
    pub head: bool,
    /// `--exists`: test existence of a specific ref.
    pub exists: bool,
    /// `-q` quiet.
    pub quiet: bool,
}

impl ShowRefCommand {
    /// New `show-ref` command.
    pub fn new() -> (r: Self)
        ensures
            r.executor@ == blank_executor(),
            r == (ShowRefCommand { executor: r.executor, patterns: r.patterns, heads: false, tags: false, verify: false, hash: None, dereference: false, head: false, exists: false, quiet: false }),
            r.patterns@.len() == 0,
    {
        ShowRefCommand { executor: CommandExecutor::new(), patterns: Vec::new(), heads: false, tags: false, verify: false, hash: None, dereference: false, head: false, exists: false, quiet: false }
    }

    /// Add a ref pattern.
    pub fn pattern(&mut self, p: impl IntoText) -> (r: &mut Self)
        ensures
            *final(self) == *final(r),
            *r == (ShowRefCommand { patterns: r.patterns, ..*old(self) }),
            seq_views(r.patterns@) == seq_views(old(self).patterns@).push(p.text()),
    {
        push_into(&mut self.patterns, p.into_text());
        self
    }

    /// Limit to branch refs.
    pub fn heads(&mut self) -> (r: &mut Self)
        ensures
            *final(self) == *final(r),
            *r == (ShowRefCommand { heads: true, ..*old(self) }),
    {
        self.heads = true;
        self
    }

    /// Limit to tag refs.
    pub fn tags(&mut self) -> (r: &mut Self)
        ensures
            *final(self) == *final(r),
            *r == (ShowRefCommand { tags: true, ..*old(self) }),
    {
        self.tags = true;
        self
    }

    /// `--verify`.
    pub fn verify(&mut self) -> (r: &mut Self)
        ensures
            *final(self) == *final(r),
            *r == (ShowRefCommand { verify: true, ..*old(self) }),
    {
        self.verify = true;
        self
    }

    /// `--hash`.
    pub fn hash(&mut self) -> (r: &mut Self)
        ensures
            *final(self) == *final(r),
            *r == (ShowRefCommand { hash: Some(None), ..*old(self) }),
    {
        self.hash = Some(None);
        self
    }

    /// `--hash=N`.
    pub fn hash_len(&mut self, n: u32) -> (r: &mut Self)
        ensures
            *final(self) == *final(r),
            *r == (ShowRefCommand { hash: Some(Some(n)), ..*old(self) }),
    {
        self.hash = Some(Some(n));
        self
    }

    /// `--dereference`.
    pub fn dereference(&mut self) -> (r: &mut Self)
        ensures
            *final(self) == *final(r),
            *r == (ShowRefCommand { dereference: true, ..*old(self) }),
    {
        self.dereference = true;
        self
    }

    /// Include HEAD in output (`--head`).
    pub fn include_head(&mut self) -> (r: &mut Self)
        ensures
            *final(self) == *final(r),
            *r == (ShowRefCommand { head: true, ..*old(self) }),
    {
        self.head = true;
        self
    }

    /// `--exists`.
    pub fn exists_check(&mut self) -> (r: &mut Self)
        ensures
            *final(self) == *final(r),
            *r == (ShowRefCommand { exists: true, ..*old(self) }),
    {
        self.exists = true;
        self
    }

    /// `-q`.
    pub fn quiet(&mut self) -> (r: &mut Self)
        ensures
            *final(self) == *final(r),
            *r == (ShowRefCommand { quiet: true, ..*old(self) }),
    {
        self.quiet = true;
        self
    }
}

impl Default for ShowRefCommand {
    fn default() -> (r: Self)
        ensures
            r.executor@ == blank_executor(),
            r == (ShowRefCommand { executor: r.executor, patterns: r.patterns, heads: false, tags: false, verify: false, hash: None, dereference: false, head: false, exists: false, quiet: false }),
            r.patterns@.len() == 0,
    {
        Self::new()
    }
}

impl GitCommand for ShowRefCommand {
    open spec fn executor_spec(&self) -> CommandExecutor {
        self.executor
    }

    open spec fn with_executor_spec(self, e: CommandExecutor) -> Self {
        ShowRefCommand { executor: e, ..self }
    }

    open spec fn args_spec(&self) -> Seq<Seq<char>> {
        seq!["show-ref"@] + flag(self.heads, "--heads"@) + flag(self.tags, "--tags"@) + flag(self.head, "--head"@) + flag(self.dereference, "--dereference"@) + flag(self.verify, "--verify"@) + flag(self.exists, "--exists"@) + flag(self.quiet, "-q"@) + hash_arg(self.hash) + seq_views(self.patterns@)
    }

    proof fn lemma_with_executor(self, e1: CommandExecutor, e2: CommandExecutor) {
    }

    proof fn lemma_args_ignore_executor(self, e: CommandExecutor) {
    }

    fn get_executor(&self) -> (r: &CommandExecutor) {
        &self.executor
    }

    fn get_executor_mut(&mut self) -> (r: &mut CommandExecutor) {
        &mut self.executor
    }

    fn replace_executor(&mut self, e: CommandExecutor) -> (prev: CommandExecutor) {
        let mut e = e;
        std::mem::swap(&mut self.executor, &mut e);
        e
    }

    fn build_command_args(&self) -> (r: Vec<String>) {
        let mut args = start_args("show-ref");
        push_flag(&mut args, self.heads, "--heads");
        push_flag(&mut args, self.tags, "--tags");
        push_flag(&mut args, self.head, "--head");
        push_flag(&mut args, self.dereference, "--dereference");
        push_flag(&mut args, self.verify, "--verify");
        push_flag(&mut args, self.exists, "--exists");
        push_flag(&mut args, self.quiet, "-q");
        let ghost before = seq_views(args@);
        match self.hash {
            Some(None) => push_lit(&mut args, "--hash"),
            Some(Some(n)) => push_number(&mut args, "--hash=", n as u64),
            None => {},
        }
        assert(seq_views(args@) =~= before + hash_arg(self.hash));
        push_all(&mut args, &self.patterns);
        args
    }
}

} // verus!
