//! `git verify-commit` — check the GPG or SSH signature on a commit.
use vstd::prelude::*;

use crate::command::{
    blank_executor, dashdash_paths, flag, opt_arg, opt_flag_arg, opt_joined, push_all,
    push_dashdash_paths, push_decimal, push_flag, push_into, push_joined, push_lit, push_number, push_opt,
    push_opt_flag, start_args, CommandExecutor, GitCommand, IntoText,
};
use crate::error::{is_invalid_config, Error, Result};
use crate::text::{decimal, opt_view, seq_views};

verus! {

/// Builder for `git verify-commit`.
///
/// Verifies the signature recorded on one or more commits. The signature
/// itself is produced at commit time.
///
/// `git verify-commit` exits non-zero when a commit is unsigned or its
/// signature does not validate, so a failed verification arrives as
/// [`Error::CommandFailed`] rather than a successful run with a negative
/// verdict. The captured `stderr` carries git's explanation (the
/// verification report is written to stderr, not stdout).
#[derive(Debug, Clone)]
pub struct VerifyCommitCommand {
    /// Shared executor.
    pub executor: CommandExecutor,
    /// The commits to verify, in the order they were added.
    pub commits: Vec<String>,
    /// `--raw`: print the verification report in machine-readable form.
    pub raw: bool,
    /// `-v`: also print the contents of the commit object.
    pub verbose: bool,
}

impl VerifyCommitCommand {
    /// New command.
    pub fn new() -> (r: Self)
        ensures
            r.executor@ == blank_executor(),
            r == (VerifyCommitCommand { executor: r.executor, commits: r.commits, raw: false, verbose: false }),
            r.commits@.len() == 0,
    {
        VerifyCommitCommand { executor: CommandExecutor::new(), commits: Vec::new(), raw: false, verbose: false }
    }

    /// Verify `commit`. Call repeatedly to verify several commits.
    pub fn commit(&mut self, commit: impl IntoText) -> (r: &mut Self)
        ensures
            *final(self) == *final(r),
            *r == (VerifyCommitCommand { commits: r.commits, ..*old(self) }),
            seq_views(r.commits@) == seq_views(old(self).commits@).push(commit.text()),
    {
        push_into(&mut self.commits, commit.into_text());
        self
    }

    /// Emit the raw gpg status output instead of the human-readable report.
    pub fn raw(&mut self) -> (r: &mut Self)
        ensures
            *final(self) == *final(r),
            *r == (VerifyCommitCommand { raw: true, ..*old(self) }),
    {
        self.raw = true;
        self
    }

    /// Also print the contents of each verified commit object.
    pub fn verbose(&mut self) -> (r: &mut Self)
        ensures
            *final(self) == *final(r),
            *r == (VerifyCommitCommand { verbose: true, ..*old(self) }),
    {
        self.verbose = true;
        self
    }


    /// The configuration problem that stops the command before it runs, if
    /// any: nothing to verify.
    pub open spec fn problem(&self) -> Option<Seq<char>> {
        if self.commits@.len() == 0 {
            Some("verify-commit requires at least one commit"@)
        } else {
            None
        }
    }

    /// Check the configuration before the command runs.
    pub fn validate(&self) -> (r: Result<()>)
        ensures
            r is Ok <==> self.problem() is None,
            r matches Err(e) ==> self.problem() matches Some(m) && is_invalid_config(e, m),
    {
        if self.commits.len() == 0 {
            return Err(Error::invalid_config("verify-commit requires at least one commit"));
        }
        Ok(())
    }
}

impl Default for VerifyCommitCommand {
    fn default() -> (r: Self)
        ensures
            r.executor@ == blank_executor(),
            r == (VerifyCommitCommand { executor: r.executor, commits: r.commits, raw: false, verbose: false }),
            r.commits@.len() == 0,
    {
        Self::new()
    }
}

impl GitCommand for VerifyCommitCommand {
    open spec fn executor_spec(&self) -> CommandExecutor {
        self.executor
    }

    open spec fn with_executor_spec(self, e: CommandExecutor) -> Self {
        VerifyCommitCommand { executor: e, ..self }
    }

    open spec fn args_spec(&self) -> Seq<Seq<char>> {
        seq!["verify-commit"@] + flag(self.raw, "--raw"@) + flag(self.verbose, "-v"@) + seq_views(self.commits@)
    }

    proof fn lemma_with_executor(self, e1: CommandExecutor, e2: CommandExecutor) {
    }

    proof fn lemma_args_ignore_executor(self, e: CommandExecutor) {
    }

    fn get_executor(&self) -> (r: &CommandExecutor) {
        &self.executor
    }

    fn get_executor_mut(&mut self) -> (r: &mut CommandExecutor) {
        &mut self.executor
    }

    fn replace_executor(&mut self, e: CommandExecutor) -> (prev: CommandExecutor) {
        let mut e = e;
        std::mem::swap(&mut self.executor, &mut e);
        e
    }

    fn build_command_args(&self) -> (r: Vec<String>) {
        let mut args = start_args("verify-commit");
        push_flag(&mut args, self.raw, "--raw");
        push_flag(&mut args, self.verbose, "-v");
        push_all(&mut args, &self.commits);
        args
    }
}

} // verus!
