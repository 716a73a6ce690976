//! `git revert` — undo commits by recording new commits that reverse them.
use vstd::prelude::*;

use crate::command::{
    blank_executor, dashdash_paths, flag, opt_arg, opt_flag_arg, opt_joined, push_all,
    push_dashdash_paths, push_decimal, push_flag, push_into, push_joined, push_lit, push_number, push_opt,
    push_opt_flag, start_args, CommandExecutor, GitCommand, IntoText,
};
use crate::error::{is_invalid_config, Error, Result};
use crate::text::{decimal, opt_view, seq_views};

verus! {

/// `--mainline <n>` when a parent number is set.
pub open spec fn mainline_arg(m: Option<u32>) -> Seq<Seq<char>> {
    match m {
        Some(n) => seq!["--mainline"@, decimal(n as nat)],
        None => Seq::empty(),
    }
}

/// Builder for `git revert`.
///
/// Reverting records a new commit per named commit-ish, so a revert of a
/// merge needs [`mainline`](Self::mainline) to say which parent's line of
/// history to treat as the mainline.
///
/// Unlike `git cherry-pick`, `git revert` opens an editor for the generated
/// commit message by default. There is no terminal behind
/// [`CommandExecutor`], so call [`no_edit`](Self::no_edit) to take git's
/// generated message as-is; otherwise git invokes the configured editor and
/// fails when it cannot run one.
///
/// The session controls [`cont`](Self::cont), [`skip`](Self::skip) and
/// [`abort`](Self::abort) act on a revert that stopped on a conflict. Each
/// takes no other arguments, so setting one makes the command a bare
/// `git revert --<action>`.
#[derive(Debug, Clone)]
pub struct RevertCommand {
    /// Shared executor.
    pub executor: CommandExecutor,
    /// Commits (or ranges) to revert.
    pub commits: Vec<String>,
    /// `--no-commit` / `-n`: stage the reversal without committing.
    pub no_commit: bool,
    /// `--mainline <n>`: the parent number for reverting a merge.
    pub mainline: Option<u32>,
    /// `--no-edit`: keep the generated message without opening an editor.
    pub no_edit: bool,
    /// `--continue`.
    pub cont: bool,
    /// `--skip`.
    pub skip: bool,
    /// `--abort`.
    pub abort: bool,
}

impl RevertCommand {
    /// New command.
    pub fn new() -> (r: Self)
        ensures
            r.executor@ == blank_executor(),
            r == (RevertCommand { executor: r.executor, commits: r.commits, no_commit: false, mainline: None, no_edit: false, cont: false, skip: false, abort: false }),
            r.commits@.len() == 0,
    {
        RevertCommand { executor: CommandExecutor::new(), commits: Vec::new(), no_commit: false, mainline: None, no_edit: false, cont: false, skip: false, abort: false }
    }

    /// Revert `commit`. Repeatable; each call adds one positional argument.
    pub fn commit(&mut self, commit: impl IntoText) -> (r: &mut Self)
        ensures
            *final(self) == *final(r),
            *r == (RevertCommand { commits: r.commits, ..*old(self) }),
            seq_views(r.commits@) == seq_views(old(self).commits@).push(commit.text()),
    {
        push_into(&mut self.commits, commit.into_text());
        self
    }

    /// Stage the reversal in the index and working tree without committing.
    pub fn no_commit(&mut self) -> (r: &mut Self)
        ensures
            *final(self) == *final(r),
            *r == (RevertCommand { no_commit: true, ..*old(self) }),
    {
        self.no_commit = true;
        self
    }

    /// Treat parent number `n` as the mainline when reverting a merge.
    pub fn mainline(&mut self, n: u32) -> (r: &mut Self)
        ensures
            *final(self) == *final(r),
            *r == (RevertCommand { mainline: Some(n), ..*old(self) }),
    {
        self.mainline = Some(n);
        self
    }

    /// Accept the generated commit message instead of opening an editor.
    pub fn no_edit(&mut self) -> (r: &mut Self)
        ensures
            *final(self) == *final(r),
            *r == (RevertCommand { no_edit: true, ..*old(self) }),
    {
        self.no_edit = true;
        self
    }

    /// Continue a revert that stopped on a conflict.
    pub fn cont(&mut self) -> (r: &mut Self)
        ensures
            *final(self) == *final(r),
            *r == (RevertCommand { cont: true, ..*old(self) }),
    {
        self.cont = true;
        self
    }

    /// Skip the commit that a stopped revert is on.
    pub fn skip(&mut self) -> (r: &mut Self)
        ensures
            *final(self) == *final(r),
            *r == (RevertCommand { skip: true, ..*old(self) }),
    {
        self.skip = true;
        self
    }

    /// Abort a stopped revert and restore the pre-revert state.
    pub fn abort(&mut self) -> (r: &mut Self)
        ensures
            *final(self) == *final(r),
            *r == (RevertCommand { abort: true, ..*old(self) }),
    {
        self.abort = true;
        self
    }

    /// Whether a session control is set.
    fn is_session_action(&self) -> (b: bool)
        ensures
            b == (self.cont || self.skip || self.abort),
    {
        self.cont || self.skip || self.abort
    }

    /// The configuration problem that stops the command before it runs, if
    /// any: more than one session control, or no commit and no session
    /// control.
    pub open spec fn problem(&self) -> Option<Seq<char>> {
        let n: int = (if self.cont { 1int } else { 0int }) + (if self.skip { 1int } else { 0int }) + (
        if self.abort {
            1int
        } else {
            0int
        });
        if self.cont || self.skip || self.abort {
            if n > 1 {
                Some("revert: --continue, --skip and --abort are mutually exclusive"@)
            } else {
                None
            }
        } else if self.commits@.len() == 0 {
            Some("revert: no commit given, and no session action to continue"@)
        } else {
            None
        }
    }

    /// Check the configuration before the command runs.
    pub fn validate(&self) -> (r: Result<()>)
        ensures
            r is Ok <==> self.problem() is None,
            r matches Err(e) ==> self.problem() matches Some(m) && is_invalid_config(e, m),
    {
        if self.is_session_action() {
            let mut n: u32 = 0;
            if self.cont {
                n += 1;
            }
            if self.skip {
                n += 1;
            }
            if self.abort {
                n += 1;
            }
            if n > 1 {
                return Err(
                    Error::invalid_config("revert: --continue, --skip and --abort are mutually exclusive"),
                );
            }
        } else if self.commits.len() == 0 {
            return Err(Error::invalid_config("revert: no commit given, and no session action to continue"));
        }
        Ok(())
    }
}

impl Default for RevertCommand {
    fn default() -> (r: Self)
        ensures
            r.executor@ == blank_executor(),
            r == (RevertCommand { executor: r.executor, commits: r.commits, no_commit: false, mainline: None, no_edit: false, cont: false, skip: false, abort: false }),
            r.commits@.len() == 0,
    {
        Self::new()
    }
}

impl GitCommand for RevertCommand {
    open spec fn executor_spec(&self) -> CommandExecutor {
        self.executor
    }

    open spec fn with_executor_spec(self, e: CommandExecutor) -> Self {
        RevertCommand { executor: e, ..self }
    }

    open spec fn args_spec(&self) -> Seq<Seq<char>> {
        seq!["revert"@] + if self.cont {
            seq!["--continue"@]
        } else if self.skip {
            seq!["--skip"@]
        } else if self.abort {
            seq!["--abort"@]
        } else {
            flag(self.no_commit, "--no-commit"@) + flag(self.no_edit, "--no-edit"@) + mainline_arg(
                self.mainline,
            ) + seq_views(self.commits@)
        }
    }

    proof fn lemma_with_executor(self, e1: CommandExecutor, e2: CommandExecutor) {
    }

    proof fn lemma_args_ignore_executor(self, e: CommandExecutor) {
    }

    fn get_executor(&self) -> (r: &CommandExecutor) {
        &self.executor
    }

    fn get_executor_mut(&mut self) -> (r: &mut CommandExecutor) {
        &mut self.executor
    }

    fn replace_executor(&mut self, e: CommandExecutor) -> (prev: CommandExecutor) {
        let mut e = e;
        std::mem::swap(&mut self.executor, &mut e);
        e
    }

    fn build_command_args(&self) -> (r: Vec<String>) {
        let mut args = start_args("revert");
        if self.cont {
            push_lit(&mut args, "--continue");
            return args;
        }
        if self.skip {
            push_lit(&mut args, "--skip");
            return args;
        }
        if self.abort {
            push_lit(&mut args, "--abort");
            return args;
        }
        let ghost before = seq_views(args@);
        push_flag(&mut args, self.no_commit, "--no-commit");
        push_flag(&mut args, self.no_edit, "--no-edit");
        let ghost mid = seq_views(args@);
        if let Some(n) = self.mainline {
            push_lit(&mut args, "--mainline");
            push_decimal(&mut args, n as u64);
        }
        assert(seq_views(args@) =~= mid + mainline_arg(self.mainline));
        push_all(&mut args, &self.commits);
        assert(seq_views(args@) =~= self.args_spec());
        args
    }
}

} // verus!
