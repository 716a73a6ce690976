//! `git var` — print a git logical variable.
use vstd::prelude::*;

use crate::command::{
    blank_executor, flag, opt_arg, push_flag, push_opt, start_args, CommandExecutor, GitCommand,
    IntoText,
};
use crate::error::{is_invalid_config, Error, Result};
use crate::text::{opt_view, seq_views, text_is_empty};

verus! {

/// Builder for `git var`.
///
/// Logical variables are the values git computes for itself rather than reads
/// straight from config: the editor it would open, the pager it would pipe
/// through, the identity it would stamp on a commit. Two shapes:
///
/// - [`get`](Self::get), `git var <name>` — one variable, one line of output;
/// - [`list`](Self::list), `git var -l` — every logical variable followed by
///   the whole effective config, as `key=value` lines.
///
/// git accepts a name or `-l` but not both and not neither, so
/// [`validate`](Self::validate) checks that rather than letting git fail on
/// a usage error (exit 129).
///
/// Names are git's, not this crate's: `GIT_AUTHOR_IDENT`,
/// `GIT_COMMITTER_IDENT`, `GIT_EDITOR`, `GIT_PAGER`, and the newer
/// `GIT_DEFAULT_BRANCH` and `GIT_SEQUENCE_EDITOR`. Which ones exist depends on
/// the git version, and an unknown name is a `usage:` failure rather than an
/// empty value.
///
/// No parser: the output is trimmed stdout, a single value under
/// [`get`](Self::get) and newline-separated `key=value` lines under
/// [`list`](Self::list).
#[derive(Debug, Clone)]
pub struct VarCommand {
    /// Shared executor.
    pub executor: CommandExecutor,
    /// The variable to print, when reading one.
    pub name: Option<String>,
    /// `-l`: list every logical variable and the effective config.
    pub list: bool,
}

impl VarCommand {
    /// Print one logical variable, e.g. `get("GIT_AUTHOR_IDENT")`.
    pub fn get(name: impl IntoText) -> (r: Self)
        ensures
            r.executor@ == blank_executor(),
            opt_view(r.name) == Some(name.text()),
            !r.list,
    {
        VarCommand { executor: CommandExecutor::new(), name: Some(name.into_text()), list: false }
    }

    /// List every logical variable and the effective config (`-l`).
    pub fn list() -> (r: Self)
        ensures
            r.executor@ == blank_executor(),
            r.name is None,
            r.list,
    {
        VarCommand { executor: CommandExecutor::new(), name: None, list: true }
    }

    /// The configuration problem that stops the command before it runs, if
    /// any: a name together with `-l`, neither, or an empty name.
    pub open spec fn problem(&self) -> Option<Seq<char>> {
        match self.name {
            Some(_) if self.list => Some("var: a variable name and -l cannot be used together"@),
            None if !self.list => Some("var requires a variable name or -l"@),
            Some(n) if n@.len() == 0 => Some("var requires a variable name"@),
            _ => None,
        }
    }

    /// Check that exactly one of a name and `-l` is selected.
    ///
    /// The constructors pick one, but the fields are public and can be set
    /// afterwards, so both and neither are reachable.
    pub fn validate(&self) -> (r: Result<()>)
        ensures
            r is Ok <==> self.problem() is None,
            r matches Err(e) ==> self.problem() matches Some(m) && is_invalid_config(e, m),
    {
        match &self.name {
            Some(_) if self.list => Err(
                Error::invalid_config("var: a variable name and -l cannot be used together"),
            ),
            None if !self.list => Err(Error::invalid_config("var requires a variable name or -l")),
            Some(name) if text_is_empty(name) => Err(
                Error::invalid_config("var requires a variable name"),
            ),
            _ => Ok(()),
        }
    }
}

impl GitCommand for VarCommand {
    open spec fn executor_spec(&self) -> CommandExecutor {
        self.executor
    }

    open spec fn with_executor_spec(self, e: CommandExecutor) -> Self {
        VarCommand { executor: e, ..self }
    }

    open spec fn args_spec(&self) -> Seq<Seq<char>> {
        seq!["var"@] + flag(self.list, "-l"@) + opt_arg(self.name)
    }

    proof fn lemma_with_executor(self, e1: CommandExecutor, e2: CommandExecutor) {
    }

    proof fn lemma_args_ignore_executor(self, e: CommandExecutor) {
    }

    fn get_executor(&self) -> (r: &CommandExecutor) {
        &self.executor
    }

    fn get_executor_mut(&mut self) -> (r: &mut CommandExecutor) {
        &mut self.executor
    }

    fn replace_executor(&mut self, e: CommandExecutor) -> (prev: CommandExecutor) {
        let mut e = e;
        std::mem::swap(&mut self.executor, &mut e);
        e
    }

    fn build_command_args(&self) -> (r: Vec<String>) {
        let mut args = start_args("var");
        push_flag(&mut args, self.list, "-l");
        push_opt(&mut args, &self.name);
        args
    }
}

} // verus!
