//! `git update-ref` — update the object name stored in a ref safely.
use vstd::prelude::*;

use crate::command::{
    blank_executor, dashdash_paths, flag, opt_arg, opt_flag_arg, opt_joined, push_all,
    push_dashdash_paths, push_decimal, push_flag, push_into, push_joined, push_lit, push_number, push_opt,
    push_opt_flag, start_args, CommandExecutor, GitCommand, IntoText,
};
use crate::error::{is_invalid_config, Error, Result};
use crate::text::{decimal, opt_view, seq_views};

verus! {

/// Builder for `git update-ref`.
#[derive(Debug, Clone)]
pub struct UpdateRefCommand {
    /// Shared executor.
    pub executor: CommandExecutor,
    /// Ref name (e.g. `"refs/heads/main"`).
    pub ref_name: Option<String>,
    /// New object.
    pub new_value: Option<String>,
    /// Expected old object (for safe update).
    pub old_value: Option<String>,
    /// `-d` delete mode.
    pub delete: bool,
    /// `--no-deref`.
    pub no_deref: bool,
    /// `-m <reason>`.
    pub message: Option<String>,
}

impl UpdateRefCommand {
    /// New command.
    pub fn new() -> (r: Self)
        ensures
            r.executor@ == blank_executor(),
            r == (UpdateRefCommand { executor: r.executor, ref_name: None, new_value: None, old_value: None, delete: false, no_deref: false, message: None }),
    {
        UpdateRefCommand { executor: CommandExecutor::new(), ref_name: None, new_value: None, old_value: None, delete: false, no_deref: false, message: None }
    }

    /// Set ref name.
    pub fn ref_name(&mut self, name: impl IntoText) -> (r: &mut Self)
        ensures
            *final(self) == *final(r),
            *r == (UpdateRefCommand { ref_name: r.ref_name, ..*old(self) }),
            opt_view(r.ref_name) == Some(name.text()),
    {
        self.ref_name = Some(name.into_text());
        self
    }

    /// Set new value.
    pub fn new_value(&mut self, v: impl IntoText) -> (r: &mut Self)
        ensures
            *final(self) == *final(r),
            *r == (UpdateRefCommand { new_value: r.new_value, ..*old(self) }),
            opt_view(r.new_value) == Some(v.text()),
    {
        self.new_value = Some(v.into_text());
        self
    }

    /// Set expected old value (compare-and-set).
    pub fn old_value(&mut self, v: impl IntoText) -> (r: &mut Self)
        ensures
            *final(self) == *final(r),
            *r == (UpdateRefCommand { old_value: r.old_value, ..*old(self) }),
            opt_view(r.old_value) == Some(v.text()),
    {
        self.old_value = Some(v.into_text());
        self
    }

    /// Delete the ref.
    pub fn delete(&mut self) -> (r: &mut Self)
        ensures
            *final(self) == *final(r),
            *r == (UpdateRefCommand { delete: true, ..*old(self) }),
    {
        self.delete = true;
        self
    }

    /// `--no-deref`.
    pub fn no_deref(&mut self) -> (r: &mut Self)
        ensures
            *final(self) == *final(r),
            *r == (UpdateRefCommand { no_deref: true, ..*old(self) }),
    {
        self.no_deref = true;
        self
    }

    /// Reflog message.
    pub fn message(&mut self, m: impl IntoText) -> (r: &mut Self)
        ensures
            *final(self) == *final(r),
            *r == (UpdateRefCommand { message: r.message, ..*old(self) }),
            opt_view(r.message) == Some(m.text()),
    {
        self.message = Some(m.into_text());
        self
    }


    /// The configuration problem that stops the command before it runs, if
    /// any: no ref name, or no new value outside delete mode.
    pub open spec fn problem(&self) -> Option<Seq<char>> {
        if self.ref_name is None {
            Some("update-ref requires a ref name"@)
        } else if !self.delete && self.new_value is None {
            Some("update-ref requires a new value unless --delete is set"@)
        } else {
            None
        }
    }

    /// Check the configuration before the command runs.
    pub fn validate(&self) -> (r: Result<()>)
        ensures
            r is Ok <==> self.problem() is None,
            r matches Err(e) ==> self.problem() matches Some(m) && is_invalid_config(e, m),
    {
        if self.ref_name.is_none() {
            return Err(Error::invalid_config("update-ref requires a ref name"));
        }
        if !self.delete && self.new_value.is_none() {
            return Err(Error::invalid_config("update-ref requires a new value unless --delete is set"));
        }
        Ok(())
    }
}

impl Default for UpdateRefCommand {
    fn default() -> (r: Self)
        ensures
            r.executor@ == blank_executor(),
            r == (UpdateRefCommand { executor: r.executor, ref_name: None, new_value: None, old_value: None, delete: false, no_deref: false, message: None }),
    {
        Self::new()
    }
}

impl GitCommand for UpdateRefCommand {
    open spec fn executor_spec(&self) -> CommandExecutor {
        self.executor
    }

    open spec fn with_executor_spec(self, e: CommandExecutor) -> Self {
        UpdateRefCommand { executor: e, ..self }
    }

    open spec fn args_spec(&self) -> Seq<Seq<char>> {
        seq!["update-ref"@] + flag(self.no_deref, "--no-deref"@) + opt_flag_arg(
            "-m"@,
            self.message,
        ) + if self.delete {
            seq!["-d"@] + opt_arg(self.ref_name) + opt_arg(self.old_value)
        } else {
            opt_arg(self.ref_name) + opt_arg(self.new_value) + opt_arg(self.old_value)
        }
    }

    proof fn lemma_with_executor(self, e1: CommandExecutor, e2: CommandExecutor) {
    }

    proof fn lemma_args_ignore_executor(self, e: CommandExecutor) {
    }

    fn get_executor(&self) -> (r: &CommandExecutor) {
        &self.executor
    }

    fn get_executor_mut(&mut self) -> (r: &mut CommandExecutor) {
        &mut self.executor
    }

    fn replace_executor(&mut self, e: CommandExecutor) -> (prev: CommandExecutor) {
        let mut e = e;
        std::mem::swap(&mut self.executor, &mut e);
        e
    }

    fn build_command_args(&self) -> (r: Vec<String>) {
        let mut args = start_args("update-ref");
        push_flag(&mut args, self.no_deref, "--no-deref");
        push_opt_flag(&mut args, "-m", &self.message);
        if self.delete {
            push_lit(&mut args, "-d");
            push_opt(&mut args, &self.ref_name);
            push_opt(&mut args, &self.old_value);
            assert(seq_views(args@) =~= self.args_spec());
            return args;
        }
        push_opt(&mut args, &self.ref_name);
        push_opt(&mut args, &self.new_value);
        push_opt(&mut args, &self.old_value);
        assert(seq_views(args@) =~= self.args_spec());
        args
    }
}

} // verus!
