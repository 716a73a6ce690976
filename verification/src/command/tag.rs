//! `git tag` — create, list, delete, or verify tags.
use vstd::prelude::*;

use crate::command::{
    blank_executor, dashdash_paths, flag, opt_arg, opt_flag_arg, opt_joined, push_all,
    push_dashdash_paths, push_flag, push_into, push_joined, push_lit, push_number, push_opt,
    push_opt_flag, start_args, CommandExecutor, GitCommand, IntoText,
};
use crate::text::{decimal, opt_view, seq_views};

verus! {

/// Builder for `git tag`.
#[derive(Debug, Clone)]
pub struct TagCommand {
    /// Shared executor.
    pub executor: CommandExecutor,
    /// Tag name.
    pub name: Option<String>,
    /// Commit-ish to tag.
    pub commit: Option<String>,
    /// `-a` annotated.
    pub annotated: bool,
    /// `-m` message.
    pub message: Option<String>,
    /// `-s` signed.
    pub signed: bool,
    /// `-f` force.
    pub force: bool,
    /// `-d` delete.
    pub delete: bool,
    /// `-l` list mode.
    pub list: bool,
    /// Pattern filter (for list).
    pub pattern: Option<String>,
}

impl TagCommand {
    /// New `tag` command.
    pub fn new() -> (r: Self)
        ensures
            r.executor@ == blank_executor(),
            r == (TagCommand { executor: r.executor, name: None, commit: None, annotated: false, message: None, signed: false, force: false, delete: false, list: false, pattern: None }),
    {
        TagCommand { executor: CommandExecutor::new(), name: None, commit: None, annotated: false, message: None, signed: false, force: false, delete: false, list: false, pattern: None }
    }

    /// Name.
    pub fn name(&mut self, n: impl IntoText) -> (r: &mut Self)
        ensures
            *final(self) == *final(r),
            *r == (TagCommand { name: r.name, ..*old(self) }),
            opt_view(r.name) == Some(n.text()),
    {
        self.name = Some(n.into_text());
        self
    }

    /// Commit to tag.
    pub fn commit(&mut self, c: impl IntoText) -> (r: &mut Self)
        ensures
            *final(self) == *final(r),
            *r == (TagCommand { commit: r.commit, ..*old(self) }),
            opt_view(r.commit) == Some(c.text()),
    {
        self.commit = Some(c.into_text());
        self
    }

    /// Annotated.
    pub fn annotated(&mut self) -> (r: &mut Self)
        ensures
            *final(self) == *final(r),
            *r == (TagCommand { annotated: true, ..*old(self) }),
    {
        self.annotated = true;
        self
    }

    /// Tag message (makes the tag annotated).
    pub fn message(&mut self, m: impl IntoText) -> (r: &mut Self)
        ensures
            *final(self) == *final(r),
            *r == (TagCommand { message: r.message, annotated: true, ..*old(self) }),
            opt_view(r.message) == Some(m.text()),
    {
        self.message = Some(m.into_text());
        self.annotated = true;
        self
    }

    /// GPG-sign.
    pub fn signed(&mut self) -> (r: &mut Self)
        ensures
            *final(self) == *final(r),
            *r == (TagCommand { signed: true, ..*old(self) }),
    {
        self.signed = true;
        self
    }

    /// Force.
    pub fn force(&mut self) -> (r: &mut Self)
        ensures
            *final(self) == *final(r),
            *r == (TagCommand { force: true, ..*old(self) }),
    {
        self.force = true;
        self
    }

    /// Delete.
    pub fn delete(&mut self) -> (r: &mut Self)
        ensures
            *final(self) == *final(r),
            *r == (TagCommand { delete: true, ..*old(self) }),
    {
        self.delete = true;
        self
    }

    /// List mode.
    pub fn list(&mut self) -> (r: &mut Self)
        ensures
            *final(self) == *final(r),
            *r == (TagCommand { list: true, ..*old(self) }),
    {
        self.list = true;
        self
    }

    /// List pattern (selects list mode).
    pub fn pattern(&mut self, p: impl IntoText) -> (r: &mut Self)
        ensures
            *final(self) == *final(r),
            *r == (TagCommand { pattern: r.pattern, list: true, ..*old(self) }),
            opt_view(r.pattern) == Some(p.text()),
    {
        self.pattern = Some(p.into_text());
        self.list = true;
        self
    }
}

impl Default for TagCommand {
    fn default() -> (r: Self)
        ensures
            r.executor@ == blank_executor(),
            r == (TagCommand { executor: r.executor, name: None, commit: None, annotated: false, message: None, signed: false, force: false, delete: false, list: false, pattern: None }),
    {
        Self::new()
    }
}

impl GitCommand for TagCommand {
    open spec fn executor_spec(&self) -> CommandExecutor {
        self.executor
    }

    open spec fn with_executor_spec(self, e: CommandExecutor) -> Self {
        TagCommand { executor: e, ..self }
    }

    open spec fn args_spec(&self) -> Seq<Seq<char>> {
        seq!["tag"@] + if self.delete {
            seq!["-d"@] + opt_arg(self.name)
        } else if self.list {
            seq!["-l"@] + opt_arg(self.pattern)
        } else {
            flag(self.annotated, "-a"@) + flag(self.signed, "-s"@) + flag(self.force, "-f"@)
                + opt_flag_arg("-m"@, self.message) + opt_arg(self.name) + opt_arg(self.commit)
        }
    }

    proof fn lemma_with_executor(self, e1: CommandExecutor, e2: CommandExecutor) {
    }

    proof fn lemma_args_ignore_executor(self, e: CommandExecutor) {
    }

    fn get_executor(&self) -> (r: &CommandExecutor) {
        &self.executor
    }

    fn get_executor_mut(&mut self) -> (r: &mut CommandExecutor) {
        &mut self.executor
    }

    fn replace_executor(&mut self, e: CommandExecutor) -> (prev: CommandExecutor) {
        let mut e = e;
        std::mem::swap(&mut self.executor, &mut e);
        e
    }

    fn build_command_args(&self) -> (r: Vec<String>) {
        let mut args = start_args("tag");
        let ghost before = seq_views(args@);
        if self.delete {
            push_lit(&mut args, "-d");
            push_opt(&mut args, &self.name);
            assert(seq_views(args@) =~= self.args_spec());
            return args;
        }
        if self.list {
            push_lit(&mut args, "-l");
            push_opt(&mut args, &self.pattern);
            assert(seq_views(args@) =~= self.args_spec());
            return args;
        }
        push_flag(&mut args, self.annotated, "-a");
        push_flag(&mut args, self.signed, "-s");
        push_flag(&mut args, self.force, "-f");
        push_opt_flag(&mut args, "-m", &self.message);
        push_opt(&mut args, &self.name);
        push_opt(&mut args, &self.commit);
        assert(seq_views(args@) =~= self.args_spec());
        args
    }
}

} // verus!
