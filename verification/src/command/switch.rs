//! `git switch` — switch branches (modern successor to `checkout`).
use vstd::prelude::*;

use crate::command::{
    blank_executor, dashdash_paths, flag, opt_arg, opt_flag_arg, opt_joined, push_all,
    push_dashdash_paths, push_flag, push_into, push_joined, push_lit, push_number, push_opt,
    push_opt_flag, start_args, CommandExecutor, GitCommand, IntoText,
};
use crate::text::{decimal, opt_view, seq_views};

verus! {

/// Builder for `git switch`.
#[derive(Debug, Clone)]
pub struct SwitchCommand {
    /// Shared executor.
    pub executor: CommandExecutor,
    /// Target branch.
    pub target: Option<String>,
    /// `-c` create.
    pub create: Option<String>,
    /// `-C` force create.
    pub force_create: Option<String>,
    /// `--detach`.
    pub detach: bool,
    /// `--discard-changes`.
    pub discard_changes: bool,
    /// `--track`.
    pub track: bool,
    /// `--no-track`.
    pub no_track: bool,
    /// `--orphan`.
    pub orphan: Option<String>,
}

impl SwitchCommand {
    /// New `switch` command.
    pub fn new() -> (r: Self)
        ensures
            r.executor@ == blank_executor(),
            r == (SwitchCommand { executor: r.executor, target: None, create: None, force_create: None, detach: false, discard_changes: false, track: false, no_track: false, orphan: None }),
    {
        SwitchCommand { executor: CommandExecutor::new(), target: None, create: None, force_create: None, detach: false, discard_changes: false, track: false, no_track: false, orphan: None }
    }

    /// Target branch.
    pub fn target(&mut self, t: impl IntoText) -> (r: &mut Self)
        ensures
            *final(self) == *final(r),
            *r == (SwitchCommand { target: r.target, ..*old(self) }),
            opt_view(r.target) == Some(t.text()),
    {
        self.target = Some(t.into_text());
        self
    }

    /// Create a branch (`-c`).
    pub fn create(&mut self, name: impl IntoText) -> (r: &mut Self)
        ensures
            *final(self) == *final(r),
            *r == (SwitchCommand { create: r.create, ..*old(self) }),
            opt_view(r.create) == Some(name.text()),
    {
        self.create = Some(name.into_text());
        self
    }

    /// Force-create (`-C`).
    pub fn force_create(&mut self, name: impl IntoText) -> (r: &mut Self)
        ensures
            *final(self) == *final(r),
            *r == (SwitchCommand { force_create: r.force_create, ..*old(self) }),
            opt_view(r.force_create) == Some(name.text()),
    {
        self.force_create = Some(name.into_text());
        self
    }

    /// Detach HEAD.
    pub fn detach(&mut self) -> (r: &mut Self)
        ensures
            *final(self) == *final(r),
            *r == (SwitchCommand { detach: true, ..*old(self) }),
    {
        self.detach = true;
        self
    }

    /// Discard local changes.
    pub fn discard_changes(&mut self) -> (r: &mut Self)
        ensures
            *final(self) == *final(r),
            *r == (SwitchCommand { discard_changes: true, ..*old(self) }),
    {
        self.discard_changes = true;
        self
    }

    /// `--track`.
    pub fn track(&mut self) -> (r: &mut Self)
        ensures
            *final(self) == *final(r),
            *r == (SwitchCommand { track: true, ..*old(self) }),
    {
        self.track = true;
        self
    }

    /// `--no-track`.
    pub fn no_track(&mut self) -> (r: &mut Self)
        ensures
            *final(self) == *final(r),
            *r == (SwitchCommand { no_track: true, ..*old(self) }),
    {
        self.no_track = true;
        self
    }

    /// Orphan branch.
    pub fn orphan(&mut self, name: impl IntoText) -> (r: &mut Self)
        ensures
            *final(self) == *final(r),
            *r == (SwitchCommand { orphan: r.orphan, ..*old(self) }),
            opt_view(r.orphan) == Some(name.text()),
    {
        self.orphan = Some(name.into_text());
        self
    }
}

impl Default for SwitchCommand {
    fn default() -> (r: Self)
        ensures
            r.executor@ == blank_executor(),
            r == (SwitchCommand { executor: r.executor, target: None, create: None, force_create: None, detach: false, discard_changes: false, track: false, no_track: false, orphan: None }),
    {
        Self::new()
    }
}

impl GitCommand for SwitchCommand {
    open spec fn executor_spec(&self) -> CommandExecutor {
        self.executor
    }

    open spec fn with_executor_spec(self, e: CommandExecutor) -> Self {
        SwitchCommand { executor: e, ..self }
    }

    open spec fn args_spec(&self) -> Seq<Seq<char>> {
        seq!["switch"@] + flag(self.detach, "--detach"@) + flag(self.discard_changes, "--discard-changes"@) + flag(self.track, "--track"@) + flag(self.no_track, "--no-track"@) + opt_flag_arg("--orphan"@, self.orphan) + opt_flag_arg("-c"@, self.create) + opt_flag_arg("-C"@, self.force_create) + opt_arg(self.target)
    }

    proof fn lemma_with_executor(self, e1: CommandExecutor, e2: CommandExecutor) {
    }

    proof fn lemma_args_ignore_executor(self, e: CommandExecutor) {
    }

    fn get_executor(&self) -> (r: &CommandExecutor) {
        &self.executor
    }

    fn get_executor_mut(&mut self) -> (r: &mut CommandExecutor) {
        &mut self.executor
    }

    fn replace_executor(&mut self, e: CommandExecutor) -> (prev: CommandExecutor) {
        let mut e = e;
        std::mem::swap(&mut self.executor, &mut e);
        e
    }

    fn build_command_args(&self) -> (r: Vec<String>) {
        let mut args = start_args("switch");
        push_flag(&mut args, self.detach, "--detach");
        push_flag(&mut args, self.discard_changes, "--discard-changes");
        push_flag(&mut args, self.track, "--track");
        push_flag(&mut args, self.no_track, "--no-track");
        push_opt_flag(&mut args, "--orphan", &self.orphan);
        push_opt_flag(&mut args, "-c", &self.create);
        push_opt_flag(&mut args, "-C", &self.force_create);
        push_opt(&mut args, &self.target);
        args
    }
}

} // verus!
