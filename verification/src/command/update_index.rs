//! `git update-index` — register file contents in the index.
use vstd::prelude::*;

use crate::command::{
    blank_executor, dashdash_paths, flag, opt_arg, opt_flag_arg, opt_joined, push_all,
    push_dashdash_paths, push_flag, push_into, push_joined, push_lit, push_number, push_opt,
    push_opt_flag, push_text, start_args, CommandExecutor, GitCommand, IntoText,
};
use crate::text::{decimal, opt_view, seq_views};

verus! {

/// A cache entry supplied with `--cacheinfo`.
#[derive(Debug, Clone, PartialEq, Eq)]
pub struct CacheInfo {
    /// File mode.
    pub mode: String,
    /// Object ID.
    pub object: String,
    /// Index path.
    pub path: String,
}

impl View for CacheInfo {
    type V = (Seq<char>, Seq<char>, Seq<char>);

    open spec fn view(&self) -> (Seq<char>, Seq<char>, Seq<char>) {
        (self.mode@, self.object@, self.path@)
    }
}

/// `--cacheinfo <mode> <object> <path>` for each entry, in order.
pub open spec fn cacheinfo_args(cs: Seq<CacheInfo>) -> Seq<Seq<char>>
    decreases cs.len(),
{
    if cs.len() == 0 {
        Seq::empty()
    } else {
        cacheinfo_args(cs.drop_last()) + seq![
            "--cacheinfo"@,
            cs.last().mode@,
            cs.last().object@,
            cs.last().path@,
        ]
    }
}

/// Appends the `--cacheinfo` arguments of every entry.
fn push_cacheinfo(args: &mut Vec<String>, cs: &Vec<CacheInfo>)
    ensures
        seq_views(final(args)@) == seq_views(old(args)@) + cacheinfo_args(cs@),
{
    let ghost before = seq_views(args@);
    let mut i: usize = 0;
    assert(cs@.take(0) =~= Seq::<CacheInfo>::empty());
    while i < cs.len()
        invariant
            i <= cs.len(),
            seq_views(args@) == before + cacheinfo_args(cs@.take(i as int)),
        decreases cs.len() - i,
    {
        let ghost b = seq_views(args@);
        push_lit(args, "--cacheinfo");
        push_text(args, &cs[i].mode);
        push_text(args, &cs[i].object);
        push_text(args, &cs[i].path);
        assert(cs@.take(i + 1).drop_last() =~= cs@.take(i as int));
        assert(seq_views(args@) =~= before + cacheinfo_args(cs@.take(i + 1)));
        i += 1;
    }
    assert(cs@.take(cs.len() as int) =~= cs@);
}

/// Builder for `git update-index`.
#[derive(Debug, Clone)]
#[non_exhaustive]
pub struct UpdateIndexCommand {
    /// Shared executor.
    pub executor: CommandExecutor,
    /// Permit adding files.
    pub add: bool,
    /// Remove missing files.
    pub remove: bool,
    /// Mark paths assume-unchanged.
    pub assume_unchanged: bool,
    /// Cache entries.
    pub cacheinfo: Vec<CacheInfo>,
    /// Paths to manipulate.
    pub paths: Vec<String>,
}

impl UpdateIndexCommand {
    /// Create a command.
    pub fn new() -> (r: Self)
        ensures
            r.executor@ == blank_executor(),
            r == (UpdateIndexCommand { executor: r.executor, cacheinfo: r.cacheinfo, paths: r.paths, add: false, remove: false, assume_unchanged: false }),
            r.cacheinfo@.len() == 0,
            r.paths@.len() == 0,
    {
        UpdateIndexCommand { executor: CommandExecutor::new(), add: false, remove: false, assume_unchanged: false, cacheinfo: Vec::new(), paths: Vec::new() }
    }

    /// Enable `--add`.
    pub fn add(&mut self) -> (r: &mut Self)
        ensures
            *final(self) == *final(r),
            *r == (UpdateIndexCommand { add: true, ..*old(self) }),
    {
        self.add = true;
        self
    }

    /// Enable `--remove`.
    pub fn remove(&mut self) -> (r: &mut Self)
        ensures
            *final(self) == *final(r),
            *r == (UpdateIndexCommand { remove: true, ..*old(self) }),
    {
        self.remove = true;
        self
    }

    /// Enable `--assume-unchanged`.
    pub fn assume_unchanged(&mut self) -> (r: &mut Self)
        ensures
            *final(self) == *final(r),
            *r == (UpdateIndexCommand { assume_unchanged: true, ..*old(self) }),
    {
        self.assume_unchanged = true;
        self
    }

    /// Add a cache entry.
    pub fn cacheinfo(
        &mut self,
        mode: impl IntoText,
        object: impl IntoText,
        path: impl IntoText,
    ) -> (r: &mut Self)
        ensures
            *final(self) == *final(r),
            *r == (UpdateIndexCommand { cacheinfo: r.cacheinfo, ..*old(self) }),
            r.cacheinfo@.len() == old(self).cacheinfo@.len() + 1,
            r.cacheinfo@.drop_last() == old(self).cacheinfo@,
            r.cacheinfo@.last()@ == (mode.text(), object.text(), path.text()),
    {
        let c = CacheInfo { mode: mode.into_text(), object: object.into_text(), path: path.into_text() };
        self.cacheinfo.push(c);
        assert(self.cacheinfo@.drop_last() =~= old(self).cacheinfo@);
        self
    }

    /// Add a path.
    pub fn path(&mut self, v: impl IntoText) -> (r: &mut Self)
        ensures
            *final(self) == *final(r),
            *r == (UpdateIndexCommand { paths: r.paths, ..*old(self) }),
            seq_views(r.paths@) == seq_views(old(self).paths@).push(v.text()),
    {
        push_into(&mut self.paths, v.into_text());
        self
    }
}

impl Default for UpdateIndexCommand {
    fn default() -> (r: Self)
        ensures
            r.executor@ == blank_executor(),
            r == (UpdateIndexCommand { executor: r.executor, cacheinfo: r.cacheinfo, paths: r.paths, add: false, remove: false, assume_unchanged: false }),
            r.cacheinfo@.len() == 0,
            r.paths@.len() == 0,
    {
        Self::new()
    }
}

impl GitCommand for UpdateIndexCommand {
    open spec fn executor_spec(&self) -> CommandExecutor {
        self.executor
    }

    open spec fn with_executor_spec(self, e: CommandExecutor) -> Self {
        UpdateIndexCommand { executor: e, ..self }
    }

    open spec fn args_spec(&self) -> Seq<Seq<char>> {
        seq!["update-index"@] + flag(self.add, "--add"@) + flag(self.remove, "--remove"@) + flag(self.assume_unchanged, "--assume-unchanged"@) + cacheinfo_args(self.cacheinfo@) + dashdash_paths(self.paths@)
    }

    proof fn lemma_with_executor(self, e1: CommandExecutor, e2: CommandExecutor) {
    }

    proof fn lemma_args_ignore_executor(self, e: CommandExecutor) {
    }

    fn get_executor(&self) -> (r: &CommandExecutor) {
        &self.executor
    }

    fn get_executor_mut(&mut self) -> (r: &mut CommandExecutor) {
        &mut self.executor
    }

    fn replace_executor(&mut self, e: CommandExecutor) -> (prev: CommandExecutor) {
        let mut e = e;
        std::mem::swap(&mut self.executor, &mut e);
        e
    }

    fn build_command_args(&self) -> (r: Vec<String>) {
        let mut args = start_args("update-index");
        push_flag(&mut args, self.add, "--add");
        push_flag(&mut args, self.remove, "--remove");
        push_flag(&mut args, self.assume_unchanged, "--assume-unchanged");
        let ghost before = seq_views(args@);
        push_cacheinfo(&mut args, &self.cacheinfo);
        assert(seq_views(args@) =~= before + cacheinfo_args(self.cacheinfo@));
        push_dashdash_paths(&mut args, &self.paths);
        args
    }
}

} // verus!
