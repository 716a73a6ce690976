//! `git shortlog` — summarize commit history grouped by author.
use vstd::prelude::*;

use crate::command::{
    blank_executor, dashdash_paths, flag, opt_arg, opt_flag_arg, opt_joined, push_all,
    push_dashdash_paths, push_decimal, push_flag, push_into, push_joined, push_lit, push_number, push_opt,
    push_opt_flag, start_args, CommandExecutor, GitCommand, IntoText,
};
use crate::error::{is_invalid_config, Error, Result};
use crate::command::CommandOutput;
use crate::parse::shortlog::{parse_shortlog, shortlog_spec, ShortlogEntry};
use crate::text::{decimal, opt_view, seq_views};

verus! {

/// `-w<width>` when a width is set.
pub open spec fn wrap_arg(w: Option<usize>) -> Seq<Seq<char>> {
    match w {
        Some(n) => seq!["-w"@ + decimal(n as nat)],
        None => Seq::empty(),
    }
}

/// Builder for `git shortlog`.
///
/// At least one revision is required. Given no revision argument and a
/// non-terminal standard input, `git shortlog` summarizes a log read from
/// stdin instead of the repository, so [`validate`](Self::validate) rejects an
/// empty revision list as [`Error::InvalidConfig`] rather than leaving the
/// command pointed at whatever stdin happens to be.
///
/// The default output lists each author with a count and the subject of every
/// commit. [`summary`](Self::summary) drops the subjects, leaving one line per
/// author. [`parse_entries`](Self::parse_entries) reads either shape.
#[derive(Debug, Clone)]
pub struct ShortlogCommand {
    /// Shared executor.
    pub executor: CommandExecutor,
    /// Revisions and revision ranges to summarize.
    pub revs: Vec<String>,
    /// Pathspecs limiting which commits are counted.
    pub paths: Vec<String>,
    /// `-s`: counts only, without commit subjects.
    pub summary: bool,
    /// `-n`: sort authors by commit count instead of alphabetically.
    pub numbered: bool,
    /// `-e`: show author emails alongside names.
    pub email: bool,
    /// `-c`: group by committer rather than author.
    pub committer: bool,
    /// `-w<width>`: wrap subject lines at this width.
    pub wrap: Option<usize>,
}

impl ShortlogCommand {
    /// New command.
    pub fn new() -> (r: Self)
        ensures
            r.executor@ == blank_executor(),
            r == (ShortlogCommand { executor: r.executor, revs: r.revs, paths: r.paths, summary: false, numbered: false, email: false, committer: false, wrap: None }),
            r.revs@.len() == 0,
            r.paths@.len() == 0,
    {
        ShortlogCommand { executor: CommandExecutor::new(), revs: Vec::new(), paths: Vec::new(), summary: false, numbered: false, email: false, committer: false, wrap: None }
    }

    /// Summarize `rev`, which may be a single revision or a range such as
    /// `v1.0..HEAD`. Repeatable.
    pub fn rev(&mut self, rev: impl IntoText) -> (r: &mut Self)
        ensures
            *final(self) == *final(r),
            *r == (ShortlogCommand { revs: r.revs, ..*old(self) }),
            seq_views(r.revs@) == seq_views(old(self).revs@).push(rev.text()),
    {
        push_into(&mut self.revs, rev.into_text());
        self
    }

    /// Limit the summary to commits touching `path`. Repeatable.
    pub fn path(&mut self, path: impl IntoText) -> (r: &mut Self)
        ensures
            *final(self) == *final(r),
            *r == (ShortlogCommand { paths: r.paths, ..*old(self) }),
            seq_views(r.paths@) == seq_views(old(self).paths@).push(path.text()),
    {
        push_into(&mut self.paths, path.into_text());
        self
    }

    /// Limit the summary to commits touching any of `paths`.
    pub fn paths(&mut self, paths: Vec<String>) -> (r: &mut Self)
        ensures
            *final(self) == *final(r),
            *r == (ShortlogCommand { paths: r.paths, ..*old(self) }),
            seq_views(r.paths@) == seq_views(old(self).paths@) + seq_views(paths@),
    {
        push_all(&mut self.paths, &paths);
        self
    }

    /// Report counts only, omitting commit subjects.
    pub fn summary(&mut self) -> (r: &mut Self)
        ensures
            *final(self) == *final(r),
            *r == (ShortlogCommand { summary: true, ..*old(self) }),
    {
        self.summary = true;
        self
    }

    /// Sort authors by commit count, highest first.
    pub fn numbered(&mut self) -> (r: &mut Self)
        ensures
            *final(self) == *final(r),
            *r == (ShortlogCommand { numbered: true, ..*old(self) }),
    {
        self.numbered = true;
        self
    }

    /// Show author emails alongside names.
    pub fn email(&mut self) -> (r: &mut Self)
        ensures
            *final(self) == *final(r),
            *r == (ShortlogCommand { email: true, ..*old(self) }),
    {
        self.email = true;
        self
    }

    /// Group commits by committer instead of author.
    pub fn committer(&mut self) -> (r: &mut Self)
        ensures
            *final(self) == *final(r),
            *r == (ShortlogCommand { committer: true, ..*old(self) }),
    {
        self.committer = true;
        self
    }

    /// Wrap subject lines at `width` columns, `0` meaning no wrapping.
    ///
    /// git's indent defaults are kept, so wrapped output stays readable by
    /// [`parse_shortlog`](crate::parse::shortlog::parse_shortlog), which
    /// rejoins the continuation lines.
    pub fn wrap(&mut self, width: usize) -> (r: &mut Self)
        ensures
            *final(self) == *final(r),
            *r == (ShortlogCommand { wrap: Some(width), ..*old(self) }),
    {
        self.wrap = Some(width);
        self
    }


    /// The configuration problem that stops the command before it runs, if
    /// any: no revision.
    pub open spec fn problem(&self) -> Option<Seq<char>> {
        if self.revs@.len() == 0 {
            Some("shortlog: at least one revision is required"@)
        } else {
            None
        }
    }

    /// Check the configuration before the command runs.
    pub fn validate(&self) -> (r: Result<()>)
        ensures
            r is Ok <==> self.problem() is None,
            r matches Err(e) ==> self.problem() matches Some(m) && is_invalid_config(e, m),
    {
        if self.revs.len() == 0 {
            return Err(Error::invalid_config("shortlog: at least one revision is required"));
        }
        Ok(())
    }
}

impl ShortlogCommand {
    /// Parse a completed run's [`CommandOutput`] into typed entries.
    pub fn parse_entries(&self, output: &CommandOutput) -> (r: Vec<ShortlogEntry>)
        ensures
            seq_views(r@) == shortlog_spec(crate::command::lossy_text(output.stdout@)),
            vstd::utf8::valid_utf8(output.stdout@) ==> seq_views(r@) == shortlog_spec(
                vstd::utf8::decode_utf8(output.stdout@),
            ),
    {
        let text = output.stdout_str();
        parse_shortlog(text.as_str())
    }
}

impl Default for ShortlogCommand {
    fn default() -> (r: Self)
        ensures
            r.executor@ == blank_executor(),
            r == (ShortlogCommand { executor: r.executor, revs: r.revs, paths: r.paths, summary: false, numbered: false, email: false, committer: false, wrap: None }),
            r.revs@.len() == 0,
            r.paths@.len() == 0,
    {
        Self::new()
    }
}

impl GitCommand for ShortlogCommand {
    open spec fn executor_spec(&self) -> CommandExecutor {
        self.executor
    }

    open spec fn with_executor_spec(self, e: CommandExecutor) -> Self {
        ShortlogCommand { executor: e, ..self }
    }

    open spec fn args_spec(&self) -> Seq<Seq<char>> {
        seq!["shortlog"@] + flag(self.summary, "-s"@) + flag(self.numbered, "-n"@) + flag(self.email, "-e"@) + flag(self.committer, "-c"@) + wrap_arg(self.wrap) + seq_views(self.revs@) + dashdash_paths(self.paths@)
    }

    proof fn lemma_with_executor(self, e1: CommandExecutor, e2: CommandExecutor) {
    }

    proof fn lemma_args_ignore_executor(self, e: CommandExecutor) {
    }

    fn get_executor(&self) -> (r: &CommandExecutor) {
        &self.executor
    }

    fn get_executor_mut(&mut self) -> (r: &mut CommandExecutor) {
        &mut self.executor
    }

    fn replace_executor(&mut self, e: CommandExecutor) -> (prev: CommandExecutor) {
        let mut e = e;
        std::mem::swap(&mut self.executor, &mut e);
        e
    }

    fn build_command_args(&self) -> (r: Vec<String>) {
        let mut args = start_args("shortlog");
        push_flag(&mut args, self.summary, "-s");
        push_flag(&mut args, self.numbered, "-n");
        push_flag(&mut args, self.email, "-e");
        push_flag(&mut args, self.committer, "-c");
        let ghost before = seq_views(args@);
        if let Some(width) = self.wrap {
            push_number(&mut args, "-w", width as u64);
        }
        assert(seq_views(args@) =~= before + wrap_arg(self.wrap));
        push_all(&mut args, &self.revs);
        push_dashdash_paths(&mut args, &self.paths);
        args
    }
}

} // verus!
