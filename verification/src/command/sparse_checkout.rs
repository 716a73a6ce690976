//! `git sparse-checkout` — limit the working tree to a subset of paths.
use vstd::prelude::*;

use crate::command::{
    blank_executor, flag, one_text, push_all, push_flag, push_into, push_lit, start_args,
    CommandExecutor, GitCommand, IntoText,
};
use crate::text::seq_views;

verus! {

/// Actions supported by `git sparse-checkout`.
#[derive(Debug, Clone)]
pub enum SparseCheckoutAction {
    /// `git sparse-checkout init [--[no-]cone] [--[no-]sparse-index]`: enable
    /// sparse checkout with a pattern set matching only the top-level files.
    Init {
        /// `--cone` / `--no-cone`.
        cone: Option<bool>,
        /// `--sparse-index` / `--no-sparse-index`.
        sparse_index: Option<bool>,
    },
    /// `git sparse-checkout set [<options>] <pattern>...`: replace the pattern
    /// set, enabling sparse checkout if it was off.
    SetPatterns {
        /// Patterns to write. At least one is required, so the first is taken
        /// by the constructor.
        patterns: Vec<String>,
        /// `--cone` / `--no-cone`.
        cone: Option<bool>,
        /// `--sparse-index` / `--no-sparse-index`.
        sparse_index: Option<bool>,
        /// `--skip-checks`.
        skip_checks: bool,
    },
    /// `git sparse-checkout add [--skip-checks] <pattern>...`: extend the
    /// pattern set.
    Add {
        /// Patterns to append. At least one is required, so the first is taken
        /// by the constructor.
        patterns: Vec<String>,
        /// `--skip-checks`.
        skip_checks: bool,
    },
    /// `git sparse-checkout list`: print the current pattern set.
    List,
    /// `git sparse-checkout disable`: restore a full checkout and clear
    /// `core.sparseCheckout`.
    Disable,
}

/// The abstract contents of a [`SparseCheckoutAction`].
pub enum SparseCheckoutActionView {
    Init { cone: Option<bool>, sparse_index: Option<bool> },
    SetPatterns {
        patterns: Seq<Seq<char>>,
        cone: Option<bool>,
        sparse_index: Option<bool>,
        skip_checks: bool,
    },
    Add { patterns: Seq<Seq<char>>, skip_checks: bool },
    List,
    Disable,
}

impl View for SparseCheckoutAction {
    type V = SparseCheckoutActionView;

    open spec fn view(&self) -> SparseCheckoutActionView {
        match self {
            SparseCheckoutAction::Init { cone, sparse_index } => SparseCheckoutActionView::Init {
                cone: *cone,
                sparse_index: *sparse_index,
            },
            SparseCheckoutAction::SetPatterns { patterns, cone, sparse_index, skip_checks } =>
                SparseCheckoutActionView::SetPatterns {
                patterns: seq_views(patterns@),
                cone: *cone,
                sparse_index: *sparse_index,
                skip_checks: *skip_checks,
            },
            SparseCheckoutAction::Add { patterns, skip_checks } => SparseCheckoutActionView::Add {
                patterns: seq_views(patterns@),
                skip_checks: *skip_checks,
            },
            SparseCheckoutAction::List => SparseCheckoutActionView::List,
            SparseCheckoutAction::Disable => SparseCheckoutActionView::Disable,
        }
    }
}

/// `--<name>` or `--no-<name>` for a set toggle, nothing otherwise.
pub open spec fn toggle(name: Seq<char>, value: Option<bool>) -> Seq<Seq<char>> {
    match value {
        Some(true) => seq!["--"@ + name],
        Some(false) => seq!["--no-"@ + name],
        None => Seq::empty(),
    }
}

/// The arguments that follow `sparse-checkout` for an action.
pub open spec fn action_args(a: SparseCheckoutActionView) -> Seq<Seq<char>> {
    match a {
        SparseCheckoutActionView::Init { cone, sparse_index } => seq!["init"@] + toggle(
            "cone"@,
            cone,
        ) + toggle("sparse-index"@, sparse_index),
        SparseCheckoutActionView::SetPatterns { patterns, cone, sparse_index, skip_checks } => seq![
            "set"@,
        ] + toggle("cone"@, cone) + toggle("sparse-index"@, sparse_index) + flag(
            skip_checks,
            "--skip-checks"@,
        ) + patterns,
        SparseCheckoutActionView::Add { patterns, skip_checks } => seq!["add"@] + flag(
            skip_checks,
            "--skip-checks"@,
        ) + patterns,
        SparseCheckoutActionView::List => seq!["list"@],
        SparseCheckoutActionView::Disable => seq!["disable"@],
    }
}

/// The action with one more pattern, where it is `set` or `add`.
pub open spec fn add_pattern(a: SparseCheckoutActionView, p: Seq<char>) -> SparseCheckoutActionView {
    match a {
        SparseCheckoutActionView::SetPatterns { patterns, cone, sparse_index, skip_checks } =>
            SparseCheckoutActionView::SetPatterns {
            patterns: patterns.push(p),
            cone,
            sparse_index,
            skip_checks,
        },
        SparseCheckoutActionView::Add { patterns, skip_checks } => SparseCheckoutActionView::Add {
            patterns: patterns.push(p),
            skip_checks,
        },
        _ => a,
    }
}

/// The action with its cone toggle set, where it is `init` or `set`.
pub open spec fn with_cone(a: SparseCheckoutActionView, v: bool) -> SparseCheckoutActionView {
    match a {
        SparseCheckoutActionView::Init { cone: _, sparse_index } =>
            SparseCheckoutActionView::Init { cone: Some(v), sparse_index },
        SparseCheckoutActionView::SetPatterns { patterns, cone: _, sparse_index, skip_checks } =>
            SparseCheckoutActionView::SetPatterns { patterns, cone: Some(v), sparse_index, skip_checks },
        _ => a,
    }
}

/// The action with its sparse-index toggle set, where it is `init` or `set`.
pub open spec fn with_sparse_index(a: SparseCheckoutActionView, v: bool) -> SparseCheckoutActionView {
    match a {
        SparseCheckoutActionView::Init { cone, sparse_index: _ } =>
            SparseCheckoutActionView::Init { cone, sparse_index: Some(v) },
        SparseCheckoutActionView::SetPatterns { patterns, cone, sparse_index: _, skip_checks } =>
            SparseCheckoutActionView::SetPatterns { patterns, cone, sparse_index: Some(v), skip_checks },
        _ => a,
    }
}

/// The action with `--skip-checks` set, where it is `set` or `add`.
pub open spec fn with_skip_checks(a: SparseCheckoutActionView) -> SparseCheckoutActionView {
    match a {
        SparseCheckoutActionView::SetPatterns { patterns, cone, sparse_index, skip_checks: _ } =>
            SparseCheckoutActionView::SetPatterns { patterns, cone, sparse_index, skip_checks: true },
        SparseCheckoutActionView::Add { patterns, skip_checks: _ } =>
            SparseCheckoutActionView::Add { patterns, skip_checks: true },
        _ => a,
    }
}

/// Builder for `git sparse-checkout`.
///
/// Sparse checkout keeps the whole repository history but populates only the
/// paths matching a pattern set. In the default cone mode a pattern is a
/// directory prefix; with `--no-cone` it is a full gitignore-style pattern,
/// which is why [`list`](Self::list) after a `--no-cone`
/// [`init`](Self::init) reports `/*` and `!/*/` rather than a path.
///
/// The five actions use the action-enum dispatch pattern: an option that does
/// not apply to the selected action is ignored rather than emitted.
///
/// Output is left as a [`crate::CommandOutput`]: `list` writes one pattern
/// per line and the other actions write nothing on stdout.
#[derive(Debug, Clone)]
pub struct SparseCheckoutCommand {
    /// Shared executor.
    pub executor: CommandExecutor,
    /// Action to perform.
    pub action: SparseCheckoutAction,
}

impl SparseCheckoutCommand {
    /// `sparse-checkout init`.
    pub fn init() -> (r: Self)
        ensures
            r.executor@ == blank_executor(),
            r.action@ == (SparseCheckoutActionView::Init { cone: None, sparse_index: None }),
    {
        Self::with_action(SparseCheckoutAction::Init { cone: None, sparse_index: None })
    }

    /// `sparse-checkout set <pattern>`.
    ///
    /// git requires at least one pattern, so the constructor takes it; add
    /// more with [`pattern`](Self::pattern).
    pub fn set(pattern: impl IntoText) -> (r: Self)
        ensures
            r.executor@ == blank_executor(),
            r.action@ == (SparseCheckoutActionView::SetPatterns {
                patterns: seq![pattern.text()],
                cone: None,
                sparse_index: None,
                skip_checks: false,
            }),
    {
        Self::with_action(
            SparseCheckoutAction::SetPatterns {
                patterns: one_text(pattern.into_text()),
                cone: None,
                sparse_index: None,
                skip_checks: false,
            },
        )
    }

    /// `sparse-checkout add <pattern>`.
    ///
    /// git requires at least one pattern, so the constructor takes it; add
    /// more with [`pattern`](Self::pattern).
    pub fn add(pattern: impl IntoText) -> (r: Self)
        ensures
            r.executor@ == blank_executor(),
            r.action@ == (SparseCheckoutActionView::Add {
                patterns: seq![pattern.text()],
                skip_checks: false,
            }),
    {
        Self::with_action(
            SparseCheckoutAction::Add { patterns: one_text(pattern.into_text()), skip_checks: false },
        )
    }

    /// `sparse-checkout list`.
    pub fn list() -> (r: Self)
        ensures
            r.executor@ == blank_executor(),
            r.action@ == SparseCheckoutActionView::List,
    {
        Self::with_action(SparseCheckoutAction::List)
    }

    /// `sparse-checkout disable`.
    pub fn disable() -> (r: Self)
        ensures
            r.executor@ == blank_executor(),
            r.action@ == SparseCheckoutActionView::Disable,
    {
        Self::with_action(SparseCheckoutAction::Disable)
    }

    /// Add another pattern (requires [`set`](Self::set) or [`add`](Self::add)).
    pub fn pattern(&mut self, pattern: impl IntoText) -> (r: &mut Self)
        ensures
            *final(self) == *final(r),
            r.executor == old(self).executor,
            r.action@ == add_pattern(old(self).action@, pattern.text()),
    {
        let p = pattern.into_text();
        match &mut self.action {
            SparseCheckoutAction::SetPatterns { patterns, .. } => push_into(patterns, p),
            SparseCheckoutAction::Add { patterns, .. } => push_into(patterns, p),
            _ => {},
        }
        self
    }

    /// `--cone` (requires [`init`](Self::init) or [`set`](Self::set)).
    pub fn cone(&mut self) -> (r: &mut Self)
        ensures
            *final(self) == *final(r),
            r.executor == old(self).executor,
            r.action@ == with_cone(old(self).action@, true),
    {
        self.set_cone(true)
    }

    /// `--no-cone` (requires [`init`](Self::init) or [`set`](Self::set)).
    ///
    /// Cone mode is the default, so this is how a full-pattern checkout is
    /// requested.
    pub fn no_cone(&mut self) -> (r: &mut Self)
        ensures
            *final(self) == *final(r),
            r.executor == old(self).executor,
            r.action@ == with_cone(old(self).action@, false),
    {
        self.set_cone(false)
    }

    /// `--sparse-index` (requires [`init`](Self::init) or [`set`](Self::set)).
    pub fn sparse_index(&mut self) -> (r: &mut Self)
        ensures
            *final(self) == *final(r),
            r.executor == old(self).executor,
            r.action@ == with_sparse_index(old(self).action@, true),
    {
        self.set_sparse_index(true)
    }

    /// `--no-sparse-index` (requires [`init`](Self::init) or
    /// [`set`](Self::set)).
    pub fn no_sparse_index(&mut self) -> (r: &mut Self)
        ensures
            *final(self) == *final(r),
            r.executor == old(self).executor,
            r.action@ == with_sparse_index(old(self).action@, false),
    {
        self.set_sparse_index(false)
    }

    /// `--skip-checks` (requires [`set`](Self::set) or [`add`](Self::add)).
    ///
    /// Skips the sanity checks git runs on the given paths, which reject some
    /// legitimate patterns.
    pub fn skip_checks(&mut self) -> (r: &mut Self)
        ensures
            *final(self) == *final(r),
            r.executor == old(self).executor,
            r.action@ == with_skip_checks(old(self).action@),
    {
        match &mut self.action {
            SparseCheckoutAction::SetPatterns { skip_checks, .. } => *skip_checks = true,
            SparseCheckoutAction::Add { skip_checks, .. } => *skip_checks = true,
            _ => {},
        }
        self
    }

    fn set_cone(&mut self, value: bool) -> (r: &mut Self)
        ensures
            *final(self) == *final(r),
            r.executor == old(self).executor,
            r.action@ == with_cone(old(self).action@, value),
    {
        match &mut self.action {
            SparseCheckoutAction::Init { cone, .. } => *cone = Some(value),
            SparseCheckoutAction::SetPatterns { cone, .. } => *cone = Some(value),
            _ => {},
        }
        self
    }

    fn set_sparse_index(&mut self, value: bool) -> (r: &mut Self)
        ensures
            *final(self) == *final(r),
            r.executor == old(self).executor,
            r.action@ == with_sparse_index(old(self).action@, value),
    {
        match &mut self.action {
            SparseCheckoutAction::Init { sparse_index, .. } => *sparse_index = Some(value),
            SparseCheckoutAction::SetPatterns { sparse_index, .. } => *sparse_index = Some(value),
            _ => {},
        }
        self
    }

    fn with_action(action: SparseCheckoutAction) -> (r: Self)
        ensures
            r.executor@ == blank_executor(),
            r.action == action,
    {
        SparseCheckoutCommand { executor: CommandExecutor::new(), action }
    }
}

/// Push the `--[no-]<name>` form of an optional toggle.
fn push_toggle(args: &mut Vec<String>, name: &str, value: Option<bool>)
    ensures
        seq_views(final(args)@) == seq_views(old(args)@) + toggle(name@, value),
{
    let ghost before = seq_views(args@);
    match value {
        Some(true) => {
            let s = "--".to_owned().concat(name);
            let ghost sv = s@;
            args.push(s);
            proof {
                reveal_strlit("--");
            }
            assert(seq_views(args@) =~= before.push(sv));
        },
        Some(false) => {
            let s = "--no-".to_owned().concat(name);
            let ghost sv = s@;
            args.push(s);
            assert(seq_views(args@) =~= before.push(sv));
        },
        None => {},
    }
    assert(seq_views(args@) =~= before + toggle(name@, value));
}

/// Appends the arguments of an action.
fn push_action(args: &mut Vec<String>, action: &SparseCheckoutAction)
    ensures
        seq_views(final(args)@) == seq_views(old(args)@) + action_args(action@),
{
    let ghost before = seq_views(args@);
    match action {
        SparseCheckoutAction::Init { cone, sparse_index } => {
            push_lit(args, "init");
            push_toggle(args, "cone", *cone);
            push_toggle(args, "sparse-index", *sparse_index);
        },
        SparseCheckoutAction::SetPatterns { patterns, cone, sparse_index, skip_checks } => {
            push_lit(args, "set");
            push_toggle(args, "cone", *cone);
            push_toggle(args, "sparse-index", *sparse_index);
            push_flag(args, *skip_checks, "--skip-checks");
            push_all(args, patterns);
        },
        SparseCheckoutAction::Add { patterns, skip_checks } => {
            push_lit(args, "add");
            push_flag(args, *skip_checks, "--skip-checks");
            push_all(args, patterns);
        },
        SparseCheckoutAction::List => push_lit(args, "list"),
        SparseCheckoutAction::Disable => push_lit(args, "disable"),
    }
    assert(seq_views(args@) =~= before + action_args(action@));
}

impl GitCommand for SparseCheckoutCommand {
    open spec fn executor_spec(&self) -> CommandExecutor {
        self.executor
    }

    open spec fn with_executor_spec(self, e: CommandExecutor) -> Self {
        SparseCheckoutCommand { executor: e, ..self }
    }

    open spec fn args_spec(&self) -> Seq<Seq<char>> {
        seq!["sparse-checkout"@] + action_args(self.action@)
    }

    proof fn lemma_with_executor(self, e1: CommandExecutor, e2: CommandExecutor) {
    }

    proof fn lemma_args_ignore_executor(self, e: CommandExecutor) {
    }

    fn get_executor(&self) -> (r: &CommandExecutor) {
        &self.executor
    }

    fn get_executor_mut(&mut self) -> (r: &mut CommandExecutor) {
        &mut self.executor
    }

    fn replace_executor(&mut self, e: CommandExecutor) -> (prev: CommandExecutor) {
        let mut e = e;
        std::mem::swap(&mut self.executor, &mut e);
        e
    }

    fn build_command_args(&self) -> (r: Vec<String>) {
        let mut args = start_args("sparse-checkout");
        push_action(&mut args, &self.action);
        args
    }
}

} // verus!
