//! `git submodule` — initialize, update, or inspect submodules.
use vstd::prelude::*;

use crate::command::{
    blank_executor, dashdash, flag, opt_one, opt_pair, push_flag, push_into, push_lit, push_one,
    push_pair, push_paths, push_text, start_args, CommandExecutor, GitCommand, IntoText,
};
use crate::text::{opt_view, seq_views};

verus! {

/// Actions supported by `git submodule`.
#[derive(Debug, Clone)]
pub enum SubmoduleAction {
    /// `git submodule add <url> [<path>]`.
    Add {
        /// Submodule URL.
        url: String,
        /// Optional path where the submodule is placed.
        path: Option<String>,
        /// `-b <branch>`.
        branch: Option<String>,
        /// `--force`.
        force: bool,
    },
    /// `git submodule init [<paths>…]`.
    Init {
        /// Restrict to these paths.
        paths: Vec<String>,
    },
    /// `git submodule update [<options>] [<paths>…]`.
    Update {
        /// `--init`.
        init: bool,
        /// `--recursive`.
        recursive: bool,
        /// `--remote`.
        remote: bool,
        /// `--force`.
        force: bool,
        /// Restrict to these paths.
        paths: Vec<String>,
    },
    /// `git submodule status [<paths>…]`.
    Status {
        /// `--cached`.
        cached: bool,
        /// `--recursive`.
        recursive: bool,
        /// Restrict to these paths.
        paths: Vec<String>,
    },
    /// `git submodule foreach <cmd>`.
    Foreach {
        /// Command to run inside each submodule.
        command: String,
        /// `--recursive`.
        recursive: bool,
    },
    /// `git submodule deinit <paths>`.
    Deinit {
        /// `--force`.
        force: bool,
        /// `--all`.
        all: bool,
        /// Paths to deinit.
        paths: Vec<String>,
    },
    /// `git submodule sync [<paths>…]`.
    Sync {
        /// `--recursive`.
        recursive: bool,
        /// Restrict to these paths.
        paths: Vec<String>,
    },
}

/// The abstract contents of a [`SubmoduleAction`].
pub enum SubmoduleActionView {
    Add { url: Seq<char>, path: Option<Seq<char>>, branch: Option<Seq<char>>, force: bool },
    Init { paths: Seq<Seq<char>> },
    Update { init: bool, recursive: bool, remote: bool, force: bool, paths: Seq<Seq<char>> },
    Status { cached: bool, recursive: bool, paths: Seq<Seq<char>> },
    Foreach { command: Seq<char>, recursive: bool },
    Deinit { force: bool, all: bool, paths: Seq<Seq<char>> },
    Sync { recursive: bool, paths: Seq<Seq<char>> },
}

impl View for SubmoduleAction {
    type V = SubmoduleActionView;

    open spec fn view(&self) -> SubmoduleActionView {
        match self {
            SubmoduleAction::Add { url, path, branch, force } => SubmoduleActionView::Add {
                url: url@,
                path: opt_view(*path),
                branch: opt_view(*branch),
                force: *force,
            },
            SubmoduleAction::Init { paths } => SubmoduleActionView::Init { paths: seq_views(paths@) },
            SubmoduleAction::Update { init, recursive, remote, force, paths } =>
                SubmoduleActionView::Update {
                init: *init,
                recursive: *recursive,
                remote: *remote,
                force: *force,
                paths: seq_views(paths@),
            },
            SubmoduleAction::Status { cached, recursive, paths } => SubmoduleActionView::Status {
                cached: *cached,
                recursive: *recursive,
                paths: seq_views(paths@),
            },
            SubmoduleAction::Foreach { command, recursive } => SubmoduleActionView::Foreach {
                command: command@,
                recursive: *recursive,
            },
            SubmoduleAction::Deinit { force, all, paths } => SubmoduleActionView::Deinit {
                force: *force,
                all: *all,
                paths: seq_views(paths@),
            },
            SubmoduleAction::Sync { recursive, paths } => SubmoduleActionView::Sync {
                recursive: *recursive,
                paths: seq_views(paths@),
            },
        }
    }
}

/// The arguments of `submodule add`.
pub open spec fn add_args(
    url: Seq<char>,
    path: Option<Seq<char>>,
    branch: Option<Seq<char>>,
    force: bool,
) -> Seq<Seq<char>> {
    seq!["add"@] + flag(force, "--force"@) + opt_pair("-b"@, branch) + seq![url] + opt_one(path)
}

/// The arguments of `submodule update`.
pub open spec fn update_args(
    init: bool,
    recursive: bool,
    remote: bool,
    force: bool,
    paths: Seq<Seq<char>>,
) -> Seq<Seq<char>> {
    seq!["update"@] + flag(init, "--init"@) + flag(recursive, "--recursive"@) + flag(
        remote,
        "--remote"@,
    ) + flag(force, "--force"@) + dashdash(paths)
}

/// The arguments of `submodule status`.
pub open spec fn status_args(cached: bool, recursive: bool, paths: Seq<Seq<char>>) -> Seq<
    Seq<char>,
> {
    seq!["status"@] + flag(cached, "--cached"@) + flag(recursive, "--recursive"@) + dashdash(paths)
}

/// The arguments of `submodule deinit`.
pub open spec fn deinit_args(force: bool, all: bool, paths: Seq<Seq<char>>) -> Seq<Seq<char>> {
    seq!["deinit"@] + flag(force, "--force"@) + flag(all, "--all"@) + dashdash(paths)
}

/// The arguments that follow `submodule` for an action.
pub open spec fn action_args(a: SubmoduleActionView) -> Seq<Seq<char>> {
    match a {
        SubmoduleActionView::Add { url, path, branch, force } => add_args(url, path, branch, force),
        SubmoduleActionView::Init { paths } => seq!["init"@] + dashdash(paths),
        SubmoduleActionView::Update { init, recursive, remote, force, paths } => update_args(
            init,
            recursive,
            remote,
            force,
            paths,
        ),
        SubmoduleActionView::Status { cached, recursive, paths } => status_args(
            cached,
            recursive,
            paths,
        ),
        SubmoduleActionView::Foreach { command, recursive } => seq!["foreach"@] + flag(
            recursive,
            "--recursive"@,
        ) + seq![command],
        SubmoduleActionView::Deinit { force, all, paths } => deinit_args(force, all, paths),
        SubmoduleActionView::Sync { recursive, paths } => seq!["sync"@] + flag(
            recursive,
            "--recursive"@,
        ) + dashdash(paths),
    }
}

/// The action with its `add` path set.
pub open spec fn set_path(a: SubmoduleActionView, p: Seq<char>) -> SubmoduleActionView {
    match a {
        SubmoduleActionView::Add { url, path: _, branch, force } => SubmoduleActionView::Add {
            url,
            path: Some(p),
            branch,
            force,
        },
        _ => a,
    }
}

/// The action with its `add` branch set.
pub open spec fn set_branch(a: SubmoduleActionView, b: Seq<char>) -> SubmoduleActionView {
    match a {
        SubmoduleActionView::Add { url, path, branch: _, force } => SubmoduleActionView::Add {
            url,
            path,
            branch: Some(b),
            force,
        },
        _ => a,
    }
}

/// The action with `--force` set where it applies.
pub open spec fn set_force(a: SubmoduleActionView) -> SubmoduleActionView {
    match a {
        SubmoduleActionView::Add { url, path, branch, force: _ } => SubmoduleActionView::Add {
            url,
            path,
            branch,
            force: true,
        },
        SubmoduleActionView::Update { init, recursive, remote, force: _, paths } =>
            SubmoduleActionView::Update { init, recursive, remote, force: true, paths },
        SubmoduleActionView::Deinit { force: _, all, paths } => SubmoduleActionView::Deinit {
            force: true,
            all,
            paths,
        },
        _ => a,
    }
}

/// The action with `--init` set where it applies.
pub open spec fn set_init(a: SubmoduleActionView) -> SubmoduleActionView {
    match a {
        SubmoduleActionView::Update { init: _, recursive, remote, force, paths } =>
            SubmoduleActionView::Update { init: true, recursive, remote, force, paths },
        _ => a,
    }
}

/// The action with `--recursive` set where it applies.
pub open spec fn set_recursive(a: SubmoduleActionView) -> SubmoduleActionView {
    match a {
        SubmoduleActionView::Update { init, recursive: _, remote, force, paths } =>
            SubmoduleActionView::Update { init, recursive: true, remote, force, paths },
        SubmoduleActionView::Status { cached, recursive: _, paths } =>
            SubmoduleActionView::Status { cached, recursive: true, paths },
        SubmoduleActionView::Foreach { command, recursive: _ } => SubmoduleActionView::Foreach {
            command,
            recursive: true,
        },
        SubmoduleActionView::Sync { recursive: _, paths } => SubmoduleActionView::Sync {
            recursive: true,
            paths,
        },
        _ => a,
    }
}

/// The action with `--remote` set where it applies.
pub open spec fn set_remote(a: SubmoduleActionView) -> SubmoduleActionView {
    match a {
        SubmoduleActionView::Update { init, recursive, remote: _, force, paths } =>
            SubmoduleActionView::Update { init, recursive, remote: true, force, paths },
        _ => a,
    }
}

/// The action with `--cached` set where it applies.
pub open spec fn set_cached(a: SubmoduleActionView) -> SubmoduleActionView {
    match a {
        SubmoduleActionView::Status { cached: _, recursive, paths } =>
            SubmoduleActionView::Status { cached: true, recursive, paths },
        _ => a,
    }
}

/// The action with `--all` set where it applies.
pub open spec fn set_all(a: SubmoduleActionView) -> SubmoduleActionView {
    match a {
        SubmoduleActionView::Deinit { force, all: _, paths } => SubmoduleActionView::Deinit {
            force,
            all: true,
            paths,
        },
        _ => a,
    }
}

/// The action with one more restricting path, where it takes paths.
pub open spec fn add_path(a: SubmoduleActionView, p: Seq<char>) -> SubmoduleActionView {
    match a {
        SubmoduleActionView::Init { paths } => SubmoduleActionView::Init { paths: paths.push(p) },
        SubmoduleActionView::Update { init, recursive, remote, force, paths } =>
            SubmoduleActionView::Update { init, recursive, remote, force, paths: paths.push(p) },
        SubmoduleActionView::Status { cached, recursive, paths } =>
            SubmoduleActionView::Status { cached, recursive, paths: paths.push(p) },
        SubmoduleActionView::Deinit { force, all, paths } => SubmoduleActionView::Deinit {
            force,
            all,
            paths: paths.push(p),
        },
        SubmoduleActionView::Sync { recursive, paths } => SubmoduleActionView::Sync {
            recursive,
            paths: paths.push(p),
        },
        _ => a,
    }
}

/// Builder for `git submodule`.
///
/// An option that does not apply to the selected action is ignored.
#[derive(Debug, Clone)]
pub struct SubmoduleCommand {
    /// Shared executor.
    pub executor: CommandExecutor,
    /// Action.
    pub action: SubmoduleAction,
}

impl SubmoduleCommand {
    fn with_action(action: SubmoduleAction) -> (r: Self)
        ensures
            r.executor@ == blank_executor(),
            r.action == action,
    {
        SubmoduleCommand { executor: CommandExecutor::new(), action }
    }

    /// `submodule add`.
    pub fn add(url: impl IntoText) -> (r: Self)
        ensures
            r.executor@ == blank_executor(),
            r.action@ == (SubmoduleActionView::Add {
                url: url.text(),
                path: None,
                branch: None,
                force: false,
            }),
    {
        Self::with_action(
            SubmoduleAction::Add { url: url.into_text(), path: None, branch: None, force: false },
        )
    }

    /// Set the submodule path (for `add`).
    pub fn path(self, p: impl IntoText) -> (r: Self)
        ensures
            r.executor == self.executor,
            r.action@ == set_path(self.action@, p.text()),
    {
        let p = p.into_text();
        let SubmoduleCommand { executor, action } = self;
        let action = match action {
            SubmoduleAction::Add { url, path: _, branch, force } => SubmoduleAction::Add {
                url,
                path: Some(p),
                branch,
                force,
            },
            other => other,
        };
        SubmoduleCommand { executor, action }
    }

    /// Set `-b` branch (for `add`).
    pub fn branch(self, b: impl IntoText) -> (r: Self)
        ensures
            r.executor == self.executor,
            r.action@ == set_branch(self.action@, b.text()),
    {
        let b = b.into_text();
        let SubmoduleCommand { executor, action } = self;
        let action = match action {
            SubmoduleAction::Add { url, path, branch: _, force } => SubmoduleAction::Add {
                url,
                path,
                branch: Some(b),
                force,
            },
            other => other,
        };
        SubmoduleCommand { executor, action }
    }

    /// Set `--force` (for `add` / `update` / `deinit`).
    pub fn force(self) -> (r: Self)
        ensures
            r.executor == self.executor,
            r.action@ == set_force(self.action@),
    {
        let SubmoduleCommand { executor, action } = self;
        let action = match action {
            SubmoduleAction::Add { url, path, branch, force: _ } => SubmoduleAction::Add {
                url,
                path,
                branch,
                force: true,
            },
            SubmoduleAction::Update { init, recursive, remote, force: _, paths } =>
                SubmoduleAction::Update { init, recursive, remote, force: true, paths },
            SubmoduleAction::Deinit { force: _, all, paths } => SubmoduleAction::Deinit {
                force: true,
                all,
                paths,
            },
            other => other,
        };
        SubmoduleCommand { executor, action }
    }

    /// `submodule init`.
    pub fn init() -> (r: Self)
        ensures
            r.executor@ == blank_executor(),
            r.action@ == (SubmoduleActionView::Init { paths: Seq::empty() }),
    {
        let r = Self::with_action(SubmoduleAction::Init { paths: Vec::new() });
        assert(seq_views(Seq::<String>::empty()) =~= Seq::<Seq<char>>::empty());
        r
    }

    /// `submodule update`.
    pub fn update() -> (r: Self)
        ensures
            r.executor@ == blank_executor(),
            r.action@ == (SubmoduleActionView::Update {
                init: false,
                recursive: false,
                remote: false,
                force: false,
                paths: Seq::empty(),
            }),
    {
        let r = Self::with_action(
            SubmoduleAction::Update {
                init: false,
                recursive: false,
                remote: false,
                force: false,
                paths: Vec::new(),
            },
        );
        assert(seq_views(Seq::<String>::empty()) =~= Seq::<Seq<char>>::empty());
        r
    }

    /// `--init` (for `update`).
    pub fn with_init(self) -> (r: Self)
        ensures
            r.executor == self.executor,
            r.action@ == set_init(self.action@),
    {
        let SubmoduleCommand { executor, action } = self;
        let action = match action {
            SubmoduleAction::Update { init: _, recursive, remote, force, paths } =>
                SubmoduleAction::Update { init: true, recursive, remote, force, paths },
            other => other,
        };
        SubmoduleCommand { executor, action }
    }

    /// `--recursive` (for `update` / `status` / `foreach` / `sync`).
    pub fn recursive(self) -> (r: Self)
        ensures
            r.executor == self.executor,
            r.action@ == set_recursive(self.action@),
    {
        let SubmoduleCommand { executor, action } = self;
        let action = match action {
            SubmoduleAction::Update { init, recursive: _, remote, force, paths } =>
                SubmoduleAction::Update { init, recursive: true, remote, force, paths },
            SubmoduleAction::Status { cached, recursive: _, paths } => SubmoduleAction::Status {
                cached,
                recursive: true,
                paths,
            },
            SubmoduleAction::Foreach { command, recursive: _ } => SubmoduleAction::Foreach {
                command,
                recursive: true,
            },
            SubmoduleAction::Sync { recursive: _, paths } => SubmoduleAction::Sync {
                recursive: true,
                paths,
            },
            other => other,
        };
        SubmoduleCommand { executor, action }
    }

    /// `--remote` (for `update`).
    pub fn remote(self) -> (r: Self)
        ensures
            r.executor == self.executor,
            r.action@ == set_remote(self.action@),
    {
        let SubmoduleCommand { executor, action } = self;
        let action = match action {
            SubmoduleAction::Update { init, recursive, remote: _, force, paths } =>
                SubmoduleAction::Update { init, recursive, remote: true, force, paths },
            other => other,
        };
        SubmoduleCommand { executor, action }
    }

    /// Restrict to a given path.
    pub fn restrict_path(self, p: impl IntoText) -> (r: Self)
        ensures
            r.executor == self.executor,
            r.action@ == add_path(self.action@, p.text()),
    {
        let p = p.into_text();
        let SubmoduleCommand { executor, action } = self;
        let mut action = action;
        match &mut action {
            SubmoduleAction::Init { paths } => push_into(paths, p),
            SubmoduleAction::Update { paths, .. } => push_into(paths, p),
            SubmoduleAction::Status { paths, .. } => push_into(paths, p),
            SubmoduleAction::Deinit { paths, .. } => push_into(paths, p),
            SubmoduleAction::Sync { paths, .. } => push_into(paths, p),
            _ => {},
        }
        SubmoduleCommand { executor, action }
    }

    /// `submodule status`.
    pub fn status() -> (r: Self)
        ensures
            r.executor@ == blank_executor(),
            r.action@ == (SubmoduleActionView::Status {
                cached: false,
                recursive: false,
                paths: Seq::empty(),
            }),
    {
        let r = Self::with_action(
            SubmoduleAction::Status { cached: false, recursive: false, paths: Vec::new() },
        );
        assert(seq_views(Seq::<String>::empty()) =~= Seq::<Seq<char>>::empty());
        r
    }

    /// `--cached` (for `status`).
    pub fn cached(self) -> (r: Self)
        ensures
            r.executor == self.executor,
            r.action@ == set_cached(self.action@),
    {
        let SubmoduleCommand { executor, action } = self;
        let action = match action {
            SubmoduleAction::Status { cached: _, recursive, paths } => SubmoduleAction::Status {
                cached: true,
                recursive,
                paths,
            },
            other => other,
        };
        SubmoduleCommand { executor, action }
    }

    /// `submodule foreach`.
    pub fn foreach(command: impl IntoText) -> (r: Self)
        ensures
            r.executor@ == blank_executor(),
            r.action@ == (SubmoduleActionView::Foreach { command: command.text(), recursive: false }),
    {
        Self::with_action(SubmoduleAction::Foreach { command: command.into_text(), recursive: false })
    }

    /// `submodule deinit`.
    pub fn deinit() -> (r: Self)
        ensures
            r.executor@ == blank_executor(),
            r.action@ == (SubmoduleActionView::Deinit { force: false, all: false, paths: Seq::empty() }),
    {
        let r = Self::with_action(
            SubmoduleAction::Deinit { force: false, all: false, paths: Vec::new() },
        );
        assert(seq_views(Seq::<String>::empty()) =~= Seq::<Seq<char>>::empty());
        r
    }

    /// `--all` (for `deinit`).
    pub fn all(self) -> (r: Self)
        ensures
            r.executor == self.executor,
            r.action@ == set_all(self.action@),
    {
        let SubmoduleCommand { executor, action } = self;
        let action = match action {
            SubmoduleAction::Deinit { force, all: _, paths } => SubmoduleAction::Deinit {
                force,
                all: true,
                paths,
            },
            other => other,
        };
        SubmoduleCommand { executor, action }
    }

    /// `submodule sync`.
    pub fn sync() -> (r: Self)
        ensures
            r.executor@ == blank_executor(),
            r.action@ == (SubmoduleActionView::Sync { recursive: false, paths: Seq::empty() }),
    {
        let r = Self::with_action(SubmoduleAction::Sync { recursive: false, paths: Vec::new() });
        assert(seq_views(Seq::<String>::empty()) =~= Seq::<Seq<char>>::empty());
        r
    }
}

fn push_add(
    args: &mut Vec<String>,
    url: &String,
    path: &Option<String>,
    branch: &Option<String>,
    force: bool,
)
    ensures
        seq_views(final(args)@) == seq_views(old(args)@) + add_args(
            url@,
            opt_view(*path),
            opt_view(*branch),
            force,
        ),
{
    let ghost before = seq_views(args@);
    push_lit(args, "add");
    push_flag(args, force, "--force");
    push_pair(args, "-b", branch);
    push_text(args, url);
    push_one(args, path);
    assert(seq_views(args@) =~= before + add_args(url@, opt_view(*path), opt_view(*branch), force));
}

fn push_update(
    args: &mut Vec<String>,
    init: bool,
    recursive: bool,
    remote: bool,
    force: bool,
    paths: &Vec<String>,
)
    ensures
        seq_views(final(args)@) == seq_views(old(args)@) + update_args(
            init,
            recursive,
            remote,
            force,
            seq_views(paths@),
        ),
{
    let ghost before = seq_views(args@);
    push_lit(args, "update");
    push_flag(args, init, "--init");
    push_flag(args, recursive, "--recursive");
    push_flag(args, remote, "--remote");
    push_flag(args, force, "--force");
    push_paths(args, paths);
    assert(seq_views(args@) =~= before + update_args(
        init,
        recursive,
        remote,
        force,
        seq_views(paths@),
    ));
}

fn push_status(args: &mut Vec<String>, cached: bool, recursive: bool, paths: &Vec<String>)
    ensures
        seq_views(final(args)@) == seq_views(old(args)@) + status_args(
            cached,
            recursive,
            seq_views(paths@),
        ),
{
    let ghost before = seq_views(args@);
    push_lit(args, "status");
    push_flag(args, cached, "--cached");
    push_flag(args, recursive, "--recursive");
    push_paths(args, paths);
    assert(seq_views(args@) =~= before + status_args(cached, recursive, seq_views(paths@)));
}

fn push_deinit(args: &mut Vec<String>, force: bool, all: bool, paths: &Vec<String>)
    ensures
        seq_views(final(args)@) == seq_views(old(args)@) + deinit_args(
            force,
            all,
            seq_views(paths@),
        ),
{
    let ghost before = seq_views(args@);
    push_lit(args, "deinit");
    push_flag(args, force, "--force");
    push_flag(args, all, "--all");
    push_paths(args, paths);
    assert(seq_views(args@) =~= before + deinit_args(force, all, seq_views(paths@)));
}

/// Appends the arguments of an action.
fn push_action(args: &mut Vec<String>, action: &SubmoduleAction)
    ensures
        seq_views(final(args)@) == seq_views(old(args)@) + action_args(action@),
{
    let ghost before = seq_views(args@);
    match action {
        SubmoduleAction::Add { url, path, branch, force } => {
            push_add(args, url, path, branch, *force);
        },
        SubmoduleAction::Init { paths } => {
            push_lit(args, "init");
            push_paths(args, paths);
            assert(seq_views(args@) =~= before + action_args(action@));
        },
        SubmoduleAction::Update { init, recursive, remote, force, paths } => {
            push_update(args, *init, *recursive, *remote, *force, paths);
        },
        SubmoduleAction::Status { cached, recursive, paths } => {
            push_status(args, *cached, *recursive, paths);
        },
        SubmoduleAction::Foreach { command, recursive } => {
            push_lit(args, "foreach");
            push_flag(args, *recursive, "--recursive");
            push_text(args, command);
            assert(seq_views(args@) =~= before + action_args(action@));
        },
        SubmoduleAction::Deinit { force, all, paths } => {
            push_deinit(args, *force, *all, paths);
        },
        SubmoduleAction::Sync { recursive, paths } => {
            push_lit(args, "sync");
            push_flag(args, *recursive, "--recursive");
            push_paths(args, paths);
            assert(seq_views(args@) =~= before + action_args(action@));
        },
    }
}

impl GitCommand for SubmoduleCommand {
    open spec fn executor_spec(&self) -> CommandExecutor {
        self.executor
    }

    open spec fn with_executor_spec(self, e: CommandExecutor) -> Self {
        SubmoduleCommand { executor: e, ..self }
    }

    open spec fn args_spec(&self) -> Seq<Seq<char>> {
        seq!["submodule"@] + action_args(self.action@)
    }

    proof fn lemma_with_executor(self, e1: CommandExecutor, e2: CommandExecutor) {
    }

    proof fn lemma_args_ignore_executor(self, e: CommandExecutor) {
    }

    fn get_executor(&self) -> (r: &CommandExecutor) {
        &self.executor
    }

    fn get_executor_mut(&mut self) -> (r: &mut CommandExecutor) {
        &mut self.executor
    }

    fn replace_executor(&mut self, e: CommandExecutor) -> (prev: CommandExecutor) {
        let mut e = e;
        std::mem::swap(&mut self.executor, &mut e);
        e
    }

    fn build_command_args(&self) -> (r: Vec<String>) {
        let mut args = start_args("submodule");
        push_action(&mut args, &self.action);
        args
    }
}

} // verus!
