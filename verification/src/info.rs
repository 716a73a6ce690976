//! Repository overview in a single call.
//!
//! [`RepoInfo`] folds together the bits most automation reaches for first —
//! current branch, upstream tracking, default branch, dirty state, ahead/behind
//! counts. It is read from `git status --porcelain=v2 --branch` (which emits a
//! stable header with branch / upstream / ab counts plus per-file entries,
//! [`parse_porcelain_v2`]) and `git symbolic-ref refs/remotes/origin/HEAD` for
//! the default branch ([`default_branch_from`]). The default-branch lookup
//! fails silently when there is no `origin` remote yet — the field stays
//! `None` rather than surfacing an error.
use vstd::prelude::*;

use crate::command::status::{StatusCommand, StatusFormat};
use crate::command::symbolic_ref::SymbolicRefCommand;
use crate::command::GitCommand;
use crate::parse::status::{count_or_zero, count_or_zero_of};
use crate::repo::{scoped_executor, Repository};
use crate::text::{
    chars_of, has_prefix, is_lit, lines, lines_of, opt_view, seq_views, starts_with, strip_prefix,
    strip_prefix_spec, text_of, trim_start_by, trim_start_class, words, words_of, CharClass,
    decimal, is_digit, is_ws, join_with, lead_count, lemma_decimal_digits, lemma_parse_decimal,
    lemma_words_join,
};

verus! {

/// Snapshot of a repository's state.
///
/// Fields are populated independently — a missing upstream leaves `upstream`,
/// `ahead`, and `behind` at their defaults (`None`, `0`, `0`); a missing remote
/// leaves `default_branch` at `None`.
#[derive(Debug, Clone, PartialEq, Eq)]
pub struct RepoInfo {
    /// Current branch, or `None` when `HEAD` is detached.
    pub branch: Option<String>,
    /// Configured upstream in `remote/branch` form (e.g. `"origin/main"`).
    pub upstream: Option<String>,
    /// Default branch as advertised by `refs/remotes/origin/HEAD`
    /// (short form, e.g. `"main"`). `None` when no `origin` remote is
    /// configured or the symbolic ref is missing.
    pub default_branch: Option<String>,
    /// `true` when the working tree or index has any pending changes
    /// (modified, staged, untracked, etc.).
    pub dirty: bool,
    /// Commits the current branch is ahead of its upstream.
    pub ahead: u32,
    /// Commits the current branch is behind its upstream.
    pub behind: u32,
}

/// The abstract contents of a [`RepoInfo`].
pub struct RepoInfoView {
    pub branch: Option<Seq<char>>,
    pub upstream: Option<Seq<char>>,
    pub default_branch: Option<Seq<char>>,
    pub dirty: bool,
    pub ahead: u32,
    pub behind: u32,
}

impl View for RepoInfo {
    type V = RepoInfoView;

    open spec fn view(&self) -> RepoInfoView {
        RepoInfoView {
            branch: opt_view(self.branch),
            upstream: opt_view(self.upstream),
            default_branch: opt_view(self.default_branch),
            dirty: self.dirty,
            ahead: self.ahead,
            behind: self.behind,
        }
    }
}

/// Nothing known: no branch, upstream or default branch, clean, no counts.
pub open spec fn empty_info() -> RepoInfoView {
    RepoInfoView {
        branch: None,
        upstream: None,
        default_branch: None,
        dirty: false,
        ahead: 0,
        behind: 0,
    }
}

impl Default for RepoInfo {
    fn default() -> (r: Self)
        ensures
            r@ == empty_info(),
    {
        RepoInfo {
            branch: None,
            upstream: None,
            default_branch: None,
            dirty: false,
            ahead: 0,
            behind: 0,
        }
    }
}

/// The snapshot after one porcelain-v2 line: the `# branch.head`,
/// `# branch.upstream` and `# branch.ab` headers set their fields (a detached
/// head leaves the branch alone); any other non-empty line that is not a
/// header marks the tree dirty.
pub open spec fn info_step(st: RepoInfoView, line: Seq<char>) -> RepoInfoView {
    match strip_prefix_spec(line, "# branch.head "@) {
        Some(rest) => if rest != "(detached)"@ {
            RepoInfoView { branch: Some(rest), ..st }
        } else {
            st
        },
        None => match strip_prefix_spec(line, "# branch.upstream "@) {
            Some(rest) => RepoInfoView { upstream: Some(rest), ..st },
            None => match strip_prefix_spec(line, "# branch.ab "@) {
                Some(rest) => {
                    let w = words_of(rest);
                    RepoInfoView {
                        ahead: if w.len() > 0 {
                            count_or_zero(trim_start_class(w[0], CharClass::Exactly('+')))
                        } else {
                            st.ahead
                        },
                        behind: if w.len() > 1 {
                            count_or_zero(trim_start_class(w[1], CharClass::Exactly('-')))
                        } else {
                            st.behind
                        },
                        ..st
                    }
                },
                None => if line.len() > 0 && !has_prefix(line, "#"@) {
                    RepoInfoView { dirty: true, ..st }
                } else {
                    st
                },
            },
        },
    }
}

/// `# branch.head <name>` sets the branch (unless the head is detached) and
/// `# branch.upstream <name>` the upstream, each leaving the rest of the
/// snapshot as it was.
pub proof fn lemma_info_branch_headers(st: RepoInfoView, name: Seq<char>)
    ensures
        name != "(detached)"@ ==> info_step(st, "# branch.head "@ + name) == (RepoInfoView {
            branch: Some(name),
            ..st
        }),
        info_step(st, "# branch.upstream "@ + name) == (RepoInfoView { upstream: Some(name), ..st }),
{
    reveal_strlit("# branch.head ");
    reveal_strlit("# branch.upstream ");
    let h = "# branch.head "@ + name;
    let u = "# branch.upstream "@ + name;
    assert(h.take(14) =~= "# branch.head "@);
    assert(h.skip(14) =~= name);
    assert(u.take(18) =~= "# branch.upstream "@);
    assert(u.skip(18) =~= name);
    assert(!has_prefix(u, "# branch.head "@)) by {
        assert(u.take(14)[9] != "# branch.head "@[9]);
    }
}

/// `# branch.ab +<a> -<b>` sets the ahead count to `a` and the behind count
/// to `b`, leaving the rest of the snapshot as it was.
pub proof fn lemma_info_ahead_behind(st: RepoInfoView, a: u32, b: u32)
    ensures
        info_step(st, "# branch.ab "@ + seq!['+'] + decimal(a as nat) + seq![' ', '-'] + decimal(
            b as nat,
        )) == (RepoInfoView { ahead: a, behind: b, ..st }),
{
    reveal_strlit("# branch.ab ");
    reveal_strlit("# branch.head ");
    reveal_strlit("# branch.upstream ");
    let da = decimal(a as nat);
    let db = decimal(b as nat);
    lemma_decimal_digits(a as nat);
    lemma_decimal_digits(b as nat);
    lemma_parse_decimal(a as nat, u32::MAX as nat);
    lemma_parse_decimal(b as nat, u32::MAX as nat);
    let wa = seq!['+'] + da;
    let wb = seq!['-'] + db;
    let rest = wa + seq![' '] + wb;
    let line = "# branch.ab "@ + seq!['+'] + da + seq![' ', '-'] + db;
    assert(line =~= "# branch.ab "@ + rest);
    assert(line.take(12) =~= "# branch.ab "@);
    assert(line.skip(12) =~= rest);
    assert(!has_prefix(line, "# branch.head "@)) by {
        assert(line.take(14)[9] != "# branch.head "@[9]);
    }
    assert(!has_prefix(line, "# branch.upstream "@)) by {
        if line.len() >= 18 {
            assert(line.take(18)[9] != "# branch.upstream "@[9]);
        }
    }
    let ps = seq![wa, wb];
    assert(ps.drop_last() =~= seq![wa]);
    assert(join_with(seq![wa], seq![' ']) == wa);
    assert(join_with(ps, seq![' ']) == rest);
    assert forall|i: int, m: int| 0 <= i < ps.len() && 0 <= m < ps[i].len() implies !is_ws(
        #[trigger] ps[i][m],
    ) by {
        if i == 0 && m > 0 {
            assert(is_digit(da[m - 1]));
        } else if i == 1 && m > 0 {
            assert(is_digit(db[m - 1]));
        }
    }
    assert forall|i: int| 0 <= i < ps.len() implies (#[trigger] ps[i]).len() > 0 by {}
    lemma_words_join(ps);
    assert(is_digit(da[0]) && is_digit(db[0]));
    assert(wa.drop_first() =~= da);
    assert(lead_count(da, CharClass::Exactly('+')) == 0);
    assert(lead_count(wa, CharClass::Exactly('+')) == 1);
    assert(wa.skip(1) =~= da);
    assert(wb.drop_first() =~= db);
    assert(lead_count(db, CharClass::Exactly('-')) == 0);
    assert(lead_count(wb, CharClass::Exactly('-')) == 1);
    assert(wb.skip(1) =~= db);
}

/// The snapshot after the lines `ls` from line `i` on.
pub open spec fn info_from(ls: Seq<Seq<char>>, i: int, st: RepoInfoView) -> RepoInfoView
    decreases ls.len() - i,
{
    if i < 0 || i >= ls.len() {
        st
    } else {
        info_from(ls, i + 1, info_step(st, ls[i]))
    }
}

/// What `git status --porcelain=v2 --branch` output `s` says of the
/// repository (the default branch is not part of it).
pub open spec fn porcelain_v2_spec(s: Seq<char>) -> RepoInfoView {
    info_from(lines_of(s), 0, empty_info())
}

/// Read the branch header and dirty state from `git status --porcelain=v2
/// --branch` output.
pub fn parse_porcelain_v2(stdout: &str) -> (r: RepoInfo)
    ensures
        r@ == porcelain_v2_spec(stdout@),
{
    let mut info = RepoInfo::default();
    let s = chars_of(stdout);
    let ls = lines(&s);
    let ghost lv = seq_views(ls@);
    let mut i: usize = 0;
    while i < ls.len()
        invariant
            lv == seq_views(ls@),
            lv == lines_of(stdout@),
            porcelain_v2_spec(stdout@) == info_from(lv, i as int, info@),
        decreases ls.len() - i,
    {
        let line = &ls[i];
        assert(lv[i as int] == line@);
        if let Some(rest) = strip_prefix(line, "# branch.head ") {
            if !is_lit(&rest, "(detached)") {
                info.branch = Some(text_of(&rest));
            }
        } else if let Some(rest) = strip_prefix(line, "# branch.upstream ") {
            info.upstream = Some(text_of(&rest));
        } else if let Some(rest) = strip_prefix(line, "# branch.ab ") {
            let w = words(&rest);
            let ghost wv = seq_views(w@);
            if w.len() > 0 {
                assert(wv[0] == w@[0]@);
                info.ahead = count_or_zero_of(&trim_start_by(&w[0], CharClass::Exactly('+')));
            }
            if w.len() > 1 {
                assert(wv[1] == w@[1]@);
                info.behind = count_or_zero_of(&trim_start_by(&w[1], CharClass::Exactly('-')));
            }
        } else if line.len() > 0 && !starts_with(line, "#") {
            info.dirty = true;
        }
        i += 1;
    }
    info
}

/// The default branch a `symbolic-ref --short refs/remotes/origin/HEAD`
/// answer names: the answer without its `origin/` prefix, or `None` when
/// that leaves nothing.
pub open spec fn default_branch_spec(target: Seq<char>) -> Option<Seq<char>> {
    let short = match strip_prefix_spec(target, "origin/"@) {
        Some(s) => s,
        None => target,
    };
    if short.len() > 0 {
        Some(short)
    } else {
        None
    }
}

/// The default branch named by the trimmed output of
/// `git symbolic-ref --short refs/remotes/origin/HEAD`.
pub fn default_branch_from(target: &str) -> (r: Option<String>)
    ensures
        opt_view(r) == default_branch_spec(target@),
{
    let t = chars_of(target);
    let short = match strip_prefix(&t, "origin/") {
        Some(s) => s,
        None => t,
    };
    if short.len() > 0 {
        Some(text_of(&short))
    } else {
        None
    }
}

/// The overview from the output of `git status --porcelain=v2 --branch`
/// and, when the default-branch lookup succeeded, its trimmed answer.
pub open spec fn repo_info_spec(status: Seq<char>, default_target: Option<Seq<char>>) -> RepoInfoView {
    let base = porcelain_v2_spec(status);
    match default_target {
        Some(t) => match default_branch_spec(t) {
            Some(b) => RepoInfoView { default_branch: Some(b), ..base },
            None => base,
        },
        None => base,
    }
}

/// Fold the two answers [`Repository::info_status_command`] and
/// [`Repository::default_branch_command`] give into one [`RepoInfo`].
///
/// `default_target` is `None` when the default-branch lookup failed (no
/// `origin` remote yet): the field then stays `None` rather than surfacing
/// an error.
pub fn repo_info_from(status_stdout: &str, default_target: Option<&str>) -> (r: RepoInfo)
    ensures
        r@ == repo_info_spec(
            status_stdout@,
            match default_target {
                Some(t) => Some(t@),
                None => None,
            },
        ),
{
    let mut info = parse_porcelain_v2(status_stdout);
    if let Some(t) = default_target {
        if let Some(b) = default_branch_from(t) {
            info.default_branch = Some(b);
        }
    }
    info
}

impl Repository {
    /// `git status --porcelain=v2 --branch`, whose output goes to
    /// [`parse_porcelain_v2`].
    pub fn info_status_command(&self) -> (r: StatusCommand)
        ensures
            r.executor@ == scoped_executor(self@),
            r.args_spec() == seq!["status"@, "--porcelain=v2"@, "--branch"@],
    {
        let mut cmd = self.status();
        let ghost c0 = cmd;
        cmd.format(StatusFormat::PorcelainV2);
        cmd.branch();
        assert(cmd.executor == c0.executor);
        assert(cmd.args_spec() =~= seq!["status"@, "--porcelain=v2"@, "--branch"@]);
        cmd
    }

    /// `git symbolic-ref --short refs/remotes/origin/HEAD`, whose trimmed
    /// answer goes to [`default_branch_from`].
    pub fn default_branch_command(&self) -> (r: SymbolicRefCommand)
        ensures
            r.executor@ == scoped_executor(self@),
            r.args_spec() == seq!["symbolic-ref"@, "--short"@, "refs/remotes/origin/HEAD"@],
    {
        let mut cmd = self.symbolic_ref(SymbolicRefCommand::read("refs/remotes/origin/HEAD"));
        cmd.short();
        assert(cmd.args_spec() =~= seq!["symbolic-ref"@, "--short"@, "refs/remotes/origin/HEAD"@]);
        cmd
    }
}

} // verus!
