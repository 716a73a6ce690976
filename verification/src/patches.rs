//! Typed patch round-tripping: format commits out, replay them back in.
//!
//! Reached through [`Repository::patches`], which returns a [`PatchOps`]
//! handle. [`format`](PatchOps::format) returns a chained builder over
//! `git format-patch`; [`apply_args`](PatchOps::apply_args) and
//! [`am_args`](PatchOps::am_args) replay a patch into the working tree and
//! into a commit respectively.
//!
//! The difference between the two replay operations is the one git draws:
//! `apply` only changes the working tree, while `am` reads the patch as a
//! mailbox and records a commit carrying its original author, date, and
//! subject.
use vstd::prelude::*;

use crate::command::format_patch::FormatPatchCommand;
use crate::command::{flag, opt_pair, push_text, start_args, GitCommand, IntoText};
use crate::repo::{join_path, path_join, scoped_executor, Repository};
use crate::text::{chars_of, lines, lines_of, nonempty_pieces, opt_view, seq_views, text_of};

verus! {

/// High-level patch round-tripping, scoped to a [`Repository`].
///
/// Obtained via [`Repository::patches`].
#[derive(Debug)]
pub struct PatchOps<'a> {
    repo: &'a Repository,
}

impl<'a> View for PatchOps<'a> {
    type V = Seq<char>;

    /// The working-tree path of the repository the operations act on.
    closed spec fn view(&self) -> Seq<char> {
        self.repo@
    }
}

impl<'a> PatchOps<'a> {
    /// The repository the operations act on.
    pub fn repo(&self) -> (r: &'a Repository)
        ensures
            r@ == self@,
    {
        self.repo
    }

    /// Format the commits selected by `rev_spec` as patch files.
    ///
    /// Returns a chained builder; its [`command`](FormatPatches::command) is
    /// the `git format-patch` run.
    pub fn format(&self, rev_spec: impl IntoText) -> (r: FormatPatches<'a>)
        ensures
            r@ == (FormatView {
                repo: self@,
                rev_spec: rev_spec.text(),
                output_dir: None,
                numbered: false,
                signoff: false,
            }),
    {
        FormatPatches {
            repo: self.repo,
            rev_spec: rev_spec.into_text(),
            output_dir: None,
            numbered: false,
            signoff: false,
        }
    }

    /// The arguments after `git` that apply the patch at `path` to the
    /// working tree: `apply <path>`, run in the repository's working tree.
    ///
    /// The change is left unstaged and uncommitted; `am` records it as a
    /// commit instead. Git fails if the patch does not apply.
    pub fn apply_args(&self, path: impl IntoText) -> (r: Vec<String>)
        ensures
            seq_views(r@) == seq!["apply"@, path.text()],
    {
        let mut args = start_args("apply");
        let p = path.into_text();
        push_text(&mut args, &p);
        args
    }

    /// The arguments after `git` that apply the mailbox at `path` and commit
    /// each patch it carries: `am <path>`, run in the repository's working
    /// tree.
    ///
    /// Each commit keeps the author, date, and subject recorded in the patch.
    /// When a patch does not apply, `git am` stops and leaves the repository
    /// mid-session.
    pub fn am_args(&self, path: impl IntoText) -> (r: Vec<String>)
        ensures
            seq_views(r@) == seq!["am"@, path.text()],
    {
        let mut args = start_args("am");
        let p = path.into_text();
        push_text(&mut args, &p);
        args
    }
}

/// Chained builder over `git format-patch`, scoped to a [`Repository`].
///
/// Obtained via [`PatchOps::format`]. Set any options, then take the
/// [`command`](FormatPatches::command). The handle borrows the repository
/// for the duration of one chained call.
#[derive(Debug)]
pub struct FormatPatches<'a> {
    repo: &'a Repository,
    rev_spec: String,
    output_dir: Option<String>,
    numbered: bool,
    signoff: bool,
}

/// The abstract settings of a [`FormatPatches`].
pub struct FormatView {
    /// The working-tree path of the repository.
    pub repo: Seq<char>,
    pub rev_spec: Seq<char>,
    pub output_dir: Option<Seq<char>>,
    pub numbered: bool,
    pub signoff: bool,
}

impl<'a> View for FormatPatches<'a> {
    type V = FormatView;

    closed spec fn view(&self) -> FormatView {
        FormatView {
            repo: self.repo@,
            rev_spec: self.rev_spec@,
            output_dir: opt_view(self.output_dir),
            numbered: self.numbered,
            signoff: self.signoff,
        }
    }
}

/// The arguments of the `format-patch` run the settings `v` describe.
pub open spec fn format_args_of(v: FormatView) -> Seq<Seq<char>> {
    seq!["format-patch"@] + flag(v.numbered, "-n"@) + flag(v.signoff, "--signoff"@) + opt_pair(
        "-o"@,
        v.output_dir,
    ) + seq![v.rev_spec]
}

/// The paths of the patches `format-patch` reports in `stdout` (one per
/// line), each resolved against the repository root `root`.
pub open spec fn patch_paths_of(root: Seq<char>, stdout: Seq<char>) -> Seq<Seq<char>> {
    nonempty_pieces(lines_of(stdout)).map_values(|p: Seq<char>| path_join(root, p))
}

impl<'a> FormatPatches<'a> {
    /// Write the generated patches into `dir` instead of the repository root.
    ///
    /// A relative path is resolved against the repository root, matching the
    /// `-o` argument git itself receives.
    pub fn output_dir(self, dir: impl IntoText) -> (r: Self)
        ensures
            r@ == (FormatView { output_dir: Some(dir.text()), ..self@ }),
    {
        FormatPatches { output_dir: Some(dir.into_text()), ..self }
    }

    /// Force numbered `[PATCH n/m]` subject prefixes even for a single patch.
    pub fn numbered(self) -> (r: Self)
        ensures
            r@ == (FormatView { numbered: true, ..self@ }),
    {
        FormatPatches { numbered: true, ..self }
    }

    /// Add a `Signed-off-by` trailer to each generated patch.
    pub fn signoff(self) -> (r: Self)
        ensures
            r@ == (FormatView { signoff: true, ..self@ }),
    {
        FormatPatches { signoff: true, ..self }
    }

    /// The configured raw command, run in the repository's working tree.
    pub fn command(&self) -> (r: FormatPatchCommand)
        ensures
            r.executor@ == scoped_executor(self@.repo),
            r.args_spec() == format_args_of(self@),
    {
        let mut cmd = self.repo.format_patch();
        cmd.rev_spec(&self.rev_spec);
        if let Some(dir) = &self.output_dir {
            cmd.output_dir(dir);
        }
        if self.numbered {
            cmd.numbered();
        }
        if self.signoff {
            cmd.signoff();
        }
        assert(cmd.args_spec() =~= format_args_of(self@));
        cmd
    }

    /// The paths of the written patches, in the order git generated them,
    /// from the output of [`command`](FormatPatches::command).
    ///
    /// Git prints the paths relative to the directory it ran in, which is the
    /// repository root; they are returned joined onto that root, so every
    /// path is usable from anywhere in the calling program. An absolute
    /// [`output_dir`](FormatPatches::output_dir) is left as git reported it.
    pub fn patch_paths(&self, stdout: &str) -> (r: Vec<String>)
        ensures
            seq_views(r@) == patch_paths_of(self@.repo, stdout@),
    {
        let root = self.repo.path();
        let s = chars_of(stdout);
        let ls = lines(&s);
        let ghost lv = seq_views(ls@);
        let ghost f = |p: Seq<char>| path_join(root@, p);
        let mut out: Vec<String> = Vec::new();
        let mut i: usize = 0;
        assert(lv.take(0) =~= Seq::<Seq<char>>::empty());
        assert(seq_views(out@) =~= nonempty_pieces(lv.take(0)).map_values(f));
        while i < ls.len()
            invariant
                i <= ls.len(),
                lv == seq_views(ls@),
                lv == lines_of(stdout@),
                root@ == self@.repo,
                f == (|p: Seq<char>| path_join(root@, p)),
                seq_views(out@) == nonempty_pieces(lv.take(i as int)).map_values(f),
            decreases ls.len() - i,
        {
            assert(lv.take(i + 1).drop_last() =~= lv.take(i as int));
            assert(lv[i as int] == ls@[i as int]@);
            let ghost before = seq_views(out@);
            if ls[i].len() > 0 {
                let t = text_of(&ls[i]);
                let p = join_path(root, t.as_str());
                let ghost pv = p@;
                out.push(p);
                assert(seq_views(out@) =~= before.push(pv));
                assert(nonempty_pieces(lv.take(i + 1)) == nonempty_pieces(lv.take(i as int)).push(
                    lv[i as int],
                ));
                assert(seq_views(out@) =~= nonempty_pieces(lv.take(i + 1)).map_values(f));
            } else {
                assert(nonempty_pieces(lv.take(i + 1)) == nonempty_pieces(lv.take(i as int)));
            }
            i += 1;
        }
        assert(lv.take(ls.len() as int) =~= lv);
        out
    }
}

impl Repository {
    /// Typed patch round-tripping over `format-patch`, `apply`, and `am`.
    pub fn patches(&self) -> (r: PatchOps<'_>)
        ensures
            r@ == self@,
    {
        PatchOps { repo: self }
    }

    /// Build a [`FormatPatchCommand`] scoped to this repository.
    pub fn format_patch(&self) -> (r: FormatPatchCommand)
        ensures
            r.executor@ == scoped_executor(self@),
            r.args_spec() == seq!["format-patch"@],
    {
        let r = FormatPatchCommand::new();
        let mut r = r;
        r.current_dir(self.path());
        assert(r.args_spec() =~= seq!["format-patch"@]);
        r
    }
}

} // verus!
