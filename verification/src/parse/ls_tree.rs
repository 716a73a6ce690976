//! Parser for `git ls-tree` output.
//!
//! Each entry is `<mode> SP <type> SP <sha>[ SP <size>] TAB <path>`. The
//! `<size>` field is only present when `-l`/`--long` was requested, and is
//! `-` for non-blob entries. `--name-only` output has a different shape (a
//! bare newline-separated path list with no tab), so it gets its own helper.
use vstd::prelude::*;

use crate::error::{is_parse_error, Error, Result};
use crate::text::{
    chars_of, is_lit, lines, lines_of, parse_u64, parse_u64_spec, seq_views, splitn_char,
    splitn_class, text_of, words, words_of, CharClass, decimal, is_digit, is_ws, join_with,
    lemma_decimal_digits, lemma_join_avoids, lemma_parse_decimal, lemma_splitn_first,
    lemma_words_join,
};

verus! {

/// Type of a tree entry.
#[derive(Debug, Clone, PartialEq, Eq)]
pub enum TreeObjectType {
    /// A blob (file).
    Blob,
    /// A tree (directory).
    Tree,
    /// A commit (submodule / gitlink).
    Commit,
    /// Some other type not recognized.
    Other(String),
}

/// The abstract contents of a [`TreeObjectType`].
pub enum TreeObjectTypeView {
    Blob,
    Tree,
    Commit,
    Other(Seq<char>),
}

impl View for TreeObjectType {
    type V = TreeObjectTypeView;

    open spec fn view(&self) -> TreeObjectTypeView {
        match self {
            TreeObjectType::Blob => TreeObjectTypeView::Blob,
            TreeObjectType::Tree => TreeObjectTypeView::Tree,
            TreeObjectType::Commit => TreeObjectTypeView::Commit,
            TreeObjectType::Other(s) => TreeObjectTypeView::Other(s@),
        }
    }
}

/// The type a type name stands for.
pub open spec fn tree_type_of(s: Seq<char>) -> TreeObjectTypeView {
    if s == "blob"@ {
        TreeObjectTypeView::Blob
    } else if s == "tree"@ {
        TreeObjectTypeView::Tree
    } else if s == "commit"@ {
        TreeObjectTypeView::Commit
    } else {
        TreeObjectTypeView::Other(s)
    }
}

/// `blob`, `tree` and `commit` each name their own type and no other name
/// does; any other name is kept as it came.
pub proof fn lemma_tree_type_names(s: Seq<char>)
    ensures
        (tree_type_of(s) == TreeObjectTypeView::Blob) <==> s == "blob"@,
        (tree_type_of(s) == TreeObjectTypeView::Tree) <==> s == "tree"@,
        (tree_type_of(s) == TreeObjectTypeView::Commit) <==> s == "commit"@,
        tree_type_of(s) matches TreeObjectTypeView::Other(x) ==> x == s && s != "blob"@ && s
            != "tree"@ && s != "commit"@,
{
    reveal_strlit("blob");
    reveal_strlit("tree");
    reveal_strlit("commit");
    assert("blob"@[0] != "tree"@[0]);
    assert("blob"@.len() != "commit"@.len());
    assert("tree"@.len() != "commit"@.len());
}

/// The type a type name stands for.
pub fn tree_type(s: &Vec<char>) -> (r: TreeObjectType)
    ensures
        r@ == tree_type_of(s@),
{
    if is_lit(s, "blob") {
        TreeObjectType::Blob
    } else if is_lit(s, "tree") {
        TreeObjectType::Tree
    } else if is_lit(s, "commit") {
        TreeObjectType::Commit
    } else {
        TreeObjectType::Other(text_of(s))
    }
}

impl<'a> vstd::std_specs::convert::FromSpecImpl<&'a str> for TreeObjectType {
    /// The text of [`TreeObjectType::Other`] cannot be built in a
    /// specification, so the result is stated on `from` itself instead.
    open spec fn obeys_from_spec() -> bool {
        false
    }

    open spec fn from_spec(v: &'a str) -> Self {
        TreeObjectType::Blob
    }
}

impl<'a> From<&'a str> for TreeObjectType {
    fn from(s: &'a str) -> (r: Self)
        ensures
            r@ == tree_type_of(s@),
    {
        tree_type(&chars_of(s))
    }
}

/// One parsed entry from `git ls-tree`.
#[derive(Debug, Clone, PartialEq, Eq)]
pub struct TreeEntry {
    /// File mode (e.g. `100644`).
    pub mode: String,
    /// Object type.
    pub object_type: TreeObjectType,
    /// Object SHA.
    pub sha: String,
    /// Object size in bytes; populated only when `-l`/`--long` was
    /// requested. The `-` sentinel (non-blob entries) maps to `None`.
    pub size: Option<u64>,
    /// Path relative to the tree root.
    pub path: String,
}

/// The abstract contents of a [`TreeEntry`].
pub struct TreeEntryView {
    pub mode: Seq<char>,
    pub object_type: TreeObjectTypeView,
    pub sha: Seq<char>,
    pub size: Option<u64>,
    pub path: Seq<char>,
}

impl View for TreeEntry {
    type V = TreeEntryView;

    open spec fn view(&self) -> TreeEntryView {
        TreeEntryView {
            mode: self.mode@,
            object_type: self.object_type@,
            sha: self.sha@,
            size: self.size,
            path: self.path@,
        }
    }
}

/// The entry a non-empty `ls-tree` line describes, or the message saying
/// what it lacks.
pub open spec fn ls_tree_line(line: Seq<char>) -> core::result::Result<TreeEntryView, Seq<char>> {
    let halves = splitn_class(line, 2, CharClass::Exactly('\t'));
    if halves.len() < 1 {
        Err("ls-tree entry missing metadata"@)
    } else if halves.len() < 2 {
        Err("ls-tree entry missing path"@)
    } else {
        let f = words_of(halves[0]);
        if f.len() < 1 {
            Err("ls-tree entry missing mode"@)
        } else if f.len() < 2 {
            Err("ls-tree entry missing type"@)
        } else if f.len() < 3 {
            Err("ls-tree entry missing sha"@)
        } else if f.len() >= 4 && f[3] != "-"@ && parse_u64_spec(f[3]) is None {
            Err("ls-tree entry has invalid size"@)
        } else {
            let size = if f.len() < 4 || f[3] == "-"@ {
                None
            } else {
                parse_u64_spec(f[3])
            };
            Ok(
                TreeEntryView {
                    mode: f[0],
                    object_type: tree_type_of(f[1]),
                    sha: f[2],
                    size,
                    path: halves[1],
                },
            )
        }
    }
}

/// An `ls-tree` line `<mode> <type> <sha>\t<path>`, where mode, type and
/// SHA are non-empty words without white space, is the entry with that
/// mode, the type its name stands for, that SHA and path, and no size; with
/// ` <size>` after the SHA it has that size.
pub proof fn lemma_ls_tree_line_fields(
    mode: Seq<char>,
    ty: Seq<char>,
    sha: Seq<char>,
    path: Seq<char>,
    size: u64,
)
    requires
        mode.len() > 0,
        ty.len() > 0,
        sha.len() > 0,
        forall|m: int| 0 <= m < mode.len() ==> !is_ws(#[trigger] mode[m]),
        forall|m: int| 0 <= m < ty.len() ==> !is_ws(#[trigger] ty[m]),
        forall|m: int| 0 <= m < sha.len() ==> !is_ws(#[trigger] sha[m]),
    ensures
        ls_tree_line(mode + seq![' '] + ty + seq![' '] + sha + seq!['\t'] + path) == Ok::<
            TreeEntryView,
            Seq<char>,
        >(TreeEntryView { mode, object_type: tree_type_of(ty), sha, size: None, path }),
        ls_tree_line(
            mode + seq![' '] + ty + seq![' '] + sha + seq![' '] + decimal(size as nat) + seq!['\t']
                + path,
        ) == Ok::<TreeEntryView, Seq<char>>(
            TreeEntryView { mode, object_type: tree_type_of(ty), sha, size: Some(size), path },
        ),
{
    let ds = decimal(size as nat);
    lemma_decimal_digits(size as nat);
    lemma_parse_decimal(size as nat, u64::MAX as nat);
    let p1 = seq![mode];
    let p2 = seq![mode, ty];
    let p3 = seq![mode, ty, sha];
    let p4 = seq![mode, ty, sha, ds];
    assert(p4.drop_last() =~= p3);
    assert(p3.drop_last() =~= p2);
    assert(p2.drop_last() =~= p1);
    assert(join_with(p1, seq![' ']) == mode);
    assert(join_with(p2, seq![' ']) == mode + seq![' '] + ty);
    let m3 = join_with(p3, seq![' ']);
    let m4 = join_with(p4, seq![' ']);
    assert(m3 == mode + seq![' '] + ty + seq![' '] + sha);
    assert(m4 == mode + seq![' '] + ty + seq![' '] + sha + seq![' '] + ds);
    assert forall|i: int, m: int| 0 <= i < p4.len() && 0 <= m < p4[i].len() implies !is_ws(
        #[trigger] p4[i][m],
    ) by {
        if i == 3 {
            assert(is_digit(ds[m]));
        }
    }
    assert forall|i: int, m: int| 0 <= i < p3.len() && 0 <= m < p3[i].len() implies !is_ws(
        #[trigger] p3[i][m],
    ) by {
        assert(p3[i] == p4[i]);
    }
    assert forall|i: int| 0 <= i < p4.len() implies (#[trigger] p4[i]).len() > 0 by {}
    assert forall|i: int| 0 <= i < p3.len() implies (#[trigger] p3[i]).len() > 0 by {
        assert(p3[i] == p4[i]);
    }
    assert forall|i: int| 0 <= i < p4.len() implies !(#[trigger] p4[i]).contains('\t') by {
        if p4[i].contains('\t') {
            let m = choose|m: int| 0 <= m < p4[i].len() && p4[i][m] == '\t';
            assert(!is_ws(p4[i][m]));
        }
    }
    assert forall|i: int| 0 <= i < p3.len() implies !(#[trigger] p3[i]).contains('\t') by {
        assert(p3[i] == p4[i]);
    }
    lemma_words_join(p3);
    lemma_words_join(p4);
    lemma_join_avoids(p3, ' ', '\t');
    lemma_join_avoids(p4, ' ', '\t');
    lemma_splitn_first(m3, '\t', path, 2);
    lemma_splitn_first(m4, '\t', path, 2);
    assert(m3 + seq!['\t'] + path =~= mode + seq![' '] + ty + seq![' '] + sha + seq!['\t'] + path);
    assert(m4 + seq!['\t'] + path =~= mode + seq![' '] + ty + seq![' '] + sha + seq![' '] + ds
        + seq!['\t'] + path);
    reveal_strlit("-");
    assert(is_digit(ds[0]));
    assert(ds != "-"@);
}

/// The entries of the lines `ls` from line `i` on, after those in `acc`;
/// or the message of the first malformed line.
pub open spec fn ls_tree_from(
    ls: Seq<Seq<char>>,
    i: int,
    acc: Seq<TreeEntryView>,
) -> core::result::Result<Seq<TreeEntryView>, Seq<char>>
    decreases ls.len() - i,
{
    if i < 0 || i >= ls.len() {
        Ok(acc)
    } else if ls[i].len() == 0 {
        ls_tree_from(ls, i + 1, acc)
    } else {
        match ls_tree_line(ls[i]) {
            Ok(e) => ls_tree_from(ls, i + 1, acc.push(e)),
            Err(m) => Err(m),
        }
    }
}

/// What `git ls-tree` output `s` parses to.
pub open spec fn ls_tree_spec(s: Seq<char>) -> core::result::Result<Seq<TreeEntryView>, Seq<char>> {
    ls_tree_from(lines_of(s), 0, Seq::empty())
}

fn parse_ls_tree_line(line: &Vec<char>) -> (r: Result<TreeEntry>)
    ensures
        r matches Ok(e) ==> ls_tree_line(line@) == Ok::<TreeEntryView, Seq<char>>(e@),
        r matches Err(e) ==> ls_tree_line(line@) matches Err(m) && is_parse_error(e, m),
{
    let halves = splitn_char(line, 2, '\t');
    let ghost hv = seq_views(halves@);
    if halves.len() < 1 {
        return Err(Error::parse_error("ls-tree entry missing metadata"));
    }
    if halves.len() < 2 {
        return Err(Error::parse_error("ls-tree entry missing path"));
    }
    assert(hv[0] == halves@[0]@);
    assert(hv[1] == halves@[1]@);
    let f = words(&halves[0]);
    let ghost fv = seq_views(f@);
    if f.len() < 1 {
        return Err(Error::parse_error("ls-tree entry missing mode"));
    }
    if f.len() < 2 {
        return Err(Error::parse_error("ls-tree entry missing type"));
    }
    if f.len() < 3 {
        return Err(Error::parse_error("ls-tree entry missing sha"));
    }
    assert(fv[0] == f@[0]@);
    assert(fv[1] == f@[1]@);
    assert(fv[2] == f@[2]@);
    let size = if f.len() < 4 || is_lit(&f[3], "-") {
        None
    } else {
        assert(fv[3] == f@[3]@);
        match parse_u64(&f[3]) {
            Some(v) => Some(v),
            None => {
                return Err(Error::parse_error("ls-tree entry has invalid size"));
            },
        }
    };
    if f.len() >= 4 {
        assert(fv[3] == f@[3]@);
    }
    Ok(
        TreeEntry {
            mode: text_of(&f[0]),
            object_type: tree_type(&f[1]),
            sha: text_of(&f[2]),
            size,
            path: text_of(&halves[1]),
        },
    )
}

/// Parse the output of `git ls-tree` (with or without `-l`/`--long`).
///
/// Returns [`Error::ParseError`] if a line is malformed.
pub fn parse_ls_tree(input: &str) -> (r: Result<Vec<TreeEntry>>)
    ensures
        r matches Ok(v) ==> ls_tree_spec(input@) == Ok::<Seq<TreeEntryView>, Seq<char>>(
            seq_views(v@),
        ),
        r matches Err(e) ==> ls_tree_spec(input@) matches Err(m) && is_parse_error(e, m),
{
    let s = chars_of(input);
    let ls = lines(&s);
    let ghost lv = seq_views(ls@);
    let mut out: Vec<TreeEntry> = Vec::new();
    let mut i: usize = 0;
    assert(seq_views(out@) =~= Seq::<TreeEntryView>::empty());
    while i < ls.len()
        invariant
            lv == seq_views(ls@),
            lv == lines_of(input@),
            ls_tree_spec(input@) == ls_tree_from(lv, i as int, seq_views(out@)),
        decreases ls.len() - i,
    {
        assert(lv[i as int] == ls@[i as int]@);
        if ls[i].len() > 0 {
            let e = parse_ls_tree_line(&ls[i])?;
            let ghost acc = seq_views(out@);
            let ghost ev = e@;
            out.push(e);
            assert(seq_views(out@) =~= acc.push(ev));
        }
        i += 1;
    }
    Ok(out)
}

/// The non-empty lines of `ls` from line `i` on, after those in `acc`.
pub open spec fn nonempty_lines_from(ls: Seq<Seq<char>>, i: int, acc: Seq<Seq<char>>) -> Seq<
    Seq<char>,
>
    decreases ls.len() - i,
{
    if i < 0 || i >= ls.len() {
        acc
    } else if ls[i].len() == 0 {
        nonempty_lines_from(ls, i + 1, acc)
    } else {
        nonempty_lines_from(ls, i + 1, acc.push(ls[i]))
    }
}

/// The non-empty lines of `s`, in order.
pub open spec fn nonempty_lines(s: Seq<char>) -> Seq<Seq<char>> {
    nonempty_lines_from(lines_of(s), 0, Seq::empty())
}

/// Parse the output of `git ls-tree --name-only`: a bare newline-separated
/// list of paths.
pub fn parse_ls_tree_name_only(input: &str) -> (r: Vec<String>)
    ensures
        seq_views(r@) == nonempty_lines(input@),
{
    let s = chars_of(input);
    let ls = lines(&s);
    let ghost lv = seq_views(ls@);
    let mut out: Vec<String> = Vec::new();
    let mut i: usize = 0;
    assert(seq_views(out@) =~= Seq::<Seq<char>>::empty());
    while i < ls.len()
        invariant
            lv == seq_views(ls@),
            lv == lines_of(input@),
            nonempty_lines(input@) == nonempty_lines_from(lv, i as int, seq_views(out@)),
        decreases ls.len() - i,
    {
        assert(lv[i as int] == ls@[i as int]@);
        if ls[i].len() > 0 {
            let ghost acc = seq_views(out@);
            let t = text_of(&ls[i]);
            let ghost tv = t@;
            out.push(t);
            assert(seq_views(out@) =~= acc.push(tv));
        }
        i += 1;
    }
    out
}

} // verus!
