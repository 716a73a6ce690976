//! Typed management of repository hooks.
//!
//! Reached through [`Repository::hooks`], which returns a [`HookOps`] handle.
//! The hooks directory is `<git-dir>/hooks` unless `core.hooksPath` is set,
//! in which case that path is honored (resolved against the working tree when
//! relative), matching where git itself looks for hooks
//! ([`HookOps::hooks_dir_from`]).
//!
//! A hook is [`enabled`](Hook::enabled) when a non-sample file exists at its
//! name and is executable. Git ships samples as `<name>.sample`; those are
//! reported under their bare name with `enabled == false`
//! ([`classify_hooks`]).
use vstd::prelude::*;

use crate::repo::{join_path, path_join, Repository};
use crate::text::{
    chars_of, has_prefix, has_suffix, seq_views, starts_with, strip_suffix, strip_suffix_spec,
};

verus! {

/// The suffix git uses for its shipped sample hooks.
pub const SAMPLE_SUFFIX: &'static str = ".sample";

/// One hook in the repository's hooks directory.
#[derive(Debug, Clone, PartialEq, Eq)]
pub struct Hook {
    /// Hook name (e.g. `"pre-commit"`), with any `.sample` suffix stripped.
    pub name: String,
    /// Full path to the backing file.
    pub path: String,
    /// Whether git would run this hook: a non-sample, executable file.
    pub enabled: bool,
}

/// The abstract contents of a [`Hook`].
pub struct HookView {
    pub name: Seq<char>,
    pub path: Seq<char>,
    pub enabled: bool,
}

impl View for Hook {
    type V = HookView;

    open spec fn view(&self) -> HookView {
        HookView { name: self.name@, path: self.path@, enabled: self.enabled }
    }
}

impl Default for Hook {
    fn default() -> (r: Self)
        ensures
            r.name@.len() == 0,
            r.path@.len() == 0,
            !r.enabled,
    {
        Hook { name: String::new(), path: String::new(), enabled: false }
    }
}

/// Operations on repository hooks, scoped to a [`Repository`].
///
/// Obtained via [`Repository::hooks`]. The handle borrows the repository for
/// the duration of one chained call — there is no shared state.
#[derive(Debug)]
pub struct HookOps<'a> {
    repo: &'a Repository,
}

impl<'a> View for HookOps<'a> {
    type V = Seq<char>;

    /// The working-tree path of the repository the operations act on.
    closed spec fn view(&self) -> Seq<char> {
        self.repo@
    }
}

/// The hooks directory: `core.hooksPath` when it is set (resolved against
/// the working tree when relative), `<git-dir>/hooks` otherwise.
pub open spec fn hooks_dir_spec(work_tree: Seq<char>, core_hooks_path: Option<Seq<char>>) -> Seq<
    char,
> {
    match core_hooks_path {
        Some(p) => if has_prefix(p, "/"@) {
            p
        } else {
            path_join(work_tree, p)
        },
        None => path_join(path_join(work_tree, ".git"@), "hooks"@),
    }
}

impl<'a> HookOps<'a> {
    /// The repository the operations act on.
    pub fn repo(&self) -> (r: &'a Repository)
        ensures
            r@ == self@,
    {
        self.repo
    }

    /// The hooks directory, given the value of `core.hooksPath` (`None` when
    /// it is not set).
    pub fn hooks_dir_from(&self, core_hooks_path: Option<&str>) -> (r: String)
        ensures
            r@ == hooks_dir_spec(
                self@,
                match core_hooks_path {
                    Some(p) => Some(p@),
                    None => None,
                },
            ),
    {
        proof {
            reveal_strlit("/");
        }
        match core_hooks_path {
            Some(p) => {
                if starts_with(&chars_of(p), "/") {
                    p.to_owned()
                } else {
                    join_path(self.repo.path(), p)
                }
            },
            None => {
                let git_dir = self.repo.git_dir();
                join_path(git_dir.as_str(), "hooks")
            },
        }
    }
}

impl<'a> HookOps<'a> {
    /// The file of the hook `name` in the hooks directory `dir`.
    pub fn hook_path(dir: &str, name: &str) -> (r: String)
        ensures
            r@ == path_join(dir@, name@),
    {
        join_path(dir, name)
    }
}

/// A file mode marks the file executable when any of its owner, group or
/// other execute bits is set.
pub open spec fn mode_executable(mode: u32) -> bool {
    mode & 0o111u32 != 0
}

/// Whether a Unix file mode marks the file executable.
pub fn is_executable_mode(mode: u32) -> (r: bool)
    ensures
        r == mode_executable(mode),
{
    mode & 0o111u32 != 0
}

/// The mode [`HookOps`] gives a hook it enables: `rwxr-xr-x` added to the
/// old mode.
pub fn enabled_mode(mode: u32) -> (r: u32)
    ensures
        r == mode | 0o755u32,
{
    mode | 0o755u32
}

/// The mode [`HookOps`] gives a hook it disables: every execute bit
/// cleared.
pub fn disabled_mode(mode: u32) -> (r: u32)
    ensures
        r == mode & !0o111u32,
{
    mode & !0o111u32
}

/// Enabling a hook makes it executable, and disabling makes it not
/// executable, whatever its mode was.
pub proof fn lemma_enable_disable(mode: u32)
    ensures
        mode_executable(mode | 0o755u32),
        !mode_executable(mode & !0o111u32),
{
    assert((mode | 0o755u32) & 0o111u32 != 0) by (bit_vector);
    assert((mode & !0o111u32) & 0o111u32 == 0) by (bit_vector);
}

/// Disabling then enabling a hook gives the same mode as enabling it,
/// and enabling leaves every other permission bit as it was.
pub proof fn lemma_enable_keeps_other_bits(mode: u32)
    ensures
        (mode & !0o111u32) | 0o755u32 == mode | 0o755u32,
        (mode | 0o755u32) & !0o777u32 == mode & !0o777u32,
{
    assert((mode & !0o111u32) | 0o755u32 == mode | 0o755u32) by (bit_vector);
    assert((mode | 0o755u32) & !0o777u32 == mode & !0o777u32) by (bit_vector);
}

impl Repository {
    /// Operations on repository hooks.
    pub fn hooks(&self) -> (r: HookOps<'_>)
        ensures
            r@ == self@,
    {
        HookOps { repo: self }
    }
}

// ---------------------------------------------------------------------------
// Name order
// ---------------------------------------------------------------------------
/// `a` sorts strictly before `b` by code point, the order of `String`'s
/// `Ord` (for UTF-8, byte order and code-point order agree).
pub open spec fn text_lt(a: Seq<char>, b: Seq<char>) -> bool
    decreases a.len(),
{
    if a.len() == 0 {
        b.len() > 0
    } else if b.len() == 0 {
        false
    } else if a[0] < b[0] {
        true
    } else if a[0] > b[0] {
        false
    } else {
        text_lt(a.drop_first(), b.drop_first())
    }
}

pub proof fn lemma_text_lt_irreflexive(a: Seq<char>)
    ensures
        !text_lt(a, a),
    decreases a.len(),
{
    if a.len() > 0 {
        lemma_text_lt_irreflexive(a.drop_first());
    }
}

pub proof fn lemma_text_lt_transitive(a: Seq<char>, b: Seq<char>, c: Seq<char>)
    requires
        text_lt(a, b),
        text_lt(b, c),
    ensures
        text_lt(a, c),
    decreases a.len(),
{
    if a.len() > 0 && b.len() > 0 && c.len() > 0 {
        if a[0] == b[0] && b[0] == c[0] {
            lemma_text_lt_transitive(a.drop_first(), b.drop_first(), c.drop_first());
        }
    }
}

pub proof fn lemma_text_lt_total(a: Seq<char>, b: Seq<char>)
    requires
        a != b,
    ensures
        text_lt(a, b) || text_lt(b, a),
    decreases a.len(),
{
    if a.len() > 0 && b.len() > 0 {
        if a[0] == b[0] {
            if a.drop_first() == b.drop_first() {
                assert(a =~= seq![a[0]] + a.drop_first());
                assert(b =~= seq![b[0]] + b.drop_first());
            }
            lemma_text_lt_total(a.drop_first(), b.drop_first());
        }
    } else if a.len() == 0 && b.len() == 0 {
        assert(a =~= b);
    }
}

/// Whether `a` sorts strictly before `b` (see [`text_lt`]).
fn text_less(a: &Vec<char>, b: &Vec<char>) -> (r: bool)
    ensures
        r == text_lt(a@, b@),
{
    let mut i: usize = 0;
    assert(a@.skip(0) =~= a@);
    assert(b@.skip(0) =~= b@);
    while i < a.len() && i < b.len()
        invariant
            i <= a.len(),
            i <= b.len(),
            text_lt(a@, b@) == text_lt(a@.skip(i as int), b@.skip(i as int)),
        decreases a.len() - i,
    {
        assert(a@.skip(i as int).drop_first() =~= a@.skip(i + 1));
        assert(b@.skip(i as int).drop_first() =~= b@.skip(i + 1));
        assert(a@.skip(i as int)[0] == a@[i as int]);
        assert(b@.skip(i as int)[0] == b@[i as int]);
        if a[i] < b[i] {
            return true;
        }
        if a[i] > b[i] {
            return false;
        }
        i += 1;
    }
    i == a.len() && i < b.len()
}

// ---------------------------------------------------------------------------
// Classification
// ---------------------------------------------------------------------------
/// The view of a directory listing: file names and whether each is
/// executable.
pub open spec fn listing_view(es: Seq<(String, bool)>) -> Seq<(Seq<char>, bool)> {
    es.map_values(|e: (String, bool)| (e.0@, e.1))
}

/// The hooks after recording the real (non-sample) files of `es` from entry
/// `i` on into `m`; a later file of a name replaces an earlier one.
pub open spec fn real_hooks_from(
    dir: Seq<char>,
    es: Seq<(Seq<char>, bool)>,
    i: int,
    m: Map<Seq<char>, HookView>,
) -> Map<Seq<char>, HookView>
    decreases es.len() - i,
{
    if i < 0 || i >= es.len() {
        m
    } else if has_suffix(es[i].0, ".sample"@) {
        real_hooks_from(dir, es, i + 1, m)
    } else {
        real_hooks_from(
            dir,
            es,
            i + 1,
            m.insert(es[i].0, HookView { name: es[i].0, path: path_join(dir, es[i].0), enabled: es[i].1 }),
        )
    }
}

/// The hooks after recording the samples of `es` from entry `i` on into
/// `m`; a sample only counts when no hook of its bare name is recorded yet.
pub open spec fn sample_hooks_from(
    dir: Seq<char>,
    es: Seq<(Seq<char>, bool)>,
    i: int,
    m: Map<Seq<char>, HookView>,
) -> Map<Seq<char>, HookView>
    decreases es.len() - i,
{
    if i < 0 || i >= es.len() {
        m
    } else {
        match strip_suffix_spec(es[i].0, ".sample"@) {
            Some(n) => if m.contains_key(n) {
                sample_hooks_from(dir, es, i + 1, m)
            } else {
                sample_hooks_from(
                    dir,
                    es,
                    i + 1,
                    m.insert(n, HookView { name: n, path: path_join(dir, es[i].0), enabled: false }),
                )
            },
            None => sample_hooks_from(dir, es, i + 1, m),
        }
    }
}

/// One hook per name in the listing `es` of `dir`: real files first, then
/// samples for the names no real file has.
pub open spec fn hooks_of(dir: Seq<char>, es: Seq<(Seq<char>, bool)>) -> Map<Seq<char>, HookView> {
    sample_hooks_from(dir, es, 0, real_hooks_from(dir, es, 0, Map::empty()))
}

/// No two entries of the listing share a file name.
pub open spec fn distinct_names(es: Seq<(Seq<char>, bool)>) -> bool {
    forall|x: int, y: int| 0 <= x < y < es.len() ==> #[trigger] es[x].0 != #[trigger] es[y].0
}

/// Entry `j` is a real (non-sample) file named `k`.
pub open spec fn real_entry(es: Seq<(Seq<char>, bool)>, j: int, k: Seq<char>) -> bool {
    es[j].0 == k && !has_suffix(k, ".sample"@)
}

/// Entry `j` is the sample of the hook named `k`.
pub open spec fn sample_entry(es: Seq<(Seq<char>, bool)>, j: int, k: Seq<char>) -> bool {
    strip_suffix_spec(es[j].0, ".sample"@) == Some(k)
}

/// Some entry from `i` on is a real file named `k`.
pub open spec fn has_real_from(es: Seq<(Seq<char>, bool)>, i: int, k: Seq<char>) -> bool {
    exists|j: int| i <= j < es.len() && #[trigger] real_entry(es, j, k)
}

/// Some entry from `i` on is the sample of the hook named `k`.
pub open spec fn has_sample_from(es: Seq<(Seq<char>, bool)>, i: int, k: Seq<char>) -> bool {
    exists|j: int| i <= j < es.len() && #[trigger] sample_entry(es, j, k)
}

/// The hook a real file stands for.
pub open spec fn real_hook(dir: Seq<char>, e: (Seq<char>, bool)) -> HookView {
    HookView { name: e.0, path: path_join(dir, e.0), enabled: e.1 }
}

/// The hook a sample file stands for: the bare name, never enabled.
pub open spec fn sample_hook(dir: Seq<char>, e: (Seq<char>, bool), n: Seq<char>) -> HookView {
    HookView { name: n, path: path_join(dir, e.0), enabled: false }
}

proof fn lemma_real_hooks(
    dir: Seq<char>,
    es: Seq<(Seq<char>, bool)>,
    i: int,
    m0: Map<Seq<char>, HookView>,
)
    requires
        0 <= i,
        distinct_names(es),
    ensures
        forall|k: Seq<char>|
            #[trigger] real_hooks_from(dir, es, i, m0).contains_key(k) <==> (m0.contains_key(k)
                || has_real_from(es, i, k)),
        forall|j: int|
            i <= j < es.len() && !has_suffix(es[j].0, ".sample"@) ==> real_hooks_from(
                dir,
                es,
                i,
                m0,
            )[#[trigger] es[j].0] == real_hook(dir, es[j]),
        forall|k: Seq<char>|
            m0.contains_key(k) && !has_real_from(es, i, k) ==> #[trigger] real_hooks_from(
                dir,
                es,
                i,
                m0,
            )[k] == m0[k],
    decreases es.len() - i,
{
    if i < es.len() {
        let m1 = if has_suffix(es[i].0, ".sample"@) {
            m0
        } else {
            m0.insert(es[i].0, real_hook(dir, es[i]))
        };
        assert(real_hooks_from(dir, es, i, m0) == real_hooks_from(dir, es, i + 1, m1));
        lemma_real_hooks(dir, es, i + 1, m1);
        assert forall|k: Seq<char>| has_real_from(es, i, k) <==> (real_entry(es, i, k)
            || has_real_from(es, i + 1, k)) by {
            if has_real_from(es, i, k) {
                let j = choose|j: int| i <= j < es.len() && #[trigger] real_entry(es, j, k);
                if j > i {
                    assert(real_entry(es, j, k));
                }
            }
            if real_entry(es, i, k) {
                assert(real_entry(es, i, k));
            }
        }
        assert forall|k: Seq<char>| #[trigger] has_real_from(es, i + 1, k) implies es[i].0 != k by {
            let j = choose|j: int| i + 1 <= j < es.len() && #[trigger] real_entry(es, j, k);
            assert(es[i].0 != es[j].0);
        }
    }
}

proof fn lemma_sample_hooks(
    dir: Seq<char>,
    es: Seq<(Seq<char>, bool)>,
    i: int,
    m1: Map<Seq<char>, HookView>,
)
    requires
        0 <= i,
        distinct_names(es),
    ensures
        forall|k: Seq<char>|
            #[trigger] sample_hooks_from(dir, es, i, m1).contains_key(k) <==> (m1.contains_key(k)
                || has_sample_from(es, i, k)),
        forall|k: Seq<char>|
            m1.contains_key(k) ==> #[trigger] sample_hooks_from(dir, es, i, m1)[k] == m1[k],
        forall|j: int, n: Seq<char>|
            i <= j < es.len() && #[trigger] sample_entry(es, j, n) && !m1.contains_key(n)
                ==> sample_hooks_from(dir, es, i, m1)[n] == sample_hook(dir, es[j], n),
    decreases es.len() - i,
{
    reveal_strlit(".sample");
    if i < es.len() {
        let m2 = match strip_suffix_spec(es[i].0, ".sample"@) {
            Some(n) => if m1.contains_key(n) {
                m1
            } else {
                m1.insert(n, sample_hook(dir, es[i], n))
            },
            None => m1,
        };
        assert(sample_hooks_from(dir, es, i, m1) == sample_hooks_from(dir, es, i + 1, m2));
        lemma_sample_hooks(dir, es, i + 1, m2);
        assert forall|k: Seq<char>| has_sample_from(es, i, k) <==> (sample_entry(es, i, k)
            || has_sample_from(es, i + 1, k)) by {
            if has_sample_from(es, i, k) {
                let j = choose|j: int| i <= j < es.len() && #[trigger] sample_entry(es, j, k);
                if j > i {
                    assert(sample_entry(es, j, k));
                }
            }
            if sample_entry(es, i, k) {
                assert(sample_entry(es, i, k));
            }
        }
        assert forall|j: int, n: Seq<char>|
            i < j < es.len() && #[trigger] sample_entry(es, j, n) implies !sample_entry(es, i, n) by {
            assert(es[i].0 != es[j].0);
            if sample_entry(es, i, n) {
                assert(es[i].0 =~= n + ".sample"@);
                assert(es[j].0 =~= n + ".sample"@);
            }
        }
    }
}

/// For a listing whose file names are distinct, the hooks are: each real
/// file under its own name, with its executable bit; each sample under its
/// bare name, disabled, only where no real file has that name; and no
/// others. ([`classify_hooks`] lists them in strictly increasing name
/// order.)
pub proof fn lemma_hooks_of_listing(dir: Seq<char>, es: Seq<(Seq<char>, bool)>)
    requires
        distinct_names(es),
    ensures
        forall|j: int|
            0 <= j < es.len() && !has_suffix(es[j].0, ".sample"@) ==> #[trigger] hooks_of(
                dir,
                es,
            ).contains_key(es[j].0) && hooks_of(dir, es)[es[j].0] == real_hook(dir, es[j]),
        forall|j: int, n: Seq<char>|
            0 <= j < es.len() && #[trigger] sample_entry(es, j, n) && !has_real_from(es, 0, n)
                ==> hooks_of(dir, es).contains_key(n) && hooks_of(dir, es)[n] == sample_hook(
                dir,
                es[j],
                n,
            ),
        forall|k: Seq<char>|
            #[trigger] hooks_of(dir, es).contains_key(k) ==> has_real_from(es, 0, k)
                || has_sample_from(es, 0, k),
{
    let m0 = Map::<Seq<char>, HookView>::empty();
    let m1 = real_hooks_from(dir, es, 0, m0);
    lemma_real_hooks(dir, es, 0, m0);
    lemma_sample_hooks(dir, es, 0, m1);
    assert forall|j: int|
        0 <= j < es.len() && !has_suffix(es[j].0, ".sample"@) implies #[trigger] hooks_of(
            dir,
            es,
        ).contains_key(es[j].0) && hooks_of(dir, es)[es[j].0] == real_hook(dir, es[j]) by {
        assert(real_entry(es, j, es[j].0));
        assert(m1.contains_key(es[j].0));
    }
}

/// The hooks are in strictly increasing name order.
pub open spec fn sorted_by_name(v: Seq<HookView>) -> bool {
    forall|i: int, j: int| 0 <= i < j < v.len() ==> text_lt(#[trigger] v[i].name, #[trigger] v[j].name)
}

/// `v` lists exactly the hooks of `m`, each once, in increasing name order.
pub open spec fn lists_hooks(v: Seq<HookView>, m: Map<Seq<char>, HookView>) -> bool {
    &&& sorted_by_name(v)
    &&& forall|i: int| 0 <= i < v.len() ==> #[trigger] m.contains_key(v[i].name) && m[v[i].name] == v[i]
    &&& forall|k: Seq<char>| #[trigger] m.contains_key(k) ==> exists|i: int| 0 <= i < v.len() && v[i].name == k
}

/// The first position whose hook does not sort before `name`.
fn position(v: &Vec<Hook>, name: &Vec<char>) -> (r: usize)
    requires
        sorted_by_name(seq_views(v@)),
    ensures
        r <= v.len(),
        forall|j: int| 0 <= j < r ==> text_lt(#[trigger] seq_views(v@)[j].name, name@),
        forall|j: int| r <= j < v.len() ==> !text_lt(#[trigger] seq_views(v@)[j].name, name@),
{
    let ghost vv = seq_views(v@);
    let mut i: usize = 0;
    while i < v.len()
        invariant
            i <= v.len(),
            vv == seq_views(v@),
            sorted_by_name(vv),
            forall|j: int| 0 <= j < i ==> text_lt(#[trigger] vv[j].name, name@),
        decreases v.len() - i,
    {
        assert(vv[i as int] == v@[i as int]@);
        if !text_less(&chars_of(v[i].name.as_str()), name) {
            proof {
                assert forall|j: int| i <= j < v.len() implies !text_lt(#[trigger] vv[j].name, name@) by {
                    if j > i && text_lt(vv[j].name, name@) {
                        assert(text_lt(vv[i as int].name, vv[j].name));
                        lemma_text_lt_transitive(vv[i as int].name, vv[j].name, name@);
                    }
                }
            }
            return i;
        }
        i += 1;
    }
    i
}

/// Where `name` stands in a sorted list: found at `r`, or to be inserted at
/// `r` with everything before smaller and everything after larger.
proof fn lemma_split_at(v: Seq<HookView>, name: Seq<char>, r: int)
    requires
        sorted_by_name(v),
        0 <= r <= v.len(),
        forall|j: int| 0 <= j < r ==> text_lt(#[trigger] v[j].name, name),
        forall|j: int| r <= j < v.len() ==> !text_lt(#[trigger] v[j].name, name),
        r == v.len() || v[r].name != name,
    ensures
        forall|j: int| r <= j < v.len() ==> text_lt(name, #[trigger] v[j].name),
        forall|j: int| 0 <= j < v.len() ==> #[trigger] v[j].name != name,
{
    assert forall|j: int| r <= j < v.len() implies text_lt(name, #[trigger] v[j].name) by {
        assert(!text_lt(v[r].name, name));
        lemma_text_lt_total(v[r].name, name);
        if j > r {
            assert(text_lt(v[r].name, v[j].name));
            lemma_text_lt_transitive(name, v[r].name, v[j].name);
        }
    }
    assert forall|j: int| 0 <= j < v.len() implies #[trigger] v[j].name != name by {
        if j < r {
            lemma_text_lt_irreflexive(name);
        } else {
            lemma_text_lt_irreflexive(name);
        }
    }
}

/// Inserting a hook of a new name at its place keeps the list exact.
proof fn lemma_insert_new(v: Seq<HookView>, m: Map<Seq<char>, HookView>, h: HookView, r: int)
    requires
        lists_hooks(v, m),
        0 <= r <= v.len(),
        forall|j: int| 0 <= j < r ==> text_lt(#[trigger] v[j].name, h.name),
        forall|j: int| r <= j < v.len() ==> text_lt(h.name, #[trigger] v[j].name),
    ensures
        !m.contains_key(h.name),
        lists_hooks(v.insert(r, h), m.insert(h.name, h)),
{
    let w = v.insert(r, h);
    let m2 = m.insert(h.name, h);
    lemma_text_lt_irreflexive(h.name);
    if m.contains_key(h.name) {
        let i = choose|i: int| 0 <= i < v.len() && v[i].name == h.name;
        assert(v[i].name == h.name);
    }
    assert forall|i: int, j: int| 0 <= i < j < w.len() implies text_lt(
        #[trigger] w[i].name,
        #[trigger] w[j].name,
    ) by {
        if i < r && j < r {
            assert(w[i] == v[i] && w[j] == v[j]);
        } else if i < r && j == r {
            assert(w[i] == v[i]);
        } else if i < r && j > r {
            assert(w[i] == v[i] && w[j] == v[j - 1]);
            lemma_text_lt_transitive(v[i].name, h.name, v[j - 1].name);
        } else if i == r {
            assert(w[j] == v[j - 1]);
        } else {
            assert(w[i] == v[i - 1] && w[j] == v[j - 1]);
        }
    }
    assert forall|i: int| 0 <= i < w.len() implies #[trigger] m2.contains_key(w[i].name) && m2[w[i].name]
        == w[i] by {
        if i < r {
            assert(w[i] == v[i]);
            assert(v[i].name != h.name);
        } else if i > r {
            assert(w[i] == v[i - 1]);
            assert(v[i - 1].name != h.name);
        }
    }
    assert forall|k: Seq<char>| #[trigger] m2.contains_key(k) implies exists|i: int|
        0 <= i < w.len() && w[i].name == k by {
        if k == h.name {
            assert(w[r].name == k);
        } else {
            assert(m.contains_key(k));
            let i = choose|i: int| 0 <= i < v.len() && v[i].name == k;
            if i < r {
                assert(w[i] == v[i]);
            } else {
                assert(w[i + 1] == v[i]);
            }
        }
    }
}

/// Replacing the hook of a name already listed keeps the list exact.
proof fn lemma_replace(v: Seq<HookView>, m: Map<Seq<char>, HookView>, h: HookView, r: int)
    requires
        lists_hooks(v, m),
        0 <= r < v.len(),
        v[r].name == h.name,
    ensures
        lists_hooks(v.update(r, h), m.insert(h.name, h)),
{
    let w = v.update(r, h);
    let m2 = m.insert(h.name, h);
    assert forall|i: int, j: int| 0 <= i < j < w.len() implies text_lt(
        #[trigger] w[i].name,
        #[trigger] w[j].name,
    ) by {
        assert(text_lt(v[i].name, v[j].name));
    }
    assert forall|i: int| 0 <= i < w.len() implies #[trigger] m2.contains_key(w[i].name) && m2[w[i].name]
        == w[i] by {
        if i != r {
            if v[i].name == h.name {
                if i < r {
                    assert(text_lt(v[i].name, v[r].name));
                } else {
                    assert(text_lt(v[r].name, v[i].name));
                }
                lemma_text_lt_irreflexive(h.name);
            }
        }
    }
    assert forall|k: Seq<char>| #[trigger] m2.contains_key(k) implies exists|i: int|
        0 <= i < w.len() && w[i].name == k by {
        if k == h.name {
            assert(w[r].name == k);
        } else {
            let i = choose|i: int| 0 <= i < v.len() && v[i].name == k;
            assert(w[i].name == k);
        }
    }
}

/// Records `h` in place of any hook of its name.
fn put_hook(v: &mut Vec<Hook>, h: Hook, Ghost(m): Ghost<Map<Seq<char>, HookView>>)
    requires
        lists_hooks(seq_views(old(v)@), m),
    ensures
        lists_hooks(seq_views(final(v)@), m.insert(h@.name, h@)),
{
    let ghost vv = seq_views(v@);
    let ghost hv = h@;
    let name = chars_of(h.name.as_str());
    let r = position(v, &name);
    if r < v.len() && v[r].name == h.name {
        assert(vv[r as int] == v@[r as int]@);
        proof {
            lemma_replace(vv, m, hv, r as int);
        }
        v.set(r, h);
        assert(seq_views(v@) =~= vv.update(r as int, hv));
    } else {
        if r < v.len() {
            assert(vv[r as int] == v@[r as int]@);
        }
        proof {
            lemma_split_at(vv, hv.name, r as int);
            lemma_insert_new(vv, m, hv, r as int);
        }
        v.insert(r, h);
        assert(seq_views(v@) =~= vv.insert(r as int, hv));
    }
}

/// Records `h` unless a hook of its name is already listed.
fn add_hook_if_absent(v: &mut Vec<Hook>, h: Hook, Ghost(m): Ghost<Map<Seq<char>, HookView>>)
    requires
        lists_hooks(seq_views(old(v)@), m),
    ensures
        lists_hooks(
            seq_views(final(v)@),
            if m.contains_key(h@.name) {
                m
            } else {
                m.insert(h@.name, h@)
            },
        ),
{
    let ghost vv = seq_views(v@);
    let ghost hv = h@;
    let name = chars_of(h.name.as_str());
    let r = position(v, &name);
    if r < v.len() && v[r].name == h.name {
        assert(vv[r as int] == v@[r as int]@);
        assert(m.contains_key(vv[r as int].name));
    } else {
        if r < v.len() {
            assert(vv[r as int] == v@[r as int]@);
        }
        proof {
            lemma_split_at(vv, hv.name, r as int);
            lemma_insert_new(vv, m, hv, r as int);
        }
        v.insert(r, h);
        assert(seq_views(v@) =~= vv.insert(r as int, hv));
    }
}

/// Turn a directory listing into one [`Hook`] per hook name.
///
/// Real (non-sample) files are recorded first; a sample only contributes when
/// no real file of that name is present. Output is sorted by name, with no
/// name twice.
pub fn classify_hooks(dir: &str, entries: Vec<(String, bool)>) -> (r: Vec<Hook>)
    ensures
        lists_hooks(seq_views(r@), hooks_of(dir@, listing_view(entries@))),
{
    let ghost es = listing_view(entries@);
    let mut out: Vec<Hook> = Vec::new();
    let ghost mut m: Map<Seq<char>, HookView> = Map::empty();
    assert(seq_views(out@) =~= Seq::<HookView>::empty());
    proof {
        reveal_strlit(".sample");
    }
    let mut i: usize = 0;
    while i < entries.len()
        invariant
            i <= entries.len(),
            es == listing_view(entries@),
            real_hooks_from(dir@, es, 0, Map::empty()) == real_hooks_from(dir@, es, i as int, m),
            lists_hooks(seq_views(out@), m),
        decreases entries.len() - i,
    {
        let file = &entries[i].0;
        let exec = entries[i].1;
        assert(es[i as int] == (file@, exec));
        let fc = chars_of(file.as_str());
        if !crate::text::ends_with(&fc, SAMPLE_SUFFIX) {
            let h = Hook { name: file.clone(), path: join_path(dir, file.as_str()), enabled: exec };
            let ghost hv = h@;
            put_hook(&mut out, h, Ghost(m));
            proof {
                m = m.insert(hv.name, hv);
            }
        }
        i += 1;
    }
    let ghost after_real = m;
    let mut i: usize = 0;
    while i < entries.len()
        invariant
            i <= entries.len(),
            es == listing_view(entries@),
            sample_hooks_from(dir@, es, 0, after_real) == sample_hooks_from(dir@, es, i as int, m),
            lists_hooks(seq_views(out@), m),
        decreases entries.len() - i,
    {
        let file = &entries[i].0;
        assert(es[i as int].0 == file@);
        let fc = chars_of(file.as_str());
        if let Some(stem) = strip_suffix(&fc, SAMPLE_SUFFIX) {
            let name = crate::text::text_of(&stem);
            let h = Hook { name, path: join_path(dir, file.as_str()), enabled: false };
            let ghost hv = h@;
            add_hook_if_absent(&mut out, h, Ghost(m));
            proof {
                if !m.contains_key(hv.name) {
                    m = m.insert(hv.name, hv);
                }
            }
        }
        i += 1;
    }
    out
}

} // verus!
