//! Typed listing of remotes.
//!
//! Reached through [`Repository::remotes`], which returns a [`RemoteOps`]
//! handle. Listing parses `git remote -v` ([`parse_remotes`]), whose output
//! pairs a fetch and a push line per remote. The parser groups the two lines
//! by remote name, so a [`Remote`] always carries both URLs.
use vstd::prelude::*;

use crate::error::{is_parse_error, line_parse_error, Error, Result};
use crate::command::{push_lit, push_text, start_args, IntoText};
use crate::repo::Repository;
use crate::text::{
    chars_of, debug_quoted, debug_text, is_lit, lines, lines_of, rsplit_once, rsplit_once_spec,
    seq_views, split_once, split_once_spec, text_of,
};

verus! {

/// One configured remote with its fetch and push URLs.
#[derive(Debug, Clone, PartialEq, Eq)]
pub struct Remote {
    /// Remote name (e.g. `"origin"`).
    pub name: String,
    /// URL used for fetching.
    pub fetch_url: String,
    /// URL used for pushing. Equals [`fetch_url`](Remote::fetch_url) unless a
    /// separate push URL is configured.
    pub push_url: String,
}

/// The abstract contents of a [`Remote`].
pub struct RemoteView {
    pub name: Seq<char>,
    pub fetch_url: Seq<char>,
    pub push_url: Seq<char>,
}

impl View for Remote {
    type V = RemoteView;

    open spec fn view(&self) -> RemoteView {
        RemoteView { name: self.name@, fetch_url: self.fetch_url@, push_url: self.push_url@ }
    }
}

impl Default for Remote {
    fn default() -> (r: Self)
        ensures
            r.name@.len() == 0,
            r.fetch_url@.len() == 0,
            r.push_url@.len() == 0,
    {
        Remote { name: String::new(), fetch_url: String::new(), push_url: String::new() }
    }
}

/// Operations on remotes, scoped to a [`Repository`].
///
/// Obtained via [`Repository::remotes`]. The handle borrows the repository
/// for the duration of one chained call — there is no shared state.
#[derive(Debug)]
pub struct RemoteOps<'a> {
    repo: &'a Repository,
}

impl<'a> View for RemoteOps<'a> {
    type V = Seq<char>;

    /// The working-tree path of the repository the operations act on.
    closed spec fn view(&self) -> Seq<char> {
        self.repo@
    }
}

impl<'a> RemoteOps<'a> {
    /// The repository the operations act on.
    pub fn repo(&self) -> (r: &'a Repository)
        ensures
            r@ == self@,
    {
        self.repo
    }

    /// The arguments after `git` that list the remotes: `remote -v`, whose
    /// output goes to [`parse_remotes`].
    pub fn list_args(&self) -> (r: Vec<String>)
        ensures
            seq_views(r@) == seq!["remote"@, "-v"@],
    {
        let mut args = start_args("remote");
        push_lit(&mut args, "-v");
        args
    }

    /// The arguments after `git` that add a remote `name` pointing at
    /// `url`: `remote add <name> <url>`. Git fails when the name is taken.
    pub fn add_args(&self, name: impl IntoText, url: impl IntoText) -> (r: Vec<String>)
        ensures
            seq_views(r@) == seq!["remote"@, "add"@, name.text(), url.text()],
    {
        let mut args = start_args("remote");
        push_lit(&mut args, "add");
        let n = name.into_text();
        push_text(&mut args, &n);
        let u = url.into_text();
        push_text(&mut args, &u);
        args
    }

    /// The arguments after `git` that remove the remote `name`:
    /// `remote remove <name>`. Git fails when no such remote exists.
    pub fn remove_args(&self, name: impl IntoText) -> (r: Vec<String>)
        ensures
            seq_views(r@) == seq!["remote"@, "remove"@, name.text()],
    {
        let mut args = start_args("remote");
        push_lit(&mut args, "remove");
        let n = name.into_text();
        push_text(&mut args, &n);
        args
    }

    /// The arguments after `git` that rename the remote `from` to `to`:
    /// `remote rename <from> <to>`.
    pub fn rename_args(&self, from: impl IntoText, to: impl IntoText) -> (r: Vec<String>)
        ensures
            seq_views(r@) == seq!["remote"@, "rename"@, from.text(), to.text()],
    {
        let mut args = start_args("remote");
        push_lit(&mut args, "rename");
        let f = from.into_text();
        push_text(&mut args, &f);
        let t = to.into_text();
        push_text(&mut args, &t);
        args
    }

    /// The arguments after `git` that change the URL of the remote `name`:
    /// `remote set-url <name> <url>`.
    pub fn set_url_args(&self, name: impl IntoText, url: impl IntoText) -> (r: Vec<String>)
        ensures
            seq_views(r@) == seq!["remote"@, "set-url"@, name.text(), url.text()],
    {
        let mut args = start_args("remote");
        push_lit(&mut args, "set-url");
        let n = name.into_text();
        push_text(&mut args, &n);
        let u = url.into_text();
        push_text(&mut args, &u);
        args
    }

    /// The fetch URL of the remote `name` among the listed `remotes`, which
    /// matches the default of `git remote get-url`.
    ///
    /// # Errors
    /// [`Error::ParseError`] when no remote named `name` is listed.
    pub fn url_in(remotes: &Vec<Remote>, name: &str) -> (r: Result<String>)
        ensures
            match remote_index_from(seq_views(remotes@), name@, 0) {
                Some(k) => r matches Ok(u) && u@ == remotes@[k].fetch_url@,
                None => r matches Err(e) && is_parse_error(e, "no remote named "@ + debug_quoted(name@)),
            },
    {
        let n = name.to_owned();
        match find_remote(remotes, &n) {
            Some(k) => {
                proof {
                    lemma_remote_index(seq_views(remotes@), name@, 0);
                }
                assert(seq_views(remotes@)[k as int] == remotes@[k as int]@);
                Ok(remotes[k].fetch_url.clone())
            },
            None => {
                let d = debug_text(name);
                Err(Error::parse_error("no remote named ".to_owned().concat(d.as_str())))
            },
        }
    }
}

impl Repository {
    /// Operations on remotes.
    pub fn remotes(&self) -> (r: RemoteOps<'_>)
        ensures
            r@ == self@,
    {
        RemoteOps { repo: self }
    }
}

/// The position of the first remote named `name` among `rs` from `j` on.
pub open spec fn remote_index_from(rs: Seq<RemoteView>, name: Seq<char>, j: int) -> Option<int>
    decreases rs.len() - j,
{
    if j < 0 || j >= rs.len() {
        None
    } else if rs[j].name == name {
        Some(j)
    } else {
        remote_index_from(rs, name, j + 1)
    }
}

proof fn lemma_remote_index(rs: Seq<RemoteView>, name: Seq<char>, j: int)
    requires
        0 <= j,
    ensures
        remote_index_from(rs, name, j) matches Some(k) ==> j <= k < rs.len() && rs[k].name == name,
    decreases rs.len() - j,
{
    if j < rs.len() && rs[j].name != name {
        lemma_remote_index(rs, name, j + 1);
    }
}

/// The remotes after the lines `ls` from line `i` on, after those in `acc`;
/// or the message for the first malformed line. A line names a remote, a
/// URL and a direction; the first line of a name adds a remote (with empty
/// URLs) and each line sets the URL of its direction.
pub open spec fn remotes_from(ls: Seq<Seq<char>>, i: int, acc: Seq<RemoteView>) -> core::result::Result<
    Seq<RemoteView>,
    Seq<char>,
>
    decreases ls.len() - i,
{
    if i < 0 || i >= ls.len() {
        Ok(acc)
    } else if ls[i].len() == 0 {
        remotes_from(ls, i + 1, acc)
    } else {
        let line = ls[i];
        match split_once_spec(line, "\t"@) {
            None => Err("remote line has no tab: "@ + debug_quoted(line)),
            Some((name, rest)) => match rsplit_once_spec(rest, " "@) {
                None => Err("remote line has no direction: "@ + debug_quoted(line)),
                Some((url, kind)) => {
                    let idx = match remote_index_from(acc, name, 0) {
                        Some(j) => j,
                        None => acc.len() as int,
                    };
                    let acc2 = if idx == acc.len() {
                        acc.push(RemoteView { name, fetch_url: Seq::empty(), push_url: Seq::empty() })
                    } else {
                        acc
                    };
                    if kind == "(fetch)"@ {
                        remotes_from(ls, i + 1, acc2.update(idx, RemoteView { fetch_url: url, ..acc2[idx] }))
                    } else if kind == "(push)"@ {
                        remotes_from(ls, i + 1, acc2.update(idx, RemoteView { push_url: url, ..acc2[idx] }))
                    } else {
                        Err(
                            "unexpected remote direction "@ + debug_quoted(kind) + ": "@
                                + debug_quoted(line),
                        )
                    }
                },
            },
        }
    }
}

/// No two of the remotes `rs` share a name.
pub open spec fn names_distinct(rs: Seq<RemoteView>) -> bool {
    forall|a: int, b: int| 0 <= a < b < rs.len() ==> rs[a].name != rs[b].name
}

proof fn lemma_remote_index_none(rs: Seq<RemoteView>, name: Seq<char>, j: int)
    requires
        0 <= j,
        remote_index_from(rs, name, j) is None,
    ensures
        forall|k: int| j <= k < rs.len() ==> rs[k].name != name,
    decreases rs.len() - j,
{
    if j < rs.len() {
        lemma_remote_index_none(rs, name, j + 1);
    }
}

proof fn lemma_remotes_from_distinct(ls: Seq<Seq<char>>, i: int, acc: Seq<RemoteView>)
    requires
        names_distinct(acc),
    ensures
        remotes_from(ls, i, acc) matches Ok(v) ==> names_distinct(v),
    decreases ls.len() - i,
{
    if i < 0 || i >= ls.len() {
    } else if ls[i].len() == 0 {
        lemma_remotes_from_distinct(ls, i + 1, acc);
    } else {
        let line = ls[i];
        match split_once_spec(line, "\t"@) {
            None => {},
            Some((name, rest)) => match rsplit_once_spec(rest, " "@) {
                None => {},
                Some((url, kind)) => {
                    lemma_remote_index(acc, name, 0);
                    let idx = match remote_index_from(acc, name, 0) {
                        Some(j) => j,
                        None => acc.len() as int,
                    };
                    let acc2 = if idx == acc.len() {
                        acc.push(RemoteView { name, fetch_url: Seq::empty(), push_url: Seq::empty() })
                    } else {
                        acc
                    };
                    if idx == acc.len() {
                        lemma_remote_index_none(acc, name, 0);
                    }
                    assert(names_distinct(acc2));
                    let f = acc2.update(idx, RemoteView { fetch_url: url, ..acc2[idx] });
                    let p = acc2.update(idx, RemoteView { push_url: url, ..acc2[idx] });
                    assert(names_distinct(f));
                    assert(names_distinct(p));
                    lemma_remotes_from_distinct(ls, i + 1, f);
                    lemma_remotes_from_distinct(ls, i + 1, p);
                },
            },
        }
    }
}

/// Each remote is listed once: the records that `git remote -v` output
/// parses to have pairwise distinct names, its fetch and push lines having
/// been grouped onto one record.
pub proof fn lemma_remotes_distinct(s: Seq<char>)
    ensures
        remotes_spec(s) matches Ok(v) ==> names_distinct(v),
{
    lemma_remotes_from_distinct(lines_of(s), 0, Seq::empty());
}

/// The name, URL and direction a `<name>\t<url> <direction>` line holds,
/// if it has a tab and a space after it.
pub open spec fn remote_line(line: Seq<char>) -> Option<(Seq<char>, Seq<char>, Seq<char>)> {
    match split_once_spec(line, "\t"@) {
        None => None,
        Some((name, rest)) => match rsplit_once_spec(rest, " "@) {
            None => None,
            Some((url, kind)) => Some((name, url, kind)),
        },
    }
}

/// A non-empty line that is not `<name>\t<url> (fetch)` or
/// `<name>\t<url> (push)`.
pub open spec fn bad_remote_line(line: Seq<char>) -> bool {
    line.len() > 0 && match remote_line(line) {
        None => true,
        Some((_, _, kind)) => kind != "(fetch)"@ && kind != "(push)"@,
    }
}

/// The remote names of the lines `ls`, each once, in first-seen order.
pub open spec fn first_seen_names(ls: Seq<Seq<char>>) -> Seq<Seq<char>>
    decreases ls.len(),
{
    if ls.len() == 0 {
        Seq::empty()
    } else {
        let p = first_seen_names(ls.drop_last());
        if ls.last().len() == 0 {
            p
        } else {
            match remote_line(ls.last()) {
                Some((name, _, _)) => if p.contains(name) {
                    p
                } else {
                    p.push(name)
                },
                None => p,
            }
        }
    }
}

/// The URL of the last of the lines `ls` that gives `name` a URL for
/// `kind`; empty when none does.
pub open spec fn last_url(ls: Seq<Seq<char>>, name: Seq<char>, kind: Seq<char>) -> Seq<char>
    decreases ls.len(),
{
    if ls.len() == 0 {
        Seq::empty()
    } else {
        match remote_line(ls.last()) {
            Some((n, u, k)) => if ls.last().len() > 0 && n == name && k == kind {
                u
            } else {
                last_url(ls.drop_last(), name, kind)
            },
            None => last_url(ls.drop_last(), name, kind),
        }
    }
}

/// The remotes the well-formed lines `ls` describe: one per name, in
/// first-seen order, each with the last URL given for each direction.
pub open spec fn remotes_model(ls: Seq<Seq<char>>) -> Seq<RemoteView> {
    first_seen_names(ls).map_values(
        |n: Seq<char>|
            RemoteView {
                name: n,
                fetch_url: last_url(ls, n, "(fetch)"@),
                push_url: last_url(ls, n, "(push)"@),
            },
    )
}

proof fn lemma_first_seen_distinct(ls: Seq<Seq<char>>)
    ensures
        forall|a: int, b: int|
            0 <= a < b < first_seen_names(ls).len() ==> first_seen_names(ls)[a]
                != first_seen_names(ls)[b],
    decreases ls.len(),
{
    if ls.len() > 0 {
        lemma_first_seen_distinct(ls.drop_last());
        let p = first_seen_names(ls.drop_last());
        let q = first_seen_names(ls);
        assert forall|a: int, b: int| 0 <= a < b < q.len() implies q[a] != q[b] by {
            if b >= p.len() {
                assert(q[a] == p[a]);
                if p[a] == q[b] {
                    assert(p.contains(q[b]));
                }
            } else {
                assert(q[a] == p[a] && q[b] == p[b]);
            }
        }
    }
}

proof fn lemma_last_url_unseen(ls: Seq<Seq<char>>, name: Seq<char>, kind: Seq<char>)
    requires
        !first_seen_names(ls).contains(name),
    ensures
        last_url(ls, name, kind) == Seq::<char>::empty(),
    decreases ls.len(),
{
    if ls.len() > 0 {
        let p = first_seen_names(ls.drop_last());
        assert(!p.contains(name)) by {
            if p.contains(name) {
                let k = choose|k: int| 0 <= k < p.len() && p[k] == name;
                assert(first_seen_names(ls)[k] == p[k]);
            }
        }
        lemma_last_url_unseen(ls.drop_last(), name, kind);
        let q = first_seen_names(ls);
        if ls.last().len() > 0 {
            if let Some((n, u, k)) = remote_line(ls.last()) {
                if n == name {
                    if p.contains(name) {
                        assert(false);
                    } else {
                        assert(q == p.push(name));
                        assert(q[p.len() as int] == name);
                        assert(q.contains(name));
                    }
                }
            }
        }
    }
}

proof fn lemma_remotes_step(ls: Seq<Seq<char>>, i: int)
    requires
        0 <= i < ls.len(),
        !bad_remote_line(ls[i]),
        remotes_from(ls, 0, Seq::empty()) == remotes_from(ls, i, remotes_model(ls.take(i))),
    ensures
        remotes_from(ls, 0, Seq::empty()) == remotes_from(ls, i + 1, remotes_model(ls.take(i + 1))),
{
    reveal_strlit("(fetch)");
    reveal_strlit("(push)");
    let pre = ls.take(i);
    let post = ls.take(i + 1);
    assert(post.drop_last() =~= pre);
    assert(post.last() == ls[i]);
    let acc = remotes_model(pre);
    let fs = first_seen_names(pre);
    lemma_first_seen_distinct(pre);
    if ls[i].len() == 0 {
        assert(first_seen_names(post) == fs);
        assert forall|n: Seq<char>, k: Seq<char>| last_url(post, n, k) == last_url(pre, n, k) by {}
        assert(remotes_model(post) =~= acc);
    } else {
        let (name, url, kind) = remote_line(ls[i])->0;
        lemma_remote_index(acc, name, 0);
        let idx = match remote_index_from(acc, name, 0) {
            Some(j) => j,
            None => acc.len() as int,
        };
        let acc2 = if idx == acc.len() {
            acc.push(RemoteView { name, fetch_url: Seq::empty(), push_url: Seq::empty() })
        } else {
            acc
        };
        let fs2 = first_seen_names(post);
        if idx == acc.len() {
            lemma_remote_index_none(acc, name, 0);
            assert(!fs.contains(name)) by {
                if fs.contains(name) {
                    let k = choose|k: int| 0 <= k < fs.len() && fs[k] == name;
                    assert(acc[k].name == fs[k]);
                }
            }
            assert(fs2 == fs.push(name));
        } else {
            assert(fs.contains(name)) by {
                assert(acc[idx].name == fs[idx]);
            }
            assert(fs2 == fs);
        }
        let upd = if kind == "(fetch)"@ {
            acc2.update(idx, RemoteView { fetch_url: url, ..acc2[idx] })
        } else {
            acc2.update(idx, RemoteView { push_url: url, ..acc2[idx] })
        };
        assert(remotes_from(ls, i, acc) == remotes_from(ls, i + 1, upd));
        assert(upd.len() == fs2.len());
        assert forall|k: int| 0 <= k < upd.len() implies upd[k] == remotes_model(post)[k] by {
            let n = fs2[k];
            assert(remotes_model(post)[k] == RemoteView {
                name: n,
                fetch_url: last_url(post, n, "(fetch)"@),
                push_url: last_url(post, n, "(push)"@),
            });
            if k == idx {
                assert(n == name);
                assert(remote_line(post.last()) == Some((name, url, kind)));
                assert(last_url(post, name, kind) == url);
                assert("(fetch)"@ != "(push)"@) by {
                    assert("(fetch)"@[1] != "(push)"@[1]);
                }
                if kind == "(fetch)"@ {
                    assert(last_url(post, name, "(push)"@) == last_url(pre, name, "(push)"@));
                } else {
                    assert(kind == "(push)"@);
                    assert(last_url(post, name, "(fetch)"@) == last_url(pre, name, "(fetch)"@));
                }
                if idx == acc.len() {
                    lemma_last_url_unseen(pre, name, "(fetch)"@);
                    lemma_last_url_unseen(pre, name, "(push)"@);
                } else {
                    assert(acc[k] == remotes_model(pre)[k]);
                }
            } else {
                assert(remote_line(post.last()) == Some((name, url, kind)));
                assert(n != name) by {
                    if idx < acc.len() {
                        assert(fs[idx] == name);
                        assert(fs[k] == n);
                    }
                }
                if k < acc.len() {
                    assert(acc2[k] == acc[k]);
                    assert(fs2[k] == fs[k]);
                    assert(acc[k] == remotes_model(pre)[k]);
                }
                assert(last_url(post, n, "(fetch)"@) == last_url(pre, n, "(fetch)"@));
                assert(last_url(post, n, "(push)"@) == last_url(pre, n, "(push)"@));
            }
        }
        assert(upd =~= remotes_model(post));
    }
}

proof fn lemma_remotes_from_model(ls: Seq<Seq<char>>, i: int)
    requires
        0 <= i <= ls.len(),
        remotes_from(ls, 0, Seq::empty()) == remotes_from(ls, i, remotes_model(ls.take(i))),
    ensures
        remotes_from(ls, 0, Seq::empty()) is Err <==> exists|k: int|
            i <= k < ls.len() && #[trigger] bad_remote_line(ls[k]),
        !(exists|k: int| i <= k < ls.len() && #[trigger] bad_remote_line(ls[k])) ==> remotes_from(
            ls,
            0,
            Seq::empty(),
        ) == Ok::<Seq<RemoteView>, Seq<char>>(remotes_model(ls)),
    decreases ls.len() - i,
{
    reveal_strlit("(fetch)");
    reveal_strlit("(push)");
    if i == ls.len() {
        assert(ls.take(i) =~= ls);
    } else if bad_remote_line(ls[i]) {
        assert(remotes_from(ls, i, remotes_model(ls.take(i))) is Err);
    } else {
        lemma_remotes_step(ls, i);
        lemma_remotes_from_model(ls, i + 1);
        if exists|k: int| i <= k < ls.len() && #[trigger] bad_remote_line(ls[k]) {
            let k = choose|k: int| i <= k < ls.len() && #[trigger] bad_remote_line(ls[k]);
            assert(k != i);
            assert(bad_remote_line(ls[k]));
        }
    }
}

/// `git remote -v` output fails to parse exactly when one of its non-empty
/// lines is not `<name>\t<url> (fetch)` or `<name>\t<url> (push)`;
/// otherwise it gives one remote per name, in first-seen order, each with
/// the URL of the last line for each direction (empty when there is none).
pub proof fn lemma_remotes_listing(s: Seq<char>)
    ensures
        remotes_spec(s) is Err <==> exists|k: int|
            0 <= k < lines_of(s).len() && #[trigger] bad_remote_line(lines_of(s)[k]),
        remotes_spec(s) is Ok ==> remotes_spec(s) == Ok::<Seq<RemoteView>, Seq<char>>(
            remotes_model(lines_of(s)),
        ),
{
    let ls = lines_of(s);
    assert(ls.take(0) =~= Seq::<Seq<char>>::empty());
    assert(remotes_model(ls.take(0)) =~= Seq::<RemoteView>::empty());
    lemma_remotes_from_model(ls, 0);
}

/// What `git remote -v` output `s` parses to.
pub open spec fn remotes_spec(s: Seq<char>) -> core::result::Result<Seq<RemoteView>, Seq<char>> {
    remotes_from(lines_of(s), 0, Seq::empty())
}

fn find_remote(rs: &Vec<Remote>, name: &String) -> (r: Option<usize>)
    ensures
        match r {
            Some(j) => remote_index_from(seq_views(rs@), name@, 0) == Some(j as int),
            None => remote_index_from(seq_views(rs@), name@, 0) is None,
        },
{
    let ghost rv = seq_views(rs@);
    let mut j: usize = 0;
    while j < rs.len()
        invariant
            j <= rs.len(),
            rv == seq_views(rs@),
            remote_index_from(rv, name@, 0) == remote_index_from(rv, name@, j as int),
        decreases rs.len() - j,
    {
        assert(rv[j as int] == rs@[j as int]@);
        if rs[j].name == *name {
            return Some(j);
        }
        j += 1;
    }
    None
}

/// Parse the output of `git remote -v` into one [`Remote`] per name.
///
/// Each remote contributes two lines, `<name>\t<url> (fetch)` and
/// `<name>\t<url> (push)`; they are grouped by name so both URLs land on the
/// same record. Records keep first-seen order.
pub fn parse_remotes(stdout: &str) -> (r: Result<Vec<Remote>>)
    ensures
        r matches Ok(v) ==> remotes_spec(stdout@) == Ok::<Seq<RemoteView>, Seq<char>>(
            seq_views(v@),
        ),
        r matches Err(e) ==> remotes_spec(stdout@) matches Err(m) && is_parse_error(e, m),
{
    let s = chars_of(stdout);
    let ls = lines(&s);
    let ghost lv = seq_views(ls@);
    let mut out: Vec<Remote> = Vec::new();
    let mut i: usize = 0;
    assert(seq_views(out@) =~= Seq::<RemoteView>::empty());
    while i < ls.len()
        invariant
            lv == seq_views(ls@),
            lv == lines_of(stdout@),
            remotes_spec(stdout@) == remotes_from(lv, i as int, seq_views(out@)),
        decreases ls.len() - i,
    {
        let line = &ls[i];
        assert(lv[i as int] == line@);
        if line.len() == 0 {
            i += 1;
            continue;
        }
        let (name, rest) = match split_once(line, "\t") {
            Some(p) => p,
            None => {
                return Err(line_parse_error("remote line has no tab: ", line));
            },
        };
        let (url, kind) = match rsplit_once(&rest, " ") {
            Some(p) => p,
            None => {
                return Err(line_parse_error("remote line has no direction: ", line));
            },
        };
        let name_text = text_of(&name);
        let ghost acc = seq_views(out@);
        let idx = match find_remote(&out, &name_text) {
            Some(j) => {
                proof {
                    lemma_remote_index(acc, name@, 0);
                }
                j
            },
            None => {
                let r = Remote { name: name_text, fetch_url: String::new(), push_url: String::new() };
                let ghost rv = r@;
                out.push(r);
                assert(seq_views(out@) =~= acc.push(rv));
                out.len() - 1
            },
        };
        let ghost acc2 = seq_views(out@);
        assert(acc2[idx as int] == out@[idx as int]@);
        if is_lit(&kind, "(fetch)") {
            let mut entry = out.remove(idx);
            entry.fetch_url = text_of(&url);
            let ghost ev = entry@;
            out.insert(idx, entry);
            assert(seq_views(out@) =~= acc2.update(idx as int, ev));
        } else if is_lit(&kind, "(push)") {
            let mut entry = out.remove(idx);
            entry.push_url = text_of(&url);
            let ghost ev = entry@;
            out.insert(idx, entry);
            assert(seq_views(out@) =~= acc2.update(idx as int, ev));
        } else {
            let k = text_of(&kind);
            let l = text_of(line);
            let m = "unexpected remote direction ".to_owned().concat(debug_text(k.as_str()).as_str())
                .concat(": ").concat(debug_text(l.as_str()).as_str());
            return Err(Error::parse_error(m));
        }
        i += 1;
    }
    Ok(out)
}

} // verus!
