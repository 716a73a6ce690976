//! Typed listing and bulk operations on tags.
//!
//! Reached through [`Repository::tags`], which returns a [`TagOps`] handle.
//! Listing runs `for-each-ref` with a fixed NUL-delimited format string
//! ([`TagOps::list_args`], [`FORMAT`]) and parses one [`Tag`] per line
//! ([`parse_tags`]); creating and deleting are [`TagCommand`]s scoped to the
//! repository.
use vstd::prelude::*;

use crate::command::tag::TagCommand;
use crate::command::{push_lit, push_text, start_args, GitCommand, IntoText};
use crate::error::{is_parse_error, Error, Result};
use crate::repo::{scoped_executor, Repository};
use crate::text::{
    chars_of, debug_quoted, debug_text, decimal, decimal_text, is_lit, lines, lines_of,
    seq_views, split_char, split_on, text_of, trim_end_by, trim_end_class, trim_start_by,
    trim_start_class, CharClass, join_with, lemma_join_avoids, lemma_single_line,
    lemma_split_join,
};

verus! {

/// One tag.
#[derive(Debug, Clone, PartialEq, Eq)]
pub struct Tag {
    /// Short tag name (e.g. `"v1.2.3"`).
    pub name: String,
    /// Whether the tag is a plain ref (lightweight) or carries its own object
    /// (annotated).
    pub kind: TagKind,
    /// Short SHA of the commit the tag ultimately points at.
    pub target: String,
    /// Subject line of the tag message — `None` for lightweight tags.
    pub message: Option<String>,
    /// Tagger metadata — `None` for lightweight tags.
    pub tagger: Option<Tagger>,
}

/// Lightweight vs. annotated tag.
#[derive(Debug, Clone, Copy, PartialEq, Eq, Structural)]
pub enum TagKind {
    /// Plain ref pointing at a commit.
    Lightweight,
    /// Tag object with its own metadata (message, tagger, date).
    Annotated,
}

/// Tagger identity attached to an annotated tag.
#[derive(Debug, Clone, PartialEq, Eq)]
pub struct Tagger {
    /// Tagger display name.
    pub name: String,
    /// Tagger email (with `<>` stripped).
    pub email: String,
    /// Tag date, RFC 3339 / ISO 8601 strict.
    pub date: String,
}

/// The abstract contents of a [`Tagger`].
pub struct TaggerView {
    pub name: Seq<char>,
    pub email: Seq<char>,
    pub date: Seq<char>,
}

impl View for Tagger {
    type V = TaggerView;

    open spec fn view(&self) -> TaggerView {
        TaggerView { name: self.name@, email: self.email@, date: self.date@ }
    }
}

/// The abstract contents of a [`Tag`].
pub struct TagView {
    pub name: Seq<char>,
    pub kind: TagKind,
    pub target: Seq<char>,
    pub message: Option<Seq<char>>,
    pub tagger: Option<TaggerView>,
}

impl View for Tag {
    type V = TagView;

    open spec fn view(&self) -> TagView {
        TagView {
            name: self.name@,
            kind: self.kind,
            target: self.target@,
            message: match self.message {
                Some(m) => Some(m@),
                None => None,
            },
            tagger: match self.tagger {
                Some(t) => Some(t@),
                None => None,
            },
        }
    }
}

/// Operations on tags, scoped to a [`Repository`].
#[derive(Debug)]
pub struct TagOps<'a> {
    repo: &'a Repository,
}

impl<'a> View for TagOps<'a> {
    type V = Seq<char>;

    /// The working-tree path of the repository the operations act on.
    closed spec fn view(&self) -> Seq<char> {
        self.repo@
    }
}

/// NUL-delimited per-record format. Field order matches [`parse_tags`].
///
/// Fields: name, objecttype, objectname:short, *objectname:short,
/// contents:subject, taggername, taggeremail, taggerdate.
pub const FORMAT: &'static str = "%(refname:short)%00%(objecttype)%00%(objectname:short)%00%(*objectname:short)%00%(contents:subject)%00%(taggername)%00%(taggeremail)%00%(taggerdate:iso-strict)";

/// The ref pattern a listing covers: the one given, or every tag.
pub open spec fn list_pattern(pattern: Option<Seq<char>>) -> Seq<char> {
    match pattern {
        Some(p) => p,
        None => "refs/tags/"@,
    }
}

impl<'a> TagOps<'a> {
    /// The repository the operations act on.
    pub fn repo(&self) -> (r: &'a Repository)
        ensures
            r@ == self@,
    {
        self.repo
    }

    /// The arguments after `git` that list the tags whose ref path matches
    /// `pattern` (e.g. `"refs/tags/v1.*"`), or every tag when there is none:
    /// `for-each-ref --format=<FORMAT> <pattern>`, run in the repository's
    /// working tree. Its output goes to [`parse_tags`].
    pub fn list_args(&self, pattern: Option<String>) -> (r: Vec<String>)
        ensures
            seq_views(r@) == seq![
                "for-each-ref"@,
                "--format="@ + FORMAT@,
                list_pattern(match pattern {
                    Some(p) => Some(p@),
                    None => None,
                }),
            ],
    {
        let mut args = start_args("for-each-ref");
        let f = "--format=".to_owned().concat(FORMAT);
        push_text(&mut args, &f);
        match pattern {
            Some(p) => push_text(&mut args, &p),
            None => push_lit(&mut args, "refs/tags/"),
        }
        args
    }

    /// Create a lightweight tag `name` pointing at `target` (a commit-ish):
    /// `git tag <name> <target>`.
    pub fn create_command(&self, name: impl IntoText, target: impl IntoText) -> (r: TagCommand)
        ensures
            r.executor@ == scoped_executor(self@),
            r.args_spec() == seq!["tag"@, name.text(), target.text()],
    {
        let mut cmd = self.repo.tag();
        cmd.name(name).commit(target);
        cmd
    }

    /// Create an annotated tag `name` pointing at `target` with `message`:
    /// `git tag -a -m <message> <name> <target>`.
    pub fn create_annotated_command(
        &self,
        name: impl IntoText,
        target: impl IntoText,
        message: impl IntoText,
    ) -> (r: TagCommand)
        ensures
            r.executor@ == scoped_executor(self@),
            r.args_spec() == seq![
                "tag"@,
                "-a"@,
                "-m"@,
                message.text(),
                name.text(),
                target.text(),
            ],
    {
        let mut cmd = self.repo.tag();
        cmd.name(name).commit(target).message(message);
        cmd
    }

    /// Delete the tag `name`: `git tag -d <name>`.
    pub fn delete_command(&self, name: impl IntoText) -> (r: TagCommand)
        ensures
            r.executor@ == scoped_executor(self@),
            r.args_spec() == seq!["tag"@, "-d"@, name.text()],
    {
        let mut cmd = self.repo.tag();
        cmd.name(name).delete();
        cmd
    }
}

impl Repository {
    /// Operations on tags.
    pub fn tags(&self) -> (r: TagOps<'_>)
        ensures
            r@ == self@,
    {
        TagOps { repo: self }
    }
}

/// The email of a `%(taggeremail)` field: leading `<` and trailing `>`
/// removed.
pub open spec fn bare_email(field: Seq<char>) -> Seq<char> {
    trim_end_class(trim_start_class(field, CharClass::Exactly('<')), CharClass::Exactly('>'))
}

/// The tag one record of at least eight fields describes.
pub open spec fn tag_of(fields: Seq<Seq<char>>) -> TagView {
    let annotated = fields[1] == "tag"@;
    let email = bare_email(fields[6]);
    TagView {
        name: fields[0],
        kind: if annotated {
            TagKind::Annotated
        } else {
            TagKind::Lightweight
        },
        target: if annotated {
            fields[3]
        } else {
            fields[2]
        },
        message: if annotated && fields[4].len() > 0 {
            Some(fields[4])
        } else {
            None
        },
        tagger: if annotated && !(fields[5].len() == 0 && email.len() == 0) {
            Some(TaggerView { name: fields[5], email, date: fields[7] })
        } else {
            None
        },
    }
}

/// The tags of the lines `ls` from line `i` on, after those in `acc`; or
/// the message for the first record with fewer than eight fields.
pub open spec fn tags_from(ls: Seq<Seq<char>>, i: int, acc: Seq<TagView>) -> core::result::Result<
    Seq<TagView>,
    Seq<char>,
>
    decreases ls.len() - i,
{
    if i < 0 || i >= ls.len() {
        Ok(acc)
    } else if ls[i].len() == 0 {
        tags_from(ls, i + 1, acc)
    } else {
        let fields = split_on(ls[i], '\0');
        if fields.len() < 8 {
            Err(
                "tag record has "@ + decimal(fields.len()) + " fields, expected 8: "@
                    + debug_quoted(ls[i]),
            )
        } else {
            tags_from(ls, i + 1, acc.push(tag_of(fields)))
        }
    }
}

/// Every lightweight tag among `ts` carries neither a message nor a tagger.
pub open spec fn lightweight_bare(ts: Seq<TagView>) -> bool {
    forall|k: int|
        0 <= k < ts.len() && ts[k].kind == TagKind::Lightweight ==> ts[k].message is None
            && ts[k].tagger is None
}

proof fn lemma_tags_from_bare(ls: Seq<Seq<char>>, i: int, acc: Seq<TagView>)
    requires
        lightweight_bare(acc),
    ensures
        tags_from(ls, i, acc) matches Ok(v) ==> lightweight_bare(v),
    decreases ls.len() - i,
{
    if i < 0 || i >= ls.len() {
    } else if ls[i].len() == 0 {
        lemma_tags_from_bare(ls, i + 1, acc);
    } else {
        let fields = split_on(ls[i], '\0');
        if fields.len() >= 8 {
            let next = acc.push(tag_of(fields));
            assert(lightweight_bare(next));
            lemma_tags_from_bare(ls, i + 1, next);
        }
    }
}

/// A lightweight tag is a plain ref: every one that the `for-each-ref`
/// output `s` lists has no message and no tagger.
pub proof fn lemma_lightweight_tags_bare(s: Seq<char>)
    ensures
        tags_spec(s) matches Ok(v) ==> lightweight_bare(v),
{
    lemma_tags_from_bare(lines_of(s), 0, Seq::empty());
}

/// A record in [`FORMAT`] order (name, object type, object, peeled object,
/// subject, tagger name, tagger email, tagger date), its fields free of NUL,
/// newline and carriage return and ended by a newline, lists one tag. With
/// the object type `tag` it is annotated: it targets the peeled object and
/// carries the subject as its message and the tagger's name, bare email and
/// date. With another object type it is lightweight and targets the object.
pub proof fn lemma_tag_record_fields(fields: Seq<Seq<char>>)
    requires
        fields.len() == 8,
        forall|i: int|
            0 <= i < fields.len() ==> !(#[trigger] fields[i]).contains('\0') && !fields[i].contains(
                '\n',
            ) && !fields[i].contains('\r'),
    ensures
        fields[1] == "tag"@ && fields[4].len() > 0 && fields[5].len() > 0 ==> tags_spec(
            join_with(fields, seq!['\0']) + seq!['\n'],
        ) == Ok::<Seq<TagView>, Seq<char>>(
            seq![
                TagView {
                    name: fields[0],
                    kind: TagKind::Annotated,
                    target: fields[3],
                    message: Some(fields[4]),
                    tagger: Some(
                        TaggerView { name: fields[5], email: bare_email(fields[6]), date: fields[7] },
                    ),
                },
            ],
        ),
        fields[1] != "tag"@ ==> tags_spec(join_with(fields, seq!['\0']) + seq!['\n']) == Ok::<
            Seq<TagView>,
            Seq<char>,
        >(
            seq![
                TagView {
                    name: fields[0],
                    kind: TagKind::Lightweight,
                    target: fields[2],
                    message: None,
                    tagger: None,
                },
            ],
        ),
{
    let r = join_with(fields, seq!['\0']);
    lemma_join_avoids(fields, '\0', '\n');
    lemma_join_avoids(fields, '\0', '\r');
    lemma_single_line(r);
    lemma_split_join(fields, '\0');
    assert(r == join_with(fields.drop_last(), seq!['\0']) + seq!['\0'] + fields.last());
    let ls = lines_of(r + seq!['\n']);
    let t = tag_of(fields);
    assert(Seq::<TagView>::empty().push(t) =~= seq![t]);
    assert(tags_from(ls, 1, seq![t]) == Ok::<Seq<TagView>, Seq<char>>(seq![t]));
    assert(tags_from(ls, 0, Seq::empty()) == tags_from(ls, 1, seq![t]));
}

/// What the `for-each-ref` output `s` lists.
pub open spec fn tags_spec(s: Seq<char>) -> core::result::Result<Seq<TagView>, Seq<char>> {
    tags_from(lines_of(s), 0, Seq::empty())
}

fn tag_from(fields: &Vec<Vec<char>>) -> (r: Tag)
    requires
        fields.len() >= 8,
    ensures
        r@ == tag_of(seq_views(fields@)),
{
    let ghost fv = seq_views(fields@);
    assert(forall|k: int| 0 <= k < fields.len() ==> fv[k] == #[trigger] fields@[k]@);
    let annotated = is_lit(&fields[1], "tag");
    let kind = if annotated {
        TagKind::Annotated
    } else {
        TagKind::Lightweight
    };
    let target = if annotated {
        text_of(&fields[3])
    } else {
        text_of(&fields[2])
    };
    let (message, tagger) = if annotated {
        let msg = if fields[4].len() == 0 {
            None
        } else {
            Some(text_of(&fields[4]))
        };
        let email = trim_end_by(&trim_start_by(&fields[6], CharClass::Exactly('<')), CharClass::Exactly('>'));
        let tagger = if fields[5].len() == 0 && email.len() == 0 {
            None
        } else {
            Some(Tagger { name: text_of(&fields[5]), email: text_of(&email), date: text_of(&fields[7]) })
        };
        (msg, tagger)
    } else {
        (None, None)
    };
    Tag { name: text_of(&fields[0]), kind, target, message, tagger }
}

/// Parse the `for-each-ref` output produced with [`FORMAT`]: one record per
/// line, fields separated by NUL.
///
/// A record with fewer than eight fields is a
/// [`Error::ParseError`]. An annotated tag (object type `tag`) takes its
/// target from the peeled object and carries its subject and tagger; a
/// lightweight one carries neither.
pub fn parse_tags(stdout: &str) -> (r: Result<Vec<Tag>>)
    ensures
        match tags_spec(stdout@) {
            Ok(ts) => r matches Ok(v) && seq_views(v@) == ts,
            Err(m) => r matches Err(e) && is_parse_error(e, m),
        },
{
    let s = chars_of(stdout);
    let ls = lines(&s);
    let ghost lv = seq_views(ls@);
    let mut out: Vec<Tag> = Vec::new();
    let mut i: usize = 0;
    assert(seq_views(out@) =~= Seq::<TagView>::empty());
    while i < ls.len()
        invariant
            lv == seq_views(ls@),
            lv == lines_of(stdout@),
            tags_spec(stdout@) == tags_from(lv, i as int, seq_views(out@)),
        decreases ls.len() - i,
    {
        let line = &ls[i];
        assert(lv[i as int] == line@);
        if line.len() == 0 {
            i += 1;
            continue;
        }
        let fields = split_char(line, '\0');
        assert(seq_views(fields@).len() == fields.len());
        if fields.len() < 8 {
            let n = decimal_text(fields.len() as u64);
            let l = text_of(line);
            let m = "tag record has ".to_owned().concat(n.as_str()).concat(
                " fields, expected 8: ",
            ).concat(debug_text(l.as_str()).as_str());
            return Err(Error::parse_error(m));
        }
        let t = tag_from(&fields);
        let ghost before = seq_views(out@);
        let ghost tv = t@;
        out.push(t);
        assert(seq_views(out@) =~= before.push(tv));
        i += 1;
    }
    Ok(out)
}

} // verus!
