//! Parser for `git --version`.
//!
//! The output is a single `git version <version>` line. The version itself is
//! dotted decimal, but only the first two components are reliably numeric:
//! distributions append their own trailing components (`2.45.1.windows.1`) or
//! a parenthesized build tag after a space (`2.39.5 (Apple Git-154)`). The
//! parser takes the leading numeric components as major/minor/patch, keeps any
//! trailing dotted components as [`GitVersion::suffix`], and preserves the
//! whole version text in [`GitVersion::raw`].
//!
//! `--build-options` output is accepted too: the `git version` line is found
//! among the lines and the build's `cpu:`/`sizeof-*` lines are ignored.
use vstd::prelude::*;

use crate::text::{
    chars_of, join, join_with, lemma_split_class_len, lines, lines_of, opt_view, parse_u32,
    parse_u32_spec, seq_views, split_char, split_on, strip_prefix, strip_prefix_spec, text_of,
    trim, trim_ws, words, words_of, CharClass, decimal, in_class, is_digit, is_ws,
    lemma_decimal_digits, lemma_parse_decimal, lemma_split_class_none, lemma_split_join,
    lemma_trim_class_ends, lemma_words_join,
};

verus! {

/// A parsed `git --version` line.
#[derive(Debug, Clone, PartialEq, Eq)]
pub struct GitVersion {
    /// The first component, e.g. `2` in `2.45.1`.
    pub major: u32,
    /// The second component, e.g. `45` in `2.45.1`.
    pub minor: u32,
    /// The third component when it is numeric, e.g. `1` in `2.45.1`.
    pub patch: Option<u32>,
    /// Trailing dotted components past the numeric ones, e.g. `windows.1` in
    /// `2.45.1.windows.1`.
    pub suffix: Option<String>,
    /// The version text as git printed it, including any build tag that
    /// followed a space: `2.39.5 (Apple Git-154)`.
    pub raw: String,
}

/// The abstract contents of a [`GitVersion`].
pub struct GitVersionView {
    pub major: u32,
    pub minor: u32,
    pub patch: Option<u32>,
    pub suffix: Option<Seq<char>>,
    pub raw: Seq<char>,
}

impl View for GitVersion {
    type V = GitVersionView;

    open spec fn view(&self) -> GitVersionView {
        GitVersionView {
            major: self.major,
            minor: self.minor,
            patch: self.patch,
            suffix: opt_view(self.suffix),
            raw: self.raw@,
        }
    }
}

/// `(a0, a1, a2)` is at least `(b0, b1, b2)` in lexicographic order.
pub open spec fn triple_at_least(a0: u32, a1: u32, a2: u32, b0: u32, b1: u32, b2: u32) -> bool {
    a0 > b0 || (a0 == b0 && (a1 > b1 || (a1 == b1 && a2 >= b2)))
}

/// The patch level that comparisons use: a missing patch counts as `0`.
pub open spec fn patch_level(v: GitVersionView) -> u32 {
    match v.patch {
        Some(p) => p,
        None => 0,
    }
}

impl GitVersion {
    /// Whether this version is at least `major.minor.patch`.
    ///
    /// A missing [`patch`](Self::patch) counts as `0`, and the
    /// [`suffix`](Self::suffix) is ignored: a distribution's trailing
    /// components say nothing about upstream feature availability.
    pub fn is_at_least(&self, major: u32, minor: u32, patch: u32) -> (r: bool)
        ensures
            r == triple_at_least(self.major, self.minor, patch_level(self@), major, minor, patch),
    {
        let p = match self.patch {
            Some(p) => p,
            None => 0,
        };
        self.major > major || (self.major == major && (self.minor > minor || (self.minor == minor
            && p >= patch)))
    }
}

/// Whether `v` is at least `a` and `a` is at least `b` implies that `v` is
/// at least `b`: the order `is_at_least` tests is transitive.
pub proof fn lemma_at_least_transitive(
    v: (u32, u32, u32),
    a: (u32, u32, u32),
    b: (u32, u32, u32),
)
    requires
        triple_at_least(v.0, v.1, v.2, a.0, a.1, a.2),
        triple_at_least(a.0, a.1, a.2, b.0, b.1, b.2),
    ensures
        triple_at_least(v.0, v.1, v.2, b.0, b.1, b.2),
{
}

/// A version is at least itself, and any two versions compare at least one
/// way round: the order `is_at_least` tests is total.
pub proof fn lemma_at_least_total(a: (u32, u32, u32), b: (u32, u32, u32))
    ensures
        triple_at_least(a.0, a.1, a.2, a.0, a.1, a.2),
        triple_at_least(a.0, a.1, a.2, b.0, b.1, b.2) || triple_at_least(
            b.0,
            b.1,
            b.2,
            a.0,
            a.1,
            a.2,
        ),
{
}

/// Versions compare by major version first, then minor, then patch: a
/// higher major version is always at least, a lower one never, whatever the
/// other components; with equal majors the minor versions decide, and with
/// equal majors and minors the patch levels.
pub proof fn lemma_at_least_major_first(a: (u32, u32, u32), b: (u32, u32, u32))
    ensures
        a.0 > b.0 ==> triple_at_least(a.0, a.1, a.2, b.0, b.1, b.2),
        a.0 < b.0 ==> !triple_at_least(a.0, a.1, a.2, b.0, b.1, b.2),
        a.0 == b.0 && a.1 > b.1 ==> triple_at_least(a.0, a.1, a.2, b.0, b.1, b.2),
        a.0 == b.0 && a.1 < b.1 ==> !triple_at_least(a.0, a.1, a.2, b.0, b.1, b.2),
        a.0 == b.0 && a.1 == b.1 ==> (triple_at_least(a.0, a.1, a.2, b.0, b.1, b.2) <==> a.2
            >= b.2),
{
}

/// The version text of the first line that reads `git version <text>`
/// (trimmed) among the lines `ls` from line `i` on.
pub open spec fn version_text_from(ls: Seq<Seq<char>>, i: int) -> Option<Seq<char>>
    decreases ls.len() - i,
{
    if i < 0 || i >= ls.len() {
        None
    } else {
        match strip_prefix_spec(trim_ws(ls[i]), "git version "@) {
            Some(v) => Some(v),
            None => version_text_from(ls, i + 1),
        }
    }
}

/// The version `git --version` output `s` reports: the first word of the
/// version text split on dots, the two leading components numeric, a
/// numeric third component as the patch, and what follows joined as the
/// suffix.
pub open spec fn version_spec(s: Seq<char>) -> Option<GitVersionView> {
    match version_text_from(lines_of(s), 0) {
        None => None,
        Some(v) => {
            let raw = trim_ws(v);
            let w = words_of(raw);
            if w.len() == 0 {
                None
            } else {
                let comps = split_on(w[0], '.');
                if comps.len() < 2 || parse_u32_spec(comps[0]) is None || parse_u32_spec(
                    comps[1],
                ) is None {
                    None
                } else {
                    let rest = comps.skip(2);
                    let patch = if rest.len() > 0 {
                        parse_u32_spec(rest[0])
                    } else {
                        None
                    };
                    let suffix_parts = if patch is Some {
                        rest.skip(1)
                    } else {
                        rest
                    };
                    Some(
                        GitVersionView {
                            major: parse_u32_spec(comps[0])->0,
                            minor: parse_u32_spec(comps[1])->0,
                            patch,
                            suffix: if suffix_parts.len() > 0 {
                                Some(join_with(suffix_parts, seq!['.']))
                            } else {
                                None
                            },
                            raw,
                        },
                    )
                }
            }
        },
    }
}

/// The version text of a `git version <v>` text is `v` when `v` is a
/// non-empty word without white space, and it is its own single word.
proof fn lemma_version_line(v: Seq<char>)
    requires
        v.len() > 0,
        forall|m: int| 0 <= m < v.len() ==> !is_ws(#[trigger] v[m]),
    ensures
        version_text_from(lines_of("git version "@ + v), 0) == Some(v),
        trim_ws(v) == v,
        words_of(v) == seq![v],
{
    reveal_strlit("git version ");
    let s = "git version "@ + v;
    assert(s[s.len() - 1] == v[v.len() - 1]);
    assert(!is_ws(v[v.len() - 1]) && !is_ws(v[0]));
    assert forall|m: int| 0 <= m < s.len() implies !in_class(
        #[trigger] s[m],
        CharClass::Exactly('\n'),
    ) by {
        if m >= 12 {
            assert(s[m] == v[m - 12]);
            assert(!is_ws(v[m - 12]));
        }
    }
    lemma_split_class_none(s, CharClass::Exactly('\n'));
    assert(lines_of(s) =~= seq![s]);
    lemma_trim_class_ends(s, CharClass::Whitespace);
    lemma_trim_class_ends(v, CharClass::Whitespace);
    assert(s.take(12) =~= "git version "@);
    assert(s.skip(12) =~= v);
    assert(join_with(seq![v], seq![' ']) == v);
    lemma_words_join(seq![v]);
}

/// `git version <a>.<b>.<c>` reports major version `a`, minor version `b`
/// and patch level `c`, with no suffix, and keeps `<a>.<b>.<c>` as the raw
/// version text.
pub proof fn lemma_version_components(a: u32, b: u32, c: u32)
    ensures
        version_spec(
            "git version "@ + decimal(a as nat) + seq!['.'] + decimal(b as nat) + seq!['.']
                + decimal(c as nat),
        ) == Some(
            GitVersionView {
                major: a,
                minor: b,
                patch: Some(c),
                suffix: None,
                raw: decimal(a as nat) + seq!['.'] + decimal(b as nat) + seq!['.'] + decimal(
                    c as nat,
                ),
            },
        ),
{
    let da = decimal(a as nat);
    let db = decimal(b as nat);
    let dc = decimal(c as nat);
    lemma_decimal_digits(a as nat);
    lemma_decimal_digits(b as nat);
    lemma_decimal_digits(c as nat);
    lemma_parse_decimal(a as nat, u32::MAX as nat);
    lemma_parse_decimal(b as nat, u32::MAX as nat);
    lemma_parse_decimal(c as nat, u32::MAX as nat);
    let p1 = seq![da];
    let p2 = seq![da, db];
    let p3 = seq![da, db, dc];
    assert(p3.drop_last() =~= p2);
    assert(p2.drop_last() =~= p1);
    assert(join_with(p1, seq!['.']) == da);
    assert(join_with(p2, seq!['.']) == da + seq!['.'] + db);
    let v = join_with(p3, seq!['.']);
    assert(v == da + seq!['.'] + db + seq!['.'] + dc);
    assert forall|i: int| 0 <= i < p3.len() implies !(#[trigger] p3[i]).contains('.') by {
        if p3[i].contains('.') {
            let m = choose|m: int| 0 <= m < p3[i].len() && p3[i][m] == '.';
            assert(is_digit(p3[i][m]));
        }
    }
    lemma_split_join(p3, '.');
    assert forall|m: int| 0 <= m < v.len() implies !is_ws(#[trigger] v[m]) by {
        if m < da.len() {
            assert(is_digit(da[m]));
        } else if da.len() < m < da.len() + 1 + db.len() {
            assert(is_digit(db[m - da.len() - 1]));
        } else if m > da.len() + 1 + db.len() {
            assert(is_digit(dc[m - da.len() - db.len() - 2]));
        }
    }
    lemma_version_line(v);
    let comps = split_on(v, '.');
    assert(comps == p3);
    assert(comps.skip(2) =~= seq![dc]);
    assert(comps.skip(2).skip(1) =~= Seq::<Seq<char>>::empty());
    assert("git version "@ + v =~= "git version "@ + da + seq!['.'] + db + seq!['.'] + dc);
}

fn version_text(s: &Vec<char>) -> (r: Option<Vec<char>>)
    ensures
        opt_view(r) == version_text_from(lines_of(s@), 0),
{
    let ls = lines(s);
    let ghost lv = seq_views(ls@);
    let mut i: usize = 0;
    while i < ls.len()
        invariant
            lv == seq_views(ls@),
            lv == lines_of(s@),
            version_text_from(lv, 0) == version_text_from(lv, i as int),
        decreases ls.len() - i,
    {
        assert(lv[i as int] == ls@[i as int]@);
        if let Some(v) = strip_prefix(&trim(&ls[i]), "git version ") {
            return Some(v);
        }
        i += 1;
    }
    None
}

/// Parse the output of `git --version`.
///
/// Returns [`None`] when no `git version` line is present, or when the two
/// leading components are not numeric.
pub fn parse_version(input: &str) -> (r: Option<GitVersion>)
    ensures
        opt_view(r) == version_spec(input@),
{
    let s = chars_of(input);
    let v = version_text(&s)?;
    let raw = trim(&v);
    let w = words(&raw);
    if w.len() == 0 {
        return None;
    }
    assert(seq_views(w@)[0] == w@[0]@);
    let comps = split_char(&w[0], '.');
    let ghost cv = seq_views(comps@);
    if comps.len() < 2 {
        return None;
    }
    assert(cv[0] == comps@[0]@ && cv[1] == comps@[1]@);
    let major = parse_u32(&comps[0])?;
    let minor = parse_u32(&comps[1])?;
    let ghost rest = cv.skip(2);
    let patch = if comps.len() > 2 {
        assert(cv[2] == comps@[2]@);
        parse_u32(&comps[2])
    } else {
        None
    };
    let lo: usize = if patch.is_some() {
        3
    } else {
        2
    };
    let suffix = if lo < comps.len() {
        assert(cv.skip(lo as int) =~= (if patch is Some {
            rest.skip(1)
        } else {
            rest
        }));
        Some(text_of(&join(&comps, lo, '.')))
    } else {
        None
    };
    Some(GitVersion { major, minor, patch, suffix, raw: text_of(&raw) })
}

} // verus!
