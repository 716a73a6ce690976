//! Character-level text handling shared by every parser and argument builder.
//!
//! Git output arrives as `&str`; the parsers turn it into a `Vec<char>` once
//! and then work on character sequences. Each operation here is stated over
//! `Seq<char>` by a spec function with the meaning of the `str` method of the
//! same purpose (`split`, `lines`, `find`, `trim`, `split_whitespace`,
//! `parse::<u32>`, ...), and implemented by an executable function that is
//! proved to compute it.
use vstd::prelude::*;

verus! {

/// The views of the elements of a sequence.
pub open spec fn seq_views<T: View>(s: Seq<T>) -> Seq<T::V> {
    s.map_values(|x: T| x@)
}

/// The view of an optional value.
pub open spec fn opt_view<T: View>(o: Option<T>) -> Option<T::V> {
    match o {
        Some(x) => Some(x@),
        None => None,
    }
}

/// A set of characters that a splitting or trimming operation looks for.
#[derive(Clone, Copy, Debug, PartialEq, Eq)]
pub enum CharClass {
    /// Unicode white space, as `char::is_whitespace` classifies it.
    Whitespace,
    /// Exactly this character.
    Exactly(char),
}

/// Unicode `White_Space`: the characters `char::is_whitespace` accepts.
pub open spec fn is_ws(c: char) -> bool {
    let n = c as u32;
    (0x09 <= n && n <= 0x0d) || n == 0x20 || n == 0x85 || n == 0xa0 || n == 0x1680 || (0x2000
        <= n && n <= 0x200a) || n == 0x2028 || n == 0x2029 || n == 0x202f || n == 0x205f || n
        == 0x3000
}

pub open spec fn in_class(c: char, k: CharClass) -> bool {
    match k {
        CharClass::Whitespace => is_ws(c),
        CharClass::Exactly(x) => c == x,
    }
}

pub fn char_is_ws(c: char) -> (b: bool)
    ensures
        b == is_ws(c),
{
    let n = c as u32;
    (0x09 <= n && n <= 0x0d) || n == 0x20 || n == 0x85 || n == 0xa0 || n == 0x1680 || (0x2000
        <= n && n <= 0x200a) || n == 0x2028 || n == 0x2029 || n == 0x202f || n == 0x205f || n
        == 0x3000
}

pub fn class_has(c: char, k: CharClass) -> (b: bool)
    ensures
        b == in_class(c, k),
{
    match k {
        CharClass::Whitespace => char_is_ws(c),
        CharClass::Exactly(x) => c == x,
    }
}

/// The characters of a string slice.
pub fn chars_of(s: &str) -> (v: Vec<char>)
    ensures
        v@ == s@,
{
    let mut v: Vec<char> = Vec::new();
    for c in it: s.chars()
        invariant
            v@ == it.seq().take(it.index() as int),
            it.seq() == s@,
    {
        v.push(c);
    }
    v
}

/// Appends one character to a `String` (`String::push`).
#[verifier::external_body]
fn push_char(s: &mut String, c: char)
    ensures
        final(s)@ == old(s)@.push(c),
{
    s.push(c);
}

/// What `{:?}` prints for a string (`<str as Debug>::fmt`): the text in
/// double quotes, with quotes, backslashes and unprintable characters
/// escaped.
pub uninterp spec fn debug_quoted(s: Seq<char>) -> Seq<char>;

/// `format!("{:?}", s)`, the `Debug` form of a string. Its exact escaping is
/// not stated here; the result is named by [`debug_quoted`].
#[verifier::external_body]
pub(crate) fn debug_text(s: &str) -> (r: String)
    ensures
        r@ == debug_quoted(s@),
{
    format!("{:?}", s)
}

/// Whether a `String` is empty.
pub fn text_is_empty(s: &String) -> (b: bool)
    ensures
        b == (s@.len() == 0),
{
    s.as_str().is_empty()
}

/// A `String` holding exactly the given characters.
pub fn text_of(s: &Vec<char>) -> (r: String)
    ensures
        r@ == s@,
{
    let mut r = String::new();
    let mut i: usize = 0;
    while i < s.len()
        invariant
            i <= s.len(),
            r@ == s@.take(i as int),
        decreases s.len() - i,
    {
        push_char(&mut r, s[i]);
        assert(s@.take(i + 1) =~= s@.take(i as int).push(s@[i as int]));
        i += 1;
    }
    assert(s@.take(s.len() as int) =~= s@);
    r
}

/// The characters at positions `lo..hi`.
pub fn slice_of(s: &Vec<char>, lo: usize, hi: usize) -> (r: Vec<char>)
    requires
        lo <= hi <= s.len(),
    ensures
        r@ == s@.subrange(lo as int, hi as int),
{
    let mut r: Vec<char> = Vec::new();
    let mut i: usize = lo;
    while i < hi
        invariant
            lo <= i <= hi <= s.len(),
            r@ == s@.subrange(lo as int, i as int),
        decreases hi - i,
    {
        r.push(s[i]);
        assert(s@.subrange(lo as int, i + 1) =~= s@.subrange(lo as int, i as int).push(
            s@[i as int],
        ));
        i += 1;
    }
    r
}

/// The characters from position `lo` to the end.
pub fn tail_of(s: &Vec<char>, lo: usize) -> (r: Vec<char>)
    requires
        lo <= s.len(),
    ensures
        r@ == s@.skip(lo as int),
{
    let r = slice_of(s, lo, s.len());
    assert(s@.subrange(lo as int, s.len() as int) =~= s@.skip(lo as int));
    r
}

// ---------------------------------------------------------------------------
// Splitting
// ---------------------------------------------------------------------------
/// The pieces of `s` between the characters of class `k`, as `str::split`
/// yields them: `n` separators give `n + 1` pieces, empty ones included.
pub open spec fn split_class(s: Seq<char>, k: CharClass) -> Seq<Seq<char>>
    decreases s.len(),
{
    if s.len() == 0 {
        seq![Seq::<char>::empty()]
    } else {
        let prev = split_class(s.drop_last(), k);
        if in_class(s.last(), k) {
            prev.push(Seq::<char>::empty())
        } else {
            prev.update(prev.len() - 1, prev.last().push(s.last()))
        }
    }
}

/// `str::split` on one character.
pub open spec fn split_on(s: Seq<char>, d: char) -> Seq<Seq<char>> {
    split_class(s, CharClass::Exactly(d))
}

pub proof fn lemma_split_class_len(s: Seq<char>, k: CharClass)
    ensures
        split_class(s, k).len() >= 1,
    decreases s.len(),
{
    if s.len() > 0 {
        lemma_split_class_len(s.drop_last(), k);
    }
}

/// A text with no character of class `k` is one piece.
pub proof fn lemma_split_class_none(s: Seq<char>, k: CharClass)
    requires
        forall|m: int| 0 <= m < s.len() ==> !in_class(#[trigger] s[m], k),
    ensures
        split_class(s, k) == seq![s],
    decreases s.len(),
{
    if s.len() > 0 {
        assert forall|m: int| 0 <= m < s.drop_last().len() implies !in_class(
            #[trigger] s.drop_last()[m],
            k,
        ) by {
            assert(s.drop_last()[m] == s[m]);
        }
        lemma_split_class_none(s.drop_last(), k);
        assert(s.drop_last().push(s.last()) =~= s);
        assert(!in_class(s[s.len() - 1], k));
        assert(seq![s.drop_last()].update(0, s.drop_last().push(s.last())) =~= seq![s]);
    } else {
        assert(s =~= Seq::<char>::empty());
    }
}

/// Splitting a text that ends at a separator (or is empty) and then more
/// text: the pieces of the first part, its final empty piece replaced by
/// the pieces of the rest.
pub proof fn lemma_split_class_concat(s: Seq<char>, t: Seq<char>, k: CharClass)
    requires
        s.len() == 0 || in_class(s.last(), k),
    ensures
        split_class(s + t, k) == split_class(s, k).drop_last() + split_class(t, k),
    decreases t.len(),
{
    lemma_split_class_len(s, k);
    if t.len() == 0 {
        assert(s + t =~= s);
        if s.len() > 0 {
            lemma_split_class_len(s.drop_last(), k);
        }
        assert(split_class(s, k).last() =~= Seq::<char>::empty());
        assert(split_class(s, k).drop_last() + seq![Seq::<char>::empty()] =~= split_class(s, k));
    } else {
        lemma_split_class_concat(s, t.drop_last(), k);
        lemma_split_class_len(t.drop_last(), k);
        assert((s + t).drop_last() =~= s + t.drop_last());
        assert((s + t).last() == t.last());
        let a = split_class(s, k).drop_last();
        let b = split_class(t.drop_last(), k);
        if in_class(t.last(), k) {
            assert((a + b).push(Seq::<char>::empty()) =~= a + b.push(Seq::<char>::empty()));
        } else {
            assert((a + b).update((a + b).len() - 1, (a + b).last().push(t.last())) =~= a
                + b.update(b.len() - 1, b.last().push(t.last())));
        }
    }
}

/// The lines of a text that is empty or ends with a newline, followed by a
/// line `l` without newline and a newline: its lines and `l` (a final
/// carriage return dropped).
pub proof fn lemma_lines_append(s: Seq<char>, l: Seq<char>)
    requires
        s.len() == 0 || s.last() == '\n',
        !l.contains('\n'),
    ensures
        lines_of(s + l + seq!['\n']) == lines_of(s).push(strip_cr(l)),
{
    let k = CharClass::Exactly('\n');
    let u = s + l + seq!['\n'];
    assert(u =~= s + (l + seq!['\n']));
    lemma_split_class_concat(s, l + seq!['\n'], k);
    assert forall|m: int| 0 <= m < l.len() implies !in_class(#[trigger] l[m], k) by {
        if l[m] == '\n' {
            assert(l.contains('\n'));
        }
    }
    lemma_split_class_none(l, k);
    assert((l + seq!['\n']).drop_last() =~= l);
    assert(split_class(l + seq!['\n'], k) == seq![l].push(Seq::<char>::empty()));
    lemma_split_class_len(s, k);
    let ps = split_class(s, k).drop_last();
    let parts = split_on(u, '\n');
    assert(parts == ps + seq![l, Seq::<char>::empty()]);
    assert(parts.drop_last() =~= ps.push(l));
    let f = |p: Seq<char>| strip_cr(p);
    assert(ps.push(l).map_values(f) =~= ps.map_values(f).push(strip_cr(l)));
    if s.len() == 0 {
        assert(ps =~= Seq::<Seq<char>>::empty());
        assert(lines_of(s) =~= Seq::<Seq<char>>::empty());
    }
}

/// Splits at every character of class `k`.
pub fn split_by(s: &Vec<char>, k: CharClass) -> (r: Vec<Vec<char>>)
    ensures
        seq_views(r@) == split_class(s@, k),
{
    let mut out: Vec<Vec<char>> = Vec::new();
    let mut cur: Vec<char> = Vec::new();
    let mut i: usize = 0;
    assert(s@.take(0) =~= Seq::<char>::empty());
    assert(seq_views(out@).push(cur@) =~= split_class(s@.take(0), k));
    while i < s.len()
        invariant
            i <= s.len(),
            seq_views(out@).push(cur@) == split_class(s@.take(i as int), k),
        decreases s.len() - i,
    {
        let ghost prefix = s@.take(i as int);
        let ghost next = s@.take(i + 1);
        assert(next.drop_last() =~= prefix);
        assert(next.last() == s@[i as int]);
        proof {
            lemma_split_class_len(prefix, k);
        }
        let c = s[i];
        if class_has(c, k) {
            let mut done: Vec<char> = Vec::new();
            std::mem::swap(&mut cur, &mut done);
            out.push(done);
            assert(seq_views(out@).push(cur@) =~= split_class(next, k));
        } else {
            cur.push(c);
            assert(seq_views(out@).push(cur@) =~= split_class(next, k));
        }
        i += 1;
    }
    assert(s@.take(s.len() as int) =~= s@);
    out.push(cur);
    assert(seq_views(out@) =~= split_class(s@, k));
    out
}

/// `str::split` on one character.
pub fn split_char(s: &Vec<char>, d: char) -> (r: Vec<Vec<char>>)
    ensures
        seq_views(r@) == split_on(s@, d),
{
    split_by(s, CharClass::Exactly(d))
}


/// Removes one trailing carriage return.
pub open spec fn strip_cr(p: Seq<char>) -> Seq<char> {
    if p.len() > 0 && p.last() == '\r' {
        p.drop_last()
    } else {
        p
    }
}

/// `str::lines`: the pieces between newlines, without a final empty piece
/// after a trailing newline, and with a carriage return dropped from every
/// line that a newline ended.
pub open spec fn lines_of(s: Seq<char>) -> Seq<Seq<char>> {
    if s.len() == 0 {
        Seq::empty()
    } else {
        let parts = split_on(s, '\n');
        let ended = parts.drop_last().map_values(|p: Seq<char>| strip_cr(p));
        if s.last() == '\n' {
            ended
        } else {
            ended.push(parts.last())
        }
    }
}

pub fn strip_cr_exec(p: Vec<char>) -> (r: Vec<char>)
    ensures
        r@ == strip_cr(p@),
{
    let mut p = p;
    if p.len() > 0 && p[p.len() - 1] == '\r' {
        p.pop();
    }
    p
}

/// `str::lines`.
pub fn lines(s: &Vec<char>) -> (r: Vec<Vec<char>>)
    ensures
        seq_views(r@) == lines_of(s@),
{
    let mut out: Vec<Vec<char>> = Vec::new();
    if s.len() == 0 {
        assert(seq_views(out@) =~= lines_of(s@));
        return out;
    }
    let mut parts = split_char(s, '\n');
    proof {
        lemma_split_class_len(s@, CharClass::Exactly('\n'));
    }
    let ghost pv = seq_views(parts@);
    let n = parts.len() - 1;
    let last = parts.pop().unwrap();
    let mut i: usize = 0;
    while i < n
        invariant
            i <= n,
            n == parts.len(),
            pv.len() == n + 1,
            seq_views(parts@) == pv.drop_last(),
            seq_views(out@) == pv.drop_last().take(i as int).map_values(
                |p: Seq<char>| strip_cr(p),
            ),
        decreases n - i,
    {
        let piece = slice_of(&parts[i], 0, parts[i].len());
        assert(seq_views(parts@)[i as int] == parts@[i as int]@);
        assert(piece@ =~= pv[i as int]);
        let ghost before = seq_views(out@);
        let stripped = strip_cr_exec(piece);
        let ghost sv = stripped@;
        out.push(stripped);
        assert(seq_views(out@) =~= before.push(sv));
        assert(pv.drop_last().take(i + 1).map_values(|p: Seq<char>| strip_cr(p)) =~= pv.drop_last().take(
            i as int,
        ).map_values(|p: Seq<char>| strip_cr(p)).push(strip_cr(pv[i as int])));
        i += 1;
    }
    assert(pv.drop_last().take(n as int) =~= pv.drop_last());
    if s[s.len() - 1] != '\n' {
        out.push(last);
        assert(seq_views(out@) =~= lines_of(s@));
    } else {
        assert(seq_views(out@) =~= lines_of(s@));
    }
    out
}

// ---------------------------------------------------------------------------
// Searching
// ---------------------------------------------------------------------------
/// `pat` occurs in `s` at position `i`.
pub open spec fn matches_at(s: Seq<char>, pat: Seq<char>, i: int) -> bool {
    0 <= i && i + pat.len() <= s.len() && s.subrange(i, i + pat.len()) == pat
}

/// The first occurrence of `pat` at or after position `i`.
pub open spec fn find_from(s: Seq<char>, pat: Seq<char>, i: int) -> Option<int>
    decreases s.len() + 1 - i,
{
    if i < 0 || i + pat.len() > s.len() {
        None
    } else if matches_at(s, pat, i) {
        Some(i)
    } else {
        find_from(s, pat, i + 1)
    }
}

/// `str::find`: the first position where `pat` occurs.
pub open spec fn find_str(s: Seq<char>, pat: Seq<char>) -> Option<int> {
    find_from(s, pat, 0)
}

/// The last occurrence of `pat` at or before position `i`.
pub open spec fn rfind_from(s: Seq<char>, pat: Seq<char>, i: int) -> Option<int>
    decreases i + 1,
{
    if i < 0 {
        None
    } else if matches_at(s, pat, i) {
        Some(i)
    } else {
        rfind_from(s, pat, i - 1)
    }
}

/// `str::rfind`: the last position where `pat` occurs.
pub open spec fn rfind_str(s: Seq<char>, pat: Seq<char>) -> Option<int> {
    rfind_from(s, pat, s.len() - pat.len())
}

/// `str::contains`.
pub open spec fn contains_str(s: Seq<char>, pat: Seq<char>) -> bool {
    find_str(s, pat) is Some
}

pub proof fn lemma_find_from_bounds(s: Seq<char>, pat: Seq<char>, i: int)
    ensures
        find_from(s, pat, i) matches Some(j) ==> i <= j && matches_at(s, pat, j),
    decreases s.len() + 1 - i,
{
    if !(i < 0 || i + pat.len() > s.len()) && !matches_at(s, pat, i) {
        lemma_find_from_bounds(s, pat, i + 1);
    }
}

pub proof fn lemma_find_str(s: Seq<char>, pat: Seq<char>)
    ensures
        find_str(s, pat) matches Some(j) ==> 0 <= j && j + pat.len() <= s.len() && s.subrange(
            j,
            j + pat.len(),
        ) == pat,
{
    lemma_find_from_bounds(s, pat, 0);
}

pub proof fn lemma_rfind_from_bounds(s: Seq<char>, pat: Seq<char>, i: int)
    ensures
        rfind_from(s, pat, i) matches Some(j) ==> j <= i && matches_at(s, pat, j),
    decreases i + 1,
{
    if i >= 0 && !matches_at(s, pat, i) {
        lemma_rfind_from_bounds(s, pat, i - 1);
    }
}

pub proof fn lemma_rfind_str(s: Seq<char>, pat: Seq<char>)
    ensures
        rfind_str(s, pat) matches Some(j) ==> 0 <= j && j + pat.len() <= s.len() && s.subrange(
            j,
            j + pat.len(),
        ) == pat,
{
    lemma_rfind_from_bounds(s, pat, s.len() - pat.len());
}

/// The first match at or after `i` is at `k` when `pat` occurs at `k` and
/// nowhere in between.
pub proof fn lemma_find_from_first(s: Seq<char>, pat: Seq<char>, i: int, k: int)
    requires
        0 <= i <= k,
        matches_at(s, pat, k),
        forall|j: int| i <= j < k ==> !matches_at(s, pat, j),
    ensures
        find_from(s, pat, i) == Some(k),
    decreases k - i,
{
    if i < k {
        lemma_find_from_first(s, pat, i + 1, k);
    }
}

/// The first match at or after `i` has no match before it.
pub proof fn lemma_find_from_least(s: Seq<char>, pat: Seq<char>, i: int)
    requires
        0 <= i,
    ensures
        find_from(s, pat, i) matches Some(j) ==> forall|m: int|
            i <= m < j ==> !matches_at(s, pat, m),
    decreases s.len() + 1 - i,
{
    if !(i + pat.len() > s.len()) && !matches_at(s, pat, i) {
        lemma_find_from_least(s, pat, i + 1);
    }
}

/// `str::split_once`: the text before the first occurrence of `pat`, which
/// holds none, `pat`, and the rest make up the whole text.
pub proof fn lemma_split_once(s: Seq<char>, pat: Seq<char>)
    requires
        pat.len() > 0,
    ensures
        split_once_spec(s, pat) matches Some((a, b)) ==> a + pat + b == s && !contains_str(
            a,
            pat,
        ),
        split_once_spec(s, pat) is None <==> !contains_str(s, pat),
{
    lemma_find_from_bounds(s, pat, 0);
    lemma_find_from_least(s, pat, 0);
    if let Some(j) = find_str(s, pat) {
        let a = s.take(j);
        assert(a + pat + s.skip(j + pat.len()) =~= s) by {
            assert(s.subrange(j, j + pat.len()) == pat);
        }
        lemma_find_from_bounds(a, pat, 0);
        if let Some(m) = find_str(a, pat) {
            assert(a.subrange(m, m + pat.len()) =~= s.subrange(m, m + pat.len()));
            assert(matches_at(s, pat, m));
        }
    }
}

/// A text in which `pat` occurs somewhere contains it.
pub proof fn lemma_contains_at(s: Seq<char>, pat: Seq<char>, k: int)
    requires
        matches_at(s, pat, k),
    ensures
        contains_str(s, pat),
{
    if find_from(s, pat, 0) is None {
        lemma_find_from_none(s, pat, 0);
        assert(!matches_at(s, pat, k));
    }
}

/// A pattern that occurs nowhere is not found.
pub proof fn lemma_find_nowhere(s: Seq<char>, pat: Seq<char>, i: int)
    requires
        forall|j: int| 0 <= j ==> !#[trigger] matches_at(s, pat, j),
    ensures
        find_from(s, pat, i) is None,
    decreases s.len() + 1 - i,
{
    if 0 <= i && i + pat.len() <= s.len() {
        lemma_find_nowhere(s, pat, i + 1);
    }
}

/// A pattern whose first character occurs nowhere in `s` is not found.
pub proof fn lemma_find_absent(s: Seq<char>, pat: Seq<char>, i: int)
    requires
        pat.len() > 0,
        forall|m: int| 0 <= m < s.len() ==> #[trigger] s[m] != pat[0],
    ensures
        find_from(s, pat, i) is None,
    decreases s.len() + 1 - i,
{
    if 0 <= i && i + pat.len() <= s.len() {
        assert(s.subrange(i, i + pat.len())[0] == s[i]);
        lemma_find_absent(s, pat, i + 1);
    }
}

/// The last match at or before `i` is at `k` when `pat` occurs at `k` and
/// nowhere after it up to `i`.
pub proof fn lemma_rfind_from_last(s: Seq<char>, pat: Seq<char>, i: int, k: int)
    requires
        0 <= k <= i,
        matches_at(s, pat, k),
        forall|j: int| k < j <= i ==> !matches_at(s, pat, j),
    ensures
        rfind_from(s, pat, i) == Some(k),
    decreases i - k,
{
    if k < i {
        lemma_rfind_from_last(s, pat, i - 1, k);
    }
}

/// Splitting once on a pattern whose first character the text before it
/// does not hold gives that text and the rest.
pub proof fn lemma_split_once_first(a: Seq<char>, pat: Seq<char>, b: Seq<char>)
    requires
        pat.len() > 0,
        forall|m: int| 0 <= m < a.len() ==> #[trigger] a[m] != pat[0],
    ensures
        split_once_spec(a + pat + b, pat) == Some((a, b)),
{
    let s = a + pat + b;
    let al = a.len() as int;
    assert(s.subrange(al, al + pat.len()) =~= pat);
    assert forall|j: int| 0 <= j < al implies !matches_at(s, pat, j) by {
        if matches_at(s, pat, j) {
            assert(s.subrange(j, j + pat.len())[0] == s[j]);
            assert(s[j] == a[j]);
        }
    }
    lemma_find_from_first(s, pat, 0, al);
    assert(s.take(al) =~= a);
    assert(s.skip(al + pat.len()) =~= b);
}

/// Splitting once on a character that the text before its first occurrence
/// does not hold gives that text and the rest.
pub proof fn lemma_split_once_char(a: Seq<char>, d: char, b: Seq<char>)
    requires
        !a.contains(d),
    ensures
        split_once_spec(a + seq![d] + b, seq![d]) == Some((a, b)),
{
    let s = a + seq![d] + b;
    let pat = seq![d];
    assert(s.subrange(a.len() as int, a.len() + 1 as int) =~= pat);
    assert forall|j: int| 0 <= j < a.len() implies !matches_at(s, pat, j) by {
        if matches_at(s, pat, j) {
            assert(s.subrange(j, j + 1)[0] == s[j]);
            assert(a[j] == d);
            assert(a.contains(d));
        }
    }
    lemma_find_from_first(s, pat, 0, a.len() as int);
    assert(s.take(a.len() as int) =~= a);
    assert(s.skip(a.len() + 1 as int) =~= b);
}

/// Dropping a last character that is not the one-character pattern keeps
/// where the pattern is first found.
pub proof fn lemma_find_drop_last(s: Seq<char>, pat: Seq<char>, i: int)
    requires
        s.len() > 0,
        pat.len() == 1,
        s.last() != pat[0],
        0 <= i,
    ensures
        find_from(s.drop_last(), pat, i) == find_from(s, pat, i),
    decreases s.len() + 1 - i,
{
    let d = s.drop_last();
    if i + 1 <= d.len() {
        assert(d.subrange(i, i + 1) =~= s.subrange(i, i + 1));
        lemma_find_drop_last(s, pat, i + 1);
    } else if i + 1 <= s.len() {
        assert(i == s.len() - 1);
        assert(s.subrange(i, i + 1)[0] == s.last());
        assert(!matches_at(s, pat, i));
        assert(find_from(s, pat, i + 1) is None);
    }
}

/// When `pat` is not found at or after `i`, it occurs nowhere from `i` on.
pub proof fn lemma_find_from_none(s: Seq<char>, pat: Seq<char>, i: int)
    requires
        0 <= i,
        find_from(s, pat, i) is None,
    ensures
        forall|j: int| i <= j ==> !matches_at(s, pat, j),
    decreases s.len() + 1 - i,
{
    if i + pat.len() <= s.len() {
        lemma_find_from_none(s, pat, i + 1);
    }
}

/// Whether `pat` occurs in `s` at position `i`.
pub fn match_at(s: &Vec<char>, pat: &Vec<char>, i: usize) -> (b: bool)
    ensures
        b == matches_at(s@, pat@, i as int),
{
    if i > s.len() || pat.len() > s.len() - i {
        return false;
    }
    let mut j: usize = 0;
    while j < pat.len()
        invariant
            i + pat.len() <= s.len(),
            j <= pat.len(),
            s@.subrange(i as int, i + j) == pat@.take(j as int),
        decreases pat.len() - j,
    {
        if s[i + j] != pat[j] {
            assert(s@.subrange(i as int, i + pat.len())[j as int] != pat@[j as int]);
            return false;
        }
        assert(s@.subrange(i as int, i + j + 1) =~= s@.subrange(i as int, i + j).push(
            s@[i + j],
        ));
        assert(pat@.take(j + 1) =~= pat@.take(j as int).push(pat@[j as int]));
        j += 1;
    }
    assert(pat@.take(pat.len() as int) =~= pat@);
    true
}

/// `str::find`.
pub fn find(s: &Vec<char>, pat: &Vec<char>) -> (r: Option<usize>)
    ensures
        r matches Some(j) ==> find_str(s@, pat@) == Some(j as int),
        r is None ==> find_str(s@, pat@) is None,
{
    if pat.len() > s.len() {
        return None;
    }
    let mut i: usize = 0;
    while i <= s.len() - pat.len()
        invariant
            pat.len() <= s.len(),
            i <= s.len() - pat.len() + 1,
            find_str(s@, pat@) == find_from(s@, pat@, i as int),
        decreases s.len() - pat.len() + 1 - i,
    {
        if match_at(s, pat, i) {
            return Some(i);
        }
        if i == s.len() - pat.len() {
            assert(find_from(s@, pat@, i + 1) is None);
            return None;
        }
        i += 1;
    }
    None
}

/// `str::rfind`.
pub fn rfind(s: &Vec<char>, pat: &Vec<char>) -> (r: Option<usize>)
    ensures
        r matches Some(j) ==> rfind_str(s@, pat@) == Some(j as int),
        r is None ==> rfind_str(s@, pat@) is None,
{
    if pat.len() > s.len() {
        return None;
    }
    let mut i: usize = s.len() - pat.len();
    loop
        invariant
            pat.len() <= s.len(),
            i <= s.len() - pat.len(),
            rfind_str(s@, pat@) == rfind_from(s@, pat@, i as int),
        decreases i,
    {
        if match_at(s, pat, i) {
            return Some(i);
        }
        if i == 0 {
            assert(rfind_from(s@, pat@, -1) is None);
            return None;
        }
        i -= 1;
    }
}

/// `str::contains`.
pub fn contains(s: &Vec<char>, pat: &Vec<char>) -> (b: bool)
    ensures
        b == contains_str(s@, pat@),
{
    find(s, pat).is_some()
}

/// `str::find` for a literal pattern.
pub fn find_lit(s: &Vec<char>, pat: &str) -> (r: Option<usize>)
    ensures
        r matches Some(j) ==> find_str(s@, pat@) == Some(j as int) && j + pat@.len() <= s.len(),
        r is None ==> find_str(s@, pat@) is None,
{
    let p = chars_of(pat);
    let r = find(s, &p);
    proof {
        lemma_find_str(s@, p@);
    }
    r
}

/// `str::contains` for a literal pattern.
pub fn contains_lit(s: &Vec<char>, pat: &str) -> (b: bool)
    ensures
        b == contains_str(s@, pat@),
{
    let p = chars_of(pat);
    contains(s, &p)
}

/// `str::starts_with`.
pub open spec fn has_prefix(s: Seq<char>, p: Seq<char>) -> bool {
    p.len() <= s.len() && s.take(p.len() as int) == p
}

/// `str::ends_with`.
pub open spec fn has_suffix(s: Seq<char>, p: Seq<char>) -> bool {
    p.len() <= s.len() && s.skip(s.len() - p.len()) == p
}

/// `str::strip_prefix`.
pub open spec fn strip_prefix_spec(s: Seq<char>, p: Seq<char>) -> Option<Seq<char>> {
    if has_prefix(s, p) {
        Some(s.skip(p.len() as int))
    } else {
        None
    }
}

/// `str::strip_suffix`.
pub open spec fn strip_suffix_spec(s: Seq<char>, p: Seq<char>) -> Option<Seq<char>> {
    if has_suffix(s, p) {
        Some(s.take(s.len() - p.len()))
    } else {
        None
    }
}

pub fn starts_with(s: &Vec<char>, p: &str) -> (b: bool)
    ensures
        b == has_prefix(s@, p@),
{
    let pv = chars_of(p);
    let b = match_at(s, &pv, 0);
    assert(b == has_prefix(s@, p@)) by {
        if pv@.len() <= s@.len() {
            assert(s@.subrange(0, pv@.len() as int) =~= s@.take(pv@.len() as int));
        }
    }
    b
}

pub fn ends_with(s: &Vec<char>, p: &str) -> (b: bool)
    ensures
        b == has_suffix(s@, p@),
{
    let pv = chars_of(p);
    if pv.len() > s.len() {
        return false;
    }
    let b = match_at(s, &pv, s.len() - pv.len());
    assert(s@.subrange(s.len() - pv.len(), s.len() as int) =~= s@.skip(s.len() - pv.len()));
    b
}

pub fn strip_prefix(s: &Vec<char>, p: &str) -> (r: Option<Vec<char>>)
    ensures
        opt_view(r) == strip_prefix_spec(s@, p@),
{
    if starts_with(s, p) {
        let n = chars_of(p).len();
        Some(tail_of(s, n))
    } else {
        None
    }
}

pub fn strip_suffix(s: &Vec<char>, p: &str) -> (r: Option<Vec<char>>)
    ensures
        opt_view(r) == strip_suffix_spec(s@, p@),
{
    if ends_with(s, p) {
        let n = chars_of(p).len();
        let r = slice_of(s, 0, s.len() - n);
        assert(s@.subrange(0, s.len() - n) =~= s@.take(s.len() - n));
        Some(r)
    } else {
        None
    }
}

/// `str::split_once`.
pub open spec fn split_once_spec(s: Seq<char>, pat: Seq<char>) -> Option<(Seq<char>, Seq<char>)> {
    match find_str(s, pat) {
        Some(i) => Some((s.take(i), s.skip(i + pat.len()))),
        None => None,
    }
}

/// `str::rsplit_once`.
pub open spec fn rsplit_once_spec(s: Seq<char>, pat: Seq<char>) -> Option<(Seq<char>, Seq<char>)> {
    match rfind_str(s, pat) {
        Some(i) => Some((s.take(i), s.skip(i + pat.len()))),
        None => None,
    }
}

pub open spec fn pair_view(o: Option<(Vec<char>, Vec<char>)>) -> Option<(Seq<char>, Seq<char>)> {
    match o {
        Some((a, b)) => Some((a@, b@)),
        None => None,
    }
}

pub fn split_once(s: &Vec<char>, pat: &str) -> (r: Option<(Vec<char>, Vec<char>)>)
    ensures
        pair_view(r) == split_once_spec(s@, pat@),
{
    let p = chars_of(pat);
    match find(s, &p) {
        Some(i) => {
            proof {
                lemma_find_str(s@, p@);
                assert(find_str(s@, p@) == Some(i as int));
                assert(i + p@.len() <= s@.len());
            }
            let n = p.len();
            assert(i + n <= s.len());
            let a = slice_of(s, 0, i);
            let b = tail_of(s, i + n);
            assert(s@.subrange(0, i as int) =~= s@.take(i as int));
            Some((a, b))
        },
        None => None,
    }
}

pub fn rsplit_once(s: &Vec<char>, pat: &str) -> (r: Option<(Vec<char>, Vec<char>)>)
    ensures
        pair_view(r) == rsplit_once_spec(s@, pat@),
{
    let p = chars_of(pat);
    match rfind(s, &p) {
        Some(i) => {
            proof {
                lemma_rfind_str(s@, p@);
                assert(rfind_str(s@, p@) == Some(i as int));
            }
            let n = p.len();
            assert(i + n <= s.len());
            let a = slice_of(s, 0, i);
            let b = tail_of(s, i + n);
            assert(s@.subrange(0, i as int) =~= s@.take(i as int));
            Some((a, b))
        },
        None => None,
    }
}


/// The first position at or after `i` holding a character of class `k`.
pub open spec fn find_class_from(s: Seq<char>, k: CharClass, i: int) -> Option<int>
    decreases s.len() - i,
{
    if i < 0 || i >= s.len() {
        None
    } else if in_class(s[i], k) {
        Some(i)
    } else {
        find_class_from(s, k, i + 1)
    }
}

pub proof fn lemma_find_class_from(s: Seq<char>, k: CharClass, i: int)
    ensures
        find_class_from(s, k, i) matches Some(j) ==> i <= j < s.len() && in_class(s[j], k),
    decreases s.len() - i,
{
    if 0 <= i < s.len() && !in_class(s[i], k) {
        lemma_find_class_from(s, k, i + 1);
    }
}

/// The first character of class `k` at or after `i` is at `j` when `s[j]`
/// is of that class and nothing in between is.
pub proof fn lemma_find_class_first(s: Seq<char>, k: CharClass, i: int, j: int)
    requires
        0 <= i <= j < s.len(),
        in_class(s[j], k),
        forall|m: int| i <= m < j ==> !in_class(#[trigger] s[m], k),
    ensures
        find_class_from(s, k, i) == Some(j),
    decreases j - i,
{
    if i < j {
        lemma_find_class_first(s, k, i + 1, j);
    }
}

pub fn find_class(s: &Vec<char>, k: CharClass) -> (r: Option<usize>)
    ensures
        r matches Some(j) ==> find_class_from(s@, k, 0) == Some(j as int) && j < s.len(),
        r is None ==> find_class_from(s@, k, 0) is None,
{
    let mut i: usize = 0;
    while i < s.len()
        invariant
            i <= s.len(),
            find_class_from(s@, k, 0) == find_class_from(s@, k, i as int),
        decreases s.len() - i,
    {
        if class_has(s[i], k) {
            return Some(i);
        }
        i += 1;
    }
    None
}

/// `str::splitn(n, ..)` on a character class: at most `n` pieces, the last
/// holding the rest of the text.
pub open spec fn splitn_class(s: Seq<char>, n: nat, k: CharClass) -> Seq<Seq<char>>
    decreases n,
{
    if n == 0 {
        Seq::empty()
    } else if n == 1 {
        seq![s]
    } else {
        match find_class_from(s, k, 0) {
            None => seq![s],
            Some(i) => seq![s.take(i)] + splitn_class(s.skip(i + 1), (n - 1) as nat, k),
        }
    }
}

/// Splitting at most `n >= 2` ways on a class a text that starts with a
/// piece free of the class and then a character of the class: that piece,
/// then the rest split at most `n - 1` ways.
pub proof fn lemma_splitn_first_class(a: Seq<char>, d: char, rest: Seq<char>, n: nat, k: CharClass)
    requires
        n >= 2,
        in_class(d, k),
        forall|m: int| 0 <= m < a.len() ==> !in_class(#[trigger] a[m], k),
    ensures
        splitn_class(a + seq![d] + rest, n, k) == seq![a] + splitn_class(rest, (n - 1) as nat, k),
{
    let s = a + seq![d] + rest;
    assert forall|m: int| 0 <= m < a.len() implies !in_class(#[trigger] s[m], k) by {
        assert(s[m] == a[m]);
    }
    assert(s[a.len() as int] == d);
    lemma_find_class_first(s, k, 0, a.len() as int);
    assert(s.take(a.len() as int) =~= a);
    assert(s.skip(a.len() + 1 as int) =~= rest);
}

/// Splitting at most `n >= 2` ways a text that starts with a piece free of
/// the separator and then the separator: that piece, then the rest split at
/// most `n - 1` ways.
pub proof fn lemma_splitn_first(a: Seq<char>, d: char, rest: Seq<char>, n: nat)
    requires
        n >= 2,
        !a.contains(d),
    ensures
        splitn_class(a + seq![d] + rest, n, CharClass::Exactly(d)) == seq![a] + splitn_class(
            rest,
            (n - 1) as nat,
            CharClass::Exactly(d),
        ),
{
    let k = CharClass::Exactly(d);
    let s = a + seq![d] + rest;
    assert forall|m: int| 0 <= m < a.len() implies !in_class(#[trigger] s[m], k) by {
        assert(s[m] == a[m]);
        if a[m] == d {
            assert(a.contains(d));
        }
    }
    assert(s[a.len() as int] == d);
    lemma_find_class_first(s, k, 0, a.len() as int);
    assert(s.take(a.len() as int) =~= a);
    assert(s.skip(a.len() + 1 as int) =~= rest);
}

pub fn splitn(s: &Vec<char>, n: usize, k: CharClass) -> (r: Vec<Vec<char>>)
    ensures
        seq_views(r@) == splitn_class(s@, n as nat, k),
    decreases n,
{
    if n == 0 {
        let r: Vec<Vec<char>> = Vec::new();
        assert(seq_views(r@) =~= splitn_class(s@, n as nat, k));
        return r;
    }
    if n == 1 {
        let mut r: Vec<Vec<char>> = Vec::new();
        r.push(slice_of(s, 0, s.len()));
        assert(s@.subrange(0, s.len() as int) =~= s@);
        assert(seq_views(r@) =~= splitn_class(s@, n as nat, k));
        return r;
    }
    match find_class(s, k) {
        None => {
            let mut r: Vec<Vec<char>> = Vec::new();
            r.push(slice_of(s, 0, s.len()));
            assert(s@.subrange(0, s.len() as int) =~= s@);
            assert(seq_views(r@) =~= splitn_class(s@, n as nat, k));
            r
        },
        Some(i) => {
            let head = slice_of(s, 0, i);
            let rest = tail_of(s, i + 1);
            let tail = splitn(&rest, n - 1, k);
            let mut r: Vec<Vec<char>> = Vec::new();
            r.push(head);
            let mut j: usize = 0;
            while j < tail.len()
                invariant
                    j <= tail.len(),
                    r@.len() == j + 1,
                    seq_views(r@) == seq![s@.take(i as int)] + seq_views(tail@).take(j as int),
                decreases tail.len() - j,
            {
                let ghost before = seq_views(r@);
                let piece = slice_of(&tail[j], 0, tail[j].len());
                assert(seq_views(tail@)[j as int] == tail@[j as int]@);
                assert(piece@ =~= seq_views(tail@)[j as int]);
                let ghost pv = piece@;
                r.push(piece);
                assert(seq_views(r@) =~= before.push(pv));
                assert(seq_views(tail@).take(j + 1) =~= seq_views(tail@).take(j as int).push(pv));
                assert(seq_views(r@) =~= seq![s@.take(i as int)] + seq_views(tail@).take(j + 1));
                j += 1;
            }
            assert(seq_views(tail@).take(tail.len() as int) =~= seq_views(tail@));
            assert(s@.subrange(0, i as int) =~= s@.take(i as int));
            r
        },
    }
}

/// Pieces at most `n` between the occurrences of one character.
pub fn splitn_char(s: &Vec<char>, n: usize, d: char) -> (r: Vec<Vec<char>>)
    ensures
        seq_views(r@) == splitn_class(s@, n as nat, CharClass::Exactly(d)),
{
    splitn(s, n, CharClass::Exactly(d))
}

// ---------------------------------------------------------------------------
// Trimming
// ---------------------------------------------------------------------------
/// The number of leading characters of class `k`.
pub open spec fn lead_count(s: Seq<char>, k: CharClass) -> nat
    decreases s.len(),
{
    if s.len() > 0 && in_class(s[0], k) {
        1 + lead_count(s.drop_first(), k)
    } else {
        0
    }
}

/// The number of trailing characters of class `k`.
pub open spec fn trail_count(s: Seq<char>, k: CharClass) -> nat
    decreases s.len(),
{
    if s.len() > 0 && in_class(s.last(), k) {
        1 + trail_count(s.drop_last(), k)
    } else {
        0
    }
}

pub proof fn lemma_lead_count(s: Seq<char>, k: CharClass)
    ensures
        lead_count(s, k) <= s.len(),
    decreases s.len(),
{
    if s.len() > 0 && in_class(s[0], k) {
        lemma_lead_count(s.drop_first(), k);
    }
}

pub proof fn lemma_trail_count(s: Seq<char>, k: CharClass)
    ensures
        trail_count(s, k) <= s.len(),
    decreases s.len(),
{
    if s.len() > 0 && in_class(s.last(), k) {
        lemma_trail_count(s.drop_last(), k);
    }
}

/// `str::trim_start_matches` for a class (`trim_start` for white space).
pub open spec fn trim_start_class(s: Seq<char>, k: CharClass) -> Seq<char> {
    s.skip(lead_count(s, k) as int)
}

/// `str::trim_end_matches` for a class (`trim_end` for white space).
pub open spec fn trim_end_class(s: Seq<char>, k: CharClass) -> Seq<char> {
    s.take(s.len() - trail_count(s, k))
}

/// `str::trim_matches` for a class (`trim` for white space).
pub open spec fn trim_class(s: Seq<char>, k: CharClass) -> Seq<char> {
    trim_end_class(trim_start_class(s, k), k)
}

/// `str::trim`.
pub open spec fn trim_ws(s: Seq<char>) -> Seq<char> {
    trim_class(s, CharClass::Whitespace)
}

pub fn trim_start_by(s: &Vec<char>, k: CharClass) -> (r: Vec<char>)
    ensures
        r@ == trim_start_class(s@, k),
{
    let mut i: usize = 0;
    assert(s@.skip(0) =~= s@);
    while i < s.len() && class_has(s[i], k)
        invariant
            i <= s.len(),
            lead_count(s@, k) == i + lead_count(s@.skip(i as int), k),
        decreases s.len() - i,
    {
        assert(s@.skip(i as int).drop_first() =~= s@.skip(i + 1));
        i += 1;
    }
    assert(lead_count(s@.skip(i as int), k) == 0);
    tail_of(s, i)
}

pub fn trim_end_by(s: &Vec<char>, k: CharClass) -> (r: Vec<char>)
    ensures
        r@ == trim_end_class(s@, k),
{
    let mut j: usize = s.len();
    assert(s@.take(s.len() as int) =~= s@);
    while j > 0 && class_has(s[j - 1], k)
        invariant
            j <= s.len(),
            trail_count(s@, k) == (s.len() - j) + trail_count(s@.take(j as int), k),
        decreases j,
    {
        assert(s@.take(j as int).drop_last() =~= s@.take(j - 1));
        j -= 1;
    }
    assert(trail_count(s@.take(j as int), k) == 0);
    let r = slice_of(s, 0, j);
    assert(s@.subrange(0, j as int) =~= s@.take(j as int));
    r
}

pub fn trim_by(s: &Vec<char>, k: CharClass) -> (r: Vec<char>)
    ensures
        r@ == trim_class(s@, k),
{
    let a = trim_start_by(s, k);
    trim_end_by(&a, k)
}

/// `str::trim`.
pub fn trim(s: &Vec<char>) -> (r: Vec<char>)
    ensures
        r@ == trim_ws(s@),
{
    trim_by(s, CharClass::Whitespace)
}

/// `str::trim_start_matches` with a text pattern: every leading copy of
/// `p` removed.
pub open spec fn strip_all_prefix(s: Seq<char>, p: Seq<char>) -> Seq<char>
    decreases s.len(),
{
    if p.len() > 0 && has_prefix(s, p) {
        strip_all_prefix(s.skip(p.len() as int), p)
    } else {
        s
    }
}

pub fn trim_start_matches_str(s: &Vec<char>, p: &str) -> (r: Vec<char>)
    ensures
        r@ == strip_all_prefix(s@, p@),
{
    let pv = chars_of(p);
    let mut cur = slice_of(s, 0, s.len());
    assert(s@.subrange(0, s.len() as int) =~= s@);
    while pv.len() > 0 && starts_with(&cur, p)
        invariant
            pv@ == p@,
            strip_all_prefix(s@, p@) == strip_all_prefix(cur@, p@),
        decreases cur.len(),
    {
        cur = tail_of(&cur, pv.len());
    }
    cur
}

// ---------------------------------------------------------------------------
// Words
// ---------------------------------------------------------------------------
/// The non-empty pieces among `ps`, in order.
pub open spec fn nonempty_pieces(ps: Seq<Seq<char>>) -> Seq<Seq<char>>
    decreases ps.len(),
{
    if ps.len() == 0 {
        Seq::empty()
    } else {
        let prev = nonempty_pieces(ps.drop_last());
        if ps.last().len() > 0 {
            prev.push(ps.last())
        } else {
            prev
        }
    }
}

/// `str::split_whitespace`.
pub open spec fn words_of(s: Seq<char>) -> Seq<Seq<char>> {
    nonempty_pieces(split_class(s, CharClass::Whitespace))
}

pub fn keep_nonempty(ps: Vec<Vec<char>>) -> (r: Vec<Vec<char>>)
    ensures
        seq_views(r@) == nonempty_pieces(seq_views(ps@)),
{
    let ghost pv = seq_views(ps@);
    let mut out: Vec<Vec<char>> = Vec::new();
    let mut i: usize = 0;
    assert(pv.take(0) =~= Seq::<Seq<char>>::empty());
    while i < ps.len()
        invariant
            i <= ps.len(),
            pv == seq_views(ps@),
            seq_views(out@) == nonempty_pieces(pv.take(i as int)),
        decreases ps.len() - i,
    {
        assert(pv.take(i + 1).drop_last() =~= pv.take(i as int));
        assert(pv[i as int] == ps@[i as int]@);
        if ps[i].len() > 0 {
            let piece = slice_of(&ps[i], 0, ps[i].len());
            assert(piece@ =~= pv[i as int]);
            out.push(piece);
            assert(seq_views(out@) =~= nonempty_pieces(pv.take(i + 1)));
        }
        i += 1;
    }
    assert(pv.take(ps.len() as int) =~= pv);
    out
}

/// `str::split_whitespace`.
pub fn words(s: &Vec<char>) -> (r: Vec<Vec<char>>)
    ensures
        seq_views(r@) == words_of(s@),
{
    let ps = split_by(s, CharClass::Whitespace);
    keep_nonempty(ps)
}


// ---------------------------------------------------------------------------
// Comparison
// ---------------------------------------------------------------------------
/// Whether two character sequences are equal.
pub fn same_text(a: &Vec<char>, b: &Vec<char>) -> (r: bool)
    ensures
        r == (a@ == b@),
{
    if a.len() != b.len() {
        return false;
    }
    let mut i: usize = 0;
    while i < a.len()
        invariant
            a.len() == b.len(),
            i <= a.len(),
            a@.take(i as int) == b@.take(i as int),
        decreases a.len() - i,
    {
        if a[i] != b[i] {
            return false;
        }
        assert(a@.take(i + 1) =~= a@.take(i as int).push(a@[i as int]));
        assert(b@.take(i + 1) =~= b@.take(i as int).push(b@[i as int]));
        i += 1;
    }
    assert(a@.take(a.len() as int) =~= a@);
    assert(b@.take(b.len() as int) =~= b@);
    true
}

/// Whether a character sequence equals a literal.
pub fn is_lit(a: &Vec<char>, lit: &str) -> (r: bool)
    ensures
        r == (a@ == lit@),
{
    let b = chars_of(lit);
    same_text(a, &b)
}

/// Joins pieces with a separator (`[&str]::join`).
pub open spec fn join_with(ps: Seq<Seq<char>>, sep: Seq<char>) -> Seq<char>
    decreases ps.len(),
{
    if ps.len() == 0 {
        Seq::empty()
    } else if ps.len() == 1 {
        ps[0]
    } else {
        join_with(ps.drop_last(), sep) + sep + ps.last()
    }
}

pub fn join(ps: &Vec<Vec<char>>, lo: usize, sep: char) -> (r: Vec<char>)
    requires
        lo <= ps.len(),
    ensures
        r@ == join_with(seq_views(ps@).skip(lo as int), seq![sep]),
{
    let ghost pv = seq_views(ps@);
    let mut out: Vec<char> = Vec::new();
    let mut i: usize = lo;
    assert(pv.subrange(lo as int, lo as int) =~= Seq::<Seq<char>>::empty());
    while i < ps.len()
        invariant
            lo <= i <= ps.len(),
            pv == seq_views(ps@),
            out@ == join_with(pv.subrange(lo as int, i as int), seq![sep]),
        decreases ps.len() - i,
    {
        let ghost before = pv.subrange(lo as int, i as int);
        let ghost after = pv.subrange(lo as int, i + 1);
        assert(after.drop_last() =~= before);
        assert(pv[i as int] == ps@[i as int]@);
        if i > lo {
            out.push(sep);
        }
        let mut j: usize = 0;
        let ghost base = out@;
        while j < ps[i].len()
            invariant
                i < ps.len(),
                j <= ps[i as int].len(),
                out@ == base + ps@[i as int]@.take(j as int),
            decreases ps[i as int].len() - j,
        {
            out.push(ps[i][j]);
            assert(ps@[i as int]@.take(j + 1) =~= ps@[i as int]@.take(j as int).push(ps@[i as int]@[j as int]));
            assert(out@ =~= base + ps@[i as int]@.take(j + 1));
            j += 1;
        }
        assert(ps@[i as int]@.take(ps[i as int].len() as int) =~= ps@[i as int]@);
        if i > lo {
            assert(out@ =~= join_with(after, seq![sep]));
        } else {
            assert(after.len() == 1);
            assert(out@ =~= join_with(after, seq![sep]));
        }
        i += 1;
    }
    assert(pv.subrange(lo as int, ps.len() as int) =~= pv.skip(lo as int));
    out
}

/// Joining pieces that do not hold `c` with a separator other than `c`
/// gives a text without `c`.
pub proof fn lemma_join_avoids(ps: Seq<Seq<char>>, d: char, c: char)
    requires
        d != c,
        forall|i: int| 0 <= i < ps.len() ==> !(#[trigger] ps[i]).contains(c),
    ensures
        !join_with(ps, seq![d]).contains(c),
    decreases ps.len(),
{
    if ps.len() == 1 {
        assert(!ps[0].contains(c));
    } else if ps.len() > 1 {
        let init = ps.drop_last();
        assert forall|i: int| 0 <= i < init.len() implies !(#[trigger] init[i]).contains(c) by {
            assert(init[i] == ps[i]);
        }
        lemma_join_avoids(init, d, c);
        let j = join_with(init, seq![d]);
        let last = ps.last();
        assert(!ps[ps.len() - 1].contains(c));
        let r = j + seq![d] + last;
        assert(join_with(ps, seq![d]) == r);
        if r.contains(c) {
            let m = choose|m: int| 0 <= m < r.len() && r[m] == c;
            if m < j.len() {
                assert(j[m] == c);
                assert(j.contains(c));
            } else if m > j.len() {
                assert(last[m - j.len() - 1] == c);
                assert(last.contains(c));
            }
        }
    }
}

/// A text that neither starts nor ends with a character of class `k` is
/// its own trim.
pub proof fn lemma_trim_class_ends(s: Seq<char>, k: CharClass)
    requires
        s.len() > 0,
        !in_class(s[0], k),
        !in_class(s[s.len() - 1], k),
    ensures
        trim_class(s, k) == s,
{
    assert(lead_count(s, k) == 0);
    assert(s.skip(0) =~= s);
    assert(trail_count(s, k) == 0);
    assert(s.take(s.len() as int) =~= s);
}

/// A join of non-empty pieces starts with the first piece's first
/// character and ends with the last piece's last character.
pub proof fn lemma_join_ends(ps: Seq<Seq<char>>, d: char)
    requires
        ps.len() > 0,
        forall|i: int| 0 <= i < ps.len() ==> (#[trigger] ps[i]).len() > 0,
    ensures
        join_with(ps, seq![d]).len() > 0,
        join_with(ps, seq![d])[0] == ps[0][0],
        join_with(ps, seq![d])[join_with(ps, seq![d]).len() - 1] == ps[ps.len() - 1][ps[ps.len()
            - 1].len() - 1],
    decreases ps.len(),
{
    assert(ps[0].len() > 0);
    assert(ps[ps.len() - 1].len() > 0);
    if ps.len() > 1 {
        let init = ps.drop_last();
        assert forall|i: int| 0 <= i < init.len() implies (#[trigger] init[i]).len() > 0 by {
            assert(init[i] == ps[i]);
        }
        lemma_join_ends(init, d);
        assert(init[0] == ps[0]);
    }
}

/// A line without newline or carriage return, ended by a newline, is the
/// one line of its text.
pub proof fn lemma_single_line(l: Seq<char>)
    requires
        !l.contains('\n'),
        !l.contains('\r'),
    ensures
        lines_of(l + seq!['\n']) == seq![l],
{
    lemma_lines_append(Seq::<char>::empty(), l);
    assert(Seq::<char>::empty() + l + seq!['\n'] =~= l + seq!['\n']);
    assert(lines_of(Seq::<char>::empty()) =~= Seq::<Seq<char>>::empty());
    if l.len() > 0 && l.last() == '\r' {
        assert(l.contains('\r'));
    }
    assert(strip_cr(l) == l);
    assert(Seq::<Seq<char>>::empty().push(l) =~= seq![l]);
}

/// A text without characters of class `k` is its own trim.
pub proof fn lemma_trim_class_none(s: Seq<char>, k: CharClass)
    requires
        forall|m: int| 0 <= m < s.len() ==> !in_class(#[trigger] s[m], k),
    ensures
        trim_class(s, k) == s,
{
    if s.len() > 0 {
        assert(!in_class(s[0], k));
        assert(!in_class(s[s.len() - 1], k));
    }
    assert(lead_count(s, k) == 0);
    assert(s.skip(0) =~= s);
    assert(trail_count(s, k) == 0);
    assert(s.take(s.len() as int) =~= s);
}

/// Joining pieces with a separator `d` of class `k`, where no piece holds a
/// character of that class, then splitting on the class gives the pieces
/// back.
pub proof fn lemma_split_class_join(ps: Seq<Seq<char>>, d: char, k: CharClass)
    requires
        ps.len() >= 1,
        in_class(d, k),
        forall|i: int, m: int|
            0 <= i < ps.len() && 0 <= m < ps[i].len() ==> !in_class(#[trigger] ps[i][m], k),
    ensures
        split_class(join_with(ps, seq![d]), k) == ps,
    decreases ps.len(),
{
    let last = ps.last();
    assert forall|m: int| 0 <= m < last.len() implies !in_class(#[trigger] last[m], k) by {
        assert(last[m] == ps[ps.len() - 1][m]);
    }
    lemma_split_class_none(last, k);
    if ps.len() == 1 {
        assert(ps =~= seq![last]);
    } else {
        let init = ps.drop_last();
        assert forall|i: int, m: int| 0 <= i < init.len() && 0 <= m < init[i].len() implies !in_class(
            #[trigger] init[i][m],
            k,
        ) by {
            assert(init[i] == ps[i]);
        }
        lemma_split_class_join(init, d, k);
        let j = join_with(init, seq![d]);
        let s = j + seq![d];
        assert(s.drop_last() =~= j);
        assert(s.last() == d);
        assert(split_class(s, k) == split_class(j, k).push(Seq::<char>::empty()));
        lemma_split_class_concat(s, last, k);
        assert(join_with(ps, seq![d]) == s + last);
        assert(init.push(Seq::<char>::empty()).drop_last() + seq![last] =~= ps);
    }
}

/// Joining pieces with a one-character separator that none of them holds,
/// then splitting on that character, gives the pieces back.
pub proof fn lemma_split_join(ps: Seq<Seq<char>>, d: char)
    requires
        ps.len() >= 1,
        forall|i: int| 0 <= i < ps.len() ==> !(#[trigger] ps[i]).contains(d),
    ensures
        split_on(join_with(ps, seq![d]), d) == ps,
{
    let k = CharClass::Exactly(d);
    assert forall|i: int, m: int| 0 <= i < ps.len() && 0 <= m < ps[i].len() implies !in_class(
        #[trigger] ps[i][m],
        k,
    ) by {
        if ps[i][m] == d {
            assert(ps[i].contains(d));
        }
    }
    lemma_split_class_join(ps, d, k);
}

/// Non-empty words without white space, joined by single spaces, read back
/// as those words.
pub proof fn lemma_words_join(ps: Seq<Seq<char>>)
    requires
        ps.len() >= 1,
        forall|i: int| 0 <= i < ps.len() ==> (#[trigger] ps[i]).len() > 0,
        forall|i: int, m: int| 0 <= i < ps.len() && 0 <= m < ps[i].len() ==> !is_ws(#[trigger] ps[i][m]),
    ensures
        words_of(join_with(ps, seq![' '])) == ps,
{
    lemma_split_class_join(ps, ' ', CharClass::Whitespace);
    lemma_nonempty_all(ps);
}

proof fn lemma_nonempty_all(ps: Seq<Seq<char>>)
    requires
        forall|i: int| 0 <= i < ps.len() ==> (#[trigger] ps[i]).len() > 0,
    ensures
        nonempty_pieces(ps) == ps,
    decreases ps.len(),
{
    if ps.len() > 0 {
        let init = ps.drop_last();
        assert forall|i: int| 0 <= i < init.len() implies (#[trigger] init[i]).len() > 0 by {
            assert(init[i] == ps[i]);
        }
        lemma_nonempty_all(init);
        assert(ps[ps.len() - 1].len() > 0);
        assert(init.push(ps.last()) =~= ps);
    }
}

// ---------------------------------------------------------------------------
// Numbers
// ---------------------------------------------------------------------------
pub open spec fn is_digit(c: char) -> bool {
    '0' <= c && c <= '9'
}

pub open spec fn digit_value(c: char) -> nat {
    (c as int - '0' as int) as nat
}

pub open spec fn all_digits(s: Seq<char>) -> bool {
    forall|i: int| 0 <= i < s.len() ==> is_digit(#[trigger] s[i])
}

/// The value of a string of decimal digits.
pub open spec fn digits_value(s: Seq<char>) -> nat
    decreases s.len(),
{
    if s.len() == 0 {
        0
    } else {
        digits_value(s.drop_last()) * 10 + digit_value(s.last())
    }
}

/// The digits after an optional leading `+`, as the `FromStr` impls of the
/// unsigned integer types read them; `None` unless there is at least one
/// digit and nothing but digits.
pub open spec fn unsigned_value(s: Seq<char>) -> Option<nat> {
    let t = if s.len() > 0 && s[0] == '+' {
        s.drop_first()
    } else {
        s
    };
    if t.len() > 0 && all_digits(t) {
        Some(digits_value(t))
    } else {
        None
    }
}

/// The value `FromStr` gives an unsigned integer type whose maximum is `max`.
pub open spec fn parse_unsigned_spec(s: Seq<char>, max: nat) -> Option<nat> {
    match unsigned_value(s) {
        Some(v) => if v <= max {
            Some(v)
        } else {
            None
        },
        None => None,
    }
}

/// `str::parse::<u32>`.
pub open spec fn parse_u32_spec(s: Seq<char>) -> Option<u32> {
    match parse_unsigned_spec(s, u32::MAX as nat) {
        Some(v) => Some(v as u32),
        None => None,
    }
}

/// `str::parse::<u64>`.
pub open spec fn parse_u64_spec(s: Seq<char>) -> Option<u64> {
    match parse_unsigned_spec(s, u64::MAX as nat) {
        Some(v) => Some(v as u64),
        None => None,
    }
}

/// `str::parse::<usize>`.
pub open spec fn parse_usize_spec(s: Seq<char>) -> Option<usize> {
    match parse_unsigned_spec(s, usize::MAX as nat) {
        Some(v) => Some(v as usize),
        None => None,
    }
}

/// `str::parse::<i64>`: an optional sign, then at least one digit and
/// nothing but digits, within the range of `i64`.
pub open spec fn parse_i64_spec(s: Seq<char>) -> Option<i64> {
    let neg = s.len() > 0 && s[0] == '-';
    let t = if s.len() > 0 && (s[0] == '+' || s[0] == '-') {
        s.drop_first()
    } else {
        s
    };
    if t.len() > 0 && all_digits(t) {
        let v: int = if neg {
            -digits_value(t)
        } else {
            digits_value(t) as int
        };
        if i64::MIN <= v && v <= i64::MAX {
            Some(v as i64)
        } else {
            None
        }
    } else {
        None
    }
}

pub proof fn lemma_digits_value_grows(s: Seq<char>, k: int)
    requires
        0 <= k <= s.len(),
    ensures
        digits_value(s.take(k)) <= digits_value(s),
    decreases s.len() - k,
{
    if k < s.len() {
        lemma_digits_value_grows(s, k + 1);
        assert(s.take(k + 1).drop_last() =~= s.take(k));
    } else {
        assert(s.take(k) =~= s);
    }
}

/// Reads the digits of `s[lo..]`; `None` if one is not a digit, if there are
/// none, or if the value exceeds `max`.
fn digits_upto(s: &Vec<char>, lo: usize, max: u64) -> (r: Option<u64>)
    requires
        lo <= s.len(),
    ensures
        r matches Some(v) ==> s@.skip(lo as int).len() > 0 && all_digits(s@.skip(lo as int))
            && digits_value(s@.skip(lo as int)) == v && v <= max,
        r is None ==> !(s@.skip(lo as int).len() > 0 && all_digits(s@.skip(lo as int))
            && digits_value(s@.skip(lo as int)) <= max),
{
    let ghost t = s@.skip(lo as int);
    if lo == s.len() {
        return None;
    }
    let mut acc: u64 = 0;
    let mut i: usize = lo;
    assert(t.take(0) =~= Seq::<char>::empty());
    while i < s.len()
        invariant
            lo <= i <= s.len(),
            t == s@.skip(lo as int),
            all_digits(t.take(i - lo)),
            acc == digits_value(t.take(i - lo)),
            acc <= max,
        decreases s.len() - i,
    {
        let c = s[i];
        assert(t[i - lo] == c);
        if !('0' <= c && c <= '9') {
            assert(!all_digits(t));
            return None;
        }
        let d = (c as u32 - '0' as u32) as u64;
        assert(t.take(i + 1 - lo).drop_last() =~= t.take(i - lo));
        assert(digits_value(t.take(i + 1 - lo)) == acc * 10 + d);
        if d > max || acc > (max - d) / 10 {
            assert(acc * 10 + d > max) by (nonlinear_arith)
                requires
                    d > max || acc > (max - d) / 10,
                    d <= max ==> (max - d) / 10 * 10 + 10 > max - d,
            {
            }
            proof {
                lemma_digits_value_grows(t, i + 1 - lo);
            }
            return None;
        }
        assert(acc * 10 + d <= max) by (nonlinear_arith)
            requires
                acc <= (max - d) / 10,
                d <= max,
        {
        }
        acc = acc * 10 + d;
        assert(all_digits(t.take(i + 1 - lo)));
        i += 1;
    }
    assert(t.take(s.len() - lo) =~= t);
    Some(acc)
}

/// Reads an unsigned integer no greater than `max` the way `FromStr` does.
pub fn parse_unsigned(s: &Vec<char>, max: u64) -> (r: Option<u64>)
    ensures
        r matches Some(v) ==> parse_unsigned_spec(s@, max as nat) == Some(v as nat),
        r is None ==> parse_unsigned_spec(s@, max as nat) is None,
{
    let lo: usize = if s.len() > 0 && s[0] == '+' {
        1
    } else {
        0
    };
    assert(s@.skip(lo as int) =~= (if s@.len() > 0 && s@[0] == '+' {
        s@.drop_first()
    } else {
        s@
    }));
    digits_upto(s, lo, max)
}

/// `str::parse::<u32>`.
pub fn parse_u32(s: &Vec<char>) -> (r: Option<u32>)
    ensures
        r == parse_u32_spec(s@),
{
    match parse_unsigned(s, 0xffff_ffff) {
        Some(v) => Some(v as u32),
        None => None,
    }
}

/// `str::parse::<u64>`.
pub fn parse_u64(s: &Vec<char>) -> (r: Option<u64>)
    ensures
        r == parse_u64_spec(s@),
{
    parse_unsigned(s, 0xffff_ffff_ffff_ffff)
}

/// `str::parse::<usize>`.
pub fn parse_usize(s: &Vec<char>) -> (r: Option<usize>)
    ensures
        r == parse_usize_spec(s@),
{
    match parse_unsigned(s, usize::MAX as u64) {
        Some(v) => Some(v as usize),
        None => None,
    }
}

/// `str::parse::<i64>`.
pub fn parse_i64(s: &Vec<char>) -> (r: Option<i64>)
    ensures
        r == parse_i64_spec(s@),
{
    let signed = s.len() > 0 && (s[0] == '+' || s[0] == '-');
    let neg = s.len() > 0 && s[0] == '-';
    let lo: usize = if signed {
        1
    } else {
        0
    };
    let ghost t = s@.skip(lo as int);
    assert(t =~= (if s@.len() > 0 && (s@[0] == '+' || s@[0] == '-') {
        s@.drop_first()
    } else {
        s@
    }));
    let limit: u64 = if neg {
        0x8000_0000_0000_0000
    } else {
        0x7fff_ffff_ffff_ffff
    };
    match digits_upto(s, lo, limit) {
        Some(v) => {
            if neg {
                if v == 0x8000_0000_0000_0000 {
                    Some(i64::MIN)
                } else {
                    Some(-(v as i64))
                }
            } else {
                Some(v as i64)
            }
        },
        None => {
            proof {
                if t.len() > 0 && all_digits(t) {
                    assert(digits_value(t) > limit);
                }
            }
            None
        },
    }
}

/// The decimal digit for `d < 10`.
pub open spec fn digit_char(d: nat) -> char {
    if d == 0 { '0' } else if d == 1 { '1' } else if d == 2 { '2' } else if d == 3 { '3' }
    else if d == 4 { '4' } else if d == 5 { '5' } else if d == 6 { '6' } else if d == 7 { '7' }
    else if d == 8 { '8' } else { '9' }
}

/// The decimal representation of `n`, without leading zeros.
pub open spec fn decimal(n: nat) -> Seq<char>
    decreases n,
{
    if n < 10 {
        seq![digit_char(n)]
    } else {
        decimal(n / 10).push(digit_char(n % 10))
    }
}

proof fn lemma_digit_char(d: nat)
    requires
        d < 10,
    ensures
        is_digit(digit_char(d)),
        digit_value(digit_char(d)) == d,
{
}

/// The decimal representation of `n` is a non-empty run of digits whose
/// value is `n`.
pub proof fn lemma_decimal_digits(n: nat)
    ensures
        decimal(n).len() > 0,
        all_digits(decimal(n)),
        digits_value(decimal(n)) == n,
    decreases n,
{
    if n < 10 {
        lemma_digit_char(n);
        let d = decimal(n);
        assert(d.drop_last() =~= Seq::<char>::empty());
        assert(d.last() == digit_char(n));
        assert(digits_value(d) == digits_value(d.drop_last()) * 10 + digit_value(d.last()));
    } else {
        lemma_digit_char(n % 10);
        lemma_decimal_digits(n / 10);
        let d = decimal(n);
        assert(d.drop_last() =~= decimal(n / 10));
        assert(d.last() == digit_char(n % 10));
        assert(digits_value(d) == digits_value(decimal(n / 10)) * 10 + digit_value(d.last()));
        assert(digits_value(d) == (n / 10) * 10 + n % 10);
        assert forall|i: int| 0 <= i < d.len() implies is_digit(#[trigger] d[i]) by {
            if i < d.len() - 1 {
                assert(d[i] == decimal(n / 10)[i]);
            }
        }
    }
}

/// Reading back the decimal representation of `n` gives `n`, within the
/// bound of the integer type.
pub proof fn lemma_parse_decimal(n: nat, max: nat)
    requires
        n <= max,
    ensures
        parse_unsigned_spec(decimal(n), max) == Some(n),
{
    lemma_decimal_digits(n);
    assert(is_digit(decimal(n)[0]));
}

fn digit_char_exec(d: u64) -> (c: char)
    requires
        d < 10,
    ensures
        c == digit_char(d as nat),
{
    if d == 0 { '0' } else if d == 1 { '1' } else if d == 2 { '2' } else if d == 3 { '3' }
    else if d == 4 { '4' } else if d == 5 { '5' } else if d == 6 { '6' } else if d == 7 { '7' }
    else if d == 8 { '8' } else { '9' }
}

/// The decimal representation of a number (`u64::to_string`).
pub fn decimal_text(n: u64) -> (r: String)
    ensures
        r@ == decimal(n as nat),
    decreases n,
{
    if n < 10 {
        let mut s = String::new();
        push_char(&mut s, digit_char_exec(n));
        assert(s@ =~= decimal(n as nat));
        s
    } else {
        let mut s = decimal_text(n / 10);
        push_char(&mut s, digit_char_exec(n % 10));
        s
    }
}

/// `str::to_ascii_lowercase`.
pub open spec fn ascii_lower(c: char) -> char {
    if 'A' <= c && c <= 'Z' {
        ((c as u8) + 32) as char
    } else {
        c
    }
}

pub open spec fn lower_text(s: Seq<char>) -> Seq<char> {
    s.map_values(|c: char| ascii_lower(c))
}

pub fn to_ascii_lowercase(s: &Vec<char>) -> (r: Vec<char>)
    ensures
        r@ == lower_text(s@),
{
    let mut r: Vec<char> = Vec::new();
    let mut i: usize = 0;
    while i < s.len()
        invariant
            i <= s.len(),
            r@ == lower_text(s@.take(i as int)),
        decreases s.len() - i,
    {
        let c = s[i];
        let l = if 'A' <= c && c <= 'Z' {
            ((c as u8) + 32) as char
        } else {
            c
        };
        r.push(l);
        assert(lower_text(s@.take(i + 1)) =~= lower_text(s@.take(i as int)).push(ascii_lower(c)));
        i += 1;
    }
    assert(s@.take(s.len() as int) =~= s@);
    r
}

/// `char::is_ascii_hexdigit`.
pub open spec fn is_hex(c: char) -> bool {
    ('0' <= c && c <= '9') || ('a' <= c && c <= 'f') || ('A' <= c && c <= 'F')
}

pub fn all_hex(s: &Vec<char>) -> (r: bool)
    ensures
        r == (forall|i: int| 0 <= i < s@.len() ==> is_hex(#[trigger] s@[i])),
{
    let mut i: usize = 0;
    while i < s.len()
        invariant
            i <= s.len(),
            forall|j: int| 0 <= j < i ==> is_hex(#[trigger] s@[j]),
        decreases s.len() - i,
    {
        let c = s[i];
        if !(('0' <= c && c <= '9') || ('a' <= c && c <= 'f') || ('A' <= c && c <= 'F')) {
            return false;
        }
        i += 1;
    }
    true
}

} // verus!
