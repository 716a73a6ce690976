//! Parser for `git notes list`.
//!
//! `git notes list` emits one `<note-object-sha> <annotated-object-sha>` pair
//! per line. This parser turns that into `(note_sha, object_sha)` tuples. It
//! is permissive: blank lines are skipped and lines without a second field
//! are ignored rather than erroring.
use vstd::prelude::*;

use crate::text::{
    chars_of, is_ws, join_with, lemma_join_avoids, lemma_lines_append, lemma_words_join, lines,
    lines_of, seq_views, strip_cr, text_of, words, words_of,
};

verus! {

/// The `(note, object)` pairs of the lines `ls` from line `i` on, after
/// those in `acc`: the first two words of each line that has two.
pub open spec fn notes_from(
    ls: Seq<Seq<char>>,
    i: int,
    acc: Seq<(Seq<char>, Seq<char>)>,
) -> Seq<(Seq<char>, Seq<char>)>
    decreases ls.len() - i,
{
    if i < 0 || i >= ls.len() {
        acc
    } else {
        let w = words_of(ls[i]);
        if w.len() >= 2 {
            notes_from(ls, i + 1, acc.push((w[0], w[1])))
        } else {
            notes_from(ls, i + 1, acc)
        }
    }
}

/// What `git notes list` output `s` parses to.
pub open spec fn notes_spec(s: Seq<char>) -> Seq<(Seq<char>, Seq<char>)> {
    notes_from(lines_of(s), 0, Seq::empty())
}

/// A line `<note> <object>` of two words without white space reads as the
/// pair of the note's SHA first and the annotated object's SHA second.
pub proof fn lemma_notes_line(note: Seq<char>, object: Seq<char>)
    requires
        note.len() > 0,
        object.len() > 0,
        forall|m: int| 0 <= m < note.len() ==> !is_ws(#[trigger] note[m]),
        forall|m: int| 0 <= m < object.len() ==> !is_ws(#[trigger] object[m]),
    ensures
        notes_spec(note + seq![' '] + object + seq!['\n']) == seq![(note, object)],
{
    let ps = seq![note, object];
    assert(ps.drop_last() =~= seq![note]);
    assert(join_with(seq![note], seq![' ']) == note);
    let l = join_with(ps, seq![' ']);
    assert(l == note + seq![' '] + object);
    assert forall|i: int| 0 <= i < ps.len() implies (#[trigger] ps[i]).len() > 0 by {}
    assert forall|i: int, m: int| 0 <= i < ps.len() && 0 <= m < ps[i].len() implies !is_ws(
        #[trigger] ps[i][m],
    ) by {}
    assert forall|i: int| 0 <= i < ps.len() implies !(#[trigger] ps[i]).contains('\n') by {
        if ps[i].contains('\n') {
            let m = choose|m: int| 0 <= m < ps[i].len() && ps[i][m] == '\n';
            assert(!is_ws(ps[i][m]));
        }
    }
    lemma_words_join(ps);
    lemma_join_avoids(ps, ' ', '\n');
    lemma_lines_append(Seq::<char>::empty(), l);
    assert(Seq::<char>::empty() + l + seq!['\n'] =~= note + seq![' '] + object + seq!['\n']);
    assert(l.last() == object[object.len() - 1]);
    assert(!is_ws(object[object.len() - 1]));
    assert(strip_cr(l) == l);
    assert(lines_of(Seq::<char>::empty()) =~= Seq::<Seq<char>>::empty());
    let ls = lines_of(note + seq![' '] + object + seq!['\n']);
    assert(ls =~= seq![l]);
    assert(Seq::<(Seq<char>, Seq<char>)>::empty().push((note, object)) =~= seq![(note, object)]);
    assert(notes_from(ls, 0, Seq::empty()) == notes_from(ls, 1, seq![(note, object)]));
}

/// The view of a list of text pairs.
pub open spec fn pairs_view(v: Seq<(String, String)>) -> Seq<(Seq<char>, Seq<char>)> {
    v.map_values(|p: (String, String)| (p.0@, p.1@))
}

/// Parse the output of `git notes list` into `(note_sha, object_sha)` pairs.
pub fn parse_notes_list(input: &str) -> (r: Vec<(String, String)>)
    ensures
        pairs_view(r@) == notes_spec(input@),
{
    let s = chars_of(input);
    let ls = lines(&s);
    let ghost lv = seq_views(ls@);
    let mut out: Vec<(String, String)> = Vec::new();
    let mut i: usize = 0;
    assert(pairs_view(out@) =~= Seq::<(Seq<char>, Seq<char>)>::empty());
    while i < ls.len()
        invariant
            lv == seq_views(ls@),
            lv == lines_of(input@),
            notes_spec(input@) == notes_from(lv, i as int, pairs_view(out@)),
        decreases ls.len() - i,
    {
        assert(lv[i as int] == ls@[i as int]@);
        let w = words(&ls[i]);
        if w.len() >= 2 {
            assert(seq_views(w@)[0] == w@[0]@ && seq_views(w@)[1] == w@[1]@);
            let ghost acc = pairs_view(out@);
            let p = (text_of(&w[0]), text_of(&w[1]));
            let ghost pv = (p.0@, p.1@);
            out.push(p);
            assert(pairs_view(out@) =~= acc.push(pv));
        }
        i += 1;
    }
    out
}

} // verus!
