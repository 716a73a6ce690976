//! Parser for `git count-objects`.
//!
//! The command has two output shapes. `-v` prints one `<key>: <value>` line per
//! statistic and is what [`parse_count_objects`] reads; the default form prints
//! a single `<n> objects, <size>` summary, which [`parse_count_objects_terse`]
//! reads instead.
//!
//! Sizes are the one wrinkle. Without `--human-readable` git prints them as
//! bare kibibyte counts (`size: 20`); with it, as rendered text
//! (`size: 20.00 KiB`, `size-pack: 0 bytes`). Both are kept: [`ObjectSize`]
//! carries git's text and, for the bare form, the numeric value.
use vstd::prelude::*;

use crate::text::{
    find_str, lemma_find_drop_last, lemma_find_from_bounds, lemma_lines_append, strip_cr,
    chars_of, is_lit, lines, lines_of, opt_view, parse_u64, parse_u64_spec, seq_views, split_once,
    split_once_spec, strip_suffix, strip_suffix_spec, text_of, trim, trim_ws,
};

verus! {

/// A size reported by `git count-objects`.
///
/// [`kib`](Self::kib) is `Some` only for the bare-integer form git prints
/// without `--human-readable`; under `--human-readable` the value is rendered
/// text and only [`raw`](Self::raw) is meaningful.
#[derive(Debug, Clone, PartialEq, Eq)]
pub struct ObjectSize {
    /// The size in kibibytes, when git printed a bare number.
    pub kib: Option<u64>,
    /// The value as git printed it: `20`, `20.00 KiB`, or `0 bytes`.
    pub raw: String,
}

/// The abstract contents of an [`ObjectSize`].
pub struct ObjectSizeView {
    pub kib: Option<u64>,
    pub raw: Seq<char>,
}

impl View for ObjectSize {
    type V = ObjectSizeView;

    open spec fn view(&self) -> ObjectSizeView {
        ObjectSizeView { kib: self.kib, raw: self.raw@ }
    }
}

/// The size a value text stands for: its number when it is a bare `u64`.
pub open spec fn object_size_of(raw: Seq<char>) -> ObjectSizeView {
    ObjectSizeView { kib: parse_u64_spec(raw), raw }
}

impl ObjectSize {
    /// Parse one size value, keeping the text either way.
    fn new(raw: &Vec<char>) -> (r: Self)
        ensures
            r@ == object_size_of(raw@),
    {
        ObjectSize { kib: parse_u64(raw), raw: text_of(raw) }
    }
}

/// Statistics from `git count-objects -v`.
///
/// Loose objects are counted by [`count`](Self::count) and packed ones by
/// [`in_pack`](Self::in_pack); the two are disjoint, so a repository's object
/// total is their sum.
#[derive(Debug, Clone, PartialEq, Eq)]
pub struct CountObjects {
    /// `count`: loose objects.
    pub count: u64,
    /// `size`: disk space the loose objects occupy.
    pub size: ObjectSize,
    /// `in-pack`: objects stored in packs.
    pub in_pack: u64,
    /// `packs`: pack files present.
    pub packs: u64,
    /// `size-pack`: disk space the packs occupy.
    pub size_pack: ObjectSize,
    /// `prune-packable`: loose objects that are also in a pack, so
    /// `git prune-packed` can drop them.
    pub prune_packable: u64,
    /// `garbage`: files in the object store that are neither loose objects nor
    /// packs.
    pub garbage: u64,
    /// `size-garbage`: disk space those garbage files occupy.
    pub size_garbage: ObjectSize,
}

/// The abstract contents of a [`CountObjects`].
pub struct CountObjectsView {
    pub count: u64,
    pub size: ObjectSizeView,
    pub in_pack: u64,
    pub packs: u64,
    pub size_pack: ObjectSizeView,
    pub prune_packable: u64,
    pub garbage: u64,
    pub size_garbage: ObjectSizeView,
}

impl View for CountObjects {
    type V = CountObjectsView;

    open spec fn view(&self) -> CountObjectsView {
        CountObjectsView {
            count: self.count,
            size: self.size@,
            in_pack: self.in_pack,
            packs: self.packs,
            size_pack: self.size_pack@,
            prune_packable: self.prune_packable,
            garbage: self.garbage,
            size_garbage: self.size_garbage@,
        }
    }
}

/// The statistics read so far; each is `None` until a line names it, and a
/// later line naming it again replaces the earlier value.
pub struct CountState {
    pub count: Option<u64>,
    pub size: Option<ObjectSizeView>,
    pub in_pack: Option<u64>,
    pub packs: Option<u64>,
    pub size_pack: Option<ObjectSizeView>,
    pub prune_packable: Option<u64>,
    pub garbage: Option<u64>,
    pub size_garbage: Option<ObjectSizeView>,
}

/// Nothing read yet.
pub open spec fn no_counts() -> CountState {
    CountState {
        count: None,
        size: None,
        in_pack: None,
        packs: None,
        size_pack: None,
        prune_packable: None,
        garbage: None,
        size_garbage: None,
    }
}

/// The statistics after reading one line: a `<key>: <value>` line with a
/// known key sets that statistic (a count that is not a `u64` sets it to
/// `None`); any other line changes nothing.
pub open spec fn count_step(st: CountState, line: Seq<char>) -> CountState {
    match split_once_spec(line, ":"@) {
        None => st,
        Some((k, v)) => {
            let key = trim_ws(k);
            let value = trim_ws(v);
            if key == "count"@ {
                CountState { count: parse_u64_spec(value), ..st }
            } else if key == "size"@ {
                CountState { size: Some(object_size_of(value)), ..st }
            } else if key == "in-pack"@ {
                CountState { in_pack: parse_u64_spec(value), ..st }
            } else if key == "packs"@ {
                CountState { packs: parse_u64_spec(value), ..st }
            } else if key == "size-pack"@ {
                CountState { size_pack: Some(object_size_of(value)), ..st }
            } else if key == "prune-packable"@ {
                CountState { prune_packable: parse_u64_spec(value), ..st }
            } else if key == "garbage"@ {
                CountState { garbage: parse_u64_spec(value), ..st }
            } else if key == "size-garbage"@ {
                CountState { size_garbage: Some(object_size_of(value)), ..st }
            } else {
                st
            }
        },
    }
}

/// The statistics after reading the lines `ls` from line `i` on.
pub open spec fn count_from(ls: Seq<Seq<char>>, i: int, st: CountState) -> CountState
    decreases ls.len() - i,
{
    if i < 0 || i >= ls.len() {
        st
    } else {
        count_from(ls, i + 1, count_step(st, ls[i]))
    }
}

/// What `git count-objects -v` output `s` parses to: all eight statistics,
/// or `None` when one is missing.
pub open spec fn count_objects_spec(s: Seq<char>) -> Option<CountObjectsView> {
    let st = count_from(lines_of(s), 0, no_counts());
    if st.count is Some && st.size is Some && st.in_pack is Some && st.packs is Some
        && st.size_pack is Some && st.prune_packable is Some && st.garbage is Some
        && st.size_garbage is Some {
        Some(
            CountObjectsView {
                count: st.count->0,
                size: st.size->0,
                in_pack: st.in_pack->0,
                packs: st.packs->0,
                size_pack: st.size_pack->0,
                prune_packable: st.prune_packable->0,
                garbage: st.garbage->0,
                size_garbage: st.size_garbage->0,
            },
        )
    } else {
        None
    }
}

/// The statistic a `<key>: <value>` line names, trimmed, if it has a colon.
pub open spec fn line_key(line: Seq<char>) -> Option<Seq<char>> {
    match split_once_spec(line, ":"@) {
        Some((k, _)) => Some(trim_ws(k)),
        None => None,
    }
}

/// The trimmed value of a `<key>: <value>` line.
pub open spec fn line_value(line: Seq<char>) -> Seq<char> {
    match split_once_spec(line, ":"@) {
        Some((_, v)) => trim_ws(v),
        None => Seq::empty(),
    }
}

/// The value on the last of the lines `ls` that names `key`.
pub open spec fn last_value(ls: Seq<Seq<char>>, key: Seq<char>) -> Option<Seq<char>>
    decreases ls.len(),
{
    if ls.len() == 0 {
        None
    } else if line_key(ls.last()) == Some(key) {
        Some(line_value(ls.last()))
    } else {
        last_value(ls.drop_last(), key)
    }
}

/// A counter read from its last line: the number, when it parses.
pub open spec fn counter_of(v: Option<Seq<char>>) -> Option<u64> {
    match v {
        Some(t) => parse_u64_spec(t),
        None => None,
    }
}

/// A size read from its last line.
pub open spec fn size_of(v: Option<Seq<char>>) -> Option<ObjectSizeView> {
    match v {
        Some(t) => Some(object_size_of(t)),
        None => None,
    }
}

/// The statistics the lines `ls` leave: each from the last line naming it.
pub open spec fn state_of(ls: Seq<Seq<char>>) -> CountState {
    CountState {
        count: counter_of(last_value(ls, "count"@)),
        size: size_of(last_value(ls, "size"@)),
        in_pack: counter_of(last_value(ls, "in-pack"@)),
        packs: counter_of(last_value(ls, "packs"@)),
        size_pack: size_of(last_value(ls, "size-pack"@)),
        prune_packable: counter_of(last_value(ls, "prune-packable"@)),
        garbage: counter_of(last_value(ls, "garbage"@)),
        size_garbage: size_of(last_value(ls, "size-garbage"@)),
    }
}

/// `k` is one of the eight statistics of `count-objects -v`.
pub open spec fn is_statistic(k: Seq<char>) -> bool {
    k == "count"@ || k == "size"@ || k == "in-pack"@ || k == "packs"@ || k == "size-pack"@ || k
        == "prune-packable"@ || k == "garbage"@ || k == "size-garbage"@
}

proof fn lemma_count_from_last(ls: Seq<Seq<char>>, i: int, st: CountState)
    requires
        0 <= i < ls.len(),
    ensures
        count_from(ls, i, st) == count_step(count_from(ls.drop_last(), i, st), ls.last()),
    decreases ls.len() - i,
{
    let dl = ls.drop_last();
    assert(count_from(ls, i, st) == count_from(ls, i + 1, count_step(st, ls[i])));
    if i < ls.len() - 1 {
        assert(dl[i] == ls[i]);
        assert(count_from(dl, i, st) == count_from(dl, i + 1, count_step(st, dl[i])));
        lemma_count_from_last(ls, i + 1, count_step(st, ls[i]));
    } else {
        assert(count_from(ls, i + 1, count_step(st, ls[i])) == count_step(st, ls[i]));
        assert(count_from(dl, i, st) == st);
        assert(ls.last() == ls[i]);
    }
}

proof fn lemma_state_of(ls: Seq<Seq<char>>)
    ensures
        count_from(ls, 0, no_counts()) == state_of(ls),
    decreases ls.len(),
{
    reveal_strlit("count");
    reveal_strlit("size");
    reveal_strlit("in-pack");
    reveal_strlit("packs");
    reveal_strlit("size-pack");
    reveal_strlit("prune-packable");
    reveal_strlit("garbage");
    reveal_strlit("size-garbage");
    if ls.len() > 0 {
        let dl = ls.drop_last();
        let last = ls.last();
        lemma_count_from_last(ls, 0, no_counts());
        lemma_state_of(dl);
        let st = state_of(dl);
        assert("count"@.len() == 5 && "size"@.len() == 4 && "in-pack"@.len() == 7 && "packs"@.len()
            == 5 && "size-pack"@.len() == 9 && "prune-packable"@.len() == 14 && "garbage"@.len()
            == 7 && "size-garbage"@.len() == 12);
        assert("count"@ != "packs"@) by {
            assert("count"@[0] != "packs"@[0]);
        }
        assert("in-pack"@ != "garbage"@) by {
            assert("in-pack"@[0] != "garbage"@[0]);
        }
        match line_key(last) {
            None => {
                assert(count_step(st, last) == st);
            },
            Some(key) => {
                assert(count_step(st, last) == state_of(ls));
            },
        }
    } else {
        assert(state_of(ls) == no_counts());
    }
}

/// `count-objects -v` output parses exactly when each of the eight
/// statistics is named by some line and, for the five counters, the value
/// on the last line naming it is a number; each statistic is then read
/// from its last line.
pub proof fn lemma_count_objects_present(s: Seq<char>)
    ensures
        count_objects_spec(s) is Some <==> {
            let ls = lines_of(s);
            &&& counter_of(last_value(ls, "count"@)) is Some
            &&& last_value(ls, "size"@) is Some
            &&& counter_of(last_value(ls, "in-pack"@)) is Some
            &&& counter_of(last_value(ls, "packs"@)) is Some
            &&& last_value(ls, "size-pack"@) is Some
            &&& counter_of(last_value(ls, "prune-packable"@)) is Some
            &&& counter_of(last_value(ls, "garbage"@)) is Some
            &&& last_value(ls, "size-garbage"@) is Some
        },
        count_from(lines_of(s), 0, no_counts()) == state_of(lines_of(s)),
        count_objects_spec(s) matches Some(v) ==> {
            let ls = lines_of(s);
            &&& Some(v.count) == counter_of(last_value(ls, "count"@))
            &&& Some(v.size) == size_of(last_value(ls, "size"@))
            &&& Some(v.in_pack) == counter_of(last_value(ls, "in-pack"@))
            &&& Some(v.packs) == counter_of(last_value(ls, "packs"@))
            &&& Some(v.size_pack) == size_of(last_value(ls, "size-pack"@))
            &&& Some(v.prune_packable) == counter_of(last_value(ls, "prune-packable"@))
            &&& Some(v.garbage) == counter_of(last_value(ls, "garbage"@))
            &&& Some(v.size_garbage) == size_of(last_value(ls, "size-garbage"@))
        },
{
    lemma_state_of(lines_of(s));
}

/// The line names one of the eight statistics.
pub open spec fn names_statistic(line: Seq<char>) -> bool {
    line_key(line) matches Some(k) && is_statistic(k)
}

/// A line and the same line without its final carriage return name the
/// same statistic.
proof fn lemma_key_strip_cr(l: Seq<char>)
    ensures
        line_key(strip_cr(l)) == line_key(l),
{
    reveal_strlit(":");
    if l.len() > 0 && l.last() == '\r' {
        lemma_find_drop_last(l, ":"@, 0);
        lemma_find_from_bounds(l, ":"@, 0);
        if let Some(j) = find_str(l, ":"@) {
            assert(l.subrange(j, j + 1)[0] == l[j]);
            assert(l.drop_last().take(j) =~= l.take(j));
        }
    }
}

/// Adding to `count-objects -v` output a line that names none of the
/// statistics leaves what it parses to unchanged.
pub proof fn lemma_count_objects_other_line(s: Seq<char>, l: Seq<char>)
    requires
        s.len() == 0 || s.last() == '\n',
        !l.contains('\n'),
        !names_statistic(l),
    ensures
        count_objects_spec(s + l + seq!['\n']) == count_objects_spec(s),
{
    lemma_lines_append(s, l);
    let ls = lines_of(s);
    let x = strip_cr(l);
    lemma_key_strip_cr(l);
    assert(ls.push(x).drop_last() =~= ls);
    lemma_count_from_last(ls.push(x), 0, no_counts());
    lemma_count_step_other(count_from(ls, 0, no_counts()), x);
}

/// A line that names none of the statistics changes nothing.
pub proof fn lemma_count_step_other(st: CountState, line: Seq<char>)
    requires
        !(line_key(line) matches Some(k) && is_statistic(k)),
    ensures
        count_step(st, line) == st,
{
}

/// Parse the output of `git count-objects -v`.
///
/// Returns [`None`] unless all eight statistics are present, which is the case
/// for `-v` output alone: the default form carries only two of them (see
/// [`parse_count_objects_terse`]). Unrecognized keys are ignored, so a
/// statistic added by a newer git does not break the parse.
pub fn parse_count_objects(input: &str) -> (r: Option<CountObjects>)
    ensures
        opt_view(r) == count_objects_spec(input@),
{
    let mut count: Option<u64> = None;
    let mut size: Option<ObjectSize> = None;
    let mut in_pack: Option<u64> = None;
    let mut packs: Option<u64> = None;
    let mut size_pack: Option<ObjectSize> = None;
    let mut prune_packable: Option<u64> = None;
    let mut garbage: Option<u64> = None;
    let mut size_garbage: Option<ObjectSize> = None;
    let s = chars_of(input);
    let ls = lines(&s);
    let ghost lv = seq_views(ls@);
    let mut i: usize = 0;
    while i < ls.len()
        invariant
            lv == seq_views(ls@),
            lv == lines_of(input@),
            count_from(lv, 0, no_counts()) == count_from(
                lv,
                i as int,
                CountState {
                    count,
                    size: opt_view(size),
                    in_pack,
                    packs,
                    size_pack: opt_view(size_pack),
                    prune_packable,
                    garbage,
                    size_garbage: opt_view(size_garbage),
                },
            ),
        decreases ls.len() - i,
    {
        assert(lv[i as int] == ls@[i as int]@);
        if let Some((k, v)) = split_once(&ls[i], ":") {
            let key = trim(&k);
            let value = trim(&v);
            if is_lit(&key, "count") {
                count = parse_u64(&value);
            } else if is_lit(&key, "size") {
                size = Some(ObjectSize::new(&value));
            } else if is_lit(&key, "in-pack") {
                in_pack = parse_u64(&value);
            } else if is_lit(&key, "packs") {
                packs = parse_u64(&value);
            } else if is_lit(&key, "size-pack") {
                size_pack = Some(ObjectSize::new(&value));
            } else if is_lit(&key, "prune-packable") {
                prune_packable = parse_u64(&value);
            } else if is_lit(&key, "garbage") {
                garbage = parse_u64(&value);
            } else if is_lit(&key, "size-garbage") {
                size_garbage = Some(ObjectSize::new(&value));
            }
        }
        i += 1;
    }
    Some(
        CountObjects {
            count: count?,
            size: size?,
            in_pack: in_pack?,
            packs: packs?,
            size_pack: size_pack?,
            prune_packable: prune_packable?,
            garbage: garbage?,
            size_garbage: size_garbage?,
        },
    )
}

/// The first line of `ls` from line `i` on that holds more than white space.
pub open spec fn first_nonblank_from(ls: Seq<Seq<char>>, i: int) -> Option<Seq<char>>
    decreases ls.len() - i,
{
    if i < 0 || i >= ls.len() {
        None
    } else if trim_ws(ls[i]).len() > 0 {
        Some(ls[i])
    } else {
        first_nonblank_from(ls, i + 1)
    }
}

/// What default `git count-objects` output `s` parses to: the loose-object
/// count and their size, read from the first non-blank line.
pub open spec fn terse_spec(s: Seq<char>) -> Option<(u64, ObjectSizeView)> {
    match first_nonblank_from(lines_of(s), 0) {
        None => None,
        Some(line) => match split_once_spec(trim_ws(line), ", "@) {
            None => None,
            Some((objects, size)) => match strip_suffix_spec(objects, " objects"@) {
                None => None,
                Some(n) => match parse_u64_spec(n) {
                    None => None,
                    Some(v) => Some(
                        (
                            v,
                            ObjectSizeView {
                                kib: match strip_suffix_spec(size, " kilobytes"@) {
                                    Some(k) => parse_u64_spec(k),
                                    None => None,
                                },
                                raw: size,
                            },
                        ),
                    ),
                },
            },
        },
    }
}

/// Parse the default `git count-objects` output: `<n> objects, <size>`.
///
/// Returns the loose-object count and the space they occupy, the same two
/// numbers `-v` reports as `count` and `size`. The size text differs between
/// the two forms (`20 kilobytes` here, `20` under `-v`) but
/// [`ObjectSize::kib`] is the same value.
///
/// Returns [`None`] when the line does not have this shape, which includes
/// being handed `-v` output.
pub fn parse_count_objects_terse(input: &str) -> (r: Option<(u64, ObjectSize)>)
    ensures
        match r {
            Some((n, sz)) => terse_spec(input@) == Some((n, sz@)),
            None => terse_spec(input@) is None,
        },
{
    let s = chars_of(input);
    let ls = lines(&s);
    let ghost lv = seq_views(ls@);
    let mut i: usize = 0;
    while i < ls.len() && trim(&ls[i]).len() == 0
        invariant
            i <= ls.len(),
            lv == seq_views(ls@),
            lv == lines_of(input@),
            first_nonblank_from(lv, 0) == first_nonblank_from(lv, i as int),
        decreases ls.len() - i,
    {
        assert(lv[i as int] == ls@[i as int]@);
        i += 1;
    }
    if i >= ls.len() {
        return None;
    }
    assert(lv[i as int] == ls@[i as int]@);
    let line = trim(&ls[i]);
    let (objects, size) = split_once(&line, ", ")?;
    let n = strip_suffix(&objects, " objects")?;
    let v = parse_u64(&n)?;
    let kib = match strip_suffix(&size, " kilobytes") {
        Some(k) => parse_u64(&k),
        None => None,
    };
    Some((v, ObjectSize { kib, raw: text_of(&size) }))
}

} // verus!
