//! Dotted field paths: a name such as `a.b.c` is the sequence of its segments.

use vstd::prelude::*;
use vstd::string::StrSliceExecFns;
use vstd::string::StringExecFns;

verus! {

/// The segments of a dotted name: the runs of characters between its dots, in
/// order. A name without a dot is its own single segment, the empty name too;
/// two dots in a row, or a dot at either end, enclose an empty segment.
pub open spec fn segments(name: Seq<char>) -> Seq<Seq<char>>
    decreases name.len(),
{
    if name.len() == 0 {
        seq![Seq::<char>::empty()]
    } else {
        let before = segments(name.drop_last());
        if name.last() == '.' {
            before.push(Seq::<char>::empty())
        } else {
            before.drop_last().push(before.last().push(name.last()))
        }
    }
}

/// The texts that a vector of strings holds.
pub open spec fn texts(parts: Seq<String>) -> Seq<Seq<char>> {
    Seq::new(parts.len(), |i: int| parts[i]@)
}

/// Splits a dotted name into its segments.
pub fn split_path(name: &str) -> (parts: Vec<String>)
    ensures
        texts(parts@) == segments(name@),
{
    let length: usize = name.unicode_len();
    let mut parts: Vec<String> = Vec::new();
    let mut start: usize = 0;
    let mut at: usize = 0;
    assert(name@.take(0) == Seq::<char>::empty());
    assert(texts(parts@).push(name@.subrange(0, 0)) == seq![Seq::<char>::empty()]);
    while at < length
        invariant
            length == name@.len(),
            start <= at <= length,
            segments(name@.take(at as int)) == texts(parts@).push(
                name@.subrange(start as int, at as int),
            ),
        decreases length - at,
    {
        let ghost seen = name@.take(at as int);
        let ghost grown = name@.take(at as int + 1);
        assert(grown.drop_last() == seen);
        assert(grown.last() == name@[at as int]);
        if name.get_char(at) == '.' {
            let part = String::from_str(name.substring_char(start, at));
            let ghost before = texts(parts@);
            parts.push(part);
            assert(texts(parts@) == before.push(name@.subrange(start as int, at as int)));
            start = at + 1;
            assert(name@.subrange(start as int, at as int + 1) == Seq::<char>::empty());
        } else {
            assert(name@.subrange(start as int, at as int + 1) == name@.subrange(
                start as int,
                at as int,
            ).push(name@[at as int]));
            assert(segments(seen).drop_last() == texts(parts@));
        }
        at = at + 1;
    }
    assert(name@.take(length as int) == name@);
    let part = String::from_str(name.substring_char(start, length));
    let ghost before = texts(parts@);
    parts.push(part);
    assert(texts(parts@) == before.push(name@.subrange(start as int, length as int)));
    parts
}

} // verus!
