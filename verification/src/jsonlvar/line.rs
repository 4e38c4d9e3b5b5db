//! The line grammar: `MARKER <spaces> NAME <spaces>? = <spaces>? VALUE`.
//!
//! The marker may stand anywhere in a line; the leftmost position at which
//! the whole shape fits decides. NAME is the longest run of word characters
//! after the marker's whitespace, VALUE the non-empty remainder of the line
//! behind `=`, taken without surrounding whitespace.

use crate::jsonlvar::text::{drop_trailing_spaces, skip_spaces, skip_word};
use crate::strings::{copy_range, stands_at};
use vstd::prelude::*;

verus! {

/// Where the name and the value of a recognised entry lie within its line.
#[derive(Clone, Copy, Debug)]
pub struct EntrySpan {
    pub name_from: usize,
    pub name_to: usize,
    pub value_from: usize,
    pub value_to: usize,
}

/// The name and the raw value of the entry whose marker starts at `p`, if the
/// line has the entry shape there.
pub open spec fn entry_at(marker: Seq<char>, line: Seq<char>, p: int) -> Option<
    (Seq<char>, Seq<char>),
> {
    let a = p + marker.len();
    let b = crate::jsonlvar::text::spaces_end(line, a);
    let c = crate::jsonlvar::text::word_end(line, b);
    let d = crate::jsonlvar::text::spaces_end(line, c);
    if 0 <= p && a <= line.len() && line.subrange(p, a) == marker && a < b && b < c && d + 1
        < line.len() && line[d] == '=' {
        Some((line.subrange(b, c), crate::jsonlvar::text::trimmed_tail(line, d + 1)))
    } else {
        None
    }
}

/// The entry at the leftmost position at or after `p` where one is found.
pub open spec fn first_entry_from(marker: Seq<char>, line: Seq<char>, p: int) -> Option<
    (Seq<char>, Seq<char>),
>
    decreases line.len() + 1 - p,
{
    if p < 0 || p + marker.len() > line.len() {
        None
    } else if entry_at(marker, line, p) is Some {
        entry_at(marker, line, p)
    } else {
        first_entry_from(marker, line, p + 1)
    }
}

/// The entry a line carries: name and raw value, or `None` for a line that
/// does not have the entry shape anywhere.
pub open spec fn first_entry(marker: Seq<char>, line: Seq<char>) -> Option<(Seq<char>, Seq<char>)> {
    first_entry_from(marker, line, 0)
}

/// The entry shape, said by the places where its parts begin: the marker at
/// `p`; whitespace from the end of the marker up to `b`, at least one
/// character of it; the name from `b` up to `c`, at least one word character
/// and nothing else; whitespace, if any, from `c` up to `d`; the equals sign
/// at `d`; and at least one character behind it.
pub open spec fn shaped(marker: Seq<char>, line: Seq<char>, p: int, b: int, c: int, d: int) -> bool {
    &&& 0 <= p
    &&& p + marker.len() < b < c <= d
    &&& d + 1 < line.len()
    &&& line.subrange(p, p + marker.len()) == marker
    &&& forall|i: int| p + marker.len() <= i < b ==> crate::jsonlvar::text::is_space(#[trigger] line[i])
    &&& forall|i: int| b <= i < c ==> crate::jsonlvar::text::is_word(#[trigger] line[i])
    &&& forall|i: int| c <= i < d ==> crate::jsonlvar::text::is_space(#[trigger] line[i])
    &&& line[d] == '='
}

proof fn lemma_spaces_run(s: Seq<char>, from: int, to: int)
    requires
        0 <= from <= to <= s.len(),
        forall|i: int| from <= i < to ==> crate::jsonlvar::text::is_space(#[trigger] s[i]),
        to < s.len() ==> !crate::jsonlvar::text::is_space(s[to]),
    ensures
        crate::jsonlvar::text::spaces_end(s, from) == to,
    decreases to - from,
{
    if from < to {
        assert(crate::jsonlvar::text::is_space(s[from]));
        lemma_spaces_run(s, from + 1, to);
    }
}

proof fn lemma_word_run(s: Seq<char>, from: int, to: int)
    requires
        0 <= from <= to <= s.len(),
        forall|i: int| from <= i < to ==> crate::jsonlvar::text::is_word(#[trigger] s[i]),
        to < s.len() ==> !crate::jsonlvar::text::is_word(s[to]),
    ensures
        crate::jsonlvar::text::word_end(s, from) == to,
    decreases to - from,
{
    if from < to {
        assert(crate::jsonlvar::text::is_word(s[from]));
        lemma_word_run(s, from + 1, to);
    }
}

/// A line that has the entry shape at `p` carries there the entry with the
/// name between `b` and `c` and the trimmed text behind the equals sign. The
/// places `b`, `c` and `d` are the only ones at which the shape fits at `p`.
pub proof fn lemma_shape_gives_entry(
    marker: Seq<char>,
    line: Seq<char>,
    p: int,
    b: int,
    c: int,
    d: int,
)
    requires
        shaped(marker, line, p, b, c, d),
    ensures
        entry_at(marker, line, p) == Some(
            (line.subrange(b, c), crate::jsonlvar::text::trimmed_tail(line, d + 1)),
        ),
        b == crate::jsonlvar::text::spaces_end(line, p + marker.len()),
        c == crate::jsonlvar::text::word_end(line, b),
        d == crate::jsonlvar::text::spaces_end(line, c),
{
    let a = p + marker.len();
    assert(crate::jsonlvar::text::is_word(line[b]));
    lemma_spaces_run(line, a, b);
    if c < d {
        assert(crate::jsonlvar::text::is_space(line[c]));
    }
    lemma_word_run(line, b, c);
    lemma_spaces_run(line, c, d);
}

/// A line that carries an entry at `p` has the entry shape there.
pub proof fn lemma_entry_has_shape(marker: Seq<char>, line: Seq<char>, p: int)
    requires
        entry_at(marker, line, p) is Some,
    ensures
        shaped(
            marker,
            line,
            p,
            crate::jsonlvar::text::spaces_end(line, p + marker.len()),
            crate::jsonlvar::text::word_end(
                line,
                crate::jsonlvar::text::spaces_end(line, p + marker.len()),
            ),
            crate::jsonlvar::text::spaces_end(
                line,
                crate::jsonlvar::text::word_end(
                    line,
                    crate::jsonlvar::text::spaces_end(line, p + marker.len()),
                ),
            ),
        ),
{
    let a = p + marker.len();
    let b = crate::jsonlvar::text::spaces_end(line, a);
    let c = crate::jsonlvar::text::word_end(line, b);
    let d = crate::jsonlvar::text::spaces_end(line, c);
    crate::jsonlvar::text::lemma_spaces_end(line, a);
    crate::jsonlvar::text::lemma_word_end(line, b);
    crate::jsonlvar::text::lemma_spaces_end(line, c);
}

/// The entry of a line is the one at the leftmost place where the line has
/// the entry shape; a line without an entry has the shape nowhere.
pub proof fn lemma_first_entry_is_leftmost(marker: Seq<char>, line: Seq<char>, from: int)
    requires
        0 <= from,
    ensures
        match first_entry_from(marker, line, from) {
            Some(e) => exists|p: int|
                from <= p && #[trigger] entry_at(marker, line, p) == Some(e) && forall|q: int|
                    from <= q < p ==> #[trigger] entry_at(marker, line, q) is None,
            None => forall|q: int| from <= q ==> #[trigger] entry_at(marker, line, q) is None,
        },
    decreases line.len() + 1 - from,
{
    if from + marker.len() > line.len() {
    } else if entry_at(marker, line, from) is Some {
        assert(entry_at(marker, line, from) == first_entry_from(marker, line, from));
    } else {
        lemma_first_entry_is_leftmost(marker, line, from + 1);
        match first_entry_from(marker, line, from + 1) {
            Some(e) => {
                let p = choose|p: int|
                    from + 1 <= p && #[trigger] entry_at(marker, line, p) == Some(e) && forall|q: int|
                        from + 1 <= q < p ==> #[trigger] entry_at(marker, line, q) is None;
                assert forall|q: int| from <= q < p implies #[trigger] entry_at(marker, line, q)
                    is None by {
                    if q > from {
                    }
                }
            },
            None => {
                assert forall|q: int| from <= q implies #[trigger] entry_at(marker, line, q)
                    is None by {
                    if q > from {
                    }
                }
            },
        }
    }
}

/// The span of the entry whose marker starts at `p`, if the line has the
/// entry shape there.
pub fn span_at(marker: &Vec<char>, line: &Vec<char>, p: usize) -> (span: Option<EntrySpan>)
    requires
        p + marker.len() <= line.len(),
    ensures
        span is Some <==> entry_at(marker@, line@, p as int) is Some,
        span matches Some(s) ==> {
            &&& s.name_from <= s.name_to <= s.value_from <= s.value_to <= line.len()
            &&& entry_at(marker@, line@, p as int) == Some(
                (
                    line@.subrange(s.name_from as int, s.name_to as int),
                    line@.subrange(s.value_from as int, s.value_to as int),
                ),
            )
        },
{
    if !stands_at(line, marker, p) {
        return None;
    }
    let a = p + marker.len();
    let b = skip_spaces(line, a);
    if b == a {
        return None;
    }
    let c = skip_word(line, b);
    if c == b {
        return None;
    }
    let d = skip_spaces(line, c);
    if d >= line.len() || line[d] != '=' || d + 1 >= line.len() {
        return None;
    }
    let value_from = skip_spaces(line, d + 1);
    let value_to = drop_trailing_spaces(line, value_from, line.len());
    Some(EntrySpan { name_from: b, name_to: c, value_from, value_to })
}

/// The span of the entry that `line` carries.
pub fn find_entry(marker: &Vec<char>, line: &Vec<char>) -> (span: Option<EntrySpan>)
    ensures
        span is Some <==> first_entry(marker@, line@) is Some,
        span matches Some(s) ==> {
            &&& s.name_from <= s.name_to <= s.value_from <= s.value_to <= line.len()
            &&& first_entry(marker@, line@) == Some(
                (
                    line@.subrange(s.name_from as int, s.name_to as int),
                    line@.subrange(s.value_from as int, s.value_to as int),
                ),
            )
        },
{
    if marker.len() > line.len() {
        return None;
    }
    let last = line.len() - marker.len();
    let mut p: usize = 0;
    loop
        invariant
            last + marker.len() == line.len(),
            p <= last,
            first_entry(marker@, line@) == first_entry_from(marker@, line@, p as int),
        decreases last - p,
    {
        let found = span_at(marker, line, p);
        if found.is_some() {
            return found;
        }
        if p == last {
            assert(first_entry_from(marker@, line@, p + 1) is None);
            return None;
        }
        p = p + 1;
    }
}

/// The index of the first line feed at or after `from`, or the length of the
/// text when there is none.
pub open spec fn line_end(text: Seq<char>, from: int) -> int
    decreases text.len() - from,
{
    if 0 <= from < text.len() && text[from] != '\n' {
        line_end(text, from + 1)
    } else {
        from
    }
}

/// The line that starts at `from`: up to the next line feed, and without the
/// carriage return in front of that line feed.
pub open spec fn line_at(text: Seq<char>, from: int) -> Seq<char> {
    let e = line_end(text, from);
    if from < e < text.len() && text[e - 1] == '\r' {
        text.subrange(from, e - 1)
    } else {
        text.subrange(from, e)
    }
}

/// The lines of the text from index `from` on.
pub open spec fn lines_from(text: Seq<char>, from: int) -> Seq<Seq<char>>
    decreases text.len() + 1 - from,
{
    if from < 0 || from >= text.len() {
        Seq::empty()
    } else {
        proof {
            lemma_line_end(text, from);
        }
        seq![line_at(text, from)] + lines_from(text, line_end(text, from) + 1)
    }
}

/// The lines of a text. A line ends at a line feed or at a carriage return
/// followed by a line feed; neither belongs to the line. A line feed at the
/// very end starts no further line.
pub open spec fn lines_of(text: Seq<char>) -> Seq<Seq<char>> {
    lines_from(text, 0)
}

pub proof fn lemma_line_end(text: Seq<char>, from: int)
    requires
        0 <= from <= text.len(),
    ensures
        from <= line_end(text, from) <= text.len(),
        forall|i: int| from <= i < line_end(text, from) ==> #[trigger] text[i] != '\n',
        line_end(text, from) < text.len() ==> text[line_end(text, from)] == '\n',
    decreases text.len() - from,
{
    if from < text.len() && text[from] != '\n' {
        lemma_line_end(text, from + 1);
    }
}

/// Index of the line feed that ends the line starting at `from`.
pub fn find_line_end(text: &Vec<char>, from: usize) -> (end: usize)
    requires
        from <= text.len(),
    ensures
        end == line_end(text@, from as int),
        from <= end <= text.len(),
{
    let mut i: usize = from;
    while i < text.len() && text[i] != '\n'
        invariant
            from <= i <= text.len(),
            line_end(text@, i as int) == line_end(text@, from as int),
        decreases text.len() - i,
    {
        i = i + 1;
    }
    i
}

/// The line that starts at `from`, and the index behind its line feed (the
/// length of the text when the line is the last one).
pub fn take_line(text: &Vec<char>, from: usize) -> (r: (Vec<char>, usize))
    requires
        from < text.len(),
    ensures
        r.0@ == line_at(text@, from as int),
        from < r.1 <= text.len(),
        lines_from(text@, from as int) == seq![r.0@] + lines_from(text@, r.1 as int),
{
    let e = find_line_end(text, from);
    let stop = if from < e && e < text.len() && text[e - 1] == '\r' {
        e - 1
    } else {
        e
    };
    let next = if e < text.len() {
        e + 1
    } else {
        e
    };
    proof {
        if e == text.len() {
            assert(lines_from(text@, e + 1) == Seq::<Seq<char>>::empty());
            assert(lines_from(text@, e as int) == Seq::<Seq<char>>::empty());
        }
    }
    (copy_range(text, from, stop), next)
}

} // verus!
