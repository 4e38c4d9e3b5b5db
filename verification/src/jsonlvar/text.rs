//! Character classes and index arithmetic on character sequences.

use vstd::prelude::*;

verus! {

/// Characters with the Unicode `White_Space` property.
pub open spec fn is_space(c: char) -> bool {
    ||| ('\u{9}' <= c && c <= '\u{D}')
    ||| c == ' '
    ||| c == '\u{85}'
    ||| c == '\u{A0}'
    ||| c == '\u{1680}'
    ||| ('\u{2000}' <= c && c <= '\u{200A}')
    ||| c == '\u{2028}'
    ||| c == '\u{2029}'
    ||| c == '\u{202F}'
    ||| c == '\u{205F}'
    ||| c == '\u{3000}'
}

/// Characters an entry name is made of: `[A-Za-z0-9_]`.
pub open spec fn is_word(c: char) -> bool {
    ||| ('a' <= c && c <= 'z')
    ||| ('A' <= c && c <= 'Z')
    ||| ('0' <= c && c <= '9')
    ||| c == '_'
}

/// Decimal digits.
pub open spec fn is_digit(c: char) -> bool {
    '0' <= c && c <= '9'
}

pub fn char_is_space(c: char) -> (b: bool)
    ensures
        b == is_space(c),
{
    (c >= '\u{9}' && c <= '\u{D}') || c == ' ' || c == '\u{85}' || c == '\u{A0}' || c == '\u{1680}'
        || (c >= '\u{2000}' && c <= '\u{200A}') || c == '\u{2028}' || c == '\u{2029}' || c
        == '\u{202F}' || c == '\u{205F}' || c == '\u{3000}'
}

pub fn char_is_word(c: char) -> (b: bool)
    ensures
        b == is_word(c),
{
    (c >= 'a' && c <= 'z') || (c >= 'A' && c <= 'Z') || (c >= '0' && c <= '9') || c == '_'
}

pub fn char_is_digit(c: char) -> (b: bool)
    ensures
        b == is_digit(c),
{
    c >= '0' && c <= '9'
}

/// The first index at or after `from` that holds no whitespace (the length
/// of `s` when only whitespace follows).
pub open spec fn spaces_end(s: Seq<char>, from: int) -> int
    decreases s.len() - from,
{
    if 0 <= from < s.len() && is_space(s[from]) {
        spaces_end(s, from + 1)
    } else {
        from
    }
}

/// The first index at or after `from` that holds no word character.
pub open spec fn word_end(s: Seq<char>, from: int) -> int
    decreases s.len() - from,
{
    if 0 <= from < s.len() && is_word(s[from]) {
        word_end(s, from + 1)
    } else {
        from
    }
}

/// The first index at or after `from` that holds no digit.
pub open spec fn digits_end(s: Seq<char>, from: int) -> int
    decreases s.len() - from,
{
    if 0 <= from < s.len() && is_digit(s[from]) {
        digits_end(s, from + 1)
    } else {
        from
    }
}

/// The end of the text in `s[lo..hi)` once trailing whitespace is dropped.
pub open spec fn content_end(s: Seq<char>, lo: int, hi: int) -> int
    decreases hi - lo,
{
    if lo < hi <= s.len() && is_space(s[hi - 1]) {
        content_end(s, lo, hi - 1)
    } else {
        hi
    }
}

/// `s` from `from` on, without leading and trailing whitespace.
pub open spec fn trimmed_tail(s: Seq<char>, from: int) -> Seq<char> {
    let a = spaces_end(s, from);
    s.subrange(a, content_end(s, a, s.len() as int))
}

/// `s` without leading and trailing whitespace.
pub open spec fn trimmed(s: Seq<char>) -> Seq<char> {
    trimmed_tail(s, 0)
}

pub proof fn lemma_spaces_end(s: Seq<char>, from: int)
    requires
        0 <= from <= s.len(),
    ensures
        from <= spaces_end(s, from) <= s.len(),
        forall|i: int| from <= i < spaces_end(s, from) ==> is_space(#[trigger] s[i]),
        spaces_end(s, from) < s.len() ==> !is_space(s[spaces_end(s, from)]),
    decreases s.len() - from,
{
    if from < s.len() && is_space(s[from]) {
        lemma_spaces_end(s, from + 1);
    }
}

pub proof fn lemma_word_end(s: Seq<char>, from: int)
    requires
        0 <= from <= s.len(),
    ensures
        from <= word_end(s, from) <= s.len(),
        forall|i: int| from <= i < word_end(s, from) ==> is_word(#[trigger] s[i]),
        word_end(s, from) < s.len() ==> !is_word(s[word_end(s, from)]),
    decreases s.len() - from,
{
    if from < s.len() && is_word(s[from]) {
        lemma_word_end(s, from + 1);
    }
}

pub proof fn lemma_content_end(s: Seq<char>, lo: int, hi: int)
    requires
        0 <= lo <= hi <= s.len(),
    ensures
        lo <= content_end(s, lo, hi) <= hi,
        forall|i: int| content_end(s, lo, hi) <= i < hi ==> is_space(#[trigger] s[i]),
        lo < content_end(s, lo, hi) ==> !is_space(s[content_end(s, lo, hi) - 1]),
    decreases hi - lo,
{
    if lo < hi && is_space(s[hi - 1]) {
        lemma_content_end(s, lo, hi - 1);
    }
}

/// Index of the first non-whitespace character at or after `from`.
pub fn skip_spaces(s: &Vec<char>, from: usize) -> (end: usize)
    requires
        from <= s.len(),
    ensures
        end == spaces_end(s@, from as int),
        from <= end <= s.len(),
{
    let mut i: usize = from;
    while i < s.len() && char_is_space(s[i])
        invariant
            from <= i <= s.len(),
            spaces_end(s@, i as int) == spaces_end(s@, from as int),
        decreases s.len() - i,
    {
        i = i + 1;
    }
    i
}

/// Index of the first non-word character at or after `from`.
pub fn skip_word(s: &Vec<char>, from: usize) -> (end: usize)
    requires
        from <= s.len(),
    ensures
        end == word_end(s@, from as int),
        from <= end <= s.len(),
{
    let mut i: usize = from;
    while i < s.len() && char_is_word(s[i])
        invariant
            from <= i <= s.len(),
            word_end(s@, i as int) == word_end(s@, from as int),
        decreases s.len() - i,
    {
        i = i + 1;
    }
    i
}

/// Index of the first non-digit at or after `from`.
pub fn skip_digits(s: &Vec<char>, from: usize) -> (end: usize)
    requires
        from <= s.len(),
    ensures
        end == digits_end(s@, from as int),
        from <= end <= s.len(),
{
    let mut i: usize = from;
    while i < s.len() && char_is_digit(s[i])
        invariant
            from <= i <= s.len(),
            digits_end(s@, i as int) == digits_end(s@, from as int),
        decreases s.len() - i,
    {
        i = i + 1;
    }
    i
}

/// End of `s[lo..hi)` without its trailing whitespace.
pub fn drop_trailing_spaces(s: &Vec<char>, lo: usize, hi: usize) -> (end: usize)
    requires
        lo <= hi <= s.len(),
    ensures
        end == content_end(s@, lo as int, hi as int),
        lo <= end <= hi,
{
    let mut i: usize = hi;
    while lo < i && char_is_space(s[i - 1])
        invariant
            lo <= i <= hi <= s.len(),
            content_end(s@, lo as int, i as int) == content_end(s@, lo as int, hi as int),
        decreases i - lo,
    {
        i = i - 1;
    }
    i
}

} // verus!
