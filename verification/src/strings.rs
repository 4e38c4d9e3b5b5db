//! Texts as sequences of characters: taking them apart, putting them
//! together, searching them.

use vstd::prelude::*;
use vstd::string::StringExecFns;

verus! {

/// The parts in order, with `sep` between each two of them.
pub open spec fn joined(parts: Seq<Seq<char>>, sep: Seq<char>) -> Seq<char>
    decreases parts.len(),
{
    if parts.len() == 0 {
        Seq::empty()
    } else if parts.len() == 1 {
        parts[0]
    } else {
        joined(parts.drop_last(), sep) + sep + parts.last()
    }
}

/// The texts of a sequence of strings.
pub open spec fn texts(parts: Seq<String>) -> Seq<Seq<char>> {
    parts.map_values(|s: String| s@)
}

/// The text of an optional string.
pub open spec fn text_view(text: Option<String>) -> Option<Seq<char>> {
    match text {
        Some(t) => Some(t@),
        None => None,
    }
}

/// The texts of a sequence with one more string are the texts of the
/// sequence with one more text.
pub proof fn lemma_texts_push(parts: Seq<String>, last: String)
    ensures
        texts(parts.push(last)) == texts(parts).push(last@),
{
    assert(texts(parts.push(last)) =~= texts(parts).push(last@));
}

/// The parts in order, with `sep` between each two of them.
pub fn join(parts: &Vec<String>, sep: &str) -> (all: String)
    ensures
        all@ == joined(texts(parts@), sep@),
{
    let mut all = String::new();
    let mut i: usize = 0;
    while i < parts.len()
        invariant
            i <= parts.len(),
            all@ == joined(texts(parts@).take(i as int), sep@),
        decreases parts.len() - i,
    {
        let ghost before = texts(parts@).take(i as int);
        let ghost now = texts(parts@).take(i + 1);
        proof {
            assert(now.drop_last() =~= before);
            assert(now.last() == parts[i as int]@);
        }
        if i > 0 {
            all.append(sep);
        } else {
            assert(before =~= Seq::empty());
            assert(all@ + parts[i as int]@ =~= parts[i as int]@);
        }
        all.append(parts[i].as_str());
        i = i + 1;
    }
    assert(texts(parts@).take(parts.len() as int) =~= texts(parts@));
    all
}

/// The characters of `s`, one element each.
pub fn chars_of(s: &str) -> (v: Vec<char>)
    ensures
        v@ == s@,
{
    let mut v: Vec<char> = Vec::new();
    for c in it: s.chars()
        invariant
            it.seq() == s@,
            v@ == s@.take(it.index()),
    {
        proof {
            let k = it.index();
            assert(c == s@[k]);
            assert(s@.take(k + 1) =~= s@.take(k).push(s@[k]));
        }
        v.push(c);
    }
    assert(s@.take(s@.len() as int) =~= s@);
    v
}

/// `String::push` appends the one character to the end of the string.
pub assume_specification[ String::push ](s: &mut String, c: char)
    ensures
        final(s)@ == old(s)@.push(c),
;

/// The text made of `s[from..to)`.
pub fn text_of(s: &Vec<char>, from: usize, to: usize) -> (t: String)
    requires
        from <= to <= s.len(),
    ensures
        t@ == s@.subrange(from as int, to as int),
{
    let mut t = String::new();
    let mut i: usize = from;
    while i < to
        invariant
            from <= i <= to <= s.len(),
            t@ == s@.subrange(from as int, i as int),
        decreases to - i,
    {
        t.push(s[i]);
        i = i + 1;
        assert(s@.subrange(from as int, i as int) =~= s@.subrange(from as int, i - 1).push(
            s@[i - 1],
        ));
    }
    t
}

/// A copy of `s[from..to)`.
pub fn copy_range(s: &Vec<char>, from: usize, to: usize) -> (v: Vec<char>)
    requires
        from <= to <= s.len(),
    ensures
        v@ == s@.subrange(from as int, to as int),
{
    let mut v: Vec<char> = Vec::new();
    let mut i: usize = from;
    while i < to
        invariant
            from <= i <= to <= s.len(),
            v@ == s@.subrange(from as int, i as int),
        decreases to - i,
    {
        v.push(s[i]);
        i = i + 1;
        assert(s@.subrange(from as int, i as int) =~= s@.subrange(from as int, i - 1).push(
            s@[i - 1],
        ));
    }
    v
}

/// The first index at or after `from` at which `pattern` stands in `text`.
pub open spec fn found_from(text: Seq<char>, pattern: Seq<char>, from: int) -> Option<int>
    decreases text.len() + 1 - from,
{
    if from < 0 || from + pattern.len() > text.len() {
        None
    } else if text.subrange(from, from + pattern.len()) == pattern {
        Some(from)
    } else {
        found_from(text, pattern, from + 1)
    }
}

/// The first index at which `pattern` stands in `text`.
pub open spec fn found(text: Seq<char>, pattern: Seq<char>) -> Option<int> {
    found_from(text, pattern, 0)
}

/// Whether `pattern` stands in `text` at index `at`.
pub fn stands_at(text: &Vec<char>, pattern: &Vec<char>, at: usize) -> (b: bool)
    requires
        at + pattern.len() <= text.len(),
    ensures
        b == (text@.subrange(at as int, at + pattern.len()) == pattern@),
{
    let n = pattern.len();
    let mut i: usize = 0;
    while i < n
        invariant
            n == pattern.len(),
            at + n <= text.len(),
            i <= n,
            forall|j: int| 0 <= j < i ==> text@[at + j] == pattern@[j],
        decreases n - i,
    {
        if text[at + i] != pattern[i] {
            proof {
                let window = text@.subrange(at as int, at + n);
                assert(window[i as int] == text@[at + i]);
            }
            return false;
        }
        i = i + 1;
    }
    assert(text@.subrange(at as int, at + n) =~= pattern@);
    true
}

/// The first index at which `pattern` stands in `text`.
pub fn find(text: &Vec<char>, pattern: &Vec<char>) -> (at: Option<usize>)
    ensures
        match at {
            Some(i) => found(text@, pattern@) == Some(i as int) && i + pattern.len() <= text.len(),
            None => found(text@, pattern@) is None,
        },
{
    if pattern.len() > text.len() {
        return None;
    }
    let last = text.len() - pattern.len();
    let mut p: usize = 0;
    loop
        invariant
            last + pattern.len() == text.len(),
            p <= last,
            found(text@, pattern@) == found_from(text@, pattern@, p as int),
        decreases last - p,
    {
        if stands_at(text, pattern, p) {
            return Some(p);
        }
        if p == last {
            assert(found_from(text@, pattern@, p + 1) is None);
            return None;
        }
        p = p + 1;
    }
}

/// A copy of the strings.
pub fn copy_all(parts: &Vec<String>) -> (copy: Vec<String>)
    ensures
        texts(copy@) == texts(parts@),
{
    let mut copy: Vec<String> = Vec::new();
    let mut i: usize = 0;
    while i < parts.len()
        invariant
            i <= parts.len(),
            texts(copy@) == texts(parts@).take(i as int),
        decreases parts.len() - i,
    {
        let ghost before = copy@;
        let part = String::from_str(parts[i].as_str());
        proof {
            lemma_texts_push(before, part);
            assert(texts(parts@).take(i + 1) =~= texts(parts@).take(i as int).push(
                parts[i as int]@,
            ));
        }
        copy.push(part);
        i = i + 1;
    }
    assert(texts(parts@).take(parts.len() as int) =~= texts(parts@));
    copy
}

} // verus!
