//! Reading entries out of text, line by line.

use crate::jsonlvar::line::{find_entry, take_line};
use crate::jsonlvar::map::LineMap;
use crate::strings::{chars_of, text_of};
use crate::jsonlvar::value::Value;
use vstd::prelude::*;

verus! {

/// The map after one line: the line's entry is set, a line without an entry
/// changes nothing.
pub open spec fn absorb_line(
    map: Map<Seq<char>, crate::jsonlvar::value::ValueView>,
    marker: Seq<char>,
    line: Seq<char>,
) -> Map<Seq<char>, crate::jsonlvar::value::ValueView> {
    match crate::jsonlvar::line::first_entry(marker, line) {
        Some((name, raw)) => map.insert(name, crate::jsonlvar::value::value_of(raw)),
        None => map,
    }
}

/// The map after a sequence of lines, taken in order.
pub open spec fn absorb_lines(
    map: Map<Seq<char>, crate::jsonlvar::value::ValueView>,
    marker: Seq<char>,
    lines: Seq<Seq<char>>,
) -> Map<Seq<char>, crate::jsonlvar::value::ValueView>
    decreases lines.len(),
{
    if lines.len() == 0 {
        map
    } else {
        absorb_line(absorb_lines(map, marker, lines.drop_last()), marker, lines.last())
    }
}

/// The map after the lines of a text.
pub open spec fn absorb_text(
    map: Map<Seq<char>, crate::jsonlvar::value::ValueView>,
    marker: Seq<char>,
    text: Seq<char>,
) -> Map<Seq<char>, crate::jsonlvar::value::ValueView> {
    absorb_lines(map, marker, crate::jsonlvar::line::lines_of(text))
}

/// Whether `line` carries an entry for `name`.
pub open spec fn names(marker: Seq<char>, line: Seq<char>, name: Seq<char>) -> bool {
    crate::jsonlvar::line::first_entry(marker, line) matches Some(e) && e.0 == name
}

/// Last write wins: after any sequence of lines, the value of a name is the
/// value given by the last line that carries an entry for it, whatever
/// earlier lines said of the name and whatever lines for other names stand
/// in between or behind.
pub proof fn lemma_last_write_wins(
    map: Map<Seq<char>, crate::jsonlvar::value::ValueView>,
    marker: Seq<char>,
    lines: Seq<Seq<char>>,
    k: int,
    name: Seq<char>,
)
    requires
        0 <= k < lines.len(),
        names(marker, lines[k], name),
        forall|j: int| k < j < lines.len() ==> !names(marker, #[trigger] lines[j], name),
    ensures
        absorb_lines(map, marker, lines).contains_key(name),
        absorb_lines(map, marker, lines)[name] == crate::jsonlvar::value::value_of(
            crate::jsonlvar::line::first_entry(marker, lines[k]).unwrap().1,
        ),
    decreases lines.len(),
{
    let front = lines.drop_last();
    if k < lines.len() - 1 {
        assert(front[k] == lines[k]);
        assert forall|j: int| k < j < front.len() implies !names(marker, #[trigger] front[j], name) by {
            assert(front[j] == lines[j]);
        }
        lemma_last_write_wins(map, marker, front, k, name);
        assert(!names(marker, lines[lines.len() - 1], name));
    }
}

/// Lines that carry no entry for a name leave the name as it was.
pub proof fn lemma_other_names_untouched(
    map: Map<Seq<char>, crate::jsonlvar::value::ValueView>,
    marker: Seq<char>,
    lines: Seq<Seq<char>>,
    name: Seq<char>,
)
    requires
        forall|j: int| 0 <= j < lines.len() ==> !names(marker, #[trigger] lines[j], name),
    ensures
        absorb_lines(map, marker, lines).contains_key(name) == map.contains_key(name),
        map.contains_key(name) ==> absorb_lines(map, marker, lines)[name] == map[name],
    decreases lines.len(),
{
    if lines.len() > 0 {
        let front = lines.drop_last();
        assert forall|j: int| 0 <= j < front.len() implies !names(marker, #[trigger] front[j], name) by {
            assert(front[j] == lines[j]);
        }
        lemma_other_names_untouched(map, marker, front, name);
        assert(!names(marker, lines[lines.len() - 1], name));
    }
}

/// Entries accumulate: no line removes a name.
pub proof fn lemma_names_are_kept(
    map: Map<Seq<char>, crate::jsonlvar::value::ValueView>,
    marker: Seq<char>,
    lines: Seq<Seq<char>>,
    name: Seq<char>,
)
    requires
        map.contains_key(name),
    ensures
        absorb_lines(map, marker, lines).contains_key(name),
    decreases lines.len(),
{
    if lines.len() > 0 {
        lemma_names_are_kept(map, marker, lines.drop_last(), name);
    }
}

/// The marker of an entry: the literal that stands in front of the name.
pub const MARKER: &'static str = "KESTREL_VAR";

/// Reads entries of the shape `MARKER NAME = VALUE`.
pub struct JsonlParser {
    marker: Vec<char>,
}

impl JsonlParser {
    /// The literal that starts an entry.
    pub closed spec fn marker(&self) -> Seq<char> {
        self.marker@
    }

    /// A parser for entries marked [`MARKER`].
    pub fn new() -> (p: JsonlParser)
        ensures
            p.marker() == "KESTREL_VAR"@,
    {
        JsonlParser { marker: chars_of(MARKER) }
    }

    /// A parser for entries marked with another literal than [`MARKER`].
    pub fn with_marker(marker: &str) -> (p: JsonlParser)
        ensures
            p.marker() == marker@,
    {
        JsonlParser { marker: chars_of(marker) }
    }

    /// The marker's text.
    pub fn marker_text(&self) -> (t: String)
        ensures
            t@ == self.marker(),
    {
        let t = text_of(&self.marker, 0, self.marker.len());
        assert(self.marker@.subrange(0, self.marker@.len() as int) =~= self.marker@);
        t
    }

    /// Sets in `map` the entry that `line` carries, if it carries one.
    fn absorb(&self, map: &mut LineMap, line: &Vec<char>)
        ensures
            final(map)@ == absorb_line(old(map)@, self.marker(), line@),
    {
        match find_entry(&self.marker, line) {
            Some(span) => {
                let name = text_of(line, span.name_from, span.name_to);
                let raw = text_of(line, span.value_from, span.value_to);
                map.insert(name, Value::interpret(raw));
            },
            None => {},
        }
    }

    /// Reads the lines of `input` into `map`, in order. A line that has not
    /// the entry shape is passed over.
    pub fn parse_into(&self, map: &mut LineMap, input: &str)
        ensures
            final(map)@ == absorb_text(old(map)@, self.marker(), input@),
    {
        let text = chars_of(input);
        let ghost base = map@;
        let ghost mut done: Seq<Seq<char>> = Seq::empty();
        let mut at: usize = 0;
        while at < text.len()
            invariant
                at <= text.len(),
                text@ == input@,
                crate::jsonlvar::line::lines_of(text@) == done + crate::jsonlvar::line::lines_from(
                    text@,
                    at as int,
                ),
                map@ == absorb_lines(base, self.marker(), done),
            decreases text.len() - at,
        {
            let (line, next) = take_line(&text, at);
            self.absorb(map, &line);
            proof {
                let rest = crate::jsonlvar::line::lines_from(text@, next as int);
                assert(done + (seq![line@] + rest) =~= done.push(line@) + rest);
                assert(done.push(line@).drop_last() =~= done);
                done = done.push(line@);
            }
            at = next;
        }
        proof {
            assert(crate::jsonlvar::line::lines_from(text@, at as int) =~= Seq::empty());
            assert(done + Seq::<Seq<char>>::empty() =~= done);
        }
    }

    /// The entries that the lines of `input` carry.
    pub fn parse(&self, input: &str) -> (map: LineMap)
        ensures
            map@ == absorb_text(Map::empty(), self.marker(), input@),
    {
        let mut map = LineMap::new();
        self.parse_into(&mut map, input);
        map
    }
}

} // verus!
