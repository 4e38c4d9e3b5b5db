//! Building a target value from the accumulated map.
//!
//! A target names its required fields. Each is looked up under
//! `<prefix>_<field>` first and under `<field>` second; the target is built
//! once every field is found and the found values decode.

use crate::jsonlvar::map::LineMap;
use crate::jsonlvar::parser::{JsonlParser, MARKER};
use crate::jsonlvar::value::Value;
use vstd::prelude::*;
use vstd::string::StringExecFns;

verus! {

/// Why a target could not be built.
#[derive(Debug)]
pub enum JsonlError {
    /// A value was found but does not decode into its field: the message of
    /// the decoder.
    Json(String),
    /// No entry for a required field: the name it was looked up under first.
    MissingField(String),
}

/// What a [`JsonlError`] is in contracts.
pub enum JsonlErrorView {
    Json(Seq<char>),
    MissingField(Seq<char>),
}

impl View for JsonlError {
    type V = JsonlErrorView;

    open spec fn view(&self) -> JsonlErrorView {
        match self {
            JsonlError::Json(m) => JsonlErrorView::Json(m@),
            JsonlError::MissingField(k) => JsonlErrorView::MissingField(k@),
        }
    }
}

impl JsonlError {
    /// Whether the error says that a field is missing, not that a value is
    /// malformed.
    pub fn is_missing_field(&self) -> (b: bool)
        ensures
            b == (self@ is MissingField),
    {
        match self {
            JsonlError::MissingField(_) => true,
            JsonlError::Json(_) => false,
        }
    }

    /// The error in words.
    pub fn message(&self) -> (m: String)
        ensures
            m@ == match self@ {
                JsonlErrorView::Json(e) => "JSON parsing error: "@ + e,
                JsonlErrorView::MissingField(k) => "Missing or invalid field: "@ + k,
            },
    {
        match self {
            JsonlError::Json(e) => String::from_str("JSON parsing error: ").concat(e.as_str()),
            JsonlError::MissingField(k) => String::from_str("Missing or invalid field: ").concat(
                k.as_str(),
            ),
        }
    }
}

/// The text of an optional prefix.
pub open spec fn prefix_view(var_prefix: Option<&str>) -> Option<Seq<char>> {
    match var_prefix {
        Some(p) => Some(p@),
        None => None,
    }
}

/// The name a field is looked up under first: `<prefix>_<field>`, or the
/// field's own name where there is no prefix.
pub open spec fn field_key(prefix: Option<Seq<char>>, field: Seq<char>) -> Seq<char> {
    match prefix {
        Some(p) => p + seq!['_'] + field,
        None => field,
    }
}

/// The value found for a field: the one under the prefixed name if there is
/// one, else the one under the field's own name.
pub open spec fn found(
    map: Map<Seq<char>, crate::jsonlvar::value::ValueView>,
    prefix: Option<Seq<char>>,
    field: Seq<char>,
) -> Option<crate::jsonlvar::value::ValueView> {
    if map.contains_key(field_key(prefix, field)) {
        Some(map[field_key(prefix, field)])
    } else if map.contains_key(field) {
        Some(map[field])
    } else {
        None
    }
}

/// The values found for the fields, in the fields' order.
pub open spec fn found_values(
    map: Map<Seq<char>, crate::jsonlvar::value::ValueView>,
    prefix: Option<Seq<char>>,
    fields: Seq<Seq<char>>,
) -> Seq<crate::jsonlvar::value::ValueView> {
    Seq::new(fields.len(), |i: int| found(map, prefix, fields[i]).unwrap())
}

/// The views of a sequence of values.
pub open spec fn views(values: Seq<&Value>) -> Seq<crate::jsonlvar::value::ValueView> {
    values.map_values(|v: &Value| v@)
}

/// Prefix fallback: with a prefix, the entry under `<prefix>_<field>` is taken
/// where there is one, whether or not the bare name has an entry too; the
/// entry under the bare name is taken where it is the only one; and nothing
/// is found where there is neither.
pub proof fn lemma_prefix_fallback(
    map: Map<Seq<char>, crate::jsonlvar::value::ValueView>,
    prefix: Seq<char>,
    field: Seq<char>,
)
    ensures
        map.contains_key(prefix + seq!['_'] + field) ==> found(map, Some(prefix), field) == Some(
            map[prefix + seq!['_'] + field],
        ),
        !map.contains_key(prefix + seq!['_'] + field) && map.contains_key(field) ==> found(
            map,
            Some(prefix),
            field,
        ) == Some(map[field]),
        !map.contains_key(prefix + seq!['_'] + field) && !map.contains_key(field) ==> found(
            map,
            Some(prefix),
            field,
        ) is None,
{
}

/// What is found stays found: lines only add entries, so a field for which
/// something is found has something found for it after any further lines.
pub proof fn lemma_found_stays_found(
    map: Map<Seq<char>, crate::jsonlvar::value::ValueView>,
    marker: Seq<char>,
    lines: Seq<Seq<char>>,
    prefix: Option<Seq<char>>,
    field: Seq<char>,
)
    requires
        found(map, prefix, field) is Some,
    ensures
        found(crate::jsonlvar::parser::absorb_lines(map, marker, lines), prefix, field) is Some,
{
    if map.contains_key(field_key(prefix, field)) {
        crate::jsonlvar::parser::lemma_names_are_kept(map, marker, lines, field_key(prefix, field));
    } else {
        crate::jsonlvar::parser::lemma_names_are_kept(map, marker, lines, field);
    }
}

/// The name a field is looked up under first.
pub fn prefixed_name(var_prefix: Option<&str>, field: &str) -> (key: String)
    ensures
        key@ == field_key(prefix_view(var_prefix), field@),
{
    match var_prefix {
        Some(p) => {
            proof {
                reveal_strlit("_");
                assert("_"@ =~= seq!['_']);
            }
            String::from_str(p).concat("_").concat(field)
        },
        None => String::from_str(field),
    }
}

/// The value found for `field`: under the prefixed name first, under the
/// field's own name second. Where there is neither, the error names the
/// prefixed name.
pub fn field_value<'a>(map: &'a LineMap, var_prefix: Option<&str>, field: &str) -> (r: Result<
    &'a Value,
    JsonlError,
>)
    ensures
        match r {
            Ok(v) => found(map@, prefix_view(var_prefix), field@) == Some(v@),
            Err(e) => found(map@, prefix_view(var_prefix), field@) is None && e@
                == JsonlErrorView::MissingField(field_key(prefix_view(var_prefix), field@)),
        },
{
    let key = prefixed_name(var_prefix, field);
    match map.get(key.as_str()) {
        Some(v) => Ok(v),
        None => match map.get(field) {
            Some(v) => Ok(v),
            None => Err(JsonlError::MissingField(key)),
        },
    }
}

/// The line that carries `value` under `name`: the marker, the name, an
/// equals sign and the value, a blank between each two.
pub open spec fn entry_text(marker: Seq<char>, name: Seq<char>, value: Seq<char>) -> Seq<char> {
    marker + seq![' '] + name + seq![' ', '=', ' '] + value
}

/// The lines that carry the values of the fields, one each, under the names
/// that the fields are looked up under first. Where there are more names
/// than values, or more values than names, the surplus is left out.
pub open spec fn flat_texts(
    marker: Seq<char>,
    prefix: Option<Seq<char>>,
    names: Seq<Seq<char>>,
    values: Seq<Seq<char>>,
) -> Seq<Seq<char>> {
    Seq::new(
        if names.len() <= values.len() {
            names.len()
        } else {
            values.len()
        },
        |i: int| entry_text(marker, field_key(prefix, names[i]), values[i]),
    )
}

proof fn lemma_spaces_end_shift(pre: Seq<char>, text: Seq<char>, from: int)
    requires
        0 <= from <= text.len(),
    ensures
        crate::jsonlvar::text::spaces_end(pre + text, pre.len() + from) == pre.len()
            + crate::jsonlvar::text::spaces_end(text, from),
    decreases text.len() - from,
{
    let all = pre + text;
    if from < text.len() {
        assert(all[pre.len() + from] == text[from]);
        if crate::jsonlvar::text::is_space(text[from]) {
            lemma_spaces_end_shift(pre, text, from + 1);
        }
    }
}

proof fn lemma_content_end_shift(pre: Seq<char>, text: Seq<char>, lo: int, hi: int)
    requires
        0 <= lo <= hi <= text.len(),
    ensures
        crate::jsonlvar::text::content_end(pre + text, pre.len() + lo, pre.len() + hi) == pre.len()
            + crate::jsonlvar::text::content_end(text, lo, hi),
    decreases hi - lo,
{
    let all = pre + text;
    if lo < hi {
        assert(all[pre.len() + hi - 1] == text[hi - 1]);
        if crate::jsonlvar::text::is_space(text[hi - 1]) {
            lemma_content_end_shift(pre, text, lo, hi - 1);
        }
    }
}

/// What is written is read back: the line that carries a value under a name
/// gives, read with the same marker, that name and the value without its
/// surrounding whitespace, whatever the marker and the value hold. The name
/// has to be one: word characters, and at least one of them; and the value
/// must not be empty, since a line that ends with its equals sign is no
/// entry.
pub proof fn lemma_written_is_read(marker: Seq<char>, name: Seq<char>, value: Seq<char>)
    requires
        name.len() > 0,
        forall|i: int| 0 <= i < name.len() ==> crate::jsonlvar::text::is_word(#[trigger] name[i]),
        value.len() > 0,
    ensures
        crate::jsonlvar::line::first_entry(marker, entry_text(marker, name, value)) == Some(
            (name, crate::jsonlvar::text::trimmed(value)),
        ),
{
    let pre = marker + seq![' '] + name + seq![' ', '=', ' '];
    let line = entry_text(marker, name, value);
    let a = marker.len() as int;
    let b = a + 1;
    let c = b + name.len();
    let d = c + 1;
    assert(line == pre + value);
    assert(pre.len() == d + 2);
    assert(line.subrange(0, a) =~= marker);
    assert(line[a] == ' ');
    assert forall|i: int| b <= i < c implies crate::jsonlvar::text::is_word(#[trigger] line[i]) by {
        assert(line[i] == name[i - b]);
    }
    assert(line[c] == ' ');
    assert(line[d] == '=');
    assert(line[d + 1] == ' ');
    assert(crate::jsonlvar::line::shaped(marker, line, 0, b, c, d));
    crate::jsonlvar::line::lemma_shape_gives_entry(marker, line, 0, b, c, d);
    assert(line.subrange(b, c) =~= name);
    // the text behind the equals sign is a blank and the value
    lemma_spaces_end_shift(pre, value, 0);
    let lead = crate::jsonlvar::text::spaces_end(value, 0);
    crate::jsonlvar::text::lemma_spaces_end(value, 0);
    assert(crate::jsonlvar::text::spaces_end(line, d + 1) == crate::jsonlvar::text::spaces_end(
        line,
        d + 2,
    ));
    lemma_content_end_shift(pre, value, lead, value.len() as int);
    let tail = crate::jsonlvar::text::content_end(value, lead, value.len() as int);
    crate::jsonlvar::text::lemma_content_end(value, lead, value.len() as int);
    assert(line.subrange(pre.len() + lead, pre.len() + tail) =~= value.subrange(lead, tail));
}

/// The line that carries `value` under `name`.
pub fn entry_line(marker: &str, name: &str, value: &str) -> (line: String)
    ensures
        line@ == entry_text(marker@, name@, value@),
{
    proof {
        reveal_strlit(" ");
        reveal_strlit(" = ");
        assert(" "@ =~= seq![' ']);
        assert(" = "@ =~= seq![' ', '=', ' ']);
    }
    String::from_str(marker).concat(" ").concat(name).concat(" = ").concat(value)
}

/// The lines that carry the values of the fields, one each.
pub fn flat_lines(marker: &str, var_prefix: Option<&str>, names: &Vec<String>, values: &Vec<String>) -> (lines:
    Vec<String>)
    ensures
        crate::strings::texts(lines@) == flat_texts(
            marker@,
            prefix_view(var_prefix),
            crate::strings::texts(names@),
            crate::strings::texts(values@),
        ),
{
    let count = if names.len() <= values.len() {
        names.len()
    } else {
        values.len()
    };
    let ghost all = flat_texts(
        marker@,
        prefix_view(var_prefix),
        crate::strings::texts(names@),
        crate::strings::texts(values@),
    );
    let mut lines: Vec<String> = Vec::new();
    let mut i: usize = 0;
    while i < count
        invariant
            i <= count,
            count <= names.len(),
            count <= values.len(),
            all.len() == count,
            all == flat_texts(
                marker@,
                prefix_view(var_prefix),
                crate::strings::texts(names@),
                crate::strings::texts(values@),
            ),
            crate::strings::texts(lines@) == all.take(i as int),
        decreases count - i,
    {
        let key = prefixed_name(var_prefix, names[i].as_str());
        let line = entry_line(marker, key.as_str(), values[i].as_str());
        proof {
            crate::strings::lemma_texts_push(lines@, line);
            assert(all.take(i + 1) =~= all.take(i as int).push(all[i as int]));
        }
        lines.push(line);
        i = i + 1;
    }
    assert(all.take(count as int) =~= all);
    lines
}

/// A value that can be built from named entries, and written as such.
///
/// A target says which fields it requires, whether a value fits a field, and
/// how the values of all fields make the target. Nothing is asked of what it
/// says; what is built is stated in terms of what the target answers.
pub trait Jsonl: Sized {
    /// The names of the required fields, in the order of their declaration.
    fn field_names() -> (names: Vec<String>);

    /// Whether `value` decodes into the field at place `index`: if not, the
    /// decoder's words for it.
    fn check_field(index: usize, value: &Value) -> (r: Result<(), String>);

    /// The target made of the values of the required fields, given in the
    /// fields' order, or the decoder's words for what does not fit.
    fn from_values(values: Vec<&Value>) -> (r: Result<Self, String>);

    /// The target as one JSON text, or the encoder's words for what went
    /// wrong.
    fn to_json(&self) -> (r: Result<String, String>);

    /// The values of the required fields as JSON texts, in the fields'
    /// order, or the encoder's words for what went wrong.
    fn fields_to_json(&self) -> (r: Result<Vec<String>, String>);

    /// The line that carries the whole target under `var_name`, marked
    /// `KESTREL_VAR`.
    fn try_to_jsonl(&self, var_name: &str) -> (r: Result<String, JsonlError>)
        ensures
            exists|out: Result<String, String>| #[trigger]
                call_ensures(Self::to_json, (self,), out) && match out {
                    Ok(json) => r matches Ok(line) && line@ == entry_text("KESTREL_VAR"@, var_name@, json@),
                    Err(m) => r matches Err(e) && e@ == JsonlErrorView::Json(m@),
                },
    {
        let out = self.to_json();
        assert(call_ensures(Self::to_json, (self,), out));
        match out {
            Ok(json) => Ok(entry_line(MARKER, var_name, json.as_str())),
            Err(m) => Err(JsonlError::Json(m)),
        }
    }

    /// The lines that carry the required fields one by one, marked `KESTREL_VAR`,
    /// each under the name that the field is looked up under first.
    fn try_to_jsonl_flat_vec(&self, var_prefix: Option<String>) -> (r: Result<Vec<String>, JsonlError>)
        ensures
            exists|names: Vec<String>, out: Result<Vec<String>, String>|
                #![trigger call_ensures(Self::field_names, (), names), call_ensures(Self::fields_to_json, (self,), out)]
                call_ensures(Self::field_names, (), names) && call_ensures(
                    Self::fields_to_json,
                    (self,),
                    out,
                ) && match out {
                    Ok(values) => r matches Ok(lines) && crate::strings::texts(lines@) == flat_texts(
                        "KESTREL_VAR"@,
                        crate::strings::text_view(var_prefix),
                        crate::strings::texts(names@),
                        crate::strings::texts(values@),
                    ),
                    Err(m) => r matches Err(e) && e@ == JsonlErrorView::Json(m@),
                },
    {
        let names = Self::field_names();
        let out = self.fields_to_json();
        assert(call_ensures(Self::field_names, (), names));
        assert(call_ensures(Self::fields_to_json, (self,), out));
        match out {
            Ok(values) => {
                let lines = match &var_prefix {
                    Some(p) => flat_lines(MARKER, Some(p.as_str()), &names, &values),
                    None => flat_lines(MARKER, None, &names, &values),
                };
                Ok(lines)
            },
            Err(m) => Err(JsonlError::Json(m)),
        }
    }

    /// The lines that carry the required fields one by one, as one text with
    /// a line feed between each two lines.
    fn try_to_jsonl_flat(&self, var_prefix: Option<String>) -> (r: Result<String, JsonlError>)
        ensures
            exists|names: Vec<String>, out: Result<Vec<String>, String>|
                #![trigger call_ensures(Self::field_names, (), names), call_ensures(Self::fields_to_json, (self,), out)]
                call_ensures(Self::field_names, (), names) && call_ensures(
                    Self::fields_to_json,
                    (self,),
                    out,
                ) && match out {
                    Ok(values) => r matches Ok(text) && text@ == crate::strings::joined(
                        flat_texts(
                            "KESTREL_VAR"@,
                            crate::strings::text_view(var_prefix),
                            crate::strings::texts(names@),
                            crate::strings::texts(values@),
                        ),
                        "\n"@,
                    ),
                    Err(m) => r matches Err(e) && e@ == JsonlErrorView::Json(m@),
                },
    {
        match self.try_to_jsonl_flat_vec(var_prefix) {
            Ok(entries) => Ok(crate::strings::join(&entries, "\n")),
            Err(e) => Err(e),
        }
    }
}

/// A construction's outcome with the error taken by its view.
pub open spec fn outcome_view<T>(r: Result<T, JsonlError>) -> Result<T, JsonlErrorView> {
    match r {
        Ok(target) => Ok(target),
        Err(e) => Err(e@),
    }
}

/// Whether the target can say of a value that it decodes into the field at
/// place `index`.
pub open spec fn fits<T: Jsonl>(index: int, view: crate::jsonlvar::value::ValueView) -> bool {
    exists|value: &Value, out: Result<(), String>| #[trigger]
        call_ensures(T::check_field, (index as usize, value), out) && value@ == view && out is Ok
}

/// Whether the target can say of a value that it does not decode into the
/// field at place `index`, in the given words.
pub open spec fn misfits<T: Jsonl>(
    index: int,
    view: crate::jsonlvar::value::ValueView,
    words: Seq<char>,
) -> bool {
    exists|value: &Value, out: Result<(), String>| #[trigger]
        call_ensures(T::check_field, (index as usize, value), out) && value@ == view && out is Err
            && out->Err_0@ == words
}

/// For each of the first `count` fields something is found, and what is
/// found fits the field.
pub open spec fn good_up_to<T: Jsonl>(
    map: Map<Seq<char>, crate::jsonlvar::value::ValueView>,
    prefix: Option<Seq<char>>,
    fields: Seq<Seq<char>>,
    count: int,
) -> bool {
    forall|j: int|
        0 <= j < count ==> found(map, prefix, #[trigger] fields[j]) is Some && fits::<T>(
            j,
            found(map, prefix, fields[j]).unwrap(),
        )
}

/// Whether the target can make `out` of the given values.
pub open spec fn assembled<T: Jsonl>(
    given: Seq<crate::jsonlvar::value::ValueView>,
    out: Result<T, Seq<char>>,
) -> bool {
    exists|values: Vec<&Value>, r: Result<T, String>| #[trigger]
        call_ensures(T::from_values, (values,), r) && views(values@) == given && out == match r {
            Ok(target) => Ok::<T, Seq<char>>(target),
            Err(m) => Err::<T, Seq<char>>(m@),
        }
}

/// Whether `built` is what building a `T` with the required `fields` from a
/// map can give. The fields are taken in order, each looked up under the
/// prefixed name first and under its own name second. The first field for
/// which nothing is found, or for which what is found does not fit, ends the
/// construction: with `MissingField` and the prefixed name, or with `Json`
/// and the decoder's words. Where every field is found and fits, the target
/// is made of the found values.
pub open spec fn built_from<T: Jsonl>(
    map: Map<Seq<char>, crate::jsonlvar::value::ValueView>,
    prefix: Option<Seq<char>>,
    fields: Seq<Seq<char>>,
    built: Result<T, JsonlErrorView>,
) -> bool {
    match built {
        Err(JsonlErrorView::MissingField(key)) => exists|k: int|
            0 <= k < fields.len() && #[trigger] good_up_to::<T>(map, prefix, fields, k) && found(
                map,
                prefix,
                fields[k],
            ) is None && key == field_key(prefix, fields[k]),
        Err(JsonlErrorView::Json(words)) => (exists|k: int|
            0 <= k < fields.len() && #[trigger] good_up_to::<T>(map, prefix, fields, k) && found(
                map,
                prefix,
                fields[k],
            ) is Some && misfits::<T>(k, found(map, prefix, fields[k]).unwrap(), words)) || (
        good_up_to::<T>(map, prefix, fields, fields.len() as int) && assembled::<T>(
            found_values(map, prefix, fields),
            Err(words),
        )),
        Ok(target) => good_up_to::<T>(map, prefix, fields, fields.len() as int) && assembled::<T>(
            found_values(map, prefix, fields),
            Ok(target),
        ),
    }
}

/// Whether `built` is what building a `T` from a map can give, with the
/// fields that the target names.
pub open spec fn builds<T: Jsonl>(
    map: Map<Seq<char>, crate::jsonlvar::value::ValueView>,
    prefix: Option<Seq<char>>,
    built: Result<T, JsonlErrorView>,
) -> bool {
    exists|names: Vec<String>| #[trigger]
        call_ensures(T::field_names, (), names) && built_from::<T>(
            map,
            prefix,
            crate::strings::texts(names@),
            built,
        )
}

/// Builds a `T` from `parsed_data`: fails with `MissingField` at the first
/// required field that has no entry, with `Json` at the first whose entry
/// does not decode, whichever of the two comes first in the order of the
/// fields.
pub fn try_from_jsonl_map<T: Jsonl>(parsed_data: &LineMap, var_prefix: Option<&str>) -> (r: Result<
    T,
    JsonlError,
>)
    ensures
        builds::<T>(parsed_data@, prefix_view(var_prefix), outcome_view(r)),
{
    let names = T::field_names();
    assert(call_ensures(T::field_names, (), names));
    let ghost prefix = prefix_view(var_prefix);
    let ghost fields = crate::strings::texts(names@);
    let mut values: Vec<&Value> = Vec::new();
    let mut i: usize = 0;
    while i < names.len()
        invariant
            i <= names.len(),
            call_ensures(T::field_names, (), names),
            fields == crate::strings::texts(names@),
            prefix == prefix_view(var_prefix),
            values.len() == i,
            good_up_to::<T>(parsed_data@, prefix, fields, i as int),
            forall|j: int|
                0 <= j < i ==> found(parsed_data@, prefix, fields[j]) == Some(#[trigger] values[j]@),
        decreases names.len() - i,
    {
        assert(fields[i as int] == names[i as int]@);
        match field_value(parsed_data, var_prefix, names[i].as_str()) {
            Err(e) => {
                assert(built_from::<T>(parsed_data@, prefix, fields, Err(e@)));
                return Err(e);
            },
            Ok(v) => {
                let out = T::check_field(i, v);
                assert(call_ensures(T::check_field, ((i as int) as usize, v), out));
                match out {
                    Err(m) => {
                        assert(misfits::<T>(i as int, v@, m@));
                        assert(built_from::<T>(
                            parsed_data@,
                            prefix,
                            fields,
                            Err(JsonlErrorView::Json(m@)),
                        ));
                        return Err(JsonlError::Json(m));
                    },
                    Ok(_) => {
                        assert(fits::<T>(i as int, v@));
                        values.push(v);
                    },
                }
            },
        }
        i = i + 1;
    }
    assert(views(values@) =~= found_values(parsed_data@, prefix, fields));
    let ghost given = values;
    let out = T::from_values(values);
    assert(call_ensures(T::from_values, (given,), out));
    match out {
        Ok(target) => {
            assert(assembled::<T>(found_values(parsed_data@, prefix, fields), Ok(target)));
            Ok(target)
        },
        Err(m) => {
            assert(assembled::<T>(found_values(parsed_data@, prefix, fields), Err(m@)));
            Err(JsonlError::Json(m))
        },
    }
}

/// Builds a `T` from the entries that the lines of `jsonl` carry under the
/// marker `KESTREL_VAR`.
pub fn try_from_jsonl<T: Jsonl>(jsonl: &str, var_prefix: Option<&str>) -> (r: Result<T, JsonlError>)
    ensures
        builds::<T>(
            crate::jsonlvar::parser::absorb_text(Map::empty(), "KESTREL_VAR"@, jsonl@),
            prefix_view(var_prefix),
            outcome_view(r),
        ),
{
    let parser = JsonlParser::new();
    let parsed_data = parser.parse(jsonl);
    try_from_jsonl_map::<T>(&parsed_data, var_prefix)
}

} // verus!
