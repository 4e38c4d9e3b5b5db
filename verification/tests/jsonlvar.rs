use kestrel::jsonlvar::filler::JsonlFiller;
use kestrel::jsonlvar::map::LineMap;
use kestrel::jsonlvar::parser::JsonlParser;
use kestrel::jsonlvar::target::{
    entry_line, field_value, flat_lines, prefixed_name, try_from_jsonl, try_from_jsonl_map, Jsonl,
    JsonlError,
};
use kestrel::jsonlvar::value::Value;

fn to_json(value: &Value) -> serde_json::Value {
    match value {
        Value::Structured(text) => serde_json::from_str(text).unwrap(),
        Value::Number(text) => serde_json::Value::from(text.parse::<f64>().unwrap()),
        Value::Text(text) => serde_json::Value::String(text.clone()),
    }
}

fn object(pairs: Vec<(&str, serde_json::Value)>) -> serde_json::Value {
    let mut map = serde_json::Map::new();
    for (key, value) in pairs {
        map.insert(key.to_string(), value);
    }
    serde_json::Value::Object(map)
}

#[derive(Debug, PartialEq, Clone)]
struct TestStructInner {
    key: String,
    number: i32,
}

#[derive(Debug, PartialEq, Clone)]
struct TestStruct {
    key: String,
    number: i32,
    inner: TestStructInner,
}

fn decode_string(value: &Value) -> Result<String, String> {
    serde_json::from_value::<String>(to_json(value)).map_err(|e| e.to_string())
}

fn decode_i32(value: &Value) -> Result<i32, String> {
    serde_json::from_value::<i32>(to_json(value)).map_err(|e| e.to_string())
}

fn decode_inner(value: &Value) -> Result<TestStructInner, String> {
    let json = to_json(value);
    let map = json.as_object().ok_or_else(|| "invalid type: expected a map".to_string())?;
    let key = map.get("key").ok_or_else(|| "missing field `key`".to_string())?;
    let number = map.get("number").ok_or_else(|| "missing field `number`".to_string())?;
    Ok(TestStructInner {
        key: serde_json::from_value::<String>(key.clone()).map_err(|e| e.to_string())?,
        number: serde_json::from_value::<i32>(number.clone()).map_err(|e| e.to_string())?,
    })
}

impl Jsonl for TestStruct {
    fn field_names() -> Vec<String> {
        vec!["key".to_string(), "number".to_string(), "inner".to_string()]
    }

    fn check_field(index: usize, value: &Value) -> Result<(), String> {
        match index {
            0 => decode_string(value).map(|_| ()),
            1 => decode_i32(value).map(|_| ()),
            _ => decode_inner(value).map(|_| ()),
        }
    }

    fn from_values(values: Vec<&Value>) -> Result<Self, String> {
        Ok(TestStruct {
            key: decode_string(values[0])?,
            number: decode_i32(values[1])?,
            inner: decode_inner(values[2])?,
        })
    }

    fn to_json(&self) -> Result<String, String> {
        let all = object(vec![
            ("key", serde_json::Value::from(self.key.clone())),
            ("number", serde_json::Value::from(self.number)),
            ("inner", inner_json(&self.inner)),
        ]);
        serde_json::to_string(&all).map_err(|e| e.to_string())
    }

    fn fields_to_json(&self) -> Result<Vec<String>, String> {
        Ok(vec![
            serde_json::to_string(&self.key).map_err(|e| e.to_string())?,
            serde_json::to_string(&self.number).map_err(|e| e.to_string())?,
            serde_json::to_string(&inner_json(&self.inner)).map_err(|e| e.to_string())?,
        ])
    }
}

fn inner_json(inner: &TestStructInner) -> serde_json::Value {
    object(vec![
        ("key", serde_json::Value::from(inner.key.clone())),
        ("number", serde_json::Value::from(inner.number)),
    ])
}

#[derive(Debug, PartialEq, Clone)]
struct Counter {
    count: i32,
}

impl Jsonl for Counter {
    fn field_names() -> Vec<String> {
        vec!["count".to_string()]
    }

    fn check_field(_index: usize, value: &Value) -> Result<(), String> {
        decode_i32(value).map(|_| ())
    }

    fn from_values(values: Vec<&Value>) -> Result<Self, String> {
        Ok(Counter { count: decode_i32(values[0])? })
    }

    fn to_json(&self) -> Result<String, String> {
        if self.count < 0 {
            return Err("negative".to_string());
        }
        Ok(format!("{{\"count\":{}}}", self.count))
    }

    fn fields_to_json(&self) -> Result<Vec<String>, String> {
        if self.count < 0 {
            return Err("negative".to_string());
        }
        Ok(vec![self.count.to_string()])
    }
}

#[test]
fn test_jsonl_parser() {
    let input = r#"
        Random log entry
        JSONL foo = {"key": "value"}
        JSONL bar = {"number": 42, "list": [1, 2, 3]}
        JSONL raw_string = HelloWorld
        JSONL raw_number = 12345
        JSONL invalid = {invalid json gets parsed as string}
        "#;

    let parser = JsonlParser::with_marker("JSONL");
    let result = parser.parse(input);

    assert_eq!(result.len(), 5);
    assert_eq!(
        &to_json(result.get("foo").unwrap()),
        &object(vec![("key", serde_json::Value::from("value"))])
    );
    assert_eq!(
        &to_json(result.get("bar").unwrap()),
        &object(vec![
            ("number", serde_json::Value::from(42)),
            (
                "list",
                serde_json::Value::Array(vec![
                    serde_json::Value::from(1),
                    serde_json::Value::from(2),
                    serde_json::Value::from(3)
                ])
            )
        ])
    );
    assert_eq!(&to_json(result.get("raw_string").unwrap()), &serde_json::Value::from("HelloWorld"));
    assert_eq!(&to_json(result.get("raw_number").unwrap()), &serde_json::Value::from(12345));
    assert_eq!(
        &to_json(result.get("invalid").unwrap()),
        &serde_json::Value::from("{invalid json gets parsed as string}")
    );
}

#[test]
fn test_jsonl_filler() {
    let mut filler = JsonlFiller::with_marker("JSONL");
    let sender = filler.clone_sender();

    let _ = sender.try_send("JSONL key = value".to_string());
    let result: Option<TestStruct> = filler.try_fill(None).unwrap();
    assert_eq!(result, None);

    let _ = sender.try_send("JSONL number = 42".to_string());
    let result: Option<TestStruct> = filler.try_fill(None).unwrap();
    assert_eq!(result, None);

    let _ = sender.try_send("JSONL inner = {\"key\": \"value\", \"number\": 42}".to_string());
    let result: Option<TestStruct> = filler.try_fill(None).unwrap();

    assert_eq!(
        result,
        Some(TestStruct {
            key: "value".to_string(),
            number: 42,
            inner: TestStructInner { key: "value".to_string(), number: 42 },
        })
    );
}

#[test]
fn value_is_json_first_then_number_then_text() {
    let value = Value::interpret("{\"a\": 1}".to_string());
    assert!(value.is_structured());
    assert_eq!(value.text(), "{\"a\": 1}");
    let value = Value::interpret("42".to_string());
    assert!(value.is_structured());
    let value = Value::interpret("\"quoted\"".to_string());
    assert!(value.is_structured());
    let value = Value::interpret("1e+5".to_string());
    assert!(value.is_structured());
    for number in ["+1", ".5", "5.", "007", "inf", "-Infinity", "NaN", "+1e+5", "+.5E-3", "1e999", "-0.e0"] {
        let value = Value::interpret(number.to_string());
        assert!(value.is_number(), "{number}");
        assert!(number.parse::<f64>().is_ok());
        assert_eq!(value.text(), number);
    }
    for text in ["", "+", ".", "e5", "1e", "1e+", "1.2.3", "0x10", "1_000", "in", "infinit", "HelloWorld", "- 1", "+-1", "nanx"] {
        let value = Value::interpret(text.to_string());
        assert!(value.is_text(), "{text}");
        assert!(text.parse::<f64>().is_err());
    }
}

#[test]
fn classify_takes_the_answer_on_json_as_given() {
    assert!(Value::classify("12".to_string(), false).is_number());
    assert!(Value::classify("12".to_string(), true).is_structured());
    assert!(Value::classify("twelve".to_string(), false).is_text());
}

#[test]
fn line_shape_edges() {
    let parser = JsonlParser::new();
    // marker anywhere in the line, leftmost fitting position wins
    let map = parser.parse("xxKESTREL_VAR KESTREL_VAR a = 1");
    assert_eq!(map.len(), 1);
    assert_eq!(map.get("a").unwrap().text(), "1");
    // no whitespace needed around the equals sign
    let map = parser.parse("KESTREL_VAR a=b");
    assert_eq!(map.get("a").unwrap().text(), "b");
    // whitespace after the marker is needed
    assert!(parser.parse("KESTREL_VARa = b").is_empty());
    // something has to follow the equals sign
    assert!(parser.parse("KESTREL_VAR a =").is_empty());
    // only whitespace behind the equals sign gives the empty text
    let map = parser.parse("KESTREL_VAR a = \t ");
    assert!(map.get("a").unwrap().is_text());
    assert_eq!(map.get("a").unwrap().text(), "");
    // the name is made of word characters only
    assert!(parser.parse("KESTREL_VAR a-b = 1").is_empty());
    assert!(parser.parse("KESTREL_VAR = 1").is_empty());
    let map = parser.parse("KESTREL_VAR Ab_9 = 1");
    assert!(map.contains_key("Ab_9"));
    // the value is trimmed, blanks inside stay
    let map = parser.parse("KESTREL_VAR a =   b  c   ");
    assert_eq!(map.get("a").unwrap().text(), "b  c");
    // unicode whitespace counts
    let map = parser.parse("KESTREL_VAR\u{2003}a\u{a0}=\u{3000}b\u{2028}");
    assert_eq!(map.get("a").unwrap().text(), "b");
}

#[test]
fn lines_end_at_line_feeds() {
    let parser = JsonlParser::new();
    let map = parser.parse("KESTREL_VAR a = 1\r\nKESTREL_VAR b = 2\nKESTREL_VAR c = 3\r");
    assert_eq!(map.len(), 3);
    assert_eq!(map.get("a").unwrap().text(), "1");
    assert_eq!(map.get("b").unwrap().text(), "2");
    assert_eq!(map.get("c").unwrap().text(), "3");
    let text = "KESTREL_VAR a = 1\r\nfoo\n\nKESTREL_VAR b = 2\n";
    let lines: Vec<&str> = text.lines().collect();
    assert_eq!(lines.len(), 4);
    assert_eq!(parser.parse(text).len(), 2);
    assert!(parser.parse("").is_empty());
    assert!(parser.parse("\n").is_empty());
}

#[test]
fn last_write_wins() {
    let parser = JsonlParser::new();
    let map = parser.parse("KESTREL_VAR a = 1\nKESTREL_VAR b = x\nKESTREL_VAR a = two\nnoise\nKESTREL_VAR b = y\nKESTREL_VAR c = 3");
    assert_eq!(map.len(), 3);
    assert_eq!(map.get("a").unwrap().text(), "two");
    assert!(map.get("a").unwrap().is_text());
    assert_eq!(map.get("b").unwrap().text(), "y");
    assert_eq!(map.get("c").unwrap().text(), "3");

    let mut filler = JsonlFiller::new();
    filler.update_with(Some("KESTREL_VAR a = 1".to_string()));
    filler.update_with(Some("KESTREL_VAR b = 1".to_string()));
    filler.update_with(None);
    filler.update_with(Some("KESTREL_VAR a = 2".to_string()));
    assert_eq!(filler.line_map().len(), 2);
    assert_eq!(filler.line_map().get("a").unwrap().text(), "2");
    assert_eq!(filler.line_map().get("b").unwrap().text(), "1");
}

#[test]
fn custom_marker() {
    let parser = JsonlParser::with_marker("JSONL");
    assert_eq!(parser.marker_text(), "JSONL");
    let map = parser.parse("JSONL key = value\nKESTREL_VAR other = 1");
    assert_eq!(map.len(), 1);
    assert_eq!(map.get("key").unwrap().text(), "value");
    assert_eq!(JsonlParser::new().marker_text(), "KESTREL_VAR");
    assert_eq!(kestrel::jsonlvar::parser::MARKER, "KESTREL_VAR");
}

#[test]
fn line_map_insert_get() {
    let mut map = LineMap::new();
    assert!(map.is_empty());
    assert_eq!(map.len(), 0);
    assert!(map.get("a").is_none());
    map.insert("a".to_string(), Value::interpret("1".to_string()));
    map.insert("b".to_string(), Value::interpret("x".to_string()));
    map.insert("a".to_string(), Value::interpret("y".to_string()));
    assert_eq!(map.len(), 2);
    assert!(!map.is_empty());
    assert_eq!(map.get("a").unwrap().text(), "y");
    assert!(map.contains_key("b"));
    assert!(!map.contains_key("c"));
    let copy = map.get("b").unwrap().duplicate();
    assert_eq!(copy.text(), "x");
}

#[test]
fn prefix_fallback() {
    let parser = JsonlParser::new();
    let both = parser.parse("KESTREL_VAR count = 1\nKESTREL_VAR foo_count = 2");
    assert_eq!(prefixed_name(Some("foo"), "count"), "foo_count");
    assert_eq!(prefixed_name(None, "count"), "count");
    assert_eq!(field_value(&both, Some("foo"), "count").unwrap().text(), "2");
    assert_eq!(field_value(&both, None, "count").unwrap().text(), "1");
    assert_eq!(try_from_jsonl_map::<Counter>(&both, Some("foo")).unwrap(), Counter { count: 2 });

    let bare = parser.parse("KESTREL_VAR count = 1");
    assert_eq!(field_value(&bare, Some("foo"), "count").unwrap().text(), "1");
    assert_eq!(try_from_jsonl_map::<Counter>(&bare, Some("foo")).unwrap(), Counter { count: 1 });

    let neither = parser.parse("KESTREL_VAR other = 1");
    match field_value(&neither, Some("foo"), "count") {
        Err(JsonlError::MissingField(key)) => assert_eq!(key, "foo_count"),
        other => panic!("{other:?}"),
    }
    match try_from_jsonl_map::<Counter>(&neither, Some("foo")) {
        Err(JsonlError::MissingField(key)) => assert_eq!(key, "foo_count"),
        other => panic!("{other:?}"),
    }
}

#[test]
fn construction_outcomes() {
    let parser = JsonlParser::new();
    // a found value that does not decode is fatal
    let map = parser.parse("KESTREL_VAR count = many");
    match try_from_jsonl_map::<Counter>(&map, None) {
        Err(e @ JsonlError::Json(_)) => {
            assert!(!e.is_missing_field());
            assert!(e.message().starts_with("JSON parsing error: "));
        }
        other => panic!("{other:?}"),
    }
    // a number that is no JSON number is a float and does not fit an integer
    let map = parser.parse("KESTREL_VAR count = 007");
    assert!(map.get("count").unwrap().is_number());
    assert!(matches!(try_from_jsonl_map::<Counter>(&map, None), Err(JsonlError::Json(_))));
    // the first missing field is reported
    let map = parser.parse("KESTREL_VAR number = 1");
    match try_from_jsonl_map::<TestStruct>(&map, Some("p")) {
        Err(e @ JsonlError::MissingField(_)) => {
            assert!(e.is_missing_field());
            assert_eq!(e.message(), "Missing or invalid field: p_key");
        }
        other => panic!("{other:?}"),
    }
    // the first field that fails decides, be it missing or misfitting
    let map = parser.parse("KESTREL_VAR key = k\nKESTREL_VAR number = many");
    assert!(matches!(try_from_jsonl_map::<TestStruct>(&map, None), Err(JsonlError::Json(_))));
    let map = parser.parse("KESTREL_VAR number = many");
    match try_from_jsonl_map::<TestStruct>(&map, None) {
        Err(JsonlError::MissingField(key)) => assert_eq!(key, "key"),
        other => panic!("{other:?}"),
    }
    let map = parser.parse("KESTREL_VAR key = k\nKESTREL_VAR inner = 3");
    match try_from_jsonl_map::<TestStruct>(&map, None) {
        Err(JsonlError::MissingField(key)) => assert_eq!(key, "number"),
        other => panic!("{other:?}"),
    }
    // from text
    let built = try_from_jsonl::<TestStruct>(
        "KESTREL_VAR key = k\nKESTREL_VAR number = 7\nKESTREL_VAR inner = {\"key\": \"i\", \"number\": 8}",
        None,
    )
    .unwrap();
    assert_eq!(
        built,
        TestStruct {
            key: "k".to_string(),
            number: 7,
            inner: TestStructInner { key: "i".to_string(), number: 8 }
        }
    );
}

#[test]
fn filler_fatal_and_marker() {
    let mut filler = JsonlFiller::with_marker("VAR");
    let sender = filler.clone_sender();
    sender.try_send("VAR count = x".to_string()).unwrap();
    sender.try_send("JSONL count = 1".to_string()).unwrap();
    let result = filler.try_fill::<Counter>(None);
    match result {
        Err(e) => assert!(e.message().starts_with("Failed to fill variable: JSON parsing error: ")),
        Ok(other) => panic!("{other:?}"),
    }
    // the line with the other marker is passed over
    let result = filler.try_fill::<Counter>(None);
    assert!(result.is_err());
    assert_eq!(filler.line_map().len(), 1);
    // nothing waiting: nothing changes
    filler.update();
    assert_eq!(filler.line_map().len(), 1);
    let result: Option<Counter> = filler.try_fill_with(Some("VAR count = 3".to_string()), None).unwrap();
    assert_eq!(result, Some(Counter { count: 3 }));
}

#[test]
fn targets_are_written_as_lines() {
    let target = TestStruct {
        key: "value".to_string(),
        number: 42,
        inner: TestStructInner { key: "in ner".to_string(), number: 7 },
    };
    assert_eq!(
        target.try_to_jsonl("t").unwrap(),
        "KESTREL_VAR t = {\"inner\":{\"key\":\"in ner\",\"number\":7},\"key\":\"value\",\"number\":42}"
    );
    assert_eq!(
        target.try_to_jsonl_flat_vec(Some("p".to_string())).unwrap(),
        vec![
            "KESTREL_VAR p_key = \"value\"".to_string(),
            "KESTREL_VAR p_number = 42".to_string(),
            "KESTREL_VAR p_inner = {\"key\":\"in ner\",\"number\":7}".to_string(),
        ]
    );
    let flat = target.try_to_jsonl_flat(None).unwrap();
    assert_eq!(
        flat,
        "KESTREL_VAR key = \"value\"\nKESTREL_VAR number = 42\nKESTREL_VAR inner = {\"key\":\"in ner\",\"number\":7}"
    );
    // what is written is read back
    assert_eq!(try_from_jsonl::<TestStruct>(&flat, None).unwrap(), target);
    let prefixed = target.try_to_jsonl_flat(Some("p".to_string())).unwrap();
    assert_eq!(try_from_jsonl::<TestStruct>(&prefixed, Some("p")).unwrap(), target);
    assert!(matches!(try_from_jsonl::<TestStruct>(&prefixed, Some("q")), Err(JsonlError::MissingField(_))));

    let failing = Counter { count: -1 };
    assert!(matches!(failing.try_to_jsonl("c"), Err(JsonlError::Json(_))));
    assert!(matches!(failing.try_to_jsonl_flat_vec(None), Err(JsonlError::Json(_))));
    assert!(matches!(failing.try_to_jsonl_flat(None), Err(JsonlError::Json(_))));
    assert_eq!(Counter { count: 3 }.try_to_jsonl_flat(None).unwrap(), "KESTREL_VAR count = 3");
}

#[test]
fn entry_lines() {
    assert_eq!(entry_line("M", "n", "v"), "M n = v");
    assert_eq!(entry_line("", "", ""), "  = ");
    let names = vec!["a".to_string(), "b".to_string(), "c".to_string()];
    let values = vec!["1".to_string(), "2".to_string()];
    assert_eq!(flat_lines("M", Some("p"), &names, &values), vec!["M p_a = 1".to_string(), "M p_b = 2".to_string()]);
    assert_eq!(flat_lines("M", None, &values, &names), vec!["M 1 = a".to_string(), "M 2 = b".to_string()]);
    assert!(flat_lines("M", None, &vec![], &values).is_empty());
    // a written line is read back with the value trimmed
    let parser = JsonlParser::with_marker("a b");
    let map = parser.parse(&entry_line("a b", "x_1", "  = y \t"));
    assert_eq!(map.get("x_1").unwrap().text(), "= y");
}

#[test]
fn receiver_of_a_filler() {
    let mut filler = JsonlFiller::new();
    filler.clone_sender().try_send("KESTREL_VAR count = 5".to_string()).unwrap();
    let line = filler.receiver().try_recv().ok();
    assert_eq!(line, Some("KESTREL_VAR count = 5".to_string()));
    let built: Option<Counter> = filler.try_fill_with(line, None).unwrap();
    assert_eq!(built, Some(Counter { count: 5 }));
}

#[test]
fn the_marker_of_the_wire_format() {
    let parser = JsonlParser::new();
    let map = parser.parse("KESTREL_VAR a = 1\nKESTREL_VAR b = x\nKESTREL_VAR a = 2");
    assert_eq!(map.len(), 2);
    assert_eq!(to_json(map.get("a").unwrap()), serde_json::Value::from(2));
    assert_eq!(to_json(map.get("b").unwrap()), serde_json::Value::from("x"));

    let map = parser.parse("KESTREL_VAR invalid = {invalid json gets parsed as string}");
    assert_eq!(map.len(), 1);
    assert_eq!(
        to_json(map.get("invalid").unwrap()),
        serde_json::Value::from("{invalid json gets parsed as string}")
    );

    let map = parser.parse(
        "    Random log entry\n    KESTREL_VAR foo = {\"key\": \"value\"}\n    KESTREL_VAR bar = {\"number\": 42, \"list\": [1, 2, 3]}\n    KESTREL_VAR raw_string = HelloWorld\n",
    );
    assert_eq!(map.len(), 3);
    assert_eq!(
        to_json(map.get("foo").unwrap()),
        object(vec![("key", serde_json::Value::from("value"))])
    );
    assert_eq!(to_json(map.get("raw_string").unwrap()), serde_json::Value::from("HelloWorld"));

    let map = parser.parse("KESTREL_VAR raw_number = 12345");
    assert_eq!(to_json(map.get("raw_number").unwrap()), serde_json::Value::from(12345));
    assert!(map.get("raw_number").unwrap().is_structured());

    let map = parser.parse("KESTREL_VAR x = .5");
    assert!(map.get("x").unwrap().is_number());
    assert_eq!(to_json(map.get("x").unwrap()), serde_json::Value::from(0.5));

    // lines with another marker are passed over
    assert!(parser.parse("JSONL a = 1").is_empty());

    assert_eq!(
        try_from_jsonl::<Counter>("KESTREL_VAR foo_count = 1\nKESTREL_VAR count = 2", Some("foo")).unwrap(),
        Counter { count: 1 }
    );
    assert_eq!(
        try_from_jsonl::<Counter>("KESTREL_VAR count = 2", Some("foo")).unwrap(),
        Counter { count: 2 }
    );
}

#[test]
fn a_filler_reads_the_marker_of_the_wire_format() {
    let mut filler = JsonlFiller::new();
    let sender = filler.clone_sender();
    sender.try_send("KESTREL_VAR key = value".to_string()).unwrap();
    assert_eq!(filler.try_fill::<TestStruct>(None).unwrap(), None);
    sender.try_send("KESTREL_VAR number = 42".to_string()).unwrap();
    assert_eq!(filler.try_fill::<TestStruct>(None).unwrap(), None);
    sender.try_send("KESTREL_VAR inner = {\"key\":\"value\",\"number\":42}".to_string()).unwrap();
    assert_eq!(
        filler.try_fill::<TestStruct>(None).unwrap(),
        Some(TestStruct {
            key: "value".to_string(),
            number: 42,
            inner: TestStructInner { key: "value".to_string(), number: 42 },
        })
    );

    let mut filler = JsonlFiller::new();
    filler.clone_sender().try_send("KESTREL_VAR count = hello".to_string()).unwrap();
    assert!(filler.try_fill::<Counter>(None).is_err());
}
