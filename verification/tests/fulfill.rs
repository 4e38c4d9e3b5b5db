use kestrel::fulfill::custom::{Custom, CustomProcessor};
use kestrel::fulfill::engine::{Engine, Fulfill, FulfillError, Stage};
use kestrel::fulfill::jsonl::{fill_answer, Jsonl, VAR_MARKER};
use kestrel::jsonlvar::filler::JsonlFillerError;
use kestrel::jsonlvar::target::JsonlError;
use kestrel::jsonlvar::value::Value;
use kestrel::state::cell::State;
use tokio::sync::mpsc::Receiver;

fn to_json(value: &Value) -> serde_json::Value {
    match value {
        Value::Structured(text) => serde_json::from_str(text).unwrap(),
        Value::Number(text) => serde_json::Value::from(text.parse::<f64>().unwrap()),
        Value::Text(text) => serde_json::Value::String(text.clone()),
    }
}

#[derive(Debug, PartialEq, Clone)]
struct Inner {
    key: String,
    number: i64,
}

#[derive(Debug, PartialEq, Clone)]
struct Target {
    key: String,
    number: i64,
    inner: Inner,
}

fn text(json: &serde_json::Value) -> Result<String, String> {
    serde_json::from_value::<String>(json.clone()).map_err(|e| e.to_string())
}

fn whole(json: &serde_json::Value) -> Result<i64, String> {
    serde_json::from_value::<i64>(json.clone()).map_err(|e| e.to_string())
}

impl kestrel::jsonlvar::target::Jsonl for Target {
    fn field_names() -> Vec<String> {
        vec!["key".to_string(), "number".to_string(), "inner".to_string()]
    }

    fn check_field(index: usize, value: &Value) -> Result<(), String> {
        let json = to_json(value);
        match index {
            0 => text(&json).map(|_| ()),
            1 => whole(&json).map(|_| ()),
            _ => {
                let map = json.as_object().ok_or_else(|| "invalid type: expected a map".to_string())?;
                text(map.get("key").ok_or_else(|| "missing field `key`".to_string())?)?;
                whole(map.get("number").ok_or_else(|| "missing field `number`".to_string())?)?;
                Ok(())
            }
        }
    }

    fn from_values(values: Vec<&Value>) -> Result<Self, String> {
        let inner = to_json(values[2]);
        let map = inner.as_object().ok_or_else(|| "invalid type: expected a map".to_string())?;
        Ok(Target {
            key: text(&to_json(values[0]))?,
            number: whole(&to_json(values[1]))?,
            inner: Inner {
                key: text(map.get("key").ok_or_else(|| "missing field `key`".to_string())?)?,
                number: whole(map.get("number").ok_or_else(|| "missing field `number`".to_string())?)?,
            },
        })
    }

    fn to_json(&self) -> Result<String, String> {
        Err("not written".to_string())
    }

    fn fields_to_json(&self) -> Result<Vec<String>, String> {
        Err("not written".to_string())
    }
}

fn expected() -> Target {
    Target {
        key: "value".to_string(),
        number: 42,
        inner: Inner { key: "value".to_string(), number: 42 },
    }
}

#[test]
fn three_lines_fulfill_the_target() {
    assert_eq!(VAR_MARKER, "KESTREL_VAR");
    let mut engine: Jsonl<Target> = Jsonl::new(State::new(), None);
    assert_eq!(engine.stage(), Stage::Idle);
    let sender = engine.sender().unwrap();

    sender.try_send("KESTREL_VAR key = value".to_string()).unwrap();
    match engine.try_fulfill() {
        Err(e @ FulfillError::Fulfill(_)) => {
            assert_eq!(e.message(), "failed to fulfill request: unable to fulfill request");
        }
        other => panic!("{other:?}"),
    }
    assert_eq!(engine.stage(), Stage::Attempting);
    assert_eq!(engine.dependency().unwrap().get(), None);

    sender.try_send("KESTREL_VAR number = 42".to_string()).unwrap();
    assert!(matches!(engine.try_fulfill(), Err(FulfillError::Fulfill(_))));
    assert_eq!(engine.stage(), Stage::Attempting);

    assert_eq!(engine.publications(), 0);
    sender.try_send("KESTREL_VAR inner = {\"key\":\"value\",\"number\":42}".to_string()).unwrap();
    assert_eq!(engine.try_fulfill().unwrap(), expected());
    assert_eq!(engine.stage(), Stage::Fulfilled);
    assert_eq!(engine.publications(), 1);

    // the target cell reports that value on read
    assert_eq!(engine.dependency().unwrap().get(), Some(expected()));
    let cell = engine.into_state();
    assert_eq!(cell.read().get(), Some(expected()));
    assert_eq!(cell.wake_count(), 1);
}

#[test]
fn the_cell_is_written_once() {
    let mut engine: Jsonl<Target> = Jsonl::new(State::new(), None);
    for line in [
        "KESTREL_VAR key = value",
        "noise",
        "KESTREL_VAR number = 42",
        "KESTREL_VAR inner = {\"key\":\"value\",\"number\":42}",
    ] {
        let _ = engine.try_fulfill_with(Some(line.to_string()));
    }
    assert_eq!(engine.stage(), Stage::Fulfilled);
    // later attempts return the value and write nothing, whatever comes
    assert_eq!(engine.try_fulfill_with(Some("KESTREL_VAR number = 43".to_string())).unwrap(), expected());
    assert_eq!(engine.try_fulfill_with(None).unwrap(), expected());
    assert_eq!(engine.try_fulfill().unwrap(), expected());
    assert!(matches!(engine.run(5), Some(Ok(t)) if t == expected()));
    let cell = engine.into_state();
    assert_eq!(cell.wake_count(), 1);
    assert_eq!(cell.get(), Some(expected()));
}

#[test]
fn a_value_that_does_not_decode_is_fatal() {
    let mut engine: Jsonl<Target> = Jsonl::new(State::new(), Some("p".to_string()));
    // a misfit behind a missing field does not show yet
    assert!(engine.try_fulfill_with(Some("KESTREL_VAR number = many".to_string())).is_err());
    assert_eq!(engine.stage(), Stage::Attempting);
    match engine.try_fulfill_with(Some("KESTREL_VAR p_key = value".to_string())) {
        Err(e @ FulfillError::Fulfill(_)) => {
            assert!(e.message().starts_with(
                "failed to fulfill request: Failed to fill variable: JSON parsing error: "
            ));
        }
        other => panic!("{other:?}"),
    }
    assert_eq!(engine.stage(), Stage::Failed);
    // a failed engine stays failed and takes nothing in
    match engine.try_fulfill_with(Some("KESTREL_VAR number = 42".to_string())) {
        Err(e @ FulfillError::Internal(_)) => {
            assert_eq!(e.message(), "internal fulfillment error: fulfillment has failed");
        }
        other => panic!("{other:?}"),
    }
    assert!(matches!(engine.run(3), Some(Err(FulfillError::Internal(_)))));
    let cell = engine.into_state();
    assert!(!cell.is_set());
    assert_eq!(cell.wake_count(), 0);
}

#[test]
fn prefixed_entries_are_preferred() {
    let mut engine: Jsonl<Target> = Jsonl::with_marker(State::new(), Some("foo".to_string()), "VAR");
    let _ = engine.try_fulfill_with(Some("VAR key = bare".to_string()));
    let _ = engine.try_fulfill_with(Some("VAR foo_key = prefixed".to_string()));
    let _ = engine.try_fulfill_with(Some("VAR number = 1".to_string()));
    let built = engine
        .try_fulfill_with(Some("VAR foo_inner = {\"key\":\"k\",\"number\":2}".to_string()))
        .unwrap();
    assert_eq!(built.key, "prefixed");
    assert_eq!(built.number, 1);
    assert_eq!(built.inner, Inner { key: "k".to_string(), number: 2 });
}

#[test]
fn run_stops_when_the_attempts_are_used_up() {
    let mut engine: Jsonl<Target> = Jsonl::new(State::new(), None);
    let sender = engine.sender().unwrap();
    sender.try_send("KESTREL_VAR key = value".to_string()).unwrap();
    assert!(engine.run(0).is_none());
    assert_eq!(engine.stage(), Stage::Idle);
    assert!(engine.run(4).is_none());
    assert_eq!(engine.stage(), Stage::Attempting);
    sender.try_send("KESTREL_VAR number = 42".to_string()).unwrap();
    sender.try_send("KESTREL_VAR inner = {\"key\":\"value\",\"number\":42}".to_string()).unwrap();
    assert!(engine.run(1).is_none());
    assert!(matches!(engine.run(10), Some(Ok(t)) if t == expected()));
}

struct CountLines {
    wanted: usize,
}

impl CustomProcessor<usize> for CountLines {
    fn process_receiver(&self, receiver: &mut Receiver<String>) -> Result<Option<usize>, FulfillError> {
        let mut seen = 0;
        let mut held = Vec::new();
        while let Ok(line) = receiver.try_recv() {
            if line == "boom" {
                return Err(FulfillError::Internal("boom".to_string()));
            }
            seen += 1;
            held.push(line);
        }
        if seen >= self.wanted {
            Ok(Some(seen))
        } else {
            Ok(None)
        }
    }
}

#[test]
fn custom_strategy() {
    let mut engine = Custom::new(State::new(), CountLines { wanted: 2 });
    let sender = engine.sender().unwrap();
    assert_eq!(engine.stage(), Stage::Idle);
    sender.try_send("one".to_string()).unwrap();
    assert!(matches!(engine.try_fulfill(), Err(FulfillError::Fulfill(_))));
    assert_eq!(engine.stage(), Stage::Attempting);
    sender.try_send("two".to_string()).unwrap();
    sender.try_send("three".to_string()).unwrap();
    assert_eq!(engine.try_fulfill().unwrap(), 2);
    assert_eq!(engine.stage(), Stage::Fulfilled);
    // the strategy is not asked again
    sender.try_send("boom".to_string()).unwrap();
    assert_eq!(engine.try_fulfill().unwrap(), 2);
    assert_eq!(engine.dependency().unwrap().get(), Some(2));
    let cell = engine.into_state();
    assert_eq!(cell.wake_count(), 1);

    let mut failing = Custom::new(State::new(), CountLines { wanted: 1 });
    failing.sender().unwrap().try_send("boom".to_string()).unwrap();
    match failing.try_fulfill() {
        Err(FulfillError::Internal(m)) => assert_eq!(m, "boom"),
        other => panic!("{other:?}"),
    }
    assert_eq!(failing.stage(), Stage::Failed);
    assert!(!failing.into_state().is_set());
}

#[test]
fn engine_settles_answers() {
    let mut engine: Engine<u8> = Engine::new(State::new());
    assert_eq!(engine.stage(), Stage::Idle);
    assert!(engine.resume().is_none());
    assert!(matches!(engine.settle(Ok(None)), Err(FulfillError::Fulfill(_))));
    assert_eq!(engine.stage(), Stage::Attempting);
    assert_eq!(engine.settle(Ok(Some(5))).unwrap(), 5);
    assert_eq!(engine.stage(), Stage::Fulfilled);
    assert_eq!(engine.settle(Ok(Some(6))).unwrap(), 5);
    assert_eq!(engine.settle(Err(FulfillError::Sender("x".to_string()))).unwrap(), 5);
    assert!(matches!(engine.resume(), Some(Ok(5))));
    assert_eq!(engine.into_state().wake_count(), 1);

    // a cell that is set from outside fulfills the engine
    let mut engine: Engine<u8> = Engine::new(State::new());
    engine.dependency().set(3);
    assert_eq!(engine.stage(), Stage::Fulfilled);
    assert_eq!(engine.settle(Ok(Some(4))).unwrap(), 3);

    let mut engine: Engine<u8> = Engine::new(State::new());
    match engine.settle(Err(FulfillError::Sender("gone".to_string()))) {
        Err(e @ FulfillError::Sender(_)) => assert_eq!(e.message(), "failed to get sender: gone"),
        other => panic!("{other:?}"),
    }
    assert_eq!(engine.stage(), Stage::Failed);
    assert!(matches!(engine.settle(Ok(Some(1))), Err(FulfillError::Internal(_))));
    assert!(!engine.into_state().is_set());
}

#[test]
fn fill_answers() {
    assert!(matches!(fill_answer::<u8>(Ok(Some(1))), Ok(Some(1))));
    assert!(matches!(fill_answer::<u8>(Ok(None)), Ok(None)));
    let failure = JsonlFillerError::FillError(JsonlError::Json("bad".to_string()));
    match fill_answer::<u8>(Err(failure)) {
        Err(FulfillError::Fulfill(m)) => {
            assert_eq!(m, "Failed to fill variable: JSON parsing error: bad");
        }
        other => panic!("{other:?}"),
    }
}

#[test]
fn a_scheduler_receives_for_the_engine() {
    let mut engine: Jsonl<Target> = Jsonl::new(State::new(), None);
    let sender = engine.sender().unwrap();
    sender.try_send("KESTREL_VAR key = value".to_string()).unwrap();
    let line = engine.receiver().try_recv().ok();
    assert_eq!(line, Some("KESTREL_VAR key = value".to_string()));
    assert!(engine.try_get_with(line).unwrap().is_none());
    assert_eq!(engine.stage(), Stage::Idle);

    let mut custom = Custom::new(State::new(), CountLines { wanted: 1 });
    custom.sender().unwrap().try_send("one".to_string()).unwrap();
    let answer = {
        let (receiver, task) = custom.parts();
        task.process_receiver(receiver)
    };
    assert_eq!(custom.settle(answer).unwrap(), 1);
    assert_eq!(custom.stage(), Stage::Fulfilled);
}

#[test]
fn a_line_channel_holds_a_hundred_lines() {
    assert_eq!(kestrel::channel::LINE_CAPACITY, 100);
    let (sender, mut receiver) = kestrel::channel::line_channel();
    for n in 0..100 {
        assert!(sender.try_send(format!("line {n}")).is_ok());
    }
    assert!(sender.try_send("one too many".to_string()).is_err());
    // lines come out in the order in which they went in
    assert_eq!(receiver.try_recv().unwrap(), "line 0");
    assert_eq!(receiver.try_recv().unwrap(), "line 1");
    assert!(sender.clone().try_send("now there is room".to_string()).is_ok());
}

struct Scripted {
    calls: std::sync::Arc<std::sync::atomic::AtomicUsize>,
}

impl CustomProcessor<i32> for Scripted {
    fn process_receiver(&self, _receiver: &mut Receiver<String>) -> Result<Option<i32>, FulfillError> {
        let call = self.calls.fetch_add(1, std::sync::atomic::Ordering::SeqCst);
        if call < 2 {
            Ok(None)
        } else {
            Ok(Some(7))
        }
    }
}

#[test]
fn run_asks_the_strategy_once_for_each_attempt() {
    let calls = std::sync::Arc::new(std::sync::atomic::AtomicUsize::new(0));
    let mut engine = Custom::new(State::new(), Scripted { calls: calls.clone() });
    assert!(matches!(engine.run(10), Some(Ok(7))));
    assert_eq!(calls.load(std::sync::atomic::Ordering::SeqCst), 3);
    assert_eq!(engine.publications(), 1);
    // at its end the engine asks no more
    assert!(matches!(engine.run(10), Some(Ok(7))));
    assert!(matches!(engine.try_fulfill(), Ok(7)));
    assert_eq!(calls.load(std::sync::atomic::Ordering::SeqCst), 3);
    assert_eq!(engine.into_state().get(), Some(7));

    // all attempts used up: each was one asking
    let calls = std::sync::Arc::new(std::sync::atomic::AtomicUsize::new(0));
    let mut engine = Custom::new(State::new(), Scripted { calls: calls.clone() });
    assert!(engine.run(2).is_none());
    assert_eq!(calls.load(std::sync::atomic::Ordering::SeqCst), 2);
    assert!(matches!(engine.run(1), Some(Ok(7))));
    assert_eq!(calls.load(std::sync::atomic::Ordering::SeqCst), 3);
}
