use serde_json::Value;
use tweets_consumer::json::JsonValue;
use tweets_consumer::pump::{process, Pump, PumpAction, PumpOutcome, PumpState};
use tweets_consumer::sink::AppendLog;

fn tree(v: &Value) -> JsonValue {
    match v {
        Value::Null => JsonValue::Null,
        Value::Bool(b) => JsonValue::Bool(*b),
        Value::Number(n) => match n.as_u64() {
            Some(u) => JsonValue::Num(u),
            None => JsonValue::NumOther,
        },
        Value::String(s) => JsonValue::Str(s.clone()),
        Value::Array(a) => JsonValue::Arr(a.iter().map(tree).collect()),
        Value::Object(m) => {
            JsonValue::Obj(m.iter().map(|(k, val)| (k.clone(), tree(val))).collect())
        }
    }
}

fn parse_frame(text: &str) -> JsonValue {
    tree(&serde_json::from_str::<Value>(text).expect("frame is valid JSON"))
}

fn english_frame() -> &'static str {
    r#"{"id":1,"user":{"screen_name":"alice","location":"NYC"},"text":"hello","entities":{"hashtags":[{"text":"x"}]},"lang":"en","possibly_sensitive":false}"#
}

fn streaming_pump() -> Pump {
    let mut pump = Pump::new();
    let act = pump.on_connect(true);
    assert!(matches!(act, PumpAction::AwaitFrame));
    pump
}

#[test]
fn end_to_end_english_frame_is_appended() {
    let frame = parse_frame(english_frame());
    let mut pump = streaming_pump();
    let act = pump.on_frame(&frame);
    let rec = match act {
        PumpAction::Append(rec) => rec,
        _ => panic!("expected an append"),
    };
    assert_eq!(rec.id, "1");
    assert_eq!(rec.user, "alice");
    assert_eq!(rec.text, "hello");
    assert_eq!(rec.location, "NYC");
    assert_eq!(rec.hashtags, "x");

    let mut log = AppendLog::new();
    let first = log.next_id;
    let id = log.append(rec);
    assert_eq!(id, first);
    assert_eq!(log.entries.len(), 1);

    let act = pump.on_append_result(true);
    assert!(matches!(act, PumpAction::AwaitFrame));
    assert!(matches!(pump.state, PumpState::Streaming));
}

#[test]
fn end_to_end_foreign_language_is_skipped() {
    let text = english_frame().replace(r#""lang":"en""#, r#""lang":"fr""#);
    let frame = parse_frame(&text);
    let mut pump = streaming_pump();
    let act = pump.on_frame(&frame);
    assert!(matches!(act, PumpAction::AwaitFrame));
    assert!(matches!(pump.state, PumpState::Streaming));
}

#[test]
fn end_to_end_sensitive_event_is_skipped() {
    let text = english_frame().replace(
        r#""possibly_sensitive":false"#,
        r#""possibly_sensitive":true"#,
    );
    let frame = parse_frame(&text);
    let mut pump = streaming_pump();
    let act = pump.on_frame(&frame);
    assert!(matches!(act, PumpAction::AwaitFrame));
    assert!(matches!(pump.state, PumpState::Streaming));
}

#[test]
fn end_to_end_heartbeat_is_skipped_and_pump_continues() {
    let heartbeat = parse_frame(r#"{"delete":{"status":{"id":7}}}"#);
    let mut pump = streaming_pump();
    let act = pump.on_frame(&heartbeat);
    assert!(matches!(act, PumpAction::AwaitFrame));
    assert!(matches!(pump.state, PumpState::Streaming));

    // the pump goes on with the next frame as if nothing had arrived
    let frame = parse_frame(english_frame());
    let act = pump.on_frame(&frame);
    assert!(matches!(act, PumpAction::Append(_)));
}

#[test]
fn end_to_end_missing_tag_container_is_fatal() {
    let text = english_frame().replace(r#""entities":{"hashtags":[{"text":"x"}]},"#, "");
    let frame = parse_frame(&text);
    let mut pump = streaming_pump();
    let act = pump.on_frame(&frame);
    assert!(matches!(act, PumpAction::Stop));
    assert!(matches!(
        pump.state,
        PumpState::Terminated(PumpOutcome::Failure)
    ));
}

#[test]
fn process_appends_only_accepted_frames() {
    let mut pump = streaming_pump();
    let mut log = AppendLog::new();

    let foreign = english_frame().replace(r#""lang":"en""#, r#""lang":"es""#);
    assert_eq!(process(&mut pump, &mut log, &parse_frame(&foreign)), None);
    assert_eq!(log.entries.len(), 0);

    let heartbeat = parse_frame(r#"{"event":"ping"}"#);
    assert_eq!(process(&mut pump, &mut log, &heartbeat), None);
    assert_eq!(log.entries.len(), 0);

    let id = process(&mut pump, &mut log, &parse_frame(english_frame()));
    assert_eq!(id, Some(0));
    assert_eq!(log.entries.len(), 1);
    assert_eq!(log.entries[0].user, "alice");

    let id = process(&mut pump, &mut log, &parse_frame(english_frame()));
    assert_eq!(id, Some(1));
    assert_eq!(log.entries.len(), 2);
    assert!(matches!(pump.state, PumpState::Streaming));
}

#[test]
fn feed_close_terminates_with_success() {
    let mut pump = streaming_pump();
    pump.on_feed_closed();
    assert!(matches!(
        pump.state,
        PumpState::Terminated(PumpOutcome::Success)
    ));
}

#[test]
fn connect_failure_terminates_with_failure() {
    let mut pump = Pump::new();
    let act = pump.on_connect(false);
    assert!(matches!(act, PumpAction::Stop));
    assert!(matches!(
        pump.state,
        PumpState::Terminated(PumpOutcome::Failure)
    ));
}

#[test]
fn append_failure_terminates_with_failure() {
    let frame = parse_frame(english_frame());
    let mut pump = streaming_pump();
    let act = pump.on_frame(&frame);
    assert!(matches!(act, PumpAction::Append(_)));
    let act = pump.on_append_result(false);
    assert!(matches!(act, PumpAction::Stop));
    assert!(matches!(
        pump.state,
        PumpState::Terminated(PumpOutcome::Failure)
    ));
}
