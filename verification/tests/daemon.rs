use serde_json::Value;
use wintermute_stt::bus::{
    outgoing, ErrorEvent, FinalEvent, ModelLoadedEvent, PartialEvent, ReloadModelRequest, Request,
    SpeechChunkEvent, SpeechEndEvent, SpeechStartEvent, UncertainEvent,
};
use wintermute_stt::confidence::Confidence;
use wintermute_stt::daemon::{
    build_stub_processor, dispatch, runs_on_blocking_pool, topic_for_emit, Flush, Unsent,
    STUB_FIXED_CONFIDENCE, STUB_FIXED_CONFIDENCE_SHOWN,
};
use wintermute_stt::engine::StubEngine;
use wintermute_stt::payload::{payload_fields, FieldValue};
use wintermute_stt::processor::{Emit, UtteranceProcessor};
use wintermute_stt::{SttConfig, Threshold};

fn confidence(c: f32) -> Confidence {
    Confidence::from_bits(c.to_bits())
}

fn fresh() -> UtteranceProcessor<StubEngine> {
    build_stub_processor(SttConfig::default()).expect("stub builds")
}

fn json(emit: &Emit) -> Value {
    let mut map = serde_json::Map::new();
    for field in payload_fields(emit) {
        let value = match field.value {
            FieldValue::Text(text) => Value::from(text),
            FieldValue::Count(n) => Value::from(n),
            FieldValue::Number(c) => Value::from(f32::from_bits(c.to_bits())),
        };
        map.insert(field.name.to_string(), value);
    }
    Value::Object(map)
}

fn send(p: &mut UtteranceProcessor<StubEngine>, req: Request, now_ms: u64) -> Vec<(String, Value)> {
    let out = dispatch(p, req, now_ms);
    out.iter().map(|x| (x.topic.to_string(), json(&x.emit))).collect()
}

fn start(ts: u64) -> Request {
    Request::SpeechStart(SpeechStartEvent { ts })
}

fn end(duration_ms: u32, ts: u64, turn_id: Option<String>) -> Request {
    Request::SpeechEnd(SpeechEndEvent { duration_ms, ts, turn_id })
}

fn reload(model: &str) -> Request {
    Request::ReloadModel(ReloadModelRequest { model: model.to_string() })
}

#[test]
fn dispatch_speech_start_publishes_nothing() {
    let mut p = fresh();
    let events = send(&mut p, start(100), 100);
    assert!(events.is_empty(), "speech.start is silent");
}

#[test]
fn dispatch_speech_end_publishes_final() {
    let mut p = fresh();
    send(&mut p, start(0), 0);
    let events = send(&mut p, end(5000, 5000, None), 5000);
    assert_eq!(events.len(), 1);
    assert_eq!(events[0].0, outgoing::FINAL);
    assert_eq!(events[0].1["duration_ms"], 5000);
    assert_eq!(events[0].1["model"], "distil-small.en");
}

#[test]
fn dispatch_chunk_while_idle_publishes_protocol_error() {
    let mut p = fresh();
    let chunk = SpeechChunkEvent { seq: 0, pcm_b64: "AAAA".to_string(), ts: 1 };
    let events = send(&mut p, Request::SpeechChunk(chunk), 1);
    assert_eq!(events.len(), 1);
    assert_eq!(events[0].0, outgoing::ERROR);
    assert_eq!(events[0].1["kind"], "protocol");
}

#[test]
fn dispatch_reload_idle_publishes_model_loaded() {
    let mut p = fresh();
    let events = send(&mut p, reload("medium.en"), 42);
    assert_eq!(events.len(), 1);
    assert_eq!(events[0].0, outgoing::MODEL_LOADED);
    assert_eq!(events[0].1["model"], "medium.en");
    assert_eq!(events[0].1["ts"], 42);
}

#[test]
fn dispatch_reload_unknown_model_publishes_error() {
    let mut p = fresh();
    let events = send(&mut p, reload("tiny.en"), 7);
    assert_eq!(events.len(), 1);
    assert_eq!(events[0].0, outgoing::ERROR);
    assert_eq!(events[0].1["kind"], "model");
}

#[test]
fn dispatch_uncertain_when_threshold_above_stub_confidence() {
    let cfg = SttConfig {
        confidence_threshold: Threshold::new(confidence(0.99), "0.99"),
        ..SttConfig::default()
    };
    let mut p = build_stub_processor(cfg).expect("stub builds");
    send(&mut p, start(0), 0);
    let events = send(&mut p, end(500, 500, None), 500);
    assert_eq!(events.len(), 1);
    assert_eq!(events[0].0, outgoing::UNCERTAIN);
}

#[test]
fn dispatch_final_carries_inbound_turn_id() {
    let mut p = fresh();
    let tid = "0123456789abc-0001".to_string();
    send(&mut p, start(0), 0);
    let events = send(&mut p, end(3000, 3000, Some(tid.clone())), 3000);
    assert_eq!(events[0].0, outgoing::FINAL, "must route to wm.stt.final");
    assert_eq!(events[0].1["turn_id"], tid, "out turn_id must equal in turn_id");
}

#[test]
fn dispatch_final_no_turn_id_when_absent() {
    let mut p = fresh();
    send(&mut p, start(0), 0);
    let events = send(&mut p, end(3000, 3000, None), 3000);
    assert_eq!(events[0].0, outgoing::FINAL);
    assert!(
        events[0].1.get("turn_id").is_none(),
        "absent inbound turn_id must not appear in output"
    );
}

#[test]
fn dispatch_keeps_the_order_of_events() {
    let mut p = fresh();
    send(&mut p, start(0), 0);
    send(&mut p, reload("small.en"), 1);
    let events = send(&mut p, end(3000, 3000, None), 3000);
    let topics: Vec<&str> = events.iter().map(|e| e.0.as_str()).collect();
    assert_eq!(topics, vec![outgoing::FINAL, outgoing::MODEL_LOADED]);
}

#[test]
fn topic_for_emit_matches_outgoing_constants() {
    assert_eq!(
        topic_for_emit(&Emit::Partial(PartialEvent {
            text: String::new(),
            ts: 0,
            turn_id: None,
        })),
        outgoing::PARTIAL
    );
    assert_eq!(
        topic_for_emit(&Emit::Final(FinalEvent {
            text: String::new(),
            confidence: confidence(0.5),
            duration_ms: 0,
            model: String::new(),
            ts: 0,
            turn_id: None,
        })),
        outgoing::FINAL
    );
    assert_eq!(
        topic_for_emit(&Emit::Uncertain(UncertainEvent {
            text: String::new(),
            confidence: confidence(0.1),
            reason: None,
            ts: 0,
            turn_id: None,
        })),
        outgoing::UNCERTAIN
    );
    assert_eq!(
        topic_for_emit(&Emit::Error(ErrorEvent {
            kind: String::new(),
            message: String::new(),
            ts: 0,
        })),
        outgoing::ERROR
    );
    assert_eq!(
        topic_for_emit(&Emit::ModelLoaded(ModelLoadedEvent {
            model: String::new(),
            warmup_ms: 0,
            ts: 0,
        })),
        outgoing::MODEL_LOADED
    );
}

#[test]
fn build_stub_processor_rejects_invalid_threshold() {
    let cfg = SttConfig {
        confidence_threshold: Threshold::new(confidence(0.0), "0"),
        ..SttConfig::default()
    };
    let err = match build_stub_processor(cfg) {
        Ok(_) => panic!("invalid threshold rejected"),
        Err(err) => err,
    };
    assert!(err.message().contains("threshold"));
    assert_eq!(
        err.message(),
        "wm-stt: config validation failed: invalid confidence threshold 0; must be in (0.0, 1.0]"
    );
}

#[test]
fn build_stub_processor_rejects_unknown_model() {
    let cfg = SttConfig { model: "tiny.en".to_string(), ..SttConfig::default() };
    let err = match build_stub_processor(cfg) {
        Ok(_) => panic!("unknown model rejected"),
        Err(err) => err,
    };
    assert!(err.message().contains("tiny.en"));
}

#[test]
fn stub_confidence_is_the_number_that_is_shown() {
    let number: f32 = STUB_FIXED_CONFIDENCE_SHOWN.parse().expect("parses");
    assert_eq!(number.to_bits(), STUB_FIXED_CONFIDENCE);
    assert_eq!(number, 0.9);
}

#[test]
fn only_speech_ends_leave_the_event_loop() {
    assert!(runs_on_blocking_pool(&end(1, 1, None)));
    assert!(!runs_on_blocking_pool(&start(1)));
    assert!(!runs_on_blocking_pool(&reload("small.en")));
    let chunk = SpeechChunkEvent { seq: 0, pcm_b64: String::new(), ts: 1 };
    assert!(!runs_on_blocking_pool(&Request::SpeechChunk(chunk)));
}

fn two_publications() -> Unsent {
    let mut p = fresh();
    send(&mut p, start(0), 0);
    send(&mut p, reload("small.en"), 1);
    Unsent::new(dispatch(&mut p, end(3000, 3000, None), 3000))
}

#[test]
fn publications_are_sent_one_after_another() {
    let mut unsent = two_publications();
    assert!(matches!(unsent.next(Ok(())), Flush::Send(p) if p.topic == outgoing::FINAL));
    assert!(matches!(unsent.next(Ok(())), Flush::Send(p) if p.topic == outgoing::MODEL_LOADED));
    assert!(matches!(unsent.next(Ok(())), Flush::Done(Ok(()))));
    assert!(matches!(Unsent::new(Vec::new()).next(Ok(())), Flush::Done(Ok(()))));
}

#[test]
fn first_failure_ends_the_flush() {
    let mut unsent = two_publications();
    assert!(matches!(unsent.next(Ok(())), Flush::Send(_)));
    let failure = Err("broken pipe".to_string());
    assert!(matches!(unsent.next(failure), Flush::Done(Err(cause)) if cause == "broken pipe"));
    assert!(matches!(unsent.next(Ok(())), Flush::Done(Ok(()))));
}
