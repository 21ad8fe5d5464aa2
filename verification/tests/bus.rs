use serde_json::Value;
use wintermute_stt::bus::{
    decode_request, incoming, now_unix_ms, outgoing, saturate_ms, DecodeError, ErrorEvent,
    FinalEvent, ModelLoadedEvent, PartialEvent, Payload, ReloadModelRequest, Request,
    SpeechChunkEvent, SpeechEndEvent, SpeechStartEvent, UncertainEvent,
};
use wintermute_stt::confidence::Confidence;
use wintermute_stt::payload::{payload_fields, FieldValue};
use wintermute_stt::processor::Emit;

fn object(fields: Vec<(&str, Value)>) -> Value {
    let mut map = serde_json::Map::new();
    for (name, value) in fields {
        map.insert(name.to_string(), value);
    }
    Value::Object(map)
}

fn number(v: &Value, name: &str) -> Result<u64, String> {
    v.get(name).and_then(Value::as_u64).ok_or(format!("missing field `{name}`"))
}

fn string(v: &Value, name: &str) -> Result<String, String> {
    let found = v.get(name).and_then(Value::as_str);
    found.map(str::to_string).ok_or(format!("missing field `{name}`"))
}

fn start_of(v: &Value) -> Result<SpeechStartEvent, String> {
    Ok(SpeechStartEvent { ts: number(v, "ts")? })
}

fn chunk_of(v: &Value) -> Result<SpeechChunkEvent, String> {
    Ok(SpeechChunkEvent {
        seq: number(v, "seq")?,
        pcm_b64: string(v, "pcm_b64")?,
        ts: number(v, "ts")?,
    })
}

fn end_of(v: &Value) -> Result<SpeechEndEvent, String> {
    Ok(SpeechEndEvent {
        duration_ms: u32::try_from(number(v, "duration_ms")?).map_err(|e| e.to_string())?,
        ts: number(v, "ts")?,
        turn_id: string(v, "turn_id").ok(),
    })
}

fn reload_of(v: &Value) -> Result<ReloadModelRequest, String> {
    Ok(ReloadModelRequest { model: string(v, "model")? })
}

fn payload(v: &Value) -> Payload {
    Payload {
        as_start: start_of(v),
        as_chunk: chunk_of(v),
        as_end: end_of(v),
        as_reload: reload_of(v),
    }
}

fn json(emit: &Emit) -> Value {
    let mut map = serde_json::Map::new();
    for field in payload_fields(emit) {
        let value = match field.value {
            FieldValue::Text(text) => Value::from(text),
            FieldValue::Count(n) => Value::from(n),
            FieldValue::Number(c) => Value::from(f32::from_bits(c.to_bits())),
        };
        let earlier = map.insert(field.name.to_string(), value);
        assert!(earlier.is_none(), "field {} occurs once", field.name);
    }
    Value::Object(map)
}

fn confidence(c: f32) -> Confidence {
    Confidence::from_bits(c.to_bits())
}

#[test]
fn decode_speech_start_minimal() {
    let v = object(vec![("ts", Value::from(1_234_567_890_123_u64))]);
    let req = decode_request(incoming::SPEECH_START, payload(&v)).expect("decodes");
    match req {
        Request::SpeechStart(s) => assert_eq!(s.ts, 1_234_567_890_123),
        other => panic!("wrong variant: {other:?}"),
    }
}

#[test]
fn decode_speech_chunk_roundtrip() {
    let v = object(vec![
        ("seq", Value::from(7)),
        ("pcm_b64", Value::from("AAAA")),
        ("ts", Value::from(42_u64)),
    ]);
    let req = decode_request(incoming::SPEECH_CHUNK, payload(&v)).expect("decodes");
    match req {
        Request::SpeechChunk(c) => {
            assert_eq!(c.seq, 7);
            assert_eq!(c.pcm_b64, "AAAA");
            assert_eq!(c.ts, 42);
        }
        other => panic!("wrong variant: {other:?}"),
    }
}

#[test]
fn decode_speech_end_minimal() {
    let v = object(vec![("duration_ms", Value::from(5000_u32)), ("ts", Value::from(99_u64))]);
    let req = decode_request(incoming::SPEECH_END, payload(&v)).expect("decodes");
    match req {
        Request::SpeechEnd(e) => {
            assert_eq!(e.duration_ms, 5000);
            assert_eq!(e.ts, 99);
            assert_eq!(e.turn_id, None);
        }
        other => panic!("wrong variant: {other:?}"),
    }
}

#[test]
fn decode_reload_model() {
    let v = object(vec![("model", Value::from("medium.en"))]);
    let req = decode_request(incoming::RELOAD_MODEL, payload(&v)).expect("decodes");
    match req {
        Request::ReloadModel(r) => assert_eq!(r.model, "medium.en"),
        other => panic!("wrong variant: {other:?}"),
    }
}

#[test]
fn decode_unknown_topic() {
    let v = object(vec![]);
    let err = decode_request("wm.stt.bogus", payload(&v)).expect_err("unknown topic rejected");
    assert_eq!(err.message(), "unknown topic: wm.stt.bogus");
    assert!(matches!(err, DecodeError::UnknownTopic(t) if t == "wm.stt.bogus"));
}

#[test]
fn decode_speech_start_missing_ts_errors() {
    let v = object(vec![]);
    let err = decode_request(incoming::SPEECH_START, payload(&v)).expect_err("missing ts");
    assert_eq!(err.message(), "payload decode failed: missing field `ts`");
    assert!(matches!(err, DecodeError::Json(_)));
}

#[test]
fn decode_speech_chunk_missing_pcm_errors() {
    let v = object(vec![("seq", Value::from(1)), ("ts", Value::from(1))]);
    let err = decode_request(incoming::SPEECH_CHUNK, payload(&v)).expect_err("missing pcm");
    assert!(matches!(err, DecodeError::Json(_)));
}

#[test]
fn decode_looks_at_the_shape_of_the_topic_only() {
    let v = object(vec![("ts", Value::from(1)), ("model", Value::from("small.en"))]);
    assert!(decode_request(incoming::SPEECH_START, payload(&v)).is_ok());
    assert!(decode_request(incoming::RELOAD_MODEL, payload(&v)).is_ok());
    assert!(decode_request(incoming::SPEECH_END, payload(&v)).is_err());
    assert!(decode_request(incoming::SPEECH_CHUNK, payload(&v)).is_err());
    assert!(decode_request("wm.audio.speech.", payload(&v)).is_err());
}

#[test]
fn outbound_final_roundtrip() {
    let v = json(&Emit::Final(FinalEvent {
        text: "hello world".to_string(),
        confidence: confidence(0.91),
        duration_ms: 4321,
        model: "distil-small.en".to_string(),
        ts: 17,
        turn_id: None,
    }));
    assert_eq!(v["text"], "hello world");
    assert_eq!(v["confidence"], 0.91_f32);
    assert_eq!(v["duration_ms"], 4321);
    assert_eq!(v["model"], "distil-small.en");
    assert_eq!(v["ts"], 17);
    assert_eq!(v.as_object().unwrap().len(), 5);
}

#[test]
fn outbound_uncertain_roundtrip() {
    let v = json(&Emit::Uncertain(UncertainEvent {
        text: "mumble".to_string(),
        confidence: confidence(0.2),
        reason: None,
        ts: 5,
        turn_id: None,
    }));
    assert_eq!(v["text"], "mumble");
    assert_eq!(v["confidence"], 0.2_f32);
    assert_eq!(v["ts"], 5);
    assert_eq!(v.as_object().unwrap().len(), 3);
}

#[test]
fn outbound_error_roundtrip() {
    let v = json(&Emit::Error(ErrorEvent {
        kind: "engine".to_string(),
        message: "whisper.cpp returned EIO".to_string(),
        ts: 3,
    }));
    assert_eq!(v["kind"], "engine");
    assert_eq!(v["message"], "whisper.cpp returned EIO");
    assert_eq!(v["ts"], 3);
}

#[test]
fn outbound_model_loaded_roundtrip() {
    let v = json(&Emit::ModelLoaded(ModelLoadedEvent {
        model: "small.en".to_string(),
        warmup_ms: 1980,
        ts: 100,
    }));
    assert_eq!(v["model"], "small.en");
    assert_eq!(v["warmup_ms"], 1980);
    assert_eq!(v["ts"], 100);
}

#[test]
fn optional_fields_are_there_when_they_hold_something() {
    let v = json(&Emit::Uncertain(UncertainEvent {
        text: String::new(),
        confidence: confidence(0.0),
        reason: Some("window_invalid".to_string()),
        ts: 5,
        turn_id: Some("t-1".to_string()),
    }));
    assert_eq!(v["reason"], "window_invalid");
    assert_eq!(v["turn_id"], "t-1");
    let v = json(&Emit::Partial(PartialEvent {
        text: "so far".to_string(),
        ts: 6,
        turn_id: Some("t-2".to_string()),
    }));
    assert_eq!(v["text"], "so far");
    assert_eq!(v["turn_id"], "t-2");
    let v = json(&Emit::Partial(PartialEvent { text: String::new(), ts: 6, turn_id: None }));
    assert!(v.get("turn_id").is_none());
}

#[test]
fn now_unix_ms_monotonic() {
    let a = now_unix_ms();
    let b = now_unix_ms();
    assert!(b >= a, "clock should not run backwards within a call");
}

#[test]
fn now_unix_ms_is_the_time_of_the_system_clock() {
    let since = std::time::SystemTime::now().duration_since(std::time::UNIX_EPOCH);
    let before = since.expect("after the epoch").as_millis();
    let now = u128::from(now_unix_ms());
    assert!(now >= before && now < before + 60_000);
}

#[test]
fn milliseconds_are_brought_into_64_bits() {
    assert_eq!(saturate_ms(Some(0)), 0);
    assert_eq!(saturate_ms(Some(1_700_000_000_000)), 1_700_000_000_000);
    assert_eq!(saturate_ms(Some(u128::from(u64::MAX))), u64::MAX);
    assert_eq!(saturate_ms(Some(u128::from(u64::MAX) + 1)), u64::MAX);
    assert_eq!(saturate_ms(None), u64::MAX);
}

#[test]
fn topic_constants_match_strings() {
    assert_eq!(incoming::SPEECH_START, "wm.audio.speech.start");
    assert_eq!(incoming::SPEECH_CHUNK, "wm.audio.speech.chunk");
    assert_eq!(incoming::SPEECH_END, "wm.audio.speech.end");
    assert_eq!(incoming::RELOAD_MODEL, "wm.stt.reload_model");
    assert_eq!(outgoing::PARTIAL, "wm.stt.partial");
    assert_eq!(outgoing::FINAL, "wm.stt.final");
    assert_eq!(outgoing::UNCERTAIN, "wm.stt.uncertain");
    assert_eq!(outgoing::ERROR, "wm.stt.error");
    assert_eq!(outgoing::MODEL_LOADED, "wm.stt.model_loaded");
}
