use wintermute_stt::bus::{
    Request, ReloadModelRequest, SpeechChunkEvent, SpeechEndEvent, SpeechStartEvent,
};
use wintermute_stt::confidence::Confidence;
use wintermute_stt::engine::{EngineError, EngineFinal, StubEngine, TranscriptionEngine};
use wintermute_stt::processor::{
    is_partial_due, Emit, UtteranceProcessor, MAX_WINDOW_MS, MIN_WINDOW_MS,
};
use wintermute_stt::{SttConfig, Threshold};

fn confidence(c: f32) -> Confidence {
    Confidence::from_bits(c.to_bits())
}

fn number(c: Confidence) -> f32 {
    f32::from_bits(c.to_bits())
}

fn threshold(t: f32) -> Threshold {
    Threshold::new(confidence(t), &t.to_string())
}

fn make(limit: f32, fixed_confidence: f32) -> UtteranceProcessor<StubEngine> {
    let engine = StubEngine::new("distil-small.en", &threshold(fixed_confidence)).unwrap();
    let cfg = SttConfig {
        confidence_threshold: threshold(limit),
        ..SttConfig::default()
    };
    UtteranceProcessor::new(engine, cfg)
}

fn start(p: &mut UtteranceProcessor<StubEngine>, ts: u64) -> Vec<Emit> {
    p.handle(Request::SpeechStart(SpeechStartEvent { ts }), ts)
}

fn chunk(p: &mut UtteranceProcessor<StubEngine>, pcm_b64: &str, ts: u64) -> Vec<Emit> {
    let event = SpeechChunkEvent { seq: 0, pcm_b64: pcm_b64.to_string(), ts };
    p.handle(Request::SpeechChunk(event), ts)
}

fn end(p: &mut UtteranceProcessor<StubEngine>, duration_ms: u32, turn: Option<&str>) -> Vec<Emit> {
    let event = SpeechEndEvent { duration_ms, ts: 70, turn_id: turn.map(str::to_string) };
    p.handle(Request::SpeechEnd(event), 80)
}

fn reload(p: &mut UtteranceProcessor<StubEngine>, model: &str) -> Vec<Emit> {
    p.handle(Request::ReloadModel(ReloadModelRequest { model: model.to_string() }), 90)
}

#[test]
fn idle_is_initial_state() {
    let p = make(0.45, 0.9);
    assert!(p.is_idle());
    assert_eq!(p.model_name(), "distil-small.en");
}

#[test]
fn speech_start_then_end_emits_final_when_confidence_high() {
    let mut p = make(0.45, 0.8);
    let s = p.handle(Request::SpeechStart(SpeechStartEvent { ts: 100 }), 100);
    assert!(s.is_empty(), "start emits nothing");
    let e = p.handle(
        Request::SpeechEnd(SpeechEndEvent {
            duration_ms: 5000,
            ts: 5100,
            turn_id: None,
        }),
        5100,
    );
    assert_eq!(e.len(), 1);
    match &e[0] {
        Emit::Final(f) => {
            assert_eq!(f.duration_ms, 5000);
            assert_eq!(number(f.confidence), 0.8);
            assert_eq!(f.model, "distil-small.en");
        }
        other => panic!("expected Final, got {other:?}"),
    }
    assert!(p.is_idle());
}

#[test]
fn low_confidence_emits_uncertain() {
    let mut p = make(0.45, 0.2);
    p.handle(Request::SpeechStart(SpeechStartEvent { ts: 0 }), 0);
    let e = p.handle(
        Request::SpeechEnd(SpeechEndEvent {
            duration_ms: 1000,
            ts: 1000,
            turn_id: None,
        }),
        1000,
    );
    match &e[0] {
        Emit::Uncertain(u) => assert_eq!(number(u.confidence), 0.2),
        other => panic!("expected Uncertain, got {other:?}"),
    }
}

#[test]
fn chunks_emit_partials_at_cadence() {
    let mut p = make(0.45, 0.9).with_partial_cadence_ms(500);
    p.handle(Request::SpeechStart(SpeechStartEvent { ts: 0 }), 0);

    let r1 = p.handle(
        Request::SpeechChunk(SpeechChunkEvent {
            seq: 0,
            pcm_b64: "AAAA".to_string(),
            ts: 200,
        }),
        200,
    );
    assert!(r1.is_empty(), "200 ms < 500 ms cadence: no partial");

    let r2 = p.handle(
        Request::SpeechChunk(SpeechChunkEvent {
            seq: 1,
            pcm_b64: "BBBB".to_string(),
            ts: 600,
        }),
        600,
    );
    assert_eq!(r2.len(), 1, "600 ms >= 500 ms cadence: partial emits");
    assert!(matches!(r2[0], Emit::Partial(_)));

    let r3 = p.handle(
        Request::SpeechChunk(SpeechChunkEvent {
            seq: 2,
            pcm_b64: "CCCC".to_string(),
            ts: 900,
        }),
        900,
    );
    assert!(r3.is_empty(), "900-600 = 300 ms < cadence: no partial");

    let r4 = p.handle(
        Request::SpeechChunk(SpeechChunkEvent {
            seq: 3,
            pcm_b64: "DDDD".to_string(),
            ts: 1200,
        }),
        1200,
    );
    assert_eq!(r4.len(), 1, "1200-600 = 600 ms >= cadence: partial");
}

#[test]
fn chunk_while_idle_emits_protocol_error() {
    let mut p = make(0.45, 0.9);
    let r = p.handle(
        Request::SpeechChunk(SpeechChunkEvent {
            seq: 0,
            pcm_b64: "AAAA".to_string(),
            ts: 1,
        }),
        1,
    );
    match &r[0] {
        Emit::Error(e) => assert_eq!(e.kind, "protocol"),
        other => panic!("expected protocol Error, got {other:?}"),
    }
}

#[test]
fn end_while_idle_emits_protocol_error() {
    let mut p = make(0.45, 0.9);
    let r = p.handle(
        Request::SpeechEnd(SpeechEndEvent {
            duration_ms: 1,
            ts: 1,
            turn_id: None,
        }),
        1,
    );
    match &r[0] {
        Emit::Error(e) => assert_eq!(e.kind, "protocol"),
        other => panic!("expected protocol Error, got {other:?}"),
    }
    assert!(p.is_idle());
}

#[test]
fn double_start_resets_and_errors() {
    let mut p = make(0.45, 0.9).with_partial_cadence_ms(100);
    p.handle(Request::SpeechStart(SpeechStartEvent { ts: 0 }), 0);
    p.handle(
        Request::SpeechChunk(SpeechChunkEvent {
            seq: 0,
            pcm_b64: "AAAA".to_string(),
            ts: 150,
        }),
        150,
    );
    let r = p.handle(Request::SpeechStart(SpeechStartEvent { ts: 200 }), 200);
    assert_eq!(r.len(), 1);
    match &r[0] {
        Emit::Error(e) => assert_eq!(e.kind, "protocol"),
        other => panic!("expected protocol Error, got {other:?}"),
    }
}

#[test]
fn bad_chunk_emits_io_error() {
    let mut p = make(0.45, 0.9);
    p.handle(Request::SpeechStart(SpeechStartEvent { ts: 0 }), 0);
    let r = p.handle(
        Request::SpeechChunk(SpeechChunkEvent {
            seq: 0,
            pcm_b64: String::new(),
            ts: 100,
        }),
        100,
    );
    match &r[0] {
        Emit::Error(e) => {
            assert_eq!(e.kind, "io");
            assert!(e.message.contains("empty pcm_b64"));
        }
        other => panic!("expected io Error, got {other:?}"),
    }
}

#[test]
fn reload_while_idle_emits_model_loaded() {
    let mut p = make(0.45, 0.9);
    let r = p.handle(
        Request::ReloadModel(ReloadModelRequest {
            model: "small.en".to_string(),
        }),
        42,
    );
    assert_eq!(r.len(), 1);
    match &r[0] {
        Emit::ModelLoaded(m) => {
            assert_eq!(m.model, "small.en");
            assert_eq!(m.ts, 42);
        }
        other => panic!("expected ModelLoaded, got {other:?}"),
    }
    assert_eq!(p.model_name(), "small.en");
}

#[test]
fn reload_during_speech_is_queued_until_end() {
    let mut p = make(0.45, 0.9);
    p.handle(Request::SpeechStart(SpeechStartEvent { ts: 0 }), 0);
    let r1 = p.handle(
        Request::ReloadModel(ReloadModelRequest {
            model: "medium.en".to_string(),
        }),
        500,
    );
    assert!(r1.is_empty(), "reload during speech defers silently");
    assert_eq!(
        p.model_name(),
        "distil-small.en",
        "model unchanged while speaking"
    );

    let r2 = p.handle(
        Request::SpeechEnd(SpeechEndEvent {
            duration_ms: 1000,
            ts: 1000,
            turn_id: None,
        }),
        1000,
    );
    let kinds: Vec<&str> = r2
        .iter()
        .map(|e| match e {
            Emit::Final(_) => "final",
            Emit::Uncertain(_) => "uncertain",
            Emit::Partial(_) => "partial",
            Emit::Error(_) => "error",
            Emit::ModelLoaded(_) => "model_loaded",
        })
        .collect();
    assert_eq!(kinds, vec!["final", "model_loaded"]);
    assert_eq!(p.model_name(), "medium.en");
}

#[test]
fn reload_unknown_model_emits_error() {
    let mut p = make(0.45, 0.9);
    let r = p.handle(
        Request::ReloadModel(ReloadModelRequest {
            model: "tiny.en".to_string(),
        }),
        10,
    );
    match &r[0] {
        Emit::Error(e) => assert_eq!(e.kind, "model"),
        other => panic!("expected model Error, got {other:?}"),
    }
}

#[test]
fn threshold_exact_equal_is_final() {
    let mut p = make(0.5, 0.5);
    p.handle(Request::SpeechStart(SpeechStartEvent { ts: 0 }), 0);
    // Use MIN_WINDOW_MS (200 ms) so the window-validation gate passes.
    let r = p.handle(
        Request::SpeechEnd(SpeechEndEvent {
            duration_ms: MIN_WINDOW_MS,
            ts: u64::from(MIN_WINDOW_MS),
            turn_id: None,
        }),
        u64::from(MIN_WINDOW_MS),
    );
    assert!(matches!(r[0], Emit::Final(_)));
}

/// Engine that records which partial path was called. Lets the
/// processor test prove the cadence emit goes through the
/// `current_partial_fast` (cheap) path, not `current_partial`.
struct PartialPathSpy {
    model: String,
    fast_calls: std::cell::Cell<u32>,
    slow_calls: std::cell::Cell<u32>,
}

impl TranscriptionEngine for PartialPathSpy {
    fn model_name(&self) -> &str {
        &self.model
    }
    fn accept_chunk(
        &mut self,
        _seq: u64,
        _pcm_b64: &str,
    ) -> Result<(), EngineError> {
        Ok(())
    }
    fn current_partial(&mut self) -> Option<String> {
        self.slow_calls.set(self.slow_calls.get() + 1);
        Some("SLOW".to_string())
    }
    fn current_partial_fast(&mut self) -> Option<String> {
        self.fast_calls.set(self.fast_calls.get() + 1);
        Some("FAST".to_string())
    }
    fn finalise(
        &mut self,
        _duration_ms: u32,
    ) -> Result<EngineFinal, EngineError> {
        Ok(EngineFinal {
            text: String::new(),
            confidence: confidence(1.0),
        })
    }
    fn reload_model(&mut self, _name: &str) -> Result<u64, EngineError> {
        Ok(0)
    }
    fn reset(&mut self) {}
}

#[test]
fn partial_cadence_uses_fast_path() {
    let engine = PartialPathSpy {
        model: "distil-small.en".to_string(),
        fast_calls: std::cell::Cell::new(0),
        slow_calls: std::cell::Cell::new(0),
    };
    let cfg = SttConfig {
        confidence_threshold: threshold(0.5),
        ..SttConfig::default()
    };
    let mut p = UtteranceProcessor::new(engine, cfg).with_partial_cadence_ms(500);
    p.handle(Request::SpeechStart(SpeechStartEvent { ts: 0 }), 0);
    let r = p.handle(
        Request::SpeechChunk(SpeechChunkEvent {
            seq: 0,
            pcm_b64: "AAAA".to_string(),
            ts: 600,
        }),
        600,
    );
    match &r[0] {
        Emit::Partial(pe) => assert_eq!(pe.text, "FAST"),
        other => panic!("expected Partial, got {other:?}"),
    }
    assert_eq!(p.engine().fast_calls.get(), 1);
    assert_eq!(p.engine().slow_calls.get(), 0);
}

/// Zero-duration window (speech.start immediately followed by speech.end
/// with duration_ms = 0) must publish `wm.stt.uncertain` with
/// `reason = "window_invalid"` and must not crash.
#[test]
fn empty_window_emits_uncertain_window_invalid() {
    let mut p = make(0.45, 0.9);
    p.handle(Request::SpeechStart(SpeechStartEvent { ts: 0 }), 0);
    let r = p.handle(
        Request::SpeechEnd(SpeechEndEvent {
            duration_ms: 0,
            ts: 0,
            turn_id: None,
        }),
        0,
    );
    assert_eq!(r.len(), 1, "exactly one emit for zero-length window");
    match &r[0] {
        Emit::Uncertain(u) => {
            assert_eq!(u.reason.as_deref(), Some("window_invalid"));
            assert_eq!(number(u.confidence), 0.0);
        }
        other => panic!("expected window_invalid Uncertain, got {other:?}"),
    }
    assert!(p.is_idle(), "processor returns to idle after window_invalid");
}

/// Window just below MIN_WINDOW_MS threshold must be rejected.
#[test]
fn window_below_min_emits_uncertain_window_invalid() {
    let mut p = make(0.45, 0.9);
    p.handle(Request::SpeechStart(SpeechStartEvent { ts: 0 }), 0);
    let r = p.handle(
        Request::SpeechEnd(SpeechEndEvent {
            duration_ms: MIN_WINDOW_MS - 1,
            ts: 199,
            turn_id: None,
        }),
        199,
    );
    assert_eq!(r.len(), 1);
    match &r[0] {
        Emit::Uncertain(u) => {
            assert_eq!(u.reason.as_deref(), Some("window_invalid"));
        }
        other => panic!("expected window_invalid, got {other:?}"),
    }
}

/// Window just above MAX_WINDOW_MS threshold must be rejected.
#[test]
fn window_above_max_emits_uncertain_window_invalid() {
    let mut p = make(0.45, 0.9);
    p.handle(Request::SpeechStart(SpeechStartEvent { ts: 0 }), 0);
    let r = p.handle(
        Request::SpeechEnd(SpeechEndEvent {
            duration_ms: MAX_WINDOW_MS + 1,
            ts: u64::from(MAX_WINDOW_MS) + 1,
            turn_id: None,
        }),
        u64::from(MAX_WINDOW_MS) + 1,
    );
    assert_eq!(r.len(), 1);
    match &r[0] {
        Emit::Uncertain(u) => {
            assert_eq!(u.reason.as_deref(), Some("window_invalid"));
        }
        other => panic!("expected window_invalid, got {other:?}"),
    }
}

/// Valid window length at the boundary does NOT emit window_invalid.
#[test]
fn valid_window_at_min_boundary_is_not_rejected() {
    let mut p = make(0.45, 0.9);
    p.handle(Request::SpeechStart(SpeechStartEvent { ts: 0 }), 0);
    let r = p.handle(
        Request::SpeechEnd(SpeechEndEvent {
            duration_ms: MIN_WINDOW_MS,
            ts: u64::from(MIN_WINDOW_MS),
            turn_id: None,
        }),
        u64::from(MIN_WINDOW_MS),
    );
    assert_eq!(r.len(), 1);
    // Should be Final or Uncertain (confidence based), but NOT window_invalid.
    match &r[0] {
        Emit::Uncertain(u) => {
            assert_ne!(u.reason.as_deref(), Some("window_invalid"),
                "min-boundary window must not be rejected as window_invalid");
        }
        Emit::Final(_) => {} // also acceptable
        other => panic!("expected Final or Uncertain, got {other:?}"),
    }
}

/// Normal uncertain (below threshold) has no reason field.
#[test]
fn low_confidence_uncertain_has_no_window_invalid_reason() {
    let mut p = make(0.45, 0.2); // confidence 0.2 < threshold 0.45
    p.handle(Request::SpeechStart(SpeechStartEvent { ts: 0 }), 0);
    let r = p.handle(
        Request::SpeechEnd(SpeechEndEvent {
            duration_ms: MIN_WINDOW_MS,
            ts: u64::from(MIN_WINDOW_MS),
            turn_id: None,
        }),
        u64::from(MIN_WINDOW_MS),
    );
    match &r[0] {
        Emit::Uncertain(u) => {
            assert!(
                u.reason.is_none(),
                "low-confidence uncertain must not set reason"
            );
            assert_eq!(number(u.confidence), 0.2);
        }
        other => panic!("expected Uncertain, got {other:?}"),
    }
}

#[test]
fn engine_and_threshold_are_those_given() {
    let p = make(0.3, 0.9);
    assert_eq!(number(p.confidence_threshold()), 0.3);
    assert_eq!(p.engine().model_name(), "distil-small.en");
}

#[test]
fn turn_is_passed_on_to_the_result() {
    for (duration_ms, limit) in [(1000, 0.45), (1000, 0.95), (10, 0.45), (30_001, 0.45)] {
        let mut p = make(limit, 0.9);
        start(&mut p, 0);
        let out = end(&mut p, duration_ms, Some("turn-7"));
        assert_eq!(out.len(), 1);
        let turn = match &out[0] {
            Emit::Final(e) => e.turn_id.clone(),
            Emit::Uncertain(e) => e.turn_id.clone(),
            other => panic!("expected a result, got {other:?}"),
        };
        assert_eq!(turn.as_deref(), Some("turn-7"));
    }
}

#[test]
fn stray_speech_changes_nothing() {
    let mut p = make(0.45, 0.9);
    let out = chunk(&mut p, "AAAA", 5);
    match &out[0] {
        Emit::Error(e) => {
            assert_eq!(e.message, "speech.chunk while idle; ignoring");
            assert_eq!(e.ts, 5);
        }
        other => panic!("expected an error, got {other:?}"),
    }
    let out = end(&mut p, 1000, None);
    match &out[0] {
        Emit::Error(e) => {
            assert_eq!(e.message, "speech.end while idle; ignoring");
            assert_eq!(e.ts, 70);
        }
        other => panic!("expected an error, got {other:?}"),
    }
    assert!(p.is_idle());
}

#[test]
fn second_start_drops_the_chunks_of_the_first() {
    let mut p = make(0.45, 0.9).with_partial_cadence_ms(100);
    start(&mut p, 0);
    chunk(&mut p, "AAAA", 10);
    chunk(&mut p, "AAAA", 20);
    let out = start(&mut p, 30);
    match &out[0] {
        Emit::Error(e) => {
            assert_eq!(
                e.message,
                "speech.start while already speaking; dropping in-flight utterance"
            );
        }
        other => panic!("expected an error, got {other:?}"),
    }
    match &chunk(&mut p, "AAAA", 130)[0] {
        Emit::Partial(e) => {
            assert_eq!(e.text, "[stub partial 1]");
            assert_eq!(e.turn_id, None);
        }
        other => panic!("expected a partial, got {other:?}"),
    }
}

#[test]
fn refused_chunk_keeps_the_utterance() {
    let mut p = make(0.45, 0.9);
    start(&mut p, 0);
    chunk(&mut p, "", 10);
    assert!(!p.is_idle());
    assert!(matches!(end(&mut p, 1000, None)[0], Emit::Final(_)));
}

#[test]
fn result_of_the_stub_is_exact() {
    let mut p = make(0.45, 0.9);
    start(&mut p, 0);
    match &end(&mut p, 1000, None)[0] {
        Emit::Final(e) => {
            assert_eq!(e.text, "[stub final 1000ms]");
            assert_eq!(number(e.confidence), 0.9);
            assert_eq!(e.duration_ms, 1000);
            assert_eq!(e.model, "distil-small.en");
            assert_eq!(e.ts, 70);
            assert_eq!(e.turn_id, None);
        }
        other => panic!("expected a final, got {other:?}"),
    }
}

#[test]
fn longest_window_is_transcribed() {
    let mut p = make(0.45, 0.9);
    start(&mut p, 0);
    assert!(matches!(end(&mut p, MAX_WINDOW_MS, None)[0], Emit::Final(_)));
}

#[test]
fn waiting_change_is_made_after_an_invalid_window() {
    let mut p = make(0.45, 0.9);
    start(&mut p, 0);
    reload(&mut p, "small.en");
    reload(&mut p, "medium.en");
    let out = end(&mut p, 10, None);
    assert_eq!(out.len(), 2);
    assert!(matches!(&out[0], Emit::Uncertain(_)));
    match &out[1] {
        Emit::ModelLoaded(e) => {
            assert_eq!(e.model, "medium.en");
            assert_eq!(e.warmup_ms, 0);
            assert_eq!(e.ts, 80);
        }
        other => panic!("expected a loaded model, got {other:?}"),
    }
}

#[test]
fn unknown_model_is_refused_during_speech() {
    let mut p = make(0.45, 0.9);
    start(&mut p, 0);
    let out = reload(&mut p, "tiny.en");
    match &out[0] {
        Emit::Error(e) => {
            assert_eq!(e.kind, "model");
            assert_eq!(
                e.message,
                "unknown model \"tiny.en\"; allowed: [\"distil-small.en\", \"small.en\", \
                 \"medium.en\", \"large-v3-turbo\"]"
            );
            assert_eq!(e.ts, 90);
        }
        other => panic!("expected an error, got {other:?}"),
    }
    assert_eq!(end(&mut p, 1000, None).len(), 1);
    assert_eq!(p.model_name(), "distil-small.en");
}

#[test]
fn waiting_change_outlives_a_second_start() {
    let mut p = make(0.45, 0.9);
    start(&mut p, 0);
    reload(&mut p, "small.en");
    start(&mut p, 5);
    assert_eq!(p.model_name(), "distil-small.en");
    assert_eq!(end(&mut p, 1000, None).len(), 2);
    assert_eq!(p.model_name(), "small.en");
}

#[test]
fn partial_is_due_at_the_cadence() {
    assert!(is_partial_due(100, 600, 500));
    assert!(!is_partial_due(100, 599, 500));
    assert!(!is_partial_due(600, 100, 500));
    assert!(is_partial_due(600, 100, 0));
}

/// An engine whose every operation fails.
struct Broken;

impl TranscriptionEngine for Broken {
    fn model_name(&self) -> &str {
        "small.en"
    }
    fn accept_chunk(&mut self, _seq: u64, _pcm_b64: &str) -> Result<(), EngineError> {
        Err(EngineError::Internal("deaf".to_string()))
    }
    fn current_partial(&mut self) -> Option<String> {
        None
    }
    fn current_partial_fast(&mut self) -> Option<String> {
        None
    }
    fn finalise(&mut self, _duration_ms: u32) -> Result<EngineFinal, EngineError> {
        Err(EngineError::ModelMissing { path: "/m".to_string() })
    }
    fn reload_model(&mut self, _name: &str) -> Result<u64, EngineError> {
        Err(EngineError::Internal("stuck".to_string()))
    }
    fn reset(&mut self) {}
}

#[test]
fn failures_of_the_engine_are_reported_by_kind() {
    let mut p = UtteranceProcessor::new(Broken, SttConfig::default());
    p.handle(Request::SpeechStart(SpeechStartEvent { ts: 0 }), 0);
    let event = SpeechChunkEvent { seq: 0, pcm_b64: "AAAA".to_string(), ts: 1 };
    let heard = p.handle(Request::SpeechChunk(event), 1);
    match &heard[0] {
        Emit::Error(e) => {
            assert_eq!(e.kind, "engine");
            assert_eq!(e.message, "engine internal failure: deaf");
        }
        other => panic!("expected an error, got {other:?}"),
    }
    let change = ReloadModelRequest { model: "medium.en".to_string() };
    assert!(p.handle(Request::ReloadModel(change), 2).is_empty());
    let event = SpeechEndEvent { duration_ms: 1000, ts: 3, turn_id: None };
    let ended = p.handle(Request::SpeechEnd(event), 4);
    assert_eq!(ended.len(), 2);
    match &ended[0] {
        Emit::Error(e) => {
            assert_eq!(e.kind, "model_missing");
            assert_eq!(e.message, "model file missing: /m");
            assert_eq!(e.ts, 3);
        }
        other => panic!("expected an error, got {other:?}"),
    }
    match &ended[1] {
        Emit::Error(e) => {
            assert_eq!(e.kind, "model");
            assert_eq!(e.message, "engine internal failure: stuck");
            assert_eq!(e.ts, 4);
        }
        other => panic!("expected an error, got {other:?}"),
    }
    assert!(p.is_idle());
}

/// An engine that finds no model file.
struct Bare;

impl TranscriptionEngine for Bare {
    fn model_name(&self) -> &str {
        "small.en"
    }
    fn accept_chunk(&mut self, _seq: u64, _pcm_b64: &str) -> Result<(), EngineError> {
        Ok(())
    }
    fn current_partial(&mut self) -> Option<String> {
        None
    }
    fn current_partial_fast(&mut self) -> Option<String> {
        None
    }
    fn finalise(&mut self, _duration_ms: u32) -> Result<EngineFinal, EngineError> {
        Ok(EngineFinal { text: String::new(), confidence: confidence(1.0) })
    }
    fn reload_model(&mut self, name: &str) -> Result<u64, EngineError> {
        Err(EngineError::ModelMissing { path: format!("/m/{name}") })
    }
    fn reset(&mut self) {}
}

fn assert_model_missing(emit: &Emit, ts: u64) {
    match emit {
        Emit::Error(e) => {
            assert_eq!(e.kind, "model_missing");
            assert_eq!(e.message, "model file missing: /m/medium.en");
            assert_eq!(e.ts, ts);
        }
        other => panic!("expected an error, got {other:?}"),
    }
}

#[test]
fn reload_of_a_missing_file_is_told_apart_while_idle() {
    let mut p = UtteranceProcessor::new(Bare, SttConfig::default());
    let change = ReloadModelRequest { model: "medium.en".to_string() };
    let out = p.handle(Request::ReloadModel(change), 42);
    assert_eq!(out.len(), 1);
    assert_model_missing(&out[0], 42);
}

#[test]
fn reload_of_a_missing_file_is_told_apart_when_queued() {
    for duration_ms in [1000, 10] {
        let mut p = UtteranceProcessor::new(Bare, SttConfig::default());
        p.handle(Request::SpeechStart(SpeechStartEvent { ts: 0 }), 0);
        let change = ReloadModelRequest { model: "medium.en".to_string() };
        assert!(p.handle(Request::ReloadModel(change), 1).is_empty());
        let event = SpeechEndEvent { duration_ms, ts: 2, turn_id: None };
        let out = p.handle(Request::SpeechEnd(event), 3);
        assert_eq!(out.len(), 2);
        assert!(matches!(&out[0], Emit::Final(_) | Emit::Uncertain(_)));
        assert_model_missing(&out[1], 3);
    }
}
