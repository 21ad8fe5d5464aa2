use wintermute_stt::confidence::Confidence;
use wintermute_stt::engine::{EngineError, StubEngine, TranscriptionEngine};
use wintermute_stt::{SttError, Threshold, DEFAULT_MODEL_NAME};

fn threshold(t: f32) -> Threshold {
    Threshold::new(Confidence::from_bits(t.to_bits()), &t.to_string())
}

#[test]
fn stub_constructs_with_defaults() {
    let e = StubEngine::default_for_tests().expect("stub builds");
    assert_eq!(e.model_name(), DEFAULT_MODEL_NAME);
}

#[test]
fn stub_rejects_unknown_model() {
    let err = StubEngine::new("tiny.en", &threshold(0.5)).expect_err("unknown model");
    assert!(matches!(err, SttError::UnknownModel { .. }));
}

#[test]
fn stub_rejects_bad_threshold() {
    let err = StubEngine::new("small.en", &threshold(0.0)).expect_err("threshold out of range");
    assert!(matches!(err, SttError::InvalidThreshold(_)));
}

#[test]
fn partial_is_none_before_any_chunk() {
    let mut e = StubEngine::default_for_tests().unwrap();
    assert!(e.current_partial().is_none());
}

#[test]
fn accept_chunk_advances_partial() {
    let mut e = StubEngine::default_for_tests().unwrap();
    e.accept_chunk(0, "AAAA").unwrap();
    assert_eq!(e.current_partial().as_deref(), Some("[stub partial 1]"));
    e.accept_chunk(1, "BBBB").unwrap();
    assert_eq!(e.current_partial().as_deref(), Some("[stub partial 2]"));
}

#[test]
fn accept_chunk_rejects_empty_pcm() {
    let mut e = StubEngine::default_for_tests().unwrap();
    let err = e.accept_chunk(0, "").expect_err("empty pcm rejected");
    assert_eq!(err.message(), "engine rejected chunk: empty pcm_b64");
    assert!(matches!(err, EngineError::BadChunk { .. }));
}

#[test]
fn finalise_uses_fixed_confidence() {
    let mut e = StubEngine::new("medium.en", &threshold(0.42)).unwrap();
    e.accept_chunk(0, "AAAA").unwrap();
    let f = e.finalise(1234).unwrap();
    assert_eq!(f.text, "[stub final 1234ms]");
    assert_eq!(f32::from_bits(f.confidence.to_bits()), 0.42);
}

#[test]
fn default_stub_is_confident_to_three_quarters() {
    let mut e = StubEngine::default_for_tests().unwrap();
    let f = e.finalise(u32::MAX).unwrap();
    assert_eq!(f.text, "[stub final 4294967295ms]");
    assert_eq!(f32::from_bits(f.confidence.to_bits()), 0.75);
}

#[test]
fn reset_clears_chunks() {
    let mut e = StubEngine::default_for_tests().unwrap();
    e.accept_chunk(0, "AAAA").unwrap();
    e.reset();
    assert!(e.current_partial().is_none());
}

#[test]
fn fast_partial_of_the_stub_is_its_partial() {
    let mut e = StubEngine::default_for_tests().unwrap();
    assert!(e.current_partial_fast().is_none());
    for seq in 0..10 {
        e.accept_chunk(seq, "AAAA").unwrap();
    }
    assert_eq!(e.current_partial_fast().as_deref(), Some("[stub partial 10]"));
}

#[test]
fn reload_model_swaps_name() {
    let mut e = StubEngine::default_for_tests().unwrap();
    let warmup = e.reload_model("large-v3-turbo").unwrap();
    assert_eq!(warmup, 0);
    assert_eq!(e.model_name(), "large-v3-turbo");
}

#[test]
fn reload_model_rejects_unknown() {
    let mut e = StubEngine::default_for_tests().unwrap();
    let err = e.reload_model("tiny.en").expect_err("unknown rejected");
    assert!(matches!(err, EngineError::UnknownModel(SttError::UnknownModel { .. })));
    assert_eq!(e.model_name(), DEFAULT_MODEL_NAME);
}

#[test]
fn engine_error_messages() {
    let missing = EngineError::ModelMissing { path: "/m/whisper-small-en.bin".to_string() };
    assert_eq!(missing.message(), "model file missing: /m/whisper-small-en.bin");
    let internal = EngineError::Internal("decoder".to_string());
    assert_eq!(internal.message(), "engine internal failure: decoder");
    let bad = SttError::InvalidThreshold(threshold(2.0));
    assert_eq!(
        EngineError::UnknownModel(bad).message(),
        "invalid confidence threshold 2; must be in (0.0, 1.0]"
    );
}

#[test]
fn settings_errors_become_engine_errors() {
    let err = EngineError::from(SttError::InvalidThreshold(threshold(0.0)));
    assert!(matches!(err, EngineError::UnknownModel(SttError::InvalidThreshold(_))));
}
