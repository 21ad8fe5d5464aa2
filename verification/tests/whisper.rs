use base64::Engine;
use wintermute_stt::bus::ErrorEvent;
use wintermute_stt::confidence::Confidence;
use wintermute_stt::engine::EngineError;
use wintermute_stt::inference::{inference_error, Inference, InferenceStage, Progress, Reply};
use wintermute_stt::processor::engine_error_event_pub;
use wintermute_stt::whisper_engine::{
    decode_pcm_b64, num_threads, resolve_model_path, samples_from_bytes, ContextOutcome,
    WhisperEngine, Window,
};
use wintermute_stt::SttError;

fn encode(bytes: &[u8]) -> String {
    base64::engine::general_purpose::STANDARD.encode(bytes)
}

fn reason(err: EngineError) -> String {
    match err {
        EngineError::BadChunk { reason } => reason,
        other => panic!("expected BadChunk, got {other:?}"),
    }
}

fn loaded() -> WhisperEngine {
    WhisperEngine::load("distil-small.en", "/m", ContextOutcome::Opened).expect("loads")
}

#[test]
fn resolve_model_path_sanitises_dots() {
    let p = resolve_model_path("/srv/models", "distil-small.en");
    assert_eq!(p, "/srv/models/whisper-distil-small-en.bin");
}

#[test]
fn resolve_model_path_no_dots_unchanged() {
    let p = resolve_model_path("/srv/models", "large-v3-turbo");
    assert_eq!(p, "/srv/models/whisper-large-v3-turbo.bin");
}

#[test]
fn model_path_joins_as_paths_do() {
    for root in ["", "/", "models", "models/", "/a/b", "/a//"] {
        let joined = std::path::Path::new(root).join("whisper-small-en.bin");
        assert_eq!(resolve_model_path(root, "small.en"), joined.to_str().unwrap());
    }
}

#[test]
fn decode_pcm_b64_rejects_empty() {
    let err = decode_pcm_b64("").expect_err("empty rejected");
    assert_eq!(reason(err), "empty pcm_b64");
}

#[test]
fn decode_pcm_b64_rejects_bad_base64() {
    let err = decode_pcm_b64("!!!").expect_err("bad base64 rejected");
    match err {
        EngineError::BadChunk { reason } => assert!(reason.contains("base64")),
        other => panic!("expected BadChunk, got {other:?}"),
    }
}

#[test]
fn base64_faults_read_as_the_decoder_shows_them() {
    for text in ["!!!", "AAAAA", "AAA", "AA==A", "AB==", "A", "====", "AAA\u{e9}"] {
        let shown = match base64::engine::general_purpose::STANDARD.decode(text) {
            Ok(_) => panic!("{text} is no base64"),
            Err(e) => e.to_string(),
        };
        let err = decode_pcm_b64(text).expect_err("bad base64 rejected");
        assert_eq!(reason(err), format!("base64 decode: {shown}"));
    }
}

#[test]
fn decode_pcm_b64_rejects_odd_bytes() {
    let three_bytes = encode(&[1_u8, 2, 3]);
    let err = decode_pcm_b64(&three_bytes).expect_err("odd bytes rejected");
    match err {
        EngineError::BadChunk { reason } => {
            assert!(reason.contains("odd byte count"));
            assert_eq!(reason, "odd byte count 3; i16 PCM expected");
        }
        other => panic!("expected BadChunk, got {other:?}"),
    }
}

#[test]
fn decode_pcm_b64_round_trips_i16_samples() {
    let samples_i16: [i16; 4] = [0, i16::MAX, i16::MIN, -1];
    let mut bytes = Vec::with_capacity(samples_i16.len() * 2);
    for s in samples_i16 {
        bytes.extend_from_slice(&s.to_le_bytes());
    }
    let pcm = decode_pcm_b64(&encode(&bytes)).expect("decodes");
    assert_eq!(pcm, samples_i16);
    let out: Vec<f32> = pcm.iter().map(|s| f32::from(*s) / f32::from(i16::MAX)).collect();
    assert_eq!(out.len(), samples_i16.len());
    assert!((out[0] - 0.0).abs() < 1e-6);
    assert!((out[1] - 1.0).abs() < 1e-6);
    // i16::MIN normalises to slightly less than -1.0 (range asymmetry).
    assert!(out[2] < -1.0 + 1e-6 && out[2] > -1.01);
    assert!((out[3] + 1.0 / f32::from(i16::MAX)).abs() < 1e-6);
}

#[test]
fn every_pair_of_bytes_is_its_sample() {
    let mut bytes: Vec<u8> = Vec::new();
    let mut expected: Vec<i16> = Vec::new();
    for low in 0..=255_u8 {
        for high in [0_u8, 1, 0x7f, 0x80, 0x81, 0xff] {
            bytes.push(low);
            bytes.push(high);
            expected.push(i16::from_le_bytes([low, high]));
        }
    }
    assert_eq!(samples_from_bytes(&bytes).expect("whole samples"), expected);
}

#[test]
fn load_rejects_unknown_model() {
    let err = WhisperEngine::load("tiny.en", "/nonexistent", ContextOutcome::Missing)
        .expect_err("unknown model rejected");
    match err {
        EngineError::UnknownModel(SttError::UnknownModel { name, .. }) => {
            assert_eq!(name, "tiny.en");
        }
        other => panic!("expected UnknownModel, got {other:?}"),
    }
    assert!(WhisperEngine::plan_load("tiny.en", "/nonexistent").is_err());
}

#[test]
fn load_missing_model_file_returns_model_missing() {
    let path = WhisperEngine::plan_load("distil-small.en", "/nonexistent_root").expect("allowed");
    let found = if std::path::Path::new(&path).exists() {
        ContextOutcome::Opened
    } else {
        ContextOutcome::Missing
    };
    let err = WhisperEngine::load("distil-small.en", "/nonexistent_root", found)
        .expect_err("missing model file rejected");
    match err {
        EngineError::ModelMissing { path } => {
            assert!(
                path.contains("whisper-distil-small-en.bin"),
                "path should reference the resolved model filename, got: {path}"
            );
            assert_eq!(path, "/nonexistent_root/whisper-distil-small-en.bin");
        }
        other => panic!("expected ModelMissing, got {other:?}"),
    }
}

#[test]
fn load_reports_a_file_that_is_no_model() {
    let found = ContextOutcome::Rejected("bad magic".to_string());
    let err = WhisperEngine::load("small.en", "/m", found).expect_err("rejected");
    assert_eq!(
        err.message(),
        "engine internal failure: whisper load /m/whisper-small-en.bin: bad magic"
    );
}

#[test]
fn model_missing_kind_in_error_event() {
    let err = EngineError::ModelMissing {
        path: "/usr/share/wintermute/models/whisper-distil-small-en.bin".to_string(),
    };
    let ev: ErrorEvent = engine_error_event_pub(&err, 42);
    assert_eq!(ev.kind, "model_missing");
    assert_eq!(ev.ts, 42);
}

#[test]
fn chunks_gather_until_the_window_is_taken() {
    let mut e = loaded();
    assert_eq!(e.model_name(), "distil-small.en");
    assert_eq!(e.models_root(), "/m");
    e.accept_chunk(0, &encode(&[1, 0, 2, 0])).expect("accepted");
    assert!(e.accept_chunk(1, "!").is_err());
    e.accept_chunk(2, &encode(&[0xff, 0xff])).expect("accepted");
    assert_eq!(e.buffered_samples(), 3);
    assert!(e.current_partial().is_none());
    match e.take_window() {
        Window::Heard(pcm) => assert_eq!(pcm, vec![1, 2, -1]),
        other => panic!("expected samples, got {other:?}"),
    }
    assert_eq!(e.buffered_samples(), 0);
    match e.take_window() {
        Window::Silent(f) => {
            assert_eq!(f.text, "");
            assert_eq!(f32::from_bits(f.confidence.to_bits()), 0.0);
        }
        other => panic!("expected silence, got {other:?}"),
    }
}

#[test]
fn reset_drops_the_samples() {
    let mut e = loaded();
    e.accept_chunk(0, "AAAA").expect_err("three bytes");
    e.accept_chunk(0, "AAA=").expect("two bytes");
    assert_eq!(e.buffered_samples(), 1);
    e.reset();
    assert_eq!(e.buffered_samples(), 0);
}

#[test]
fn reload_changes_all_or_nothing() {
    let mut e = loaded();
    e.accept_chunk(0, "AAA=").expect("accepted");
    assert!(e.reload_model("tiny.en", ContextOutcome::Opened, 5).is_err());
    assert!(matches!(
        e.reload_model("small.en", ContextOutcome::Missing, 5),
        Err(EngineError::ModelMissing { path }) if path == "/m/whisper-small-en.bin"
    ));
    let broken = ContextOutcome::Poisoned("poisoned lock".to_string());
    assert_eq!(
        e.reload_model("small.en", broken, 5).expect_err("poisoned").message(),
        "engine internal failure: ctx poisoned: poisoned lock"
    );
    assert_eq!(e.model_name(), "distil-small.en");
    assert_eq!(e.buffered_samples(), 1);
    assert_eq!(e.reload_model("small.en", ContextOutcome::Opened, 1980).expect("loads"), 1980);
    assert_eq!(e.model_name(), "small.en");
    assert_eq!(e.buffered_samples(), 0);
    let long = u128::from(u64::MAX) + 5;
    assert_eq!(
        e.reload_model("medium.en", ContextOutcome::Opened, long).expect("loads"),
        u64::MAX
    );
}

#[test]
fn number_of_threads_is_what_there_is() {
    assert_eq!(num_threads(Some(8)), 8);
    assert_eq!(num_threads(None), 1);
    assert_eq!(num_threads(Some(i32::MAX as usize)), i32::MAX);
    assert_eq!(num_threads(Some(i32::MAX as usize + 1)), 1);
}

/// Answers the stages of an inference from segments with token counts, and notes
/// the stages.
fn infer(segments: &[(&str, i32)], stages: &mut Vec<InferenceStage>) -> (String, i32) {
    let mut inference = Inference::start();
    loop {
        let stage = inference.stage();
        stages.push(stage);
        let reply = match stage {
            InferenceStage::Segments => Reply::Count(segments.len() as i32),
            InferenceStage::SegmentText(i) => Reply::Text(segments[i as usize].0.to_string()),
            InferenceStage::Tokens(i) => Reply::Count(segments[i as usize].1),
            InferenceStage::TokenProb(_, _) => Reply::Probability,
            _ => Reply::Done,
        };
        match inference.step(reply) {
            Progress::Ask(next) => inference = next,
            Progress::Finished(Ok(t)) => return (t.text, t.token_count),
            Progress::Finished(Err(e)) => panic!("failed: {e:?}"),
        }
    }
}

#[test]
fn every_segment_and_token_is_read_once() {
    let mut stages = Vec::new();
    let (text, tokens) = infer(&[(" turn on ", 2), ("\tthe light\n", 1), ("", 0)], &mut stages);
    assert_eq!(text, "turn on the light ");
    assert_eq!(tokens, 3);
    assert_eq!(
        stages,
        vec![
            InferenceStage::Lock,
            InferenceStage::CreateState,
            InferenceStage::Full,
            InferenceStage::Segments,
            InferenceStage::SegmentText(0),
            InferenceStage::Tokens(0),
            InferenceStage::TokenProb(0, 0),
            InferenceStage::TokenProb(0, 1),
            InferenceStage::SegmentText(1),
            InferenceStage::Tokens(1),
            InferenceStage::TokenProb(1, 0),
            InferenceStage::SegmentText(2),
            InferenceStage::Tokens(2),
        ]
    );
}

#[test]
fn empty_segments_before_the_text_leave_no_space() {
    let mut stages = Vec::new();
    assert_eq!(infer(&[("  ", 0), ("hello", 1)], &mut stages).0, "hello");
    assert_eq!(infer(&[], &mut stages), (String::new(), 0));
}

#[test]
fn reply_that_does_not_fit_is_passed_over() {
    match Inference::start().step(Reply::Count(3)) {
        Progress::Ask(inference) => assert_eq!(inference.stage(), InferenceStage::Lock),
        other => panic!("expected the same stage, got {other:?}"),
    }
}

#[test]
fn failed_stage_is_named_in_the_error() {
    match Inference::start().step(Reply::Failed("no lock".to_string())) {
        Progress::Finished(Err(EngineError::Internal(what))) => {
            assert_eq!(what, "ctx poisoned: no lock");
        }
        other => panic!("expected an error, got {other:?}"),
    }
    let named = [
        (InferenceStage::CreateState, "create_state: e"),
        (InferenceStage::Full, "full inference: e"),
        (InferenceStage::Segments, "n_segments: e"),
        (InferenceStage::SegmentText(12), "seg text 12: e"),
        (InferenceStage::Tokens(3), "n_tokens seg 3: e"),
        (InferenceStage::TokenProb(3, 40), "token_prob 3/40: e"),
    ];
    for (stage, what) in named {
        let message = inference_error(stage, "e").message();
        assert_eq!(message, format!("engine internal failure: {what}"));
    }
}

#[test]
fn confidence_of_a_transcript_is_its_average_in_range() {
    let finish = |tokens: i32, average: f32| {
        let t = wintermute_stt::inference::Transcript {
            text: "hi".to_string(),
            token_count: tokens,
        };
        let f = t.finish(Confidence::from_bits(average.to_bits()));
        assert_eq!(f.text, "hi");
        f32::from_bits(f.confidence.to_bits())
    };
    assert_eq!(finish(2, 0.625), 0.625);
    assert_eq!(finish(2, 1.25), 1.0);
    assert_eq!(finish(2, -0.5), 0.0);
    assert_eq!(finish(0, 0.625), 0.0);
}

#[test]
fn models_have_files_of_their_own() {
    let names = wintermute_stt::ALLOWED_MODEL_NAMES;
    for a in names {
        for b in names {
            assert_eq!(resolve_model_path("/m", a) == resolve_model_path("/m", b), a == b);
        }
    }
}
