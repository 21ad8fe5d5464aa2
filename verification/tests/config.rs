use wintermute_stt::confidence::Confidence;
use wintermute_stt::config::{
    parse_bool_env, EnvVars, ThresholdVar, CONFIDENCE_VAR, DEFAULT_CONFIDENCE_THRESHOLD_SHOWN,
    FASTPATH_VAR, THRESHOLD_VAR,
};
use wintermute_stt::{
    validate_model_name, validate_threshold, SttConfig, SttError, Threshold, ALLOWED_MODEL_NAMES,
    DEFAULT_CONFIDENCE_THRESHOLD, DEFAULT_MIC_SOCK, DEFAULT_MODELS_ROOT, DEFAULT_MODEL_NAME,
};

fn threshold(t: f32) -> Threshold {
    Threshold::new(Confidence::from_bits(t.to_bits()), &t.to_string())
}

fn threshold_var(raw: &str) -> Option<ThresholdVar> {
    let parsed = raw.parse::<f32>().map(threshold).map_err(|e| e.to_string());
    Some(ThresholdVar { raw: raw.to_string(), parsed })
}

fn no_vars() -> EnvVars {
    EnvVars {
        model: None,
        models_root: None,
        mic_sock: None,
        confidence: None,
        threshold: None,
        cloud_fastpath: None,
    }
}

#[test]
fn default_config_validates() {
    let cfg = SttConfig::default();
    cfg.validate().expect("defaults are valid");
    assert_eq!(cfg.model, DEFAULT_MODEL_NAME);
    assert_eq!(cfg.confidence_threshold.value.to_bits(), DEFAULT_CONFIDENCE_THRESHOLD);
    assert!(!cfg.cloud_fastpath);
}

#[test]
fn validate_model_name_accepts_all_allowed() {
    for name in ALLOWED_MODEL_NAMES {
        validate_model_name(name).expect("allow-list entries validate");
    }
}

#[test]
fn validate_model_name_rejects_unknown() {
    let err = validate_model_name("tiny.en").unwrap_err();
    assert!(matches!(err, SttError::UnknownModel { ref name, .. } if name == "tiny.en"));
}

#[test]
fn validate_threshold_boundaries() {
    validate_threshold(&threshold(0.001)).expect("just above zero is fine");
    validate_threshold(&threshold(1.0)).expect("exactly one is fine");
    assert!(matches!(validate_threshold(&threshold(0.0)), Err(SttError::InvalidThreshold(_))));
    assert!(matches!(validate_threshold(&threshold(-0.1)), Err(SttError::InvalidThreshold(_))));
    assert!(matches!(validate_threshold(&threshold(1.1)), Err(SttError::InvalidThreshold(_))));
    assert!(matches!(
        validate_threshold(&threshold(f32::NAN)),
        Err(SttError::InvalidThreshold(_))
    ));
}

#[test]
fn parse_bool_env_accepts_synonyms() {
    for raw in ["1", "true", "TRUE", " yes ", "on"] {
        assert!(parse_bool_env("WM_TEST", raw).expect("parses"));
    }
    for raw in ["0", "false", "no", "off"] {
        assert!(!parse_bool_env("WM_TEST", raw).expect("parses"));
    }
    assert!(matches!(
        parse_bool_env("WM_TEST", "maybe"),
        Err(SttError::InvalidEnv { .. })
    ));
}

#[test]
fn default_threshold_is_the_number_that_is_shown() {
    let number: f32 = DEFAULT_CONFIDENCE_THRESHOLD_SHOWN.parse().expect("parses");
    assert_eq!(number.to_bits(), DEFAULT_CONFIDENCE_THRESHOLD);
    assert_eq!(number, 0.45);
}

#[test]
fn parse_bool_env_takes_unicode_white_space_and_mixed_case() {
    assert!(parse_bool_env("WM_TEST", "\u{2003}\tOn\u{a0}\n").expect("parses"));
    assert!(!parse_bool_env("WM_TEST", "oFF\r").expect("parses"));
    assert!(parse_bool_env("WM_TEST", "o n").is_err());
    assert!(parse_bool_env("WM_TEST", "\u{200b}on").is_err());
    assert!(parse_bool_env("WM_TEST", "").is_err());
}

#[test]
fn error_messages_name_the_fault() {
    assert_eq!(
        validate_model_name("ti\"ny").unwrap_err().message(),
        "unknown model \"ti\\\"ny\"; allowed: [\"distil-small.en\", \"small.en\", \"medium.en\", \
         \"large-v3-turbo\"]"
    );
    assert_eq!(
        validate_threshold(&threshold(1.5)).unwrap_err().message(),
        "invalid confidence threshold 1.5; must be in (0.0, 1.0]"
    );
    assert_eq!(
        parse_bool_env("WM_TEST", "may\tbe").unwrap_err().message(),
        "env var WM_TEST has invalid value \"may\\tbe\": expected one of: 1/0, true/false, \
         yes/no, on/off"
    );
    let io = SttError::Io { path: "/a/b".to_string(), source: "gone".to_string() };
    assert_eq!(io.message(), "io failure on /a/b: gone");
}

#[test]
fn from_env_without_variables_is_the_default() {
    let cfg = SttConfig::from_env(no_vars()).expect("defaults load");
    assert_eq!(cfg.model, DEFAULT_MODEL_NAME);
    assert_eq!(cfg.models_root, DEFAULT_MODELS_ROOT);
    assert_eq!(cfg.mic_sock, DEFAULT_MIC_SOCK);
    assert_eq!(cfg.confidence_threshold.value.to_bits(), 0.45_f32.to_bits());
    assert!(!cfg.cloud_fastpath);
}

#[test]
fn from_env_takes_every_variable() {
    let cfg = SttConfig::from_env(EnvVars {
        model: Some("small.en".to_string()),
        models_root: Some("/m".to_string()),
        mic_sock: Some("/s".to_string()),
        confidence: None,
        threshold: threshold_var("0.6"),
        cloud_fastpath: Some("yes".to_string()),
    })
    .expect("loads");
    assert_eq!(cfg.model, "small.en");
    assert_eq!(cfg.models_root, "/m");
    assert_eq!(cfg.mic_sock, "/s");
    assert_eq!(cfg.confidence_threshold.value.to_bits(), 0.6_f32.to_bits());
    assert!(cfg.cloud_fastpath);
}

#[test]
fn empty_variables_count_as_unset() {
    let cfg = SttConfig::from_env(EnvVars {
        model: Some(String::new()),
        models_root: Some(String::new()),
        mic_sock: Some(String::new()),
        confidence: threshold_var(""),
        threshold: threshold_var(""),
        cloud_fastpath: Some(String::new()),
    })
    .expect("loads");
    assert_eq!(cfg.model, DEFAULT_MODEL_NAME);
    assert_eq!(cfg.models_root, DEFAULT_MODELS_ROOT);
    assert_eq!(cfg.confidence_threshold.value.to_bits(), DEFAULT_CONFIDENCE_THRESHOLD);
}

#[test]
fn confidence_variable_goes_before_its_older_name() {
    let mut vars = no_vars();
    vars.confidence = threshold_var("0.3");
    vars.threshold = threshold_var("0.7");
    let cfg = SttConfig::from_env(vars).expect("loads");
    assert_eq!(cfg.confidence_threshold.value.to_bits(), 0.3_f32.to_bits());
}

#[test]
fn unreadable_threshold_names_its_variable() {
    let mut vars = no_vars();
    vars.confidence = threshold_var("high");
    match SttConfig::from_env(vars) {
        Err(SttError::InvalidEnv { var, value, reason }) => {
            assert_eq!(var, CONFIDENCE_VAR);
            assert_eq!(value, "high");
            assert_eq!(reason, "invalid float literal");
        }
        other => panic!("expected InvalidEnv, got {other:?}"),
    }
    let mut vars = no_vars();
    vars.threshold = threshold_var("low");
    match SttConfig::from_env(vars) {
        Err(SttError::InvalidEnv { var, .. }) => assert_eq!(var, THRESHOLD_VAR),
        other => panic!("expected InvalidEnv, got {other:?}"),
    }
}

#[test]
fn from_env_reports_the_first_fault() {
    let mut vars = no_vars();
    vars.model = Some("tiny.en".to_string());
    vars.threshold = threshold_var("7");
    assert!(matches!(SttConfig::from_env(vars), Err(SttError::UnknownModel { .. })));
    let mut vars = no_vars();
    vars.threshold = threshold_var("7");
    vars.cloud_fastpath = Some("maybe".to_string());
    assert!(matches!(SttConfig::from_env(vars), Err(SttError::InvalidThreshold(_))));
    let mut vars = no_vars();
    vars.cloud_fastpath = Some("maybe".to_string());
    assert!(matches!(
        SttConfig::from_env(vars),
        Err(SttError::InvalidEnv { var, .. }) if var == FASTPATH_VAR
    ));
}

#[test]
fn confidence_compares_as_numbers_do() {
    let numbers = [
        f32::NEG_INFINITY,
        f32::MIN,
        -1.5,
        -1.0,
        -f32::MIN_POSITIVE,
        -1.0e-45,
        -0.0,
        0.0,
        1.0e-45,
        f32::MIN_POSITIVE,
        0.45,
        0.5,
        1.0,
        1.0000001,
        f32::MAX,
        f32::INFINITY,
        f32::NAN,
        -f32::NAN,
    ];
    for a in numbers {
        let ca = Confidence::from_bits(a.to_bits());
        assert_eq!(ca.is_in_unit_range(), a > 0.0 && a <= 1.0, "{a}");
        assert_eq!(ca.clamp_to_unit().to_bits(), a.clamp(0.0, 1.0).to_bits(), "{a}");
        for b in numbers {
            let cb = Confidence::from_bits(b.to_bits());
            assert_eq!(ca.at_least(cb), a >= b, "{a} {b}");
            assert_eq!(ca == cb, a == b, "{a} {b}");
        }
    }
}

#[test]
fn thresholds_compare_by_their_numbers() {
    let make = |t: f32, shown: &str| SttConfig {
        confidence_threshold: Threshold::new(Confidence::from_bits(t.to_bits()), shown),
        ..SttConfig::default()
    };
    assert!(make(0.0, "0") == make(-0.0, "-0"));
    assert!(make(0.5, "0.5") == make(0.5, "0.50"));
    assert!(make(0.5, "0.5") != make(0.25, "0.5"));
    assert!(make(f32::NAN, "NaN") != make(f32::NAN, "NaN"));
}
