use wintermute_stt::cli::{parse_command, start_config, Command};
use wintermute_stt::config::EnvVars;
use wintermute_stt::{SttError, DEFAULT_MODELS_ROOT};

fn args(words: &[&str]) -> Vec<String> {
    words.iter().map(|w| w.to_string()).collect()
}

fn vars(model: Option<&str>) -> EnvVars {
    EnvVars {
        model: model.map(str::to_string),
        models_root: None,
        mic_sock: None,
        confidence: None,
        threshold: None,
        cloud_fastpath: None,
    }
}

#[test]
fn start_takes_an_optional_directory() {
    assert!(matches!(
        parse_command(&args(&["start"])),
        Command::Start { models_root: None }
    ));
    match parse_command(&args(&["start", "--models-root", "/srv/models"])) {
        Command::Start { models_root: Some(root) } => assert_eq!(root, "/srv/models"),
        other => panic!("expected start, got {other:?}"),
    }
}

#[test]
fn reload_model_takes_a_name() {
    match parse_command(&args(&["reload-model", "medium.en"])) {
        Command::ReloadModel { name } => assert_eq!(name, "medium.en"),
        other => panic!("expected reload-model, got {other:?}"),
    }
}

#[test]
fn other_arguments_ask_for_usage() {
    for words in [
        &[][..],
        &["stop"],
        &["start", "--models-root"],
        &["start", "x", "y"],
        &["reload-model"],
        &["reload-model", "a", "b"],
    ] {
        assert!(matches!(parse_command(&args(words)), Command::Usage));
    }
}

#[test]
fn directory_of_the_command_line_goes_first() {
    let cfg = start_config(vars(None), None).expect("defaults");
    assert_eq!(cfg.models_root, DEFAULT_MODELS_ROOT);
    let cfg = start_config(vars(Some("small.en")), Some("/m".to_string())).expect("valid");
    assert_eq!(cfg.models_root, "/m");
    assert_eq!(cfg.model, "small.en");
    assert!(matches!(
        start_config(vars(Some("tiny.en")), Some("/m".to_string())),
        Err(SttError::UnknownModel { .. })
    ));
}
