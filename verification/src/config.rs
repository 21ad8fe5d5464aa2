//! Runtime settings: defaults, validation and loading from the environment.

use crate::confidence::Confidence;
use crate::text::{debug_list_text, debug_str, lowercase_text, same_text, trim_text};
use vstd::prelude::*;

verus! {

/// Model that is loaded when none is configured.
pub const DEFAULT_MODEL_NAME: &'static str = "distil-small.en";

/// Bit pattern of the default confidence threshold, 0.45. A transcript below
/// the threshold is published as uncertain.
pub const DEFAULT_CONFIDENCE_THRESHOLD: u32 = 0x3EE6_6666;

/// The default confidence threshold as messages show it.
pub const DEFAULT_CONFIDENCE_THRESHOLD_SHOWN: &'static str = "0.45";

/// Directory that holds the model files by default. The file of a model is
/// `<root>/whisper-<name>.bin`, with the dots of the name as hyphens.
pub const DEFAULT_MODELS_ROOT: &'static str = "/usr/share/wintermute/models";

/// Socket from which PCM frames are read by default.
pub const DEFAULT_MIC_SOCK: &'static str = "/run/wintermute/mic.sock";

/// Names of the models that may be loaded.
pub const ALLOWED_MODEL_NAMES: [&'static str; 4] = [
    "distil-small.en",
    "small.en",
    "medium.en",
    "large-v3-turbo",
];

/// The names in [`ALLOWED_MODEL_NAMES`], as texts.
pub open spec fn allowed_names() -> Seq<Seq<char>> {
    ALLOWED_MODEL_NAMES@.map_values(|name: &'static str| name@)
}

/// True for the name of a model that may be loaded.
pub open spec fn allowed(name: Seq<char>) -> bool {
    allowed_names().contains(name)
}

/// A confidence threshold: the number, and the text by which messages show it.
/// Thresholds are compared by their numbers.
#[derive(Debug)]
pub struct Threshold {
    /// The number itself.
    pub value: Confidence,
    /// The number in decimal.
    pub shown: String,
}

/// A [`Threshold`] with its text as a sequence of characters.
pub struct ThresholdView {
    pub value: Confidence,
    pub shown: Seq<char>,
}

impl View for Threshold {
    type V = ThresholdView;

    open spec fn view(&self) -> ThresholdView {
        ThresholdView { value: self.value, shown: self.shown@ }
    }
}

impl PartialEq for Threshold {
    fn eq(&self, other: &Self) -> (same: bool) {
        self.value.at_least(other.value) && other.value.at_least(self.value)
    }
}

impl vstd::std_specs::cmp::PartialEqSpecImpl for Threshold {
    open spec fn obeys_eq_spec() -> bool {
        true
    }

    open spec fn eq_spec(&self, other: &Self) -> bool {
        self.value.reaches(other.value) && other.value.reaches(self.value)
    }
}

impl Clone for Threshold {
    fn clone(&self) -> (copy: Self)
        ensures
            copy@ == self@,
    {
        Threshold { value: self.value, shown: self.shown.clone() }
    }
}

impl Threshold {
    /// A threshold of the given value, shown by the given text.
    pub fn new(value: Confidence, shown: &str) -> (threshold: Threshold)
        ensures
            threshold@ == (ThresholdView { value, shown: shown@ }),
    {
        Threshold { value, shown: shown.to_owned() }
    }
}

/// Errors of loading and validating the settings.
#[derive(Debug)]
pub enum SttError {
    /// A file could not be read.
    Io {
        /// Path that produced the error.
        path: String,
        /// What the system said.
        source: String,
    },
    /// The model name is not in [`ALLOWED_MODEL_NAMES`].
    UnknownModel {
        /// The offending name.
        name: String,
        /// The names that are allowed.
        allowed: Vec<String>,
    },
    /// The confidence threshold is outside `(0.0, 1.0]`.
    InvalidThreshold(Threshold),
    /// An environment variable is set to something that cannot be parsed.
    InvalidEnv {
        /// Name of the variable.
        var: &'static str,
        /// Its value.
        value: String,
        /// Why it was refused.
        reason: String,
    },
}

/// An [`SttError`] with its texts as sequences of characters.
pub enum SttErrorView {
    Io { path: Seq<char>, source: Seq<char> },
    UnknownModel { name: Seq<char>, allowed: Seq<Seq<char>> },
    InvalidThreshold(ThresholdView),
    InvalidEnv { var: Seq<char>, value: Seq<char>, reason: Seq<char> },
}

impl View for SttError {
    type V = SttErrorView;

    open spec fn view(&self) -> SttErrorView {
        match self {
            SttError::Io { path, source } => SttErrorView::Io { path: path@, source: source@ },
            SttError::UnknownModel { name, allowed } => SttErrorView::UnknownModel {
                name: name@,
                allowed: allowed.deep_view(),
            },
            SttError::InvalidThreshold(t) => SttErrorView::InvalidThreshold(t@),
            SttError::InvalidEnv { var, value, reason } => SttErrorView::InvalidEnv {
                var: var@,
                value: value@,
                reason: reason@,
            },
        }
    }
}

impl SttErrorView {
    /// The text that tells a reader what went wrong.
    pub open spec fn message(self) -> Seq<char> {
        match self {
            SttErrorView::Io { path, source } => "io failure on "@ + path + ": "@ + source,
            SttErrorView::UnknownModel { name, allowed } => "unknown model "@
                + crate::text::debug_text(name) + "; allowed: "@ + crate::text::debug_list(allowed),
            SttErrorView::InvalidThreshold(t) => "invalid confidence threshold "@ + t.shown
                + "; must be in (0.0, 1.0]"@,
            SttErrorView::InvalidEnv { var, value, reason } => "env var "@ + var
                + " has invalid value "@ + crate::text::debug_text(value) + ": "@ + reason,
        }
    }
}

impl SttError {
    /// The text that tells a reader what went wrong.
    pub fn message(&self) -> (text: String)
        ensures
            text@ == self@.message(),
    {
        match self {
            SttError::Io { path, source } => String::from_str("io failure on ").concat(
                path.as_str(),
            ).concat(": ").concat(source.as_str()),
            SttError::UnknownModel { name, allowed } => String::from_str("unknown model ").concat(
                debug_str(name.as_str()).as_str(),
            ).concat("; allowed: ").concat(debug_list_text(allowed).as_str()),
            SttError::InvalidThreshold(t) => String::from_str(
                "invalid confidence threshold ",
            ).concat(t.shown.as_str()).concat("; must be in (0.0, 1.0]"),
            SttError::InvalidEnv { var, value, reason } => String::from_str("env var ").concat(
                *var,
            ).concat(" has invalid value ").concat(debug_str(value.as_str()).as_str()).concat(
                ": ",
            ).concat(reason.as_str()),
        }
    }
}

/// The error for a model name that is not allowed.
pub open spec fn unknown_model(name: Seq<char>) -> SttErrorView {
    SttErrorView::UnknownModel { name, allowed: allowed_names() }
}

/// A copy of the names in [`ALLOWED_MODEL_NAMES`].
fn allowed_list() -> (names: Vec<String>)
    ensures
        names.deep_view() == allowed_names(),
{
    let mut names: Vec<String> = Vec::new();
    let mut i: usize = 0;
    while i < 4
        invariant
            i <= 4,
            ALLOWED_MODEL_NAMES@.len() == 4,
            names.deep_view() == allowed_names().take(i as int),
        decreases 4 - i,
    {
        let ghost before = names.deep_view();
        names.push(ALLOWED_MODEL_NAMES[i].to_owned());
        proof {
            assert(names.deep_view() =~= before.push(allowed_names()[i as int]));
            assert(allowed_names().take(i + 1) =~= before.push(allowed_names()[i as int]));
        }
        i += 1;
    }
    proof {
        assert(allowed_names().take(4) =~= allowed_names());
    }
    names
}

/// Accepts the names in [`ALLOWED_MODEL_NAMES`] and no other.
pub fn validate_model_name(name: &str) -> (result: Result<(), SttError>)
    ensures
        result is Ok <==> allowed(name@),
        result matches Err(e) ==> e@ == unknown_model(name@),
{
    let mut i: usize = 0;
    while i < 4
        invariant
            i <= 4,
            ALLOWED_MODEL_NAMES@.len() == 4,
            forall|k: int| 0 <= k < i ==> #[trigger] allowed_names()[k] != name@,
        decreases 4 - i,
    {
        if same_text(ALLOWED_MODEL_NAMES[i], name) {
            proof {
                assert(allowed_names()[i as int] == name@);
            }
            return Ok(());
        }
        i += 1;
    }
    Err(SttError::UnknownModel { name: name.to_owned(), allowed: allowed_list() })
}

/// Accepts thresholds in `(0.0, 1.0]` and no other, so neither zero nor a
/// value that is not a number.
pub fn validate_threshold(t: &Threshold) -> (result: Result<(), SttError>)
    ensures
        result is Ok <==> t.value.in_unit_range(),
        result matches Err(e) ==> e@ == SttErrorView::InvalidThreshold(t@),
{
    if t.value.is_in_unit_range() {
        Ok(())
    } else {
        Err(SttError::InvalidThreshold(t.clone()))
    }
}

/// Runtime settings of the daemon.
#[derive(Debug, PartialEq)]
pub struct SttConfig {
    /// Active model name, one of [`ALLOWED_MODEL_NAMES`].
    pub model: String,
    /// Directory that holds the model files.
    pub models_root: String,
    /// Socket from which PCM frames are read.
    pub mic_sock: String,
    /// Confidence threshold, within `(0.0, 1.0]`.
    pub confidence_threshold: Threshold,
    /// Whether the cloud service is asked too.
    pub cloud_fastpath: bool,
}

/// An [`SttConfig`] with its texts as sequences of characters.
pub struct SttConfigView {
    pub model: Seq<char>,
    pub models_root: Seq<char>,
    pub mic_sock: Seq<char>,
    pub confidence_threshold: ThresholdView,
    pub cloud_fastpath: bool,
}

impl View for SttConfig {
    type V = SttConfigView;

    open spec fn view(&self) -> SttConfigView {
        SttConfigView {
            model: self.model@,
            models_root: self.models_root@,
            mic_sock: self.mic_sock@,
            confidence_threshold: self.confidence_threshold@,
            cloud_fastpath: self.cloud_fastpath,
        }
    }
}

impl Clone for SttConfig {
    fn clone(&self) -> (copy: Self)
        ensures
            copy@ == self@,
    {
        SttConfig {
            model: self.model.clone(),
            models_root: self.models_root.clone(),
            mic_sock: self.mic_sock.clone(),
            confidence_threshold: self.confidence_threshold.clone(),
            cloud_fastpath: self.cloud_fastpath,
        }
    }
}

impl SttConfigView {
    /// True for settings with an allowed model and a threshold in range.
    pub open spec fn valid(self) -> bool {
        allowed(self.model) && self.confidence_threshold.value.in_unit_range()
    }

    /// The first thing that is wrong with settings that are not valid.
    pub open spec fn complaint(self) -> SttErrorView {
        if !allowed(self.model) {
            unknown_model(self.model)
        } else {
            SttErrorView::InvalidThreshold(self.confidence_threshold)
        }
    }
}

/// The default threshold.
pub open spec fn default_threshold_view() -> ThresholdView {
    ThresholdView {
        value: Confidence { bits: DEFAULT_CONFIDENCE_THRESHOLD },
        shown: DEFAULT_CONFIDENCE_THRESHOLD_SHOWN@,
    }
}

/// The settings when nothing is configured.
pub open spec fn default_config() -> SttConfigView {
    SttConfigView {
        model: DEFAULT_MODEL_NAME@,
        models_root: DEFAULT_MODELS_ROOT@,
        mic_sock: DEFAULT_MIC_SOCK@,
        confidence_threshold: default_threshold_view(),
        cloud_fastpath: false,
    }
}

/// The default model name.
pub fn default_model() -> (name: String)
    ensures
        name@ == DEFAULT_MODEL_NAME@,
{
    DEFAULT_MODEL_NAME.to_owned()
}

/// The default directory of the model files.
pub fn default_models_root() -> (path: String)
    ensures
        path@ == DEFAULT_MODELS_ROOT@,
{
    DEFAULT_MODELS_ROOT.to_owned()
}

/// The default microphone socket.
pub fn default_mic_sock() -> (path: String)
    ensures
        path@ == DEFAULT_MIC_SOCK@,
{
    DEFAULT_MIC_SOCK.to_owned()
}

/// The default confidence threshold.
pub fn default_threshold() -> (threshold: Threshold)
    ensures
        threshold@ == default_threshold_view(),
{
    Threshold::new(
        Confidence::from_bits(DEFAULT_CONFIDENCE_THRESHOLD),
        DEFAULT_CONFIDENCE_THRESHOLD_SHOWN,
    )
}

impl Default for SttConfig {
    fn default() -> (config: Self)
        ensures
            config@ == default_config(),
    {
        SttConfig {
            model: default_model(),
            models_root: default_models_root(),
            mic_sock: default_mic_sock(),
            confidence_threshold: default_threshold(),
            cloud_fastpath: false,
        }
    }
}

/// Name of the variable for the confidence threshold.
pub const CONFIDENCE_VAR: &'static str = "WM_STT_CONFIDENCE";

/// Older name of the variable for the confidence threshold, read when
/// [`CONFIDENCE_VAR`] is unset.
pub const THRESHOLD_VAR: &'static str = "WM_STT_THRESHOLD";

/// Name of the variable for the cloud service.
pub const FASTPATH_VAR: &'static str = "WM_CLOUD_STT_FASTPATH";

/// A variable that holds a threshold: its value, and what reading that value as
/// a number gave.
#[derive(Debug)]
pub struct ThresholdVar {
    /// The value of the variable.
    pub raw: String,
    /// The number, or why the value is none.
    pub parsed: Result<Threshold, String>,
}

/// A [`ThresholdVar`] with its texts as sequences of characters.
pub struct ThresholdVarView {
    pub raw: Seq<char>,
    pub parsed: Result<ThresholdView, Seq<char>>,
}

impl View for ThresholdVar {
    type V = ThresholdVarView;

    open spec fn view(&self) -> ThresholdVarView {
        ThresholdVarView {
            raw: self.raw@,
            parsed: match self.parsed {
                Ok(t) => Ok(t@),
                Err(reason) => Err(reason@),
            },
        }
    }
}

/// The environment variables that the settings are read from, each as it was
/// found.
#[derive(Debug)]
pub struct EnvVars {
    /// `WM_STT_MODEL`
    pub model: Option<String>,
    /// `WM_STT_MODELS_ROOT`
    pub models_root: Option<String>,
    /// `WM_STT_MIC_SOCK`
    pub mic_sock: Option<String>,
    /// `WM_STT_CONFIDENCE`
    pub confidence: Option<ThresholdVar>,
    /// `WM_STT_THRESHOLD`
    pub threshold: Option<ThresholdVar>,
    /// `WM_CLOUD_STT_FASTPATH`
    pub cloud_fastpath: Option<String>,
}

/// A variable counts as set when it is there and is not empty.
pub open spec fn set_value(read: Option<Seq<char>>) -> Option<Seq<char>> {
    match read {
        Some(v) if v.len() > 0 => Some(v),
        _ => None,
    }
}

/// The value of a variable that is there and is not empty.
pub fn env_string(read: Option<String>) -> (value: Option<String>)
    ensures
        value.deep_view() == set_value(read.deep_view()),
{
    match read {
        Some(v) => if v.as_str().is_empty() {
            None
        } else {
            Some(v)
        },
        None => None,
    }
}

/// The threshold that the environment asks for: that of [`CONFIDENCE_VAR`] if
/// it is set, else that of [`THRESHOLD_VAR`] if it is set, else the default.
pub open spec fn threshold_choice(
    confidence: Option<ThresholdVarView>,
    threshold: Option<ThresholdVarView>,
) -> Result<ThresholdView, SttErrorView> {
    match confidence {
        Some(v) if v.raw.len() > 0 => threshold_reading(CONFIDENCE_VAR@, v),
        _ => match threshold {
            Some(v) if v.raw.len() > 0 => threshold_reading(THRESHOLD_VAR@, v),
            _ => Ok(default_threshold_view()),
        },
    }
}

/// What the variable `var` gives: its number, or the error that names it.
pub open spec fn threshold_reading(
    var: Seq<char>,
    read: ThresholdVarView,
) -> Result<ThresholdView, SttErrorView> {
    match read.parsed {
        Ok(t) => Ok(t),
        Err(reason) => Err(SttErrorView::InvalidEnv { var, value: read.raw, reason }),
    }
}

/// A result with the views of its value and of its error.
pub open spec fn threshold_result(
    result: Result<Threshold, SttError>,
) -> Result<ThresholdView, SttErrorView> {
    match result {
        Ok(t) => Ok(t@),
        Err(e) => Err(e@),
    }
}

/// Takes the number of the variable `var`, or says why there is none.
pub fn parse_threshold_env(var: &'static str, read: ThresholdVar) -> (result: Result<
    Threshold,
    SttError,
>)
    ensures
        threshold_result(result) == threshold_reading(var@, read@),
{
    match read.parsed {
        Ok(t) => Ok(t),
        Err(reason) => Err(SttError::InvalidEnv { var, value: read.raw, reason }),
    }
}

/// The threshold that the environment asks for.
fn choose_threshold(
    confidence: Option<ThresholdVar>,
    threshold: Option<ThresholdVar>,
) -> (result: Result<Threshold, SttError>)
    ensures
        threshold_result(result) == threshold_choice(
            optional_var(confidence),
            optional_var(threshold),
        ),
{
    if let Some(v) = confidence {
        if !v.raw.as_str().is_empty() {
            return parse_threshold_env(CONFIDENCE_VAR, v);
        }
    }
    if let Some(v) = threshold {
        if !v.raw.as_str().is_empty() {
            return parse_threshold_env(THRESHOLD_VAR, v);
        }
    }
    Ok(default_threshold())
}

/// The view of a variable that may be missing.
pub open spec fn optional_var(read: Option<ThresholdVar>) -> Option<ThresholdVarView> {
    match read {
        Some(v) => Some(v@),
        None => None,
    }
}

/// What a word says about a switch, in lower case and without white space
/// around it.
pub open spec fn switch_word(word: Seq<char>) -> Option<bool> {
    if word == "1"@ || word == "true"@ || word == "yes"@ || word == "on"@ {
        Some(true)
    } else if word == "0"@ || word == "false"@ || word == "no"@ || word == "off"@ {
        Some(false)
    } else {
        None
    }
}

/// What the value of a switch says, whatever its case and the white space
/// around it.
pub open spec fn switch_value(raw: Seq<char>) -> Option<bool> {
    switch_word(crate::text::trimmed(raw).map_values(|c: char| crate::text::ascii_lower(c)))
}

/// The error for a switch that says neither yes nor no.
pub open spec fn bad_switch(var: Seq<char>, raw: Seq<char>) -> SttErrorView {
    SttErrorView::InvalidEnv {
        var,
        value: raw,
        reason: "expected one of: 1/0, true/false, yes/no, on/off"@,
    }
}

/// Reads a switch: `1`, `true`, `yes` and `on` against `0`, `false`, `no` and
/// `off`.
pub fn parse_bool_env(var: &'static str, raw: &str) -> (result: Result<bool, SttError>)
    ensures
        result is Ok <==> switch_value(raw@) is Some,
        result matches Ok(on) ==> switch_value(raw@) == Some(on),
        result matches Err(e) ==> e@ == bad_switch(var@, raw@),
{
    proof {
        reveal_strlit("1");
        reveal_strlit("true");
        reveal_strlit("yes");
        reveal_strlit("on");
        reveal_strlit("0");
        reveal_strlit("false");
        reveal_strlit("no");
        reveal_strlit("off");
    }
    let word = lowercase_text(trim_text(raw).as_str());
    let w = word.as_str();
    if same_text(w, "1") || same_text(w, "true") || same_text(w, "yes") || same_text(w, "on") {
        Ok(true)
    } else if same_text(w, "0") || same_text(w, "false") || same_text(w, "no") || same_text(
        w,
        "off",
    ) {
        Ok(false)
    } else {
        Err(
            SttError::InvalidEnv {
                var,
                value: raw.to_owned(),
                reason: "expected one of: 1/0, true/false, yes/no, on/off".to_owned(),
            },
        )
    }
}

impl EnvVars {
    /// The model that the environment asks for.
    pub open spec fn model_choice(self) -> Seq<char> {
        match set_value(self.model.deep_view()) {
            Some(name) => name,
            None => DEFAULT_MODEL_NAME@,
        }
    }

    /// The settings that the environment asks for, given a threshold and the
    /// state of the cloud switch.
    pub open spec fn settings(self, threshold: ThresholdView, fastpath: bool) -> SttConfigView {
        SttConfigView {
            model: self.model_choice(),
            models_root: match set_value(self.models_root.deep_view()) {
                Some(path) => path,
                None => DEFAULT_MODELS_ROOT@,
            },
            mic_sock: match set_value(self.mic_sock.deep_view()) {
                Some(path) => path,
                None => DEFAULT_MIC_SOCK@,
            },
            confidence_threshold: threshold,
            cloud_fastpath: fastpath,
        }
    }

    /// What loading the settings gives. The model is judged first, then the
    /// threshold, then the cloud switch; the first fault is the error.
    pub open spec fn outcome(self) -> Result<SttConfigView, SttErrorView> {
        if !allowed(self.model_choice()) {
            Err(unknown_model(self.model_choice()))
        } else {
            match threshold_choice(optional_var(self.confidence), optional_var(self.threshold)) {
                Err(e) => Err(e),
                Ok(t) => if !t.value.in_unit_range() {
                    Err(SttErrorView::InvalidThreshold(t))
                } else {
                    match set_value(self.cloud_fastpath.deep_view()) {
                        None => Ok(self.settings(t, false)),
                        Some(raw) => match switch_value(raw) {
                            Some(on) => Ok(self.settings(t, on)),
                            None => Err(bad_switch(FASTPATH_VAR@, raw)),
                        },
                    }
                },
            }
        }
    }
}

impl SttConfig {
    /// Builds the settings from environment variables, with the default for
    /// each one that is unset.
    pub fn from_env(vars: EnvVars) -> (result: Result<SttConfig, SttError>)
        ensures
            result is Ok <==> vars.outcome() is Ok,
            result matches Ok(config) ==> vars.outcome() == Ok::<_, SttErrorView>(config@),
            result matches Err(e) ==> vars.outcome() == Err::<SttConfigView, _>(e@),
            result matches Ok(config) ==> config@.valid(),
    {
        let model = match env_string(vars.model) {
            Some(name) => name,
            None => default_model(),
        };
        match validate_model_name(model.as_str()) {
            Ok(_) => {},
            Err(e) => {
                return Err(e);
            },
        }
        let models_root = match env_string(vars.models_root) {
            Some(path) => path,
            None => default_models_root(),
        };
        let mic_sock = match env_string(vars.mic_sock) {
            Some(path) => path,
            None => default_mic_sock(),
        };
        let confidence_threshold = match choose_threshold(vars.confidence, vars.threshold) {
            Ok(t) => t,
            Err(e) => {
                return Err(e);
            },
        };
        match validate_threshold(&confidence_threshold) {
            Ok(_) => {},
            Err(e) => {
                return Err(e);
            },
        }
        let cloud_fastpath = match env_string(vars.cloud_fastpath) {
            Some(raw) => match parse_bool_env(FASTPATH_VAR, raw.as_str()) {
                Ok(on) => on,
                Err(e) => {
                    return Err(e);
                },
            },
            None => false,
        };
        Ok(SttConfig { model, models_root, mic_sock, confidence_threshold, cloud_fastpath })
    }

    /// Checks settings that are already built.
    pub fn validate(&self) -> (result: Result<(), SttError>)
        ensures
            result is Ok <==> self@.valid(),
            result matches Err(e) ==> e@ == self@.complaint(),
    {
        match validate_model_name(self.model.as_str()) {
            Ok(_) => {},
            Err(e) => {
                return Err(e);
            },
        }
        validate_threshold(&self.confidence_threshold)
    }
}

/// A positive pattern up to that of the number one denotes a number in
/// `(0.0, 1.0]`.
pub proof fn lemma_unit_range(value: Confidence)
    requires
        0 < value.bits <= crate::confidence::ONE_BITS,
    ensures
        value.in_unit_range(),
{
    crate::confidence::lemma_one();
    crate::confidence::lemma_scaled_order(0, value.magnitude());
    crate::confidence::lemma_scaled_order(
        value.magnitude(),
        crate::confidence::ONE_BITS as nat,
    );
}

/// The settings are valid when nothing is configured.
pub proof fn lemma_default_config_valid()
    ensures
        default_config().valid(),
        allowed(DEFAULT_MODEL_NAME@),
{
    assert(allowed_names()[0] == DEFAULT_MODEL_NAME@);
    lemma_unit_range(Confidence { bits: DEFAULT_CONFIDENCE_THRESHOLD });
}

/// With no variable set, the settings are the default ones.
pub proof fn unset_environment_gives_the_default(vars: EnvVars)
    requires
        vars.model is None,
        vars.models_root is None,
        vars.mic_sock is None,
        vars.confidence is None,
        vars.threshold is None,
        vars.cloud_fastpath is None,
    ensures
        vars.outcome() == Ok::<_, SttErrorView>(default_config()),
{
    lemma_default_config_valid();
}

/// Four models may be loaded, and no other.
pub proof fn four_models_are_allowed(name: Seq<char>)
    ensures
        allowed(name) <==> name == "distil-small.en"@ || name == "small.en"@ || name
            == "medium.en"@ || name == "large-v3-turbo"@,
        unknown_model(name) matches SttErrorView::UnknownModel { name: told, allowed: names }
            && told == name && names == seq![
            "distil-small.en"@,
            "small.en"@,
            "medium.en"@,
            "large-v3-turbo"@,
        ],
{
    let names = allowed_names();
    assert(names.len() == 4);
    assert(names[0] == "distil-small.en"@);
    assert(names[1] == "small.en"@);
    assert(names[2] == "medium.en"@);
    assert(names[3] == "large-v3-turbo"@);
    assert(names =~= seq![
        "distil-small.en"@,
        "small.en"@,
        "medium.en"@,
        "large-v3-turbo"@,
    ]);
}

/// Settings are valid exactly when the model is one of the four and the threshold lies
/// above zero and up to one; the model is complained of first.
pub proof fn valid_settings_have_model_and_threshold(c: SttConfigView)
    ensures
        c.valid() <==> allowed(c.model) && 1 <= c.confidence_threshold.value.bits <= 0x3F80_0000,
        !c.valid() ==> match c.complaint() {
            SttErrorView::UnknownModel { name, .. } => name == c.model && !allowed(c.model),
            SttErrorView::InvalidThreshold(t) => t == c.confidence_threshold && allowed(c.model)
                && (t.value.bits == 0 || t.value.bits > 0x3F80_0000),
            _ => false,
        },
{
    crate::confidence::unit_range_is_a_range_of_bits(c.confidence_threshold.value);
}

/// The text of a variable that counts: none where the variable is missing or empty.
pub open spec fn counted_text(read: Option<String>) -> Option<Seq<char>> {
    if read is Some && read->0@.len() > 0 {
        Some(read->0@)
    } else {
        None
    }
}

/// A word of a switch, in lower case and without white space around it.
pub open spec fn word_of(raw: Seq<char>) -> Seq<char> {
    Seq::new(
        crate::text::trimmed(raw).len(),
        |i: int| crate::text::ascii_lower(crate::text::trimmed(raw)[i]),
    )
}

/// The cloud switch is on exactly when its variable is set to a word that says so, off
/// when it is set to a word that says that or is not set, and any other word is an error
/// that shows it.
pub proof fn cloud_switch_is_what_its_variable_says(vars: EnvVars)
    ensures
        vars.outcome() matches Ok(config) ==> (config.cloud_fastpath <==> (counted_text(
            vars.cloud_fastpath,
        ) matches Some(raw) && {
            ||| word_of(raw) == "1"@
            ||| word_of(raw) == "true"@
            ||| word_of(raw) == "yes"@
            ||| word_of(raw) == "on"@
        })),
        vars.outcome() matches Ok(config) ==> (!config.cloud_fastpath <==> counted_text(
            vars.cloud_fastpath,
        ) is None || {
            ||| word_of(counted_text(vars.cloud_fastpath)->0) == "0"@
            ||| word_of(counted_text(vars.cloud_fastpath)->0) == "false"@
            ||| word_of(counted_text(vars.cloud_fastpath)->0) == "no"@
            ||| word_of(counted_text(vars.cloud_fastpath)->0) == "off"@
        }),
        vars.outcome() matches Err(SttErrorView::InvalidEnv { var, value, reason }) ==> (var
            == "WM_CLOUD_STT_FASTPATH"@ ==> counted_text(vars.cloud_fastpath) == Some(value)
            && reason == "expected one of: 1/0, true/false, yes/no, on/off"@),
{
    switch_words_differ();
    reveal_strlit("WM_CLOUD_STT_FASTPATH");
    reveal_strlit("WM_STT_CONFIDENCE");
    reveal_strlit("WM_STT_THRESHOLD");
    assert(FASTPATH_VAR@.len() == 21 && CONFIDENCE_VAR@.len() == 17 && THRESHOLD_VAR@.len() == 16);
    if let Some(raw) = counted_text(vars.cloud_fastpath) {
        assert(word_of(raw) =~= crate::text::trimmed(raw).map_values(
            |c: char| crate::text::ascii_lower(c),
        ));
    }
    assert(vars.cloud_fastpath.deep_view() == (match vars.cloud_fastpath {
        Some(raw) => Some(raw@),
        None => None,
    }));
}

/// The words of a switch that mean on are not those that mean off.
proof fn switch_words_differ()
    ensures
        "1"@ != "0"@,
        "yes"@ != "off"@,
        "on"@ != "no"@,
        "1"@.len() == 1 && "true"@.len() == 4 && "yes"@.len() == 3 && "on"@.len() == 2,
        "0"@.len() == 1 && "false"@.len() == 5 && "no"@.len() == 2 && "off"@.len() == 3,
{
    reveal_strlit("1");
    reveal_strlit("true");
    reveal_strlit("yes");
    reveal_strlit("on");
    reveal_strlit("0");
    reveal_strlit("false");
    reveal_strlit("no");
    reveal_strlit("off");
    assert("1"@[0] == '1' && "0"@[0] == '0');
    assert("on"@[0] == 'o' && "no"@[0] == 'n');
    assert("yes"@[0] == 'y' && "off"@[0] == 'o');
}

/// Model, directory and socket are those of their variables, and the default ones where
/// a variable is not set.
pub proof fn texts_come_from_their_variables(vars: EnvVars)
    ensures
        vars.outcome() matches Ok(config) ==> {
            &&& config.model == (match counted_text(vars.model) {
                Some(name) => name,
                None => "distil-small.en"@,
            })
            &&& config.models_root == (match counted_text(vars.models_root) {
                Some(path) => path,
                None => "/usr/share/wintermute/models"@,
            })
            &&& config.mic_sock == (match counted_text(vars.mic_sock) {
                Some(path) => path,
                None => "/run/wintermute/mic.sock"@,
            })
        },
{
    assert(vars.model.deep_view() == (match vars.model {
        Some(v) => Some(v@),
        None => None,
    }));
    assert(vars.models_root.deep_view() == (match vars.models_root {
        Some(v) => Some(v@),
        None => None,
    }));
    assert(vars.mic_sock.deep_view() == (match vars.mic_sock {
        Some(v) => Some(v@),
        None => None,
    }));
}

/// The variable that says the threshold: the newer one where it is set, else the older
/// one where that is set.
pub open spec fn threshold_source(vars: EnvVars) -> Option<ThresholdVar> {
    if vars.confidence is Some && vars.confidence->0.raw@.len() > 0 {
        vars.confidence
    } else if vars.threshold is Some && vars.threshold->0.raw@.len() > 0 {
        vars.threshold
    } else {
        None
    }
}

/// The threshold is the number in its variable, and 0.45 where none is set. It lies above
/// zero and up to one in all settings that load.
pub proof fn threshold_comes_from_its_variable(vars: EnvVars)
    ensures
        vars.outcome() matches Ok(config) ==> {
            &&& 1 <= config.confidence_threshold.value.bits <= 0x3F80_0000
            &&& match threshold_source(vars) {
                Some(var) => var.parsed matches Ok(t) && config.confidence_threshold == t@,
                None => config.confidence_threshold.value.bits == 0x3EE6_6666
                    && config.confidence_threshold.shown == "0.45"@,
            }
        },
        vars.outcome() matches Err(SttErrorView::InvalidThreshold(t)) ==> {
            &&& threshold_source(vars) matches Some(var)
            &&& var.parsed matches Ok(u)
            &&& t == u@
            &&& t.value.bits == 0 || t.value.bits > 0x3F80_0000
        },
{
    lemma_default_config_valid();
    if let Ok(config) = vars.outcome() {
        crate::confidence::unit_range_is_a_range_of_bits(config.confidence_threshold.value);
    }
    if let Err(SttErrorView::InvalidThreshold(t)) = vars.outcome() {
        crate::confidence::unit_range_is_a_range_of_bits(t.value);
    }
}

/// When settings load: the model must be one of the four, the threshold a number in
/// range, and the cloud switch a known word. The first of these that fails is the error.
pub proof fn settings_load_or_the_first_fault_is_told(vars: EnvVars)
    ensures
        vars.outcome() is Ok <==> {
            &&& allowed(
                match counted_text(vars.model) {
                    Some(name) => name,
                    None => "distil-small.en"@,
                },
            )
            &&& threshold_source(vars) matches Some(var) ==> (var.parsed matches Ok(t) && 1
                <= t.value.bits <= 0x3F80_0000)
            &&& counted_text(vars.cloud_fastpath) matches Some(raw) ==> {
                ||| word_of(raw) == "1"@
                ||| word_of(raw) == "true"@
                ||| word_of(raw) == "yes"@
                ||| word_of(raw) == "on"@
                ||| word_of(raw) == "0"@
                ||| word_of(raw) == "false"@
                ||| word_of(raw) == "no"@
                ||| word_of(raw) == "off"@
            }
        },
        vars.outcome() matches Err(SttErrorView::UnknownModel { name, .. }) ==> counted_text(
            vars.model,
        ) == Some(name) && !allowed(name),
        vars.outcome() matches Err(SttErrorView::InvalidEnv { var, value, reason }) ==> (var
            != "WM_CLOUD_STT_FASTPATH"@ ==> {
            &&& threshold_source(vars) matches Some(read)
            &&& value == read.raw@
            &&& read.parsed matches Err(why)
            &&& reason == why@
            &&& var == (if vars.confidence is Some && vars.confidence->0.raw@.len() > 0 {
                "WM_STT_CONFIDENCE"@
            } else {
                "WM_STT_THRESHOLD"@
            })
        }),
        !(vars.outcome() matches Err(SttErrorView::Io { .. })),
        !allowed(
            match counted_text(vars.model) {
                Some(name) => name,
                None => "distil-small.en"@,
            },
        ) ==> (vars.outcome() matches Err(e) && e is UnknownModel),
{
    lemma_default_config_valid();
    switch_words_differ();
    assert(vars.model.deep_view() == (match vars.model {
        Some(v) => Some(v@),
        None => None,
    }));
    assert(vars.cloud_fastpath.deep_view() == (match vars.cloud_fastpath {
        Some(v) => Some(v@),
        None => None,
    }));
    if let Some(raw) = counted_text(vars.cloud_fastpath) {
        assert(word_of(raw) =~= crate::text::trimmed(raw).map_values(
            |c: char| crate::text::ascii_lower(c),
        ));
    }
    if let Some(var) = threshold_source(vars) {
        if let Ok(t) = var.parsed {
            crate::confidence::unit_range_is_a_range_of_bits(t.value);
        }
    }
}

/// The default settings, field by field.
pub proof fn default_settings_are_these()
    ensures
        default_config().model == "distil-small.en"@,
        default_config().models_root == "/usr/share/wintermute/models"@,
        default_config().mic_sock == "/run/wintermute/mic.sock"@,
        default_config().confidence_threshold.value.bits == 0x3EE6_6666,
        default_config().confidence_threshold.shown == "0.45"@,
        !default_config().cloud_fastpath,
{
}

/// What is told of settings holds the name, the number, or the variable and its value,
/// each in its place.
pub proof fn complaints_hold_what_is_wrong(e: SttErrorView)
    ensures
        match e {
            SttErrorView::Io { path, source } => crate::text::frames(
                e.message(),
                "io failure on "@ + path,
                ": "@,
                source,
            ),
            SttErrorView::UnknownModel { name, allowed } => crate::text::frames(
                e.message(),
                "unknown model "@ + crate::text::debug_text(name),
                "; allowed: "@,
                crate::text::debug_list(allowed),
            ),
            SttErrorView::InvalidThreshold(t) => crate::text::frames(
                e.message(),
                "invalid confidence threshold "@,
                t.shown,
                "; must be in (0.0, 1.0]"@,
            ),
            SttErrorView::InvalidEnv { var, value, reason } => crate::text::frames(
                e.message(),
                "env var "@ + var + " has invalid value "@,
                crate::text::debug_text(value),
                ": "@ + reason,
            ),
        },
{
    match e {
        SttErrorView::Io { path, source } => {
            crate::text::lemma_frames("io failure on "@ + path, ": "@, source);
        },
        SttErrorView::UnknownModel { name, allowed } => {
            crate::text::lemma_frames(
                "unknown model "@ + crate::text::debug_text(name),
                "; allowed: "@,
                crate::text::debug_list(allowed),
            );
        },
        SttErrorView::InvalidThreshold(t) => {
            crate::text::lemma_frames(
                "invalid confidence threshold "@,
                t.shown,
                "; must be in (0.0, 1.0]"@,
            );
        },
        SttErrorView::InvalidEnv { var, value, reason } => {
            let before = "env var "@ + var + " has invalid value "@;
            let shown = crate::text::debug_text(value);
            crate::text::lemma_frames(before, shown, ": "@ + reason);
            assert(before + shown + (": "@ + reason) =~= before + shown + ": "@ + reason);
        },
    }
}

/// A switch reads as on or off by its word alone, and any other word is refused with the
/// variable and the value as they were given.
pub proof fn switch_reads_by_its_word(var: &'static str, raw: &str, result: Result<bool, SttError>)
    requires
        call_ensures(parse_bool_env, (var, raw), result),
    ensures
        result == Ok::<bool, SttError>(true) <==> {
            ||| word_of(raw@) == "1"@
            ||| word_of(raw@) == "true"@
            ||| word_of(raw@) == "yes"@
            ||| word_of(raw@) == "on"@
        },
        result == Ok::<bool, SttError>(false) <==> {
            ||| word_of(raw@) == "0"@
            ||| word_of(raw@) == "false"@
            ||| word_of(raw@) == "no"@
            ||| word_of(raw@) == "off"@
        },
        result matches Err(e) ==> (e@ matches SttErrorView::InvalidEnv { var: v, value, .. } && v
            == var@ && value == raw@),
{
    switch_words_differ();
    assert(word_of(raw@) =~= crate::text::trimmed(raw@).map_values(
        |c: char| crate::text::ascii_lower(c),
    ));
}

/// A name is accepted exactly when it is one of the four, and a threshold exactly when
/// it lies above zero and up to one; what is refused is in the error.
pub proof fn names_and_thresholds_are_judged(
    name: &str,
    judged: Result<(), SttError>,
    t: &Threshold,
    weighed: Result<(), SttError>,
)
    requires
        call_ensures(validate_model_name, (name,), judged),
        call_ensures(validate_threshold, (t,), weighed),
    ensures
        judged is Ok <==> name@ == "distil-small.en"@ || name@ == "small.en"@ || name@
            == "medium.en"@ || name@ == "large-v3-turbo"@,
        judged matches Err(e) ==> (e@ matches SttErrorView::UnknownModel { name: told, .. } && told
            == name@),
        weighed is Ok <==> 1 <= t.value.bits <= 0x3F80_0000,
        weighed matches Err(e) ==> e@ == SttErrorView::InvalidThreshold(t@),
{
    four_models_are_allowed(name@);
    crate::confidence::unit_range_is_a_range_of_bits(t.value);
}

/// A variable that is set keeps its value, and one that is empty counts as not set.
pub proof fn empty_variables_are_not_set(read: Option<String>, value: Option<String>)
    requires
        call_ensures(env_string, (read,), value),
    ensures
        value is Some <==> read is Some && read->0@.len() > 0,
        value is Some ==> value->0@ == read->0@,
{
    assert(read.deep_view() == (match read {
        Some(v) => Some(v@),
        None => None,
    }));
    assert(value.deep_view() == (match value {
        Some(v) => Some(v@),
        None => None,
    }));
}

} // verus!
