//! The engine over whisper.cpp, apart from whisper.cpp itself: where model files
//! lie, how PCM is decoded and buffered, and how segments make a transcript.

use crate::bus::saturate_ms;
use crate::confidence::Confidence;
use crate::config::validate_model_name;
use crate::engine::{EngineError, EngineErrorView, EngineFinal, EngineFinalView};
use crate::text::{decimal_text, hyphenate};
use base64::Engine;
use vstd::prelude::*;

verus! {

/// The file of a model: `whisper-<name>.bin` in the directory of the models,
/// with the dots of the name as hyphens.
pub open spec fn model_path(root: Seq<char>, name: Seq<char>) -> Seq<char> {
    let file = "whisper-"@ + crate::text::hyphenated(name) + ".bin"@;
    if root.len() == 0 || root.last() == '/' {
        root + file
    } else {
        root + "/"@ + file
    }
}

/// Tells whether a file name can follow the directory as it is, without a
/// separator.
fn takes_no_separator(root: &str) -> (yes: bool)
    ensures
        yes == (root@.len() == 0 || root@.last() == '/'),
{
    let n: usize = root.unicode_len();
    n == 0 || root.get_char(n - 1) == '/'
}

/// The file of a model, under a directory that is given as text with `/` as the
/// separator.
pub fn model_file_path(root: &str, name: &str) -> (path: String)
    ensures
        path@ == model_path(root@, name@),
{
    let file = String::from_str("whisper-").concat(hyphenate(name).as_str()).concat(".bin");
    if takes_no_separator(root) {
        root.to_owned().concat(file.as_str())
    } else {
        root.to_owned().concat("/").concat(file.as_str())
    }
}

/// Where the file of a model is looked for.
pub fn resolve_model_path(root: &str, name: &str) -> (path: String)
    ensures
        path@ == model_path(root@, name@),
{
    model_file_path(root, name)
}

/// Why a text is no base64.
#[derive(Debug, Clone, Copy, PartialEq, Eq)]
pub enum Base64Fault {
    /// A byte outside the alphabet: its offset and the byte.
    InvalidByte(usize, u8),
    /// A number of symbols that no encoding has.
    InvalidLength(usize),
    /// A last symbol with bits that would be lost: its offset and the byte.
    InvalidLastSymbol(usize, u8),
    /// Padding that is missing or wrong.
    InvalidPadding,
}

/// What decoding a text as base64 with the standard alphabet and with padding
/// gives.
pub uninterp spec fn base64_decoded(text: Seq<char>) -> Result<Seq<u8>, Base64Fault>;

/// A decoding result with the view of its bytes.
pub open spec fn base64_result(result: Result<Vec<u8>, Base64Fault>) -> Result<
    Seq<u8>,
    Base64Fault,
> {
    match result {
        Ok(bytes) => Ok(bytes@),
        Err(fault) => Err(fault),
    }
}

/// `base64::Engine::decode` of the `STANDARD` engine, with its error variant by
/// variant. Claimed is only that the result depends on the text alone; which
/// texts decode, and to what, is left unsaid.
#[verifier::external_body]
fn decode_base64(text: &str) -> (result: Result<Vec<u8>, Base64Fault>)
    ensures
        base64_result(result) == base64_decoded(text@),
{
    base64::engine::general_purpose::STANDARD.decode(text).map_err(
        |e| match e {
            base64::DecodeError::InvalidByte(at, byte) => Base64Fault::InvalidByte(at, byte),
            base64::DecodeError::InvalidLength(len) => Base64Fault::InvalidLength(len),
            base64::DecodeError::InvalidLastSymbol(at, byte) => {
                Base64Fault::InvalidLastSymbol(at, byte)
            },
            base64::DecodeError::InvalidPadding => Base64Fault::InvalidPadding,
        },
    )
}

impl Base64Fault {
    /// The text that tells a reader what is wrong.
    pub open spec fn text(self) -> Seq<char> {
        match self {
            Base64Fault::InvalidByte(at, byte) => "Invalid symbol "@ + crate::text::decimal(
                byte as nat,
            ) + ", offset "@ + crate::text::decimal(at as nat) + "."@,
            Base64Fault::InvalidLength(len) => "Invalid input length: "@ + crate::text::decimal(
                len as nat,
            ),
            Base64Fault::InvalidLastSymbol(at, byte) => "Invalid last symbol "@
                + crate::text::decimal(byte as nat) + ", offset "@ + crate::text::decimal(at as nat)
                + "."@,
            Base64Fault::InvalidPadding => "Invalid padding"@,
        }
    }

    /// The text that tells a reader what is wrong.
    pub fn message(self) -> (text: String)
        ensures
            text@ == self.text(),
    {
        match self {
            Base64Fault::InvalidByte(at, byte) => String::from_str("Invalid symbol ").concat(
                decimal_text(byte as u64).as_str(),
            ).concat(", offset ").concat(decimal_text(at as u64).as_str()).concat("."),
            Base64Fault::InvalidLength(len) => String::from_str("Invalid input length: ").concat(
                decimal_text(len as u64).as_str(),
            ),
            Base64Fault::InvalidLastSymbol(at, byte) => String::from_str(
                "Invalid last symbol ",
            ).concat(decimal_text(byte as u64).as_str()).concat(", offset ").concat(
                decimal_text(at as u64).as_str(),
            ).concat("."),
            Base64Fault::InvalidPadding => String::from_str("Invalid padding"),
        }
    }
}

/// The 16-bit sample in a pair of bytes, low byte first and in two's complement.
pub open spec fn sample(low: u8, high: u8) -> i16 {
    let n = low + 256 * high;
    (if n < 0x8000 {
        n
    } else {
        n - 0x1_0000
    }) as i16
}

/// The samples in a sequence of bytes, two bytes each.
pub open spec fn samples(bytes: Seq<u8>) -> Seq<i16> {
    Seq::new(bytes.len() / 2, |i: int| sample(bytes[2 * i], bytes[2 * i + 1]))
}

/// A sample as two bytes, low byte first.
pub open spec fn sample_bytes(s: i16) -> Seq<u8> {
    let n = if s >= 0 {
        s as int
    } else {
        s + 0x1_0000
    };
    seq![(n % 256) as u8, (n / 256) as u8]
}

/// Samples as bytes, two bytes each.
pub open spec fn bytes_of(pcm: Seq<i16>) -> Seq<u8> {
    Seq::new(
        2 * pcm.len(),
        |i: int| sample_bytes(pcm[i / 2])[i % 2],
    )
}

/// The error for a chunk with half a sample at its end.
pub open spec fn odd_bytes(count: nat) -> EngineErrorView {
    EngineErrorView::BadChunk {
        reason: "odd byte count "@ + crate::text::decimal(count) + "; i16 PCM expected"@,
    }
}

/// The samples in a chunk of bytes, which must be whole.
pub open spec fn whole_samples(bytes: Seq<u8>) -> Result<Seq<i16>, EngineErrorView> {
    if bytes.len() % 2 == 0 {
        Ok(samples(bytes))
    } else {
        Err(odd_bytes(bytes.len()))
    }
}

/// The samples in a chunk of base64: not the empty one, and of whole samples.
pub open spec fn pcm_of(pcm_b64: Seq<char>) -> Result<Seq<i16>, EngineErrorView> {
    if pcm_b64.len() == 0 {
        Err(EngineErrorView::BadChunk { reason: "empty pcm_b64"@ })
    } else {
        match base64_decoded(pcm_b64) {
            Err(fault) => Err(
                EngineErrorView::BadChunk { reason: "base64 decode: "@ + fault.text() },
            ),
            Ok(bytes) => whole_samples(bytes),
        }
    }
}

/// A decoding result with the views of its samples and of its error.
pub open spec fn pcm_result(result: Result<Vec<i16>, EngineError>) -> Result<
    Seq<i16>,
    EngineErrorView,
> {
    match result {
        Ok(pcm) => Ok(pcm@),
        Err(e) => Err(e@),
    }
}

/// Reads bytes as 16-bit samples, low byte first.
pub fn samples_from_bytes(raw: &Vec<u8>) -> (result: Result<Vec<i16>, EngineError>)
    ensures
        pcm_result(result) == whole_samples(raw@),
{
    if raw.len() % 2 != 0 {
        return Err(
            EngineError::BadChunk {
                reason: String::from_str("odd byte count ").concat(
                    decimal_text(raw.len() as u64).as_str(),
                ).concat("; i16 PCM expected"),
            },
        );
    }
    let mut pcm: Vec<i16> = Vec::new();
    let mut i: usize = 0;
    while i < raw.len()
        invariant
            i <= raw.len(),
            i % 2 == 0,
            raw.len() % 2 == 0,
            pcm@ == samples(raw@.take(i as int)),
        decreases raw.len() - i,
    {
        let n: i32 = raw[i] as i32 + 256 * raw[i + 1] as i32;
        let s: i16 = if n < 0x8000 {
            n as i16
        } else {
            (n - 0x1_0000) as i16
        };
        pcm.push(s);
        proof {
            assert(samples(raw@.take(i + 2)) =~= samples(raw@.take(i as int)).push(s));
        }
        i += 2;
    }
    proof {
        assert(raw@.take(i as int) =~= raw@);
    }
    Ok(pcm)
}

/// Decodes a chunk of base64 into 16-bit samples.
pub fn decode_pcm_b64(pcm_b64: &str) -> (result: Result<Vec<i16>, EngineError>)
    ensures
        pcm_result(result) == pcm_of(pcm_b64@),
{
    if pcm_b64.is_empty() {
        return Err(EngineError::BadChunk { reason: "empty pcm_b64".to_owned() });
    }
    match decode_base64(pcm_b64) {
        Err(fault) => Err(
            EngineError::BadChunk {
                reason: String::from_str("base64 decode: ").concat(fault.message().as_str()),
            },
        ),
        Ok(raw) => samples_from_bytes(&raw),
    }
}

/// What opening the file of a model gave.
#[derive(Debug)]
pub enum ContextOutcome {
    /// There is no such file.
    Missing,
    /// The file is no model.
    Rejected(String),
    /// The model is loaded, but the engine's lock is broken.
    Poisoned(String),
    /// The model is loaded.
    Opened,
}

/// What it means for the engine that opening the file at `path` gave `found`.
pub open spec fn opened(path: Seq<char>, found: ContextOutcome) -> Result<(), EngineErrorView> {
    match found {
        ContextOutcome::Missing => Err(EngineErrorView::ModelMissing { path }),
        ContextOutcome::Rejected(e) => Err(
            EngineErrorView::Internal("whisper load "@ + path + ": "@ + e@),
        ),
        ContextOutcome::Poisoned(e) => Err(EngineErrorView::Internal("ctx poisoned: "@ + e@)),
        ContextOutcome::Opened => Ok(()),
    }
}

/// Judges what opening the file at `path` gave.
pub fn judge_context(path: String, found: ContextOutcome) -> (result: Result<(), EngineError>)
    ensures
        crate::engine::chunk_outcome(result) == opened(path@, found),
{
    match found {
        ContextOutcome::Missing => Err(EngineError::ModelMissing { path }),
        ContextOutcome::Rejected(e) => Err(
            EngineError::Internal(
                String::from_str("whisper load ").concat(path.as_str()).concat(": ").concat(
                    e.as_str(),
                ),
            ),
        ),
        ContextOutcome::Poisoned(e) => Err(
            EngineError::Internal(String::from_str("ctx poisoned: ").concat(e.as_str())),
        ),
        ContextOutcome::Opened => Ok(()),
    }
}

/// What loading a model comes to: its name must be allowed, and its file must
/// open.
pub open spec fn load_outcome(
    root: Seq<char>,
    name: Seq<char>,
    found: ContextOutcome,
) -> Result<(), EngineErrorView> {
    if crate::config::allowed(name) {
        opened(model_path(root, name), found)
    } else {
        Err(EngineErrorView::UnknownModel(crate::config::unknown_model(name)))
    }
}

/// What there is to do when an utterance is finalised.
#[derive(Debug)]
pub enum Window {
    /// Nothing was heard, and this is the transcript.
    Silent(EngineFinal),
    /// These samples are to be transcribed.
    Heard(Vec<i16>),
}

/// The state of the engine besides the loaded model: which model it is, where
/// models lie, and the samples of the utterance.
#[derive(Debug)]
pub struct WhisperEngine {
    model_name: String,
    models_root: String,
    buffer: Vec<i16>,
}

/// What a [`WhisperEngine`] holds.
#[verifier::ext_equal]
pub struct WhisperEngineView {
    pub model_name: Seq<char>,
    pub models_root: Seq<char>,
    pub buffer: Seq<i16>,
}

impl View for WhisperEngine {
    type V = WhisperEngineView;

    closed spec fn view(&self) -> WhisperEngineView {
        WhisperEngineView {
            model_name: self.model_name@,
            models_root: self.models_root@,
            buffer: self.buffer@,
        }
    }
}

/// The samples in a chunk of base64, none where the chunk does not decode.
pub open spec fn chunk_samples(pcm_b64: Seq<char>) -> Seq<i16> {
    match pcm_of(pcm_b64) {
        Ok(pcm) => pcm,
        Err(_) => Seq::empty(),
    }
}

impl WhisperEngineView {
    /// The engine with one chunk more.
    pub open spec fn with_chunk(self, pcm_b64: Seq<char>) -> WhisperEngineView {
        WhisperEngineView { buffer: self.buffer + chunk_samples(pcm_b64), ..self }
    }

    /// The engine with several chunks more.
    pub open spec fn with_chunks(self, chunks: Seq<Seq<char>>) -> WhisperEngineView
        decreases chunks.len(),
    {
        if chunks.len() == 0 {
            self
        } else {
            self.with_chunks(chunks.drop_last()).with_chunk(chunks.last())
        }
    }
}

impl WhisperEngine {
    /// The file to open before [`Self::load`], for a model that is allowed.
    pub fn plan_load(model_name: &str, models_root: &str) -> (result: Result<String, EngineError>)
        ensures
            result is Ok <==> crate::config::allowed(model_name@),
            result matches Ok(path) ==> path@ == model_path(models_root@, model_name@),
            result matches Err(e) ==> e@ == EngineErrorView::UnknownModel(
                crate::config::unknown_model(model_name@),
            ),
    {
        match validate_model_name(model_name) {
            Ok(_) => Ok(model_file_path(models_root, model_name)),
            Err(e) => Err(EngineError::UnknownModel(e)),
        }
    }

    /// The engine for a model whose file was opened, with nothing heard yet.
    pub fn load(model_name: &str, models_root: &str, found: ContextOutcome) -> (result: Result<
        WhisperEngine,
        EngineError,
    >)
        ensures
            result is Ok <==> load_outcome(models_root@, model_name@, found) is Ok,
            result matches Ok(engine) ==> engine@ == (WhisperEngineView {
                model_name: model_name@,
                models_root: models_root@,
                buffer: Seq::empty(),
            }),
            result matches Err(e) ==> load_outcome(models_root@, model_name@, found) == Err::<(), _>(
                e@,
            ),
    {
        let path = match WhisperEngine::plan_load(model_name, models_root) {
            Ok(path) => path,
            Err(e) => {
                return Err(e);
            },
        };
        match judge_context(path, found) {
            Ok(_) => Ok(
                WhisperEngine {
                    model_name: model_name.to_owned(),
                    models_root: models_root.to_owned(),
                    buffer: Vec::new(),
                },
            ),
            Err(e) => Err(e),
        }
    }

    /// Number of samples of the utterance so far.
    pub fn buffered_samples(&self) -> (count: usize)
        ensures
            count == self@.buffer.len(),
    {
        self.buffer.len()
    }

    /// Name of the active model.
    pub fn model_name(&self) -> (name: &str)
        ensures
            name@ == self@.model_name,
    {
        self.model_name.as_str()
    }

    /// Decodes a chunk and adds its samples to the utterance. A chunk that does
    /// not decode adds nothing.
    pub fn accept_chunk(&mut self, seq: u64, pcm_b64: &str) -> (result: Result<(), EngineError>)
        ensures
            final(self)@ == old(self)@.with_chunk(pcm_b64@),
            match pcm_of(pcm_b64@) {
                Ok(_) => result is Ok,
                Err(fault) => result matches Err(e) && e@ == fault,
            },
    {
        match decode_pcm_b64(pcm_b64) {
            Ok(pcm) => {
                let mut pcm = pcm;
                self.buffer.append(&mut pcm);
                Ok(())
            },
            Err(e) => Err(e),
        }
    }

    /// There are no guesses while speech goes on.
    pub fn current_partial(&self) -> (guess: Option<String>)
        ensures
            guess is None,
    {
        None
    }

    /// Takes the samples of the utterance for transcription. An utterance
    /// without samples has the empty transcript, with confidence zero.
    pub fn take_window(&mut self) -> (window: Window)
        ensures
            final(self)@ == (WhisperEngineView { buffer: Seq::empty(), ..old(self)@ }),
            match window {
                Window::Silent(f) => {
                    &&& old(self)@.buffer.len() == 0
                    &&& f@ == (EngineFinalView {
                        text: Seq::empty(),
                        confidence: Confidence { bits: 0 },
                    })
                },
                Window::Heard(pcm) => {
                    &&& old(self)@.buffer.len() > 0
                    &&& pcm@ == old(self)@.buffer
                },
            },
    {
        let mut heard: Vec<i16> = Vec::new();
        heard.append(&mut self.buffer);
        proof {
            assert(heard@ =~= old(self)@.buffer);
        }
        if heard.len() == 0 {
            Window::Silent(
                EngineFinal { text: String::new(), confidence: Confidence::from_bits(0) },
            )
        } else {
            Window::Heard(heard)
        }
    }

    /// Changes to a model whose file was opened in `elapsed_ms` milliseconds,
    /// and drops the utterance. Where the model cannot be had, everything stays
    /// as it is.
    pub fn reload_model(
        &mut self,
        name: &str,
        found: ContextOutcome,
        elapsed_ms: u128,
    ) -> (result: Result<u64, EngineError>)
        ensures
            match load_outcome(old(self)@.models_root, name@, found) {
                Ok(_) => {
                    &&& result == Ok::<u64, EngineError>(
                        crate::bus::saturated_ms(Some(elapsed_ms)),
                    )
                    &&& final(self)@ == (WhisperEngineView {
                        model_name: name@,
                        buffer: Seq::empty(),
                        ..old(self)@
                    })
                },
                Err(fault) => {
                    &&& result matches Err(e) && e@ == fault
                    &&& final(self)@ == old(self)@
                },
            },
    {
        let path = match WhisperEngine::plan_load(name, self.models_root.as_str()) {
            Ok(path) => path,
            Err(e) => {
                return Err(e);
            },
        };
        match judge_context(path, found) {
            Ok(_) => {},
            Err(e) => {
                return Err(e);
            },
        }
        self.model_name = name.to_owned();
        self.buffer.clear();
        Ok(saturate_ms(Some(elapsed_ms)))
    }

    /// Where models lie.
    pub fn models_root(&self) -> (root: &str)
        ensures
            root@ == self@.models_root,
    {
        self.models_root.as_str()
    }

    /// Drops the utterance.
    pub fn reset(&mut self)
        ensures
            final(self)@ == (WhisperEngineView { buffer: Seq::empty(), ..old(self)@ }),
    {
        self.buffer.clear();
    }
}

/// Number of threads for inference: as many as the machine offers, or one where
/// that is not known.
pub fn num_threads(available: Option<usize>) -> (count: i32)
    ensures
        count == (match available {
            Some(n) if n <= i32::MAX => n as i32,
            _ => 1,
        }),
{
    match available {
        Some(n) => if n <= i32::MAX as usize {
            n as i32
        } else {
            1
        },
        None => 1,
    }
}

/// The samples of an utterance are those of its chunks, one chunk after another.
/// Chunks that do not decode leave no gap.
pub proof fn utterance_is_its_chunks(engine: WhisperEngineView, chunks: Seq<Seq<char>>)
    ensures
        engine.with_chunks(chunks) == (WhisperEngineView {
            buffer: engine.buffer + chunks.map_values(
                |pcm_b64: Seq<char>| chunk_samples(pcm_b64),
            ).flatten(),
            ..engine
        }),
    decreases chunks.len(),
{
    let samples_of = |pcm_b64: Seq<char>| chunk_samples(pcm_b64);
    let parts = chunks.map_values(samples_of);
    if chunks.len() == 0 {
        assert(parts.flatten() =~= Seq::<i16>::empty());
        assert(engine.buffer + parts.flatten() =~= engine.buffer);
    } else {
        utterance_is_its_chunks(engine, chunks.drop_last());
        assert(parts =~= chunks.drop_last().map_values(samples_of).push(
            chunk_samples(chunks.last()),
        ));
        chunks.drop_last().map_values(samples_of).lemma_flatten_push(chunk_samples(chunks.last()));
        assert(engine.buffer + parts.flatten() =~= engine.buffer + chunks.drop_last().map_values(
            samples_of,
        ).flatten() + chunk_samples(chunks.last()));
    }
}

/// Samples survive being written as bytes and read back.
pub proof fn samples_round_trip(pcm: Seq<i16>)
    ensures
        whole_samples(bytes_of(pcm)) == Ok::<_, EngineErrorView>(pcm),
{
    assert forall|i: int| 0 <= i < pcm.len() implies #[trigger] samples(bytes_of(pcm))[i] == pcm[i] by {
        assert((2 * i) / 2 == i && (2 * i + 1) / 2 == i);
        assert((2 * i) % 2 == 0 && (2 * i + 1) % 2 == 1);
    }
    assert(samples(bytes_of(pcm)) =~= pcm);
}

/// Bytes in pairs survive being read as samples and written again.
pub proof fn bytes_round_trip(bytes: Seq<u8>)
    requires
        bytes.len() % 2 == 0,
    ensures
        bytes_of(samples(bytes)) == bytes,
{
    assert forall|i: int| 0 <= i < bytes.len() implies #[trigger] bytes_of(samples(bytes))[i]
        == bytes[i] by {
        let k = i / 2;
        assert(i == 2 * k || i == 2 * k + 1);
    }
    assert(bytes_of(samples(bytes)) =~= bytes);
}

/// No two models that may be loaded share a file.
pub proof fn models_have_files_of_their_own(root: Seq<char>, a: Seq<char>, b: Seq<char>)
    requires
        crate::config::allowed(a),
        crate::config::allowed(b),
        model_path(root, a) == model_path(root, b),
    ensures
        a == b,
{
    reveal_strlit("distil-small.en");
    reveal_strlit("small.en");
    reveal_strlit("medium.en");
    reveal_strlit("large-v3-turbo");
    let fixed = if root.len() == 0 || root.last() == '/' {
        root.len()
    } else {
        root.len() + "/"@.len()
    } + "whisper-"@.len() + ".bin"@.len();
    assert(model_path(root, a).len() == fixed + a.len());
    assert(model_path(root, b).len() == fixed + b.len());
    let names = crate::config::allowed_names();
    let i = choose|i: int| 0 <= i < names.len() && names[i] == a;
    let j = choose|j: int| 0 <= j < names.len() && names[j] == b;
    assert(names[0].len() == 15 && names[1].len() == 8 && names[2].len() == 9 && names[3].len()
        == 14);
    assert(i == j);
}

/// The file name of a model holds no dot from the model's name, and a name
/// without dots stands in it as it is.
pub proof fn file_name_has_no_dots_of_the_name(name: Seq<char>)
    ensures
        !crate::text::hyphenated(name).contains('.'),
        crate::text::hyphenated(name).len() == name.len(),
        !name.contains('.') ==> crate::text::hyphenated(name) == name,
{
    let h = crate::text::hyphenated(name);
    if !name.contains('.') {
        assert forall|i: int| 0 <= i < name.len() implies h[i] == name[i] by {
            assert(name.contains(name[i]));
        }
        assert(h =~= name);
    }
}

/// The number in a pair of bytes, low byte first, without a sign.
pub open spec fn pair_number(low: u8, high: u8) -> int {
    low + 256 * high
}

/// A chunk that decodes to an even number of bytes gives one sample for each pair of
/// bytes, at every length, and each sample is the number in its pair, in two's
/// complement.
pub proof fn chunk_gives_a_sample_for_each_pair(pcm_b64: Seq<char>, bytes: Seq<u8>)
    requires
        pcm_b64.len() > 0,
        base64_decoded(pcm_b64) == Ok::<_, Base64Fault>(bytes),
        bytes.len() % 2 == 0,
    ensures
        pcm_of(pcm_b64) matches Ok(pcm) && {
            &&& 2 * pcm.len() == bytes.len()
            &&& forall|i: int|
                0 <= i < pcm.len() ==> {
                    ||| #[trigger] pcm[i] >= 0 && pcm[i] == pair_number(
                        bytes[2 * i],
                        bytes[2 * i + 1],
                    )
                    ||| pcm[i] < 0 && pcm[i] + 0x1_0000 == pair_number(
                        bytes[2 * i],
                        bytes[2 * i + 1],
                    )
                }
        },
{
}

/// A chunk that holds samples, low byte first, decodes to exactly these samples.
pub proof fn chunk_of_samples_decodes_to_them(pcm_b64: Seq<char>, pcm: Seq<i16>)
    requires
        pcm_b64.len() > 0,
        base64_decoded(pcm_b64) == Ok::<_, Base64Fault>(bytes_of(pcm)),
    ensures
        pcm_of(pcm_b64) == Ok::<_, EngineErrorView>(pcm),
{
    samples_round_trip(pcm);
}

/// The bytes of samples are two for each sample: first what is left of it by 256, then
/// how often 256 goes into it, with negative samples counted from 65536 down.
pub proof fn bytes_of_samples_are_low_byte_first(pcm: Seq<i16>, i: int)
    requires
        0 <= i < pcm.len(),
    ensures
        bytes_of(pcm).len() == 2 * pcm.len(),
        pair_number(bytes_of(pcm)[2 * i], bytes_of(pcm)[2 * i + 1]) == if pcm[i] >= 0 {
            pcm[i] as int
        } else {
            pcm[i] + 0x1_0000
        },
{
    assert((2 * i) / 2 == i && (2 * i + 1) / 2 == i);
    assert((2 * i) % 2 == 0 && (2 * i + 1) % 2 == 1);
}

/// A chunk is refused exactly when it is empty, is no base64, or ends within a
/// sample, and the reason says which.
pub proof fn chunk_is_refused_for_a_reason(pcm_b64: Seq<char>)
    ensures
        pcm_of(pcm_b64) is Err <==> pcm_b64.len() == 0 || base64_decoded(pcm_b64) is Err
            || base64_decoded(pcm_b64)->Ok_0.len() % 2 == 1,
        pcm_of(pcm_b64) matches Err(e) ==> {
            &&& e is BadChunk
            &&& pcm_b64.len() == 0 ==> e->reason == "empty pcm_b64"@
            &&& pcm_b64.len() > 0 ==> match base64_decoded(pcm_b64) {
                Err(fault) => crate::text::frames(
                    e->reason,
                    "base64 decode: "@,
                    fault.text(),
                    Seq::empty(),
                ),
                Ok(bytes) => crate::text::frames(
                    e->reason,
                    "odd byte count "@,
                    crate::text::decimal(bytes.len()),
                    "; i16 PCM expected"@,
                ),
            }
        },
{
    if let Err(fault) = base64_decoded(pcm_b64) {
        crate::text::lemma_frames("base64 decode: "@, fault.text(), Seq::empty());
        assert("base64 decode: "@ + fault.text() + Seq::<char>::empty() =~= "base64 decode: "@
            + fault.text());
    }
    if let Ok(bytes) = base64_decoded(pcm_b64) {
        crate::text::lemma_frames(
            "odd byte count "@,
            crate::text::decimal(bytes.len()),
            "; i16 PCM expected"@,
        );
    }
}

/// What is wrong with a text that is no base64 is told with the place and the byte.
pub proof fn base64_faults_name_the_place(at: usize, byte: u8)
    ensures
        crate::text::frames(
            Base64Fault::InvalidByte(at, byte).text(),
            "Invalid symbol "@ + crate::text::decimal(byte as nat),
            ", offset "@,
            crate::text::decimal(at as nat) + "."@,
        ),
        crate::text::frames(
            Base64Fault::InvalidLastSymbol(at, byte).text(),
            "Invalid last symbol "@ + crate::text::decimal(byte as nat),
            ", offset "@,
            crate::text::decimal(at as nat) + "."@,
        ),
        crate::text::frames(
            Base64Fault::InvalidLength(at).text(),
            "Invalid input length: "@,
            crate::text::decimal(at as nat),
            Seq::empty(),
        ),
{
    let b = crate::text::decimal(byte as nat);
    let n = crate::text::decimal(at as nat);
    let none = Seq::<char>::empty();
    crate::text::lemma_frames("Invalid symbol "@ + b, ", offset "@, n + "."@);
    crate::text::lemma_frames("Invalid last symbol "@ + b, ", offset "@, n + "."@);
    crate::text::lemma_frames("Invalid input length: "@, n, none);
    assert(Base64Fault::InvalidByte(at, byte).text() =~= "Invalid symbol "@ + b + ", offset "@ + (n
        + "."@));
    assert(Base64Fault::InvalidLastSymbol(at, byte).text() =~= "Invalid last symbol "@ + b
        + ", offset "@ + (n + "."@));
    assert("Invalid input length: "@ + n + none =~= "Invalid input length: "@ + n);
}

/// Chunks of samples leave exactly their samples in the engine, in order and at every
/// length, and change nothing else.
pub proof fn utterance_keeps_every_sample(
    engine: WhisperEngineView,
    chunks: Seq<Seq<char>>,
    pcm: Seq<Seq<i16>>,
)
    requires
        chunks.len() == pcm.len(),
        forall|i: int|
            0 <= i < chunks.len() ==> (#[trigger] chunks[i]).len() > 0 && base64_decoded(chunks[i])
                == Ok::<_, Base64Fault>(bytes_of(pcm[i])),
    ensures
        engine.with_chunks(chunks).buffer == engine.buffer + pcm.flatten(),
        engine.with_chunks(chunks).model_name == engine.model_name,
        engine.with_chunks(chunks).models_root == engine.models_root,
{
    utterance_is_its_chunks(engine, chunks);
    let parts = chunks.map_values(|pcm_b64: Seq<char>| chunk_samples(pcm_b64));
    assert forall|i: int| 0 <= i < pcm.len() implies parts[i] == #[trigger] pcm[i] by {
        assert(chunks[i].len() > 0);
        chunk_of_samples_decodes_to_them(chunks[i], pcm[i]);
    }
    assert(parts =~= pcm);
}

/// A refused chunk leaves the engine as it was.
pub proof fn refused_chunk_leaves_no_samples(engine: WhisperEngineView, pcm_b64: Seq<char>)
    requires
        pcm_b64.len() == 0 || base64_decoded(pcm_b64) is Err || base64_decoded(
            pcm_b64,
        )->Ok_0.len() % 2 == 1,
    ensures
        engine.with_chunk(pcm_b64) == engine,
{
    chunk_is_refused_for_a_reason(pcm_b64);
    assert(engine.with_chunk(pcm_b64).buffer =~= engine.buffer);
}

/// The file of a model lies in the directory of the models: the path is the
/// directory, one separator where the directory does not end with it and is not
/// empty, and the file name, which holds the name with its dots as hyphens.
pub proof fn model_file_lies_in_the_directory(root: Seq<char>, name: Seq<char>)
    ensures
        root.is_prefix_of(model_path(root, name)),
        root.len() == 0 || root.last() == '/' ==> crate::text::frames(
            model_path(root, name).skip(root.len() as int),
            "whisper-"@,
            crate::text::hyphenated(name),
            ".bin"@,
        ),
        root.len() > 0 && root.last() != '/' ==> {
            &&& model_path(root, name)[root.len() as int] == '/'
            &&& crate::text::frames(
                model_path(root, name).skip((root.len() + 1) as int),
                "whisper-"@,
                crate::text::hyphenated(name),
                ".bin"@,
            )
        },
{
    reveal_strlit("/");
    let path = model_path(root, name);
    let file = "whisper-"@ + crate::text::hyphenated(name) + ".bin"@;
    crate::text::lemma_frames("whisper-"@, crate::text::hyphenated(name), ".bin"@);
    assert(path.subrange(0, root.len() as int) =~= root);
    if root.len() == 0 || root.last() == '/' {
        assert(path.skip(root.len() as int) =~= file);
    } else {
        assert(path.skip((root.len() + 1) as int) =~= file);
    }
}

/// A model is loaded exactly when its name is allowed and its file opened. A name that
/// is not allowed is refused before its file is looked at, and a file that is missing
/// or no model is named by its path.
pub proof fn model_is_loaded_or_refused(root: Seq<char>, name: Seq<char>, found: ContextOutcome)
    ensures
        load_outcome(root, name, found) is Ok <==> crate::config::allowed(name) && found is Opened,
        load_outcome(root, name, found) matches Err(e) ==> {
            &&& e is UnknownModel <==> !crate::config::allowed(name)
            &&& e is ModelMissing <==> crate::config::allowed(name) && found is Missing
            &&& !(e is BadChunk)
            &&& e matches EngineErrorView::UnknownModel(what) ==> what
                == crate::config::unknown_model(name)
            &&& e matches EngineErrorView::ModelMissing { path } ==> path == model_path(root, name)
            &&& e matches EngineErrorView::Internal(what) ==> match found {
                ContextOutcome::Rejected(cause) => crate::text::frames(
                    what,
                    "whisper load "@ + model_path(root, name),
                    ": "@,
                    cause@,
                ),
                ContextOutcome::Poisoned(cause) => crate::text::frames(
                    what,
                    "ctx poisoned: "@,
                    cause@,
                    Seq::empty(),
                ),
                _ => false,
            }
        },
{
    match found {
        ContextOutcome::Rejected(cause) => {
            crate::text::lemma_frames("whisper load "@ + model_path(root, name), ": "@, cause@);
        },
        ContextOutcome::Poisoned(cause) => {
            crate::text::lemma_frames("ctx poisoned: "@, cause@, Seq::empty());
            assert("ctx poisoned: "@ + cause@ + Seq::<char>::empty() =~= "ctx poisoned: "@
                + cause@);
        },
        _ => {},
    }
}

/// As many threads are used as the machine offers, where that is known and a count can
/// hold it, and one thread otherwise.
pub proof fn threads_are_those_on_offer(available: Option<usize>, count: i32)
    requires
        call_ensures(num_threads, (available,), count),
    ensures
        available matches Some(n) && n <= i32::MAX ==> count == available->0,
        available is None || available->0 > i32::MAX ==> count == 1,
{
}

/// Taking the window hands out every sample that was heard, in order, and leaves none
/// behind. Where none was heard the transcript is empty and has no confidence.
pub proof fn window_holds_every_sample(engine: &mut WhisperEngine, window: Window)
    requires
        call_ensures(WhisperEngine::take_window, (engine,), window),
    ensures
        final(engine)@.buffer.len() == 0,
        final(engine)@.model_name == old(engine)@.model_name,
        final(engine)@.models_root == old(engine)@.models_root,
        window matches Window::Heard(pcm) ==> pcm@ == old(engine)@.buffer,
        window is Silent <==> old(engine)@.buffer.len() == 0,
        window matches Window::Silent(f) ==> f.text@.len() == 0 && f.confidence.bits == 0,
{
}

/// A model is changed exactly when its name is allowed and its file opened. Then the
/// engine goes by the new name, has heard nothing, and tells how long it took, as far as
/// that can be counted; otherwise it is as it was.
pub proof fn model_is_changed_or_all_stays(
    engine: &mut WhisperEngine,
    name: &str,
    found: ContextOutcome,
    elapsed_ms: u128,
    result: Result<u64, EngineError>,
)
    requires
        call_ensures(WhisperEngine::reload_model, (engine, name, found, elapsed_ms), result),
    ensures
        result is Ok <==> crate::config::allowed(name@) && found is Opened,
        result matches Ok(ms) ==> {
            &&& final(engine)@.model_name == name@
            &&& final(engine)@.buffer.len() == 0
            &&& elapsed_ms <= u64::MAX ==> ms == elapsed_ms
            &&& elapsed_ms > u64::MAX ==> ms == u64::MAX
        },
        result matches Err(e) ==> final(engine)@ == old(engine)@,
        final(engine)@.models_root == old(engine)@.models_root,
        crate::config::allowed(name@) && found is Missing ==> (result matches Err(e) && (e@ matches
            EngineErrorView::ModelMissing { path } && path == model_path(
            old(engine)@.models_root,
            name@,
        ))),
{
    model_is_loaded_or_refused(old(engine)@.models_root, name@, found);
}

/// An engine is loaded exactly when the name is allowed and the file opened, with the
/// name and the directory that are given and nothing heard. The file to open is that of
/// the model.
pub proof fn engine_is_loaded_as_asked(
    model_name: &str,
    models_root: &str,
    found: ContextOutcome,
    result: Result<WhisperEngine, EngineError>,
    planned: Result<String, EngineError>,
)
    requires
        call_ensures(WhisperEngine::load, (model_name, models_root, found), result),
        call_ensures(WhisperEngine::plan_load, (model_name, models_root), planned),
    ensures
        result is Ok <==> crate::config::allowed(model_name@) && found is Opened,
        result matches Ok(engine) ==> engine@.model_name == model_name@ && engine@.models_root
            == models_root@ && engine@.buffer.len() == 0,
        planned is Ok <==> crate::config::allowed(model_name@),
        planned matches Ok(path) ==> models_root@.is_prefix_of(path@) && path@ == model_path(
            models_root@,
            model_name@,
        ),
{
    model_is_loaded_or_refused(models_root@, model_name@, found);
    model_file_lies_in_the_directory(models_root@, model_name@);
}

/// A reset drops the samples and nothing else.
pub proof fn reset_drops_the_samples(engine: &mut WhisperEngine, result: ())
    requires
        call_ensures(WhisperEngine::reset, (engine,), result),
    ensures
        final(engine)@.buffer.len() == 0,
        final(engine)@.model_name == old(engine)@.model_name,
        final(engine)@.models_root == old(engine)@.models_root,
{
}

/// A chunk of samples is accepted whole: the engine has heard what it had and then these
/// samples.
pub proof fn chunk_of_samples_is_accepted(
    engine: &mut WhisperEngine,
    seq: u64,
    pcm_b64: &str,
    pcm: Seq<i16>,
    result: Result<(), EngineError>,
)
    requires
        call_ensures(WhisperEngine::accept_chunk, (engine, seq, pcm_b64), result),
        pcm_b64@.len() > 0,
        base64_decoded(pcm_b64@) == Ok::<_, Base64Fault>(bytes_of(pcm)),
    ensures
        result is Ok,
        final(engine)@.buffer == old(engine)@.buffer + pcm,
        final(engine)@.model_name == old(engine)@.model_name,
{
    chunk_of_samples_decodes_to_them(pcm_b64@, pcm);
}

/// Decoding a chunk of samples gives these samples.
pub proof fn decoding_gives_the_samples(
    pcm_b64: &str,
    pcm: Seq<i16>,
    result: Result<Vec<i16>, EngineError>,
)
    requires
        call_ensures(decode_pcm_b64, (pcm_b64,), result),
        pcm_b64@.len() > 0,
        base64_decoded(pcm_b64@) == Ok::<_, Base64Fault>(bytes_of(pcm)),
    ensures
        result matches Ok(out) && out@ == pcm,
{
    chunk_of_samples_decodes_to_them(pcm_b64@, pcm);
}

} // verus!
