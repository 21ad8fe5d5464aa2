//! Transcription engines.
//!
//! [`TranscriptionEngine`] is what the processor asks of an engine, and
//! [`StubEngine`] is a deterministic engine for development without a speech
//! model.

use crate::bus::ErrorEventView;
use crate::confidence::Confidence;
use crate::config::{
    SttError, SttErrorView, Threshold, validate_model_name, validate_threshold,
    DEFAULT_MODEL_NAME,
};
use crate::text::decimal_text;
use vstd::prelude::*;

verus! {

/// Result of finalising an utterance.
#[derive(Debug, Clone, PartialEq)]
pub struct EngineFinal {
    /// Finished transcript.
    pub text: String,
    /// Confidence of the transcript.
    pub confidence: Confidence,
}

/// An [`EngineFinal`] with its text as a sequence of characters.
pub struct EngineFinalView {
    pub text: Seq<char>,
    pub confidence: Confidence,
}

impl View for EngineFinal {
    type V = EngineFinalView;

    open spec fn view(&self) -> EngineFinalView {
        EngineFinalView { text: self.text@, confidence: self.confidence }
    }
}

/// Errors of a [`TranscriptionEngine`].
#[derive(Debug)]
pub enum EngineError {
    /// A chunk could not be accepted.
    BadChunk {
        /// What is wrong with it.
        reason: String,
    },
    /// The model is not one that may be loaded.
    UnknownModel(SttError),
    /// The file of the model is not there.
    ModelMissing {
        /// Where it was looked for.
        path: String,
    },
    /// The engine itself failed.
    Internal(String),
}

/// An [`EngineError`] with its texts as sequences of characters.
pub enum EngineErrorView {
    BadChunk { reason: Seq<char> },
    UnknownModel(SttErrorView),
    ModelMissing { path: Seq<char> },
    Internal(Seq<char>),
}

impl View for EngineError {
    type V = EngineErrorView;

    open spec fn view(&self) -> EngineErrorView {
        match self {
            EngineError::BadChunk { reason } => EngineErrorView::BadChunk { reason: reason@ },
            EngineError::UnknownModel(e) => EngineErrorView::UnknownModel(e@),
            EngineError::ModelMissing { path } => EngineErrorView::ModelMissing { path: path@ },
            EngineError::Internal(what) => EngineErrorView::Internal(what@),
        }
    }
}

impl EngineErrorView {
    /// The text that tells a reader what went wrong.
    pub open spec fn message(self) -> Seq<char> {
        match self {
            EngineErrorView::BadChunk { reason } => "engine rejected chunk: "@ + reason,
            EngineErrorView::UnknownModel(e) => e.message(),
            EngineErrorView::ModelMissing { path } => "model file missing: "@ + path,
            EngineErrorView::Internal(what) => "engine internal failure: "@ + what,
        }
    }

    /// The tag by which error events tell the kinds apart.
    pub open spec fn kind(self) -> Seq<char> {
        match self {
            EngineErrorView::BadChunk { .. } => "io"@,
            EngineErrorView::UnknownModel(_) => "model"@,
            EngineErrorView::ModelMissing { .. } => "model_missing"@,
            EngineErrorView::Internal(_) => "engine"@,
        }
    }

    /// The error event that reports the error.
    pub open spec fn event(self, ts: u64) -> ErrorEventView {
        ErrorEventView { kind: self.kind(), message: self.message(), ts }
    }
}

impl EngineError {
    /// The text that tells a reader what went wrong.
    pub fn message(&self) -> (text: String)
        ensures
            text@ == self@.message(),
    {
        match self {
            EngineError::BadChunk { reason } => String::from_str("engine rejected chunk: ").concat(
                reason.as_str(),
            ),
            EngineError::UnknownModel(e) => e.message(),
            EngineError::ModelMissing { path } => String::from_str("model file missing: ").concat(
                path.as_str(),
            ),
            EngineError::Internal(what) => String::from_str("engine internal failure: ").concat(
                what.as_str(),
            ),
        }
    }
}

impl From<SttError> for EngineError {
    fn from(e: SttError) -> (error: EngineError) {
        EngineError::UnknownModel(e)
    }
}

impl vstd::std_specs::convert::FromSpecImpl<SttError> for EngineError {
    open spec fn obeys_from_spec() -> bool {
        true
    }

    open spec fn from_spec(e: SttError) -> EngineError {
        EngineError::UnknownModel(e)
    }
}

/// The outcome of accepting a chunk, with the view of its error.
pub open spec fn chunk_outcome(result: Result<(), EngineError>) -> Result<(), EngineErrorView> {
    match result {
        Ok(_) => Ok(()),
        Err(e) => Err(e@),
    }
}

/// The outcome of finalising, with the views of its value and of its error.
pub open spec fn final_outcome(result: Result<EngineFinal, EngineError>) -> Result<
    EngineFinalView,
    EngineErrorView,
> {
    match result {
        Ok(f) => Ok(f@),
        Err(e) => Err(e@),
    }
}

/// The outcome of changing the model, with the view of its error.
pub open spec fn reload_outcome(result: Result<u64, EngineError>) -> Result<u64, EngineErrorView> {
    match result {
        Ok(ms) => Ok(ms),
        Err(e) => Err(e@),
    }
}

/// What the processor asks of an engine, for one utterance after another:
/// [`Self::reset`] before its first chunk, [`Self::accept_chunk`] for each
/// chunk with [`Self::current_partial_fast`] in between, [`Self::finalise`]
/// when speech ends. [`Self::reload_model`] is called between utterances.
///
/// An engine says itself what its operations do: for each there is a relation
/// between the engine before, the arguments, the engine after and the outcome.
/// An engine that says nothing of an operation may do anything.
pub trait TranscriptionEngine: Sized + Send {
    /// What the active model is called.
    open spec fn is_named(&self, name: Seq<char>) -> bool {
        true
    }

    /// How a chunk is accepted.
    open spec fn accepts(
        before: Self,
        seq: u64,
        pcm_b64: Seq<char>,
        after: Self,
        outcome: Result<(), EngineErrorView>,
    ) -> bool {
        true
    }

    /// How the best guess so far is made.
    open spec fn guesses(before: Self, after: Self, outcome: Option<Seq<char>>) -> bool {
        true
    }

    /// How the best guess so far is made without effort.
    open spec fn guesses_fast(before: Self, after: Self, outcome: Option<Seq<char>>) -> bool {
        true
    }

    /// How an utterance is finalised.
    open spec fn finalises(
        before: Self,
        duration_ms: u32,
        after: Self,
        outcome: Result<EngineFinalView, EngineErrorView>,
    ) -> bool {
        true
    }

    /// How the model is changed.
    open spec fn reloads(
        before: Self,
        name: Seq<char>,
        after: Self,
        outcome: Result<u64, EngineErrorView>,
    ) -> bool {
        true
    }

    /// How the state of the utterance is dropped.
    open spec fn resets(before: Self, after: Self) -> bool {
        true
    }

    /// Name of the active model.
    fn model_name(&self) -> (name: &str)
        ensures
            self.is_named(name@),
    ;

    /// Takes a chunk of PCM, as base64 of little-endian 16-bit samples.
    fn accept_chunk(&mut self, seq: u64, pcm_b64: &str) -> (result: Result<(), EngineError>)
        ensures
            Self::accepts(*old(self), seq, pcm_b64@, *final(self), chunk_outcome(result)),
    ;

    /// Best guess at the transcript so far, if there is one.
    fn current_partial(&mut self) -> (guess: Option<String>)
        ensures
            Self::guesses(*old(self), *final(self), guess.deep_view()),
    ;

    /// Best guess at the transcript so far, made cheaply enough to be asked for
    /// again and again while speech goes on.
    fn current_partial_fast(&mut self) -> (guess: Option<String>)
        ensures
            Self::guesses_fast(*old(self), *final(self), guess.deep_view()),
    ;

    /// Finalises the utterance.
    fn finalise(&mut self, duration_ms: u32) -> (result: Result<EngineFinal, EngineError>)
        ensures
            Self::finalises(*old(self), duration_ms, *final(self), final_outcome(result)),
    ;

    /// Changes the active model, and says how many milliseconds that took.
    fn reload_model(&mut self, name: &str) -> (result: Result<u64, EngineError>)
        ensures
            Self::reloads(*old(self), name@, *final(self), reload_outcome(result)),
    ;

    /// Drops all state of the utterance.
    fn reset(&mut self)
        ensures
            Self::resets(*old(self), *final(self)),
    ;
}

/// A deterministic engine without a speech model. It counts chunks, and reports
/// one and the same confidence for every utterance.
#[derive(Debug, Clone)]
pub struct StubEngine {
    model: String,
    chunks: u64,
    fixed_confidence: Confidence,
}

/// What a [`StubEngine`] holds.
pub struct StubEngineView {
    /// Name of the active model.
    pub model: Seq<char>,
    /// Chunks accepted in the utterance.
    pub chunks: u64,
    /// Confidence of every transcript.
    pub fixed_confidence: Confidence,
}

impl View for StubEngine {
    type V = StubEngineView;

    closed spec fn view(&self) -> StubEngineView {
        StubEngineView {
            model: self.model@,
            chunks: self.chunks,
            fixed_confidence: self.fixed_confidence,
        }
    }
}

/// What the stub guesses after so many chunks.
pub open spec fn stub_guess(chunks: u64) -> Option<Seq<char>> {
    if chunks == 0 {
        None
    } else {
        Some("[stub partial "@ + crate::text::decimal(chunks as nat) + "]"@)
    }
}

/// The transcript that the stub gives for an utterance.
pub open spec fn stub_transcript(duration_ms: u32) -> Seq<char> {
    "[stub final "@ + crate::text::decimal(duration_ms as nat) + "ms]"@
}

/// Bit pattern of 0.75, the confidence of the stub that tests use.
pub const TEST_CONFIDENCE: u32 = 0x3F40_0000;

impl StubEngine {
    /// A stub with the given model, which must be allowed, and with the given
    /// confidence, which must be in `(0.0, 1.0]`.
    pub fn new(model: &str, fixed_confidence: &Threshold) -> (result: Result<StubEngine, SttError>)
        ensures
            result is Ok <==> crate::config::allowed(model@)
                && fixed_confidence.value.in_unit_range(),
            result matches Ok(stub) ==> stub@ == (StubEngineView {
                model: model@,
                chunks: 0,
                fixed_confidence: fixed_confidence.value,
            }),
            result matches Err(e) ==> e@ == (if crate::config::allowed(model@) {
                SttErrorView::InvalidThreshold(fixed_confidence@)
            } else {
                crate::config::unknown_model(model@)
            }),
    {
        match validate_model_name(model) {
            Ok(_) => {},
            Err(e) => {
                return Err(e);
            },
        }
        match validate_threshold(fixed_confidence) {
            Ok(_) => {},
            Err(e) => {
                return Err(e);
            },
        }
        Ok(
            StubEngine {
                model: model.to_owned(),
                chunks: 0,
                fixed_confidence: fixed_confidence.value,
            },
        )
    }

    /// A stub with the default model.
    pub fn default_for_tests() -> (result: Result<StubEngine, SttError>)
        ensures
            result matches Ok(stub) && stub@ == (StubEngineView {
                model: DEFAULT_MODEL_NAME@,
                chunks: 0,
                fixed_confidence: Confidence { bits: TEST_CONFIDENCE },
            }),
    {
        proof {
            crate::config::lemma_default_config_valid();
            crate::config::lemma_unit_range(Confidence { bits: TEST_CONFIDENCE });
        }
        StubEngine::new(
            DEFAULT_MODEL_NAME,
            &Threshold::new(Confidence::from_bits(TEST_CONFIDENCE), "0.75"),
        )
    }
}

impl TranscriptionEngine for StubEngine {
    open spec fn is_named(&self, name: Seq<char>) -> bool {
        name == self@.model
    }

    open spec fn accepts(
        before: Self,
        seq: u64,
        pcm_b64: Seq<char>,
        after: Self,
        outcome: Result<(), EngineErrorView>,
    ) -> bool {
        if pcm_b64.len() == 0 {
            &&& after@ == before@
            &&& outcome == Err::<(), _>(EngineErrorView::BadChunk { reason: "empty pcm_b64"@ })
        } else {
            &&& after@ == (StubEngineView {
                chunks: if before@.chunks < u64::MAX {
                    (before@.chunks + 1) as u64
                } else {
                    u64::MAX
                },
                ..before@
            })
            &&& outcome == Ok::<(), EngineErrorView>(())
        }
    }

    open spec fn guesses(before: Self, after: Self, outcome: Option<Seq<char>>) -> bool {
        after@ == before@ && outcome == stub_guess(before@.chunks)
    }

    open spec fn guesses_fast(before: Self, after: Self, outcome: Option<Seq<char>>) -> bool {
        after@ == before@ && outcome == stub_guess(before@.chunks)
    }

    open spec fn finalises(
        before: Self,
        duration_ms: u32,
        after: Self,
        outcome: Result<EngineFinalView, EngineErrorView>,
    ) -> bool {
        &&& after@ == before@
        &&& outcome == Ok::<_, EngineErrorView>(
            EngineFinalView {
                text: stub_transcript(duration_ms),
                confidence: before@.fixed_confidence,
            },
        )
    }

    open spec fn reloads(
        before: Self,
        name: Seq<char>,
        after: Self,
        outcome: Result<u64, EngineErrorView>,
    ) -> bool {
        if crate::config::allowed(name) {
            &&& after@ == (StubEngineView { model: name, ..before@ })
            &&& outcome == Ok::<u64, EngineErrorView>(0)
        } else {
            &&& after@ == before@
            &&& outcome == Err::<u64, _>(
                EngineErrorView::UnknownModel(crate::config::unknown_model(name)),
            )
        }
    }

    open spec fn resets(before: Self, after: Self) -> bool {
        after@ == (StubEngineView { chunks: 0, ..before@ })
    }

    fn model_name(&self) -> (name: &str) {
        self.model.as_str()
    }

    fn accept_chunk(&mut self, seq: u64, pcm_b64: &str) -> (result: Result<(), EngineError>) {
        if pcm_b64.is_empty() {
            return Err(EngineError::BadChunk { reason: "empty pcm_b64".to_owned() });
        }
        self.chunks = self.chunks.saturating_add(1);
        Ok(())
    }

    fn current_partial(&mut self) -> (guess: Option<String>) {
        if self.chunks == 0 {
            None
        } else {
            Some(
                String::from_str("[stub partial ").concat(
                    decimal_text(self.chunks).as_str(),
                ).concat("]"),
            )
        }
    }

    fn current_partial_fast(&mut self) -> (guess: Option<String>) {
        self.current_partial()
    }

    fn finalise(&mut self, duration_ms: u32) -> (result: Result<EngineFinal, EngineError>) {
        Ok(
            EngineFinal {
                text: String::from_str("[stub final ").concat(
                    decimal_text(duration_ms as u64).as_str(),
                ).concat("ms]"),
                confidence: self.fixed_confidence,
            },
        )
    }

    fn reload_model(&mut self, name: &str) -> (result: Result<u64, EngineError>) {
        match validate_model_name(name) {
            Ok(_) => {},
            Err(e) => {
                return Err(EngineError::from(e));
            },
        }
        self.model = name.to_owned();
        Ok(0)
    }

    fn reset(&mut self) {
        self.chunks = 0;
    }
}

/// What is told of an engine error: a tag for its kind, and a message that holds what
/// the error holds.
pub proof fn engine_errors_are_told_by_kind(e: EngineErrorView, ts: u64)
    ensures
        e.event(ts).kind == e.kind(),
        e.event(ts).message == e.message(),
        e.event(ts).ts == ts,
        match e {
            EngineErrorView::BadChunk { reason } => e.kind() == "io"@ && crate::text::frames(
                e.message(),
                "engine rejected chunk: "@,
                reason,
                Seq::empty(),
            ),
            EngineErrorView::UnknownModel(fault) => e.kind() == "model"@ && e.message()
                == fault.message(),
            EngineErrorView::ModelMissing { path } => e.kind() == "model_missing"@
                && crate::text::frames(e.message(), "model file missing: "@, path, Seq::empty()),
            EngineErrorView::Internal(what) => e.kind() == "engine"@ && crate::text::frames(
                e.message(),
                "engine internal failure: "@,
                what,
                Seq::empty(),
            ),
        },
{
    let none = Seq::<char>::empty();
    match e {
        EngineErrorView::BadChunk { reason } => {
            crate::text::lemma_frames("engine rejected chunk: "@, reason, none);
            assert("engine rejected chunk: "@ + reason + none =~= "engine rejected chunk: "@
                + reason);
        },
        EngineErrorView::UnknownModel(_) => {},
        EngineErrorView::ModelMissing { path } => {
            crate::text::lemma_frames("model file missing: "@, path, none);
            assert("model file missing: "@ + path + none =~= "model file missing: "@ + path);
        },
        EngineErrorView::Internal(what) => {
            crate::text::lemma_frames("engine internal failure: "@, what, none);
            assert("engine internal failure: "@ + what + none =~= "engine internal failure: "@
                + what);
        },
    }
}

/// The stub counts every chunk that is not empty, and refuses an empty one. Nothing else
/// of it changes.
pub proof fn stub_counts_chunks(
    before: StubEngine,
    seq: u64,
    pcm_b64: Seq<char>,
    after: StubEngine,
    outcome: Result<(), EngineErrorView>,
)
    requires
        StubEngine::accepts(before, seq, pcm_b64, after, outcome),
    ensures
        outcome is Ok <==> pcm_b64.len() > 0,
        pcm_b64.len() > 0 && before@.chunks < u64::MAX ==> after@.chunks == before@.chunks + 1,
        pcm_b64.len() == 0 ==> after@.chunks == before@.chunks && outcome == Err::<(), _>(
            EngineErrorView::BadChunk { reason: "empty pcm_b64"@ },
        ),
        after@.chunks >= before@.chunks,
        after@.model == before@.model,
        after@.fixed_confidence == before@.fixed_confidence,
{
}

/// The stub guesses as soon as it has a chunk, and its guess tells the number of chunks.
/// Asking does not change it, and the cheap way gives the same.
pub proof fn stub_guess_tells_the_chunks(
    before: StubEngine,
    after: StubEngine,
    guess: Option<Seq<char>>,
    fast: bool,
)
    requires
        if fast {
            StubEngine::guesses_fast(before, after, guess)
        } else {
            StubEngine::guesses(before, after, guess)
        },
    ensures
        after@ == before@,
        guess is Some <==> before@.chunks > 0,
        guess matches Some(text) ==> crate::text::frames(
            text,
            "[stub partial "@,
            crate::text::decimal(before@.chunks as nat),
            "]"@,
        ),
{
    crate::text::lemma_frames(
        "[stub partial "@,
        crate::text::decimal(before@.chunks as nat),
        "]"@,
    );
}

/// The stub's transcript tells the duration, with the stub's own confidence.
pub proof fn stub_transcript_tells_the_duration(
    before: StubEngine,
    duration_ms: u32,
    after: StubEngine,
    outcome: Result<EngineFinalView, EngineErrorView>,
)
    requires
        StubEngine::finalises(before, duration_ms, after, outcome),
    ensures
        after@ == before@,
        outcome matches Ok(f) && f.confidence == before@.fixed_confidence && crate::text::frames(
            f.text,
            "[stub final "@,
            crate::text::decimal(duration_ms as nat),
            "ms]"@,
        ),
{
    crate::text::lemma_frames(
        "[stub final "@,
        crate::text::decimal(duration_ms as nat),
        "ms]"@,
    );
}

/// The stub changes to a model that may be loaded, in no time, and to no other. A reset
/// drops its chunks and nothing else, and it is called by its model.
pub proof fn stub_changes_to_allowed_models(
    before: StubEngine,
    name: Seq<char>,
    after: StubEngine,
    outcome: Result<u64, EngineErrorView>,
    cleared: StubEngine,
)
    requires
        StubEngine::reloads(before, name, after, outcome),
        StubEngine::resets(before, cleared),
    ensures
        outcome is Ok <==> crate::config::allowed(name),
        outcome matches Ok(ms) ==> ms == 0 && after.is_named(name),
        outcome matches Err(e) ==> after@ == before@ && (e matches EngineErrorView::UnknownModel(
            what,
        ) && what == crate::config::unknown_model(name)),
        after@.chunks == before@.chunks,
        after@.fixed_confidence == before@.fixed_confidence,
        cleared@.chunks == 0,
        cleared@.model == before@.model,
        cleared@.fixed_confidence == before@.fixed_confidence,
        forall|called: Seq<char>| #[trigger] after.is_named(called) ==> called == after@.model,
{
}

/// A stub is made exactly for one of the four models and for a confidence above zero and
/// up to one, with these and with no chunks.
pub proof fn stub_is_made_as_asked(
    model: &str,
    fixed: &Threshold,
    result: Result<StubEngine, SttError>,
)
    requires
        call_ensures(StubEngine::new, (model, fixed), result),
    ensures
        result is Ok <==> crate::config::allowed(model@) && 1 <= fixed.value.bits <= 0x3F80_0000,
        result matches Ok(stub) ==> stub@.model == model@ && stub@.chunks == 0
            && stub@.fixed_confidence == fixed.value,
        result matches Err(e) ==> (e@ is UnknownModel <==> !crate::config::allowed(model@)) && (
        e@ is InvalidThreshold <==> crate::config::allowed(model@)),
{
    crate::confidence::unit_range_is_a_range_of_bits(fixed.value);
}

} // verus!
