//! The state machine of one utterance after another.
//!
//! [`UtteranceProcessor`] folds [`Request`]s into the [`Emit`]s that are to be
//! published. It is idle or speaking: a speech start makes it speak, a speech
//! end makes it idle again, and chunks in between may give partial transcripts,
//! one per cadence at most. A change of the model waits for the end of the
//! utterance.

use crate::bus::{
    ErrorEvent, ErrorEventView, FinalEvent, FinalEventView, ModelLoadedEvent,
    ModelLoadedEventView, PartialEvent, PartialEventView, Request, RequestView, UncertainEvent,
    UncertainEventView,
};
use crate::confidence::Confidence;
use crate::config::{validate_model_name, SttConfig, SttConfigView};
use crate::engine::{
    EngineError, EngineErrorView, EngineFinal, EngineFinalView, TranscriptionEngine,
};
use crate::text::copy_optional;
use vstd::prelude::*;

verus! {

/// Milliseconds between two partial transcripts, unless told otherwise.
pub const DEFAULT_PARTIAL_CADENCE_MS: u64 = 500;

/// Shortest window, in milliseconds, that is transcribed.
pub const MIN_WINDOW_MS: u32 = 200;

/// Longest window, in milliseconds, that is transcribed.
pub const MAX_WINDOW_MS: u32 = 30_000;

/// Something to publish.
#[derive(Debug, Clone, PartialEq)]
pub enum Emit {
    /// On `wm.stt.partial`.
    Partial(PartialEvent),
    /// On `wm.stt.final`.
    Final(FinalEvent),
    /// On `wm.stt.uncertain`.
    Uncertain(UncertainEvent),
    /// On `wm.stt.error`.
    Error(ErrorEvent),
    /// On `wm.stt.model_loaded`.
    ModelLoaded(ModelLoadedEvent),
}

/// An [`Emit`] with its texts as sequences of characters.
pub enum EmitView {
    Partial(PartialEventView),
    Final(FinalEventView),
    Uncertain(UncertainEventView),
    Error(ErrorEventView),
    ModelLoaded(ModelLoadedEventView),
}

impl View for Emit {
    type V = EmitView;

    open spec fn view(&self) -> EmitView {
        match self {
            Emit::Partial(e) => EmitView::Partial(e@),
            Emit::Final(e) => EmitView::Final(e@),
            Emit::Uncertain(e) => EmitView::Uncertain(e@),
            Emit::Error(e) => EmitView::Error(e@),
            Emit::ModelLoaded(e) => EmitView::ModelLoaded(e@),
        }
    }
}

/// The views of several emits, in order.
pub open spec fn emits(out: Seq<Emit>) -> Seq<EmitView> {
    out.map_values(|e: Emit| e@)
}

/// Where the processor is.
#[derive(Debug, Clone, PartialEq, Eq)]
enum State {
    Idle,
    Speaking { start_ts: u64, last_partial_ts: u64, turn_id: Option<String> },
}

/// Where the processor is, with texts as sequences of characters.
pub enum Mode {
    /// Between utterances.
    Idle,
    /// Within an utterance.
    Speaking {
        /// When the utterance began.
        start_ts: u64,
        /// When a partial transcript was last asked for.
        last_partial_ts: u64,
        /// The turn, where it is known before the utterance ends.
        turn_id: Option<Seq<char>>,
    },
}

/// The state machine of utterances. It owns the engine.
#[derive(Debug)]
pub struct UtteranceProcessor<E: TranscriptionEngine> {
    engine: E,
    config: SttConfig,
    state: State,
    partial_cadence_ms: u64,
    pending_reload: Option<String>,
}

/// What an [`UtteranceProcessor`] holds.
pub struct Machine<E> {
    /// The engine.
    pub engine: E,
    /// The settings.
    pub config: SttConfigView,
    /// Idle or speaking.
    pub mode: Mode,
    /// Milliseconds between two partial transcripts.
    pub cadence: u64,
    /// The model to change to when the utterance ends.
    pub pending: Option<Seq<char>>,
}

/// The event for a protocol error.
pub open spec fn protocol_error(message: Seq<char>, ts: u64) -> EmitView {
    EmitView::Error(ErrorEventView { kind: "protocol"@, message, ts })
}

/// True when the time for a partial transcript has come.
pub open spec fn partial_due(last_partial_ts: u64, ts: u64, cadence: u64) -> bool {
    if ts >= last_partial_ts {
        ts - last_partial_ts >= cadence
    } else {
        cadence == 0
    }
}

/// True for a window of a length that is transcribed.
pub open spec fn valid_window(duration_ms: u32) -> bool {
    MIN_WINDOW_MS <= duration_ms <= MAX_WINDOW_MS
}

/// The event for a window that is not transcribed.
pub open spec fn window_invalid(ts: u64, turn_id: Option<Seq<char>>) -> EmitView {
    EmitView::Uncertain(
        UncertainEventView {
            text: Seq::empty(),
            confidence: Confidence { bits: 0 },
            reason: Some("window_invalid"@),
            ts,
            turn_id,
        },
    )
}

/// The event for what finalising an utterance gave: a transcript whose
/// confidence reaches the threshold is final, any other is uncertain, and a
/// failure is an error.
pub open spec fn transcript_event(
    outcome: Result<EngineFinalView, EngineErrorView>,
    threshold: Confidence,
    duration_ms: u32,
    model: Seq<char>,
    ts: u64,
    turn_id: Option<Seq<char>>,
) -> EmitView {
    match outcome {
        Ok(f) => if f.confidence.reaches(threshold) {
            EmitView::Final(
                FinalEventView {
                    text: f.text,
                    confidence: f.confidence,
                    duration_ms,
                    model,
                    ts,
                    turn_id,
                },
            )
        } else {
            EmitView::Uncertain(
                UncertainEventView {
                    text: f.text,
                    confidence: f.confidence,
                    reason: None,
                    ts,
                    turn_id,
                },
            )
        },
        Err(e) => EmitView::Error(e.event(ts)),
    }
}

/// The event for what changing the model gave. A file that is missing is told
/// apart from the other failures.
pub open spec fn reload_event(
    name: Seq<char>,
    outcome: Result<u64, EngineErrorView>,
    now_ms: u64,
) -> EmitView {
    match outcome {
        Ok(warmup_ms) => EmitView::ModelLoaded(
            ModelLoadedEventView { model: name, warmup_ms, ts: now_ms },
        ),
        Err(e) => EmitView::Error(
            ErrorEventView {
                kind: if e is ModelMissing {
                    "model_missing"@
                } else {
                    "model"@
                },
                message: e.message(),
                ts: now_ms,
            },
        ),
    }
}

impl<E: TranscriptionEngine> Machine<E> {
    /// A request to change the model never waits while the processor is idle,
    /// and only for a model that is allowed. The turn of an utterance is not known
    /// before the utterance ends.
    pub open spec fn wf(self) -> bool {
        &&& self.pending is Some ==> self.mode is Speaking
        &&& self.pending matches Some(name) ==> crate::config::allowed(name)
        &&& self.mode matches Mode::Speaking { turn_id, .. } ==> turn_id is None
    }

    /// What a speech start does.
    pub open spec fn starts(self, ts: u64, now_ms: u64, next: Self, out: Seq<EmitView>) -> bool {
        &&& next == (Machine {
            engine: next.engine,
            mode: Mode::Speaking { start_ts: ts, last_partial_ts: ts, turn_id: None },
            ..self
        })
        &&& if self.mode is Idle {
            &&& next.engine == self.engine
            &&& out == Seq::<EmitView>::empty()
        } else {
            &&& E::resets(self.engine, next.engine)
            &&& out == seq![
                protocol_error(
                    "speech.start while already speaking; dropping in-flight utterance"@,
                    now_ms,
                ),
            ]
        }
    }

    /// What a chunk that the engine has accepted does, once `accepted` is the
    /// engine after it.
    pub open spec fn takes_chunk(
        self,
        accepted: E,
        last_partial_ts: u64,
        ts: u64,
        next: Self,
        out: Seq<EmitView>,
    ) -> bool {
        if partial_due(last_partial_ts, ts, self.cadence) {
            exists|guess: Option<Seq<char>>|
                {
                    &&& #[trigger] E::guesses_fast(accepted, next.engine, guess)
                    &&& next == (Machine {
                        engine: next.engine,
                        mode: Mode::Speaking {
                            start_ts: self.mode->start_ts,
                            last_partial_ts: ts,
                            turn_id: self.mode->turn_id,
                        },
                        ..self
                    })
                    &&& out == (match guess {
                        Some(text) => seq![
                            EmitView::Partial(
                                PartialEventView { text, ts, turn_id: self.mode->turn_id },
                            ),
                        ],
                        None => Seq::<EmitView>::empty(),
                    })
                }
        } else {
            &&& next == (Machine { engine: accepted, ..self })
            &&& out == Seq::<EmitView>::empty()
        }
    }

    /// What a chunk does.
    pub open spec fn hears(
        self,
        seq: u64,
        pcm_b64: Seq<char>,
        ts: u64,
        next: Self,
        out: Seq<EmitView>,
    ) -> bool {
        match self.mode {
            Mode::Idle => {
                &&& next == self
                &&& out == seq![protocol_error("speech.chunk while idle; ignoring"@, ts)]
            },
            Mode::Speaking { last_partial_ts, .. } => exists|
                accepted: E,
                outcome: Result<(), EngineErrorView>,
            |
                {
                    &&& #[trigger] E::accepts(self.engine, seq, pcm_b64, accepted, outcome)
                    &&& match outcome {
                        Ok(_) => self.takes_chunk(accepted, last_partial_ts, ts, next, out),
                        Err(e) => {
                            &&& next == (Machine { engine: accepted, ..self })
                            &&& out == seq![EmitView::Error(e.event(ts))]
                        },
                    }
                },
        }
    }

    /// How an utterance is closed: `closed` is the engine after it, `said` what
    /// there is to publish. A window of a length that is not transcribed never
    /// reaches the engine's inference. Either way the engine is reset.
    pub open spec fn closes(
        self,
        duration_ms: u32,
        ts: u64,
        turn_id: Option<Seq<char>>,
        closed: E,
        said: EmitView,
    ) -> bool {
        if valid_window(duration_ms) {
            exists|
                finished: E,
                outcome: Result<EngineFinalView, EngineErrorView>,
                model: Seq<char>,
            |
                {
                    &&& #[trigger] E::finalises(self.engine, duration_ms, finished, outcome)
                    &&& #[trigger] finished.is_named(model)
                    &&& said == transcript_event(
                        outcome,
                        self.config.confidence_threshold.value,
                        duration_ms,
                        model,
                        ts,
                        turn_id,
                    )
                    &&& E::resets(finished, closed)
                }
        } else {
            &&& said == window_invalid(ts, turn_id)
            &&& E::resets(self.engine, closed)
        }
    }

    /// What the model change does, on an engine that is between utterances.
    pub open spec fn changes_model(
        self,
        name: Seq<char>,
        now_ms: u64,
        next: Self,
        said: EmitView,
    ) -> bool {
        &&& next == (Machine { engine: next.engine, ..self })
        &&& exists|outcome: Result<u64, EngineErrorView>|
            {
                &&& #[trigger] E::reloads(self.engine, name, next.engine, outcome)
                &&& said == reload_event(name, outcome, now_ms)
            }
    }

    /// What the model change does after `said`: it is told as the last thing.
    pub open spec fn adds_change(
        self,
        name: Seq<char>,
        now_ms: u64,
        said: EmitView,
        next: Self,
        out: Seq<EmitView>,
    ) -> bool {
        exists|told: EmitView|
            {
                &&& #[trigger] self.changes_model(name, now_ms, next, told)
                &&& out == seq![said].push(told)
            }
    }

    /// The processor between utterances, with the given engine and nothing that
    /// waits.
    pub open spec fn idle_with(self, engine: E) -> Self {
        Machine { engine, mode: Mode::Idle, pending: None, ..self }
    }

    /// What is left to do once an utterance is closed: the model change that
    /// waits for it, if any, is made, and told after what the utterance said.
    pub open spec fn settles(
        self,
        closed: E,
        said: EmitView,
        now_ms: u64,
        next: Self,
        out: Seq<EmitView>,
    ) -> bool {
        match self.pending {
            None => {
                &&& next == self.idle_with(closed)
                &&& out == seq![said]
            },
            Some(name) => self.idle_with(closed).adds_change(name, now_ms, said, next, out),
        }
    }

    /// What a speech end does: the utterance is closed, and then the model
    /// change that waits for it, if any, is made.
    pub open spec fn ends(
        self,
        duration_ms: u32,
        ts: u64,
        turn_id: Option<Seq<char>>,
        now_ms: u64,
        next: Self,
        out: Seq<EmitView>,
    ) -> bool {
        match self.mode {
            Mode::Idle => {
                &&& next == self
                &&& out == seq![protocol_error("speech.end while idle; ignoring"@, ts)]
            },
            Mode::Speaking { .. } => exists|closed: E, said: EmitView|
                {
                    &&& #[trigger] self.closes(duration_ms, ts, turn_id, closed, said)
                    &&& self.settles(closed, said, now_ms, next, out)
                },
        }
    }

    /// What a request to change the model does: a model that is not allowed is
    /// refused; during an utterance the change waits, in place of any that
    /// already did; else it is made at once.
    pub open spec fn reloads(
        self,
        name: Seq<char>,
        now_ms: u64,
        next: Self,
        out: Seq<EmitView>,
    ) -> bool {
        if !crate::config::allowed(name) {
            &&& next == self
            &&& out == seq![
                EmitView::Error(
                    ErrorEventView {
                        kind: "model"@,
                        message: crate::config::unknown_model(name).message(),
                        ts: now_ms,
                    },
                ),
            ]
        } else if self.mode is Speaking {
            &&& next == (Machine { pending: Some(name), ..self })
            &&& out == Seq::<EmitView>::empty()
        } else {
            exists|told: EmitView|
                {
                    &&& #[trigger] self.changes_model(name, now_ms, next, told)
                    &&& out == seq![told]
                }
        }
    }

    /// What a request does: `next` is the processor after it, `out` what there
    /// is to publish, in order.
    pub open spec fn steps(
        self,
        request: RequestView,
        now_ms: u64,
        next: Self,
        out: Seq<EmitView>,
    ) -> bool {
        match request {
            RequestView::SpeechStart { ts } => self.starts(ts, now_ms, next, out),
            RequestView::SpeechChunk { seq, pcm_b64, ts } => self.hears(
                seq,
                pcm_b64,
                ts,
                next,
                out,
            ),
            RequestView::SpeechEnd { duration_ms, ts, turn_id } => self.ends(
                duration_ms,
                ts,
                turn_id,
                now_ms,
                next,
                out,
            ),
            RequestView::ReloadModel { model } => self.reloads(model, now_ms, next, out),
        }
    }
}

/// The error event that reports an engine error.
pub fn engine_error_event_pub(err: &EngineError, ts: u64) -> (event: ErrorEvent)
    ensures
        event@ == err@.event(ts),
{
    let kind = match err {
        EngineError::BadChunk { .. } => "io",
        EngineError::UnknownModel(_) => "model",
        EngineError::ModelMissing { .. } => "model_missing",
        EngineError::Internal(_) => "engine",
    };
    ErrorEvent::new(kind, err.message(), ts)
}

/// Tells whether the time for a partial transcript has come.
pub fn is_partial_due(last_partial_ts: u64, ts: u64, cadence: u64) -> (due: bool)
    ensures
        due == partial_due(last_partial_ts, ts, cadence),
{
    ts.saturating_sub(last_partial_ts) >= cadence
}

/// Makes the event for what finalising an utterance gave.
pub fn transcript_emit(
    result: Result<EngineFinal, EngineError>,
    threshold: Confidence,
    duration_ms: u32,
    model: String,
    ts: u64,
    turn_id: Option<String>,
) -> (emit: Emit)
    ensures
        emit@ == transcript_event(
            crate::engine::final_outcome(result),
            threshold,
            duration_ms,
            model@,
            ts,
            turn_id.deep_view(),
        ),
{
    match result {
        Ok(f) => if f.confidence.at_least(threshold) {
            Emit::Final(
                FinalEvent {
                    text: f.text,
                    confidence: f.confidence,
                    duration_ms,
                    model,
                    ts,
                    turn_id,
                },
            )
        } else {
            Emit::Uncertain(
                UncertainEvent {
                    text: f.text,
                    confidence: f.confidence,
                    reason: None,
                    ts,
                    turn_id,
                },
            )
        },
        Err(e) => Emit::Error(engine_error_event_pub(&e, ts)),
    }
}

/// Makes the event for what changing the model gave.
pub fn reload_emit(name: &str, result: Result<u64, EngineError>, now_ms: u64) -> (emit: Emit)
    ensures
        emit@ == reload_event(name@, crate::engine::reload_outcome(result), now_ms),
{
    match result {
        Ok(warmup_ms) => Emit::ModelLoaded(
            ModelLoadedEvent { model: name.to_owned(), warmup_ms, ts: now_ms },
        ),
        Err(e) => {
            let kind = match e {
                EngineError::ModelMissing { .. } => "model_missing",
                _ => "model",
            };
            Emit::Error(ErrorEvent::new(kind, e.message(), now_ms))
        },
    }
}

impl<E: TranscriptionEngine> View for UtteranceProcessor<E> {
    type V = Machine<E>;

    closed spec fn view(&self) -> Machine<E> {
        Machine {
            engine: self.engine,
            config: self.config@,
            mode: match self.state {
                State::Idle => Mode::Idle,
                State::Speaking { start_ts, last_partial_ts, turn_id } => Mode::Speaking {
                    start_ts,
                    last_partial_ts,
                    turn_id: turn_id.deep_view(),
                },
            },
            cadence: self.partial_cadence_ms,
            pending: self.pending_reload.deep_view(),
        }
    }
}

impl<E: TranscriptionEngine> UtteranceProcessor<E> {
    /// An idle processor with the given engine and settings, and with the
    /// default cadence.
    pub fn new(engine: E, config: SttConfig) -> (processor: Self)
        ensures
            processor@ == (Machine {
                engine,
                config: config@,
                mode: Mode::Idle,
                cadence: DEFAULT_PARTIAL_CADENCE_MS,
                pending: None,
            }),
            processor@.wf(),
    {
        UtteranceProcessor {
            engine,
            config,
            state: State::Idle,
            partial_cadence_ms: DEFAULT_PARTIAL_CADENCE_MS,
            pending_reload: None,
        }
    }

    /// The processor with another cadence of partial transcripts.
    pub fn with_partial_cadence_ms(self, ms: u64) -> (processor: Self)
        ensures
            processor@ == (Machine { cadence: ms, ..self@ }),
    {
        let mut processor = self;
        processor.partial_cadence_ms = ms;
        processor
    }

    /// Name of the active model.
    pub fn model_name(&self) -> (name: &str)
        ensures
            self@.engine.is_named(name@),
    {
        self.engine.model_name()
    }

    /// The confidence threshold.
    pub fn confidence_threshold(&self) -> (threshold: Confidence)
        ensures
            threshold == self@.config.confidence_threshold.value,
    {
        self.config.confidence_threshold.value
    }

    /// True between utterances.
    pub fn is_idle(&self) -> (idle: bool)
        ensures
            idle == (self@.mode is Idle),
    {
        match self.state {
            State::Idle => true,
            State::Speaking { .. } => false,
        }
    }

    /// The engine.
    pub fn engine(&self) -> (engine: &E)
        ensures
            *engine == self@.engine,
    {
        &self.engine
    }

    /// Folds one request into what there is to publish. `now_ms` is the time at
    /// which the request is handled.
    pub fn handle(&mut self, req: Request, now_ms: u64) -> (out: Vec<Emit>)
        ensures
            old(self)@.steps(req@, now_ms, final(self)@, emits(out@)),
            old(self)@.wf() ==> final(self)@.wf(),
    {
        match req {
            Request::SpeechStart(s) => self.on_speech_start(s.ts, now_ms),
            Request::SpeechChunk(c) => self.on_speech_chunk(c.seq, c.pcm_b64.as_str(), c.ts),
            Request::SpeechEnd(e) => self.on_speech_end(e.duration_ms, e.ts, e.turn_id, now_ms),
            Request::ReloadModel(r) => self.on_reload_model(r.model.as_str(), now_ms),
        }
    }

    fn on_speech_start(&mut self, start_ts: u64, now_ms: u64) -> (out: Vec<Emit>)
        ensures
            old(self)@.starts(start_ts, now_ms, final(self)@, emits(out@)),
    {
        let mut out: Vec<Emit> = Vec::new();
        if !self.is_idle() {
            out.push(
                Emit::Error(
                    ErrorEvent::new(
                        "protocol",
                        "speech.start while already speaking; dropping in-flight utterance".to_owned(),
                        now_ms,
                    ),
                ),
            );
            self.engine.reset();
        }
        self.state = State::Speaking { start_ts, last_partial_ts: start_ts, turn_id: None };
        proof {
            assert(emits(out@) =~= if old(self)@.mode is Idle {
                Seq::<EmitView>::empty()
            } else {
                seq![
                    protocol_error(
                        "speech.start while already speaking; dropping in-flight utterance"@,
                        now_ms,
                    ),
                ]
            });
        }
        out
    }

    fn on_reload_model(&mut self, name: &str, now_ms: u64) -> (out: Vec<Emit>)
        ensures
            old(self)@.reloads(name@, now_ms, final(self)@, emits(out@)),
    {
        let mut out: Vec<Emit> = Vec::new();
        match validate_model_name(name) {
            Ok(_) => {},
            Err(e) => {
                out.push(Emit::Error(ErrorEvent::new("model", e.message(), now_ms)));
                proof {
                    assert(emits(out@) =~= seq![out@[0]@]);
                }
                return out;
            },
        }
        if !self.is_idle() {
            self.pending_reload = Some(name.to_owned());
            proof {
                assert(emits(out@) =~= Seq::<EmitView>::empty());
            }
            return out;
        }
        let told = self.apply_reload(name, now_ms);
        out.push(told);
        proof {
            assert(emits(out@) =~= seq![told@]);
        }
        out
    }

    fn apply_reload(&mut self, name: &str, now_ms: u64) -> (told: Emit)
        ensures
            old(self)@.changes_model(name@, now_ms, final(self)@, told@),
    {
        let result = self.engine.reload_model(name);
        proof {
            assert(E::reloads(
                old(self)@.engine,
                name@,
                self@.engine,
                crate::engine::reload_outcome(result),
            ));
        }
        reload_emit(name, result, now_ms)
    }

    fn on_speech_chunk(&mut self, seq: u64, pcm_b64: &str, chunk_ts: u64) -> (out: Vec<Emit>)
        ensures
            old(self)@.hears(seq, pcm_b64@, chunk_ts, final(self)@, emits(out@)),
    {
        let mut out: Vec<Emit> = Vec::new();
        let (start_ts, last_partial_ts, turn_id): (u64, u64, Option<String>) = match &self.state {
            State::Speaking { start_ts, last_partial_ts, turn_id } => (
                *start_ts,
                *last_partial_ts,
                copy_optional(turn_id),
            ),
            State::Idle => {
                out.push(
                    Emit::Error(
                        ErrorEvent::new(
                            "protocol",
                            "speech.chunk while idle; ignoring".to_owned(),
                            chunk_ts,
                        ),
                    ),
                );
                proof {
                    assert(emits(out@) =~= seq![out@[0]@]);
                }
                return out;
            },
        };
        let accepted = self.engine.accept_chunk(seq, pcm_b64);
        let ghost engine = self.engine;
        proof {
            assert(E::accepts(
                old(self)@.engine,
                seq,
                pcm_b64@,
                engine,
                crate::engine::chunk_outcome(accepted),
            ));
        }
        match accepted {
            Ok(_) => {},
            Err(e) => {
                out.push(Emit::Error(engine_error_event_pub(&e, chunk_ts)));
                proof {
                    assert(emits(out@) =~= seq![out@[0]@]);
                }
                return out;
            },
        }
        if is_partial_due(last_partial_ts, chunk_ts, self.partial_cadence_ms) {
            let kept = copy_optional(&turn_id);
            let guess = self.engine.current_partial_fast();
            proof {
                assert(E::guesses_fast(engine, self@.engine, guess.deep_view()));
            }
            match guess {
                Some(text) => {
                    out.push(Emit::Partial(PartialEvent { text, ts: chunk_ts, turn_id }));
                    proof {
                        assert(emits(out@) =~= seq![out@[0]@]);
                    }
                },
                None => {
                    proof {
                        assert(emits(out@) =~= Seq::<EmitView>::empty());
                    }
                },
            }
            self.state = State::Speaking { start_ts, last_partial_ts: chunk_ts, turn_id: kept };
        } else {
            proof {
                assert(emits(out@) =~= Seq::<EmitView>::empty());
            }
        }
        out
    }

    fn on_speech_end(
        &mut self,
        duration_ms: u32,
        end_ts: u64,
        turn_id: Option<String>,
        now_ms: u64,
    ) -> (out: Vec<Emit>)
        ensures
            old(self)@.ends(
                duration_ms,
                end_ts,
                turn_id.deep_view(),
                now_ms,
                final(self)@,
                emits(out@),
            ),
    {
        let mut out: Vec<Emit> = Vec::new();
        if self.is_idle() {
            out.push(
                Emit::Error(
                    ErrorEvent::new(
                        "protocol",
                        "speech.end while idle; ignoring".to_owned(),
                        end_ts,
                    ),
                ),
            );
            proof {
                assert(emits(out@) =~= seq![out@[0]@]);
            }
            return out;
        }
        let ghost tid = turn_id.deep_view();
        let said = if duration_ms < MIN_WINDOW_MS || duration_ms > MAX_WINDOW_MS {
            Emit::Uncertain(
                UncertainEvent {
                    text: String::new(),
                    confidence: Confidence::from_bits(0),
                    reason: Some("window_invalid".to_owned()),
                    ts: end_ts,
                    turn_id,
                },
            )
        } else {
            let result = self.engine.finalise(duration_ms);
            proof {
                assert(E::finalises(
                    old(self)@.engine,
                    duration_ms,
                    self@.engine,
                    crate::engine::final_outcome(result),
                ));
            }
            let model = self.engine.model_name().to_owned();
            transcript_emit(
                result,
                self.config.confidence_threshold.value,
                duration_ms,
                model,
                end_ts,
                turn_id,
            )
        };
        self.engine.reset();
        self.state = State::Idle;
        proof {
            assert(old(self)@.closes(duration_ms, end_ts, tid, self@.engine, said@));
        }
        let ghost closed = self@.engine;
        out.push(said);
        match self.pending_reload.take() {
            Some(name) => {
                let ghost between = self@;
                let told = self.apply_reload(name.as_str(), now_ms);
                out.push(told);
                proof {
                    assert(emits(out@) =~= seq![said@].push(told@));
                    assert(between == old(self)@.idle_with(closed));
                    assert(old(self)@.idle_with(closed).changes_model(name@, now_ms, self@, told@));
                    assert(old(self)@.pending == Some(name@));
                }
            },
            None => {
                proof {
                    assert(emits(out@) =~= seq![said@]);
                }
            },
        }
        proof {
            assert(old(self)@.settles(closed, said@, now_ms, self@, emits(out@)));
        }
        out
    }
}

} // verus!
