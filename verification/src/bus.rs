//! Topics and payloads of the bus.
//!
//! Speech arrives under `wm.audio.speech.`, and a command may arrive on
//! `wm.stt.reload_model`. Everything the daemon says goes out under `wm.stt.`.

pub mod incoming;
pub mod outgoing;

use crate::confidence::Confidence;
use crate::text::same_text;
use vstd::prelude::*;

verus! {

/// Prefix of the topics of inbound speech.
pub const AUDIO_TOPIC_PREFIX: &'static str = "wm.audio.speech.";

/// Prefix of the topics of commands, and of everything that is published.
pub const STT_COMMAND_PREFIX: &'static str = "wm.stt.";

/// Payload of `wm.audio.speech.start`.
#[derive(Debug, Clone, Copy, PartialEq, Eq)]
pub struct SpeechStartEvent {
    /// Unix milliseconds when speech began.
    pub ts: u64,
}

/// Payload of `wm.audio.speech.chunk`.
#[derive(Debug, Clone, PartialEq, Eq)]
pub struct SpeechChunkEvent {
    /// Sequence number within the utterance.
    pub seq: u64,
    /// Base64 of little-endian 16-bit PCM, 16 kHz mono.
    pub pcm_b64: String,
    /// Unix milliseconds when the chunk was emitted.
    pub ts: u64,
}

/// Payload of `wm.audio.speech.end`.
#[derive(Debug, Clone, PartialEq, Eq)]
pub struct SpeechEndEvent {
    /// Duration of the utterance in milliseconds.
    pub duration_ms: u32,
    /// Unix milliseconds when speech ended.
    pub ts: u64,
    /// Identifier of the turn that the utterance belongs to.
    pub turn_id: Option<String>,
}

/// Payload of `wm.stt.reload_model`.
#[derive(Debug, Clone, PartialEq, Eq)]
pub struct ReloadModelRequest {
    /// Name of the model to load.
    pub model: String,
}

/// An inbound payload, by its kind.
#[derive(Debug, Clone, PartialEq, Eq)]
pub enum Request {
    /// From `wm.audio.speech.start`.
    SpeechStart(SpeechStartEvent),
    /// From `wm.audio.speech.chunk`.
    SpeechChunk(SpeechChunkEvent),
    /// From `wm.audio.speech.end`.
    SpeechEnd(SpeechEndEvent),
    /// From `wm.stt.reload_model`.
    ReloadModel(ReloadModelRequest),
}

/// A [`Request`] with its texts as sequences of characters.
pub enum RequestView {
    SpeechStart { ts: u64 },
    SpeechChunk { seq: u64, pcm_b64: Seq<char>, ts: u64 },
    SpeechEnd { duration_ms: u32, ts: u64, turn_id: Option<Seq<char>> },
    ReloadModel { model: Seq<char> },
}

impl View for Request {
    type V = RequestView;

    open spec fn view(&self) -> RequestView {
        match self {
            Request::SpeechStart(s) => RequestView::SpeechStart { ts: s.ts },
            Request::SpeechChunk(c) => RequestView::SpeechChunk {
                seq: c.seq,
                pcm_b64: c.pcm_b64@,
                ts: c.ts,
            },
            Request::SpeechEnd(e) => RequestView::SpeechEnd {
                duration_ms: e.duration_ms,
                ts: e.ts,
                turn_id: e.turn_id.deep_view(),
            },
            Request::ReloadModel(r) => RequestView::ReloadModel { model: r.model@ },
        }
    }
}

/// Payload of `wm.stt.partial`.
#[derive(Debug, Clone, PartialEq, Eq)]
pub struct PartialEvent {
    /// Best guess so far.
    pub text: String,
    /// Unix milliseconds at emission.
    pub ts: u64,
    /// Identifier of the turn, where it is known.
    pub turn_id: Option<String>,
}

/// Payload of `wm.stt.final`.
#[derive(Debug, Clone, PartialEq)]
pub struct FinalEvent {
    /// Finished transcript.
    pub text: String,
    /// Confidence of the transcript.
    pub confidence: Confidence,
    /// Duration of the utterance in milliseconds.
    pub duration_ms: u32,
    /// Model that produced the transcript.
    pub model: String,
    /// Unix milliseconds at emission.
    pub ts: u64,
    /// Identifier of the turn, where it is known.
    pub turn_id: Option<String>,
}

/// Payload of `wm.stt.uncertain`.
#[derive(Debug, Clone, PartialEq)]
pub struct UncertainEvent {
    /// Transcript, empty when there was no inference.
    pub text: String,
    /// Confidence of the transcript.
    pub confidence: Confidence,
    /// Why there was no inference; absent for a transcript whose confidence is
    /// below the threshold.
    pub reason: Option<String>,
    /// Unix milliseconds at emission.
    pub ts: u64,
    /// Identifier of the turn, where it is known.
    pub turn_id: Option<String>,
}

/// Payload of `wm.stt.error`.
#[derive(Debug, Clone, PartialEq, Eq)]
pub struct ErrorEvent {
    /// Short tag of the kind of failure.
    pub kind: String,
    /// What went wrong.
    pub message: String,
    /// Unix milliseconds at emission.
    pub ts: u64,
}

/// Payload of `wm.stt.model_loaded`.
#[derive(Debug, Clone, PartialEq, Eq)]
pub struct ModelLoadedEvent {
    /// Model that is now active.
    pub model: String,
    /// Milliseconds that loading took.
    pub warmup_ms: u64,
    /// Unix milliseconds at emission.
    pub ts: u64,
}

/// A [`PartialEvent`] with its texts as sequences of characters.
pub struct PartialEventView {
    pub text: Seq<char>,
    pub ts: u64,
    pub turn_id: Option<Seq<char>>,
}

/// A [`FinalEvent`] with its texts as sequences of characters.
pub struct FinalEventView {
    pub text: Seq<char>,
    pub confidence: Confidence,
    pub duration_ms: u32,
    pub model: Seq<char>,
    pub ts: u64,
    pub turn_id: Option<Seq<char>>,
}

/// An [`UncertainEvent`] with its texts as sequences of characters.
pub struct UncertainEventView {
    pub text: Seq<char>,
    pub confidence: Confidence,
    pub reason: Option<Seq<char>>,
    pub ts: u64,
    pub turn_id: Option<Seq<char>>,
}

/// An [`ErrorEvent`] with its texts as sequences of characters.
pub struct ErrorEventView {
    pub kind: Seq<char>,
    pub message: Seq<char>,
    pub ts: u64,
}

/// A [`ModelLoadedEvent`] with its texts as sequences of characters.
pub struct ModelLoadedEventView {
    pub model: Seq<char>,
    pub warmup_ms: u64,
    pub ts: u64,
}

impl View for PartialEvent {
    type V = PartialEventView;

    open spec fn view(&self) -> PartialEventView {
        PartialEventView { text: self.text@, ts: self.ts, turn_id: self.turn_id.deep_view() }
    }
}

impl View for FinalEvent {
    type V = FinalEventView;

    open spec fn view(&self) -> FinalEventView {
        FinalEventView {
            text: self.text@,
            confidence: self.confidence,
            duration_ms: self.duration_ms,
            model: self.model@,
            ts: self.ts,
            turn_id: self.turn_id.deep_view(),
        }
    }
}

impl View for UncertainEvent {
    type V = UncertainEventView;

    open spec fn view(&self) -> UncertainEventView {
        UncertainEventView {
            text: self.text@,
            confidence: self.confidence,
            reason: self.reason.deep_view(),
            ts: self.ts,
            turn_id: self.turn_id.deep_view(),
        }
    }
}

impl View for ErrorEvent {
    type V = ErrorEventView;

    open spec fn view(&self) -> ErrorEventView {
        ErrorEventView { kind: self.kind@, message: self.message@, ts: self.ts }
    }
}

impl View for ModelLoadedEvent {
    type V = ModelLoadedEventView;

    open spec fn view(&self) -> ModelLoadedEventView {
        ModelLoadedEventView { model: self.model@, warmup_ms: self.warmup_ms, ts: self.ts }
    }
}

impl ErrorEvent {
    /// An error event of the given kind.
    pub fn new(kind: &str, message: String, ts: u64) -> (event: ErrorEvent)
        ensures
            event@ == (ErrorEventView { kind: kind@, message: message@, ts }),
    {
        ErrorEvent { kind: kind.to_owned(), message, ts }
    }
}

/// The kinds of inbound payloads.
#[derive(Debug, Clone, Copy, PartialEq, Eq)]
pub enum RequestKind {
    /// `wm.audio.speech.start`
    SpeechStart,
    /// `wm.audio.speech.chunk`
    SpeechChunk,
    /// `wm.audio.speech.end`
    SpeechEnd,
    /// `wm.stt.reload_model`
    ReloadModel,
}

/// The kind of payload that a topic carries, for the topics that are handled.
pub open spec fn topic_kind(topic: Seq<char>) -> Option<RequestKind> {
    if topic == incoming::SPEECH_START@ {
        Some(RequestKind::SpeechStart)
    } else if topic == incoming::SPEECH_CHUNK@ {
        Some(RequestKind::SpeechChunk)
    } else if topic == incoming::SPEECH_END@ {
        Some(RequestKind::SpeechEnd)
    } else if topic == incoming::RELOAD_MODEL@ {
        Some(RequestKind::ReloadModel)
    } else {
        None
    }
}

/// The kind of payload that a topic carries, or `None` for a topic that is not
/// handled.
pub fn request_kind(topic: &str) -> (kind: Option<RequestKind>)
    ensures
        kind == topic_kind(topic@),
{
    if same_text(topic, incoming::SPEECH_START) {
        Some(RequestKind::SpeechStart)
    } else if same_text(topic, incoming::SPEECH_CHUNK) {
        Some(RequestKind::SpeechChunk)
    } else if same_text(topic, incoming::SPEECH_END) {
        Some(RequestKind::SpeechEnd)
    } else if same_text(topic, incoming::RELOAD_MODEL) {
        Some(RequestKind::ReloadModel)
    } else {
        None
    }
}

/// An inbound payload as read in each of the shapes that a payload may have:
/// the event, or why the payload is none. Only the shape that belongs to the
/// topic is ever looked at.
#[derive(Debug)]
pub struct Payload {
    /// As the payload of `wm.audio.speech.start`.
    pub as_start: Result<SpeechStartEvent, String>,
    /// As the payload of `wm.audio.speech.chunk`.
    pub as_chunk: Result<SpeechChunkEvent, String>,
    /// As the payload of `wm.audio.speech.end`.
    pub as_end: Result<SpeechEndEvent, String>,
    /// As the payload of `wm.stt.reload_model`.
    pub as_reload: Result<ReloadModelRequest, String>,
}

/// Errors of decoding an inbound payload.
#[derive(Debug)]
pub enum DecodeError {
    /// The topic is not handled.
    UnknownTopic(String),
    /// The payload does not have the shape that belongs to its topic.
    Json(String),
}

/// A [`DecodeError`] with its texts as sequences of characters.
pub enum DecodeErrorView {
    UnknownTopic(Seq<char>),
    Json(Seq<char>),
}

impl View for DecodeError {
    type V = DecodeErrorView;

    open spec fn view(&self) -> DecodeErrorView {
        match self {
            DecodeError::UnknownTopic(topic) => DecodeErrorView::UnknownTopic(topic@),
            DecodeError::Json(reason) => DecodeErrorView::Json(reason@),
        }
    }
}

impl DecodeErrorView {
    /// The text that tells a reader what went wrong.
    pub open spec fn message(self) -> Seq<char> {
        match self {
            DecodeErrorView::UnknownTopic(topic) => "unknown topic: "@ + topic,
            DecodeErrorView::Json(reason) => "payload decode failed: "@ + reason,
        }
    }
}

impl DecodeError {
    /// The text that tells a reader what went wrong.
    pub fn message(&self) -> (text: String)
        ensures
            text@ == self@.message(),
    {
        match self {
            DecodeError::UnknownTopic(topic) => String::from_str("unknown topic: ").concat(
                topic.as_str(),
            ),
            DecodeError::Json(reason) => String::from_str("payload decode failed: ").concat(
                reason.as_str(),
            ),
        }
    }
}

impl Payload {
    /// The payload in the shape of the given kind.
    pub open spec fn shaped(self, kind: RequestKind) -> Result<RequestView, Seq<char>> {
        match kind {
            RequestKind::SpeechStart => match self.as_start {
                Ok(e) => Ok(Request::SpeechStart(e)@),
                Err(reason) => Err(reason@),
            },
            RequestKind::SpeechChunk => match self.as_chunk {
                Ok(e) => Ok(Request::SpeechChunk(e)@),
                Err(reason) => Err(reason@),
            },
            RequestKind::SpeechEnd => match self.as_end {
                Ok(e) => Ok(Request::SpeechEnd(e)@),
                Err(reason) => Err(reason@),
            },
            RequestKind::ReloadModel => match self.as_reload {
                Ok(e) => Ok(Request::ReloadModel(e)@),
                Err(reason) => Err(reason@),
            },
        }
    }
}

/// What a payload on a topic decodes to.
pub open spec fn decoded(topic: Seq<char>, data: Payload) -> Result<RequestView, DecodeErrorView> {
    match topic_kind(topic) {
        None => Err(DecodeErrorView::UnknownTopic(topic)),
        Some(kind) => match data.shaped(kind) {
            Ok(request) => Ok(request),
            Err(reason) => Err(DecodeErrorView::Json(reason)),
        },
    }
}

/// A decoding result with the views of its value and of its error.
pub open spec fn decode_result(
    result: Result<Request, DecodeError>,
) -> Result<RequestView, DecodeErrorView> {
    match result {
        Ok(request) => Ok(request@),
        Err(e) => Err(e@),
    }
}

/// Decodes a payload by its topic.
pub fn decode_request(topic: &str, data: Payload) -> (result: Result<Request, DecodeError>)
    ensures
        decode_result(result) == decoded(topic@, data),
{
    match request_kind(topic) {
        Some(RequestKind::SpeechStart) => match data.as_start {
            Ok(e) => Ok(Request::SpeechStart(e)),
            Err(reason) => Err(DecodeError::Json(reason)),
        },
        Some(RequestKind::SpeechChunk) => match data.as_chunk {
            Ok(e) => Ok(Request::SpeechChunk(e)),
            Err(reason) => Err(DecodeError::Json(reason)),
        },
        Some(RequestKind::SpeechEnd) => match data.as_end {
            Ok(e) => Ok(Request::SpeechEnd(e)),
            Err(reason) => Err(DecodeError::Json(reason)),
        },
        Some(RequestKind::ReloadModel) => match data.as_reload {
            Ok(e) => Ok(Request::ReloadModel(e)),
            Err(reason) => Err(DecodeError::Json(reason)),
        },
        None => Err(DecodeError::UnknownTopic(topic.to_owned())),
    }
}

/// A count of milliseconds as 64 bits hold it: the count where it fits, the
/// largest value where it does not or where there is no count.
pub open spec fn saturated_ms(count: Option<u128>) -> u64 {
    match count {
        Some(ms) if ms <= u64::MAX => ms as u64,
        _ => u64::MAX,
    }
}

/// Brings a count of milliseconds into 64 bits.
pub fn saturate_ms(count: Option<u128>) -> (ms: u64)
    ensures
        ms == saturated_ms(count),
{
    match count {
        Some(ms) => if ms <= u64::MAX as u128 {
            ms as u64
        } else {
            u64::MAX
        },
        None => u64::MAX,
    }
}

/// `SystemTime::elapsed` on the Unix epoch: the milliseconds since then, or
/// `None` when the clock is set before it. Nothing is claimed of the reading,
/// which is the time.
#[verifier::external_body]
fn epoch_elapsed_ms() -> (reading: Option<u128>) {
    std::time::UNIX_EPOCH.elapsed().ok().map(|d| d.as_millis())
}

/// True for what the system clock may read: the milliseconds since the Unix
/// epoch, or `None` before it.
pub closed spec fn clock_may_read(reading: Option<u128>) -> bool {
    call_ensures(epoch_elapsed_ms, (), reading)
}

/// Reads a clock.
fn read_clock<F: Fn() -> Option<u128>>(clock: F) -> (reading: Option<u128>)
    requires
        call_requires(clock, ()),
    ensures
        call_ensures(clock, (), reading),
{
    clock()
}

/// Wall-clock milliseconds since the Unix epoch: what the system clock reads, as
/// [`saturate_ms`] brings it into 64 bits.
pub fn now_unix_ms() -> (ms: u64)
    ensures
        exists|reading: Option<u128>|
            clock_may_read(reading) && ms == #[trigger] saturated_ms(reading),
{
    saturate_ms(read_clock(epoch_elapsed_ms))
}

/// Each topic that is handled carries its own payload, field by field, and a payload of
/// another shape is refused with the reason for that shape alone. Other topics carry
/// nothing.
pub proof fn each_topic_has_its_payload(topic: Seq<char>, data: Payload)
    ensures
        topic == "wm.audio.speech.start"@ ==> match data.as_start {
            Ok(e) => decoded(topic, data) == Ok::<_, DecodeErrorView>(
                RequestView::SpeechStart { ts: e.ts },
            ),
            Err(reason) => decoded(topic, data) == Err::<RequestView, _>(
                DecodeErrorView::Json(reason@),
            ),
        },
        topic == "wm.audio.speech.chunk"@ ==> match data.as_chunk {
            Ok(e) => decoded(topic, data) == Ok::<_, DecodeErrorView>(
                RequestView::SpeechChunk { seq: e.seq, pcm_b64: e.pcm_b64@, ts: e.ts },
            ),
            Err(reason) => decoded(topic, data) == Err::<RequestView, _>(
                DecodeErrorView::Json(reason@),
            ),
        },
        topic == "wm.audio.speech.end"@ ==> match data.as_end {
            Ok(e) => decoded(topic, data) == Ok::<_, DecodeErrorView>(
                RequestView::SpeechEnd {
                    duration_ms: e.duration_ms,
                    ts: e.ts,
                    turn_id: e.turn_id.deep_view(),
                },
            ),
            Err(reason) => decoded(topic, data) == Err::<RequestView, _>(
                DecodeErrorView::Json(reason@),
            ),
        },
        topic == "wm.stt.reload_model"@ ==> match data.as_reload {
            Ok(e) => decoded(topic, data) == Ok::<_, DecodeErrorView>(
                RequestView::ReloadModel { model: e.model@ },
            ),
            Err(reason) => decoded(topic, data) == Err::<RequestView, _>(
                DecodeErrorView::Json(reason@),
            ),
        },
        topic != "wm.audio.speech.start"@ && topic != "wm.audio.speech.chunk"@ && topic
            != "wm.audio.speech.end"@ && topic != "wm.stt.reload_model"@ ==> decoded(topic, data)
            == Err::<RequestView, _>(DecodeErrorView::UnknownTopic(topic)),
{
    reveal_strlit("wm.audio.speech.start");
    reveal_strlit("wm.audio.speech.chunk");
    reveal_strlit("wm.audio.speech.end");
    reveal_strlit("wm.stt.reload_model");
    assert("wm.audio.speech.start"@[16] == 's' && "wm.audio.speech.chunk"@[16] == 'c');
    assert("wm.audio.speech.end"@[3] == 'a' && "wm.stt.reload_model"@[3] == 's');
}

/// What is told of a payload that was refused ends with the topic or with the reason.
pub proof fn refusals_tell_topic_or_reason(what: Seq<char>)
    ensures
        crate::text::frames(
            DecodeErrorView::UnknownTopic(what).message(),
            "unknown topic: "@,
            what,
            Seq::empty(),
        ),
        crate::text::frames(
            DecodeErrorView::Json(what).message(),
            "payload decode failed: "@,
            what,
            Seq::empty(),
        ),
{
    let none = Seq::<char>::empty();
    crate::text::lemma_frames("unknown topic: "@, what, none);
    crate::text::lemma_frames("payload decode failed: "@, what, none);
    assert("unknown topic: "@ + what + none =~= "unknown topic: "@ + what);
    assert("payload decode failed: "@ + what + none =~= "payload decode failed: "@ + what);
}

/// A count of milliseconds that fits is kept, and any other, or none, is the largest.
pub proof fn fitting_counts_are_kept(count: Option<u128>)
    ensures
        count matches Some(ms) && ms <= u64::MAX ==> saturated_ms(count) == count->0,
        count is None || count->0 > u64::MAX ==> saturated_ms(count) == u64::MAX,
{
}

} // verus!
