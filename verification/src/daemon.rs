//! What the daemon publishes, and where.

use crate::bus::{outgoing, Request};
use crate::confidence::Confidence;
use crate::config::{SttConfig, SttError, Threshold};
use crate::engine::{StubEngine, StubEngineView, TranscriptionEngine};
use crate::processor::{Emit, EmitView, Machine, Mode, UtteranceProcessor};
use vstd::prelude::*;

verus! {

/// Bit pattern of 0.9, the confidence that the daemon's stub engine reports. It
/// is above the default threshold.
pub const STUB_FIXED_CONFIDENCE: u32 = 0x3F66_6666;

/// [`STUB_FIXED_CONFIDENCE`] as messages show it.
pub const STUB_FIXED_CONFIDENCE_SHOWN: &'static str = "0.9";

/// The topic on which something is published.
pub open spec fn emit_topic(emit: EmitView) -> Seq<char> {
    match emit {
        EmitView::Partial(_) => outgoing::PARTIAL@,
        EmitView::Final(_) => outgoing::FINAL@,
        EmitView::Uncertain(_) => outgoing::UNCERTAIN@,
        EmitView::Error(_) => outgoing::ERROR@,
        EmitView::ModelLoaded(_) => outgoing::MODEL_LOADED@,
    }
}

/// The topic on which something is published.
pub fn topic_for_emit(emit: &Emit) -> (topic: &'static str)
    ensures
        topic@ == emit_topic(emit@),
{
    match emit {
        Emit::Partial(_) => outgoing::PARTIAL,
        Emit::Final(_) => outgoing::FINAL,
        Emit::Uncertain(_) => outgoing::UNCERTAIN,
        Emit::Error(_) => outgoing::ERROR,
        Emit::ModelLoaded(_) => outgoing::MODEL_LOADED,
    }
}

/// Something to publish, with its topic.
#[derive(Debug, PartialEq)]
pub struct Publication {
    /// Where it is published.
    pub topic: &'static str,
    /// What is published.
    pub emit: Emit,
}

/// The events of several publications, in order.
pub open spec fn published(publications: Seq<Publication>) -> Seq<EmitView> {
    publications.map_values(|p: Publication| p.emit@)
}

/// Tells whether a request is handled off the event loop: a speech end is, since
/// it waits for the engine's inference.
pub fn runs_on_blocking_pool(req: &Request) -> (yes: bool)
    ensures
        yes == (req@ is SpeechEnd),
{
    match req {
        Request::SpeechEnd(_) => true,
        _ => false,
    }
}

/// Folds one request through the processor, and gives each thing to publish its
/// topic, in the order in which they are to be published.
pub fn dispatch<E: TranscriptionEngine>(
    processor: &mut UtteranceProcessor<E>,
    req: Request,
    now_ms: u64,
) -> (out: Vec<Publication>)
    ensures
        old(processor)@.steps(req@, now_ms, final(processor)@, published(out@)),
        old(processor)@.wf() ==> final(processor)@.wf(),
        forall|i: int|
            0 <= i < out@.len() ==> (#[trigger] out@[i]).topic@ == emit_topic(out@[i].emit@),
{
    let emits = processor.handle(req, now_ms);
    let ghost all = emits@;
    let mut out: Vec<Publication> = Vec::new();
    for emit in it: emits.into_iter()
        invariant
            it.seq() == all,
            published(out@) == crate::processor::emits(all.take(it.index() as int)),
            forall|i: int|
                0 <= i < out@.len() ==> (#[trigger] out@[i]).topic@ == emit_topic(out@[i].emit@),
    {
        let topic = topic_for_emit(&emit);
        let ghost before = out@;
        let ghost k = it.index() as int;
        out.push(Publication { topic, emit });
        proof {
            assert(published(out@) =~= published(before).push(all[k]@));
            assert(all.take(k + 1) =~= all.take(k).push(all[k]));
            assert(crate::processor::emits(all.take(k + 1)) =~= crate::processor::emits(
                all.take(k),
            ).push(all[k]@));
        }
    }
    proof {
        assert(all.take(all.len() as int) =~= all);
    }
    out
}

/// Publications that are still to be sent, in order.
#[derive(Debug)]
pub struct Unsent {
    queue: Vec<Publication>,
}

impl View for Unsent {
    type V = Seq<Publication>;

    closed spec fn view(&self) -> Seq<Publication> {
        self.queue@
    }
}

/// What is done next about publications.
#[derive(Debug)]
pub enum Flush {
    /// This one is sent.
    Send(Publication),
    /// There is nothing left to send, or sending failed.
    Done(Result<(), String>),
}

/// A [`Flush`] with its text as a sequence of characters.
pub enum FlushView {
    Send(Publication),
    Done(Result<(), Seq<char>>),
}

impl View for Flush {
    type V = FlushView;

    open spec fn view(&self) -> FlushView {
        match self {
            Flush::Send(publication) => FlushView::Send(*publication),
            Flush::Done(Ok(_)) => FlushView::Done(Ok(())),
            Flush::Done(Err(cause)) => FlushView::Done(Err(cause@)),
        }
    }
}

/// What came of the last publication, with its text as a sequence of characters.
pub open spec fn sending(answer: Result<(), String>) -> Result<(), Seq<char>> {
    match answer {
        Ok(_) => Ok(()),
        Err(cause) => Err(cause@),
    }
}

/// What is left to send, and what is done next, once it is known what came of the
/// last publication: the first failure drops all that is left.
pub open spec fn flush_step(queue: Seq<Publication>, answer: Result<(), Seq<char>>) -> (
    Seq<Publication>,
    FlushView,
) {
    match answer {
        Err(_) => (Seq::empty(), FlushView::Done(answer)),
        Ok(_) => if queue.len() == 0 {
            (queue, FlushView::Done(answer))
        } else {
            (queue.skip(1), FlushView::Send(queue[0]))
        },
    }
}

impl Unsent {
    /// All of the publications are still to be sent.
    pub fn new(publications: Vec<Publication>) -> (unsent: Unsent)
        ensures
            unsent@ == publications@,
    {
        Unsent { queue: publications }
    }

    /// Hears what came of the last publication, `Ok` where there was none yet, and
    /// says what is done next.
    pub fn next(&mut self, answer: Result<(), String>) -> (flush: Flush)
        ensures
            (final(self)@, flush@) == flush_step(old(self)@, sending(answer)),
    {
        match answer {
            Err(cause) => {
                self.queue.clear();
                Flush::Done(Err(cause))
            },
            Ok(_) => if self.queue.len() == 0 {
                Flush::Done(Ok(()))
            } else {
                let first = self.queue.remove(0);
                proof {
                    assert(self.queue@ =~= old(self)@.skip(1));
                }
                Flush::Send(first)
            },
        }
    }
}

/// What is done about publications, answer by answer.
pub open spec fn flushed(queue: Seq<Publication>, answers: Seq<Result<(), Seq<char>>>) -> Seq<
    FlushView,
>
    decreases answers.len(),
{
    if answers.len() == 0 {
        Seq::empty()
    } else {
        let (rest, step) = flush_step(queue, answers[0]);
        seq![step] + flushed(rest, answers.skip(1))
    }
}

/// The first publications are sent in order as long as none fails, and then
/// `last` decides: a failure is what the flush ends with, and success ends it once
/// nothing is left.
pub proof fn publications_are_sent_in_order(
    queue: Seq<Publication>,
    sent: int,
    last: Result<(), Seq<char>>,
)
    requires
        0 <= sent <= queue.len(),
        last is Ok ==> sent == queue.len(),
    ensures
        flushed(
            queue,
            Seq::new(sent as nat, |i: int| Ok::<(), Seq<char>>(())).push(last),
        ) == Seq::new(sent as nat, |i: int| FlushView::Send(queue[i])).push(FlushView::Done(last)),
    decreases sent,
{
    let answers = Seq::new(sent as nat, |i: int| Ok::<(), Seq<char>>(())).push(last);
    if sent == 0 {
        assert(answers.skip(1) =~= Seq::<Result<(), Seq<char>>>::empty());
        assert(answers[0] == last);
        assert(flushed(flush_step(queue, last).0, answers.skip(1)).len() == 0);
        assert(flushed(queue, answers) =~= seq![FlushView::Done(last)]);
        assert(Seq::new(0, |i: int| FlushView::Send(queue[i])).push(FlushView::Done(last)) =~= seq![
            FlushView::Done(last),
        ]);
    } else {
        let rest = queue.skip(1);
        let fewer = (sent - 1) as nat;
        assert(answers.skip(1) =~= Seq::new(fewer, |i: int| Ok::<(), Seq<char>>(())).push(last));
        publications_are_sent_in_order(rest, sent - 1, last);
        assert(flushed(queue, answers) =~= Seq::new(
            sent as nat,
            |i: int| FlushView::Send(queue[i]),
        ).push(FlushView::Done(last)));
    }
}

/// After a publication has failed, none is sent any more, whatever is heard.
pub proof fn nothing_is_sent_after_a_failure(
    queue: Seq<Publication>,
    cause: Seq<char>,
    more: Seq<Result<(), Seq<char>>>,
    i: int,
)
    requires
        0 <= i < flushed(queue, seq![Err::<(), Seq<char>>(cause)] + more).len(),
    ensures
        flushed(queue, seq![Err::<(), Seq<char>>(cause)] + more)[i] is Done,
{
    let answers = seq![Err::<(), Seq<char>>(cause)] + more;
    assert(answers.skip(1) =~= more);
    if i > 0 {
        lemma_nothing_left(more, i - 1);
    }
}

/// Where nothing is left, nothing is sent.
proof fn lemma_nothing_left(answers: Seq<Result<(), Seq<char>>>, i: int)
    requires
        0 <= i < flushed(Seq::empty(), answers).len(),
    ensures
        flushed(Seq::empty(), answers)[i] is Done,
    decreases answers.len(),
{
    if i > 0 {
        lemma_nothing_left(answers.skip(1), i - 1);
    }
}

/// Why a processor could not be built.
#[derive(Debug)]
pub struct BuildError {
    /// What was being done.
    pub context: &'static str,
    /// What went wrong.
    pub cause: SttError,
}

/// What is being done while the settings are checked.
pub const CONFIG_CONTEXT: &'static str = "wm-stt: config validation failed";

/// What is being done while the stub engine is made.
pub const STUB_CONTEXT: &'static str = "wm-stt: stub engine init";

impl BuildError {
    /// The text that tells a reader what was being done and what went wrong.
    pub fn message(&self) -> (text: String)
        ensures
            text@ == self.context@ + ": "@ + self.cause@.message(),
    {
        self.context.to_owned().concat(": ").concat(self.cause.message().as_str())
    }
}

/// The idle processor with the daemon's stub engine, for the given settings.
pub open spec fn is_stub_processor(
    m: Machine<StubEngine>,
    config: crate::config::SttConfigView,
) -> bool {
    m == Machine {
        engine: m.engine,
        config,
        mode: Mode::Idle,
        cadence: crate::processor::DEFAULT_PARTIAL_CADENCE_MS,
        pending: None,
    } && m.engine@ == StubEngineView {
        model: config.model,
        chunks: 0,
        fixed_confidence: Confidence { bits: STUB_FIXED_CONFIDENCE },
    }
}

/// Builds a processor with the stub engine, for settings that are valid.
pub fn build_stub_processor(cfg: SttConfig) -> (result: Result<
    UtteranceProcessor<StubEngine>,
    BuildError,
>)
    ensures
        result is Ok <==> cfg@.valid(),
        result matches Ok(p) ==> is_stub_processor(p@, cfg@) && p@.wf(),
        result matches Err(e) ==> e.context@ == CONFIG_CONTEXT@ && e.cause@ == cfg@.complaint(),
{
    match cfg.validate() {
        Ok(_) => {},
        Err(cause) => {
            return Err(BuildError { context: CONFIG_CONTEXT, cause });
        },
    }
    let fixed = Threshold::new(
        Confidence::from_bits(STUB_FIXED_CONFIDENCE),
        STUB_FIXED_CONFIDENCE_SHOWN,
    );
    proof {
        crate::config::lemma_unit_range(fixed.value);
    }
    match StubEngine::new(cfg.model.as_str(), &fixed) {
        Ok(engine) => Ok(UtteranceProcessor::new(engine, cfg)),
        Err(cause) => Err(BuildError { context: STUB_CONTEXT, cause }),
    }
}

/// The texts of the topics, by length and by the character in which they differ.
proof fn topic_texts()
    ensures
        crate::bus::incoming::SPEECH_START@.len() == 21,
        crate::bus::incoming::SPEECH_CHUNK@.len() == 21,
        crate::bus::incoming::SPEECH_END@.len() == 19,
        crate::bus::incoming::RELOAD_MODEL@.len() == 19,
        crate::bus::incoming::SPEECH_START@[3] == 'a',
        crate::bus::incoming::SPEECH_CHUNK@[3] == 'a',
        crate::bus::incoming::SPEECH_END@[3] == 'a',
        crate::bus::incoming::RELOAD_MODEL@[7] == 'r',
        outgoing::PARTIAL@.len() == 14,
        outgoing::FINAL@.len() == 12,
        outgoing::UNCERTAIN@.len() == 16,
        outgoing::ERROR@.len() == 12,
        outgoing::MODEL_LOADED@.len() == 19,
        outgoing::PARTIAL@[3] == 's',
        outgoing::FINAL@[3] == 's',
        outgoing::UNCERTAIN@[3] == 's',
        outgoing::ERROR@[3] == 's',
        outgoing::MODEL_LOADED@[3] == 's',
        outgoing::PARTIAL@[7] == 'p',
        outgoing::FINAL@[7] == 'f',
        outgoing::UNCERTAIN@[7] == 'u',
        outgoing::ERROR@[7] == 'e',
        outgoing::MODEL_LOADED@[7] == 'm',
{
    reveal_strlit("wm.audio.speech.start");
    reveal_strlit("wm.audio.speech.chunk");
    reveal_strlit("wm.audio.speech.end");
    reveal_strlit("wm.stt.reload_model");
    reveal_strlit("wm.stt.partial");
    reveal_strlit("wm.stt.final");
    reveal_strlit("wm.stt.uncertain");
    reveal_strlit("wm.stt.error");
    reveal_strlit("wm.stt.model_loaded");
}

/// What the daemon publishes it never handles: an event that comes back to it is
/// of no kind, so nothing is answered to it.
pub proof fn own_events_are_not_handled(emit: EmitView)
    ensures
        crate::bus::topic_kind(emit_topic(emit)) is None,
{
    topic_texts();
}

/// Events of different kinds are published on different topics.
pub proof fn topics_tell_events_apart(a: EmitView, b: EmitView)
    ensures
        emit_topic(a) == emit_topic(b) <==> {
            ||| a is Partial && b is Partial
            ||| a is Final && b is Final
            ||| a is Uncertain && b is Uncertain
            ||| a is Error && b is Error
            ||| a is ModelLoaded && b is ModelLoaded
        },
{
    topic_texts();
}

/// Every topic that is handled falls under one of the two subscriptions.
pub proof fn handled_topics_are_subscribed(topic: Seq<char>)
    requires
        crate::bus::topic_kind(topic) is Some,
    ensures
        crate::bus::AUDIO_TOPIC_PREFIX@.is_prefix_of(topic)
            || crate::bus::STT_COMMAND_PREFIX@.is_prefix_of(topic),
{
    reveal_strlit("wm.audio.speech.");
    reveal_strlit("wm.audio.speech.start");
    reveal_strlit("wm.audio.speech.chunk");
    reveal_strlit("wm.audio.speech.end");
    reveal_strlit("wm.stt.");
    reveal_strlit("wm.stt.reload_model");
    let p = crate::bus::AUDIO_TOPIC_PREFIX@;
    assert(p =~= crate::bus::incoming::SPEECH_START@.subrange(0, 16));
    assert(p =~= crate::bus::incoming::SPEECH_CHUNK@.subrange(0, 16));
    assert(p =~= crate::bus::incoming::SPEECH_END@.subrange(0, 16));
    assert(crate::bus::STT_COMMAND_PREFIX@ =~= crate::bus::incoming::RELOAD_MODEL@.subrange(0, 7));
}

/// Each kind of event has its topic.
pub proof fn events_have_their_topics(emit: EmitView)
    ensures
        emit is Partial ==> emit_topic(emit) == "wm.stt.partial"@,
        emit is Final ==> emit_topic(emit) == "wm.stt.final"@,
        emit is Uncertain ==> emit_topic(emit) == "wm.stt.uncertain"@,
        emit is Error ==> emit_topic(emit) == "wm.stt.error"@,
        emit is ModelLoaded ==> emit_topic(emit) == "wm.stt.model_loaded"@,
{
}

/// A processor with the stub engine starts idle, with the settings and the model that it
/// is given, no chunk heard, nothing waiting, a cadence of half a second, and a
/// confidence of 0.9.
pub proof fn stub_processor_starts_like_this(
    m: Machine<StubEngine>,
    config: crate::config::SttConfigView,
)
    requires
        is_stub_processor(m, config),
    ensures
        m.mode is Idle,
        m.pending is None,
        m.config == config,
        m.cadence == 500,
        m.engine@.model == config.model,
        m.engine@.chunks == 0,
        m.engine@.fixed_confidence.bits == 0x3F66_6666,
{
}

/// Speech ends are handled off the event loop, and no other request is.
pub proof fn only_speech_ends_leave_the_loop(req: &Request, yes: bool)
    requires
        call_ensures(runs_on_blocking_pool, (req,), yes),
    ensures
        yes <==> (req matches Request::SpeechEnd(_)),
{
}

/// Everything that a request gives is to be published, in order, each event on the topic
/// of its kind.
pub proof fn dispatch_publishes_everything<E: TranscriptionEngine>(
    processor: &mut UtteranceProcessor<E>,
    req: Request,
    now_ms: u64,
    out: Vec<Publication>,
)
    requires
        call_ensures(dispatch::<E>, (processor, req, now_ms), out),
    ensures
        exists|events: Seq<EmitView>|
            {
                &&& #[trigger] old(processor)@.steps(req@, now_ms, final(processor)@, events)
                &&& events.len() == out@.len()
                &&& forall|i: int| 0 <= i < out@.len() ==> (#[trigger] out@[i]).emit@ == events[i]
            },
        forall|i: int|
            0 <= i < out@.len() ==> (#[trigger] out@[i]).topic@ == match out@[i].emit {
                Emit::Partial(_) => "wm.stt.partial"@,
                Emit::Final(_) => "wm.stt.final"@,
                Emit::Uncertain(_) => "wm.stt.uncertain"@,
                Emit::Error(_) => "wm.stt.error"@,
                Emit::ModelLoaded(_) => "wm.stt.model_loaded"@,
            },
{
    assert(old(processor)@.steps(req@, now_ms, final(processor)@, published(out@)));
}

/// A processor with the stub engine is built exactly for valid settings, and what is told
/// otherwise says what was being done and what is wrong.
pub proof fn stub_processor_is_built_for_valid_settings(
    cfg: SttConfig,
    result: Result<UtteranceProcessor<StubEngine>, BuildError>,
)
    requires
        call_ensures(build_stub_processor, (cfg,), result),
    ensures
        result is Ok <==> crate::config::allowed(cfg@.model) && 1
            <= cfg@.confidence_threshold.value.bits <= 0x3F80_0000,
        result matches Ok(p) ==> p@.mode is Idle && p@.config == cfg@ && p@.engine@.model
            == cfg@.model && p@.cadence == 500,
        result matches Err(e) ==> e.context@ == "wm-stt: config validation failed"@ && (e.cause@
            is UnknownModel <==> !crate::config::allowed(cfg@.model)),
{
    crate::config::valid_settings_have_model_and_threshold(cfg@);
}

/// What is told of a processor that could not be built is what was being done, a colon
/// and a space, and what went wrong.
pub proof fn build_errors_tell_context_and_cause(e: &BuildError, text: String)
    requires
        call_ensures(BuildError::message, (e,), text),
    ensures
        crate::text::frames(text@, e.context@, ": "@, e.cause@.message()),
{
    crate::text::lemma_frames(e.context@, ": "@, e.cause@.message());
}

} // verus!
