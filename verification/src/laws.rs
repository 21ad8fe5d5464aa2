//! Laws of the processor: what holds of every request, and of every run of
//! requests.

use crate::bus::RequestView;
use crate::engine::{EngineErrorView, EngineFinalView, StubEngine, TranscriptionEngine};
use crate::processor::{EmitView, Machine};
use vstd::prelude::*;

verus! {

/// One request of a run: what was asked, when, and what was published.
pub struct Turn {
    pub request: RequestView,
    pub now_ms: u64,
    pub out: Seq<EmitView>,
}

/// A run: the processor before the first request and after each.
pub open spec fn runs<E: TranscriptionEngine>(machines: Seq<Machine<E>>, turns: Seq<Turn>) -> bool {
    &&& machines.len() == turns.len() + 1
    &&& forall|i: int|
        #![trigger turns[i]]
        0 <= i < turns.len() ==> machines[i].steps(
            turns[i].request,
            turns[i].now_ms,
            machines[i + 1],
            turns[i].out,
        )
}

/// True for the two events that carry the result of an utterance.
pub open spec fn is_transcript(e: EmitView) -> bool {
    e is Final || e is Uncertain
}

/// How many results of utterances there are.
pub open spec fn transcripts(out: Seq<EmitView>) -> nat
    decreases out.len(),
{
    if out.len() == 0 {
        0
    } else {
        transcripts(out.drop_last()) + if is_transcript(out.last()) {
            1nat
        } else {
            0nat
        }
    }
}

/// How many results of utterances a run publishes.
pub open spec fn transcripts_in(turns: Seq<Turn>) -> nat
    decreases turns.len(),
{
    if turns.len() == 0 {
        0
    } else {
        transcripts_in(turns.drop_last()) + transcripts(turns.last().out)
    }
}

/// How many speech starts a run holds.
pub open spec fn starts_in(turns: Seq<Turn>) -> nat
    decreases turns.len(),
{
    if turns.len() == 0 {
        0
    } else {
        starts_in(turns.drop_last()) + if turns.last().request is SpeechStart {
            1nat
        } else {
            0nat
        }
    }
}

/// One while an utterance is open, none while the processor is idle.
pub open spec fn open_utterances<E: TranscriptionEngine>(m: Machine<E>) -> nat {
    if m.mode is Speaking {
        1
    } else {
        0
    }
}

/// No request makes the processor lose its invariant.
pub proof fn invariant_is_kept<E: TranscriptionEngine>(
    m: Machine<E>,
    request: RequestView,
    now_ms: u64,
    next: Machine<E>,
    out: Seq<EmitView>,
)
    requires
        m.wf(),
        m.steps(request, now_ms, next, out),
    ensures
        next.wf(),
{
}

/// No request changes the settings or the cadence.
pub proof fn settings_are_kept<E: TranscriptionEngine>(
    m: Machine<E>,
    request: RequestView,
    now_ms: u64,
    next: Machine<E>,
    out: Seq<EmitView>,
)
    requires
        m.steps(request, now_ms, next, out),
    ensures
        next.config == m.config,
        next.cadence == m.cadence,
{
}

/// A speech end closes the utterance: afterwards the processor is idle and
/// nothing waits.
pub proof fn end_makes_idle<E: TranscriptionEngine>(
    m: Machine<E>,
    duration_ms: u32,
    ts: u64,
    turn_id: Option<Seq<char>>,
    now_ms: u64,
    next: Machine<E>,
    out: Seq<EmitView>,
)
    requires
        m.wf(),
        m.ends(duration_ms, ts, turn_id, now_ms, next, out),
    ensures
        next.mode is Idle,
        next.pending is None,
{
}

/// Chunks and speech ends that come between utterances change nothing.
pub proof fn stray_speech_changes_nothing<E: TranscriptionEngine>(
    m: Machine<E>,
    request: RequestView,
    now_ms: u64,
    next: Machine<E>,
    out: Seq<EmitView>,
)
    requires
        m.mode is Idle,
        request is SpeechChunk || request is SpeechEnd,
        m.steps(request, now_ms, next, out),
    ensures
        next == m,
        out.len() == 1,
        out[0] is Error,
{
}

/// A request publishes the result of an utterance only where it ends one, and
/// then one result at most.
pub proof fn results_come_at_the_end<E: TranscriptionEngine>(
    m: Machine<E>,
    request: RequestView,
    now_ms: u64,
    next: Machine<E>,
    out: Seq<EmitView>,
)
    requires
        m.steps(request, now_ms, next, out),
    ensures
        transcripts(out) <= 1,
        transcripts(out) > 0 ==> request is SpeechEnd && m.mode is Speaking && next.mode is Idle,
{
    reveal_with_fuel(transcripts, 3);
    if out.len() == 1 {
        assert(out.drop_last() =~= Seq::<EmitView>::empty());
    } else if out.len() == 2 {
        assert(out.drop_last().drop_last() =~= Seq::<EmitView>::empty());
    }
}

/// No utterance gives two results: in every run the results are no more than
/// the utterances, that is the speech starts and the one that was open before.
pub proof fn one_result_per_utterance<E: TranscriptionEngine>(
    machines: Seq<Machine<E>>,
    turns: Seq<Turn>,
)
    requires
        runs(machines, turns),
    ensures
        transcripts_in(turns) + open_utterances(machines.last()) <= starts_in(turns)
            + open_utterances(machines[0]),
    decreases turns.len(),
{
    if turns.len() > 0 {
        let n = turns.len() - 1;
        let before = machines.drop_last();
        let earlier = turns.drop_last();
        assert forall|i: int| #![trigger earlier[i]] 0 <= i < earlier.len() implies before[i].steps(
            earlier[i].request,
            earlier[i].now_ms,
            before[i + 1],
            earlier[i].out,
        ) by {
            assert(earlier[i] == turns[i]);
        }
        one_result_per_utterance(before, earlier);
        let t = turns[n];
        results_come_at_the_end(machines[n], t.request, t.now_ms, machines[n + 1], t.out);
    }
}

/// A result is final exactly when its confidence reaches the threshold. An
/// uncertain one gives a reason exactly when there was no inference, and then
/// it is empty.
pub proof fn threshold_decides<E: TranscriptionEngine>(
    m: Machine<E>,
    request: RequestView,
    now_ms: u64,
    next: Machine<E>,
    out: Seq<EmitView>,
    i: int,
)
    requires
        m.steps(request, now_ms, next, out),
        0 <= i < out.len(),
    ensures
        out[i] matches EmitView::Final(f) ==> f.confidence.reaches(
            m.config.confidence_threshold.value,
        ),
        out[i] matches EmitView::Uncertain(u) ==> match u.reason {
            None => !u.confidence.reaches(m.config.confidence_threshold.value),
            Some(_) => {
                &&& request matches RequestView::SpeechEnd { duration_ms, ts, turn_id }
                &&& !crate::processor::valid_window(duration_ms)
                &&& out[i] == crate::processor::window_invalid(ts, turn_id)
            },
        },
{
}

/// With valid settings, whatever is uncertain has a confidence below the
/// threshold, and whatever is final has none below it.
pub proof fn uncertain_is_below_the_threshold<E: TranscriptionEngine>(
    m: Machine<E>,
    request: RequestView,
    now_ms: u64,
    next: Machine<E>,
    out: Seq<EmitView>,
    i: int,
)
    requires
        m.config.valid(),
        m.steps(request, now_ms, next, out),
        0 <= i < out.len(),
    ensures
        out[i] matches EmitView::Uncertain(u) ==> !u.confidence.reaches(
            m.config.confidence_threshold.value,
        ),
        out[i] matches EmitView::Final(f) ==> f.confidence.reaches(
            m.config.confidence_threshold.value,
        ),
{
    threshold_decides(m, request, now_ms, next, out, i);
    crate::confidence::lemma_one();
}

/// What is published for an utterance carries the turn that its end names, and
/// none where its end names none.
pub proof fn turn_is_passed_on<E: TranscriptionEngine>(
    m: Machine<E>,
    duration_ms: u32,
    ts: u64,
    turn_id: Option<Seq<char>>,
    now_ms: u64,
    next: Machine<E>,
    out: Seq<EmitView>,
    i: int,
)
    requires
        m.ends(duration_ms, ts, turn_id, now_ms, next, out),
        0 <= i < out.len(),
    ensures
        out[i] matches EmitView::Final(f) ==> f.turn_id == turn_id,
        out[i] matches EmitView::Uncertain(u) ==> u.turn_id == turn_id,
{
}

/// Partial transcripts carry no turn: only the end of an utterance names it.
pub proof fn partials_carry_no_turn<E: TranscriptionEngine>(
    m: Machine<E>,
    request: RequestView,
    now_ms: u64,
    next: Machine<E>,
    out: Seq<EmitView>,
    i: int,
)
    requires
        m.wf(),
        m.steps(request, now_ms, next, out),
        0 <= i < out.len(),
    ensures
        out[i] matches EmitView::Partial(p) ==> p.turn_id is None,
{
}

/// A change of the model that fails because its file is missing is told apart
/// from other failures, whether it is made at once or after an utterance.
pub proof fn missing_file_is_told_apart<E: TranscriptionEngine>(
    m: Machine<E>,
    name: Seq<char>,
    now_ms: u64,
    next: Machine<E>,
    said: EmitView,
)
    requires
        m.changes_model(name, now_ms, next, said),
    ensures
        said matches EmitView::Error(e) ==> exists|fault: EngineErrorView|
            {
                &&& #[trigger] E::reloads(
                    m.engine,
                    name,
                    next.engine,
                    Err::<u64, EngineErrorView>(fault),
                )
                &&& e.message == fault.message()
                &&& e.kind == if fault is ModelMissing {
                    "model_missing"@
                } else {
                    "model"@
                }
            },
{
}

/// A window that is too short or too long is answered once, as invalid, and the
/// engine is reset without being asked for a transcript.
pub proof fn bad_window_is_not_transcribed<E: TranscriptionEngine>(
    m: Machine<E>,
    duration_ms: u32,
    ts: u64,
    turn_id: Option<Seq<char>>,
    now_ms: u64,
    next: Machine<E>,
    out: Seq<EmitView>,
)
    requires
        m.mode is Speaking,
        !crate::processor::valid_window(duration_ms),
        m.ends(duration_ms, ts, turn_id, now_ms, next, out),
    ensures
        out.len() > 0,
        out[0] == crate::processor::window_invalid(ts, turn_id),
        transcripts(out) == 1,
        m.pending is None ==> out.len() == 1 && E::resets(m.engine, next.engine),
        exists|closed: E| #[trigger]
            E::resets(m.engine, closed) && m.settles(closed, out[0], now_ms, next, out),
{
    reveal_with_fuel(transcripts, 3);
    if out.len() == 1 {
        assert(out.drop_last() =~= Seq::<EmitView>::empty());
    } else {
        assert(out.drop_last().drop_last() =~= Seq::<EmitView>::empty());
    }
}

/// Every utterance is answered when it ends: by its result, or by an error.
pub proof fn every_utterance_is_answered<E: TranscriptionEngine>(
    m: Machine<E>,
    duration_ms: u32,
    ts: u64,
    turn_id: Option<Seq<char>>,
    now_ms: u64,
    next: Machine<E>,
    out: Seq<EmitView>,
)
    requires
        m.mode is Speaking,
        m.ends(duration_ms, ts, turn_id, now_ms, next, out),
    ensures
        out.len() > 0,
        is_transcript(out[0]) || out[0] is Error,
{
}

/// With the stub engine, an utterance of a valid length gives the stub's
/// transcript, with the stub's confidence.
pub proof fn stub_utterance_result(
    m: Machine<StubEngine>,
    duration_ms: u32,
    ts: u64,
    turn_id: Option<Seq<char>>,
    now_ms: u64,
    next: Machine<StubEngine>,
    out: Seq<EmitView>,
)
    requires
        m.mode is Speaking,
        crate::processor::valid_window(duration_ms),
        m.ends(duration_ms, ts, turn_id, now_ms, next, out),
    ensures
        out.len() > 0,
        out[0] == crate::processor::transcript_event(
            Ok(
                EngineFinalView {
                    text: crate::engine::stub_transcript(duration_ms),
                    confidence: m.engine@.fixed_confidence,
                },
            ),
            m.config.confidence_threshold.value,
            duration_ms,
            m.engine@.model,
            ts,
            turn_id,
        ),
        next.engine@.chunks == 0,
{
}

/// A change of the model that is asked for during an utterance is not made then:
/// the engine is as it was, nothing is published, and the change waits in place
/// of any that waited before.
pub proof fn model_change_waits<E: TranscriptionEngine>(
    m: Machine<E>,
    name: Seq<char>,
    now_ms: u64,
    next: Machine<E>,
    out: Seq<EmitView>,
)
    requires
        m.mode is Speaking,
        crate::config::allowed(name),
        m.reloads(name, now_ms, next, out),
    ensures
        next.engine == m.engine,
        next.mode == m.mode,
        next.pending == Some(name),
        out.len() == 0,
{
}

/// A change that waits stays until the utterance ends, unless another takes its
/// place.
pub proof fn waiting_change_stays<E: TranscriptionEngine>(
    m: Machine<E>,
    request: RequestView,
    now_ms: u64,
    next: Machine<E>,
    out: Seq<EmitView>,
)
    requires
        m.mode is Speaking,
        !(request is SpeechEnd),
        request matches RequestView::ReloadModel { model } ==> !crate::config::allowed(model),
        m.steps(request, now_ms, next, out),
    ensures
        next.mode is Speaking,
        next.pending == m.pending,
{
}

/// A change that waits is made when the utterance ends, after its result is
/// said: first what the utterance gave, then that the model is loaded, or why it
/// is not.
pub proof fn waiting_change_is_made_last<E: TranscriptionEngine>(
    m: Machine<E>,
    name: Seq<char>,
    duration_ms: u32,
    ts: u64,
    turn_id: Option<Seq<char>>,
    now_ms: u64,
    next: Machine<E>,
    out: Seq<EmitView>,
)
    requires
        m.mode is Speaking,
        m.pending == Some(name),
        m.ends(duration_ms, ts, turn_id, now_ms, next, out),
    ensures
        out.len() == 2,
        out[0] is Final || out[0] is Uncertain || out[0] is Error,
        out[1] is ModelLoaded || out[1] is Error,
        out[1] matches EmitView::ModelLoaded(loaded) ==> loaded.model == name,
        next.pending is None,
{
}

/// A model that is not allowed is refused, whatever goes on: nothing changes.
pub proof fn unknown_model_is_refused<E: TranscriptionEngine>(
    m: Machine<E>,
    name: Seq<char>,
    now_ms: u64,
    next: Machine<E>,
    out: Seq<EmitView>,
)
    requires
        !crate::config::allowed(name),
        m.reloads(name, now_ms, next, out),
    ensures
        next == m,
        out.len() == 1,
        out[0] matches EmitView::Error(e) && e.kind == "model"@,
{
}

/// The time at which a partial transcript was last asked for.
pub open spec fn last_partial<E: TranscriptionEngine>(m: Machine<E>) -> u64 {
    m.mode->last_partial_ts
}

/// Within an utterance and with a cadence above zero, the time at which a
/// partial transcript was last asked for only grows, and by the cadence at least
/// where a partial is published. Each partial bears the time of its chunk.
pub proof fn partial_moves_the_clock<E: TranscriptionEngine>(
    m: Machine<E>,
    request: RequestView,
    now_ms: u64,
    next: Machine<E>,
    out: Seq<EmitView>,
)
    requires
        m.mode is Speaking,
        next.mode is Speaking,
        m.cadence > 0,
        !(request is SpeechStart),
        m.steps(request, now_ms, next, out),
    ensures
        last_partial(next) >= last_partial(m),
        forall|k: int|
            #![trigger out[k]]
            0 <= k < out.len() ==> (out[k] matches EmitView::Partial(p) ==> p.ts == last_partial(
                next,
            ) && p.ts - last_partial(m) >= m.cadence),
{
}

/// True when the turns from `from` up to `to` all belong to one utterance.
pub open spec fn one_utterance<E: TranscriptionEngine>(
    machines: Seq<Machine<E>>,
    turns: Seq<Turn>,
    from: int,
    to: int,
) -> bool {
    &&& 0 <= from <= to < machines.len()
    &&& forall|k: int| #![trigger machines[k]] from <= k <= to ==> machines[k].mode is Speaking
    &&& forall|k: int| #![trigger turns[k]] from <= k < to ==> !(turns[k].request is SpeechStart)
}

/// Within an utterance the time of the last partial only grows.
proof fn clock_grows<E: TranscriptionEngine>(
    machines: Seq<Machine<E>>,
    turns: Seq<Turn>,
    from: int,
    to: int,
)
    requires
        runs(machines, turns),
        one_utterance(machines, turns, from, to),
        machines[from].cadence > 0,
    ensures
        last_partial(machines[to]) >= last_partial(machines[from]),
        machines[to].cadence == machines[from].cadence,
    decreases to - from,
{
    if from < to {
        clock_grows(machines, turns, from, to - 1);
        let t = turns[to - 1];
        partial_moves_the_clock(machines[to - 1], t.request, t.now_ms, machines[to], t.out);
    }
}

/// Two partial transcripts of one utterance are a cadence apart at least.
pub proof fn partials_keep_the_cadence<E: TranscriptionEngine>(
    machines: Seq<Machine<E>>,
    turns: Seq<Turn>,
    i: int,
    j: int,
)
    requires
        runs(machines, turns),
        0 <= i < j < turns.len(),
        one_utterance(machines, turns, i, j + 1),
        machines[i].cadence > 0,
    ensures
        forall|a: int, b: int|
            #![trigger turns[i].out[a], turns[j].out[b]]
            0 <= a < turns[i].out.len() && 0 <= b < turns[j].out.len() ==> (turns[i].out[a] matches
                EmitView::Partial(p) ==> (turns[j].out[b] matches EmitView::Partial(q) ==> q.ts
                >= p.ts + machines[i].cadence)),
{
    let ti = turns[i];
    let tj = turns[j];
    partial_moves_the_clock(machines[i], ti.request, ti.now_ms, machines[i + 1], ti.out);
    clock_grows(machines, turns, i, i + 1);
    clock_grows(machines, turns, i + 1, j);
    partial_moves_the_clock(machines[j], tj.request, tj.now_ms, machines[j + 1], tj.out);
}

/// A chunk that the engine refuses is reported and leaves the utterance open as
/// it was.
pub proof fn refused_chunk_keeps_the_utterance<E: TranscriptionEngine>(
    m: Machine<E>,
    seq: u64,
    pcm_b64: Seq<char>,
    ts: u64,
    next: Machine<E>,
    out: Seq<EmitView>,
    i: int,
)
    requires
        m.mode is Speaking,
        m.hears(seq, pcm_b64, ts, next, out),
        0 <= i < out.len(),
        out[i] is Error,
    ensures
        next == (Machine { engine: next.engine, ..m }),
        out.len() == 1,
{
}

/// The engine is reset when an utterance ends, whatever it gave, and before a
/// model change that waited is made.
pub proof fn engine_is_reset_at_the_end<E: TranscriptionEngine>(
    m: Machine<E>,
    duration_ms: u32,
    ts: u64,
    turn_id: Option<Seq<char>>,
    now_ms: u64,
    next: Machine<E>,
    out: Seq<EmitView>,
)
    requires
        m.mode is Speaking,
        m.ends(duration_ms, ts, turn_id, now_ms, next, out),
    ensures
        exists|finished: E, closed: E|
            {
                &&& #[trigger] E::resets(finished, closed)
                &&& match m.pending {
                    None => next.engine == closed,
                    Some(name) => exists|outcome: Result<u64, EngineErrorView>| #[trigger]
                        E::reloads(closed, name, next.engine, outcome),
                }
            },
{
    let (closed, said) = choose|closed: E, said: EmitView|
        {
            &&& #[trigger] m.closes(duration_ms, ts, turn_id, closed, said)
            &&& m.settles(closed, said, now_ms, next, out)
        };
    if crate::processor::valid_window(duration_ms) {
        let (finished, outcome, model) = choose|
            finished: E,
            outcome: Result<EngineFinalView, EngineErrorView>,
            model: Seq<char>,
        |
            {
                &&& #[trigger] E::finalises(m.engine, duration_ms, finished, outcome)
                &&& #[trigger] finished.is_named(model)
                &&& said == crate::processor::transcript_event(
                    outcome,
                    m.config.confidence_threshold.value,
                    duration_ms,
                    model,
                    ts,
                    turn_id,
                )
                &&& E::resets(finished, closed)
            };
        assert(E::resets(finished, closed));
    } else {
        assert(E::resets(m.engine, closed));
    }
}

/// The stub engine holds no chunks between utterances.
pub open spec fn stub_is_clear(m: Machine<StubEngine>) -> bool {
    m.mode is Idle ==> m.engine@.chunks == 0
}

/// With the stub engine, every utterance starts without chunks of an earlier one,
/// whether that one ended or was dropped.
pub proof fn stub_utterance_starts_clear(
    m: Machine<StubEngine>,
    request: RequestView,
    now_ms: u64,
    next: Machine<StubEngine>,
    out: Seq<EmitView>,
)
    requires
        stub_is_clear(m),
        m.steps(request, now_ms, next, out),
    ensures
        stub_is_clear(next),
        request is SpeechStart ==> next.engine@.chunks == 0,
{
}

/// With the stub engine, the model is the same as long as the utterance goes on.
pub proof fn stub_model_stays_during_speech(
    m: Machine<StubEngine>,
    request: RequestView,
    now_ms: u64,
    next: Machine<StubEngine>,
    out: Seq<EmitView>,
)
    requires
        m.mode is Speaking,
        next.mode is Speaking,
        m.steps(request, now_ms, next, out),
    ensures
        next.engine@.model == m.engine@.model,
{
}

/// What is told of a change of the model: the model and the time it took, or what kept
/// it from being loaded, with a tag of its own for a file that is missing.
pub open spec fn tells_change(
    told: EmitView,
    name: Seq<char>,
    outcome: Result<u64, EngineErrorView>,
    now_ms: u64,
) -> bool {
    match (outcome, told) {
        (Ok(ms), EmitView::ModelLoaded(e)) => e.model == name && e.warmup_ms == ms && e.ts
            == now_ms,
        (Err(fault), EmitView::Error(e)) => {
            &&& e.kind == "model_missing"@ <==> fault is ModelMissing
            &&& e.kind == "model"@ <==> !(fault is ModelMissing)
            &&& e.message == fault.message()
            &&& e.ts == now_ms
        },
        _ => false,
    }
}

/// The tags of the two kinds of model errors differ.
proof fn lemma_model_tags()
    ensures
        "model"@ != "model_missing"@,
{
    reveal_strlit("model");
    reveal_strlit("model_missing");
    assert("model"@.len() == 5 && "model_missing"@.len() == 13);
}

/// A speech start opens an utterance at its time, from when partial transcripts are
/// timed. It is silent between utterances; within one it drops the utterance, resets the
/// engine, and says so.
pub proof fn start_opens_an_utterance<E: TranscriptionEngine>(
    m: Machine<E>,
    ts: u64,
    now_ms: u64,
    next: Machine<E>,
    out: Seq<EmitView>,
)
    requires
        m.steps(RequestView::SpeechStart { ts }, now_ms, next, out),
    ensures
        next.mode matches crate::processor::Mode::Speaking { start_ts, last_partial_ts, turn_id }
            && start_ts == ts && last_partial_ts == ts && turn_id is None,
        next.pending == m.pending,
        m.mode is Idle ==> next.engine == m.engine && out.len() == 0,
        m.mode is Speaking ==> {
            &&& E::resets(m.engine, next.engine)
            &&& out.len() == 1
            &&& out[0] matches EmitView::Error(e)
            &&& e.kind == "protocol"@
            &&& e.message
                == "speech.start while already speaking; dropping in-flight utterance"@
            &&& e.ts == now_ms
        },
{
}

/// Speech that comes between utterances is reported as a breach of protocol, at its own
/// time.
pub proof fn stray_speech_is_reported<E: TranscriptionEngine>(
    m: Machine<E>,
    request: RequestView,
    now_ms: u64,
    next: Machine<E>,
    out: Seq<EmitView>,
)
    requires
        m.mode is Idle,
        m.steps(request, now_ms, next, out),
    ensures
        request matches RequestView::SpeechChunk { ts, .. } ==> {
            &&& out.len() == 1
            &&& out[0] matches EmitView::Error(e)
            &&& e.kind == "protocol"@
            &&& e.message == "speech.chunk while idle; ignoring"@
            &&& e.ts == ts
        },
        request matches RequestView::SpeechEnd { ts, .. } ==> {
            &&& out.len() == 1
            &&& out[0] matches EmitView::Error(e)
            &&& e.kind == "protocol"@
            &&& e.message == "speech.end while idle; ignoring"@
            &&& e.ts == ts
        },
{
}

/// What a chunk does within an utterance. The engine is given the chunk. A refusal is
/// reported as it is. Otherwise a guess is asked for exactly when the cadence has passed
/// since the last one, by the times of the chunks; what is guessed is published with the
/// chunk's time, and nothing else is.
pub proof fn chunk_is_given_to_the_engine<E: TranscriptionEngine>(
    m: Machine<E>,
    seq: u64,
    pcm_b64: Seq<char>,
    ts: u64,
    now_ms: u64,
    next: Machine<E>,
    out: Seq<EmitView>,
)
    requires
        m.mode is Speaking,
        m.steps(RequestView::SpeechChunk { seq, pcm_b64, ts }, now_ms, next, out),
    ensures
        next.mode is Speaking,
        next.mode->start_ts == m.mode->start_ts,
        next.mode->turn_id == m.mode->turn_id,
        next.pending == m.pending,
        exists|accepted: E, outcome: Result<(), EngineErrorView>|
            {
                &&& #[trigger] E::accepts(m.engine, seq, pcm_b64, accepted, outcome)
                &&& chunk_is_answered(m, accepted, outcome, ts, next, out)
            },
{
    let last = last_partial(m);
    let (accepted, outcome) = choose|accepted: E, outcome: Result<(), EngineErrorView>|
        {
            &&& #[trigger] E::accepts(m.engine, seq, pcm_b64, accepted, outcome)
            &&& match outcome {
                Ok(_) => m.takes_chunk(accepted, last, ts, next, out),
                Err(e) => {
                    &&& next == (Machine { engine: accepted, ..m })
                    &&& out == seq![EmitView::Error(e.event(ts))]
                },
            }
        };
    if let Err(e) = outcome {
        crate::engine::engine_errors_are_told_by_kind(e, ts);
    }
    assert(chunk_is_answered(m, accepted, outcome, ts, next, out));
}

/// How a chunk is answered that left the engine as `accepted`.
pub open spec fn chunk_is_answered<E: TranscriptionEngine>(
    m: Machine<E>,
    accepted: E,
    outcome: Result<(), EngineErrorView>,
    ts: u64,
    next: Machine<E>,
    out: Seq<EmitView>,
) -> bool {
    match outcome {
        Err(fault) => {
            &&& next.engine == accepted
            &&& last_partial(next) == last_partial(m)
            &&& out.len() == 1
            &&& out[0] matches EmitView::Error(e)
            &&& e.kind == fault.kind()
            &&& e.message == fault.message()
            &&& e.ts == ts
        },
        Ok(_) => if ts >= last_partial(m) + m.cadence || m.cadence == 0 {
            &&& last_partial(next) == ts
            &&& exists|guess: Option<Seq<char>>|
                {
                    &&& #[trigger] E::guesses_fast(accepted, next.engine, guess)
                    &&& guess is None ==> out.len() == 0
                    &&& guess matches Some(text) ==> {
                        &&& out.len() == 1
                        &&& out[0] matches EmitView::Partial(e)
                        &&& e.text == text
                        &&& e.ts == ts
                        &&& e.turn_id == m.mode->turn_id
                    }
                }
        } else {
            &&& next.engine == accepted
            &&& last_partial(next) == last_partial(m)
            &&& out.len() == 0
        },
    }
}

/// The stub's partial transcripts come exactly when they are due, and tell how many
/// chunks of the utterance there were.
pub proof fn stub_partials_come_when_due(
    m: Machine<StubEngine>,
    seq: u64,
    pcm_b64: Seq<char>,
    ts: u64,
    now_ms: u64,
    next: Machine<StubEngine>,
    out: Seq<EmitView>,
)
    requires
        m.mode is Speaking,
        pcm_b64.len() > 0,
        m.engine@.chunks < u64::MAX,
        m.steps(RequestView::SpeechChunk { seq, pcm_b64, ts }, now_ms, next, out),
    ensures
        next.engine@.chunks == m.engine@.chunks + 1,
        out.len() == if ts >= last_partial(m) + m.cadence || m.cadence == 0 {
            1int
        } else {
            0int
        },
        out.len() == 1 ==> (out[0] matches EmitView::Partial(e) && e.ts == ts
            && crate::text::frames(
            e.text,
            "[stub partial "@,
            crate::text::decimal((m.engine@.chunks + 1) as nat),
            "]"@,
        )),
{
    crate::text::lemma_frames(
        "[stub partial "@,
        crate::text::decimal((m.engine@.chunks + 1) as nat),
        "]"@,
    );
}

/// What an utterance of a length from a fifth of a second to half a minute gives when it
/// ends: what the engine makes of it. A transcript is published with the engine's text
/// and confidence, the time of the speech end and its turn, whether it is final or
/// uncertain, and it is final exactly when its confidence reaches the threshold; a final
/// one also tells the duration and what the engine's model is called. A failure is
/// reported as it is, at the time of the speech end.
pub proof fn result_is_what_the_engine_gave<E: TranscriptionEngine>(
    m: Machine<E>,
    duration_ms: u32,
    ts: u64,
    turn_id: Option<Seq<char>>,
    now_ms: u64,
    next: Machine<E>,
    out: Seq<EmitView>,
)
    requires
        m.mode is Speaking,
        200 <= duration_ms <= 30_000,
        m.steps(RequestView::SpeechEnd { duration_ms, ts, turn_id }, now_ms, next, out),
    ensures
        out.len() > 0,
        exists|finished: E, outcome: Result<EngineFinalView, EngineErrorView>|
            {
                &&& #[trigger] E::finalises(m.engine, duration_ms, finished, outcome)
                &&& tells_result(
                    out[0],
                    outcome,
                    m.config.confidence_threshold.value,
                    duration_ms,
                    ts,
                    turn_id,
                )
                &&& out[0] matches EmitView::Final(e) ==> finished.is_named(e.model)
            },
{
    let (closed, said) = choose|closed: E, said: EmitView|
        {
            &&& #[trigger] m.closes(duration_ms, ts, turn_id, closed, said)
            &&& m.settles(closed, said, now_ms, next, out)
        };
    let (finished, outcome, model) = choose|
        finished: E,
        outcome: Result<EngineFinalView, EngineErrorView>,
        model: Seq<char>,
    |
        {
            &&& #[trigger] E::finalises(m.engine, duration_ms, finished, outcome)
            &&& #[trigger] finished.is_named(model)
            &&& said == crate::processor::transcript_event(
                outcome,
                m.config.confidence_threshold.value,
                duration_ms,
                model,
                ts,
                turn_id,
            )
            &&& E::resets(finished, closed)
        };
    assert(out[0] == said);
    assert(E::finalises(m.engine, duration_ms, finished, outcome));
    if let Err(e) = outcome {
        crate::engine::engine_errors_are_told_by_kind(e, ts);
    }
}

/// How the outcome of an utterance is told.
pub open spec fn tells_result(
    told: EmitView,
    outcome: Result<EngineFinalView, EngineErrorView>,
    threshold: crate::confidence::Confidence,
    duration_ms: u32,
    ts: u64,
    turn_id: Option<Seq<char>>,
) -> bool {
    match outcome {
        Ok(f) => match told {
            EmitView::Final(e) => {
                &&& f.confidence.reaches(threshold)
                &&& e.text == f.text
                &&& e.confidence == f.confidence
                &&& e.duration_ms == duration_ms
                &&& e.ts == ts
                &&& e.turn_id == turn_id
            },
            EmitView::Uncertain(e) => {
                &&& !f.confidence.reaches(threshold)
                &&& e.text == f.text
                &&& e.confidence == f.confidence
                &&& e.reason is None
                &&& e.ts == ts
                &&& e.turn_id == turn_id
            },
            _ => false,
        },
        Err(fault) => {
            &&& told matches EmitView::Error(e)
            &&& e.kind == fault.kind()
            &&& e.message == fault.message()
            &&& e.ts == ts
        },
    }
}

/// The stub's result, field by field.
pub proof fn stub_result_field_by_field(
    m: Machine<StubEngine>,
    duration_ms: u32,
    ts: u64,
    turn_id: Option<Seq<char>>,
    now_ms: u64,
    next: Machine<StubEngine>,
    out: Seq<EmitView>,
)
    requires
        m.mode is Speaking,
        200 <= duration_ms <= 30_000,
        m.steps(RequestView::SpeechEnd { duration_ms, ts, turn_id }, now_ms, next, out),
    ensures
        out.len() > 0,
        m.engine@.fixed_confidence.reaches(m.config.confidence_threshold.value) ==> (out[0] matches
            EmitView::Final(e) && {
            &&& crate::text::frames(
                e.text,
                "[stub final "@,
                crate::text::decimal(duration_ms as nat),
                "ms]"@,
            )
            &&& e.confidence == m.engine@.fixed_confidence
            &&& e.duration_ms == duration_ms
            &&& e.model == m.engine@.model
            &&& e.ts == ts
            &&& e.turn_id == turn_id
        }),
        !m.engine@.fixed_confidence.reaches(m.config.confidence_threshold.value) ==> (out[0] matches
            EmitView::Uncertain(e) && {
            &&& crate::text::frames(
                e.text,
                "[stub final "@,
                crate::text::decimal(duration_ms as nat),
                "ms]"@,
            )
            &&& e.confidence == m.engine@.fixed_confidence
            &&& e.reason is None
            &&& e.ts == ts
            &&& e.turn_id == turn_id
        }),
{
    crate::text::lemma_frames(
        "[stub final "@,
        crate::text::decimal(duration_ms as nat),
        "ms]"@,
    );
}

/// An utterance that is shorter than a fifth of a second or longer than half a minute is
/// answered as uncertain, with no text, no confidence and the reason, and it carries its
/// time and turn. The engine is reset and not asked.
pub proof fn short_and_long_utterances_are_invalid<E: TranscriptionEngine>(
    m: Machine<E>,
    duration_ms: u32,
    ts: u64,
    turn_id: Option<Seq<char>>,
    now_ms: u64,
    next: Machine<E>,
    out: Seq<EmitView>,
)
    requires
        m.mode is Speaking,
        duration_ms < 200 || duration_ms > 30_000,
        m.steps(RequestView::SpeechEnd { duration_ms, ts, turn_id }, now_ms, next, out),
    ensures
        out.len() > 0,
        out[0] matches EmitView::Uncertain(e) && {
            &&& e.text.len() == 0
            &&& e.confidence.bits == 0
            &&& e.reason == Some("window_invalid"@)
            &&& e.ts == ts
            &&& e.turn_id == turn_id
        },
        m.pending is None ==> E::resets(m.engine, next.engine),
{
}

/// When an utterance ends, the processor is between utterances and nothing waits. What
/// is published is the answer to the utterance and, where a change of the model waited,
/// what came of that change to that model, at the time of handling.
pub proof fn end_answers_and_makes_the_change<E: TranscriptionEngine>(
    m: Machine<E>,
    duration_ms: u32,
    ts: u64,
    turn_id: Option<Seq<char>>,
    now_ms: u64,
    next: Machine<E>,
    out: Seq<EmitView>,
)
    requires
        m.mode is Speaking,
        m.steps(RequestView::SpeechEnd { duration_ms, ts, turn_id }, now_ms, next, out),
    ensures
        next.mode is Idle,
        next.pending is None,
        m.pending is None ==> out.len() == 1,
        m.pending matches Some(name) ==> out.len() == 2 && exists|
            closed: E,
            outcome: Result<u64, EngineErrorView>,
        |
            #[trigger] E::reloads(closed, name, next.engine, outcome) && tells_change(
                out[1],
                name,
                outcome,
                now_ms,
            ),
{
    lemma_model_tags();
    let (closed, said) = choose|closed: E, said: EmitView|
        {
            &&& #[trigger] m.closes(duration_ms, ts, turn_id, closed, said)
            &&& m.settles(closed, said, now_ms, next, out)
        };
    if let Some(name) = m.pending {
        let between = m.idle_with(closed);
        let told = choose|told: EmitView|
            {
                &&& #[trigger] between.changes_model(name, now_ms, next, told)
                &&& out == seq![said].push(told)
            };
        let outcome = choose|outcome: Result<u64, EngineErrorView>|
            {
                &&& #[trigger] E::reloads(between.engine, name, next.engine, outcome)
                &&& told == crate::processor::reload_event(name, outcome, now_ms)
            };
        assert(out[1] == told);
        assert(E::reloads(closed, name, next.engine, outcome));
        assert(tells_change(out[1], name, outcome, now_ms));
    }
}

/// Between utterances a change to a model that may be loaded is made at once, and what
/// came of it is told at the time of handling. The processor stays between utterances.
pub proof fn change_is_made_at_once_between_utterances<E: TranscriptionEngine>(
    m: Machine<E>,
    model: Seq<char>,
    now_ms: u64,
    next: Machine<E>,
    out: Seq<EmitView>,
)
    requires
        m.mode is Idle,
        model == "distil-small.en"@ || model == "small.en"@ || model == "medium.en"@ || model
            == "large-v3-turbo"@,
        m.steps(RequestView::ReloadModel { model }, now_ms, next, out),
    ensures
        next.mode is Idle,
        next.pending == m.pending,
        out.len() == 1,
        exists|outcome: Result<u64, EngineErrorView>| #[trigger]
            E::reloads(m.engine, model, next.engine, outcome) && tells_change(
                out[0],
                model,
                outcome,
                now_ms,
            ),
{
    crate::config::four_models_are_allowed(model);
    lemma_model_tags();
    let told = choose|told: EmitView|
        {
            &&& #[trigger] m.changes_model(model, now_ms, next, told)
            &&& out == seq![told]
        };
    let outcome = choose|outcome: Result<u64, EngineErrorView>|
        {
            &&& #[trigger] E::reloads(m.engine, model, next.engine, outcome)
            &&& told == crate::processor::reload_event(model, outcome, now_ms)
        };
    assert(tells_change(out[0], model, outcome, now_ms));
}

/// Within an utterance a change to a model that may be loaded waits in silence, and the
/// utterance goes on as it was; a model that may not be loaded is refused at any time,
/// with its name in the message, and nothing changes.
pub proof fn change_waits_or_is_refused<E: TranscriptionEngine>(
    m: Machine<E>,
    model: Seq<char>,
    now_ms: u64,
    next: Machine<E>,
    out: Seq<EmitView>,
)
    requires
        m.steps(RequestView::ReloadModel { model }, now_ms, next, out),
    ensures
        crate::config::allowed(model) && m.mode is Speaking ==> {
            &&& out.len() == 0
            &&& next.pending == Some(model)
            &&& next.engine == m.engine
            &&& next.mode == m.mode
        },
        !crate::config::allowed(model) ==> {
            &&& next == m
            &&& out.len() == 1
            &&& out[0] matches EmitView::Error(e)
            &&& e.kind == "model"@
            &&& e.ts == now_ms
            &&& crate::text::frames(
                e.message,
                "unknown model "@ + crate::text::debug_text(model),
                "; allowed: "@,
                crate::text::debug_list(
                    seq![
                        "distil-small.en"@,
                        "small.en"@,
                        "medium.en"@,
                        "large-v3-turbo"@,
                    ],
                ),
            )
        },
{
    crate::config::four_models_are_allowed(model);
    crate::config::complaints_hold_what_is_wrong(crate::config::unknown_model(model));
}

} // verus!
