//! The order in which a transcript is asked of a speech model.
//!
//! The model does the work, one stage after another, and each reply decides what
//! is asked next: the inference is run once, then the text of every segment is
//! read, and after it the probability of every token of the segment.

use crate::confidence::Confidence;
use crate::engine::{EngineError, EngineErrorView, EngineFinal, EngineFinalView};
use crate::text::{decimal_text, trim_text};
use vstd::prelude::*;

verus! {

/// A step of inference, which the speech model performs and which may fail.
#[derive(Debug, Clone, Copy, PartialEq, Eq)]
pub enum InferenceStage {
    /// Taking the lock of the engine.
    Lock,
    /// Making the state of the inference.
    CreateState,
    /// The inference.
    Full,
    /// Counting the segments.
    Segments,
    /// Reading the text of a segment.
    SegmentText(u32),
    /// Counting the tokens of a segment.
    Tokens(u32),
    /// Reading the probability of a token of a segment.
    TokenProb(u32, u32),
}

impl InferenceStage {
    /// What the stage is called in messages.
    pub open spec fn label(self) -> Seq<char> {
        match self {
            InferenceStage::Lock => "ctx poisoned"@,
            InferenceStage::CreateState => "create_state"@,
            InferenceStage::Full => "full inference"@,
            InferenceStage::Segments => "n_segments"@,
            InferenceStage::SegmentText(i) => "seg text "@ + crate::text::decimal(i as nat),
            InferenceStage::Tokens(i) => "n_tokens seg "@ + crate::text::decimal(i as nat),
            InferenceStage::TokenProb(i, t) => "token_prob "@ + crate::text::decimal(i as nat)
                + "/"@ + crate::text::decimal(t as nat),
        }
    }
}

/// The error for a stage of inference that failed.
pub fn inference_error(stage: InferenceStage, cause: &str) -> (error: EngineError)
    ensures
        error@ == EngineErrorView::Internal(stage.label() + ": "@ + cause@),
{
    let label = match stage {
        InferenceStage::Lock => String::from_str("ctx poisoned"),
        InferenceStage::CreateState => String::from_str("create_state"),
        InferenceStage::Full => String::from_str("full inference"),
        InferenceStage::Segments => String::from_str("n_segments"),
        InferenceStage::SegmentText(i) => String::from_str("seg text ").concat(
            decimal_text(i as u64).as_str(),
        ),
        InferenceStage::Tokens(i) => String::from_str("n_tokens seg ").concat(
            decimal_text(i as u64).as_str(),
        ),
        InferenceStage::TokenProb(i, t) => String::from_str("token_prob ").concat(
            decimal_text(i as u64).as_str(),
        ).concat("/").concat(decimal_text(t as u64).as_str()),
    };
    EngineError::Internal(label.concat(": ").concat(cause))
}

/// A transcript to which a segment is added: its text without the white space
/// around it, after a space unless the transcript is still empty.
pub open spec fn with_segment(text: Seq<char>, segment: Seq<char>) -> Seq<char> {
    if text.len() == 0 {
        crate::text::trimmed(segment)
    } else {
        text + " "@ + crate::text::trimmed(segment)
    }
}

/// The transcript of segments.
pub open spec fn transcript_text(segments: Seq<Seq<char>>) -> Seq<char>
    decreases segments.len(),
{
    if segments.len() == 0 {
        Seq::empty()
    } else {
        with_segment(transcript_text(segments.drop_last()), segments.last())
    }
}

/// What inference gives of an utterance: the text and the number of tokens.
#[derive(Debug)]
pub struct Transcript {
    /// The text.
    pub text: String,
    /// Number of tokens, up to the largest count.
    pub token_count: i32,
}

/// A [`Transcript`] with its text as a sequence of characters.
#[verifier::ext_equal]
pub struct TranscriptView {
    pub text: Seq<char>,
    pub token_count: i32,
}

impl View for Transcript {
    type V = TranscriptView;

    open spec fn view(&self) -> TranscriptView {
        TranscriptView { text: self.text@, token_count: self.token_count }
    }
}

impl Transcript {
    /// The finished transcript. Its confidence is `average`, the average
    /// probability of its tokens, brought into `[0.0, 1.0]`, or zero when it has
    /// no tokens.
    pub fn finish(self, average: Confidence) -> (transcript: EngineFinal)
        ensures
            transcript@ == (EngineFinalView {
                text: self@.text,
                confidence: if self@.token_count > 0 {
                    average.clamped()
                } else {
                    Confidence { bits: 0 }
                },
            }),
    {
        let confidence = if self.token_count > 0 {
            average.clamp_to_unit()
        } else {
            Confidence::from_bits(0)
        };
        EngineFinal { text: self.text, confidence }
    }
}

/// What the speech model says to a stage.
#[derive(Debug)]
pub enum Reply {
    /// The stage is done.
    Done,
    /// So many segments or tokens there are.
    Count(i32),
    /// The text of the segment.
    Text(String),
    /// The probability of the token was read.
    Probability,
    /// The stage failed.
    Failed(String),
}

/// A [`Reply`] with its texts as sequences of characters.
pub enum ReplyView {
    Done,
    Count(i32),
    Text(Seq<char>),
    Probability,
    Failed(Seq<char>),
}

impl View for Reply {
    type V = ReplyView;

    open spec fn view(&self) -> ReplyView {
        match self {
            Reply::Done => ReplyView::Done,
            Reply::Count(n) => ReplyView::Count(*n),
            Reply::Text(text) => ReplyView::Text(text@),
            Reply::Probability => ReplyView::Probability,
            Reply::Failed(cause) => ReplyView::Failed(cause@),
        }
    }
}

/// An inference under way: the stage that it waits for, how many segments there
/// are, how many tokens the segment has, and the transcript so far.
#[derive(Debug)]
pub struct Inference {
    stage: InferenceStage,
    segments: i32,
    tokens: i32,
    transcript: Transcript,
}

/// What an [`Inference`] holds.
#[verifier::ext_equal]
pub struct InferenceView {
    pub stage: InferenceStage,
    pub segments: i32,
    pub tokens: i32,
    pub transcript: TranscriptView,
}

impl View for Inference {
    type V = InferenceView;

    closed spec fn view(&self) -> InferenceView {
        InferenceView {
            stage: self.stage,
            segments: self.segments,
            tokens: self.tokens,
            transcript: self.transcript@,
        }
    }
}

/// What comes of a reply.
#[derive(Debug)]
pub enum Progress {
    /// The next stage is to be performed.
    Ask(Inference),
    /// There is nothing left to ask.
    Finished(Result<Transcript, EngineError>),
}

/// A [`Progress`] with the views of what it holds.
#[verifier::ext_equal]
pub enum ProgressView {
    Ask(InferenceView),
    Finished(Result<TranscriptView, EngineErrorView>),
}

impl View for Progress {
    type V = ProgressView;

    open spec fn view(&self) -> ProgressView {
        match self {
            Progress::Ask(inference) => ProgressView::Ask(inference@),
            Progress::Finished(Ok(transcript)) => ProgressView::Finished(Ok(transcript@)),
            Progress::Finished(Err(e)) => ProgressView::Finished(Err(e@)),
        }
    }
}

/// One more than a count, up to the largest one.
pub open spec fn counted(count: i32) -> i32 {
    if count < i32::MAX {
        (count + 1) as i32
    } else {
        i32::MAX
    }
}

impl InferenceView {
    /// An inference that has asked nothing yet.
    pub open spec fn start() -> InferenceView {
        InferenceView {
            stage: InferenceStage::Lock,
            segments: 0,
            tokens: 0,
            transcript: TranscriptView { text: Seq::empty(), token_count: 0 },
        }
    }

    /// The segment and the token that are waited for are among those that there
    /// are.
    pub open spec fn wf(self) -> bool {
        match self.stage {
            InferenceStage::SegmentText(i) => i < self.segments,
            InferenceStage::Tokens(i) => i < self.segments,
            InferenceStage::TokenProb(i, t) => i < self.segments && t < self.tokens,
            _ => true,
        }
    }

    /// Goes on to a segment, or ends after the last one.
    pub open spec fn to_segment(self, i: int) -> ProgressView {
        if i < self.segments {
            ProgressView::Ask(InferenceView { stage: InferenceStage::SegmentText(i as u32), ..self })
        } else {
            ProgressView::Finished(Ok(self.transcript))
        }
    }

    /// Goes on to a token of a segment, or to the next segment after the last
    /// one.
    pub open spec fn to_token(self, i: int, t: int) -> ProgressView {
        if t < self.tokens {
            ProgressView::Ask(
                InferenceView { stage: InferenceStage::TokenProb(i as u32, t as u32), ..self },
            )
        } else {
            self.to_segment(i + 1)
        }
    }

    /// What comes of a reply. One that does not fit the stage is passed over.
    pub open spec fn next(self, reply: ReplyView) -> ProgressView {
        match (self.stage, reply) {
            (_, ReplyView::Failed(cause)) => ProgressView::Finished(
                Err(EngineErrorView::Internal(self.stage.label() + ": "@ + cause)),
            ),
            (InferenceStage::Lock, ReplyView::Done) => ProgressView::Ask(
                InferenceView { stage: InferenceStage::CreateState, ..self },
            ),
            (InferenceStage::CreateState, ReplyView::Done) => ProgressView::Ask(
                InferenceView { stage: InferenceStage::Full, ..self },
            ),
            (InferenceStage::Full, ReplyView::Done) => ProgressView::Ask(
                InferenceView { stage: InferenceStage::Segments, ..self },
            ),
            (InferenceStage::Segments, ReplyView::Count(n)) => InferenceView {
                segments: n,
                ..self
            }.to_segment(0),
            (InferenceStage::SegmentText(i), ReplyView::Text(text)) => ProgressView::Ask(
                InferenceView {
                    stage: InferenceStage::Tokens(i),
                    transcript: TranscriptView {
                        text: with_segment(self.transcript.text, text),
                        ..self.transcript
                    },
                    ..self
                },
            ),
            (InferenceStage::Tokens(i), ReplyView::Count(n)) => InferenceView {
                tokens: n,
                ..self
            }.to_token(i as int, 0),
            (InferenceStage::TokenProb(i, t), ReplyView::Probability) => InferenceView {
                transcript: TranscriptView {
                    token_count: counted(self.transcript.token_count),
                    ..self.transcript
                },
                ..self
            }.to_token(i as int, t + 1),
            _ => ProgressView::Ask(self),
        }
    }
}

impl Inference {
    /// An inference that has asked nothing yet.
    pub fn start() -> (inference: Inference)
        ensures
            inference@ == InferenceView::start(),
            inference@.wf(),
    {
        Inference {
            stage: InferenceStage::Lock,
            segments: 0,
            tokens: 0,
            transcript: Transcript { text: String::new(), token_count: 0 },
        }
    }

    /// The stage that is to be performed.
    pub fn stage(&self) -> (stage: InferenceStage)
        ensures
            stage == self@.stage,
    {
        self.stage
    }

    fn to_segment(self, i: u32) -> (progress: Progress)
        ensures
            progress@ == self@.to_segment(i as int),
            progress matches Progress::Ask(inference) ==> inference@.wf(),
    {
        if (i as i64) < self.segments as i64 {
            Progress::Ask(Inference { stage: InferenceStage::SegmentText(i), ..self })
        } else {
            Progress::Finished(Ok(self.transcript))
        }
    }

    fn to_token(self, i: u32, t: u32) -> (progress: Progress)
        requires
            i < self@.segments,
        ensures
            progress@ == self@.to_token(i as int, t as int),
            progress matches Progress::Ask(inference) ==> inference@.wf(),
    {
        if (t as i64) < self.tokens as i64 {
            Progress::Ask(Inference { stage: InferenceStage::TokenProb(i, t), ..self })
        } else {
            self.to_segment(i + 1)
        }
    }

    /// Takes the reply to the stage that was performed. A reply that does not fit
    /// the stage is passed over: the stage is asked for again.
    pub fn step(self, reply: Reply) -> (progress: Progress)
        requires
            self@.wf(),
        ensures
            progress@ == self@.next(reply@),
            progress matches Progress::Ask(inference) ==> inference@.wf(),
    {
        match (self.stage, reply) {
            (stage, Reply::Failed(cause)) => Progress::Finished(
                Err(inference_error(stage, cause.as_str())),
            ),
            (InferenceStage::Lock, Reply::Done) => Progress::Ask(
                Inference { stage: InferenceStage::CreateState, ..self },
            ),
            (InferenceStage::CreateState, Reply::Done) => Progress::Ask(
                Inference { stage: InferenceStage::Full, ..self },
            ),
            (InferenceStage::Full, Reply::Done) => Progress::Ask(
                Inference { stage: InferenceStage::Segments, ..self },
            ),
            (InferenceStage::Segments, Reply::Count(n)) => {
                Inference { segments: n, ..self }.to_segment(0)
            },
            (InferenceStage::SegmentText(i), Reply::Text(text)) => {
                let transcript = Transcript {
                    text: append_segment(self.transcript.text, text.as_str()),
                    token_count: self.transcript.token_count,
                };
                Progress::Ask(
                    Inference {
                        stage: InferenceStage::Tokens(i),
                        segments: self.segments,
                        tokens: self.tokens,
                        transcript,
                    },
                )
            },
            (InferenceStage::Tokens(i), Reply::Count(n)) => {
                Inference { tokens: n, ..self }.to_token(i, 0)
            },
            (InferenceStage::TokenProb(i, t), Reply::Probability) => {
                let transcript = Transcript {
                    text: self.transcript.text,
                    token_count: count_token(self.transcript.token_count),
                };
                Inference {
                    stage: self.stage,
                    segments: self.segments,
                    tokens: self.tokens,
                    transcript,
                }.to_token(i, t + 1)
            },
            _ => Progress::Ask(self),
        }
    }
}

/// Adds a segment to the text of a transcript.
fn append_segment(text: String, segment: &str) -> (longer: String)
    ensures
        longer@ == with_segment(text@, segment@),
{
    let trimmed = trim_text(segment);
    if text.as_str().is_empty() {
        trimmed
    } else {
        text.concat(" ").concat(trimmed.as_str())
    }
}

/// Counts one token more, up to the largest count.
fn count_token(count: i32) -> (more: i32)
    ensures
        more == counted(count),
{
    if count < i32::MAX {
        count + 1
    } else {
        i32::MAX
    }
}

/// What comes of several replies, one after another.
pub open spec fn play(progress: ProgressView, replies: Seq<ReplyView>) -> ProgressView
    decreases replies.len(),
{
    if replies.len() == 0 {
        progress
    } else {
        match progress {
            ProgressView::Ask(v) => play(v.next(replies[0]), replies.skip(1)),
            ProgressView::Finished(_) => progress,
        }
    }
}

/// A segment as the model holds it: its text and the number of its tokens.
pub struct Segment {
    pub text: Seq<char>,
    pub tokens: i32,
}

/// The number of tokens of several segments.
pub open spec fn token_total(segments: Seq<Segment>) -> int
    decreases segments.len(),
{
    if segments.len() == 0 {
        0
    } else {
        token_total(segments.drop_last()) + segments.last().tokens
    }
}

/// What the model replies when segments are read: to each its text, the number
/// of its tokens, and so many probabilities.
pub open spec fn reading(segments: Seq<Segment>) -> Seq<ReplyView>
    decreases segments.len(),
{
    if segments.len() == 0 {
        Seq::empty()
    } else {
        reading(segments.drop_last()) + seq![
            ReplyView::Text(segments.last().text),
            ReplyView::Count(segments.last().tokens),
        ] + Seq::new(segments.last().tokens as nat, |i: int| ReplyView::Probability)
    }
}

/// The texts of segments.
pub open spec fn texts(segments: Seq<Segment>) -> Seq<Seq<char>> {
    segments.map_values(|s: Segment| s.text)
}

/// A count as the inference keeps it, up to the largest one.
pub open spec fn kept_count(count: int) -> i32 {
    if count <= i32::MAX {
        count as i32
    } else {
        i32::MAX
    }
}

/// Several replies and then several more are the replies in a row.
proof fn lemma_play_concat(progress: ProgressView, a: Seq<ReplyView>, b: Seq<ReplyView>)
    ensures
        play(progress, a + b) == play(play(progress, a), b),
    decreases a.len(),
{
    if a.len() == 0 {
        assert(a + b =~= b);
    } else {
        match progress {
            ProgressView::Ask(v) => {
                assert((a + b).skip(1) =~= a.skip(1) + b);
                lemma_play_concat(v.next(a[0]), a.skip(1), b);
            },
            ProgressView::Finished(_) => {
                lemma_play_finished(progress, b);
            },
        }
    }
}

/// When there is nothing left to ask, replies change nothing.
proof fn lemma_play_finished(progress: ProgressView, replies: Seq<ReplyView>)
    requires
        progress is Finished,
    ensures
        play(progress, replies) == progress,
{
}

/// The probabilities of the tokens of a segment are read one by one, and then
/// the next segment follows.
proof fn lemma_tokens(v: InferenceView, i: u32, t: int)
    requires
        0 <= t <= v.tokens,
        i < v.segments,
        v.transcript.token_count >= 0,
    ensures
        play(
            v.to_token(i as int, t),
            Seq::new((v.tokens - t) as nat, |k: int| ReplyView::Probability),
        ) == (InferenceView {
            transcript: TranscriptView {
                token_count: kept_count(v.transcript.token_count + v.tokens - t),
                ..v.transcript
            },
            ..v
        }).to_segment(i + 1),
    decreases v.tokens - t,
{
    let replies = Seq::new((v.tokens - t) as nat, |k: int| ReplyView::Probability);
    if t < v.tokens {
        let more = InferenceView {
            stage: InferenceStage::TokenProb(i, t as u32),
            transcript: TranscriptView {
                token_count: counted(v.transcript.token_count),
                ..v.transcript
            },
            ..v
        };
        assert(replies.skip(1) =~= Seq::new(
            (v.tokens - (t + 1)) as nat,
            |k: int| ReplyView::Probability,
        ));
        lemma_tokens(more, i, t + 1);
    }
}

/// Where an inference stands that has read the first `k` of the segments.
spec fn after_reading(segments: Seq<Segment>, k: int) -> InferenceView {
    InferenceView {
        stage: InferenceStage::Segments,
        segments: segments.len() as i32,
        tokens: if k > 0 {
            segments[k - 1].tokens
        } else {
            0
        },
        transcript: TranscriptView {
            text: transcript_text(texts(segments.take(k))),
            token_count: kept_count(token_total(segments.take(k))),
        },
    }
}

/// There are no fewer tokens than none.
proof fn lemma_token_total(segments: Seq<Segment>)
    requires
        forall|k: int| 0 <= k < segments.len() ==> (#[trigger] segments[k]).tokens >= 0,
    ensures
        token_total(segments) >= 0,
    decreases segments.len(),
{
    if segments.len() > 0 {
        lemma_token_total(segments.drop_last());
    }
}

/// The first `k` segments are read in order.
proof fn lemma_reading(segments: Seq<Segment>, k: int)
    requires
        0 <= k <= segments.len() <= i32::MAX,
        forall|j: int| 0 <= j < segments.len() ==> (#[trigger] segments[j]).tokens >= 0,
    ensures
        play(after_reading(segments, 0).to_segment(0), reading(segments.take(k))) == after_reading(
            segments,
            k,
        ).to_segment(k),
    decreases k,
{
    let from = after_reading(segments, 0).to_segment(0);
    if k == 0 {
        assert(segments.take(0).len() == 0);
    } else {
        lemma_reading(segments, k - 1);
        let part = segments.take(k);
        let last = segments[k - 1];
        assert(part.drop_last() =~= segments.take(k - 1));
        assert(part.last() == last);
        assert(texts(part).drop_last() =~= texts(segments.take(k - 1)));
        assert(texts(part).last() == last.text);
        let head = seq![ReplyView::Text(last.text), ReplyView::Count(last.tokens)];
        let tail = Seq::new(last.tokens as nat, |i: int| ReplyView::Probability);
        lemma_play_concat(from, reading(segments.take(k - 1)) + head, tail);
        lemma_play_concat(from, reading(segments.take(k - 1)), head);
        let before = after_reading(segments, k - 1);
        let i = (k - 1) as u32;
        lemma_token_total(segments.take(k - 1));
        let heard = InferenceView {
            stage: InferenceStage::Tokens(i),
            tokens: last.tokens,
            transcript: TranscriptView {
                text: with_segment(before.transcript.text, last.text),
                ..before.transcript
            },
            ..before
        };
        assert(head.skip(1) =~= seq![ReplyView::Count(last.tokens)]);
        assert(head.skip(1).skip(1) =~= Seq::<ReplyView>::empty());
        assert(play(before.to_segment(k - 1), head) == heard.to_token(i as int, 0)) by {
            reveal_with_fuel(play, 3);
        }
        lemma_tokens(heard, i, 0);
    }
}

/// When every stage succeeds, every segment is read, in order, and every token of
/// it: the transcript holds the texts of all segments and the number of all
/// tokens.
pub proof fn every_segment_is_read(segments: Seq<Segment>)
    requires
        segments.len() <= i32::MAX,
        forall|k: int| 0 <= k < segments.len() ==> (#[trigger] segments[k]).tokens >= 0,
    ensures
        play(
            ProgressView::Ask(InferenceView::start()),
            seq![
                ReplyView::Done,
                ReplyView::Done,
                ReplyView::Done,
                ReplyView::Count(segments.len() as i32),
            ] + reading(segments),
        ) == ProgressView::Finished(
            Ok(
                TranscriptView {
                    text: transcript_text(texts(segments)),
                    token_count: kept_count(token_total(segments)),
                },
            ),
        ),
{
    let count = ReplyView::Count(segments.len() as i32);
    let opening = seq![ReplyView::Done, ReplyView::Done, ReplyView::Done, count];
    let start = ProgressView::Ask(InferenceView::start());
    lemma_play_concat(start, opening, reading(segments));
    assert(texts(segments.take(0)) =~= Seq::<Seq<char>>::empty());
    assert(segments.take(0).len() == 0);
    assert(opening.skip(1) =~= seq![ReplyView::Done, ReplyView::Done, count]);
    assert(opening.skip(1).skip(1) =~= seq![ReplyView::Done, count]);
    assert(opening.skip(1).skip(1).skip(1) =~= seq![count]);
    assert(opening.skip(1).skip(1).skip(1).skip(1) =~= Seq::<ReplyView>::empty());
    assert(play(start, opening) == after_reading(segments, 0).to_segment(0)) by {
        reveal_with_fuel(play, 5);
    }
    lemma_reading(segments, segments.len() as int);
    assert(segments.take(segments.len() as int) =~= segments);
}

/// A stage that fails ends the inference with an error that names the stage.
pub proof fn failure_names_the_stage(v: InferenceView, cause: Seq<char>, more: Seq<ReplyView>)
    ensures
        play(ProgressView::Ask(v), seq![ReplyView::Failed(cause)] + more)
            == ProgressView::Finished(
            Err(EngineErrorView::Internal(v.stage.label() + ": "@ + cause)),
        ),
{
    let failure = seq![ReplyView::Failed(cause)];
    lemma_play_concat(ProgressView::Ask(v), failure, more);
    assert(failure.skip(1) =~= Seq::<ReplyView>::empty());
    reveal_with_fuel(play, 2);
    lemma_play_finished(play(ProgressView::Ask(v), failure), more);
}

/// The trimmed texts of segments, in order.
pub open spec fn trimmed_texts(segments: Seq<Seq<char>>) -> Seq<Seq<char>> {
    segments.map_values(|s: Seq<char>| crate::text::trimmed(s))
}

/// A transcript is the trimmed texts of its segments joined by single spaces, from
/// the first segment on that is more than white space. Segments before that one
/// leave no trace, and every later one is there.
pub proof fn transcript_joins_its_segments(segments: Seq<Seq<char>>, blank: int)
    requires
        0 <= blank <= segments.len(),
        forall|i: int|
            0 <= i < blank ==> crate::text::trimmed(#[trigger] segments[i]).len() == 0,
        blank < segments.len() ==> crate::text::trimmed(segments[blank]).len() > 0,
    ensures
        transcript_text(segments) == crate::text::joined(
            trimmed_texts(segments).skip(blank),
            seq![' '],
        ),
    decreases segments.len(),
{
    reveal_strlit(" ");
    assert(" "@ =~= seq![' ']);
    let parts = trimmed_texts(segments).skip(blank);
    if segments.len() > 0 {
        let before = segments.drop_last();
        let last = crate::text::trimmed(segments.last());
        if blank == segments.len() {
            transcript_joins_its_segments(before, blank - 1);
            assert(trimmed_texts(before).skip(blank - 1) =~= Seq::<Seq<char>>::empty());
            assert(parts =~= Seq::<Seq<char>>::empty());
            assert(segments.last() == segments[blank - 1]);
            assert(last =~= Seq::<char>::empty());
        } else {
            assert forall|i: int| 0 <= i < blank implies crate::text::trimmed(
                #[trigger] before[i],
            ).len() == 0 by {
                assert(before[i] == segments[i]);
            }
            transcript_joins_its_segments(before, blank);
            let earlier = trimmed_texts(before).skip(blank);
            assert(parts.drop_last() =~= earlier);
            assert(parts.last() == last);
            if blank == segments.len() - 1 {
                assert(earlier =~= Seq::<Seq<char>>::empty());
            } else {
                assert(earlier[0] == crate::text::trimmed(segments[blank]));
                lemma_joined_length(earlier, seq![' ']);
                assert(parts.len() > 1);
            }
        }
    }
}

/// Joined texts are at least as long as the first of them.
proof fn lemma_joined_length(parts: Seq<Seq<char>>, between: Seq<char>)
    requires
        parts.len() > 0,
    ensures
        crate::text::joined(parts, between).len() >= parts[0].len(),
    decreases parts.len(),
{
    if parts.len() > 1 {
        lemma_joined_length(parts.drop_last(), between);
    }
}

/// A segment is added whole to a transcript that is not empty, whatever the
/// transcript holds: the transcript stays, a space follows, and then the trimmed
/// text.
pub proof fn segment_is_added_whole(segments: Seq<Seq<char>>, segment: Seq<char>)
    requires
        transcript_text(segments).len() > 0,
    ensures
        crate::text::frames(
            transcript_text(segments.push(segment)),
            transcript_text(segments),
            seq![' '],
            crate::text::trimmed(segment),
        ),
{
    reveal_strlit(" ");
    assert(" "@ =~= seq![' ']);
    assert(segments.push(segment).drop_last() =~= segments);
    crate::text::lemma_frames(
        transcript_text(segments),
        seq![' '],
        crate::text::trimmed(segment),
    );
}

/// What a whole inference gives: the joined texts of all segments, and the number of
/// all tokens as far as it can be counted.
pub proof fn inference_gives_all_segments(segments: Seq<Segment>, blank: int)
    requires
        segments.len() <= i32::MAX,
        forall|k: int| 0 <= k < segments.len() ==> (#[trigger] segments[k]).tokens >= 0,
        0 <= blank <= segments.len(),
        forall|i: int|
            0 <= i < blank ==> crate::text::trimmed((#[trigger] segments[i]).text).len() == 0,
        blank < segments.len() ==> crate::text::trimmed(segments[blank].text).len() > 0,
    ensures
        play(
            ProgressView::Ask(InferenceView::start()),
            seq![
                ReplyView::Done,
                ReplyView::Done,
                ReplyView::Done,
                ReplyView::Count(segments.len() as i32),
            ] + reading(segments),
        ) matches ProgressView::Finished(Ok(transcript)) && {
            &&& transcript.text == crate::text::joined(
                Seq::new(
                    (segments.len() - blank) as nat,
                    |i: int| crate::text::trimmed(segments[blank + i].text),
                ),
                seq![' '],
            )
            &&& token_total(segments) <= i32::MAX ==> transcript.token_count == token_total(
                segments,
            )
            &&& token_total(segments) > i32::MAX ==> transcript.token_count == i32::MAX
        },
{
    every_segment_is_read(segments);
    let all = texts(segments);
    assert forall|i: int| 0 <= i < blank implies crate::text::trimmed(#[trigger] all[i]).len()
        == 0 by {
        assert(all[i] == segments[i].text);
    }
    transcript_joins_its_segments(all, blank);
    assert(trimmed_texts(all).skip(blank) =~= Seq::new(
        (segments.len() - blank) as nat,
        |i: int| crate::text::trimmed(segments[blank + i].text),
    ));
    lemma_token_total(segments);
}

/// The tokens of segments are those of each, taken together.
pub proof fn tokens_add_up(a: Seq<Segment>, b: Seq<Segment>)
    ensures
        token_total(a + b) == token_total(a) + token_total(b),
        a.len() == 1 ==> token_total(a) == a[0].tokens,
    decreases b.len(),
{
    reveal_with_fuel(token_total, 2);
    if b.len() == 0 {
        assert(a + b =~= a);
    } else {
        assert((a + b).drop_last() =~= a + b.drop_last());
        tokens_add_up(a, b.drop_last());
    }
    if a.len() == 1 {
        assert(a.drop_last() =~= Seq::<Segment>::empty());
    }
}

/// A reply to another question changes nothing, and a count that is not above zero
/// is one of nothing: without segments the inference ends with what it has, and
/// without tokens the next segment is asked for, or the end is reached.
pub proof fn inference_passes_over_and_ends(v: InferenceView, n: i32)
    requires
        n <= 0,
    ensures
        v.stage is Segments ==> v.next(ReplyView::Count(n)) == ProgressView::Finished(
            Ok(v.transcript),
        ),
        v.stage matches InferenceStage::Tokens(i) ==> match v.next(ReplyView::Count(n)) {
            ProgressView::Ask(next) => {
                &&& next.stage == InferenceStage::SegmentText((i + 1) as u32)
                &&& i + 1 < v.segments
                &&& next.transcript == v.transcript
                &&& next.segments == v.segments
            },
            ProgressView::Finished(end) => i + 1 >= v.segments && end == Ok::<_, EngineErrorView>(
                v.transcript,
            ),
        },
        !(v.stage is Segments) && !(v.stage is Tokens) ==> v.next(ReplyView::Count(n))
            == ProgressView::Ask(v),
        !(v.stage is SegmentText) ==> v.next(ReplyView::Text(v.transcript.text))
            == ProgressView::Ask(v),
        !(v.stage is TokenProb) ==> v.next(ReplyView::Probability) == ProgressView::Ask(v),
        !(v.stage is Lock || v.stage is CreateState || v.stage is Full) ==> v.next(ReplyView::Done)
            == ProgressView::Ask(v),
{
}

/// The name of a stage says which segment and which token it is about.
pub proof fn stage_names_hold_the_place(i: u32, t: u32)
    ensures
        crate::text::frames(
            InferenceStage::SegmentText(i).label(),
            "seg text "@,
            crate::text::decimal(i as nat),
            Seq::empty(),
        ),
        crate::text::frames(
            InferenceStage::Tokens(i).label(),
            "n_tokens seg "@,
            crate::text::decimal(i as nat),
            Seq::empty(),
        ),
        crate::text::frames(
            InferenceStage::TokenProb(i, t).label(),
            "token_prob "@ + crate::text::decimal(i as nat),
            "/"@,
            crate::text::decimal(t as nat),
        ),
{
    let n = crate::text::decimal(i as nat);
    let none = Seq::<char>::empty();
    crate::text::lemma_frames("seg text "@, n, none);
    crate::text::lemma_frames("n_tokens seg "@, n, none);
    crate::text::lemma_frames("token_prob "@ + n, "/"@, crate::text::decimal(t as nat));
    assert("seg text "@ + n + none =~= "seg text "@ + n);
    assert("n_tokens seg "@ + n + none =~= "n_tokens seg "@ + n);
}

/// A finished transcript keeps its text. Its confidence is the average where there are
/// tokens and the average lies within zero and one, and never leaves these bounds.
pub proof fn finished_transcript_keeps_text_and_average(
    transcript: Transcript,
    average: Confidence,
    result: EngineFinal,
)
    requires
        call_ensures(Transcript::finish, (transcript, average), result),
    ensures
        result.text@ == transcript.text@,
        transcript.token_count <= 0 ==> result.confidence.bits == 0,
        transcript.token_count > 0 && average.bits <= crate::confidence::ONE_BITS
            ==> result.confidence == average,
        transcript.token_count > 0 && crate::confidence::ONE_BITS < average.bits
            <= crate::confidence::INFINITY_BITS ==> result.confidence.bits
            == crate::confidence::ONE_BITS,
        transcript.token_count > 0 && crate::confidence::SIGN_BIT < average.bits
            <= crate::confidence::SIGN_BIT + crate::confidence::INFINITY_BITS
            ==> result.confidence.bits == 0,
{
    crate::confidence::lemma_scaled_order(0, average.magnitude());
    crate::confidence::lemma_scaled_order(
        crate::confidence::ONE_BITS as nat,
        average.magnitude(),
    );
    crate::confidence::lemma_scaled_order(
        average.magnitude(),
        crate::confidence::ONE_BITS as nat,
    );
    crate::confidence::lemma_one();
}

} // verus!
