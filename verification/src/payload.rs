//! The payloads of published events, field by field.

use crate::confidence::Confidence;
use crate::processor::{Emit, EmitView};
use vstd::prelude::*;

verus! {

/// The value of a field.
#[derive(Debug, PartialEq)]
pub enum FieldValue {
    /// A text.
    Text(String),
    /// A whole number.
    Count(u64),
    /// A confidence.
    Number(Confidence),
}

/// A field of a payload.
#[derive(Debug, PartialEq)]
pub struct Field {
    /// Its name.
    pub name: &'static str,
    /// Its value.
    pub value: FieldValue,
}

/// A [`FieldValue`] with its text as a sequence of characters.
pub enum FieldValueView {
    Text(Seq<char>),
    Count(u64),
    Number(Confidence),
}

/// A [`Field`] with its texts as sequences of characters.
pub struct FieldView {
    pub name: Seq<char>,
    pub value: FieldValueView,
}

impl View for FieldValue {
    type V = FieldValueView;

    open spec fn view(&self) -> FieldValueView {
        match self {
            FieldValue::Text(text) => FieldValueView::Text(text@),
            FieldValue::Count(n) => FieldValueView::Count(*n),
            FieldValue::Number(c) => FieldValueView::Number(*c),
        }
    }
}

impl View for Field {
    type V = FieldView;

    open spec fn view(&self) -> FieldView {
        FieldView { name: self.name@, value: self.value@ }
    }
}

/// The views of several fields, in order.
pub open spec fn fields(all: Seq<Field>) -> Seq<FieldView> {
    all.map_values(|f: Field| f@)
}

/// A field that holds a text.
pub open spec fn text_field(name: Seq<char>, text: Seq<char>) -> FieldView {
    FieldView { name, value: FieldValueView::Text(text) }
}

/// A field that holds a whole number.
pub open spec fn count_field(name: Seq<char>, n: u64) -> FieldView {
    FieldView { name, value: FieldValueView::Count(n) }
}

/// A field that holds a confidence.
pub open spec fn number_field(name: Seq<char>, c: Confidence) -> FieldView {
    FieldView { name, value: FieldValueView::Number(c) }
}

/// A field that is there only if it has something to hold.
pub open spec fn optional_field(name: Seq<char>, text: Option<Seq<char>>) -> Seq<FieldView> {
    match text {
        Some(t) => seq![text_field(name, t)],
        None => Seq::empty(),
    }
}

/// The payload of an event.
pub open spec fn payload(emit: EmitView) -> Seq<FieldView> {
    match emit {
        EmitView::Partial(e) => seq![
            text_field("text"@, e.text),
            count_field("ts"@, e.ts),
        ] + optional_field("turn_id"@, e.turn_id),
        EmitView::Final(e) => seq![
            text_field("text"@, e.text),
            number_field("confidence"@, e.confidence),
            count_field("duration_ms"@, e.duration_ms as u64),
            text_field("model"@, e.model),
            count_field("ts"@, e.ts),
        ] + optional_field("turn_id"@, e.turn_id),
        EmitView::Uncertain(e) => seq![
            text_field("text"@, e.text),
            number_field("confidence"@, e.confidence),
        ] + optional_field("reason"@, e.reason) + seq![count_field("ts"@, e.ts)] + optional_field(
            "turn_id"@,
            e.turn_id,
        ),
        EmitView::Error(e) => seq![
            text_field("kind"@, e.kind),
            text_field("message"@, e.message),
            count_field("ts"@, e.ts),
        ],
        EmitView::ModelLoaded(e) => seq![
            text_field("model"@, e.model),
            count_field("warmup_ms"@, e.warmup_ms),
            count_field("ts"@, e.ts),
        ],
    }
}

fn add_text(all: &mut Vec<Field>, name: &'static str, text: &String)
    ensures
        fields(final(all)@) == fields(old(all)@).push(text_field(name@, text@)),
{
    all.push(Field { name, value: FieldValue::Text(text.clone()) });
    proof {
        assert(fields(all@) =~= fields(old(all)@).push(text_field(name@, text@)));
    }
}

fn add_count(all: &mut Vec<Field>, name: &'static str, n: u64)
    ensures
        fields(final(all)@) == fields(old(all)@).push(count_field(name@, n)),
{
    all.push(Field { name, value: FieldValue::Count(n) });
    proof {
        assert(fields(all@) =~= fields(old(all)@).push(count_field(name@, n)));
    }
}

fn add_number(all: &mut Vec<Field>, name: &'static str, c: Confidence)
    ensures
        fields(final(all)@) == fields(old(all)@).push(number_field(name@, c)),
{
    all.push(Field { name, value: FieldValue::Number(c) });
    proof {
        assert(fields(all@) =~= fields(old(all)@).push(number_field(name@, c)));
    }
}

fn add_optional(all: &mut Vec<Field>, name: &'static str, text: &Option<String>)
    ensures
        fields(final(all)@) == fields(old(all)@) + optional_field(name@, text.deep_view()),
{
    match text {
        Some(t) => add_text(all, name, t),
        None => {},
    }
}

/// The payload of an event, field by field. A field that is absent in the event
/// is absent in the payload.
pub fn payload_fields(emit: &Emit) -> (all: Vec<Field>)
    ensures
        fields(all@) == payload(emit@),
{
    let mut all: Vec<Field> = Vec::new();
    match emit {
        Emit::Partial(e) => {
            add_text(&mut all, "text", &e.text);
            add_count(&mut all, "ts", e.ts);
            add_optional(&mut all, "turn_id", &e.turn_id);
        },
        Emit::Final(e) => {
            add_text(&mut all, "text", &e.text);
            add_number(&mut all, "confidence", e.confidence);
            add_count(&mut all, "duration_ms", e.duration_ms as u64);
            add_text(&mut all, "model", &e.model);
            add_count(&mut all, "ts", e.ts);
            add_optional(&mut all, "turn_id", &e.turn_id);
        },
        Emit::Uncertain(e) => {
            add_text(&mut all, "text", &e.text);
            add_number(&mut all, "confidence", e.confidence);
            add_optional(&mut all, "reason", &e.reason);
            add_count(&mut all, "ts", e.ts);
            add_optional(&mut all, "turn_id", &e.turn_id);
        },
        Emit::Error(e) => {
            add_text(&mut all, "kind", &e.kind);
            add_text(&mut all, "message", &e.message);
            add_count(&mut all, "ts", e.ts);
        },
        Emit::ModelLoaded(e) => {
            add_text(&mut all, "model", &e.model);
            add_count(&mut all, "warmup_ms", e.warmup_ms);
            add_count(&mut all, "ts", e.ts);
        },
    }
    proof {
        assert(fields(all@) =~= payload(emit@));
    }
    all
}

/// Nothing of an event is lost on its way out: two events on one topic with one
/// payload are the same event.
pub proof fn payload_holds_the_event(a: EmitView, b: EmitView)
    requires
        crate::daemon::emit_topic(a) == crate::daemon::emit_topic(b),
        payload(a) == payload(b),
    ensures
        a == b,
{
    crate::daemon::topics_tell_events_apart(a, b);
    let p = payload(a);
    let q = payload(b);
    assert(p[0] == q[0] && p[1] == q[1]);
    assert(p.len() == q.len());
    match (a, b) {
        (EmitView::Partial(x), EmitView::Partial(y)) => {
            if x.turn_id is Some {
                assert(p[2] == q[2]);
            }
        },
        (EmitView::Final(x), EmitView::Final(y)) => {
            assert(p[2] == q[2] && p[3] == q[3] && p[4] == q[4]);
            if x.turn_id is Some {
                assert(p[5] == q[5]);
            }
        },
        (EmitView::Uncertain(x), EmitView::Uncertain(y)) => {
            assert(p[2] == q[2]);
            if p.len() > 3 {
                assert(p[3] == q[3]);
            }
            if p.len() > 4 {
                assert(p[4] == q[4]);
            }
        },
        _ => {
            assert(p[2] == q[2]);
        },
    }
}

/// The turn of an event, where the event belongs to one.
pub open spec fn turn_of(emit: EmitView) -> Option<Seq<char>> {
    match emit {
        EmitView::Partial(e) => e.turn_id,
        EmitView::Final(e) => e.turn_id,
        EmitView::Uncertain(e) => e.turn_id,
        _ => None,
    }
}

/// A payload has a field for the turn exactly when the event has a turn, and the
/// field holds it.
pub proof fn turn_is_in_the_payload(emit: EmitView, field: FieldView)
    requires
        field.name == "turn_id"@,
    ensures
        payload(emit).contains(field) <==> (turn_of(emit) matches Some(turn) && field
            == text_field("turn_id"@, turn)),
{
    reveal_strlit("text");
    reveal_strlit("confidence");
    reveal_strlit("duration_ms");
    reveal_strlit("model");
    reveal_strlit("ts");
    reveal_strlit("turn_id");
    reveal_strlit("reason");
    reveal_strlit("kind");
    reveal_strlit("message");
    reveal_strlit("warmup_ms");
    let p = payload(emit);
    assert("turn_id"@.len() == 7 && "message"@.len() == 7 && "message"@[0] == 'm'
        && "turn_id"@[0] == 't');
    if turn_of(emit) is Some && field == text_field("turn_id"@, turn_of(emit)->0) {
        assert(p[p.len() - 1] == field);
    }
}

/// Every field of an event is in its payload under its name, and nothing else is.
pub proof fn payload_names_every_field(emit: EmitView)
    ensures
        match emit {
            EmitView::Partial(e) => {
                &&& payload(emit).contains(text_field("text"@, e.text))
                &&& payload(emit).contains(count_field("ts"@, e.ts))
                &&& payload(emit).len() == if e.turn_id is Some {
                    3int
                } else {
                    2int
                }
            },
            EmitView::Final(e) => {
                &&& payload(emit).contains(text_field("text"@, e.text))
                &&& payload(emit).contains(number_field("confidence"@, e.confidence))
                &&& payload(emit).contains(count_field("duration_ms"@, e.duration_ms as u64))
                &&& payload(emit).contains(text_field("model"@, e.model))
                &&& payload(emit).contains(count_field("ts"@, e.ts))
                &&& payload(emit).len() == if e.turn_id is Some {
                    6int
                } else {
                    5int
                }
            },
            EmitView::Uncertain(e) => {
                &&& payload(emit).contains(text_field("text"@, e.text))
                &&& payload(emit).contains(number_field("confidence"@, e.confidence))
                &&& payload(emit).contains(count_field("ts"@, e.ts))
                &&& e.reason matches Some(why) ==> payload(emit).contains(
                    text_field("reason"@, why),
                )
                &&& payload(emit).len() == 3 + if e.reason is Some {
                    1int
                } else {
                    0int
                } + if e.turn_id is Some {
                    1int
                } else {
                    0int
                }
            },
            EmitView::Error(e) => {
                &&& payload(emit).contains(text_field("kind"@, e.kind))
                &&& payload(emit).contains(text_field("message"@, e.message))
                &&& payload(emit).contains(count_field("ts"@, e.ts))
                &&& payload(emit).len() == 3
            },
            EmitView::ModelLoaded(e) => {
                &&& payload(emit).contains(text_field("model"@, e.model))
                &&& payload(emit).contains(count_field("warmup_ms"@, e.warmup_ms))
                &&& payload(emit).contains(count_field("ts"@, e.ts))
                &&& payload(emit).len() == 3
            },
        },
        turn_of(emit) matches Some(turn) ==> payload(emit).contains(text_field("turn_id"@, turn)),
{
    let p = payload(emit);
    assert(p.contains(p[0]) && p.contains(p[1]));
    if p.len() > 2 {
        assert(p.contains(p[2]));
    }
    if p.len() > 3 {
        assert(p.contains(p[3]));
    }
    if p.len() > 4 {
        assert(p.contains(p[4]));
    }
    if p.len() > 5 {
        assert(p.contains(p[5]));
    }
}

/// The kinds of fields differ in what they hold, and a field holds what it is given
/// under the name that it is given.
pub proof fn fields_hold_what_they_are_given(
    name: Seq<char>,
    text: Seq<char>,
    n: u64,
    c: Confidence,
)
    ensures
        text_field(name, text).name == name && text_field(name, text).value
            == FieldValueView::Text(text),
        count_field(name, n).name == name && count_field(name, n).value == FieldValueView::Count(n),
        number_field(name, c).name == name && number_field(name, c).value
            == FieldValueView::Number(c),
{
}

} // verus!
