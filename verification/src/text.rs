//! Text helpers: the few operations on strings that messages, settings and
//! transcripts are made of, each with an exact statement over characters.

use vstd::prelude::*;

verus! {

/// `String::push`: the given character is appended, and nothing else changes.
pub assume_specification[ String::push ](s: &mut String, c: char)
    ensures
        final(s)@ == old(s)@.push(c),
;

/// What `{:?}` shows for a text: its characters between double quotes, with
/// the escapes that the standard library chooses.
pub uninterp spec fn debug_text(text: Seq<char>) -> Seq<char>;

/// The `Debug` form of a `str`, as `format!` with `{:?}` writes it. Claimed is
/// only that the result depends on the text alone; which characters are
/// escaped, and how, is left unsaid.
#[verifier::external_body]
pub(crate) fn debug_str(text: &str) -> (shown: String)
    ensures
        shown@ == debug_text(text@),
{
    format!("{:?}", text)
}

/// True when the two texts hold the same characters.
pub fn same_text(a: &str, b: &str) -> (same: bool)
    ensures
        same == (a@ == b@),
{
    a.to_owned() == b.to_owned()
}

/// A copy of an optional text.
pub fn copy_optional(text: &Option<String>) -> (copy: Option<String>)
    ensures
        copy.deep_view() == text.deep_view(),
{
    match text {
        Some(t) => Some(t.clone()),
        None => None,
    }
}

/// The decimal digit for a number below ten.
pub open spec fn digit(d: nat) -> char {
    (48 + d) as char
}

/// A number in decimal, most significant digit first and without leading
/// zeros.
pub open spec fn decimal(n: nat) -> Seq<char>
    decreases n,
{
    if n < 10 {
        seq![digit(n)]
    } else {
        decimal(n / 10).push(digit(n % 10))
    }
}

/// Writes a number in decimal.
pub fn decimal_text(n: u64) -> (text: String)
    ensures
        text@ == decimal(n as nat),
    decreases n,
{
    let low: u8 = (n % 10) as u8;
    let mut text = if n < 10 {
        String::new()
    } else {
        decimal_text(n / 10)
    };
    text.push((48 + low) as char);
    text
}

/// The parts in order, with `between` between each two neighbours.
pub open spec fn joined(parts: Seq<Seq<char>>, between: Seq<char>) -> Seq<char>
    decreases parts.len(),
{
    if parts.len() == 0 {
        Seq::empty()
    } else if parts.len() == 1 {
        parts[0]
    } else {
        joined(parts.drop_last(), between) + between + parts.last()
    }
}

/// What `{:?}` shows for a list of texts: the `Debug` form of each, separated
/// by a comma and a space, between square brackets.
pub open spec fn debug_list(texts: Seq<Seq<char>>) -> Seq<char> {
    "["@ + joined(texts.map_values(|t: Seq<char>| debug_text(t)), ", "@) + "]"@
}

/// Shows a list of texts as `{:?}` does.
pub fn debug_list_text(texts: &Vec<String>) -> (shown: String)
    ensures
        shown@ == debug_list(texts.deep_view()),
{
    let ghost forms = texts.deep_view().map_values(|t: Seq<char>| debug_text(t));
    let mut inner = String::new();
    let mut i: usize = 0;
    while i < texts.len()
        invariant
            i <= texts.len(),
            forms == texts.deep_view().map_values(|t: Seq<char>| debug_text(t)),
            inner@ == joined(forms.take(i as int), ", "@),
        decreases texts.len() - i,
    {
        let shown = debug_str(texts[i].as_str());
        proof {
            assert(forms.take(i + 1).drop_last() =~= forms.take(i as int));
            assert(forms[i as int] == shown@);
        }
        if i > 0 {
            inner.append(", ");
        }
        inner.append(shown.as_str());
        i += 1;
    }
    proof {
        assert(forms.take(i as int) =~= forms);
    }
    let mut out = String::from_str("[");
    out.append(inner.as_str());
    out.append("]");
    out
}

/// The Unicode property White_Space.
pub open spec fn white_space(c: char) -> bool {
    let n = c as u32;
    ||| 0x9 <= n <= 0xD
    ||| n == 0x20
    ||| n == 0x85
    ||| n == 0xA0
    ||| n == 0x1680
    ||| 0x2000 <= n <= 0x200A
    ||| n == 0x2028
    ||| n == 0x2029
    ||| n == 0x202F
    ||| n == 0x205F
    ||| n == 0x3000
}

fn is_white_space(c: char) -> (yes: bool)
    ensures
        yes == white_space(c),
{
    let n: u32 = c as u32;
    (0x9 <= n && n <= 0xD) || n == 0x20 || n == 0x85 || n == 0xA0 || n == 0x1680 || (0x2000 <= n
        && n <= 0x200A) || n == 0x2028 || n == 0x2029 || n == 0x202F || n == 0x205F || n == 0x3000
}

/// The text without the white space at its start.
pub open spec fn trimmed_start(s: Seq<char>) -> Seq<char>
    decreases s.len(),
{
    if s.len() > 0 && white_space(s[0]) {
        trimmed_start(s.drop_first())
    } else {
        s
    }
}

/// The text without the white space at its end.
pub open spec fn trimmed_end(s: Seq<char>) -> Seq<char>
    decreases s.len(),
{
    if s.len() > 0 && white_space(s.last()) {
        trimmed_end(s.drop_last())
    } else {
        s
    }
}

/// The text without the white space at its start and at its end.
pub open spec fn trimmed(s: Seq<char>) -> Seq<char> {
    trimmed_end(trimmed_start(s))
}

/// The characters of a text as a vector.
fn characters(text: &str) -> (chars: Vec<char>)
    ensures
        chars@ == text@,
{
    let mut chars: Vec<char> = Vec::new();
    for c in it: text.chars()
        invariant
            it.seq() == text@,
            chars@ == text@.take(it.index() as int),
    {
        chars.push(c);
    }
    chars
}

/// Removes the white space at both ends of a text.
pub fn trim_text(text: &str) -> (out: String)
    ensures
        out@ == trimmed(text@),
{
    let chars = characters(text);
    let mut from: usize = 0;
    proof {
        assert(text@.skip(0) =~= text@);
    }
    while from < chars.len() && is_white_space(chars[from])
        invariant
            from <= chars.len(),
            chars@ == text@,
            trimmed_start(text@) == trimmed_start(text@.skip(from as int)),
        ensures
            from <= chars.len(),
            trimmed_start(text@) == text@.skip(from as int),
        decreases chars.len() - from,
    {
        proof {
            assert(text@.skip(from as int).drop_first() =~= text@.skip(from + 1));
        }
        from += 1;
    }
    let ghost kept = text@.skip(from as int);
    let mut to: usize = chars.len();
    proof {
        assert(text@.subrange(from as int, to as int) =~= kept);
    }
    while to > from && is_white_space(chars[to - 1])
        invariant
            from <= to <= chars.len(),
            chars@ == text@,
            kept == text@.skip(from as int),
            trimmed_end(kept) == trimmed_end(text@.subrange(from as int, to as int)),
        ensures
            from <= to <= chars.len(),
            trimmed_end(kept) == text@.subrange(from as int, to as int),
        decreases to - from,
    {
        proof {
            assert(text@.subrange(from as int, to as int).drop_last() =~= text@.subrange(
                from as int,
                to - 1,
            ));
        }
        to -= 1;
    }
    let mut out = String::new();
    let mut i: usize = from;
    while i < to
        invariant
            from <= i <= to <= chars.len(),
            chars@ == text@,
            out@ == text@.subrange(from as int, i as int),
        decreases to - i,
    {
        out.push(chars[i]);
        i += 1;
    }
    out
}

/// The ASCII letters `A` to `Z` in lower case; every other character as it is.
pub open spec fn ascii_lower(c: char) -> char {
    if 'A' <= c && c <= 'Z' {
        (c as u32 + 32) as char
    } else {
        c
    }
}

/// Writes the ASCII letters of a text in lower case.
pub fn lowercase_text(text: &str) -> (out: String)
    ensures
        out@ == text@.map_values(|c: char| ascii_lower(c)),
{
    let mut out = String::new();
    for c in it: text.chars()
        invariant
            it.seq() == text@,
            out@ == text@.take(it.index() as int).map_values(|c: char| ascii_lower(c)),
    {
        if 'A' <= c && c <= 'Z' {
            out.push((c as u8 + 32) as char);
        } else {
            out.push(c);
        }
    }
    out
}

/// Every `.` of the text as a `-`.
pub open spec fn hyphenated(text: Seq<char>) -> Seq<char> {
    text.map_values(|c: char| if c == '.' { '-' } else { c })
}

/// Writes every `.` of a text as a `-`.
pub fn hyphenate(text: &str) -> (out: String)
    ensures
        out@ == hyphenated(text@),
{
    let mut out = String::new();
    for c in it: text.chars()
        invariant
            it.seq() == text@,
            out@ == hyphenated(text@.take(it.index() as int)),
    {
        if c == '.' {
            out.push('-');
        } else {
            out.push(c);
        }
    }
    out
}

/// A text that consists of a beginning, a middle and an end.
pub open spec fn frames(
    text: Seq<char>,
    before: Seq<char>,
    middle: Seq<char>,
    after: Seq<char>,
) -> bool {
    &&& text.len() == before.len() + middle.len() + after.len()
    &&& text.take(before.len() as int) == before
    &&& text.subrange(before.len() as int, (before.len() + middle.len()) as int) == middle
    &&& text.skip((before.len() + middle.len()) as int) == after
}

/// A text that is put together from three parts consists of them.
pub proof fn lemma_frames(before: Seq<char>, middle: Seq<char>, after: Seq<char>)
    ensures
        frames(before + middle + after, before, middle, after),
{
    let text = before + middle + after;
    assert(text.take(before.len() as int) =~= before);
    assert(text.subrange(before.len() as int, (before.len() + middle.len()) as int) =~= middle);
    assert(text.skip((before.len() + middle.len()) as int) =~= after);
}

/// The number that digits denote.
pub open spec fn digits_value(digits: Seq<char>) -> int
    decreases digits.len(),
{
    if digits.len() == 0 {
        0
    } else {
        10 * digits_value(digits.drop_last()) + (digits.last() as int - '0' as int)
    }
}

/// A number in decimal consists of digits, denotes the number, and has no zero in
/// front of other digits.
pub proof fn decimal_denotes_the_number(n: nat)
    ensures
        digits_value(decimal(n)) == n,
        decimal(n).len() > 0,
        forall|i: int| 0 <= i < decimal(n).len() ==> '0' <= #[trigger] decimal(n)[i] <= '9',
        decimal(n).len() > 1 ==> decimal(n)[0] != '0',
    decreases n,
{
    reveal_with_fuel(digits_value, 2);
    if n < 10 {
        assert(decimal(n).drop_last() =~= Seq::<char>::empty());
    } else {
        let d = decimal(n);
        let high = decimal(n / 10);
        decimal_denotes_the_number(n / 10);
        assert(d.drop_last() =~= high);
        assert(d.last() == digit(n % 10));
        assert forall|i: int| 0 <= i < d.len() implies '0' <= #[trigger] d[i] <= '9' by {
            if i < high.len() {
                assert(d[i] == high[i]);
            }
        }
        assert(d[0] == high[0]);
        if high.len() == 1 {
            assert(high.drop_last() =~= Seq::<char>::empty());
            assert(digits_value(high) == high[0] as int - '0' as int);
        }
    }
}

/// Texts that are joined follow one another with the separator between them: one
/// text stands as it is, and two runs of texts are joined as their joined texts
/// are.
pub proof fn joined_texts_follow_one_another(
    a: Seq<Seq<char>>,
    b: Seq<Seq<char>>,
    between: Seq<char>,
)
    ensures
        a.len() == 0 ==> joined(a, between) == Seq::<char>::empty(),
        a.len() == 1 ==> joined(a, between) == a[0],
        a.len() > 0 && b.len() > 0 ==> joined(a + b, between) == joined(a, between) + between
            + joined(b, between),
    decreases b.len(),
{
    if a.len() > 0 && b.len() > 0 {
        assert((a + b).drop_last() =~= a + b.drop_last());
        assert((a + b).last() == b.last());
        if b.len() == 1 {
            assert(a + b.drop_last() =~= a);
            assert(joined(b, between) == b[0]);
        } else {
            joined_texts_follow_one_another(a, b.drop_last(), between);
            assert(joined(a + b, between) =~= joined(a, between) + between + joined(b, between));
        }
    }
}

/// A list is shown between square brackets, and two lists in a row as one list with
/// a comma and a space between them.
pub proof fn lists_are_shown_in_brackets(a: Seq<Seq<char>>, b: Seq<Seq<char>>)
    ensures
        a.len() == 0 ==> debug_list(a) == seq!['[', ']'],
        a.len() == 1 ==> debug_list(a) == seq!['['] + debug_text(a[0]) + seq![']'],
        a.len() > 0 && b.len() > 0 ==> debug_list(a + b) == debug_list(a).drop_last() + seq![
            ',',
            ' ',
        ] + debug_list(b).drop_first(),
{
    reveal_strlit("[");
    reveal_strlit("]");
    reveal_strlit(", ");
    let shown = |t: Seq<char>| debug_text(t);
    let x = a.map_values(shown);
    let y = b.map_values(shown);
    joined_texts_follow_one_another(x, y, ", "@);
    assert((a + b).map_values(shown) =~= x + y);
    if a.len() == 0 {
        assert(debug_list(a) =~= seq!['[', ']']);
    }
    if a.len() == 1 {
        assert(debug_list(a) =~= seq!['['] + debug_text(a[0]) + seq![']']);
    }
    if a.len() > 0 && b.len() > 0 {
        assert(debug_list(a + b) =~= debug_list(a).drop_last() + seq![',', ' '] + debug_list(
            b,
        ).drop_first());
    }
}

/// What is cut from the start of a text is white space.
proof fn lemma_trimmed_start(s: Seq<char>) -> (cut: int)
    ensures
        0 <= cut <= s.len(),
        trimmed_start(s) == s.skip(cut),
        forall|i: int| 0 <= i < cut ==> white_space(#[trigger] s[i]),
        cut < s.len() ==> !white_space(s[cut]),
    decreases s.len(),
{
    if s.len() > 0 && white_space(s[0]) {
        let cut = lemma_trimmed_start(s.drop_first());
        assert(s.drop_first().skip(cut) =~= s.skip(cut + 1));
        assert forall|i: int| 0 <= i < cut + 1 implies white_space(#[trigger] s[i]) by {
            if i > 0 {
                assert(s.drop_first()[i - 1] == s[i]);
            }
        }
        if cut + 1 < s.len() {
            assert(s.drop_first()[cut] == s[cut + 1]);
        }
        cut + 1
    } else {
        assert(s.skip(0) =~= s);
        0
    }
}

/// What is cut from the end of a text is white space.
proof fn lemma_trimmed_end(s: Seq<char>) -> (end: int)
    ensures
        0 <= end <= s.len(),
        trimmed_end(s) == s.take(end),
        forall|i: int| end <= i < s.len() ==> white_space(#[trigger] s[i]),
        end > 0 ==> !white_space(s[end - 1]),
    decreases s.len(),
{
    if s.len() > 0 && white_space(s.last()) {
        let end = lemma_trimmed_end(s.drop_last());
        assert(s.drop_last().take(end) =~= s.take(end));
        assert forall|i: int| end <= i < s.len() implies white_space(#[trigger] s[i]) by {
            if i < s.len() - 1 {
                assert(s.drop_last()[i] == s[i]);
            }
        }
        if end > 0 {
            assert(s.drop_last()[end - 1] == s[end - 1]);
        }
        end
    } else {
        assert(s.take(s.len() as int) =~= s);
        s.len() as int
    }
}

/// Trimming cuts white space from both ends of a text, all of it and nothing else:
/// what is cut is white space, and what is kept neither starts nor ends with any.
pub proof fn trimming_cuts_white_space_only(s: Seq<char>) -> (cut: (int, int))
    ensures
        0 <= cut.0 <= cut.1 <= s.len(),
        trimmed(s) == s.subrange(cut.0, cut.1),
        forall|i: int| 0 <= i < cut.0 || cut.1 <= i < s.len() ==> white_space(#[trigger] s[i]),
        cut.0 < cut.1 ==> !white_space(s[cut.0]) && !white_space(s[cut.1 - 1]),
{
    let from = lemma_trimmed_start(s);
    let kept = s.skip(from);
    let end = lemma_trimmed_end(kept);
    assert(kept.take(end) =~= s.subrange(from, from + end));
    assert forall|i: int| 0 <= i < from || from + end <= i < s.len() implies white_space(
        #[trigger] s[i],
    ) by {
        if i >= from {
            assert(kept[i - from] == s[i]);
        }
    }
    if end > 0 {
        assert(kept[end - 1] == s[from + end - 1]);
        assert(kept[0] == s[from]);
        if from == s.len() {
            assert(kept.len() == 0);
        }
    }
    (from, from + end)
}

/// The characters that are white space are the controls from tab to carriage return,
/// the next line, and the space characters of Unicode.
pub proof fn white_space_is_a_short_list(c: char)
    ensures
        white_space(c) <==> c == '\t' || c == '\n' || c == '\u{b}' || c == '\u{c}' || c == '\r' || c
            == ' ' || c == '\u{85}' || c == '\u{a0}' || c == '\u{1680}' || '\u{2000}' <= c
            <= '\u{200a}' || c == '\u{2028}' || c == '\u{2029}' || c == '\u{202f}' || c
            == '\u{205f}' || c == '\u{3000}',
{
}

/// Lowering keeps every character but the ASCII capitals, which become the small
/// letter at the same place in the alphabet.
pub proof fn lowering_moves_capitals_only(c: char)
    ensures
        !('A' <= ascii_lower(c) <= 'Z'),
        !('A' <= c <= 'Z') ==> ascii_lower(c) == c,
        'A' <= c <= 'Z' ==> 'a' <= ascii_lower(c) <= 'z' && ascii_lower(c) as int - 'a' as int
            == c as int - 'A' as int,
{
}

/// Writing dots as hyphens changes the dots and no other character.
pub proof fn only_dots_become_hyphens(text: Seq<char>, i: int)
    requires
        0 <= i < text.len(),
    ensures
        hyphenated(text).len() == text.len(),
        text[i] == '.' ==> hyphenated(text)[i] == '-',
        text[i] != '.' ==> hyphenated(text)[i] == text[i],
{
}

} // verus!
