//! Applying a suggestion to the focused element.
//!
//! Rewriting the element's entire value is not safe: lint spans are computed
//! against what is visible, which is only part of the document once it
//! scrolls, so a whole-value rewrite would clobber off-screen text. Instead the
//! lint's sub-range is selected and the replacement is delivered as synthesized
//! keyboard input — the same edit the user would make by hand, in any editor,
//! with working undo.
//!
//! Harper owns the edit semantics: the suggestion is applied to a copy of the
//! linted text and the changed window is extracted here, so this stays correct
//! for replacement, insertion, and removal alike.
use vstd::prelude::*;
use crate::text::{chars_of, string_from_chars, utf16_len};

verus! {

/// Whether the char span `[start, end)` lies within `chars`.
pub open spec fn span_fits(chars: Seq<char>, start: int, end: int) -> bool {
    0 <= start <= end <= chars.len()
}

/// The text that replaces the span `[start, end)` of `text`, given the
/// characters `edited` that the suggestion left: what lies between the
/// untouched head (the first `start` characters) and the untouched tail (the
/// characters after `end`). `None` when the span no longer fits the text or
/// the edit is too short to hold head and tail.
pub open spec fn changed_window(text: Seq<char>, start: int, end: int, edited: Seq<char>) -> Option<
    Seq<char>,
> {
    if !span_fits(text, start, end) {
        None
    } else {
        let tail = text.len() - end;
        if edited.len() < start + tail {
            None
        } else {
            Some(edited.subrange(start, edited.len() - tail))
        }
    }
}

/// The text that should replace the lint's span `[span_start, span_end)` of
/// `text`, given `edited`, the characters of `text` after the suggestion was
/// applied to that span.
///
/// `None` when the span no longer fits the text — the snapshot may be stale by
/// the time the user clicks.
pub fn replacement_for_edit(text: &str, span_start: usize, span_end: usize, edited: &[char]) -> (replacement:
    Option<String>)
    ensures
        match replacement {
            Some(r) => changed_window(text@, span_start as int, span_end as int, edited@) == Some(r@),
            None => changed_window(text@, span_start as int, span_end as int, edited@) is None,
        },
{
    let chars = chars_of(text);
    let old_len = chars.len();
    if span_end > old_len || span_start > span_end {
        return None;
    }
    let tail_len = old_len - span_end;
    let new_len = edited.len();
    if new_len < span_start || new_len - span_start < tail_len {
        return None;
    }
    let end = new_len - tail_len;
    let mut window: Vec<char> = Vec::new();
    let mut i: usize = span_start;
    while i < end
        invariant
            span_start <= i <= end,
            end <= edited@.len(),
            window@ == edited@.subrange(span_start as int, i as int),
        decreases end - i,
    {
        window.push(edited[i]);
        i = i + 1;
        assert(window@ =~= edited@.subrange(span_start as int, i as int));
    }
    Some(string_from_chars(window.as_slice()))
}

/// Whatever a suggestion writes in place of a span, the window extracted from
/// the edited text is exactly what it wrote: a replacement yields the new word,
/// an insertion after the span yields the span followed by the insertion, and a
/// removal yields nothing.
pub proof fn lemma_window_is_the_written_text(text: Seq<char>, start: int, end: int, written: Seq<char>)
    requires
        span_fits(text, start, end),
    ensures
        changed_window(
            text,
            start,
            end,
            text.take(start) + written + text.skip(end),
        ) == Some(written),
{
    let edited = text.take(start) + written + text.skip(end);
    assert(edited.subrange(start, edited.len() - (text.len() - end)) =~= written);
}

/// The characters of the span `[start, end)` of `chars`, clamped to its end.
pub open spec fn span_chars(chars: Seq<char>, start: int, end: int) -> Seq<char> {
    if start >= chars.len() || end <= start {
        seq![]
    } else if end > chars.len() {
        chars.subrange(start, chars.len() as int)
    } else {
        chars.subrange(start, end)
    }
}

/// The characters a span stands for are the text's own, unchanged: for a
/// span inside the text, character `k` of the span is character `start + k`
/// of the text, and there are exactly `end - start` of them.
pub proof fn lemma_span_is_its_own_characters(text: Seq<char>, start: int, end: int)
    requires
        0 <= start < end <= text.len(),
    ensures
        span_chars(text, start, end).len() == end - start,
        forall|k: int| 0 <= k < end - start ==> #[trigger] span_chars(text, start, end)[k] == text[start + k],
        span_chars(text, start, end) == text.subrange(start, end),
{
}

/// A span past the end of the text, or an empty or reversed one, stands for no
/// characters.
pub proof fn lemma_span_outside_text_is_empty(text: Seq<char>, start: int, end: int)
    requires
        start >= text.len() || end <= start,
    ensures
        span_chars(text, start, end).len() == 0,
{
}

/// Whether the range about to be edited, which now reads `current`, still
/// holds the characters `[span_start, span_end)` of `text` that the lint was
/// computed on.
///
/// The user can type between a highlight appearing and a suggestion being
/// chosen; editing a range that has since moved would change the wrong
/// characters, so the edit is only made when this holds.
pub fn span_unchanged(text: &str, span_start: usize, span_end: usize, current: &str) -> (unchanged: bool)
    ensures
        unchanged == (current@ == span_chars(text@, span_start as int, span_end as int)),
        span_start < span_end <= text@.len() ==> (unchanged <==> current@ == text@.subrange(
            span_start as int,
            span_end as int,
        )),
{
    proof {
        if span_start < span_end <= text@.len() {
            lemma_span_is_its_own_characters(text@, span_start as int, span_end as int);
        }
    }
    let chars = chars_of(text);
    let now = chars_of(current);
    let end = if span_end > chars.len() {
        chars.len()
    } else {
        span_end
    };
    if span_start >= chars.len() || span_end <= span_start {
        proof {
            if now@.len() == 0 {
                assert(now@ =~= Seq::<char>::empty());
            }
        }
        return now.len() == 0;
    }
    assert(span_chars(text@, span_start as int, span_end as int) =~= chars@.subrange(span_start as int, end as int));
    if now.len() != end - span_start {
        return false;
    }
    let mut i: usize = 0;
    while i < now.len()
        invariant
            span_chars(text@, span_start as int, span_end as int) == chars@.subrange(span_start as int, end as int),
            now@ == current@,
            span_start + now@.len() == end,
            end <= chars@.len(),
            i <= now@.len(),
            forall|j: int| 0 <= j < i ==> now@[j] == chars@[span_start + j],
        decreases now@.len() - i,
    {
        if now[i] != chars[span_start + i] {
            assert(chars@.subrange(span_start as int, end as int)[i as int] != now@[i as int]);
            return false;
        }
        i = i + 1;
    }
    assert(now@ =~= chars@.subrange(span_start as int, end as int));
    true
}

/// One synthesized key event.
#[derive(Clone, Copy, Debug, PartialEq, Eq, Structural)]
pub struct KeyStroke {
    /// The UTF-16 unit typed, for a Unicode event; zero otherwise.
    pub scan: u16,
    /// The virtual key pressed, for a non-Unicode event; zero otherwise.
    pub virtual_key: u16,
    /// Whether this releases the key rather than pressing it.
    pub key_up: bool,
    /// Whether this types `scan` as a Unicode unit.
    pub unicode: bool,
}

/// The virtual-key code of the Delete key.
pub const VK_DELETE: u16 = 0x2E;

/// The UTF-16 code units that encode `c`.
pub open spec fn char_utf16_units(c: char) -> Seq<u16> {
    if (c as u32) < 0x10000 {
        seq![c as u16]
    } else {
        let v = (c as u32) - 0x10000;
        seq![(0xD800 + v / 1024) as u16, (0xDC00 + v % 1024) as u16]
    }
}

/// The UTF-16 encoding of `chars`.
pub open spec fn utf16_units(chars: Seq<char>) -> Seq<u16>
    decreases chars.len(),
{
    if chars.len() == 0 {
        seq![]
    } else {
        utf16_units(chars.drop_last()) + char_utf16_units(chars.last())
    }
}

/// A press and release typing the UTF-16 unit `unit`.
pub open spec fn typing(unit: u16) -> Seq<KeyStroke> {
    seq![
        KeyStroke { scan: unit, virtual_key: 0, key_up: false, unicode: true },
        KeyStroke { scan: unit, virtual_key: 0, key_up: true, unicode: true },
    ]
}

/// A press and release of each of `units`, in order.
pub open spec fn typing_all(units: Seq<u16>) -> Seq<KeyStroke>
    decreases units.len(),
{
    if units.len() == 0 {
        seq![]
    } else {
        typing_all(units.drop_last()) + typing(units.last())
    }
}

/// A press and release of Delete.
pub open spec fn deleting() -> Seq<KeyStroke> {
    seq![
        KeyStroke { scan: 0, virtual_key: VK_DELETE, key_up: false, unicode: false },
        KeyStroke { scan: 0, virtual_key: VK_DELETE, key_up: true, unicode: false },
    ]
}

/// The key events that replace the current selection with `replacement`:
/// each UTF-16 unit as a Unicode press and release, which editors treat
/// exactly like typing, or a single Delete over the selection for an empty
/// replacement (a removal).
pub open spec fn replacement_keystrokes(replacement: Seq<char>) -> Seq<KeyStroke> {
    if replacement.len() == 0 {
        deleting()
    } else {
        typing_all(utf16_units(replacement))
    }
}

/// The UTF-16 code units that encode `c`.
pub fn encode_char_utf16(c: char) -> (units: Vec<u16>)
    ensures
        units@ == char_utf16_units(c),
{
    let code = c as u32;
    if code < 0x10000 {
        vec![code as u16]
    } else {
        proof {
            vstd::utf8::char_is_scalar(c);
        }
        let v = code - 0x10000;
        vec![(0xD800 + v / 1024) as u16, (0xDC00 + v % 1024) as u16]
    }
}

/// The key events that replace the current selection with `replacement`.
pub fn key_strokes_for(replacement: &str) -> (strokes: Vec<KeyStroke>)
    ensures
        strokes@ == replacement_keystrokes(replacement@),
{
    let chars = chars_of(replacement);
    if chars.len() == 0 {
        return vec![
            KeyStroke { scan: 0, virtual_key: VK_DELETE, key_up: false, unicode: false },
            KeyStroke { scan: 0, virtual_key: VK_DELETE, key_up: true, unicode: false },
        ];
    }
    let mut strokes: Vec<KeyStroke> = Vec::new();
    let ghost mut units: Seq<u16> = seq![];
    let mut i: usize = 0;
    assert(chars@.take(0) =~= Seq::<char>::empty());
    while i < chars.len()
        invariant
            i <= chars@.len(),
            units == utf16_units(chars@.take(i as int)),
            strokes@ == typing_all(units),
        decreases chars@.len() - i,
    {
        let encoded = encode_char_utf16(chars[i]);
        let mut k: usize = 0;
        let ghost start_units = units;
        assert(chars@.take(i + 1).drop_last() =~= chars@.take(i as int));
        while k < encoded.len()
            invariant
                k <= encoded@.len(),
                units == start_units + encoded@.take(k as int),
                strokes@ == typing_all(units),
            decreases encoded@.len() - k,
        {
            let unit = encoded[k];
            strokes.push(KeyStroke { scan: unit, virtual_key: 0, key_up: false, unicode: true });
            strokes.push(KeyStroke { scan: unit, virtual_key: 0, key_up: true, unicode: true });
            proof {
                let next = units.push(unit);
                assert(next.drop_last() =~= units);
                units = next;
                assert(units =~= start_units + encoded@.take(k + 1));
            }
            k = k + 1;
        }
        assert(encoded@.take(k as int) =~= encoded@);
        i = i + 1;
    }
    assert(chars@.take(i as int) =~= chars@);
    strokes
}

/// Each character takes as many UTF-16 units to type as it occupies in the
/// text, so typing a replacement moves the caret by its UTF-16 length.
pub proof fn lemma_units_match_width(chars: Seq<char>)
    ensures
        utf16_units(chars).len() == utf16_len(chars),
    decreases chars.len(),
{
    if chars.len() > 0 {
        lemma_units_match_width(chars.drop_last());
    }
}

/// Typing sends one press and one release per unit.
pub proof fn lemma_typing_length(units: Seq<u16>)
    ensures
        typing_all(units).len() == 2 * units.len(),
    decreases units.len(),
{
    if units.len() > 0 {
        lemma_typing_length(units.drop_last());
    }
}

/// A non-empty replacement takes two key events per UTF-16 unit of it; an
/// empty one takes exactly a press and release of Delete.
pub proof fn lemma_keystroke_count(replacement: Seq<char>)
    ensures
        replacement_keystrokes(replacement).len() == if replacement.len() == 0 {
            2
        } else {
            2 * utf16_len(replacement)
        },
{
    if replacement.len() > 0 {
        lemma_units_match_width(replacement);
        lemma_typing_length(utf16_units(replacement));
    }
}

/// Why a chosen suggestion is not typed.
#[derive(Clone, Copy, Debug, PartialEq, Eq, Structural)]
pub enum SuggestionRefused {
    /// The lint's span no longer fits the captured text.
    NoLongerFits,
    /// The range to edit no longer holds what the lint was about: the user
    /// typed in between.
    TextChanged,
}

/// The key events that type a chosen suggestion over the span `[span_start,
/// span_end)` of `text`, given `edited`, the text's characters after the
/// suggestion was applied, and `current`, what the span's range holds now.
///
/// Refused when the span no longer fits the captured text, or, failing that,
/// when the range no longer holds the span's characters; otherwise the key
/// events that replace the selection with the changed window.
pub fn typing_for_suggestion(text: &str, span_start: usize, span_end: usize, edited: &[char], current: &str)
    -> (typing: Result<Vec<KeyStroke>, SuggestionRefused>)
    ensures
        match typing {
            Ok(strokes) => changed_window(text@, span_start as int, span_end as int, edited@) matches Some(
                r,
            ) && current@ == span_chars(text@, span_start as int, span_end as int) && strokes@
                == replacement_keystrokes(r),
            Err(SuggestionRefused::NoLongerFits) => changed_window(
                text@,
                span_start as int,
                span_end as int,
                edited@,
            ) is None,
            Err(SuggestionRefused::TextChanged) => changed_window(
                text@,
                span_start as int,
                span_end as int,
                edited@,
            ) is Some && current@ != span_chars(text@, span_start as int, span_end as int),
        },
        span_start < span_end <= text@.len() && current@ == text@.subrange(span_start as int, span_end as int)
            && changed_window(text@, span_start as int, span_end as int, edited@) is Some ==> typing is Ok,
{
    let replacement = match replacement_for_edit(text, span_start, span_end, edited) {
        Some(replacement) => replacement,
        None => return Err(SuggestionRefused::NoLongerFits),
    };
    if !span_unchanged(text, span_start, span_end, current) {
        return Err(SuggestionRefused::TextChanged);
    }
    Ok(key_strokes_for(replacement.as_str()))
}

} // verus!
