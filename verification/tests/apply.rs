use harper_desktop::apply::{
    key_strokes_for, replacement_for_edit, span_unchanged, typing_for_suggestion, KeyStroke,
    SuggestionRefused, VK_DELETE,
};

/// `text` after replacing chars `[start, end)` with `with`, as a suggestion
/// that replaces the span leaves it.
fn replaced(text: &str, start: usize, end: usize, with: &str) -> Vec<char> {
    let chars: Vec<char> = text.chars().collect();
    let mut edited: Vec<char> = chars[..start].to_vec();
    edited.extend(with.chars());
    edited.extend(&chars[end..]);
    edited
}

#[test]
fn a_replacement_yields_only_the_changed_window() {
    let edited = replaced("teh quick", 0, 3, "the");
    assert_eq!(replacement_for_edit("teh quick", 0, 3, &edited).as_deref(), Some("the"));
}

#[test]
fn a_longer_replacement_yields_the_whole_new_word() {
    let edited = replaced("x a apple", 2, 3, "an");
    assert_eq!(replacement_for_edit("x a apple", 2, 3, &edited).as_deref(), Some("an"));
}

#[test]
fn an_insertion_after_the_span_keeps_the_span() {
    // Inserting ',' after "hello" leaves "hello, world".
    let edited: Vec<char> = "hello, world".chars().collect();
    assert_eq!(replacement_for_edit("hello world", 0, 5, &edited).as_deref(), Some("hello,"));
}

#[test]
fn a_removal_yields_an_empty_replacement() {
    let edited: Vec<char> = "a b".chars().collect();
    assert_eq!(replacement_for_edit("a  b", 1, 2, &edited).as_deref(), Some(""));
}

#[test]
fn a_stale_span_past_the_end_is_rejected() {
    let edited: Vec<char> = "ab".chars().collect();
    assert!(replacement_for_edit("ab", 1, 5, &edited).is_none());
    assert!(replacement_for_edit("ab", 2, 1, &edited).is_none());
}

#[test]
fn an_edit_too_short_for_head_and_tail_is_rejected() {
    let edited: Vec<char> = "a".chars().collect();
    assert!(replacement_for_edit("abcd", 1, 2, &edited).is_none());
}

#[test]
fn an_emoji_before_the_span_does_not_shift_the_window() {
    // Spans count chars; the emoji is one char even though it is two UTF-16
    // units.
    let edited = replaced("🚀 teh", 2, 5, "the");
    assert_eq!(replacement_for_edit("🚀 teh", 2, 5, &edited).as_deref(), Some("the"));
}

#[test]
fn the_span_is_checked_against_the_current_text() {
    assert!(span_unchanged("🚀 teh quick", 2, 5, "teh"));
    assert!(!span_unchanged("🚀 teh quick", 2, 5, "the"));
    assert!(span_unchanged("abc", 1, 9, "bc"));
    assert!(span_unchanged("abc", 3, 4, ""));
    assert!(!span_unchanged("abc", 2, 1, "c"));
}

fn press(unit: u16) -> KeyStroke {
    KeyStroke { scan: unit, virtual_key: 0, key_up: false, unicode: true }
}

fn release(unit: u16) -> KeyStroke {
    KeyStroke { scan: unit, virtual_key: 0, key_up: true, unicode: true }
}

#[test]
fn a_removal_is_one_delete() {
    assert_eq!(
        key_strokes_for(""),
        vec![
            KeyStroke { scan: 0, virtual_key: VK_DELETE, key_up: false, unicode: false },
            KeyStroke { scan: 0, virtual_key: VK_DELETE, key_up: true, unicode: false },
        ]
    );
}

#[test]
fn each_utf16_unit_is_typed() {
    assert_eq!(
        key_strokes_for("hé"),
        vec![press(0x68), release(0x68), press(0xe9), release(0xe9)]
    );
    // '🙂' is the surrogate pair D83D DE42.
    assert_eq!(
        key_strokes_for("🙂"),
        vec![press(0xD83D), release(0xD83D), press(0xDE42), release(0xDE42)]
    );
    let units: Vec<u16> = "a🚀b".encode_utf16().collect();
    let expected: Vec<KeyStroke> = units.iter().flat_map(|u| [press(*u), release(*u)]).collect();
    assert_eq!(key_strokes_for("a🚀b"), expected);
}

#[test]
fn a_suggestion_is_typed_only_over_an_unchanged_span() {
    let text = "I like teh cat";
    let edited = replaced(text, 7, 10, "the");
    assert_eq!(
        typing_for_suggestion(text, 7, 10, &edited, "teh"),
        Ok(vec![press(0x74), release(0x74), press(0x68), release(0x68), press(0x65), release(0x65)])
    );
    assert_eq!(
        typing_for_suggestion(text, 7, 10, &edited, "tex"),
        Err(SuggestionRefused::TextChanged)
    );
    assert_eq!(
        typing_for_suggestion(text, 7, 40, &edited, "teh"),
        Err(SuggestionRefused::NoLongerFits)
    );
}
