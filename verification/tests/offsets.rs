use harper_desktop::offsets::{char_to_utf16_offset, lookup, utf16_offset_table, utf16_range};

#[test]
fn ascii_offsets_are_identity() {
    assert_eq!(char_to_utf16_offset("hello world", 0), 0);
    assert_eq!(char_to_utf16_offset("hello world", 5), 5);
    assert_eq!(char_to_utf16_offset("hello world", 11), 11);
}

#[test]
fn emoji_counts_as_two_utf16_units() {
    // "a🙂b": 'a' = 1 unit, '🙂' = 2 units (surrogate pair), 'b' = 1 unit.
    let text = "a🙂b";
    assert_eq!(char_to_utf16_offset(text, 0), 0);
    assert_eq!(char_to_utf16_offset(text, 1), 1);
    assert_eq!(char_to_utf16_offset(text, 2), 3);
    assert_eq!(char_to_utf16_offset(text, 3), 4);
}

#[test]
fn bmp_multibyte_counts_as_one_utf16_unit() {
    // CJK characters are 3 UTF-8 bytes but a single UTF-16 unit.
    let text = "日本語";
    assert_eq!(char_to_utf16_offset(text, 1), 1);
    assert_eq!(char_to_utf16_offset(text, 3), 3);
}

#[test]
fn offset_past_end_saturates() {
    assert_eq!(char_to_utf16_offset("abc", 99), 3);
}

#[test]
fn empty_text_is_zero() {
    assert_eq!(char_to_utf16_offset("", 0), 0);
    assert_eq!(char_to_utf16_offset("", 5), 0);
}

#[test]
fn differs_from_byte_offset_for_non_ascii() {
    // Guards against accidentally using byte offsets: "é" is 2 UTF-8 bytes
    // but a single UTF-16 unit.
    let text = "éx";
    assert_eq!(char_to_utf16_offset(text, 1), 1);
    assert_ne!(char_to_utf16_offset(text, 1) as usize, "é".len());
}

#[test]
fn table_lookup_matches_scalar_conversion() {
    // The table is the hot path and the scalar function is the tested one;
    // they must not drift.
    for text in [
        "",
        "hello world",
        "a🙂b",
        "日本語",
        "éx",
        "ship it 🚀 teh end",
    ] {
        let table = utf16_offset_table(text);
        for offset in 0..=text.chars().count() + 3 {
            assert_eq!(
                lookup(&table, offset),
                char_to_utf16_offset(text, offset),
                "text {text:?} offset {offset}"
            );
        }
    }
}

#[test]
fn realistic_mixed_text() {
    // A lint landing after an emoji is where a char/UTF-16 mixup shows up
    // in practice: the emoji is one char but two UTF-16 units, so every
    // offset after it drifts by one.
    let text = "ship it 🚀 teh end";
    let teh_char_start = text.chars().count() - "teh end".chars().count();
    assert_eq!(teh_char_start, 10, "sanity: 'teh' starts at char 10");

    // Ten chars precede "teh", but eleven UTF-16 units do.
    assert_eq!(char_to_utf16_offset(text, teh_char_start), 11);
}

#[test]
fn offset_table_lists_every_boundary() {
    assert_eq!(utf16_offset_table("a🙂b"), vec![0, 1, 3, 4]);
    assert_eq!(utf16_offset_table(""), vec![0]);
}

#[test]
fn lookup_in_an_empty_table_is_zero() {
    assert_eq!(lookup(&[], 0), 0);
    assert_eq!(lookup(&[], 7), 0);
}

#[test]
fn lint_span_after_an_emoji_maps_to_shifted_units() {
    let table = utf16_offset_table("ship it 🚀 teh end");
    // "teh" is chars 10..13, UTF-16 units 11..14.
    assert_eq!(utf16_range(&table, 10, 13), Some((11, 14)));
}

#[test]
fn empty_or_stale_span_has_no_range() {
    let table = utf16_offset_table("abc");
    assert_eq!(utf16_range(&table, 2, 2), None);
    assert_eq!(utf16_range(&table, 5, 9), None);
    assert_eq!(utf16_range(&table, 2, 1), None);
}
