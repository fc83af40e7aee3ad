//! Offset conversion between Harper and UI Automation.
//!
//! Harper's spans count Rust `char`s (Unicode scalar values). UI Automation's
//! character unit counts UTF-16 code units. These agree across the Basic
//! Multilingual Plane and diverge for astral characters such as emoji, where
//! one `char` is two UTF-16 code units. Getting this wrong shifts every
//! highlight after the first emoji by a growing amount.
use vstd::prelude::*;
use crate::text::{chars_of, char_utf16_width, utf16_len, utf16_width};

verus! {

/// The UTF-16 offset of character `char_offset` of `chars`; offsets past the
/// end saturate at the total UTF-16 length.
pub open spec fn utf16_offset(chars: Seq<char>, char_offset: int) -> nat {
    if char_offset < chars.len() {
        utf16_len(chars.take(char_offset))
    } else {
        utf16_len(chars)
    }
}

/// What [`lookup`] returns: the entry at `char_offset`, else the last entry,
/// else zero.
pub open spec fn lookup_spec(table: Seq<i32>, char_offset: int) -> i32 {
    if 0 <= char_offset < table.len() {
        table[char_offset]
    } else if table.len() > 0 {
        table.last()
    } else {
        0
    }
}

/// Whether `table` holds the UTF-16 offset of every character boundary of
/// `chars`, the last entry being the total length.
pub open spec fn is_offset_table(table: Seq<i32>, chars: Seq<char>) -> bool {
    &&& table.len() == chars.len() + 1
    &&& forall|i: int| 0 <= i <= chars.len() ==> #[trigger] table[i] == utf16_len(chars.take(i))
}

/// Extending a sequence by one character adds that character's width.
pub proof fn lemma_utf16_len_push(chars: Seq<char>, i: int)
    requires
        0 <= i < chars.len(),
    ensures
        utf16_len(chars.take(i + 1)) == utf16_len(chars.take(i)) + utf16_width(chars[i]),
{
    assert(chars.take(i + 1).drop_last() =~= chars.take(i));
}

/// A prefix never encodes to more UTF-16 units than the whole sequence.
pub proof fn lemma_utf16_len_prefix_le(chars: Seq<char>, i: int)
    requires
        0 <= i <= chars.len(),
    ensures
        utf16_len(chars.take(i)) <= utf16_len(chars),
    decreases chars.len() - i,
{
    if i < chars.len() {
        lemma_utf16_len_push(chars, i);
        lemma_utf16_len_prefix_le(chars, i + 1);
    } else {
        assert(chars.take(i) =~= chars);
    }
}

/// A longer prefix encodes to strictly more UTF-16 units: every character
/// takes at least one.
pub proof fn lemma_utf16_len_prefix_strict(chars: Seq<char>, a: int, b: int)
    requires
        0 <= a < b <= chars.len(),
    ensures
        utf16_len(chars.take(a)) < utf16_len(chars.take(b)),
    decreases b - a,
{
    lemma_utf16_len_push(chars, b - 1);
    if a < b - 1 {
        lemma_utf16_len_prefix_strict(chars, a, b - 1);
    }
}

/// Converts a char offset into a UTF-16 code-unit offset within `text`.
///
/// Offsets past the end of `text` saturate at its total UTF-16 length rather
/// than panicking: lint spans are computed against a snapshot of the text that
/// may already be stale, and a stale offset must not take down the highlighter.
/// The result is the offset truncated to `i32`, UI Automation's offset type.
pub fn char_to_utf16_offset(text: &str, char_offset: usize) -> (offset: i32)
    ensures
        offset == utf16_offset(text@, char_offset as int) as i32,
{
    let chars = chars_of(text);
    let end = if char_offset < chars.len() {
        char_offset
    } else {
        chars.len()
    };
    // Two units per character at most, so a u128 total cannot overflow.
    let mut total: u128 = 0;
    let mut i: usize = 0;
    while i < end
        invariant
            end <= chars@.len(),
            i <= end,
            total == utf16_len(chars@.take(i as int)),
            total <= 2 * i,
        decreases end - i,
    {
        proof {
            lemma_utf16_len_push(chars@, i as int);
        }
        total = total + char_utf16_width(chars[i]) as u128;
        i = i + 1;
    }
    proof {
        if char_offset >= chars@.len() {
            assert(chars@.take(end as int) =~= chars@);
        }
    }
    total as i32
}

/// Cumulative UTF-16 offsets for every character boundary in `text`.
///
/// Entry `i` is the UTF-16 offset of character `i`, and the final entry is the
/// text's total UTF-16 length. Building this once per read turns per-lint
/// conversion into an index, which matters on a long document with many lints.
pub fn utf16_offset_table(text: &str) -> (table: Vec<i32>)
    requires
        utf16_len(text@) <= i32::MAX,
    ensures
        is_offset_table(table@, text@),
{
    let chars = chars_of(text);
    let mut table: Vec<i32> = Vec::new();
    let mut offset: i32 = 0;
    table.push(offset);
    let mut i: usize = 0;
    while i < chars.len()
        invariant
            chars@ == text@,
            utf16_len(chars@) <= i32::MAX,
            i <= chars@.len(),
            offset == utf16_len(chars@.take(i as int)),
            table@.len() == i + 1,
            forall|j: int| 0 <= j <= i ==> #[trigger] table@[j] == utf16_len(chars@.take(j)),
        decreases chars@.len() - i,
    {
        proof {
            lemma_utf16_len_push(chars@, i as int);
            lemma_utf16_len_prefix_le(chars@, i + 1);
        }
        offset = offset + char_utf16_width(chars[i]) as i32;
        table.push(offset);
        i = i + 1;
    }
    table
}

/// Looks up a char offset in a table from [`utf16_offset_table`].
///
/// Offsets past the end saturate at the last entry, the text's total UTF-16
/// length, matching [`char_to_utf16_offset`].
pub fn lookup(table: &[i32], char_offset: usize) -> (offset: i32)
    ensures
        offset == lookup_spec(table@, char_offset as int),
{
    if char_offset < table.len() {
        table[char_offset]
    } else if table.len() > 0 {
        table[table.len() - 1]
    } else {
        0
    }
}

/// The UTF-16 range `[start, end)` of the lint span `[span_start, span_end)`
/// of characters, or `None` when the range is empty or reversed and there is
/// nothing to highlight.
pub fn utf16_range(table: &[i32], span_start: usize, span_end: usize) -> (range: Option<(i32, i32)>)
    ensures
        range == (if lookup_spec(table@, span_start as int) < lookup_spec(table@, span_end as int) {
            Some((lookup_spec(table@, span_start as int), lookup_spec(table@, span_end as int)))
        } else {
            None::<(i32, i32)>
        }),
{
    let start = lookup(table, span_start);
    let end = lookup(table, span_end);
    if end <= start {
        None
    } else {
        Some((start, end))
    }
}

/// Looking a char offset up in the table built for a text gives the same
/// UTF-16 offset as converting it directly, for every offset, past the end
/// included.
pub proof fn lemma_table_lookup_matches_conversion(chars: Seq<char>, table: Seq<i32>, char_offset: int)
    requires
        is_offset_table(table, chars),
        utf16_len(chars) <= i32::MAX,
        char_offset >= 0,
    ensures
        lookup_spec(table, char_offset) == utf16_offset(chars, char_offset) as i32,
{
    if char_offset <= chars.len() {
        lemma_utf16_len_prefix_le(chars, char_offset);
        if char_offset == chars.len() {
            assert(chars.take(char_offset) =~= chars);
        }
    } else {
        assert(chars.take(chars.len() as int) =~= chars);
    }
}

/// UTF-16 offsets never decrease along the text, so a forward span of
/// characters is a forward range of UTF-16 units.
pub proof fn lemma_utf16_offset_monotonic(chars: Seq<char>, a: int, b: int)
    requires
        0 <= a <= b,
    ensures
        utf16_offset(chars, a) <= utf16_offset(chars, b),
    decreases b - a,
{
    if a < b {
        lemma_utf16_offset_monotonic(chars, a, b - 1);
        if b - 1 < chars.len() {
            lemma_utf16_len_push(chars, b - 1);
            if b == chars.len() {
                assert(chars.take(b) =~= chars);
            }
        }
    }
}

/// Within the Basic Multilingual Plane UTF-16 offsets are char offsets:
/// every character is one code unit, so conversion is the identity up to the
/// end of the text.
pub proof fn lemma_bmp_offsets_are_identity(chars: Seq<char>, char_offset: int)
    requires
        forall|i: int| 0 <= i < chars.len() ==> (#[trigger] chars[i] as u32) < 0x10000,
        0 <= char_offset,
    ensures
        utf16_offset(chars, char_offset) == if char_offset < chars.len() {
            char_offset
        } else {
            chars.len() as int
        },
    decreases char_offset,
{
    if char_offset > 0 {
        lemma_bmp_offsets_are_identity(chars, char_offset - 1);
        if char_offset - 1 < chars.len() {
            lemma_utf16_len_push(chars, char_offset - 1);
            if char_offset == chars.len() {
                assert(chars.take(char_offset) =~= chars);
            }
        }
    } else {
        assert(chars.take(0) =~= Seq::<char>::empty());
    }
}

} // verus!
