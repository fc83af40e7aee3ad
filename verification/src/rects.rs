//! Decoding of UI Automation bounding rectangles.
//!
//! `IUIAutomationTextRange::GetBoundingRectangles` returns a flat array laid
//! out as `[left, top, width, height]` quads, one quad per visual line the
//! range spans. The coordinates are floating point and stay with the caller;
//! the grouping into quads is done here, for any element type.
use vstd::prelude::*;

verus! {

/// The `[left, top, width, height]` quads of `values`, in order: one per
/// four consecutive values, a trailing partial quad left out.
pub open spec fn quads<T>(values: Seq<T>) -> Seq<(T, T, T, T)> {
    Seq::new(
        values.len() / 4,
        |i: int| (values[4 * i], values[4 * i + 1], values[4 * i + 2], values[4 * i + 3]),
    )
}

/// Groups a flat `[left, top, width, height, ...]` array into quads.
///
/// A trailing partial quad is ignored rather than panicking. Providers are not
/// obliged to return a multiple of four, and a malformed tail from one
/// application must not take down the highlighter.
pub fn quads_of<T: Copy>(values: &[T]) -> (grouped: Vec<(T, T, T, T)>)
    ensures
        grouped@ == quads(values@),
{
    let count = values.len() / 4;
    let mut grouped: Vec<(T, T, T, T)> = Vec::new();
    let mut i: usize = 0;
    while i < count
        invariant
            count == values@.len() / 4,
            4 * count <= values@.len(),
            values@.len() == values.len(),
            i <= count,
            grouped@.len() == i,
            forall|k: int|
                0 <= k < i ==> #[trigger] grouped@[k] == (
                    values@[4 * k],
                    values@[4 * k + 1],
                    values@[4 * k + 2],
                    values@[4 * k + 3],
                ),
        decreases count - i,
    {
        let at = 4 * i;
        grouped.push((values[at], values[at + 1], values[at + 2], values[at + 3]));
        i = i + 1;
    }
    assert(grouped@ =~= quads(values@));
    grouped
}

} // verus!
