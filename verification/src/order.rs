//! Lexicographic order on character sequences, and sorted sets of strings.
//!
//! Strings order as `str`'s own `Ord` does: character by character by code
//! point, a proper prefix first. UTF-8 preserves code-point order, so this is
//! the byte order `str` compares by.
use vstd::prelude::*;
use crate::text::chars_of;

verus! {

/// Whether `a` comes strictly before `b` in lexicographic code-point order.
pub open spec fn chars_less(a: Seq<char>, b: Seq<char>) -> bool
    decreases a.len(),
{
    if b.len() == 0 {
        false
    } else if a.len() == 0 {
        true
    } else if a[0] != b[0] {
        (a[0] as u32) < (b[0] as u32)
    } else {
        chars_less(a.drop_first(), b.drop_first())
    }
}

/// The character views of a sequence of strings.
pub open spec fn views(strings: Seq<String>) -> Seq<Seq<char>> {
    strings.map_values(|s: String| s@)
}

/// Whether `items` is strictly increasing, hence also free of duplicates.
pub open spec fn strictly_sorted(items: Seq<Seq<char>>) -> bool {
    forall|i: int, j: int| 0 <= i < j < items.len() ==> chars_less(#[trigger] items[i], #[trigger] items[j])
}

pub proof fn lemma_less_irreflexive(a: Seq<char>)
    ensures
        !chars_less(a, a),
    decreases a.len(),
{
    if a.len() > 0 {
        lemma_less_irreflexive(a.drop_first());
    }
}

pub proof fn lemma_less_transitive(a: Seq<char>, b: Seq<char>, c: Seq<char>)
    requires
        chars_less(a, b),
        chars_less(b, c),
    ensures
        chars_less(a, c),
    decreases a.len(),
{
    if a.len() > 0 && b.len() > 0 && c.len() > 0 && a[0] == b[0] && b[0] == c[0] {
        lemma_less_transitive(a.drop_first(), b.drop_first(), c.drop_first());
    }
}

pub proof fn lemma_less_total(a: Seq<char>, b: Seq<char>)
    ensures
        a == b || chars_less(a, b) || chars_less(b, a),
    decreases a.len(),
{
    if a.len() > 0 && b.len() > 0 {
        if a[0] == b[0] {
            lemma_less_total(a.drop_first(), b.drop_first());
            if a.drop_first() == b.drop_first() {
                assert(a =~= seq![a[0]] + a.drop_first());
                assert(b =~= seq![b[0]] + b.drop_first());
            }
        } else {
            vstd::utf8::char_u32_cast(a[0], a[0] as u32);
            vstd::utf8::char_u32_cast(b[0], b[0] as u32);
        }
    } else if a.len() == 0 && b.len() == 0 {
        assert(a =~= b);
    }
}

pub proof fn lemma_less_asymmetric(a: Seq<char>, b: Seq<char>)
    requires
        chars_less(a, b),
    ensures
        !chars_less(b, a),
{
    if chars_less(b, a) {
        lemma_less_transitive(a, b, a);
        lemma_less_irreflexive(a);
    }
}

/// Dropping an equal first character leaves the order unchanged.
proof fn lemma_less_skip(a: Seq<char>, b: Seq<char>, i: int)
    requires
        0 <= i < a.len(),
        i < b.len(),
        a[i] == b[i],
    ensures
        chars_less(a.skip(i), b.skip(i)) == chars_less(a.skip(i + 1), b.skip(i + 1)),
{
    assert(a.skip(i).drop_first() =~= a.skip(i + 1));
    assert(b.skip(i).drop_first() =~= b.skip(i + 1));
}

/// Whether `a` comes strictly before `b`.
pub fn chars_less_exec(a: &[char], b: &[char]) -> (less: bool)
    ensures
        less == chars_less(a@, b@),
{
    let mut i: usize = 0;
    assert(a@.skip(0) =~= a@);
    assert(b@.skip(0) =~= b@);
    while i < a.len() && i < b.len()
        invariant
            i <= a@.len(),
            i <= b@.len(),
            chars_less(a@, b@) == chars_less(a@.skip(i as int), b@.skip(i as int)),
        decreases a@.len() - i,
    {
        if a[i] != b[i] {
            return (a[i] as u32) < (b[i] as u32);
        }
        proof {
            lemma_less_skip(a@, b@, i as int);
        }
        i = i + 1;
    }
    a.len() - i < b.len() - i
}

/// Whether string `a` comes strictly before string `b`.
pub fn string_less(a: &str, b: &str) -> (less: bool)
    ensures
        less == chars_less(a@, b@),
{
    let a = chars_of(a);
    let b = chars_of(b);
    chars_less_exec(a.as_slice(), b.as_slice())
}

/// Adds `item` to the strictly sorted set `set`, unless it is already there.
pub fn insert_sorted_unique(set: &mut Vec<String>, item: String)
    requires
        strictly_sorted(views(old(set)@)),
    ensures
        strictly_sorted(views(final(set)@)),
        views(final(set)@).to_set() == views(old(set)@).to_set().insert(item@),
{
    let ghost old_views = views(set@);
    let mut position: usize = 0;
    while position < set.len() && string_less(set[position].as_str(), item.as_str())
        invariant
            position <= set@.len(),
            set@ == old(set)@,
            forall|j: int| 0 <= j < position ==> chars_less(#[trigger] views(set@)[j], item@),
        decreases set@.len() - position,
    {
        position = position + 1;
    }
    if position < set.len() && crate::text::str_equal(set[position].as_str(), item.as_str()) {
        assert(views(set@)[position as int] == item@);
        assert(old_views.to_set().insert(item@) =~= old_views.to_set());
        return;
    }
    proof {
        if position < set@.len() {
            lemma_less_total(views(set@)[position as int], item@);
        }
    }
    set.insert(position, item);
    proof {
        let new_views = views(set@);
        assert(new_views =~= old_views.insert(position as int, item@));
        assert forall|i: int, j: int| 0 <= i < j < new_views.len() implies chars_less(
            #[trigger] new_views[i],
            #[trigger] new_views[j],
        ) by {
            if j < position {
            } else if i < position && j == position {
            } else if i < position {
                assert(chars_less(old_views[i], item@));
                if position < old_views.len() {
                    assert(chars_less(item@, old_views[position as int]));
                    lemma_less_transitive(old_views[i], item@, old_views[position as int]);
                    if j - 1 > position {
                        lemma_less_transitive(old_views[i], old_views[position as int], old_views[j - 1]);
                    }
                }
            } else if i == position {
                assert(chars_less(item@, old_views[position as int]));
                if j - 1 > position {
                    lemma_less_transitive(item@, old_views[position as int], old_views[j - 1]);
                }
            } else {
                assert(chars_less(old_views[i - 1], old_views[j - 1]));
            }
        }
        assert(new_views.to_set() =~= old_views.to_set().insert(item@)) by {
            assert forall|x: Seq<char>| new_views.to_set().contains(x) <==> old_views.to_set().insert(item@).contains(x) by {
                if new_views.to_set().contains(x) {
                    let k = choose|k: int| 0 <= k < new_views.len() && new_views[k] == x;
                    if k < position {
                        assert(old_views[k] == x);
                    } else if k > position {
                        assert(old_views[k - 1] == x);
                    }
                }
                if old_views.to_set().contains(x) {
                    let k = choose|k: int| 0 <= k < old_views.len() && old_views[k] == x;
                    if k < position {
                        assert(new_views[k] == x);
                    } else {
                        assert(new_views[k + 1] == x);
                    }
                }
                if x == item@ {
                    assert(new_views[position as int] == x);
                }
            }
        }
    }
}

} // verus!
