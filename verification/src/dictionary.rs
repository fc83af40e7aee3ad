//! The user's dictionary as the settings page lists it: its words in order.
use vstd::prelude::*;
use crate::order::{chars_less, lemma_less_asymmetric, lemma_less_total, lemma_less_transitive, string_less, views};

verus! {

broadcast use vstd::seq_lib::group_to_multiset_ensures, vstd::multiset::group_multiset_axioms;

/// Whether `words` is in nondecreasing lexicographic order.
pub open spec fn nondecreasing(words: Seq<Seq<char>>) -> bool {
    forall|i: int, j: int| 0 <= i < j < words.len() ==> !chars_less(#[trigger] words[j], #[trigger] words[i])
}

/// Inserting at a position adds the element to the multiset of a sequence.
proof fn lemma_insert_to_multiset(items: Seq<Seq<char>>, p: int, x: Seq<char>)
    requires
        0 <= p <= items.len(),
    ensures
        items.insert(p, x).to_multiset() =~= items.to_multiset().insert(x),
{
    let longer = items.insert(p, x);
    assert(longer.remove(p) =~= items);
    assert(longer.remove(p).to_multiset() =~= longer.to_multiset().remove(longer[p]));
    assert(longer.contains(x)) by {
        assert(longer[p] == x);
    }
    assert(longer.to_multiset().count(x) > 0);
}

/// The dictionary's words in lexicographic order, as `sort` leaves them.
pub fn sorted_words(words: Vec<String>) -> (sorted: Vec<String>)
    ensures
        nondecreasing(views(sorted@)),
        views(sorted@).to_multiset() == views(words@).to_multiset(),
{
    let mut sorted: Vec<String> = Vec::new();
    let mut i: usize = 0;
    assert(views(words@.take(0)) =~= Seq::<Seq<char>>::empty());
    while i < words.len()
        invariant
            i <= words@.len(),
            nondecreasing(views(sorted@)),
            views(sorted@).to_multiset() == views(words@.take(i as int)).to_multiset(),
        decreases words@.len() - i,
    {
        let word = words[i].clone();
        let ghost before = views(sorted@);
        let ghost w = word@;
        let mut position: usize = 0;
        while position < sorted.len() && !string_less(word.as_str(), sorted[position].as_str())
            invariant
                position <= sorted@.len(),
                views(sorted@) == before,
                w == word@,
                forall|k: int| 0 <= k < position ==> !chars_less(w, #[trigger] before[k]),
            decreases sorted@.len() - position,
        {
            position = position + 1;
        }
        sorted.insert(position, word);
        proof {
            let after = views(sorted@);
            assert(after =~= before.insert(position as int, w));
            assert forall|a: int, b: int| 0 <= a < b < after.len() implies !chars_less(
                #[trigger] after[b],
                #[trigger] after[a],
            ) by {
                if b < position {
                } else if a < position && b == position {
                } else if a < position {
                    // before[a] <= w < before[position] <= before[b - 1]
                    lemma_less_total(w, before[a]);
                    if position < before.len() {
                        lemma_less_total(before[position as int], before[b - 1]);
                        if before[position as int] != before[b - 1] {
                            lemma_less_transitive(w, before[position as int], before[b - 1]);
                        }
                        if w != before[a] {
                            lemma_less_transitive(before[a], w, before[b - 1]);
                        }
                        lemma_less_asymmetric(before[a], before[b - 1]);
                    }
                } else if a == position {
                    lemma_less_total(before[position as int], before[b - 1]);
                    if before[position as int] != before[b - 1] {
                        lemma_less_transitive(w, before[position as int], before[b - 1]);
                    }
                    lemma_less_asymmetric(w, before[b - 1]);
                } else {
                    assert(!chars_less(before[b - 1], before[a - 1]));
                }
            }
            lemma_insert_to_multiset(before, position as int, w);
            assert(views(words@.take(i + 1)) =~= views(words@.take(i as int)).push(w));
        }
        i = i + 1;
    }
    assert(words@.take(i as int) =~= words@);
    sorted
}

} // verus!
