//! First match in a sequence.

use vstd::prelude::*;

verus! {

/// Index of the first element at or after `from` that satisfies `pred`.
pub open spec fn first_from<A>(s: Seq<A>, pred: spec_fn(A) -> bool, from: int) -> Option<int>
    decreases s.len() - from,
{
    if from < 0 || from >= s.len() {
        None
    } else if pred(s[from]) {
        Some(from)
    } else {
        first_from(s, pred, from + 1)
    }
}

/// Index of the first element that satisfies `pred`.
pub open spec fn first_where<A>(s: Seq<A>, pred: spec_fn(A) -> bool) -> Option<int> {
    first_from(s, pred, 0)
}

/// What the search from an index finds.
pub proof fn lemma_first_from<A>(s: Seq<A>, pred: spec_fn(A) -> bool, from: int)
    requires
        0 <= from,
    ensures
        match first_from(s, pred, from) {
            Some(index) => {
                &&& from <= index < s.len()
                &&& pred(s[index])
                &&& forall|j: int| from <= j < index ==> !pred(#[trigger] s[j])
            },
            None => forall|j: int| from <= j < s.len() ==> !pred(#[trigger] s[j]),
        },
    decreases s.len() - from,
{
    if from < s.len() && !pred(s[from]) {
        lemma_first_from(s, pred, from + 1);
    }
}

/// What the search finds: an index that matches, before which nothing does, or no match at all.
pub proof fn lemma_first_where<A>(s: Seq<A>, pred: spec_fn(A) -> bool)
    ensures
        match first_where(s, pred) {
            Some(index) => {
                &&& 0 <= index < s.len()
                &&& pred(s[index])
                &&& forall|j: int| 0 <= j < index ==> !pred(#[trigger] s[j])
            },
            None => forall|j: int| 0 <= j < s.len() ==> !pred(#[trigger] s[j]),
        },
{
    lemma_first_from(s, pred, 0);
}

/// A match with no match before it is the first.
pub proof fn lemma_first_is<A>(s: Seq<A>, pred: spec_fn(A) -> bool, index: int)
    requires
        0 <= index < s.len(),
        pred(s[index]),
        forall|j: int| 0 <= j < index ==> !pred(#[trigger] s[j]),
    ensures
        first_where(s, pred) == Some(index),
{
    lemma_first_where(s, pred);
}

} // verus!
