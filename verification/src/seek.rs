//! The first element of a sequence that has a given property.

use vstd::prelude::*;

verus! {

/// The first place at or after `start` whose element satisfies `p`.
pub open spec fn first_index_from<T>(s: Seq<T>, p: spec_fn(T) -> bool, start: int) -> Option<int>
    decreases s.len() - start,
{
    if start < 0 || start >= s.len() {
        None
    } else if p(s[start]) {
        Some(start)
    } else {
        first_index_from(s, p, start + 1)
    }
}

/// The first place of `s` whose element satisfies `p`.
pub open spec fn first_index<T>(s: Seq<T>, p: spec_fn(T) -> bool) -> Option<int> {
    first_index_from(s, p, 0)
}

/// When no element from `start` up to `found` satisfies `p`, the search from
/// `start` gives what the search from `found` gives.
pub proof fn lemma_first_index_skip<T>(s: Seq<T>, p: spec_fn(T) -> bool, start: int, found: int)
    requires
        0 <= start <= found <= s.len(),
        forall|j: int| start <= j < found ==> !p(#[trigger] s[j]),
    ensures
        first_index_from(s, p, start) == first_index_from(s, p, found),
    decreases found - start,
{
    if start < found {
        lemma_first_index_skip(s, p, start + 1, found);
    }
}

/// The search finds the element at `found` when nothing before it satisfies
/// `p` and it does.
pub proof fn lemma_first_index_found<T>(s: Seq<T>, p: spec_fn(T) -> bool, found: int)
    requires
        0 <= found < s.len(),
        p(s[found]),
        forall|j: int| 0 <= j < found ==> !p(#[trigger] s[j]),
    ensures
        first_index(s, p) == Some(found),
{
    lemma_first_index_skip(s, p, 0, found);
}

/// The search finds nothing when no element satisfies `p`.
pub proof fn lemma_first_index_none<T>(s: Seq<T>, p: spec_fn(T) -> bool)
    requires
        forall|j: int| 0 <= j < s.len() ==> !p(#[trigger] s[j]),
    ensures
        first_index(s, p) is None,
{
    lemma_first_index_skip(s, p, 0, s.len() as int);
}

} // verus!
