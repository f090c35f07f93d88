//! Random choice of track indices.
use vstd::prelude::*;
use rand::Rng;
use std::collections::BTreeSet;

verus! {

/// `rand::rng().random_range(0..len)`: some index below `len`.
#[verifier::external_body]
pub(crate) fn random_index(len: usize) -> (index: usize)
    requires
        len > 0,
    ensures
        index < len,
{
    rand::rng().random_range(0..len)
}

/// A random index below `len` that is not in `excluded`, or `None` when every
/// index below `len` is excluded.
pub fn filtered_random_index(len: usize, excluded: &BTreeSet<usize>) -> (index: Option<usize>)
    ensures
        match index {
            Some(i) => i < len && !excluded@.contains(i),
            None => forall|i: usize| i < len ==> excluded@.contains(i),
        },
{
    let mut candidates: Vec<usize> = Vec::new();
    let mut i: usize = 0;
    while i < len
        invariant
            i <= len,
            forall|k: int| 0 <= k < candidates.len() ==> #[trigger] candidates@[k] < len
                && !excluded@.contains(candidates@[k]),
            forall|j: usize| j < i && !excluded@.contains(j) ==> candidates@.contains(j),
        decreases len - i,
    {
        let ghost before = candidates@;
        if !excluded.contains(&i) {
            candidates.push(i);
            assert forall|j: usize| before.contains(j) implies candidates@.contains(j) by {
                let k = choose|k: int| 0 <= k < before.len() && before[k] == j;
                assert(candidates@[k] == j);
            }
            assert(candidates@[candidates@.len() - 1] == i);
        }
        i = i + 1;
    }
    if candidates.len() == 0 {
        assert forall|j: usize| j < len implies excluded@.contains(j) by {
            if !excluded@.contains(j) {
                assert(candidates@.contains(j));
            }
        }
        None
    } else {
        let pick = random_index(candidates.len());
        Some(candidates[pick])
    }
}

} // verus!
