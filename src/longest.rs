use vstd::prelude::*;

verus! {

/// `i` is the position of the first occurrence of the largest key in `keys`:
/// no key is larger, and every key before it is strictly smaller.
pub open spec fn is_first_max(keys: Seq<u64>, i: int) -> bool {
    &&& 0 <= i < keys.len()
    &&& forall|j: int| 0 <= j < keys.len() ==> #[trigger] keys[j] <= keys[i]
    &&& forall|j: int| 0 <= j < i ==> #[trigger] keys[j] < keys[i]
}

/// Picks the element of a collection with the largest key, where each key is an
/// order-preserving encoding of a vector's magnitude. On ties the earliest element
/// wins; an empty collection has no longest element.
pub fn longest_index(keys: &Vec<u64>) -> (r: Option<usize>)
    ensures
        r is None <==> keys@.len() == 0,
        r matches Some(i) ==> is_first_max(keys@, i as int),
{
    if keys.len() == 0 {
        return None;
    }
    let mut best: usize = 0;
    let mut k: usize = 1;
    while k < keys.len()
        invariant
            1 <= k <= keys@.len(),
            is_first_max(keys@.subrange(0, k as int), best as int),
        decreases keys@.len() - k,
    {
        if keys[k] > keys[best] {
            best = k;
        }
        k = k + 1;
        assert(keys@.subrange(0, k as int) =~= keys@.subrange(0, k - 1).push(keys@[k - 1]));
    }
    assert(keys@.subrange(0, k as int) =~= keys@);
    Some(best)
}

} // verus!
