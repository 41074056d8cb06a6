use vstd::prelude::*;

verus! {

/// The position of the first entity that the pointer hits, where `hits[i]`
/// says whether it hits the `i`-th entity; `None` when it hits none.
pub fn first_hit(hits: &Vec<bool>) -> (r: Option<usize>)
    ensures
        match r {
            Some(i) => i < hits@.len() && hits@[i as int] && forall|j: int| 0 <= j < i ==> !hits@[j],
            None => forall|j: int| 0 <= j < hits@.len() ==> !hits@[j],
        },
{
    let n = hits.len();
    let mut i: usize = 0;
    while i < n
        invariant
            i <= n,
            n == hits@.len(),
            forall|j: int| 0 <= j < i ==> !hits@[j],
        decreases n - i,
    {
        if hits[i] {
            return Some(i);
        }
        i = i + 1;
    }
    None
}

} // verus!
