//! Resolution of a `select` over several futures.
//!
//! All branch operands are evaluated before the machine yields. When it is
//! resumed, the branch taken is the ready one with the lowest index.
use vstd::prelude::*;

verus! {

/// The futures a `select` waits on, one per branch, in source order.
#[derive(Debug)]
pub struct Select {
    pub futures: Vec<u64>,
}

/// `i` is the lowest index at which `ready` holds.
pub open spec fn first_ready(ready: Seq<bool>, i: int) -> bool {
    &&& 0 <= i < ready.len()
    &&& ready[i]
    &&& forall|j: int| 0 <= j < i ==> !ready[j]
}

impl Select {
    /// A select over the given futures.
    pub fn new(futures: Vec<u64>) -> (r: Select)
        ensures
            r.futures@ == futures@,
    {
        Select { futures }
    }

    /// The branch to take when the futures marked in `ready` have completed:
    /// the lowest ready index, or `None` while none is ready.
    pub fn resolve(&self, ready: &Vec<bool>) -> (r: Option<usize>)
        requires
            ready@.len() == self.futures@.len(),
        ensures
            r is Some <==> exists|i: int| 0 <= i < ready@.len() && ready@[i],
            r is Some ==> first_ready(ready@, r->Some_0 as int),
    {
        let mut i: usize = 0;
        while i < ready.len()
            invariant
                i <= ready@.len(),
                forall|j: int| 0 <= j < i ==> !ready@[j],
            decreases ready@.len() - i,
        {
            if ready[i] {
                return Some(i);
            }
            i = i + 1;
        }
        None
    }
}

/// Whenever several branches are ready at once, the one taken is the one
/// with the lowest index: no ready branch comes before it.
pub proof fn lemma_select_order(ready: Seq<bool>, i: int, k: int)
    requires
        first_ready(ready, i),
        0 <= k < ready.len(),
        ready[k],
    ensures
        i <= k,
{
}

} // verus!
