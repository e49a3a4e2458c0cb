//! A plain strong reference count.
use vstd::prelude::*;

verus! {

/// Number of strong references to a slot.
#[derive(Debug, Clone, Copy, PartialEq, Eq, Structural)]
pub struct RefCount {
    pub count: usize,
}

impl RefCount {
    /// A count that starts at `count`.
    pub fn new(count: usize) -> (r: Self)
        ensures
            r.count == count,
    {
        RefCount { count }
    }

    /// One more reference.
    pub fn inc(&mut self)
        requires
            old(self).count < usize::MAX,
        ensures
            final(self).count == old(self).count + 1,
    {
        self.count = self.count + 1;
    }

    /// One reference fewer; tells whether none is left.
    pub fn dec(&mut self) -> (r: bool)
        requires
            old(self).count > 0,
        ensures
            final(self).count == old(self).count - 1,
            r == (final(self).count == 0),
    {
        self.count = self.count - 1;
        self.count == 0
    }
}

} // verus!
