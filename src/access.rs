//! Dynamic borrow accounting for a heap cell.
//!
//! The counter `a` encodes the borrow state: `0` is idle, `a < 0` means
//! `|a|` outstanding shared borrows, and `1` means one exclusive borrow.
use vstd::prelude::*;

verus! {

/// Error raised when shared access was asked for but the cell was not
/// accessible for it.
#[derive(Debug, Clone, Copy, PartialEq, Eq, Structural)]
pub struct NotAccessibleRef {
    pub state: isize,
}

/// Error raised when exclusive access was asked for but the cell was not
/// accessible for it.
#[derive(Debug, Clone, Copy, PartialEq, Eq, Structural)]
pub struct NotAccessibleMut {
    pub state: isize,
}

/// Token handed out for one shared borrow; giving it back releases it.
#[derive(Debug)]
pub struct RawRefGuard {
    pub(crate) released_to: isize,
}

/// Token handed out for one exclusive borrow; giving it back releases it.
#[derive(Debug)]
pub struct RawMutGuard {
    pub(crate) released_to: isize,
}

/// The access counter of a cell.
#[derive(Debug, Clone, Copy, PartialEq, Eq, Structural)]
pub struct Access {
    pub(crate) state: isize,
}

/// The counter after one more shared borrow, or `None` where it is refused.
pub open spec fn shared_step(a: int) -> Option<int> {
    if isize::MIN < a <= 0 {
        Some(a - 1)
    } else {
        None
    }
}

/// The counter after an exclusive borrow, or `None` where it is refused.
pub open spec fn exclusive_step(a: int) -> Option<int> {
    if a == 0 {
        Some(1)
    } else {
        None
    }
}

impl View for Access {
    type V = int;

    closed spec fn view(&self) -> int {
        self.state as int
    }
}

impl Access {
    /// The counter is a machine integer.
    pub proof fn lemma_in_range(&self)
        ensures
            isize::MIN <= self@ <= isize::MAX,
    {
    }

    /// An idle counter.
    pub fn new() -> (r: Self)
        ensures
            r@ == 0,
    {
        Access { state: 0 }
    }

    /// Whether a shared borrow would be granted now.
    pub fn is_shared(&self) -> (r: bool)
        ensures
            r == shared_step(self@).is_some(),
    {
        isize::MIN < self.state && self.state <= 0
    }

    /// Whether an exclusive borrow (or taking the value) would be granted now.
    pub fn is_exclusive(&self) -> (r: bool)
        ensures
            r == (self@ == 0),
    {
        self.state == 0
    }

    /// Acquire a shared borrow.
    pub fn shared(&mut self) -> (r: Result<RawRefGuard, NotAccessibleRef>)
        ensures
            r is Ok <==> shared_step(old(self)@).is_some(),
            r is Ok ==> final(self)@ == shared_step(old(self)@).unwrap(),
            r is Err ==> final(self)@ == old(self)@ && r->Err_0.state == old(self)@,
    {
        if self.state == isize::MIN || self.state > 0 {
            return Err(NotAccessibleRef { state: self.state });
        }
        self.state = self.state - 1;
        Ok(RawRefGuard { released_to: self.state + 1 })
    }

    /// Acquire an exclusive borrow.
    pub fn exclusive(&mut self) -> (r: Result<RawMutGuard, NotAccessibleMut>)
        ensures
            r is Ok <==> exclusive_step(old(self)@).is_some(),
            r is Ok ==> final(self)@ == 1,
            r is Err ==> final(self)@ == old(self)@ && r->Err_0.state == old(self)@,
    {
        if self.state != 0 {
            return Err(NotAccessibleMut { state: self.state });
        }
        self.state = 1;
        Ok(RawMutGuard { released_to: 0 })
    }

    /// Give back one shared borrow.
    pub fn release_shared(&mut self, guard: RawRefGuard)
        requires
            old(self)@ < 0,
        ensures
            final(self)@ == old(self)@ + 1,
    {
        self.state = self.state + 1;
    }

    /// Give back the exclusive borrow.
    pub fn release_exclusive(&mut self, guard: RawMutGuard)
        requires
            old(self)@ == 1,
        ensures
            final(self)@ == 0,
    {
        self.state = 0;
    }
}

/// One event in the life of a counter: an attempt to borrow, or the drop of a
/// guard that an earlier successful attempt handed out.
#[derive(Debug, Clone, Copy, PartialEq, Eq, Structural)]
pub enum AccessOp {
    BorrowShared,
    BorrowExclusive,
    DropShared,
    DropExclusive,
}

/// A counter together with the guards that are still alive.
pub struct AccessTrace {
    pub state: int,
    pub live_shared: nat,
    pub live_exclusive: bool,
}

/// One event applied to a trace, each by the counter's own rules. A drop
/// happens only where a guard of its kind is alive.
pub open spec fn access_step(t: AccessTrace, op: AccessOp) -> AccessTrace {
    match op {
        AccessOp::BorrowShared => match shared_step(t.state) {
            Some(a) => AccessTrace { state: a, live_shared: t.live_shared + 1, live_exclusive: t.live_exclusive },
            None => t,
        },
        AccessOp::BorrowExclusive => match exclusive_step(t.state) {
            Some(a) => AccessTrace { state: a, live_shared: t.live_shared, live_exclusive: true },
            None => t,
        },
        AccessOp::DropShared => if t.live_shared > 0 {
            AccessTrace { state: t.state + 1, live_shared: (t.live_shared - 1) as nat, live_exclusive: t.live_exclusive }
        } else {
            t
        },
        AccessOp::DropExclusive => if t.live_exclusive {
            AccessTrace { state: 0, live_shared: t.live_shared, live_exclusive: false }
        } else {
            t
        },
    }
}

/// The trace after a sequence of events, from an idle counter.
pub open spec fn access_run(ops: Seq<AccessOp>) -> AccessTrace
    decreases ops.len(),
{
    if ops.len() == 0 {
        AccessTrace { state: 0, live_shared: 0, live_exclusive: false }
    } else {
        access_step(access_run(ops.drop_last()), ops.last())
    }
}

proof fn lemma_access_run_counts(ops: Seq<AccessOp>)
    ensures
        access_run(ops).live_exclusive ==> access_run(ops).state == 1 && access_run(ops).live_shared == 0,
        !access_run(ops).live_exclusive ==> access_run(ops).state == -access_run(ops).live_shared,
    decreases ops.len(),
{
    if ops.len() > 0 {
        lemma_access_run_counts(ops.drop_last());
    }
}

/// Whatever sequence of shared borrows, exclusive borrows and guard drops
/// runs on a counter, once every guard handed out has been dropped the
/// counter is idle again.
pub proof fn lemma_borrows_balance(ops: Seq<AccessOp>)
    requires
        access_run(ops).live_shared == 0,
        !access_run(ops).live_exclusive,
    ensures
        access_run(ops).state == 0,
{
    lemma_access_run_counts(ops);
}

} // verus!
