//! Reference-counted heap cells with checked shared and exclusive access.
//!
//! Cells live in a `Heap`; a `Shared` is a strong handle to one of them.
//! Cloning a handle raises the cell's strong count, dropping one lowers it,
//! and the cell's value is freed when the count reaches zero.
use vstd::prelude::*;
use crate::access::{
    exclusive_step, shared_step, Access, NotAccessibleMut, NotAccessibleRef, RawMutGuard,
    RawRefGuard,
};
use crate::ref_count::RefCount;

verus! {

/// Error raised when the value of a cell was to be taken out but other
/// references to it exist.
#[derive(Debug, Clone, Copy, PartialEq, Eq, Structural)]
pub struct NotOwned {
    pub index: usize,
}

/// A strong handle to a cell of a `Heap`.
#[derive(Debug)]
pub struct Shared {
    index: usize,
}

impl View for Shared {
    type V = nat;

    /// The slot the handle points at.
    closed spec fn view(&self) -> nat {
        self.index as nat
    }
}

/// A shared borrow of the cell in slot `index`.
#[derive(Debug)]
pub struct Ref {
    index: usize,
    guard: RawRefGuard,
}

/// An exclusive borrow of the cell in slot `index`.
#[derive(Debug)]
pub struct Mut {
    index: usize,
    guard: RawMutGuard,
}

impl View for Ref {
    type V = nat;

    closed spec fn view(&self) -> nat {
        self.index as nat
    }
}

impl View for Mut {
    type V = nat;

    closed spec fn view(&self) -> nat {
        self.index as nat
    }
}

/// What a cell holds: its value (gone once freed), its strong count and its
/// access counter.
pub struct CellView<T> {
    pub value: Option<T>,
    pub strong: nat,
    pub access: int,
}

/// The store of all cells.
pub struct Heap<T> {
    values: Vec<Option<T>>,
    counts: Vec<RefCount>,
    accesses: Vec<Access>,
    frees: usize,
}

/// Number of zero counts in `s`.
pub open spec fn dead_count(s: Seq<RefCount>) -> nat
    decreases s.len(),
{
    if s.len() == 0 {
        0
    } else {
        dead_count(s.drop_last()) + if s.last().count == 0 { 1nat } else { 0nat }
    }
}

proof fn lemma_dead_count_bound(s: Seq<RefCount>)
    ensures
        dead_count(s) <= s.len(),
    decreases s.len(),
{
    if s.len() > 0 {
        lemma_dead_count_bound(s.drop_last());
    }
}

proof fn lemma_dead_count_update(s: Seq<RefCount>, i: int, v: RefCount)
    requires
        0 <= i < s.len(),
    ensures
        dead_count(s.update(i, v)) + (if s[i].count == 0 { 1nat } else { 0nat })
            == dead_count(s) + (if v.count == 0 { 1nat } else { 0nat }),
    decreases s.len(),
{
    let t = s.update(i, v);
    if i == s.len() - 1 {
        assert(t.drop_last() =~= s.drop_last());
    } else {
        assert(t.drop_last() =~= s.drop_last().update(i, v));
        lemma_dead_count_update(s.drop_last(), i, v);
    }
}

proof fn lemma_dead_count_push(s: Seq<RefCount>, v: RefCount)
    requires
        v.count > 0,
    ensures
        dead_count(s.push(v)) == dead_count(s),
{
    assert(s.push(v).drop_last() =~= s);
}

proof fn lemma_dead_count_all(s: Seq<RefCount>)
    requires
        forall|i: int| 0 <= i < s.len() ==> s[i].count == 0,
    ensures
        dead_count(s) == s.len(),
    decreases s.len(),
{
    if s.len() > 0 {
        lemma_dead_count_all(s.drop_last());
    }
}

/// The cells after the handle to cell `h` is dropped: one strong reference
/// fewer, and the value freed with the last one.
pub open spec fn after_drop<T>(cells: Seq<CellView<T>>, h: nat) -> Seq<CellView<T>> {
    if cells[h as int].strong == 1 {
        cells.update(h as int, CellView { value: None, strong: 0, access: cells[h as int].access })
    } else {
        cells.update(h as int, CellView { strong: (cells[h as int].strong - 1) as nat, ..cells[h as int] })
    }
}

impl<T> View for Heap<T> {
    type V = Seq<CellView<T>>;

    closed spec fn view(&self) -> Seq<CellView<T>> {
        Seq::new(
            self.values@.len(),
            |i: int|
                CellView {
                    value: self.values@[i],
                    strong: self.counts@[i].count as nat,
                    access: self.accesses@[i]@,
                },
        )
    }
}

impl<T> Heap<T> {
    /// Consistency of the store: a cell holds a value exactly while it has
    /// strong references, and the free counter counts the freed cells.
    pub closed spec fn wf(&self) -> bool {
        &&& self.counts@.len() == self.values@.len()
        &&& self.accesses@.len() == self.values@.len()
        &&& forall|i: int|
            0 <= i < self.values@.len() ==> (self.values@[i] is Some <==> self.counts@[i].count > 0)
        &&& self.frees == dead_count(self.counts@)
        &&& forall|i: int| 0 <= i < self.accesses@.len() ==> #[trigger] self.accesses@[i]@ <= 1
    }

    /// How many cells were freed so far.
    pub closed spec fn frees(&self) -> nat {
        self.frees as nat
    }

    /// Whether `h` points at a live cell.
    pub open spec fn live(&self, h: nat) -> bool {
        h < self@.len() && self@[h as int].strong > 0
    }

    /// An empty store.
    pub fn new() -> (r: Self)
        ensures
            r.wf(),
            r@.len() == 0,
            r.frees() == 0,
    {
        Heap { values: Vec::new(), counts: Vec::new(), accesses: Vec::new(), frees: 0 }
    }

    /// How many cells were ever allocated.
    pub fn allocations(&self) -> (r: usize)
        ensures
            r == self@.len(),
    {
        self.values.len()
    }

    /// How many cells were freed.
    pub fn freed(&self) -> (r: usize)
        ensures
            r == self.frees(),
    {
        self.frees
    }

    /// The strong count of the cell behind `h`.
    pub fn strong_count(&self, h: &Shared) -> (r: usize)
        requires
            self.wf(),
            h@ < self@.len(),
        ensures
            r == self@[h@ as int].strong,
    {
        self.counts[h.index].count
    }

    /// Whether the cell behind `h` can be borrowed shared now.
    pub fn is_readable(&self, h: &Shared) -> (r: bool)
        requires
            self.wf(),
            h@ < self@.len(),
        ensures
            r == shared_step(self@[h@ as int].access).is_some(),
    {
        self.accesses[h.index].is_shared()
    }

    /// Read the value behind a live handle that is not borrowed exclusively.
    pub fn value(&self, h: &Shared) -> (r: &T)
        requires
            self.wf(),
            self.live(h@),
            self@[h@ as int].access != 1,
        ensures
            Some(*r) == self@[h@ as int].value,
    {
        let v = &self.values[h.index];
        match v {
            Some(x) => x,
            None => {
                proof {
                    assert(self.counts@[h@ as int].count > 0);
                }
                unreached()
            },
        }
    }

    /// Read the value of a cell through the exclusive borrow `b` of it.
    pub fn borrowed(&self, b: &Mut) -> (r: &T)
        requires
            self.wf(),
            self.live(b@),
        ensures
            Some(*r) == self@[b@ as int].value,
    {
        match &self.values[b.index] {
            Some(x) => x,
            None => unreached(),
        }
    }

    /// Another strong handle to the cell behind `h`.
    pub fn clone_ref(&mut self, h: &Shared) -> (r: Shared)
        requires
            old(self).wf(),
            old(self).live(h@),
            old(self)@[h@ as int].strong < usize::MAX,
        ensures
            final(self).wf(),
            r@ == h@,
            final(self).frees() == old(self).frees(),
            final(self)@ == old(self)@.update(
                h@ as int,
                CellView { strong: old(self)@[h@ as int].strong + 1, ..old(self)@[h@ as int] },
            ),
    {
        let i = h.index;
        let ghost before = self.counts@;
        self.counts[i].inc();
        proof {
            assert(self.counts@ =~= before.update(i as int, self.counts@[i as int]));
            lemma_dead_count_update(before, i as int, self.counts@[i as int]);
        }
        assert(self@ =~= old(self)@.update(
            h@ as int,
            CellView { strong: old(self)@[h@ as int].strong + 1, ..old(self)@[h@ as int] },
        ));
        Shared { index: i }
    }

    /// Give up the handle `h`. The cell is freed when it was the last strong
    /// reference; a cell with live borrows is never freed.
    pub fn drop_ref(&mut self, h: Shared)
        requires
            old(self).wf(),
            old(self).live(h@),
            old(self)@[h@ as int].strong > 1 || old(self)@[h@ as int].access == 0,
        ensures
            final(self).wf(),
            old(self)@[h@ as int].strong == 1 ==> final(self).frees() == old(self).frees() + 1
                && final(self)@ == old(self)@.update(
                h@ as int,
                CellView { value: None, strong: 0, access: old(self)@[h@ as int].access },
            ),
            old(self)@[h@ as int].strong > 1 ==> final(self).frees() == old(self).frees()
                && final(self)@ == old(self)@.update(
                h@ as int,
                CellView { strong: (old(self)@[h@ as int].strong - 1) as nat, ..old(self)@[h@ as int] },
            ),
            final(self)@ == after_drop(old(self)@, h@),
    {
        let i = h.index;
        let ghost before = self.counts@;
        let n = self.counts.len();
        let last = self.counts[i].dec();
        proof {
            assert(self.counts@ =~= before.update(i as int, self.counts@[i as int]));
            lemma_dead_count_update(before, i as int, self.counts@[i as int]);
            lemma_dead_count_bound(before);
            lemma_dead_count_bound(self.counts@);
            assert(dead_count(self.counts@) <= n);
        }
        if last {
            let _freed = self.values[i].take();
            self.frees = self.frees + 1;
            assert(self@ =~= old(self)@.update(
                h@ as int,
                CellView { value: None, strong: 0, access: old(self)@[h@ as int].access },
            ));
        } else {
            assert(self@ =~= old(self)@.update(
                h@ as int,
                CellView { strong: (old(self)@[h@ as int].strong - 1) as nat, ..old(self)@[h@ as int] },
            ));
        }
    }

    /// Take the value out of the cell behind `h`, which succeeds when `h` is
    /// its only strong reference and it is not borrowed; the cell is freed.
    /// Otherwise the handle is dropped, as any consumed handle is.
    pub fn take(&mut self, h: Shared) -> (r: Result<T, NotOwned>)
        requires
            old(self).wf(),
            old(self).live(h@),
            old(self)@[h@ as int].strong > 1 || old(self)@[h@ as int].access == 0,
        ensures
            final(self).wf(),
            r is Ok <==> old(self)@[h@ as int].strong == 1,
            r is Ok ==> Some(r->Ok_0) == old(self)@[h@ as int].value
                && final(self).frees() == old(self).frees() + 1
                && final(self)@ == old(self)@.update(
                h@ as int,
                CellView { value: None, strong: 0, access: 0 },
            ),
            r is Err ==> r->Err_0 == (NotOwned { index: h@ as usize }) && final(self).frees() == old(self).frees()
                && final(self)@ == old(self)@.update(
                h@ as int,
                CellView { strong: (old(self)@[h@ as int].strong - 1) as nat, ..old(self)@[h@ as int] },
            ),
    {
        let i = h.index;
        if !self.accesses[i].is_exclusive() || self.counts[i].count != 1 {
            self.drop_ref(h);
            return Err(NotOwned { index: i });
        }
        let ghost before = self.counts@;
        let n = self.counts.len();
        let _ = self.counts[i].dec();
        proof {
            assert(self.counts@ =~= before.update(i as int, self.counts@[i as int]));
            lemma_dead_count_update(before, i as int, self.counts@[i as int]);
            lemma_dead_count_bound(before);
            lemma_dead_count_bound(self.counts@);
            assert(self.frees + 1 <= n);
        }
        let v = self.values[i].take();
        self.frees = self.frees + 1;
        assert(self@ =~= old(self)@.update(h@ as int, CellView { value: None, strong: 0, access: 0 }));
        match v {
            Some(x) => Ok(x),
            None => unreached(),
        }
    }

    /// Borrow the cell behind `h` shared.
    pub fn get_ref(&mut self, h: &Shared) -> (r: Result<Ref, NotAccessibleRef>)
        requires
            old(self).wf(),
            h@ < old(self)@.len(),
        ensures
            final(self).wf(),
            final(self).frees() == old(self).frees(),
            r is Ok <==> shared_step(old(self)@[h@ as int].access).is_some(),
            r is Ok ==> r->Ok_0@ == h@,
            r is Ok ==> final(self)@ == old(self)@.update(
                h@ as int,
                CellView { access: shared_step(old(self)@[h@ as int].access).unwrap(), ..old(self)@[h@ as int] },
            ),
            r is Err ==> final(self)@ == old(self)@,
    {
        let i = h.index;
        match self.accesses[i].shared() {
            Ok(guard) => {
                assert(self@ =~= old(self)@.update(
                    h@ as int,
                    CellView { access: shared_step(old(self)@[h@ as int].access).unwrap(), ..old(self)@[h@ as int] },
                ));
                Ok(Ref { index: i, guard })
            },
            Err(e) => {
                assert(self@ =~= old(self)@);
                Err(e)
            },
        }
    }

    /// Borrow the cell behind `h` exclusively.
    pub fn get_mut(&mut self, h: &Shared) -> (r: Result<Mut, NotAccessibleMut>)
        requires
            old(self).wf(),
            h@ < old(self)@.len(),
        ensures
            final(self).wf(),
            final(self).frees() == old(self).frees(),
            r is Ok <==> exclusive_step(old(self)@[h@ as int].access).is_some(),
            r is Ok ==> r->Ok_0@ == h@,
            r is Ok ==> final(self)@ == old(self)@.update(
                h@ as int,
                CellView { access: 1, ..old(self)@[h@ as int] },
            ),
            r is Err ==> final(self)@ == old(self)@,
    {
        let i = h.index;
        match self.accesses[i].exclusive() {
            Ok(guard) => {
                assert(self@ =~= old(self)@.update(h@ as int, CellView { access: 1, ..old(self)@[h@ as int] }));
                Ok(Mut { index: i, guard })
            },
            Err(e) => {
                assert(self@ =~= old(self)@);
                Err(e)
            },
        }
    }

    /// End a shared borrow of the cell behind `h`.
    pub fn release_ref(&mut self, h: Ref)
        requires
            old(self).wf(),
            h@ < old(self)@.len(),
            old(self)@[h@ as int].access < 0,
        ensures
            final(self).wf(),
            final(self).frees() == old(self).frees(),
            final(self)@ == old(self)@.update(
                h@ as int,
                CellView { access: old(self)@[h@ as int].access + 1, ..old(self)@[h@ as int] },
            ),
    {
        let i = h.index;
        self.accesses[i].release_shared(h.guard);
        assert(self@ =~= old(self)@.update(
            h@ as int,
            CellView { access: old(self)@[h@ as int].access + 1, ..old(self)@[h@ as int] },
        ));
    }

    /// End the exclusive borrow of the cell behind `h`.
    pub fn release_mut(&mut self, h: Mut)
        requires
            old(self).wf(),
            h@ < old(self)@.len(),
            old(self)@[h@ as int].access == 1,
        ensures
            final(self).wf(),
            final(self).frees() == old(self).frees(),
            final(self)@ == old(self)@.update(h@ as int, CellView { access: 0, ..old(self)@[h@ as int] }),
    {
        let i = h.index;
        self.accesses[i].release_exclusive(h.guard);
        assert(self@ =~= old(self)@.update(h@ as int, CellView { access: 0, ..old(self)@[h@ as int] }));
    }

    /// Write a new value into a live cell while holding its exclusive borrow.
    pub fn replace(&mut self, h: &Shared, guard: &Mut, v: T) -> (r: T)
        requires
            old(self).wf(),
            old(self).live(h@),
            guard@ == h@,
            old(self)@[h@ as int].access == 1,
        ensures
            final(self).wf(),
            final(self).frees() == old(self).frees(),
            Some(r) == old(self)@[h@ as int].value,
            final(self)@ == old(self)@.update(h@ as int, CellView { value: Some(v), ..old(self)@[h@ as int] }),
    {
        let i = h.index;
        let prev = self.values[i].take();
        self.values.set(i, Some(v));
        assert(self@ =~= old(self)@.update(h@ as int, CellView { value: Some(v), ..old(self)@[h@ as int] }));
        match prev {
            Some(x) => x,
            None => unreached(),
        }
    }
}

impl Shared {
    /// The slot the handle points at.
    pub fn index(&self) -> (r: usize)
        ensures
            r == self@,
    {
        self.index
    }

    /// Allocate a new cell holding `data`, with one strong reference and no
    /// borrows.
    pub fn new<T>(heap: &mut Heap<T>, data: T) -> (r: Shared)
        requires
            old(heap).wf(),
            old(heap)@.len() < usize::MAX,
        ensures
            final(heap).wf(),
            r@ == old(heap)@.len(),
            final(heap).frees() == old(heap).frees(),
            final(heap)@ == old(heap)@.push(CellView { value: Some(data), strong: 1, access: 0 }),
    {
        let index = heap.values.len();
        let ghost before = heap.counts@;
        heap.values.push(Some(data));
        heap.counts.push(RefCount::new(1));
        heap.accesses.push(Access::new());
        proof {
            lemma_dead_count_push(before, heap.counts@.last());
        }
        assert(heap@ =~= old(heap)@.push(CellView { value: Some(data), strong: 1, access: 0 }));
        Shared { index }
    }
}

/// A shared borrow of a cell that also holds one strong reference to it.
#[derive(Debug)]
pub struct StrongRef {
    index: usize,
    guard: RawRefGuard,
}

/// An exclusive borrow of a cell that also holds one strong reference to it.
#[derive(Debug)]
pub struct StrongMut {
    index: usize,
    guard: RawMutGuard,
}

/// The guard part of a `StrongRef`: giving it back releases both the
/// borrow and the strong reference.
#[derive(Debug)]
pub struct RawStrongRefGuard {
    index: usize,
    guard: RawRefGuard,
}

/// The guard part of a `StrongMut`: giving it back releases both the
/// borrow and the strong reference.
#[derive(Debug)]
pub struct RawStrongMutGuard {
    index: usize,
    guard: RawMutGuard,
}

impl View for StrongRef {
    type V = nat;

    closed spec fn view(&self) -> nat {
        self.index as nat
    }
}

impl View for StrongMut {
    type V = nat;

    closed spec fn view(&self) -> nat {
        self.index as nat
    }
}

impl View for RawStrongRefGuard {
    type V = nat;

    closed spec fn view(&self) -> nat {
        self.index as nat
    }
}

impl View for RawStrongMutGuard {
    type V = nat;

    closed spec fn view(&self) -> nat {
        self.index as nat
    }
}

impl StrongRef {
    /// Join a handle and a shared borrow of its cell: the borrow now also
    /// holds the handle's strong reference.
    pub fn from_parts(h: Shared, b: Ref) -> (r: StrongRef)
        requires
            b@ == h@,
        ensures
            r@ == h@,
    {
        StrongRef { index: h.index, guard: b.guard }
    }

    /// Split into the slot of the cell and the guard that keeps it borrowed
    /// and alive.
    pub fn into_raw(this: Self) -> (r: (usize, RawStrongRefGuard))
        ensures
            r.0 == this@,
            r.1@ == this@,
    {
        (this.index, RawStrongRefGuard { index: this.index, guard: this.guard })
    }
}

impl StrongMut {
    /// Join a handle and an exclusive borrow of its cell: the borrow now
    /// also holds the handle's strong reference.
    pub fn from_parts(h: Shared, b: Mut) -> (r: StrongMut)
        requires
            b@ == h@,
        ensures
            r@ == h@,
    {
        StrongMut { index: h.index, guard: b.guard }
    }

    /// Split into the slot of the cell and the guard that keeps it borrowed
    /// and alive.
    pub fn into_raw(this: Self) -> (r: (usize, RawStrongMutGuard))
        ensures
            r.0 == this@,
            r.1@ == this@,
    {
        (this.index, RawStrongMutGuard { index: this.index, guard: this.guard })
    }
}

impl<T> Heap<T> {
    /// Turn the handle `h` into a shared borrow that keeps its strong
    /// reference. Where the cell cannot be borrowed shared, the handle is
    /// dropped.
    pub fn strong_ref(&mut self, h: Shared) -> (r: Result<StrongRef, NotAccessibleRef>)
        requires
            old(self).wf(),
            old(self).live(h@),
            old(self)@[h@ as int].strong > 1 || old(self)@[h@ as int].access == 0,
        ensures
            final(self).wf(),
            r is Ok <==> shared_step(old(self)@[h@ as int].access).is_some(),
            r is Ok ==> r->Ok_0@ == h@ && final(self).frees() == old(self).frees()
                && final(self)@ == old(self)@.update(
                h@ as int,
                CellView { access: shared_step(old(self)@[h@ as int].access).unwrap(), ..old(self)@[h@ as int] },
            ),
            r is Err ==> final(self).frees() == old(self).frees() && final(self)@ == old(self)@.update(
                h@ as int,
                CellView { strong: (old(self)@[h@ as int].strong - 1) as nat, ..old(self)@[h@ as int] },
            ),
    {
        match self.get_ref(&h) {
            Ok(b) => Ok(StrongRef { index: h.index, guard: b.guard }),
            Err(e) => {
                self.drop_ref(h);
                Err(e)
            },
        }
    }

    /// Turn the handle `h` into an exclusive borrow that keeps its strong
    /// reference. Where the cell cannot be borrowed exclusively, the handle
    /// is dropped.
    pub fn strong_mut(&mut self, h: Shared) -> (r: Result<StrongMut, NotAccessibleMut>)
        requires
            old(self).wf(),
            old(self).live(h@),
            old(self)@[h@ as int].strong > 1 || old(self)@[h@ as int].access == 0,
        ensures
            final(self).wf(),
            r is Ok <==> exclusive_step(old(self)@[h@ as int].access).is_some(),
            r is Ok ==> r->Ok_0@ == h@ && final(self).frees() == old(self).frees()
                && final(self)@ == old(self)@.update(h@ as int, CellView { access: 1, ..old(self)@[h@ as int] }),
            r is Err ==> final(self).frees() == old(self).frees() && final(self)@ == old(self)@.update(
                h@ as int,
                CellView { strong: (old(self)@[h@ as int].strong - 1) as nat, ..old(self)@[h@ as int] },
            ),
    {
        match self.get_mut(&h) {
            Ok(b) => Ok(StrongMut { index: h.index, guard: b.guard }),
            Err(e) => {
                self.drop_ref(h);
                Err(e)
            },
        }
    }

    /// Give back a `RawStrongRefGuard`: end its shared borrow, then drop its
    /// strong reference.
    pub fn release_strong_ref(&mut self, g: RawStrongRefGuard)
        requires
            old(self).wf(),
            old(self).live(g@),
            old(self)@[g@ as int].access < 0,
            old(self)@[g@ as int].strong > 1 || old(self)@[g@ as int].access == -1,
        ensures
            final(self).wf(),
            old(self)@[g@ as int].strong == 1 ==> final(self).frees() == old(self).frees() + 1
                && final(self)@ == old(self)@.update(
                g@ as int,
                CellView { value: None, strong: 0, access: 0 },
            ),
            old(self)@[g@ as int].strong > 1 ==> final(self).frees() == old(self).frees()
                && final(self)@ == old(self)@.update(
                g@ as int,
                CellView {
                    value: old(self)@[g@ as int].value,
                    strong: (old(self)@[g@ as int].strong - 1) as nat,
                    access: old(self)@[g@ as int].access + 1,
                },
            ),
    {
        let h = Shared { index: g.index };
        self.release_ref(Ref { index: g.index, guard: g.guard });
        self.drop_ref(h);
    }

    /// Give back a `RawStrongMutGuard`: end its exclusive borrow, then drop
    /// its strong reference.
    pub fn release_strong_mut(&mut self, g: RawStrongMutGuard)
        requires
            old(self).wf(),
            old(self).live(g@),
            old(self)@[g@ as int].access == 1,
        ensures
            final(self).wf(),
            old(self)@[g@ as int].strong == 1 ==> final(self).frees() == old(self).frees() + 1
                && final(self)@ == old(self)@.update(
                g@ as int,
                CellView { value: None, strong: 0, access: 0 },
            ),
            old(self)@[g@ as int].strong > 1 ==> final(self).frees() == old(self).frees()
                && final(self)@ == old(self)@.update(
                g@ as int,
                CellView {
                    value: old(self)@[g@ as int].value,
                    strong: (old(self)@[g@ as int].strong - 1) as nat,
                    access: 0,
                },
            ),
    {
        let h = Shared { index: g.index };
        self.release_mut(Mut { index: g.index, guard: g.guard });
        self.drop_ref(h);
    }
}

/// What a well-formed store tells callers about each cell: its access
/// counter lies in `isize::MIN..=1`, and it holds a value exactly while it
/// has strong references.
pub proof fn lemma_wf_cells<T>(heap: &Heap<T>)
    requires
        heap.wf(),
    ensures
        forall|i: int| 0 <= i < heap@.len() ==> isize::MIN <= #[trigger] heap@[i].access <= 1,
        forall|i: int| 0 <= i < heap@.len() ==> (#[trigger] heap@[i].value is Some <==> heap@[i].strong > 0),
{
    assert forall|i: int| 0 <= i < heap@.len() implies isize::MIN <= #[trigger] heap@[i].access <= 1 by {
        assert(heap.accesses@[i]@ <= 1);
        heap.accesses@[i].lemma_in_range();
    }
}

/// When every strong reference to every cell has been dropped, each cell
/// that was allocated has been freed exactly once.
pub proof fn lemma_no_leaks<T>(heap: &Heap<T>)
    requires
        heap.wf(),
        forall|i: int| 0 <= i < heap@.len() ==> #[trigger] heap@[i].strong == 0,
    ensures
        heap.frees() == heap@.len(),
{
    assert forall|i: int| 0 <= i < heap.counts@.len() implies heap.counts@[i].count == 0 by {
        assert(heap@[i].strong == 0);
    }
    lemma_dead_count_all(heap.counts@);
}

} // verus!
