//! Host modules, the context they are installed into, and linking.
//!
//! A module registers types, functions and instance functions by hash.
//! Within a module and within a context every hash names one entry; a
//! second registration of a hash is refused.
use vstd::prelude::*;
use crate::hash::{inst_hash, path_parts, type_hash};
use vstd::string::StringSliceAdditionalSpecFns;

verus! {

/// Errors raised while registering or installing host items.
#[derive(Debug, Clone, Copy, PartialEq, Eq, Structural)]
pub enum ContextError {
    /// A type with this hash is already registered.
    ConflictingType { hash: u64 },
    /// A function with this hash is already registered.
    ConflictingFunction { hash: u64 },
}

/// How a host function is called.
#[derive(Debug, Clone, Copy, PartialEq, Eq, Structural)]
pub enum FnKind {
    /// Returns its value.
    Function,
    /// Returns a future of its value.
    AsyncFunction,
    /// An instance function: returns its value.
    InstFn,
    /// An instance function that returns a future.
    AsyncInstFn,
}

/// A registered host function.
#[derive(Debug, Clone, Copy, PartialEq, Eq, Structural)]
pub struct FnEntry {
    pub hash: u64,
    pub kind: FnKind,
    pub args: usize,
}

/// The hashes of a run of entries.
pub open spec fn fn_hashes(s: Seq<FnEntry>) -> Seq<u64> {
    s.map_values(|f: FnEntry| f.hash)
}

/// No hash occurs twice.
pub open spec fn distinct(s: Seq<u64>) -> bool {
    forall|i: int, j: int| 0 <= i < j < s.len() ==> s[i] != s[j]
}

/// Whether `h` occurs in `s`.
fn contains(s: &Vec<u64>, h: u64) -> (r: bool)
    ensures
        r == s@.contains(h),
{
    let mut k: usize = 0;
    while k < s.len()
        invariant
            k <= s@.len(),
            forall|j: int| 0 <= j < k ==> s@[j] != h,
        decreases s@.len() - k,
    {
        if s[k] == h {
            return true;
        }
        k = k + 1;
    }
    false
}

/// Whether a function with hash `h` is among `fns`.
fn has_fn(fns: &Vec<FnEntry>, h: u64) -> (r: bool)
    ensures
        r == fn_hashes(fns@).contains(h),
{
    let mut k: usize = 0;
    while k < fns.len()
        invariant
            k <= fns@.len(),
            forall|j: int| 0 <= j < k ==> fns@[j].hash != h,
        decreases fns@.len() - k,
    {
        if fns[k].hash == h {
            assert(fn_hashes(fns@)[k as int] == h);
            return true;
        }
        k = k + 1;
    }
    assert(!fn_hashes(fns@).contains(h)) by {
        if fn_hashes(fns@).contains(h) {
            let j = choose|j: int| 0 <= j < fn_hashes(fns@).len() && fn_hashes(fns@)[j] == h;
            assert(fns@[j].hash == h);
        }
    }
    false
}

/// A set of host items under one path prefix.
#[derive(Debug)]
pub struct Module {
    pub prefix: Vec<&'static str>,
    pub types: Vec<u64>,
    pub functions: Vec<FnEntry>,
}

/// The type hash of `prefix` followed by `path`.
#[verifier::opaque]
pub open spec fn item_hash(prefix: Seq<&str>, path: Seq<&str>) -> u64 {
    type_hash(path_parts(prefix + path))
}

impl Module {
    /// Registered hashes are unique.
    pub open spec fn wf(&self) -> bool {
        &&& distinct(self.types@)
        &&& distinct(fn_hashes(self.functions@))
    }

    /// An empty module under the path `prefix`.
    pub fn new(prefix: &[&'static str]) -> (r: Module)
        ensures
            r.wf(),
            r.prefix@ == prefix@,
            r.types@.len() == 0,
            r.functions@.len() == 0,
    {
        let mut p: Vec<&'static str> = Vec::new();
        let mut k: usize = 0;
        while k < prefix.len()
            invariant
                k <= prefix@.len(),
                p@ == prefix@.take(k as int),
            decreases prefix@.len() - k,
        {
            p.push(prefix[k]);
            k = k + 1;
            assert(p@ =~= prefix@.take(k as int));
        }
        assert(prefix@.take(k as int) =~= prefix@);
        Module { prefix: p, types: Vec::new(), functions: Vec::new() }
    }

    /// The hash of `path` under this module's prefix.
    pub fn item(&self, path: &[&'static str]) -> (r: u64)
        ensures
            r == item_hash(self.prefix@, path@),
    {
        let mut full: Vec<&'static str> = Vec::new();
        let mut k: usize = 0;
        while k < self.prefix.len()
            invariant
                k <= self.prefix@.len(),
                full@ == self.prefix@.take(k as int),
            decreases self.prefix@.len() - k,
        {
            full.push(self.prefix[k]);
            k = k + 1;
            assert(full@ =~= self.prefix@.take(k as int));
        }
        let mut j: usize = 0;
        while j < path.len()
            invariant
                k == self.prefix@.len(),
                j <= path@.len(),
                full@ == self.prefix@ + path@.take(j as int),
            decreases path@.len() - j,
        {
            full.push(path[j]);
            j = j + 1;
            assert(full@ =~= self.prefix@ + path@.take(j as int));
        }
        assert(path@.take(j as int) =~= path@);
        proof {
            reveal(item_hash);
        }
        crate::hash::Hash::of_path(full.as_slice()).value
    }

    /// Register the type `path`: its hash, unless a type with that hash is
    /// registered already.
    pub fn ty(&mut self, path: &[&'static str]) -> (r: Result<u64, ContextError>)
        requires
            old(self).wf(),
        ensures
            final(self).wf(),
            final(self).prefix@ == old(self).prefix@,
            final(self).functions@ == old(self).functions@,
            r is Ok <==> !old(self).types@.contains(item_hash(old(self).prefix@, path@)),
            r is Ok ==> r->Ok_0 == item_hash(old(self).prefix@, path@)
                && final(self).types@ == old(self).types@.push(r->Ok_0),
            r is Err ==> final(self).types@ == old(self).types@
                && r->Err_0 == (ContextError::ConflictingType { hash: item_hash(old(self).prefix@, path@) }),
    {
        let h = self.item(path);
        if contains(&self.types, h) {
            return Err(ContextError::ConflictingType { hash: h });
        }
        self.types.push(h);
        Ok(h)
    }

    /// Register a function entry with hash `h`, unless one with that hash is
    /// registered already.
    fn register(&mut self, h: u64, kind: FnKind, args: usize) -> (r: Result<u64, ContextError>)
        requires
            old(self).wf(),
        ensures
            final(self).wf(),
            final(self).prefix@ == old(self).prefix@,
            final(self).types@ == old(self).types@,
            r is Ok <==> !fn_hashes(old(self).functions@).contains(h),
            r is Ok ==> r->Ok_0 == h
                && final(self).functions@ == old(self).functions@.push(FnEntry { hash: h, kind, args }),
            r is Err ==> final(self).functions@ == old(self).functions@
                && r->Err_0 == (ContextError::ConflictingFunction { hash: h }),
    {
        if has_fn(&self.functions, h) {
            return Err(ContextError::ConflictingFunction { hash: h });
        }
        let ghost before = self.functions@;
        self.functions.push(FnEntry { hash: h, kind, args });
        proof {
            assert(fn_hashes(self.functions@) =~= fn_hashes(before).push(h));
        }
        Ok(h)
    }

    /// Register the function `path` taking `args` arguments.
    pub fn function(&mut self, path: &[&'static str], args: usize) -> (r: Result<u64, ContextError>)
        requires
            old(self).wf(),
        ensures
            final(self).wf(),
            final(self).prefix@ == old(self).prefix@,
            final(self).types@ == old(self).types@,
            r is Ok <==> !fn_hashes(old(self).functions@).contains(item_hash(old(self).prefix@, path@)),
            r is Ok ==> r->Ok_0 == item_hash(old(self).prefix@, path@) && final(self).functions@
                == old(self).functions@.push(FnEntry { hash: r->Ok_0, kind: FnKind::Function, args }),
            r is Err ==> final(self).functions@ == old(self).functions@,
    {
        let h = self.item(path);
        self.register(h, FnKind::Function, args)
    }

    /// Register the function `path`, which returns a future.
    pub fn async_function(&mut self, path: &[&'static str], args: usize) -> (r: Result<u64, ContextError>)
        requires
            old(self).wf(),
        ensures
            final(self).wf(),
            final(self).prefix@ == old(self).prefix@,
            final(self).types@ == old(self).types@,
            r is Ok <==> !fn_hashes(old(self).functions@).contains(item_hash(old(self).prefix@, path@)),
            r is Ok ==> r->Ok_0 == item_hash(old(self).prefix@, path@) && final(self).functions@
                == old(self).functions@.push(FnEntry { hash: r->Ok_0, kind: FnKind::AsyncFunction, args }),
            r is Err ==> final(self).functions@ == old(self).functions@,
    {
        let h = self.item(path);
        self.register(h, FnKind::AsyncFunction, args)
    }

    /// Register the instance function `name` of the type hashed `ty`; `args`
    /// counts the receiver.
    pub fn inst_fn(&mut self, ty: u64, name: &str, args: usize) -> (r: Result<u64, ContextError>)
        requires
            old(self).wf(),
        ensures
            final(self).wf(),
            final(self).prefix@ == old(self).prefix@,
            final(self).types@ == old(self).types@,
            r is Ok <==> !fn_hashes(old(self).functions@).contains(inst_hash(ty, name.spec_bytes())),
            r is Ok ==> r->Ok_0 == inst_hash(ty, name.spec_bytes()) && final(self).functions@
                == old(self).functions@.push(FnEntry { hash: r->Ok_0, kind: FnKind::InstFn, args }),
            r is Err ==> final(self).functions@ == old(self).functions@,
    {
        let h = crate::hash::Hash::instance_fn(crate::hash::Hash { value: ty }, name).value;
        self.register(h, FnKind::InstFn, args)
    }

    /// Register the instance function `name` of the type hashed `ty`, which
    /// returns a future; `args` counts the receiver.
    pub fn async_inst_fn(&mut self, ty: u64, name: &str, args: usize) -> (r: Result<u64, ContextError>)
        requires
            old(self).wf(),
        ensures
            final(self).wf(),
            final(self).prefix@ == old(self).prefix@,
            final(self).types@ == old(self).types@,
            r is Ok <==> !fn_hashes(old(self).functions@).contains(inst_hash(ty, name.spec_bytes())),
            r is Ok ==> r->Ok_0 == inst_hash(ty, name.spec_bytes()) && final(self).functions@
                == old(self).functions@.push(FnEntry { hash: r->Ok_0, kind: FnKind::AsyncInstFn, args }),
            r is Err ==> final(self).functions@ == old(self).functions@,
    {
        let h = crate::hash::Hash::instance_fn(crate::hash::Hash { value: ty }, name).value;
        self.register(h, FnKind::AsyncInstFn, args)
    }
}

/// The registry of host types and functions that units link against.
#[derive(Debug)]
pub struct Context {
    pub types: Vec<u64>,
    pub functions: Vec<FnEntry>,
}

/// No entry of `b` shares a hash with an entry of `a`.
pub open spec fn disjoint(a: Seq<u64>, b: Seq<u64>) -> bool {
    forall|j: int| 0 <= j < b.len() ==> !a.contains(#[trigger] b[j])
}

impl Context {
    /// Registered hashes are unique.
    pub open spec fn wf(&self) -> bool {
        &&& distinct(self.types@)
        &&& distinct(fn_hashes(self.functions@))
    }

    /// An empty context.
    pub fn new() -> (r: Context)
        ensures
            r.wf(),
            r.types@.len() == 0,
            r.functions@.len() == 0,
    {
        Context { types: Vec::new(), functions: Vec::new() }
    }

    /// Whether a host function with hash `h` is registered.
    pub fn lookup(&self, h: u64) -> (r: Option<FnEntry>)
        ensures
            r is Some <==> fn_hashes(self.functions@).contains(h),
            r is Some ==> r->Some_0.hash == h && self.functions@.contains(r->Some_0),
    {
        let mut k: usize = 0;
        while k < self.functions.len()
            invariant
                k <= self.functions@.len(),
                forall|j: int| 0 <= j < k ==> self.functions@[j].hash != h,
            decreases self.functions@.len() - k,
        {
            if self.functions[k].hash == h {
                assert(fn_hashes(self.functions@)[k as int] == h);
                return Some(self.functions[k]);
            }
            k = k + 1;
        }
        assert(!fn_hashes(self.functions@).contains(h)) by {
            if fn_hashes(self.functions@).contains(h) {
                let j = choose|j: int| 0 <= j < fn_hashes(self.functions@).len() && fn_hashes(self.functions@)[j] == h;
                assert(self.functions@[j].hash == h);
            }
        }
        None
    }

    /// Install every item of `m`. Nothing is installed where one of its
    /// hashes is taken already.
    pub fn install(&mut self, m: &Module) -> (r: Result<(), ContextError>)
        requires
            old(self).wf(),
            m.wf(),
        ensures
            final(self).wf(),
            r is Ok <==> disjoint(old(self).types@, m.types@)
                && disjoint(fn_hashes(old(self).functions@), fn_hashes(m.functions@)),
            r is Ok ==> final(self).types@ == old(self).types@ + m.types@
                && final(self).functions@ == old(self).functions@ + m.functions@,
            r is Err ==> final(self).types@ == old(self).types@ && final(self).functions@ == old(self).functions@,
    {
        let mut k: usize = 0;
        while k < m.types.len()
            invariant
                self.wf(),
                self.types@ == old(self).types@,
                self.functions@ == old(self).functions@,
                k <= m.types@.len(),
                forall|j: int| 0 <= j < k ==> !self.types@.contains(#[trigger] m.types@[j]),
            decreases m.types@.len() - k,
        {
            if contains(&self.types, m.types[k]) {
                return Err(ContextError::ConflictingType { hash: m.types[k] });
            }
            k = k + 1;
        }
        let mut k: usize = 0;
        while k < m.functions.len()
            invariant
                self.wf(),
                self.types@ == old(self).types@,
                self.functions@ == old(self).functions@,
                disjoint(old(self).types@, m.types@),
                k <= m.functions@.len(),
                forall|j: int| 0 <= j < k ==> !fn_hashes(self.functions@).contains(#[trigger] fn_hashes(m.functions@)[j]),
            decreases m.functions@.len() - k,
        {
            let h = m.functions[k].hash;
            assert(fn_hashes(m.functions@)[k as int] == h);
            if has_fn(&self.functions, h) {
                return Err(ContextError::ConflictingFunction { hash: h });
            }
            k = k + 1;
        }
        let ghost old_types = self.types@;
        let ghost old_fns = self.functions@;
        let mut k: usize = 0;
        while k < m.types.len()
            invariant
                k <= m.types@.len(),
                self.types@ == old_types + m.types@.take(k as int),
                self.functions@ == old_fns,
            decreases m.types@.len() - k,
        {
            self.types.push(m.types[k]);
            k = k + 1;
            assert(self.types@ =~= old_types + m.types@.take(k as int));
        }
        let mut k: usize = 0;
        while k < m.functions.len()
            invariant
                k <= m.functions@.len(),
                self.types@ == old_types + m.types@,
                self.functions@ == old_fns + m.functions@.take(k as int),
            decreases m.functions@.len() - k,
        {
            self.functions.push(m.functions[k]);
            k = k + 1;
            assert(self.functions@ =~= old_fns + m.functions@.take(k as int));
        }
        assert(m.types@.take(m.types@.len() as int) =~= m.types@);
        assert(m.functions@.take(m.functions@.len() as int) =~= m.functions@);
        proof {
            lemma_distinct_concat(old_types, m.types@);
            assert(fn_hashes(old_fns + m.functions@) =~= fn_hashes(old_fns) + fn_hashes(m.functions@));
            lemma_distinct_concat(fn_hashes(old_fns), fn_hashes(m.functions@));
        }
        Ok(())
    }
}

proof fn lemma_distinct_concat(a: Seq<u64>, b: Seq<u64>)
    requires
        distinct(a),
        distinct(b),
        disjoint(a, b),
    ensures
        distinct(a + b),
{
    assert forall|i: int, j: int| 0 <= i < j < (a + b).len() implies (a + b)[i] != (a + b)[j] by {
        if j >= a.len() && i < a.len() {
            assert((a + b)[j] == b[j - a.len()]);
            assert(!a.contains(b[j - a.len()]));
            assert(a[i] == (a + b)[i]);
        }
    }
}

} // verus!
