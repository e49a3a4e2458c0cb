//! Compiled units: loading a source file into functions, and linking their
//! calls against themselves and a context.
use vstd::prelude::*;
use crate::compile::{compile_fn, effect, fn_lowers, CompileError, CompiledFn, Inst};
use crate::hash::{span_parts, type_hash};
use crate::context::{fn_hashes, Context, FnEntry};
use crate::decl::{parse_file, Decl, DeclFile};
use crate::token::{ParseError, Span};

verus! {

/// A call that names no function.
#[derive(Debug, Clone, Copy, PartialEq, Eq, Structural)]
pub enum LinkerError {
    /// The call at `span` names the function hashed `hash`, which neither
    /// the unit nor the context has.
    MissingFunction { hash: u64, span: Span },
}

/// Why a source could not be loaded.
#[derive(Debug)]
pub enum LoadError {
    Parse(ParseError),
    Compile(CompileError),
    Link(Vec<LinkerError>),
}

/// An immutable compiled artifact: its functions.
#[derive(Debug)]
pub struct Unit {
    pub functions: Vec<CompiledFn>,
}

/// Whether one of `fns` has hash `h`.
pub open spec fn unit_has(fns: Seq<CompiledFn>, h: u64) -> bool {
    exists|i: int| 0 <= i < fns.len() && #[trigger] fns[i].hash.value == h
}

/// Whether a call of `h` resolves: to a function of the unit or of the
/// context.
pub open spec fn resolves(fns: Seq<CompiledFn>, ctx: Seq<FnEntry>, h: u64) -> bool {
    unit_has(fns, h) || fn_hashes(ctx).contains(h)
}

/// The hash an instruction calls, where it is a direct call.
pub open spec fn call_hash(i: Inst) -> Option<u64> {
    match i {
        Inst::Call { hash, .. } => Some(hash),
        _ => None,
    }
}

/// Every direct call of every function resolves.
pub open spec fn linked(fns: Seq<CompiledFn>, ctx: Seq<FnEntry>) -> bool {
    forall|i: int, j: int|
        0 <= i < fns.len() && 0 <= j < fns[i].insts@.len() && #[trigger] call_hash(fns[i].insts@[j]) is Some
            ==> resolves(fns, ctx, call_hash(fns[i].insts@[j])->Some_0)
}

/// The call at instruction `j` of function `i` names a function that
/// neither the unit nor the context has.
pub open spec fn unresolved(fns: Seq<CompiledFn>, ctx: Seq<FnEntry>, i: int, j: int) -> bool {
    &&& 0 <= i < fns.len()
    &&& 0 <= j < fns[i].insts@.len()
    &&& call_hash(fns[i].insts@[j]) is Some
    &&& !resolves(fns, ctx, call_hash(fns[i].insts@[j])->Some_0)
}

/// The report of such a call: its hash and its span.
pub open spec fn report_of(fns: Seq<CompiledFn>, i: int, j: int) -> LinkerError {
    LinkerError::MissingFunction { hash: call_hash(fns[i].insts@[j])->Some_0, span: fns[i].spans@[j] }
}

/// `i` is the first function of `fns` with hash `h`.
pub open spec fn first_with_hash(fns: Seq<CompiledFn>, h: u64, i: int) -> bool {
    &&& 0 <= i < fns.len()
    &&& fns[i].hash.value == h
    &&& forall|j: int| 0 <= j < i ==> #[trigger] fns[j].hash.value != h
}

/// The index of the function of the unit with hash `h`.
pub fn find_fn(fns: &Vec<CompiledFn>, h: u64) -> (r: Option<usize>)
    ensures
        r is Some <==> unit_has(fns@, h),
        r is Some ==> first_with_hash(fns@, h, r->Some_0 as int),
{
    let mut k: usize = 0;
    while k < fns.len()
        invariant
            k <= fns@.len(),
            forall|j: int| 0 <= j < k ==> #[trigger] fns@[j].hash.value != h,
        decreases fns@.len() - k,
    {
        if fns[k].hash.value == h {
            return Some(k);
        }
        k = k + 1;
    }
    None
}

/// Check that every direct call resolves; otherwise report each call that
/// does not, with its hash and span.
pub fn link(fns: &Vec<CompiledFn>, ctx: &Context) -> (r: Result<(), Vec<LinkerError>>)
    requires
        forall|i: int| 0 <= i < fns@.len() ==> #[trigger] fns@[i].insts@.len() == fns@[i].spans@.len(),
    ensures
        r is Ok <==> linked(fns@, ctx.functions@),
        r is Err ==> r->Err_0@.len() > 0,
        r is Err ==> forall|e: int| 0 <= e < r->Err_0@.len() ==> !resolves(
            fns@,
            ctx.functions@,
            (#[trigger] r->Err_0@[e])->MissingFunction_hash,
        ),
        r is Err ==> forall|i: int, j: int| #[trigger] unresolved(fns@, ctx.functions@, i, j)
            ==> r->Err_0@.contains(report_of(fns@, i, j)),
{
    let mut errors: Vec<LinkerError> = Vec::new();
    let mut i: usize = 0;
    while i < fns.len()
        invariant
            i <= fns@.len(),
            forall|k: int| 0 <= k < fns@.len() ==> #[trigger] fns@[k].insts@.len() == fns@[k].spans@.len(),
            forall|e: int| 0 <= e < errors@.len() ==> !resolves(fns@, ctx.functions@, (#[trigger] errors@[e])->MissingFunction_hash),
            errors@.len() == 0 <==> forall|a: int, b: int|
                0 <= a < i && 0 <= b < fns@[a].insts@.len() && #[trigger] call_hash(fns@[a].insts@[b]) is Some
                    ==> resolves(fns@, ctx.functions@, call_hash(fns@[a].insts@[b])->Some_0),
            forall|a: int, b: int| a < i && #[trigger] unresolved(fns@, ctx.functions@, a, b)
                ==> errors@.contains(report_of(fns@, a, b)),
        decreases fns@.len() - i,
    {
        let f = &fns[i];
        let ghost before_fn = errors@.len();
        let mut j: usize = 0;
        while j < f.insts.len()
            invariant
                i < fns@.len(),
                *f == fns@[i as int],
                j <= f.insts@.len(),
                f.insts@.len() == f.spans@.len(),
                errors@.len() >= before_fn,
                forall|e: int| 0 <= e < errors@.len() ==> !resolves(fns@, ctx.functions@, (#[trigger] errors@[e])->MissingFunction_hash),
                errors@.len() == 0 <==> (before_fn == 0 && forall|b: int|
                    0 <= b < j && #[trigger] call_hash(f.insts@[b]) is Some
                        ==> resolves(fns@, ctx.functions@, call_hash(f.insts@[b])->Some_0)),
                forall|a: int, b: int| (a < i || (a == i && b < j)) && #[trigger] unresolved(fns@, ctx.functions@, a, b)
                    ==> errors@.contains(report_of(fns@, a, b)),
            decreases f.insts@.len() - j,
        {
            let inst = f.insts[j];
            match inst {
                Inst::Call { hash, .. } => {
                    assert(call_hash(f.insts@[j as int]) == Some(hash));
                    let in_unit = find_fn(fns, hash).is_some();
                    let in_ctx = ctx.lookup(hash).is_some();
                    if !in_unit && !in_ctx {
                        let ghost before = errors@;
                        errors.push(LinkerError::MissingFunction { hash, span: f.spans[j] });
                        proof {
                            assert(errors@[before.len() as int] == report_of(fns@, i as int, j as int));
                            assert forall|a: int, b: int| (a < i || (a == i && b < j + 1)) && #[trigger] unresolved(fns@, ctx.functions@, a, b)
                                implies errors@.contains(report_of(fns@, a, b)) by {
                                if a == i && b == j {
                                    assert(errors@[before.len() as int] == report_of(fns@, a, b));
                                } else {
                                    assert(before.contains(report_of(fns@, a, b)));
                                    let k = choose|k: int| 0 <= k < before.len() && before[k] == report_of(fns@, a, b);
                                    assert(errors@[k] == report_of(fns@, a, b));
                                }
                            }
                        }
                    }
                },
                _ => {
                    assert(call_hash(f.insts@[j as int]) is None);
                },
            }
            j = j + 1;
        }
        i = i + 1;
    }
    if errors.len() > 0 {
        Err(errors)
    } else {
        Ok(())
    }
}

/// The names of the function declarations among `decls`, in order.
pub open spec fn fn_names(decls: Seq<Decl>) -> Seq<Span>
    decreases decls.len(),
{
    if decls.len() == 0 {
        seq![]
    } else {
        match decls.last() {
            Decl::DeclFn(f) => fn_names(decls.drop_last()).push(f.name),
            _ => fn_names(decls.drop_last()),
        }
    }
}

/// Every function declaration among `decls` lowers.
pub open spec fn all_fns_lower(src: Seq<u8>, decls: Seq<Decl>) -> bool {
    forall|i: int| 0 <= i < decls.len() && (#[trigger] decls[i]) is DeclFn ==> fn_lowers(src, decls[i]->DeclFn_0)
}

/// Compile every function declaration of a parsed file, in order, and link
/// the result against `ctx`. Declarations other than functions carry no
/// code. Where every function lowers, only linking can fail.
pub fn load_file(ctx: &Context, src: &[u8], file: &DeclFile) -> (r: Result<Unit, LoadError>)
    ensures
        r is Ok ==> linked(r->Ok_0.functions@, ctx.functions@),
        r is Ok ==> r->Ok_0.functions@.len() == fn_names(file.decls@).len(),
        r is Ok ==> forall|i: int| 0 <= i < r->Ok_0.functions@.len() ==> (#[trigger] r->Ok_0.functions@[i]).hash.value
            == type_hash(span_parts(src@, seq![fn_names(file.decls@)[i]])),
        r is Ok ==> forall|i: int| 0 <= i < r->Ok_0.functions@.len() ==> effect(
            #[trigger] r->Ok_0.functions@[i].insts@,
        ) == 0 && r->Ok_0.functions@[i].insts@.len() == r->Ok_0.functions@[i].spans@.len()
            && r->Ok_0.functions@[i].insts@.len() > 0 && r->Ok_0.functions@[i].insts@.last() == Inst::Return,
        all_fns_lower(src@, file.decls@) ==> r is Ok || r->Err_0 is Link,
        r is Err && r->Err_0 is Link ==> r->Err_0->Link_0@.len() > 0,
{
    let mut functions: Vec<CompiledFn> = Vec::new();
    let mut k: usize = 0;
    while k < file.decls.len()
        invariant
            k <= file.decls@.len(),
            functions@.len() == fn_names(file.decls@.take(k as int)).len(),
            forall|i: int| 0 <= i < functions@.len() ==> (#[trigger] functions@[i]).hash.value == type_hash(
                span_parts(src@, seq![fn_names(file.decls@.take(k as int))[i]]),
            ),
            forall|i: int| 0 <= i < functions@.len() ==> #[trigger] functions@[i].insts@.len()
                == functions@[i].spans@.len() && effect(functions@[i].insts@) == 0
                && functions@[i].insts@.len() > 0 && functions@[i].insts@.last() == Inst::Return,
        decreases file.decls@.len() - k,
    {
        let ghost names = fn_names(file.decls@.take(k as int));
        assert(file.decls@.take(k + 1).drop_last() =~= file.decls@.take(k as int));
        assert(file.decls@.take(k + 1).last() == file.decls@[k as int]);
        match &file.decls[k] {
            Decl::DeclFn(f) => {
                match compile_fn(src, f) {
                    Ok(c) => {
                        functions.push(c);
                        assert(fn_names(file.decls@.take(k + 1)) == names.push(f.name));
                    },
                    Err(e) => {
                        return Err(LoadError::Compile(e));
                    },
                }
            },
            _ => {},
        }
        k = k + 1;
    }
    assert(file.decls@.take(k as int) =~= file.decls@);
    match link(&functions, ctx) {
        Ok(()) => Ok(Unit { functions }),
        Err(errors) => Err(LoadError::Link(errors)),
    }
}

/// Parse a source file, then compile and link it as `load_file` does.
pub fn load_source(ctx: &Context, src: &str) -> (r: Result<Unit, LoadError>)
    ensures
        r is Ok ==> linked(r->Ok_0.functions@, ctx.functions@),
        r is Ok ==> forall|i: int| 0 <= i < r->Ok_0.functions@.len() ==> effect(
            #[trigger] r->Ok_0.functions@[i].insts@,
        ) == 0 && r->Ok_0.functions@[i].insts@.len() == r->Ok_0.functions@[i].spans@.len()
            && r->Ok_0.functions@[i].insts@.len() > 0 && r->Ok_0.functions@[i].insts@.last() == Inst::Return,
        r is Err && r->Err_0 is Link ==> r->Err_0->Link_0@.len() > 0,
{
    let file = match parse_file(src) {
        Ok(file) => file,
        Err(e) => {
            return Err(LoadError::Parse(e));
        },
    };
    load_file(ctx, src.as_bytes(), &file)
}

} // verus!
