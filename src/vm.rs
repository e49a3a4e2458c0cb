//! A stack machine that runs compiled units.
//!
//! The machine runs until the root function returns, or until it calls a
//! host function: then it halts with the hash and the arguments, and the
//! embedder performs the call and resumes the machine with the result.
//! Integer arithmetic is checked: leaving the range of `i64` is an error.
use vstd::prelude::*;
use crate::ast::BinOp;
use crate::compile::{inst_effect, Inst};
use crate::context::{fn_hashes, Context};
use crate::unit::{find_fn, first_with_hash, unit_has, Unit};
use crate::value::{primitive_type, Value, ValueType, VmError};

verus! {

/// A call frame: which function runs, where, and where its slots start.
#[derive(Debug, Clone, Copy, PartialEq, Eq, Structural)]
pub struct CallFrame {
    pub function: usize,
    pub ip: usize,
    pub base: usize,
}

/// Why the machine stopped.
#[derive(Debug)]
pub enum VmHalt {
    /// The root function returned this value.
    Completed(Value),
    /// A host function is to be called with these arguments; resume with
    /// its result.
    CallHost { hash: u64, args: Vec<Value> },
}

/// What `Op(op)` does to the stack `before`: an underflow without two
/// operands; otherwise the result of the operator on them, pushed in their
/// place, or its error.
pub open spec fn op_step(op: BinOp, before: Seq<Value>, after: Seq<Value>, r: Result<Option<VmHalt>, VmError>) -> bool {
    let n = before.len();
    if n < 2 {
        r == Err::<Option<VmHalt>, VmError>(VmError::StackUnderflow)
    } else {
        let v = binary_spec(op, before[n - 2], before[n - 1]);
        &&& (r is Ok <==> v is Ok)
        &&& (v is Err ==> r == Err::<Option<VmHalt>, VmError>(v->Err_0))
        &&& (r is Ok ==> r->Ok_0 is None && after == before.take(n - 2).push(v->Ok_0))
    }
}

/// `r` halts for the host function `h` with arguments `args`.
pub open spec fn host_halt(r: Result<Option<VmHalt>, VmError>, h: u64, args: Seq<Value>) -> bool {
    match r {
        Ok(Some(VmHalt::CallHost { hash, args: a })) => hash == h && a@ == args,
        _ => false,
    }
}

/// `r` completes with the value `v`.
pub open spec fn completed(r: Result<Option<VmHalt>, VmError>, v: Value) -> bool {
    match r {
        Ok(Some(VmHalt::Completed(c))) => c == v,
        _ => false,
    }
}

/// The frames with the innermost one moved to instruction `ip`.
pub open spec fn at_ip(frames: Seq<CallFrame>, ip: int) -> Seq<CallFrame> {
    frames.update(frames.len() - 1, CallFrame { ip: ip as usize, ..frames.last() })
}

/// The machine: operand stack and call frames.
#[derive(Debug)]
pub struct Vm {
    pub stack: Vec<Value>,
    pub frames: Vec<CallFrame>,
}

/// A copy of a value held inline, or `None` for one in a heap cell.
pub open spec fn copy_spec(v: Value) -> Option<Value> {
    match v {
        Value::Unit => Some(Value::Unit),
        Value::Bool(b) => Some(Value::Bool(b)),
        Value::Byte(b) => Some(Value::Byte(b)),
        Value::Char(c) => Some(Value::Char(c)),
        Value::Integer(i) => Some(Value::Integer(i)),
        Value::Float(f) => Some(Value::Float(f)),
        Value::Type(t) => Some(Value::Type(t)),
        Value::StaticString(s) => Some(Value::StaticString(s)),
        _ => None,
    }
}

/// Copy a value held inline.
pub fn copy_value(v: &Value) -> (r: Option<Value>)
    ensures
        r == copy_spec(*v),
{
    match v {
        Value::Unit => Some(Value::Unit),
        Value::Bool(b) => Some(Value::Bool(*b)),
        Value::Byte(b) => Some(Value::Byte(*b)),
        Value::Char(c) => Some(Value::Char(*c)),
        Value::Integer(i) => Some(Value::Integer(*i)),
        Value::Float(f) => Some(Value::Float(*f)),
        Value::Type(t) => Some(Value::Type(*t)),
        Value::StaticString(s) => Some(Value::StaticString(*s)),
        _ => None,
    }
}

/// Division rounding toward zero.
pub open spec fn trunc_div(a: int, b: int) -> int {
    if a >= 0 {
        if b > 0 { a / b } else { -(a / -b) }
    } else {
        if b > 0 { -((-a) / b) } else { (-a) / (-b) }
    }
}

/// The remainder that goes with division rounding toward zero.
pub open spec fn trunc_rem(a: int, b: int) -> int {
    a - b * trunc_div(a, b)
}

/// Integer arithmetic and comparison, checked.
pub open spec fn int_op(op: BinOp, a: i64, b: i64) -> Result<Value, VmError> {
    match op {
        BinOp::Add => if i64::MIN <= a + b <= i64::MAX { Ok(Value::Integer((a + b) as i64)) } else { Err(VmError::Overflow) },
        BinOp::Sub => if i64::MIN <= a - b <= i64::MAX { Ok(Value::Integer((a - b) as i64)) } else { Err(VmError::Overflow) },
        BinOp::Mul => if i64::MIN <= a * b <= i64::MAX { Ok(Value::Integer((a * b) as i64)) } else { Err(VmError::Overflow) },
        BinOp::Div => if b == 0 {
            Err(VmError::DivideByZero)
        } else if a == i64::MIN && b == -1 {
            Err(VmError::Overflow)
        } else {
            Ok(Value::Integer(trunc_div(a as int, b as int) as i64))
        },
        BinOp::Rem => if b == 0 {
            Err(VmError::DivideByZero)
        } else if a == i64::MIN && b == -1 {
            Err(VmError::Overflow)
        } else {
            Ok(Value::Integer(trunc_rem(a as int, b as int) as i64))
        },
        BinOp::Eq => Ok(Value::Bool(a == b)),
        BinOp::Neq => Ok(Value::Bool(a != b)),
        BinOp::Lt => Ok(Value::Bool(a < b)),
        BinOp::Gt => Ok(Value::Bool(a > b)),
        BinOp::Lte => Ok(Value::Bool(a <= b)),
        BinOp::Gte => Ok(Value::Bool(a >= b)),
        _ => Err(VmError::UnsupportedBinaryOperation { lhs: ValueType::Integer, rhs: ValueType::Integer }),
    }
}

/// Boolean logic and comparison.
pub open spec fn bool_op(op: BinOp, a: bool, b: bool) -> Result<Value, VmError> {
    match op {
        BinOp::And => Ok(Value::Bool(a && b)),
        BinOp::Or => Ok(Value::Bool(a || b)),
        BinOp::Eq => Ok(Value::Bool(a == b)),
        BinOp::Neq => Ok(Value::Bool(a != b)),
        _ => Err(VmError::UnsupportedBinaryOperation { lhs: ValueType::Bool, rhs: ValueType::Bool }),
    }
}

/// What a binary operator gives on two values held inline.
pub open spec fn binary_spec(op: BinOp, a: Value, b: Value) -> Result<Value, VmError> {
    match (a, b) {
        (Value::Integer(x), Value::Integer(y)) => int_op(op, x, y),
        (Value::Bool(x), Value::Bool(y)) => bool_op(op, x, y),
        _ => match (primitive_type(a), primitive_type(b)) {
            (Some(l), Some(r)) => Err(VmError::UnsupportedBinaryOperation { lhs: l, rhs: r }),
            _ => Err(VmError::UnsupportedInstruction),
        },
    }
}

/// Apply a binary operator.
pub fn binary(op: BinOp, a: &Value, b: &Value) -> (r: Result<Value, VmError>)
    ensures
        r == binary_spec(op, *a, *b),
{
    match (a, b) {
        (Value::Integer(x), Value::Integer(y)) => {
            let x = *x;
            let y = *y;
            match op {
                BinOp::Add => match x.checked_add(y) {
                    Some(v) => Ok(Value::Integer(v)),
                    None => Err(VmError::Overflow),
                },
                BinOp::Sub => match x.checked_sub(y) {
                    Some(v) => Ok(Value::Integer(v)),
                    None => Err(VmError::Overflow),
                },
                BinOp::Mul => match x.checked_mul(y) {
                    Some(v) => Ok(Value::Integer(v)),
                    None => Err(VmError::Overflow),
                },
                BinOp::Div => if y == 0 {
                    Err(VmError::DivideByZero)
                } else if x == i64::MIN && y == -1 {
                    Err(VmError::Overflow)
                } else {
                    Ok(Value::Integer(div_trunc(x, y)))
                },
                BinOp::Rem => if y == 0 {
                    Err(VmError::DivideByZero)
                } else if x == i64::MIN && y == -1 {
                    Err(VmError::Overflow)
                } else {
                    let q = div_trunc(x, y);
                    proof {
                        lemma_trunc_rem_bound(x as int, y as int);
                        assert((q as int) * (y as int) == (y as int) * trunc_div(x as int, y as int)) by (nonlinear_arith)
                            requires
                                q as int == trunc_div(x as int, y as int),
                        ;
                        assert((i64::MAX as int) * (i64::MAX as int) + i64::MAX < i128::MAX) by (nonlinear_arith);
                    }
                    let p = (q as i128) * (y as i128);
                    assert(trunc_rem(x as int, y as int) == x - p);
                    Ok(Value::Integer(((x as i128) - p) as i64))
                },
                BinOp::Eq => Ok(Value::Bool(x == y)),
                BinOp::Neq => Ok(Value::Bool(x != y)),
                BinOp::Lt => Ok(Value::Bool(x < y)),
                BinOp::Gt => Ok(Value::Bool(x > y)),
                BinOp::Lte => Ok(Value::Bool(x <= y)),
                BinOp::Gte => Ok(Value::Bool(x >= y)),
                _ => Err(VmError::UnsupportedBinaryOperation { lhs: ValueType::Integer, rhs: ValueType::Integer }),
            }
        },
        (Value::Bool(x), Value::Bool(y)) => {
            let x = *x;
            let y = *y;
            match op {
                BinOp::And => Ok(Value::Bool(x && y)),
                BinOp::Or => Ok(Value::Bool(x || y)),
                BinOp::Eq => Ok(Value::Bool(x == y)),
                BinOp::Neq => Ok(Value::Bool(x != y)),
                _ => Err(VmError::UnsupportedBinaryOperation { lhs: ValueType::Bool, rhs: ValueType::Bool }),
            }
        },
        _ => match (inline_type(a), inline_type(b)) {
            (Some(l), Some(r)) => Err(VmError::UnsupportedBinaryOperation { lhs: l, rhs: r }),
            _ => Err(VmError::UnsupportedInstruction),
        },
    }
}

proof fn lemma_trunc_div_bound(a: int, b: int)
    requires
        b != 0,
        i64::MIN <= a <= i64::MAX,
        i64::MIN <= b <= i64::MAX,
        !(a == i64::MIN && b == -1),
    ensures
        i64::MIN <= trunc_div(a, b) <= i64::MAX,
{
    if a >= 0 {
        if b > 0 {
            assert(0 <= a / b <= a) by (nonlinear_arith)
                requires
                    a >= 0,
                    b > 0,
            ;
        } else {
            assert(0 <= a / -b <= a) by (nonlinear_arith)
                requires
                    a >= 0,
                    -b > 0,
            ;
        }
    } else {
        if b > 0 {
            assert(0 <= (-a) / b <= -a) by (nonlinear_arith)
                requires
                    -a > 0,
                    b > 0,
            ;
        } else {
            if b == -1 {
                assert((-a) / 1 == -a);
            } else {
                assert(0 <= (-a) / (-b) <= (-a) / 2) by (nonlinear_arith)
                    requires
                        -a > 0,
                        -b >= 2,
                ;
            }
        }
    }
}

proof fn lemma_trunc_rem_bound(a: int, b: int)
    requires
        b != 0,
        i64::MIN <= a <= i64::MAX,
        i64::MIN <= b <= i64::MAX,
        !(a == i64::MIN && b == -1),
    ensures
        i64::MIN <= trunc_rem(a, b) <= i64::MAX,
        -(i64::MAX as int) * (i64::MAX as int) <= b * trunc_div(a, b) <= (i64::MAX as int) * (i64::MAX as int) + i64::MAX,
{
    let q = trunc_div(a, b);
    if a >= 0 {
        if b > 0 {
            assert(0 <= a - b * (a / b) < b) by (nonlinear_arith)
                requires
                    a >= 0,
                    b > 0,
            ;
            assert(0 <= b * (a / b) <= a) by (nonlinear_arith)
                requires
                    a >= 0,
                    b > 0,
            ;
        } else {
            let c = -b;
            assert(0 <= a - c * (a / c) < c) by (nonlinear_arith)
                requires
                    a >= 0,
                    c > 0,
            ;
            assert(0 <= c * (a / c) <= a) by (nonlinear_arith)
                requires
                    a >= 0,
                    c > 0,
            ;
            assert(b * q == c * (a / c)) by (nonlinear_arith)
                requires
                    c == -b,
                    q == -(a / c),
            ;
        }
    } else {
        let n = -a;
        if b > 0 {
            assert(0 <= n - b * (n / b) < b) by (nonlinear_arith)
                requires
                    n > 0,
                    b > 0,
            ;
            assert(0 <= b * (n / b) <= n) by (nonlinear_arith)
                requires
                    n > 0,
                    b > 0,
            ;
            assert(b * q == -(b * (n / b))) by (nonlinear_arith)
                requires
                    q == -(n / b),
            ;
        } else {
            let c = -b;
            assert(0 <= n - c * (n / c) < c) by (nonlinear_arith)
                requires
                    n > 0,
                    c > 0,
            ;
            assert(0 <= c * (n / c) <= n) by (nonlinear_arith)
                requires
                    n > 0,
                    c > 0,
            ;
            assert(b * q == -(c * (n / c))) by (nonlinear_arith)
                requires
                    c == -b,
                    q == n / c,
            ;
        }
    }
}

/// Division rounding toward zero, on operands where it cannot overflow.
fn div_trunc(x: i64, y: i64) -> (r: i64)
    requires
        y != 0,
        !(x == i64::MIN && y == -1),
    ensures
        r == trunc_div(x as int, y as int),
{
    proof {
        lemma_trunc_div_bound(x as int, y as int);
    }
    let a = x as i128;
    let b = y as i128;
    let q: i128 = if a >= 0 {
        if b > 0 { a / b } else { -(a / -b) }
    } else {
        if b > 0 { -((-a) / b) } else { (-a) / (-b) }
    };
    q as i64
}

/// The type of a value that needs no heap to tell.
fn inline_type(v: &Value) -> (r: Option<ValueType>)
    ensures
        r == primitive_type(*v),
{
    match v {
        Value::Unit => Some(ValueType::Unit),
        Value::Bool(_) => Some(ValueType::Bool),
        Value::Byte(_) => Some(ValueType::Byte),
        Value::Char(_) => Some(ValueType::Char),
        Value::Integer(_) => Some(ValueType::Integer),
        Value::Float(_) => Some(ValueType::Float),
        Value::Type(_) => Some(ValueType::Type),
        Value::StaticString(_) => Some(ValueType::String),
        Value::String(_) => Some(ValueType::String),
        Value::Bytes(_) => Some(ValueType::Bytes),
        Value::Vec(_) => Some(ValueType::Vec),
        Value::Tuple(_) => Some(ValueType::Tuple),
        Value::Object(_) => Some(ValueType::Object),
        Value::Future(_) => Some(ValueType::Future),
        Value::Option(_) => Some(ValueType::Option),
        Value::Result(_) => Some(ValueType::Result),
        _ => None,
    }
}

/// The name under which a type of value held inline is registered.
pub fn type_name_of(t: ValueType) -> (r: Option<&'static str>)
    ensures
        r is None <==> (t is TypedTuple || t is TypedObject || t is External),
{
    match t {
        ValueType::Unit => Some("unit"),
        ValueType::Bool => Some("bool"),
        ValueType::Byte => Some("byte"),
        ValueType::Char => Some("char"),
        ValueType::Integer => Some("int"),
        ValueType::Float => Some("float"),
        ValueType::String => Some("String"),
        ValueType::Bytes => Some("Bytes"),
        ValueType::Vec => Some("Vec"),
        ValueType::Tuple => Some("Tuple"),
        ValueType::Object => Some("Object"),
        ValueType::Type => Some("Type"),
        ValueType::Future => Some("Future"),
        ValueType::Option => Some("Option"),
        ValueType::Result => Some("Result"),
        _ => None,
    }
}

/// The type hash that instance functions of `t` are keyed by.
pub fn type_hash_of(t: ValueType) -> (r: u64)
    ensures
        t is TypedTuple ==> r == t->TypedTuple_0,
        t is TypedObject ==> r == t->TypedObject_0,
        t is External ==> r == t->External_0,
{
    match t {
        ValueType::TypedTuple(h) => h,
        ValueType::TypedObject(h) => h,
        ValueType::External(h) => h,
        _ => match type_name_of(t) {
            Some(name) => {
                let path = vec![name];
                crate::hash::Hash::of_path(path.as_slice()).value
            },
            None => 0,
        },
    }
}

impl Vm {
    /// An idle machine.
    pub fn new() -> (r: Vm)
        ensures
            r.stack@.len() == 0,
            r.frames@.len() == 0,
    {
        Vm { stack: Vec::new(), frames: Vec::new() }
    }

    /// Pop the top value.
    fn pop(&mut self) -> (r: Result<Value, VmError>)
        ensures
            final(self).frames@ == old(self).frames@,
            r is Ok <==> old(self).stack@.len() > 0,
            r is Ok ==> final(self).stack@ == old(self).stack@.drop_last() && r->Ok_0 == old(self).stack@.last(),
            r is Err ==> final(self).stack@ == old(self).stack@ && r->Err_0 == VmError::StackUnderflow,
    {
        match self.stack.pop() {
            Some(v) => Ok(v),
            None => Err(VmError::StackUnderflow),
        }
    }

    /// Pop `n` values, the deepest first.
    fn pop_args(&mut self, n: usize) -> (r: Result<Vec<Value>, VmError>)
        ensures
            final(self).frames@ == old(self).frames@,
            r is Ok <==> old(self).stack@.len() >= n,
            r is Ok ==> final(self).stack@ == old(self).stack@.take(old(self).stack@.len() - n)
                && r->Ok_0@ == old(self).stack@.skip(old(self).stack@.len() - n),
            r is Err ==> final(self).stack@ == old(self).stack@,
    {
        if self.stack.len() < n {
            return Err(VmError::StackUnderflow);
        }
        let at = self.stack.len() - n;
        let args = self.stack.split_off(at);
        Ok(args)
    }

    /// Start the function hashed `hash` of `unit` with `args`.
    pub fn call(&mut self, unit: &Unit, hash: u64, args: Vec<Value>) -> (r: Result<(), VmError>)
        requires
            old(self).frames@.len() == 0,
            old(self).stack@.len() == 0,
        ensures
            r is Ok <==> unit_has(unit.functions@, hash) && forall|i: int| #[trigger] first_with_hash(
                unit.functions@,
                hash,
                i,
            ) ==> unit.functions@[i].args == args@.len(),
            !unit_has(unit.functions@, hash) ==> r == Err::<(), VmError>(VmError::MissingFunction { hash }),
            r is Ok ==> final(self).stack@ == args@ && final(self).frames@.len() == 1 && final(self).frames@[0].ip == 0
                && final(self).frames@[0].base == 0 && first_with_hash(
                unit.functions@,
                hash,
                final(self).frames@[0].function as int,
            ),
    {
        let function = match find_fn(&unit.functions, hash) {
            Some(i) => i,
            None => {
                return Err(VmError::MissingFunction { hash });
            },
        };
        let expected = unit.functions[function].args;
        if expected != args.len() {
            proof {
                assert(first_with_hash(unit.functions@, hash, function as int));
            }
            return Err(VmError::BadArgumentCount { expected, actual: args.len() });
        }
        proof {
            assert forall|i: int| #[trigger] first_with_hash(unit.functions@, hash, i) implies unit.functions@[i].args
                == args@.len() by {
                if i < function {
                    assert(unit.functions@[i].hash.value != hash);
                } else if i > function {
                    assert(unit.functions@[function as int].hash.value != hash);
                }
            }
        }
        self.stack = args;
        self.frames.push(CallFrame { function, ip: 0, base: 0 });
        Ok(())
    }

    /// Hand the result of a host call back to the halted machine.
    pub fn resume(&mut self, value: Value)
        ensures
            final(self).stack@ == old(self).stack@.push(value),
            final(self).frames@ == old(self).frames@,
    {
        self.stack.push(value);
    }

    /// The instruction the innermost frame is at, where there is one.
    pub open spec fn current(&self, unit: &Unit) -> Option<Inst> {
        let f = self.frames@.last();
        if self.frames@.len() > 0 && f.function < unit.functions@.len()
            && f.ip < unit.functions@[f.function as int].insts@.len() {
            Some(unit.functions@[f.function as int].insts@[f.ip as int])
        } else {
            None
        }
    }

    /// Run one instruction of the innermost frame. `Some` where the machine
    /// halts. An instruction that neither calls, returns nor jumps changes
    /// the depth of the stack by exactly its effect.
    pub fn step(&mut self, unit: &Unit, ctx: &Context) -> (r: Result<Option<VmHalt>, VmError>)
        requires
            old(self).frames@.len() > 0,
        ensures
            r is Ok && r->Ok_0 is None ==> final(self).frames@.len() > 0,
            r is Ok && r->Ok_0 is Some ==> (r->Ok_0->Some_0 is Completed <==> final(self).frames@.len() == 0),
            old(self).current(unit) == Some(Inst::PushUnit) ==> r is Ok && r->Ok_0 is None
                && final(self).stack@ == old(self).stack@.push(Value::Unit),
            forall|v: i64| old(self).current(unit) == Some(Inst::Integer(v)) ==> r is Ok && r->Ok_0 is None
                && final(self).stack@ == old(self).stack@.push(Value::Integer(v)),
            forall|b: bool| old(self).current(unit) == Some(Inst::Bool(b)) ==> r is Ok && r->Ok_0 is None
                && final(self).stack@ == old(self).stack@.push(Value::Bool(b)),
            forall|op: BinOp| old(self).current(unit) == Some(Inst::Op(op)) ==> op_step(op, old(self).stack@, final(self).stack@, r),
            old(self).current(unit) is None ==> r == Err::<Option<VmHalt>, VmError>(VmError::BadInstructionPointer),
            forall|h: u64, n: usize| old(self).current(unit) == Some(Inst::Call { hash: h, args: n }) && !unit_has(
                unit.functions@,
                h,
            ) && fn_hashes(ctx.functions@).contains(h) && old(self).stack@.len() >= n ==> host_halt(
                r,
                h,
                old(self).stack@.skip(old(self).stack@.len() - n),
            ) && final(self).stack@ == old(self).stack@.take(old(self).stack@.len() - n),
            forall|h: u64, n: usize, i: int| old(self).current(unit) == Some(Inst::Call { hash: h, args: n }) && first_with_hash(
                unit.functions@,
                h,
                i,
            ) && unit.functions@[i].args == n && old(self).stack@.len() >= n ==> r is Ok && r->Ok_0 is None
                && final(self).stack@ == old(self).stack@ && final(self).frames@ == at_ip(
                old(self).frames@,
                old(self).frames@.last().ip + 1,
            ).push(CallFrame { function: i as usize, ip: 0, base: (old(self).stack@.len() - n) as usize }),
            old(self).current(unit) == Some(Inst::Return) && old(self).stack@.len() > old(self).frames@.last().base
                ==> r is Ok && (old(self).frames@.len() == 1 ==> completed(r, old(self).stack@.last())) && (old(
                self,
            ).frames@.len() > 1 ==> r->Ok_0 is None && final(self).frames@ == old(self).frames@.drop_last()
                && final(self).stack@ == old(self).stack@.take(old(self).frames@.last().base as int).push(
                old(self).stack@.last(),
            )),
            forall|l: usize, c: usize| old(self).current(unit) == Some(Inst::Jump { label: l, carry: c }) && l
                < unit.functions@[old(self).frames@.last().function as int].labels@.len() ==> r is Ok && r->Ok_0 is None
                && final(self).stack@ == old(self).stack@ && final(self).frames@ == at_ip(
                old(self).frames@,
                unit.functions@[old(self).frames@.last().function as int].labels@[l as int] as int,
            ),
            forall|o: usize| old(self).current(unit) == Some(Inst::Copy { offset: o }) && old(self).frames@.last().base
                + o < old(self).stack@.len() && copy_spec(old(self).stack@[old(self).frames@.last().base + o]) is Some
                ==> r is Ok && r->Ok_0 is None && final(self).stack@ == old(self).stack@.push(
                copy_spec(old(self).stack@[old(self).frames@.last().base + o])->Some_0,
            ),
            r is Ok && r->Ok_0 is None && old(self).current(unit) is Some && !(old(self).current(unit)->Some_0 is Call)
                && !(old(self).current(unit)->Some_0 is Return) && !(old(self).current(unit)->Some_0 is Jump) ==> final(self).stack@.len() == old(self).stack@.len()
                + inst_effect(old(self).current(unit)->Some_0),
    {
        let depth = self.frames.len();
        let frame = self.frames[depth - 1];
        if frame.function >= unit.functions.len() {
            return Err(VmError::BadInstructionPointer);
        }
        let f = &unit.functions[frame.function];
        if frame.ip >= f.insts.len() {
            return Err(VmError::BadInstructionPointer);
        }
        let inst = f.insts[frame.ip];
        self.frames.set(depth - 1, CallFrame { ip: frame.ip + 1, ..frame });
        match inst {
            Inst::PushUnit => self.stack.push(Value::Unit),
            Inst::Integer(v) => self.stack.push(Value::Integer(v)),
            Inst::Bool(b) => self.stack.push(Value::Bool(b)),
            Inst::String { slot } => self.stack.push(Value::StaticString(slot)),
            Inst::Copy { offset } => {
                if offset >= self.stack.len() || frame.base > self.stack.len() - 1 - offset {
                    return Err(VmError::StackUnderflow);
                }
                match copy_value(&self.stack[frame.base + offset]) {
                    Some(v) => self.stack.push(v),
                    None => {
                        return Err(VmError::UnsupportedInstruction);
                    },
                }
            },
            Inst::Replace { offset } => {
                let v = self.pop()?;
                if offset >= self.stack.len() || frame.base > self.stack.len() - 1 - offset {
                    return Err(VmError::StackUnderflow);
                }
                self.stack.set(frame.base + offset, v);
            },
            Inst::Pop => {
                self.pop()?;
            },
            Inst::PopN { count } => {
                self.pop_args(count)?;
            },
            Inst::Clean { count } => {
                let top = self.pop()?;
                self.pop_args(count)?;
                self.stack.push(top);
            },
            Inst::Not => {
                match self.pop()? {
                    Value::Bool(b) => self.stack.push(Value::Bool(!b)),
                    other => {
                        return Err(VmError::ExpectedBoolean { actual: match inline_type(&other) {
                            Some(t) => t,
                            None => ValueType::Unit,
                        } });
                    },
                }
            },
            Inst::Op(op) => {
                let ghost before = self.stack@;
                let b = self.pop()?;
                let a = self.pop()?;
                assert(self.stack@ =~= before.take(before.len() - 2));
                let v = binary(op, &a, &b)?;
                self.stack.push(v);
            },
            Inst::Call { hash, args } => {
                match find_fn(&unit.functions, hash) {
                    Some(i) => {
                        let expected = unit.functions[i].args;
                        if expected != args {
                            return Err(VmError::BadArgumentCount { expected, actual: args });
                        }
                        if self.stack.len() < args {
                            return Err(VmError::StackUnderflow);
                        }
                        let base = self.stack.len() - args;
                        self.frames.push(CallFrame { function: i, ip: 0, base });
                    },
                    None => {
                        if ctx.lookup(hash).is_none() {
                            return Err(VmError::MissingFunction { hash });
                        }
                        let args = self.pop_args(args)?;
                        return Ok(Some(VmHalt::CallHost { hash, args }));
                    },
                }
            },
            Inst::CallInstance { name, args } => {
                if args == 0 || self.stack.len() < args {
                    return Err(VmError::StackUnderflow);
                }
                let receiver = &self.stack[self.stack.len() - args];
                let t = match inline_type(receiver) {
                    Some(t) => t,
                    None => {
                        return Err(VmError::UnsupportedInstruction);
                    },
                };
                let hash = type_hash_of(t) ^ name;
                if ctx.lookup(hash).is_none() {
                    return Err(VmError::MissingFunction { hash });
                }
                let args = self.pop_args(args)?;
                return Ok(Some(VmHalt::CallHost { hash, args }));
            },
            Inst::Jump { label, .. } => {
                if label >= f.labels.len() {
                    return Err(VmError::BadInstructionPointer);
                }
                self.frames.set(depth - 1, CallFrame { ip: f.labels[label], ..frame });
            },
            Inst::JumpIfFalse { label } => {
                match self.pop()? {
                    Value::Bool(b) => {
                        if !b {
                            if label >= f.labels.len() {
                                return Err(VmError::BadInstructionPointer);
                            }
                            self.frames.set(depth - 1, CallFrame { ip: f.labels[label], ..frame });
                        }
                    },
                    other => {
                        return Err(VmError::ExpectedBoolean { actual: match inline_type(&other) {
                            Some(t) => t,
                            None => ValueType::Unit,
                        } });
                    },
                }
            },
            Inst::Return => {
                let v = self.pop()?;
                if self.stack.len() < frame.base {
                    return Err(VmError::StackUnderflow);
                }
                self.stack.truncate(frame.base);
                self.frames.pop();
                if self.frames.len() == 0 {
                    return Ok(Some(VmHalt::Completed(v)));
                }
                self.stack.push(v);
            },
        }
        Ok(None)
    }

    /// Run until the machine halts, for at most `fuel` instructions.
    pub fn run(&mut self, unit: &Unit, ctx: &Context, fuel: usize) -> (r: Result<VmHalt, VmError>)
        requires
            old(self).frames@.len() > 0,
        ensures
            r is Ok ==> (r->Ok_0 is Completed <==> final(self).frames@.len() == 0),
            fuel == 0 ==> r == Err::<VmHalt, VmError>(VmError::OutOfFuel),
            fuel > 0 && old(self).current(unit) is None ==> r == Err::<VmHalt, VmError>(VmError::BadInstructionPointer),
            fuel > 0 && old(self).current(unit) == Some(Inst::Return) && old(self).frames@.len() == 1
                && old(self).stack@.len() > old(self).frames@.last().base ==> completed(
                match r {
                    Ok(h) => Ok(Some(h)),
                    Err(e) => Err(e),
                },
                old(self).stack@.last(),
            ),
            forall|h: u64, n: usize| fuel > 0 && old(self).current(unit) == Some(Inst::Call { hash: h, args: n }) && !unit_has(
                unit.functions@,
                h,
            ) && fn_hashes(ctx.functions@).contains(h) && old(self).stack@.len() >= n ==> host_halt(
                match r {
                    Ok(x) => Ok(Some(x)),
                    Err(e) => Err(e),
                },
                h,
                old(self).stack@.skip(old(self).stack@.len() - n),
            ),
    {
        let mut left = fuel;
        while left > 0
            invariant
                self.frames@.len() > 0,
                fuel > 0 || left == 0,
                left <= fuel,
                left == fuel ==> self.frames@ == old(self).frames@ && self.stack@ == old(self).stack@,
                left < fuel ==> old(self).current(unit) is Some,
                left < fuel ==> !(old(self).current(unit) == Some(Inst::Return) && old(self).frames@.len() == 1
                    && old(self).stack@.len() > old(self).frames@.last().base),
                left < fuel ==> forall|h: u64, n: usize| !(old(self).current(unit) == Some(Inst::Call { hash: h, args: n })
                    && !unit_has(unit.functions@, h) && fn_hashes(ctx.functions@).contains(h) && old(self).stack@.len() >= n),
            decreases left,
        {
            match self.step(unit, ctx)? {
                Some(halt) => {
                    return Ok(halt);
                },
                None => {},
            }
            left = left - 1;
        }
        Err(VmError::OutOfFuel)
    }
}

} // verus!
