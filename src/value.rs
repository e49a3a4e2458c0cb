//! Runtime values: primitives held inline, everything else in a shared
//! heap cell that a `Shared` handle points at.
use vstd::prelude::*;
use crate::access::{exclusive_step, shared_step};
use crate::shared::{after_drop, CellView, Heap, Mut, Ref, Shared, StrongMut, StrongRef};

verus! {

/// The payload of a heap cell.
#[derive(Debug)]
pub enum Obj {
    /// A UTF-8 string, as its bytes.
    String(Vec<u8>),
    /// A byte string.
    Bytes(Vec<u8>),
    /// A vector of values.
    Vec(Vec<Value>),
    /// A tuple of values.
    Tuple(Vec<Value>),
    /// An object: keys in insertion order, each with its value.
    Object(Vec<(Vec<u8>, Value)>),
    /// A future, identified by the host.
    Future(u64),
    /// An optional value.
    Option(Option<Value>),
    /// A result.
    Result(Result<Value, Value>),
    /// A tuple of a registered type.
    TypedTuple(TypedTuple),
    /// An object of a registered type.
    TypedObject(TypedObject),
    /// A host value, known by its type hash and name of its type.
    External { type_hash: u64, name: Vec<u8> },
}

/// A tuple with a well-defined type.
#[derive(Debug)]
pub struct TypedTuple {
    pub ty: u64,
    pub tuple: Vec<Value>,
}

/// An object with a well-defined type.
#[derive(Debug)]
pub struct TypedObject {
    pub ty: u64,
    pub object: Vec<(Vec<u8>, Value)>,
}

/// A value.
#[derive(Debug)]
pub enum Value {
    Unit,
    Bool(bool),
    Byte(u8),
    Char(char),
    Integer(i64),
    /// A float, as the bits of its IEEE 754 binary64 encoding.
    Float(u64),
    /// A type, by its hash.
    Type(u64),
    /// A static string of the unit, by its slot.
    StaticString(usize),
    String(Shared),
    Bytes(Shared),
    Vec(Shared),
    Tuple(Shared),
    Object(Shared),
    Future(Shared),
    Option(Shared),
    Result(Shared),
    TypedTuple(Shared),
    TypedObject(Shared),
    External(Shared),
}

/// The type of a value, as far as dispatch needs it.
#[derive(Debug, Clone, Copy, PartialEq, Eq, Structural)]
pub enum ValueType {
    Unit,
    Bool,
    Byte,
    Char,
    Integer,
    Float,
    String,
    Bytes,
    Vec,
    Tuple,
    Object,
    Type,
    Future,
    Option,
    Result,
    TypedTuple(u64),
    TypedObject(u64),
    External(u64),
}

/// The type of a value as reported in diagnostics: a type value carries
/// its hash, and a host value the name of its type.
#[derive(Debug, Clone, PartialEq, Eq)]
pub enum ValueTypeInfo {
    Unit,
    Bool,
    Byte,
    Char,
    Integer,
    Float,
    String,
    Bytes,
    Vec,
    Tuple,
    Object,
    Type(u64),
    Future,
    Option,
    Result,
    TypedTuple(u64),
    TypedObject(u64),
    External(Vec<u8>),
}

/// Errors of the runtime.
#[derive(Debug, Clone, Copy, PartialEq, Eq, Structural)]
pub enum VmError {
    /// The cell could not be borrowed shared.
    NotAccessibleRef { index: usize },
    /// The cell could not be borrowed exclusively.
    NotAccessibleMut { index: usize },
    /// A value of another type was expected.
    ExpectedResult { actual: ValueType },
    ExpectedOption { actual: ValueType },
    ExpectedString { actual: ValueType },
    ExpectedBytes { actual: ValueType },
    ExpectedVec { actual: ValueType },
    ExpectedTuple { actual: ValueType },
    ExpectedObject { actual: ValueType },
    ExpectedExternal { actual: ValueType },
    ExpectedInteger { actual: ValueType },
    ExpectedBoolean { actual: ValueType },
    /// An operator applied to operands it does not take.
    UnsupportedBinaryOperation { lhs: ValueType, rhs: ValueType },
    /// An operator applied to an operand it does not take.
    UnsupportedUnaryOperation { operand: ValueType },
    /// Integer arithmetic left the range of `i64`.
    Overflow,
    /// Division or remainder by zero.
    DivideByZero,
    /// The operand stack had fewer values than an instruction takes.
    StackUnderflow,
    /// A jump or a frame refers past the instructions.
    BadInstructionPointer,
    /// No function with this hash exists.
    MissingFunction { hash: u64 },
    /// A function was called with the wrong number of arguments.
    BadArgumentCount { expected: usize, actual: usize },
    /// An instruction that this machine does not run.
    UnsupportedInstruction,
    /// The machine ran out of steps.
    OutOfFuel,
    /// A handle that points at no live cell.
    DanglingHandle,
    /// A host value of another type was found.
    UnexpectedValueType { expected: u64, actual: Option<u64> },
    /// The value could not be taken: it has other references or borrows.
    NotOwned { index: usize },
}

/// The host type of a payload, where it is a host value.
pub open spec fn external_type(o: Option<Obj>) -> Option<u64> {
    match o {
        Some(Obj::External { type_hash, .. }) => Some(type_hash),
        _ => None,
    }
}

/// The host type of a payload, where it is a host value.
fn external_type_of(o: &Obj) -> (r: Option<u64>)
    ensures
        r == external_type(Some(*o)),
{
    match o {
        Obj::External { type_hash, .. } => Some(*type_hash),
        _ => None,
    }
}

impl Shared {
    /// Borrow the host value behind this handle shared, where it has the
    /// host type `expected`. Nothing changes where it fails.
    pub fn downcast_ref(&self, heap: &mut Heap<Obj>, expected: u64) -> (r: Result<Ref, VmError>)
        requires
            old(heap).wf(),
            old(heap).live(self@),
        ensures
            final(heap).wf(),
            final(heap).frees() == old(heap).frees(),
            r is Ok <==> shared_step(old(heap)@[self@ as int].access).is_some()
                && external_type(old(heap)@[self@ as int].value) == Some(expected),
            r is Ok ==> r->Ok_0@ == self@ && final(heap)@ == old(heap)@.update(
                self@ as int,
                CellView { access: shared_step(old(heap)@[self@ as int].access).unwrap(), ..old(heap)@[self@ as int] },
            ),
            r is Err ==> final(heap)@ == old(heap)@,
            shared_step(old(heap)@[self@ as int].access) is None ==> r == Err::<Ref, VmError>(
                VmError::NotAccessibleRef { index: self@ as usize },
            ),
            shared_step(old(heap)@[self@ as int].access) is Some && external_type(old(heap)@[self@ as int].value)
                != Some(expected) ==> r == Err::<Ref, VmError>(
                VmError::UnexpectedValueType { expected, actual: external_type(old(heap)@[self@ as int].value) },
            ),
    {
        let guard = match heap.get_ref(self) {
            Ok(g) => g,
            Err(_) => {
                return Err(VmError::NotAccessibleRef { index: self.index() });
            },
        };
        let actual = external_type_of(heap.value(self));
        if actual == Some(expected) {
            Ok(guard)
        } else {
            heap.release_ref(guard);
            assert(heap@ =~= old(heap)@);
            Err(VmError::UnexpectedValueType { expected, actual })
        }
    }

    /// Borrow the host value behind this handle exclusively, where it has
    /// the host type `expected`. Nothing changes where it fails.
    pub fn downcast_mut(&self, heap: &mut Heap<Obj>, expected: u64) -> (r: Result<Mut, VmError>)
        requires
            old(heap).wf(),
            old(heap).live(self@),
        ensures
            final(heap).wf(),
            final(heap).frees() == old(heap).frees(),
            r is Ok <==> exclusive_step(old(heap)@[self@ as int].access).is_some()
                && external_type(old(heap)@[self@ as int].value) == Some(expected),
            r is Ok ==> r->Ok_0@ == self@ && final(heap)@ == old(heap)@.update(
                self@ as int,
                CellView { access: 1, ..old(heap)@[self@ as int] },
            ),
            r is Err ==> final(heap)@ == old(heap)@,
            exclusive_step(old(heap)@[self@ as int].access) is None ==> r == Err::<Mut, VmError>(
                VmError::NotAccessibleMut { index: self@ as usize },
            ),
            exclusive_step(old(heap)@[self@ as int].access) is Some && external_type(old(heap)@[self@ as int].value)
                != Some(expected) ==> r == Err::<Mut, VmError>(
                VmError::UnexpectedValueType { expected, actual: external_type(old(heap)@[self@ as int].value) },
            ),
    {
        let guard = match heap.get_mut(self) {
            Ok(g) => g,
            Err(_) => {
                return Err(VmError::NotAccessibleMut { index: self.index() });
            },
        };
        let actual = external_type_of(heap.borrowed(&guard));
        if actual == Some(expected) {
            Ok(guard)
        } else {
            heap.release_mut(guard);
            assert(heap@ =~= old(heap)@);
            Err(VmError::UnexpectedValueType { expected, actual })
        }
    }

    /// Turn this handle into a shared borrow of its host value that keeps
    /// the handle's strong reference, where the value has the host type
    /// `expected`. Where that fails the handle is dropped.
    pub fn downcast_strong_ref(self, heap: &mut Heap<Obj>, expected: u64) -> (r: Result<StrongRef, VmError>)
        requires
            old(heap).wf(),
            old(heap).live(self@),
            old(heap)@[self@ as int].strong > 1 || old(heap)@[self@ as int].access == 0,
        ensures
            final(heap).wf(),
            r is Ok <==> shared_step(old(heap)@[self@ as int].access).is_some()
                && external_type(old(heap)@[self@ as int].value) == Some(expected),
            r is Ok ==> r->Ok_0@ == self@ && final(heap).frees() == old(heap).frees() && final(heap)@ == old(heap)@.update(
                self@ as int,
                CellView { access: shared_step(old(heap)@[self@ as int].access).unwrap(), ..old(heap)@[self@ as int] },
            ),
            r is Err && old(heap)@[self@ as int].strong > 1 ==> final(heap).frees() == old(heap).frees()
                && final(heap)@ == old(heap)@.update(
                self@ as int,
                CellView { strong: (old(heap)@[self@ as int].strong - 1) as nat, ..old(heap)@[self@ as int] },
            ),
            shared_step(old(heap)@[self@ as int].access) is None ==> r == Err::<StrongRef, VmError>(
                VmError::NotAccessibleRef { index: self@ as usize },
            ),
            shared_step(old(heap)@[self@ as int].access) is Some && external_type(old(heap)@[self@ as int].value)
                != Some(expected) ==> r == Err::<StrongRef, VmError>(
                VmError::UnexpectedValueType { expected, actual: external_type(old(heap)@[self@ as int].value) },
            ),
            r is Err ==> final(heap)@ == after_drop(old(heap)@, self@),
    {
        match self.downcast_ref(heap, expected) {
            Ok(b) => Ok(StrongRef::from_parts(self, b)),
            Err(e) => {
                heap.drop_ref(self);
                Err(e)
            },
        }
    }

    /// Turn this handle into an exclusive borrow of its host value that
    /// keeps the handle's strong reference, where the value has the host
    /// type `expected`. Where that fails the handle is dropped.
    pub fn downcast_strong_mut(self, heap: &mut Heap<Obj>, expected: u64) -> (r: Result<StrongMut, VmError>)
        requires
            old(heap).wf(),
            old(heap).live(self@),
            old(heap)@[self@ as int].strong > 1 || old(heap)@[self@ as int].access == 0,
        ensures
            final(heap).wf(),
            r is Ok <==> exclusive_step(old(heap)@[self@ as int].access).is_some()
                && external_type(old(heap)@[self@ as int].value) == Some(expected),
            r is Ok ==> r->Ok_0@ == self@ && final(heap).frees() == old(heap).frees() && final(heap)@ == old(heap)@.update(
                self@ as int,
                CellView { access: 1, ..old(heap)@[self@ as int] },
            ),
            r is Err && old(heap)@[self@ as int].strong > 1 ==> final(heap).frees() == old(heap).frees()
                && final(heap)@ == old(heap)@.update(
                self@ as int,
                CellView { strong: (old(heap)@[self@ as int].strong - 1) as nat, ..old(heap)@[self@ as int] },
            ),
            exclusive_step(old(heap)@[self@ as int].access) is None ==> r == Err::<StrongMut, VmError>(
                VmError::NotAccessibleMut { index: self@ as usize },
            ),
            exclusive_step(old(heap)@[self@ as int].access) is Some && external_type(old(heap)@[self@ as int].value)
                != Some(expected) ==> r == Err::<StrongMut, VmError>(
                VmError::UnexpectedValueType { expected, actual: external_type(old(heap)@[self@ as int].value) },
            ),
            r is Err ==> final(heap)@ == after_drop(old(heap)@, self@),
    {
        match self.downcast_mut(heap, expected) {
            Ok(b) => Ok(StrongMut::from_parts(self, b)),
            Err(e) => {
                heap.drop_ref(self);
                Err(e)
            },
        }
    }

    /// Take the host value out of the cell, where this handle is its only
    /// reference, it is not borrowed, and it has the host type `expected`.
    /// Where that fails the handle is dropped.
    pub fn downcast_take(self, heap: &mut Heap<Obj>, expected: u64) -> (r: Result<Obj, VmError>)
        requires
            old(heap).wf(),
            old(heap).live(self@),
            old(heap)@[self@ as int].strong > 1 || old(heap)@[self@ as int].access == 0,
        ensures
            final(heap).wf(),
            r is Ok <==> old(heap)@[self@ as int].strong == 1 && old(heap)@[self@ as int].access == 0
                && external_type(old(heap)@[self@ as int].value) == Some(expected),
            r is Ok ==> Some(r->Ok_0) == old(heap)@[self@ as int].value
                && final(heap).frees() == old(heap).frees() + 1
                && final(heap)@ == old(heap)@.update(self@ as int, CellView { value: None, strong: 0, access: 0 }),
            old(heap)@[self@ as int].strong != 1 ==> r == Err::<Obj, VmError>(VmError::NotOwned { index: self@ as usize }),
            old(heap)@[self@ as int].strong == 1 && external_type(old(heap)@[self@ as int].value) != Some(expected)
                ==> r == Err::<Obj, VmError>(
                VmError::UnexpectedValueType { expected, actual: external_type(old(heap)@[self@ as int].value) },
            ),
            r is Err ==> final(heap)@ == after_drop(old(heap)@, self@),
    {
        if heap.strong_count(&self) != 1 {
            let index = self.index();
            heap.drop_ref(self);
            return Err(VmError::NotOwned { index });
        }
        let actual = external_type_of(heap.value(&self));
        if actual != Some(expected) {
            heap.drop_ref(self);
            return Err(VmError::UnexpectedValueType { expected, actual });
        }
        match heap.take(self) {
            Ok(v) => Ok(v),
            Err(e) => Err(VmError::NotOwned { index: e.index }),
        }
    }
}

/// The type of a primitive value; `None` for one in a heap cell.
pub open spec fn primitive_type(v: Value) -> Option<ValueType> {
    match v {
        Value::Unit => Some(ValueType::Unit),
        Value::Bool(_) => Some(ValueType::Bool),
        Value::Byte(_) => Some(ValueType::Byte),
        Value::Char(_) => Some(ValueType::Char),
        Value::Integer(_) => Some(ValueType::Integer),
        Value::Float(_) => Some(ValueType::Float),
        Value::Type(_) => Some(ValueType::Type),
        Value::StaticString(_) => Some(ValueType::String),
        Value::String(_) => Some(ValueType::String),
        Value::Bytes(_) => Some(ValueType::Bytes),
        Value::Vec(_) => Some(ValueType::Vec),
        Value::Tuple(_) => Some(ValueType::Tuple),
        Value::Object(_) => Some(ValueType::Object),
        Value::Future(_) => Some(ValueType::Future),
        Value::Option(_) => Some(ValueType::Option),
        Value::Result(_) => Some(ValueType::Result),
        _ => None,
    }
}

/// The handle of a value that lives in a heap cell.
pub open spec fn handle_of(v: Value) -> Option<Shared> {
    match v {
        Value::String(s) => Some(s),
        Value::Bytes(s) => Some(s),
        Value::Vec(s) => Some(s),
        Value::Tuple(s) => Some(s),
        Value::Object(s) => Some(s),
        Value::Future(s) => Some(s),
        Value::Option(s) => Some(s),
        Value::Result(s) => Some(s),
        Value::TypedTuple(s) => Some(s),
        Value::TypedObject(s) => Some(s),
        Value::External(s) => Some(s),
        _ => None,
    }
}

/// A value agrees with the heap: its handle points at a live cell, and a
/// typed or host value at a payload of its own kind.
pub open spec fn value_ok(heap: Heap<Obj>, v: Value) -> bool {
    &&& handle_of(v) is Some ==> heap.live(handle_of(v)->Some_0@)
    &&& v is TypedTuple ==> heap@[handle_of(v)->Some_0@ as int].value->Some_0 is TypedTuple
    &&& v is TypedObject ==> heap@[handle_of(v)->Some_0@ as int].value->Some_0 is TypedObject
    &&& v is External ==> heap@[handle_of(v)->Some_0@ as int].value->Some_0 is External
}

/// The type a heap payload gives a typed or external value.
pub open spec fn payload_type(o: Obj) -> Option<ValueType> {
    match o {
        Obj::TypedTuple(t) => Some(ValueType::TypedTuple(t.ty)),
        Obj::TypedObject(t) => Some(ValueType::TypedObject(t.ty)),
        Obj::External { type_hash, .. } => Some(ValueType::External(type_hash)),
        _ => None,
    }
}

/// The type of `v` in `heap`: structural for primitives and containers,
/// the recorded type for typed and external values.
pub open spec fn value_type_spec(heap: Heap<Obj>, v: Value) -> Option<ValueType> {
    match primitive_type(v) {
        Some(t) => Some(t),
        None => {
            let h = handle_of(v).unwrap();
            match heap@[h@ as int].value {
                Some(o) => payload_type(o),
                None => None,
            }
        },
    }
}

/// The reported type of a value that needs no heap to tell.
pub open spec fn inline_info(v: Value) -> Option<ValueTypeInfo> {
    match v {
        Value::Unit => Some(ValueTypeInfo::Unit),
        Value::Bool(_) => Some(ValueTypeInfo::Bool),
        Value::Byte(_) => Some(ValueTypeInfo::Byte),
        Value::Char(_) => Some(ValueTypeInfo::Char),
        Value::Integer(_) => Some(ValueTypeInfo::Integer),
        Value::Float(_) => Some(ValueTypeInfo::Float),
        Value::Type(h) => Some(ValueTypeInfo::Type(h)),
        Value::StaticString(_) => Some(ValueTypeInfo::String),
        Value::String(_) => Some(ValueTypeInfo::String),
        Value::Bytes(_) => Some(ValueTypeInfo::Bytes),
        Value::Vec(_) => Some(ValueTypeInfo::Vec),
        Value::Tuple(_) => Some(ValueTypeInfo::Tuple),
        Value::Object(_) => Some(ValueTypeInfo::Object),
        Value::Future(_) => Some(ValueTypeInfo::Future),
        Value::Option(_) => Some(ValueTypeInfo::Option),
        Value::Result(_) => Some(ValueTypeInfo::Result),
        _ => None,
    }
}

/// The reported type a heap payload gives a typed or host value.
pub open spec fn payload_info(o: Obj) -> Option<ValueTypeInfo> {
    match o {
        Obj::TypedTuple(t) => Some(ValueTypeInfo::TypedTuple(t.ty)),
        Obj::TypedObject(t) => Some(ValueTypeInfo::TypedObject(t.ty)),
        Obj::External { name, .. } => Some(ValueTypeInfo::External(name)),
        _ => None,
    }
}

/// `i` reports the type of the payload `o`: a host value by the bytes of
/// the name of its type.
pub open spec fn info_of(i: ValueTypeInfo, o: Obj) -> bool {
    match o {
        Obj::TypedTuple(t) => i == ValueTypeInfo::TypedTuple(t.ty),
        Obj::TypedObject(t) => i == ValueTypeInfo::TypedObject(t.ty),
        Obj::External { name, .. } => i is External && i->External_0@ == name@,
        _ => false,
    }
}

/// A copy of a byte vector.
fn copy_bytes(v: &Vec<u8>) -> (r: Vec<u8>)
    ensures
        r@ == v@,
{
    let mut r: Vec<u8> = Vec::new();
    let mut k: usize = 0;
    while k < v.len()
        invariant
            k <= v@.len(),
            r@ == v@.take(k as int),
        decreases v@.len() - k,
    {
        r.push(v[k]);
        k = k + 1;
        assert(r@ =~= v@.take(k as int));
    }
    assert(v@.take(k as int) =~= v@);
    r
}

impl Value {
    /// The type of this value as reported in diagnostics. A typed or host
    /// value is read through a shared borrow of its cell, which fails where
    /// the cell is borrowed exclusively.
    pub fn type_info(&self, heap: &Heap<Obj>) -> (r: Result<ValueTypeInfo, VmError>)
        requires
            heap.wf(),
            value_ok(*heap, *self),
        ensures
            inline_info(*self) is Some ==> r == Ok::<ValueTypeInfo, VmError>(inline_info(*self)->Some_0),
            inline_info(*self) is None ==> (r is Ok <==> shared_step(
                heap@[handle_of(*self)->Some_0@ as int].access,
            ).is_some()),
            r is Err ==> r == Err::<ValueTypeInfo, VmError>(
                VmError::NotAccessibleRef { index: handle_of(*self)->Some_0@ as usize },
            ),
            inline_info(*self) is None && r is Ok ==> info_of(
                r->Ok_0,
                heap@[handle_of(*self)->Some_0@ as int].value->Some_0,
            ),
    {
        let s = match self {
            Value::Unit => return Ok(ValueTypeInfo::Unit),
            Value::Bool(..) => return Ok(ValueTypeInfo::Bool),
            Value::Byte(..) => return Ok(ValueTypeInfo::Byte),
            Value::Char(..) => return Ok(ValueTypeInfo::Char),
            Value::Integer(..) => return Ok(ValueTypeInfo::Integer),
            Value::Float(..) => return Ok(ValueTypeInfo::Float),
            Value::Type(hash) => return Ok(ValueTypeInfo::Type(*hash)),
            Value::StaticString(..) => return Ok(ValueTypeInfo::String),
            Value::String(..) => return Ok(ValueTypeInfo::String),
            Value::Bytes(..) => return Ok(ValueTypeInfo::Bytes),
            Value::Vec(..) => return Ok(ValueTypeInfo::Vec),
            Value::Tuple(..) => return Ok(ValueTypeInfo::Tuple),
            Value::Object(..) => return Ok(ValueTypeInfo::Object),
            Value::Future(..) => return Ok(ValueTypeInfo::Future),
            Value::Option(..) => return Ok(ValueTypeInfo::Option),
            Value::Result(..) => return Ok(ValueTypeInfo::Result),
            Value::TypedTuple(s) => s,
            Value::TypedObject(s) => s,
            Value::External(s) => s,
        };
        if !heap.is_readable(s) {
            return Err(VmError::NotAccessibleRef { index: s.index() });
        }
        match heap.value(s) {
            Obj::TypedTuple(t) => Ok(ValueTypeInfo::TypedTuple(t.ty)),
            Obj::TypedObject(t) => Ok(ValueTypeInfo::TypedObject(t.ty)),
            Obj::External { name, .. } => Ok(ValueTypeInfo::External(copy_bytes(name))),
            _ => Err(VmError::DanglingHandle),
        }
    }

    /// The type of this value. A typed or external value is read through a
    /// shared borrow of its cell, which fails where the cell is borrowed
    /// exclusively.
    pub fn value_type(&self, heap: &Heap<Obj>) -> (r: Result<ValueType, VmError>)
        requires
            heap.wf(),
            value_ok(*heap, *self),
        ensures
            primitive_type(*self) is Some ==> r == Ok::<ValueType, VmError>(primitive_type(*self)->Some_0),
            primitive_type(*self) is None ==> (r is Ok <==> shared_step(
                heap@[handle_of(*self)->Some_0@ as int].access,
            ).is_some()),
            r is Err ==> r == Err::<ValueType, VmError>(
                VmError::NotAccessibleRef { index: handle_of(*self)->Some_0@ as usize },
            ),
            r is Ok ==> value_type_spec(*heap, *self) == Some(r->Ok_0),
    {
        let s = match self {
            Value::Unit => return Ok(ValueType::Unit),
            Value::Bool(..) => return Ok(ValueType::Bool),
            Value::Byte(..) => return Ok(ValueType::Byte),
            Value::Char(..) => return Ok(ValueType::Char),
            Value::Integer(..) => return Ok(ValueType::Integer),
            Value::Float(..) => return Ok(ValueType::Float),
            Value::Type(..) => return Ok(ValueType::Type),
            Value::StaticString(..) => return Ok(ValueType::String),
            Value::String(..) => return Ok(ValueType::String),
            Value::Bytes(..) => return Ok(ValueType::Bytes),
            Value::Vec(..) => return Ok(ValueType::Vec),
            Value::Tuple(..) => return Ok(ValueType::Tuple),
            Value::Object(..) => return Ok(ValueType::Object),
            Value::Future(..) => return Ok(ValueType::Future),
            Value::Option(..) => return Ok(ValueType::Option),
            Value::Result(..) => return Ok(ValueType::Result),
            Value::TypedTuple(s) => s,
            Value::TypedObject(s) => s,
            Value::External(s) => s,
        };
        if !heap.is_readable(s) {
            return Err(VmError::NotAccessibleRef { index: s.index() });
        }
        match heap.value(s) {
            Obj::TypedTuple(t) => Ok(ValueType::TypedTuple(t.ty)),
            Obj::TypedObject(t) => Ok(ValueType::TypedObject(t.ty)),
            Obj::External { type_hash, .. } => Ok(ValueType::External(*type_hash)),
            _ => Err(VmError::DanglingHandle),
        }
    }

    /// The handle of this value where it is a result; otherwise an error that
    /// names the type it has.
    pub fn into_result(&self, heap: &Heap<Obj>) -> (r: Result<&Shared, VmError>)
        requires
            heap.wf(),
            value_ok(*heap, *self),
        ensures
            r is Ok <==> *self is Result,
            r is Ok ==> Some(*r->Ok_0) == handle_of(*self),
            !(*self is Result) && primitive_type(*self) is Some ==> r == Err::<&Shared, VmError>(
                VmError::ExpectedResult { actual: primitive_type(*self)->Some_0 },
            ),
    {
        match self {
            Value::Result(s) => Ok(s),
            actual => Err(VmError::ExpectedResult { actual: actual.value_type(heap)? }),
        }
    }

    /// The handle of this value where it is a option; otherwise an error that
    /// names the type it has.
    pub fn into_option(&self, heap: &Heap<Obj>) -> (r: Result<&Shared, VmError>)
        requires
            heap.wf(),
            value_ok(*heap, *self),
        ensures
            r is Ok <==> *self is Option,
            r is Ok ==> Some(*r->Ok_0) == handle_of(*self),
            !(*self is Option) && primitive_type(*self) is Some ==> r == Err::<&Shared, VmError>(
                VmError::ExpectedOption { actual: primitive_type(*self)->Some_0 },
            ),
    {
        match self {
            Value::Option(s) => Ok(s),
            actual => Err(VmError::ExpectedOption { actual: actual.value_type(heap)? }),
        }
    }

    /// The handle of this value where it is a string; otherwise an error that
    /// names the type it has.
    pub fn into_string(&self, heap: &Heap<Obj>) -> (r: Result<&Shared, VmError>)
        requires
            heap.wf(),
            value_ok(*heap, *self),
        ensures
            r is Ok <==> *self is String,
            r is Ok ==> Some(*r->Ok_0) == handle_of(*self),
            !(*self is String) && primitive_type(*self) is Some ==> r == Err::<&Shared, VmError>(
                VmError::ExpectedString { actual: primitive_type(*self)->Some_0 },
            ),
    {
        match self {
            Value::String(s) => Ok(s),
            actual => Err(VmError::ExpectedString { actual: actual.value_type(heap)? }),
        }
    }

    /// The handle of this value where it is a bytes; otherwise an error that
    /// names the type it has.
    pub fn into_bytes(&self, heap: &Heap<Obj>) -> (r: Result<&Shared, VmError>)
        requires
            heap.wf(),
            value_ok(*heap, *self),
        ensures
            r is Ok <==> *self is Bytes,
            r is Ok ==> Some(*r->Ok_0) == handle_of(*self),
            !(*self is Bytes) && primitive_type(*self) is Some ==> r == Err::<&Shared, VmError>(
                VmError::ExpectedBytes { actual: primitive_type(*self)->Some_0 },
            ),
    {
        match self {
            Value::Bytes(s) => Ok(s),
            actual => Err(VmError::ExpectedBytes { actual: actual.value_type(heap)? }),
        }
    }

    /// The handle of this value where it is a vec; otherwise an error that
    /// names the type it has.
    pub fn into_vec(&self, heap: &Heap<Obj>) -> (r: Result<&Shared, VmError>)
        requires
            heap.wf(),
            value_ok(*heap, *self),
        ensures
            r is Ok <==> *self is Vec,
            r is Ok ==> Some(*r->Ok_0) == handle_of(*self),
            !(*self is Vec) && primitive_type(*self) is Some ==> r == Err::<&Shared, VmError>(
                VmError::ExpectedVec { actual: primitive_type(*self)->Some_0 },
            ),
    {
        match self {
            Value::Vec(s) => Ok(s),
            actual => Err(VmError::ExpectedVec { actual: actual.value_type(heap)? }),
        }
    }

    /// The handle of this value where it is a tuple; otherwise an error that
    /// names the type it has.
    pub fn into_tuple(&self, heap: &Heap<Obj>) -> (r: Result<&Shared, VmError>)
        requires
            heap.wf(),
            value_ok(*heap, *self),
        ensures
            r is Ok <==> *self is Tuple,
            r is Ok ==> Some(*r->Ok_0) == handle_of(*self),
            !(*self is Tuple) && primitive_type(*self) is Some ==> r == Err::<&Shared, VmError>(
                VmError::ExpectedTuple { actual: primitive_type(*self)->Some_0 },
            ),
    {
        match self {
            Value::Tuple(s) => Ok(s),
            actual => Err(VmError::ExpectedTuple { actual: actual.value_type(heap)? }),
        }
    }

    /// The handle of this value where it is a object; otherwise an error that
    /// names the type it has.
    pub fn into_object(&self, heap: &Heap<Obj>) -> (r: Result<&Shared, VmError>)
        requires
            heap.wf(),
            value_ok(*heap, *self),
        ensures
            r is Ok <==> *self is Object,
            r is Ok ==> Some(*r->Ok_0) == handle_of(*self),
            !(*self is Object) && primitive_type(*self) is Some ==> r == Err::<&Shared, VmError>(
                VmError::ExpectedObject { actual: primitive_type(*self)->Some_0 },
            ),
    {
        match self {
            Value::Object(s) => Ok(s),
            actual => Err(VmError::ExpectedObject { actual: actual.value_type(heap)? }),
        }
    }

    /// The handle of this value where it is a external; otherwise an error that
    /// names the type it has.
    pub fn into_external(&self, heap: &Heap<Obj>) -> (r: Result<&Shared, VmError>)
        requires
            heap.wf(),
            value_ok(*heap, *self),
        ensures
            r is Ok <==> *self is External,
            r is Ok ==> Some(*r->Ok_0) == handle_of(*self),
            !(*self is External) && primitive_type(*self) is Some ==> r == Err::<&Shared, VmError>(
                VmError::ExpectedExternal { actual: primitive_type(*self)->Some_0 },
            ),
    {
        match self {
            Value::External(s) => Ok(s),
            actual => Err(VmError::ExpectedExternal { actual: actual.value_type(heap)? }),
        }
    }
}

} // verus!
