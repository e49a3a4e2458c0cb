//! Conversions between host values and runtime values held inline.
use vstd::prelude::*;
use crate::value::{primitive_type, Value, ValueType, VmError};

verus! {

/// A helper to read a vector or tuple of values of different types.
#[derive(Debug, Clone, Copy, PartialEq, Eq, PartialOrd, Ord, Hash)]
pub struct VecTuple<I>(pub I);

/// The runtime type of a host type.
pub trait ReflectValueType: Sized {
    /// The runtime type.
    fn value_type() -> ValueType;
}

/// Conversion of a host value into a runtime value.
pub trait ToValue: Sized {
    /// The value a host value converts into.
    spec fn to_value_spec(self) -> Value;

    /// Convert into a value.
    fn to_value(self) -> (r: Value)
        ensures
            r == self.to_value_spec(),
    ;
}

/// Conversion of a runtime value into a host value.
pub trait FromValue: Sized {
    /// The host value a value converts into, or the error.
    spec fn from_value_spec(value: Value) -> Result<Self, VmError>;

    /// Convert from a value, or say which type was found instead.
    fn from_value(value: Value) -> (r: Result<Self, VmError>)
        ensures
            r == Self::from_value_spec(value),
    ;
}

/// Conversion into a value that may hand out a reference into the host.
pub trait UnsafeToValue: Sized {
    /// The value a host value converts into.
    spec fn unsafe_to_value_spec(self) -> Value;

    /// Convert into a value.
    fn unsafe_to_value(self) -> (r: Value)
        ensures
            r == self.unsafe_to_value_spec(),
    ;
}

/// Conversion from a value together with a guard that must outlive the
/// result.
pub trait UnsafeFromValue: Sized {
    /// What keeps the converted value valid.
    type Guard;

    /// The host value a value converts into, or the error.
    spec fn unsafe_from_value_spec(value: Value) -> Result<Self, VmError>;

    /// Convert from a value.
    fn unsafe_from_value(value: Value) -> (r: Result<(Self, Self::Guard), VmError>)
        ensures
            r is Ok <==> Self::unsafe_from_value_spec(value) is Ok,
            r is Ok ==> r->Ok_0.0 == Self::unsafe_from_value_spec(value)->Ok_0,
            r is Err ==> r->Err_0 == Self::unsafe_from_value_spec(value)->Err_0,
    ;
}

/// Arguments of a call, in order.
pub trait IntoArgs {
    /// The arguments as values.
    fn into_args(self) -> Vec<Value>;

    /// How many arguments there are.
    fn count() -> usize;
}

/// The type named in a conversion error: the value's own where it needs
/// no heap to tell, with a zero hash for typed and host values.
pub open spec fn error_type(v: Value) -> ValueType {
    match v {
        Value::TypedTuple(_) => ValueType::TypedTuple(0),
        Value::TypedObject(_) => ValueType::TypedObject(0),
        Value::External(_) => ValueType::External(0),
        _ => primitive_type(v)->Some_0,
    }
}

/// The type of a value held inline, for error reports.
fn type_for_error(v: &Value) -> (r: ValueType)
    ensures
        r == error_type(*v),
{
    match v {
        Value::Unit => ValueType::Unit,
        Value::Bool(_) => ValueType::Bool,
        Value::Byte(_) => ValueType::Byte,
        Value::Char(_) => ValueType::Char,
        Value::Integer(_) => ValueType::Integer,
        Value::Float(_) => ValueType::Float,
        Value::Type(_) => ValueType::Type,
        Value::StaticString(_) => ValueType::String,
        Value::String(_) => ValueType::String,
        Value::Bytes(_) => ValueType::Bytes,
        Value::Vec(_) => ValueType::Vec,
        Value::Tuple(_) => ValueType::Tuple,
        Value::Object(_) => ValueType::Object,
        Value::Future(_) => ValueType::Future,
        Value::Option(_) => ValueType::Option,
        Value::Result(_) => ValueType::Result,
        Value::TypedTuple(_) => ValueType::TypedTuple(0),
        Value::TypedObject(_) => ValueType::TypedObject(0),
        Value::External(_) => ValueType::External(0),
    }
}

impl ReflectValueType for i64 {
    fn value_type() -> ValueType {
        ValueType::Integer
    }
}

impl ReflectValueType for bool {
    fn value_type() -> ValueType {
        ValueType::Bool
    }
}

impl ReflectValueType for u8 {
    fn value_type() -> ValueType {
        ValueType::Byte
    }
}

impl ReflectValueType for char {
    fn value_type() -> ValueType {
        ValueType::Char
    }
}

impl ToValue for Value {
    open spec fn to_value_spec(self) -> Value {
        self
    }

    fn to_value(self) -> (r: Value) {
        self
    }
}

impl ToValue for i64 {
    open spec fn to_value_spec(self) -> Value {
        Value::Integer(self)
    }

    fn to_value(self) -> (r: Value) {
        Value::Integer(self)
    }
}

impl ToValue for bool {
    open spec fn to_value_spec(self) -> Value {
        Value::Bool(self)
    }

    fn to_value(self) -> (r: Value) {
        Value::Bool(self)
    }
}

impl ToValue for u8 {
    open spec fn to_value_spec(self) -> Value {
        Value::Byte(self)
    }

    fn to_value(self) -> (r: Value) {
        Value::Byte(self)
    }
}

impl ToValue for char {
    open spec fn to_value_spec(self) -> Value {
        Value::Char(self)
    }

    fn to_value(self) -> (r: Value) {
        Value::Char(self)
    }
}

impl ToValue for () {
    open spec fn to_value_spec(self) -> Value {
        Value::Unit
    }

    fn to_value(self) -> (r: Value) {
        Value::Unit
    }
}

impl FromValue for Value {
    open spec fn from_value_spec(value: Value) -> Result<Self, VmError> {
        Ok(value)
    }

    fn from_value(value: Value) -> (r: Result<Self, VmError>) {
        Ok(value)
    }
}

impl FromValue for i64 {
    open spec fn from_value_spec(value: Value) -> Result<Self, VmError> {
        match value {
            Value::Integer(i) => Ok(i),
            other => Err(VmError::ExpectedInteger { actual: error_type(other) }),
        }
    }

    fn from_value(value: Value) -> (r: Result<Self, VmError>) {
        match value {
            Value::Integer(i) => Ok(i),
            other => Err(VmError::ExpectedInteger { actual: type_for_error(&other) }),
        }
    }
}

impl FromValue for bool {
    open spec fn from_value_spec(value: Value) -> Result<Self, VmError> {
        match value {
            Value::Bool(b) => Ok(b),
            other => Err(VmError::ExpectedBoolean { actual: error_type(other) }),
        }
    }

    fn from_value(value: Value) -> (r: Result<Self, VmError>) {
        match value {
            Value::Bool(b) => Ok(b),
            other => Err(VmError::ExpectedBoolean { actual: type_for_error(&other) }),
        }
    }
}

impl<T: ToValue> UnsafeToValue for T {
    open spec fn unsafe_to_value_spec(self) -> Value {
        self.to_value_spec()
    }

    fn unsafe_to_value(self) -> (r: Value) {
        self.to_value()
    }
}

impl<T: FromValue> UnsafeFromValue for T {
    type Guard = ();

    open spec fn unsafe_from_value_spec(value: Value) -> Result<Self, VmError> {
        T::from_value_spec(value)
    }

    fn unsafe_from_value(value: Value) -> (r: Result<(Self, ()), VmError>) {
        match T::from_value(value) {
            Ok(v) => Ok((v, ())),
            Err(e) => Err(e),
        }
    }
}

impl IntoArgs for () {
    fn into_args(self) -> Vec<Value> {
        Vec::new()
    }

    fn count() -> usize {
        0
    }
}

impl<A: ToValue> IntoArgs for (A,) {
    fn into_args(self) -> Vec<Value> {
        let mut args = Vec::new();
        args.push(self.0.to_value());
        args
    }

    fn count() -> usize {
        1
    }
}

impl<A: ToValue, B: ToValue> IntoArgs for (A, B) {
    fn into_args(self) -> Vec<Value> {
        let mut args = Vec::new();
        args.push(self.0.to_value());
        args.push(self.1.to_value());
        args
    }

    fn count() -> usize {
        2
    }
}

impl<A: ToValue, B: ToValue, C: ToValue> IntoArgs for (A, B, C) {
    fn into_args(self) -> Vec<Value> {
        let mut args = Vec::new();
        args.push(self.0.to_value());
        args.push(self.1.to_value());
        args.push(self.2.to_value());
        args
    }

    fn count() -> usize {
        3
    }
}

} // verus!
