//! The untyped values that a player publishes on the bus.

use vstd::prelude::*;

verus! {

/// A double-precision number, carried by its IEEE 754 bit pattern.
///
/// The library moves such numbers from the bus into its records and never
/// calculates with them.
#[derive(Clone, Copy, Debug, PartialEq, Eq, Structural)]
pub struct Double {
    pub bits: u64,
}

impl Double {
    /// The number with the given bit pattern.
    pub fn from_bits(bits: u64) -> (d: Double)
        ensures
            d.bits == bits,
    {
        Double { bits }
    }

    /// The bit pattern of the number.
    pub fn to_bits(&self) -> (bits: u64)
        ensures
            bits == self.bits,
    {
        self.bits
    }
}

impl DeepView for Double {
    type V = Double;

    open spec fn deep_view(&self) -> Double {
        *self
    }
}

/// The type of a [`Value`], without its content.
#[derive(Clone, Copy, Debug, PartialEq, Eq, Structural)]
pub enum ValueKind {
    U8,
    Bool,
    I16,
    U16,
    I32,
    U32,
    I64,
    U64,
    F64,
    Str,
    Signature,
    ObjectPath,
    Value,
    Array,
    Dict,
    Structure,
    Fd,
}

/// One value of the bus's type system.
///
/// A dictionary holds its entries in the order in which they are to be read;
/// where a key occurs twice, the later entry counts.
#[derive(Debug, PartialEq, Eq)]
pub enum Value {
    U8(u8),
    Bool(bool),
    I16(i16),
    U16(u16),
    I32(i32),
    U32(u32),
    I64(i64),
    U64(u64),
    F64(Double),
    Str(String),
    Signature(String),
    ObjectPath(String),
    Value(Box<Value>),
    Array(Vec<Value>),
    Dict(Vec<(Value, Value)>),
    Structure(Vec<Value>),
    Fd(i32),
}

impl Value {
    /// The type of the value.
    pub open spec fn spec_kind(&self) -> ValueKind {
        match self {
            Value::U8(_) => ValueKind::U8,
            Value::Bool(_) => ValueKind::Bool,
            Value::I16(_) => ValueKind::I16,
            Value::U16(_) => ValueKind::U16,
            Value::I32(_) => ValueKind::I32,
            Value::U32(_) => ValueKind::U32,
            Value::I64(_) => ValueKind::I64,
            Value::U64(_) => ValueKind::U64,
            Value::F64(_) => ValueKind::F64,
            Value::Str(_) => ValueKind::Str,
            Value::Signature(_) => ValueKind::Signature,
            Value::ObjectPath(_) => ValueKind::ObjectPath,
            Value::Value(_) => ValueKind::Value,
            Value::Array(_) => ValueKind::Array,
            Value::Dict(_) => ValueKind::Dict,
            Value::Structure(_) => ValueKind::Structure,
            Value::Fd(_) => ValueKind::Fd,
        }
    }

    /// The type of the value.
    #[verifier::when_used_as_spec(spec_kind)]
    pub fn kind(&self) -> (k: ValueKind)
        ensures
            k == self.spec_kind(),
    {
        match self {
            Value::U8(_) => ValueKind::U8,
            Value::Bool(_) => ValueKind::Bool,
            Value::I16(_) => ValueKind::I16,
            Value::U16(_) => ValueKind::U16,
            Value::I32(_) => ValueKind::I32,
            Value::U32(_) => ValueKind::U32,
            Value::I64(_) => ValueKind::I64,
            Value::U64(_) => ValueKind::U64,
            Value::F64(_) => ValueKind::F64,
            Value::Str(_) => ValueKind::Str,
            Value::Signature(_) => ValueKind::Signature,
            Value::ObjectPath(_) => ValueKind::ObjectPath,
            Value::Value(_) => ValueKind::Value,
            Value::Array(_) => ValueKind::Array,
            Value::Dict(_) => ValueKind::Dict,
            Value::Structure(_) => ValueKind::Structure,
            Value::Fd(_) => ValueKind::Fd,
        }
    }

    /// What a variant holds, or the value itself where it is no variant.
    ///
    /// The elements of an array and the keys and values of a dictionary are
    /// read through one such level.
    pub open spec fn spec_inner(&self) -> &Value {
        match self {
            Value::Value(held) => &**held,
            _ => self,
        }
    }

    /// What a variant holds, or the value itself where it is no variant.
    #[verifier::when_used_as_spec(spec_inner)]
    pub fn inner(&self) -> (v: &Value)
        ensures
            v == self.spec_inner(),
    {
        match self {
            Value::Value(held) => &**held,
            _ => self,
        }
    }
}

} // verus!
