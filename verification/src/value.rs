//! Runtime values as the baseline executor sees them.
use vstd::prelude::*;
use crate::double::{spec_double_from_integer, spec_double_equal, double_from_integer, double_equal};

verus! {

/// The coarse kind of a runtime value.
#[derive(Clone, Copy, Debug, PartialEq, Eq, Structural)]
pub enum ValueKind {
    Undefined,
    Null,
    Boolean,
    Int32,
    Double,
    Cell,
    Unknown,
}

/// A numeric value: an int32 or a double given by its bits.
#[derive(Clone, Copy, Debug, PartialEq, Eq, Structural)]
pub enum NumberValue {
    Int32(i32),
    DoubleBits(u64),
}

/// A JavaScript value held in a register.
///
/// `Cell` carries the pointer payload of a heap cell; `Unknown` carries an encoding
/// that names no value the executor understands.
#[derive(Clone, Copy, Debug, PartialEq, Eq, Structural)]
pub enum RuntimeValue {
    Undefined,
    Null,
    Boolean(bool),
    Int32(i32),
    Double(u64),
    Cell(u64),
    Unknown(u64),
}

pub open spec fn spec_value_kind(value: RuntimeValue) -> ValueKind {
    match value {
        RuntimeValue::Undefined => ValueKind::Undefined,
        RuntimeValue::Null => ValueKind::Null,
        RuntimeValue::Boolean(_) => ValueKind::Boolean,
        RuntimeValue::Int32(_) => ValueKind::Int32,
        RuntimeValue::Double(_) => ValueKind::Double,
        RuntimeValue::Cell(_) => ValueKind::Cell,
        RuntimeValue::Unknown(_) => ValueKind::Unknown,
    }
}

pub open spec fn spec_as_number(value: RuntimeValue) -> Option<NumberValue> {
    match value {
        RuntimeValue::Int32(v) => Some(NumberValue::Int32(v)),
        RuntimeValue::Double(bits) => Some(NumberValue::DoubleBits(bits)),
        _ => None,
    }
}

pub open spec fn spec_number_value(number: NumberValue) -> RuntimeValue {
    match number {
        NumberValue::Int32(v) => RuntimeValue::Int32(v),
        NumberValue::DoubleBits(bits) => RuntimeValue::Double(bits),
    }
}

/// The double that a number denotes (an int32 is converted exactly).
pub open spec fn spec_number_to_double_bits(number: NumberValue) -> u64 {
    match number {
        NumberValue::Int32(v) => spec_double_from_integer(v as i64),
        NumberValue::DoubleBits(bits) => bits,
    }
}

/// Numeric equality of two numbers.
pub open spec fn spec_numbers_equal(left: NumberValue, right: NumberValue) -> bool {
    match (left, right) {
        (NumberValue::Int32(l), NumberValue::Int32(r)) => l == r,
        _ => spec_double_equal(
            spec_number_to_double_bits(left),
            spec_number_to_double_bits(right),
        ),
    }
}

/// ECMAScript strict equality (`===`) on the values the executor models: numbers
/// compare numerically, other primitives by value, and cells by identity.
pub open spec fn spec_strict_equals(left: RuntimeValue, right: RuntimeValue) -> bool {
    match (spec_as_number(left), spec_as_number(right)) {
        (Some(l), Some(r)) => spec_numbers_equal(l, r),
        (Some(_), None) | (None, Some(_)) => false,
        (None, None) => match (left, right) {
            (RuntimeValue::Undefined, RuntimeValue::Undefined) => true,
            (RuntimeValue::Null, RuntimeValue::Null) => true,
            (RuntimeValue::Boolean(l), RuntimeValue::Boolean(r)) => l == r,
            (RuntimeValue::Cell(l), RuntimeValue::Cell(r)) => l == r,
            (RuntimeValue::Unknown(l), RuntimeValue::Unknown(r)) => l == r,
            _ => false,
        },
    }
}

impl RuntimeValue {
    pub fn undefined() -> (r: RuntimeValue)
        ensures
            r == RuntimeValue::Undefined,
    {
        RuntimeValue::Undefined
    }

    pub fn null() -> (r: RuntimeValue)
        ensures
            r == RuntimeValue::Null,
    {
        RuntimeValue::Null
    }

    pub fn from_bool(value: bool) -> (r: RuntimeValue)
        ensures
            r == RuntimeValue::Boolean(value),
    {
        RuntimeValue::Boolean(value)
    }

    pub fn from_i32(value: i32) -> (r: RuntimeValue)
        ensures
            r == RuntimeValue::Int32(value),
    {
        RuntimeValue::Int32(value)
    }

    pub fn from_double_bits(bits: u64) -> (r: RuntimeValue)
        ensures
            r == RuntimeValue::Double(bits),
    {
        RuntimeValue::Double(bits)
    }

    pub fn from_cell_payload(payload: u64) -> (r: RuntimeValue)
        ensures
            r == RuntimeValue::Cell(payload),
    {
        RuntimeValue::Cell(payload)
    }

    pub fn from_number(number: NumberValue) -> (r: RuntimeValue)
        ensures
            r == spec_number_value(number),
    {
        match number {
            NumberValue::Int32(v) => RuntimeValue::Int32(v),
            NumberValue::DoubleBits(bits) => RuntimeValue::Double(bits),
        }
    }

    pub fn kind(&self) -> (r: ValueKind)
        ensures
            r == spec_value_kind(*self),
    {
        match self {
            RuntimeValue::Undefined => ValueKind::Undefined,
            RuntimeValue::Null => ValueKind::Null,
            RuntimeValue::Boolean(_) => ValueKind::Boolean,
            RuntimeValue::Int32(_) => ValueKind::Int32,
            RuntimeValue::Double(_) => ValueKind::Double,
            RuntimeValue::Cell(_) => ValueKind::Cell,
            RuntimeValue::Unknown(_) => ValueKind::Unknown,
        }
    }

    pub fn as_number(&self) -> (r: Option<NumberValue>)
        ensures
            r == spec_as_number(*self),
    {
        match self {
            RuntimeValue::Int32(v) => Some(NumberValue::Int32(*v)),
            RuntimeValue::Double(bits) => Some(NumberValue::DoubleBits(*bits)),
            _ => None,
        }
    }

    pub fn as_bool(&self) -> (r: Option<bool>)
        ensures
            r == (match *self {
                RuntimeValue::Boolean(b) => Some(b),
                _ => None,
            }),
    {
        match self {
            RuntimeValue::Boolean(b) => Some(*b),
            _ => None,
        }
    }

    /// The pointer payload of a cell value.
    pub fn as_cell_payload(&self) -> (r: Option<u64>)
        ensures
            r == (match *self {
                RuntimeValue::Cell(p) => Some(p),
                _ => None,
            }),
    {
        match self {
            RuntimeValue::Cell(p) => Some(*p),
            _ => None,
        }
    }

    pub fn strict_equals(&self, other: &RuntimeValue) -> (r: bool)
        ensures
            r == spec_strict_equals(*self, *other),
    {
        match (self.as_number(), other.as_number()) {
            (Some(l), Some(r)) => numbers_equal(l, r),
            (Some(_), None) | (None, Some(_)) => false,
            (None, None) => match (self, other) {
                (RuntimeValue::Undefined, RuntimeValue::Undefined) => true,
                (RuntimeValue::Null, RuntimeValue::Null) => true,
                (RuntimeValue::Boolean(l), RuntimeValue::Boolean(r)) => *l == *r,
                (RuntimeValue::Cell(l), RuntimeValue::Cell(r)) => *l == *r,
                (RuntimeValue::Unknown(l), RuntimeValue::Unknown(r)) => *l == *r,
                _ => false,
            },
        }
    }
}

/// The double a number denotes.
pub fn number_to_double_bits(number: NumberValue) -> (r: u64)
    ensures
        r == spec_number_to_double_bits(number),
{
    match number {
        NumberValue::Int32(v) => double_from_integer(v as i64),
        NumberValue::DoubleBits(bits) => bits,
    }
}

pub fn numbers_equal(left: NumberValue, right: NumberValue) -> (r: bool)
    ensures
        r == spec_numbers_equal(left, right),
{
    match (left, right) {
        (NumberValue::Int32(l), NumberValue::Int32(r)) => l == r,
        _ => double_equal(number_to_double_bits(left), number_to_double_bits(right)),
    }
}

} // verus!
