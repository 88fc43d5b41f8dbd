//! The value semantics generated code applies without calling into the runtime:
//! number coercions, arithmetic, bitwise and relational results, truthiness and the
//! equality rules it can decide locally.
use vstd::prelude::*;
use crate::bytecode::CoreOpcode;
use crate::double::{
    DOUBLE_NEGATIVE_ZERO_BITS, double_add, double_div, double_equal, double_from_integer,
    double_is_nan, double_is_zero, double_less, double_mul, double_negate, double_rem, double_sub,
    double_to_int32, spec_double_add, spec_double_div, spec_double_equal, spec_double_from_integer,
    spec_double_is_nan, spec_double_is_zero, spec_double_less, spec_double_mul, spec_double_rem,
    spec_double_sub, spec_double_to_int32,
};
use crate::plan::BaselineSupportedOpcodeSubset;
use crate::value::{
    NumberValue, RuntimeValue, ValueKind, number_to_double_bits, spec_as_number,
    spec_number_to_double_bits, spec_strict_equals, spec_value_kind,
};

verus! {

/// ECMAScript ToInt32 of a number.
pub open spec fn spec_number_to_int32(number: NumberValue) -> i32 {
    match number {
        NumberValue::Int32(value) => value,
        NumberValue::DoubleBits(bits) => spec_double_to_int32(bits),
    }
}

pub fn number_to_int32(number: NumberValue) -> (r: i32)
    ensures
        r == spec_number_to_int32(number),
{
    match number {
        NumberValue::Int32(value) => value,
        NumberValue::DoubleBits(bits) => double_to_int32(bits),
    }
}

/// ToBoolean for the primitives generated code decides itself; `None` for cells and
/// unknown encodings, which need the runtime.
pub open spec fn spec_local_primitive_truthiness(value: RuntimeValue) -> Option<bool> {
    match value {
        RuntimeValue::Undefined | RuntimeValue::Null => Some(false),
        RuntimeValue::Boolean(b) => Some(b),
        RuntimeValue::Int32(v) => Some(v != 0),
        RuntimeValue::Double(bits) => Some(!spec_double_is_zero(bits) && !spec_double_is_nan(bits)),
        RuntimeValue::Cell(_) | RuntimeValue::Unknown(_) => None,
    }
}

pub fn local_primitive_truthiness(value: RuntimeValue) -> (r: Option<bool>)
    ensures
        r == spec_local_primitive_truthiness(value),
{
    match value {
        RuntimeValue::Undefined | RuntimeValue::Null => Some(false),
        RuntimeValue::Boolean(b) => Some(b),
        RuntimeValue::Int32(v) => Some(v != 0),
        RuntimeValue::Double(bits) => Some(!double_is_zero(bits) && !double_is_nan(bits)),
        RuntimeValue::Cell(_) | RuntimeValue::Unknown(_) => None,
    }
}

pub open spec fn spec_unsupported_strict_equality_kind(kind: ValueKind) -> bool {
    kind == ValueKind::Cell || kind == ValueKind::Unknown
}

/// Strict equality on cells and unknown encodings is left to the runtime.
pub fn unsupported_strict_equality_kind(kind: ValueKind) -> (r: bool)
    ensures
        r == spec_unsupported_strict_equality_kind(kind),
{
    match kind {
        ValueKind::Cell | ValueKind::Unknown => true,
        _ => false,
    }
}

pub open spec fn spec_unsupported_strict_equality_value(value: RuntimeValue) -> bool {
    spec_unsupported_strict_equality_kind(spec_value_kind(value))
}

pub fn unsupported_strict_equality_value(value: RuntimeValue) -> (r: bool)
    ensures
        r == spec_unsupported_strict_equality_value(value),
{
    unsupported_strict_equality_kind(value.kind())
}

pub open spec fn spec_local_primitive_strict_equals(left: RuntimeValue, right: RuntimeValue) -> Option<bool> {
    if spec_unsupported_strict_equality_value(left) || spec_unsupported_strict_equality_value(right) {
        None
    } else {
        Some(spec_strict_equals(left, right))
    }
}

/// `===` on two primitives; `None` when either side is a cell or unknown.
pub fn local_primitive_strict_equals(left: RuntimeValue, right: RuntimeValue) -> (r: Option<bool>)
    ensures
        r == spec_local_primitive_strict_equals(left, right),
{
    if unsupported_strict_equality_value(left) || unsupported_strict_equality_value(right) {
        None
    } else {
        Some(left.strict_equals(&right))
    }
}

pub open spec fn spec_is_nullish(value: RuntimeValue) -> bool {
    value is Undefined || value is Null
}

/// `==` where no conversion needs a call: two int32s, anything against a nullish
/// value, two booleans, and the same cell; `None` for the rest.
pub open spec fn spec_local_no_call_loose_equals(left: RuntimeValue, right: RuntimeValue) -> Option<bool> {
    match (spec_as_number(left), spec_as_number(right)) {
        (Some(NumberValue::Int32(l)), Some(NumberValue::Int32(r))) => Some(l == r),
        (Some(_), Some(_)) => None,
        _ => if spec_is_nullish(left) || spec_is_nullish(right) {
            Some(spec_is_nullish(left) && spec_is_nullish(right))
        } else {
            match (left, right) {
                (RuntimeValue::Boolean(l), RuntimeValue::Boolean(r)) => Some(l == r),
                (RuntimeValue::Cell(l), RuntimeValue::Cell(r)) => if l == r {
                    Some(true)
                } else {
                    None
                },
                _ => None,
            }
        },
    }
}

pub fn local_no_call_loose_equals(left: RuntimeValue, right: RuntimeValue) -> (r: Option<bool>)
    ensures
        r == spec_local_no_call_loose_equals(left, right),
{
    match (left.as_number(), right.as_number()) {
        (Some(NumberValue::Int32(l)), Some(NumberValue::Int32(r))) => {
            return Some(l == r);
        },
        (Some(_), Some(_)) => {
            return None;
        },
        _ => {},
    }
    let left_nullish = match left.kind() {
        ValueKind::Undefined | ValueKind::Null => true,
        _ => false,
    };
    let right_nullish = match right.kind() {
        ValueKind::Undefined | ValueKind::Null => true,
        _ => false,
    };
    if left_nullish || right_nullish {
        return Some(left_nullish && right_nullish);
    }
    if left.kind() == ValueKind::Boolean && right.kind() == ValueKind::Boolean {
        return Some(left.as_bool() == right.as_bool());
    }
    match (left.as_cell_payload(), right.as_cell_payload()) {
        (Some(l), Some(r)) => if l == r {
            Some(true)
        } else {
            None
        },
        _ => None,
    }
}

/// The checked int32 result of an add, subtract or multiply opcode.
pub open spec fn spec_checked_int32_arithmetic(opcode: CoreOpcode, left: i32, right: i32) -> Option<i32> {
    match opcode {
        CoreOpcode::AddInt32 => left.checked_add(right),
        CoreOpcode::SubInt32 => left.checked_sub(right),
        CoreOpcode::MulInt32 => left.checked_mul(right),
        _ => None,
    }
}

pub fn checked_int32_arithmetic(opcode: CoreOpcode, left: i32, right: i32) -> (r: Option<i32>)
    ensures
        r == spec_checked_int32_arithmetic(opcode, left, right),
{
    match opcode {
        CoreOpcode::AddInt32 => left.checked_add(right),
        CoreOpcode::SubInt32 => left.checked_sub(right),
        CoreOpcode::MulInt32 => left.checked_mul(right),
        _ => None,
    }
}

/// The IEEE result of an add, subtract or multiply opcode on two doubles.
pub open spec fn spec_double_arithmetic(opcode: CoreOpcode, left: u64, right: u64) -> Option<u64> {
    match opcode {
        CoreOpcode::AddInt32 => Some(spec_double_add(left, right)),
        CoreOpcode::SubInt32 => Some(spec_double_sub(left, right)),
        CoreOpcode::MulInt32 => Some(spec_double_mul(left, right)),
        _ => None,
    }
}

fn double_arithmetic(opcode: CoreOpcode, left: u64, right: u64) -> (r: Option<u64>)
    ensures
        r == spec_double_arithmetic(opcode, left, right),
{
    match opcode {
        CoreOpcode::AddInt32 => Some(double_add(left, right)),
        CoreOpcode::SubInt32 => Some(double_sub(left, right)),
        CoreOpcode::MulInt32 => Some(double_mul(left, right)),
        _ => None,
    }
}

/// Add, subtract and multiply on numbers: two int32s give the exact int32 when it fits,
/// and otherwise the operation is done on doubles.
pub open spec fn spec_pure_number_arithmetic_result(
    opcode: CoreOpcode,
    left: NumberValue,
    right: NumberValue,
) -> Option<RuntimeValue> {
    match (left, right) {
        (NumberValue::Int32(l), NumberValue::Int32(r)) => match spec_checked_int32_arithmetic(opcode, l, r) {
            Some(result) => Some(RuntimeValue::Int32(result)),
            None => match spec_double_arithmetic(
                opcode,
                spec_double_from_integer(l as i64),
                spec_double_from_integer(r as i64),
            ) {
                Some(bits) => Some(RuntimeValue::Double(bits)),
                None => None,
            },
        },
        _ => match spec_double_arithmetic(
            opcode,
            spec_number_to_double_bits(left),
            spec_number_to_double_bits(right),
        ) {
            Some(bits) => Some(RuntimeValue::Double(bits)),
            None => None,
        },
    }
}

pub fn pure_number_arithmetic_result(opcode: CoreOpcode, left: NumberValue, right: NumberValue) -> (r:
    Option<RuntimeValue>)
    ensures
        r == spec_pure_number_arithmetic_result(opcode, left, right),
{
    if let (NumberValue::Int32(l), NumberValue::Int32(r)) = (left, right) {
        if let Some(result) = checked_int32_arithmetic(opcode, l, r) {
            return Some(RuntimeValue::Int32(result));
        }
        return match double_arithmetic(opcode, double_from_integer(l as i64), double_from_integer(r as i64)) {
            Some(bits) => Some(RuntimeValue::Double(bits)),
            None => None,
        };
    }
    match double_arithmetic(opcode, number_to_double_bits(left), number_to_double_bits(right)) {
        Some(bits) => Some(RuntimeValue::Double(bits)),
        None => None,
    }
}

/// Negation of a number: int32 zero gives negative zero, and the one int32 whose
/// negation does not fit gives its exact double.
pub open spec fn spec_negate_number(number: NumberValue) -> RuntimeValue {
    match number {
        NumberValue::Int32(value) => if value == 0 {
            RuntimeValue::Double(DOUBLE_NEGATIVE_ZERO_BITS)
        } else if value == i32::MIN {
            RuntimeValue::Double(spec_double_from_integer(value as i64) ^ crate::double::DOUBLE_SIGN_MASK)
        } else {
            RuntimeValue::Int32((-value) as i32)
        },
        NumberValue::DoubleBits(bits) => RuntimeValue::Double(bits ^ crate::double::DOUBLE_SIGN_MASK),
    }
}

pub fn negate_number(number: NumberValue) -> (r: RuntimeValue)
    ensures
        r == spec_negate_number(number),
{
    match number {
        NumberValue::Int32(value) => if value == 0 {
            RuntimeValue::Double(DOUBLE_NEGATIVE_ZERO_BITS)
        } else if value == i32::MIN {
            RuntimeValue::Double(double_negate(double_from_integer(value as i64)))
        } else {
            RuntimeValue::Int32(-value)
        },
        NumberValue::DoubleBits(bits) => RuntimeValue::Double(double_negate(bits)),
    }
}

/// The value of `left` shifted right by `count` as an unsigned 32-bit number, as the
/// executor stores it: an int32 when it fits, otherwise its exact double.
pub open spec fn spec_unsigned_shift_result(left: i32, right: i32) -> RuntimeValue {
    let value = (left as u32).wrapping_shr((right & 0x1f) as u32);
    if value <= i32::MAX as u32 {
        RuntimeValue::Int32(value as i32)
    } else {
        RuntimeValue::Double(spec_double_from_integer(value as i64))
    }
}

/// The result of a bitwise or shift opcode on two int32s (shift counts use their low
/// five bits); `None` for any other opcode.
pub open spec fn spec_int32_bitwise_result(opcode: CoreOpcode, left: i32, right: i32) -> Option<RuntimeValue> {
    match opcode {
        CoreOpcode::BitOrInt32 => Some(RuntimeValue::Int32(left | right)),
        CoreOpcode::BitXorInt32 => Some(RuntimeValue::Int32(left ^ right)),
        CoreOpcode::BitAndInt32 => Some(RuntimeValue::Int32(left & right)),
        CoreOpcode::LeftShiftInt32 => Some(RuntimeValue::Int32(left.wrapping_shl((right & 0x1f) as u32))),
        CoreOpcode::RightShiftInt32 => Some(RuntimeValue::Int32(left.wrapping_shr((right & 0x1f) as u32))),
        CoreOpcode::UnsignedRightShiftInt32 => Some(spec_unsigned_shift_result(left, right)),
        _ => None,
    }
}

pub fn int32_bitwise_result(opcode: CoreOpcode, left: i32, right: i32) -> (r: Option<RuntimeValue>)
    ensures
        r == spec_int32_bitwise_result(opcode, left, right),
{
    match opcode {
        CoreOpcode::BitOrInt32 => Some(RuntimeValue::Int32(left | right)),
        CoreOpcode::BitXorInt32 => Some(RuntimeValue::Int32(left ^ right)),
        CoreOpcode::BitAndInt32 => Some(RuntimeValue::Int32(left & right)),
        CoreOpcode::LeftShiftInt32 => Some(RuntimeValue::Int32(left.wrapping_shl((right & 0x1f) as u32))),
        CoreOpcode::RightShiftInt32 => Some(RuntimeValue::Int32(left.wrapping_shr((right & 0x1f) as u32))),
        CoreOpcode::UnsignedRightShiftInt32 => {
            let value = (left as u32).wrapping_shr((right & 0x1f) as u32);
            if value <= i32::MAX as u32 {
                Some(RuntimeValue::Int32(value as i32))
            } else {
                Some(RuntimeValue::Double(double_from_integer(value as i64)))
            }
        },
        _ => None,
    }
}

/// The result of a relational opcode on two int32s.
pub open spec fn spec_int32_relational_result(opcode: CoreOpcode, left: i32, right: i32) -> Option<bool> {
    match opcode {
        CoreOpcode::LessThanInt32 => Some(left < right),
        CoreOpcode::LessEqualInt32 => Some(left <= right),
        CoreOpcode::GreaterThanInt32 => Some(left > right),
        CoreOpcode::GreaterEqualInt32 => Some(left >= right),
        _ => None,
    }
}

pub fn int32_relational_result(opcode: CoreOpcode, left: i32, right: i32) -> (r: Option<bool>)
    ensures
        r == spec_int32_relational_result(opcode, left, right),
{
    match opcode {
        CoreOpcode::LessThanInt32 => Some(left < right),
        CoreOpcode::LessEqualInt32 => Some(left <= right),
        CoreOpcode::GreaterThanInt32 => Some(left > right),
        CoreOpcode::GreaterEqualInt32 => Some(left >= right),
        _ => None,
    }
}

/// The IEEE result of a relational opcode on two doubles: false whenever one is NaN.
pub open spec fn spec_double_relational_result(opcode: CoreOpcode, left: u64, right: u64) -> Option<bool> {
    match opcode {
        CoreOpcode::LessThanInt32 => Some(spec_double_less(left, right)),
        CoreOpcode::LessEqualInt32 => Some(spec_double_less(left, right) || spec_double_equal(left, right)),
        CoreOpcode::GreaterThanInt32 => Some(spec_double_less(right, left)),
        CoreOpcode::GreaterEqualInt32 => Some(spec_double_less(right, left) || spec_double_equal(left, right)),
        _ => None,
    }
}

pub fn double_relational_result(opcode: CoreOpcode, left: u64, right: u64) -> (r: Option<bool>)
    ensures
        r == spec_double_relational_result(opcode, left, right),
{
    match opcode {
        CoreOpcode::LessThanInt32 => Some(double_less(left, right)),
        CoreOpcode::LessEqualInt32 => Some(double_less(left, right) || double_equal(left, right)),
        CoreOpcode::GreaterThanInt32 => Some(double_less(right, left)),
        CoreOpcode::GreaterEqualInt32 => Some(double_less(right, left) || double_equal(left, right)),
        _ => None,
    }
}

/// The double result of a divide or remainder opcode; `None` for any other opcode.
pub open spec fn spec_double_division_result(opcode: CoreOpcode, left: u64, right: u64) -> Option<u64> {
    match opcode {
        CoreOpcode::DivNumber => Some(spec_double_div(left, right)),
        CoreOpcode::ModNumber => Some(spec_double_rem(left, right)),
        _ => None,
    }
}

pub fn double_division_result(opcode: CoreOpcode, left: u64, right: u64) -> (r: Option<u64>)
    ensures
        r == spec_double_division_result(opcode, left, right),
{
    match opcode {
        CoreOpcode::DivNumber => Some(double_div(left, right)),
        CoreOpcode::ModNumber => Some(double_rem(left, right)),
        _ => None,
    }
}

/// The subsets this executor runs: all but the constants-moves-return one.
pub open spec fn spec_executor_supports_subset(subset: BaselineSupportedOpcodeSubset) -> bool {
    subset != BaselineSupportedOpcodeSubset::P5ConstantsMovesReturn
}

pub fn baseline_generated_executor_supports_subset(subset: BaselineSupportedOpcodeSubset) -> (r: bool)
    ensures
        r == spec_executor_supports_subset(subset),
{
    match subset {
        BaselineSupportedOpcodeSubset::P5ConstantsMovesReturn => false,
        _ => true,
    }
}

pub open spec fn spec_subset_uses_pure_number_binary(subset: BaselineSupportedOpcodeSubset) -> bool {
    subset == BaselineSupportedOpcodeSubset::P6ConstantsMovesReturnInt32ArithmeticBitwiseRelationalJumpsPrimitiveTruthinessPrimitiveBooleanPrimitiveNumberPrimitiveToNumberVoidPureNumberBinary
}

/// Whether binary arithmetic, bitwise and relational opcodes take any number (rather
/// than only int32s) under `subset`.
pub fn baseline_subset_uses_pure_number_binary(subset: BaselineSupportedOpcodeSubset) -> (r: bool)
    ensures
        r == spec_subset_uses_pure_number_binary(subset),
{
    match subset {
        BaselineSupportedOpcodeSubset::P6ConstantsMovesReturnInt32ArithmeticBitwiseRelationalJumpsPrimitiveTruthinessPrimitiveBooleanPrimitiveNumberPrimitiveToNumberVoidPureNumberBinary => true,
        _ => false,
    }
}

} // verus!
