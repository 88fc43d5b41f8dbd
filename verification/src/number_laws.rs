//! What the executor's number operations compute, stated over all their inputs: bitwise
//! operations bit by bit, comparisons by the order of the integers, remainders by their
//! defining properties, and equality answers by how the opcodes relate.

use vstd::prelude::*;
use vstd::arithmetic::power2::pow2;
use vstd::bits::lemma_u32_shr_is_div;
use crate::bytecode::{CodeBlock, CoreOpcode, TypedInstruction, VirtualRegister};
use crate::handoff::BaselineGeneratedFallbackSite;
use crate::runtime::RegisterWindow;
use crate::semantics::{spec_int32_bitwise_result, spec_int32_relational_result};
use crate::double::spec_double_from_integer;
use crate::value::{spec_strict_equals, NumberValue, RuntimeValue};
use crate::operands::{
    spec_number_operand_or_fallback, spec_read_register_or_outcome, spec_register_operand_or_fallback,
    spec_write_step, BaselineInstructionAbort,
};
use crate::ops::{
    spec_int32_bit_not_step, spec_loose_equality_step, spec_number_division_step, spec_strict_equality_step,
};
use crate::operands::spec_primitive_numeric_operand_or_fallback;
use crate::semantics::{
    spec_double_relational_result, spec_is_nullish, spec_number_to_int32, spec_unsupported_strict_equality_value,
};
use crate::double::{double_magnitude, spec_highest_bit, double_fraction_field,
    spec_double_is_nan, spec_double_to_int32, double_truncated_magnitude, double_is_negative, double_exponent_field};
use crate::value::spec_as_number;
use crate::semantics::{spec_local_no_call_loose_equals, spec_negate_number, spec_pure_number_arithmetic_result};
use vstd::arithmetic::div_mod::{lemma_fundamental_div_mod, lemma_mod_pos_bound, lemma_div_multiples_vanish, lemma_small_mod};
use vstd::arithmetic::power2::{lemma_pow2_unfold, lemma_pow2_adds, lemma_pow2_strictly_increases, lemma2_to64, lemma2_to64_rest, lemma_pow2_pos};

verus! {

/// Bit `i` (bit 0 is the lowest) of an int32's two's-complement pattern.
pub open spec fn int32_bit(value: i32, i: u32) -> bool {
    ((value as u32) >> i) & 1u32 == 1u32
}

/// `|`, `^` and `&` on int32s work bit by bit: a bit of the result is set when it is set
/// in either operand, in exactly one, or in both.
pub proof fn law_int32_or_xor_and_work_bit_by_bit(left: i32, right: i32)
    ensures
        match spec_int32_bitwise_result(CoreOpcode::BitOrInt32, left, right) {
            Some(RuntimeValue::Int32(x)) => forall|i: u32|
                i < 32 ==> #[trigger] int32_bit(x, i) == (int32_bit(left, i) || int32_bit(right, i)),
            _ => false,
        },
        match spec_int32_bitwise_result(CoreOpcode::BitXorInt32, left, right) {
            Some(RuntimeValue::Int32(x)) => forall|i: u32|
                i < 32 ==> #[trigger] int32_bit(x, i) == (int32_bit(left, i) != int32_bit(right, i)),
            _ => false,
        },
        match spec_int32_bitwise_result(CoreOpcode::BitAndInt32, left, right) {
            Some(RuntimeValue::Int32(x)) => forall|i: u32|
                i < 32 ==> #[trigger] int32_bit(x, i) == (int32_bit(left, i) && int32_bit(right, i)),
            _ => false,
        },
{
    assert forall|i: u32| i < 32 implies #[trigger] int32_bit(left | right, i) == (int32_bit(left, i) || int32_bit(
        right,
        i,
    )) by {
        assert((((left | right) as u32) >> i) & 1u32 == 1u32 <==> ((((left as u32) >> i) & 1u32 == 1u32) || (((
        right as u32) >> i) & 1u32 == 1u32))) by (bit_vector);
    }
    assert forall|i: u32| i < 32 implies #[trigger] int32_bit(left ^ right, i) == (int32_bit(left, i) != int32_bit(
        right,
        i,
    )) by {
        assert((((left ^ right) as u32) >> i) & 1u32 == 1u32 <==> ((((left as u32) >> i) & 1u32 == 1u32) != (((
        right as u32) >> i) & 1u32 == 1u32))) by (bit_vector);
    }
    assert forall|i: u32| i < 32 implies #[trigger] int32_bit(left & right, i) == (int32_bit(left, i) && int32_bit(
        right,
        i,
    )) by {
        assert((((left & right) as u32) >> i) & 1u32 == 1u32 <==> ((((left as u32) >> i) & 1u32 == 1u32) && (((
        right as u32) >> i) & 1u32 == 1u32))) by (bit_vector);
    }
}

/// Shifts on int32s use the low five bits of the count `k`: a left shift moves every bit
/// up by `k` and fills with zeros; an arithmetic right shift moves every bit down by `k`
/// and fills with copies of the sign bit.
pub proof fn law_int32_shifts_move_bits(left: i32, right: i32)
    ensures
        match spec_int32_bitwise_result(CoreOpcode::LeftShiftInt32, left, right) {
            Some(RuntimeValue::Int32(x)) => forall|i: u32|
                i < 32 ==> #[trigger] int32_bit(x, i) == (i >= ((right & 0x1f) as u32) && int32_bit(
                    left,
                    (i - ((right & 0x1f) as u32)) as u32,
                )),
            _ => false,
        },
        match spec_int32_bitwise_result(CoreOpcode::RightShiftInt32, left, right) {
            Some(RuntimeValue::Int32(x)) => forall|i: u32|
                i < 32 ==> #[trigger] int32_bit(x, i) == if i + ((right & 0x1f) as u32) < 32 {
                    int32_bit(left, (i + ((right & 0x1f) as u32)) as u32)
                } else {
                    int32_bit(left, 31)
                },
            _ => false,
        },
{
    let k = ((right & 0x1f) as u32);
    assert(k < 32) by (bit_vector)
        requires
            k == ((right & 0x1f) as u32),
    ;
    let shl = left << (k % 32);
    let shr = left >> (k % 32);
    assert forall|i: u32| i < 32 implies #[trigger] int32_bit(shl, i) == (i >= k && int32_bit(left, (i - k) as u32)) by {
        if i >= k {
            let j = (i - k) as u32;
            assert((((left << (k % 32)) as u32) >> i) & 1u32 == (((left as u32) >> j) & 1u32)) by (bit_vector)
                requires
                    k < 32,
                    i < 32,
                    i >= k,
                    j == i - k,
            ;
        } else {
            assert((((left << (k % 32)) as u32) >> i) & 1u32 == 0u32) by (bit_vector)
                requires
                    k < 32,
                    i < k,
            ;
        }
    }
    assert forall|i: u32| i < 32 implies #[trigger] int32_bit(shr, i) == if i + k < 32 {
        int32_bit(left, (i + k) as u32)
    } else {
        int32_bit(left, 31)
    } by {
        if i + k < 32 {
            let j = (i + k) as u32;
            assert((((left >> (k % 32)) as u32) >> i) & 1u32 == (((left as u32) >> j) & 1u32)) by (bit_vector)
                requires
                    k < 32,
                    i < 32,
                    i + k < 32,
                    j == i + k,
            ;
        } else {
            assert((((left >> (k % 32)) as u32) >> i) & 1u32 == (((left as u32) >> 31u32) & 1u32)) by (bit_vector)
                requires
                    k < 32,
                    i < 32,
                    i + k >= 32,
            ;
        }
    }
}

/// An unsigned right shift reads the int32 as an unsigned 32-bit integer and divides it by
/// 2 to the power of the count's low five bits; the quotient is an int32 when it fits and
/// the double equal to it otherwise.
pub proof fn law_int32_unsigned_shift_divides(left: i32, right: i32)
    ensures
        ({
            let quotient = (left as u32) as int / pow2((((right & 0x1f) as u32)) as nat) as int;
            spec_int32_bitwise_result(CoreOpcode::UnsignedRightShiftInt32, left, right) == if quotient <= i32::MAX {
                Some(RuntimeValue::Int32(quotient as i32))
            } else {
                Some(RuntimeValue::Double(spec_double_from_integer(quotient as i64)))
            }
        }),
{
    let k = ((right & 0x1f) as u32);
    assert(k < 32) by (bit_vector)
        requires
            k == ((right & 0x1f) as u32),
    ;
    assert(k % 32 == k);
    lemma_u32_shr_is_div(left as u32, k);
}

/// The int32 comparisons follow the order of the integers: `a < b` holds exactly when
/// the integer `a` is below `b`, `a > b` is `b < a`, `a >= b` is `b <= a`, and `a <= b`
/// is the negation of `b < a`.
pub proof fn law_int32_comparisons_follow_integer_order(left: i32, right: i32)
    ensures
        spec_int32_relational_result(CoreOpcode::LessThanInt32, left, right) matches Some(less) && (less <==> (left as int)
            < (right as int)),
        spec_int32_relational_result(CoreOpcode::GreaterThanInt32, left, right) == spec_int32_relational_result(
            CoreOpcode::LessThanInt32,
            right,
            left,
        ),
        spec_int32_relational_result(CoreOpcode::GreaterEqualInt32, left, right) == spec_int32_relational_result(
            CoreOpcode::LessEqualInt32,
            right,
            left,
        ),
        spec_int32_relational_result(CoreOpcode::LessEqualInt32, left, right) matches Some(at_most)
            && spec_int32_relational_result(CoreOpcode::LessThanInt32, right, left) matches Some(above) && at_most
            == !above,
        (left as int) < (right as int) ==> spec_int32_relational_result(CoreOpcode::GreaterThanInt32, left, right)
            == Some(false) && spec_int32_relational_result(CoreOpcode::GreaterEqualInt32, left, right) == Some(false),
{
}

/// The absolute value of an integer.
pub open spec fn int_abs(value: int) -> int {
    if value < 0 {
        -value
    } else {
        value
    }
}

/// `%` on two int32s (divisor nonzero, and not `i32::MIN % -1`) stays an int32 and is the
/// truncated remainder, as in JavaScript: it is zero or has the sign of the dividend, it
/// is smaller in magnitude than the divisor, and the dividend minus it is a multiple of
/// the divisor. The remainder step writes exactly that value.
pub proof fn law_int32_remainder_is_truncated(
    slots: Seq<RuntimeValue>,
    code_block: CodeBlock,
    window: RegisterWindow,
    instruction: TypedInstruction,
    site: BaselineGeneratedFallbackSite,
    destination: VirtualRegister,
    left: i32,
    right: i32,
) -> (result: (i32, int))
    requires
        spec_register_operand_or_fallback(instruction, 0, site) == Ok::<VirtualRegister, BaselineInstructionAbort>(
            destination,
        ),
        spec_number_operand_or_fallback(slots, code_block, window, instruction, 1, site) == Ok::<
            NumberValue,
            BaselineInstructionAbort,
        >(NumberValue::Int32(left)),
        spec_number_operand_or_fallback(slots, code_block, window, instruction, 2, site) == Ok::<
            NumberValue,
            BaselineInstructionAbort,
        >(NumberValue::Int32(right)),
        right != 0,
        !(left == i32::MIN && right == -1),
    ensures
        ({
            let (remainder, quotient) = result;
            &&& spec_number_division_step(CoreOpcode::ModNumber, slots, code_block, window, instruction, site)
                == spec_write_step(slots, window, destination, RuntimeValue::Int32(remainder), site)
            &&& remainder == 0 || (remainder < 0) == (left < 0)
            &&& int_abs(remainder as int) < int_abs(right as int)
            &&& left - remainder == quotient * right
        }),
{
    let x = left as int;
    let d = right as int;
    let remainder = match left.checked_rem(right) {
        Some(value) => value,
        None => 0,
    };
    let quotient: int;
    if x == 0 {
        quotient = 0;
        assert(left - remainder == 0 * right);
    } else if x > 0 && d > 0 {
        quotient = x / d;
        lemma_fundamental_div_mod(x, d);
        lemma_mod_pos_bound(x, d);
        assert(left - remainder == (x / d) * right) by (nonlinear_arith)
            requires
                x == d * (x / d) + (x % d),
                remainder == x % d,
                left == x,
                right == d,
        ;
    } else if x < 0 && d < 0 {
        quotient = (-x) / (-d);
        lemma_fundamental_div_mod(-x, -d);
        lemma_mod_pos_bound(-x, -d);
        assert(left - remainder == ((-x) / (-d)) * right) by (nonlinear_arith)
            requires
                -x == (-d) * ((-x) / (-d)) + ((-x) % (-d)),
                remainder == -((-x) % (-d)),
                left == x,
                right == d,
        ;
    } else if x < 0 {
        quotient = -((-x) / d);
        lemma_fundamental_div_mod(-x, d);
        lemma_mod_pos_bound(-x, d);
        assert(left - remainder == (-((-x) / d)) * right) by (nonlinear_arith)
            requires
                -x == d * ((-x) / d) + ((-x) % d),
                remainder == -((-x) % d),
                left == x,
                right == d,
        ;
    } else {
        quotient = -(x / (-d));
        lemma_fundamental_div_mod(x, -d);
        lemma_mod_pos_bound(x, -d);
        assert(left - remainder == (-(x / (-d))) * right) by (nonlinear_arith)
            requires
                x == (-d) * (x / (-d)) + (x % (-d)),
                remainder == x % (-d),
                left == x,
                right == d,
        ;
    }
    (remainder, quotient)
}

/// `!=` answers the opposite of `==` whenever the answer needs no call, and on two int32s
/// `==` is equality of the integers.
pub proof fn law_loose_inequality_negates_equality(
    slots: Seq<RuntimeValue>,
    code_block: CodeBlock,
    window: RegisterWindow,
    instruction: TypedInstruction,
    site: BaselineGeneratedFallbackSite,
    destination: VirtualRegister,
    left_register: VirtualRegister,
    right_register: VirtualRegister,
    left: RuntimeValue,
    right: RuntimeValue,
)
    requires
        spec_register_operand_or_fallback(instruction, 0, site) == Ok::<VirtualRegister, BaselineInstructionAbort>(
            destination,
        ),
        spec_register_operand_or_fallback(instruction, 1, site) == Ok::<VirtualRegister, BaselineInstructionAbort>(
            left_register,
        ),
        spec_register_operand_or_fallback(instruction, 2, site) == Ok::<VirtualRegister, BaselineInstructionAbort>(
            right_register,
        ),
        spec_read_register_or_outcome(slots, code_block, window, left_register, site) == Ok::<
            RuntimeValue,
            BaselineInstructionAbort,
        >(left),
        spec_read_register_or_outcome(slots, code_block, window, right_register, site) == Ok::<
            RuntimeValue,
            BaselineInstructionAbort,
        >(right),
        spec_local_no_call_loose_equals(left, right) is Some,
    ensures
        exists|equal: bool|
            #![trigger spec_write_step(slots, window, destination, RuntimeValue::Boolean(equal), site)]
            {
                &&& spec_loose_equality_step(CoreOpcode::Equal, slots, code_block, window, instruction, site)
                    == spec_write_step(slots, window, destination, RuntimeValue::Boolean(equal), site)
                &&& spec_loose_equality_step(CoreOpcode::NotEqual, slots, code_block, window, instruction, site)
                    == spec_write_step(slots, window, destination, RuntimeValue::Boolean(!equal), site)
            },
        match (left, right) {
            (RuntimeValue::Int32(l), RuntimeValue::Int32(r)) => {
                &&& spec_loose_equality_step(CoreOpcode::Equal, slots, code_block, window, instruction, site)
                    == spec_write_step(slots, window, destination, RuntimeValue::Boolean(l == r), site)
                &&& spec_loose_equality_step(CoreOpcode::NotEqual, slots, code_block, window, instruction, site)
                    == spec_write_step(slots, window, destination, RuntimeValue::Boolean(l != r), site)
            },
            _ => true,
        },
{
    let equal = spec_local_no_call_loose_equals(left, right)->Some_0;
    assert(spec_loose_equality_step(CoreOpcode::Equal, slots, code_block, window, instruction, site)
        == spec_write_step(slots, window, destination, RuntimeValue::Boolean(equal), site));
    assert(spec_loose_equality_step(CoreOpcode::NotEqual, slots, code_block, window, instruction, site)
        == spec_write_step(slots, window, destination, RuntimeValue::Boolean(!equal), site));
    if let (RuntimeValue::Int32(l), RuntimeValue::Int32(r)) = (left, right) {
        assert(crate::value::spec_as_number(left) == Some(NumberValue::Int32(l)));
        assert(crate::value::spec_as_number(right) == Some(NumberValue::Int32(r)));
        assert(equal == (l == r));
        assert(!equal == (l != r));
    }
}

/// Strict equality of a number with a double depends only on the double the number
/// denotes: an int32 compares as the double equal to it, on either side.
pub proof fn law_number_strict_equality_is_numeric(value: i32, bits: u64)
    ensures
        spec_strict_equals(RuntimeValue::Int32(value), RuntimeValue::Double(bits)) == spec_strict_equals(
            RuntimeValue::Double(spec_double_from_integer(value as i64)),
            RuntimeValue::Double(bits),
        ),
        spec_strict_equals(RuntimeValue::Double(bits), RuntimeValue::Int32(value)) == spec_strict_equals(
            RuntimeValue::Double(bits),
            RuntimeValue::Double(spec_double_from_integer(value as i64)),
        ),
{
}

/// Bitwise not flips every bit of the operand's ToInt32 (an int32 is its own ToInt32).
pub proof fn law_int32_bit_not_flips_every_bit(
    slots: Seq<RuntimeValue>,
    code_block: CodeBlock,
    window: RegisterWindow,
    instruction: TypedInstruction,
    site: BaselineGeneratedFallbackSite,
    destination: VirtualRegister,
    number: NumberValue,
) -> (result: i32)
    requires
        spec_register_operand_or_fallback(instruction, 0, site) == Ok::<VirtualRegister, BaselineInstructionAbort>(
            destination,
        ),
        spec_primitive_numeric_operand_or_fallback(slots, code_block, window, instruction, 1, site) matches Ok(operand)
            && spec_as_number(operand.value) == Some(number),
    ensures
        spec_int32_bit_not_step(slots, code_block, window, instruction, site) == spec_write_step(
            slots,
            window,
            destination,
            RuntimeValue::Int32(result),
            site,
        ),
        forall|i: u32| i < 32 ==> #[trigger] int32_bit(result, i) == !int32_bit(spec_number_to_int32(number), i),
        number matches NumberValue::Int32(v) ==> spec_number_to_int32(number) == v,
{
    let v = spec_number_to_int32(number);
    assert forall|i: u32| i < 32 implies #[trigger] int32_bit(!v, i) == !int32_bit(v, i) by {
        assert((((!v) as u32) >> i) & 1u32 == 1u32 <==> !((((v as u32) >> i) & 1u32) == 1u32)) by (bit_vector)
            requires
                i < 32,
        ;
    }
    !v
}

/// The comparisons of two doubles: nothing compares with NaN; otherwise exactly one of
/// `a < b`, `b < a` and "both `a <= b` and `b <= a`" holds, `<=` is `<` or equal, and
/// `a > b`, `a >= b` are `b < a`, `b <= a`.
pub proof fn law_double_comparisons_are_an_order(left: u64, right: u64)
    ensures
        ({
            let lt = spec_double_relational_result(CoreOpcode::LessThanInt32, left, right);
            let gt = spec_double_relational_result(CoreOpcode::GreaterThanInt32, left, right);
            let le = spec_double_relational_result(CoreOpcode::LessEqualInt32, left, right);
            let ge = spec_double_relational_result(CoreOpcode::GreaterEqualInt32, left, right);
            let lt_swapped = spec_double_relational_result(CoreOpcode::LessThanInt32, right, left);
            let le_swapped = spec_double_relational_result(CoreOpcode::LessEqualInt32, right, left);
            &&& lt is Some && gt is Some && le is Some && ge is Some
            &&& gt == lt_swapped
            &&& ge == le_swapped
            &&& (spec_double_is_nan(left) || spec_double_is_nan(right)) ==> lt == Some(false) && gt == Some(false)
                && le == Some(false) && ge == Some(false)
            &&& !(spec_double_is_nan(left) || spec_double_is_nan(right)) ==> {
                &&& (lt == Some(true)) != (lt_swapped == Some(true)) || (le == Some(true) && le_swapped == Some(
                    true,
                ))
                &&& !(lt == Some(true) && lt_swapped == Some(true))
                &&& !(lt == Some(true) && le_swapped == Some(true))
                &&& le == Some(true) <==> (lt == Some(true) || (le == Some(true) && le_swapped == Some(true)))
                &&& le == Some(true) || le_swapped == Some(true)
            }
        }),
{
}

/// `!==` answers the opposite of `===` on the primitives the step compares itself, and
/// `===` answers the value-level strict equality.
pub proof fn law_strict_inequality_negates_strict_equality(
    slots: Seq<RuntimeValue>,
    code_block: CodeBlock,
    window: RegisterWindow,
    instruction: TypedInstruction,
    site: BaselineGeneratedFallbackSite,
    destination: VirtualRegister,
    left_register: VirtualRegister,
    right_register: VirtualRegister,
    left: RuntimeValue,
    right: RuntimeValue,
)
    requires
        spec_register_operand_or_fallback(instruction, 0, site) == Ok::<VirtualRegister, BaselineInstructionAbort>(
            destination,
        ),
        spec_register_operand_or_fallback(instruction, 1, site) == Ok::<VirtualRegister, BaselineInstructionAbort>(
            left_register,
        ),
        spec_register_operand_or_fallback(instruction, 2, site) == Ok::<VirtualRegister, BaselineInstructionAbort>(
            right_register,
        ),
        spec_read_register_or_outcome(slots, code_block, window, left_register, site) == Ok::<
            RuntimeValue,
            BaselineInstructionAbort,
        >(left),
        spec_read_register_or_outcome(slots, code_block, window, right_register, site) == Ok::<
            RuntimeValue,
            BaselineInstructionAbort,
        >(right),
        !spec_unsupported_strict_equality_value(left),
        !spec_unsupported_strict_equality_value(right),
    ensures
        spec_strict_equality_step(CoreOpcode::StrictEqual, slots, code_block, window, instruction, site)
            == spec_write_step(slots, window, destination, RuntimeValue::Boolean(spec_strict_equals(left, right)), site),
        spec_strict_equality_step(CoreOpcode::StrictNotEqual, slots, code_block, window, instruction, site)
            == spec_write_step(slots, window, destination, RuntimeValue::Boolean(!spec_strict_equals(left, right)), site),
{
}

/// Outside numbers, strict equality holds only between identical values.
pub proof fn law_strict_equality_of_non_numbers_is_identity(left: RuntimeValue, right: RuntimeValue)
    ensures
        (spec_as_number(left) is None || spec_as_number(right) is None) && spec_strict_equals(left, right) ==> left
            == right,
{
}

/// Loose equality without a call, outside numbers: `null` and `undefined` equal each other
/// and nothing else, and any other answer it gives is the strict-equality answer.
pub proof fn law_loose_equality_of_non_numbers(left: RuntimeValue, right: RuntimeValue)
    requires
        spec_as_number(left) is None || spec_as_number(right) is None,
    ensures
        spec_is_nullish(left) && spec_is_nullish(right) ==> spec_local_no_call_loose_equals(left, right) == Some(true),
        spec_is_nullish(left) != spec_is_nullish(right) ==> spec_local_no_call_loose_equals(left, right) == Some(false),
        !spec_is_nullish(left) && !spec_is_nullish(right) ==> (spec_local_no_call_loose_equals(left, right) matches Some(
            equal,
        ) ==> equal == spec_strict_equals(left, right)),
{
}

/// ToInt32 of a double: NaN and the infinities give 0; a finite double gives the int32
/// that differs from its value truncated toward zero by a multiple of 2^32 (the count of
/// whole turns is returned).
pub proof fn law_double_to_int32_wraps_the_truncated_value(bits: u64) -> (turns: int)
    ensures
        double_exponent_field(bits) == 0x7ff ==> spec_double_to_int32(bits) == 0,
        double_exponent_field(bits) != 0x7ff ==> spec_double_to_int32(bits) as int == (if double_is_negative(bits) {
            -(double_truncated_magnitude(bits) as int)
        } else {
            double_truncated_magnitude(bits) as int
        }) + turns * pow2(32),
{
    if double_exponent_field(bits) == 0x7ff {
        0
    } else {
        let t = double_truncated_magnitude(bits) as int;
        let m = pow2(32) as int;
        vstd::arithmetic::power2::lemma2_to64();
        lemma_fundamental_div_mod(t, m);
        lemma_mod_pos_bound(t, m);
        let q = t / m;
        let low = t % m;
        let unsigned = if double_is_negative(bits) && low != 0 {
            m - low
        } else {
            low
        };
        let adjust: int = if unsigned >= pow2(31) {
            1
        } else {
            0
        };
        assert(spec_double_to_int32(bits) as int == unsigned - adjust * m);
        if double_is_negative(bits) {
            if low != 0 {
                assert(spec_double_to_int32(bits) as int == -t + (q + 1 - adjust) * m) by (nonlinear_arith)
                    requires
                        t == m * q + low,
                        spec_double_to_int32(bits) as int == (m - low) - adjust * m,
                ;
                q + 1 - adjust
            } else {
                assert(spec_double_to_int32(bits) as int == -t + (q - adjust) * m) by (nonlinear_arith)
                    requires
                        t == m * q + low,
                        low == 0,
                        spec_double_to_int32(bits) as int == low - adjust * m,
                ;
                q - adjust
            }
        } else {
            assert(spec_double_to_int32(bits) as int == t + (-q - adjust) * m) by (nonlinear_arith)
                requires
                    t == m * q + low,
                    spec_double_to_int32(bits) as int == low - adjust * m,
            ;
            -q - adjust
        }
    }
}

/// Every positive integer has a highest set bit.
proof fn lemma_highest_bit_exists(magnitude: nat)
    requires
        magnitude >= 1,
    ensures
        pow2(spec_highest_bit(magnitude)) <= magnitude < pow2(spec_highest_bit(magnitude) + 1),
    decreases magnitude,
{
    lemma2_to64();
    if magnitude == 1 {
        assert(pow2(0) <= magnitude < pow2(0 + 1));
    } else {
        let half = magnitude / 2;
        lemma_highest_bit_exists(half);
        let e = spec_highest_bit(half);
        lemma_pow2_unfold(e + 1);
        lemma_pow2_unfold(e + 2);
        assert(pow2(e + 1) <= magnitude < pow2((e + 1) + 1));
    }
}

/// The fields of the double equal to a nonzero int32: its sign, the biased exponent of the
/// highest set bit of the magnitude (at most bit 31), and the bits below it as the top of
/// the fraction.
proof fn lemma_int32_double_fields(value: i32)
    requires
        value != 0,
    ensures
        ({
            let m: nat = if value < 0 {
                (-value) as nat
            } else {
                value as nat
            };
            let e = spec_highest_bit(m);
            let bits = spec_double_from_integer(value as i64);
            &&& pow2(e) <= m < pow2(e + 1)
            &&& e <= 31
            &&& double_exponent_field(bits) == 1023 + e
            &&& double_fraction_field(bits) == (m - pow2(e)) * pow2((52 - e) as nat)
            &&& double_is_negative(bits) == (value < 0)
            &&& pow2(e) * pow2((52 - e) as nat) == pow2(52)
        }),
{
    lemma2_to64();
    lemma2_to64_rest();
    let m: nat = if value < 0 {
        (-value) as nat
    } else {
        value as nat
    };
    lemma_highest_bit_exists(m);
    let e = spec_highest_bit(m);
    if e > 31 {
        lemma_pow2_strictly_increases(31, e);
        assert(false);
    }
    let scale = pow2((52 - e) as nat);
    lemma_pow2_pos((52 - e) as nat);
    lemma_pow2_adds(e, (52 - e) as nat);
    let f = (m - pow2(e)) * scale;
    assert(f < pow2(52)) by (nonlinear_arith)
        requires
            m - pow2(e) < pow2(e),
            0 <= m - pow2(e),
            scale > 0,
            pow2(e) * scale == pow2(52),
            f == (m - pow2(e)) * scale,
    ;
    assert(f >= 0) by (nonlinear_arith)
        requires
            0 <= m - pow2(e),
            scale > 0,
            f == (m - pow2(e)) * scale,
    ;
    let s: u64 = if value < 0 {
        1
    } else {
        0
    };
    let exponent: u64 = (1023 + e) as u64;
    let fraction: u64 = f as u64;
    assert(fraction as int == f);
    assert(exponent as int == 1023 + e);
    let bits = spec_double_from_integer(value as i64);
    assert(bits == ((s as int) * 0x8000_0000_0000_0000 + (exponent as int) * 0x10_0000_0000_0000
        + (fraction as int)) as u64);
    assert(double_exponent_field(bits) == exponent && double_fraction_field(bits) == fraction && double_is_negative(
        bits,
    ) == (s == 1)) by (bit_vector)
        requires
            s <= 1,
            exponent < 2048,
            fraction < 0x10_0000_0000_0000,
            bits == ((s as int) * 0x8000_0000_0000_0000 + (exponent as int) * 0x10_0000_0000_0000 + (
            fraction as int)) as u64,
    ;
}

/// ToInt32 undoes the conversion of an int32 to a double: every int32 comes back from the
/// double equal to it.
pub proof fn law_int32_survives_the_double_round_trip(value: i32)
    ensures
        spec_double_to_int32(spec_double_from_integer(value as i64)) == value,
{
    lemma2_to64();
    lemma2_to64_rest();
    if value == 0 {
        assert(double_exponent_field(0u64) == 0) by (bit_vector);
        return;
    }
    lemma_int32_double_fields(value);
    let m: nat = if value < 0 {
        (-value) as nat
    } else {
        value as nat
    };
    let e = spec_highest_bit(m);
    let scale = pow2((52 - e) as nat);
    let bits = spec_double_from_integer(value as i64);
    let significand = (double_fraction_field(bits) + pow2(52)) as int;
    assert(significand == scale * m) by (nonlinear_arith)
        requires
            significand == (m - pow2(e)) * scale + pow2(52),
            pow2(e) * scale == pow2(52),
    ;
    lemma_div_multiples_vanish(m as int, scale as int);
    assert(double_truncated_magnitude(bits) == m);
    lemma_small_mod(m, pow2(32));
}

/// An int32 and the double equal to it are strictly equal, on either side.
pub proof fn law_int32_strictly_equals_its_double(value: i32)
    ensures
        spec_strict_equals(RuntimeValue::Int32(value), RuntimeValue::Double(spec_double_from_integer(value as i64))),
        spec_strict_equals(RuntimeValue::Double(spec_double_from_integer(value as i64)), RuntimeValue::Int32(value)),
{
    if value == 0 {
        assert(double_exponent_field(0u64) == 0) by (bit_vector);
    } else {
        lemma_int32_double_fields(value);
    }
}

/// Add, subtract and multiply on two int32 numbers give the exact int32 whenever the
/// mathematical result fits, and a double otherwise.
pub proof fn law_number_arithmetic_on_int32s_is_exact(left: i32, right: i32)
    ensures
        ({
            let l = NumberValue::Int32(left);
            let r = NumberValue::Int32(right);
            &&& i32::MIN <= left + right <= i32::MAX ==> spec_pure_number_arithmetic_result(CoreOpcode::AddInt32, l, r)
                == Some(RuntimeValue::Int32((left + right) as i32))
            &&& i32::MIN <= left - right <= i32::MAX ==> spec_pure_number_arithmetic_result(CoreOpcode::SubInt32, l, r)
                == Some(RuntimeValue::Int32((left - right) as i32))
            &&& i32::MIN <= left * right <= i32::MAX ==> spec_pure_number_arithmetic_result(CoreOpcode::MulInt32, l, r)
                == Some(RuntimeValue::Int32((left * right) as i32))
            &&& !(i32::MIN <= left + right <= i32::MAX) ==> (spec_pure_number_arithmetic_result(CoreOpcode::AddInt32, l, r) is Some
                && spec_pure_number_arithmetic_result(CoreOpcode::AddInt32, l, r)->Some_0 is Double)
            &&& !(i32::MIN <= left - right <= i32::MAX) ==> (spec_pure_number_arithmetic_result(CoreOpcode::SubInt32, l, r) is Some
                && spec_pure_number_arithmetic_result(CoreOpcode::SubInt32, l, r)->Some_0 is Double)
            &&& !(i32::MIN <= left * right <= i32::MAX) ==> (spec_pure_number_arithmetic_result(CoreOpcode::MulInt32, l, r) is Some
                && spec_pure_number_arithmetic_result(CoreOpcode::MulInt32, l, r)->Some_0 is Double)
        }),
{
}

/// Negation flips the sign and keeps the magnitude: a double gets the opposite sign bit
/// and the same magnitude; a nonzero int32 other than the least one gives the opposite
/// int32; int32 zero gives negative zero; and the least int32 gives a positive double with
/// the magnitude of the double equal to it.
pub proof fn law_negation_flips_the_sign(number: NumberValue)
    ensures
        match (number, spec_negate_number(number)) {
            (NumberValue::DoubleBits(bits), RuntimeValue::Double(negated)) => double_is_negative(negated)
                != double_is_negative(bits) && double_magnitude(negated) == double_magnitude(bits),
            (NumberValue::Int32(v), RuntimeValue::Int32(negated)) => v != 0 && v != i32::MIN && negated == -v,
            (NumberValue::Int32(v), RuntimeValue::Double(negated)) => if v == 0 {
                double_is_negative(negated) && double_magnitude(negated) == 0
            } else {
                v == i32::MIN && !double_is_negative(negated) && double_magnitude(negated) == double_magnitude(
                    spec_double_from_integer(v as i64),
                )
            },
            _ => false,
        },
{
    match number {
        NumberValue::DoubleBits(bits) => {
            let negated = bits ^ 0x8000_0000_0000_0000u64;
            assert(((negated & 0x8000_0000_0000_0000u64) != 0) != ((bits & 0x8000_0000_0000_0000u64) != 0) && (negated
                & 0x7fff_ffff_ffff_ffffu64) == (bits & 0x7fff_ffff_ffff_ffffu64)) by (bit_vector)
                requires
                    negated == bits ^ 0x8000_0000_0000_0000u64,
            ;
        },
        NumberValue::Int32(v) => {
            if v == 0 {
                let z = 0x8000_0000_0000_0000u64;
                assert((z & 0x8000_0000_0000_0000u64) != 0 && (z & 0x7fff_ffff_ffff_ffffu64) == 0) by (bit_vector)
                    requires
                        z == 0x8000_0000_0000_0000u64,
                ;
            } else if v == i32::MIN {
                lemma_int32_double_fields(v);
                let bits = spec_double_from_integer(v as i64);
                let negated = bits ^ 0x8000_0000_0000_0000u64;
                assert(((negated & 0x8000_0000_0000_0000u64) != 0) != ((bits & 0x8000_0000_0000_0000u64) != 0)
                    && (negated & 0x7fff_ffff_ffff_ffffu64) == (bits & 0x7fff_ffff_ffff_ffffu64)) by (bit_vector)
                    requires
                        negated == bits ^ 0x8000_0000_0000_0000u64,
                ;
            }
        },
    }
}

} // verus!
