//! IEEE-754 binary64 values carried as their bit patterns.
//!
//! Classification, ordering, sign flips, the exact conversion of small integers and the
//! ECMAScript ToInt32 conversion are computed here on the bits and verified; rounding
//! arithmetic is delegated to `rustc_apfloat`, whose results are named by the
//! uninterpreted functions below.
use vstd::prelude::*;
use vstd::arithmetic::power2::{pow2, lemma_pow2_pos, lemma_pow2_unfold, lemma_pow2_adds, lemma2_to64, lemma2_to64_rest, lemma_pow2_strictly_increases};
use vstd::arithmetic::div_mod::{lemma_mod_multiples_vanish, lemma_mul_mod_noop_left, lemma_div_is_ordered, lemma_basic_div};
use vstd::arithmetic::mul::{lemma_mul_is_commutative, lemma_mul_is_associative};
use vstd::bits::{lemma_u64_shl_is_mul, lemma_u64_shr_is_div, lemma_u64_pow2_no_overflow};
use rustc_apfloat::ieee::Double;
use rustc_apfloat::Float;

verus! {

/// Bit pattern of the quiet NaN produced for `undefined` coerced to a number.
pub const DOUBLE_NAN_BITS: u64 = 0x7ff8_0000_0000_0000;

/// Bit pattern of negative zero.
pub const DOUBLE_NEGATIVE_ZERO_BITS: u64 = 0x8000_0000_0000_0000;

pub const DOUBLE_SIGN_MASK: u64 = 0x8000_0000_0000_0000;

pub const DOUBLE_MAGNITUDE_MASK: u64 = 0x7fff_ffff_ffff_ffff;

pub const DOUBLE_FRACTION_MASK: u64 = 0x000f_ffff_ffff_ffff;

pub open spec fn double_exponent_field(bits: u64) -> u64 {
    (bits >> 52u64) & 0x7ffu64
}

pub open spec fn double_fraction_field(bits: u64) -> u64 {
    bits & DOUBLE_FRACTION_MASK
}

pub open spec fn double_is_negative(bits: u64) -> bool {
    bits & DOUBLE_SIGN_MASK != 0
}

pub open spec fn double_magnitude(bits: u64) -> u64 {
    bits & DOUBLE_MAGNITUDE_MASK
}

pub open spec fn spec_double_is_nan(bits: u64) -> bool {
    double_exponent_field(bits) == 0x7ff && double_fraction_field(bits) != 0
}

pub open spec fn spec_double_is_zero(bits: u64) -> bool {
    double_magnitude(bits) == 0
}

/// The position of a non-NaN double on the number line, as an integer that orders
/// exactly as the real values do (both zeros map to 0).
pub open spec fn double_order_key(bits: u64) -> int {
    if double_is_negative(bits) {
        -(double_magnitude(bits) as int)
    } else {
        double_magnitude(bits) as int
    }
}

/// IEEE equality: NaN equals nothing, and the two zeros are equal.
pub open spec fn spec_double_equal(left: u64, right: u64) -> bool {
    &&& !spec_double_is_nan(left)
    &&& !spec_double_is_nan(right)
    &&& double_order_key(left) == double_order_key(right)
}

/// IEEE less-than: false whenever either side is NaN.
pub open spec fn spec_double_less(left: u64, right: u64) -> bool {
    &&& !spec_double_is_nan(left)
    &&& !spec_double_is_nan(right)
    &&& double_order_key(left) < double_order_key(right)
}

/// Magnitude of the value truncated toward zero (meaningful for finite values).
pub open spec fn double_truncated_magnitude(bits: u64) -> nat {
    let exponent = double_exponent_field(bits);
    let significand: nat = (double_fraction_field(bits) + pow2(52)) as nat;
    if exponent == 0 {
        0
    } else if exponent >= 1075 {
        significand * pow2((exponent - 1075) as nat)
    } else {
        significand / pow2((1075 - exponent) as nat)
    }
}

/// ECMAScript ToInt32 applied to a double: non-finite values give 0, others are
/// truncated toward zero and reduced modulo 2^32 into the signed 32-bit range.
pub open spec fn spec_double_to_int32(bits: u64) -> i32 {
    if double_exponent_field(bits) == 0x7ff {
        0
    } else {
        let low = double_truncated_magnitude(bits) % pow2(32);
        let unsigned = if double_is_negative(bits) && low != 0 {
            pow2(32) - low
        } else {
            low as int
        };
        if unsigned >= pow2(31) {
            (unsigned - pow2(32)) as i32
        } else {
            unsigned as i32
        }
    }
}

/// Name for the IEEE sum (round to nearest, ties to even) that `rustc_apfloat` computes.
pub uninterp spec fn spec_double_add(left: u64, right: u64) -> u64;

/// Name for the IEEE difference that `rustc_apfloat` computes.
pub uninterp spec fn spec_double_sub(left: u64, right: u64) -> u64;

/// Name for the IEEE product that `rustc_apfloat` computes.
pub uninterp spec fn spec_double_mul(left: u64, right: u64) -> u64;

/// Name for the IEEE quotient that `rustc_apfloat` computes.
pub uninterp spec fn spec_double_div(left: u64, right: u64) -> u64;

/// Name for the C `fmod` remainder that `rustc_apfloat` computes.
pub uninterp spec fn spec_double_rem(left: u64, right: u64) -> u64;

/// The exponent of the highest set bit of a positive integer: the `e` with
/// 2^e <= magnitude < 2^(e+1).
pub open spec fn spec_highest_bit(magnitude: nat) -> nat {
    choose|e: nat| #[trigger] pow2(e) <= magnitude < pow2(e + 1)
}

/// The double equal to an integer whose magnitude is below 2^53, which a double holds
/// exactly: the sign, the biased exponent of the highest set bit, and the bits below that
/// bit at the top of the fraction. Zero is positive zero.
pub open spec fn spec_double_from_integer(value: i64) -> u64 {
    if value == 0 {
        0
    } else {
        let magnitude: nat = if value < 0 {
            (-value) as nat
        } else {
            value as nat
        };
        let exponent = spec_highest_bit(magnitude);
        let sign: int = if value < 0 {
            pow2(63) as int
        } else {
            0
        };
        (sign + (1023 + exponent) * pow2(52) + (magnitude - pow2(exponent)) * pow2((52 - exponent) as nat)) as u64
    }
}

/// Calls `<Double as Add>::add` of `rustc_apfloat` (round to nearest, ties to even)
/// on the two bit patterns; the contract only names the resulting bits.
#[verifier::external_body]
pub fn double_add(left: u64, right: u64) -> (r: u64)
    ensures
        r == spec_double_add(left, right),
{
    (Double::from_bits(left as u128) + Double::from_bits(right as u128)).value.to_bits() as u64
}

/// Calls `<Double as Sub>::sub` of `rustc_apfloat`; the contract only names the result.
#[verifier::external_body]
pub fn double_sub(left: u64, right: u64) -> (r: u64)
    ensures
        r == spec_double_sub(left, right),
{
    (Double::from_bits(left as u128) - Double::from_bits(right as u128)).value.to_bits() as u64
}

/// Calls `<Double as Mul>::mul` of `rustc_apfloat`; the contract only names the result.
#[verifier::external_body]
pub fn double_mul(left: u64, right: u64) -> (r: u64)
    ensures
        r == spec_double_mul(left, right),
{
    (Double::from_bits(left as u128) * Double::from_bits(right as u128)).value.to_bits() as u64
}

/// Calls `<Double as Div>::div` of `rustc_apfloat`; the contract only names the result.
#[verifier::external_body]
pub fn double_div(left: u64, right: u64) -> (r: u64)
    ensures
        r == spec_double_div(left, right),
{
    (Double::from_bits(left as u128) / Double::from_bits(right as u128)).value.to_bits() as u64
}

/// Calls `<Double as Rem>::rem` of `rustc_apfloat`, which is C `fmod` (the sign of the
/// result follows the dividend); the contract only names the result.
#[verifier::external_body]
pub fn double_rem(left: u64, right: u64) -> (r: u64)
    ensures
        r == spec_double_rem(left, right),
{
    (Double::from_bits(left as u128) % Double::from_bits(right as u128)).value.to_bits() as u64
}

/// An exponent whose power of two bounds a positive integer from below and, doubled, from
/// above is its highest set bit.
proof fn lemma_highest_bit_is(magnitude: nat, exponent: nat)
    requires
        pow2(exponent) <= magnitude < pow2(exponent + 1),
    ensures
        spec_highest_bit(magnitude) == exponent,
{
    let e = spec_highest_bit(magnitude);
    assert(pow2(e) <= magnitude < pow2(e + 1));
    if e < exponent {
        if e + 1 < exponent {
            lemma_pow2_strictly_increases(e + 1, exponent);
        }
        assert(false);
    } else if exponent < e {
        if exponent + 1 < e {
            lemma_pow2_strictly_increases(exponent + 1, e);
        }
        assert(false);
    }
}

/// The double equal to an integer of magnitude below 2^53 (exact, so no rounding).
pub fn double_from_integer(value: i64) -> (r: u64)
    requires
        -0x20_0000_0000_0000 < value < 0x20_0000_0000_0000,
    ensures
        r == spec_double_from_integer(value),
{
    if value == 0 {
        return 0;
    }
    let negative = value < 0;
    let magnitude: u64 = if negative {
        (-value) as u64
    } else {
        value as u64
    };
    proof {
        lemma2_to64();
        lemma2_to64_rest();
    }
    let mut exponent: u64 = 0;
    let mut top: u64 = 1;
    while top <= magnitude / 2
        invariant
            1 <= top <= magnitude,
            magnitude < 0x20_0000_0000_0000,
            top == pow2(exponent as nat),
            exponent <= 52,
            pow2(53) == 0x20_0000_0000_0000,
        decreases magnitude - top,
    {
        proof {
            lemma_pow2_unfold((exponent + 1) as nat);
            if exponent + 1 > 52 {
                if exponent + 1 > 53 {
                    lemma_pow2_strictly_increases(53, (exponent + 1) as nat);
                }
                assert(false);
            }
        }
        top = top * 2;
        exponent = exponent + 1;
    }
    proof {
        lemma_pow2_unfold((exponent + 1) as nat);
        lemma_highest_bit_is(magnitude as nat, exponent as nat);
    }
    let mut scale: u64 = 1;
    let mut k: u64 = exponent;
    while k < 52
        invariant
            exponent <= k <= 52,
            scale == pow2((k - exponent) as nat),
        decreases 52 - k,
    {
        proof {
            lemma_pow2_unfold((k + 1 - exponent) as nat);
            lemma_u64_pow2_no_overflow((k + 1 - exponent) as nat);
        }
        scale = scale * 2;
        k = k + 1;
    }
    let fraction = magnitude - top;
    proof {
        lemma_pow2_pos((52 - exponent) as nat);
        lemma_pow2_adds(exponent as nat, (52 - exponent) as nat);
        assert(fraction * scale < top * scale) by (nonlinear_arith)
            requires
                fraction < top,
                scale > 0,
        ;
    }
    let sign: u64 = if negative {
        0x8000_0000_0000_0000
    } else {
        0
    };
    sign + (1023 + exponent) * 0x10_0000_0000_0000 + fraction * scale
}

pub fn double_is_nan(bits: u64) -> (r: bool)
    ensures
        r == spec_double_is_nan(bits),
{
    ((bits >> 52u64) & 0x7ffu64) == 0x7ff && (bits & DOUBLE_FRACTION_MASK) != 0
}

pub fn double_is_zero(bits: u64) -> (r: bool)
    ensures
        r == spec_double_is_zero(bits),
{
    bits & DOUBLE_MAGNITUDE_MASK == 0
}

/// IEEE negation: flips the sign bit and nothing else.
pub fn double_negate(bits: u64) -> (r: u64)
    ensures
        r == bits ^ DOUBLE_SIGN_MASK,
        double_magnitude(r) == double_magnitude(bits),
        double_is_negative(r) == !double_is_negative(bits),
        spec_double_is_nan(r) == spec_double_is_nan(bits),
{
    let r = bits ^ DOUBLE_SIGN_MASK;
    assert((r & DOUBLE_MAGNITUDE_MASK) == (bits & DOUBLE_MAGNITUDE_MASK)) by (bit_vector)
        requires r == bits ^ 0x8000_0000_0000_0000u64;
    assert(((r & 0x8000_0000_0000_0000u64) != 0) == !((bits & 0x8000_0000_0000_0000u64) != 0)) by (bit_vector)
        requires r == bits ^ 0x8000_0000_0000_0000u64;
    assert(((r >> 52u64) & 0x7ffu64) == ((bits >> 52u64) & 0x7ffu64)) by (bit_vector)
        requires r == bits ^ 0x8000_0000_0000_0000u64;
    assert((r & 0x000f_ffff_ffff_ffffu64) == (bits & 0x000f_ffff_ffff_ffffu64)) by (bit_vector)
        requires r == bits ^ 0x8000_0000_0000_0000u64;
    r
}

fn double_order_key_exec(bits: u64) -> (r: i128)
    ensures
        r == double_order_key(bits),
{
    let magnitude = (bits & DOUBLE_MAGNITUDE_MASK) as i128;
    if bits & DOUBLE_SIGN_MASK != 0 {
        -magnitude
    } else {
        magnitude
    }
}

pub fn double_equal(left: u64, right: u64) -> (r: bool)
    ensures
        r == spec_double_equal(left, right),
{
    !double_is_nan(left) && !double_is_nan(right) && double_order_key_exec(left)
        == double_order_key_exec(right)
}

pub fn double_less(left: u64, right: u64) -> (r: bool)
    ensures
        r == spec_double_less(left, right),
{
    !double_is_nan(left) && !double_is_nan(right) && double_order_key_exec(left)
        < double_order_key_exec(right)
}

proof fn lemma_mask_is_mod_2_32(x: u64)
    ensures
        x & 0xffff_ffffu64 == x % 0x1_0000_0000u64,
{
    assert(x & 0xffff_ffffu64 == x % 0x1_0000_0000u64) by (bit_vector);
}

proof fn lemma_pow2_32_31()
    ensures
        pow2(32) == 0x1_0000_0000,
        pow2(31) == 0x8000_0000,
        pow2(52) == 0x10_0000_0000_0000,
        pow2(53) == 0x20_0000_0000_0000,
{
    lemma2_to64();
    lemma2_to64_rest();
}

/// The low 32 bits of `significand * 2^shift`.
proof fn lemma_low_bits_of_scaled(significand: u64, shift: u64)
    requires
        shift < 32,
    ensures
        ((significand & 0xffff_ffffu64) * pow2(shift as nat)) <= u64::MAX,
        (((significand & 0xffff_ffffu64) << shift) & 0xffff_ffffu64) as int
            == (significand as nat * pow2(shift as nat)) % pow2(32),
{
    lemma_pow2_32_31();
    let low = significand & 0xffff_ffffu64;
    lemma_mask_is_mod_2_32(significand);
    assert(low < 0x1_0000_0000);
    lemma_pow2_strictly_increases(shift as nat, 32);
    lemma_pow2_pos(shift as nat);
    assert(low * pow2(shift as nat) <= u64::MAX) by (nonlinear_arith)
        requires
            low < 0x1_0000_0000,
            pow2(shift as nat) < 0x1_0000_0000,
    ;
    lemma_u64_shl_is_mul(low, shift);
    let scaled = low << shift;
    assert(scaled == low * pow2(shift as nat));
    lemma_mask_is_mod_2_32(scaled);
    lemma_mul_mod_noop_left(significand as int, pow2(shift as nat) as int, pow2(32) as int);
}

/// Scaling by `2^shift` with `shift >= 32` leaves no low 32 bits.
proof fn lemma_scaled_low_bits_vanish(significand: nat, shift: nat)
    requires
        shift >= 32,
    ensures
        (significand * pow2(shift)) % pow2(32) == 0,
{
    lemma_pow2_adds(32, (shift - 32) as nat);
    lemma_pow2_pos(32);
    lemma_mul_is_commutative(pow2(32) as int, pow2((shift - 32) as nat) as int);
    lemma_mul_is_associative(significand as int, pow2((shift - 32) as nat) as int, pow2(32) as int);
    lemma_mod_multiples_vanish(significand * pow2((shift - 32) as nat) as int, 0, pow2(32) as int);
    assert((significand * pow2((shift - 32) as nat)) * pow2(32) == significand * pow2(shift));
}

/// ECMAScript ToInt32 of a double given by its bits.
pub fn double_to_int32(bits: u64) -> (r: i32)
    ensures
        r == spec_double_to_int32(bits),
{
    proof {
        lemma_pow2_32_31();
    }
    let exponent = (bits >> 52u64) & 0x7ffu64;
    if exponent == 0x7ff {
        return 0;
    }
    let fraction = bits & DOUBLE_FRACTION_MASK;
    let significand = fraction | 0x10_0000_0000_0000u64;
    assert(significand == fraction + 0x10_0000_0000_0000u64) by (bit_vector)
        requires
            fraction == bits & 0x000f_ffff_ffff_ffffu64,
            significand == fraction | 0x10_0000_0000_0000u64,
    ;
    assert(fraction < 0x10_0000_0000_0000u64) by (bit_vector)
        requires fraction == bits & 0x000f_ffff_ffff_ffffu64;
    let ghost truncated = double_truncated_magnitude(bits);
    let low: u64 = if exponent == 0 {
        assert(truncated == 0);
        0
    } else if exponent >= 1075 {
        let shift = exponent - 1075;
        if shift >= 32 {
            proof {
                lemma_scaled_low_bits_vanish(significand as nat, shift as nat);
            }
            0
        } else {
            proof {
                lemma_low_bits_of_scaled(significand, shift);
            }
            ((significand & 0xffff_ffffu64) << shift) & 0xffff_ffffu64
        }
    } else {
        let shift = 1075 - exponent;
        proof {
            lemma_pow2_pos(shift as nat);
        }
        let truncated_exec: u64 = if shift >= 64 {
            proof {
                lemma_pow2_strictly_increases(53, shift as nat);
                lemma_basic_div(significand as int, pow2(shift as nat) as int);
            }
            0
        } else {
            proof {
                lemma_u64_shr_is_div(significand, shift);
            }
            significand >> shift
        };
        assert(truncated_exec == truncated);
        proof {
            lemma_mask_is_mod_2_32(truncated_exec);
        }
        truncated_exec & 0xffff_ffffu64
    };
    assert(low as int == truncated % pow2(32));
    let negative = bits & DOUBLE_SIGN_MASK != 0;
    let unsigned: u64 = if negative && low != 0 {
        0x1_0000_0000u64 - low
    } else {
        low
    };
    if unsigned >= 0x8000_0000u64 {
        (unsigned as i64 - 0x1_0000_0000i64) as i32
    } else {
        unsigned as i32
    }
}

} // verus!
