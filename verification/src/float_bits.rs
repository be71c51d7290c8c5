//! Single- and double-precision numbers as their IEEE-754 bit patterns, and
//! the conversions into single precision that vertex packing needs, in
//! integer arithmetic.

use vstd::prelude::*;
use vstd::arithmetic::power2::pow2;

verus! {

/// Two to the power of 23: the hidden bit of a single-precision mantissa.
pub const HIDDEN_BIT: u64 = 0x80_0000;

/// Two to the power of 24: the first integer that a mantissa cannot hold.
pub const MANTISSA_END: u64 = 0x100_0000;

/// The sign bit of a single-precision number.
pub const SIGN_BIT: u32 = 0x8000_0000;

/// What is added to a whole mantissa between 2^23 and 2^24 to get the bits
/// of the number that it is: the exponent field 150, less the hidden bit
/// that the mantissa holds.
pub const WHOLE_MANTISSA_BASE: u64 = 0x4A80_0000;

/// `n / d` rounded to the nearest integer, a tie to the even one.
pub open spec fn round_half_even(n: nat, d: nat) -> nat
    recommends
        d > 0,
{
    let q = n / d;
    let r = n % d;
    if 2 * r < d {
        q
    } else if 2 * r > d {
        q + 1
    } else if q % 2 == 0 {
        q
    } else {
        q + 1
    }
}

/// The bits of the single-precision number nearest to `num / den`, for a
/// ratio of at least 2^23: the ratio is halved until it is below 2^24, which
/// raises the exponent field by one each time, and then rounded to an
/// integer mantissa. A mantissa that rounds up to 2^24 carries into the
/// exponent field by the addition.
pub open spec fn single_of_large_ratio(num: nat, den: nat) -> int
    recommends
        den > 0,
    decreases
        (if num >= MANTISSA_END * den {
            num - MANTISSA_END * den + 1
        } else {
            0
        }),
{
    if den > 0 && num >= MANTISSA_END * den {
        single_of_large_ratio(num, 2 * den) + HIDDEN_BIT
    } else {
        WHOLE_MANTISSA_BASE + round_half_even(num, den)
    }
}

/// The bits of the single-precision number nearest to the positive ratio
/// `num / den`, a tie to the one with the even mantissa: the ratio is doubled
/// until it is at least 2^23, which lowers the exponent field by one each
/// time. Zero for a ratio of zero.
pub open spec fn single_of_ratio(num: nat, den: nat) -> int
    recommends
        den > 0,
    decreases
        (if num < HIDDEN_BIT * den {
            HIDDEN_BIT * den - num
        } else {
            0
        }),
{
    if num == 0 || den == 0 {
        0
    } else if num < HIDDEN_BIT * den {
        single_of_ratio(2 * num, den) - HIDDEN_BIT
    } else {
        single_of_large_ratio(num, den)
    }
}

/// `n / d` rounded to the nearest integer, a tie to the even one.
pub fn div_round_half_even(n: u64, d: u64) -> (r: u64)
    requires
        0 < d <= 0x4000_0000_0000_0000,
        n / d < u64::MAX,
    ensures
        r == round_half_even(n as nat, d as nat),
{
    let q: u64 = n / d;
    let rem: u64 = n % d;
    let twice: u64 = 2 * rem;
    if twice < d {
        q
    } else if twice > d {
        q + 1
    } else if q % 2 == 0 {
        q
    } else {
        q + 1
    }
}

/// A power of two that is below another has the smaller exponent.
pub proof fn lemma_pow2_order(k: nat, b: nat)
    requires
        pow2(k) < pow2(b),
    ensures
        k < b,
{
    if k > b {
        vstd::arithmetic::power2::lemma_pow2_strictly_increases(b, k);
    }
}

/// The bits of the single-precision number nearest to `num / den`, a tie to
/// the one with the even mantissa.
pub fn single_from_ratio(num: u64, den: u64) -> (r: u32)
    requires
        0 < den <= 0x1_0000_0000,
        num <= 0x1_0000_0000,
    ensures
        r == single_of_ratio(num as nat, den as nat),
        r < SIGN_BIT,
{
    if num == 0 {
        return 0;
    }
    proof {
        vstd::arithmetic::power2::lemma2_to64();
    }
    let mut n: u64 = num;
    let mut lowered: u64 = 0;
    while n < HIDDEN_BIT * den
        invariant
            0 < den <= 0x1_0000_0000,
            1 <= num <= 0x1_0000_0000,
            1 <= n <= 0x100_0000_0000_0000,
            lowered <= 55,
            n == num * pow2(lowered as nat),
            lowered > 0 ==> n < MANTISSA_END * den,
            single_of_ratio(num as nat, den as nat) == single_of_ratio(n as nat, den as nat)
                - lowered * HIDDEN_BIT,
        decreases 55 - lowered,
    {
        proof {
            vstd::arithmetic::power2::lemma_pow2_unfold((lowered + 1) as nat);
            vstd::arithmetic::power2::lemma2_to64_rest();
            assert(num * pow2(lowered as nat) >= pow2(lowered as nat)) by (nonlinear_arith)
                requires
                    num >= 1,
            ;
            assert(HIDDEN_BIT * den <= 0x80_0000_0000_0000) by (nonlinear_arith)
                requires
                    den <= 0x1_0000_0000,
            ;
            assert(pow2(lowered as nat) < pow2(55));
            lemma_pow2_order(lowered as nat, 55);
            assert(num * (2 * pow2(lowered as nat)) == 2 * (num * pow2(lowered as nat)))
                by (nonlinear_arith);
        }
        n = 2 * n;
        lowered = lowered + 1;
    }
    let mut d: u64 = den;
    let mut raised: u64 = 0;
    while n >= MANTISSA_END * d
        invariant
            1 <= n <= 0x100_0000_0000_0000,
            0 < den <= d <= 0x1_0000_0000,
            n >= HIDDEN_BIT * d,
            lowered == 0 ==> n <= 0x1_0000_0000,
            lowered > 0 ==> n < MANTISSA_END * den,
            raised <= 9,
            d == den * pow2(raised as nat),
            single_of_large_ratio(n as nat, den as nat) == single_of_large_ratio(
                n as nat,
                d as nat,
            ) + raised * HIDDEN_BIT,
        decreases 9 - raised,
    {
        proof {
            vstd::arithmetic::power2::lemma_pow2_unfold((raised + 1) as nat);
            vstd::arithmetic::power2::lemma2_to64();
            assert(den * pow2(raised as nat) >= pow2(raised as nat)) by (nonlinear_arith)
                requires
                    den >= 1,
            ;
            assert(MANTISSA_END * d <= 0x1_0000_0000 ==> d <= 0x100) by (nonlinear_arith);
            assert(pow2(raised as nat) < pow2(9));
            lemma_pow2_order(raised as nat, 9);
            assert(den * (2 * pow2(raised as nat)) == 2 * (den * pow2(raised as nat)))
                by (nonlinear_arith);
        }
        d = 2 * d;
        raised = raised + 1;
    }
    assert(n / d < MANTISSA_END) by (nonlinear_arith)
        requires
            n < MANTISSA_END * d,
            d > 0,
    ;
    assert(n / d >= HIDDEN_BIT) by (nonlinear_arith)
        requires
            n >= HIDDEN_BIT * d,
            d > 0,
    ;
    let mantissa: u64 = div_round_half_even(n, d);
    let bits: u64 = WHOLE_MANTISSA_BASE + raised * HIDDEN_BIT + mantissa - lowered * HIDDEN_BIT;
    bits as u32
}

/// The bits of the single-precision number nearest to `value / den`, which
/// has the sign of `value`.
pub open spec fn single_of_signed_ratio(value: int, den: nat) -> int
    recommends
        den > 0,
{
    if value < 0 {
        SIGN_BIT + single_of_ratio((-value) as nat, den)
    } else {
        single_of_ratio(value as nat, den)
    }
}

/// The bits of the single-precision number nearest to `value / den`, which
/// has the sign of `value`.
pub fn single_from_signed_ratio(value: i64, den: u64) -> (r: u32)
    requires
        0 < den <= 0x1_0000_0000,
        -0x1_0000_0000 <= value <= 0x1_0000_0000,
    ensures
        r == single_of_signed_ratio(value as int, den as nat),
{
    if value < 0 {
        let magnitude: u64 = (0 - value) as u64;
        SIGN_BIT + single_from_ratio(magnitude, den)
    } else {
        single_from_ratio(value as u64, den)
    }
}

/// Two to the power of `e`.
pub fn power_of_two(e: u32) -> (r: u64)
    requires
        e < 64,
    ensures
        r == pow2(e as nat),
        r >= 1,
{
    let mut r: u64 = 1;
    let mut i: u32 = 0;
    proof {
        vstd::arithmetic::power2::lemma2_to64();
    }
    while i < e
        invariant
            i <= e < 64,
            r == pow2(i as nat),
            r >= 1,
        decreases e - i,
    {
        proof {
            vstd::arithmetic::power2::lemma_pow2_unfold((i + 1) as nat);
            vstd::arithmetic::power2::lemma_pow2_strictly_increases((i + 1) as nat, 64);
            vstd::arithmetic::power2::lemma2_to64();
        }
        r = 2 * r;
        i = i + 1;
    }
    r
}

/// Two to the power of 52: the hidden bit of a double-precision mantissa.
pub const DOUBLE_HIDDEN_BIT: u64 = 0x10_0000_0000_0000;

/// The bits of positive infinity in single precision.
pub const SINGLE_INFINITY: u32 = 0x7F80_0000;

/// The sign of a double-precision number, as the sign bit of a single one.
pub open spec fn double_sign(bits: u64) -> int {
    if bits >= 0x8000_0000_0000_0000 {
        SIGN_BIT as int
    } else {
        0
    }
}

/// The exponent field of a double-precision number.
pub open spec fn double_exponent(bits: u64) -> int {
    (bits / DOUBLE_HIDDEN_BIT) as int % 2048
}

/// The fraction field of a double-precision number.
pub open spec fn double_fraction(bits: u64) -> int {
    (bits % DOUBLE_HIDDEN_BIT) as int
}

/// The magnitude bits of the single-precision number nearest to a
/// double-precision one, a tie to the one with the even mantissa.
///
/// An infinity stays one, and a number too great for single precision becomes
/// one. A number that is not one stays so and keeps the upper 22 bits of its
/// payload. A number below the normal range of single precision loses low
/// bits of its mantissa, down to zero.
pub open spec fn narrowed_magnitude(bits: u64) -> int {
    let exponent = double_exponent(bits);
    let fraction = double_fraction(bits);
    let mantissa = (DOUBLE_HIDDEN_BIT + fraction) as nat;
    if exponent == 2047 {
        if fraction == 0 {
            SINGLE_INFINITY as int
        } else {
            SINGLE_INFINITY + 0x40_0000 + (fraction / 0x2000_0000) % 0x40_0000
        }
    } else if exponent == 0 {
        0
    } else if exponent >= 897 {
        let rounded = (exponent - 897) * HIDDEN_BIT + round_half_even(mantissa, 0x2000_0000);
        if rounded >= SINGLE_INFINITY {
            SINGLE_INFINITY as int
        } else {
            rounded
        }
    } else {
        round_half_even(mantissa, pow2((926 - exponent) as nat)) as int
    }
}

/// The bits of the single-precision number nearest to a double-precision
/// one: its sign, and the magnitude that `narrowed_magnitude` gives.
pub open spec fn narrowed_double(bits: u64) -> int {
    double_sign(bits) + narrowed_magnitude(bits)
}

/// Narrows a double-precision number to single precision.
pub fn narrow_double(bits: u64) -> (r: u32)
    ensures
        r == narrowed_double(bits),
{
    let sign: u32 = if bits >= 0x8000_0000_0000_0000 {
        SIGN_BIT
    } else {
        0
    };
    let exponent: u64 = (bits / DOUBLE_HIDDEN_BIT) % 2048;
    let fraction: u64 = bits % DOUBLE_HIDDEN_BIT;
    let mantissa: u64 = DOUBLE_HIDDEN_BIT + fraction;
    if exponent == 2047 {
        if fraction == 0 {
            sign + SINGLE_INFINITY
        } else {
            let payload: u64 = (fraction / 0x2000_0000) % 0x40_0000;
            sign + (SINGLE_INFINITY + 0x40_0000 + payload as u32)
        }
    } else if exponent == 0 {
        sign
    } else if exponent >= 897 {
        let rounded: u64 = (exponent - 897) * HIDDEN_BIT + div_round_half_even(
            mantissa,
            0x2000_0000,
        );
        if rounded >= 0x7F80_0000 {
            sign + SINGLE_INFINITY
        } else {
            sign + rounded as u32
        }
    } else {
        let shift: u64 = 926 - exponent;
        if shift >= 55 {
            proof {
                vstd::arithmetic::power2::lemma2_to64_rest();
                if shift > 55 {
                    vstd::arithmetic::power2::lemma_pow2_strictly_increases(55, shift as nat);
                }
                let d = pow2(shift as nat);
                assert(mantissa < d);
                vstd::arithmetic::div_mod::lemma_small_mod(mantissa as nat, d);
                vstd::arithmetic::div_mod::lemma_basic_div(mantissa as int, d as int);
            }
            sign
        } else {
            let divisor: u64 = power_of_two(shift as u32);
            proof {
                vstd::arithmetic::power2::lemma2_to64_rest();
                vstd::arithmetic::power2::lemma_pow2_strictly_increases(29, shift as nat);
                vstd::arithmetic::power2::lemma2_to64();
                if shift < 54 {
                    vstd::arithmetic::power2::lemma_pow2_strictly_increases(shift as nat, 54);
                }
                assert(mantissa / divisor <= mantissa / 0x2000_0000) by (nonlinear_arith)
                    requires
                        divisor >= 0x2000_0000,
                ;
            }
            let rounded: u64 = div_round_half_even(mantissa, divisor);
            sign + rounded as u32
        }
    }
}

} // verus!
