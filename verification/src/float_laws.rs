//! What the bits that the conversions give stand for: the number itself for
//! a whole number that single precision can hold, the nearest
//! single-precision number for a quotient, and the nearest single-precision
//! number for a double-precision one.

use vstd::prelude::*;
use vstd::arithmetic::power2::lemma_pow2_adds;
use vstd::arithmetic::power2::lemma_pow2_pos;
use vstd::arithmetic::power2::lemma_pow2_unfold;
use vstd::arithmetic::power2::pow2;
use crate::convert::integer_value;
use crate::convert::le_bytes4;
use crate::convert::le_unsigned;
use crate::convert::lemma_le_unsigned_unfold;
use crate::convert::normal_divisor;
use crate::convert::packed_item;
use crate::float_bits::double_exponent;
use crate::float_bits::double_fraction;
use crate::float_bits::narrowed_magnitude;
use crate::float_bits::round_half_even;
use crate::float_bits::DOUBLE_HIDDEN_BIT;
use crate::gl::PointerDataType;
use crate::float_bits::single_of_large_ratio;
use crate::float_bits::single_of_ratio;
use crate::float_bits::single_of_signed_ratio;
use crate::float_bits::HIDDEN_BIT;
use crate::float_bits::MANTISSA_END;
use crate::float_bits::SIGN_BIT;
use crate::float_bits::SINGLE_INFINITY;
use crate::float_bits::WHOLE_MANTISSA_BASE;

verus! {

/// The exponent field of the bits of a magnitude.
pub open spec fn exponent_field(bits: int) -> int {
    bits / (HIDDEN_BIT as int)
}

/// The fraction field of the bits of a magnitude.
pub open spec fn fraction_field(bits: int) -> int {
    bits % (HIDDEN_BIT as int)
}

/// The number that the bits of a finite magnitude stand for, multiplied by
/// 2^149, which makes a whole number of every single-precision number.
pub open spec fn scaled_magnitude(bits: int) -> int {
    if exponent_field(bits) == 0 {
        fraction_field(bits)
    } else {
        (HIDDEN_BIT + fraction_field(bits)) * pow2((exponent_field(bits) - 1) as nat)
    }
}

/// The distance from the number that the bits of a finite magnitude stand
/// for to the next greater single-precision number, multiplied by 2^149.
pub open spec fn scaled_ulp(bits: int) -> int {
    if exponent_field(bits) == 0 {
        1
    } else {
        pow2((exponent_field(bits) - 1) as nat) as int
    }
}

/// The number that the bits of a finite single-precision number stand for,
/// multiplied by 2^149.
pub open spec fn scaled_value(bits: int) -> int {
    if bits >= SIGN_BIT {
        -scaled_magnitude(bits - SIGN_BIT)
    } else {
        scaled_magnitude(bits)
    }
}

/// The distance between a quotient and a number, both multiplied by the
/// divisor of the quotient.
pub open spec fn distance(a: int, b: int) -> int {
    if a >= b {
        a - b
    } else {
        b - a
    }
}

/// Both a quotient and a number multiplied by the same: so is their
/// distance.
pub proof fn lemma_distance_scaled(a: int, b: int, k: int)
    requires
        k >= 0,
    ensures
        distance(a * k, b * k) == k * distance(a, b),
{
    if a >= b {
        assert(a * k >= b * k) by (nonlinear_arith)
            requires
                a >= b,
                k >= 0,
        ;
        assert(a * k - b * k == k * (a - b)) by (nonlinear_arith);
    } else {
        assert(a * k <= b * k) by (nonlinear_arith)
            requires
                a < b,
                k >= 0,
        ;
        assert(b * k - a * k == k * (b - a)) by (nonlinear_arith);
    }
}

/// Raising the exponent field by one doubles the number and the distance
/// to the next.
pub proof fn lemma_raise_exponent(bits: int)
    requires
        HIDDEN_BIT <= bits,
    ensures
        exponent_field(bits + HIDDEN_BIT) == exponent_field(bits) + 1,
        fraction_field(bits + HIDDEN_BIT) == fraction_field(bits),
        scaled_magnitude(bits + HIDDEN_BIT) == 2 * scaled_magnitude(bits),
        scaled_ulp(bits + HIDDEN_BIT) == 2 * scaled_ulp(bits),
{
    let h = HIDDEN_BIT as int;
    let e = exponent_field(bits);
    let f = fraction_field(bits);
    vstd::arithmetic::div_mod::lemma_fundamental_div_mod(bits, h);
    vstd::arithmetic::div_mod::lemma_mod_bound(bits, h);
    assert(bits + h == (e + 1) * h + f) by (nonlinear_arith)
        requires
            bits == h * e + f,
    ;
    vstd::arithmetic::div_mod::lemma_fundamental_div_mod_converse(bits + h, h, e + 1, f);
    assert(e >= 1) by (nonlinear_arith)
        requires
            bits == h * e + f,
            bits >= h,
            0 <= f < h,
            h > 0,
    ;
    lemma_pow2_unfold(e as nat);
    let p = pow2((e - 1) as nat) as int;
    assert((h + f) * (2 * p) == 2 * ((h + f) * p)) by (nonlinear_arith);
}

/// The bits of a whole mantissa stand for the mantissa.
pub proof fn lemma_whole_mantissa(m: int)
    requires
        HIDDEN_BIT <= m <= MANTISSA_END,
    ensures
        scaled_magnitude(WHOLE_MANTISSA_BASE + m) == m * pow2(149),
        scaled_ulp(WHOLE_MANTISSA_BASE + m) >= pow2(149),
        150 <= exponent_field(WHOLE_MANTISSA_BASE + m) <= 151,
{
    let h = HIDDEN_BIT as int;
    let bits = WHOLE_MANTISSA_BASE + m;
    if m < MANTISSA_END {
        vstd::arithmetic::div_mod::lemma_fundamental_div_mod_converse(bits, h, 150, m - h);
    } else {
        vstd::arithmetic::div_mod::lemma_fundamental_div_mod_converse(bits, h, 151, 0);
        lemma_pow2_unfold(150);
        assert(h * (2 * pow2(149)) == (2 * h) * pow2(149)) by (nonlinear_arith);
    }
    lemma_pow2_pos(149);
    lemma_pow2_pos(150);
    lemma_pow2_unfold(150);
}

/// `round_half_even` gives a whole number that is no farther from the
/// quotient than half of one.
pub proof fn lemma_round_half_even(n: nat, d: nat)
    requires
        d > 0,
    ensures
        2 * distance((round_half_even(n, d) * d) as int, n as int) <= d,
        2 * distance((round_half_even(n, d) * d) as int, n as int) == d ==> round_half_even(n, d)
            % 2 == 0,
        n / d <= round_half_even(n, d) <= n / d + 1,
        n % d == 0 ==> round_half_even(n, d) == n / d,
{
    vstd::arithmetic::div_mod::lemma_fundamental_div_mod(n as int, d as int);
    vstd::arithmetic::div_mod::lemma_mod_bound(n as int, d as int);
    let q = (n / d) as int;
    let r = (n % d) as int;
    assert((q + 1) * d == q * d + d) by (nonlinear_arith);
    assert(q * d == d * q) by (nonlinear_arith);
}

/// What the bits of a quotient of at least 2^23 stand for is no farther
/// from the quotient than half the distance to the next single-precision
/// number, and it is the quotient itself where the quotient is a whole
/// number below 2^24.
pub proof fn lemma_large_ratio(num: nat, den: nat, halvings: nat)
    requires
        den > 0,
        num >= HIDDEN_BIT * den,
        num < pow2(24 + halvings) * den,
        halvings <= 100,
    ensures
        ({
            let bits = single_of_large_ratio(num, den);
            &&& 150 <= exponent_field(bits) <= 151 + halvings
            &&& HIDDEN_BIT <= bits
            &&& 2 * distance(scaled_magnitude(bits) * den, (num * pow2(149)) as int) <= scaled_ulp(bits)
                * den
            &&& 2 * distance(scaled_magnitude(bits) * den, (num * pow2(149)) as int) == scaled_ulp(
                bits,
            ) * den ==> fraction_field(bits) % 2 == 0
            &&& fraction_field(bits) == 0 && scaled_magnitude(bits) * den > num * pow2(149) ==> 4
                * distance(scaled_magnitude(bits) * den, (num * pow2(149)) as int) <= scaled_ulp(
                bits,
            ) * den
            &&& (den == 1 && num < MANTISSA_END ==> scaled_magnitude(bits) == num * pow2(149))
        }),
    decreases halvings,
{
    vstd::arithmetic::power2::lemma2_to64();
    let p = pow2(149) as int;
    lemma_pow2_pos(149);
    if num >= MANTISSA_END * den {
        if halvings == 0 {
            assert(false);
        }
        lemma_pow2_unfold(24 + halvings);
        assert(pow2(24 + halvings) * den == pow2((24 + halvings - 1) as nat) * (2 * den))
            by (nonlinear_arith)
            requires
                pow2(24 + halvings) == 2 * pow2((24 + halvings - 1) as nat),
        ;
        assert(num >= HIDDEN_BIT * (2 * den)) by (nonlinear_arith)
            requires
                num >= MANTISSA_END * den,
        ;
        lemma_large_ratio(num, 2 * den, (halvings - 1) as nat);
        let inner = single_of_large_ratio(num, 2 * den);
        lemma_raise_exponent(inner);
        let sm = scaled_magnitude(inner);
        let su = scaled_ulp(inner);
        assert((2 * sm) * den == sm * (2 * den) && (2 * su) * den == su * (2 * den))
            by (nonlinear_arith);
    } else {
        let m = round_half_even(num, den);
        lemma_round_half_even(num, den);
        assert(HIDDEN_BIT <= num / den) by (nonlinear_arith)
            requires
                num >= HIDDEN_BIT * den,
                den > 0,
        ;
        assert(num / den < MANTISSA_END) by (nonlinear_arith)
            requires
                num < MANTISSA_END * den,
                den > 0,
        ;
        lemma_whole_mantissa(m as int);
        let bits = WHOLE_MANTISSA_BASE + m;
        let su = scaled_ulp(bits);
        lemma_distance_scaled((m * den) as int, num as int, p);
        assert((m * den) * p == (m * p) * den) by (nonlinear_arith);
        let d = distance((m * den) as int, num as int);
        assert(distance((m * p) * den, num * p) == p * d);
        assert(2 * (p * d) <= p * den) by (nonlinear_arith)
            requires
                2 * d <= den,
                p > 0,
        ;
        assert(p * den <= su * den) by (nonlinear_arith)
            requires
                su >= p,
                den > 0,
        ;
        if m < MANTISSA_END {
            vstd::arithmetic::div_mod::lemma_fundamental_div_mod_converse(
                bits,
                HIDDEN_BIT as int,
                150,
                m - HIDDEN_BIT,
            );
            assert(su == p);
            assert(fraction_field(bits) % 2 == m % 2);
            if 2 * (p * d) == p * den {
                assert(2 * d == den) by (nonlinear_arith)
                    requires
                        2 * (p * d) == p * den,
                        p > 0,
                ;
            }
            if fraction_field(bits) == 0 {
                assert(m == HIDDEN_BIT);
                assert((m * p) * den <= num * p) by (nonlinear_arith)
                    requires
                        m == HIDDEN_BIT,
                        num >= HIDDEN_BIT * den,
                        p > 0,
                ;
            }
        } else {
            vstd::arithmetic::div_mod::lemma_fundamental_div_mod_converse(
                bits,
                HIDDEN_BIT as int,
                151,
                0,
            );
            lemma_pow2_unfold(150);
            assert(su == 2 * p);
            assert(4 * (p * d) <= (2 * p) * den) by (nonlinear_arith)
                requires
                    2 * d <= den,
                    p > 0,
            ;
            assert(2 * (p * d) < (2 * p) * den) by (nonlinear_arith)
                requires
                    2 * d <= den,
                    p > 0,
                    den > 0,
            ;
        }
        if den == 1 {
            assert(num % 1 == 0);
            assert(num / 1 == num);
        }
    }
}

/// What the bits of a quotient stand for is no farther from the quotient
/// than half the distance to the next single-precision number, and it is
/// the quotient itself where the quotient is a whole number below 2^24.
pub proof fn lemma_ratio(num: nat, den: nat, doublings: nat, halvings: nat)
    requires
        den > 0,
        num > 0,
        num * pow2(doublings) >= HIDDEN_BIT * den,
        num < pow2(24 + halvings) * den,
        doublings <= 100,
        halvings <= 100,
    ensures
        ({
            let bits = single_of_ratio(num, den);
            &&& 150 - doublings <= exponent_field(bits) <= 151 + halvings
            &&& HIDDEN_BIT <= bits
            &&& 2 * distance(scaled_magnitude(bits) * den, (num * pow2(149)) as int) <= scaled_ulp(bits)
                * den
            &&& 2 * distance(scaled_magnitude(bits) * den, (num * pow2(149)) as int) == scaled_ulp(
                bits,
            ) * den ==> fraction_field(bits) % 2 == 0
            &&& fraction_field(bits) == 0 && scaled_magnitude(bits) * den > num * pow2(149) ==> 4
                * distance(scaled_magnitude(bits) * den, (num * pow2(149)) as int) <= scaled_ulp(
                bits,
            ) * den
            &&& (den == 1 && num < MANTISSA_END ==> scaled_magnitude(bits) == num * pow2(149))
        }),
    decreases doublings,
{
    vstd::arithmetic::power2::lemma2_to64();
    let p = pow2(149) as int;
    lemma_pow2_pos(149);
    if num < HIDDEN_BIT * den {
        if doublings == 0 {
            assert(num * pow2(0) == num) by (nonlinear_arith)
                requires
                    pow2(0) == 1,
            ;
            assert(false);
        }
        lemma_pow2_unfold(doublings);
        assert((2 * num) * pow2((doublings - 1) as nat) == num * pow2(doublings))
            by (nonlinear_arith)
            requires
                pow2(doublings) == 2 * pow2((doublings - 1) as nat),
        ;
        assert(2 * num < pow2(24) * den) by (nonlinear_arith)
            requires
                num < HIDDEN_BIT * den,
                pow2(24) == 2 * HIDDEN_BIT,
        ;
        lemma_ratio(2 * num, den, (doublings - 1) as nat, 0);
        let inner = single_of_ratio(2 * num, den);
        let bits = inner - HIDDEN_BIT;
        assert(exponent_field(inner) >= 50);
        vstd::arithmetic::div_mod::lemma_fundamental_div_mod(inner, HIDDEN_BIT as int);
        vstd::arithmetic::div_mod::lemma_mod_bound(inner, HIDDEN_BIT as int);
        assert(inner >= 50 * HIDDEN_BIT) by (nonlinear_arith)
            requires
                inner == HIDDEN_BIT * exponent_field(inner) + fraction_field(inner),
                exponent_field(inner) >= 50,
                fraction_field(inner) >= 0,
        ;
        lemma_raise_exponent(bits);
        let sm = scaled_magnitude(bits);
        let su = scaled_ulp(bits);
        lemma_distance_scaled(sm * den, num * p, 2);
        assert((2 * sm) * den == (sm * den) * 2 && ((2 * num) * p) == (num * p) * 2 && (2 * su)
            * den == 2 * (su * den)) by (nonlinear_arith);
        if den == 1 && num < MANTISSA_END {
            assert(2 * num < MANTISSA_END) by (nonlinear_arith)
                requires
                    num < HIDDEN_BIT * den,
                    den == 1,
            ;
            assert(sm == num * p) by (nonlinear_arith)
                requires
                    2 * sm == (2 * num) * p,
            ;
        }
    } else {
        lemma_large_ratio(num, den, halvings);
    }
}

/// A whole number between -2^24 and 2^24 widens to the single-precision
/// number that is the same number.
pub proof fn lemma_widening_is_exact(value: int)
    requires
        -MANTISSA_END <= value <= MANTISSA_END,
    ensures
        scaled_value(single_of_signed_ratio(value, 1)) == value * pow2(149),
{
    vstd::arithmetic::power2::lemma2_to64();
    lemma_pow2_pos(149);
    let p = pow2(149) as int;
    let a: nat = if value < 0 {
        (-value) as nat
    } else {
        value as nat
    };
    if a == 0 {
        assert(single_of_ratio(0, 1) == 0);
        assert(exponent_field(0) == 0);
        assert(0 * p == 0);
    } else {
        let bits = single_of_ratio(a, 1);
        assert(a * pow2(23) >= HIDDEN_BIT * 1) by (nonlinear_arith)
            requires
                a >= 1,
                pow2(23) == HIDDEN_BIT,
        ;
        assert(a < pow2(24 + 1) * 1);
        lemma_ratio(a, 1, 23, 1);
        if a == MANTISSA_END {
            assert(single_of_ratio(a, 1) == single_of_large_ratio(a, 1));
            assert(single_of_large_ratio(a, 1) == single_of_large_ratio(a, 2) + HIDDEN_BIT);
            lemma_round_half_even(a, 2);
            assert(a % 2 == 0);
            assert(single_of_large_ratio(a, 2) == WHOLE_MANTISSA_BASE + HIDDEN_BIT);
            lemma_whole_mantissa(HIDDEN_BIT as int);
            lemma_raise_exponent(WHOLE_MANTISSA_BASE + HIDDEN_BIT);
            assert(2 * (HIDDEN_BIT * p) == a * p) by (nonlinear_arith)
                requires
                    a == 2 * HIDDEN_BIT,
            ;
        }
        assert(scaled_magnitude(bits) == a * p);
        vstd::arithmetic::div_mod::lemma_fundamental_div_mod(bits, HIDDEN_BIT as int);
        vstd::arithmetic::div_mod::lemma_mod_bound(bits, HIDDEN_BIT as int);
        assert(bits < SIGN_BIT) by (nonlinear_arith)
            requires
                bits == HIDDEN_BIT * exponent_field(bits) + fraction_field(bits),
                exponent_field(bits) <= 152,
                fraction_field(bits) < HIDDEN_BIT,
        ;
        if value < 0 {
            assert(-(a * p) == value * p) by (nonlinear_arith)
                requires
                    a == -value,
            ;
        }
    }
}

/// A quotient of two numbers of up to 32 bits becomes the single-precision
/// number nearest to it: what the bits stand for is no farther from the
/// quotient than half the distance to the next single-precision number.
/// So a normalized item is exact to within a unit in the last place.
pub proof fn lemma_normalizing_is_nearest(num: nat, den: nat)
    requires
        0 < den <= 0x1_0000_0000,
        num <= 0x1_0000_0000,
    ensures
        2 * distance(
            scaled_value(single_of_ratio(num, den)) * den,
            (num * pow2(149)) as int,
        )
            <= scaled_ulp(single_of_ratio(num, den)) * den,
{
    vstd::arithmetic::power2::lemma2_to64();
    vstd::arithmetic::power2::lemma2_to64_rest();
    lemma_pow2_pos(149);
    let p = pow2(149) as int;
    if num == 0 {
        assert(exponent_field(0) == 0);
        assert(0 * p == 0);
        assert(0 * den == 0);
    } else {
        let bits = single_of_ratio(num, den);
        assert(num * pow2(55) >= HIDDEN_BIT * den) by (nonlinear_arith)
            requires
                num >= 1,
                den <= 0x1_0000_0000,
                pow2(55) == 0x80_0000_0000_0000,
        ;
        assert(num < pow2(24 + 9) * den) by (nonlinear_arith)
            requires
                num <= 0x1_0000_0000,
                den >= 1,
                pow2(33) == 0x2_0000_0000,
        ;
        lemma_ratio(num, den, 55, 9);
        vstd::arithmetic::div_mod::lemma_fundamental_div_mod(bits, HIDDEN_BIT as int);
        vstd::arithmetic::div_mod::lemma_mod_bound(bits, HIDDEN_BIT as int);
        assert(bits < SIGN_BIT) by (nonlinear_arith)
            requires
                bits == HIDDEN_BIT * exponent_field(bits) + fraction_field(bits),
                exponent_field(bits) <= 160,
                fraction_field(bits) < HIDDEN_BIT,
        ;
    }
}

/// The bits of a magnitude and the bits that follow them stand for
/// neighbours: the next number is one distance away, and its own distance
/// to the next is the same or, where a new power of two begins, twice that.
pub proof fn lemma_successor(bits: int)
    requires
        0 <= bits,
        bits + 1 < SINGLE_INFINITY,
    ensures
        scaled_magnitude(bits + 1) == scaled_magnitude(bits) + scaled_ulp(bits),
        scaled_ulp(bits) >= 1,
        scaled_ulp(bits) <= scaled_ulp(bits + 1) <= 2 * scaled_ulp(bits),
        fraction_field(bits + 1) > 0 ==> scaled_ulp(bits + 1) == scaled_ulp(bits),
{
    let h = HIDDEN_BIT as int;
    let e = exponent_field(bits);
    let f = fraction_field(bits);
    vstd::arithmetic::div_mod::lemma_fundamental_div_mod(bits, h);
    vstd::arithmetic::div_mod::lemma_mod_bound(bits, h);
    assert(0 <= e) by (nonlinear_arith)
        requires
            bits == h * e + f,
            0 <= bits,
            0 <= f < h,
            h > 0,
    ;
    if e >= 1 {
        lemma_pow2_pos((e - 1) as nat);
    }
    if f + 1 < h {
        assert(bits + 1 == e * h + (f + 1)) by (nonlinear_arith)
            requires
                bits == h * e + f,
        ;
        vstd::arithmetic::div_mod::lemma_fundamental_div_mod_converse(bits + 1, h, e, f + 1);
        if e >= 1 {
            let p = pow2((e - 1) as nat) as int;
            assert((h + (f + 1)) * p == (h + f) * p + p) by (nonlinear_arith);
        }
    } else {
        assert(bits + 1 == (e + 1) * h + 0) by (nonlinear_arith)
            requires
                bits == h * e + f,
                f + 1 == h,
        ;
        vstd::arithmetic::div_mod::lemma_fundamental_div_mod_converse(bits + 1, h, e + 1, 0);
        lemma_pow2_pos(e as nat);
        if e >= 1 {
            let p = pow2((e - 1) as nat) as int;
            lemma_pow2_unfold(e as nat);
            assert((h + 0) * (2 * p) == (h + f) * p + p) by (nonlinear_arith)
                requires
                    f + 1 == h,
            ;
        } else {
            vstd::arithmetic::power2::lemma2_to64();
            assert((h + 0) * 1 == h) by (nonlinear_arith);
        }
    }
}

/// Greater bits of a finite magnitude stand for a greater number: one that
/// is at least one distance away.
pub proof fn lemma_greater_bits(bits: int, greater: int)
    requires
        0 <= bits < greater < SINGLE_INFINITY,
    ensures
        scaled_magnitude(greater) >= scaled_magnitude(bits) + scaled_ulp(bits),
        scaled_ulp(greater) >= scaled_ulp(bits),
    decreases greater - bits,
{
    if greater == bits + 1 {
        lemma_successor(bits);
    } else {
        lemma_greater_bits(bits, greater - 1);
        lemma_successor(greater - 1);
    }
}

/// Smaller bits of a finite magnitude stand for a smaller number: one that
/// is at least half a distance away, and a whole one where the greater
/// number is no power of two.
pub proof fn lemma_smaller_bits(bits: int, smaller: int)
    requires
        0 <= smaller < bits < SINGLE_INFINITY,
    ensures
        2 * scaled_magnitude(smaller) + scaled_ulp(bits) <= 2 * scaled_magnitude(bits),
        fraction_field(bits) > 0 || exponent_field(bits) <= 1 ==> scaled_magnitude(smaller)
            + scaled_ulp(bits) <= scaled_magnitude(bits),
        0 <= scaled_magnitude(smaller),
{
    lemma_successor(bits - 1);
    if exponent_field(bits) <= 1 {
        vstd::arithmetic::power2::lemma2_to64();
        assert(scaled_ulp(bits) == 1);
    }
    if smaller < bits - 1 {
        lemma_greater_bits(smaller, bits - 1);
    }
    lemma_zero_is_least(smaller);
}

/// No finite magnitude stands for a negative number.
pub proof fn lemma_zero_is_least(bits: int)
    requires
        0 <= bits < SINGLE_INFINITY,
    ensures
        0 <= scaled_magnitude(bits),
{
    let h = HIDDEN_BIT as int;
    vstd::arithmetic::div_mod::lemma_fundamental_div_mod(bits, h);
    vstd::arithmetic::div_mod::lemma_mod_bound(bits, h);
    let e = exponent_field(bits);
    let f = fraction_field(bits);
    if e != 0 {
        assert(e >= 1) by (nonlinear_arith)
            requires
                bits == h * e + f,
                0 <= bits,
                0 <= f < h,
                h > 0,
                e != 0,
        ;
        lemma_pow2_pos((e - 1) as nat);
        let p = pow2((e - 1) as nat) as int;
        assert((h + f) * p >= 0) by (nonlinear_arith)
            requires
                f >= 0,
                h > 0,
                p > 0,
        ;
    }
}

/// A quotient of two numbers of up to 32 bits becomes the nearest
/// single-precision number: no finite single-precision number is nearer to
/// the quotient than the one that the bits stand for, and where another is
/// as near, the one that the bits stand for has the even mantissa.
pub proof fn lemma_no_single_is_nearer(num: nat, den: nat, other: int)
    requires
        0 < den <= 0x1_0000_0000,
        0 < num <= 0x1_0000_0000,
        0 <= other < SINGLE_INFINITY,
    ensures
        ({
            let bits = single_of_ratio(num, den);
            let quotient = (num * pow2(149)) as int;
            &&& 0 <= bits < SINGLE_INFINITY
            &&& distance(scaled_magnitude(bits) * den, quotient) <= distance(
                scaled_magnitude(other) * den,
                quotient,
            )
            &&& other != bits && distance(scaled_magnitude(bits) * den, quotient) == distance(
                scaled_magnitude(other) * den,
                quotient,
            ) ==> fraction_field(bits) % 2 == 0
        }),
{
    vstd::arithmetic::power2::lemma2_to64();
    vstd::arithmetic::power2::lemma2_to64_rest();
    lemma_pow2_pos(149);
    let p = pow2(149) as int;
    let bits = single_of_ratio(num, den);
    let quotient = (num * pow2(149)) as int;
    assert(num * pow2(55) >= HIDDEN_BIT * den) by (nonlinear_arith)
        requires
            num >= 1,
            den <= 0x1_0000_0000,
            pow2(55) == 0x80_0000_0000_0000,
    ;
    assert(num < pow2(24 + 9) * den) by (nonlinear_arith)
        requires
            num <= 0x1_0000_0000,
            den >= 1,
            pow2(33) == 0x2_0000_0000,
    ;
    lemma_ratio(num, den, 55, 9);
    vstd::arithmetic::div_mod::lemma_fundamental_div_mod(bits, HIDDEN_BIT as int);
    vstd::arithmetic::div_mod::lemma_mod_bound(bits, HIDDEN_BIT as int);
    assert(bits < SINGLE_INFINITY) by (nonlinear_arith)
        requires
            bits == HIDDEN_BIT * exponent_field(bits) + fraction_field(bits),
            exponent_field(bits) <= 160,
            fraction_field(bits) < HIDDEN_BIT,
    ;
    let mine = scaled_magnitude(bits);
    let theirs = scaled_magnitude(other);
    let ulp = scaled_ulp(bits);
    let near = distance(mine * den, quotient);
    if other > bits {
        lemma_greater_bits(bits, other);
        assert(theirs * den >= mine * den + ulp * den) by (nonlinear_arith)
            requires
                theirs >= mine + ulp,
                den > 0,
        ;
    } else if other < bits {
        lemma_smaller_bits(bits, other);
        assert(2 * (theirs * den) + ulp * den <= 2 * (mine * den)) by (nonlinear_arith)
            requires
                2 * theirs + ulp <= 2 * mine,
                den > 0,
        ;
        if fraction_field(bits) > 0 {
            assert(theirs * den + ulp * den <= mine * den) by (nonlinear_arith)
                requires
                    theirs + ulp <= mine,
                    den > 0,
            ;
        }
    }
}

/// The number that the bits of a finite double-precision magnitude stand
/// for, multiplied by 2^1074, which makes a whole number of every
/// double-precision number.
pub open spec fn double_scaled(bits: u64) -> int {
    if double_exponent(bits) == 0 {
        double_fraction(bits)
    } else {
        (DOUBLE_HIDDEN_BIT + double_fraction(bits)) * pow2((double_exponent(bits) - 1) as nat)
    }
}

/// The number that the bits of a finite single-precision magnitude stand
/// for, multiplied by 2^1074 as the double-precision numbers are.
pub open spec fn single_on_double_scale(bits: int) -> int {
    scaled_magnitude(bits) * pow2(925)
}

/// The distance from the number that the bits of a finite single-precision
/// magnitude stand for to the next greater one, multiplied by 2^1074.
pub open spec fn ulp_on_double_scale(bits: int) -> int {
    scaled_ulp(bits) * pow2(925)
}

/// What narrowing makes of a double-precision number in the range of the
/// normal single-precision numbers: the result is no farther from the
/// number than half a distance, a tie goes to the even mantissa, and a
/// power of two that is reached from below is no farther than a quarter.
proof fn lemma_narrowed_normal(bits: u64)
    requires
        897 <= double_exponent(bits) < 2047,
        narrowed_magnitude(bits) < SINGLE_INFINITY,
    ensures
        ({
            let b = narrowed_magnitude(bits);
            let v = double_scaled(bits);
            &&& HIDDEN_BIT <= b < SINGLE_INFINITY
            &&& 2 * distance(single_on_double_scale(b), v) <= ulp_on_double_scale(b)
            &&& 2 * distance(single_on_double_scale(b), v) == ulp_on_double_scale(b)
                ==> fraction_field(b) % 2 == 0
            &&& fraction_field(b) == 0 && single_on_double_scale(b) > v ==> 4 * distance(
                single_on_double_scale(b),
                v,
            ) <= ulp_on_double_scale(b)
        }),
{
    vstd::arithmetic::power2::lemma2_to64();
    let h = HIDDEN_BIT as int;
    let e = double_exponent(bits);
    let f = double_fraction(bits);
    let m64 = (DOUBLE_HIDDEN_BIT + f) as nat;
    let m = round_half_even(m64, 0x2000_0000) as int;
    let b = narrowed_magnitude(bits);
    let v = double_scaled(bits);
    lemma_round_half_even(m64, 0x2000_0000);
    assert(0 <= f < DOUBLE_HIDDEN_BIT);
    assert(h <= m64 / 0x2000_0000 < MANTISSA_END);
    assert(b == (e - 897) * h + m);
    let unit = pow2((e - 897) as nat) as int;
    let low = pow2((e - 1) as nat) as int;
    let wide = pow2(925) as int;
    lemma_pow2_pos((e - 897) as nat);
    lemma_pow2_pos((e - 1) as nat);
    lemma_pow2_pos(925);
    lemma_pow2_adds((e - 897) as nat, 925);
    lemma_pow2_adds(29, (e - 1) as nat);
    assert(unit * wide == 0x2000_0000 * low);
    // What the bits stand for is the mantissa times the unit of their power.
    if m < MANTISSA_END {
        assert(b == (e - 896) * h + (m - h)) by (nonlinear_arith)
            requires
                b == (e - 897) * h + m,
        ;
        vstd::arithmetic::div_mod::lemma_fundamental_div_mod_converse(b, h, e - 896, m - h);
        assert(scaled_magnitude(b) == m * unit);
        assert(scaled_ulp(b) == unit);
        assert(fraction_field(b) % 2 == m % 2);
    } else {
        assert(b == (e - 895) * h + 0) by (nonlinear_arith)
            requires
                b == (e - 897) * h + m,
                m == 2 * h,
        ;
        vstd::arithmetic::div_mod::lemma_fundamental_div_mod_converse(b, h, e - 895, 0);
        lemma_pow2_unfold((e - 896) as nat);
        assert(scaled_magnitude(b) == m * unit) by (nonlinear_arith)
            requires
                scaled_magnitude(b) == (h + 0) * (2 * unit),
                m == 2 * h,
        ;
        assert(scaled_ulp(b) == 2 * unit);
    }
    let d = distance(m * 0x2000_0000, m64 as int);
    assert(single_on_double_scale(b) == (m * 0x2000_0000) * low) by (nonlinear_arith)
        requires
            single_on_double_scale(b) == (m * unit) * wide,
            unit * wide == 0x2000_0000 * low,
    ;
    assert(v == m64 * low);
    lemma_distance_scaled(m * 0x2000_0000, m64 as int, low);
    assert(distance(single_on_double_scale(b), v) == low * d);
    assert(2 * (low * d) <= 0x2000_0000 * low) by (nonlinear_arith)
        requires
            2 * d <= 0x2000_0000,
            low > 0,
    ;
    if m < MANTISSA_END {
        assert(ulp_on_double_scale(b) == 0x2000_0000 * low);
        if 2 * (low * d) == 0x2000_0000 * low {
            assert(2 * d == 0x2000_0000) by (nonlinear_arith)
                requires
                    2 * (low * d) == 0x2000_0000 * low,
                    low > 0,
            ;
        }
        if fraction_field(b) == 0 {
            assert(m == h);
            assert((m * 0x2000_0000) * low <= m64 * low) by (nonlinear_arith)
                requires
                    m * 0x2000_0000 <= m64,
                    low > 0,
            ;
        }
    } else {
        assert(ulp_on_double_scale(b) == 2 * (0x2000_0000 * low)) by (nonlinear_arith)
            requires
                ulp_on_double_scale(b) == (2 * unit) * wide,
                unit * wide == 0x2000_0000 * low,
        ;
        assert(4 * (low * d) <= 2 * (0x2000_0000 * low)) by (nonlinear_arith)
            requires
                2 * d <= 0x2000_0000,
                low > 0,
        ;
    }
    assert(b >= h) by (nonlinear_arith)
        requires
            b == (e - 897) * h + m,
            e >= 897,
            m >= h,
            h > 0,
    ;
}

/// What narrowing makes of a double-precision number below the range of
/// the normal single-precision numbers: the result is no farther from the
/// number than half of the least single-precision number, and a tie goes
/// to the even mantissa.
proof fn lemma_narrowed_small(bits: u64)
    requires
        1 <= double_exponent(bits) < 897,
    ensures
        ({
            let b = narrowed_magnitude(bits);
            let v = double_scaled(bits);
            &&& 0 <= b <= HIDDEN_BIT
            &&& exponent_field(b) <= 1
            &&& 2 * distance(single_on_double_scale(b), v) <= ulp_on_double_scale(b)
            &&& 2 * distance(single_on_double_scale(b), v) == ulp_on_double_scale(b)
                ==> fraction_field(b) % 2 == 0
        }),
{
    vstd::arithmetic::power2::lemma2_to64();
    let h = HIDDEN_BIT as int;
    let e = double_exponent(bits);
    let f = double_fraction(bits);
    let m64 = (DOUBLE_HIDDEN_BIT + f) as nat;
    let shift = (926 - e) as nat;
    let divisor = pow2(shift);
    let b = narrowed_magnitude(bits);
    let v = double_scaled(bits);
    let low = pow2((e - 1) as nat) as int;
    let wide = pow2(925) as int;
    lemma_pow2_pos(shift);
    lemma_pow2_pos((e - 1) as nat);
    lemma_pow2_pos(925);
    lemma_pow2_adds(shift, (e - 1) as nat);
    assert(divisor * low == wide);
    vstd::arithmetic::power2::lemma_pow2_strictly_increases(29, shift);
    assert(divisor >= 0x4000_0000) by {
        lemma_pow2_unfold(shift);
        if shift > 30 {
            vstd::arithmetic::power2::lemma_pow2_strictly_increases(30, shift);
        }
    }
    lemma_round_half_even(m64, divisor);
    assert(m64 / divisor < h) by (nonlinear_arith)
        requires
            m64 < 0x20_0000_0000_0000,
            divisor >= 0x4000_0000,
            h == 0x80_0000,
    ;
    assert(b == round_half_even(m64, divisor));
    vstd::arithmetic::div_mod::lemma_fundamental_div_mod(b, h);
    vstd::arithmetic::div_mod::lemma_mod_bound(b, h);
    if b < h {
        vstd::arithmetic::div_mod::lemma_fundamental_div_mod_converse(b, h, 0, b);
        assert(scaled_magnitude(b) == b);
    } else {
        vstd::arithmetic::div_mod::lemma_fundamental_div_mod_converse(b, h, 1, 0);
        assert(scaled_magnitude(b) == (h + 0) * pow2(0));
        assert(scaled_magnitude(b) == b);
    }
    assert(scaled_ulp(b) == 1);
    assert(fraction_field(b) % 2 == b % 2);
    let d = distance((b * divisor) as int, m64 as int);
    lemma_distance_scaled((b * divisor) as int, m64 as int, low);
    assert(single_on_double_scale(b) == (b * divisor) * low) by (nonlinear_arith)
        requires
            single_on_double_scale(b) == b * wide,
            divisor * low == wide,
    ;
    assert(distance(single_on_double_scale(b), v) == low * d);
    assert(2 * (low * d) <= wide) by (nonlinear_arith)
        requires
            2 * d <= divisor,
            divisor * low == wide,
            low > 0,
    ;
    if 2 * (low * d) == wide {
        assert(2 * d == divisor) by (nonlinear_arith)
            requires
                2 * (low * d) == wide,
                divisor * low == wide,
                2 * d <= divisor,
                low > 0,
        ;
    }
}

/// Narrowing gives the nearest single-precision number: where the result
/// is finite, no finite single-precision number is nearer to the
/// double-precision number, and where another is as near, the result has
/// the even mantissa. The result is infinite only for a number that lies
/// at least half a distance beyond the greatest finite single-precision
/// number.
pub proof fn lemma_narrowing_is_nearest(bits: u64, other: int)
    requires
        double_exponent(bits) != 2047,
        0 <= other < SINGLE_INFINITY,
    ensures
        ({
            let b = narrowed_magnitude(bits);
            let v = double_scaled(bits);
            &&& 0 <= b <= SINGLE_INFINITY
            &&& b < SINGLE_INFINITY ==> distance(single_on_double_scale(b), v) <= distance(
                single_on_double_scale(other),
                v,
            )
            &&& b < SINGLE_INFINITY && other != b && distance(single_on_double_scale(b), v)
                == distance(single_on_double_scale(other), v) ==> fraction_field(b) % 2 == 0
            &&& b == SINGLE_INFINITY ==> 2 * v >= 2 * single_on_double_scale(SINGLE_INFINITY - 1)
                + ulp_on_double_scale(SINGLE_INFINITY - 1)
        }),
{
    vstd::arithmetic::power2::lemma2_to64();
    let h = HIDDEN_BIT as int;
    let e = double_exponent(bits);
    let f = double_fraction(bits);
    let b = narrowed_magnitude(bits);
    let v = double_scaled(bits);
    let wide = pow2(925) as int;
    lemma_pow2_pos(925);
    assert(0 <= e < 2047);
    assert(0 <= f < DOUBLE_HIDDEN_BIT);
    lemma_zero_is_least(other);
    if e == 0 {
        assert(b == 0);
        assert(scaled_magnitude(0) == 0);
        assert(0 * wide == 0);
        if other > 0 {
            lemma_greater_bits(0, other);
            assert(scaled_magnitude(other) >= 1);
            vstd::arithmetic::power2::lemma_pow2_strictly_increases(64, 925);
            assert(scaled_magnitude(other) * wide >= wide) by (nonlinear_arith)
                requires
                    scaled_magnitude(other) >= 1,
                    wide > 0,
            ;
        }
    } else if e < 897 {
        lemma_narrowed_small(bits);
        lemma_neighbours_are_farther(b, other, v);
    } else if b < SINGLE_INFINITY {
        lemma_narrowed_normal(bits);
        lemma_neighbours_are_farther(b, other, v);
    } else {
        // The number is rounded to 2^128 or beyond.
        let m64 = (DOUBLE_HIDDEN_BIT + f) as nat;
        let m = round_half_even(m64, 0x2000_0000) as int;
        lemma_round_half_even(m64, 0x2000_0000);
        let low = pow2((e - 1) as nat) as int;
        lemma_pow2_pos((e - 1) as nat);
        let greatest = SINGLE_INFINITY - 1;
        vstd::arithmetic::div_mod::lemma_fundamental_div_mod_converse(greatest, h, 254, h - 1);
        let top = pow2(253) as int;
        lemma_pow2_pos(253);
        assert(scaled_magnitude(greatest) == (h + (h - 1)) * top);
        assert(scaled_ulp(greatest) == top);
        assert((e - 897) * h + m >= 255 * h);
        assert(m <= 2 * h);
        assert(e >= 1150) by (nonlinear_arith)
            requires
                (e - 897) * h + m >= 255 * h,
                m <= 2 * h,
                h > 0,
        ;
        // On the scale of the doubles, the unit of the greatest finite
        // singles is 2^29 times the unit of a double of exponent 1150.
        lemma_pow2_adds(253, 925);
        lemma_pow2_adds(29, 1149);
        assert(top * wide == 0x2000_0000 * pow2(1149));
        let base = pow2(1149) as int;
        lemma_pow2_pos(1149);
        if e > 1150 {
            if e > 1151 {
                vstd::arithmetic::power2::lemma_pow2_strictly_increases(1150, (e - 1) as nat);
            }
            lemma_pow2_unfold(1150);
            assert(low >= 2 * base);
            assert(2 * (m64 * low) >= (4 * h - 1) * (0x2000_0000 * base)) by (nonlinear_arith)
                requires
                    m64 >= 0x10_0000_0000_0000,
                    low >= 2 * base,
                    base > 0,
                    h == 0x80_0000,
            ;
        } else {
            assert(low == base);
            assert(m == 2 * h) by (nonlinear_arith)
                requires
                    (e - 897) * h + m >= 255 * h,
                    e == 1150,
                    m <= 2 * h,
                    h > 0,
            ;
            assert(2 * m64 >= (4 * h - 1) * 0x2000_0000) by (nonlinear_arith)
                requires
                    2 * distance(m * 0x2000_0000, m64 as int) <= 0x2000_0000,
                    m == 2 * h,
                    h == 0x80_0000,
            ;
            assert(2 * (m64 * low) >= (4 * h - 1) * (0x2000_0000 * base)) by (nonlinear_arith)
                requires
                    2 * m64 >= (4 * h - 1) * 0x2000_0000,
                    low == base,
                    base > 0,
            ;
        }
        assert(2 * single_on_double_scale(greatest) + ulp_on_double_scale(greatest) == (4 * h
            - 1) * (0x2000_0000 * base)) by (nonlinear_arith)
            requires
                single_on_double_scale(greatest) == ((h + (h - 1)) * top) * wide,
                ulp_on_double_scale(greatest) == top * wide,
                top * wide == 0x2000_0000 * base,
        ;
    }
}

/// Where a single-precision number is within half a distance of a number,
/// and within a quarter where it is a power of two beyond the least and
/// greater than the number, no other finite single-precision number is
/// nearer, and one that is as near leaves it the even mantissa.
proof fn lemma_neighbours_are_farther(bits: int, other: int, v: int)
    requires
        0 <= bits < SINGLE_INFINITY,
        0 <= other < SINGLE_INFINITY,
        v >= 0,
        2 * distance(single_on_double_scale(bits), v) <= ulp_on_double_scale(bits),
        2 * distance(single_on_double_scale(bits), v) == ulp_on_double_scale(bits)
            ==> fraction_field(bits) % 2 == 0,
        fraction_field(bits) == 0 && exponent_field(bits) > 1 && single_on_double_scale(bits) > v
            ==> 4 * distance(single_on_double_scale(bits), v) <= ulp_on_double_scale(bits),
    ensures
        distance(single_on_double_scale(bits), v) <= distance(single_on_double_scale(other), v),
        other != bits && distance(single_on_double_scale(bits), v) == distance(
            single_on_double_scale(other),
            v,
        ) ==> fraction_field(bits) % 2 == 0,
{
    let wide = pow2(925) as int;
    lemma_pow2_pos(925);
    let mine = scaled_magnitude(bits);
    let theirs = scaled_magnitude(other);
    let ulp = scaled_ulp(bits);
    if other > bits {
        lemma_greater_bits(bits, other);
        assert(theirs * wide >= mine * wide + ulp * wide) by (nonlinear_arith)
            requires
                theirs >= mine + ulp,
                wide > 0,
        ;
    } else if other < bits {
        lemma_smaller_bits(bits, other);
        assert(2 * (theirs * wide) + ulp * wide <= 2 * (mine * wide)) by (nonlinear_arith)
            requires
                2 * theirs + ulp <= 2 * mine,
                wide > 0,
        ;
        if fraction_field(bits) > 0 || exponent_field(bits) <= 1 {
            assert(theirs * wide + ulp * wide <= mine * wide) by (nonlinear_arith)
                requires
                    theirs + ulp <= mine,
                    wide > 0,
            ;
        }
    }
}

/// An item of an integer type holds a number of as many bits as the type
/// has.
pub proof fn lemma_integer_value_bounds(item_type: PointerDataType, item: Seq<u8>)
    requires
        !item_type.spec_is_float(),
        item.len() == item_type.spec_size(),
    ensures
        -0x8000_0000 <= integer_value(item_type, item) < 0x1_0000_0000,
        item_type.spec_size() <= 2 ==> -0x8000 <= integer_value(item_type, item) < 0x1_0000,
        item_type == PointerDataType::U8 || item_type == PointerDataType::U16 || item_type
            == PointerDataType::U32 ==> integer_value(item_type, item) == le_unsigned(item),
{
    lemma_le_unsigned_unfold(item);
}

/// In a position, a normal or a texture coordinate, an integer of 8 or 16
/// bits is packed as the single-precision number that is the same number.
pub proof fn lemma_widened_item_is_exact(item_type: PointerDataType, item: Seq<u8>)
    requires
        !item_type.spec_is_float(),
        item_type.spec_size() <= 2,
        item.len() == item_type.spec_size(),
    ensures
        packed_item(false, item_type, item) == le_bytes4(
            single_of_signed_ratio(integer_value(item_type, item), 1),
        ),
        scaled_value(single_of_signed_ratio(integer_value(item_type, item), 1)) == integer_value(
            item_type,
            item,
        ) * pow2(149),
{
    lemma_integer_value_bounds(item_type, item);
    lemma_widening_is_exact(integer_value(item_type, item));
}

/// In a colour, an unsigned integer is packed as the single-precision
/// number nearest to the integer divided by the divisor of its type: what
/// the bits stand for is no farther from the quotient than half the
/// distance to the next single-precision number.
pub proof fn lemma_normalized_item_is_nearest(item_type: PointerDataType, item: Seq<u8>)
    requires
        item_type == PointerDataType::U8 || item_type == PointerDataType::U16 || item_type
            == PointerDataType::U32,
        item.len() == item_type.spec_size(),
    ensures
        ({
            let value = le_unsigned(item);
            let divisor = normal_divisor(item_type);
            let bits = single_of_ratio(value, divisor);
            &&& packed_item(true, item_type, item) == le_bytes4(bits)
            &&& 2 * distance(scaled_value(bits) * divisor, (value * pow2(149)) as int)
                <= scaled_ulp(bits) * divisor
        }),
{
    lemma_integer_value_bounds(item_type, item);
    lemma_normalizing_is_nearest(le_unsigned(item), normal_divisor(item_type));
}

/// In a colour, an unsigned integer that is not zero is packed as the
/// single-precision number nearest to the integer divided by the divisor
/// of its type: no finite single-precision number is nearer, and where
/// another is as near, the one that is packed has the even mantissa.
pub proof fn lemma_normalized_item_has_none_nearer(
    item_type: PointerDataType,
    item: Seq<u8>,
    other: int,
)
    requires
        item_type == PointerDataType::U8 || item_type == PointerDataType::U16 || item_type
            == PointerDataType::U32,
        item.len() == item_type.spec_size(),
        le_unsigned(item) > 0,
        0 <= other < SINGLE_INFINITY,
    ensures
        ({
            let value = le_unsigned(item);
            let divisor = normal_divisor(item_type);
            let bits = single_of_ratio(value, divisor);
            let quotient = (value * pow2(149)) as int;
            &&& packed_item(true, item_type, item) == le_bytes4(bits)
            &&& distance(scaled_magnitude(bits) * divisor, quotient) <= distance(
                scaled_magnitude(other) * divisor,
                quotient,
            )
            &&& other != bits && distance(scaled_magnitude(bits) * divisor, quotient) == distance(
                scaled_magnitude(other) * divisor,
                quotient,
            ) ==> fraction_field(bits) % 2 == 0
        }),
{
    lemma_integer_value_bounds(item_type, item);
    lemma_no_single_is_nearer(le_unsigned(item), normal_divisor(item_type), other);
}

} // verus!
