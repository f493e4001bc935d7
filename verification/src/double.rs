//! Double-precision numbers as their 64-bit patterns.
//!
//! The host runtime's numbers are IEEE 754 binary64 values. They are carried
//! here as the `u64` that holds their bits: one sign bit, eleven exponent bits
//! with a bias of 1023, and 52 fraction bits.

use vstd::arithmetic::div_mod::{lemma_div_by_multiple, lemma_fundamental_div_mod_converse};
use vstd::arithmetic::power2::{lemma2_to64, lemma2_to64_rest, lemma_pow2_adds, lemma_pow2_pos, lemma_pow2_strictly_increases, lemma_pow2_unfold, pow2};
use vstd::prelude::*;

verus! {

/// Two to the 52nd power: the weight of the hidden bit of a significand.
pub const HIDDEN_BIT: u64 = 0x10_0000_0000_0000;

/// The pattern of positive infinity; every positive pattern up to it is a
/// number greater than zero, every pattern above it with a clear sign bit is
/// not a number.
pub const POSITIVE_INFINITY: u64 = 0x7FF0_0000_0000_0000;

/// The pattern with only the sign bit set.
pub const SIGN_BIT: u64 = 0x8000_0000_0000_0000;

/// The position of the highest set bit of a positive number.
pub open spec fn floor_log2(a: nat) -> nat
    decreases a,
{
    if a < 2 {
        0
    } else {
        floor_log2(a / 2) + 1
    }
}

/// How many whole `unit`s are nearest to `a`; a tie goes to the even count.
pub open spec fn round_half_even(a: nat, unit: nat) -> nat {
    let q = a / unit;
    let r = a % unit;
    if 2 * r < unit || (2 * r == unit && q % 2 == 0) {
        q
    } else {
        q + 1
    }
}

/// The exponent and fraction bits of the double nearest to the positive
/// integer `a`. With `p` the position of the highest bit of `a`, the
/// significand has 53 bits: `a` scaled up where it is shorter, `a` rounded to
/// the nearest multiple of `2^(p - 52)` where it is longer. A significand that
/// rounds up to `2^53` carries into the exponent by the sum itself.
pub open spec fn double_of_magnitude(a: nat) -> int {
    let p = floor_log2(a);
    let significand = if p <= 52 {
        a * pow2((52 - p) as nat)
    } else {
        round_half_even(a, pow2((p - 52) as nat))
    };
    (1023 + p) * pow2(52) + (significand - pow2(52))
}

/// The bits of the double nearest to the integer `v`, ties to even: what the
/// conversion of an integer to a double gives.
pub open spec fn double_of_int(v: int) -> int {
    if v == 0 {
        0
    } else if v < 0 {
        pow2(63) + double_of_magnitude((-v) as nat)
    } else {
        double_of_magnitude(v as nat)
    }
}

/// The exponent bits of a pattern.
pub open spec fn exponent_field(bits: u64) -> int {
    (bits as int / pow2(52) as int) % 2048
}

/// The fraction bits of a pattern.
pub open spec fn fraction_field(bits: u64) -> int {
    bits as int % pow2(52) as int
}

/// Whether the pattern is a number greater than zero (positive infinity
/// counts; no pattern that is not a number does).
pub open spec fn spec_is_positive(bits: u64) -> bool {
    0 < bits <= POSITIVE_INFINITY
}

/// The whole part of a positive finite double that is at least one: its
/// 53-bit significand scaled by the power of two that its exponent names.
pub open spec fn whole_part(bits: u64) -> int {
    let e = exponent_field(bits);
    let m = pow2(52) + fraction_field(bits);
    if e >= 1075 {
        m * pow2((e - 1075) as nat)
    } else {
        m / pow2((1075 - e) as nat) as int
    }
}

/// The unsigned 64-bit integer that a double truncates to: zero for what is
/// not greater than zero, for what is not a number and for what is below one;
/// the largest integer for infinity and for what does not fit; else the whole
/// part.
pub open spec fn spec_to_u64(bits: u64) -> int {
    if !spec_is_positive(bits) || exponent_field(bits) < 1023 {
        0
    } else if exponent_field(bits) == 2047 || whole_part(bits) > u64::MAX {
        u64::MAX as int
    } else {
        whole_part(bits)
    }
}

/// A number between two neighbouring powers of two has the lower exponent as
/// the position of its highest bit.
pub proof fn lemma_floor_log2(a: nat, p: nat)
    requires
        pow2(p) <= a < pow2(p + 1),
    ensures
        floor_log2(a) == p,
    decreases p,
{
    lemma2_to64();
    if p == 0 {
    } else {
        lemma_pow2_unfold(p);
        lemma_pow2_unfold(p + 1);
        lemma_pow2_pos((p - 1) as nat);
        lemma_floor_log2(a / 2, (p - 1) as nat);
    }
}

/// A positive number lies between the power of two that the position of its
/// highest bit names and the next one.
pub proof fn lemma_floor_log2_bounds(a: nat)
    requires
        a >= 1,
    ensures
        pow2(floor_log2(a)) <= a < pow2(floor_log2(a) + 1),
    decreases a,
{
    lemma2_to64();
    if a >= 2 {
        lemma_floor_log2_bounds(a / 2);
        lemma_pow2_unfold(floor_log2(a / 2) + 1);
        lemma_pow2_unfold(floor_log2(a / 2) + 2);
    }
}

/// Integers up to two to the 53rd power lose nothing as doubles: the double
/// nearest to such an integer truncates to the integer itself.
pub proof fn lemma_small_integer_is_exact(v: int)
    requires
        0 < v <= pow2(53),
    ensures
        0 < double_of_int(v) <= POSITIVE_INFINITY,
        spec_to_u64(double_of_int(v) as u64) == v,
{
    lemma2_to64();
    lemma2_to64_rest();
    let a = v as nat;
    let p = floor_log2(a);
    lemma_floor_log2_bounds(a);
    if p > 53 {
        lemma_pow2_strictly_increases(53, p);
    }
    let hidden = pow2(52) as int;
    if p <= 52 {
        let scale = pow2((52 - p) as nat) as int;
        lemma_pow2_adds(p, (52 - p) as nat);
        lemma_pow2_pos((52 - p) as nat);
        let top = pow2(p) as int;
        let significand = a * scale;
        assert(significand >= top * scale) by (nonlinear_arith)
            requires
                a >= top,
                scale >= 0,
                significand == a * scale,
        ;
        assert(significand < 2 * (top * scale)) by (nonlinear_arith)
            requires
                a < 2 * top,
                scale > 0,
                top > 0,
                significand == a * scale,
        ;
        let bits = (1023 + p) * hidden + (significand - hidden);
        assert(bits == double_of_int(v));
        lemma_fundamental_div_mod_converse(bits, hidden, (1023 + p) as int, significand - hidden);
        lemma_div_by_multiple(a as int, scale);
        assert(exponent_field(bits as u64) == 1023 + p);
        assert(fraction_field(bits as u64) == significand - hidden);
        assert(hidden + fraction_field(bits as u64) == a * scale);
        if p < 52 {
            assert((1075 - exponent_field(bits as u64)) as nat == (52 - p) as nat);
            assert((a * scale) / scale == a);
        }
        assert(whole_part(bits as u64) == a);
    } else {
        lemma_pow2_unfold(54);
        assert(a == pow2(53));
        let bits = 1076 * hidden;
        assert(round_half_even(a, pow2(1)) == hidden);
        assert(bits == double_of_int(v));
        lemma_fundamental_div_mod_converse(bits, hidden, 1076, 0);
        assert(exponent_field(bits as u64) == 1076);
        assert(fraction_field(bits as u64) == 0);
        assert(whole_part(bits as u64) == hidden * pow2(1));
    }
}

/// Computes a power of two that fits in 64 bits.
pub fn power_of_two(k: u64) -> (r: u64)
    requires
        k < 64,
    ensures
        r == pow2(k as nat),
{
    let mut r: u64 = 1;
    let mut i: u64 = 0;
    proof {
        lemma2_to64();
    }
    while i < k
        invariant
            i <= k < 64,
            r == pow2(i as nat),
        decreases k - i,
    {
        proof {
            lemma_pow2_unfold((i + 1) as nat);
            lemma_pow2_strictly_increases((i + 1) as nat, 64);
            lemma2_to64();
        }
        r = r * 2;
        i = i + 1;
    }
    r
}

/// Whether the double is greater than zero.
pub fn is_positive(bits: u64) -> (positive: bool)
    ensures
        positive == spec_is_positive(bits),
{
    0 < bits && bits <= POSITIVE_INFINITY
}

/// Converts an integer to the nearest double, ties to even.
pub fn from_i64(v: i64) -> (bits: u64)
    ensures
        bits == double_of_int(v as int),
{
    if v == 0 {
        return 0;
    }
    let a: u64 = if v == i64::MIN {
        SIGN_BIT
    } else if v < 0 {
        (-v) as u64
    } else {
        v as u64
    };
    proof {
        lemma2_to64();
        lemma2_to64_rest();
    }
    let mut p: u64 = 0;
    let mut top: u64 = 1;
    while top <= a / 2
        invariant
            top == pow2(p as nat),
            1 <= top <= a,
            p <= 63,
            a <= SIGN_BIT,
        decreases a - top,
    {
        proof {
            lemma2_to64_rest();
            lemma_pow2_unfold((p + 1) as nat);
            if p + 1 > 63 {
                lemma_pow2_strictly_increases(63, (p + 1) as nat);
            }
        }
        top = top * 2;
        p = p + 1;
    }
    proof {
        lemma_pow2_unfold((p + 1) as nat);
        lemma_floor_log2(a as nat, p as nat);
    }
    let significand: u64 = if p <= 52 {
        let scale = power_of_two(52 - p);
        proof {
            lemma_pow2_adds(p as nat, (52 - p) as nat);
            assert(a * scale >= top * scale) by (nonlinear_arith)
                requires
                    a >= top,
                    scale >= 0,
            ;
            assert(a * scale < 2 * (top * scale)) by (nonlinear_arith)
                requires
                    a < 2 * top,
                    scale > 0,
                    top > 0,
            ;
        }
        a * scale
    } else {
        let unit = power_of_two(p - 52);
        proof {
            lemma_pow2_adds(52, (p - 52) as nat);
            lemma_pow2_pos((p - 52) as nat);
            assert(a as int / unit as int >= HIDDEN_BIT) by (nonlinear_arith)
                requires
                    a >= HIDDEN_BIT * unit,
                    unit > 0,
            ;
            assert((a as int / unit as int) < 2 * HIDDEN_BIT) by (nonlinear_arith)
                requires
                    a < 2 * HIDDEN_BIT * unit,
                    unit > 0,
            ;
            lemma_pow2_strictly_increases((p - 52) as nat, 12);
        }
        let q = a / unit;
        let r = a % unit;
        if 2 * r < unit || (2 * r == unit && q % 2 == 0) {
            q
        } else {
            q + 1
        }
    };
    let body: u64 = (1023 + p) * HIDDEN_BIT + (significand - HIDDEN_BIT);
    if v < 0 {
        SIGN_BIT + body
    } else {
        body
    }
}

/// Truncates a double to an unsigned 64-bit integer, saturating at both ends.
pub fn to_u64(bits: u64) -> (whole: u64)
    ensures
        whole == spec_to_u64(bits),
{
    proof {
        lemma2_to64();
        lemma2_to64_rest();
    }
    if !is_positive(bits) {
        return 0;
    }
    let e: u64 = bits / HIDDEN_BIT;
    let fraction: u64 = bits % HIDDEN_BIT;
    assert(e == exponent_field(bits));
    if e < 1023 {
        return 0;
    }
    if e == 2047 {
        return u64::MAX;
    }
    let m: u64 = HIDDEN_BIT + fraction;
    if e >= 1075 {
        let shift: u64 = e - 1075;
        if shift >= 12 {
            proof {
                if shift > 12 {
                    lemma_pow2_strictly_increases(12, shift as nat);
                }
                assert(m * pow2(shift as nat) >= HIDDEN_BIT * 0x1000) by (nonlinear_arith)
                    requires
                        m >= HIDDEN_BIT,
                        pow2(shift as nat) >= 0x1000,
                ;
            }
            return u64::MAX;
        }
        let unit = power_of_two(shift);
        proof {
            if shift < 11 {
                lemma_pow2_strictly_increases(shift as nat, 11);
            }
            assert(m * unit < 2 * HIDDEN_BIT * 0x800) by (nonlinear_arith)
                requires
                    m < 2 * HIDDEN_BIT,
                    0 < unit <= 0x800,
            ;
        }
        m * unit
    } else {
        let unit = power_of_two(1075 - e);
        proof {
            lemma_pow2_pos((1075 - e) as nat);
        }
        m / unit
    }
}

} // verus!
