//! IEEE-754 binary64 values held as their bit patterns.
//!
//! The library never computes with floating-point numbers; it only has to
//! tell NaN apart from other values, compare a coefficient with zero, and
//! truncate a number toward zero into `usize` the way Rust's `as` cast does.
use vstd::arithmetic::div_mod::{lemma_div_by_multiple, lemma_div_denominator};
use vstd::arithmetic::power2::{
    lemma2_to64, lemma_pow2_adds, lemma_pow2_pos, lemma_pow2_strictly_increases, pow2,
};
use vstd::bits::{lemma_u64_shl_is_mul, lemma_u64_shr_is_div};
use vstd::prelude::*;

verus! {

/// 2^52: the weight of the lowest exponent bit.
pub const EXPONENT_UNIT: u64 = 0x10_0000_0000_0000;

/// 2^63: the sign bit.
pub const SIGN_BIT: u64 = 0x8000_0000_0000_0000;

/// Whether the sign bit is set.
pub open spec fn sign_of(b: u64) -> bool {
    b >= SIGN_BIT
}

/// The biased exponent field (11 bits).
pub open spec fn exponent_of(b: u64) -> nat {
    ((b as nat) / (EXPONENT_UNIT as nat)) % 0x800
}

/// The fraction field (52 bits).
pub open spec fn fraction_of(b: u64) -> nat {
    (b as nat) % (EXPONENT_UNIT as nat)
}

/// NaN: all exponent bits set and a non-zero fraction.
pub open spec fn is_nan(b: u64) -> bool {
    exponent_of(b) == 0x7ff && fraction_of(b) != 0
}

/// `+0.0` or `-0.0`: the only values that compare equal to zero.
pub open spec fn is_zero(b: u64) -> bool {
    exponent_of(b) == 0 && fraction_of(b) == 0
}

/// The integer part of a non-negative finite or infinite value whose
/// exponent is at least the bias, i.e. `floor((1 + f / 2^52) * 2^(e - 1023))`.
pub open spec fn integer_part(b: u64) -> nat
    recommends
        exponent_of(b) >= 1023,
{
    (((EXPONENT_UNIT as nat) + fraction_of(b)) * pow2((exponent_of(b) - 1023) as nat)) / pow2(
        52,
    )
}

/// What `x as usize` gives for the value `x` with bits `b`: NaN and every
/// value not above zero give 0, other values are truncated toward zero and
/// saturate at `usize::MAX`.
pub open spec fn saturating_usize(b: u64) -> nat {
    if is_nan(b) || sign_of(b) || exponent_of(b) < 1023 {
        0
    } else if integer_part(b) > usize::MAX {
        usize::MAX as nat
    } else {
        integer_part(b)
    }
}

/// Tests whether `b` is the bit pattern of a NaN.
pub fn bits_is_nan(b: u64) -> (r: bool)
    ensures
        r == is_nan(b),
{
    (b / EXPONENT_UNIT) % 0x800 == 0x7ff && b % EXPONENT_UNIT != 0
}

/// Tests whether `b` is the bit pattern of `+0.0` or `-0.0`.
pub fn bits_is_zero(b: u64) -> (r: bool)
    ensures
        r == is_zero(b),
{
    (b / EXPONENT_UNIT) % 0x800 == 0 && b % EXPONENT_UNIT == 0
}

/// Converts the value with bits `b` to `usize` as Rust's `as` cast does.
pub fn bits_to_usize(b: u64) -> (r: usize)
    ensures
        r as nat == saturating_usize(b),
{
    let e: u64 = (b / EXPONENT_UNIT) % 0x800;
    let f: u64 = b % EXPONENT_UNIT;
    if bits_is_nan(b) || b >= SIGN_BIT || e < 1023 {
        return 0;
    }
    let full: u64 = EXPONENT_UNIT + f;
    if e >= 1023 + 64 {
        proof {
            lemma_pow2_adds(52, (e - 1075) as nat);
            lemma_pow2_pos(52);
            lemma_div_by_multiple(
                (full as nat) * pow2((e - 1075) as nat) as int,
                pow2(52) as int,
            );
            lemma2_to64();
            if e - 1075 > 12 {
                lemma_pow2_strictly_increases(12, (e - 1075) as nat);
            }
            assert((full as nat) * pow2((e - 1075) as nat) >= EXPONENT_UNIT * 4096) by (
            nonlinear_arith)
                requires
                    full >= EXPONENT_UNIT,
                    pow2((e - 1075) as nat) >= 4096,
            ;
            assert(pow2((e - 1023) as nat) == pow2(52) * pow2((e - 1075) as nat));
            assert((full as nat) * pow2((e - 1023) as nat) == (full as nat) * pow2(
                (e - 1075) as nat,
            ) * pow2(52)) by (nonlinear_arith)
                requires
                    pow2((e - 1023) as nat) == pow2(52) * pow2((e - 1075) as nat),
            ;
        }
        return usize::MAX;
    }
    let v: u64 = if e >= 1075 {
        let k: u64 = e - 1075;
        proof {
            lemma2_to64();
            if k < 11 {
                lemma_pow2_strictly_increases(k as nat, 11);
            }
            assert((full as nat) * pow2(k as nat) <= u64::MAX) by (nonlinear_arith)
                requires
                    full < 2 * EXPONENT_UNIT,
                    pow2(k as nat) <= 2048,
            ;
            lemma_u64_shl_is_mul(full, k);
            lemma_pow2_adds(52, k as nat);
            lemma_pow2_pos(52);
            lemma_div_by_multiple((full as nat) * pow2(k as nat) as int, pow2(52) as int);
            assert((full as nat) * pow2((e - 1023) as nat) == (full as nat) * pow2(k as nat)
                * pow2(52)) by (nonlinear_arith)
                requires
                    pow2((e - 1023) as nat) == pow2(52) * pow2(k as nat),
            ;
        }
        full << k
    } else {
        let k: u64 = 1075 - e;
        proof {
            lemma_u64_shr_is_div(full, k);
            lemma_pow2_adds((e - 1023) as nat, k as nat);
            lemma_pow2_pos((e - 1023) as nat);
            lemma_pow2_pos(k as nat);
            lemma_div_denominator(
                (full as nat) * pow2((e - 1023) as nat) as int,
                pow2((e - 1023) as nat) as int,
                pow2(k as nat) as int,
            );
            lemma_div_by_multiple(full as int, pow2((e - 1023) as nat) as int);
            assert((full as nat) * pow2((e - 1023) as nat) == pow2((e - 1023) as nat) * (
            full as nat)) by (nonlinear_arith);
        }
        full >> k
    };
    assert(v as nat == integer_part(b));
    if v > usize::MAX as u64 {
        usize::MAX
    } else {
        v as usize
    }
}

} // verus!
