//! Model of IEEE-754 binary32 values carried as raw `u32` bit patterns.
//!
//! A pattern holds 1 sign bit, 8 biased exponent bits and 23 fraction bits.
//! Every finite pattern denotes the exact number `val_scaled(b) / 2^149`:
//! scaling by `2^149` turns every finite binary32 value, subnormals included,
//! into an integer, so contracts can speak of the represented numbers with
//! ordinary integer arithmetic. Infinities are mapped by the same formula to
//! magnitudes beyond every finite one, which keeps the IEEE ordering intact;
//! NaN patterns are excluded wherever a clause compares values.
//!
//! Comparison, negation, minimum, maximum and the square root are bit-level
//! or integer computations and are implemented and verified here directly.
//! Rounded addition, multiplication and division are carried out by the
//! `rustc_apfloat` crate, a software implementation of IEEE-754 arithmetic,
//! behind the trusted wrappers at the end of this file.

use vstd::arithmetic::mul::*;
use vstd::arithmetic::power2::*;
use vstd::bits::lemma_u64_shl_is_mul;
use vstd::prelude::*;

use rustc_apfloat::ieee::Single;
use rustc_apfloat::Float as IeeeOps;

verus! {

/// Bit pattern of +0.0.
pub const POS_ZERO: u32 = 0x0000_0000;

/// Bit pattern of -0.0.
pub const NEG_ZERO: u32 = 0x8000_0000;

/// Bit pattern of 1.0.
pub const ONE_BITS: u32 = 0x3F80_0000;

/// Bit pattern of 2.0.
pub const TWO_BITS: u32 = 0x4000_0000;

/// The sign bit of a pattern.
pub open spec fn sign_bit(b: u32) -> bool {
    b & 0x8000_0000 != 0
}

/// The biased exponent field of a pattern.
pub open spec fn biased_exp(b: u32) -> u32 {
    (b >> 23) & 0xFF
}

/// The fraction field of a pattern.
pub open spec fn frac_field(b: u32) -> u32 {
    b & 0x7F_FFFF
}

/// The magnitude bits of a pattern: everything but the sign.
pub open spec fn mag_bits(b: u32) -> u32 {
    b & 0x7FFF_FFFF
}

/// A NaN pattern: exponent field all ones, fraction nonzero.
pub open spec fn is_nan(b: u32) -> bool {
    biased_exp(b) == 0xFF && frac_field(b) != 0
}

/// An infinity pattern: exponent field all ones, fraction zero.
pub open spec fn is_infinite(b: u32) -> bool {
    biased_exp(b) == 0xFF && frac_field(b) == 0
}

/// A finite pattern: subnormal, zero or normal.
pub open spec fn is_finite(b: u32) -> bool {
    biased_exp(b) != 0xFF
}

/// A zero pattern of either sign.
pub open spec fn is_zero(b: u32) -> bool {
    biased_exp(b) == 0 && frac_field(b) == 0
}

/// The magnitude of a pattern, scaled by 2^149.
///
/// For a subnormal the value is `frac * 2^(-149)`; for a normal pattern it is
/// `(2^23 + frac) * 2^(exp - 127 - 23)`, and multiplying by 2^149 makes both
/// integers. The same formula maps an infinity above every finite magnitude.
pub open spec fn mag_scaled(b: u32) -> int {
    if biased_exp(b) == 0 {
        frac_field(b) as int
    } else {
        (frac_field(b) + 0x80_0000) * pow2((biased_exp(b) - 1) as nat)
    }
}

/// The signed value of a non-NaN pattern, scaled by 2^149.
pub open spec fn val_scaled(b: u32) -> int {
    if sign_bit(b) {
        -mag_scaled(b)
    } else {
        mag_scaled(b)
    }
}

/// The pattern with the sign bit flipped: IEEE negation.
pub open spec fn flip_sign(b: u32) -> u32 {
    b ^ 0x8000_0000
}

/// Two patterns that denote the same number, as IEEE `==` sees non-NaN
/// operands: both zeros are the same value, NaN is never the same as anything.
pub open spec fn same_value(a: u32, b: u32) -> bool {
    !is_nan(a) && !is_nan(b) && val_scaled(a) == val_scaled(b)
}

/// Like [`same_value`], except that two NaN results are also accepted.
pub open spec fn same_value_or_nan(a: u32, b: u32) -> bool {
    (is_nan(a) && is_nan(b)) || same_value(a, b)
}

/// The fields of the named constant patterns, read off their bits.
pub proof fn lemma_constant_fields()
    ensures
        biased_exp(POS_ZERO) == 0 && frac_field(POS_ZERO) == 0 && !sign_bit(POS_ZERO),
        biased_exp(NEG_ZERO) == 0 && frac_field(NEG_ZERO) == 0 && sign_bit(NEG_ZERO),
        biased_exp(ONE_BITS) == 127 && frac_field(ONE_BITS) == 0 && !sign_bit(ONE_BITS),
        biased_exp(TWO_BITS) == 128 && frac_field(TWO_BITS) == 0 && !sign_bit(TWO_BITS),
{
    assert((0x0000_0000u32 >> 23) & 0xFF == 0 && 0x0000_0000u32 & 0x7F_FFFF == 0
        && 0x0000_0000u32 & 0x8000_0000 == 0 && (0x8000_0000u32 >> 23) & 0xFF == 0
        && 0x8000_0000u32 & 0x7F_FFFF == 0 && 0x8000_0000u32 & 0x8000_0000 != 0
        && (0x3F80_0000u32 >> 23) & 0xFF == 127 && 0x3F80_0000u32 & 0x7F_FFFF == 0
        && 0x3F80_0000u32 & 0x8000_0000 == 0 && (0x4000_0000u32 >> 23) & 0xFF == 128
        && 0x4000_0000u32 & 0x7F_FFFF == 0 && 0x4000_0000u32 & 0x8000_0000 == 0)
        by (bit_vector);
}

/// How the fields of any pattern relate to its bits: the fraction has 23
/// bits, the exponent 8, the magnitude bits combine the two, and the sign
/// bit is the topmost.
pub proof fn lemma_fields(b: u32)
    ensures
        frac_field(b) < 0x80_0000,
        biased_exp(b) < 0x100,
        mag_bits(b) == biased_exp(b) * 0x80_0000 + frac_field(b),
        sign_bit(b) <==> b >= 0x8000_0000,
        mag_bits(flip_sign(b)) == mag_bits(b),
        sign_bit(flip_sign(b)) == !sign_bit(b),
        biased_exp(flip_sign(b)) == biased_exp(b),
        frac_field(flip_sign(b)) == frac_field(b),
{
    assert(b & 0x7F_FFFF < 0x80_0000 && (b >> 23) & 0xFF < 0x100
        && b & 0x7FFF_FFFF == ((b >> 23) & 0xFF) * 0x80_0000 + (b & 0x7F_FFFF)
        && ((b & 0x8000_0000 != 0) <==> b >= 0x8000_0000)
        && (b ^ 0x8000_0000) & 0x7FFF_FFFF == b & 0x7FFF_FFFF
        && (((b ^ 0x8000_0000) & 0x8000_0000 != 0) <==> !(b & 0x8000_0000 != 0))
        && ((b ^ 0x8000_0000) >> 23) & 0xFF == (b >> 23) & 0xFF
        && (b ^ 0x8000_0000) & 0x7F_FFFF == b & 0x7F_FFFF) by (bit_vector);
}

/// Negation mirrors the scaled value and preserves the kind of the pattern.
pub proof fn lemma_flip_sign(b: u32)
    ensures
        val_scaled(flip_sign(b)) == -val_scaled(b),
        is_nan(flip_sign(b)) == is_nan(b),
        is_finite(flip_sign(b)) == is_finite(b),
        is_zero(flip_sign(b)) == is_zero(b),
        flip_sign(flip_sign(b)) == b,
{
    lemma_fields(b);
    lemma_fields(flip_sign(b));
    assert((b ^ 0x8000_0000) ^ 0x8000_0000 == b) by (bit_vector);
}

/// A magnitude is zero exactly when the magnitude bits are zero, and it is
/// never negative.
pub proof fn lemma_mag_zero(b: u32)
    ensures
        mag_scaled(b) >= 0,
        mag_scaled(b) == 0 <==> mag_bits(b) == 0,
        is_zero(b) <==> mag_bits(b) == 0,
{
    lemma_fields(b);
    if biased_exp(b) != 0 {
        lemma_pow2_pos((biased_exp(b) - 1) as nat);
        lemma_mul_strictly_positive(
            frac_field(b) + 0x80_0000,
            pow2((biased_exp(b) - 1) as nat) as int,
        );
    }
}

/// Ordering the magnitude bits orders the scaled magnitudes.
pub proof fn lemma_mag_mono(a: u32, b: u32)
    requires
        mag_bits(a) < mag_bits(b),
    ensures
        mag_scaled(a) < mag_scaled(b),
{
    lemma_fields(a);
    lemma_fields(b);
    let e1 = biased_exp(a) as int;
    let f1 = frac_field(a) as int;
    let e2 = biased_exp(b) as int;
    let f2 = frac_field(b) as int;
    let m: int = 0x80_0000;
    if e1 > e2 {
        assert(e1 * m >= (e2 + 1) * m) by (nonlinear_arith)
            requires
                e1 >= e2 + 1,
                m > 0,
        ;
        assert(false);
    }
    if e1 == e2 {
        if e1 == 0 {
        } else {
            lemma_pow2_pos((e1 - 1) as nat);
            lemma_mul_strict_inequality(f1 + m, f2 + m, pow2((e1 - 1) as nat) as int);
        }
    } else {
        // e1 < e2: the magnitude of a stays under 2^(e1 + 23), which is at
        // most 2^(e2 + 22), which the magnitude of b reaches.
        lemma2_to64();
        assert(m == pow2(23));
        assert(2 * m == pow2(24));
        lemma_pow2_pos((e2 - 1) as nat);
        assert(pow2((e2 + 22) as nat) <= mag_scaled(b)) by {
            lemma_pow2_adds(23, (e2 - 1) as nat);
            assert(m * pow2((e2 - 1) as nat) <= (f2 + m) * pow2((e2 - 1) as nat))
                by (nonlinear_arith)
                requires
                    f2 >= 0,
                    m > 0,
                    pow2((e2 - 1) as nat) > 0,
            ;
        }
        if e1 == 0 {
            assert(mag_scaled(a) < pow2(23));
            if 23 < e2 + 22 {
                lemma_pow2_strictly_increases(23, (e2 + 22) as nat);
            }
        } else {
            lemma_pow2_pos((e1 - 1) as nat);
            assert(mag_scaled(a) < pow2((e1 + 23) as nat)) by {
                assert((f1 + m) * pow2((e1 - 1) as nat) < (2 * m) * pow2((e1 - 1) as nat))
                    by (nonlinear_arith)
                    requires
                        f1 + m < 2 * m,
                        pow2((e1 - 1) as nat) > 0,
                ;
                lemma_pow2_adds(24, (e1 - 1) as nat);
            }
            if e1 + 23 < e2 + 22 {
                lemma_pow2_strictly_increases((e1 + 23) as nat, (e2 + 22) as nat);
            }
        }
    }
}

/// Equal magnitude bits mean equal scaled magnitudes.
pub proof fn lemma_mag_same(a: u32, b: u32)
    requires
        mag_bits(a) == mag_bits(b),
    ensures
        mag_scaled(a) == mag_scaled(b),
{
    lemma_fields(a);
    lemma_fields(b);
    let m: int = 0x80_0000;
    assert(biased_exp(a) == biased_exp(b) && frac_field(a) == frac_field(b)) by (nonlinear_arith)
        requires
            biased_exp(a) * m + frac_field(a) == biased_exp(b) * m + frac_field(b),
            frac_field(a) < m,
            frac_field(b) < m,
    ;
}

/// Whether a pattern is a NaN, read off the bits.
pub fn is_nan_bits(b: u32) -> (r: bool)
    ensures
        r == is_nan(b),
{
    (b >> 23) & 0xFF == 0xFF && b & 0x7F_FFFF != 0
}

/// IEEE negation: flip the sign bit.
pub fn negate_bits(b: u32) -> (r: u32)
    ensures
        r == flip_sign(b),
{
    b ^ 0x8000_0000
}

/// The IEEE `<=` comparison: false whenever an operand is NaN, the order
/// of the denoted values otherwise.
pub fn le_bits(a: u32, b: u32) -> (r: bool)
    ensures
        !is_nan(a) && !is_nan(b) ==> (r <==> val_scaled(a) <= val_scaled(b)),
        is_nan(a) || is_nan(b) ==> !r,
{
    if is_nan_bits(a) || is_nan_bits(b) {
        return false;
    }
    let ma: u32 = a & 0x7FFF_FFFF;
    let mb: u32 = b & 0x7FFF_FFFF;
    let sa: bool = a >= 0x8000_0000;
    let sb: bool = b >= 0x8000_0000;
    proof {
        lemma_fields(a);
        lemma_fields(b);
        lemma_mag_zero(a);
        lemma_mag_zero(b);
        if mag_bits(a) < mag_bits(b) {
            lemma_mag_mono(a, b);
        } else if mag_bits(b) < mag_bits(a) {
            lemma_mag_mono(b, a);
        } else {
            lemma_mag_same(a, b);
        }
    }
    if sa && sb {
        mb <= ma
    } else if !sa && !sb {
        ma <= mb
    } else if sa {
        true
    } else {
        ma == 0 && mb == 0
    }
}

/// The larger of two patterns, with the NaN rules of `f32::max`: a NaN
/// operand is ignored in favour of the other operand.
pub fn max_bits(a: u32, b: u32) -> (r: u32)
    ensures
        is_nan(a) && is_nan(b) ==> is_nan(r),
        is_nan(a) && !is_nan(b) ==> r == b,
        !is_nan(a) && is_nan(b) ==> r == a,
        !is_nan(a) && !is_nan(b) ==> r == (if val_scaled(a) <= val_scaled(b) {
            b
        } else {
            a
        }),
{
    if is_nan_bits(a) {
        b
    } else if is_nan_bits(b) {
        a
    } else if le_bits(a, b) {
        b
    } else {
        a
    }
}

/// The smaller of two patterns, with the NaN rules of `f32::min`.
pub fn min_bits(a: u32, b: u32) -> (r: u32)
    ensures
        is_nan(a) && is_nan(b) ==> is_nan(r),
        is_nan(a) && !is_nan(b) ==> r == b,
        !is_nan(a) && is_nan(b) ==> r == a,
        !is_nan(a) && !is_nan(b) ==> r == (if val_scaled(a) <= val_scaled(b) {
            a
        } else {
            b
        }),
{
    if is_nan_bits(a) {
        b
    } else if is_nan_bits(b) {
        a
    } else if le_bits(a, b) {
        a
    } else {
        b
    }
}

/// Bit pattern of a canonical quiet NaN, the square root of a negative value.
pub const QUIET_NAN: u32 = 0x7FC0_0000;

/// The fields of [`QUIET_NAN`], read off its bits.
pub proof fn lemma_quiet_nan()
    ensures
        is_nan(QUIET_NAN),
{
    assert((0x7FC0_0000u32 >> 23) & 0xFF == 0xFF && 0x7FC0_0000u32 & 0x7F_FFFF != 0)
        by (bit_vector);
}

/// Doublings that bring a subnormal significand up to the 2^23 bit.
pub open spec fn norm_steps(m: int) -> nat
    decreases 0x100_0000 - m,
{
    if m <= 0 || m >= 0x80_0000 {
        0
    } else {
        1 + norm_steps(m * 2)
    }
}

/// Integer square root by bisection: the largest `lo` in `[lo, hi)` with
/// `lo * lo <= n`, under the usual bisection preconditions.
pub open spec fn isqrt_go(n: int, lo: int, hi: int) -> int
    decreases hi - lo,
{
    if hi - lo <= 1 {
        lo
    } else {
        let mid = lo + (hi - lo) / 2;
        if mid * mid <= n {
            isqrt_go(n, mid, hi)
        } else {
            isqrt_go(n, lo, mid)
        }
    }
}

/// The gap between a pattern's magnitude and the next representable
/// magnitude, scaled by 2^149: one unit in the last place.
pub open spec fn ulp_mag(b: u32) -> int {
    if biased_exp(b) == 0 {
        1
    } else {
        pow2((biased_exp(b) - 1) as nat) as int
    }
}

/// `r` lies within half an ulp of the square root of `x`: squaring
/// `|sqrt(x)| - |r| <= ulp/2` keeps every term an integer, with magnitudes
/// scaled by 2^149 so that `mag(x) * 2^151 == (2 * sqrt-target)^2`.
pub open spec fn rounds_to_sqrt(x: u32, r: u32) -> bool {
    let rr = 2 * mag_scaled(r);
    let u = ulp_mag(r);
    (rr - u) * (rr - u) <= mag_scaled(x) * pow2(151) && mag_scaled(x) * pow2(151) <= (rr + u) * (
    rr + u)
}

/// IEEE-754 binary32 square root with round-to-nearest-even, written out on
/// the bits: NaN for a NaN or negative input, zeros and the positive
/// infinity unchanged, and for a positive finite value the normalized
/// significand is squared down by integer square root and rounded, ties
/// being impossible.
pub open spec fn sqrt_rne(x: u32) -> u32 {
    if is_nan(x) || (sign_bit(x) && !is_zero(x)) {
        QUIET_NAN
    } else if is_zero(x) || is_infinite(x) {
        x
    } else {
        let msig: int = if biased_exp(x) == 0 {
            frac_field(x) * pow2(norm_steps(frac_field(x) as int)) as int
        } else {
            frac_field(x) + 0x80_0000
        };
        let j: int = if biased_exp(x) == 0 {
            151 - norm_steps(frac_field(x) as int)
        } else {
            biased_exp(x) + 150
        };
        let s: int = if j % 2 == 0 {
            24
        } else {
            23
        };
        let p: int = (j - s) / 2;
        let m2: int = msig * pow2(s as nat) as int;
        let q: int = isqrt_go(m2, 0, 0x100_0000);
        let qr: int = if m2 - q * q > q {
            q + 1
        } else {
            q
        };
        if qr == 0x100_0000 {
            (((p + 1) as u32) << 23u32)
        } else {
            ((p as u32) << 23u32) | ((qr - 0x80_0000) as u32)
        }
    }
}

/// The square of a product, with the power of two pulled out.
proof fn lemma_scale_square(a: int, c: nat)
    ensures
        (a * pow2(c)) * (a * pow2(c)) == (a * a) * pow2(2 * c) as int,
{
    lemma_pow2_adds(c, c);
    assert((a * pow2(c)) * (a * pow2(c)) == (a * a) * (pow2(c) * pow2(c)) as int)
        by (nonlinear_arith);
}

/// The assembled root pattern equals [`sqrt_rne`] and carries the rounding
/// guarantee, given the facts the computation in [`sqrt_bits`] establishes.
#[verifier::rlimit(60)]
proof fn lemma_sqrt_assembled(
    x: u32,
    e: u32,
    f: u32,
    msig: u32,
    k: u32,
    j: u32,
    s: u32,
    p: u32,
    m2: int,
    q: int,
    qr: int,
    r: u32,
)
    requires
        e == biased_exp(x),
        f == frac_field(x),
        !sign_bit(x),
        is_finite(x),
        !is_zero(x),
        e == 0 ==> f >= 1 && k <= 23 && k == norm_steps(f as int) && msig == f * pow2(k as nat),
        e != 0 ==> msig == 0x80_0000 + f,
        0x80_0000 <= msig < 0x100_0000,
        j == (if e == 0 {
            151 - k
        } else {
            e + 150
        }),
        s == (if j % 2 == 0 {
            24u32
        } else {
            23u32
        }),
        p == (j - s) / 2,
        52 <= p <= 190,
        m2 == msig * pow2(s as nat),
        q == isqrt_go(m2, 0, 0x100_0000),
        q * q <= m2,
        m2 < (q + 1) * (q + 1),
        0x80_0000 <= q < 0x100_0000,
        qr == (if m2 - q * q > q {
            q + 1
        } else {
            q
        }),
        r == (if qr == 0x100_0000 {
            (((p + 1) as u32) << 23u32)
        } else {
            (p << 23u32) | ((qr - 0x80_0000) as u32)
        }),
    ensures
        r == sqrt_rne(x),
        is_finite(r),
        !sign_bit(r),
        !is_zero(r),
        rounds_to_sqrt(x, r),
{
    lemma2_to64();
    let pp: int = p as int;
    let big: int = pow2((p - 1) as nat) as int;
    lemma_pow2_pos((p - 1) as nat);
    // The fields of the assembled pattern.
    if qr == 0x100_0000 {
        let er: u32 = (p + 1) as u32;
        assert(((er << 23u32) >> 23) & 0xFF == er && (er << 23u32) & 0x7F_FFFF == 0 && (er
            << 23u32) & 0x8000_0000 == 0) by (bit_vector)
            requires
                er < 0xFF,
        ;
        assert(biased_exp(r) == p + 1 && frac_field(r) == 0 && !sign_bit(r));
        lemma_pow2_unfold(p as nat);
        assert(mag_scaled(r) == 0x80_0000 * pow2(p as nat));
        assert(mag_scaled(r) == qr * big) by (nonlinear_arith)
            requires
                mag_scaled(r) == 0x80_0000 * pow2(p as nat),
                pow2(p as nat) == 2 * big,
                qr == 0x100_0000,
                big > 0,
        ;
        assert(ulp_mag(r) == 2 * big) by {
            lemma_pow2_unfold(p as nat);
        }
    } else {
        let d: u32 = (qr - 0x80_0000) as u32;
        assert((((p << 23u32) | d) >> 23) & 0xFF == p && ((p << 23u32) | d) & 0x7F_FFFF == d && ((p
            << 23u32) | d) & 0x8000_0000 == 0) by (bit_vector)
            requires
                p < 0xFF,
                d < 0x80_0000,
        ;
        assert(biased_exp(r) == p && frac_field(r) == d && !sign_bit(r));
        assert(mag_scaled(r) == qr * big);
        assert(ulp_mag(r) == big);
    }
    assert(is_finite(r) && !sign_bit(r) && !is_zero(r));
    // mag(x) * 2^151 == 4 * m2 * (big * big).
    let v: int = mag_scaled(x);
    assert(msig * pow2(j as nat) == v * pow2(151)) by {
        if e == 0 {
            lemma_pow2_adds(k as nat, (151 - k) as nat);
            assert(v == f);
            assert((f * pow2(k as nat)) * pow2((151 - k) as nat) == f * (pow2(k as nat) * pow2(
                (151 - k) as nat,
            ))) by (nonlinear_arith);
        } else {
            lemma_pow2_adds((e - 1) as nat, 151);
            assert(v == msig * pow2((e - 1) as nat));
            assert((msig * pow2((e - 1) as nat)) * pow2(151) == msig * (pow2((e - 1) as nat) * pow2(
                151,
            ))) by (nonlinear_arith);
        }
    }
    assert(2 * pp == j - s);
    assert(m2 * pow2((2 * pp) as nat) == msig * pow2(j as nat)) by {
        lemma_pow2_adds(s as nat, (2 * pp) as nat);
        assert((msig * pow2(s as nat)) * pow2((2 * pp) as nat) == msig * (pow2(s as nat) * pow2(
            (2 * pp) as nat,
        ))) by (nonlinear_arith);
    }
    assert(pow2((2 * pp) as nat) == 4 * (big * big)) by {
        lemma_pow2_adds((p - 1) as nat, (p - 1) as nat);
        lemma_pow2_adds(2, (2 * pp - 2) as nat);
        assert(pow2(2) == 4);
    }
    assert(v * pow2(151) == 4 * m2 * (big * big)) by (nonlinear_arith)
        requires
            m2 * pow2((2 * pp) as nat) == v * pow2(151),
            pow2((2 * pp) as nat) == 4 * (big * big),
    ;
    // The rounding inequalities on the integer square root, then scaled.
    let bb: int = big * big;
    lemma_pow2_adds((p - 1) as nat, (p - 1) as nat);
    assert(bb == pow2(((p - 1) + (p - 1)) as nat) as int);
    lemma_mul_strictly_positive(big, big);
    let u: int = ulp_mag(r);
    let rr: int = 2 * mag_scaled(r);
    assert(2 * (qr * big) == (2 * qr) * big) by (nonlinear_arith);
    assert(rr == (2 * qr) * big);
    assert((4 * m2) * bb == 4 * m2 * (big * big)) by (nonlinear_arith)
        requires
            bb == big * big,
    ;
    if qr == 0x100_0000 {
        // Rounded up out of the binade: the wider ulp gives extra room.
        assert((2 * (q + 1)) * big - 2 * big == (2 * q) * big && (2 * (q + 1)) * big + 2 * big == (
        2 * q + 4) * big) by (nonlinear_arith);
        assert(rr - u == (2 * q) * big);
        assert(rr + u == (2 * q + 4) * big);
        assert((2 * q) * (2 * q) <= 4 * m2 && 4 * m2 <= (2 * q + 4) * (2 * q + 4))
            by (nonlinear_arith)
            requires
                q * q <= m2,
                m2 < (q + 1) * (q + 1),
                q >= 1,
        ;
        lemma_scale_square(2 * q, (p - 1) as nat);
        lemma_scale_square(2 * q + 4, (p - 1) as nat);
        lemma_mul_inequality((2 * q) * (2 * q), 4 * m2, bb);
        lemma_mul_inequality(4 * m2, (2 * q + 4) * (2 * q + 4), bb);
        assert((rr - u) * (rr - u) == ((2 * q) * (2 * q)) * bb);
        assert((rr + u) * (rr + u) == ((2 * q + 4) * (2 * q + 4)) * bb);
    } else {
        assert((2 * qr) * big - big == (2 * qr - 1) * big && (2 * qr) * big + big == (2 * qr + 1)
            * big) by (nonlinear_arith);
        assert(rr - u == (2 * qr - 1) * big);
        assert(rr + u == (2 * qr + 1) * big);
        assert((2 * qr - 1) * (2 * qr - 1) <= 4 * m2 && 4 * m2 <= (2 * qr + 1) * (2 * qr + 1))
            by (nonlinear_arith)
            requires
                q * q <= m2,
                m2 < (q + 1) * (q + 1),
                qr == (if m2 - q * q > q {
                    q + 1
                } else {
                    q
                }),
                q >= 1,
        ;
        lemma_scale_square(2 * qr - 1, (p - 1) as nat);
        lemma_scale_square(2 * qr + 1, (p - 1) as nat);
        lemma_mul_inequality((2 * qr - 1) * (2 * qr - 1), 4 * m2, bb);
        lemma_mul_inequality(4 * m2, (2 * qr + 1) * (2 * qr + 1), bb);
        assert((rr - u) * (rr - u) == ((2 * qr - 1) * (2 * qr - 1)) * bb);
        assert((rr + u) * (rr + u) == ((2 * qr + 1) * (2 * qr + 1)) * bb);
    }
    assert(rounds_to_sqrt(x, r));
    // Finally, the assembled bits are what the specification computes.
    assert(r == sqrt_rne(x));
}

/// Integer square root of a value below 2^48.
fn isqrt48(n: u64) -> (q: u64)
    requires
        n < 0x1_0000_0000_0000,
    ensures
        q == isqrt_go(n as int, 0, 0x100_0000),
        q * q <= n,
        n < (q + 1) * (q + 1),
        q < 0x100_0000,
{
    let mut lo: u64 = 0;
    let mut hi: u64 = 0x100_0000;
    proof {
        assert(0x100_0000u64 * 0x100_0000u64 == 0x1_0000_0000_0000) by (nonlinear_arith);
    }
    while lo + 1 < hi
        invariant
            lo < hi <= 0x100_0000,
            lo * lo <= n,
            n < 0x1_0000_0000_0000,
            (n as int) < (hi as int) * (hi as int),
            isqrt_go(n as int, lo as int, hi as int) == isqrt_go(n as int, 0, 0x100_0000),
        decreases hi - lo,
    {
        let mid: u64 = lo + (hi - lo) / 2;
        proof {
            assert(mid * mid <= 0x1_0000_0000_0000) by (nonlinear_arith)
                requires
                    mid <= 0x100_0000,
            ;
        }
        if mid * mid <= n {
            lo = mid;
        } else {
            hi = mid;
        }
    }
    lo
}

/// IEEE-754 binary32 square root, round to nearest, ties to even.
///
/// The result equals [`sqrt_rne`], and for a positive finite nonzero input
/// it is the finite positive pattern within half an ulp of the exact root,
/// which pins it to the correctly rounded value since a root can never fall
/// halfway between two representable magnitudes.
pub fn sqrt_bits(x: u32) -> (r: u32)
    ensures
        r == sqrt_rne(x),
        is_zero(x) ==> r == x,
        is_infinite(x) && !sign_bit(x) ==> r == x,
        is_nan(x) || (sign_bit(x) && !is_zero(x)) ==> is_nan(r),
        !sign_bit(x) && is_finite(x) && !is_zero(x) ==> is_finite(r) && !sign_bit(r) && !is_zero(
        r) && rounds_to_sqrt(x, r),
{
    let e: u32 = (x >> 23) & 0xFF;
    let f: u32 = x & 0x7F_FFFF;
    let sign: bool = x >= 0x8000_0000;
    proof {
        lemma_fields(x);
        lemma_quiet_nan();
    }
    if e == 0xFF && f != 0 {
        QUIET_NAN
    } else if sign && !(e == 0 && f == 0) {
        QUIET_NAN
    } else if (e == 0 && f == 0) || e == 0xFF {
        x
    } else {
        // Positive, finite, nonzero: normalize the significand to
        // [2^23, 2^24) while keeping mag(x) * 2^151 == msig * 2^j.
        let mut msig: u32 = f;
        let mut k: u32 = 0;
        proof {
            lemma2_to64();
        }
        if e == 0 {
            while msig < 0x80_0000
                invariant
                    1 <= msig < 0x100_0000,
                    k <= 23,
                    msig == f * pow2(k as nat),
                    f >= 1,
                    norm_steps(f as int) == k + norm_steps(msig as int),
                decreases 0x100_0000 - msig,
            {
                proof {
                    lemma_pow2_unfold((k + 1) as nat);
                    lemma_pow2_pos(k as nat);
                    assert(msig * 2 == f * pow2((k + 1) as nat)) by (nonlinear_arith)
                        requires
                            msig == f * pow2(k as nat),
                            pow2((k + 1) as nat) == 2 * pow2(k as nat),
                    ;
                    assert(norm_steps(msig as int) == 1 + norm_steps(msig as int * 2));
                    if k >= 23 {
                        lemma2_to64();
                        if k > 23 {
                            lemma_pow2_strictly_increases(23, k as nat);
                        }
                        assert(f * pow2(k as nat) >= pow2(k as nat)) by (nonlinear_arith)
                            requires
                                f >= 1,
                                pow2(k as nat) > 0,
                        ;
                        assert(false);
                    }
                }
                msig = msig * 2;
                k = k + 1;
            }
            proof {
                assert(norm_steps(msig as int) == 0);
            }
        } else {
            msig = 0x80_0000 + f;
        }
        let j: u32 = if e == 0 {
            151 - k
        } else {
            e + 150
        };
        let s: u32 = if j % 2 == 0 {
            24
        } else {
            23
        };
        let p: u32 = (j - s) / 2;
        proof {
            assert(128 <= j <= 404);
            assert(52 <= p <= 190);
            lemma2_to64();
            assert((msig as u64) * pow2(s as nat) < 0x1_0000_0000_0000) by (nonlinear_arith)
                requires
                    msig < 0x100_0000,
                    pow2(s as nat) <= 0x100_0000,
                    s == 23 || s == 24,
                    pow2(23) == 0x80_0000,
                    pow2(24) == 0x100_0000,
            ;
            lemma_u64_shl_is_mul(msig as u64, s as u64);
        }
        let m2: u64 = (msig as u64) << s;
        let q: u64 = isqrt48(m2);
        proof {
            // The significand is at least 2^46, so its root reaches 2^23.
            lemma2_to64();
            assert(m2 >= 0x4000_0000_0000) by (nonlinear_arith)
                requires
                    m2 == msig * pow2(s as nat),
                    msig >= 0x80_0000,
                    pow2(s as nat) >= 0x80_0000,
                    s == 23 || s == 24,
                    pow2(23) == 0x80_0000,
                    pow2(24) == 0x100_0000,
            ;
            assert(q >= 0x80_0000) by (nonlinear_arith)
                requires
                    (q + 1) * (q + 1) > 0x4000_0000_0000,
                    q >= 0,
            ;
        }
        let rem: u64 = m2 - q * q;
        let qr: u64 = if rem > q {
            q + 1
        } else {
            q
        };
        let r: u32 = if qr == 0x100_0000 {
            (p + 1) << 23
        } else {
            (p << 23) | ((qr as u32) - 0x80_0000)
        };
        proof {
            lemma_sqrt_assembled(x, e, f, msig, k, j, s, p, m2 as int, q as int, qr as int, r);
        }
        r
    }
}

/// IEEE equality of two patterns: non-NaN and denoting the same number.
pub fn eq_bits(a: u32, b: u32) -> (r: bool)
    ensures
        r == same_value(a, b),
{
    if is_nan_bits(a) || is_nan_bits(b) {
        false
    } else {
        le_bits(a, b) && le_bits(b, a)
    }
}

/// Flipping one side of a value equation is the same as flipping the other.
pub proof fn lemma_same_flip(a: u32, b: u32)
    ensures
        same_value_or_nan(flip_sign(a), b) == same_value_or_nan(a, flip_sign(b)),
{
    lemma_flip_sign(a);
    lemma_flip_sign(b);
}

/// Bisection returns the integer root: the unique `v` with
/// `v * v <= n < (v + 1) * (v + 1)` inside the bracket.
pub proof fn lemma_isqrt_go(n: int, lo: int, hi: int, v: int)
    requires
        0 <= lo <= v < hi,
        v * v <= n,
        n < (v + 1) * (v + 1),
    ensures
        isqrt_go(n, lo, hi) == v,
    decreases hi - lo,
{
    if hi - lo <= 1 {
    } else {
        let mid = lo + (hi - lo) / 2;
        if mid * mid <= n {
            assert(v >= mid) by (nonlinear_arith)
                requires
                    mid * mid <= n,
                    n < (v + 1) * (v + 1),
                    mid >= 0,
                    v >= 0,
            ;
            lemma_isqrt_go(n, mid, hi, v);
        } else {
            assert(v < mid) by (nonlinear_arith)
                requires
                    n < mid * mid,
                    v * v <= n,
                    mid >= 0,
                    v >= 0,
            ;
            lemma_isqrt_go(n, lo, mid, v);
        }
    }
}

/// The square root of one is one.
pub proof fn lemma_sqrt_one()
    ensures
        sqrt_rne(ONE_BITS) == ONE_BITS,
{
    lemma_constant_fields();
    lemma2_to64();
    assert(0x80_0000 * 0x80_0000 == 0x4000_0000_0000) by (nonlinear_arith);
    assert((0x80_0000 + 1) * (0x80_0000 + 1) > 0x4000_0000_0000) by (nonlinear_arith);
    lemma_isqrt_go(0x4000_0000_0000, 0, 0x100_0000, 0x80_0000);
    assert(127u32 << 23u32 == 0x3F80_0000u32) by (bit_vector);
    assert(0x3F80_0000u32 | 0u32 == 0x3F80_0000u32) by (bit_vector);
}

/// What IEEE-754 binary32 addition returns, as a function of the operand
/// bits; [`add_bits`] names its result with this function.
pub uninterp spec fn add_ieee(a: u32, b: u32) -> u32;

/// What IEEE-754 binary32 multiplication returns; see [`mul_bits`].
pub uninterp spec fn mul_ieee(a: u32, b: u32) -> u32;

/// What IEEE-754 binary32 division returns; see [`div_bits`].
pub uninterp spec fn div_ieee(a: u32, b: u32) -> u32;

/// Relies on `rustc_apfloat::ieee::Single` addition with round-to-nearest-even:
/// IEEE-754 binary32 addition. Beyond naming the result, the clauses state
/// facts that IEEE-754 fixes for this operation: the sum of non-NaN operands
/// does not depend on their order; negating both operands negates the sum,
/// up to the sign of a zero result; a zero operand leaves a nonzero finite
/// operand unchanged; the sign rule for a sum of zeros; exact cancellation
/// of a finite value gives positive zero; finite operands never give NaN.
#[verifier::external_body]
pub fn add_bits(a: u32, b: u32) -> (r: u32)
    ensures
        r == add_ieee(a, b),
        !is_nan(a) && !is_nan(b) ==> r == add_ieee(b, a),
        !is_nan(a) && !is_nan(b) ==> same_value_or_nan(
            flip_sign(r),
            add_ieee(flip_sign(a), flip_sign(b)),
        ),
        !is_nan(a) && !is_nan(b) ==> same_value_or_nan(
            flip_sign(r),
            add_ieee(flip_sign(b), flip_sign(a)),
        ),
        is_finite(a) && !is_zero(a) && is_zero(b) ==> r == a,
        is_zero(a) && is_finite(b) && !is_zero(b) ==> r == b,
        is_zero(a) && is_zero(b) ==> r == (if sign_bit(a) && sign_bit(b) {
            NEG_ZERO
        } else {
            POS_ZERO
        }),
        is_finite(a) && is_finite(b) && !is_zero(a) && val_scaled(a) + val_scaled(b) == 0 ==> r
            == POS_ZERO,
        is_finite(a) && is_finite(b) ==> !is_nan(r),
{
    (Single::from_bits(a as u128) + Single::from_bits(b as u128)).value.to_bits() as u32
}

/// Relies on `rustc_apfloat::ieee::Single` multiplication with
/// round-to-nearest-even:
/// IEEE-754 binary32 multiplication. The clauses state IEEE-754 facts: the
/// product of non-NaN operands does not depend on their order; one is the
/// exact multiplicative identity; a zero times a finite value is the zero
/// whose sign is the product of the signs; finite operands never give NaN.
#[verifier::external_body]
pub fn mul_bits(a: u32, b: u32) -> (r: u32)
    ensures
        r == mul_ieee(a, b),
        !is_nan(a) && !is_nan(b) ==> r == mul_ieee(b, a),
        a == ONE_BITS && !is_nan(b) ==> r == b,
        b == ONE_BITS && !is_nan(a) ==> r == a,
        is_zero(a) && is_finite(b) ==> r == (if sign_bit(a) != sign_bit(b) {
            NEG_ZERO
        } else {
            POS_ZERO
        }),
        is_zero(b) && is_finite(a) ==> r == (if sign_bit(a) != sign_bit(b) {
            NEG_ZERO
        } else {
            POS_ZERO
        }),
        is_finite(a) && is_finite(b) ==> !is_nan(r),
{
    (Single::from_bits(a as u128) * Single::from_bits(b as u128)).value.to_bits() as u32
}

/// Relies on `rustc_apfloat::ieee::Single` division with round-to-nearest-
/// even: IEEE-754 binary32 division. Division by one returns the dividend
/// exactly.
#[verifier::external_body]
pub fn div_bits(a: u32, b: u32) -> (r: u32)
    ensures
        r == div_ieee(a, b),
        b == ONE_BITS && !is_nan(a) ==> r == a,
{
    (Single::from_bits(a as u128) / Single::from_bits(b as u128)).value.to_bits() as u32
}

/// IEEE subtraction: adding the negated second operand, which is how
/// IEEE-754 defines the operation. The clauses mirror those of [`add_bits`].
pub fn sub_bits(a: u32, b: u32) -> (r: u32)
    ensures
        r == add_ieee(a, flip_sign(b)),
        is_finite(a) && !is_zero(a) && is_zero(b) ==> r == a,
        is_zero(a) && is_zero(b) ==> r == (if sign_bit(a) && !sign_bit(b) {
            NEG_ZERO
        } else {
            POS_ZERO
        }),
        is_finite(a) && is_finite(b) && !is_zero(a) && val_scaled(a) == val_scaled(b) ==> r
            == POS_ZERO,
        is_finite(a) && is_finite(b) ==> !is_nan(r),
        !is_nan(a) && !is_nan(b) ==> same_value_or_nan(flip_sign(r), add_ieee(b, flip_sign(a))),
{
    proof {
        lemma_flip_sign(b);
        lemma_flip_sign(a);
        lemma_fields(a);
        lemma_fields(b);
    }
    add_bits(a, negate_bits(b))
}

} // verus!
