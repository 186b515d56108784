use crate::ieee::{
    is_nan32, is_nan64, key32, key64, order_of, MAGNITUDE_MASK32, MAGNITUDE_MASK64, SIGN_MASK32,
    SIGN_MASK64,
};
use vstd::arithmetic::power2::{
    lemma_pow2_pos, lemma_pow2_strictly_increases, lemma_pow2_unfold, pow2,
};
use vstd::prelude::*;

verus! {

/// Two to the number of fraction bits of a double-precision pattern.
pub const FRACTION_SPAN64: u64 = 0x10_0000_0000_0000;

/// Two to the number of fraction bits of a single-precision pattern.
pub const FRACTION_SPAN32: u32 = 0x80_0000;

/// The magnitude of the value with biased exponent `e` and fraction `f`, as a
/// multiple of the smallest positive value of the precision; `span` is two to
/// the number of fraction bits. A subnormal value (`e == 0`) is `f` such
/// steps, a normal one `2^(e-1) * (span + f)`. An infinity, whose exponent is
/// the greatest and whose fraction is zero, gets what the formula gives, which
/// is beyond every finite value.
pub open spec fn scaled(e: nat, f: nat, span: nat) -> nat {
    if e == 0 {
        f
    } else {
        pow2((e - 1) as nat) * (span + f)
    }
}

/// The biased exponent of a double-precision pattern.
pub open spec fn exponent64(bits: u64) -> nat {
    ((bits >> 52) & 0x7ff) as nat
}

/// The fraction of a double-precision pattern.
pub open spec fn fraction64(bits: u64) -> nat {
    (bits & 0xf_ffff_ffff_ffff) as nat
}

/// The value of a double-precision pattern that is not `NaN`, as a signed
/// multiple of the smallest positive value. Both zeros have the value 0.
pub open spec fn scaled_value64(bits: u64) -> int {
    let magnitude = scaled(exponent64(bits), fraction64(bits), FRACTION_SPAN64 as nat);
    if bits & SIGN_MASK64 == 0 {
        magnitude as int
    } else {
        -(magnitude as int)
    }
}

/// The biased exponent of a single-precision pattern.
pub open spec fn exponent32(bits: u32) -> nat {
    ((bits >> 23) & 0xff) as nat
}

/// The fraction of a single-precision pattern.
pub open spec fn fraction32(bits: u32) -> nat {
    (bits & 0x7f_ffff) as nat
}

/// The value of a single-precision pattern that is not `NaN`, as a signed
/// multiple of the smallest positive value.
pub open spec fn scaled_value32(bits: u32) -> int {
    let magnitude = scaled(exponent32(bits), fraction32(bits), FRACTION_SPAN32 as nat);
    if bits & SIGN_MASK32 == 0 {
        magnitude as int
    } else {
        -(magnitude as int)
    }
}

/// A greater exponent, or an equal exponent and a greater fraction, gives a
/// strictly greater magnitude.
pub proof fn lemma_scaled_increases(e1: nat, f1: nat, e2: nat, f2: nat, span: nat)
    requires
        f1 < span,
        f2 < span,
        e1 < e2 || (e1 == e2 && f1 < f2),
    ensures
        scaled(e1, f1, span) < scaled(e2, f2, span),
{
    let p2 = pow2((e2 - 1) as nat);
    lemma_pow2_pos((e2 - 1) as nat);
    if e1 == e2 {
        if e1 != 0 {
            assert(p2 * (span + f1) < p2 * (span + f2)) by (nonlinear_arith)
                requires
                    p2 > 0,
                    f1 < f2,
            ;
        }
    } else if e1 == 0 {
        assert(f1 < p2 * (span + f2)) by (nonlinear_arith)
            requires
                p2 >= 1,
                f1 < span,
        ;
    } else {
        let p1 = pow2((e1 - 1) as nat);
        lemma_pow2_pos((e1 - 1) as nat);
        lemma_pow2_unfold(e1);
        if e1 < e2 - 1 {
            lemma_pow2_strictly_increases(e1, (e2 - 1) as nat);
        }
        assert(2 * p1 <= p2);
        assert(p1 * (span + f1) < p2 * (span + f2)) by (nonlinear_arith)
            requires
                p1 > 0,
                2 * p1 <= p2,
                f1 < span,
        ;
    }
}

/// On double-precision patterns with the sign bit clear, the order of the
/// patterns is the order of the magnitudes they denote.
proof fn lemma_magnitudes_ordered64(x: u64, y: u64)
    requires
        x <= MAGNITUDE_MASK64,
        y <= MAGNITUDE_MASK64,
        x < y,
    ensures
        scaled(exponent64(x), fraction64(x), FRACTION_SPAN64 as nat) < scaled(
            exponent64(y),
            fraction64(y),
            FRACTION_SPAN64 as nat,
        ),
{
    let ex = (x >> 52) & 0x7ff;
    let fx = x & 0xf_ffff_ffff_ffff;
    let ey = (y >> 52) & 0x7ff;
    let fy = y & 0xf_ffff_ffff_ffff;
    assert(fx < 0x10_0000_0000_0000 && x == ex * 0x10_0000_0000_0000 + fx) by (bit_vector)
        requires
            x <= 0x7fff_ffff_ffff_ffffu64,
            ex == (x >> 52) & 0x7ff,
            fx == x & 0xf_ffff_ffff_ffff,
    ;
    assert(fy < 0x10_0000_0000_0000 && y == ey * 0x10_0000_0000_0000 + fy) by (bit_vector)
        requires
            y <= 0x7fff_ffff_ffff_ffffu64,
            ey == (y >> 52) & 0x7ff,
            fy == y & 0xf_ffff_ffff_ffff,
    ;
    lemma_scaled_increases(ex as nat, fx as nat, ey as nat, fy as nat, FRACTION_SPAN64 as nat);
}

/// On single-precision patterns with the sign bit clear, the order of the
/// patterns is the order of the magnitudes they denote.
proof fn lemma_magnitudes_ordered32(x: u32, y: u32)
    requires
        x <= MAGNITUDE_MASK32,
        y <= MAGNITUDE_MASK32,
        x < y,
    ensures
        scaled(exponent32(x), fraction32(x), FRACTION_SPAN32 as nat) < scaled(
            exponent32(y),
            fraction32(y),
            FRACTION_SPAN32 as nat,
        ),
{
    let ex = (x >> 23) & 0xff;
    let fx = x & 0x7f_ffff;
    let ey = (y >> 23) & 0xff;
    let fy = y & 0x7f_ffff;
    assert(fx < 0x80_0000 && x == ex * 0x80_0000 + fx) by (bit_vector)
        requires
            x <= 0x7fff_ffffu32,
            ex == (x >> 23) & 0xff,
            fx == x & 0x7f_ffff,
    ;
    assert(fy < 0x80_0000 && y == ey * 0x80_0000 + fy) by (bit_vector)
        requires
            y <= 0x7fff_ffffu32,
            ey == (y >> 23) & 0xff,
            fy == y & 0x7f_ffff,
    ;
    lemma_scaled_increases(ex as nat, fx as nat, ey as nat, fy as nat, FRACTION_SPAN32 as nat);
}

/// Double-precision values that are not `NaN` are ordered as their keys are:
/// the key order is the numeric order.
pub proof fn lemma_keys_order_as_values64(a: u64, b: u64)
    requires
        !is_nan64(a),
        !is_nan64(b),
    ensures
        order_of(key64(a), key64(b)) == order_of(scaled_value64(a), scaled_value64(b)),
{
    let x = a & MAGNITUDE_MASK64;
    let y = b & MAGNITUDE_MASK64;
    assert(x <= 0x7fff_ffff_ffff_ffffu64 && (x >> 52) & 0x7ff == (a >> 52) & 0x7ff && x
        & 0xf_ffff_ffff_ffff == a & 0xf_ffff_ffff_ffff) by (bit_vector)
        requires
            x == a & 0x7fff_ffff_ffff_ffffu64,
    ;
    assert(y <= 0x7fff_ffff_ffff_ffffu64 && (y >> 52) & 0x7ff == (b >> 52) & 0x7ff && y
        & 0xf_ffff_ffff_ffff == b & 0xf_ffff_ffff_ffff) by (bit_vector)
        requires
            y == b & 0x7fff_ffff_ffff_ffffu64,
    ;
    assert((0u64 >> 52) & 0x7ff == 0 && 0u64 & 0xf_ffff_ffff_ffff == 0) by (bit_vector);
    if x < y {
        lemma_magnitudes_ordered64(x, y);
    }
    if y < x {
        lemma_magnitudes_ordered64(y, x);
    }
    if 0 < x {
        lemma_magnitudes_ordered64(0, x);
    }
    if 0 < y {
        lemma_magnitudes_ordered64(0, y);
    }
}

/// Single-precision values that are not `NaN` are ordered as their keys are:
/// the key order is the numeric order.
pub proof fn lemma_keys_order_as_values32(a: u32, b: u32)
    requires
        !is_nan32(a),
        !is_nan32(b),
    ensures
        order_of(key32(a), key32(b)) == order_of(scaled_value32(a), scaled_value32(b)),
{
    let x = a & MAGNITUDE_MASK32;
    let y = b & MAGNITUDE_MASK32;
    assert(x <= 0x7fff_ffffu32 && (x >> 23) & 0xff == (a >> 23) & 0xff && x & 0x7f_ffff == a
        & 0x7f_ffff) by (bit_vector)
        requires
            x == a & 0x7fff_ffffu32,
    ;
    assert(y <= 0x7fff_ffffu32 && (y >> 23) & 0xff == (b >> 23) & 0xff && y & 0x7f_ffff == b
        & 0x7f_ffff) by (bit_vector)
        requires
            y == b & 0x7fff_ffffu32,
    ;
    assert((0u32 >> 23) & 0xff == 0 && 0u32 & 0x7f_ffff == 0) by (bit_vector);
    if x < y {
        lemma_magnitudes_ordered32(x, y);
    }
    if y < x {
        lemma_magnitudes_ordered32(y, x);
    }
    if 0 < x {
        lemma_magnitudes_ordered32(0, x);
    }
    if 0 < y {
        lemma_magnitudes_ordered32(0, y);
    }
}

} // verus!
