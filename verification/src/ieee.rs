use std::cmp::Ordering;
use vstd::prelude::*;

verus! {

/// The sign bit of a double-precision pattern.
pub const SIGN_MASK64: u64 = 0x8000_0000_0000_0000;

/// Everything but the sign bit of a double-precision pattern.
pub const MAGNITUDE_MASK64: u64 = 0x7fff_ffff_ffff_ffff;

/// The magnitude of a double-precision infinity: all exponent bits set, no fraction bit.
pub const INFINITY_BITS64: u64 = 0x7ff0_0000_0000_0000;

/// The sign bit of a single-precision pattern.
pub const SIGN_MASK32: u32 = 0x8000_0000;

/// Everything but the sign bit of a single-precision pattern.
pub const MAGNITUDE_MASK32: u32 = 0x7fff_ffff;

/// The magnitude of a single-precision infinity.
pub const INFINITY_BITS32: u32 = 0x7f80_0000;

/// The position that a ranked `NaN` takes above every key; its negation is the
/// position below every key.
pub const NAN_POSITION: i64 = 0x7fff_ffff_ffff_ffff;

/// A double-precision pattern is `NaN` when its exponent bits are all set and
/// some fraction bit is set: its magnitude lies beyond that of infinity.
pub open spec fn is_nan64(bits: u64) -> bool {
    (bits & MAGNITUDE_MASK64) > INFINITY_BITS64
}

/// A single-precision pattern is `NaN` when its magnitude lies beyond that of infinity.
pub open spec fn is_nan32(bits: u32) -> bool {
    (bits & MAGNITUDE_MASK32) > INFINITY_BITS32
}

/// The key of a double-precision pattern: its magnitude, negated when the sign
/// bit is set. On patterns that are not `NaN` the numeric order of the values
/// is the order of their keys: both zeros have key 0, and the infinities have
/// the keys of greatest magnitude.
pub open spec fn key64(bits: u64) -> int {
    if bits & SIGN_MASK64 == 0 {
        (bits & MAGNITUDE_MASK64) as int
    } else {
        -((bits & MAGNITUDE_MASK64) as int)
    }
}

/// The key of a single-precision pattern, defined as for double precision.
pub open spec fn key32(bits: u32) -> int {
    if bits & SIGN_MASK32 == 0 {
        (bits & MAGNITUDE_MASK32) as int
    } else {
        -((bits & MAGNITUDE_MASK32) as int)
    }
}

/// A key as a mathematical integer.
pub open spec fn int_of(key: i64) -> int {
    key as int
}

/// How two positions on the integer line compare.
pub open spec fn order_of(a: int, b: int) -> Ordering {
    if a < b {
        Ordering::Less
    } else if a == b {
        Ordering::Equal
    } else {
        Ordering::Greater
    }
}

/// The position of a value under a ranking policy: its key, or for a `NaN`
/// the position beyond every key on the side that the policy names.
pub open spec fn position(nan: bool, key: int, nan_greatest: bool) -> int {
    if !nan {
        key
    } else if nan_greatest {
        NAN_POSITION as int
    } else {
        -(NAN_POSITION as int)
    }
}

/// The keys of patterns that are not `NaN` lie strictly between the two `NaN` positions.
pub proof fn lemma_key64_within_positions(bits: u64)
    requires
        !is_nan64(bits),
    ensures
        -(NAN_POSITION as int) < key64(bits) < NAN_POSITION as int,
{
}

/// The keys of single-precision patterns lie strictly between the two `NaN` positions.
pub proof fn lemma_key32_within_positions(bits: u32)
    ensures
        -(NAN_POSITION as int) < key32(bits) < NAN_POSITION as int,
{
    let m = bits & MAGNITUDE_MASK32;
    assert(m <= 0x7fff_ffffu32) by (bit_vector)
        requires
            m == bits & 0x7fff_ffffu32,
    ;
}

/// Whether a double-precision pattern is `NaN`.
pub fn is_nan_bits64(bits: u64) -> (r: bool)
    ensures
        r == is_nan64(bits),
{
    (bits & MAGNITUDE_MASK64) > INFINITY_BITS64
}

/// Whether a single-precision pattern is `NaN`.
pub fn is_nan_bits32(bits: u32) -> (r: bool)
    ensures
        r == is_nan32(bits),
{
    (bits & MAGNITUDE_MASK32) > INFINITY_BITS32
}

/// The key of a double-precision pattern.
pub fn signed_key64(bits: u64) -> (k: i64)
    ensures
        k == key64(bits),
{
    let m: u64 = bits & MAGNITUDE_MASK64;
    assert(m <= 0x7fff_ffff_ffff_ffffu64) by (bit_vector)
        requires
            m == bits & 0x7fff_ffff_ffff_ffffu64,
    ;
    let k: i64 = m as i64;
    if bits & SIGN_MASK64 == 0 {
        k
    } else {
        -k
    }
}

/// The key of a single-precision pattern.
pub fn signed_key32(bits: u32) -> (k: i64)
    ensures
        k == key32(bits),
{
    let m: u32 = bits & MAGNITUDE_MASK32;
    assert(m <= 0x7fff_ffffu32) by (bit_vector)
        requires
            m == bits & 0x7fff_ffffu32,
    ;
    let k: i64 = m as i64;
    if bits & SIGN_MASK32 == 0 {
        k
    } else {
        -k
    }
}

/// Compares two keys as integers.
pub fn compare_keys(a: i64, b: i64) -> (r: Ordering)
    ensures
        r == order_of(int_of(a), int_of(b)),
{
    if a < b {
        Ordering::Less
    } else if a == b {
        Ordering::Equal
    } else {
        Ordering::Greater
    }
}

/// The numeric comparison of two values, each given by whether it is `NaN` and
/// by its key: unordered when either is `NaN`, else the order of the keys.
pub open spec fn numeric_order(a_nan: bool, a_key: int, b_nan: bool, b_key: int) -> Option<
    Ordering,
> {
    if a_nan || b_nan {
        None
    } else {
        Some(order_of(a_key, b_key))
    }
}

/// The numeric comparison of two values, unordered when either is `NaN`.
pub fn compare_numeric(a_nan: bool, a_key: i64, b_nan: bool, b_key: i64) -> (r: Option<Ordering>)
    ensures
        r == numeric_order(a_nan, int_of(a_key), b_nan, int_of(b_key)),
{
    if a_nan || b_nan {
        None
    } else {
        Some(compare_keys(a_key, b_key))
    }
}

/// The comparison under a ranking policy: a `NaN` equals every `NaN` and lies
/// beyond every other value, above them when `nan_greatest` holds and below
/// them otherwise; values that are not `NaN` are in the order of their keys.
pub open spec fn ranked_order(a_nan: bool, a_key: int, b_nan: bool, b_key: int, nan_greatest: bool)
    -> Ordering {
    if a_nan && b_nan {
        Ordering::Equal
    } else if a_nan {
        if nan_greatest {
            Ordering::Greater
        } else {
            Ordering::Less
        }
    } else if b_nan {
        if nan_greatest {
            Ordering::Less
        } else {
            Ordering::Greater
        }
    } else {
        order_of(a_key, b_key)
    }
}

/// Where the keys lie strictly between the two `NaN` positions, the ranked
/// comparison is the comparison of positions.
pub proof fn lemma_ranked_order_by_position(
    a_nan: bool,
    a_key: int,
    b_nan: bool,
    b_key: int,
    nan_greatest: bool,
)
    requires
        !a_nan ==> -NAN_POSITION < a_key < NAN_POSITION,
        !b_nan ==> -NAN_POSITION < b_key < NAN_POSITION,
    ensures
        ranked_order(a_nan, a_key, b_nan, b_key, nan_greatest) == order_of(
            position(a_nan, a_key, nan_greatest),
            position(b_nan, b_key, nan_greatest),
        ),
{
}

/// The comparison under a ranking policy: one branch for `NaN` on top of the
/// numeric comparison.
pub fn compare_ranked(a_nan: bool, a_key: i64, b_nan: bool, b_key: i64, nan_greatest: bool) -> (r:
    Ordering)
    ensures
        r == ranked_order(a_nan, int_of(a_key), b_nan, int_of(b_key), nan_greatest),
{
    match compare_numeric(a_nan, a_key, b_nan, b_key) {
        Some(ord) => ord,
        None => {
            if a_nan && b_nan {
                Ordering::Equal
            } else if a_nan == nan_greatest {
                Ordering::Greater
            } else {
                Ordering::Less
            }
        },
    }
}

} // verus!
