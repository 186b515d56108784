use crate::ieee::{
    compare_numeric, is_nan64, is_nan_bits64, key64, order_of, signed_key64,
};
use crate::nonnan::error::ParseNonNanError;
use crate::value::{lemma_keys_order_as_values64, scaled_value64};
use std::cmp::Ordering;
use std::num::ParseFloatError;
use vstd::prelude::*;
use vstd::std_specs::cmp::{PartialEqSpec, PartialOrdSpec};

verus! {

/// NonNan is a newtype that wraps the bit pattern of a double-precision number, guaranteeing
/// that it will never be NaN (Not A Number).  As a result, it can provide a total order, which
/// is not well-defined on floating point numbers (since `NaN` does not compare).
#[derive(Copy, Clone, Debug)]
pub struct NonNan {
    bits: u64,
}

impl View for NonNan {
    type V = u64;

    /// The wrapped bit pattern.
    closed spec fn view(&self) -> u64 {
        self.bits
    }
}

impl NonNan {
    /// The wrapped pattern is never `NaN`.
    #[verifier::type_invariant]
    pub open spec fn not_nan(self) -> bool {
        !is_nan64(self@)
    }

    /// The key of the wrapped value, by which instances are ordered.
    pub open spec fn key(self) -> int {
        key64(self@)
    }

    /// How `self` stands to `other`: as their keys stand as integers.
    pub open spec fn order(self, other: NonNan) -> Ordering {
        order_of(self.key(), other.key())
    }

    /// Create a new `NonNan` instance with the given bit pattern.  Will return `None` if
    /// the pattern is NaN.
    pub fn new(bits: u64) -> (r: Option<NonNan>)
        ensures
            r.is_none() <==> is_nan64(bits),
            r matches Some(v) ==> v@ == bits && v.not_nan(),
    {
        if is_nan_bits64(bits) {
            None
        } else {
            Some(NonNan { bits })
        }
    }

    /// The wrapped bit pattern, which is never `NaN`.
    pub fn to_bits(&self) -> (r: u64)
        ensures
            r == self@,
            !is_nan64(r),
    {
        proof {
            use_type_invariant(self);
        }
        self.bits
    }

    /// The total order: the numeric order of the wrapped values, which is
    /// never unordered since neither is `NaN`.
    pub fn cmp(&self, other: &NonNan) -> (r: Ordering)
        ensures
            r == self.order(*other),
    {
        proof {
            use_type_invariant(self);
            use_type_invariant(other);
        }
        let ord = compare_numeric(
            is_nan_bits64(self.bits),
            signed_key64(self.bits),
            is_nan_bits64(other.bits),
            signed_key64(other.bits),
        );
        match ord {
            Some(o) => o,
            None => unreached(),
        }
    }

    /// Applies the acceptance rule to the outcome of parsing a literal: a
    /// syntactic failure is passed on, a `NaN` is refused, every other value
    /// is wrapped.
    pub fn from_parsed(parsed: Result<u64, ParseFloatError>) -> (r: Result<NonNan, ParseNonNanError>)
        ensures
            match parsed {
                Err(e) => r == Err::<NonNan, ParseNonNanError>(ParseNonNanError::ParseError(e)),
                Ok(bits) => if is_nan64(bits) {
                    r == Err::<NonNan, ParseNonNanError>(ParseNonNanError::ValueIsNaN)
                } else {
                    r matches Ok(v) && v@ == bits && v.not_nan()
                },
            },
    {
        match parsed {
            Err(e) => Err(ParseNonNanError::ParseError(e)),
            Ok(bits) => match NonNan::new(bits) {
                None => Err(ParseNonNanError::ValueIsNaN),
                Some(v) => Ok(v),
            },
        }
    }
}

/// The order of two instances is the numeric order of the values they wrap:
/// one is below the other exactly when its value is the smaller, and `==`
/// holds exactly when the values are equal.
pub proof fn lemma_order_is_numeric(a: NonNan, b: NonNan)
    requires
        a.not_nan(),
        b.not_nan(),
    ensures
        a.order(b) == order_of(scaled_value64(a@), scaled_value64(b@)),
        a.order(b) == Ordering::Less <==> scaled_value64(a@) < scaled_value64(b@),
        a.eq_spec(&b) <==> scaled_value64(a@) == scaled_value64(b@),
        a.partial_cmp_spec(&b) == Some(a.order(b)),
{
    lemma_keys_order_as_values64(a@, b@);
}

/// An instance made from the pattern of another compares equal to it.
pub proof fn lemma_same_pattern_is_equal(a: NonNan, b: NonNan)
    requires
        a@ == b@,
    ensures
        a.order(b) == Ordering::Equal,
        a.eq_spec(&b),
{
}

/// No instance is below itself.
pub proof fn lemma_order_irreflexive(a: NonNan)
    ensures
        a.order(a) == Ordering::Equal,
        a.order(a) != Ordering::Less,
{
}

/// If `a` is below `b` and `b` is below `c`, then `a` is below `c`.
pub proof fn lemma_order_transitive(a: NonNan, b: NonNan, c: NonNan)
    requires
        a.order(b) == Ordering::Less,
        b.order(c) == Ordering::Less,
    ensures
        a.order(c) == Ordering::Less,
{
}

/// If `a` is below `b`, then `b` is above `a` and not below it; two instances
/// that are each not below the other are equal.
pub proof fn lemma_order_antisymmetric(a: NonNan, b: NonNan)
    ensures
        a.order(b) == Ordering::Less <==> b.order(a) == Ordering::Greater,
        a.order(b) == Ordering::Less ==> b.order(a) != Ordering::Less,
        a.order(b) != Ordering::Less && b.order(a) != Ordering::Less ==> a.eq_spec(&b),
{
}

/// Of any two instances exactly one holds: the first is below the second, they
/// are equal, or the second is below the first.
pub proof fn lemma_order_total(a: NonNan, b: NonNan)
    ensures
        a.order(b) == Ordering::Less || a.eq_spec(&b) || b.order(a) == Ordering::Less,
        !(a.order(b) == Ordering::Less && a.eq_spec(&b)),
        !(b.order(a) == Ordering::Less && a.eq_spec(&b)),
        !(a.order(b) == Ordering::Less && b.order(a) == Ordering::Less),
{
}

impl PartialEq for NonNan {
    fn eq(&self, other: &NonNan) -> (r: bool) {
        signed_key64(self.bits) == signed_key64(other.bits)
    }
}

impl vstd::std_specs::cmp::PartialEqSpecImpl for NonNan {
    open spec fn obeys_eq_spec() -> bool {
        true
    }

    open spec fn eq_spec(&self, other: &NonNan) -> bool {
        self.key() == other.key()
    }
}

impl Eq for NonNan {

}

impl PartialOrd for NonNan {
    fn partial_cmp(&self, other: &NonNan) -> (r: Option<Ordering>) {
        Some(self.cmp(other))
    }
}

impl vstd::std_specs::cmp::PartialOrdSpecImpl for NonNan {
    open spec fn obeys_partial_cmp_spec() -> bool {
        true
    }

    open spec fn partial_cmp_spec(&self, other: &NonNan) -> Option<Ordering> {
        Some(self.order(*other))
    }
}

impl Default for NonNan {
    /// Positive zero.
    fn default() -> (r: NonNan)
        ensures
            r@ == 0,
            r.not_nan(),
    {
        assert(!is_nan64(0u64)) by (bit_vector);
        NonNan { bits: 0 }
    }
}

} // verus!
