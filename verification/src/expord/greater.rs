use crate::ieee::{
    compare_ranked, is_nan32, is_nan64, is_nan_bits32, is_nan_bits64, key32, key64,
    lemma_key32_within_positions, lemma_key64_within_positions, lemma_ranked_order_by_position,
    order_of, position, ranked_order, signed_key32, signed_key64,
};
use crate::value::{
    lemma_keys_order_as_values32, lemma_keys_order_as_values64, scaled_value32, scaled_value64,
};
use std::cmp::Ordering;
use std::num::ParseFloatError;
use vstd::prelude::*;
use vstd::std_specs::cmp::{PartialEqSpec, PartialOrdSpec};

verus! {

/// This is a newtype that wraps the bit pattern of a single-precision number, providing a
/// total order such that `NaN` will be ordered greater than all other floats.
#[derive(Copy, Clone, Debug)]
pub struct GreaterNan32 {
    bits: u32,
}

impl View for GreaterNan32 {
    type V = u32;

    /// The wrapped bit pattern.
    closed spec fn view(&self) -> u32 {
        self.bits
    }
}

impl GreaterNan32 {
    /// Whether the wrapped value is `NaN`.
    pub open spec fn holds_nan(self) -> bool {
        is_nan32(self@)
    }

    /// The position of the wrapped value in the total order: its key in the
    /// numeric order, or for `NaN` the position above every key.
    pub open spec fn position(self) -> int {
        position(self.holds_nan(), key32(self@), true)
    }

    /// How `self` stands to `other` in the total order.
    pub open spec fn order(self, other: GreaterNan32) -> Ordering {
        order_of(self.position(), other.position())
    }

    /// Create a new instance with the given bit pattern.
    pub fn new(bits: u32) -> (r: GreaterNan32)
        ensures
            r@ == bits,
    {
        GreaterNan32 { bits }
    }

    /// The wrapped bit pattern.
    pub fn to_bits(&self) -> (r: u32)
        ensures
            r == self@,
    {
        self.bits
    }

    /// Whether the wrapped value is `NaN`.
    pub fn is_nan(&self) -> (r: bool)
        ensures
            r == self.holds_nan(),
    {
        is_nan_bits32(self.bits)
    }

    /// The total order: `NaN` equals `NaN` and is greater than every other
    /// value; all other values are in numeric order.
    pub fn cmp(&self, other: &GreaterNan32) -> (r: Ordering)
        ensures
            r == self.order(*other),
            self.holds_nan() && other.holds_nan() ==> r == Ordering::Equal,
            self.holds_nan() && !other.holds_nan() ==> r == Ordering::Greater,
            !self.holds_nan() && other.holds_nan() ==> r == Ordering::Less,
            !self.holds_nan() && !other.holds_nan() ==> r == order_of(
                key32(self@),
                key32(other@),
            ),
    {
        proof {
            GreaterNan32::lemma_order_by_cases(*self, *other);
        }
        compare_ranked(
            is_nan_bits32(self.bits),
            signed_key32(self.bits),
            is_nan_bits32(other.bits),
            signed_key32(other.bits),
            true,
        )
    }

    /// Applies the acceptance rule to the outcome of parsing a literal: a
    /// syntactic failure is passed on, every value is wrapped, `NaN` too.
    pub fn from_parsed(parsed: Result<u32, ParseFloatError>) -> (r: Result<GreaterNan32, ParseFloatError>)
        ensures
            match parsed {
                Err(e) => r == Err::<GreaterNan32, ParseFloatError>(e),
                Ok(bits) => r matches Ok(v) && v@ == bits,
            },
    {
        match parsed {
            Err(e) => Err(e),
            Ok(bits) => Ok(GreaterNan32::new(bits)),
        }
    }

    /// The order of positions is the order that the policy gives case by case.
    pub proof fn lemma_order_by_cases(a: GreaterNan32, b: GreaterNan32)
        ensures
            a.order(b) == ranked_order(
                a.holds_nan(),
                key32(a@),
                b.holds_nan(),
                key32(b@),
                true,
            ),
    {
        if !a.holds_nan() {
            lemma_key32_within_positions(a@);
        }
        if !b.holds_nan() {
            lemma_key32_within_positions(b@);
        }
        lemma_ranked_order_by_position(
            a.holds_nan(),
            key32(a@),
            b.holds_nan(),
            key32(b@),
            true,
        );
    }

    /// A `NaN` is greater than every instance that is not `NaN`.
    pub proof fn lemma_nan_is_greatest(nan: GreaterNan32, other: GreaterNan32)
        requires
            nan.holds_nan(),
            !other.holds_nan(),
        ensures
            nan.order(other) == Ordering::Greater,
            other.order(nan) == Ordering::Less,
            nan.partial_cmp_spec(&other) == Some(Ordering::Greater),
    {
        lemma_key32_within_positions(other@);
    }

    /// Two `NaN` instances compare equal.
    pub proof fn lemma_nans_are_equal(a: GreaterNan32, b: GreaterNan32)
        requires
            a.holds_nan(),
            b.holds_nan(),
        ensures
            a.order(b) == Ordering::Equal,
            a.eq_spec(&b),
    {
    }

    /// An instance made from the pattern of another compares equal to it, and
    /// so does one made from any `NaN` pattern where the other holds `NaN`.
    pub proof fn lemma_same_value_is_equal(a: GreaterNan32, b: GreaterNan32)
        requires
            a@ == b@ || (a.holds_nan() && b.holds_nan()),
        ensures
            a.order(b) == Ordering::Equal,
            a.eq_spec(&b),
    {
    }

    /// Instances that are not `NaN` are in the numeric order of their values.
    pub proof fn lemma_numbers_in_numeric_order(a: GreaterNan32, b: GreaterNan32)
        requires
            !a.holds_nan(),
            !b.holds_nan(),
        ensures
            a.order(b) == order_of(scaled_value32(a@), scaled_value32(b@)),
            a.order(b) == order_of(key32(a@), key32(b@)),
    {
        lemma_keys_order_as_values32(a@, b@);
    }

    /// The order is total: reversed when the operands are swapped, transitive,
    /// and equal exactly on instances that `==` holds of.
    pub proof fn lemma_order_total(a: GreaterNan32, b: GreaterNan32, c: GreaterNan32)
        ensures
            a.order(a) == Ordering::Equal,
            a.order(b) == Ordering::Less <==> b.order(a) == Ordering::Greater,
            a.order(b) == Ordering::Equal <==> a.eq_spec(&b),
            a.order(b) == Ordering::Less && b.order(c) == Ordering::Less ==> a.order(c)
                == Ordering::Less,
    {
    }

    /// In a sequence sorted in ascending order every `NaN` instance stands
    /// strictly after every instance that is not `NaN`.
    pub proof fn lemma_sorted_nans_last(s: Seq<GreaterNan32>)
        requires
            forall|i: int, j: int| 0 <= i < j < s.len() ==> s[i].order(s[j]) != Ordering::Greater,
        ensures
            forall|i: int, j: int|
                0 <= i < s.len() && 0 <= j < s.len() && s[i].holds_nan() && !s[j].holds_nan()
                    ==> j < i,
    {
        assert forall|i: int, j: int|
            0 <= i < s.len() && 0 <= j < s.len() && s[i].holds_nan() && !s[j].holds_nan()
            implies j < i by {
            GreaterNan32::lemma_nan_is_greatest(s[i], s[j]);
        }
    }
}

impl PartialEq for GreaterNan32 {
    fn eq(&self, other: &GreaterNan32) -> (r: bool) {
        match self.cmp(other) {
            Ordering::Equal => true,
            _ => false,
        }
    }
}

impl vstd::std_specs::cmp::PartialEqSpecImpl for GreaterNan32 {
    open spec fn obeys_eq_spec() -> bool {
        true
    }

    open spec fn eq_spec(&self, other: &GreaterNan32) -> bool {
        self.position() == other.position()
    }
}

impl Eq for GreaterNan32 {

}

impl PartialOrd for GreaterNan32 {
    fn partial_cmp(&self, other: &GreaterNan32) -> (r: Option<Ordering>) {
        Some(self.cmp(other))
    }
}

impl vstd::std_specs::cmp::PartialOrdSpecImpl for GreaterNan32 {
    open spec fn obeys_partial_cmp_spec() -> bool {
        true
    }

    open spec fn partial_cmp_spec(&self, other: &GreaterNan32) -> Option<Ordering> {
        Some(self.order(*other))
    }
}

impl Default for GreaterNan32 {
    /// Positive zero.
    fn default() -> (r: GreaterNan32)
        ensures
            r@ == 0,
    {
        GreaterNan32 { bits: 0 }
    }
}

/// This is a newtype that wraps the bit pattern of a double-precision number, providing a
/// total order such that `NaN` will be ordered greater than all other floats.
#[derive(Copy, Clone, Debug)]
pub struct GreaterNan64 {
    bits: u64,
}

impl View for GreaterNan64 {
    type V = u64;

    /// The wrapped bit pattern.
    closed spec fn view(&self) -> u64 {
        self.bits
    }
}

impl GreaterNan64 {
    /// Whether the wrapped value is `NaN`.
    pub open spec fn holds_nan(self) -> bool {
        is_nan64(self@)
    }

    /// The position of the wrapped value in the total order: its key in the
    /// numeric order, or for `NaN` the position above every key.
    pub open spec fn position(self) -> int {
        position(self.holds_nan(), key64(self@), true)
    }

    /// How `self` stands to `other` in the total order.
    pub open spec fn order(self, other: GreaterNan64) -> Ordering {
        order_of(self.position(), other.position())
    }

    /// Create a new instance with the given bit pattern.
    pub fn new(bits: u64) -> (r: GreaterNan64)
        ensures
            r@ == bits,
    {
        GreaterNan64 { bits }
    }

    /// The wrapped bit pattern.
    pub fn to_bits(&self) -> (r: u64)
        ensures
            r == self@,
    {
        self.bits
    }

    /// Whether the wrapped value is `NaN`.
    pub fn is_nan(&self) -> (r: bool)
        ensures
            r == self.holds_nan(),
    {
        is_nan_bits64(self.bits)
    }

    /// The total order: `NaN` equals `NaN` and is greater than every other
    /// value; all other values are in numeric order.
    pub fn cmp(&self, other: &GreaterNan64) -> (r: Ordering)
        ensures
            r == self.order(*other),
            self.holds_nan() && other.holds_nan() ==> r == Ordering::Equal,
            self.holds_nan() && !other.holds_nan() ==> r == Ordering::Greater,
            !self.holds_nan() && other.holds_nan() ==> r == Ordering::Less,
            !self.holds_nan() && !other.holds_nan() ==> r == order_of(
                key64(self@),
                key64(other@),
            ),
    {
        proof {
            GreaterNan64::lemma_order_by_cases(*self, *other);
        }
        compare_ranked(
            is_nan_bits64(self.bits),
            signed_key64(self.bits),
            is_nan_bits64(other.bits),
            signed_key64(other.bits),
            true,
        )
    }

    /// Applies the acceptance rule to the outcome of parsing a literal: a
    /// syntactic failure is passed on, every value is wrapped, `NaN` too.
    pub fn from_parsed(parsed: Result<u64, ParseFloatError>) -> (r: Result<GreaterNan64, ParseFloatError>)
        ensures
            match parsed {
                Err(e) => r == Err::<GreaterNan64, ParseFloatError>(e),
                Ok(bits) => r matches Ok(v) && v@ == bits,
            },
    {
        match parsed {
            Err(e) => Err(e),
            Ok(bits) => Ok(GreaterNan64::new(bits)),
        }
    }

    /// The order of positions is the order that the policy gives case by case.
    pub proof fn lemma_order_by_cases(a: GreaterNan64, b: GreaterNan64)
        ensures
            a.order(b) == ranked_order(
                a.holds_nan(),
                key64(a@),
                b.holds_nan(),
                key64(b@),
                true,
            ),
    {
        if !a.holds_nan() {
            lemma_key64_within_positions(a@);
        }
        if !b.holds_nan() {
            lemma_key64_within_positions(b@);
        }
        lemma_ranked_order_by_position(
            a.holds_nan(),
            key64(a@),
            b.holds_nan(),
            key64(b@),
            true,
        );
    }

    /// A `NaN` is greater than every instance that is not `NaN`.
    pub proof fn lemma_nan_is_greatest(nan: GreaterNan64, other: GreaterNan64)
        requires
            nan.holds_nan(),
            !other.holds_nan(),
        ensures
            nan.order(other) == Ordering::Greater,
            other.order(nan) == Ordering::Less,
            nan.partial_cmp_spec(&other) == Some(Ordering::Greater),
    {
        lemma_key64_within_positions(other@);
    }

    /// Two `NaN` instances compare equal.
    pub proof fn lemma_nans_are_equal(a: GreaterNan64, b: GreaterNan64)
        requires
            a.holds_nan(),
            b.holds_nan(),
        ensures
            a.order(b) == Ordering::Equal,
            a.eq_spec(&b),
    {
    }

    /// An instance made from the pattern of another compares equal to it, and
    /// so does one made from any `NaN` pattern where the other holds `NaN`.
    pub proof fn lemma_same_value_is_equal(a: GreaterNan64, b: GreaterNan64)
        requires
            a@ == b@ || (a.holds_nan() && b.holds_nan()),
        ensures
            a.order(b) == Ordering::Equal,
            a.eq_spec(&b),
    {
    }

    /// Instances that are not `NaN` are in the numeric order of their values.
    pub proof fn lemma_numbers_in_numeric_order(a: GreaterNan64, b: GreaterNan64)
        requires
            !a.holds_nan(),
            !b.holds_nan(),
        ensures
            a.order(b) == order_of(scaled_value64(a@), scaled_value64(b@)),
            a.order(b) == order_of(key64(a@), key64(b@)),
    {
        lemma_keys_order_as_values64(a@, b@);
    }

    /// The order is total: reversed when the operands are swapped, transitive,
    /// and equal exactly on instances that `==` holds of.
    pub proof fn lemma_order_total(a: GreaterNan64, b: GreaterNan64, c: GreaterNan64)
        ensures
            a.order(a) == Ordering::Equal,
            a.order(b) == Ordering::Less <==> b.order(a) == Ordering::Greater,
            a.order(b) == Ordering::Equal <==> a.eq_spec(&b),
            a.order(b) == Ordering::Less && b.order(c) == Ordering::Less ==> a.order(c)
                == Ordering::Less,
    {
    }

    /// In a sequence sorted in ascending order every `NaN` instance stands
    /// strictly after every instance that is not `NaN`.
    pub proof fn lemma_sorted_nans_last(s: Seq<GreaterNan64>)
        requires
            forall|i: int, j: int| 0 <= i < j < s.len() ==> s[i].order(s[j]) != Ordering::Greater,
        ensures
            forall|i: int, j: int|
                0 <= i < s.len() && 0 <= j < s.len() && s[i].holds_nan() && !s[j].holds_nan()
                    ==> j < i,
    {
        assert forall|i: int, j: int|
            0 <= i < s.len() && 0 <= j < s.len() && s[i].holds_nan() && !s[j].holds_nan()
            implies j < i by {
            GreaterNan64::lemma_nan_is_greatest(s[i], s[j]);
        }
    }
}

impl PartialEq for GreaterNan64 {
    fn eq(&self, other: &GreaterNan64) -> (r: bool) {
        match self.cmp(other) {
            Ordering::Equal => true,
            _ => false,
        }
    }
}

impl vstd::std_specs::cmp::PartialEqSpecImpl for GreaterNan64 {
    open spec fn obeys_eq_spec() -> bool {
        true
    }

    open spec fn eq_spec(&self, other: &GreaterNan64) -> bool {
        self.position() == other.position()
    }
}

impl Eq for GreaterNan64 {

}

impl PartialOrd for GreaterNan64 {
    fn partial_cmp(&self, other: &GreaterNan64) -> (r: Option<Ordering>) {
        Some(self.cmp(other))
    }
}

impl vstd::std_specs::cmp::PartialOrdSpecImpl for GreaterNan64 {
    open spec fn obeys_partial_cmp_spec() -> bool {
        true
    }

    open spec fn partial_cmp_spec(&self, other: &GreaterNan64) -> Option<Ordering> {
        Some(self.order(*other))
    }
}

impl Default for GreaterNan64 {
    /// Positive zero.
    fn default() -> (r: GreaterNan64)
        ensures
            r@ == 0,
    {
        GreaterNan64 { bits: 0 }
    }
}

} // verus!
