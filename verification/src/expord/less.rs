use crate::ieee::{
    compare_ranked, is_nan32, is_nan64, is_nan_bits32, is_nan_bits64, key32, key64,
    lemma_key32_within_positions, lemma_key64_within_positions, lemma_ranked_order_by_position,
    order_of, position, ranked_order, signed_key32, signed_key64,
};
use crate::value::{
    lemma_keys_order_as_values32, lemma_keys_order_as_values64, scaled_value32, scaled_value64,
};
use std::cmp::Ordering;
use std::num::ParseFloatError;
use vstd::prelude::*;
use vstd::std_specs::cmp::{PartialEqSpec, PartialOrdSpec};

verus! {

/// This is a newtype that wraps the bit pattern of a single-precision number, providing a
/// total order such that `NaN` will be ordered less than all other floats.
#[derive(Copy, Clone, Debug)]
pub struct LessNan32 {
    bits: u32,
}

impl View for LessNan32 {
    type V = u32;

    /// The wrapped bit pattern.
    closed spec fn view(&self) -> u32 {
        self.bits
    }
}

impl LessNan32 {
    /// Whether the wrapped value is `NaN`.
    pub open spec fn holds_nan(self) -> bool {
        is_nan32(self@)
    }

    /// The position of the wrapped value in the total order: its key in the
    /// numeric order, or for `NaN` the position below every key.
    pub open spec fn position(self) -> int {
        position(self.holds_nan(), key32(self@), false)
    }

    /// How `self` stands to `other` in the total order.
    pub open spec fn order(self, other: LessNan32) -> Ordering {
        order_of(self.position(), other.position())
    }

    /// Create a new instance with the given bit pattern.
    pub fn new(bits: u32) -> (r: LessNan32)
        ensures
            r@ == bits,
    {
        LessNan32 { bits }
    }

    /// The wrapped bit pattern.
    pub fn to_bits(&self) -> (r: u32)
        ensures
            r == self@,
    {
        self.bits
    }

    /// Whether the wrapped value is `NaN`.
    pub fn is_nan(&self) -> (r: bool)
        ensures
            r == self.holds_nan(),
    {
        is_nan_bits32(self.bits)
    }

    /// The total order: `NaN` equals `NaN` and is less than every other
    /// value; all other values are in numeric order.
    pub fn cmp(&self, other: &LessNan32) -> (r: Ordering)
        ensures
            r == self.order(*other),
            self.holds_nan() && other.holds_nan() ==> r == Ordering::Equal,
            self.holds_nan() && !other.holds_nan() ==> r == Ordering::Less,
            !self.holds_nan() && other.holds_nan() ==> r == Ordering::Greater,
            !self.holds_nan() && !other.holds_nan() ==> r == order_of(
                key32(self@),
                key32(other@),
            ),
    {
        proof {
            LessNan32::lemma_order_by_cases(*self, *other);
        }
        compare_ranked(
            is_nan_bits32(self.bits),
            signed_key32(self.bits),
            is_nan_bits32(other.bits),
            signed_key32(other.bits),
            false,
        )
    }

    /// Applies the acceptance rule to the outcome of parsing a literal: a
    /// syntactic failure is passed on, every value is wrapped, `NaN` too.
    pub fn from_parsed(parsed: Result<u32, ParseFloatError>) -> (r: Result<LessNan32, ParseFloatError>)
        ensures
            match parsed {
                Err(e) => r == Err::<LessNan32, ParseFloatError>(e),
                Ok(bits) => r matches Ok(v) && v@ == bits,
            },
    {
        match parsed {
            Err(e) => Err(e),
            Ok(bits) => Ok(LessNan32::new(bits)),
        }
    }

    /// The order of positions is the order that the policy gives case by case.
    pub proof fn lemma_order_by_cases(a: LessNan32, b: LessNan32)
        ensures
            a.order(b) == ranked_order(
                a.holds_nan(),
                key32(a@),
                b.holds_nan(),
                key32(b@),
                false,
            ),
    {
        if !a.holds_nan() {
            lemma_key32_within_positions(a@);
        }
        if !b.holds_nan() {
            lemma_key32_within_positions(b@);
        }
        lemma_ranked_order_by_position(
            a.holds_nan(),
            key32(a@),
            b.holds_nan(),
            key32(b@),
            false,
        );
    }

    /// A `NaN` is less than every instance that is not `NaN`.
    pub proof fn lemma_nan_is_least(nan: LessNan32, other: LessNan32)
        requires
            nan.holds_nan(),
            !other.holds_nan(),
        ensures
            nan.order(other) == Ordering::Less,
            other.order(nan) == Ordering::Greater,
            nan.partial_cmp_spec(&other) == Some(Ordering::Less),
    {
        lemma_key32_within_positions(other@);
    }

    /// Two `NaN` instances compare equal.
    pub proof fn lemma_nans_are_equal(a: LessNan32, b: LessNan32)
        requires
            a.holds_nan(),
            b.holds_nan(),
        ensures
            a.order(b) == Ordering::Equal,
            a.eq_spec(&b),
    {
    }

    /// An instance made from the pattern of another compares equal to it, and
    /// so does one made from any `NaN` pattern where the other holds `NaN`.
    pub proof fn lemma_same_value_is_equal(a: LessNan32, b: LessNan32)
        requires
            a@ == b@ || (a.holds_nan() && b.holds_nan()),
        ensures
            a.order(b) == Ordering::Equal,
            a.eq_spec(&b),
    {
    }

    /// Instances that are not `NaN` are in the numeric order of their values.
    pub proof fn lemma_numbers_in_numeric_order(a: LessNan32, b: LessNan32)
        requires
            !a.holds_nan(),
            !b.holds_nan(),
        ensures
            a.order(b) == order_of(scaled_value32(a@), scaled_value32(b@)),
            a.order(b) == order_of(key32(a@), key32(b@)),
    {
        lemma_keys_order_as_values32(a@, b@);
    }

    /// The order is total: reversed when the operands are swapped, transitive,
    /// and equal exactly on instances that `==` holds of.
    pub proof fn lemma_order_total(a: LessNan32, b: LessNan32, c: LessNan32)
        ensures
            a.order(a) == Ordering::Equal,
            a.order(b) == Ordering::Less <==> b.order(a) == Ordering::Greater,
            a.order(b) == Ordering::Equal <==> a.eq_spec(&b),
            a.order(b) == Ordering::Less && b.order(c) == Ordering::Less ==> a.order(c)
                == Ordering::Less,
    {
    }

    /// In a sequence sorted in ascending order every `NaN` instance stands
    /// strictly before every instance that is not `NaN`.
    pub proof fn lemma_sorted_nans_first(s: Seq<LessNan32>)
        requires
            forall|i: int, j: int| 0 <= i < j < s.len() ==> s[i].order(s[j]) != Ordering::Greater,
        ensures
            forall|i: int, j: int|
                0 <= i < s.len() && 0 <= j < s.len() && s[i].holds_nan() && !s[j].holds_nan()
                    ==> i < j,
    {
        assert forall|i: int, j: int|
            0 <= i < s.len() && 0 <= j < s.len() && s[i].holds_nan() && !s[j].holds_nan()
            implies i < j by {
            LessNan32::lemma_nan_is_least(s[i], s[j]);
        }
    }
}

impl PartialEq for LessNan32 {
    fn eq(&self, other: &LessNan32) -> (r: bool) {
        match self.cmp(other) {
            Ordering::Equal => true,
            _ => false,
        }
    }
}

impl vstd::std_specs::cmp::PartialEqSpecImpl for LessNan32 {
    open spec fn obeys_eq_spec() -> bool {
        true
    }

    open spec fn eq_spec(&self, other: &LessNan32) -> bool {
        self.position() == other.position()
    }
}

impl Eq for LessNan32 {

}

impl PartialOrd for LessNan32 {
    fn partial_cmp(&self, other: &LessNan32) -> (r: Option<Ordering>) {
        Some(self.cmp(other))
    }
}

impl vstd::std_specs::cmp::PartialOrdSpecImpl for LessNan32 {
    open spec fn obeys_partial_cmp_spec() -> bool {
        true
    }

    open spec fn partial_cmp_spec(&self, other: &LessNan32) -> Option<Ordering> {
        Some(self.order(*other))
    }
}

impl Default for LessNan32 {
    /// Positive zero.
    fn default() -> (r: LessNan32)
        ensures
            r@ == 0,
    {
        LessNan32 { bits: 0 }
    }
}

/// This is a newtype that wraps the bit pattern of a double-precision number, providing a
/// total order such that `NaN` will be ordered less than all other floats.
#[derive(Copy, Clone, Debug)]
pub struct LessNan64 {
    bits: u64,
}

impl View for LessNan64 {
    type V = u64;

    /// The wrapped bit pattern.
    closed spec fn view(&self) -> u64 {
        self.bits
    }
}

impl LessNan64 {
    /// Whether the wrapped value is `NaN`.
    pub open spec fn holds_nan(self) -> bool {
        is_nan64(self@)
    }

    /// The position of the wrapped value in the total order: its key in the
    /// numeric order, or for `NaN` the position below every key.
    pub open spec fn position(self) -> int {
        position(self.holds_nan(), key64(self@), false)
    }

    /// How `self` stands to `other` in the total order.
    pub open spec fn order(self, other: LessNan64) -> Ordering {
        order_of(self.position(), other.position())
    }

    /// Create a new instance with the given bit pattern.
    pub fn new(bits: u64) -> (r: LessNan64)
        ensures
            r@ == bits,
    {
        LessNan64 { bits }
    }

    /// The wrapped bit pattern.
    pub fn to_bits(&self) -> (r: u64)
        ensures
            r == self@,
    {
        self.bits
    }

    /// Whether the wrapped value is `NaN`.
    pub fn is_nan(&self) -> (r: bool)
        ensures
            r == self.holds_nan(),
    {
        is_nan_bits64(self.bits)
    }

    /// The total order: `NaN` equals `NaN` and is less than every other
    /// value; all other values are in numeric order.
    pub fn cmp(&self, other: &LessNan64) -> (r: Ordering)
        ensures
            r == self.order(*other),
            self.holds_nan() && other.holds_nan() ==> r == Ordering::Equal,
            self.holds_nan() && !other.holds_nan() ==> r == Ordering::Less,
            !self.holds_nan() && other.holds_nan() ==> r == Ordering::Greater,
            !self.holds_nan() && !other.holds_nan() ==> r == order_of(
                key64(self@),
                key64(other@),
            ),
    {
        proof {
            LessNan64::lemma_order_by_cases(*self, *other);
        }
        compare_ranked(
            is_nan_bits64(self.bits),
            signed_key64(self.bits),
            is_nan_bits64(other.bits),
            signed_key64(other.bits),
            false,
        )
    }

    /// Applies the acceptance rule to the outcome of parsing a literal: a
    /// syntactic failure is passed on, every value is wrapped, `NaN` too.
    pub fn from_parsed(parsed: Result<u64, ParseFloatError>) -> (r: Result<LessNan64, ParseFloatError>)
        ensures
            match parsed {
                Err(e) => r == Err::<LessNan64, ParseFloatError>(e),
                Ok(bits) => r matches Ok(v) && v@ == bits,
            },
    {
        match parsed {
            Err(e) => Err(e),
            Ok(bits) => Ok(LessNan64::new(bits)),
        }
    }

    /// The order of positions is the order that the policy gives case by case.
    pub proof fn lemma_order_by_cases(a: LessNan64, b: LessNan64)
        ensures
            a.order(b) == ranked_order(
                a.holds_nan(),
                key64(a@),
                b.holds_nan(),
                key64(b@),
                false,
            ),
    {
        if !a.holds_nan() {
            lemma_key64_within_positions(a@);
        }
        if !b.holds_nan() {
            lemma_key64_within_positions(b@);
        }
        lemma_ranked_order_by_position(
            a.holds_nan(),
            key64(a@),
            b.holds_nan(),
            key64(b@),
            false,
        );
    }

    /// A `NaN` is less than every instance that is not `NaN`.
    pub proof fn lemma_nan_is_least(nan: LessNan64, other: LessNan64)
        requires
            nan.holds_nan(),
            !other.holds_nan(),
        ensures
            nan.order(other) == Ordering::Less,
            other.order(nan) == Ordering::Greater,
            nan.partial_cmp_spec(&other) == Some(Ordering::Less),
    {
        lemma_key64_within_positions(other@);
    }

    /// Two `NaN` instances compare equal.
    pub proof fn lemma_nans_are_equal(a: LessNan64, b: LessNan64)
        requires
            a.holds_nan(),
            b.holds_nan(),
        ensures
            a.order(b) == Ordering::Equal,
            a.eq_spec(&b),
    {
    }

    /// An instance made from the pattern of another compares equal to it, and
    /// so does one made from any `NaN` pattern where the other holds `NaN`.
    pub proof fn lemma_same_value_is_equal(a: LessNan64, b: LessNan64)
        requires
            a@ == b@ || (a.holds_nan() && b.holds_nan()),
        ensures
            a.order(b) == Ordering::Equal,
            a.eq_spec(&b),
    {
    }

    /// Instances that are not `NaN` are in the numeric order of their values.
    pub proof fn lemma_numbers_in_numeric_order(a: LessNan64, b: LessNan64)
        requires
            !a.holds_nan(),
            !b.holds_nan(),
        ensures
            a.order(b) == order_of(scaled_value64(a@), scaled_value64(b@)),
            a.order(b) == order_of(key64(a@), key64(b@)),
    {
        lemma_keys_order_as_values64(a@, b@);
    }

    /// The order is total: reversed when the operands are swapped, transitive,
    /// and equal exactly on instances that `==` holds of.
    pub proof fn lemma_order_total(a: LessNan64, b: LessNan64, c: LessNan64)
        ensures
            a.order(a) == Ordering::Equal,
            a.order(b) == Ordering::Less <==> b.order(a) == Ordering::Greater,
            a.order(b) == Ordering::Equal <==> a.eq_spec(&b),
            a.order(b) == Ordering::Less && b.order(c) == Ordering::Less ==> a.order(c)
                == Ordering::Less,
    {
    }

    /// In a sequence sorted in ascending order every `NaN` instance stands
    /// strictly before every instance that is not `NaN`.
    pub proof fn lemma_sorted_nans_first(s: Seq<LessNan64>)
        requires
            forall|i: int, j: int| 0 <= i < j < s.len() ==> s[i].order(s[j]) != Ordering::Greater,
        ensures
            forall|i: int, j: int|
                0 <= i < s.len() && 0 <= j < s.len() && s[i].holds_nan() && !s[j].holds_nan()
                    ==> i < j,
    {
        assert forall|i: int, j: int|
            0 <= i < s.len() && 0 <= j < s.len() && s[i].holds_nan() && !s[j].holds_nan()
            implies i < j by {
            LessNan64::lemma_nan_is_least(s[i], s[j]);
        }
    }
}

impl PartialEq for LessNan64 {
    fn eq(&self, other: &LessNan64) -> (r: bool) {
        match self.cmp(other) {
            Ordering::Equal => true,
            _ => false,
        }
    }
}

impl vstd::std_specs::cmp::PartialEqSpecImpl for LessNan64 {
    open spec fn obeys_eq_spec() -> bool {
        true
    }

    open spec fn eq_spec(&self, other: &LessNan64) -> bool {
        self.position() == other.position()
    }
}

impl Eq for LessNan64 {

}

impl PartialOrd for LessNan64 {
    fn partial_cmp(&self, other: &LessNan64) -> (r: Option<Ordering>) {
        Some(self.cmp(other))
    }
}

impl vstd::std_specs::cmp::PartialOrdSpecImpl for LessNan64 {
    open spec fn obeys_partial_cmp_spec() -> bool {
        true
    }

    open spec fn partial_cmp_spec(&self, other: &LessNan64) -> Option<Ordering> {
        Some(self.order(*other))
    }
}

impl Default for LessNan64 {
    /// Positive zero.
    fn default() -> (r: LessNan64)
        ensures
            r@ == 0,
    {
        LessNan64 { bits: 0 }
    }
}

} // verus!
