use std::cmp::Ordering;
use vstd::prelude::*;

verus! {

/// The bit pattern of a binary16 value that is neither infinite nor NaN: its exponent field is
/// not all ones.
pub open spec fn f16_bits_finite(bits: u16) -> bool {
    bits & 0x7c00u16 != 0x7c00u16
}

/// The bit pattern of a binary16 NaN: all-ones exponent and a non-zero fraction.
pub open spec fn f16_bits_nan(bits: u16) -> bool {
    bits & 0x7fffu16 > 0x7c00u16
}

/// The position of a non-NaN binary16 value on the number line, as an integer key: the
/// magnitude bits, negated when the sign bit is set. Both zeros have key 0.
pub open spec fn f16_order_key(bits: u16) -> int {
    if bits & 0x8000u16 != 0 {
        -((bits & 0x7fffu16) as int)
    } else {
        (bits & 0x7fffu16) as int
    }
}

/// IEEE 754 equality of two binary16 bit patterns: NaN equals nothing, and other values are
/// equal exactly when they sit at the same point, so `-0.0 == 0.0`.
pub open spec fn f16_bits_equal(a: u16, b: u16) -> bool {
    &&& !f16_bits_nan(a)
    &&& !f16_bits_nan(b)
    &&& f16_order_key(a) == f16_order_key(b)
}

/// IEEE 754 partial order of two binary16 bit patterns: `None` when either is NaN, else the
/// order of their keys.
pub open spec fn f16_bits_order(a: u16, b: u16) -> Option<Ordering> {
    if f16_bits_nan(a) || f16_bits_nan(b) {
        None
    } else if f16_order_key(a) < f16_order_key(b) {
        Some(Ordering::Less)
    } else if f16_order_key(a) == f16_order_key(b) {
        Some(Ordering::Equal)
    } else {
        Some(Ordering::Greater)
    }
}

/// The sign bit splits a bit pattern into sign and magnitude.
proof fn lemma_sign_magnitude(x: u16)
    ensures
        x & 0x8000u16 == 0 ==> x & 0x7fffu16 == x,
        x & 0x8000u16 != 0 ==> x & 0x7fffu16 == x - 0x8000u16,
        x & 0x8000u16 == 0 <==> x < 0x8000u16,
{
    assert(x & 0x8000u16 == 0 ==> x & 0x7fffu16 == x) by (bit_vector);
    assert(x & 0x8000u16 != 0 ==> x & 0x7fffu16 == x - 0x8000u16) by (bit_vector);
    assert(x & 0x8000u16 == 0 <==> x < 0x8000u16) by (bit_vector);
}

/// Both magnitudes are zero exactly when their union has no magnitude bit.
proof fn lemma_zero_magnitudes(a: u16, b: u16)
    ensures
        ((a | b) & 0x7fffu16 == 0) <==> (a & 0x7fffu16 == 0 && b & 0x7fffu16 == 0),
{
    assert(((a | b) & 0x7fffu16 == 0) <==> (a & 0x7fffu16 == 0 && b & 0x7fffu16 == 0)) by (bit_vector);
}

/// An IEEE 754 half-precision (binary16) value.
///
/// The value's bit pattern is IEEE 754 binary16, accessible through [`F16::from_bits`] and
/// [`F16::to_bits`]. `F16` values may be non-finite; document validation rejects non-finite
/// values stored in a document.
///
/// Equality and ordering follow IEEE 754 partial semantics: NaN is unequal to itself and
/// unordered, while `-0.0 == 0.0`.
#[derive(Clone, Copy, Debug)]
pub struct F16(u16);

impl F16 {
    /// The value's binary16 bit pattern.
    pub closed spec fn bits(self) -> u16 {
        self.0
    }

    /// Two values with the same bit pattern are the same value.
    pub proof fn lemma_bits_determine(a: F16, b: F16)
        requires
            a.bits() == b.bits(),
        ensures
            a == b,
    {
    }

    /// Creates a half-precision value from its IEEE 754 binary representation.
    pub fn from_bits(bits: u16) -> (r: Self)
        ensures
            r.bits() == bits,
    {
        F16(bits)
    }

    /// Returns this value's IEEE 754 binary representation.
    pub fn to_bits(self) -> (r: u16)
        ensures
            r == self.bits(),
    {
        self.0
    }

    /// Returns whether this value is neither infinite nor NaN.
    pub fn is_finite(self) -> (r: bool)
        ensures
            r == f16_bits_finite(self.bits()),
    {
        self.0 & 0x7c00u16 != 0x7c00u16
    }

    /// Returns whether this value is NaN.
    pub fn is_nan(self) -> (r: bool)
        ensures
            r == f16_bits_nan(self.bits()),
    {
        self.0 & 0x7fffu16 > 0x7c00u16
    }
}

impl Default for F16 {
    /// Positive zero.
    fn default() -> (r: Self)
        ensures
            r.bits() == 0,
    {
        F16(0)
    }
}

impl PartialEq for F16 {
    fn eq(&self, other: &Self) -> (r: bool) {
        proof {
            lemma_sign_magnitude(self.0);
            lemma_sign_magnitude(other.0);
            lemma_zero_magnitudes(self.0, other.0);
        }
        if self.is_nan() || other.is_nan() {
            false
        } else {
            self.0 == other.0 || (self.0 | other.0) & 0x7fffu16 == 0
        }
    }
}

impl vstd::std_specs::cmp::PartialEqSpecImpl for F16 {
    open spec fn obeys_eq_spec() -> bool {
        true
    }

    open spec fn eq_spec(&self, other: &Self) -> bool {
        f16_bits_equal(self.bits(), other.bits())
    }
}

impl PartialOrd for F16 {
    fn partial_cmp(&self, other: &Self) -> (r: Option<Ordering>) {
        proof {
            lemma_sign_magnitude(self.0);
            lemma_sign_magnitude(other.0);
            lemma_zero_magnitudes(self.0, other.0);
        }
        if self.is_nan() || other.is_nan() {
            None
        } else if (self.0 | other.0) & 0x7fffu16 == 0 {
            Some(Ordering::Equal)
        } else {
            let neg = self.0 & 0x8000u16 != 0;
            let other_neg = other.0 & 0x8000u16 != 0;
            if !neg && !other_neg {
                if self.0 < other.0 {
                    Some(Ordering::Less)
                } else if self.0 == other.0 {
                    Some(Ordering::Equal)
                } else {
                    Some(Ordering::Greater)
                }
            } else if !neg && other_neg {
                Some(Ordering::Greater)
            } else if neg && !other_neg {
                Some(Ordering::Less)
            } else if other.0 < self.0 {
                Some(Ordering::Less)
            } else if self.0 == other.0 {
                Some(Ordering::Equal)
            } else {
                Some(Ordering::Greater)
            }
        }
    }
}

impl vstd::std_specs::cmp::PartialOrdSpecImpl for F16 {
    open spec fn obeys_partial_cmp_spec() -> bool {
        true
    }

    open spec fn partial_cmp_spec(&self, other: &Self) -> Option<Ordering> {
        f16_bits_order(self.bits(), other.bits())
    }
}

/// IEEE 754 comparison of half-precision bit patterns: NaN is unequal to itself and unordered
/// with everything, the two zeros are equal, equality is symmetric and agrees with the order,
/// and swapping the operands reverses the order.
pub proof fn lemma_ieee_comparison(a: u16, b: u16)
    ensures
        f16_bits_nan(a) ==> !f16_bits_equal(a, b) && f16_bits_order(a, b) is None,
        f16_bits_equal(0x8000u16, 0x0000u16),
        f16_bits_order(0x8000u16, 0x0000u16) == Some(Ordering::Equal),
        f16_bits_equal(a, b) == f16_bits_equal(b, a),
        !f16_bits_nan(a) ==> f16_bits_equal(a, a),
        f16_bits_equal(a, b) <==> f16_bits_order(a, b) == Some(Ordering::Equal),
        f16_bits_order(a, b) == Some(Ordering::Less) <==> f16_bits_order(b, a) == Some(Ordering::Greater),
{
    assert(0x8000u16 & 0x8000u16 != 0) by (bit_vector);
    assert(0x8000u16 & 0x7fffu16 == 0) by (bit_vector);
    assert(0x0000u16 & 0x8000u16 == 0) by (bit_vector);
    assert(0x0000u16 & 0x7fffu16 == 0) by (bit_vector);
}

/// A NaN is never finite.
pub proof fn lemma_nan_not_finite(bits: u16)
    ensures
        f16_bits_nan(bits) ==> !f16_bits_finite(bits),
{
    assert(bits & 0x7fffu16 > 0x7c00u16 ==> bits & 0x7c00u16 == 0x7c00u16) by (bit_vector);
}

/// The half-precision classes by field: a value is finite exactly when its 5-bit exponent field
/// is not all ones, whatever its sign, and it is NaN exactly when that field is all ones and its
/// 10-bit fraction is not zero.
pub proof fn lemma_f16_classes_by_field(bits: u16)
    ensures
        f16_bits_finite(bits) <==> (bits >> 10u16) & 0x1fu16 != 0x1fu16,
        f16_bits_finite(bits) == f16_bits_finite(bits ^ 0x8000u16),
        f16_bits_nan(bits) <==> ((bits >> 10u16) & 0x1fu16 == 0x1fu16 && bits & 0x03ffu16 != 0),
        f16_bits_nan(bits) == f16_bits_nan(bits ^ 0x8000u16),
{
    assert((bits & 0x7c00u16 != 0x7c00u16) <==> ((bits >> 10u16) & 0x1fu16 != 0x1fu16)) by (bit_vector);
    assert((bits & 0x7c00u16) == ((bits ^ 0x8000u16) & 0x7c00u16)) by (bit_vector);
    assert((bits & 0x7fffu16 > 0x7c00u16) <==> ((bits >> 10u16) & 0x1fu16 == 0x1fu16 && bits & 0x03ffu16 != 0))
        by (bit_vector);
    assert((bits & 0x7fffu16) == ((bits ^ 0x8000u16) & 0x7fffu16)) by (bit_vector);
}

/// The half-precision order follows the number line. Among non-negative bit patterns (sign bit
/// clear) a larger pattern is a larger value; among negative ones a larger pattern is a smaller
/// value; every positive value is above every negative one, and the two zeros are equal. The
/// order is transitive.
pub proof fn lemma_f16_order_follows_values(a: u16, b: u16, c: u16)
    ensures
        !f16_bits_nan(a) && !f16_bits_nan(b) && a < 0x8000u16 && b < 0x8000u16 ==> {
            &&& (f16_bits_order(a, b) == Some(Ordering::Less) <==> a < b)
            &&& (f16_bits_order(a, b) == Some(Ordering::Equal) <==> a == b)
            &&& (f16_bits_order(a, b) == Some(Ordering::Greater) <==> a > b)
        },
        !f16_bits_nan(a) && !f16_bits_nan(b) && a >= 0x8000u16 && b >= 0x8000u16 ==> {
            &&& (f16_bits_order(a, b) == Some(Ordering::Less) <==> a > b)
            &&& (f16_bits_order(a, b) == Some(Ordering::Equal) <==> a == b)
            &&& (f16_bits_order(a, b) == Some(Ordering::Greater) <==> a < b)
        },
        !f16_bits_nan(a) && !f16_bits_nan(b) && a < 0x8000u16 && b >= 0x8000u16 ==> f16_bits_order(a, b) == (
        if a == 0 && b == 0x8000u16 {
            Some(Ordering::Equal)
        } else {
            Some(Ordering::Greater)
        }),
        f16_bits_order(a, b) == Some(Ordering::Less) && f16_bits_order(b, c) == Some(Ordering::Less)
            ==> f16_bits_order(a, c) == Some(Ordering::Less),
{
    lemma_sign_magnitude(a);
    lemma_sign_magnitude(b);
    lemma_sign_magnitude(c);
}

} // verus!
