//! Confidence values: single-precision numbers, held by their bit pattern.
//!
//! The pattern is the IEEE 754 binary32 encoding: a sign bit, eight bits of
//! exponent and twenty-three bits of fraction. What a pattern denotes is stated
//! as an integer, the number times two to the power 149, which is whole for
//! every finite pattern.

use vstd::prelude::*;

verus! {

/// The sign bit of a pattern.
pub const SIGN_BIT: u32 = 0x8000_0000;

/// The pattern of positive infinity. A pattern whose magnitude is above it is
/// not a number.
pub const INFINITY_BITS: u32 = 0x7F80_0000;

/// The pattern of the number one.
pub const ONE_BITS: u32 = 0x3F80_0000;

/// A single-precision number, as a confidence or a threshold.
#[derive(Debug, Clone, Copy)]
pub struct Confidence {
    /// The binary32 bit pattern.
    pub bits: u32,
}

/// What the magnitude bits of a pattern denote, times two to the power 149.
/// Infinity continues the scale above every finite number.
pub open spec fn scaled_magnitude(magnitude: nat) -> nat {
    let exponent = magnitude / 0x80_0000;
    let fraction = magnitude % 0x80_0000;
    if exponent == 0 {
        fraction
    } else {
        (0x80_0000 + fraction) * vstd::arithmetic::power2::pow2((exponent - 1) as nat)
    }
}

/// The number one on the scale of [`Confidence::scaled`].
pub open spec fn scaled_one() -> int {
    vstd::arithmetic::power2::pow2(149) as int
}

impl Confidence {
    /// The pattern without its sign bit.
    pub open spec fn magnitude(self) -> nat {
        (self.bits % SIGN_BIT) as nat
    }

    /// True when the pattern denotes no number.
    pub open spec fn is_nan(self) -> bool {
        self.magnitude() > INFINITY_BITS
    }

    /// The number that the pattern denotes, times two to the power 149.
    pub open spec fn scaled(self) -> int {
        if self.bits < SIGN_BIT {
            scaled_magnitude(self.magnitude()) as int
        } else {
            -(scaled_magnitude(self.magnitude()) as int)
        }
    }

    /// True when both are numbers and the first is not below the second.
    pub open spec fn reaches(self, other: Confidence) -> bool {
        !self.is_nan() && !other.is_nan() && self.scaled() >= other.scaled()
    }

    /// True for a number in `(0.0, 1.0]`.
    pub open spec fn in_unit_range(self) -> bool {
        !self.is_nan() && 0 < self.scaled() <= scaled_one()
    }

    /// The value with the given bit pattern.
    pub fn from_bits(bits: u32) -> (value: Confidence)
        ensures
            value.bits == bits,
    {
        Confidence { bits }
    }

    /// The bit pattern.
    pub fn to_bits(self) -> (bits: u32)
        ensures
            bits == self.bits,
    {
        self.bits
    }

    /// A signed integer that orders the patterns of numbers as the numbers.
    fn order_key(self) -> (key: i64)
        ensures
            key == (if self.bits < SIGN_BIT {
                self.magnitude() as int
            } else {
                -(self.magnitude() as int)
            }),
    {
        if self.bits < SIGN_BIT {
            self.bits as i64
        } else {
            -((self.bits - SIGN_BIT) as i64)
        }
    }

    /// Compares two values as single-precision `>=` does: false as soon as one
    /// of them is not a number.
    pub fn at_least(self, other: Confidence) -> (yes: bool)
        ensures
            yes == self.reaches(other),
    {
        proof {
            lemma_scaled_order(self.magnitude(), other.magnitude());
            lemma_scaled_order(other.magnitude(), self.magnitude());
            lemma_scaled_order(0, self.magnitude());
            lemma_scaled_order(0, other.magnitude());
            lemma_one();
        }
        self.bits % SIGN_BIT <= INFINITY_BITS && other.bits % SIGN_BIT <= INFINITY_BITS
            && self.order_key() >= other.order_key()
    }

    /// Tells whether the value is a number in `(0.0, 1.0]`.
    pub fn is_in_unit_range(self) -> (yes: bool)
        ensures
            yes == self.in_unit_range(),
    {
        proof {
            lemma_scaled_order(0, self.magnitude());
            lemma_scaled_order(ONE_BITS as nat, self.magnitude());
            lemma_scaled_order(self.magnitude(), ONE_BITS as nat);
            lemma_one();
        }
        0 < self.bits && self.bits <= ONE_BITS
    }

    /// The nearest value to this one in `[0.0, 1.0]`. What is no number stays as
    /// it is.
    pub open spec fn clamped(self) -> Confidence {
        if self.is_nan() || 0 <= self.scaled() <= scaled_one() {
            self
        } else if self.scaled() < 0 {
            Confidence { bits: 0 }
        } else {
            Confidence { bits: ONE_BITS }
        }
    }

    /// Brings a number into `[0.0, 1.0]`.
    pub fn clamp_to_unit(self) -> (value: Confidence)
        ensures
            value == self.clamped(),
    {
        proof {
            lemma_scaled_order(0, self.magnitude());
            lemma_scaled_order(ONE_BITS as nat, self.magnitude());
            lemma_scaled_order(self.magnitude(), ONE_BITS as nat);
            lemma_one();
        }
        let magnitude: u32 = self.bits % SIGN_BIT;
        if magnitude > INFINITY_BITS {
            self
        } else if self.bits > SIGN_BIT {
            Confidence { bits: 0 }
        } else if self.bits < SIGN_BIT && magnitude > ONE_BITS {
            Confidence { bits: ONE_BITS }
        } else {
            self
        }
    }
}

impl PartialEq for Confidence {
    fn eq(&self, other: &Self) -> (same: bool) {
        self.at_least(*other) && other.at_least(*self)
    }
}

impl vstd::std_specs::cmp::PartialEqSpecImpl for Confidence {
    open spec fn obeys_eq_spec() -> bool {
        true
    }

    open spec fn eq_spec(&self, other: &Self) -> bool {
        self.reaches(*other) && other.reaches(*self)
    }
}

/// The pattern [`ONE_BITS`] denotes the number one.
pub proof fn lemma_one()
    ensures
        scaled_magnitude(ONE_BITS as nat) == scaled_one(),
        scaled_magnitude(0) == 0,
{
    assert(ONE_BITS as nat / 0x80_0000 == 127);
    assert(ONE_BITS as nat % 0x80_0000 == 0);
    vstd::arithmetic::power2::lemma2_to64();
    vstd::arithmetic::power2::lemma_pow2_adds(23, 126);
}

/// Magnitude bits order as what they denote does.
pub proof fn lemma_scaled_order(a: nat, b: nat)
    ensures
        a < b ==> scaled_magnitude(a) < scaled_magnitude(b),
        a == b ==> scaled_magnitude(a) == scaled_magnitude(b),
{
    if a < b {
        let ea = a / 0x80_0000;
        let eb = b / 0x80_0000;
        let fa = a % 0x80_0000;
        let fb = b % 0x80_0000;
        if ea == eb {
            assert(fa < fb);
            if ea > 0 {
                let p = vstd::arithmetic::power2::pow2((ea - 1) as nat);
                vstd::arithmetic::power2::lemma_pow2_pos((ea - 1) as nat);
                assert((0x80_0000 + fa) * p < (0x80_0000 + fb) * p) by (nonlinear_arith)
                    requires
                        fa < fb,
                        p > 0,
                ;
            }
        } else {
            assert(ea < eb);
            let q = vstd::arithmetic::power2::pow2((eb - 1) as nat);
            vstd::arithmetic::power2::lemma_pow2_pos((eb - 1) as nat);
            assert((0x80_0000 + fb) * q >= 0x80_0000 * q) by (nonlinear_arith)
                requires
                    q > 0,
            ;
            if ea > 0 {
                let p = vstd::arithmetic::power2::pow2((ea - 1) as nat);
                vstd::arithmetic::power2::lemma_pow2_pos((ea - 1) as nat);
                vstd::arithmetic::power2::lemma_pow2_adds(1, (ea - 1) as nat);
                vstd::arithmetic::power2::lemma2_to64();
                if ea < eb - 1 {
                    vstd::arithmetic::power2::lemma_pow2_strictly_increases(ea, (eb - 1) as nat);
                }
                assert((0x80_0000 + fa) * p < 0x80_0000 * q) by (nonlinear_arith)
                    requires
                        fa < 0x80_0000,
                        p > 0,
                        q >= 2 * p,
                ;
            } else {
                assert(0x80_0000 * q >= 0x80_0000) by (nonlinear_arith)
                    requires
                        q > 0,
                ;
            }
        }
    }
}

/// Numbers compare by their bits as long as neither is negative, and the other way
/// round where both are; a number that is not negative reaches one that is; and what is
/// no number reaches nothing and is reached by nothing.
pub proof fn numbers_compare_by_their_bits(a: Confidence, b: Confidence)
    ensures
        a.bits <= INFINITY_BITS && b.bits <= INFINITY_BITS ==> (a.reaches(b) <==> a.bits >= b.bits),
        SIGN_BIT < a.bits <= SIGN_BIT + INFINITY_BITS && SIGN_BIT < b.bits <= SIGN_BIT
            + INFINITY_BITS ==> (a.reaches(b) <==> a.bits <= b.bits),
        a.bits <= INFINITY_BITS && SIGN_BIT <= b.bits <= SIGN_BIT + INFINITY_BITS ==> a.reaches(b),
        SIGN_BIT < a.bits <= SIGN_BIT + INFINITY_BITS && b.bits <= INFINITY_BITS ==> !a.reaches(b),
        a.is_nan() || b.is_nan() ==> !a.reaches(b),
        a.is_nan() <==> INFINITY_BITS < a.bits < SIGN_BIT || a.bits > SIGN_BIT + INFINITY_BITS,
{
    lemma_scaled_order(a.magnitude(), b.magnitude());
    lemma_scaled_order(b.magnitude(), a.magnitude());
    lemma_scaled_order(0, a.magnitude());
    lemma_scaled_order(0, b.magnitude());
    lemma_one();
}

/// The range above zero and up to one holds the bits from the smallest pattern to that
/// of one.
pub proof fn unit_range_is_a_range_of_bits(c: Confidence)
    ensures
        c.in_unit_range() <==> 1 <= c.bits <= 0x3F80_0000,
{
    lemma_scaled_order(0, c.magnitude());
    lemma_scaled_order(ONE_BITS as nat, c.magnitude());
    lemma_scaled_order(c.magnitude(), ONE_BITS as nat);
    lemma_one();
}

/// Clamping keeps what lies within zero and one, and moves any other number to the
/// nearer bound.
pub proof fn clamping_moves_to_the_nearer_bound(c: Confidence)
    ensures
        c.bits <= ONE_BITS || c.bits == SIGN_BIT || c.is_nan() ==> c.clamped() == c,
        ONE_BITS < c.bits <= INFINITY_BITS ==> c.clamped().bits == ONE_BITS,
        SIGN_BIT < c.bits <= SIGN_BIT + INFINITY_BITS ==> c.clamped().bits == 0,
{
    lemma_scaled_order(0, c.magnitude());
    lemma_scaled_order(ONE_BITS as nat, c.magnitude());
    lemma_scaled_order(c.magnitude(), ONE_BITS as nat);
    lemma_one();
}

} // verus!
