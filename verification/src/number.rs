//! Numbers of Thing Descriptions that need not be integers.

use vstd::prelude::*;

verus! {

/// The bits of positive infinity; a larger magnitude is not a number.
pub const INFINITY_BITS: u64 = 0x7ff0_0000_0000_0000;

/// The weight of the sign bit.
pub const SIGN_BIT: u64 = 0x8000_0000_0000_0000;

/// The weight of the lowest exponent bit.
pub const EXPONENT_UNIT: u64 = 0x0010_0000_0000_0000;

/// An IEEE 754 binary64 number, held by its bits.
#[derive(Clone, Copy, Debug)]
pub struct Binary64 {
    /// The sign bit, the exponent and the fraction, from the highest bit down.
    pub bits: u64,
}

impl Binary64 {
    /// The bits without the sign.
    pub open spec fn magnitude(self) -> int {
        self.bits as int % SIGN_BIT as int
    }

    /// Whether the bits stand for no number at all.
    pub open spec fn is_nan(self) -> bool {
        self.magnitude() > INFINITY_BITS
    }

    /// The place of the number among all numbers: IEEE 754 orders the numbers
    /// with a sign as it orders their magnitudes, and both zeros are one.
    pub open spec fn rank(self) -> int {
        if self.bits >= SIGN_BIT {
            -self.magnitude()
        } else {
            self.magnitude()
        }
    }

    /// IEEE 754 equality.
    pub open spec fn equals(self, other: Self) -> bool {
        !self.is_nan() && !other.is_nan() && self.rank() == other.rank()
    }

    /// IEEE 754 order.
    pub open spec fn at_most(self, other: Self) -> bool {
        !self.is_nan() && !other.is_nan() && self.rank() <= other.rank()
    }

    /// The number of a small integer: with `e` the position of the highest bit of
    /// `n`, the exponent is `1023 + e` and the fraction is what `n` has beyond that
    /// bit, scaled to the 52 bits of the fraction.
    pub open spec fn of_small(n: u8) -> Self {
        if n == 0 {
            Binary64 { bits: 0 }
        } else {
            let e = highest_bit(n as nat);
            let beyond = n - vstd::arithmetic::power2::pow2(e);
            Binary64 {
                bits: ((1023 + e) * EXPONENT_UNIT + beyond * vstd::arithmetic::power2::pow2(
                    (52 - e) as nat,
                )) as u64,
            }
        }
    }

    fn magnitude_bits(&self) -> (magnitude: u64)
        ensures
            magnitude == self.magnitude(),
    {
        self.bits % SIGN_BIT
    }

    /// Whether this is not a number.
    pub fn not_a_number(&self) -> (nan: bool)
        ensures
            nan == self.is_nan(),
    {
        self.magnitude_bits() > INFINITY_BITS
    }

    /// Whether `self <= other`.
    pub fn is_at_most(&self, other: &Self) -> (r: bool)
        ensures
            r == self.at_most(*other),
    {
        if self.not_a_number() || other.not_a_number() {
            return false;
        }
        let left: u64 = self.magnitude_bits();
        let right: u64 = other.magnitude_bits();
        match (self.bits >= SIGN_BIT, other.bits >= SIGN_BIT) {
            (false, false) => left <= right,
            (false, true) => left == 0 && right == 0,
            (true, false) => true,
            (true, true) => right <= left,
        }
    }
}

/// The position of the highest bit of a positive number.
pub open spec fn highest_bit(n: nat) -> nat
    decreases n,
{
    if n < 2 {
        0
    } else {
        highest_bit(n / 2) + 1
    }
}

impl PartialEq for Binary64 {
    fn eq(&self, other: &Self) -> (r: bool) {
        if self.not_a_number() || other.not_a_number() {
            return false;
        }
        let left: u64 = self.magnitude_bits();
        let right: u64 = other.magnitude_bits();
        left == right && (left == 0 || (self.bits >= SIGN_BIT) == (other.bits >= SIGN_BIT))
    }
}

impl vstd::std_specs::cmp::PartialEqSpecImpl for Binary64 {
    open spec fn obeys_eq_spec() -> bool {
        true
    }

    open spec fn eq_spec(&self, other: &Self) -> bool {
        self.equals(*other)
    }
}

impl From<u8> for Binary64 {
    fn from(n: u8) -> (r: Self) {
        proof {
            vstd::arithmetic::power2::lemma2_to64();
            vstd::arithmetic::power2::lemma2_to64_rest();
            reveal_with_fuel(highest_bit, 9);
        }
        let wide: u64 = n as u64;
        let bits: u64 = if n == 0 {
            0
        } else if n < 2 {
            1023 * EXPONENT_UNIT + (wide - 1) * 0x10000000000000
        } else if n < 4 {
            1024 * EXPONENT_UNIT + (wide - 2) * 0x8000000000000
        } else if n < 8 {
            1025 * EXPONENT_UNIT + (wide - 4) * 0x4000000000000
        } else if n < 16 {
            1026 * EXPONENT_UNIT + (wide - 8) * 0x2000000000000
        } else if n < 32 {
            1027 * EXPONENT_UNIT + (wide - 16) * 0x1000000000000
        } else if n < 64 {
            1028 * EXPONENT_UNIT + (wide - 32) * 0x800000000000
        } else if n < 128 {
            1029 * EXPONENT_UNIT + (wide - 64) * 0x400000000000
        } else {
            1030 * EXPONENT_UNIT + (wide - 128) * 0x200000000000
        };
        Binary64 { bits }
    }
}

impl vstd::std_specs::convert::FromSpecImpl<u8> for Binary64 {
    open spec fn obeys_from_spec() -> bool {
        true
    }

    open spec fn from_spec(n: u8) -> Self {
        Binary64::of_small(n)
    }
}

/// The bits of a small integer, range by range.
proof fn lemma_small_bits(n: u8)
    ensures
        Binary64::of_small(n).bits == (if n == 0 {
            0
        } else if n < 2 {
            1023 * EXPONENT_UNIT
        } else if n < 4 {
            1024 * EXPONENT_UNIT + (n - 2) * 0x8000000000000
        } else if n < 8 {
            1025 * EXPONENT_UNIT + (n - 4) * 0x4000000000000
        } else if n < 16 {
            1026 * EXPONENT_UNIT + (n - 8) * 0x2000000000000
        } else if n < 32 {
            1027 * EXPONENT_UNIT + (n - 16) * 0x1000000000000
        } else if n < 64 {
            1028 * EXPONENT_UNIT + (n - 32) * 0x800000000000
        } else if n < 128 {
            1029 * EXPONENT_UNIT + (n - 64) * 0x400000000000
        } else {
            1030 * EXPONENT_UNIT + (n - 128) * 0x200000000000
        }),
{
    vstd::arithmetic::power2::lemma2_to64();
    vstd::arithmetic::power2::lemma2_to64_rest();
    reveal_with_fuel(highest_bit, 9);
}

/// Small integers are numbers, and keep their order.
pub proof fn small_integers_keep_their_order(m: u8, n: u8)
    ensures
        !Binary64::of_small(m).is_nan(),
        Binary64::of_small(m).at_most(Binary64::of_small(n)) <==> m <= n,
        Binary64::of_small(m).equals(Binary64::of_small(n)) <==> m == n,
{
    lemma_small_bits(m);
    lemma_small_bits(n);
}

/// Equality and order of numbers are reflexive, symmetric and transitive, and total,
/// as far as numbers go.
pub proof fn numbers_are_ordered(x: Binary64, y: Binary64, z: Binary64)
    ensures
        x.equals(x) <==> !x.is_nan(),
        x.equals(y) ==> y.equals(x),
        x.equals(y) && y.equals(z) ==> x.equals(z),
        x.at_most(y) && y.at_most(z) ==> x.at_most(z),
        x.at_most(y) && y.at_most(x) <==> x.equals(y),
        !x.is_nan() && !y.is_nan() ==> x.at_most(y) || y.at_most(x),
{
}

/// Two numbers are equal exactly when neither is a NaN, that is none has a magnitude
/// beyond that of infinity, and either their bits are the same or both are zeros.
pub proof fn numbers_are_equal_by_their_bits(x: Binary64, y: Binary64)
    ensures
        x.is_nan() <==> 0x7ff0_0000_0000_0000 < x.bits < 0x8000_0000_0000_0000
            || 0xfff0_0000_0000_0000 < x.bits,
        x.equals(y) <==> !x.is_nan() && !y.is_nan() && (x.bits == y.bits || (x.bits == 0 || x.bits
            == 0x8000_0000_0000_0000) && (y.bits == 0 || y.bits == 0x8000_0000_0000_0000)),
{
}

/// A number without a sign is at most another one exactly when its bits are; one with a
/// sign is at most every one without, and at most another one with a sign exactly when
/// its bits are at least those.
pub proof fn numbers_are_ordered_by_their_bits(x: Binary64, y: Binary64)
    requires
        !x.is_nan(),
        !y.is_nan(),
    ensures
        x.bits < 0x8000_0000_0000_0000 && y.bits < 0x8000_0000_0000_0000 ==> (x.at_most(y)
            <==> x.bits <= y.bits),
        x.bits >= 0x8000_0000_0000_0000 && y.bits < 0x8000_0000_0000_0000 ==> x.at_most(y),
        x.bits < 0x8000_0000_0000_0000 && y.bits >= 0x8000_0000_0000_0000 ==> (x.at_most(y)
            <==> x.bits == 0 && y.bits == 0x8000_0000_0000_0000),
        x.bits >= 0x8000_0000_0000_0000 && y.bits >= 0x8000_0000_0000_0000 ==> (x.at_most(y)
            <==> x.bits >= y.bits),
{
}

/// A number that is no number at all is equal to nothing and in no order.
pub proof fn nan_is_not_ordered(x: Binary64, y: Binary64)
    requires
        x.is_nan() || y.is_nan(),
    ensures
        !x.equals(y),
        !x.at_most(y),
{
}

/// The number of a small integer has that value: where its exponent field is `e` and
/// its fraction field is `f`, it is `(2^52 + f) * 2^(e - 1075)`. That of 0 has no bit set.
pub proof fn small_integers_keep_their_value(n: u8)
    ensures
        n == 0 ==> Binary64::of_small(n).bits == 0,
        n > 0 ==> ({
            let e = Binary64::of_small(n).bits as int / 0x10_0000_0000_0000;
            let f = Binary64::of_small(n).bits as int % 0x10_0000_0000_0000;
            &&& 1023 <= e <= 1030
            &&& (0x10_0000_0000_0000 + f) * vstd::arithmetic::power2::pow2((e - 1023) as nat) == n
                * 0x10_0000_0000_0000
        }),
{
    lemma_small_bits(n);
    vstd::arithmetic::power2::lemma2_to64();
    let e = Binary64::of_small(n).bits as int / 0x10_0000_0000_0000;
    let f = Binary64::of_small(n).bits as int % 0x10_0000_0000_0000;
    if n == 0 {
    } else if n < 2 {
        assert(e == 1023);
        assert(vstd::arithmetic::power2::pow2(0) == 1);
        assert((0x10_0000_0000_0000 + f) * 1 == n * 0x10_0000_0000_0000);
    } else if n < 4 {
        assert(e == 1024);
        assert(vstd::arithmetic::power2::pow2(1) == 2);
        assert((0x10_0000_0000_0000 + f) * 2 == n * 0x10_0000_0000_0000);
    } else if n < 8 {
        assert(e == 1025);
        assert(vstd::arithmetic::power2::pow2(2) == 4);
        assert((0x10_0000_0000_0000 + f) * 4 == n * 0x10_0000_0000_0000);
    } else if n < 16 {
        assert(e == 1026);
        assert(vstd::arithmetic::power2::pow2(3) == 8);
        assert((0x10_0000_0000_0000 + f) * 8 == n * 0x10_0000_0000_0000);
    } else if n < 32 {
        assert(e == 1027);
        assert(vstd::arithmetic::power2::pow2(4) == 16);
        assert((0x10_0000_0000_0000 + f) * 16 == n * 0x10_0000_0000_0000);
    } else if n < 64 {
        assert(e == 1028);
        assert(vstd::arithmetic::power2::pow2(5) == 32);
        assert((0x10_0000_0000_0000 + f) * 32 == n * 0x10_0000_0000_0000);
    } else if n < 128 {
        assert(e == 1029);
        assert(vstd::arithmetic::power2::pow2(6) == 64);
        assert((0x10_0000_0000_0000 + f) * 64 == n * 0x10_0000_0000_0000);
    } else {
        assert(e == 1030);
        assert(vstd::arithmetic::power2::pow2(7) == 128);
        assert((0x10_0000_0000_0000 + f) * 128 == n * 0x10_0000_0000_0000);
    }
}

/// The bits of 0 and of 100.
pub proof fn hundred_and_zero_by_their_bits()
    ensures
        Binary64::of_small(0).bits == 0,
        Binary64::of_small(100).bits == 0x4059_0000_0000_0000,
{
    lemma_small_bits(0);
    lemma_small_bits(100);
}

/// The bits of 25, 40 and 95.
pub proof fn middle_levels_by_their_bits()
    ensures
        Binary64::of_small(25).bits == 0x4039_0000_0000_0000,
        Binary64::of_small(40).bits == 0x4044_0000_0000_0000,
        Binary64::of_small(95).bits == 0x4057_c000_0000_0000,
{
    lemma_small_bits(25);
    lemma_small_bits(40);
    lemma_small_bits(95);
}

} // verus!
