//! Number tokens.
//!
//! A number token carries a single-precision binary floating-point value. It is
//! held here as the 32 bits of its IEEE 754 encoding, and the few conversions
//! the grammar needs (to and from integers) are integer arithmetic on those
//! bits: one sign bit, eight bits of biased exponent, twenty-three bits of
//! fraction.

use vstd::arithmetic::div_mod::*;
use vstd::arithmetic::mul::*;
use vstd::arithmetic::power2::*;
use vstd::prelude::*;

verus! {

/// Two to the power 23: the weight of the implicit leading bit of a significand.
pub const HIDDEN_BIT: u64 = 0x80_0000;

/// Two to the power 31: the weight of the sign bit.
pub const SIGN_BIT: u64 = 0x8000_0000;

/// Two to the power 32: every integer target saturates below it.
pub const MAGNITUDE_CAP: u64 = 0x1_0000_0000;

/// The value of a number token, as its IEEE 754 single-precision bit pattern.
#[derive(Clone, Copy, Debug, PartialEq, Eq, Structural)]
pub struct Number {
    pub bits: u32,
}

impl View for Number {
    type V = Number;

    open spec fn view(&self) -> Number {
        *self
    }
}

/// The integer `v` brought into the range `lo ..= hi`.
pub open spec fn saturate(v: int, lo: int, hi: int) -> int {
    if v < lo {
        lo
    } else if v > hi {
        hi
    } else {
        v
    }
}

/// The position of the highest set bit of `m`; zero for `m < 2`.
pub open spec fn floor_log2(m: nat) -> nat
    decreases m,
{
    if m < 2 {
        0
    } else {
        1 + floor_log2(m / 2)
    }
}

/// The bit pattern with the given sign, biased exponent and fraction.
pub open spec fn compose(negative: bool, exponent: int, fraction: int) -> int {
    (if negative {
        SIGN_BIT as int
    } else {
        0
    }) + exponent * HIDDEN_BIT as int + fraction
}

/// The bit pattern of the single-precision value nearest to the integer whose
/// sign is `negative` and whose absolute value is `m`, ties going to the even
/// significand.
pub open spec fn nearest_bits(negative: bool, m: nat) -> int {
    let p = floor_log2(m) as int;
    let m = m as int;
    if m == 0 {
        compose(negative, 0, 0)
    } else if p <= 23 {
        compose(negative, 127 + p, m * pow2((23 - p) as nat) - HIDDEN_BIT as int)
    } else {
        let unit = pow2((p - 23) as nat) as int;
        let q = m / unit;
        let r = m % unit;
        let up = 2 * r > unit || (2 * r == unit && q % 2 == 1);
        let q2 = if up {
            q + 1
        } else {
            q
        };
        if q2 == 2 * HIDDEN_BIT as int {
            compose(negative, 128 + p, 0)
        } else {
            compose(negative, 127 + p, q2 - HIDDEN_BIT as int)
        }
    }
}

impl Number {
    /// The eight exponent bits, read as an unsigned integer.
    pub open spec fn biased_exponent(self) -> int {
        (self.bits as int / HIDDEN_BIT as int) % 256
    }

    /// The twenty-three fraction bits, read as an unsigned integer.
    pub open spec fn fraction(self) -> int {
        self.bits as int % HIDDEN_BIT as int
    }

    /// Whether the sign bit is set.
    pub open spec fn is_negative(self) -> bool {
        self.bits as int >= SIGN_BIT as int
    }

    /// Whether the pattern encodes no number at all.
    pub open spec fn is_nan(self) -> bool {
        self.biased_exponent() == 255 && self.fraction() != 0
    }

    /// The integer part of the absolute value. An infinity counts as a value
    /// beyond every integer type.
    pub open spec fn magnitude(self) -> int {
        let e = self.biased_exponent();
        let significand = HIDDEN_BIT as int + self.fraction();
        if e < 127 {
            0
        } else if e >= 150 {
            significand * pow2((e - 150) as nat)
        } else {
            significand / (pow2((150 - e) as nat) as int)
        }
    }

    /// The value rounded toward zero, with zero standing for a pattern that
    /// encodes no number.
    pub open spec fn truncated(self) -> int {
        if self.is_nan() {
            0
        } else if self.is_negative() {
            -self.magnitude()
        } else {
            self.magnitude()
        }
    }

    /// The value as a `u32`: rounded toward zero, then saturated.
    pub open spec fn spec_as_u32(self) -> u32 {
        saturate(self.truncated(), 0, u32::MAX as int) as u32
    }

    /// The value as an `i32`: rounded toward zero, then saturated.
    pub open spec fn spec_as_i32(self) -> i32 {
        saturate(self.truncated(), i32::MIN as int, i32::MAX as int) as i32
    }

    /// The value as an `i16`: rounded toward zero, then saturated.
    pub open spec fn spec_as_i16(self) -> i16 {
        saturate(self.truncated(), i16::MIN as int, i16::MAX as int) as i16
    }

    /// The number nearest to the integer `v`.
    pub open spec fn spec_from_int(v: int) -> Number {
        Number { bits: nearest_bits(v < 0, vstd::math::abs(v) as nat) as u32 }
    }

    /// Whether the number is a whole number in the range of `u32`, in the one
    /// form in which that integer is written: what it is read as, written
    /// as a number, is this number again. A fraction, a negative number, a
    /// negative zero, a number beyond the range and a pattern that encodes
    /// no number are not.
    pub open spec fn is_whole_u32(self) -> bool {
        Self::spec_from_int(self.spec_as_u32() as int) == self
    }

    /// Whether the number is a whole number in the range of `i32`, in the one
    /// form in which that integer is written.
    pub open spec fn is_whole_i32(self) -> bool {
        Self::spec_from_int(self.spec_as_i32() as int) == self
    }

    /// Whether the number is a whole number in the range of `i16`, in the one
    /// form in which that integer is written.
    pub open spec fn is_whole_i16(self) -> bool {
        Self::spec_from_int(self.spec_as_i16() as int) == self
    }

    /// Whether the integer `v` is a value of the format: whether the number
    /// nearest to it has `v` for its value.
    pub open spec fn represents(v: int) -> bool {
        Self::spec_from_int(v).truncated() == v
    }

    /// The number with the given bit pattern.
    pub fn from_bits(bits: u32) -> (r: Number)
        ensures
            r.bits == bits,
    {
        Number { bits }
    }

    /// The bit pattern of the number.
    pub fn to_bits(self) -> (r: u32)
        ensures
            r == self.bits,
    {
        self.bits
    }

    /// The integer part of the absolute value, capped at two to the power 32.
    fn capped_magnitude(self) -> (m: u64)
        ensures
            self.magnitude() >= 0,
            m as int == saturate(self.magnitude(), 0, MAGNITUDE_CAP as int),
    {
        let bits: u64 = self.bits as u64;
        let e: u64 = (bits / HIDDEN_BIT) % 256;
        let significand: u64 = HIDDEN_BIT + bits % HIDDEN_BIT;
        if e < 127 {
            0
        } else if e >= 159 {
            proof {
                let k = (e - 150) as nat;
                lemma2_to64();
                if k > 9 {
                    lemma_pow2_strictly_increases(9, k);
                }
                lemma_mul_inequality(512, pow2(k) as int, significand as int);
                lemma_mul_is_commutative(significand as int, pow2(k) as int);
                lemma_mul_is_commutative(significand as int, 512);
            }
            MAGNITUDE_CAP
        } else if e >= 150 {
            let scale: u64 = pow2_u64((e - 150) as u32);
            proof {
                lemma2_to64();
                let k = (e - 150) as nat;
                if k < 8 {
                    lemma_pow2_strictly_increases(k, 8);
                }
                lemma_mul_inequality(scale as int, 256, significand as int);
                lemma_mul_is_commutative(significand as int, scale as int);
                lemma_mul_is_commutative(significand as int, 256);
            }
            significand * scale
        } else {
            let scale: u64 = pow2_u64((150 - e) as u32);
            proof {
                lemma_pow2_pos((150 - e) as nat);
                lemma_div_pos_is_pos(significand as int, scale as int);
                lemma_div_is_ordered_by_denominator(significand as int, 1, scale as int);
            }
            significand / scale
        }
    }

    /// Converts as a cast to `u32` does: toward zero, saturating at the ends
    /// of the range, and to zero where the pattern encodes no number.
    pub fn as_u32(self) -> (r: u32)
        ensures
            r == self.spec_as_u32(),
    {
        let m: u64 = self.capped_magnitude();
        if self.nan() || self.bits >= 0x8000_0000 {
            0
        } else if m > 0xFFFF_FFFF {
            0xFFFF_FFFF
        } else {
            m as u32
        }
    }

    /// Converts as a cast to `i32` does.
    pub fn as_i32(self) -> (r: i32)
        ensures
            r == self.spec_as_i32(),
    {
        let m: u64 = self.capped_magnitude();
        if self.nan() {
            0
        } else if self.bits >= 0x8000_0000 {
            if m >= 0x8000_0000 {
                i32::MIN
            } else {
                -(m as i32)
            }
        } else if m > 0x7FFF_FFFF {
            i32::MAX
        } else {
            m as i32
        }
    }

    /// Converts as a cast to `i16` does.
    pub fn as_i16(self) -> (r: i16)
        ensures
            r == self.spec_as_i16(),
    {
        let m: u64 = self.capped_magnitude();
        if self.nan() {
            0
        } else if self.bits >= 0x8000_0000 {
            if m >= 0x8000 {
                i16::MIN
            } else {
                -(m as i16)
            }
        } else if m > 0x7FFF {
            i16::MAX
        } else {
            m as i16
        }
    }

    /// Whether the pattern encodes no number at all.
    fn nan(self) -> (r: bool)
        ensures
            r == self.is_nan(),
    {
        let bits: u64 = self.bits as u64;
        (bits / HIDDEN_BIT) % 256 == 255 && bits % HIDDEN_BIT != 0
    }

    /// The number nearest to an integer given by sign and absolute value.
    fn from_magnitude(negative: bool, m: u64) -> (r: Number)
        requires
            m <= MAGNITUDE_CAP,
        ensures
            r.bits as int == nearest_bits(negative, m as nat),
    {
        let sign: u64 = if negative {
            SIGN_BIT
        } else {
            0
        };
        if m == 0 {
            return Number { bits: sign as u32 };
        }
        let mut p: u64 = 0;
        let mut top: u64 = 1;
        proof {
            lemma2_to64();
            lemma_div_basics(m as int);
        }
        while top * 2 <= m
            invariant
                1 <= top <= m <= MAGNITUDE_CAP,
                p <= 32,
                top as nat == pow2(p as nat),
                floor_log2(m as nat) == p + floor_log2(m as nat / top as nat),
            decreases m - top,
        {
            proof {
                lemma_pow2_unfold((p + 1) as nat);
                lemma_div_denominator(m as int, top as int, 2);
                lemma_div_is_ordered(2 * top, m as int, top as int);
                lemma_div_multiples_vanish(2, top as int);
                if p >= 32 {
                    lemma2_to64_rest();
                }
            }
            top = top * 2;
            p = p + 1;
        }
        proof {
            assert((m as int) / (top as int) == 1) by (nonlinear_arith)
                requires
                    0 < top <= m < 2 * top,
            ;
            assert(floor_log2(1) == 0);
            assert(floor_log2(m as nat) == p);
        }
        if p <= 23 {
            let scale: u64 = pow2_u64((23 - p) as u32);
            proof {
                lemma_pow2_adds(p as nat, (23 - p) as nat);
                lemma_pow2_adds((p + 1) as nat, (23 - p) as nat);
                lemma_pow2_unfold((p + 1) as nat);
                lemma2_to64();
                lemma_mul_inequality(top as int, m as int, scale as int);
                lemma_mul_strict_inequality(m as int, 2 * top, scale as int);
                lemma_mul_is_associative(2, top as int, scale as int);
            }
            let fraction: u64 = m * scale - HIDDEN_BIT;
            Number { bits: (sign + (127 + p) * HIDDEN_BIT + fraction) as u32 }
        } else {
            let unit: u64 = pow2_u64((p - 23) as u32);
            proof {
                lemma_pow2_pos((p - 23) as nat);
                lemma_pow2_adds((p - 23) as nat, 23);
                lemma_pow2_unfold((p + 1) as nat);
                lemma2_to64();
                lemma_mod_bound(m as int, unit as int);
                assert(HIDDEN_BIT <= (m as int) / (unit as int) < 2 * HIDDEN_BIT) by (nonlinear_arith)
                    requires
                        0 < unit,
                        top == unit * HIDDEN_BIT,
                        top <= m < 2 * top,
                ;
            }
            let q: u64 = m / unit;
            let r: u64 = m % unit;
            let up: bool = 2 * r > unit || (2 * r == unit && q % 2 == 1);
            let q2: u64 = if up {
                q + 1
            } else {
                q
            };
            if q2 == 2 * HIDDEN_BIT {
                Number { bits: (sign + (128 + p) * HIDDEN_BIT) as u32 }
            } else {
                Number { bits: (sign + (127 + p) * HIDDEN_BIT + (q2 - HIDDEN_BIT)) as u32 }
            }
        }
    }

    /// Converts as a cast from `u32` does: to the nearest value, ties to even.
    pub fn from_u32(v: u32) -> (r: Number)
        ensures
            r == Self::spec_from_int(v as int),
    {
        Self::from_magnitude(false, v as u64)
    }

    /// Converts as a cast from `i32` does.
    pub fn from_i32(v: i32) -> (r: Number)
        ensures
            r == Self::spec_from_int(v as int),
    {
        if v < 0 {
            Self::from_magnitude(true, (-(v as i64)) as u64)
        } else {
            Self::from_magnitude(false, v as u64)
        }
    }

    /// Converts as a cast from `i16` does.
    pub fn from_i16(v: i16) -> (r: Number)
        ensures
            r == Self::spec_from_int(v as int),
    {
        Self::from_i32(v as i32)
    }
}

/// The highest set bit of a positive integer bounds it from both sides.
pub proof fn lemma_floor_log2_bounds(m: nat)
    requires
        m > 0,
    ensures
        pow2(floor_log2(m)) <= m < pow2(floor_log2(m) + 1),
    decreases m,
{
    lemma2_to64();
    if m >= 2 {
        lemma_floor_log2_bounds(m / 2);
        lemma_pow2_unfold(floor_log2(m));
        lemma_pow2_unfold(floor_log2(m) + 1);
    }
}

/// Every integer of absolute value below two to the power 24 is a value of
/// the format: converting it to a number and back yields it again.
pub proof fn lemma_small_integers_are_exact(v: int)
    requires
        -0x100_0000 < v < 0x100_0000,
    ensures
        Number::represents(v),
{
    let negative = v < 0;
    let m = vstd::math::abs(v) as nat;
    let sign: int = if negative {
        SIGN_BIT as int
    } else {
        0
    };
    lemma2_to64();
    if m == 0 {
        let n = Number::spec_from_int(v);
        assert(n.bits as int == sign);
        assert(n.biased_exponent() == 0);
    } else {
        let p = floor_log2(m);
        lemma_floor_log2_bounds(m);
        if p >= 24 {
            lemma_pow2_strictly_increases(24, p + 1);
            if p > 24 {
                lemma_pow2_strictly_increases(24, p);
            }
        }
        assert(p <= 23);
        let k = (23 - p) as nat;
        let scale = pow2(k) as int;
        lemma_pow2_pos(k);
        lemma_pow2_adds(p, k);
        lemma_pow2_adds(p + 1, k);
        lemma_pow2_unfold(24);
        let significand = m * scale;
        assert(HIDDEN_BIT as int <= significand) by (nonlinear_arith)
            requires
                pow2(p) <= m,
                pow2(p) * pow2(k) == pow2(p + k),
                pow2(p + k) == HIDDEN_BIT as int,
                scale == pow2(k),
                significand == m * scale,
                scale > 0,
        ;
        assert(significand < 2 * HIDDEN_BIT) by (nonlinear_arith)
            requires
                m < pow2(p + 1),
                pow2(p + 1) * pow2(k) == pow2(p + 1 + k),
                pow2(p + 1 + k) == 2 * HIDDEN_BIT,
                scale == pow2(k),
                significand == m * scale,
                scale > 0,
        ;
        let fraction = significand - HIDDEN_BIT as int;
        let exponent: int = 127 + (p as int);
        let bits = sign + exponent * HIDDEN_BIT as int + fraction;
        assert(nearest_bits(negative, m) == bits);
        assert(0 <= bits < 0x1_0000_0000);
        let n = Number::spec_from_int(v);
        assert(n.bits as int == bits);
        let high: int = if negative {
            256 + exponent
        } else {
            exponent
        };
        assert(bits == high * HIDDEN_BIT + fraction);
        lemma_fundamental_div_mod_converse(bits, HIDDEN_BIT as int, high, fraction);
        assert(n.biased_exponent() == exponent);
        assert(n.fraction() == fraction);
        assert(!n.is_nan());
        assert(n.is_negative() == negative);
        if exponent >= 150 {
            assert(k == 0 && scale == 1);
            assert(significand == m) by (nonlinear_arith)
                requires
                    significand == m * scale,
                    scale == 1,
            ;
            assert(significand * pow2(0) == m) by (nonlinear_arith)
                requires
                    significand == m,
                    pow2(0) == 1,
            ;
            assert(n.magnitude() == m);
        } else {
            assert((150 - exponent) as nat == k);
            assert(significand / scale == m) by (nonlinear_arith)
                requires
                    significand == m * scale,
                    scale > 0,
            ;
            assert(n.magnitude() == m);
        }
    }
}

/// The highest set bit of an integer is the one whose power of two bounds it
/// from both sides.
pub proof fn lemma_floor_log2_unique(m: nat, p: nat)
    requires
        pow2(p) <= m < pow2(p + 1),
    ensures
        floor_log2(m) == p,
{
    lemma_pow2_pos(p);
    lemma_floor_log2_bounds(m);
    let q = floor_log2(m);
    if q < p {
        if q + 1 < p {
            lemma_pow2_strictly_increases(q + 1, p);
        }
    }
    if q > p {
        if p + 1 < q {
            lemma_pow2_strictly_increases(p + 1, q);
        }
    }
}

/// The three parts of a bit pattern are read back from it.
pub proof fn lemma_decode(negative: bool, exponent: int, fraction: int)
    requires
        0 <= exponent < 256,
        0 <= fraction < HIDDEN_BIT,
    ensures
        ({
            let n = Number { bits: compose(negative, exponent, fraction) as u32 };
            &&& n.bits as int == compose(negative, exponent, fraction)
            &&& n.biased_exponent() == exponent
            &&& n.fraction() == fraction
            &&& n.is_negative() == negative
        }),
{
    let bits = compose(negative, exponent, fraction);
    let high: int = if negative {
        256 + exponent
    } else {
        exponent
    };
    assert(bits == high * HIDDEN_BIT + fraction);
    assert(0 <= bits < 0x1_0000_0000) by (nonlinear_arith)
        requires
            bits == high * HIDDEN_BIT + fraction,
            0 <= high < 512,
            0 <= fraction < HIDDEN_BIT,
            HIDDEN_BIT == 0x80_0000,
    ;
    lemma_fundamental_div_mod_converse(bits, HIDDEN_BIT as int, high, fraction);
}

/// An integer that is a significand of twenty-four bits times a power of two
/// is a value of the format.
pub proof fn lemma_scaled_is_exact(negative: bool, s: nat, k: nat)
    requires
        HIDDEN_BIT <= s < 2 * HIDDEN_BIT,
        k <= 8,
    ensures
        ({
            let n = Number { bits: nearest_bits(negative, s * pow2(k)) as u32 };
            &&& !n.is_nan()
            &&& n.is_negative() == negative
            &&& n.magnitude() == s * pow2(k)
        }),
{
    lemma2_to64();
    let unit = pow2(k);
    let m = s * unit;
    lemma_pow2_pos(k);
    lemma_pow2_adds(23, k);
    lemma_pow2_adds(24, k);
    assert(pow2(23 + k) <= m) by (nonlinear_arith)
        requires
            m == s * unit,
            pow2(23 + k) == 0x80_0000 * unit,
            s >= 0x80_0000,
            unit > 0,
    ;
    assert(m < pow2(24 + k)) by (nonlinear_arith)
        requires
            m == s * unit,
            pow2(24 + k) == 0x100_0000 * unit,
            s < 0x100_0000,
            unit > 0,
    ;
    lemma_floor_log2_unique(m, 23 + k);
    let p = floor_log2(m);
    assert(p == 23 + k);
    if k == 0 {
        assert(m == s) by (nonlinear_arith)
            requires
                m == s * unit,
                unit == 1,
        ;
        assert(m * pow2(0) == s) by (nonlinear_arith)
            requires
                m == s,
                pow2(0) == 1,
        ;
        assert(nearest_bits(negative, m) == compose(negative, 150, s - HIDDEN_BIT));
        lemma_decode(negative, 150, s - HIDDEN_BIT);
        let n = Number { bits: nearest_bits(negative, m) as u32 };
        assert(n.magnitude() == (HIDDEN_BIT + (s - HIDDEN_BIT)) * pow2(0));
        assert(n.magnitude() == m);
    } else {
        assert((p - 23) as nat == k);
        assert(m as int / unit as int == s && m as int % unit as int == 0) by {
            lemma_fundamental_div_mod_converse(m as int, unit as int, s as int, 0);
        }
        lemma_pow2_strictly_increases(0, k);
        assert(unit >= 2);
        assert(nearest_bits(negative, m) == compose(negative, 150 + (k as int), s - HIDDEN_BIT));
        lemma_decode(negative, 150 + (k as int), s - HIDDEN_BIT);
        let n = Number { bits: nearest_bits(negative, m) as u32 };
        assert(n.biased_exponent() == 150 + k);
        assert((n.biased_exponent() - 150) as nat == k);
        assert(n.magnitude() == (HIDDEN_BIT + (s - HIDDEN_BIT)) * pow2(k));
    }
}

/// The largest `i32` is read back: the number nearest to it is two to the
/// power 31, which saturates to it.
pub proof fn lemma_i32_max_is_stable()
    ensures
        Number::spec_from_int(i32::MAX as int).spec_as_i32() == i32::MAX,
{
    lemma2_to64();
    let m: nat = 0x7fff_ffff;
    lemma_floor_log2_unique(m, 30);
    let p = floor_log2(m) as int;
    let unit = pow2((p - 23) as nat) as int;
    assert(unit == 128);
    assert((m as int) / unit == 0xff_ffff);
    assert((m as int) % unit == 127);
    assert(nearest_bits(false, m) == compose(false, 158, 0));
    lemma_decode(false, 158, 0);
    let n = Number::spec_from_int(i32::MAX as int);
    assert(n.biased_exponent() == 158 && n.fraction() == 0);
    assert(pow2(8) == 256);
    assert(n.magnitude() == 0x8000_0000);
}

/// The largest `u32` is read back: the number nearest to it is two to the
/// power 32, which saturates to it.
pub proof fn lemma_u32_max_is_stable()
    ensures
        Number::spec_from_int(u32::MAX as int).spec_as_u32() == u32::MAX,
{
    lemma2_to64();
    let m: nat = 0xffff_ffff;
    lemma_floor_log2_unique(m, 31);
    let p = floor_log2(m) as int;
    let unit = pow2((p - 23) as nat) as int;
    assert(unit == 256);
    assert((m as int) / unit == 0xff_ffff);
    assert((m as int) % unit == 255);
    assert(nearest_bits(false, m) == compose(false, 159, 0));
    lemma_decode(false, 159, 0);
    let n = Number::spec_from_int(u32::MAX as int);
    assert(n.biased_exponent() == 159 && n.fraction() == 0);
    assert(pow2(9) == 512);
    assert(n.magnitude() == 0x1_0000_0000);
}

/// The integer part of the absolute value of a number is zero, or below two
/// to the power 24, or a significand of twenty-four bits times a power of
/// two.
pub proof fn lemma_magnitude_shape(n: Number)
    ensures
        n.magnitude() >= 0,
        n.biased_exponent() < 150 ==> n.magnitude() < 2 * HIDDEN_BIT,
        n.biased_exponent() >= 150 ==> n.magnitude() == (HIDDEN_BIT + n.fraction()) * pow2(
            (n.biased_exponent() - 150) as nat,
        ),
        0 <= n.fraction() < HIDDEN_BIT,
        0 <= n.biased_exponent() < 256,
{
    let e = n.biased_exponent();
    let significand = HIDDEN_BIT as int + n.fraction();
    if 127 <= e < 150 {
        let d = pow2((150 - e) as nat) as int;
        lemma_pow2_pos((150 - e) as nat);
        lemma_div_pos_is_pos(significand, d);
        lemma_div_is_ordered_by_denominator(significand, 1, d);
    } else if e >= 150 {
        lemma_pow2_pos((e - 150) as nat);
        lemma_mul_nonnegative(significand, pow2((e - 150) as nat) as int);
    }
}

/// Reading a number as an `i32` yields an integer that, written as a number
/// and read again, is the same integer.
pub proof fn lemma_as_i32_is_stable(n: Number)
    ensures
        Number::spec_from_int(n.spec_as_i32() as int).spec_as_i32() == n.spec_as_i32(),
{
    lemma2_to64();
    lemma_magnitude_shape(n);
    let t = n.truncated();
    let v = n.spec_as_i32() as int;
    if t > i32::MAX {
        lemma_i32_max_is_stable();
    } else if t < i32::MIN {
        lemma_scaled_is_exact(true, HIDDEN_BIT as nat, 8);
        assert(HIDDEN_BIT as nat * pow2(8) == 0x8000_0000);
    } else if -0x100_0000 < t < 0x100_0000 {
        lemma_small_integers_are_exact(t);
    } else {
        let mag = n.magnitude();
        let e = n.biased_exponent();
        assert(e >= 150);
        let k = (e - 150) as nat;
        let s = (HIDDEN_BIT + n.fraction()) as nat;
        assert(mag == s * pow2(k));
        lemma_pow2_pos(k);
        if k > 8 {
            if k > 9 {
                lemma_pow2_strictly_increases(9, k);
            }
            assert(mag >= 0x80_0000 * 512) by (nonlinear_arith)
                requires
                    mag == s * pow2(k),
                    s >= 0x80_0000,
                    pow2(k) >= 512,
            ;
        }
        lemma_scaled_is_exact(n.is_negative(), s, k);
        assert(vstd::math::abs(t) as nat == mag);
    }
}

/// Reading a number as a `u32` yields an integer that, written as a number
/// and read again, is the same integer.
pub proof fn lemma_as_u32_is_stable(n: Number)
    ensures
        Number::spec_from_int(n.spec_as_u32() as int).spec_as_u32() == n.spec_as_u32(),
{
    lemma2_to64();
    lemma_magnitude_shape(n);
    let t = n.truncated();
    if t > u32::MAX {
        lemma_u32_max_is_stable();
    } else if t < 0x100_0000 {
        lemma_small_integers_are_exact(n.spec_as_u32() as int);
    } else {
        let mag = n.magnitude();
        let e = n.biased_exponent();
        assert(e >= 150);
        let k = (e - 150) as nat;
        let s = (HIDDEN_BIT + n.fraction()) as nat;
        assert(mag == s * pow2(k));
        lemma_pow2_pos(k);
        if k > 8 {
            if k > 9 {
                lemma_pow2_strictly_increases(9, k);
            }
            assert(mag >= 0x80_0000 * 512) by (nonlinear_arith)
                requires
                    mag == s * pow2(k),
                    s >= 0x80_0000,
                    pow2(k) >= 512,
            ;
        }
        lemma_scaled_is_exact(false, s, k);
    }
}

/// Two to the power `k`.
fn pow2_u64(k: u32) -> (r: u64)
    requires
        k <= 32,
    ensures
        r as nat == pow2(k as nat),
        1 <= r <= MAGNITUDE_CAP,
{
    let mut r: u64 = 1;
    let mut i: u32 = 0;
    proof {
        lemma2_to64();
    }
    while i < k
        invariant
            i <= k <= 32,
            r as nat == pow2(i as nat),
            1 <= r,
            r as nat <= pow2(32),
            pow2(32) == 0x1_0000_0000,
        decreases k - i,
    {
        proof {
            lemma_pow2_unfold((i + 1) as nat);
            if i + 1 < 32 {
                lemma_pow2_strictly_increases((i + 1) as nat, 32);
            }
        }
        r = r * 2;
        i = i + 1;
    }
    r
}

} // verus!
