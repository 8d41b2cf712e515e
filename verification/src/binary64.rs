//! Double-precision numbers held by their IEEE 754 bit pattern.
//!
//! The progress primitives take their values and limits as doubles. The
//! library never does arithmetic on them in floating point: it only classifies
//! and compares them, and that is decided exactly on the sixty-four bits.
//! The meaning of a bit pattern is given by `scaled`, the number it stands for
//! multiplied by two to the power 1074, which is an integer for every finite
//! double.
use vstd::arithmetic::div_mod::{lemma_basic_div, lemma_div_multiples_vanish_quotient};
use vstd::arithmetic::power2::{
    lemma_pow2_adds, lemma_pow2_pos, lemma_pow2_strictly_increases, lemma_pow2_unfold, pow2,
};
use vstd::prelude::*;

verus! {

/// The bit that holds the sign.
pub const SIGN_BIT: u64 = 0x8000_0000_0000_0000;

/// The bit pattern of positive infinity; every larger magnitude is a NaN.
pub const INFINITY_BITS: u64 = 0x7ff0_0000_0000_0000;

/// Two to the power 52: the weight of the implicit leading bit.
pub const HIDDEN_BIT: u64 = 0x0010_0000_0000_0000;

/// A double, as its sixty-four bits.
#[derive(Clone, Copy, Debug, PartialEq, Eq, Structural)]
pub struct Binary64 {
    pub bits: u64,
}

impl Binary64 {
    /// The bits without the sign.
    pub open spec fn magnitude_bits(self) -> int {
        if self.bits >= SIGN_BIT {
            self.bits - SIGN_BIT
        } else {
            self.bits as int
        }
    }

    pub open spec fn is_sign_negative_spec(self) -> bool {
        self.bits >= SIGN_BIT
    }

    pub open spec fn is_nan_spec(self) -> bool {
        self.magnitude_bits() > INFINITY_BITS
    }

    /// Zero, subnormal or normal.
    pub open spec fn is_finite_spec(self) -> bool {
        self.magnitude_bits() < INFINITY_BITS
    }

    /// The eleven exponent bits.
    pub open spec fn biased_exponent(self) -> int {
        self.magnitude_bits() / (HIDDEN_BIT as int)
    }

    /// The fifty-two fraction bits.
    pub open spec fn fraction(self) -> int {
        self.magnitude_bits() % (HIDDEN_BIT as int)
    }

    /// The significand as an integer: the fraction, with the implicit leading
    /// bit for a normal number.
    pub open spec fn significand(self) -> int {
        if self.biased_exponent() == 0 {
            self.fraction()
        } else {
            HIDDEN_BIT + self.fraction()
        }
    }

    /// The power of two by which the significand is multiplied in `scaled`.
    pub open spec fn shift(self) -> nat {
        if self.biased_exponent() <= 1 {
            0
        } else {
            (self.biased_exponent() - 1) as nat
        }
    }

    /// The absolute value times two to the power 1074. For an infinity it is
    /// a number larger than that of every finite double.
    pub open spec fn scaled_magnitude(self) -> int {
        self.significand() * pow2(self.shift())
    }

    /// The value times two to the power 1074; meaningful unless `self` is a
    /// NaN.
    pub open spec fn scaled(self) -> int {
        if self.is_sign_negative_spec() {
            -self.scaled_magnitude()
        } else {
            self.scaled_magnitude()
        }
    }

    /// `self < other` as IEEE 754 orders doubles: false when either is a NaN.
    pub open spec fn ieee_lt_spec(self, other: Binary64) -> bool {
        !self.is_nan_spec() && !other.is_nan_spec() && self.scaled() < other.scaled()
    }

    /// `self <= other` as IEEE 754 orders doubles: false when either is a NaN.
    pub open spec fn ieee_le_spec(self, other: Binary64) -> bool {
        !self.is_nan_spec() && !other.is_nan_spec() && self.scaled() <= other.scaled()
    }

    /// Positive zero.
    pub open spec fn zero_spec() -> Binary64 {
        Binary64 { bits: 0 }
    }

    /// The double 100.
    pub open spec fn hundred_spec() -> Binary64 {
        Binary64 { bits: 0x4059_0000_0000_0000 }
    }

    /// The integer by which the exec comparisons order two doubles: the
    /// magnitude bits, negated under a sign.
    pub open spec fn order_key(self) -> int {
        if self.is_sign_negative_spec() {
            -self.magnitude_bits()
        } else {
            self.magnitude_bits()
        }
    }

    pub fn from_bits(bits: u64) -> (r: Binary64)
        ensures
            r.bits == bits,
    {
        Binary64 { bits }
    }

    pub fn to_bits(self) -> (r: u64)
        ensures
            r == self.bits,
    {
        self.bits
    }

    pub fn zero() -> (r: Binary64)
        ensures
            r == Binary64::zero_spec(),
    {
        Binary64 { bits: 0 }
    }

    pub fn hundred() -> (r: Binary64)
        ensures
            r == Binary64::hundred_spec(),
    {
        Binary64 { bits: 0x4059_0000_0000_0000 }
    }

    fn magnitude(self) -> (r: u64)
        ensures
            r == self.magnitude_bits(),
            r < SIGN_BIT,
    {
        if self.bits >= SIGN_BIT {
            self.bits - SIGN_BIT
        } else {
            self.bits
        }
    }

    pub fn is_nan(self) -> (r: bool)
        ensures
            r == self.is_nan_spec(),
    {
        self.magnitude() > INFINITY_BITS
    }

    pub fn is_finite(self) -> (r: bool)
        ensures
            r == self.is_finite_spec(),
    {
        self.magnitude() < INFINITY_BITS
    }

    fn key(self) -> (r: i64)
        ensures
            r == self.order_key(),
    {
        let m = self.magnitude();
        if self.bits >= SIGN_BIT {
            -(m as i64)
        } else {
            m as i64
        }
    }

    /// `self < other`, as the `<` of doubles decides it.
    pub fn lt(self, other: Binary64) -> (r: bool)
        ensures
            r == self.ieee_lt_spec(other),
    {
        if self.is_nan() || other.is_nan() {
            return false;
        }
        proof {
            lemma_order_key_orders(self, other);
            lemma_order_key_orders(other, self);
        }
        self.key() < other.key()
    }

    /// `self <= other`, as the `<=` of doubles decides it.
    pub fn le(self, other: Binary64) -> (r: bool)
        ensures
            r == self.ieee_le_spec(other),
    {
        if self.is_nan() || other.is_nan() {
            return false;
        }
        proof {
            lemma_order_key_orders(self, other);
            lemma_order_key_orders(other, self);
        }
        self.key() <= other.key()
    }

    /// Whether `self` is a part of `whole`: both finite, `whole` above zero,
    /// and `self` from zero up to `whole`.
    pub open spec fn is_part_of(self, whole: Binary64) -> bool {
        &&& whole.is_finite_spec()
        &&& Binary64::zero_spec().ieee_lt_spec(whole)
        &&& Binary64::zero_spec().ieee_le_spec(self)
        &&& self.ieee_le_spec(whole)
    }

    /// `self` as a percentage of `whole`, rounded to the nearest whole
    /// number, a half rounded up. It is the rounding of the exact quotient,
    /// not of a quotient already rounded to a double.
    pub open spec fn rounded_percent_spec(self, whole: Binary64) -> int {
        rounded_percent(self.scaled(), whole.scaled())
    }

    fn significand_and_shift(self) -> (r: (u64, u64))
        ensures
            r.0 == self.significand(),
            r.1 == self.shift(),
            r.0 < 2 * HIDDEN_BIT,
            r.1 <= 0xffe,
    {
        let m = self.magnitude();
        let e = m / HIDDEN_BIT;
        let f = m % HIDDEN_BIT;
        let significand = if e == 0 {
            f
        } else {
            HIDDEN_BIT + f
        };
        let shift = if e <= 1 {
            0
        } else {
            e - 1
        };
        (significand, shift)
    }

    /// `self` as a percentage of `whole`, rounded to the nearest whole
    /// number.
    pub fn rounded_percent_of(self, whole: Binary64) -> (r: u8)
        requires
            self.is_part_of(whole),
        ensures
            r == self.rounded_percent_spec(whole),
            r <= 100,
    {
        let (sv, hv) = self.significand_and_shift();
        let (sm, hm) = whole.significand_and_shift();
        proof {
            lemma_part_shape(self, whole);
        }
        let d = hm - hv;
        if d >= 10 {
            proof {
                lemma_small_part_rounds_to_zero(self, whole);
            }
            return 0;
        }
        let mut p: u64 = 1;
        let mut i: u64 = 0;
        proof {
            vstd::arithmetic::power2::lemma2_to64();
        }
        while i < d
            invariant
                i <= d < 10,
                p == pow2(i as nat),
                pow2(9) == 512,
            decreases d - i,
        {
            proof {
                lemma_pow2_unfold((i + 1) as nat);
                lemma_pow2_strictly_increases(i as nat, 9);
            }
            p = p * 2;
            i = i + 1;
        }
        proof {
            if d < 9 {
                lemma_pow2_strictly_increases(d as nat, 9);
            }
        }
        assert(sm * p <= 0x4000_0000_0000_0000) by (nonlinear_arith)
            requires
                sm < 0x0020_0000_0000_0000,
                p <= 512,
        ;
        let den = sm * p;
        let num = 200 * sv + den;
        proof {
            lemma_percent_cancels(self, whole, den as int);
        }
        let q = num / (2 * den);
        q as u8
    }
}

/// The percentage that `v` is of `m`, rounded to the nearest whole number, a
/// half rounded up.
pub open spec fn rounded_percent(v: int, m: int) -> int {
    (200 * v + m) / (2 * m)
}

/// Nothing of a whole is zero percent of it, and all of it is one hundred
/// percent.
pub proof fn lemma_rounded_percent_ends(m: int)
    requires
        m > 0,
    ensures
        rounded_percent(0, m) == 0,
        rounded_percent(m, m) == 100,
{
    lemma_basic_div(m, 2 * m);
    vstd::arithmetic::div_mod::lemma_fundamental_div_mod_converse(201 * m, 2 * m, 100, m);
}

/// A part and its whole carry no sign that counts, the whole is not zero, and
/// the part's power of two is not above the whole's.
pub proof fn lemma_part_shape(part: Binary64, whole: Binary64)
    requires
        part.is_part_of(whole),
    ensures
        part.scaled() == part.scaled_magnitude(),
        whole.scaled() == whole.scaled_magnitude(),
        0 <= part.scaled() <= whole.scaled(),
        0 < whole.scaled(),
        0 < whole.significand(),
        part.shift() <= whole.shift(),
{
    lemma_zero_magnitude(part);
    lemma_zero_magnitude(whole);
    lemma_zero_magnitude(Binary64::zero_spec());
    assert(Binary64::zero_spec().scaled() == 0);
    if part.shift() > whole.shift() {
        assert(whole.biased_exponent() < part.biased_exponent());
        assert(whole.magnitude_bits() < part.magnitude_bits()) by (nonlinear_arith)
            requires
                whole.biased_exponent() < part.biased_exponent(),
                whole.biased_exponent() == whole.magnitude_bits() / (HIDDEN_BIT as int),
                part.biased_exponent() == part.magnitude_bits() / (HIDDEN_BIT as int),
        ;
        lemma_magnitude_increases(whole, part);
    }
    assert(whole.significand() > 0) by (nonlinear_arith)
        requires
            whole.significand() * pow2(whole.shift()) > 0,
            whole.significand() >= 0,
    ;
}

/// A part whose power of two is ten or more below the whole's is less than
/// half a percent of it.
proof fn lemma_small_part_rounds_to_zero(part: Binary64, whole: Binary64)
    requires
        part.is_part_of(whole),
        whole.shift() - part.shift() >= 10,
    ensures
        part.rounded_percent_spec(whole) == 0,
{
    lemma_part_shape(part, whole);
    let d = (whole.shift() - part.shift()) as nat;
    let pv = pow2(part.shift()) as int;
    let pd = pow2(d) as int;
    let sv = part.significand();
    let sm = whole.significand();
    lemma_pow2_adds(d, part.shift());
    lemma_pow2_pos(part.shift());
    vstd::arithmetic::power2::lemma2_to64();
    if d > 10 {
        lemma_pow2_strictly_increases(10, d);
    }
    assert(pd >= 1024);
    assert(sm >= HIDDEN_BIT);
    assert(pow2(whole.shift()) == pd * pv);
    let v = part.scaled();
    let m = whole.scaled();
    assert(200 * v < m) by (nonlinear_arith)
        requires
            v == sv * pv,
            m == sm * (pd * pv),
            0 <= sv < 0x0020_0000_0000_0000,
            sm >= 0x0010_0000_0000_0000,
            pd >= 1024,
            pv > 0,
    ;
    lemma_basic_div(200 * v + m, 2 * m);
}

/// The common power of two of a part and its whole cancels in the quotient.
proof fn lemma_percent_cancels(part: Binary64, whole: Binary64, den: int)
    requires
        part.is_part_of(whole),
        part.shift() <= whole.shift(),
        den == whole.significand() * pow2((whole.shift() - part.shift()) as nat),
    ensures
        den > 0,
        part.rounded_percent_spec(whole) == (200 * part.significand() + den) / (2 * den),
        (200 * part.significand() + den) / (2 * den) <= 100,
{
    lemma_part_shape(part, whole);
    let d = (whole.shift() - part.shift()) as nat;
    let pv = pow2(part.shift()) as int;
    let pd = pow2(d) as int;
    let sv = part.significand();
    let sm = whole.significand();
    lemma_pow2_adds(d, part.shift());
    lemma_pow2_pos(part.shift());
    lemma_pow2_pos(d);
    let v = part.scaled();
    let m = whole.scaled();
    assert(den > 0) by (nonlinear_arith)
        requires
            den == sm * pd,
            sm > 0,
            pd > 0,
    ;
    assert(m == pv * den && v == pv * sv) by (nonlinear_arith)
        requires
            m == sm * (pd * pv),
            v == sv * pv,
            den == sm * pd,
    ;
    assert(200 * v + m == pv * (200 * sv + den) && 2 * m == pv * (2 * den)) by (nonlinear_arith)
        requires
            m == pv * den,
            v == pv * sv,
    ;
    lemma_div_multiples_vanish_quotient(pv, 200 * sv + den, 2 * den);
    assert(sv <= den) by (nonlinear_arith)
        requires
            pv * sv <= pv * den,
            pv > 0,
    ;
    assert((200 * sv + den) / (2 * den) <= 100) by (nonlinear_arith)
        requires
            0 <= sv <= den,
            den > 0,
    ;
}

/// Of two doubles that are not NaN and carry no sign, the one with the
/// smaller bit pattern has the smaller magnitude.
pub proof fn lemma_magnitude_increases(a: Binary64, b: Binary64)
    requires
        !a.is_nan_spec(),
        !b.is_nan_spec(),
        a.magnitude_bits() < b.magnitude_bits(),
    ensures
        a.scaled_magnitude() < b.scaled_magnitude(),
{
    let h = HIDDEN_BIT as int;
    let ea = a.biased_exponent();
    let eb = b.biased_exponent();
    let fa = a.fraction();
    let fb = b.fraction();
    let pa = pow2(a.shift()) as int;
    let pb = pow2(b.shift()) as int;
    lemma_pow2_pos(a.shift());
    lemma_pow2_pos(b.shift());
    assert(a.magnitude_bits() == ea * h + fa && 0 <= fa < h);
    assert(b.magnitude_bits() == eb * h + fb && 0 <= fb < h);
    assert(0 <= ea <= eb);
    if ea == eb {
        assert(fa < fb);
        assert(a.significand() < b.significand());
        assert(a.shift() == b.shift());
        assert(a.significand() * pa < b.significand() * pa) by (nonlinear_arith)
            requires
                a.significand() < b.significand(),
                pa > 0,
        ;
    } else if a.shift() == b.shift() {
        // The exponents are 0 and 1: subnormal against the smallest normals.
        assert(ea == 0 && eb == 1);
        assert(a.significand() < b.significand());
        assert(a.significand() * pa < b.significand() * pa) by (nonlinear_arith)
            requires
                a.significand() < b.significand(),
                pa > 0,
        ;
    } else {
        assert(a.shift() < b.shift());
        lemma_pow2_unfold((a.shift() + 1) as nat);
        if a.shift() + 1 < b.shift() {
            lemma_pow2_strictly_increases((a.shift() + 1) as nat, b.shift());
        }
        assert(2 * pa <= pb);
        assert(a.significand() < 2 * h);
        assert(b.significand() >= h);
        assert(a.significand() * pa < b.significand() * pb) by (nonlinear_arith)
            requires
                0 <= a.significand() < 2 * h,
                b.significand() >= h,
                h > 0,
                pa > 0,
                2 * pa <= pb,
        ;
    }
}

/// The order of two doubles that are not NaN is the order of their keys.
pub proof fn lemma_order_key_orders(a: Binary64, b: Binary64)
    requires
        !a.is_nan_spec(),
        !b.is_nan_spec(),
    ensures
        a.order_key() < b.order_key() <==> a.scaled() < b.scaled(),
        a.order_key() == b.order_key() ==> a.scaled() == b.scaled(),
{
    lemma_pow2_pos(a.shift());
    lemma_pow2_pos(b.shift());
    assert(a.scaled_magnitude() >= 0) by (nonlinear_arith)
        requires
            a.scaled_magnitude() == a.significand() * pow2(a.shift()),
            a.significand() >= 0,
            pow2(a.shift()) > 0,
    ;
    assert(b.scaled_magnitude() >= 0) by (nonlinear_arith)
        requires
            b.scaled_magnitude() == b.significand() * pow2(b.shift()),
            b.significand() >= 0,
            pow2(b.shift()) > 0,
    ;
    if a.magnitude_bits() < b.magnitude_bits() {
        lemma_magnitude_increases(a, b);
    } else if b.magnitude_bits() < a.magnitude_bits() {
        lemma_magnitude_increases(b, a);
    }
    lemma_zero_magnitude(a);
    lemma_zero_magnitude(b);
}

/// Only the two zeros have magnitude zero.
pub proof fn lemma_zero_magnitude(a: Binary64)
    requires
        !a.is_nan_spec(),
    ensures
        a.scaled_magnitude() == 0 <==> a.magnitude_bits() == 0,
        a.scaled_magnitude() >= 0,
{
    lemma_pow2_pos(a.shift());
    let p = pow2(a.shift()) as int;
    let s = a.significand();
    assert(s >= 0);
    assert(s == 0 <==> a.magnitude_bits() == 0);
    assert((s * p == 0 <==> s == 0) && s * p >= 0) by (nonlinear_arith)
        requires
            s >= 0,
            p > 0,
    ;
}

} // verus!
