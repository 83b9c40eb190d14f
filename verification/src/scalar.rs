//! Single-precision numbers as bit patterns.
//!
//! The renderer's numbers travel between its parts and to the GPU as IEEE-754
//! binary32 words. Arithmetic on them is the caller's; what is decided here is
//! what can be read off the bits exactly: sign, class and order.

use vstd::arithmetic::power2::lemma2_to64;
use vstd::arithmetic::power2::lemma_pow2_adds;
use vstd::arithmetic::power2::lemma_pow2_pos;
use vstd::arithmetic::power2::lemma_pow2_strictly_increases;
use vstd::arithmetic::power2::pow2;
use vstd::prelude::*;

verus! {

/// The number of mantissa values: 2 to the 23rd.
pub const MANTISSA_SPAN: u32 = 0x80_0000;

/// The exponent of the unit in which every single-precision number is
/// whole: all of them are multiples of 2 to the power -149.
pub const UNIT_EXPONENT: u32 = 149;

/// The sign bit of a binary32 word.
pub const SIGN_BIT: u32 = 0x8000_0000;

/// The magnitude bits of infinity; every larger magnitude is a NaN.
pub const INFINITY_MAGNITUDE: u32 = 0x7f80_0000;

/// Bits of 0.0.
pub const ZERO: u32 = 0x0000_0000;

/// Bits of 1.0.
pub const ONE: u32 = 0x3f80_0000;

/// Bits of -1.0.
pub const NEG_ONE: u32 = 0xbf80_0000;

/// Bits of -3.0.
pub const NEG_THREE: u32 = 0xc040_0000;

/// Bits of pi / 2, rounded to nearest.
pub const FRAC_PI_2: u32 = 0x3fc9_0fdb;

/// Bits of -(pi / 2), rounded to nearest.
pub const NEG_FRAC_PI_2: u32 = 0xbfc9_0fdb;

/// Bits of pi / 3, rounded to nearest.
pub const FRAC_PI_3: u32 = 0x3f86_0a92;

/// A single-precision IEEE-754 value, held by its bit pattern.
///
/// `==` on this type compares representations: it tells the two zeros apart
/// and finds a NaN equal to itself. The numeric comparison is
/// [`Float32::less_than`].
#[derive(Clone, Copy, Debug, PartialEq, Eq, Structural)]
pub struct Float32 {
    pub bits: u32,
}

impl Float32 {
    /// The bits without the sign.
    pub open spec fn magnitude(self) -> int {
        if self.bits >= SIGN_BIT {
            self.bits - SIGN_BIT
        } else {
            self.bits as int
        }
    }

    /// Whether the sign bit is set (true of -0.0 too).
    pub open spec fn is_negative(self) -> bool {
        self.bits >= SIGN_BIT
    }

    /// Whether the value is not a number.
    pub open spec fn is_nan(self) -> bool {
        self.magnitude() > INFINITY_MAGNITUDE
    }

    /// Whether the value is +0.0 or -0.0.
    pub open spec fn is_zero(self) -> bool {
        self.magnitude() == 0
    }

    /// The exponent field.
    pub open spec fn exponent(self) -> int {
        self.magnitude() / (MANTISSA_SPAN as int)
    }

    /// The mantissa field.
    pub open spec fn mantissa(self) -> int {
        self.magnitude() % (MANTISSA_SPAN as int)
    }

    /// The size of the number that the bits stand for, in units of 2 to the
    /// power -149: the mantissa, with its hidden bit unless the number is
    /// subnormal, shifted by the exponent. An infinity counts as the power
    /// of two that follows the largest finite number.
    pub open spec fn units_magnitude(self) -> int {
        if self.exponent() == 0 {
            self.mantissa()
        } else {
            (MANTISSA_SPAN + self.mantissa()) * pow2((self.exponent() - 1) as nat)
        }
    }

    /// The number that the bits stand for, in units of 2 to the power -149.
    pub open spec fn units(self) -> int {
        if self.is_negative() {
            -self.units_magnitude()
        } else {
            self.units_magnitude()
        }
    }

    /// Whether the number that the bits stand for is `num / den`.
    pub open spec fn is_ratio(self, num: int, den: int) -> bool {
        den * self.units() == num * pow2(UNIT_EXPONENT as nat)
    }

    /// Whether the number that the bits stand for lies less than `1 / den`
    /// from `num / den`.
    pub open spec fn is_near(self, num: int, den: int) -> bool {
        (num - 1) * pow2(UNIT_EXPONENT as nat) < den * self.units() < (num + 1) * pow2(
            UNIT_EXPONENT as nat,
        )
    }

    /// The place of a value that is not a NaN on the number line: an integer
    /// that grows with the value. Both zeros have rank 0.
    pub open spec fn rank(self) -> int {
        if self.is_negative() {
            -self.magnitude()
        } else {
            self.magnitude()
        }
    }

    /// Numeric `<`: false as soon as either side is a NaN.
    pub open spec fn lt(self, other: Float32) -> bool {
        !self.is_nan() && !other.is_nan() && self.rank() < other.rank()
    }

    /// `self` limited to `[lo, hi]`: a value under `lo` becomes `lo`, one over
    /// `hi` becomes `hi`, any other (a NaN too) stays what it is.
    pub open spec fn clamped(self, lo: Float32, hi: Float32) -> Float32 {
        if self.lt(lo) {
            lo
        } else if hi.lt(self) {
            hi
        } else {
            self
        }
    }

    /// Whether `self` is a number in `[lo, hi]`.
    pub open spec fn within(self, lo: Float32, hi: Float32) -> bool {
        !self.is_nan() && lo.rank() <= self.rank() <= hi.rank()
    }

    pub fn from_bits(bits: u32) -> (r: Float32)
        ensures
            r.bits == bits,
    {
        Float32 { bits }
    }

    pub fn to_bits(self) -> (bits: u32)
        ensures
            bits == self.bits,
    {
        self.bits
    }

    fn magnitude_bits(self) -> (m: u32)
        ensures
            m == self.magnitude(),
            m < SIGN_BIT,
    {
        if self.bits >= SIGN_BIT {
            self.bits - SIGN_BIT
        } else {
            self.bits
        }
    }

    fn rank_value(self) -> (r: i64)
        ensures
            r == self.rank(),
    {
        let m: u32 = self.magnitude_bits();
        if self.bits >= SIGN_BIT {
            -(m as i64)
        } else {
            m as i64
        }
    }

    /// The three fields of the bit pattern: whether the sign is set, the
    /// exponent, the mantissa.
    pub fn fields(self) -> (f: (bool, u32, u32))
        ensures
            f.0 == self.is_negative(),
            f.1 == self.exponent(),
            f.2 == self.mantissa(),
            f.1 <= 255,
            f.2 < MANTISSA_SPAN,
    {
        let m: u32 = self.magnitude_bits();
        (self.bits >= SIGN_BIT, m / MANTISSA_SPAN, m % MANTISSA_SPAN)
    }

    pub fn nan(self) -> (r: bool)
        ensures
            r == self.is_nan(),
    {
        self.magnitude_bits() > INFINITY_MAGNITUDE
    }

    pub fn zero(self) -> (r: bool)
        ensures
            r == self.is_zero(),
    {
        self.magnitude_bits() == 0
    }

    /// Numeric `<` of the two values.
    pub fn less_than(self, other: Float32) -> (r: bool)
        ensures
            r == self.lt(other),
    {
        !self.nan() && !other.nan() && self.rank_value() < other.rank_value()
    }

    /// Limits `self` to `[lo, hi]`. The bounds are numbers, `lo` not over
    /// `hi`.
    pub fn clamp(self, lo: Float32, hi: Float32) -> (r: Float32)
        requires
            !lo.is_nan(),
            !hi.is_nan(),
            lo.rank() <= hi.rank(),
        ensures
            r == self.clamped(lo, hi),
            !self.is_nan() ==> r.within(lo, hi),
            self.within(lo, hi) ==> r == self,
            self.is_nan() ==> r == self,
    {
        if self.less_than(lo) {
            lo
        } else if hi.less_than(self) {
            hi
        } else {
            self
        }
    }
}

proof fn lemma_units_magnitude_grows(a: Float32, b: Float32)
    requires
        a.magnitude() < b.magnitude(),
    ensures
        0 <= a.units_magnitude() < b.units_magnitude(),
{
    let span = MANTISSA_SPAN as int;
    let (ea, ma) = (a.exponent(), a.mantissa());
    let (eb, mb) = (b.exponent(), b.mantissa());
    assert(0 <= ma < span && 0 <= mb < span);
    assert(0 <= ea <= eb <= 255);
    assert(a.magnitude() == span * ea + ma && b.magnitude() == span * eb + mb);
    if eb == 0 {
    } else {
        let pb = pow2((eb - 1) as nat) as int;
        lemma_pow2_pos((eb - 1) as nat);
        assert((span + mb) * pb >= span * pb) by (nonlinear_arith)
            requires
                mb >= 0,
                pb > 0,
        ;
        assert(span * pb >= span) by (nonlinear_arith)
            requires
                pb >= 1,
                span > 0,
        ;
        if ea == 0 {
        } else {
            let pa = pow2((ea - 1) as nat) as int;
            lemma_pow2_pos((ea - 1) as nat);
            assert((span + ma) * pa >= 0) by (nonlinear_arith)
                requires
                    ma >= 0,
                    span > 0,
                    pa > 0,
            ;
            if ea == eb {
                assert(ma < mb);
                assert((span + ma) * pa < (span + mb) * pa) by (nonlinear_arith)
                    requires
                        ma < mb,
                        pa > 0,
                ;
            } else {
                assert(ea < eb) by {
                    if ea >= eb {
                        assert(ma < mb);
                    }
                }
                let pn = pow2(ea as nat) as int;
                lemma_pow2_adds((ea - 1) as nat, 1);
                lemma2_to64();
                assert(pn == 2 * pa) by (nonlinear_arith)
                    requires
                        pn == pa * 2,
                ;
                assert((span + ma) * pa < span * pn) by (nonlinear_arith)
                    requires
                        0 <= ma < span,
                        pa > 0,
                        pn == 2 * pa,
                ;
                if ea < eb - 1 {
                    lemma_pow2_strictly_increases(ea as nat, (eb - 1) as nat);
                }
                assert(pn <= pb);
                assert(span * pn <= span * pb) by (nonlinear_arith)
                    requires
                        pn <= pb,
                        span > 0,
                ;
            }
        }
    }
}

/// The order that is read off the bits is the order of the numbers that the
/// bits stand for: of two that are not NaN, the rank of one is less than the
/// rank of the other exactly where the number is less, and the ranks are
/// equal exactly where the numbers are.
pub proof fn lemma_rank_is_numeric_order(a: Float32, b: Float32)
    requires
        !a.is_nan(),
        !b.is_nan(),
    ensures
        a.rank() < b.rank() <==> a.units() < b.units(),
        a.rank() == b.rank() <==> a.units() == b.units(),
        a.lt(b) <==> a.units() < b.units(),
{
    if a.magnitude() < b.magnitude() {
        lemma_units_magnitude_grows(a, b);
    } else if b.magnitude() < a.magnitude() {
        lemma_units_magnitude_grows(b, a);
    }
    lemma_units_of_zero(a);
    lemma_units_of_zero(b);
}

proof fn lemma_units_of_zero(a: Float32)
    ensures
        a.units_magnitude() >= 0,
        a.magnitude() == 0 <==> a.units_magnitude() == 0,
{
    let zero = Float32 { bits: ZERO };
    if a.magnitude() > 0 {
        lemma_units_magnitude_grows(zero, a);
    }
}

/// How a positive normal number compares with a ratio is decided by its
/// fields: where the exponent is `e`, the number is its mantissa with the
/// hidden bit, over 2 to the power `150 - e`.
pub proof fn lemma_compare_with_ratio(x: Float32, num: int, den: int)
    requires
        !x.is_negative(),
        1 <= x.exponent() <= 150,
    ensures
        den * (MANTISSA_SPAN + x.mantissa()) == num * pow2((150 - x.exponent()) as nat)
            <==> x.is_ratio(num, den),
        den * (MANTISSA_SPAN + x.mantissa()) < num * pow2((150 - x.exponent()) as nat) <==> den
            * x.units() < num * pow2(UNIT_EXPONENT as nat),
        den * (MANTISSA_SPAN + x.mantissa()) > num * pow2((150 - x.exponent()) as nat) <==> den
            * x.units() > num * pow2(UNIT_EXPONENT as nat),
{
    let e = x.exponent();
    let sig = MANTISSA_SPAN + x.mantissa();
    let p = pow2((e - 1) as nat) as int;
    let q = pow2((150 - e) as nat) as int;
    let unit = pow2(UNIT_EXPONENT as nat) as int;
    lemma_pow2_pos((e - 1) as nat);
    lemma_pow2_adds((e - 1) as nat, (150 - e) as nat);
    assert(unit == p * q);
    assert(x.units() == sig * p);
    assert(den * (sig * p) == (den * sig) * p && num * (p * q) == (num * q) * p)
        by (nonlinear_arith);
    let left = den * sig;
    let right = num * q;
    assert((left == right <==> left * p == right * p) && (left < right <==> left * p < right * p)
        && (left > right <==> left * p > right * p)) by (nonlinear_arith)
        requires
            p > 0,
    ;
}

/// A number and the number with the other sign have the same size.
pub proof fn lemma_negated(x: Float32, y: Float32)
    requires
        x.magnitude() == y.magnitude(),
        x.is_negative() != y.is_negative(),
    ensures
        x.units() == -y.units(),
        forall|num: int, den: int| #[trigger] y.is_ratio(num, den) ==> x.is_ratio(-num, den),
        forall|num: int, den: int| #[trigger] y.is_near(num, den) ==> x.is_near(-num, den),
{
    let unit = pow2(UNIT_EXPONENT as nat) as int;
    assert forall|num: int, den: int| #[trigger] y.is_ratio(num, den) implies x.is_ratio(
        -num,
        den,
    ) by {
        assert(den * (-y.units()) == -(den * y.units()) && (-num) * unit == -(num * unit))
            by (nonlinear_arith);
    }
    assert forall|num: int, den: int| #[trigger] y.is_near(num, den) implies x.is_near(
        -num,
        den,
    ) by {
        assert(den * (-y.units()) == -(den * y.units()) && (-num - 1) * unit == -((num + 1)
            * unit) && (-num + 1) * unit == -((num - 1) * unit)) by (nonlinear_arith);
    }
}

/// The bits of the named constants stand for the numbers in their names:
/// the whole ones exactly, pi / 2 and pi / 3 to seven decimal places.
pub proof fn lemma_named_constants()
    ensures
        (Float32 { bits: ZERO }).is_ratio(0, 1),
        (Float32 { bits: ONE }).is_ratio(1, 1),
        (Float32 { bits: NEG_ONE }).is_ratio(-1, 1),
        (Float32 { bits: NEG_THREE }).is_ratio(-3, 1),
        (Float32 { bits: FRAC_PI_2 }).is_near(15_707_963, 10_000_000),
        (Float32 { bits: NEG_FRAC_PI_2 }).is_near(-15_707_963, 10_000_000),
        (Float32 { bits: FRAC_PI_3 }).is_near(10_471_976, 10_000_000),
{
    lemma2_to64();
    let one = Float32 { bits: ONE };
    assert(one.exponent() == 127 && one.mantissa() == 0);
    lemma_compare_with_ratio(one, 1, 1);
    lemma_negated(Float32 { bits: NEG_ONE }, one);
    let three = Float32 { bits: 0x4040_0000 };
    assert(three.exponent() == 128 && three.mantissa() == 0x40_0000);
    lemma_compare_with_ratio(three, 3, 1);
    lemma_negated(Float32 { bits: NEG_THREE }, three);
    let half_pi = Float32 { bits: FRAC_PI_2 };
    assert(half_pi.exponent() == 127 && half_pi.mantissa() == 0x49_0fdb);
    lemma_compare_with_ratio(half_pi, 15_707_962, 10_000_000);
    lemma_compare_with_ratio(half_pi, 15_707_964, 10_000_000);
    lemma_negated(Float32 { bits: NEG_FRAC_PI_2 }, half_pi);
    let third_pi = Float32 { bits: FRAC_PI_3 };
    assert(third_pi.exponent() == 127 && third_pi.mantissa() == 0x06_0a92);
    lemma_compare_with_ratio(third_pi, 10_471_975, 10_000_000);
    lemma_compare_with_ratio(third_pi, 10_471_977, 10_000_000);
}

/// The order that `rank` gives is a strict total order on the numbers, and
/// bit patterns of equal rank differ at most in the sign of zero.
pub proof fn lemma_rank_orders(a: Float32, b: Float32)
    requires
        !a.is_nan(),
        !b.is_nan(),
    ensures
        a.lt(b) || b.lt(a) || a.rank() == b.rank(),
        !(a.lt(b) && b.lt(a)),
        a.rank() == b.rank() ==> a == b || (a.is_zero() && b.is_zero()),
{
}

} // verus!
