//! Measured quantities, held as the sixty-four bits of an IEEE 754 double.
//!
//! A pattern is read as a sign bit, eleven bits of exponent and fifty-two
//! bits of fraction. Everything here is integer arithmetic on those parts.

use vstd::prelude::*;
use vstd::std_specs::cmp::PartialEqSpecImpl;
use vstd::string::*;
use crate::text::{decimal, decimal_text, scaled_decimal_text, two_to};

verus! {

/// Two to the power 52: the weight of the hidden bit of a significand.
pub const HIDDEN_BIT: u64 = 0x10_0000_0000_0000;

/// Two to the power 63: the sign bit.
pub const SIGN_BIT: u64 = 0x8000_0000_0000_0000;

/// The exponent field of infinities and of values that are no number.
pub const TOP_EXPONENT: u64 = 0x7ff;

/// The scale at which a significand counts whole units.
pub const UNIT_SCALE: u64 = 1075;

/// The quotient of `m` by `d`, rounded to the nearest whole number, a half
/// going up.
pub open spec fn round_half_up(m: nat, d: nat) -> nat {
    ((2 * m + d) as int / (2 * d) as int) as nat
}

/// A double-precision binary number, kept as its bit pattern.
#[derive(Debug, Clone, Copy)]
pub struct Binary64 {
    pub bits: u64,
}

impl Binary64 {
    /// Whether the sign bit is set.
    pub open spec fn is_negative(self) -> bool {
        self.bits >= SIGN_BIT
    }

    /// The exponent field.
    pub open spec fn exponent(self) -> int {
        (self.bits as int / HIDDEN_BIT as int) % 0x800
    }

    /// The fraction field.
    pub open spec fn fraction(self) -> int {
        self.bits as int % HIDDEN_BIT as int
    }

    /// Whether the pattern stands for no number at all.
    pub open spec fn is_nan(self) -> bool {
        self.exponent() == TOP_EXPONENT && self.fraction() != 0
    }

    /// Whether the pattern stands for an infinity.
    pub open spec fn is_infinite(self) -> bool {
        self.exponent() == TOP_EXPONENT && self.fraction() == 0
    }

    /// Whether the pattern stands for zero, of either sign.
    pub open spec fn is_zero(self) -> bool {
        self.exponent() == 0 && self.fraction() == 0
    }

    /// The significand of a finite value, with the hidden bit where the
    /// exponent field is not zero.
    pub open spec fn significand(self) -> nat {
        if self.exponent() == 0 {
            self.fraction() as nat
        } else {
            (self.fraction() + HIDDEN_BIT) as nat
        }
    }

    /// The scale of a finite value: its magnitude is the significand times
    /// two to the power `scale - 1075`.
    pub open spec fn scale(self) -> int {
        if self.exponent() == 0 {
            1
        } else {
            self.exponent()
        }
    }

    /// The magnitude of a finite value rounded to the nearest whole number,
    /// a half going away from zero. At scale 1075 and above the value is
    /// whole already; below, with `d` the weight of one unit, it is the
    /// significand plus half a unit, divided by the unit and cut off.
    pub open spec fn rounded_magnitude(self) -> nat {
        let m = self.significand();
        let e = self.scale();
        if e >= UNIT_SCALE {
            m * two_to((e - UNIT_SCALE) as nat)
        } else {
            round_half_up(m, two_to((UNIT_SCALE - e) as nat))
        }
    }

    /// The value rounded to the nearest whole number and written out: the
    /// digits of the magnitude behind a minus sign if the sign bit is set
    /// (so a small negative value gives `-0`), and a word for the patterns
    /// that stand for no finite number.
    pub open spec fn rounded_text(self) -> Seq<char> {
        if self.is_nan() {
            "NaN"@
        } else if self.is_infinite() {
            if self.is_negative() {
                "-inf"@
            } else {
                "inf"@
            }
        } else if self.is_negative() {
            "-"@ + decimal(self.rounded_magnitude())
        } else {
            decimal(self.rounded_magnitude())
        }
    }

    /// Equality of the numbers that two patterns stand for: what is no
    /// number equals nothing, itself included, and the two zeros are equal.
    pub open spec fn same_number(self, other: Binary64) -> bool {
        &&& !self.is_nan()
        &&& !other.is_nan()
        &&& (self.bits == other.bits || (self.is_zero() && other.is_zero()))
    }

    /// The number with this bit pattern.
    pub fn from_bits(bits: u64) -> (number: Binary64)
        ensures
            number.bits == bits,
    {
        Binary64 { bits }
    }

    /// The bit pattern of the number.
    pub fn to_bits(&self) -> (bits: u64)
        ensures
            bits == self.bits,
    {
        self.bits
    }

    /// The eleven bits below the sign bit.
    fn exponent_field(&self) -> (e: u64)
        ensures
            e == self.exponent(),
            e <= TOP_EXPONENT,
    {
        (self.bits / HIDDEN_BIT) % 0x800
    }

    /// The lowest fifty-two bits.
    fn fraction_field(&self) -> (f: u64)
        ensures
            f == self.fraction(),
            f < HIDDEN_BIT,
    {
        self.bits % HIDDEN_BIT
    }

    /// Whether the pattern stands for no number at all.
    pub fn check_nan(&self) -> (nan: bool)
        ensures
            nan == self.is_nan(),
    {
        self.exponent_field() == TOP_EXPONENT && self.fraction_field() != 0
    }

    /// The rounded magnitude where the scale is below 1075, so that the
    /// value has a part behind the point.
    fn rounded_below_unit(m: u64, e: u64) -> (r: u64)
        requires
            m < 2 * HIDDEN_BIT,
            1 <= e < UNIT_SCALE,
        ensures
            r == round_half_up(m as nat, two_to((UNIT_SCALE - e) as nat)),
    {
        let shift: u64 = UNIT_SCALE - e;
        let ghost unit = two_to(shift as nat);
        if shift > 53 {
            proof {
                lemma_two_to_monotonic(54, shift as nat);
                lemma_two_to_54();
                assert((2 * m + unit) as int / (2 * unit) as int == 0) by (nonlinear_arith)
                    requires
                        0 <= 2 * m < unit,
                ;
            }
            return 0;
        }
        let mut d: u64 = 1;
        let mut j: u64 = 0;
        while j < shift
            invariant
                j <= shift <= 53,
                d == two_to(j as nat),
                d >= 1,
            decreases shift - j,
        {
            proof {
                lemma_two_to_monotonic((j + 1) as nat, 53);
                lemma_two_to_54();
            }
            d = 2 * d;
            j = j + 1;
        }
        proof {
            lemma_two_to_monotonic(shift as nat, 53);
            lemma_two_to_54();
        }
        (2 * m + d) / (2 * d)
    }

    /// The value rounded to the nearest whole number, a half going away from
    /// zero, as text.
    pub fn rounded(&self) -> (text: String)
        ensures
            text@ == self.rounded_text(),
    {
        let e = self.exponent_field();
        let f = self.fraction_field();
        let negative = self.bits >= SIGN_BIT;
        if e == TOP_EXPONENT {
            if f != 0 {
                return String::from_str("NaN");
            } else if negative {
                return String::from_str("-inf");
            } else {
                return String::from_str("inf");
            }
        }
        let m: u64 = if e == 0 {
            f
        } else {
            f + HIDDEN_BIT
        };
        let scale: u64 = if e == 0 {
            1
        } else {
            e
        };
        let digits = if scale >= UNIT_SCALE {
            scaled_decimal_text(m, (scale - UNIT_SCALE) as u32)
        } else {
            decimal_text(Self::rounded_below_unit(m, scale))
        };
        if negative {
            let mut text = String::from_str("-");
            text.append(digits.as_str());
            text
        } else {
            digits
        }
    }
}

impl PartialEq for Binary64 {
    fn eq(&self, other: &Binary64) -> (equal: bool) {
        !self.check_nan() && !other.check_nan() && (self.bits == other.bits || (self.bits
            % SIGN_BIT == 0 && other.bits % SIGN_BIT == 0))
    }
}

impl PartialEqSpecImpl for Binary64 {
    open spec fn obeys_eq_spec() -> bool {
        true
    }

    open spec fn eq_spec(&self, other: &Binary64) -> bool {
        self.same_number(*other)
    }
}

/// Among patterns that stand for numbers, being the same number is an
/// equivalence.
pub proof fn lemma_same_number_is_equivalence(a: Binary64, b: Binary64, c: Binary64)
    ensures
        !a.is_nan() ==> a.same_number(a),
        a.same_number(b) ==> b.same_number(a),
        a.same_number(b) && b.same_number(c) ==> a.same_number(c),
{
}

/// The rounded quotient is the whole number nearest to `m / d`: it lies no
/// more than half above the quotient and less than half below it, so that
/// a half goes up.
pub proof fn lemma_round_half_up_is_nearest(m: nat, d: nat)
    requires
        d > 0,
    ensures
        2 * m - d < 2 * d * round_half_up(m, d) <= 2 * m + d,
{
    let q = round_half_up(m, d) as int;
    let n = (2 * m + d) as int;
    let k = (2 * d) as int;
    assert(q == n / k);
    assert(n == k * (n / k) + n % k && 0 <= n % k < k) by (nonlinear_arith)
        requires
            k > 0,
    ;
    assert(2 * d * q == k * (n / k)) by (nonlinear_arith)
        requires
            k == 2 * d,
            q == n / k,
    ;
}

/// A larger exponent gives no smaller power of two.
proof fn lemma_two_to_monotonic(a: nat, b: nat)
    requires
        a <= b,
    ensures
        two_to(a) <= two_to(b),
    decreases b,
{
    if a < b {
        lemma_two_to_monotonic(a, (b - 1) as nat);
    }
}

/// The two powers of two next above the largest significand.
proof fn lemma_two_to_54()
    ensures
        two_to(53) == 0x20_0000_0000_0000,
        two_to(54) == 0x40_0000_0000_0000,
{
    reveal_with_fuel(two_to, 55);
}

} // verus!
