//! Similarity scores.
//!
//! A score is a single-precision IEEE-754 number. It is held here as its bit
//! pattern, so that ordering and rendering are exact integer computations.

use vstd::prelude::*;
use crate::engine::text::{decimal, decimal_text, digit_char, digits, push_char};

verus! {

/// Two to the power `k`.
pub open spec fn two_pow(k: nat) -> nat
    decreases k,
{
    if k == 0 {
        1
    } else {
        2 * two_pow((k - 1) as nat)
    }
}

/// `n / d` rounded to the nearest integer, a tie going to the even one.
pub open spec fn round_half_even(n: nat, d: nat) -> nat {
    let q = n / d;
    let r = n % d;
    if 2 * r > d || (2 * r == d && q % 2 == 1) {
        q + 1
    } else {
        q
    }
}

/// A similarity score, stored as the bit pattern of an IEEE-754 single.
#[derive(Clone, Copy, Debug)]
pub struct Score {
    pub bits: u32,
}

impl Score {
    /// The pattern without its sign bit.
    pub open spec fn magnitude(self) -> int {
        self.bits as int % 0x8000_0000
    }

    /// Whether the sign bit is set.
    pub open spec fn is_negative(self) -> bool {
        self.bits >= 0x8000_0000
    }

    /// Whether the pattern encodes "not a number".
    pub open spec fn is_nan(self) -> bool {
        self.magnitude() > 0x7f80_0000
    }

    /// An integer that orders all patterns but NaN as the numbers they encode.
    /// Both zeros map to 0.
    pub open spec fn order_key(self) -> int {
        if self.is_negative() {
            -self.magnitude()
        } else {
            self.magnitude()
        }
    }

    /// `self >= threshold` as IEEE-754 defines it: false whenever either side
    /// is NaN, otherwise the numeric comparison.
    pub open spec fn reaches(self, threshold: Score) -> bool {
        &&& !self.is_nan()
        &&& !threshold.is_nan()
        &&& self.order_key() >= threshold.order_key()
    }

    /// An integer by which all scores can be ranked: the order key of a
    /// number, and a key below all of those for a NaN.
    pub open spec fn rank_key(self) -> int {
        if self.is_nan() {
            -0x8000_0000
        } else {
            self.order_key()
        }
    }

    /// Whether the pattern encodes negative infinity.
    pub open spec fn is_least(self) -> bool {
        self.bits == 0xff80_0000
    }

    /// The greatest score below this one. It is meant for a score that is
    /// neither NaN nor negative infinity.
    pub open spec fn next_below(self) -> Score {
        if self.magnitude() == 0 {
            Score { bits: 0x8000_0001 }
        } else if self.is_negative() {
            Score { bits: (self.bits + 1) as u32 }
        } else {
            Score { bits: (self.bits - 1) as u32 }
        }
    }

    /// Whether the score is a number between 0 and 1, both included.
    pub open spec fn in_unit_interval(self) -> bool {
        !self.is_nan() && 0 <= self.order_key() <= 0x3f80_0000
    }

    /// Whether the pattern encodes an infinity.
    pub open spec fn is_infinite(self) -> bool {
        self.magnitude() == 0x7f80_0000
    }

    /// The integer `m` for which the encoded number has the absolute value
    /// `m * 2^shift`.
    pub open spec fn significand(self) -> nat {
        if self.magnitude() / 0x80_0000 == 0 {
            (self.magnitude() % 0x80_0000) as nat
        } else {
            (self.magnitude() % 0x80_0000 + 0x80_0000) as nat
        }
    }

    /// The power of two by which the significand is scaled.
    pub open spec fn shift(self) -> int {
        if self.magnitude() / 0x80_0000 == 0 {
            -149
        } else {
            self.magnitude() / 0x80_0000 - 150
        }
    }

    /// A hundred times the absolute value of a finite score, rounded to the
    /// nearest integer, a tie going to the even one.
    pub open spec fn hundredths(self) -> nat {
        if self.shift() >= 0 {
            self.significand() * two_pow(self.shift() as nat) * 100
        } else {
            round_half_even(self.significand() * 100, two_pow((-self.shift()) as nat))
        }
    }

    /// The score written with two decimals: `NaN` for a NaN; otherwise a `-`
    /// if the sign bit is set, followed by `inf` for an infinity and else by
    /// the absolute value rounded to hundredths (a tie going to the even
    /// neighbour), as an integer part without leading zeros, a point and two
    /// digits.
    pub open spec fn two_decimals(self) -> Seq<char> {
        if self.is_nan() {
            seq!['N', 'a', 'N']
        } else {
            let sign = if self.is_negative() {
                seq!['-']
            } else {
                Seq::<char>::empty()
            };
            if self.is_infinite() {
                sign + seq!['i', 'n', 'f']
            } else {
                let h = self.hundredths();
                sign + decimal(h / 100) + seq![
                    '.',
                    digits()[(h / 10 % 10) as int],
                    digits()[(h % 10) as int],
                ]
            }
        }
    }

    /// Wraps a bit pattern.
    pub fn from_bits(bits: u32) -> (score: Score)
        ensures
            score.bits == bits,
    {
        Score { bits }
    }

    /// The bit pattern.
    pub fn to_bits(&self) -> (bits: u32)
        ensures
            bits == self.bits,
    {
        self.bits
    }

    /// Compares two scores numerically.
    pub fn at_least(&self, threshold: Score) -> (holds: bool)
        ensures
            holds == self.reaches(threshold),
    {
        let (mag_a, neg_a) = split(self.bits);
        let (mag_b, neg_b) = split(threshold.bits);
        if mag_a > 0x7f80_0000 || mag_b > 0x7f80_0000 {
            false
        } else if neg_a && neg_b {
            mag_a <= mag_b
        } else if neg_a {
            mag_a == 0 && mag_b == 0
        } else if neg_b {
            true
        } else {
            mag_a >= mag_b
        }
    }
}

impl Score {
    /// Whether the score is a number between 0 and 1, both included.
    pub fn is_fraction(&self) -> (holds: bool)
        ensures
            holds == self.in_unit_interval(),
    {
        let (mag, neg) = split(self.bits);
        if neg {
            mag == 0
        } else {
            mag <= 0x3f80_0000
        }
    }

    /// The integer by which the score is ranked.
    pub fn rank(&self) -> (key: i64)
        ensures
            key == self.rank_key(),
    {
        let (mag, neg) = split(self.bits);
        if mag > 0x7f80_0000 {
            -0x8000_0000
        } else if neg {
            -(mag as i64)
        } else {
            mag as i64
        }
    }

    /// Writes the score with two decimals.
    pub fn render(&self) -> (text: String)
        ensures
            text@ == self.two_decimals(),
    {
        let (mag, neg) = split(self.bits);
        let mut text = String::new();
        if mag > 0x7f80_0000 {
            push_char(&mut text, 'N');
            push_char(&mut text, 'a');
            push_char(&mut text, 'N');
            return text;
        }
        if neg {
            push_char(&mut text, '-');
        }
        if mag == 0x7f80_0000 {
            push_char(&mut text, 'i');
            push_char(&mut text, 'n');
            push_char(&mut text, 'f');
            return text;
        }
        let (whole, tens, ones) = self.split_hundredths();
        let numeral = decimal_text(whole);
        text.append(numeral.as_str());
        push_char(&mut text, '.');
        push_char(&mut text, digit_char(tens));
        push_char(&mut text, digit_char(ones));
        text
    }

    /// The integer part and the two decimal digits of a finite score's
    /// absolute value, rounded to hundredths.
    fn split_hundredths(&self) -> (parts: (u128, u8, u8))
        requires
            self.magnitude() < 0x7f80_0000,
        ensures
            parts.0 == self.hundredths() / 100,
            parts.1 == self.hundredths() / 10 % 10,
            parts.2 == self.hundredths() % 10,
    {
        let (mag, _neg) = split(self.bits);
        let field: u32 = mag / 0x80_0000;
        let fraction: u32 = mag % 0x80_0000;
        let significand: u32 = if field == 0 {
            fraction
        } else {
            fraction + 0x80_0000
        };
        if field >= 150 {
            let whole = scale_up(significand, field - 150);
            proof {
                let h = self.hundredths() as int;
                assert(h == whole * 100);
            }
            (whole, 0u8, 0u8)
        } else {
            let down: u32 = if field == 0 {
                149
            } else {
                150 - field
            };
            let h = scale_down(significand as u64 * 100, down);
            let cents = h % 100;
            ((h / 100) as u128, (cents / 10) as u8, (cents % 10) as u8)
        }
    }
}

/// The threshold is an inclusive bound: a score equal to it reaches it, the
/// next score below it does not, and no score that fails to reach it lies
/// above that one.
pub proof fn lemma_threshold_boundary(threshold: Score)
    requires
        !threshold.is_nan(),
        !threshold.is_least(),
    ensures
        threshold.reaches(threshold),
        !threshold.next_below().is_nan(),
        !threshold.next_below().reaches(threshold),
        threshold.next_below().order_key() == threshold.order_key() - 1,
        forall|score: Score|
            !score.is_nan() && !(#[trigger] score.reaches(threshold)) ==> score.order_key()
                <= threshold.next_below().order_key(),
{
}

/// Doubling keeps pace with `two_pow`, and `two_pow` grows.
proof fn lemma_two_pow_grows(a: nat, b: nat)
    requires
        a <= b,
    ensures
        0 < two_pow(a) <= two_pow(b),
    decreases b,
{
    if a < b {
        lemma_two_pow_grows(a, (b - 1) as nat);
    } else if a > 0 {
        lemma_two_pow_grows((a - 1) as nat, (a - 1) as nat);
    }
}

/// `two_pow` at the exponents that bound the arithmetic below.
proof fn lemma_two_pow_values()
    ensures
        two_pow(40) == 0x100_0000_0000,
        two_pow(104) == 0x100_0000_0000_0000_0000_0000_0000,
{
    reveal_with_fuel(two_pow, 41);
    assert(two_pow(40) == 0x100_0000_0000);
    lemma_two_pow_sum(40, 40);
    lemma_two_pow_sum(80, 24);
    reveal_with_fuel(two_pow, 25);
    assert(two_pow(24) == 0x100_0000);
}

/// `two_pow` turns sums into products.
proof fn lemma_two_pow_sum(a: nat, b: nat)
    ensures
        two_pow(a + b) == two_pow(a) * two_pow(b),
    decreases b,
{
    if b > 0 {
        lemma_two_pow_sum(a, (b - 1) as nat);
        assert(2 * (two_pow(a) * two_pow((b - 1) as nat)) == two_pow(a) * (2 * two_pow(
            (b - 1) as nat,
        ))) by (nonlinear_arith);
    } else {
        assert(two_pow(a) * 1 == two_pow(a));
    }
}

/// `significand * 2^up`.
fn scale_up(significand: u32, up: u32) -> (scaled: u128)
    requires
        significand < 0x100_0000,
        up <= 104,
    ensures
        scaled == significand * two_pow(up as nat),
{
    let mut scaled: u128 = significand as u128;
    let mut i: u32 = 0;
    assert(significand * two_pow(0) == significand) by (nonlinear_arith)
        requires
            two_pow(0) == 1,
    ;
    while i < up
        invariant
            i <= up <= 104,
            significand < 0x100_0000,
            scaled == significand * two_pow(i as nat),
        decreases up - i,
    {
        proof {
            lemma_two_pow_grows(i as nat, 103);
            lemma_two_pow_grows(103, 103);
            lemma_two_pow_values();
            assert(two_pow(104) == 2 * two_pow(103));
            assert(significand * two_pow(i as nat) <= 0x100_0000 * two_pow(103)) by (nonlinear_arith)
                requires
                    significand < 0x100_0000,
                    two_pow(i as nat) <= two_pow(103),
            ;
            assert(significand * (2 * two_pow(i as nat)) == 2 * (significand * two_pow(i as nat)))
                by (nonlinear_arith);
            assert(scaled <= 0xff_ffff * 0x80_0000_0000_0000_0000_0000_0000) by (nonlinear_arith)
                requires
                    scaled == significand * two_pow(i as nat),
                    significand <= 0xff_ffff,
                    0 <= two_pow(i as nat) <= 0x80_0000_0000_0000_0000_0000_0000,
            ;
        }
        scaled = scaled * 2;
        i += 1;
    }
    scaled
}

/// `n / 2^down`, rounded to the nearest integer, a tie going to the even one.
fn scale_down(n: u64, down: u32) -> (rounded: u64)
    requires
        n < 0x8000_0000,
        1 <= down,
    ensures
        rounded == round_half_even(n as nat, two_pow(down as nat)),
        rounded <= n,
{
    if down >= 40 {
        proof {
            lemma_two_pow_grows(40, down as nat);
            lemma_two_pow_values();
            let d = two_pow(down as nat);
            assert(n as nat / d == 0 && n as nat % d == n) by (nonlinear_arith)
                requires
                    0 <= n < d,
            ;
        }
        0
    } else {
        let mut d: u64 = 1;
        let mut i: u32 = 0;
        while i < down
            invariant
                i <= down < 40,
                d == two_pow(i as nat),
            decreases down - i,
        {
            proof {
                lemma_two_pow_grows(i as nat, 39);
                lemma_two_pow_grows(39, 39);
                lemma_two_pow_values();
                assert(two_pow(40) == 2 * two_pow(39));
            }
            d = d * 2;
            i += 1;
        }
        proof {
            lemma_two_pow_grows(1, down as nat);
            assert(two_pow(1) == 2) by {
                reveal_with_fuel(two_pow, 2);
            }
            lemma_two_pow_grows(down as nat, 39);
            lemma_two_pow_values();
        }
        let q = n / d;
        let r = n % d;
        assert(q <= n / 2) by (nonlinear_arith)
            requires
                q == n / d,
                d >= 2,
                n >= 0,
        ;
        assert(r <= n) by (nonlinear_arith)
            requires
                r == n % d,
                d >= 2,
                n >= 0,
        ;
        if 2 * r > d || (2 * r == d && q % 2 == 1) {
            q + 1
        } else {
            q
        }
    }
}

/// Splits a pattern into magnitude and sign.
fn split(bits: u32) -> (parts: (u32, bool))
    ensures
        parts.0 as int == (Score { bits }).magnitude(),
        parts.1 == (Score { bits }).is_negative(),
{
    if bits >= 0x8000_0000 {
        (bits - 0x8000_0000, true)
    } else {
        (bits, false)
    }
}

} // verus!
