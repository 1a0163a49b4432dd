//! A single-precision number, carried by its bits.
//!
//! Seconds, levels and rates come from the engine and the microphone as
//! single-precision floats. The rules here only ever compare them, cut them to
//! whole seconds or print them without decimals. All three are exact on the
//! bits, so that is how the value is held.

use vstd::arithmetic::div_mod::{
    lemma_div_multiples_vanish, lemma_div_multiples_vanish_quotient, lemma_mod_multiples_basic,
    lemma_truncate_middle,
};
use vstd::arithmetic::mul::{
    lemma_mul_inequality, lemma_mul_is_associative, lemma_mul_is_commutative,
    lemma_mul_strict_inequality,
};
use vstd::arithmetic::power2::{
    lemma2_to64, lemma_pow2_adds, lemma_pow2_pos, lemma_pow2_strictly_increases, lemma_pow2_unfold,
    pow2,
};
use vstd::prelude::*;
use vstd::string::*;

use crate::text;

verus! {

/// The bit pattern of an IEEE 754 single-precision number.
#[derive(Clone, Copy, Debug, PartialEq, Eq, Structural)]
pub struct Single {
    pub bits: u32,
}

/// The sign bit.
pub const SIGN: u32 = 0x8000_0000;

/// The magnitude of infinity; anything above it is not a number.
pub const INFINITE: u32 = 0x7F80_0000;

/// One past the largest fraction.
pub const FRACTIONS: u32 = 0x0080_0000;

impl Single {
    pub open spec fn is_negative(self) -> bool {
        self.bits >= SIGN
    }

    /// The bits below the sign.
    pub open spec fn magnitude(self) -> nat {
        (self.bits % SIGN) as nat
    }

    pub open spec fn is_nan(self) -> bool {
        self.magnitude() > INFINITE
    }

    pub open spec fn is_infinite(self) -> bool {
        self.magnitude() == INFINITE
    }

    pub open spec fn is_finite(self) -> bool {
        self.magnitude() < INFINITE
    }

    /// The exponent field.
    pub open spec fn exponent(self) -> nat {
        self.magnitude() / FRACTIONS as nat
    }

    /// The fraction, with the leading one that is not stored.
    pub open spec fn significand(self) -> nat {
        let fraction = self.magnitude() % FRACTIONS as nat;
        if self.exponent() == 0 {
            fraction
        } else {
            fraction + FRACTIONS as nat
        }
    }

    /// How far the significand is shifted.
    pub open spec fn shift(self) -> nat {
        if self.exponent() == 0 {
            0
        } else {
            (self.exponent() - 1) as nat
        }
    }

    /// The size of a finite number, counted in the smallest steps there are:
    /// two to the power of minus 149.
    pub open spec fn steps(self) -> nat {
        self.significand() * pow2(self.shift())
    }

    /// Where a number stands among the others. The two zeros stand together.
    pub open spec fn rank(self) -> int {
        if self.is_negative() {
            -(self.magnitude() as int)
        } else {
            self.magnitude() as int
        }
    }

    /// Numeric order. Nothing compares with what is not a number.
    pub open spec fn spec_less(self, other: Single) -> bool {
        !self.is_nan() && !other.is_nan() && self.rank() < other.rank()
    }

    pub open spec fn spec_is_positive(self) -> bool {
        !self.is_nan() && self.rank() > 0
    }

    /// The whole seconds in a number of seconds: cut off rather than rounded,
    /// nothing below zero, and no more than a `u32` holds.
    pub open spec fn spec_whole(self) -> nat {
        if self.is_nan() || self.is_negative() {
            0
        } else if self.is_infinite() || self.steps() / pow2(149) > u32::MAX {
            u32::MAX as nat
        } else {
            self.steps() / pow2(149)
        }
    }

    /// The nearest whole number to the size of a finite number, and the even
    /// one of two that are as near.
    pub open spec fn spec_nearest(self) -> nat {
        nearest(self.steps(), pow2(149))
    }

    /// The number printed without decimals.
    pub open spec fn spec_rounded(self) -> Seq<char> {
        if self.is_nan() {
            "NaN"@
        } else {
            let size = if self.is_infinite() {
                "inf"@
            } else {
                text::decimal(self.spec_nearest())
            };
            if self.is_negative() {
                "-"@ + size
            } else {
                size
            }
        }
    }

    /// The size of a finite number in tenths, to the nearest, and to the even
    /// one of two that are as near.
    pub open spec fn spec_nearest_tenth(self) -> nat {
        nearest(10 * self.steps(), pow2(149))
    }

    /// The number printed with one decimal.
    pub open spec fn spec_tenths(self) -> Seq<char> {
        if self.is_nan() {
            "NaN"@
        } else {
            let size = if self.is_infinite() {
                "inf"@
            } else {
                text::decimal(self.spec_nearest_tenth() / 10) + "."@ + text::decimal(
                    self.spec_nearest_tenth() % 10,
                )
            };
            if self.is_negative() {
                "-"@ + size
            } else {
                size
            }
        }
    }

    /// Whether this number is smaller than the other.
    pub fn less(self, other: Single) -> (smaller: bool)
        ensures
            smaller == self.spec_less(other),
    {
        let a: u32 = self.bits % SIGN;
        let b: u32 = other.bits % SIGN;
        if a > INFINITE || b > INFINITE {
            return false;
        }
        let below = self.bits >= SIGN;
        let other_below = other.bits >= SIGN;
        if below && other_below {
            a > b
        } else if below {
            a > 0 || b > 0
        } else if other_below {
            false
        } else {
            a < b
        }
    }

    /// Whether this number is above zero.
    pub fn is_positive(self) -> (positive: bool)
        ensures
            positive == self.spec_is_positive(),
    {
        0 < self.bits && self.bits <= INFINITE
    }

    fn field(self) -> (field: u32)
        requires
            self.is_finite(),
        ensures
            field == self.exponent(),
            field < 255,
    {
        (self.bits % SIGN) / FRACTIONS
    }

    fn lead(self) -> (lead: u32)
        ensures
            lead == self.significand(),
            lead < 0x100_0000,
            self.exponent() > 0 ==> lead >= FRACTIONS,
    {
        let magnitude = self.bits % SIGN;
        let fraction = magnitude % FRACTIONS;
        if magnitude / FRACTIONS == 0 {
            fraction
        } else {
            fraction + FRACTIONS
        }
    }

    /// The whole seconds in this many seconds.
    pub fn whole(self) -> (seconds: u32)
        ensures
            seconds == self.spec_whole(),
    {
        let magnitude = self.bits % SIGN;
        if magnitude > INFINITE || self.bits >= SIGN {
            return 0;
        }
        if magnitude == INFINITE {
            return u32::MAX;
        }
        let field = self.field();
        let lead = self.lead();
        proof {
            lemma_whole_part(self);
        }
        if field >= 150 {
            let up: u32 = field - 150;
            if up > 8 {
                proof {
                    lemma2_to64();
                    lemma_pow2_grows(9, up as nat);
                    lemma_mul_inequality(FRACTIONS as int, lead as int, pow2(up as nat) as int);
                    lemma_mul_inequality(
                        pow2(9) as int,
                        pow2(up as nat) as int,
                        FRACTIONS as int,
                    );
                    lemma_mul_is_commutative(pow2(9) as int, FRACTIONS as int);
                    lemma_mul_is_commutative(pow2(up as nat) as int, FRACTIONS as int);
                }
                return u32::MAX;
            }
            let scale = power_of_two(up);
            proof {
                lemma2_to64();
                lemma_pow2_grows(up as nat, 8);
                lemma_mul_inequality(scale as int, 256, lead as int);
                lemma_mul_is_commutative(scale as int, lead as int);
                lemma_mul_is_commutative(256, lead as int);
            }
            (lead as u128 * scale) as u32
        } else {
            let down: u32 = 150 - (if field == 0 {
                1
            } else {
                field
            });
            if down > 24 {
                proof {
                    lemma2_to64();
                    lemma_pow2_grows(24, down as nat);
                    vstd::arithmetic::div_mod::lemma_basic_div(
                        lead as int,
                        pow2(down as nat) as int,
                    );
                }
                return 0;
            }
            let scale = power_of_two(down);
            proof {
                lemma_pow2_pos(down as nat);
                vstd::arithmetic::div_mod::lemma_div_is_ordered_by_denominator(
                    lead as int,
                    1,
                    scale as int,
                );
            }
            (lead as u128 / scale) as u32
        }
    }

    /// The number printed without decimals.
    pub fn rounded(self) -> (printed: String)
        ensures
            printed@ == self.spec_rounded(),
    {
        let magnitude = self.bits % SIGN;
        if magnitude > INFINITE {
            return "NaN".to_owned();
        }
        let size = if magnitude == INFINITE {
            "inf".to_owned()
        } else {
            text::number(self.nearest_whole())
        };
        if self.bits >= SIGN {
            let mut printed = "-".to_owned();
            printed.append(size.as_str());
            printed
        } else {
            size
        }
    }

    /// The number printed with one decimal.
    pub fn tenths(self) -> (printed: String)
        ensures
            printed@ == self.spec_tenths(),
    {
        let magnitude = self.bits % SIGN;
        if magnitude > INFINITE {
            return "NaN".to_owned();
        }
        let size = if magnitude == INFINITE {
            "inf".to_owned()
        } else {
            let (whole, tenth) = self.nearest_tenth();
            let mut size = text::number(whole);
            size.append(".");
            size.append(text::number(tenth).as_str());
            size
        };
        if self.bits >= SIGN {
            let mut printed = "-".to_owned();
            printed.append(size.as_str());
            printed
        } else {
            size
        }
    }

    fn nearest_tenth(self) -> (size: (u128, u128))
        requires
            self.is_finite(),
        ensures
            size.0 == self.spec_nearest_tenth() / 10,
            size.1 == self.spec_nearest_tenth() % 10,
    {
        let field = self.field();
        let lead = self.lead();
        proof {
            lemma_pow2_pos(149);
            lemma_scaled_part(self, (10 * lead) as nat);
            lemma_mul_is_associative(10, lead as int, pow2(self.shift()) as int);
        }
        if field >= 150 {
            let size = self.nearest_whole();
            proof {
                lemma_whole_part(self);
                lemma_mul_is_associative(
                    10,
                    lead as int,
                    pow2((self.exponent() - 150) as nat) as int,
                );
            }
            (size, 0)
        } else {
            let down: u32 = 150 - (if field == 0 {
                1
            } else {
                field
            });
            if down > 30 {
                proof {
                    lemma2_to64();
                    lemma_pow2_grows(31, down as nat);
                    vstd::arithmetic::div_mod::lemma_basic_div(
                        10 * lead as int,
                        pow2(down as nat) as int,
                    );
                    vstd::arithmetic::div_mod::lemma_small_mod(
                        (10 * lead) as nat,
                        pow2(down as nat),
                    );
                }
                return (0, 0);
            }
            let scale = power_of_two(down);
            let ten: u128 = 10 * lead as u128;
            proof {
                lemma_pow2_pos(down as nat);
                lemma2_to64();
                lemma_pow2_grows(down as nat, 30);
                vstd::arithmetic::div_mod::lemma_div_is_ordered_by_denominator(
                    ten as int,
                    1,
                    scale as int,
                );
                vstd::arithmetic::div_mod::lemma_mod_bound(ten as int, scale as int);
            }
            let whole: u128 = ten / scale;
            let rest: u128 = ten % scale;
            let tenths: u128 = if 2 * rest > scale || (2 * rest == scale && whole % 2 == 1) {
                whole + 1
            } else {
                whole
            };
            (tenths / 10, tenths % 10)
        }
    }

    fn nearest_whole(self) -> (size: u128)
        requires
            self.is_finite(),
        ensures
            size == self.spec_nearest(),
    {
        let field = self.field();
        let lead = self.lead();
        proof {
            lemma_whole_part(self);
            lemma_pow2_pos(149);
        }
        if field >= 150 {
            let up: u32 = field - 150;
            let scale = power_of_two(up);
            proof {
                lemma_pow2_grows(up as nat, 104);
                lemma2_to64();
                assert(pow2(104) * pow2(24) == pow2(128)) by {
                    lemma_pow2_adds(104, 24);
                }
                lemma_pow2_adds(64, 64);
                lemma_mul_strict_inequality(lead as int, pow2(24) as int, scale as int);
                lemma_mul_inequality(scale as int, pow2(104) as int, pow2(24) as int);
                lemma_mul_is_commutative(scale as int, pow2(24) as int);
            }
            lead as u128 * scale
        } else {
            let down: u32 = 150 - (if field == 0 {
                1
            } else {
                field
            });
            if down > 25 {
                proof {
                    lemma2_to64();
                    lemma_pow2_grows(26, down as nat);
                    vstd::arithmetic::div_mod::lemma_basic_div(
                        lead as int,
                        pow2(down as nat) as int,
                    );
                    vstd::arithmetic::div_mod::lemma_small_mod(lead as nat, pow2(down as nat));
                }
                return 0;
            }
            let scale = power_of_two(down);
            proof {
                lemma_pow2_pos(down as nat);
                lemma2_to64();
                lemma_pow2_grows(down as nat, 25);
                vstd::arithmetic::div_mod::lemma_div_is_ordered_by_denominator(
                    lead as int,
                    1,
                    scale as int,
                );
                vstd::arithmetic::div_mod::lemma_mod_bound(lead as int, scale as int);
            }
            let whole: u128 = lead as u128 / scale;
            let rest: u128 = lead as u128 % scale;
            if 2 * rest > scale || (2 * rest == scale && whole % 2 == 1) {
                whole + 1
            } else {
                whole
            }
        }
    }
}

/// The nearest whole number to `size / unit`, and the even one of two that are
/// as near.
pub open spec fn nearest(size: nat, unit: nat) -> nat {
    let whole = size / unit;
    let rest = size % unit;
    if 2 * rest > unit || (2 * rest == unit && whole % 2 == 1) {
        whole + 1
    } else {
        whole
    }
}

fn power_of_two(exponent: u32) -> (power: u128)
    requires
        exponent < 128,
    ensures
        power == pow2(exponent as nat),
        power > 0,
{
    let mut power: u128 = 1;
    let mut i: u32 = 0;
    proof {
        lemma2_to64();
        lemma_pow2_adds(64, 64);
    }
    while i < exponent
        invariant
            i <= exponent < 128,
            power == pow2(i as nat),
            power > 0,
            pow2(128) == 0x1_0000_0000_0000_0000 * 0x1_0000_0000_0000_0000,
        decreases exponent - i,
    {
        proof {
            lemma_pow2_unfold((i + 1) as nat);
            lemma_pow2_grows((i + 1) as nat, 127);
            lemma_pow2_unfold(128);
        }
        power = power * 2;
        i = i + 1;
    }
    power
}

proof fn lemma_pow2_grows(a: nat, b: nat)
    requires
        a <= b,
    ensures
        0 < pow2(a) <= pow2(b),
{
    lemma_pow2_pos(a);
    if a < b {
        lemma_pow2_strictly_increases(a, b);
    }
}

/// What the steps come to in whole numbers, on the significand itself.
proof fn lemma_whole_part(n: Single)
    requires
        n.is_finite(),
    ensures
        n.exponent() >= 150 ==> {
            let size = n.significand() * pow2((n.exponent() - 150) as nat);
            n.steps() / pow2(149) == size && nearest(n.steps(), pow2(149)) == size
        },
        n.exponent() < 150 ==> {
            let unit = pow2((149 - n.shift()) as nat);
            n.steps() / pow2(149) == n.significand() / unit && nearest(n.steps(), pow2(149))
                == nearest(n.significand(), unit)
        },
{
    lemma_scaled_part(n, n.significand());
}

/// What a number shifted as this one is comes to in whole numbers.
proof fn lemma_scaled_part(n: Single, lead: nat)
    requires
        n.is_finite(),
    ensures
        n.exponent() >= 150 ==> {
            let size = lead * pow2((n.exponent() - 150) as nat);
            let steps = lead * pow2(n.shift());
            steps / pow2(149) == size && nearest(steps, pow2(149)) == size
        },
        n.exponent() < 150 ==> {
            let unit = pow2((149 - n.shift()) as nat);
            let steps = lead * pow2(n.shift());
            steps / pow2(149) == lead / unit && nearest(steps, pow2(149)) == nearest(lead, unit)
        },
{
    let lead = lead as int;
    let shift = n.shift();
    let steps = lead * pow2(shift);
    lemma_pow2_pos(149);
    lemma_pow2_pos(shift);
    if n.exponent() >= 150 {
        let up = (n.exponent() - 150) as nat;
        let size = lead * pow2(up);
        lemma_pow2_adds(149, up);
        assert(steps == pow2(149) * size) by {
            lemma_mul_is_commutative(pow2(149) as int, pow2(up) as int);
            lemma_mul_is_associative(lead, pow2(up) as int, pow2(149) as int);
            lemma_mul_is_commutative(size, pow2(149) as int);
        }
        lemma_div_multiples_vanish(size, pow2(149) as int);
        lemma_mul_is_commutative(size, pow2(149) as int);
        lemma_mod_multiples_basic(size, pow2(149) as int);
    } else {
        let down = (149 - shift) as nat;
        let unit = pow2(down) as int;
        let p = pow2(shift) as int;
        lemma_pow2_pos(down);
        lemma_pow2_adds(shift, down);
        lemma_mul_is_commutative(lead, p);
        assert(steps == p * lead);
        assert(pow2(149) == p * unit);
        lemma_div_multiples_vanish_quotient(p, lead, unit);
        lemma_truncate_middle(lead, p, unit);
        let rest = lead % unit;
        assert(steps % (pow2(149) as int) == p * rest);
        vstd::arithmetic::div_mod::lemma_mod_bound(lead, unit);
        assert(2 * (p * rest) == p * (2 * rest)) by (nonlinear_arith);
        lemma_scaling_keeps_order(p, 2 * rest, unit);
    }
}

proof fn lemma_scaling_keeps_order(p: int, a: int, b: int)
    requires
        p > 0,
    ensures
        p * a > p * b <==> a > b,
        p * a == p * b <==> a == b,
{
    assert(p * a > p * b <==> a > b) by (nonlinear_arith)
        requires
            p > 0,
    ;
    assert(p * a < p * b <==> a < b) by (nonlinear_arith)
        requires
            p > 0,
    ;
}

/// Numbers stand in the order of their sizes: of two finite numbers that are
/// not negative, the one that stands lower is the smaller.
pub proof fn lemma_order_follows_size(a: Single, b: Single)
    requires
        a.is_finite() && b.is_finite(),
        !a.is_negative() && !b.is_negative(),
    ensures
        a.spec_less(b) <==> a.steps() < b.steps(),
{
    if a.magnitude() < b.magnitude() {
        lemma_larger_means_more(a, b);
    } else if b.magnitude() < a.magnitude() {
        lemma_larger_means_more(b, a);
    }
}

proof fn lemma_larger_means_more(a: Single, b: Single)
    requires
        a.magnitude() < b.magnitude() < INFINITE,
    ensures
        a.steps() < b.steps(),
{
    let unit = FRACTIONS as int;
    lemma_pow2_pos(a.shift());
    lemma_pow2_pos(b.shift());
    if a.exponent() == b.exponent() {
        lemma_mul_strict_inequality(
            a.significand() as int,
            b.significand() as int,
            pow2(a.shift()) as int,
        );
    } else {
        assert(a.exponent() < b.exponent());
        let (p, q) = (pow2(a.shift()) as int, pow2(b.shift()) as int);
        let (m, n) = (a.significand() as int, b.significand() as int);
        assert(n * q >= unit * q) by (nonlinear_arith)
            requires
                n >= unit,
                q > 0,
        ;
        if a.exponent() == 0 {
            lemma2_to64();
            assert(unit * q >= unit) by (nonlinear_arith)
                requires
                    q >= 1,
                    unit > 0,
            ;
            assert(m * p == m) by (nonlinear_arith)
                requires
                    p == 1,
            ;
        } else {
            lemma_pow2_unfold(a.exponent());
            lemma_pow2_grows(a.exponent(), b.shift());
            assert(m * p < unit * q) by (nonlinear_arith)
                requires
                    0 <= m < 2 * unit,
                    0 < 2 * p <= q,
                    unit > 0,
            ;
        }
    }
}

/// Numbers compare as numbers do: none is below itself, order carries over,
/// what is not a number is below nothing and above nothing, a negative number
/// is below any that is not, and the two zeros are the same.
pub proof fn lemma_numbers_stand_in_order(a: Single, b: Single, c: Single)
    ensures
        !a.spec_less(a),
        a.spec_less(b) ==> !b.spec_less(a),
        a.spec_less(b) && b.spec_less(c) ==> a.spec_less(c),
        a.is_nan() ==> !a.spec_less(b) && !b.spec_less(a) && !a.spec_is_positive(),
        a.bits > SIGN && a.bits <= SIGN + INFINITE && b.bits <= INFINITE ==> a.spec_less(b),
        a.bits <= INFINITE && b.bits <= INFINITE ==> (a.spec_less(b) <==> a.bits < b.bits),
        SIGN <= a.bits <= SIGN + INFINITE && SIGN <= b.bits <= SIGN + INFINITE ==> (a.spec_less(b)
            <==> a.bits > b.bits),
        !(Single { bits: 0 }).spec_less(Single { bits: SIGN }),
        !(Single { bits: SIGN }).spec_less(Single { bits: 0 }),
        a.spec_is_positive() <==> (Single { bits: 0 }).spec_less(a),
{
}

/// What the bits of a number count: nothing at nothing, and from one bit
/// pattern to the next one step of a size that doubles with the exponent.
pub proof fn lemma_what_bits_count(n: Single)
    requires
        n.bits < INFINITE - 1,
    ensures
        (Single { bits: 0 }).steps() == 0,
        ({
            let next = Single { bits: (n.bits + 1) as u32 };
            let exponent = n.bits as nat / FRACTIONS as nat;
            &&& exponent == 0 ==> next.steps() == n.steps() + 1
            &&& exponent > 0 ==> next.steps() == n.steps() + pow2((exponent - 1) as nat)
        }),
{
    let next = Single { bits: (n.bits + 1) as u32 };
    lemma2_to64();
    assert((Single { bits: 0 }).steps() == 0) by (nonlinear_arith)
        requires
            (Single { bits: 0 }).steps() == (Single { bits: 0 }).significand() * pow2(
                (Single { bits: 0 }).shift(),
            ),
            (Single { bits: 0 }).significand() == 0,
    ;
    let (m, p) = (n.significand() as int, pow2(n.shift()) as int);
    if next.exponent() == n.exponent() {
        assert(next.significand() == n.significand() + 1);
        assert((m + 1) * p == m * p + p) by (nonlinear_arith);
    } else {
        assert(next.exponent() == n.exponent() + 1);
        assert(next.significand() == FRACTIONS);
        if n.exponent() == 0 {
            assert((m + 1) * p == m * p + p) by (nonlinear_arith);
        } else {
            lemma_pow2_unfold(n.exponent());
            assert(m + 1 == 2 * FRACTIONS);
            assert(FRACTIONS as int * (2 * p) == (m + 1) * p) by (nonlinear_arith)
                requires
                    m + 1 == 2 * FRACTIONS,
            ;
            assert((m + 1) * p == m * p + p) by (nonlinear_arith);
        }
    }
}

/// Whole seconds are cut off and never rounded up: there are as many as fit,
/// and one more would not. There are none below zero.
pub proof fn lemma_whole_seconds_are_those_that_fit(n: Single)
    ensures
        n.is_finite() && !n.is_negative() && n.spec_whole() < u32::MAX ==> n.spec_whole() * pow2(149)
            <= n.steps() < (n.spec_whole() + 1) * pow2(149),
        n.is_nan() || n.is_negative() ==> n.spec_whole() == 0,
        n.spec_whole() <= u32::MAX,
        n.is_infinite() && !n.is_negative() ==> n.spec_whole() == u32::MAX,
{
    lemma_pow2_pos(149);
    if n.is_finite() && !n.is_negative() {
        let (size, unit) = (n.steps() as int, pow2(149) as int);
        vstd::arithmetic::div_mod::lemma_fundamental_div_mod(size, unit);
        vstd::arithmetic::div_mod::lemma_mod_bound(size, unit);
        let whole = size / unit;
        assert(unit * whole == whole * unit) by (nonlinear_arith);
        assert((whole + 1) * unit == whole * unit + unit) by (nonlinear_arith);
    }
}

/// The nearest whole number is no further off than half a unit, and is even
/// where it is exactly that far off.
pub proof fn lemma_the_nearest_is_within_half(size: nat, unit: nat)
    requires
        unit > 0,
    ensures
        ({
            let off = nearest(size, unit) * unit - size;
            &&& -(unit as int) <= 2 * off <= unit
            &&& 2 * off == unit || 2 * off == -(unit as int) ==> nearest(size, unit) % 2 == 0
        }),
{
    let (whole, rest) = ((size / unit) as int, (size % unit) as int);
    vstd::arithmetic::div_mod::lemma_fundamental_div_mod(size as int, unit as int);
    vstd::arithmetic::div_mod::lemma_mod_bound(size as int, unit as int);
    assert(unit * whole == whole * unit) by (nonlinear_arith);
    assert((whole + 1) * unit == whole * unit + unit) by (nonlinear_arith);
}

/// A number is printed by its nearest whole number, or its nearest tenth, with
/// a sign where it is negative, and by name where it has no size.
pub proof fn lemma_how_a_number_is_printed(n: Single)
    ensures
        n.is_nan() ==> n.spec_rounded() == "NaN"@ && n.spec_tenths() == "NaN"@,
        n.is_infinite() && !n.is_negative() ==> n.spec_rounded() == "inf"@ && n.spec_tenths()
            == "inf"@,
        n.is_finite() && !n.is_negative() ==> {
            let (whole, tenth) = (
                nearest(n.steps(), pow2(149)),
                nearest(10 * n.steps(), pow2(149)),
            );
            &&& text::reading(n.spec_rounded()) == whole
            &&& n.spec_tenths() == text::decimal(tenth / 10) + "."@ + text::decimal(tenth % 10)
        },
        n.is_negative() && !n.is_nan() ==> {
            let flipped = Single { bits: (n.bits - SIGN) as u32 };
            &&& n.spec_rounded() == "-"@ + flipped.spec_rounded()
            &&& n.spec_tenths() == "-"@ + flipped.spec_tenths()
        },
{
    if n.is_finite() {
        text::lemma_a_number_reads_back(n.spec_nearest());
    }
}

} // verus!
