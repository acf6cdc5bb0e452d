//! Human-scaled quantities: a raw counter as a magnitude and unit pair.

use vstd::prelude::*;
use vstd::arithmetic::div_mod::{
    lemma_div_is_ordered, lemma_div_is_ordered_by_denominator, lemma_fundamental_div_mod,
    lemma_hoist_over_denominator, lemma_small_mod,
};
use vstd::string::StringExecFns;
use crate::text::{digit_str, spec_digit_char, spec_digits, u64_string};

verus! {

/// 1024 raised to the power `n`.
pub open spec fn pow1024(n: nat) -> nat
    decreases n,
{
    if n == 0 {
        1
    } else {
        1024 * pow1024((n - 1) as nat)
    }
}

/// The divisor that takes a raw counter to the magnitude of unit level
/// `level`: the source counters are in bits, so the first level divides
/// by 8, and each further level divides by 1024 more.
pub open spec fn spec_den(level: u8) -> nat
    recommends
        1 <= level,
{
    8 * pow1024((level - 1) as nat)
}

/// The unit level a raw counter scales to: the smallest level at which
/// the magnitude falls below 1024, capped at the largest unit.
pub open spec fn spec_level(raw: u64) -> u8 {
    if raw < 8192 {
        1
    } else if raw < 8388608 {
        2
    } else if raw < 8589934592 {
        3
    } else if raw < 8796093022208 {
        4
    } else {
        5
    }
}

/// The display character of a unit level: k, M, G, T or P.
pub open spec fn spec_unit_char(level: u8) -> char {
    if level <= 1 {
        'k'
    } else if level == 2 {
        'M'
    } else if level == 3 {
        'G'
    } else if level == 4 {
        'T'
    } else {
        'P'
    }
}

/// The magnitude of the scaled quantity, in hundredths, rounded half-up:
/// the exact value of `raw / den` with two decimal digits kept.
pub open spec fn spec_cents(raw: u64, level: u8) -> nat
    recommends
        1 <= level <= 5,
{
    ((raw as nat) * 100 + spec_den(level) / 2) / spec_den(level)
}

/// The display text of a scaled quantity: the magnitude with exactly two
/// decimal digits, followed immediately by the unit character.
pub open spec fn spec_size_text(s: Size) -> Seq<char> {
    spec_digits(spec_cents(s.raw, s.level) / 100) + seq![
        '.',
        spec_digit_char((spec_cents(s.raw, s.level) % 100) / 10),
        spec_digit_char((spec_cents(s.raw, s.level) % 100) % 10),
        spec_unit_char(s.level),
    ]
}

/// The concrete values of the per-level divisors.
pub proof fn lemma_den_values()
    ensures
        spec_den(1) == 8,
        spec_den(2) == 8192,
        spec_den(3) == 8388608,
        spec_den(4) == 8589934592,
        spec_den(5) == 8796093022208,
{
    assert(pow1024(0) == 1);
    assert(pow1024(1) == 1024);
    assert(pow1024(2) == 1048576);
    assert(pow1024(3) == 1073741824);
    assert(pow1024(4) == 1099511627776);
}

/// A raw counter rescaled to a human-readable magnitude and unit.
///
/// The magnitude is kept exactly: it is the raw count together with the
/// unit level it scales to, and its value is `raw / (8 * 1024^(level-1))`.
#[derive(Clone, Copy, Debug, PartialEq, Eq, Structural)]
pub struct Size {
    pub raw: u64,
    pub level: u8,
}

impl Size {
    /// A size is well formed when its unit level is the one its raw
    /// count scales to.
    pub open spec fn wf(self) -> bool {
        self.level == spec_level(self.raw)
    }

    /// Scales a raw counter: an initial magnitude of `size / 8`, then
    /// repeated division by 1024 while the magnitude is at least 1024
    /// and the largest unit has not been reached.
    pub fn convent_from(size: u64) -> (r: Size)
        ensures
            r.wf(),
            r.raw == size,
            r.level == spec_level(size),
    {
        proof {
            lemma_den_values();
        }
        let mut level: u8 = 1;
        let mut den: u64 = 8;
        while size >= den * 1024 && level < 5
            invariant
                1 <= level <= 5,
                den == spec_den(level),
                den <= 8796093022208,
                level > 1 ==> size >= spec_den(level),
            decreases 5 - level,
        {
            proof {
                lemma_den_values();
                assert(pow1024(level as nat) == 1024 * pow1024((level - 1) as nat));
                assert(spec_den((level + 1) as u8) == 1024 * spec_den(level));
            }
            den = den * 1024;
            level = level + 1;
        }
        proof {
            lemma_den_values();
        }
        Size { raw: size, level }
    }

    /// The unit character the size displays with.
    pub fn unit(&self) -> (c: char)
        ensures
            c == spec_unit_char(self.level),
    {
        if self.level <= 1 {
            'k'
        } else if self.level == 2 {
            'M'
        } else if self.level == 3 {
            'G'
        } else if self.level == 4 {
            'T'
        } else {
            'P'
        }
    }

    /// The display text of the size, e.g. `12.34M`: the exact magnitude
    /// rounded half-up to two decimal digits, then the unit character.
    pub fn format(self) -> (r: String)
        requires
            self.wf(),
        ensures
            r@ == spec_size_text(self),
    {
        proof {
            lemma_den_values();
        }
        let den: u64 = den_of(self.level);
        let q: u64 = self.raw / den;
        let r2: u64 = self.raw % den;
        let cf: u64 = (r2 * 100 + den / 2) / den;
        proof {
            lemma_cents_split(self.raw, self.level, den);
            lemma_div_is_ordered_by_denominator(self.raw as int, 8, den as int);
            lemma_div_is_ordered(self.raw as int, u64::MAX as int, 8);
        }
        let whole: u64 = if cf == 100 {
            q + 1
        } else {
            q
        };
        let rem: u64 = if cf == 100 {
            0
        } else {
            cf
        };
        proof {
            let c = spec_cents(self.raw, self.level) as int;
            let qi = q as int;
            let cfi = cf as int;
            if cf == 100 {
                assert(c == (qi + 1) * 100);
                assert(c / 100 == qi + 1 && c % 100 == 0) by {
                    lemma_hoist_over_denominator(0, qi + 1, 100);
                    lemma_small_mod(0, 100);
                    assert((qi + 1) * 100 % 100 == 0) by {
                        vstd::arithmetic::div_mod::lemma_mod_multiples_basic(qi + 1, 100);
                    }
                }
            } else {
                assert(c == qi * 100 + cfi);
                assert(c / 100 == qi) by {
                    lemma_hoist_over_denominator(cfi, qi, 100);
                }
                assert(c % 100 == cfi) by {
                    vstd::arithmetic::div_mod::lemma_mod_multiples_vanish(qi, cfi, 100);
                    assert(qi * 100 + cfi == 100 * qi + cfi);
                    lemma_small_mod(cf as nat, 100);
                }
            }
        }
        let mut s = u64_string(whole);
        s.append(".");
        s.append(digit_str(rem / 10));
        s.append(digit_str(rem % 10));
        s.append(unit_str(self.level));
        proof {
            reveal_strlit(".");
            assert(s@ =~= spec_size_text(self));
        }
        s
    }
}

/// The per-level divisor as a machine integer.
pub(crate) fn den_of(level: u8) -> (den: u64)
    requires
        1 <= level <= 5,
    ensures
        den == spec_den(level),
{
    proof {
        lemma_den_values();
    }
    if level == 1 {
        8
    } else if level == 2 {
        8192
    } else if level == 3 {
        8388608
    } else if level == 4 {
        8589934592
    } else {
        8796093022208
    }
}

/// The unit character as a one-character string slice.
fn unit_str(level: u8) -> (r: &'static str)
    ensures
        r@ == seq![spec_unit_char(level)],
{
    proof {
        reveal_strlit("k");
        reveal_strlit("M");
        reveal_strlit("G");
        reveal_strlit("T");
        reveal_strlit("P");
    }
    if level <= 1 {
        "k"
    } else if level == 2 {
        "M"
    } else if level == 3 {
        "G"
    } else if level == 4 {
        "T"
    } else {
        "P"
    }
}

/// Splitting the rounded hundredths at the divisor: the whole quotient
/// contributes its hundred-fold, and the remainder contributes the
/// rounded fractional hundredths, which never exceed 100.
proof fn lemma_cents_split(raw: u64, level: u8, den: u64)
    requires
        1 <= level <= 5,
        den == spec_den(level),
        den >= 8,
        den % 2 == 0,
    ensures
        spec_cents(raw, level) == (raw as int / den as int) * 100 + ((raw as int % den as int)
            * 100 + den as int / 2) / den as int,
        ((raw as int % den as int) * 100 + den as int / 2) / den as int <= 100,
{
    let r = raw as int;
    let d = den as int;
    let q = r / d;
    let r2 = r % d;
    lemma_fundamental_div_mod(r, d);
    assert(r == d * q + r2);
    assert(r * 100 == r2 * 100 + (q * 100) * d) by (nonlinear_arith)
        requires
            r == d * q + r2,
    ;
    lemma_hoist_over_denominator(r2 * 100 + d / 2, q * 100, den as nat);
    assert((r2 * 100 + d / 2) / d + q * 100 == (r * 100 + d / 2) / d);
    assert(spec_cents(raw, level) == (r * 100 + d / 2) / d);
    // The fractional hundredths are at most 100.
    assert(r2 * 100 + d / 2 <= 101 * d - 1) by (nonlinear_arith)
        requires
            0 <= r2 < d,
            d >= 8,
    ;
    assert((101 * d - 1) / d == 100) by {
        lemma_hoist_over_denominator(d - 1, 100, den as nat);
        assert(d - 1 + 100 * d == 101 * d - 1);
        assert((d - 1) / d == 0) by {
            vstd::arithmetic::div_mod::lemma_basic_div_specific_divisor(d);
        }
    }
    lemma_div_is_ordered(r2 * 100 + d / 2, 101 * d - 1, d);
}

/// Quantity scaling law: every raw counter scales to one of the five
/// units k, M, G, T, P, and, except at the largest unit, to a magnitude
/// below 1024; above the smallest unit the magnitude is at least 1.
pub proof fn lemma_scale_invariant(raw: u64)
    ensures
        1 <= spec_level(raw) <= 5,
        spec_level(raw) < 5 ==> (raw as nat) < 1024 * spec_den(spec_level(raw)),
        spec_level(raw) > 1 ==> spec_den(spec_level(raw)) <= raw as nat,
{
    lemma_den_values();
}

} // verus!
