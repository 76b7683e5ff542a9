//! Measured quantities in fixed point: whole millionths of the unit in which
//! a probe reports them (milliseconds, bytes, packets, a plain ratio).

use vstd::prelude::*;

verus! {

/// Millionths in one unit.
pub const MICROS_PER_UNIT: i64 = 1_000_000;

/// A measured or derived quantity. `Value(m)` stands for `m` millionths of
/// the unit; `Invalid` stands for what is no finite number, or is too large
/// to be held.
#[derive(Clone, Copy, Debug, PartialEq, Eq, Structural)]
pub enum Reading {
    Value(i64),
    Invalid,
}

/// The reading for `n` millionths, where that fits.
pub open spec fn reading_of(n: int) -> Reading {
    if i64::MIN <= n <= i64::MAX {
        Reading::Value(n as i64)
    } else {
        Reading::Invalid
    }
}

/// The sum of two readings: invalid where either is, or where the sum does
/// not fit.
pub open spec fn sum_of(a: Reading, b: Reading) -> Reading {
    match (a, b) {
        (Reading::Value(x), Reading::Value(y)) => reading_of(x + y),
        _ => Reading::Invalid,
    }
}

/// The share `part / whole` as a reading, rounded towards zero; 0 where
/// `whole` is not a positive number.
pub open spec fn share_of(part: Reading, whole: Reading) -> Reading {
    match whole {
        Reading::Value(w) if w > 0 => match part {
            Reading::Value(p) => if p >= 0 {
                reading_of((p * 1_000_000) / (w as int))
            } else {
                reading_of(-((-p * 1_000_000) / (w as int)))
            },
            Reading::Invalid => Reading::Invalid,
        },
        _ => Reading::Value(0),
    }
}

/// `factor` times the reading, where the reading is valid and the product
/// fits.
pub open spec fn scaled_by(a: Reading, factor: int) -> Reading {
    match a {
        Reading::Value(x) => reading_of(x * factor),
        Reading::Invalid => Reading::Invalid,
    }
}

/// The reading times `num / den`, rounded towards zero, where the reading
/// is valid and the result fits.
pub open spec fn fraction_of(a: Reading, num: int, den: int) -> Reading {
    match a {
        Reading::Value(x) => if x >= 0 {
            reading_of((x * num) / den)
        } else {
            reading_of(-((-x * num) / den))
        },
        Reading::Invalid => Reading::Invalid,
    }
}

impl Reading {
    /// The reading times `num / den`, rounded towards zero.
    pub fn times_fraction(self, num: u32, den: u32) -> (r: Reading)
        requires
            den > 0,
        ensures
            r == fraction_of(self, num as int, den as int),
    {
        match self {
            Reading::Value(x) => {
                if x >= 0 {
                    assert((x as u128) * (num as u128) <= 0x8000_0000_0000_0000 * 0x1_0000_0000)
                        by (nonlinear_arith)
                        requires
                            0 <= x <= 0x8000_0000_0000_0000,
                            num <= 0x1_0000_0000,
                    ;
                    let scaled: u128 = (x as u128) * (num as u128);
                    let q: u128 = scaled / (den as u128);
                    if q <= i64::MAX as u128 {
                        Reading::Value(q as i64)
                    } else {
                        Reading::Invalid
                    }
                } else {
                    let m: u128 = (-(x as i128)) as u128;
                    assert(m * (num as u128) <= 0x8000_0000_0000_0000 * 0x1_0000_0000)
                        by (nonlinear_arith)
                        requires
                            m <= 0x8000_0000_0000_0000,
                            num <= 0x1_0000_0000,
                    ;
                    let scaled: u128 = m * (num as u128);
                    let q: u128 = scaled / (den as u128);
                    assert(q <= scaled) by (nonlinear_arith)
                        requires
                            q == scaled / (den as u128),
                            den >= 1,
                    ;
                    if q <= 0x8000_0000_0000_0000u128 {
                        Reading::Value((-(q as i128)) as i64)
                    } else {
                        Reading::Invalid
                    }
                }
            },
            Reading::Invalid => Reading::Invalid,
        }
    }

    /// The reading for a whole number of units.
    pub fn from_units(units: i64) -> (r: Reading)
        ensures
            r == reading_of(units * 1_000_000),
    {
        match units.checked_mul(MICROS_PER_UNIT) {
            Some(m) => Reading::Value(m),
            None => Reading::Invalid,
        }
    }

    /// The reading stands for a finite number.
    pub open spec fn finite(self) -> bool {
        self is Value
    }

    /// The reading is a finite number above `bound` millionths.
    pub open spec fn above(self, bound: int) -> bool {
        match self {
            Reading::Value(m) => m > bound,
            Reading::Invalid => false,
        }
    }

    /// The reading is a finite number of at least zero.
    pub open spec fn non_negative(self) -> bool {
        match self {
            Reading::Value(m) => m >= 0,
            Reading::Invalid => false,
        }
    }

    /// Whether the reading stands for a finite number.
    pub fn is_finite(self) -> (b: bool)
        ensures
            b == self.finite(),
    {
        match self {
            Reading::Value(_) => true,
            Reading::Invalid => false,
        }
    }

    /// Whether the reading is a finite number above zero.
    pub fn is_above_zero(self) -> (b: bool)
        ensures
            b == self.above(0),
    {
        match self {
            Reading::Value(m) => m > 0,
            Reading::Invalid => false,
        }
    }

    /// Whether the reading is a finite number above one unit.
    pub fn is_above_one(self) -> (b: bool)
        ensures
            b == self.above(1_000_000),
    {
        match self {
            Reading::Value(m) => m > MICROS_PER_UNIT,
            Reading::Invalid => false,
        }
    }

    /// Whether the reading is a finite number of at least zero.
    pub fn is_non_negative(self) -> (b: bool)
        ensures
            b == self.non_negative(),
    {
        match self {
            Reading::Value(m) => m >= 0,
            Reading::Invalid => false,
        }
    }

    /// The sum of two readings.
    pub fn plus(self, other: Reading) -> (r: Reading)
        ensures
            r == sum_of(self, other),
    {
        match (self, other) {
            (Reading::Value(x), Reading::Value(y)) => match x.checked_add(y) {
                Some(s) => Reading::Value(s),
                None => Reading::Invalid,
            },
            _ => Reading::Invalid,
        }
    }

    /// The share `self / whole`, rounded towards zero; 0 where `whole` is
    /// not a positive number.
    pub fn share(self, whole: Reading) -> (r: Reading)
        ensures
            r == share_of(self, whole),
    {
        match whole {
            Reading::Value(w) => {
                if w <= 0 {
                    return Reading::Value(0);
                }
                match self {
                    Reading::Value(p) => {
                        if p >= 0 {
                            let scaled: u128 = (p as u128) * 1_000_000;
                            let q: u128 = scaled / (w as u128);
                            assert(q <= scaled) by (nonlinear_arith)
                                requires
                                    q == scaled / (w as u128),
                                    w >= 1,
                            ;
                            if q <= i64::MAX as u128 {
                                Reading::Value(q as i64)
                            } else {
                                Reading::Invalid
                            }
                        } else {
                            let scaled: u128 = ((-(p as i128)) as u128) * 1_000_000;
                            let q: u128 = scaled / (w as u128);
                            assert(q <= scaled) by (nonlinear_arith)
                                requires
                                    q == scaled / (w as u128),
                                    w >= 1,
                            ;
                            if q <= 0x8000_0000_0000_0000u128 {
                                Reading::Value((-(q as i128)) as i64)
                            } else {
                                Reading::Invalid
                            }
                        }
                    },
                    Reading::Invalid => Reading::Invalid,
                }
            },
            Reading::Invalid => Reading::Value(0),
        }
    }

    /// The reading multiplied by a whole number.
    pub fn times(self, factor: i64) -> (r: Reading)
        ensures
            r == scaled_by(self, factor as int),
    {
        match self {
            Reading::Value(x) => match x.checked_mul(factor) {
                Some(p) => Reading::Value(p),
                None => Reading::Invalid,
            },
            Reading::Invalid => Reading::Invalid,
        }
    }
}

/// The share of nothing in nothing is zero, and the share of a part in a
/// whole that holds it lies between zero and one.
pub proof fn lemma_share_within_unit(part: i64, whole: i64)
    requires
        0 <= part <= whole,
    ensures
        share_of(Reading::Value(0), Reading::Value(0)) == Reading::Value(0),
        share_of(Reading::Value(part), Reading::Value(whole)) is Value,
        0 <= share_of(Reading::Value(part), Reading::Value(whole))->Value_0 <= 1_000_000,
{
    if whole > 0 {
        let q = (part * 1_000_000) / (whole as int);
        assert(0 <= q <= 1_000_000) by (nonlinear_arith)
            requires
                0 <= part <= whole,
                whole > 0,
                q == (part * 1_000_000) / (whole as int),
        ;
    }
}

/// The reading that an absent field stands for: zero.
pub open spec fn or_zero(r: Option<Reading>) -> Reading {
    match r {
        Some(v) => v,
        None => Reading::Value(0),
    }
}

/// The reading of an optional field, zero where it is absent.
pub fn reading_or_zero(r: Option<Reading>) -> (out: Reading)
    ensures
        out == or_zero(r),
{
    match r {
        Some(v) => v,
        None => Reading::Value(0),
    }
}

} // verus!
